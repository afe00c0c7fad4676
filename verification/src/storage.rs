//! Where settings are kept, and what files and directories are trusted with them.
use crate::config;
use crate::config::ConfigError;
use crate::path;
use crate::text;
use vstd::prelude::*;
use vstd::string::*;
use vstd::utf8::*;

verus! {

/// What the file system says of a path, without following a link at its end.
#[derive(Clone, Copy, Debug, PartialEq, Eq, Structural)]
pub struct FileFacts {
    pub is_file: bool,
    pub is_dir: bool,
    pub is_socket: bool,
    pub uid: u32,
    pub mode: u32,
    pub len: u64,
    pub device: u64,
    pub inode: u64,
}

/// The answer to a question for a path.
#[derive(Clone, Copy, Debug, PartialEq, Eq, Structural)]
pub enum Lookup {
    Found(FileFacts),
    Missing,
    Failed,
}

/// The largest settings file that is read, in bytes.
pub const MAX_CONFIG_BYTES: u64 = 65536;

/// Neither the group nor others have any permission.
pub open spec fn private_mode(mode: u32) -> bool {
    mode & 0o077 == 0
}

/// Whether something on disk can be trusted.
#[derive(Clone, Copy, Debug, PartialEq, Eq, Structural)]
pub enum Standing {
    Trusted,
    RootUser,
    Unsafe,
}

/// Something on disk is trusted when it is of the right kind, the user (not root) owns it and,
/// where that is asked for, nobody else has access. Its kind is looked at first.
pub open spec fn standing_of(right_kind: bool, facts: FileFacts, user: u32, private: bool) -> Standing {
    if !right_kind {
        Standing::Unsafe
    } else if user == 0 {
        Standing::RootUser
    } else if facts.uid != user || (private && !private_mode(facts.mode)) {
        Standing::Unsafe
    } else {
        Standing::Trusted
    }
}

/// Whether something on disk can be trusted.
pub fn standing(right_kind: bool, facts: &FileFacts, user: u32, private: bool) -> (r: Standing)
    ensures
        r == standing_of(right_kind, *facts, user, private),
{
    if !right_kind {
        return Standing::Unsafe;
    }
    match ensure_user(user) {
        Err(_) => Standing::RootUser,
        Ok(uid) => {
            if facts.uid != uid || (private && facts.mode & 0o077 != 0) {
                Standing::Unsafe
            } else {
                Standing::Trusted
            }
        },
    }
}

/// The effective user, unless it is root.
pub fn ensure_user(uid: u32) -> (r: Result<u32, ConfigError>)
    ensures
        r == (if uid == 0 {
            Err::<u32, ConfigError>(ConfigError::RootUser)
        } else {
            Ok(uid)
        }),
{
    if uid == 0 {
        Err(ConfigError::RootUser)
    } else {
        Ok(uid)
    }
}

/// Why there is no settings file to look for.
#[derive(Debug)]
pub enum PlaceError {
    /// The place is refused.
    Refused(ConfigError),
    /// The system could not name the current directory, with its reason.
    System(String),
}

/// Why there is no settings file, as mathematics sees it.
pub enum PlaceErrorView {
    Refused(ConfigError),
    System(Seq<char>),
}

impl View for PlaceError {
    type V = PlaceErrorView;

    open spec fn view(&self) -> PlaceErrorView {
        match self {
            PlaceError::Refused(e) => PlaceErrorView::Refused(*e),
            PlaceError::System(reason) => PlaceErrorView::System(reason@),
        }
    }
}

impl PlaceError {
    /// The text of the error: the system's own where it is the system's.
    pub fn message(&self, place: &[u8]) -> (r: String)
        ensures
            r@ == (match self@ {
                PlaceErrorView::Refused(e) => config::config_text(e, place@),
                PlaceErrorView::System(reason) => reason,
            }),
    {
        match self {
            PlaceError::Refused(e) => e.message(place),
            PlaceError::System(reason) => reason.clone(),
        }
    }
}

/// What the process was started with: its directory, or the system's reason for not naming it,
/// and the variables that name others.
#[derive(Debug)]
pub struct Environment {
    pub current_dir: Result<Vec<u8>, String>,
    pub xdg_config_home: Option<Vec<u8>>,
    pub home: Option<Vec<u8>>,
}

impl Environment {
    /// The directory for settings: the one that XDG names if it names any, else the one below
    /// the home directory. Either must be absolute.
    pub open spec fn settings_home(self) -> Result<Seq<u8>, ConfigError> {
        if self.xdg_config_home matches Some(x) && x@.len() > 0 {
            if path::rooted(self.xdg_config_home->0@) {
                Ok(self.xdg_config_home->0@)
            } else {
                Err(ConfigError::RelativeConfigHome)
            }
        } else {
            match self.home {
                None => Err(ConfigError::HomeUnset),
                Some(home) => if path::rooted(home@) {
                    Ok(path::joined(home@, encode_utf8(".config"@)))
                } else {
                    Err(ConfigError::RelativeHome)
                },
            }
        }
    }

    /// The place that a given path, or the lack of one, stands for. The current directory matters
    /// only to a relative path.
    pub open spec fn settings_place(self, given: Option<Vec<u8>>) -> Result<
        Seq<u8>,
        PlaceErrorView,
    > {
        match given {
            Some(p) => if path::rooted(p@) {
                Ok(p@)
            } else {
                match self.current_dir {
                    Ok(dir) => Ok(path::joined(dir@, p@)),
                    Err(reason) => Err(PlaceErrorView::System(reason@)),
                }
            },
            None => match self.settings_home() {
                Ok(home) => Ok(
                    path::joined(home, encode_utf8("bluetooth-audio-bridge/config.toml"@)),
                ),
                Err(e) => Err(PlaceErrorView::Refused(e)),
            },
        }
    }

    /// The settings file: the place, if it names a file without stepping up to a parent.
    pub open spec fn settings_file(self, given: Option<Vec<u8>>) -> Result<
        Seq<u8>,
        PlaceErrorView,
    > {
        match self.settings_place(given) {
            Ok(p) => if path::names_file_directly(p) {
                Ok(p)
            } else {
                Err(PlaceErrorView::Refused(ConfigError::IndirectPath))
            },
            Err(e) => Err(e),
        }
    }
}

/// The bytes of a path or the error, as views.
pub open spec fn path_view(r: Result<Vec<u8>, ConfigError>) -> Result<Seq<u8>, ConfigError> {
    match r {
        Ok(p) => Ok(p@),
        Err(e) => Err(e),
    }
}

/// The bytes of the settings file or the error, as views.
pub open spec fn place_view(r: Result<Vec<u8>, PlaceError>) -> Result<Seq<u8>, PlaceErrorView> {
    match r {
        Ok(p) => Ok(p@),
        Err(e) => Err(e@),
    }
}

/// The directory for settings.
pub fn config_home(environment: &Environment) -> (r: Result<Vec<u8>, ConfigError>)
    ensures
        path_view(r) == environment.settings_home(),
{
    if let Some(x) = &environment.xdg_config_home {
        if x.len() > 0 {
            if !path::is_absolute(x.as_slice()) {
                return Err(ConfigError::RelativeConfigHome);
            }
            return Ok(path::copy_bytes(x.as_slice()));
        }
    }
    match &environment.home {
        None => Err(ConfigError::HomeUnset),
        Some(home) => {
            if !path::is_absolute(home.as_slice()) {
                return Err(ConfigError::RelativeHome);
            }
            Ok(path::join(home.as_slice(), ".config".as_bytes()))
        },
    }
}

/// The settings file that a given path, or the lack of one, stands for.
pub fn config_path(given: Option<Vec<u8>>, environment: &Environment) -> (r: Result<
    Vec<u8>,
    PlaceError,
>)
    ensures
        place_view(r) == environment.settings_file(given),
{
    let place = match given {
        Some(p) => {
            if path::is_absolute(p.as_slice()) {
                p
            } else {
                match &environment.current_dir {
                    Ok(dir) => path::join(dir.as_slice(), p.as_slice()),
                    Err(reason) => {
                        return Err(PlaceError::System(reason.clone()));
                    },
                }
            }
        },
        None => match config_home(environment) {
            Ok(home) => path::join(
                home.as_slice(),
                "bluetooth-audio-bridge/config.toml".as_bytes(),
            ),
            Err(e) => {
                return Err(PlaceError::Refused(e));
            },
        },
    };
    if !path::is_direct_file_path(place.as_slice()) {
        return Err(PlaceError::Refused(ConfigError::IndirectPath));
    }
    Ok(place)
}

/// The settings file is absolute wherever the process was started from an absolute directory.
pub proof fn settings_file_is_absolute(environment: Environment, given: Option<Vec<u8>>)
    requires
        environment.current_dir matches Ok(dir) ==> path::rooted(dir@),
    ensures
        environment.settings_file(given) matches Ok(p) ==> path::rooted(p)
            && path::names_file_directly(p),
{
    match given {
        Some(p) => {
            if !path::rooted(p@) && environment.current_dir is Ok {
                path::join_keeps_root(environment.current_dir->Ok_0@, p@);
            }
        },
        None => {
            if environment.settings_home() is Ok {
                if !(environment.xdg_config_home matches Some(x) && x@.len() > 0) {
                    path::join_keeps_root(environment.home->0@, encode_utf8(".config"@));
                }
                path::join_keeps_root(
                    environment.settings_home()->Ok_0,
                    encode_utf8("bluetooth-audio-bridge/config.toml"@),
                );
            }
        },
    }
}

/// What to do next to have a private directory.
#[derive(Clone, Copy, Debug, PartialEq, Eq, Structural)]
pub enum DirStep {
    /// Look at the directory.
    Inspect,
    /// Create the directories above it, with access for the user alone.
    CreateParents,
    /// Create it, with access for the user alone.
    Create,
    /// It is there.
    Done,
    /// It is there and cannot be trusted.
    Refuse(ConfigError),
    /// The last action failed, and so does the whole.
    Fail,
}

/// What came of the last action.
#[derive(Clone, Copy, Debug, PartialEq, Eq, Structural)]
pub enum DirEvent {
    /// The directory was looked at; `parents_missing` says whether what is above it is not there.
    Inspected { found: Lookup, parents_missing: bool },
    Created,
    AlreadyExists,
    Failed,
}

/// What a private directory must be.
pub open spec fn directory_verdict(facts: FileFacts, user: u32) -> Result<(), ConfigError> {
    match standing_of(facts.is_dir, facts, user, true) {
        Standing::Trusted => Ok(()),
        Standing::RootUser => Err(ConfigError::RootUser),
        Standing::Unsafe => Err(ConfigError::UnsafeDirectory),
    }
}

/// The step that follows `step` after `event`.
pub open spec fn next_dir_step(step: DirStep, event: DirEvent, user: u32) -> DirStep {
    match (step, event) {
        (DirStep::Inspect, DirEvent::Inspected { found, parents_missing }) => match found {
            Lookup::Found(facts) => match directory_verdict(facts, user) {
                Ok(_) => DirStep::Done,
                Err(e) => DirStep::Refuse(e),
            },
            Lookup::Missing => if parents_missing {
                DirStep::CreateParents
            } else {
                DirStep::Create
            },
            Lookup::Failed => DirStep::Fail,
        },
        (DirStep::CreateParents, DirEvent::Created) => DirStep::Create,
        (DirStep::Create, DirEvent::Created) => DirStep::Done,
        (DirStep::Create, DirEvent::AlreadyExists) => DirStep::Inspect,
        _ => DirStep::Fail,
    }
}

/// What to do next to have a private directory, starting from `DirStep::Inspect`.
pub fn private_dir(step: DirStep, event: DirEvent, user: u32) -> (r: DirStep)
    ensures
        r == next_dir_step(step, event, user),
{
    match (step, event) {
        (DirStep::Inspect, DirEvent::Inspected { found, parents_missing }) => match found {
            Lookup::Found(facts) => match standing(facts.is_dir, &facts, user, true) {
                Standing::Trusted => DirStep::Done,
                Standing::RootUser => DirStep::Refuse(ConfigError::RootUser),
                Standing::Unsafe => DirStep::Refuse(ConfigError::UnsafeDirectory),
            },
            Lookup::Missing => {
                if parents_missing {
                    DirStep::CreateParents
                } else {
                    DirStep::Create
                }
            },
            Lookup::Failed => DirStep::Fail,
        },
        (DirStep::CreateParents, DirEvent::Created) => DirStep::Create,
        (DirStep::Create, DirEvent::Created) => DirStep::Done,
        (DirStep::Create, DirEvent::AlreadyExists) => DirStep::Inspect,
        _ => DirStep::Fail,
    }
}

/// The steps end well only for a directory that the process made itself, or for one that was
/// found to be the user's own and closed to everyone else.
pub proof fn private_directory_is_private(step: DirStep, event: DirEvent, user: u32)
    requires
        next_dir_step(step, event, user) == DirStep::Done,
    ensures
        (step == DirStep::Create && event == DirEvent::Created) || (event matches DirEvent::Inspected {
            found: Lookup::Found(facts),
            ..
        } && facts.is_dir && facts.uid == user && user != 0 && private_mode(facts.mode)),
{
}

/// What a settings file must be to be read: the user's own, closed to everyone else, and small.
pub open spec fn config_file_verdict(facts: FileFacts, user: u32) -> Result<(), ConfigError> {
    match standing_of(facts.is_file, facts, user, true) {
        Standing::RootUser => Err(ConfigError::RootUser),
        Standing::Unsafe => Err(ConfigError::UnsafeFile),
        Standing::Trusted => if facts.len > MAX_CONFIG_BYTES {
            Err(ConfigError::FileTooLarge)
        } else {
            Ok(())
        },
    }
}

/// Whether a settings file may be read.
pub fn check_config_file(facts: &FileFacts, user: u32) -> (r: Result<(), ConfigError>)
    ensures
        r == config_file_verdict(*facts, user),
{
    match standing(facts.is_file, facts, user, true) {
        Standing::RootUser => Err(ConfigError::RootUser),
        Standing::Unsafe => Err(ConfigError::UnsafeFile),
        Standing::Trusted => {
            if facts.len > MAX_CONFIG_BYTES {
                Err(ConfigError::FileTooLarge)
            } else {
                Ok(())
            }
        },
    }
}

/// What may be replaced by new settings: nothing, something that cannot be looked at, or a
/// regular file of the user's.
pub open spec fn replace_verdict(target: Lookup, user: u32) -> Result<(), ConfigError> {
    match target {
        Lookup::Found(facts) => match standing_of(facts.is_file, facts, user, false) {
            Standing::RootUser => Err(ConfigError::RootUser),
            Standing::Unsafe => Err(ConfigError::ForeignTarget),
            Standing::Trusted => Ok(()),
        },
        _ => Ok(()),
    }
}

/// Whether what stands at the settings file's place may be replaced.
pub fn check_replacement(target: Lookup, user: u32) -> (r: Result<(), ConfigError>)
    ensures
        r == replace_verdict(target, user),
{
    match target {
        Lookup::Found(facts) => match standing(facts.is_file, &facts, user, false) {
            Standing::RootUser => Err(ConfigError::RootUser),
            Standing::Unsafe => Err(ConfigError::ForeignTarget),
            Standing::Trusted => Ok(()),
        },
        _ => Ok(()),
    }
}

/// The name of the temporary file that new settings are written to.
pub open spec fn temporary(process: u32, sequence: u64) -> Seq<char> {
    ".config-"@ + text::decimal(process as nat) + "-"@ + text::decimal(sequence as nat) + ".tmp"@
}

/// The name of the temporary file for the `sequence`-th save of a process.
pub fn temporary_name(process: u32, sequence: u64) -> (r: String)
    ensures
        r@ == temporary(process, sequence),
{
    let mut name = String::from_str(".config-");
    name.append(text::decimal_text(process as u64).as_str());
    name.append("-");
    name.append(text::decimal_text(sequence).as_str());
    name.append(".tmp");
    name
}

/// Two saves of one process never share a temporary file.
pub proof fn temporary_names_differ(process: u32, a: u64, b: u64)
    requires
        temporary(process, a) == temporary(process, b),
    ensures
        a == b,
{
    let before = ".config-"@ + text::decimal(process as nat) + "-"@;
    let x = text::decimal(a as nat);
    let y = text::decimal(b as nat);
    let end = ".tmp"@;
    assert(temporary(process, a).len() == before.len() + x.len() + end.len());
    assert(temporary(process, b).len() == before.len() + y.len() + end.len());
    assert(x =~= temporary(process, a).subrange(
        before.len() as int,
        before.len() as int + x.len(),
    ));
    assert(y =~= temporary(process, b).subrange(
        before.len() as int,
        before.len() as int + y.len(),
    ));
    text::decimal_is_injective(a as nat, b as nat);
}

/// What to do next with a new temporary file.
#[derive(Clone, Copy, Debug, PartialEq, Eq, Structural)]
pub enum SaveStep {
    Write,
    SyncFile,
    Rename,
    SyncDirectory,
    /// Remove the temporary file; what comes of it does not matter.
    Discard,
    Saved,
    Failed,
}

/// The step that follows `step`, given whether it succeeded.
pub open spec fn next_save_step(step: SaveStep, succeeded: bool) -> SaveStep {
    match step {
        SaveStep::Write => if succeeded {
            SaveStep::SyncFile
        } else {
            SaveStep::Discard
        },
        SaveStep::SyncFile => if succeeded {
            SaveStep::Rename
        } else {
            SaveStep::Discard
        },
        SaveStep::Rename => if succeeded {
            SaveStep::SyncDirectory
        } else {
            SaveStep::Discard
        },
        SaveStep::SyncDirectory => if succeeded {
            SaveStep::Saved
        } else {
            SaveStep::Discard
        },
        SaveStep::Discard => SaveStep::Failed,
        SaveStep::Saved => SaveStep::Saved,
        SaveStep::Failed => SaveStep::Failed,
    }
}

/// What to do next with a new temporary file, starting from `SaveStep::Write`.
pub fn save_step(step: SaveStep, succeeded: bool) -> (r: SaveStep)
    ensures
        r == next_save_step(step, succeeded),
{
    match step {
        SaveStep::Write => {
            if succeeded {
                SaveStep::SyncFile
            } else {
                SaveStep::Discard
            }
        },
        SaveStep::SyncFile => {
            if succeeded {
                SaveStep::Rename
            } else {
                SaveStep::Discard
            }
        },
        SaveStep::Rename => {
            if succeeded {
                SaveStep::SyncDirectory
            } else {
                SaveStep::Discard
            }
        },
        SaveStep::SyncDirectory => {
            if succeeded {
                SaveStep::Saved
            } else {
                SaveStep::Discard
            }
        },
        SaveStep::Discard => SaveStep::Failed,
        SaveStep::Saved => SaveStep::Saved,
        SaveStep::Failed => SaveStep::Failed,
    }
}

/// The step reached after the given outcomes, oldest first.
pub open spec fn save_progress(outcomes: Seq<bool>) -> SaveStep
    decreases outcomes.len(),
{
    if outcomes.len() == 0 {
        SaveStep::Write
    } else {
        next_save_step(save_progress(outcomes.drop_last()), outcomes.last())
    }
}

/// The settings file is replaced only once the new one was written and synced, a save is
/// reported only once the replacement was synced too, and every failure removes the temporary
/// file.
pub proof fn saves_are_atomic(outcomes: Seq<bool>)
    ensures
        save_progress(outcomes) == SaveStep::Rename <==> outcomes == seq![true, true],
        save_progress(outcomes) == SaveStep::Saved <==> outcomes.len() >= 4 && outcomes.take(4)
            == seq![true, true, true, true],
        save_progress(outcomes) == SaveStep::Discard ==> outcomes.len() >= 1 && !outcomes.last(),
        save_progress(outcomes) == SaveStep::Failed ==> exists|k: int|
            0 < k < outcomes.len() && save_progress(#[trigger] outcomes.take(k))
                == SaveStep::Discard,
    decreases outcomes.len(),
{
    if outcomes.len() == 0 {
    } else {
        let before = outcomes.drop_last();
        saves_are_atomic(before);
        assert(outcomes =~= before.push(outcomes.last()));
        if save_progress(outcomes) == SaveStep::Failed {
            if save_progress(before) == SaveStep::Discard {
                assert(outcomes.take(outcomes.len() - 1) =~= before);
            } else {
                let k = choose|k: int|
                    0 < k < before.len() && save_progress(#[trigger] before.take(k))
                        == SaveStep::Discard;
                assert(outcomes.take(k) =~= before.take(k));
            }
        }
        reveal_with_fuel(save_progress, 6);
        if outcomes.len() <= 4 {
            let n = outcomes.len();
            if n >= 1 {
                assert(outcomes =~= seq![outcomes[0]] || n > 1);
            }
            if n == 2 {
                assert(outcomes =~= seq![outcomes[0], outcomes[1]]);
                assert(before =~= seq![outcomes[0]]);
                assert(before.drop_last() =~= Seq::<bool>::empty());
            }
            if n == 3 {
                assert(before =~= seq![outcomes[0], outcomes[1]]);
                assert(before.drop_last() =~= seq![outcomes[0]]);
            }
            if n == 4 {
                assert(outcomes.take(4) =~= outcomes);
                assert(outcomes =~= seq![outcomes[0], outcomes[1], outcomes[2], outcomes[3]]);
            }
        } else {
            assert(outcomes.take(4) =~= before.take(4));
        }
    }
}

/// Nobody but the owner has a permission exactly if the last two octal digits of the mode are
/// zero.
pub proof fn private_modes_end_in_two_zeros(mode: u32)
    ensures
        private_mode(mode) <==> mode % 64 == 0,
{
    assert((mode & 0o077 == 0) <==> (mode % 64 == 0)) by (bit_vector);
}

/// Something is trusted exactly if it is of the right kind, belongs to the user, who is not root,
/// and is closed to others where that is asked for. Root is told so about anything of the right
/// kind.
pub proof fn trust_takes_kind_owner_and_mode(
    right_kind: bool,
    facts: FileFacts,
    user: u32,
    private: bool,
)
    ensures
        standing_of(right_kind, facts, user, private) == Standing::Trusted <==> right_kind && user
            != 0 && facts.uid == user && (private ==> facts.mode % 64 == 0),
        standing_of(right_kind, facts, user, private) == Standing::RootUser <==> right_kind && user
            == 0,
{
    private_modes_end_in_two_zeros(facts.mode);
}

/// A private directory, a settings file and what a save replaces are each accepted exactly if
/// they are what they must be, and refused with their own error otherwise.
pub proof fn files_are_accepted_by_what_they_are(facts: FileFacts, user: u32)
    ensures
        directory_verdict(facts, user) is Ok <==> facts.is_dir && user != 0 && facts.uid == user
            && facts.mode % 64 == 0,
        config_file_verdict(facts, user) is Ok <==> facts.is_file && user != 0 && facts.uid == user
            && facts.mode % 64 == 0 && facts.len <= 65536,
        replace_verdict(Lookup::Found(facts), user) is Ok <==> facts.is_file && user != 0
            && facts.uid == user,
        replace_verdict(Lookup::Missing, user) is Ok,
        replace_verdict(Lookup::Failed, user) is Ok,
        facts.is_dir && user == 0 <==> directory_verdict(facts, user) == Err::<(), ConfigError>(
            ConfigError::RootUser,
        ),
        facts.is_file && user == 0 <==> config_file_verdict(facts, user) == Err::<(), ConfigError>(
            ConfigError::RootUser,
        ),
        facts.is_file && user == 0 <==> replace_verdict(Lookup::Found(facts), user) == Err::<
            (),
            ConfigError,
        >(ConfigError::RootUser),
        directory_verdict(facts, user) matches Err(e) ==> e == ConfigError::RootUser || e
            == ConfigError::UnsafeDirectory,
        config_file_verdict(facts, user) matches Err(e) ==> e == ConfigError::RootUser || e
            == ConfigError::UnsafeFile || e == ConfigError::FileTooLarge,
        config_file_verdict(facts, user) == Err::<(), ConfigError>(ConfigError::FileTooLarge)
            <==> facts.is_file && user != 0 && facts.uid == user && facts.mode % 64 == 0
            && facts.len > 65536,
        replace_verdict(Lookup::Found(facts), user) matches Err(e) ==> e == ConfigError::RootUser
            || e == ConfigError::ForeignTarget,
{
    private_modes_end_in_two_zeros(facts.mode);
}

/// Settings live where XDG says, if it says anything, else below the home directory; what is said
/// must be absolute.
pub proof fn settings_live_where_the_environment_says(environment: Environment)
    ensures
        environment.xdg_config_home matches Some(x) && x@.len() > 0 && x@[0] == 47
            ==> environment.settings_home() == Ok::<Seq<u8>, ConfigError>(
            environment.xdg_config_home->0@,
        ),
        environment.xdg_config_home matches Some(x) && x@.len() > 0 && x@[0] != 47
            ==> environment.settings_home() == Err::<Seq<u8>, ConfigError>(
            ConfigError::RelativeConfigHome,
        ),
        environment.xdg_config_home is None || environment.xdg_config_home->0@.len() == 0 ==> {
            &&& environment.home is None ==> environment.settings_home() == Err::<
                Seq<u8>,
                ConfigError,
            >(ConfigError::HomeUnset)
            &&& environment.home is Some && !path::rooted(environment.home->0@) ==> environment.settings_home() == Err::<Seq<u8>, ConfigError>(
                ConfigError::RelativeHome,
            )
            &&& environment.home is Some && path::rooted(environment.home->0@) ==> environment.settings_home() == Ok::<Seq<u8>, ConfigError>(
                path::joined(environment.home->0@, encode_utf8(".config"@)),
            )
        },
{
}

/// The settings file is the path that was given, from the current directory where it is relative,
/// or the usual one; it must name a file directly.
pub proof fn settings_file_is_the_one_asked_for(
    environment: Environment,
    given: Option<Vec<u8>>,
    place: Seq<u8>,
)
    ensures
        given matches Some(p) && p@.len() > 0 && p@[0] == 47 && path::names_file_directly(p@)
            ==> environment.settings_file(given) == Ok::<Seq<u8>, PlaceErrorView>(given->0@),
        given matches Some(p) && (p@.len() == 0 || p@[0] != 47) ==> {
            &&& environment.current_dir is Ok && place == path::joined(
                environment.current_dir->Ok_0@,
                given->0@,
            ) && path::names_file_directly(place) ==> environment.settings_file(given) == Ok::<
                Seq<u8>,
                PlaceErrorView,
            >(place)
            &&& environment.current_dir is Err ==> environment.settings_file(given) == Err::<
                Seq<u8>,
                PlaceErrorView,
            >(PlaceErrorView::System(environment.current_dir->Err_0@))
        },
        given is None ==> {
            &&& environment.settings_home() is Ok && place == path::joined(
                environment.settings_home()->Ok_0,
                encode_utf8("bluetooth-audio-bridge/config.toml"@),
            ) && path::names_file_directly(place) ==> environment.settings_file(given) == Ok::<
                Seq<u8>,
                PlaceErrorView,
            >(place)
            &&& environment.settings_home() is Err ==> environment.settings_file(given) == Err::<
                Seq<u8>,
                PlaceErrorView,
            >(PlaceErrorView::Refused(environment.settings_home()->Err_0))
        },
        given matches Some(p) && p@.len() > 0 && p@[0] == 47 && !path::names_file_directly(p@)
            ==> environment.settings_file(given) == Err::<Seq<u8>, PlaceErrorView>(
            PlaceErrorView::Refused(ConfigError::IndirectPath),
        ),
        given matches Some(p) && (p@.len() == 0 || p@[0] != 47) && environment.current_dir is Ok
            && place == path::joined(environment.current_dir->Ok_0@, p@)
            && !path::names_file_directly(place) ==> environment.settings_file(given) == Err::<
            Seq<u8>,
            PlaceErrorView,
        >(PlaceErrorView::Refused(ConfigError::IndirectPath)),
        given is None && environment.settings_home() is Ok && place == path::joined(
            environment.settings_home()->Ok_0,
            encode_utf8("bluetooth-audio-bridge/config.toml"@),
        ) && !path::names_file_directly(place) ==> environment.settings_file(given) == Err::<
            Seq<u8>,
            PlaceErrorView,
        >(PlaceErrorView::Refused(ConfigError::IndirectPath)),
{
}

/// A private directory that is there is taken, one that is not is made, with what is above it
/// first where that is missing, and one that somebody else made in between is looked at again.
pub proof fn private_directories_are_made(found: Lookup, parents_missing: bool, user: u32)
    ensures
        ({
            let looked = next_dir_step(
                DirStep::Inspect,
                DirEvent::Inspected { found, parents_missing },
                user,
            );
            let facts = found->Found_0;
            let own = user != 0 && facts.uid == user && facts.mode % 64 == 0;
            &&& found is Found && facts.is_dir && own ==> looked == DirStep::Done
            &&& found is Found && facts.is_dir && user == 0 ==> looked == DirStep::Refuse(
                ConfigError::RootUser,
            )
            &&& found is Found && (!facts.is_dir || (user != 0 && !own)) ==> looked
                == DirStep::Refuse(ConfigError::UnsafeDirectory)
            &&& found == Lookup::Missing && parents_missing ==> looked == DirStep::CreateParents
            &&& found == Lookup::Missing && !parents_missing ==> looked == DirStep::Create
            &&& found == Lookup::Failed ==> looked == DirStep::Fail
        }),
        next_dir_step(DirStep::CreateParents, DirEvent::Created, user) == DirStep::Create,
        next_dir_step(DirStep::CreateParents, DirEvent::AlreadyExists, user) == DirStep::Fail,
        next_dir_step(DirStep::CreateParents, DirEvent::Failed, user) == DirStep::Fail,
        next_dir_step(DirStep::Create, DirEvent::Created, user) == DirStep::Done,
        next_dir_step(DirStep::Create, DirEvent::AlreadyExists, user) == DirStep::Inspect,
        next_dir_step(DirStep::Create, DirEvent::Failed, user) == DirStep::Fail,
{
    if let Lookup::Found(facts) = found {
        private_modes_end_in_two_zeros(facts.mode);
    }
}

/// A save writes, syncs, renames and syncs again, in this order, each step after the one before
/// it succeeded; the first step that fails has the temporary file removed.
pub proof fn saves_take_four_steps(outcomes: Seq<bool>)
    requires
        outcomes.len() <= 4,
        forall|i: int| 0 <= i < outcomes.len() - 1 ==> #[trigger] outcomes[i],
    ensures
        outcomes.len() == 0 ==> save_progress(outcomes) == SaveStep::Write,
        outcomes.len() > 0 && !outcomes.last() ==> save_progress(outcomes) == SaveStep::Discard,
        outcomes.len() == 1 && outcomes.last() ==> save_progress(outcomes) == SaveStep::SyncFile,
        outcomes.len() == 2 && outcomes.last() ==> save_progress(outcomes) == SaveStep::Rename,
        outcomes.len() == 3 && outcomes.last() ==> save_progress(outcomes)
            == SaveStep::SyncDirectory,
        outcomes.len() == 4 && outcomes.last() ==> save_progress(outcomes) == SaveStep::Saved,
    decreases outcomes.len(),
{
    if outcomes.len() > 0 {
        let before = outcomes.drop_last();
        assert forall|i: int| 0 <= i < before.len() - 1 implies #[trigger] before[i] by {
            assert(before[i] == outcomes[i]);
        }
        if before.len() > 0 {
            assert(before.last() == outcomes[outcomes.len() - 2]);
        }
        saves_take_four_steps(before);
    }
}

/// What follows a step depends on that step alone: removing comes to a failure, and nothing
/// follows the end.
pub proof fn saves_end(succeeded: bool)
    ensures
        next_save_step(SaveStep::Discard, succeeded) == SaveStep::Failed,
        next_save_step(SaveStep::Saved, succeeded) == SaveStep::Saved,
        next_save_step(SaveStep::Failed, succeeded) == SaveStep::Failed,
        next_save_step(SaveStep::Write, succeeded) == (if succeeded {
            SaveStep::SyncFile
        } else {
            SaveStep::Discard
        }),
        next_save_step(SaveStep::SyncFile, succeeded) == (if succeeded {
            SaveStep::Rename
        } else {
            SaveStep::Discard
        }),
        next_save_step(SaveStep::Rename, succeeded) == (if succeeded {
            SaveStep::SyncDirectory
        } else {
            SaveStep::Discard
        }),
        next_save_step(SaveStep::SyncDirectory, succeeded) == (if succeeded {
            SaveStep::Saved
        } else {
            SaveStep::Discard
        }),
{
}

/// A result shows the path or the error that it holds.
pub proof fn results_show_what_they_hold(
    home: Result<Vec<u8>, ConfigError>,
    file: Result<Vec<u8>, PlaceError>,
)
    ensures
        home matches Ok(p) ==> path_view(home) == Ok::<Seq<u8>, ConfigError>(p@),
        home matches Err(e) ==> path_view(home) == Err::<Seq<u8>, ConfigError>(e),
        file matches Ok(p) ==> place_view(file) == Ok::<Seq<u8>, PlaceErrorView>(p@),
        file matches Err(PlaceError::Refused(e)) ==> place_view(file) == Err::<
            Seq<u8>,
            PlaceErrorView,
        >(PlaceErrorView::Refused(e)),
        file matches Err(PlaceError::System(reason)) ==> place_view(file) == Err::<
            Seq<u8>,
            PlaceErrorView,
        >(PlaceErrorView::System(reason@)),
{
}

/// The name of a temporary file holds the numbers of the process and of the save.
pub proof fn temporary_names_hold_both_numbers(process: u32, sequence: u64)
    ensures
        temporary(process, sequence) == ".config-"@ + text::decimal(process as nat) + "-"@
            + text::decimal(sequence as nat) + ".tmp"@,
{
}

} // verus!
