//! What BlueZ reports: the devices, and the sources among them that send no audio.
use crate::text;
use vstd::multiset::*;
use vstd::prelude::*;
use vstd::seq_lib::*;
use vstd::string::*;
use vstd::utf8::*;

verus! {

/// The service of a device that sends audio, which a source without audio is asked to connect.
pub const SOURCE_UUID: &'static str = "0000110a-0000-1000-8000-00805f9b34fb";

/// The service of a device that receives audio, as which this machine does.
pub const SINK_UUID: &'static str = "0000110b-0000-1000-8000-00805f9b34fb";

/// A device that BlueZ knows.
#[derive(Debug)]
pub struct Device {
    pub address: String,
    pub name: String,
    pub paired: bool,
    pub connected: bool,
    pub uuids: Vec<String>,
}

/// What is known of Bluetooth.
#[derive(Debug)]
pub struct BluetoothStatus {
    pub available: bool,
    pub devices: Vec<Device>,
    pub last_error: String,
}

/// The value of a property on the bus. `Other` stands for every type that is not read.
#[derive(Debug)]
pub enum PropertyValue {
    Text(String),
    Flag(bool),
    Path(String),
    Texts(Vec<String>),
    Other,
}

/// An interface of an object on the bus, with its properties.
#[derive(Debug)]
pub struct BusInterface {
    pub name: String,
    pub properties: Vec<(String, PropertyValue)>,
}

/// An object on the bus.
#[derive(Debug)]
pub struct BusObject {
    pub path: String,
    pub interfaces: Vec<BusInterface>,
}

/// A source that is connected but sends no audio: its path on the bus and its address.
#[derive(Debug)]
pub struct Source {
    pub path: String,
    pub address: String,
}

/// The devices, and the sources among them that send no audio.
#[derive(Debug)]
pub struct Snapshot {
    pub devices: Vec<Device>,
    pub missing_sources: Vec<Source>,
}

/// A device as mathematics sees it.
pub struct DeviceView {
    pub address: Seq<char>,
    pub name: Seq<char>,
    pub paired: bool,
    pub connected: bool,
    pub uuids: Seq<Seq<char>>,
}

/// A source as mathematics sees it.
pub struct SourceView {
    pub path: Seq<char>,
    pub address: Seq<char>,
}

impl View for Device {
    type V = DeviceView;

    open spec fn view(&self) -> DeviceView {
        DeviceView {
            address: self.address@,
            name: self.name@,
            paired: self.paired,
            connected: self.connected,
            uuids: text::texts(self.uuids@),
        }
    }
}

impl View for Source {
    type V = SourceView;

    open spec fn view(&self) -> SourceView {
        SourceView { path: self.path@, address: self.address@ }
    }
}

/// The views of devices.
pub open spec fn device_views(v: Seq<Device>) -> Seq<DeviceView> {
    v.map_values(|d: Device| d@)
}

/// The views of sources.
pub open spec fn source_views(v: Seq<Source>) -> Seq<SourceView> {
    v.map_values(|s: Source| s@)
}

/// The properties of the first interface with that name.
pub open spec fn interface_of(interfaces: Seq<BusInterface>, name: Seq<char>) -> Option<
    Seq<(String, PropertyValue)>,
>
    decreases interfaces.len(),
{
    if interfaces.len() == 0 {
        None
    } else if interfaces[0].name@ == name {
        Some(interfaces[0].properties@)
    } else {
        interface_of(interfaces.drop_first(), name)
    }
}

/// The value of the first property with that key.
pub open spec fn property_of(properties: Seq<(String, PropertyValue)>, key: Seq<char>) -> Option<
    PropertyValue,
>
    decreases properties.len(),
{
    if properties.len() == 0 {
        None
    } else if properties[0].0@ == key {
        Some(properties[0].1)
    } else {
        property_of(properties.drop_first(), key)
    }
}

/// A property's text, empty where it has none.
pub open spec fn text_of(properties: Seq<(String, PropertyValue)>, key: Seq<char>) -> Seq<char> {
    match property_of(properties, key) {
        Some(PropertyValue::Text(t)) => t@,
        _ => Seq::empty(),
    }
}

/// A property's flag, unset where it has none.
pub open spec fn flag_of(properties: Seq<(String, PropertyValue)>, key: Seq<char>) -> bool {
    match property_of(properties, key) {
        Some(PropertyValue::Flag(b)) => b,
        _ => false,
    }
}

/// A property's list of texts, empty where it has none.
pub open spec fn list_of(properties: Seq<(String, PropertyValue)>, key: Seq<char>) -> Seq<
    Seq<char>,
> {
    match property_of(properties, key) {
        Some(PropertyValue::Texts(v)) => text::texts(v@),
        _ => Seq::empty(),
    }
}

/// The device that an object is, if it is one: it must have an address, which is in upper case.
/// Its alias comes before its name.
pub open spec fn device_of(object: BusObject) -> Option<DeviceView> {
    match interface_of(object.interfaces@, "org.bluez.Device1"@) {
        None => None,
        Some(properties) => {
            let address = text::uppered(text_of(properties, "Address"@));
            if address.len() == 0 {
                None
            } else {
                Some(
                    DeviceView {
                        address,
                        name: if text_of(properties, "Alias"@).len() > 0 {
                            text_of(properties, "Alias"@)
                        } else {
                            text_of(properties, "Name"@)
                        },
                        paired: flag_of(properties, "Paired"@),
                        connected: flag_of(properties, "Connected"@),
                        uuids: list_of(properties, "UUIDs"@),
                    },
                )
            }
        },
    }
}

/// The device whose audio an object receives, if it is a transport towards this machine.
pub open spec fn transport_of(object: BusObject) -> Option<Seq<char>> {
    match interface_of(object.interfaces@, "org.bluez.MediaTransport1"@) {
        None => None,
        Some(properties) => match property_of(properties, "UUID"@) {
            Some(PropertyValue::Text(uuid)) => if text::lowered(uuid@) == text::lowered(
                SINK_UUID@,
            ) {
                match property_of(properties, "Device"@) {
                    Some(PropertyValue::Path(path)) => Some(path@),
                    _ => None,
                }
            } else {
                None
            },
            _ => None,
        },
    }
}

/// Audio of the device at `path` arrives through one of the objects.
pub open spec fn has_transport(objects: Seq<BusObject>, path: Seq<char>) -> bool {
    exists|i: int| 0 <= i < objects.len() && transport_of(#[trigger] objects[i]) == Some(path)
}

/// One of the services is that of a device that sends audio.
pub open spec fn sends_audio(uuids: Seq<Seq<char>>) -> bool {
    exists|i: int|
        0 <= i < uuids.len() && text::lowered(#[trigger] uuids[i]) == text::lowered(SOURCE_UUID@)
}

/// The source that an object is, if it is paired, connected and able to send audio, and none of
/// its audio arrives.
pub open spec fn missing_source(objects: Seq<BusObject>, object: BusObject) -> Option<SourceView> {
    match device_of(object) {
        None => None,
        Some(device) => if device.paired && device.connected && sends_audio(device.uuids)
            && !has_transport(objects, object.path@) {
            Some(SourceView { path: object.path@, address: device.address })
        } else {
            None
        },
    }
}

/// The devices among the objects, in the objects' order.
pub open spec fn devices_among(objects: Seq<BusObject>) -> Seq<DeviceView>
    decreases objects.len(),
{
    if objects.len() == 0 {
        Seq::empty()
    } else {
        match device_of(objects.last()) {
            Some(device) => devices_among(objects.drop_last()).push(device),
            None => devices_among(objects.drop_last()),
        }
    }
}

/// The sources without audio among `some` of all `objects`, in the objects' order.
pub open spec fn missing_among(objects: Seq<BusObject>, some: Seq<BusObject>) -> Seq<SourceView>
    decreases some.len(),
{
    if some.len() == 0 {
        Seq::empty()
    } else {
        match missing_source(objects, some.last()) {
            Some(source) => missing_among(objects, some.drop_last()).push(source),
            None => missing_among(objects, some.drop_last()),
        }
    }
}

/// The devices are in the order of their addresses.
pub open spec fn by_address(devices: Seq<DeviceView>) -> bool {
    forall|i: int, j: int|
        0 <= i <= j < devices.len() ==> text::text_le(
            (#[trigger] devices[i]).address,
            (#[trigger] devices[j]).address,
        )
}

/// One source comes before another or equals it: by path, then by address.
pub open spec fn source_le(a: SourceView, b: SourceView) -> bool {
    if a.path == b.path {
        text::text_le(a.address, b.address)
    } else {
        text::text_le(a.path, b.path)
    }
}

/// The sources are in the order of their paths and addresses.
pub open spec fn in_order(sources: Seq<SourceView>) -> bool {
    forall|i: int, j: int|
        0 <= i <= j < sources.len() ==> source_le(#[trigger] sources[i], #[trigger] sources[j])
}

impl Snapshot {
    /// The snapshot shows the objects: their devices in the order of their addresses and their
    /// sources without audio in order, each as often as the objects hold it.
    pub open spec fn shows(self, objects: Seq<BusObject>) -> bool {
        &&& by_address(device_views(self.devices@))
        &&& device_views(self.devices@).to_multiset() == devices_among(objects).to_multiset()
        &&& in_order(source_views(self.missing_sources@))
        &&& source_views(self.missing_sources@).to_multiset() == missing_among(
            objects,
            objects,
        ).to_multiset()
    }
}

fn find_interface<'a>(interfaces: &'a Vec<BusInterface>, name: &str) -> (r: Option<
    &'a Vec<(String, PropertyValue)>,
>)
    ensures
        match r {
            Some(properties) => interface_of(interfaces@, name@) == Some(properties@),
            None => interface_of(interfaces@, name@) is None,
        },
{
    let mut i: usize = 0;
    assert(interfaces@.skip(0) =~= interfaces@);
    while i < interfaces.len()
        invariant
            i <= interfaces@.len(),
            interface_of(interfaces@.skip(i as int), name@) == interface_of(interfaces@, name@),
        decreases interfaces@.len() - i,
    {
        proof {
            assert(interfaces@.skip(i as int)[0] == interfaces@[i as int]);
            assert(interfaces@.skip(i as int).drop_first() =~= interfaces@.skip(i + 1));
        }
        if text::same(interfaces[i].name.as_str(), name) {
            return Some(&interfaces[i].properties);
        }
        i = i + 1;
    }
    None
}

fn find_property<'a>(properties: &'a Vec<(String, PropertyValue)>, key: &str) -> (r: Option<
    &'a PropertyValue,
>)
    ensures
        match r {
            Some(value) => property_of(properties@, key@) == Some(*value),
            None => property_of(properties@, key@) is None,
        },
{
    let mut i: usize = 0;
    assert(properties@.skip(0) =~= properties@);
    while i < properties.len()
        invariant
            i <= properties@.len(),
            property_of(properties@.skip(i as int), key@) == property_of(properties@, key@),
        decreases properties@.len() - i,
    {
        proof {
            assert(properties@.skip(i as int)[0] == properties@[i as int]);
            assert(properties@.skip(i as int).drop_first() =~= properties@.skip(i + 1));
        }
        if text::same(properties[i].0.as_str(), key) {
            return Some(&properties[i].1);
        }
        i = i + 1;
    }
    None
}

fn text_property(properties: &Vec<(String, PropertyValue)>, key: &str) -> (r: String)
    ensures
        r@ == text_of(properties@, key@),
{
    match find_property(properties, key) {
        Some(PropertyValue::Text(t)) => t.clone(),
        _ => String::new(),
    }
}

fn flag_property(properties: &Vec<(String, PropertyValue)>, key: &str) -> (r: bool)
    ensures
        r == flag_of(properties@, key@),
{
    match find_property(properties, key) {
        Some(PropertyValue::Flag(b)) => *b,
        _ => false,
    }
}

fn copy_texts(v: &Vec<String>) -> (r: Vec<String>)
    ensures
        text::texts(r@) == text::texts(v@),
{
    let mut out: Vec<String> = Vec::new();
    let mut i: usize = 0;
    while i < v.len()
        invariant
            i <= v@.len(),
            out@.len() == i,
            forall|k: int| 0 <= k < i ==> #[trigger] out@[k] == v@[k],
        decreases v@.len() - i,
    {
        out.push(v[i].clone());
        i = i + 1;
    }
    assert(text::texts(out@) =~= text::texts(v@));
    out
}

fn list_property(properties: &Vec<(String, PropertyValue)>, key: &str) -> (r: Vec<String>)
    ensures
        text::texts(r@) == list_of(properties@, key@),
{
    match find_property(properties, key) {
        Some(PropertyValue::Texts(v)) => copy_texts(v),
        _ => {
            let empty: Vec<String> = Vec::new();
            assert(text::texts(empty@) =~= Seq::<Seq<char>>::empty());
            empty
        },
    }
}

/// The device that an object is, if it is one.
fn read_device(object: &BusObject) -> (r: Option<Device>)
    ensures
        match r {
            Some(device) => device_of(*object) == Some(device@),
            None => device_of(*object) is None,
        },
{
    match find_interface(&object.interfaces, "org.bluez.Device1") {
        None => None,
        Some(properties) => {
            let address = text::ascii_upper(text_property(properties, "Address").as_str());
            if address.as_str().is_empty() {
                return None;
            }
            let alias = text_property(properties, "Alias");
            let name = if alias.as_str().is_empty() {
                text_property(properties, "Name")
            } else {
                alias
            };
            Some(
                Device {
                    address,
                    name,
                    paired: flag_property(properties, "Paired"),
                    connected: flag_property(properties, "Connected"),
                    uuids: list_property(properties, "UUIDs"),
                },
            )
        },
    }
}

/// Whether an object is a transport for the audio of the device at `path`.
fn transports(object: &BusObject, path: &str) -> (r: bool)
    ensures
        r == (transport_of(*object) == Some(path@)),
{
    match find_interface(&object.interfaces, "org.bluez.MediaTransport1") {
        None => false,
        Some(properties) => match find_property(properties, "UUID") {
            Some(PropertyValue::Text(uuid)) => {
                if !text::same_ignoring_case(uuid.as_str(), SINK_UUID) {
                    return false;
                }
                match find_property(properties, "Device") {
                    Some(PropertyValue::Path(device)) => text::same(device.as_str(), path),
                    _ => false,
                }
            },
            _ => false,
        },
    }
}

/// Whether audio of the device at `path` arrives through one of the objects.
fn transported(objects: &Vec<BusObject>, path: &str) -> (r: bool)
    ensures
        r == has_transport(objects@, path@),
{
    let mut i: usize = 0;
    while i < objects.len()
        invariant
            i <= objects@.len(),
            forall|k: int| 0 <= k < i ==> transport_of(#[trigger] objects@[k]) != Some(path@),
        decreases objects@.len() - i,
    {
        if transports(&objects[i], path) {
            assert(transport_of(objects@[i as int]) == Some(path@));
            return true;
        }
        i = i + 1;
    }
    false
}

/// Whether one of the services is that of a device that sends audio.
fn can_send(uuids: &Vec<String>) -> (r: bool)
    ensures
        r == sends_audio(text::texts(uuids@)),
{
    let mut i: usize = 0;
    while i < uuids.len()
        invariant
            i <= uuids@.len(),
            forall|k: int|
                0 <= k < i ==> text::lowered(#[trigger] text::texts(uuids@)[k]) != text::lowered(
                    SOURCE_UUID@,
                ),
        decreases uuids@.len() - i,
    {
        assert(text::texts(uuids@)[i as int] == uuids@[i as int]@);
        if text::same_ignoring_case(uuids[i].as_str(), SOURCE_UUID) {
            return true;
        }
        i = i + 1;
    }
    false
}

proof fn multiset_of_insert<A>(s: Seq<A>, i: int, a: A)
    requires
        0 <= i <= s.len(),
    ensures
        s.insert(i, a).to_multiset() == s.to_multiset().insert(a),
{
    broadcast use vstd::multiset::group_multiset_axioms;

    let t = s.insert(i, a);
    assert(t.remove(i) =~= s);
    assert(t[i] == a);
    to_multiset_remove(t, i);
    t.to_multiset_ensures();
    assert(t.contains(a));
    assert(t.to_multiset().count(a) > 0);
    assert(t.to_multiset() =~= s.to_multiset().insert(a));
}

proof fn text_le_transitive(a: Seq<char>, b: Seq<char>, c: Seq<char>)
    requires
        text::text_le(a, b),
        text::text_le(b, c),
    ensures
        text::text_le(a, c),
{
    text::bytes_le_transitive(encode_utf8(a), encode_utf8(b), encode_utf8(c));
}

proof fn text_le_total(a: Seq<char>, b: Seq<char>)
    ensures
        text::text_le(a, b) || text::text_le(b, a),
{
    text::bytes_le_total(encode_utf8(a), encode_utf8(b));
}

/// Puts a device behind those whose address does not come after its own.
fn place_device(devices: &mut Vec<Device>, device: Device)
    requires
        by_address(device_views(old(devices)@)),
    ensures
        by_address(device_views(final(devices)@)),
        device_views(final(devices)@).to_multiset() == device_views(
            old(devices)@,
        ).to_multiset().insert(device@),
{
    let ghost before = device_views(devices@);
    let ghost new = device@;
    let mut i: usize = 0;
    while i < devices.len() && text::comes_before_or_equals(
        devices[i].address.as_str(),
        device.address.as_str(),
    )
        invariant
            i <= devices@.len(),
            device_views(devices@) == before,
            device@ == new,
            forall|k: int| 0 <= k < i ==> text::text_le((#[trigger] before[k]).address, new.address),
        decreases devices@.len() - i,
    {
        assert(before[i as int] == devices@[i as int]@);
        i = i + 1;
    }
    proof {
        if i < devices@.len() {
            assert(before[i as int] == devices@[i as int]@);
            text_le_total(before[i as int].address, new.address);
        }
    }
    devices.insert(i, device);
    proof {
        let after = device_views(devices@);
        assert(after =~= before.insert(i as int, new));
        multiset_of_insert(before, i as int, new);
        assert forall|a: int, b: int| 0 <= a <= b < after.len() implies text::text_le(
            (#[trigger] after[a]).address,
            (#[trigger] after[b]).address,
        ) by {
            text_le_total(new.address, new.address);
            if a < i && b == i {
                assert(after[a] == before[a]);
            } else if a == i && b > i {
                assert(after[b] == before[b - 1]);
                assert(text::text_le(new.address, before[i as int].address));
                assert(text::text_le(before[i as int].address, before[b - 1].address));
                text_le_transitive(new.address, before[i as int].address, before[b - 1].address);
            } else if a < i && b < i {
                assert(after[a] == before[a] && after[b] == before[b]);
            } else if a < i && b > i {
                assert(after[a] == before[a] && after[b] == before[b - 1]);
            } else if a > i {
                assert(after[a] == before[a - 1] && after[b] == before[b - 1]);
            }
        }
    }
}

proof fn source_le_total(a: SourceView, b: SourceView)
    ensures
        source_le(a, b) || source_le(b, a),
{
    text_le_total(a.path, b.path);
    text_le_total(a.address, b.address);
}

proof fn text_le_antisymmetric(a: Seq<char>, b: Seq<char>)
    requires
        text::text_le(a, b),
        text::text_le(b, a),
    ensures
        a == b,
{
    text::bytes_le_antisymmetric(encode_utf8(a), encode_utf8(b));
    text::encoding_is_injective(a, b);
}

proof fn source_le_transitive(a: SourceView, b: SourceView, c: SourceView)
    requires
        source_le(a, b),
        source_le(b, c),
    ensures
        source_le(a, c),
{
    if a.path == b.path && b.path == c.path {
        text_le_transitive(a.address, b.address, c.address);
    } else {
        text_le_total(a.path, a.path);
        text_le_total(b.path, b.path);
        text_le_transitive(a.path, b.path, c.path);
        if a.path == c.path {
            text_le_antisymmetric(a.path, b.path);
        }
    }
}

/// Whether one source comes before another or equals it.
fn source_comes_first(a: &Source, b: &Source) -> (r: bool)
    ensures
        r == source_le(a@, b@),
{
    if text::same(a.path.as_str(), b.path.as_str()) {
        text::comes_before_or_equals(a.address.as_str(), b.address.as_str())
    } else {
        text::comes_before_or_equals(a.path.as_str(), b.path.as_str())
    }
}

/// Puts a source at its place in order.
fn place_source(sources: &mut Vec<Source>, source: Source)
    requires
        in_order(source_views(old(sources)@)),
    ensures
        in_order(source_views(final(sources)@)),
        source_views(final(sources)@).to_multiset() == source_views(
            old(sources)@,
        ).to_multiset().insert(source@),
{
    let ghost before = source_views(sources@);
    let ghost new = source@;
    let mut i: usize = 0;
    while i < sources.len() && source_comes_first(&sources[i], &source)
        invariant
            i <= sources@.len(),
            source_views(sources@) == before,
            source@ == new,
            forall|k: int| 0 <= k < i ==> source_le(#[trigger] before[k], new),
        decreases sources@.len() - i,
    {
        assert(before[i as int] == sources@[i as int]@);
        i = i + 1;
    }
    proof {
        if i < sources@.len() {
            assert(before[i as int] == sources@[i as int]@);
            source_le_total(before[i as int], new);
        }
    }
    sources.insert(i, source);
    proof {
        let after = source_views(sources@);
        assert(after =~= before.insert(i as int, new));
        multiset_of_insert(before, i as int, new);
        assert forall|a: int, b: int| 0 <= a <= b < after.len() implies source_le(
            #[trigger] after[a],
            #[trigger] after[b],
        ) by {
            source_le_total(new, new);
            if a < i && b == i {
                assert(after[a] == before[a]);
            } else if a == i && b > i {
                assert(after[b] == before[b - 1]);
                assert(source_le(new, before[i as int]));
                assert(source_le(before[i as int], before[b - 1]));
                source_le_transitive(new, before[i as int], before[b - 1]);
            } else if a < i && b < i {
                assert(after[a] == before[a] && after[b] == before[b]);
            } else if a < i && b > i {
                assert(after[a] == before[a] && after[b] == before[b - 1]);
            } else if a > i {
                assert(after[a] == before[a - 1] && after[b] == before[b - 1]);
            }
        }
    }
}

/// What the objects on the bus show.
pub fn snapshot(objects: &Vec<BusObject>) -> (r: Snapshot)
    ensures
        r.shows(objects@),
{
    let mut devices: Vec<Device> = Vec::new();
    let mut missing: Vec<Source> = Vec::new();
    let mut i: usize = 0;
    proof {
        assert(device_views(devices@) =~= Seq::<DeviceView>::empty());
        assert(source_views(missing@) =~= Seq::<SourceView>::empty());
    }
    while i < objects.len()
        invariant
            i <= objects@.len(),
            by_address(device_views(devices@)),
            device_views(devices@).to_multiset() == devices_among(
                objects@.take(i as int),
            ).to_multiset(),
            in_order(source_views(missing@)),
            source_views(missing@).to_multiset() == missing_among(
                objects@,
                objects@.take(i as int),
            ).to_multiset(),
        decreases objects@.len() - i,
    {
        let object = &objects[i];
        proof {
            assert(objects@.take(i + 1).drop_last() =~= objects@.take(i as int));
            assert(objects@.take(i + 1).last() == *object);
        }
        if let Some(device) = read_device(object) {
            if device.paired && device.connected && can_send(&device.uuids) && !transported(
                objects,
                object.path.as_str(),
            ) {
                let source = Source { path: object.path.clone(), address: device.address.clone() };
                proof {
                    to_multiset_build(
                        missing_among(objects@, objects@.take(i as int)),
                        source@,
                    );
                }
                place_source(&mut missing, source);
            }
            proof {
                to_multiset_build(devices_among(objects@.take(i as int)), device@);
            }
            place_device(&mut devices, device);
        }
        i = i + 1;
    }
    assert(objects@.take(objects@.len() as int) =~= objects@);
    Snapshot { devices, missing_sources: missing }
}

/// Taking an object away takes its device, if it is one, from the devices.
proof fn devices_without(objects: Seq<BusObject>, k: int)
    requires
        0 <= k < objects.len(),
    ensures
        devices_among(objects).to_multiset() == (match device_of(objects[k]) {
            Some(device) => devices_among(objects.remove(k)).to_multiset().insert(device),
            None => devices_among(objects.remove(k)).to_multiset(),
        }),
    decreases objects.len(),
{
    broadcast use vstd::multiset::group_multiset_axioms;

    let front = objects.drop_last();
    if k == objects.len() - 1 {
        assert(objects.remove(k) =~= front);
        if let Some(device) = device_of(objects[k]) {
            to_multiset_build(devices_among(front), device);
        }
    } else {
        devices_without(front, k);
        assert(objects.remove(k).drop_last() =~= front.remove(k));
        assert(objects.remove(k).last() == objects.last());
        assert(front[k] == objects[k]);
        if let Some(last) = device_of(objects.last()) {
            to_multiset_build(devices_among(front), last);
            to_multiset_build(devices_among(front.remove(k)), last);
        }
        assert(devices_among(objects).to_multiset() =~= (match device_of(objects[k]) {
            Some(device) => devices_among(objects.remove(k)).to_multiset().insert(device),
            None => devices_among(objects.remove(k)).to_multiset(),
        }));
    }
}

/// Taking an object away takes its source without audio, if it is one, from those.
proof fn missing_without(all: Seq<BusObject>, objects: Seq<BusObject>, k: int)
    requires
        0 <= k < objects.len(),
    ensures
        missing_among(all, objects).to_multiset() == (match missing_source(all, objects[k]) {
            Some(source) => missing_among(all, objects.remove(k)).to_multiset().insert(source),
            None => missing_among(all, objects.remove(k)).to_multiset(),
        }),
    decreases objects.len(),
{
    broadcast use vstd::multiset::group_multiset_axioms;

    let front = objects.drop_last();
    if k == objects.len() - 1 {
        assert(objects.remove(k) =~= front);
        if let Some(source) = missing_source(all, objects[k]) {
            to_multiset_build(missing_among(all, front), source);
        }
    } else {
        missing_without(all, front, k);
        assert(objects.remove(k).drop_last() =~= front.remove(k));
        assert(objects.remove(k).last() == objects.last());
        assert(front[k] == objects[k]);
        if let Some(last) = missing_source(all, objects.last()) {
            to_multiset_build(missing_among(all, front), last);
            to_multiset_build(missing_among(all, front.remove(k)), last);
        }
        assert(missing_among(all, objects).to_multiset() =~= (match missing_source(
            all,
            objects[k],
        ) {
            Some(source) => missing_among(all, objects.remove(k)).to_multiset().insert(source),
            None => missing_among(all, objects.remove(k)).to_multiset(),
        }));
    }
}

/// Whether a device has a transport does not depend on the order of the objects.
proof fn transports_of_permutation(a: Seq<BusObject>, b: Seq<BusObject>, path: Seq<char>)
    requires
        a.to_multiset() == b.to_multiset(),
    ensures
        has_transport(a, path) == has_transport(b, path),
{
    a.to_multiset_ensures();
    b.to_multiset_ensures();
    if has_transport(a, path) {
        let i = choose|i: int| 0 <= i < a.len() && transport_of(#[trigger] a[i]) == Some(path);
        assert(a.contains(a[i]));
        assert(a.to_multiset().count(a[i]) > 0 && b.to_multiset().count(a[i]) > 0);
        assert(b.contains(a[i]));
        let j = choose|j: int| 0 <= j < b.len() && b[j] == a[i];
        assert(transport_of(b[j]) == Some(path));
    }
    if has_transport(b, path) {
        let i = choose|i: int| 0 <= i < b.len() && transport_of(#[trigger] b[i]) == Some(path);
        assert(b.contains(b[i]));
        assert(b.to_multiset().count(b[i]) > 0 && a.to_multiset().count(b[i]) > 0);
        assert(a.contains(b[i]));
        let j = choose|j: int| 0 <= j < a.len() && a[j] == b[i];
        assert(transport_of(a[j]) == Some(path));
    }
}

proof fn found_of_permutation(
    all_a: Seq<BusObject>,
    all_b: Seq<BusObject>,
    a: Seq<BusObject>,
    b: Seq<BusObject>,
)
    requires
        all_a.to_multiset() == all_b.to_multiset(),
        a.to_multiset() == b.to_multiset(),
    ensures
        devices_among(a).to_multiset() == devices_among(b).to_multiset(),
        missing_among(all_a, a).to_multiset() == missing_among(all_b, b).to_multiset(),
    decreases a.len(),
{
    broadcast use vstd::multiset::group_multiset_axioms;

    a.to_multiset_ensures();
    b.to_multiset_ensures();
    assert(a.len() == b.len());
    if a.len() > 0 {
        let n = a.len() - 1;
        assert(a.contains(a[n]));
        assert(a.to_multiset().count(a[n]) > 0 && b.to_multiset().count(a[n]) > 0);
        assert(b.contains(a[n]));
        let k = choose|k: int| 0 <= k < b.len() && b[k] == a[n];
        to_multiset_remove(a, n);
        to_multiset_remove(b, k);
        found_of_permutation(all_a, all_b, a.remove(n), b.remove(k));
        devices_without(a, n);
        devices_without(b, k);
        missing_without(all_a, a, n);
        missing_without(all_b, b, k);
        transports_of_permutation(all_a, all_b, a[n].path@);
    } else {
        assert(a =~= b);
    }
}

/// Every source without audio is one of the devices: a paired and connected one that can send
/// audio.
pub proof fn missing_sources_are_devices(
    objects: Seq<BusObject>,
    shown: Snapshot,
    i: int,
)
    requires
        shown.shows(objects),
        0 <= i < shown.missing_sources@.len(),
    ensures
        exists|d: int|
            0 <= d < shown.devices@.len() && (#[trigger] shown.devices@[d])@.address
                == shown.missing_sources@[i]@.address && shown.devices@[d].paired
                && shown.devices@[d].connected && sends_audio(shown.devices@[d]@.uuids),
        !has_transport(objects, shown.missing_sources@[i]@.path),
{
    broadcast use vstd::multiset::group_multiset_axioms;

    let sources = source_views(shown.missing_sources@);
    let devices = device_views(shown.devices@);
    sources.to_multiset_ensures();
    missing_among(objects, objects).to_multiset_ensures();
    assert(sources[i] == shown.missing_sources@[i]@);
    assert(sources.contains(sources[i]));
    assert(sources.to_multiset().count(sources[i]) > 0);
    assert(missing_among(objects, objects).contains(sources[i]));
    let device = missing_source_is_a_device(objects, objects, sources[i]);
    devices.to_multiset_ensures();
    devices_among(objects).to_multiset_ensures();
    assert(devices_among(objects).to_multiset().count(device) > 0);
    assert(devices.contains(device));
    let d = choose|d: int| 0 <= d < devices.len() && devices[d] == device;
    assert(shown.devices@[d]@ == device);
}

proof fn missing_source_is_a_device(
    objects: Seq<BusObject>,
    some: Seq<BusObject>,
    source: SourceView,
) -> (device: DeviceView)
    requires
        missing_among(objects, some).contains(source),
    ensures
        devices_among(some).contains(device),
        device.address == source.address,
        device.paired && device.connected && sends_audio(device.uuids),
        !has_transport(objects, source.path),
    decreases some.len(),
{
    let last = some.last();
    let front = missing_among(objects, some.drop_last());
    if missing_source(objects, last) == Some(source) {
        let device = device_of(last)->0;
        let all = devices_among(some);
        assert(all[all.len() - 1] == device);
        device
    } else {
        let k = choose|k: int|
            0 <= k < missing_among(objects, some).len() && missing_among(objects, some)[k]
                == source;
        assert(front[k] == source);
        assert(front.contains(source));
        let device = missing_source_is_a_device(objects, some.drop_last(), source);
        let before = devices_among(some.drop_last());
        let j = choose|j: int| 0 <= j < before.len() && before[j] == device;
        assert(devices_among(some)[j] == device);
        device
    }
}

/// In whatever order the bus gives its objects, the same sources come out in the same order, and
/// the same devices come out in the order of their addresses.
pub proof fn order_of_objects_does_not_matter(
    a: Seq<BusObject>,
    b: Seq<BusObject>,
    x: Snapshot,
    y: Snapshot,
)
    requires
        a.to_multiset() == b.to_multiset(),
        x.shows(a),
        y.shows(b),
    ensures
        source_views(x.missing_sources@) == source_views(y.missing_sources@),
        device_views(x.devices@).to_multiset() == device_views(y.devices@).to_multiset(),
        by_address(device_views(x.devices@)),
        by_address(device_views(y.devices@)),
{
    found_of_permutation(a, b, a, b);
    let leq = |s: SourceView, t: SourceView| source_le(s, t);
    let xs = source_views(x.missing_sources@);
    let ys = source_views(y.missing_sources@);
    assert(vstd::relations::total_ordering(leq)) by {
        assert forall|s: SourceView| #[trigger] leq(s, s) by {
            source_le_total(s, s);
        }
        assert forall|s: SourceView, t: SourceView| #[trigger]
            leq(s, t) && #[trigger] leq(t, s) implies s == t by {
            text_le_total(s.path, t.path);
            if s.path == t.path {
                text_le_antisymmetric(s.address, t.address);
            } else {
                text_le_antisymmetric(s.path, t.path);
            }
        }
        assert forall|s: SourceView, t: SourceView, u: SourceView| #[trigger]
            leq(s, t) && #[trigger] leq(t, u) implies leq(s, u) by {
            source_le_transitive(s, t, u);
        }
        assert forall|s: SourceView, t: SourceView| #[trigger] leq(s, t) || #[trigger] leq(t, s) by {
            source_le_total(s, t);
        }
    }
    assert(vstd::relations::sorted_by(xs, leq));
    assert(vstd::relations::sorted_by(ys, leq));
    lemma_sorted_unique(xs, ys, leq);
}

/// The interface with a name is the first that has it, and there is none where none has it.
pub proof fn interfaces_are_found_by_name(
    interfaces: Seq<BusInterface>,
    name: Seq<char>,
    i: int,
)
    requires
        0 <= i <= interfaces.len(),
        forall|k: int| 0 <= k < i ==> (#[trigger] interfaces[k]).name@ != name,
        i < interfaces.len() ==> interfaces[i].name@ == name,
    ensures
        i < interfaces.len() ==> interface_of(interfaces, name) == Some(
            interfaces[i].properties@,
        ),
        i == interfaces.len() ==> interface_of(interfaces, name) is None,
    decreases i,
{
    if i > 0 {
        let rest = interfaces.drop_first();
        assert(interfaces[0].name@ != name);
        assert forall|k: int| 0 <= k < i - 1 implies (#[trigger] rest[k]).name@ != name by {
            assert(rest[k] == interfaces[k + 1]);
        }
        if i < interfaces.len() {
            assert(rest[i - 1] == interfaces[i]);
        }
        interfaces_are_found_by_name(rest, name, i - 1);
    }
}

/// The property with a key is the first that has it, and there is none where none has it.
pub proof fn properties_are_found_by_key(
    properties: Seq<(String, PropertyValue)>,
    key: Seq<char>,
    i: int,
)
    requires
        0 <= i <= properties.len(),
        forall|k: int| 0 <= k < i ==> (#[trigger] properties[k]).0@ != key,
        i < properties.len() ==> properties[i].0@ == key,
    ensures
        i < properties.len() ==> property_of(properties, key) == Some(properties[i].1),
        i == properties.len() ==> property_of(properties, key) is None,
    decreases i,
{
    if i > 0 {
        let rest = properties.drop_first();
        assert(properties[0].0@ != key);
        assert forall|k: int| 0 <= k < i - 1 implies (#[trigger] rest[k]).0@ != key by {
            assert(rest[k] == properties[k + 1]);
        }
        if i < properties.len() {
            assert(rest[i - 1] == properties[i]);
        }
        properties_are_found_by_key(rest, key, i - 1);
    }
}

/// A property is read as what it holds, and as nothing where it is missing or of another type.
pub proof fn properties_are_read_by_type(properties: Seq<(String, PropertyValue)>, key: Seq<char>)
    ensures
        property_of(properties, key) matches Some(PropertyValue::Text(t)) ==> text_of(
            properties,
            key,
        ) == t@,
        !(property_of(properties, key) matches Some(PropertyValue::Text(_))) ==> text_of(
            properties,
            key,
        ).len() == 0,
        property_of(properties, key) matches Some(PropertyValue::Flag(b)) ==> flag_of(
            properties,
            key,
        ) == b,
        !(property_of(properties, key) matches Some(PropertyValue::Flag(_))) ==> !flag_of(
            properties,
            key,
        ),
        property_of(properties, key) matches Some(PropertyValue::Texts(v)) ==> list_of(
            properties,
            key,
        ) == text::texts(v@),
        !(property_of(properties, key) matches Some(PropertyValue::Texts(_))) ==> list_of(
            properties,
            key,
        ).len() == 0,
{
}

/// An object is a device exactly if it has BlueZ's device interface with an address that is not
/// empty. The device has that address in upper case, its alias or else its name, and what the
/// interface says of pairing, connection and services.
pub proof fn devices_are_what_their_interface_says(object: BusObject)
    ensures
        ({
            let found = interface_of(object.interfaces@, "org.bluez.Device1"@);
            let properties = found->0;
            let alias = text_of(properties, "Alias"@);
            &&& device_of(object) is Some <==> found is Some && text_of(
                properties,
                "Address"@,
            ).len() > 0
            &&& device_of(object) is Some ==> {
                let device = device_of(object)->0;
                &&& device.address == text::uppered(text_of(properties, "Address"@))
                &&& alias.len() > 0 ==> device.name == alias
                &&& alias.len() == 0 ==> device.name == text_of(properties, "Name"@)
                &&& device.paired == flag_of(properties, "Paired"@)
                &&& device.connected == flag_of(properties, "Connected"@)
                &&& device.uuids == list_of(properties, "UUIDs"@)
            }
        }),
{
    if let Some(properties) = interface_of(object.interfaces@, "org.bluez.Device1"@) {
        let address = text_of(properties, "Address"@);
        assert(text::uppered(address).len() == address.len());
    }
}

/// An object is a transport of a device's audio towards this machine exactly if it has BlueZ's
/// transport interface with the service of a receiver, in any case, and that device.
pub proof fn transports_are_told_by_service_and_device(object: BusObject, path: Seq<char>)
    ensures
        transport_of(object) == Some(path) <==> {
            let found = interface_of(object.interfaces@, "org.bluez.MediaTransport1"@);
            let uuid = property_of(found->0, "UUID"@);
            let device = property_of(found->0, "Device"@);
            &&& found is Some
            &&& uuid matches Some(PropertyValue::Text(u)) && text::lowered(u@) == text::lowered(
                "0000110b-0000-1000-8000-00805f9b34fb"@,
            )
            &&& device matches Some(PropertyValue::Path(p)) && p@ == path
        },
{
}

/// A device sends audio exactly if one of its services, at whatever place and in whatever case,
/// is that of a source.
pub proof fn one_service_is_enough(uuids: Seq<Seq<char>>, i: int)
    ensures
        0 <= i < uuids.len() && text::lowered(uuids[i]) == text::lowered(
            "0000110a-0000-1000-8000-00805f9b34fb"@,
        ) ==> sends_audio(uuids),
        (forall|k: int|
            0 <= k < uuids.len() ==> text::lowered(#[trigger] uuids[k]) != text::lowered(
                "0000110a-0000-1000-8000-00805f9b34fb"@,
            )) ==> !sends_audio(uuids),
{
}

/// Audio of a device arrives exactly if one of the objects, at whatever place, transports it.
pub proof fn one_transport_is_enough(objects: Seq<BusObject>, path: Seq<char>, i: int)
    ensures
        0 <= i < objects.len() && transport_of(objects[i]) == Some(path) ==> has_transport(
            objects,
            path,
        ),
        (forall|k: int| 0 <= k < objects.len() ==> transport_of(#[trigger] objects[k]) != Some(path))
            ==> !has_transport(objects, path),
{
}

proof fn device_among(objects: Seq<BusObject>, o: int)
    requires
        0 <= o < objects.len(),
        device_of(objects[o]) is Some,
    ensures
        devices_among(objects).contains(device_of(objects[o])->0),
    decreases objects.len(),
{
    let device = device_of(objects[o])->0;
    let all = devices_among(objects);
    if o == objects.len() - 1 {
        assert(all[all.len() - 1] == device);
    } else {
        let front = objects.drop_last();
        assert(front[o] == objects[o]);
        device_among(front, o);
        let before = devices_among(front);
        let j = choose|j: int| 0 <= j < before.len() && before[j] == device;
        assert(all[j] == device);
    }
}

proof fn source_among(objects: Seq<BusObject>, some: Seq<BusObject>, o: int)
    requires
        0 <= o < some.len(),
        missing_source(objects, some[o]) is Some,
    ensures
        missing_among(objects, some).contains(missing_source(objects, some[o])->0),
    decreases some.len(),
{
    let source = missing_source(objects, some[o])->0;
    let all = missing_among(objects, some);
    if o == some.len() - 1 {
        assert(all[all.len() - 1] == source);
    } else {
        let front = some.drop_last();
        assert(front[o] == some[o]);
        source_among(objects, front, o);
        let before = missing_among(objects, front);
        let j = choose|j: int| 0 <= j < before.len() && before[j] == source;
        assert(all[j] == source);
    }
}

/// Every object that is a device is among the devices of the snapshot, with its address in upper
/// case, its alias or else its name, and what is said of pairing, connection and services.
pub proof fn every_device_is_shown(objects: Seq<BusObject>, shown: Snapshot, o: int) -> (d: int)
    requires
        shown.shows(objects),
        0 <= o < objects.len(),
        interface_of(objects[o].interfaces@, "org.bluez.Device1"@) matches Some(properties)
            && text_of(properties, "Address"@).len() > 0,
    ensures
        0 <= d < shown.devices@.len(),
        ({
            let properties = interface_of(objects[o].interfaces@, "org.bluez.Device1"@)->0;
            let device = shown.devices@[d];
            let alias = text_of(properties, "Alias"@);
            &&& device.address@ == text::uppered(text_of(properties, "Address"@))
            &&& alias.len() > 0 ==> device.name@ == alias
            &&& alias.len() == 0 ==> device.name@ == text_of(properties, "Name"@)
            &&& device.paired == flag_of(properties, "Paired"@)
            &&& device.connected == flag_of(properties, "Connected"@)
            &&& text::texts(device.uuids@) == list_of(properties, "UUIDs"@)
        }),
{
    broadcast use vstd::multiset::group_multiset_axioms;

    devices_are_what_their_interface_says(objects[o]);
    device_among(objects, o);
    let device = device_of(objects[o])->0;
    let devices = device_views(shown.devices@);
    devices.to_multiset_ensures();
    devices_among(objects).to_multiset_ensures();
    assert(devices_among(objects).to_multiset().count(device) > 0);
    assert(devices.contains(device));
    let d = choose|d: int| 0 <= d < devices.len() && devices[d] == device;
    assert(shown.devices@[d]@ == device);
    d
}

/// Every paired and connected device one of whose services, at whatever place and in whatever
/// case, is that of a source, and whose audio no object transports here, is among the sources
/// without audio, by its path and its address in upper case.
pub proof fn every_silent_source_is_shown(
    objects: Seq<BusObject>,
    shown: Snapshot,
    o: int,
    properties: Seq<(String, PropertyValue)>,
    uuids: Vec<String>,
    i: int,
) -> (m: int)
    requires
        shown.shows(objects),
        0 <= o < objects.len(),
        interface_of(objects[o].interfaces@, "org.bluez.Device1"@) == Some(properties),
        text_of(properties, "Address"@).len() > 0,
        property_of(properties, "Paired"@) == Some(PropertyValue::Flag(true)),
        property_of(properties, "Connected"@) == Some(PropertyValue::Flag(true)),
        property_of(properties, "UUIDs"@) == Some(PropertyValue::Texts(uuids)),
        0 <= i < uuids@.len(),
        text::lowered(uuids@[i]@) == text::lowered("0000110a-0000-1000-8000-00805f9b34fb"@),
        forall|t: int|
            0 <= t < objects.len() ==> transport_of(#[trigger] objects[t]) != Some(
                objects[o].path@,
            ),
    ensures
        0 <= m < shown.missing_sources@.len(),
        shown.missing_sources@[m].path@ == objects[o].path@,
        shown.missing_sources@[m].address@ == text::uppered(text_of(properties, "Address"@)),
{
    broadcast use vstd::multiset::group_multiset_axioms;

    devices_are_what_their_interface_says(objects[o]);
    let device = device_of(objects[o])->0;
    assert(device.uuids[i] == uuids@[i]@);
    one_service_is_enough(device.uuids, i);
    one_transport_is_enough(objects, objects[o].path@, 0);
    source_among(objects, objects, o);
    let source = missing_source(objects, objects[o])->0;
    let sources = source_views(shown.missing_sources@);
    sources.to_multiset_ensures();
    missing_among(objects, objects).to_multiset_ensures();
    assert(missing_among(objects, objects).to_multiset().count(source) > 0);
    assert(sources.contains(source));
    let m = choose|m: int| 0 <= m < sources.len() && sources[m] == source;
    assert(shown.missing_sources@[m]@ == source);
    m
}

proof fn object_of_device(objects: Seq<BusObject>, device: DeviceView) -> (o: int)
    requires
        devices_among(objects).contains(device),
    ensures
        0 <= o < objects.len(),
        device_of(objects[o]) == Some(device),
    decreases objects.len(),
{
    let all = devices_among(objects);
    let j = choose|j: int| 0 <= j < all.len() && all[j] == device;
    if device_of(objects.last()) == Some(device) {
        objects.len() - 1
    } else {
        let before = devices_among(objects.drop_last());
        assert(before[j] == device);
        let o = object_of_device(objects.drop_last(), device);
        assert(objects.drop_last()[o] == objects[o]);
        o
    }
}

proof fn object_of_source(
    objects: Seq<BusObject>,
    some: Seq<BusObject>,
    source: SourceView,
) -> (o: int)
    requires
        missing_among(objects, some).contains(source),
    ensures
        0 <= o < some.len(),
        missing_source(objects, some[o]) == Some(source),
    decreases some.len(),
{
    let all = missing_among(objects, some);
    let j = choose|j: int| 0 <= j < all.len() && all[j] == source;
    if missing_source(objects, some.last()) == Some(source) {
        some.len() - 1
    } else {
        let before = missing_among(objects, some.drop_last());
        assert(before[j] == source);
        let o = object_of_source(objects, some.drop_last(), source);
        assert(some.drop_last()[o] == some[o]);
        o
    }
}

/// Every device of the snapshot is one of the objects, and shows what that object says.
pub proof fn every_shown_device_is_there(objects: Seq<BusObject>, shown: Snapshot, d: int) -> (o: int)
    requires
        shown.shows(objects),
        0 <= d < shown.devices@.len(),
    ensures
        0 <= o < objects.len(),
        interface_of(objects[o].interfaces@, "org.bluez.Device1"@) matches Some(properties)
            && shown.devices@[d].address@ == text::uppered(text_of(properties, "Address"@))
            && shown.devices@[d].address@.len() > 0 && shown.devices@[d].name@ == (if text_of(
            properties,
            "Alias"@,
        ).len() > 0 {
            text_of(properties, "Alias"@)
        } else {
            text_of(properties, "Name"@)
        }) && shown.devices@[d].paired == flag_of(
            properties,
            "Paired"@,
        ) && shown.devices@[d].connected == flag_of(properties, "Connected"@) && text::texts(
            shown.devices@[d].uuids@,
        ) == list_of(properties, "UUIDs"@),
{
    broadcast use vstd::multiset::group_multiset_axioms;

    let devices = device_views(shown.devices@);
    devices.to_multiset_ensures();
    devices_among(objects).to_multiset_ensures();
    assert(devices[d] == shown.devices@[d]@);
    assert(devices.contains(devices[d]));
    assert(devices.to_multiset().count(devices[d]) > 0);
    assert(devices_among(objects).contains(devices[d]));
    let o = object_of_device(objects, devices[d]);
    devices_are_what_their_interface_says(objects[o]);
    o
}

/// Every source without audio is one of the objects: a paired and connected device with the
/// service of a source, no audio of which any object transports here.
pub proof fn every_shown_source_is_silent(
    objects: Seq<BusObject>,
    shown: Snapshot,
    m: int,
) -> (r: (int, int))
    requires
        shown.shows(objects),
        0 <= m < shown.missing_sources@.len(),
    ensures
        0 <= r.0 < objects.len(),
        objects[r.0].path@ == shown.missing_sources@[m].path@,
        interface_of(objects[r.0].interfaces@, "org.bluez.Device1"@) matches Some(properties)
            && shown.missing_sources@[m].address@ == text::uppered(
            text_of(properties, "Address"@),
        ) && shown.missing_sources@[m].address@.len() > 0 && flag_of(properties, "Paired"@)
            && flag_of(properties, "Connected"@) && 0 <= r.1 < list_of(properties, "UUIDs"@).len()
            && text::lowered(list_of(properties, "UUIDs"@)[r.1]) == text::lowered(
            "0000110a-0000-1000-8000-00805f9b34fb"@,
        ),
        forall|t: int|
            0 <= t < objects.len() ==> transport_of(#[trigger] objects[t]) != Some(
                shown.missing_sources@[m].path@,
            ),
{
    broadcast use vstd::multiset::group_multiset_axioms;

    let sources = source_views(shown.missing_sources@);
    sources.to_multiset_ensures();
    missing_among(objects, objects).to_multiset_ensures();
    assert(sources[m] == shown.missing_sources@[m]@);
    assert(sources.contains(sources[m]));
    assert(sources.to_multiset().count(sources[m]) > 0);
    assert(missing_among(objects, objects).contains(sources[m]));
    let o = object_of_source(objects, objects, sources[m]);
    devices_are_what_their_interface_says(objects[o]);
    let uuids = device_of(objects[o])->0.uuids;
    let i = choose|i: int|
        0 <= i < uuids.len() && text::lowered(#[trigger] uuids[i]) == text::lowered(SOURCE_UUID@);
    (o, i)
}

/// The devices come in the order of their addresses, and the sources in that of their paths and,
/// on one path, their addresses.
pub proof fn snapshots_are_in_order(objects: Seq<BusObject>, shown: Snapshot, i: int, j: int)
    requires
        shown.shows(objects),
        0 <= i < j,
    ensures
        j < shown.devices@.len() ==> text::bytes_le(
            encode_utf8(shown.devices@[i].address@),
            encode_utf8(shown.devices@[j].address@),
        ),
        j < shown.missing_sources@.len() ==> text::bytes_le(
            encode_utf8(shown.missing_sources@[i].path@),
            encode_utf8(shown.missing_sources@[j].path@),
        ),
        j < shown.missing_sources@.len() && shown.missing_sources@[i].path@
            == shown.missing_sources@[j].path@ ==> text::bytes_le(
            encode_utf8(shown.missing_sources@[i].address@),
            encode_utf8(shown.missing_sources@[j].address@),
        ),
{
    let devices = device_views(shown.devices@);
    let sources = source_views(shown.missing_sources@);
    if j < devices.len() {
        assert(devices[i] == shown.devices@[i]@ && devices[j] == shown.devices@[j]@);
        assert(text::text_le(devices[i].address, devices[j].address));
    }
    if j < sources.len() {
        assert(sources[i] == shown.missing_sources@[i]@);
        assert(sources[j] == shown.missing_sources@[j]@);
        assert(source_le(sources[i], sources[j]));
        text_le_total(sources[i].path, sources[i].path);
    }
}

/// There are as many devices as objects that are devices, and as many sources without audio as
/// objects that are such.
pub proof fn snapshots_add_nothing(objects: Seq<BusObject>, shown: Snapshot)
    requires
        shown.shows(objects),
    ensures
        shown.devices@.len() == devices_among(objects).len(),
        shown.missing_sources@.len() == missing_among(objects, objects).len(),
        shown.devices@.len() <= objects.len(),
        shown.missing_sources@.len() <= shown.devices@.len(),
{
    device_views(shown.devices@).to_multiset_ensures();
    devices_among(objects).to_multiset_ensures();
    source_views(shown.missing_sources@).to_multiset_ensures();
    missing_among(objects, objects).to_multiset_ensures();
    counts_of_devices(objects, objects);
}

proof fn counts_of_devices(objects: Seq<BusObject>, some: Seq<BusObject>)
    ensures
        devices_among(some).len() <= some.len(),
        missing_among(objects, some).len() <= devices_among(some).len(),
    decreases some.len(),
{
    if some.len() > 0 {
        counts_of_devices(objects, some.drop_last());
    }
}

/// The devices and the sources without audio are found object by object, each as often as there
/// are objects for it.
pub proof fn objects_are_read_one_by_one(
    objects: Seq<BusObject>,
    a: Seq<BusObject>,
    b: Seq<BusObject>,
)
    ensures
        devices_among(a + b) == devices_among(a) + devices_among(b),
        missing_among(objects, a + b) == missing_among(objects, a) + missing_among(objects, b),
        a.len() == 1 && device_of(a[0]) is Some ==> devices_among(a) == seq![device_of(a[0])->0],
        a.len() == 1 && device_of(a[0]) is None ==> devices_among(a).len() == 0,
        a.len() == 1 && missing_source(objects, a[0]) is Some ==> missing_among(objects, a)
            == seq![missing_source(objects, a[0])->0],
        a.len() == 1 && missing_source(objects, a[0]) is None ==> missing_among(objects, a).len()
            == 0,
    decreases b.len(),
{
    if a.len() == 1 {
        assert(a.drop_last() =~= Seq::<BusObject>::empty());
        assert(devices_among(a.drop_last()) =~= Seq::<DeviceView>::empty());
        assert(missing_among(objects, a.drop_last()) =~= Seq::<SourceView>::empty());
        if let Some(device) = device_of(a[0]) {
            assert(devices_among(a) =~= seq![device]);
        }
        if let Some(source) = missing_source(objects, a[0]) {
            assert(missing_among(objects, a) =~= seq![source]);
        }
    }
    if b.len() == 0 {
        assert(a + b =~= a);
        assert(devices_among(a) + devices_among(b) =~= devices_among(a));
        assert(missing_among(objects, a) + missing_among(objects, b) =~= missing_among(
            objects,
            a,
        ));
    } else {
        objects_are_read_one_by_one(objects, a, b.drop_last());
        assert((a + b).drop_last() =~= a + b.drop_last());
        assert((a + b).last() == b.last());
        assert(devices_among(a + b) =~= devices_among(a) + devices_among(b));
        assert(missing_among(objects, a + b) =~= missing_among(objects, a) + missing_among(
            objects,
            b,
        ));
    }
}

/// An object is a source without audio exactly if it is a paired and connected device that sends
/// audio and has no transport; the source has its path and its address.
pub proof fn silent_sources_are_devices_without_transport(
    objects: Seq<BusObject>,
    object: BusObject,
)
    ensures
        missing_source(objects, object) is Some <==> (device_of(object) matches Some(d) && d.paired
            && d.connected && sends_audio(d.uuids) && !has_transport(objects, object.path@)),
        missing_source(objects, object) is Some ==> missing_source(objects, object)->0.path
            == object.path@ && missing_source(objects, object)->0.address == device_of(
            object,
        )->0.address,
{
}

} // verus!
