//! JSON values: what the controller answers with and what its clients read.
use crate::text;
use vstd::prelude::*;
use vstd::string::*;

verus! {

/// A JSON value. A number is held as its text, an object as its fields in order.
#[derive(Debug)]
pub enum Json {
    Null,
    Bool(bool),
    Number(String),
    Text(String),
    Array(Vec<Json>),
    Object(Vec<(String, Json)>),
}

/// The value of the first field with that key.
pub open spec fn lookup(fields: Seq<(String, Json)>, key: Seq<char>) -> Option<Json>
    decreases fields.len(),
{
    if fields.len() == 0 {
        None
    } else if fields[0].0@ == key {
        Some(fields[0].1)
    } else {
        lookup(fields.drop_first(), key)
    }
}

/// The value of a field of an object. Nothing else has fields.
pub open spec fn field_of(value: Option<Json>, key: Seq<char>) -> Option<Json> {
    match value {
        Some(Json::Object(fields)) => lookup(fields@, key),
        _ => None,
    }
}

/// The keys of an object's fields in order.
pub open spec fn keys(fields: Seq<(String, Json)>) -> Seq<Seq<char>> {
    fields.map_values(|f: (String, Json)| f.0@)
}

/// The value behind an optional reference.
pub open spec fn target(value: Option<&Json>) -> Option<Json> {
    match value {
        Some(v) => Some(*v),
        None => None,
    }
}

/// A field of an object.
pub fn field<'a>(value: Option<&'a Json>, key: &str) -> (r: Option<&'a Json>)
    ensures
        target(r) == field_of(target(value), key@),
{
    match value {
        Some(Json::Object(fields)) => {
            let mut i: usize = 0;
            assert(fields@.skip(0) =~= fields@);
            while i < fields.len()
                invariant
                    i <= fields@.len(),
                    target(value) == Some(Json::Object(*fields)),
                    lookup(fields@.skip(i as int), key@) == lookup(fields@, key@),
                decreases fields@.len() - i,
            {
                proof {
                    assert(fields@.skip(i as int)[0] == fields@[i as int]);
                    assert(fields@.skip(i as int).drop_first() =~= fields@.skip(i + 1));
                }
                if text::same(fields[i].0.as_str(), key) {
                    return Some(&fields[i].1);
                }
                i = i + 1;
            }
            None
        },
        _ => None,
    }
}

/// A field stands where the first of its keys stands.
pub proof fn lookup_finds(fields: Seq<(String, Json)>, i: int)
    requires
        0 <= i < fields.len(),
        forall|k: int| 0 <= k < i ==> fields[k].0@ != fields[i].0@,
    ensures
        lookup(fields, fields[i].0@) == Some(fields[i].1),
    decreases i,
{
    if i > 0 {
        assert(fields[0].0@ != fields[i].0@);
        assert(fields.drop_first()[i - 1] == fields[i]);
        lookup_finds(fields.drop_first(), i - 1);
    }
}

/// The lower-case hexadecimal digit for a number below sixteen.
pub open spec fn hex_digit(n: int) -> char {
    if n < 10 {
        ('0' as u32 + n) as char
    } else {
        ('a' as u32 + (n - 10)) as char
    }
}

/// How a character stands in a JSON string.
pub open spec fn escaped(c: char) -> Seq<char> {
    if c == '"' {
        seq!['\\', '"']
    } else if c == '\\' {
        seq!['\\', '\\']
    } else if c as u32 == 0x8 {
        seq!['\\', 'b']
    } else if c as u32 == 0x9 {
        seq!['\\', 't']
    } else if c as u32 == 0xa {
        seq!['\\', 'n']
    } else if c as u32 == 0xc {
        seq!['\\', 'f']
    } else if c as u32 == 0xd {
        seq!['\\', 'r']
    } else if (c as u32) < 0x20 {
        seq!['\\', 'u', '0', '0', hex_digit(c as int / 16), hex_digit(c as int % 16)]
    } else {
        seq![c]
    }
}

/// The characters of a JSON string between its quotes.
pub open spec fn escaped_all(s: Seq<char>) -> Seq<char>
    decreases s.len(),
{
    if s.len() == 0 {
        Seq::empty()
    } else {
        escaped_all(s.drop_last()) + escaped(s.last())
    }
}

/// The JSON string for a text.
pub open spec fn quoted(s: Seq<char>) -> Seq<char> {
    seq!['"'] + escaped_all(s) + seq!['"']
}

/// `serde_json::to_string` of a string, which does not fail: the string in quotes, with quotes,
/// backslashes and control characters escaped.
#[verifier::external_body]
fn quote(s: &str) -> (r: String)
    ensures
        r@ == quoted(s@),
{
    serde_json::to_string(s).unwrap()
}

/// The compact text of a JSON value.
pub open spec fn rendered(value: Json) -> Seq<char>
    decreases value,
{
    match value {
        Json::Null => "null"@,
        Json::Bool(b) => if b {
            "true"@
        } else {
            "false"@
        },
        Json::Number(t) => t@,
        Json::Text(t) => quoted(t@),
        Json::Array(items) => "["@ + rendered_items(items@) + "]"@,
        Json::Object(fields) => "{"@ + rendered_fields(fields@) + "}"@,
    }
}

/// The texts of items, separated by commas.
pub open spec fn rendered_items(items: Seq<Json>) -> Seq<char>
    decreases items,
{
    if items.len() == 0 {
        Seq::empty()
    } else if items.len() == 1 {
        rendered(items[0])
    } else {
        rendered_items(items.drop_last()) + ","@ + rendered(items[items.len() - 1])
    }
}

/// The texts of fields, separated by commas.
pub open spec fn rendered_fields(fields: Seq<(String, Json)>) -> Seq<char>
    decreases fields,
{
    if fields.len() == 0 {
        Seq::empty()
    } else if fields.len() == 1 {
        quoted(fields[0].0@) + ":"@ + rendered(fields[0].1)
    } else {
        rendered_fields(fields.drop_last()) + ","@ + (quoted(fields[fields.len() - 1].0@) + ":"@
            + rendered(fields[fields.len() - 1].1))
    }
}

/// The compact text of a JSON value.
pub fn render(value: &Json) -> (r: String)
    ensures
        r@ == rendered(*value),
    decreases *value,
{
    match value {
        Json::Null => String::from_str("null"),
        Json::Bool(b) => {
            if *b {
                String::from_str("true")
            } else {
                String::from_str("false")
            }
        },
        Json::Number(t) => t.clone(),
        Json::Text(t) => quote(t.as_str()),
        Json::Array(items) => {
            let mut inner = String::new();
            let mut i: usize = 0;
            while i < items.len()
                invariant
                    i <= items@.len(),
                    *value == Json::Array(*items),
                    inner@ == rendered_items(items@.take(i as int)),
                decreases items@.len() - i,
            {
                proof {
                    assert(decreases_to!(*value => value->Array_0));
                    assert(decreases_to!(value->Array_0 => items@));
                    assert(decreases_to!(items@ => items@[i as int]));
                }
                let item = render(&items[i]);
                if i > 0 {
                    inner.append(",");
                }
                inner.append(item.as_str());
                proof {
                    let more = items@.take(i + 1);
                    assert(more.drop_last() =~= items@.take(i as int));
                    assert(more[more.len() - 1] == items@[i as int]);
                    if i == 0 {
                        assert(inner@ =~= item@);
                    }
                }
                i = i + 1;
            }
            assert(items@.take(items@.len() as int) =~= items@);
            String::from_str("[").concat(inner.as_str()).concat("]")
        },
        Json::Object(fields) => {
            let mut inner = String::new();
            let mut i: usize = 0;
            while i < fields.len()
                invariant
                    i <= fields@.len(),
                    *value == Json::Object(*fields),
                    inner@ == rendered_fields(fields@.take(i as int)),
                decreases fields@.len() - i,
            {
                proof {
                    assert(decreases_to!(*value => value->Object_0));
                    assert(decreases_to!(value->Object_0 => fields@));
                    assert(decreases_to!(fields@ => fields@[i as int]));
                    assert(decreases_to!(fields@[i as int] => fields@[i as int].1));
                }
                let content = render(&fields[i].1);
                let entry = quote(fields[i].0.as_str()).concat(":").concat(content.as_str());
                if i > 0 {
                    inner.append(",");
                }
                inner.append(entry.as_str());
                proof {
                    let more = fields@.take(i + 1);
                    assert(more.drop_last() =~= fields@.take(i as int));
                    assert(more[more.len() - 1] == fields@[i as int]);
                    if i == 0 {
                        assert(inner@ =~= entry@);
                    }
                }
                i = i + 1;
            }
            assert(fields@.take(fields@.len() as int) =~= fields@);
            String::from_str("{").concat(inner.as_str()).concat("}")
        },
    }
}

/// The text holds no line break.
pub open spec fn one_line(s: Seq<char>) -> bool {
    forall|i: int| 0 <= i < s.len() ==> s[i] != '\n'
}

/// Whatever a JSON string stands for, its text holds no line break.
pub proof fn quoted_is_one_line(s: Seq<char>)
    ensures
        one_line(quoted(s)),
    decreases s.len(),
{
    escaped_is_one_line(s);
}

proof fn escaped_is_one_line(s: Seq<char>)
    ensures
        one_line(escaped_all(s)),
    decreases s.len(),
{
    if s.len() > 0 {
        escaped_is_one_line(s.drop_last());
        escaped_char_is_one_line(s.last());
    }
}

proof fn escaped_char_is_one_line(c: char)
    ensures
        one_line(escaped(c)),
{
    let high = hex_digit(c as int / 16);
    let low = hex_digit(c as int % 16);
    if c as int <= 0x1f {
        assert(0 <= c as int / 16 < 10);
        assert(high as u32 >= 48);
        assert(low as u32 >= 48);
    }
}

proof fn escaped_from_the_front(s: Seq<char>)
    requires
        s.len() > 0,
    ensures
        escaped_all(s) == escaped(s[0]) + escaped_all(s.drop_first()),
    decreases s.len(),
{
    if s.len() == 1 {
        assert(s.drop_last() =~= Seq::<char>::empty());
        assert(s.drop_first() =~= Seq::<char>::empty());
        assert(escaped_all(s) =~= escaped(s[0]) + escaped_all(s.drop_first()));
    } else {
        escaped_from_the_front(s.drop_last());
        assert(s.drop_last().drop_first() =~= s.drop_first().drop_last());
        assert(s.drop_first().last() == s.last());
        assert(s.drop_last()[0] == s[0]);
        assert(escaped_all(s) =~= escaped(s[0]) + escaped_all(s.drop_first()));
    }
}

/// A character is told by the beginning of whatever its escape stands in front of.
proof fn escapes_are_told_apart(a: char, b: char, x: Seq<char>, y: Seq<char>)
    requires
        escaped(a) + x == escaped(b) + y,
    ensures
        a == b,
        x == y,
{
    let s = escaped(a) + x;
    let t = escaped(b) + y;
    assert(s[0] == escaped(a)[0] && t[0] == escaped(b)[0]);
    if escaped(a)[0] == '\\' {
        assert(escaped(b)[0] == '\\');
        assert(s[1] == escaped(a)[1] && t[1] == escaped(b)[1]);
        if escaped(a)[1] == 'u' {
            assert(s[4] == escaped(a)[4] && t[4] == escaped(b)[4]);
            assert(s[5] == escaped(a)[5] && t[5] == escaped(b)[5]);
            hex_digits_are_told_apart(a as int / 16, b as int / 16);
            hex_digits_are_told_apart(a as int % 16, b as int % 16);
        }
    }
    assert(escaped(a) == escaped(b));
    assert(x =~= s.skip(escaped(a).len() as int));
    assert(y =~= t.skip(escaped(b).len() as int));
}

proof fn hex_digits_are_told_apart(m: int, n: int)
    requires
        0 <= m < 16,
        0 <= n < 16,
        hex_digit(m) == hex_digit(n),
    ensures
        m == n,
{
    let i = if m < 10 {
        '0' as u32 + m
    } else {
        'a' as u32 + (m - 10)
    };
    let j = if n < 10 {
        '0' as u32 + n
    } else {
        'a' as u32 + (n - 10)
    };
    assert(hex_digit(m) as u32 == i);
    assert(hex_digit(n) as u32 == j);
}

proof fn escaped_is_injective(a: Seq<char>, b: Seq<char>)
    requires
        escaped_all(a) == escaped_all(b),
    ensures
        a == b,
    decreases a.len(),
{
    if a.len() == 0 && b.len() == 0 {
        assert(a =~= b);
    } else if a.len() == 0 {
        escaped_from_the_front(b);
        assert(escaped_all(b).len() > 0);
    } else if b.len() == 0 {
        escaped_from_the_front(a);
        assert(escaped_all(a).len() > 0);
    } else {
        escaped_from_the_front(a);
        escaped_from_the_front(b);
        escapes_are_told_apart(
            a[0],
            b[0],
            escaped_all(a.drop_first()),
            escaped_all(b.drop_first()),
        );
        escaped_is_injective(a.drop_first(), b.drop_first());
        assert(a =~= seq![a[0]] + a.drop_first());
        assert(b =~= seq![b[0]] + b.drop_first());
    }
}

/// Different texts have different JSON strings.
pub proof fn quoted_is_injective(a: Seq<char>, b: Seq<char>)
    requires
        quoted(a) == quoted(b),
    ensures
        a == b,
{
    let x = quoted(a);
    let y = quoted(b);
    assert(escaped_all(a) =~= x.subrange(1, x.len() - 1));
    assert(escaped_all(b) =~= y.subrange(1, y.len() - 1));
    escaped_is_injective(a, b);
}

/// A key that no field has is not found, and nothing but an object has fields.
pub proof fn missing_fields_are_not_found(fields: Seq<(String, Json)>, key: Seq<char>, value: Option<Json>)
    ensures
        (forall|k: int| 0 <= k < fields.len() ==> (#[trigger] fields[k]).0@ != key) ==> lookup(
            fields,
            key,
        ) is None,
        !(value matches Some(Json::Object(_))) ==> field_of(value, key) is None,
        value matches Some(Json::Object(f)) ==> field_of(value, key) == lookup(f@, key),
    decreases fields.len(),
{
    if fields.len() > 0 {
        missing_fields_are_not_found(fields.drop_first(), key, value);
        if forall|k: int| 0 <= k < fields.len() ==> (#[trigger] fields[k]).0@ != key {
            assert(fields[0].0@ != key);
            assert forall|k: int| 0 <= k < fields.drop_first().len() implies (
            #[trigger] fields.drop_first()[k]).0@ != key by {
                assert(fields.drop_first()[k] == fields[k + 1]);
            }
        }
    }
}

/// The keys of fields stand one for one at their places.
pub proof fn keys_keep_their_places(fields: Seq<(String, Json)>, i: int)
    requires
        0 <= i < fields.len(),
    ensures
        keys(fields).len() == fields.len(),
        keys(fields)[i] == fields[i].0@,
{
}

/// What stands behind an optional reference.
pub proof fn references_stand_for_their_values(value: Option<&Json>)
    ensures
        value is None ==> target(value) is None,
        value matches Some(v) ==> target(value) == Some(*v),
{
}

/// The text of each kind of value.
pub proof fn values_have_their_texts(t: String, items: Vec<Json>, fields: Vec<(String, Json)>)
    ensures
        rendered(Json::Null) == "null"@,
        rendered(Json::Bool(true)) == "true"@,
        rendered(Json::Bool(false)) == "false"@,
        rendered(Json::Number(t)) == t@,
        rendered(Json::Text(t)) == quoted(t@),
        rendered(Json::Array(items)) == "["@ + rendered_items(items@) + "]"@,
        rendered(Json::Object(fields)) == "{"@ + rendered_fields(fields@) + "}"@,
{
}

/// Items and fields follow each other with a comma between two and nothing else; a field is its
/// key, a colon and its value.
pub proof fn commas_stand_between(
    items: Seq<Json>,
    item: Json,
    fields: Seq<(String, Json)>,
    field: (String, Json),
)
    ensures
        rendered_items(Seq::<Json>::empty()).len() == 0,
        rendered_items(seq![item]) == rendered(item),
        items.len() > 0 ==> rendered_items(items.push(item)) == rendered_items(items) + ","@
            + rendered(item),
        rendered_fields(Seq::<(String, Json)>::empty()).len() == 0,
        rendered_fields(seq![field]) == quoted(field.0@) + ":"@ + rendered(field.1),
        fields.len() > 0 ==> rendered_fields(fields.push(field)) == rendered_fields(fields) + ","@
            + (quoted(field.0@) + ":"@ + rendered(field.1)),
{
    assert(items.push(item).drop_last() =~= items);
    assert(items.push(item)[items.len() as int] == item);
    assert(fields.push(field).drop_last() =~= fields);
    assert(fields.push(field)[fields.len() as int] == field);
    assert(seq![item][0] == item);
    assert(seq![field][0] == field);
}

/// A JSON string is quotes around its characters one by one. A quote and a backslash are escaped,
/// and so are the control characters; every other character stands for itself.
pub proof fn characters_stand_for_themselves(a: Seq<char>, b: Seq<char>, c: char)
    ensures
        quoted(a) == seq!['"'] + escaped_all(a) + seq!['"'],
        escaped_all(a + b) == escaped_all(a) + escaped_all(b),
        escaped_all(seq![c]) == escaped(c),
        c as u32 >= 32 && c != '"' && c != '\\' ==> escaped(c) == seq![c],
        c == '"' || c == '\\' ==> escaped(c) == seq!['\\', c],
        (c as u32) < 32 ==> escaped(c)[0] == '\\',
    decreases b.len(),
{
    let one = seq![c];
    assert(one.drop_last() =~= Seq::<char>::empty());
    assert(escaped_all(one.drop_last()) =~= Seq::<char>::empty());
    assert(escaped_all(one) =~= escaped(c));
    if b.len() == 0 {
        assert(a + b =~= a);
        assert(escaped_all(a) + escaped_all(b) =~= escaped_all(a));
    } else {
        characters_stand_for_themselves(a, b.drop_last(), c);
        assert((a + b).drop_last() =~= a + b.drop_last());
        assert((a + b).last() == b.last());
        assert(escaped_all(a + b) =~= escaped_all(a) + escaped_all(b));
    }
}

} // verus!
