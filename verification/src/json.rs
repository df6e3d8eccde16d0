use vstd::prelude::*;
use crate::strutil::{push_char, str_eq, spec_dec, dec_u64};

verus! {

/// The library's own model of a decoded JSON document.
///
/// Integral numbers are held as `Int`; any other number (a float, or an
/// integer outside the signed 64-bit range) is held as `OtherNum`, which no
/// schema in this library accepts. Objects are held as the sequence of their
/// entries, with the keys unique as the parser hands them out.
#[derive(Debug)]
pub enum JsonValue {
    Null,
    Bool(bool),
    Int(i64),
    OtherNum,
    Str(String),
    Arr(Vec<JsonValue>),
    Obj(Vec<(String, JsonValue)>),
}

#[verifier::external_type_specification]
#[verifier::external_body]
pub struct ExValue(serde_json::Value);

/// What parsing a JSON text yields: `None` on malformed input, otherwise
/// the document in the library's model. The result depends on the text alone.
pub uninterp spec fn parsed_json(s: Seq<char>) -> Option<JsonValue>;

/// Relies on the shape of serde_json's `Value`: each variant is carried
/// over one-for-one into the library's own model; a number becomes `Int`
/// exactly when it is integral and fits in a signed 64-bit value.
#[verifier::external_body]
fn json_value_model(v: serde_json::Value) -> JsonValue {
    match v {
        serde_json::Value::Null => JsonValue::Null,
        serde_json::Value::Bool(b) => JsonValue::Bool(b),
        serde_json::Value::Number(n) => match n.as_i64() {
            Some(i) => JsonValue::Int(i),
            None => JsonValue::OtherNum,
        },
        serde_json::Value::String(s) => JsonValue::Str(s),
        serde_json::Value::Array(a) => {
            JsonValue::Arr(a.into_iter().map(json_value_model).collect())
        },
        serde_json::Value::Object(m) => {
            JsonValue::Obj(m.into_iter().map(|(k, val)| (k, json_value_model(val))).collect())
        },
    }
}

/// Relies on serde_json's `from_str::<Value>`: succeeds exactly on
/// well-formed JSON text and returns the parsed document; on failure the
/// error's own message is handed back.
#[verifier::external_body]
pub(crate) fn parse_json(s: &str) -> (r: Result<JsonValue, String>)
    ensures
        r is Ok <==> parsed_json(s@) is Some,
        r matches Ok(v) ==> parsed_json(s@) == Some(v),
{
    match serde_json::from_str::<serde_json::Value>(s) {
        Ok(v) => Ok(json_value_model(v)),
        Err(e) => Err(e.to_string()),
    }
}

/// The value under `key` in an object's entries: the first entry whose key
/// matches, or `None`.
pub open spec fn spec_obj_get(entries: Seq<(String, JsonValue)>, key: Seq<char>) -> Option<
    JsonValue,
>
    decreases entries.len(),
{
    if entries.len() == 0 {
        None
    } else if entries[0].0@ == key {
        Some(entries[0].1)
    } else {
        spec_obj_get(entries.drop_first(), key)
    }
}

/// Looks `key` up among an object's entries.
pub fn obj_get<'a>(entries: &'a Vec<(String, JsonValue)>, key: &str) -> (r: Option<
    &'a JsonValue,
>)
    ensures
        match r {
            Some(v) => spec_obj_get(entries@, key@) == Some(*v),
            None => spec_obj_get(entries@, key@) is None,
        },
{
    let mut i: usize = 0;
    assert(entries@.skip(0) =~= entries@);
    while i < entries.len()
        invariant
            i <= entries@.len(),
            spec_obj_get(entries@, key@) == spec_obj_get(entries@.skip(i as int), key@),
        decreases entries@.len() - i,
    {
        assert(entries@.skip(i as int)[0] == entries@[i as int]);
        if str_eq(entries[i].0.as_str(), key) {
            return Some(&entries[i].1);
        }
        assert(entries@.skip(i as int).drop_first() =~= entries@.skip(i + 1));
        i = i + 1;
    }
    assert(entries@.skip(i as int).len() == 0);
    None
}

/// The string under `key`, or `None` when absent or not a string.
pub open spec fn spec_str_field(entries: Seq<(String, JsonValue)>, key: Seq<char>) -> Option<
    String,
> {
    match spec_obj_get(entries, key) {
        Some(JsonValue::Str(s)) => Some(s),
        _ => None,
    }
}

/// The boolean under `key`, or `None` when absent or not a boolean.
pub open spec fn spec_bool_field(entries: Seq<(String, JsonValue)>, key: Seq<char>) -> Option<
    bool,
> {
    match spec_obj_get(entries, key) {
        Some(JsonValue::Bool(b)) => Some(b),
        _ => None,
    }
}

/// The integer under `key`, or `None` when absent or not integral.
pub open spec fn spec_int_field(entries: Seq<(String, JsonValue)>, key: Seq<char>) -> Option<
    i64,
> {
    match spec_obj_get(entries, key) {
        Some(JsonValue::Int(i)) => Some(i),
        _ => None,
    }
}

/// The unsigned 16-bit integer under `key`, or `None` when absent, not
/// integral, or out of range.
pub open spec fn spec_u16_field(entries: Seq<(String, JsonValue)>, key: Seq<char>) -> Option<
    u16,
> {
    match spec_int_field(entries, key) {
        Some(i) => if 0 <= i <= 65535 {
            Some(i as u16)
        } else {
            None
        },
        None => None,
    }
}

/// An optional string under `key`: absent and null both decode to an empty
/// option, a string decodes to itself, and any other value is a mismatch.
pub open spec fn spec_opt_str_field(entries: Seq<(String, JsonValue)>, key: Seq<char>) -> Option<
    Option<String>,
> {
    match spec_obj_get(entries, key) {
        None => Some(None),
        Some(JsonValue::Null) => Some(None),
        Some(JsonValue::Str(s)) => Some(Some(s)),
        Some(_) => None,
    }
}

/// Extracts the string under `key`.
pub fn get_str_field(entries: &Vec<(String, JsonValue)>, key: &str) -> (r: Option<String>)
    ensures
        r == spec_str_field(entries@, key@),
{
    match obj_get(entries, key) {
        Some(JsonValue::Str(s)) => Some(s.clone()),
        _ => None,
    }
}

/// Extracts the boolean under `key`.
pub fn get_bool_field(entries: &Vec<(String, JsonValue)>, key: &str) -> (r: Option<bool>)
    ensures
        r == spec_bool_field(entries@, key@),
{
    match obj_get(entries, key) {
        Some(JsonValue::Bool(b)) => Some(*b),
        _ => None,
    }
}

/// Extracts the integer under `key`.
pub fn get_int_field(entries: &Vec<(String, JsonValue)>, key: &str) -> (r: Option<i64>)
    ensures
        r == spec_int_field(entries@, key@),
{
    match obj_get(entries, key) {
        Some(JsonValue::Int(i)) => Some(*i),
        _ => None,
    }
}

/// Extracts the unsigned 16-bit integer under `key`.
pub fn get_u16_field(entries: &Vec<(String, JsonValue)>, key: &str) -> (r: Option<u16>)
    ensures
        r == spec_u16_field(entries@, key@),
{
    match get_int_field(entries, key) {
        Some(i) => if 0 <= i && i <= 65535 {
            Some(i as u16)
        } else {
            None
        },
        None => None,
    }
}

/// Extracts the optional string under `key`, treating absence and null
/// alike.
pub fn get_opt_str_field(entries: &Vec<(String, JsonValue)>, key: &str) -> (r: Option<
    Option<String>,
>)
    ensures
        r == spec_opt_str_field(entries@, key@),
{
    match obj_get(entries, key) {
        None => Some(None),
        Some(JsonValue::Null) => Some(None),
        Some(JsonValue::Str(s)) => Some(Some(s.clone())),
        Some(_) => None,
    }
}

/// Takes an object's entries and hands out the value under `key`, so a
/// nested document can be moved rather than copied.
#[verifier::loop_isolation(false)]
pub fn obj_take(entries: Vec<(String, JsonValue)>, key: &str) -> (r: Option<JsonValue>)
    ensures
        match r {
            Some(v) => spec_obj_get(entries@, key@) == Some(v),
            None => spec_obj_get(entries@, key@) is None,
        },
{
    let ghost orig = entries@;
    let mut rest = entries;
    let mut i: usize = 0;
    assert(orig.skip(0) =~= orig);
    while i < rest.len()
        invariant
            i <= rest@.len(),
            rest@ == orig,
            spec_obj_get(orig, key@) == spec_obj_get(orig.skip(i as int), key@),
        decreases rest@.len() - i,
    {
        assert(orig.skip(i as int)[0] == orig[i as int]);
        if str_eq(rest[i].0.as_str(), key) {
            assert(orig.skip(i as int).len() > 0);
            assert(spec_obj_get(orig.skip(i as int), key@) == Some(orig[i as int].1));
            let pair = rest.remove(i);
            return Some(pair.1);
        }
        assert(orig.skip(i as int).drop_first() =~= orig.skip(i + 1));
        i = i + 1;
    }
    assert(orig.skip(i as int).len() == 0);
    None
}

/// The strings of a JSON array, or `None` when some element is not a
/// string.
pub open spec fn spec_str_items(items: Seq<JsonValue>) -> Option<Seq<String>>
    decreases items.len(),
{
    if items.len() == 0 {
        Some(Seq::empty())
    } else {
        match (spec_str_items(items.drop_last()), items.last()) {
            (Some(init), JsonValue::Str(s)) => Some(init.push(s)),
            _ => None,
        }
    }
}

/// A non-string element anywhere makes the whole array decode fail.
proof fn lemma_str_items_none(items: Seq<JsonValue>, j: int)
    requires
        0 <= j < items.len(),
        !(items[j] is Str),
    ensures
        spec_str_items(items) is None,
    decreases items.len(),
{
    if j == items.len() - 1 {
    } else {
        assert(items.drop_last()[j] == items[j]);
        lemma_str_items_none(items.drop_last(), j);
    }
}

/// Decodes an array of strings element by element.
pub fn strings_of_array(items: &Vec<JsonValue>) -> (r: Option<Vec<String>>)
    ensures
        match r {
            Some(v) => spec_str_items(items@) == Some(v@),
            None => spec_str_items(items@) is None,
        },
{
    let mut out: Vec<String> = Vec::new();
    let mut i: usize = 0;
    assert(items@.take(0) =~= Seq::<JsonValue>::empty());
    while i < items.len()
        invariant
            i <= items@.len(),
            spec_str_items(items@.take(i as int)) == Some(out@),
        decreases items@.len() - i,
    {
        assert(items@.take(i + 1).drop_last() =~= items@.take(i as int));
        assert(items@.take(i + 1).last() == items@[i as int]);
        match &items[i] {
            JsonValue::Str(s) => {
                out.push(s.clone());
            },
            _ => {
                proof {
                    lemma_str_items_none(items@, i as int);
                }
                return None;
            },
        }
        i = i + 1;
    }
    assert(items@.take(i as int) =~= items@);
    Some(out)
}

/// How one character is written inside a JSON string literal.
pub open spec fn json_escape_char(c: char) -> Seq<char> {
    if c == '"' {
        seq!['\\', '"']
    } else if c == '\\' {
        seq!['\\', '\\']
    } else if c == '\u{8}' {
        seq!['\\', 'b']
    } else if c == '\t' {
        seq!['\\', 't']
    } else if c == '\n' {
        seq!['\\', 'n']
    } else if c == '\u{c}' {
        seq!['\\', 'f']
    } else if c == '\r' {
        seq!['\\', 'r']
    } else if (c as u32) < 0x20 {
        seq!['\\', 'u', '0', '0', hex_char((c as u32 / 16) as nat), hex_char((c as u32 % 16) as nat)]
    } else {
        seq![c]
    }
}

/// The lower-case hexadecimal digit for `d`, which must be below sixteen.
pub open spec fn hex_char(d: nat) -> char {
    if d < 10 {
        crate::strutil::digit_char(d)
    } else if d == 10 {
        'a'
    } else if d == 11 {
        'b'
    } else if d == 12 {
        'c'
    } else if d == 13 {
        'd'
    } else if d == 14 {
        'e'
    } else {
        'f'
    }
}

/// The body of a JSON string literal holding the characters `s`.
pub open spec fn json_escaped(s: Seq<char>) -> Seq<char>
    decreases s.len(),
{
    if s.len() == 0 {
        Seq::empty()
    } else {
        json_escape_char(s[0]) + json_escaped(s.drop_first())
    }
}

/// A JSON string literal holding the characters `s`, quotes included.
pub open spec fn jstr(s: Seq<char>) -> Seq<char> {
    seq!['"'] + json_escaped(s) + seq!['"']
}

/// Escaping distributes over concatenation.
pub proof fn lemma_json_escaped_concat(a: Seq<char>, b: Seq<char>)
    ensures
        json_escaped(a + b) == json_escaped(a) + json_escaped(b),
    decreases a.len(),
{
    if a.len() == 0 {
        assert(a + b =~= b);
        assert(json_escaped(a) + json_escaped(b) =~= json_escaped(b));
    } else {
        assert((a + b).drop_first() =~= a.drop_first() + b);
        lemma_json_escaped_concat(a.drop_first(), b);
        assert((a + b)[0] == a[0]);
        assert(json_escaped(a + b) =~= json_escaped(a) + json_escaped(b));
    }
}

fn hex_of(d: u32) -> (c: char)
    requires
        d < 16,
    ensures
        c == hex_char(d as nat),
{
    if d == 0 {
        '0'
    } else if d == 1 {
        '1'
    } else if d == 2 {
        '2'
    } else if d == 3 {
        '3'
    } else if d == 4 {
        '4'
    } else if d == 5 {
        '5'
    } else if d == 6 {
        '6'
    } else if d == 7 {
        '7'
    } else if d == 8 {
        '8'
    } else if d == 9 {
        '9'
    } else if d == 10 {
        'a'
    } else if d == 11 {
        'b'
    } else if d == 12 {
        'c'
    } else if d == 13 {
        'd'
    } else if d == 14 {
        'e'
    } else {
        'f'
    }
}

fn append_escape_char(out: &mut Vec<char>, c: char)
    ensures
        final(out)@ == old(out)@ + json_escape_char(c),
{
    if c == '"' {
        out.push('\\');
        out.push('"');
    } else if c == '\\' {
        out.push('\\');
        out.push('\\');
    } else if c == '\u{8}' {
        out.push('\\');
        out.push('b');
    } else if c == '\t' {
        out.push('\\');
        out.push('t');
    } else if c == '\n' {
        out.push('\\');
        out.push('n');
    } else if c == '\u{c}' {
        out.push('\\');
        out.push('f');
    } else if c == '\r' {
        out.push('\\');
        out.push('r');
    } else if (c as u32) < 0x20 {
        out.push('\\');
        out.push('u');
        out.push('0');
        out.push('0');
        out.push(hex_of((c as u32) / 16));
        out.push(hex_of((c as u32) % 16));
    } else {
        out.push(c);
    }
    assert(final(out)@ =~= old(out)@ + json_escape_char(c));
}

/// Appends the characters of `s` verbatim.
pub fn append_chars(out: &mut Vec<char>, s: &str)
    ensures
        final(out)@ == old(out)@ + s@,
{
    let v = crate::strutil::chars_of(s);
    let mut i: usize = 0;
    while i < v.len()
        invariant
            i <= v@.len(),
            v@ == s@,
            out@ == old(out)@ + s@.take(i as int),
        decreases v@.len() - i,
    {
        out.push(v[i]);
        assert(out@ =~= old(out)@ + s@.take(i + 1));
        i = i + 1;
    }
    assert(old(out)@ + s@.take(s@.len() as int) =~= old(out)@ + s@);
}

/// Appends `s` as a JSON string literal, quotes and escaping included.
pub fn append_jstr(out: &mut Vec<char>, s: &str)
    ensures
        final(out)@ == old(out)@ + jstr(s@),
{
    let v = crate::strutil::chars_of(s);
    out.push('"');
    let mut i: usize = 0;
    while i < v.len()
        invariant
            i <= v@.len(),
            v@ == s@,
            out@ == old(out)@ + seq!['"'] + json_escaped(s@.take(i as int)),
        decreases v@.len() - i,
    {
        append_escape_char(out, v[i]);
        proof {
            lemma_json_escaped_concat(s@.take(i as int), seq![s@[i as int]]);
            assert(s@.take(i as int) + seq![s@[i as int]] =~= s@.take(i + 1));
            assert(seq![s@[i as int]].drop_first() =~= Seq::<char>::empty());
            assert(json_escaped(Seq::<char>::empty()) =~= Seq::<char>::empty());
            assert(json_escaped(seq![s@[i as int]]) =~= json_escape_char(s@[i as int]));
        }
        i = i + 1;
    }
    out.push('"');
    assert(s@.take(s@.len() as int) =~= s@);
    assert(final(out)@ =~= old(out)@ + jstr(s@));
}

/// Appends the decimal rendering of `n`.
pub fn append_dec(out: &mut Vec<char>, n: u64)
    ensures
        final(out)@ == old(out)@ + spec_dec(n as nat),
{
    let d = dec_u64(n);
    let mut i: usize = 0;
    while i < d.len()
        invariant
            i <= d@.len(),
            d@ == spec_dec(n as nat),
            out@ == old(out)@ + d@.take(i as int),
        decreases d@.len() - i,
    {
        out.push(d[i]);
        assert(out@ =~= old(out)@ + d@.take(i + 1));
        i = i + 1;
    }
    assert(old(out)@ + d@.take(d@.len() as int) =~= old(out)@ + d@);
}

/// Builds the `String` whose characters are exactly `v`.
pub fn chars_to_string(v: &Vec<char>) -> (r: String)
    ensures
        r@ == v@,
{
    crate::strutil::string_of_chars(v.as_slice())
}

} // verus!

