//! JSON text: strings are encoded by serde_json, and a one-member object is
//! framed around them here.
use vstd::prelude::*;

verus! {

/// Declares serde_json's error type, so that an encoding result can carry it.
#[verifier::external_type_specification]
#[verifier::external_body]
pub struct ExJsonError(serde_json::Error);

/// The lowercase hexadecimal digits, in order.
pub open spec fn hex_digits() -> Seq<char> {
    seq!['0', '1', '2', '3', '4', '5', '6', '7', '8', '9', 'a', 'b', 'c', 'd', 'e', 'f']
}

/// How a single character stands inside a JSON string: a quote and a backslash
/// take a backslash, the common control characters their short escape, the other
/// control characters `\u00XX`; every other character stands for itself.
pub open spec fn escape_char(c: char) -> Seq<char> {
    if c == '"' {
        seq!['\\', '"']
    } else if c == '\\' {
        seq!['\\', '\\']
    } else if c == '\x08' {
        seq!['\\', 'b']
    } else if c == '\t' {
        seq!['\\', 't']
    } else if c == '\n' {
        seq!['\\', 'n']
    } else if c == '\x0c' {
        seq!['\\', 'f']
    } else if c == '\r' {
        seq!['\\', 'r']
    } else if (c as u32) < 0x20 {
        seq!['\\', 'u', '0', '0', hex_digits()[(c as u32 / 16) as int], hex_digits()[(c as u32 % 16) as int]]
    } else {
        seq![c]
    }
}

/// The characters of `s`, each escaped.
pub open spec fn escaped(s: Seq<char>) -> Seq<char>
    decreases s.len(),
{
    if s.len() == 0 {
        Seq::empty()
    } else {
        escaped(s.drop_last()) + escape_char(s.last())
    }
}

/// `s` as a JSON string literal.
pub open spec fn json_quoted(s: Seq<char>) -> Seq<char> {
    seq!['"'] + escaped(s) + seq!['"']
}

/// No character of `s` needs an escape.
pub open spec fn is_plain(s: Seq<char>) -> bool {
    forall|i: int| 0 <= i < s.len() ==> s[i] != '"' && s[i] != '\\' && (s[i] as u32) >= 0x20
}

/// The JSON text of an object with one member, from the encoded key and value.
pub open spec fn object_text(key: Seq<char>, value: Seq<char>) -> Seq<char> {
    seq!['{'] + key + seq![':'] + value + seq!['}']
}

/// A plain text is its own escape.
pub proof fn lemma_plain_escaped(s: Seq<char>)
    requires
        is_plain(s),
    ensures
        escaped(s) == s,
    decreases s.len(),
{
    if s.len() > 0 {
        let t = s.drop_last();
        assert(is_plain(t));
        lemma_plain_escaped(t);
        assert(s =~= t + seq![s.last()]);
    }
}

/// Why encoding failed.
#[derive(Clone, Copy, Debug, PartialEq, Eq, Structural)]
pub enum JsonError {
    /// The serializer reported an error.
    Serialize,
}

/// Relies on serde_json::to_string on a `str`: the result is the text in double
/// quotes, escaped as its compact formatter writes strings. It is always `Ok`:
/// the text is written into a fresh `Vec`, and a write error is the only error
/// that serializing a string can report.
#[verifier::external_body]
fn json_string(s: &str) -> (r: Result<String, serde_json::Error>)
    ensures
        r is Ok,
        r->Ok_0@ == json_quoted(s@),
{
    serde_json::to_string(s)
}

/// Frames a one-member object around an encoded key and value; an error in
/// either is the result's error.
pub fn frame_object(
    key: Result<String, serde_json::Error>,
    value: Result<String, serde_json::Error>,
) -> (r: Result<String, JsonError>)
    ensures
        r is Ok <==> (key is Ok && value is Ok),
        r matches Ok(t) ==> t@ == object_text(key->Ok_0@, value->Ok_0@),
        r is Err ==> r == Err::<String, JsonError>(JsonError::Serialize),
{
    match (key, value) {
        (Ok(k), Ok(v)) => {
            let mut t = String::from_str("{");
            t.append(k.as_str());
            t.append(":");
            t.append(v.as_str());
            t.append("}");
            proof {
                reveal_strlit("{");
                reveal_strlit(":");
                reveal_strlit("}");
                assert(t@ =~= object_text(k@, v@));
            }
            Ok(t)
        },
        _ => Err(JsonError::Serialize),
    }
}

/// The JSON text of the object whose single member maps `key` to `value`.
pub fn encode_object(key: &str, value: &str) -> (r: Result<String, JsonError>)
    ensures
        r is Ok,
        r->Ok_0@ == object_text(json_quoted(key@), json_quoted(value@)),
{
    let k = json_string(key);
    let v = json_string(value);
    frame_object(k, v)
}

} // verus!
