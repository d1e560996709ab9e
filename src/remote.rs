use vstd::prelude::*;
use crate::json::{
    at_index, at_key, json_at_index, json_at_key, json_of_bytes, json_of_text, json_strings,
    json_text, parse_json_bytes, parse_json_text, strings_of, text_of, Json,
};

verus! {

/// A lower-case hexadecimal digit.
pub open spec fn hex_digit(n: int) -> char {
    "0123456789abcdef"@[n]
}

/// How `serde_json` writes one character inside a string literal: quote,
/// backslash and the control characters below U+0020 are escaped, the short
/// forms where JSON has one; every other character stands as it is.
pub open spec fn escape_char(c: char) -> Seq<char> {
    if c == '"' {
        seq!['\\', '"']
    } else if c == '\\' {
        seq!['\\', '\\']
    } else if c == '\u{8}' {
        seq!['\\', 'b']
    } else if c == '\t' {
        seq!['\\', 't']
    } else if c == '\n' {
        seq!['\\', 'n']
    } else if c == '\u{c}' {
        seq!['\\', 'f']
    } else if c == '\r' {
        seq!['\\', 'r']
    } else if (c as u32) < 0x20 {
        seq!['\\', 'u', '0', '0', hex_digit((c as u32) as int / 16),
            hex_digit((c as u32) as int % 16)]
    } else {
        seq![c]
    }
}

/// The characters of a text, each escaped.
pub open spec fn escaped(s: Seq<char>) -> Seq<char>
    decreases s.len(),
{
    if s.len() == 0 {
        Seq::empty()
    } else {
        escaped(s.drop_last()) + escape_char(s.last())
    }
}

/// The JSON string literal `serde_json` writes for a text.
pub open spec fn json_string_of(s: Seq<char>) -> Seq<char> {
    seq!['"'] + escaped(s) + seq!['"']
}

/// Relies on the `Display` of `Value::String` (`format_escaped_str`): the text as a
/// JSON string literal.
#[verifier::external_body]
fn json_quoted(s: &str) -> (r: String)
    ensures
        r@ == json_string_of(s@),
{
    serde_json::Value::String(s.to_string()).to_string()
}

/// The instruction sent to the inference service, with the prompt embedded verbatim.
pub open spec fn instruction_spec(prompt: Seq<char>) -> Seq<char> {
    "Return ONLY JSON: {\"filters\":[\"ffmpeg_filter_1\",\"ffmpeg_filter_2\",\"ffmpeg_filter_3\"]} for this prompt: "@
        + prompt
}

/// The request envelope around an instruction already written as a JSON string.
pub open spec fn envelope_spec(quoted: Seq<char>) -> Seq<char> {
    "{\"contents\":[{\"parts\":[{\"text\":"@ + quoted + "}]}]}"@
}

/// The request envelope: one content with one text part holding the instruction.
pub open spec fn request_spec(prompt: Seq<char>) -> Seq<char> {
    envelope_spec(json_string_of(instruction_spec(prompt)))
}

/// Wraps an instruction, already written as a JSON string literal, in the
/// request envelope.
pub fn request_around(quoted: &str) -> (r: String)
    ensures
        r@ == envelope_spec(quoted@),
{
    let mut r = String::from_str("{\"contents\":[{\"parts\":[{\"text\":");
    r.append(quoted);
    r.append("}]}]}");
    r
}

/// Builds the JSON request body that asks the inference service for a chain.
pub fn request_body(prompt: &str) -> (r: String)
    ensures
        r@ == request_spec(prompt@),
{
    let mut instruction = String::from_str(
        "Return ONLY JSON: {\"filters\":[\"ffmpeg_filter_1\",\"ffmpeg_filter_2\",\"ffmpeg_filter_3\"]} for this prompt: ",
    );
    instruction.append(prompt);
    request_around(json_quoted(instruction.as_str()).as_str())
}

/// The text at `candidates[0].content.parts[0].text` of a document.
pub open spec fn first_part_text(env: Json) -> Option<Seq<char>> {
    match at_key(env, "candidates"@) {
        Some(cs) => match at_index(cs, 0) {
            Some(c) => match at_key(c, "content"@) {
                Some(content) => match at_key(content, "parts"@) {
                    Some(ps) => match at_index(ps, 0) {
                        Some(p) => match at_key(p, "text"@) {
                            Some(t) => text_of(t),
                            None => None,
                        },
                        None => None,
                    },
                    None => None,
                },
                None => None,
            },
            None => None,
        },
        None => None,
    }
}

/// The inner text of a response body: the text of the first part of the first
/// candidate's content, or `None` when the body is not JSON or lacks it.
pub open spec fn envelope_text(b: Seq<u8>) -> Option<Seq<char>> {
    match json_of_bytes(b) {
        Some(env) => first_part_text(env),
        None => None,
    }
}

/// The chain an inner text names: the string entries of its `filters` array, in
/// order, or `None` when the text is not JSON or has no `filters` array.
pub open spec fn text_filters(t: Seq<char>) -> Option<Seq<Seq<char>>> {
    match json_of_text(t) {
        Some(v) => match at_key(v, "filters"@) {
            Some(Json::Array(items)) => Some(strings_of(items@)),
            _ => None,
        },
        None => None,
    }
}

/// The chain a whole response body names, through both stages.
pub open spec fn response_filters(b: Seq<u8>) -> Option<Seq<Seq<char>>> {
    match envelope_text(b) {
        Some(t) => text_filters(t),
        None => None,
    }
}

/// The view of an optional chain.
pub open spec fn chain_view(r: Option<Vec<String>>) -> Option<Seq<Seq<char>>> {
    match r {
        Some(v) => Some(v.deep_view()),
        None => None,
    }
}

/// First stage of reading a response: the text of the first part of the first
/// candidate's content.
pub fn response_text(body: &[u8]) -> (r: Option<String>)
    ensures
        match r {
            Some(s) => envelope_text(body@) == Some(s@),
            None => envelope_text(body@) is None,
        },
{
    let envelope = parse_json_bytes(body)?;
    let candidates = json_at_key(&envelope, "candidates")?;
    let candidate = json_at_index(candidates, 0)?;
    let content = json_at_key(candidate, "content")?;
    let parts = json_at_key(content, "parts")?;
    let part = json_at_index(parts, 0)?;
    let text = json_at_key(part, "text")?;
    json_text(text)
}

/// Second stage: the string entries of the `filters` array of the inner JSON
/// text, other entries dropped.
pub fn filters_from_text(text: &str) -> (r: Option<Vec<String>>)
    ensures
        chain_view(r) == text_filters(text@),
{
    let inner = parse_json_text(text)?;
    let list = json_at_key(&inner, "filters")?;
    match list {
        Json::Array(items) => Some(json_strings(items)),
        _ => None,
    }
}

/// Reads a chain from a raw response body through both stages; `None` when
/// either stage fails, so that no partial remote output is ever used.
pub fn filters_from_response(body: &[u8]) -> (r: Option<Vec<String>>)
    ensures
        chain_view(r) == response_filters(body@),
{
    let text = response_text(body)?;
    filters_from_text(text.as_str())
}

} // verus!
