//! Request bodies by declared type, including the GraphQL envelope.

use vstd::prelude::*;
use vstd::string::*;

use crate::request::BodyType;
use crate::text::{is_blank, is_blank_text, joined, push_char, same_text, text_of};

verus! {

/// What `serde_json` reads from a text as a JSON object: each member's name
/// with its text when the member is a JSON string (`None` for any other
/// kind of value); `None` as a whole when the text is not one JSON object.
pub uninterp spec fn json_object_members(s: Seq<char>) -> Option<Seq<(Seq<char>, Option<Seq<char>>)>>;

/// A lowercase hexadecimal digit for a value below 16.
pub open spec fn lower_hex_digit(n: u32) -> char {
    if n < 10 {
        (48 + n) as char
    } else {
        (87 + n) as char
    }
}

/// How one character appears inside a JSON string literal as serde_json
/// writes it: the quote mark and the backslash escaped, the control
/// characters below U+0020 as `\b`, `\t`, `\n`, `\f`, `\r` or `\u00xx`, every
/// other character as it is.
pub open spec fn json_escaped_char(c: char) -> Seq<char> {
    let v = c as u32;
    if c == '"' {
        seq!['\\', '"']
    } else if c == '\\' {
        seq!['\\', '\\']
    } else if v == 8 {
        seq!['\\', 'b']
    } else if v == 9 {
        seq!['\\', 't']
    } else if v == 10 {
        seq!['\\', 'n']
    } else if v == 12 {
        seq!['\\', 'f']
    } else if v == 13 {
        seq!['\\', 'r']
    } else if v < 32 {
        seq!['\\', 'u', '0', '0', lower_hex_digit(v / 16), lower_hex_digit(v % 16)]
    } else {
        seq![c]
    }
}

/// The escaped contents of a JSON string literal.
pub open spec fn json_escaped(s: Seq<char>) -> Seq<char>
    decreases s.len(),
{
    if s.len() == 0 {
        Seq::empty()
    } else {
        json_escaped(s.drop_last()) + json_escaped_char(s.last())
    }
}

/// A text as a JSON string literal: in double quotes, escaped.
pub open spec fn json_quoted(s: Seq<char>) -> Seq<char> {
    seq!['"'] + json_escaped(s) + seq!['"']
}

/// What `serde_json` writes back, compactly, for a text read as one JSON
/// value; `None` when the text is not one JSON value.
pub uninterp spec fn json_reencoded(s: Seq<char>) -> Option<Seq<char>>;

/// The view of decoded object members.
pub open spec fn member_views(ms: Seq<(String, Option<String>)>) -> Seq<(Seq<char>, Option<Seq<char>>)> {
    ms.map_values(|m: (String, Option<String>)| (m.0@, text_of(m.1)))
}

/// Relies on `serde_json::from_str` into a `serde_json::Map<String, Value>`;
/// string members keep their text, other values are only told apart from it.
#[verifier::external_body]
fn read_json_object(s: &str) -> (r: Option<Vec<(String, Option<String>)>>)
    ensures
        r is Some <==> json_object_members(s@) is Some,
        r matches Some(ms) ==> json_object_members(s@) == Some(member_views(ms@)),
{
    match serde_json::from_str::<serde_json::Map<String, serde_json::Value>>(s) {
        Ok(m) => Some(
            m.into_iter().map(|(k, v)| match v {
                serde_json::Value::String(t) => (k, Some(t)),
                _ => (k, None),
            }).collect(),
        ),
        Err(_) => None,
    }
}

fn push_lower_hex(out: &mut String, n: u32)
    requires
        n < 16,
    ensures
        final(out)@ == old(out)@.push(lower_hex_digit(n)),
{
    if n < 10 {
        push_char(out, (48 + n as u8) as char);
    } else {
        push_char(out, (87 + n as u8) as char);
    }
}

/// The text as a JSON string literal, escaped as serde_json writes strings.
pub fn json_quote(s: &str) -> (r: String)
    ensures
        r@ == json_quoted(s@),
{
    let mut out = String::new();
    push_char(&mut out, '"');
    let ghost start = out@;
    for c in it: s.chars()
        invariant
            it.seq() == s@,
            start == seq!['"'],
            out@ == start + json_escaped(s@.subrange(0, it.index())),
    {
        proof {
            assert(s@.subrange(0, it.index() + 1).drop_last() == s@.subrange(0, it.index()));
            assert(s@.subrange(0, it.index() + 1).last() == c);
        }
        let v = c as u32;
        if c == '"' {
            push_char(&mut out, '\\');
            push_char(&mut out, '"');
        } else if c == '\\' {
            push_char(&mut out, '\\');
            push_char(&mut out, '\\');
        } else if v == 8 {
            push_char(&mut out, '\\');
            push_char(&mut out, 'b');
        } else if v == 9 {
            push_char(&mut out, '\\');
            push_char(&mut out, 't');
        } else if v == 10 {
            push_char(&mut out, '\\');
            push_char(&mut out, 'n');
        } else if v == 12 {
            push_char(&mut out, '\\');
            push_char(&mut out, 'f');
        } else if v == 13 {
            push_char(&mut out, '\\');
            push_char(&mut out, 'r');
        } else if v < 32 {
            push_char(&mut out, '\\');
            push_char(&mut out, 'u');
            push_char(&mut out, '0');
            push_char(&mut out, '0');
            push_lower_hex(&mut out, v / 16);
            push_lower_hex(&mut out, v % 16);
        } else {
            push_char(&mut out, c);
        }
    }
    proof {
        assert(s@.subrange(0, s@.len() as int) == s@);
    }
    push_char(&mut out, '"');
    out
}

/// Relies on `serde_json::from_str` into a `serde_json::Value`, written back
/// through the value's compact `Display`.
#[verifier::external_body]
fn json_reencode(s: &str) -> (r: Option<String>)
    ensures
        r is Some <==> json_reencoded(s@) is Some,
        r matches Some(t) ==> json_reencoded(s@) == Some(t@),
{
    serde_json::from_str::<serde_json::Value>(s).ok().map(|v| v.to_string())
}

/// The value of the last member called `key`, if any.
pub open spec fn find_member(
    ms: Seq<(Seq<char>, Option<Seq<char>>)>,
    key: Seq<char>,
) -> Option<Option<Seq<char>>>
    decreases ms.len(),
{
    if ms.len() == 0 {
        None
    } else if ms.last().0 == key {
        Some(ms.last().1)
    } else {
        find_member(ms.drop_last(), key)
    }
}

/// An optional string member: absent reads as empty, a non-string fails.
pub open spec fn optional_text(m: Option<Option<Seq<char>>>) -> Option<Seq<char>> {
    match m {
        None => Some(Seq::empty()),
        Some(Some(t)) => Some(t),
        Some(None) => None,
    }
}

/// The `query`, `variables` and `operationName` strings of a GraphQL envelope
/// read from its object members: `query` must be a string, the other two are
/// strings or absent (read as empty).
pub open spec fn envelope_fields(ms: Seq<(Seq<char>, Option<Seq<char>>)>) -> Option<(Seq<char>, Seq<char>, Seq<char>)> {
    let q = find_member(ms, "query"@);
    let v = optional_text(find_member(ms, "variables"@));
    let o = optional_text(find_member(ms, "operationName"@));
    match q {
        Some(Some(qt)) => match (v, o) {
            (Some(vt), Some(ot)) => Some((qt, vt, ot)),
            _ => None,
        },
        _ => None,
    }
}

/// The envelope's fields, when the text is a JSON object that holds them.
pub open spec fn graphql_envelope(content: Seq<char>) -> Option<(Seq<char>, Seq<char>, Seq<char>)> {
    match json_object_members(content) {
        Some(ms) => envelope_fields(ms),
        None => None,
    }
}

/// The outgoing GraphQL JSON body from the quoted query, the re-encoded
/// variables (if sent) and the quoted operation name (if sent).
pub open spec fn framed_body(
    quoted_query: Seq<char>,
    variables: Option<Seq<char>>,
    quoted_operation: Option<Seq<char>>,
) -> Seq<char> {
    "{\"query\":"@ + quoted_query + match variables {
        Some(j) => ",\"variables\":"@ + j,
        None => Seq::empty(),
    } + match quoted_operation {
        Some(j) => ",\"operationName\":"@ + j,
        None => Seq::empty(),
    } + "}"@
}

/// The variables sent: blank variables are left out, and so are variables
/// that are not JSON.
pub open spec fn sent_variables(v: Seq<char>) -> Option<Seq<char>> {
    if is_blank_text(v) {
        None
    } else {
        json_reencoded(v)
    }
}

/// The operation name sent: a blank one is left out.
pub open spec fn sent_operation(o: Seq<char>) -> Option<Seq<char>> {
    if is_blank_text(o) {
        None
    } else {
        Some(json_quoted(o))
    }
}

/// The outgoing body for GraphQL content: the rebuilt JSON object, or the
/// content unchanged when it is not a valid envelope.
pub open spec fn graphql_body_text(content: Seq<char>) -> Seq<char> {
    match graphql_envelope(content) {
        Some((q, v, o)) => framed_body(json_quoted(q), sent_variables(v), sent_operation(o)),
        None => content,
    }
}

fn member_named(ms: &Vec<(String, Option<String>)>, key: &str) -> (r: Option<Option<String>>)
    ensures
        r matches Some(x) ==> find_member(member_views(ms@), key@) == Some(text_of(x)),
        r is None ==> find_member(member_views(ms@), key@) is None,
{
    let mut found: Option<Option<String>> = None;
    let mut i: usize = 0;
    while i < ms.len()
        invariant
            i <= ms@.len(),
            found matches Some(x) ==> find_member(member_views(ms@.subrange(0, i as int)), key@)
                == Some(text_of(x)),
            found is None ==> find_member(member_views(ms@.subrange(0, i as int)), key@) is None,
        decreases ms@.len() - i,
    {
        proof {
            let sub = member_views(ms@.subrange(0, i + 1));
            assert(sub.drop_last() == member_views(ms@.subrange(0, i as int)));
        }
        if same_text(ms[i].0.as_str(), key) {
            found = Some(ms[i].1.clone());
        }
        i = i + 1;
    }
    proof {
        assert(ms@.subrange(0, ms@.len() as int) == ms@);
    }
    found
}

fn text_member(m: Option<Option<String>>) -> (r: Option<String>)
    ensures
        text_of(r) == optional_text(match m {
            Some(x) => Some(text_of(x)),
            None => None,
        }),
{
    match m {
        None => Some(String::new()),
        Some(Some(t)) => Some(t),
        Some(None) => None,
    }
}

/// The envelope's `query`, `variables` and `operationName` from its decoded
/// object members.
pub fn envelope_from_members(ms: &Vec<(String, Option<String>)>) -> (r: Option<(String, String, String)>)
    ensures
        r is Some <==> envelope_fields(member_views(ms@)) is Some,
        r matches Some(t) ==> envelope_fields(member_views(ms@)) == Some((t.0@, t.1@, t.2@)),
{
    let q = member_named(ms, "query");
    let v = text_member(member_named(ms, "variables"));
    let o = text_member(member_named(ms, "operationName"));
    match q {
        Some(Some(qt)) => match (v, o) {
            (Some(vt), Some(ot)) => Some((qt, vt, ot)),
            _ => None,
        },
        _ => None,
    }
}

/// Frames the outgoing GraphQL object from its already-encoded parts, in the
/// order `query`, `variables`, `operationName`; absent parts are left out.
pub fn frame_graphql_body(
    quoted_query: &str,
    variables: &Option<String>,
    quoted_operation: &Option<String>,
) -> (r: String)
    ensures
        r@ == framed_body(quoted_query@, text_of(*variables), text_of(*quoted_operation)),
{
    let mut out = joined("{\"query\":", quoted_query);
    match variables {
        Some(j) => {
            out.append(",\"variables\":");
            out.append(j.as_str());
        },
        None => {},
    }
    match quoted_operation {
        Some(j) => {
            out.append(",\"operationName\":");
            out.append(j.as_str());
        },
        None => {},
    }
    out.append("}");
    out
}

/// Rebuilds a GraphQL envelope `{query, variables, operationName}` (the two
/// last as strings) into the JSON body that is sent: `variables` re-read as
/// JSON, and either of them left out when blank (or, for `variables`, not
/// JSON). Content that is not such an envelope is sent unchanged.
pub fn build_graphql_body(content: &str) -> (r: String)
    ensures
        r@ == graphql_body_text(content@),
{
    let members = match read_json_object(content) {
        Some(ms) => ms,
        None => return content.to_owned(),
    };
    let (query, variables, operation) = match envelope_from_members(&members) {
        Some(t) => t,
        None => return content.to_owned(),
    };
    let sent_vars = if is_blank(variables.as_str()) {
        None
    } else {
        json_reencode(variables.as_str())
    };
    let sent_op = if is_blank(operation.as_str()) {
        None
    } else {
        Some(json_quote(operation.as_str()))
    };
    let quoted = json_quote(query.as_str());
    frame_graphql_body(quoted.as_str(), &sent_vars, &sent_op)
}

/// A body to send and the content type declared for it.
#[derive(Debug, Clone)]
pub struct OutgoingBody {
    pub content_type: String,
    pub content: String,
}

/// The content type and text sent for a declared body type and content:
/// nothing without content, nor for no body or multipart.
pub open spec fn body_of(body_type: BodyType, content: Option<Seq<char>>) -> Option<(Seq<char>, Seq<char>)> {
    match content {
        None => None,
        Some(c) => match body_type {
            BodyType::Json => Some(("application/json"@, c)),
            BodyType::Text => Some(("text/plain"@, c)),
            BodyType::FormUrlEncoded => Some(("application/x-www-form-urlencoded"@, c)),
            BodyType::GraphQL => Some(("application/json"@, graphql_body_text(c))),
            _ => None,
        },
    }
}

pub open spec fn outgoing_view(b: Option<OutgoingBody>) -> Option<(Seq<char>, Seq<char>)> {
    match b {
        Some(o) => Some((o.content_type@, o.content@)),
        None => None,
    }
}

/// Encodes the body by its declared type: JSON, text and form content go out
/// verbatim with their content type, GraphQL content is rebuilt; no body is
/// sent without content or for the other types.
pub fn encode_body(body_type: BodyType, content: &Option<String>) -> (r: Option<OutgoingBody>)
    ensures
        outgoing_view(r) == body_of(body_type, text_of(*content)),
{
    match content {
        None => None,
        Some(c) => match body_type {
            BodyType::Json => Some(
                OutgoingBody { content_type: "application/json".to_owned(), content: c.clone() },
            ),
            BodyType::Text => Some(
                OutgoingBody { content_type: "text/plain".to_owned(), content: c.clone() },
            ),
            BodyType::FormUrlEncoded => Some(
                OutgoingBody {
                    content_type: "application/x-www-form-urlencoded".to_owned(),
                    content: c.clone(),
                },
            ),
            BodyType::GraphQL => Some(
                OutgoingBody {
                    content_type: "application/json".to_owned(),
                    content: build_graphql_body(c.as_str()),
                },
            ),
            _ => None,
        },
    }
}

} // verus!
