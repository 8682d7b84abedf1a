//! The outgoing header map and the transport's rules for header names and
//! values.

use vstd::prelude::*;
use vstd::string::StringSliceAdditionalSpecFns;

use reqwest::header::{HeaderMap, HeaderName, HeaderValue};

use crate::request::KeyValue;

verus! {

#[verifier::external_type_specification]
#[verifier::external_body]
#[verifier::reject_recursive_types(T)]
pub struct ExHeaderMap<T>(HeaderMap<T>);

#[verifier::external_type_specification]
#[verifier::external_body]
pub struct ExHeaderValue(HeaderValue);

/// The most headers a request can send, one that authentication adds
/// included: the transport's header map can fail to grow once it holds 6554
/// names.
pub const MAX_HEADER_ENTRIES: usize = 6553;

/// What a header map holds: each lower-case header name with its value.
pub uninterp spec fn header_entries(m: HeaderMap) -> Map<Seq<char>, Seq<char>>;

/// The entries of an empty header map.
pub open spec fn no_headers() -> Map<Seq<char>, Seq<char>> {
    Map::empty()
}

/// A character allowed in a header name (a `tchar` of RFC 9110).
pub open spec fn is_token_char(c: char) -> bool {
    ||| 'a' <= c <= 'z'
    ||| 'A' <= c <= 'Z'
    ||| '0' <= c <= '9'
    ||| c == '!' || c == '#' || c == '$' || c == '%' || c == '&' || c == '\''
    ||| c == '*' || c == '+' || c == '-' || c == '.' || c == '^' || c == '_'
    ||| c == '`' || c == '|' || c == '~'
}

/// A text the transport accepts as a header name.
pub open spec fn valid_header_name(s: Seq<char>) -> bool {
    &&& 0 < s.len() <= 65535
    &&& forall|i: int| 0 <= i < s.len() ==> #[trigger] is_token_char(s[i])
}

/// A character the transport accepts in a header value.
pub open spec fn is_value_char(c: char) -> bool {
    (c as u32 >= 32 && c as u32 != 127) || c as u32 == 9
}

/// A text the transport accepts as a header value.
pub open spec fn valid_header_value(s: Seq<char>) -> bool {
    forall|i: int| 0 <= i < s.len() ==> #[trigger] is_value_char(s[i])
}

/// ASCII upper-case letters mapped to lower case; anything else unchanged.
pub open spec fn ascii_lower(c: char) -> char {
    if 'A' <= c <= 'Z' {
        ((c as u32) + 32) as char
    } else {
        c
    }
}

/// The normalized (lower-case) form of a header name.
pub open spec fn header_key(s: Seq<char>) -> Seq<char> {
    s.map_values(|c: char| ascii_lower(c))
}

/// The entries after setting `name: value`, when the transport accepts both;
/// an entry it rejects is dropped and the entries stay as they were.
pub open spec fn with_header(
    h: Map<Seq<char>, Seq<char>>,
    name: Seq<char>,
    value: Seq<char>,
) -> Map<Seq<char>, Seq<char>> {
    if valid_header_name(name) && valid_header_value(value) {
        h.insert(header_key(name), value)
    } else {
        h
    }
}

/// The entries after setting every enabled pair of `kvs`, in order.
pub open spec fn with_enabled_headers(
    h: Map<Seq<char>, Seq<char>>,
    kvs: Seq<KeyValue>,
) -> Map<Seq<char>, Seq<char>>
    decreases kvs.len(),
{
    if kvs.len() == 0 {
        h
    } else {
        let before = with_enabled_headers(h, kvs.drop_last());
        let kv = kvs.last();
        if kv.enabled {
            with_header(before, kv.key@, kv.value@)
        } else {
            before
        }
    }
}

/// Relies on `HeaderName::from_bytes` (http, re-exported by reqwest): it
/// accepts a name of 1 to 65535 bytes that are all token characters.
#[verifier::external_body]
fn header_name_accepted(name: &str) -> (r: bool)
    ensures
        r == valid_header_name(name@),
{
    HeaderName::from_bytes(name.as_bytes()).is_ok()
}

/// Relies on `HeaderValue::from_str`: it accepts a value whose bytes are all
/// a tab or at least 32 and not 127.
#[verifier::external_body]
fn header_value_accepted(value: &str) -> (r: bool)
    ensures
        r == valid_header_value(value@),
{
    HeaderValue::from_str(value).is_ok()
}

/// Relies on `HeaderMap::new`: a map with no entries.
#[verifier::external_body]
pub(crate) fn new_header_map() -> (m: HeaderMap)
    ensures
        header_entries(m) == no_headers(),
{
    HeaderMap::new()
}

/// Relies on `HeaderMap::insert`: the value replaces whatever the name held,
/// under the name's lower-case form (which `HeaderName::from_bytes` makes).
/// The map only grows past its largest capacity beyond 6553 names.
#[verifier::external_body]
fn insert_header(m: &mut HeaderMap, name: &str, value: &str)
    requires
        valid_header_name(name@),
        valid_header_value(value@),
        header_entries(*old(m)).dom().len() < 6554,
    ensures
        header_entries(*final(m)) == header_entries(*old(m)).insert(header_key(name@), value@),
{
    if let (Ok(n), Ok(v)) = (HeaderName::from_bytes(name.as_bytes()), HeaderValue::from_str(value)) {
        m.insert(n, v);
    }
}

/// Sets `name: value` when both are acceptable to the transport and reports
/// whether it did; a rejected pair is dropped silently.
pub fn set_header(m: &mut HeaderMap, name: &str, value: &str) -> (set: bool)
    requires
        header_entries(*old(m)).dom().finite(),
        header_entries(*old(m)).dom().len() < MAX_HEADER_ENTRIES,
    ensures
        set == (valid_header_name(name@) && valid_header_value(value@)),
        header_entries(*final(m)) == with_header(header_entries(*old(m)), name@, value@),
        header_entries(*final(m)).dom().finite(),
        header_entries(*final(m)).dom().len() <= header_entries(*old(m)).dom().len() + 1,
{
    if header_name_accepted(name) && header_value_accepted(value) {
        insert_header(m, name, value);
        true
    } else {
        false
    }
}

/// The outgoing header map: every enabled header, in order, with rejected
/// names or values dropped and a later header replacing an earlier one of
/// the same name.
pub fn build_header_map(headers: &Vec<KeyValue>) -> (m: HeaderMap)
    requires
        headers@.len() < MAX_HEADER_ENTRIES,
    ensures
        header_entries(m) == with_enabled_headers(no_headers(), headers@),
        header_entries(m).dom().finite(),
        header_entries(m).dom().len() <= headers@.len(),
{
    let mut m = new_header_map();
    let mut i: usize = 0;
    while i < headers.len()
        invariant
            i <= headers@.len() < MAX_HEADER_ENTRIES,
            header_entries(m) == with_enabled_headers(no_headers(), headers@.subrange(0, i as int)),
            header_entries(m).dom().finite(),
            header_entries(m).dom().len() <= i,
        decreases headers@.len() - i,
    {
        let kv = &headers[i];
        proof {
            assert(headers@.subrange(0, i + 1).drop_last() == headers@.subrange(0, i as int));
        }
        if kv.enabled {
            set_header(&mut m, kv.key.as_str(), kv.value.as_str());
        }
        i = i + 1;
    }
    proof {
        assert(headers@.subrange(0, headers@.len() as int) == headers@);
    }
    m
}

} // verus!
