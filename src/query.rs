//! Appending query parameters to a URL.

use vstd::prelude::*;
use vstd::string::*;

use crate::encoding::{encoded_text, urlencoding_encode};
use crate::request::KeyValue;
use crate::text::push_char;

verus! {

/// `key=value` with both sides percent-encoded.
pub open spec fn query_pair(key: Seq<char>, value: Seq<char>) -> Seq<char> {
    encoded_text(key) + seq!['='] + encoded_text(value)
}

/// The encoded pairs of the enabled parameters, in input order.
pub open spec fn enabled_pairs(params: Seq<KeyValue>) -> Seq<Seq<char>>
    decreases params.len(),
{
    if params.len() == 0 {
        Seq::empty()
    } else {
        let before = enabled_pairs(params.drop_last());
        let p = params.last();
        if p.enabled {
            before.push(query_pair(p.key@, p.value@))
        } else {
            before
        }
    }
}

/// Parts joined with `&` between them.
pub open spec fn joined_with_amp(parts: Seq<Seq<char>>) -> Seq<char>
    decreases parts.len(),
{
    if parts.len() == 0 {
        Seq::empty()
    } else if parts.len() == 1 {
        parts[0]
    } else {
        joined_with_amp(parts.drop_last()) + seq!['&'] + parts.last()
    }
}

/// What joins a query to `url`: `&` when it already has a `?`, else `?`.
pub open spec fn query_separator(url: Seq<char>) -> char {
    if url.contains('?') {
        '&'
    } else {
        '?'
    }
}

/// `url` with the enabled parameters appended as a query; unchanged when
/// none is enabled.
pub open spec fn with_query(url: Seq<char>, params: Seq<KeyValue>) -> Seq<char> {
    let parts = enabled_pairs(params);
    if parts.len() == 0 {
        url
    } else {
        url + seq![query_separator(url)] + joined_with_amp(parts)
    }
}

/// `url` with one more encoded `key=value` pair appended.
pub open spec fn with_query_pair(url: Seq<char>, key: Seq<char>, value: Seq<char>) -> Seq<char> {
    url + seq![query_separator(url)] + query_pair(key, value)
}

/// Whether the text holds the character.
pub fn has_char(s: &str, c: char) -> (r: bool)
    ensures
        r == s@.contains(c),
{
    for ch in it: s.chars()
        invariant
            it.seq() == s@,
            forall|j: int| 0 <= j < it.index() ==> s@[j] != c,
    {
        if ch == c {
            return true;
        }
    }
    false
}

/// Appends `key=value`, both percent-encoded, to `out`.
fn push_pair(out: &mut String, key: &str, value: &str)
    ensures
        final(out)@ == old(out)@ + query_pair(key@, value@),
{
    let k = urlencoding_encode(key);
    let v = urlencoding_encode(value);
    out.append(k.as_str());
    push_char(out, '=');
    out.append(v.as_str());
}

/// The URL with the enabled query parameters appended, in order, each key
/// and value percent-encoded; joined by `&` to a URL that already has a `?`,
/// else by `?`. Disabled parameters are left out entirely.
pub fn append_query(url: &str, params: &Vec<KeyValue>) -> (r: String)
    ensures
        r@ == with_query(url@, params@),
{
    let mut query = String::new();
    let mut count: usize = 0;
    let mut i: usize = 0;
    while i < params.len()
        invariant
            i <= params@.len(),
            count == enabled_pairs(params@.subrange(0, i as int)).len(),
            count <= i,
            query@ == joined_with_amp(enabled_pairs(params@.subrange(0, i as int))),
        decreases params@.len() - i,
    {
        let p = &params[i];
        proof {
            assert(params@.subrange(0, i + 1).drop_last() == params@.subrange(0, i as int));
        }
        let ghost before = enabled_pairs(params@.subrange(0, i as int));
        if p.enabled {
            if count > 0 {
                push_char(&mut query, '&');
            }
            push_pair(&mut query, p.key.as_str(), p.value.as_str());
            count = count + 1;
            proof {
                let after = before.push(query_pair(p.key@, p.value@));
                assert(after.drop_last() == before);
                if before.len() == 0 {
                    assert(joined_with_amp(after) == after[0]);
                }
            }
        }
        i = i + 1;
    }
    proof {
        assert(params@.subrange(0, params@.len() as int) == params@);
    }
    let mut out = url.to_owned();
    if count > 0 {
        if has_char(url, '?') {
            push_char(&mut out, '&');
        } else {
            push_char(&mut out, '?');
        }
        out.append(query.as_str());
    }
    out
}

/// Appends one encoded `key=value` pair to the URL in place, joined as a query.
pub fn push_query_pair(url: &mut String, key: &str, value: &str)
    ensures
        final(url)@ == with_query_pair(old(url)@, key@, value@),
{
    if has_char(url.as_str(), '?') {
        push_char(url, '&');
    } else {
        push_char(url, '?');
    }
    push_pair(url, key, value);
}

} // verus!
