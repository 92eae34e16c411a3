//! The songwhip lookup service: response shape and request building.
//!
//! The lookup is a POST of a one-field JSON object `{"url":"..."}` to the
//! service's fixed endpoint. Building that body — including the JSON string
//! escaping of the candidate URL — is pure text work and is done here,
//! verified; the HTTP exchange itself is plumbing outside this crate.

use vstd::prelude::*;

use crate::text::{hex_lower_char, hex_lower_str};

verus! {

/// A successful lookup response.
#[derive(Debug, Clone, PartialEq, Eq)]
pub struct SongwhipResponseBody {
    pub name: String,
    pub url: String,
    pub image: Option<String>,
    pub artists: Vec<SongwhipArtist>,
}

/// One artist of a lookup response.
#[derive(Debug, Clone, PartialEq, Eq)]
pub struct SongwhipArtist {
    pub name: String,
    pub description: Option<String>,
    pub image: Option<String>,
}

/// JSON string escaping of one character: quote and backslash get a
/// backslash escape, the five named control characters get their short
/// escapes, the remaining control characters get `\u00` and two lowercase
/// hex digits, and everything else passes through.
pub open spec fn json_escaped_char(c: char) -> Seq<char> {
    if c == '"' {
        seq!['\\', '"']
    } else if c == '\\' {
        seq!['\\', '\\']
    } else if c == '\u{8}' {
        seq!['\\', 'b']
    } else if c == '\t' {
        seq!['\\', 't']
    } else if c == '\n' {
        seq!['\\', 'n']
    } else if c == '\u{c}' {
        seq!['\\', 'f']
    } else if c == '\r' {
        seq!['\\', 'r']
    } else if c <= '\u{1f}' {
        seq!['\\', 'u', '0', '0', hex_lower_char(((c as u32) / 16) as u8), hex_lower_char(
            ((c as u32) % 16) as u8,
        )]
    } else {
        seq![c]
    }
}

/// JSON string escaping of a string, character by character.
pub open spec fn json_escaped(s: Seq<char>) -> Seq<char>
    decreases s.len(),
{
    if s.len() == 0 {
        Seq::empty()
    } else {
        json_escaped(s.drop_last()) + json_escaped_char(s.last())
    }
}

#[verifier::loop_isolation(false)]
fn json_escape(s: &str) -> (r: String)
    ensures
        r@ == json_escaped(s@),
{
    proof {
        reveal_strlit("\\\"");
        reveal_strlit("\\\\");
        reveal_strlit("\\b");
        reveal_strlit("\\t");
        reveal_strlit("\\n");
        reveal_strlit("\\f");
        reveal_strlit("\\r");
        reveal_strlit("\\u00");
    }
    let len = s.unicode_len();
    let mut r = String::new();
    let mut i: usize = 0;
    while i < len
        invariant
            i <= len,
            len == s@.len(),
            r@ == json_escaped(s@.take(i as int)),
        decreases len - i,
    {
        let c = s.get_char(i);
        if c == '"' {
            r.append("\\\"");
        } else if c == '\\' {
            r.append("\\\\");
        } else if c == '\u{8}' {
            r.append("\\b");
        } else if c == '\t' {
            r.append("\\t");
        } else if c == '\n' {
            r.append("\\n");
        } else if c == '\u{c}' {
            r.append("\\f");
        } else if c == '\r' {
            r.append("\\r");
        } else if c <= '\u{1f}' {
            let v = c as u32;
            assert(v / 16 < 16 && v % 16 < 16);
            r.append("\\u00");
            r.append(hex_lower_str((v / 16) as u8));
            r.append(hex_lower_str((v % 16) as u8));
        } else {
            r.append(s.substring_char(i, i + 1));
            assert(s@.subrange(i as int, i + 1) =~= seq![s@[i as int]]);
        }
        proof {
            assert(s@.take(i + 1).drop_last() =~= s@.take(i as int));
            assert(s@.take(i + 1).last() == s@[i as int]);
        }
        i = i + 1;
    }
    proof {
        assert(s@.take(len as int) =~= s@);
    }
    r
}

/// The POST body for a lookup: a one-field JSON object holding the
/// candidate URL as an escaped JSON string.
pub open spec fn songwhip_request_body_of(u: Seq<char>) -> Seq<char> {
    "{\"url\":\""@ + json_escaped(u) + "\"}"@
}

/// Builds the lookup POST body for one candidate URL.
pub fn build_songwhip_request(url: &str) -> (r: String)
    ensures
        r@ == songwhip_request_body_of(url@),
{
    let mut r = String::new();
    r.append("{\"url\":\"");
    let esc = json_escape(url);
    r.append(esc.as_str());
    r.append("\"}");
    r
}

} // verus!
