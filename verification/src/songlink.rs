//! The song.link lookup service: response shape, request building, and the
//! approved platform display labels.
//!
//! The lookup is a GET whose only query parameter is the candidate URL,
//! form-urlencoded into the service's fixed endpoint. Building that request
//! URL is pure text work and is done here, verified; the HTTP exchange
//! itself is plumbing outside this crate.

use vstd::prelude::*;

use crate::extract::is_alnum;
use crate::text::{hex_upper_char, hex_upper_str, str_eq};

verus! {

use vstd::string::StringSliceAdditionalSpecFns;

/// One entity (song or album) of a lookup response.
#[derive(Debug, Clone, PartialEq, Eq)]
pub struct SonglinkEntity {
    pub id: String,
    pub entity_type: String,
    pub title: String,
    pub artist_name: String,
    pub thumbnail_url: String,
    pub thumbnail_width: u64,
    pub thumbnail_height: u64,
    pub api_provider: String,
    pub platforms: Vec<String>,
}

/// One per-platform deep link of a lookup response.
#[derive(Debug, Clone, PartialEq, Eq)]
pub struct SonglinkPlatformLink {
    pub country: String,
    pub url: String,
    pub entity_unique_id: String,
}

/// A successful lookup response. The service delivers the entities and the
/// per-platform links as JSON objects; they are held here as association
/// lists in delivery order.
#[derive(Debug, Clone, PartialEq, Eq)]
pub struct SonglinkResponseBody {
    pub page_url: String,
    pub entity_unique_id: String,
    pub entities_by_unique_id: Vec<(String, SonglinkEntity)>,
    pub links_by_platform: Vec<(String, SonglinkPlatformLink)>,
}

impl SonglinkResponseBody {
    /// The platform keys and deep-link URLs, as the composer reads them.
    pub open spec fn platform_pairs(&self) -> Seq<(Seq<char>, Seq<char>)> {
        self.links_by_platform@.map_values(
            |pr: (String, SonglinkPlatformLink)| (pr.0@, pr.1.url@),
        )
    }

    /// A response the composer can render: it names at least one entity.
    pub open spec fn has_entity(&self) -> bool {
        self.entities_by_unique_id@.len() > 0
    }
}

/// The approved display label for a platform key, if any. Platforms without
/// a label here are hidden from end users entirely.
pub open spec fn platform_label(p: Seq<char>) -> Option<Seq<char>> {
    if p == "appleMusic"@ {
        Some(":apple-inc: _*Apple Music*_"@)
    } else if p == "spotify"@ {
        Some(":spotify: _*Spotify*_"@)
    } else if p == "deezer"@ {
        Some(":deezer: _*Deezer*_"@)
    } else if p == "youtube"@ {
        Some(":youtube: _*Youtube*_"@)
    } else if p == "youtubeMusic"@ {
        Some(":youtube-music: _*YT Music*_"@)
    } else {
        None
    }
}

/// Maps a platform key to its approved display label: `Some` exactly for
/// the five labeled platforms.
pub fn map_platform_to_formatted_display_name(platform: &str) -> (r: Option<&'static str>)
    ensures
        match r {
            Some(l) => platform_label(platform@) == Some(l@),
            None => platform_label(platform@) is None,
        },
{
    if str_eq(platform, "appleMusic") {
        Some(":apple-inc: _*Apple Music*_")
    } else if str_eq(platform, "spotify") {
        Some(":spotify: _*Spotify*_")
    } else if str_eq(platform, "deezer") {
        Some(":deezer: _*Deezer*_")
    } else if str_eq(platform, "youtube") {
        Some(":youtube: _*Youtube*_")
    } else if str_eq(platform, "youtubeMusic") {
        Some(":youtube-music: _*YT Music*_")
    } else {
        None
    }
}

/// Bytes a form-urlencoded value passes through unchanged: ASCII
/// alphanumerics and `*`, `-`, `.`, `_`.
pub open spec fn is_form_unreserved(c: char) -> bool {
    is_alnum(c) || c == '*' || c == '-' || c == '.' || c == '_'
}

/// Percent-escape rendering of a byte string: `%` and two uppercase hex
/// digits per byte.
pub open spec fn pct_hex_of(bs: Seq<u8>) -> Seq<char>
    decreases bs.len(),
{
    if bs.len() == 0 {
        Seq::empty()
    } else {
        pct_hex_of(bs.drop_last()) + seq![
            '%',
            hex_upper_char(bs.last() / 16),
            hex_upper_char(bs.last() % 16),
        ]
    }
}

/// Form-urlencoding of one character: unreserved characters pass through,
/// space becomes `+`, and everything else is the percent-escape of its
/// UTF-8 bytes.
pub open spec fn form_encoded_char(c: char) -> Seq<char> {
    if is_form_unreserved(c) {
        seq![c]
    } else if c == ' ' {
        seq!['+']
    } else {
        pct_hex_of(vstd::utf8::encode_utf8(seq![c]))
    }
}

/// Form-urlencoding of a string, character by character.
pub open spec fn form_encoded(s: Seq<char>) -> Seq<char>
    decreases s.len(),
{
    if s.len() == 0 {
        Seq::empty()
    } else {
        form_encoded(s.drop_last()) + form_encoded_char(s.last())
    }
}

#[verifier::loop_isolation(false)]
fn form_encode(s: &str) -> (r: String)
    ensures
        r@ == form_encoded(s@),
{
    proof {
        reveal_strlit("+");
        reveal_strlit("%");
    }
    let len = s.unicode_len();
    let mut r = String::new();
    let mut i: usize = 0;
    while i < len
        invariant
            i <= len,
            len == s@.len(),
            r@ == form_encoded(s@.take(i as int)),
        decreases len - i,
    {
        let c = s.get_char(i);
        if ('a' <= c && c <= 'z') || ('A' <= c && c <= 'Z') || ('0' <= c && c <= '9')
            || c == '*' || c == '-' || c == '.' || c == '_' {
            r.append(s.substring_char(i, i + 1));
            assert(s@.subrange(i as int, i + 1) =~= seq![s@[i as int]]);
        } else if c == ' ' {
            r.append("+");
        } else {
            let piece = s.substring_char(i, i + 1);
            assert(piece@ =~= seq![s@[i as int]]);
            let bs = piece.as_bytes();
            assert(bs@ == vstd::utf8::encode_utf8(seq![s@[i as int]]));
            let blen = bs.len();
            let ghost r_before = r@;
            let mut j: usize = 0;
            while j < blen
                invariant
                    j <= blen,
                    blen == bs@.len(),
                    r@ == r_before + pct_hex_of(bs@.take(j as int)),
                decreases blen - j,
            {
                let b = bs[j];
                assert(b / 16 < 16 && b % 16 < 16);
                r.append("%");
                r.append(hex_upper_str(b / 16));
                r.append(hex_upper_str(b % 16));
                proof {
                    assert(bs@.take(j + 1).drop_last() =~= bs@.take(j as int));
                    assert(bs@.take(j + 1).last() == bs@[j as int]);
                }
                j = j + 1;
            }
            proof {
                assert(bs@.take(blen as int) =~= bs@);
            }
        }
        proof {
            assert(s@.take(i + 1).drop_last() =~= s@.take(i as int));
            assert(s@.take(i + 1).last() == s@[i as int]);
        }
        i = i + 1;
    }
    proof {
        assert(s@.take(len as int) =~= s@);
    }
    r
}

/// The full lookup request URL for a candidate URL: the fixed endpoint with
/// the candidate as its form-urlencoded `url` query parameter.
pub open spec fn songlink_request_url_of(u: Seq<char>) -> Seq<char> {
    "https://api.song.link/v1-alpha.1/links?url="@ + form_encoded(u)
}

/// Builds the lookup request URL for one candidate URL.
pub fn build_songlink_request(url: &str) -> (r: String)
    ensures
        r@ == songlink_request_url_of(url@),
{
    let mut r = String::new();
    r.append("https://api.song.link/v1-alpha.1/links?url=");
    let enc = form_encode(url);
    r.append(enc.as_str());
    r
}

} // verus!
