//! URL Extractor: pulls candidate URLs out of the two text encodings the
//! platform delivers, in source order, duplicates preserved.
//!
//! *Markdown-wrapped mode* scans for substrings delimited by `<` up to the
//! first `|` or `>` on the same line, and yields the raw URL portion.
//!
//! *Plain-token mode* splits free-form command text on whitespace and keeps
//! each token that is a well-formed absolute URL (scheme and dotted host); a
//! token without a scheme is retried once with an `https://` prefix and kept
//! only if the retry validates. Tokens that still fail are silently dropped.

use vstd::prelude::*;

verus! {

/// The characters the platform's whitespace splitting recognizes: the
/// Unicode `White_Space` set.
pub open spec fn is_ws(c: char) -> bool {
    ||| c == ' '
    ||| c == '\t'
    ||| c == '\n'
    ||| c == '\u{b}'
    ||| c == '\u{c}'
    ||| c == '\r'
    ||| c == '\u{85}'
    ||| c == '\u{a0}'
    ||| c == '\u{1680}'
    ||| ('\u{2000}' <= c && c <= '\u{200a}')
    ||| c == '\u{2028}'
    ||| c == '\u{2029}'
    ||| c == '\u{202f}'
    ||| c == '\u{205f}'
    ||| c == '\u{3000}'
}

fn is_ws_char(c: char) -> (r: bool)
    ensures
        r == is_ws(c),
{
    c == ' ' || c == '\t' || c == '\n' || c == '\u{b}' || c == '\u{c}' || c == '\r'
        || c == '\u{85}' || c == '\u{a0}' || c == '\u{1680}'
        || ('\u{2000}' <= c && c <= '\u{200a}') || c == '\u{2028}' || c == '\u{2029}'
        || c == '\u{202f}' || c == '\u{205f}' || c == '\u{3000}'
}

/// Index of the first `|` or `>` at or after `q`, unless the end of the text
/// or an intervening newline comes first: a wrapped link never spans lines.
pub open spec fn md_term_from(s: Seq<char>, q: int) -> Option<int>
    decreases s.len() - q,
{
    if q < 0 || q >= s.len() {
        None
    } else if s[q] == '|' || s[q] == '>' {
        Some(q)
    } else if s[q] == '\n' {
        None
    } else {
        md_term_from(s, q + 1)
    }
}

pub proof fn lemma_md_term_from_bounds(s: Seq<char>, q: int)
    requires
        0 <= q,
    ensures
        md_term_from(s, q) matches Some(j) ==> q <= j < s.len(),
    decreases s.len() - q,
{
    if q < s.len() && s[q] != '|' && s[q] != '>' && s[q] != '\n' {
        lemma_md_term_from_bounds(s, q + 1);
    }
}

/// The markdown-wrapped URLs of `s` from position `p` on, in source order:
/// at each `<` whose wrap closes on the same line, the characters between
/// the `<` and the first `|` or `>`, with the scan resuming past the
/// terminator.
pub open spec fn md_urls_from(s: Seq<char>, p: int) -> Seq<Seq<char>>
    decreases s.len() - p,
{
    if p < 0 || p >= s.len() {
        Seq::empty()
    } else if s[p] == '<' {
        match md_term_from(s, p + 1) {
            Some(j) => {
                proof {
                    lemma_md_term_from_bounds(s, p + 1);
                }
                seq![s.subrange(p + 1, j)] + md_urls_from(s, j + 1)
            },
            None => md_urls_from(s, p + 1),
        }
    } else {
        md_urls_from(s, p + 1)
    }
}

/// All markdown-wrapped URLs of a message, in source order.
pub open spec fn markdown_urls(s: Seq<char>) -> Seq<Seq<char>> {
    md_urls_from(s, 0)
}

fn md_term_from_exec(s: &str, q0: usize) -> (r: Option<usize>)
    requires
        q0 <= s@.len(),
    ensures
        match r {
            Some(j) => md_term_from(s@, q0 as int) == Some(j as int),
            None => md_term_from(s@, q0 as int) is None,
        },
{
    let len = s.unicode_len();
    let mut q = q0;
    while q < len
        invariant
            q0 <= q <= len,
            len == s@.len(),
            md_term_from(s@, q0 as int) == md_term_from(s@, q as int),
        decreases len - q,
    {
        let c = s.get_char(q);
        if c == '|' || c == '>' {
            return Some(q);
        }
        if c == '\n' {
            return None;
        }
        q = q + 1;
    }
    None
}

/// Markdown-wrapped mode, used for shared-link and message bodies. The
/// extraction pattern is stateless; the scan is re-run per message.
pub fn check_slack_formatted_message_for_urls(message: &str) -> (r: Vec<String>)
    ensures
        r.deep_view() == markdown_urls(message@),
{
    let len = message.unicode_len();
    let mut urls: Vec<String> = Vec::new();
    let mut p: usize = 0;
    while p < len
        invariant
            p <= len,
            len == message@.len(),
            urls.deep_view() + md_urls_from(message@, p as int) =~~= markdown_urls(message@),
        decreases len - p,
    {
        let c = message.get_char(p);
        if c == '<' {
            match md_term_from_exec(message, p + 1) {
                Some(j) => {
                    proof {
                        lemma_md_term_from_bounds(message@, p + 1);
                    }
                    let url = String::from_str(message.substring_char(p + 1, j));
                    let ghost old_urls = urls.deep_view();
                    urls.push(url);
                    proof {
                        assert(urls.deep_view() =~~= old_urls.push(url@));
                        assert(urls.deep_view() + md_urls_from(message@, j + 1)
                            =~~= markdown_urls(message@));
                    }
                    p = j + 1;
                },
                None => {
                    p = p + 1;
                },
            }
        } else {
            p = p + 1;
        }
    }
    proof {
        assert(urls.deep_view() =~~= markdown_urls(message@));
    }
    urls
}

pub open spec fn is_alpha(c: char) -> bool {
    ('a' <= c && c <= 'z') || ('A' <= c && c <= 'Z')
}

pub open spec fn is_alnum(c: char) -> bool {
    is_alpha(c) || crate::text::is_digit(c)
}

/// Characters allowed in a URL scheme after its leading letter.
pub open spec fn is_scheme_char(c: char) -> bool {
    is_alnum(c) || c == '+' || c == '-' || c == '.'
}

/// Characters allowed in a host name.
pub open spec fn is_host_char(c: char) -> bool {
    is_alnum(c) || c == '-' || c == '.'
}

/// A URL scheme: a letter followed by letters, digits, `+`, `-` or `.`.
pub open spec fn valid_scheme(s: Seq<char>) -> bool {
    &&& s.len() > 0
    &&& is_alpha(s[0])
    &&& forall|i: int| 0 <= i < s.len() ==> is_scheme_char(#[trigger] s[i])
}

/// A dotted host name: two or more nonempty labels of letters, digits and
/// hyphens, joined by single dots. A bare word without a dot is not a host.
pub open spec fn valid_host(s: Seq<char>) -> bool {
    &&& s.len() > 0
    &&& forall|i: int| 0 <= i < s.len() ==> is_host_char(#[trigger] s[i])
    &&& exists|i: int| 0 <= i < s.len() && s[i] == '.'
    &&& s[0] != '.'
    &&& s[s.len() - 1] != '.'
    &&& forall|i: int| 0 <= i < s.len() - 1 ==> !(#[trigger] s[i] == '.' && s[i + 1] == '.')
}

/// Index of the first `:` at or after `q`, if any.
pub open spec fn colon_from(s: Seq<char>, q: int) -> Option<int>
    decreases s.len() - q,
{
    if q < 0 || q >= s.len() {
        None
    } else if s[q] == ':' {
        Some(q)
    } else {
        colon_from(s, q + 1)
    }
}

pub proof fn lemma_colon_from_bounds(s: Seq<char>, q: int)
    requires
        0 <= q,
    ensures
        colon_from(s, q) matches Some(j) ==> q <= j < s.len(),
    decreases s.len() - q,
{
    if q < s.len() && s[q] != ':' {
        lemma_colon_from_bounds(s, q + 1);
    }
}

/// End of the authority component starting at `q`: the first `/`, `?` or
/// `#` at or after `q`, or the end of the text.
pub open spec fn auth_end_from(s: Seq<char>, q: int) -> int
    decreases s.len() - q,
{
    if q < 0 || q >= s.len() {
        s.len() as int
    } else if s[q] == '/' || s[q] == '?' || s[q] == '#' {
        q
    } else {
        auth_end_from(s, q + 1)
    }
}

/// The authority component is a valid host, optionally followed by `:` and
/// a (possibly empty) decimal port.
pub open spec fn valid_authority(auth: Seq<char>) -> bool {
    match colon_from(auth, 0) {
        Some(k) => valid_host(auth.take(k)) && crate::text::all_digits(
            auth.skip(k + 1),
        ),
        None => valid_host(auth),
    }
}

/// A well-formed absolute URL: `<scheme>://<host[:port]>` optionally
/// followed by a path, query or fragment.
pub open spec fn is_absolute_url(t: Seq<char>) -> bool {
    match colon_from(t, 0) {
        Some(i) => {
            &&& valid_scheme(t.take(i))
            &&& i + 3 <= t.len()
            &&& t[i + 1] == '/'
            &&& t[i + 2] == '/'
            &&& valid_authority(t.subrange(i + 3, auth_end_from(t, i + 3)))
        },
        None => false,
    }
}

fn colon_from_exec(s: &str, q0: usize) -> (r: Option<usize>)
    requires
        q0 <= s@.len(),
    ensures
        match r {
            Some(j) => colon_from(s@, q0 as int) == Some(j as int),
            None => colon_from(s@, q0 as int) is None,
        },
{
    let len = s.unicode_len();
    let mut q = q0;
    while q < len
        invariant
            q0 <= q <= len,
            len == s@.len(),
            colon_from(s@, q0 as int) == colon_from(s@, q as int),
        decreases len - q,
    {
        if s.get_char(q) == ':' {
            return Some(q);
        }
        q = q + 1;
    }
    None
}

fn auth_end_exec(s: &str, q0: usize) -> (r: usize)
    requires
        q0 <= s@.len(),
    ensures
        r as int == auth_end_from(s@, q0 as int),
        q0 <= r <= s@.len(),
{
    let len = s.unicode_len();
    let mut q = q0;
    while q < len
        invariant
            q0 <= q <= len,
            len == s@.len(),
            auth_end_from(s@, q0 as int) == auth_end_from(s@, q as int),
        decreases len - q,
    {
        let c = s.get_char(q);
        if c == '/' || c == '?' || c == '#' {
            return q;
        }
        q = q + 1;
    }
    len
}

fn valid_scheme_exec(s: &str) -> (r: bool)
    ensures
        r == valid_scheme(s@),
{
    let len = s.unicode_len();
    if len == 0 {
        return false;
    }
    let c0 = s.get_char(0);
    if !(('a' <= c0 && c0 <= 'z') || ('A' <= c0 && c0 <= 'Z')) {
        return false;
    }
    let mut i: usize = 0;
    while i < len
        invariant
            i <= len,
            len == s@.len(),
            forall|j: int| 0 <= j < i ==> is_scheme_char(#[trigger] s@[j]),
        decreases len - i,
    {
        let c = s.get_char(i);
        if !(('a' <= c && c <= 'z') || ('A' <= c && c <= 'Z') || ('0' <= c && c <= '9')
            || c == '+' || c == '-' || c == '.') {
            return false;
        }
        i = i + 1;
    }
    true
}

fn valid_host_exec(s: &str) -> (r: bool)
    ensures
        r == valid_host(s@),
{
    let len = s.unicode_len();
    if len == 0 {
        return false;
    }
    if s.get_char(0) == '.' {
        return false;
    }
    if s.get_char(len - 1) == '.' {
        return false;
    }
    let mut has_dot = false;
    let mut i: usize = 0;
    while i < len
        invariant
            i <= len,
            0 < len == s@.len(),
            forall|j: int| 0 <= j < i ==> is_host_char(#[trigger] s@[j]),
            has_dot == exists|j: int| 0 <= j < i && s@[j] == '.',
            forall|j: int| 0 <= j < i - 1 ==> !(#[trigger] s@[j] == '.' && s@[j + 1] == '.'),
        decreases len - i,
    {
        let c = s.get_char(i);
        if !(('a' <= c && c <= 'z') || ('A' <= c && c <= 'Z') || ('0' <= c && c <= '9')
            || c == '-' || c == '.') {
            return false;
        }
        if c == '.' {
            if i > 0 && s.get_char(i - 1) == '.' {
                return false;
            }
            has_dot = true;
        }
        i = i + 1;
    }
    has_dot
}

fn all_digits_exec(s: &str) -> (r: bool)
    ensures
        r == crate::text::all_digits(s@),
{
    let len = s.unicode_len();
    let mut i: usize = 0;
    while i < len
        invariant
            i <= len,
            len == s@.len(),
            forall|j: int| 0 <= j < i ==> crate::text::is_digit(#[trigger] s@[j]),
        decreases len - i,
    {
        let c = s.get_char(i);
        if c < '0' || c > '9' {
            return false;
        }
        i = i + 1;
    }
    true
}

/// Decides whether a token is a well-formed absolute URL.
pub fn is_absolute_url_exec(t: &str) -> (r: bool)
    ensures
        r == is_absolute_url(t@),
{
    let len = t.unicode_len();
    let i = match colon_from_exec(t, 0) {
        Some(i) => i,
        None => { return false },
    };
    proof {
        lemma_colon_from_bounds(t@, 0);
    }
    let scheme = t.substring_char(0, i);
    assert(scheme@ =~= t@.take(i as int));
    if !valid_scheme_exec(scheme) {
        return false;
    }
    if len - i < 3 {
        return false;
    }
    if t.get_char(i + 1) != '/' || t.get_char(i + 2) != '/' {
        return false;
    }
    let e = auth_end_exec(t, i + 3);
    let auth = t.substring_char(i + 3, e);
    assert(auth@ =~= t@.subrange(i + 3, auth_end_from(t@, i + 3)));
    let alen = auth.unicode_len();
    match colon_from_exec(auth, 0) {
        Some(k) => {
            proof {
                lemma_colon_from_bounds(auth@, 0);
            }
            let host = auth.substring_char(0, k);
            assert(host@ =~= auth@.take(k as int));
            if !valid_host_exec(host) {
                return false;
            }
            let port = auth.substring_char(k + 1, alen);
            assert(port@ =~= auth@.skip(k + 1));
            all_digits_exec(port)
        },
        None => valid_host_exec(auth),
    }
}

/// The token with an `https://` scheme prepended.
pub open spec fn https_prefixed(t: Seq<char>) -> Seq<char> {
    "https://"@ + t
}

/// What plain-token mode keeps of one whitespace-separated token: the token
/// itself if it is an absolute URL; otherwise the token with `https://`
/// prepended if that validates; otherwise nothing.
pub open spec fn kept_url(t: Seq<char>) -> Option<Seq<char>> {
    if is_absolute_url(t) {
        Some(t)
    } else if is_absolute_url(https_prefixed(t)) {
        Some(https_prefixed(t))
    } else {
        None
    }
}

/// First whitespace character at or after `q`, or the end of the text.
pub open spec fn ws_end_from(s: Seq<char>, q: int) -> int
    decreases s.len() - q,
{
    if q < 0 || q >= s.len() {
        s.len() as int
    } else if is_ws(s[q]) {
        q
    } else {
        ws_end_from(s, q + 1)
    }
}

pub proof fn lemma_ws_end_from_bounds(s: Seq<char>, q: int)
    requires
        0 <= q <= s.len(),
    ensures
        q <= ws_end_from(s, q) <= s.len(),
    decreases s.len() - q,
{
    if q < s.len() && !is_ws(s[q]) {
        lemma_ws_end_from_bounds(s, q + 1);
    }
}

/// The URLs plain-token mode yields from position `p` on: for each
/// whitespace-separated token, whatever `kept_url` keeps of it, in source
/// order.
pub open spec fn plain_urls_from(s: Seq<char>, p: int) -> Seq<Seq<char>>
    decreases s.len() - p,
{
    if p < 0 || p >= s.len() {
        Seq::empty()
    } else if is_ws(s[p]) {
        plain_urls_from(s, p + 1)
    } else {
        proof {
            lemma_ws_end_from_bounds(s, p + 1);
        }
        let e = ws_end_from(s, p + 1);
        match kept_url(s.subrange(p, e)) {
            Some(u) => seq![u] + plain_urls_from(s, e),
            None => plain_urls_from(s, e),
        }
    }
}

/// All URLs plain-token mode yields from free-form command text.
pub open spec fn plain_urls(s: Seq<char>) -> Seq<Seq<char>> {
    plain_urls_from(s, 0)
}

fn ws_end_exec(s: &str, q0: usize) -> (r: usize)
    requires
        q0 <= s@.len(),
    ensures
        r as int == ws_end_from(s@, q0 as int),
        q0 <= r <= s@.len(),
{
    let len = s.unicode_len();
    let mut q = q0;
    while q < len
        invariant
            q0 <= q <= len,
            len == s@.len(),
            ws_end_from(s@, q0 as int) == ws_end_from(s@, q as int),
        decreases len - q,
    {
        if is_ws_char(s.get_char(q)) {
            return q;
        }
        q = q + 1;
    }
    len
}

/// Plain-token mode, used for slash-command text.
pub fn check_slash_command_for_urls(raw_text: &str) -> (r: Vec<String>)
    ensures
        r.deep_view() == plain_urls(raw_text@),
{
    let len = raw_text.unicode_len();
    let mut urls: Vec<String> = Vec::new();
    let mut p: usize = 0;
    while p < len
        invariant
            p <= len,
            len == raw_text@.len(),
            urls.deep_view() + plain_urls_from(raw_text@, p as int) =~~= plain_urls(raw_text@),
        decreases len - p,
    {
        let c = raw_text.get_char(p);
        if is_ws_char(c) {
            p = p + 1;
        } else {
            let e = ws_end_exec(raw_text, p + 1);
            let token = raw_text.substring_char(p, e);
            assert(token@ =~= raw_text@.subrange(p as int, e as int));
            let ghost old_urls = urls.deep_view();
            let mut kept = false;
            if is_absolute_url_exec(token) {
                urls.push(String::from_str(token));
                kept = true;
            } else {
                let mut pref = String::new();
                pref.append("https://");
                pref.append(token);
                assert(pref@ == https_prefixed(token@));
                if is_absolute_url_exec(pref.as_str()) {
                    urls.push(pref);
                    kept = true;
                }
            }
            proof {
                if kept {
                    assert(urls.deep_view() =~~= old_urls.push(kept_url(token@)->0));
                }
                assert(urls.deep_view() + plain_urls_from(raw_text@, e as int)
                    =~~= plain_urls(raw_text@));
            }
            p = e;
        }
    }
    proof {
        assert(urls.deep_view() =~~= plain_urls(raw_text@));
    }
    urls
}

} // verus!
