//! Signature Verifier: the authenticity gate in front of every route that
//! accepts platform-signed input.
//!
//! A request carries a signature header and a timestamp header. The expected
//! signature is an HMAC-SHA-256 over the versioned base string
//! `v0:<timestamp>:<raw body>`, keyed by the shared signing secret, rendered
//! as `v0=` followed by the digest in lowercase hex. A request is accepted
//! exactly when both headers are present, the timestamp is a decimal integer
//! within the freshness window of the verifier's current time, and the
//! claimed signature equals the expected one.

use vstd::prelude::*;

use hmac::Mac;

use crate::FRESHNESS_WINDOW_SECS;
use crate::text::{dec_val, hex_lower_char, hex_lower_str, parse_u64, parses_as_u64, str_eq};

verus! {

/// The HMAC-SHA-256 digest of `msg` keyed by `key`. The digest is a pure
/// function of the two arguments; its value is stated nowhere and enters
/// proofs only through this name.
pub uninterp spec fn hmac_sha256_of(key: Seq<u8>, msg: Seq<u8>) -> Seq<u8>;

/// Relies on `hmac::Hmac<sha2::Sha256>` (`new_from_slice`, `update`,
/// `finalize`) to compute an HMAC-SHA-256 digest, which is 32 bytes long and
/// depends on the key and message bytes alone. `new_from_slice` accepts keys
/// of any length for an HMAC, so the `unwrap` cannot panic.
#[verifier::external_body]
fn hmac_sha256(key: &[u8], msg: &[u8]) -> (r: Vec<u8>)
    ensures
        r@ == hmac_sha256_of(key@, msg@),
        r@.len() == 32,
{
    let mut mac = <hmac::Hmac<sha2::Sha256> as Mac>::new_from_slice(key).unwrap();
    mac.update(msg);
    mac.finalize().into_bytes().to_vec()
}

/// Lowercase hex rendering of a byte string, two digits per byte.
pub open spec fn hex_lower_of(bs: Seq<u8>) -> Seq<char>
    decreases bs.len(),
{
    if bs.len() == 0 {
        Seq::empty()
    } else {
        hex_lower_of(bs.drop_last()) + seq![
            hex_lower_char(bs.last() / 16),
            hex_lower_char(bs.last() % 16),
        ]
    }
}

fn hex_lower(bs: &Vec<u8>) -> (r: String)
    ensures
        r@ == hex_lower_of(bs@),
{
    let mut r = String::new();
    let mut i: usize = 0;
    while i < bs.len()
        invariant
            i <= bs@.len(),
            r@ == hex_lower_of(bs@.take(i as int)),
        decreases bs@.len() - i,
    {
        let b = bs[i];
        r.append(hex_lower_str(b / 16));
        r.append(hex_lower_str(b % 16));
        proof {
            assert(bs@.take(i + 1).drop_last() =~= bs@.take(i as int));
            assert(bs@.take(i + 1).last() == bs@[i as int]);
        }
        i = i + 1;
    }
    proof {
        assert(bs@.take(bs@.len() as int) =~= bs@);
    }
    r
}

/// The signing base string: version prefix, timestamp, raw body.
pub open spec fn base_string_of(ts: Seq<char>, body: Seq<char>) -> Seq<char> {
    "v0:"@ + ts + ":"@ + body
}

/// The expected signature for a request: `v0=` followed by the lowercase hex
/// HMAC-SHA-256 of the base string, keyed by the signing secret.
pub open spec fn signature_of(secret: Seq<char>, ts: Seq<char>, body: Seq<char>) -> Seq<char> {
    "v0="@ + hex_lower_of(
        hmac_sha256_of(
            vstd::utf8::encode_utf8(secret),
            vstd::utf8::encode_utf8(base_string_of(ts, body)),
        ),
    )
}

/// Computes the signature the platform would send for `body` at `ts` under
/// `secret`: what a signer produces and what the verifier compares against.
pub fn sign_request(secret: &str, ts: &str, body: &str) -> (r: String)
    ensures
        r@ == signature_of(secret@, ts@, body@),
{
    let mut base = String::new();
    base.append("v0:");
    base.append(ts);
    base.append(":");
    base.append(body);
    assert(base@ == base_string_of(ts@, body@));
    let digest = hmac_sha256(secret.as_bytes(), base.as_str().as_bytes());
    let hex = hex_lower(&digest);
    let mut r = String::new();
    r.append("v0=");
    r.append(hex.as_str());
    r
}

/// Why a request was turned away.
#[derive(Debug, Clone, Copy, PartialEq, Eq)]
pub enum RejectReason {
    /// The configured signing secret is empty: nothing can be authenticated.
    MissingSecret,
    /// The signature header is absent.
    MissingSignature,
    /// The timestamp header is absent.
    MissingTimestamp,
    /// The timestamp header is not a decimal integer that fits in `u64`.
    MalformedTimestamp,
    /// The timestamp deviates from the current time by more than the
    /// freshness window: a possible replay.
    StaleTimestamp,
    /// The claimed signature differs from the expected one.
    SignatureMismatch,
}

/// Outcome of the authenticity check: accept, or reject with a reason —
/// never partial trust.
#[derive(Debug, Clone, Copy, PartialEq, Eq)]
pub enum Verdict {
    Accept,
    Reject(RejectReason),
}

/// The claimed timestamp is within the freshness window of the current time.
pub open spec fn ts_fresh(ts_val: nat, now: u64) -> bool {
    if now >= ts_val {
        now - ts_val <= FRESHNESS_WINDOW_SECS
    } else {
        ts_val - now <= FRESHNESS_WINDOW_SECS
    }
}

/// The verifier's verdict, in full: each reject reason fires exactly on the
/// condition it names, checked in this order.
pub open spec fn verify_spec(
    secret: Seq<char>,
    signature: Option<Seq<char>>,
    timestamp: Option<Seq<char>>,
    body: Seq<char>,
    now: u64,
) -> Verdict {
    if secret.len() == 0 {
        Verdict::Reject(RejectReason::MissingSecret)
    } else if signature is None {
        Verdict::Reject(RejectReason::MissingSignature)
    } else if timestamp is None {
        Verdict::Reject(RejectReason::MissingTimestamp)
    } else if !parses_as_u64(timestamp->0) {
        Verdict::Reject(RejectReason::MalformedTimestamp)
    } else if !ts_fresh(dec_val(timestamp->0), now) {
        Verdict::Reject(RejectReason::StaleTimestamp)
    } else if signature->0 != signature_of(secret, timestamp->0, body) {
        Verdict::Reject(RejectReason::SignatureMismatch)
    } else {
        Verdict::Accept
    }
}

/// The verifier accepts exactly when every one of its conditions holds.
pub open spec fn verifier_accepts(
    secret: Seq<char>,
    signature: Option<Seq<char>>,
    timestamp: Option<Seq<char>>,
    body: Seq<char>,
    now: u64,
) -> bool {
    &&& secret.len() > 0
    &&& signature is Some
    &&& timestamp is Some
    &&& parses_as_u64(timestamp->0)
    &&& ts_fresh(dec_val(timestamp->0), now)
    &&& signature->0 == signature_of(secret, timestamp->0, body)
}

/// The cascade of reject reasons and the acceptance predicate agree.
pub proof fn lemma_verify_spec_accepts(
    secret: Seq<char>,
    signature: Option<Seq<char>>,
    timestamp: Option<Seq<char>>,
    body: Seq<char>,
    now: u64,
)
    ensures
        verify_spec(secret, signature, timestamp, body, now) is Accept <==> verifier_accepts(
            secret,
            signature,
            timestamp,
            body,
            now,
        ),
{
}

/// Checks a request's authenticity from the raw body bytes and the two
/// claimed headers, against the verifier's current time `now` (seconds).
///
/// The signature comparison walks every character position of both strings
/// and accumulates the outcome rather than returning at the first
/// difference.
pub fn verify_request(
    secret: &str,
    signature: Option<&str>,
    timestamp: Option<&str>,
    body: &str,
    now: u64,
) -> (r: Verdict)
    ensures
        r == verify_spec(secret@, signature.deep_view(), timestamp.deep_view(), body@, now),
{
    if secret.unicode_len() == 0 {
        return Verdict::Reject(RejectReason::MissingSecret);
    }
    let sig = match signature {
        Some(s) => s,
        None => { return Verdict::Reject(RejectReason::MissingSignature) },
    };
    let ts = match timestamp {
        Some(t) => t,
        None => { return Verdict::Reject(RejectReason::MissingTimestamp) },
    };
    let ts_val = match parse_u64(ts) {
        Some(v) => v,
        None => { return Verdict::Reject(RejectReason::MalformedTimestamp) },
    };
    let age = if now >= ts_val {
        now - ts_val
    } else {
        ts_val - now
    };
    if age > FRESHNESS_WINDOW_SECS {
        return Verdict::Reject(RejectReason::StaleTimestamp);
    }
    let expected = sign_request(secret, ts, body);
    if str_eq(sig, expected.as_str()) {
        Verdict::Accept
    } else {
        Verdict::Reject(RejectReason::SignatureMismatch)
    }
}

/// Law: signing and verifying round-trip. A request signed with the secret,
/// presented with the same timestamp and body while the timestamp is inside
/// the freshness window, is accepted.
pub proof fn law_sign_then_verify_accepts(
    secret: Seq<char>,
    ts: Seq<char>,
    body: Seq<char>,
    now: u64,
)
    requires
        secret.len() > 0,
        parses_as_u64(ts),
        ts_fresh(dec_val(ts), now),
    ensures
        verifier_accepts(secret, Some(signature_of(secret, ts, body)), Some(ts), body, now),
{
}

/// Law: replaying an already-processed request after the freshness window
/// has elapsed is rejected, even though payload, timestamp and signature are
/// unchanged.
pub proof fn law_replay_after_window_rejected(
    secret: Seq<char>,
    signature: Option<Seq<char>>,
    ts: Seq<char>,
    body: Seq<char>,
    later: u64,
)
    requires
        parses_as_u64(ts) ==> dec_val(ts) + FRESHNESS_WINDOW_SECS < later,
    ensures
        !verifier_accepts(secret, signature, Some(ts), body, later),
{
}

} // verus!
