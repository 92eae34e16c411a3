//! Webhook authentication and link-resolution pipeline for a chat-platform
//! music bot: request-signature verification, event dispatch, URL extraction,
//! lookup-response classification, and reply composition.

pub mod compose;
pub mod dispatch;
pub mod extract;
pub mod resolve;
pub mod signature;
pub mod songlink;
pub mod songwhip;
pub mod text;

use vstd::prelude::*;

verus! {

/// Freshness window for signed requests, in seconds: a request whose claimed
/// timestamp deviates from the verifier's current time by more than this is
/// rejected as a possible replay.
pub const FRESHNESS_WINDOW_SECS: u64 = 300;

} // verus!
