//! Event Dispatcher: classifies an authenticated webhook payload and routes
//! it to the correct action.
//!
//! Every decision is synchronous and free of outside calls: it names the
//! HTTP status and body to acknowledge with, always demands the platform's
//! retry-suppression header, and at most hands back a description of the
//! resolution work to run as a detached background task. A request that
//! fails the Signature Verifier is answered with an authorization error and
//! produces no work at all.

use vstd::prelude::*;

use crate::extract::{
    check_slack_formatted_message_for_urls, check_slash_command_for_urls, markdown_urls,
    plain_urls,
};
use crate::signature::{lemma_verify_spec_accepts, verifier_accepts, verify_request, Verdict};

verus! {

/// A message event, as the dispatcher reads it: where it was posted, its
/// timestamp, its text, and the flags that decide whether the bot ignores
/// it.
#[derive(Debug, Clone, PartialEq, Eq)]
pub struct MessageEvent {
    pub channel: String,
    pub ts: String,
    pub text: Option<String>,
    pub subtype_is_bot_message: bool,
    pub sender_bot_id: Option<String>,
    pub thread_ts: Option<String>,
    pub hidden: bool,
}

impl MessageEvent {
    /// The message was authored by a bot: its subtype says so or a bot id
    /// is attached to its sender.
    pub open spec fn spec_is_bot_message(&self) -> bool {
        self.subtype_is_bot_message || self.sender_bot_id is Some
    }

    /// The message is a threaded reply.
    pub open spec fn spec_is_threaded(&self) -> bool {
        self.thread_ts is Some
    }

    /// The message is hidden (deleted, edited away, or otherwise not
    /// visible as a fresh post).
    pub open spec fn spec_is_hidden(&self) -> bool {
        self.hidden
    }

    #[verifier::when_used_as_spec(spec_is_bot_message)]
    pub fn is_bot_message(&self) -> (r: bool)
        ensures
            r == self.spec_is_bot_message(),
    {
        self.subtype_is_bot_message || self.sender_bot_id.is_some()
    }

    #[verifier::when_used_as_spec(spec_is_threaded)]
    pub fn is_threaded(&self) -> (r: bool)
        ensures
            r == self.spec_is_threaded(),
    {
        self.thread_ts.is_some()
    }

    #[verifier::when_used_as_spec(spec_is_hidden)]
    pub fn is_hidden(&self) -> (r: bool)
        ensures
            r == self.spec_is_hidden(),
    {
        self.hidden
    }
}

/// The recognized interaction subtypes. No subtype currently has an
/// implemented action: each is answered as recoverable "not yet supported".
#[derive(Debug, Clone, Copy, PartialEq, Eq)]
pub enum InteractionKind {
    BlockActions,
    ViewSubmission,
    ViewClosed,
    DialogSubmission,
    MessageAction,
    Shortcut,
}

/// An inbound webhook payload, classified into the known variant set.
#[derive(Debug, Clone, PartialEq, Eq)]
pub enum WebhookEvent {
    /// The one-shot URL-verification handshake: its challenge token is
    /// echoed back as the response body.
    UrlVerification { challenge: String },
    /// A back-pressure notice: acknowledged, no further action.
    RateLimited,
    /// Links were shared where the bot may be a member.
    LinkShared {
        channel: String,
        message_ts: String,
        links: Vec<String>,
        is_bot_user_member: bool,
    },
    /// An ordinary channel message.
    Message(MessageEvent),
    /// A slash command with free-form text.
    SlashCommand { user_id: String, text: Option<String> },
    /// An interactive callback, parsed into a known subtype or not.
    Interaction(Option<InteractionKind>),
}

/// Which lookup service a resolution job queries.
#[derive(Debug, Clone, Copy, PartialEq, Eq)]
pub enum ServiceKind {
    Songlink,
    Songwhip,
}

/// Where the composed reply goes: into a channel, optionally anchored to a
/// thread, or into a direct conversation opened with a user.
#[derive(Debug, Clone, PartialEq, Eq)]
pub enum ReplyTarget {
    Channel { channel_id: String, thread_ts: Option<String> },
    User { user_id: String },
}

/// The resolution work a decision hands to the background: which URLs to
/// resolve against which service, and where the reply goes.
#[derive(Debug, Clone, PartialEq, Eq)]
pub struct ResolutionJob {
    pub service: ServiceKind,
    pub urls: Vec<String>,
    pub target: ReplyTarget,
}

/// The synchronous response body: empty, or the echoed challenge.
#[derive(Debug, Clone, PartialEq, Eq)]
pub enum ResponseBody {
    Empty,
    Challenge(String),
}

/// What an operator should read from a non-routine decision.
#[derive(Debug, Clone, Copy, PartialEq, Eq)]
pub enum Diagnostic {
    /// The request failed the Signature Verifier: rejected before any side
    /// effect.
    AuthenticationFailure,
    /// The payload matches no known event variant: acknowledged, no
    /// action.
    UnsupportedPayloadShape,
    /// A recognized but unhandled interaction subtype: a missing feature,
    /// not an attack.
    UnimplementedInteraction,
}

/// A dispatcher decision: the synchronous acknowledgment, the
/// retry-suppression demand, at most one background job, and the
/// diagnostic, if any.
#[derive(Debug, Clone, PartialEq, Eq)]
pub struct DispatchDecision {
    pub status: u16,
    pub body: ResponseBody,
    pub suppress_retry: bool,
    pub job: Option<ResolutionJob>,
    pub diagnostic: Option<Diagnostic>,
}

/// A plain OK acknowledgment with no work and nothing to report.
pub open spec fn ack_only(r: DispatchDecision) -> bool {
    &&& r.status == 200
    &&& r.body is Empty
    &&& r.job is None
    &&& r.diagnostic is None
}

/// The job resolves `urls` against `service` and replies into a channel.
pub open spec fn channel_job_is(
    job: Option<ResolutionJob>,
    service: ServiceKind,
    urls: Seq<Seq<char>>,
    channel: Seq<char>,
    thread: Option<Seq<char>>,
) -> bool {
    match job {
        Some(j) => {
            &&& j.service == service
            &&& j.urls.deep_view() == urls
            &&& match j.target {
                ReplyTarget::Channel { channel_id, thread_ts } => channel_id@ == channel
                    && thread_ts.deep_view() == thread,
                _ => false,
            }
        },
        None => false,
    }
}

/// The job resolves `urls` against `service` and replies in a direct
/// conversation with `user`.
pub open spec fn dm_job_is(
    job: Option<ResolutionJob>,
    service: ServiceKind,
    urls: Seq<Seq<char>>,
    user: Seq<char>,
) -> bool {
    match job {
        Some(j) => {
            &&& j.service == service
            &&& j.urls.deep_view() == urls
            &&& match j.target {
                ReplyTarget::User { user_id } => user_id@ == user,
                _ => false,
            }
        },
        None => false,
    }
}

/// A message event the bot ignores: bot-authored, hidden, a threaded
/// reply, or without text.
pub open spec fn message_skipped(m: MessageEvent) -> bool {
    m.spec_is_bot_message() || m.spec_is_hidden() || m.spec_is_threaded() || m.text is None
}

/// The dispatcher's full contract, variant by variant. Every branch
/// demands retry suppression, since all real work runs detached.
pub open spec fn decision_matches(ev: WebhookEvent, r: DispatchDecision) -> bool {
    &&& r.suppress_retry
    &&& match ev {
        WebhookEvent::UrlVerification { challenge } => {
            &&& r.status == 200
            &&& r.body matches ResponseBody::Challenge(c) && c@ == challenge@
            &&& r.job is None
            &&& r.diagnostic is None
        },
        WebhookEvent::RateLimited => ack_only(r),
        WebhookEvent::LinkShared { channel, message_ts, links, is_bot_user_member } => {
            &&& r.status == 200
            &&& r.body is Empty
            &&& r.diagnostic is None
            &&& if is_bot_user_member {
                channel_job_is(
                    r.job,
                    ServiceKind::Songlink,
                    links.deep_view(),
                    channel@,
                    Some(message_ts@),
                )
            } else {
                r.job is None
            }
        },
        WebhookEvent::Message(m) => {
            &&& r.status == 200
            &&& r.body is Empty
            &&& r.diagnostic is None
            &&& if message_skipped(m) {
                r.job is None
            } else if markdown_urls(m.text->0@).len() == 0 {
                r.job is None
            } else {
                channel_job_is(
                    r.job,
                    ServiceKind::Songlink,
                    markdown_urls(m.text->0@),
                    m.channel@,
                    Some(m.ts@),
                )
            }
        },
        WebhookEvent::SlashCommand { user_id, text } => {
            &&& r.status == 200
            &&& r.body is Empty
            &&& r.diagnostic is None
            &&& match text {
                Some(t) => {
                    if plain_urls(t@).len() == 0 {
                        r.job is None
                    } else {
                        dm_job_is(r.job, ServiceKind::Songwhip, plain_urls(t@), user_id@)
                    }
                },
                None => r.job is None,
            }
        },
        WebhookEvent::Interaction(kind) => {
            &&& r.status == 500
            &&& r.body is Empty
            &&& r.job is None
            &&& r.diagnostic == Some(
                match kind {
                    Some(_) => Diagnostic::UnimplementedInteraction,
                    None => Diagnostic::UnsupportedPayloadShape,
                },
            )
        },
    }
}

/// Classifies one authenticated payload and decides the response and the
/// background work, per `decision_matches`.
pub fn dispatch(event: WebhookEvent) -> (r: DispatchDecision)
    ensures
        decision_matches(event, r),
{
    match event {
        WebhookEvent::UrlVerification { challenge } => DispatchDecision {
            status: 200,
            body: ResponseBody::Challenge(challenge),
            suppress_retry: true,
            job: None,
            diagnostic: None,
        },
        WebhookEvent::RateLimited => DispatchDecision {
            status: 200,
            body: ResponseBody::Empty,
            suppress_retry: true,
            job: None,
            diagnostic: None,
        },
        WebhookEvent::LinkShared { channel, message_ts, links, is_bot_user_member } => {
            let job = if is_bot_user_member {
                Some(
                    ResolutionJob {
                        service: ServiceKind::Songlink,
                        urls: links,
                        target: ReplyTarget::Channel {
                            channel_id: channel,
                            thread_ts: Some(message_ts),
                        },
                    },
                )
            } else {
                None
            };
            DispatchDecision {
                status: 200,
                body: ResponseBody::Empty,
                suppress_retry: true,
                job,
                diagnostic: None,
            }
        },
        WebhookEvent::Message(m) => {
            let skipped = m.is_bot_message() || m.is_hidden() || m.is_threaded();
            let job = if skipped {
                None
            } else {
                match m.text {
                    Some(t) => {
                        let urls = check_slack_formatted_message_for_urls(t.as_str());
                        if urls.len() == 0 {
                            None
                        } else {
                            Some(
                                ResolutionJob {
                                    service: ServiceKind::Songlink,
                                    urls,
                                    target: ReplyTarget::Channel {
                                        channel_id: m.channel,
                                        thread_ts: Some(m.ts),
                                    },
                                },
                            )
                        }
                    },
                    None => None,
                }
            };
            DispatchDecision {
                status: 200,
                body: ResponseBody::Empty,
                suppress_retry: true,
                job,
                diagnostic: None,
            }
        },
        WebhookEvent::SlashCommand { user_id, text } => {
            let job = match text {
                Some(t) => {
                    let urls = check_slash_command_for_urls(t.as_str());
                    if urls.len() == 0 {
                        None
                    } else {
                        Some(
                            ResolutionJob {
                                service: ServiceKind::Songwhip,
                                urls,
                                target: ReplyTarget::User { user_id },
                            },
                        )
                    }
                },
                None => None,
            };
            DispatchDecision {
                status: 200,
                body: ResponseBody::Empty,
                suppress_retry: true,
                job,
                diagnostic: None,
            }
        },
        WebhookEvent::Interaction(kind) => {
            let diagnostic = match kind {
                Some(_) => Diagnostic::UnimplementedInteraction,
                None => Diagnostic::UnsupportedPayloadShape,
            };
            DispatchDecision {
                status: 500,
                body: ResponseBody::Empty,
                suppress_retry: true,
                job: None,
                diagnostic: Some(diagnostic),
            }
        },
    }
}

/// The contract of the whole gate: a request the Signature Verifier turns
/// away is answered with an authorization error and produces no work; an
/// accepted request is dispatched, with an unclassifiable payload
/// acknowledged as unsupported, no action taken.
pub open spec fn gate_post(
    secret: Seq<char>,
    signature: Option<Seq<char>>,
    timestamp: Option<Seq<char>>,
    body: Seq<char>,
    now: u64,
    event: Option<WebhookEvent>,
    r: DispatchDecision,
) -> bool {
    if !verifier_accepts(secret, signature, timestamp, body, now) {
        &&& r.status == 401
        &&& r.body is Empty
        &&& r.suppress_retry
        &&& r.job is None
        &&& r.diagnostic == Some(Diagnostic::AuthenticationFailure)
    } else {
        match event {
            Some(ev) => decision_matches(ev, r),
            None => {
                &&& r.status == 200
                &&& r.body is Empty
                &&& r.suppress_retry
                &&& r.job is None
                &&& r.diagnostic == Some(Diagnostic::UnsupportedPayloadShape)
            },
        }
    }
}

/// The authentication gate and dispatcher in one step, as the HTTP
/// boundary calls it: `event` is the classification of `raw_body`, handed
/// in alongside, and is acted on only when the verifier accepts.
pub fn process_signed_request(
    secret: &str,
    signature: Option<&str>,
    timestamp: Option<&str>,
    raw_body: &str,
    now: u64,
    event: Option<WebhookEvent>,
) -> (r: DispatchDecision)
    ensures
        gate_post(
            secret@,
            signature.deep_view(),
            timestamp.deep_view(),
            raw_body@,
            now,
            event,
            r,
        ),
{
    proof {
        lemma_verify_spec_accepts(
            secret@,
            signature.deep_view(),
            timestamp.deep_view(),
            raw_body@,
            now,
        );
    }
    match verify_request(secret, signature, timestamp, raw_body, now) {
        Verdict::Accept => match event {
            Some(ev) => dispatch(ev),
            None => DispatchDecision {
                status: 200,
                body: ResponseBody::Empty,
                suppress_retry: true,
                job: None,
                diagnostic: Some(Diagnostic::UnsupportedPayloadShape),
            },
        },
        Verdict::Reject(_) => DispatchDecision {
            status: 401,
            body: ResponseBody::Empty,
            suppress_retry: true,
            job: None,
            diagnostic: Some(Diagnostic::AuthenticationFailure),
        },
    }
}

/// Law: a request the verifier rejects triggers no external call — the
/// gate's decision carries no background job, and its status is the
/// authorization error.
pub proof fn law_reject_implies_no_side_effect(
    secret: Seq<char>,
    signature: Option<Seq<char>>,
    timestamp: Option<Seq<char>>,
    body: Seq<char>,
    now: u64,
    event: Option<WebhookEvent>,
    r: DispatchDecision,
)
    requires
        gate_post(secret, signature, timestamp, body, now, event, r),
        !verifier_accepts(secret, signature, timestamp, body, now),
    ensures
        r.job is None,
        r.status == 401,
        r.diagnostic == Some(Diagnostic::AuthenticationFailure),
{
}

/// Decides the response to one push event, as the events route delivers
/// them: the verification handshake, a rate-limit notice, shared links or
/// an ordinary message.
pub fn handle_slack_event(event: WebhookEvent) -> (r: DispatchDecision)
    ensures
        decision_matches(event, r),
{
    dispatch(event)
}

/// Decides the response to one slash command: the acknowledgment is
/// immediate and empty either way, and free-form text with at least one
/// candidate URL hands off a direct-conversation job.
pub fn handle_slack_command(user_id: String, text: Option<String>) -> (r: DispatchDecision)
    ensures
        decision_matches(WebhookEvent::SlashCommand { user_id, text }, r),
{
    dispatch(WebhookEvent::SlashCommand { user_id, text })
}

/// Decides the response to an interactive callback: a recognized subtype
/// is a recoverable "not yet supported" server error, an unparseable
/// payload a distinct diagnostic with the same status.
pub fn handle_slack_interaction(interaction: Option<InteractionKind>) -> (r: DispatchDecision)
    ensures
        decision_matches(WebhookEvent::Interaction(interaction), r),
{
    dispatch(WebhookEvent::Interaction(interaction))
}

/// The bot's membership in a channel, read off the conversations-info
/// outcome: the outer `Option` is whether the lookup succeeded, the inner
/// the membership flag of the response. Only a present, true flag counts;
/// a failed lookup or an absent flag means not a member.
pub fn is_bot_in_channel(membership: Option<Option<bool>>) -> (r: bool)
    ensures
        r == (membership == Some(Some(true))),
{
    match membership {
        Some(Some(m)) => m,
        Some(None) => false,
        None => false,
    }
}

/// One block-validation failure to report back to the platform.
#[derive(Debug, Clone, PartialEq, Eq)]
pub struct SlackBlockValidationError {
    pub block_id: String,
    pub error_message: String,
}

/// A response action for an interactive view: the per-block error
/// messages, keyed by block id.
#[derive(Debug, Clone, PartialEq, Eq)]
pub enum SlackResponseAction {
    Errors { errors: Vec<(String, String)> },
}

/// The key-value views of an error list.
pub open spec fn error_pairs_of(list: Seq<(String, String)>) -> Seq<(Seq<char>, Seq<char>)> {
    list.map_values(|p: (String, String)| (p.0@, p.1@))
}

/// The mapping a pair list denotes when read left to right: a later entry
/// for a key supersedes an earlier one.
pub open spec fn errors_map_of(list: Seq<(Seq<char>, Seq<char>)>) -> Map<Seq<char>, Seq<char>>
    decreases list.len(),
{
    if list.len() == 0 {
        Map::empty()
    } else {
        errors_map_of(list.drop_last()).insert(list.last().0, list.last().1)
    }
}

impl SlackResponseAction {
    /// Collects validation failures into an error action, one entry per
    /// failure in arrival order; the mapping they denote is the same
    /// last-wins mapping the failures themselves denote.
    #[verifier::loop_isolation(false)]
    pub fn from_validation_errors(errors: Vec<SlackBlockValidationError>) -> (r: Self)
        ensures
            r matches SlackResponseAction::Errors { errors: list } && error_pairs_of(list@)
                == errors@.map_values(
                |e: SlackBlockValidationError| (e.block_id@, e.error_message@),
            ) && errors_map_of(error_pairs_of(list@)) == errors_map_of(
                errors@.map_values(
                    |e: SlackBlockValidationError| (e.block_id@, e.error_message@),
                ),
            ),
    {
        let ghost target = errors@.map_values(
            |e: SlackBlockValidationError| (e.block_id@, e.error_message@),
        );
        let n = errors.len();
        let mut list: Vec<(String, String)> = Vec::new();
        let mut i: usize = 0;
        while i < n
            invariant
                i <= n,
                n == errors@.len(),
                error_pairs_of(list@) =~= target.take(i as int),
            decreases n - i,
        {
            let e = &errors[i];
            list.push((e.block_id.clone(), e.error_message.clone()));
            proof {
                assert(target.take(i + 1).drop_last() =~= target.take(i as int));
                assert(target.take(i + 1).last() == target[i as int]);
                assert(error_pairs_of(list@) =~= target.take(i + 1));
            }
            i = i + 1;
        }
        proof {
            assert(target.take(n as int) =~= target);
        }
        SlackResponseAction::Errors { errors: list }
    }
}

/// The form wrapper an interactive callback arrives in: one field holding
/// the JSON payload.
#[derive(Debug, Clone, PartialEq, Eq)]
pub struct SlackInteractionWrapper {
    pub payload: String,
}

} // verus!
