//! Event dispatch, the authentication gate in front of it, and batch
//! classification of lookup outcomes.

use songwhip_bot::dispatch::{
    dispatch, handle_slack_command, handle_slack_event, handle_slack_interaction,
    is_bot_in_channel, process_signed_request, Diagnostic, DispatchDecision, InteractionKind,
    MessageEvent, ReplyTarget, ResponseBody, ServiceKind, SlackBlockValidationError,
    SlackResponseAction, WebhookEvent,
};
use songwhip_bot::resolve::{
    classify_batch, classify_lookup, filter_found, ResolutionErrorCause, ResolvedLink,
    ServiceResponse,
};
use songwhip_bot::signature::sign_request;
use songwhip_bot::songwhip::SongwhipResponseBody;

fn sample_songwhip_body(name: &str) -> SongwhipResponseBody {
    SongwhipResponseBody {
        name: name.to_string(),
        url: format!("https://songwhip.example/{}", name),
        image: None,
        artists: Vec::new(),
    }
}

#[test]
fn url_verification_echoes_challenge() {
    let d = dispatch(WebhookEvent::UrlVerification { challenge: "tok3n".to_string() });
    assert_eq!(d.status, 200);
    assert_eq!(d.body, ResponseBody::Challenge("tok3n".to_string()));
    assert!(d.suppress_retry);
    assert_eq!(d.job, None);
    assert_eq!(d.diagnostic, None);
}

#[test]
fn rate_limited_is_acknowledged_without_action() {
    let d = handle_slack_event(WebhookEvent::RateLimited);
    assert_eq!(d.status, 200);
    assert_eq!(d.body, ResponseBody::Empty);
    assert!(d.suppress_retry);
    assert_eq!(d.job, None);
}

#[test]
fn link_shared_with_bot_member_hands_off_a_channel_job() {
    let d = dispatch(WebhookEvent::LinkShared {
        channel: "C024BE91L".to_string(),
        message_ts: "1531420618.000200".to_string(),
        links: vec!["https://music.apple.com/us/song/44733632".to_string()],
        is_bot_user_member: true,
    });
    assert_eq!(d.status, 200);
    assert_eq!(d.body, ResponseBody::Empty);
    assert!(d.suppress_retry);
    let job = d.job.expect("a resolution job");
    assert_eq!(job.service, ServiceKind::Songlink);
    assert_eq!(job.urls, vec!["https://music.apple.com/us/song/44733632".to_string()]);
    assert_eq!(
        job.target,
        ReplyTarget::Channel {
            channel_id: "C024BE91L".to_string(),
            thread_ts: Some("1531420618.000200".to_string()),
        }
    );
}

#[test]
fn link_shared_without_bot_member_does_nothing() {
    let d = dispatch(WebhookEvent::LinkShared {
        channel: "C024BE91L".to_string(),
        message_ts: "1531420618.000200".to_string(),
        links: vec!["https://music.apple.com/us/song/44733632".to_string()],
        is_bot_user_member: false,
    });
    assert_eq!(d.status, 200);
    assert_eq!(d.job, None);
}

fn plain_message(text: &str) -> MessageEvent {
    MessageEvent {
        channel: "C024BE91L".to_string(),
        ts: "1531420618.000200".to_string(),
        text: Some(text.to_string()),
        subtype_is_bot_message: false,
        sender_bot_id: None,
        thread_ts: None,
        hidden: false,
    }
}

#[test]
fn message_with_wrapped_url_hands_off_a_thread_job() {
    let d = dispatch(WebhookEvent::Message(plain_message("listen <https://a.example/x>")));
    let job = d.job.expect("a resolution job");
    assert_eq!(job.service, ServiceKind::Songlink);
    assert_eq!(job.urls, vec!["https://a.example/x".to_string()]);
    assert_eq!(
        job.target,
        ReplyTarget::Channel {
            channel_id: "C024BE91L".to_string(),
            thread_ts: Some("1531420618.000200".to_string()),
        }
    );
}

#[test]
fn bot_hidden_and_threaded_messages_are_ignored() {
    let mut m = plain_message("listen <https://a.example/x>");
    m.sender_bot_id = Some("B0001".to_string());
    assert_eq!(dispatch(WebhookEvent::Message(m)).job, None);

    let mut m = plain_message("listen <https://a.example/x>");
    m.subtype_is_bot_message = true;
    assert_eq!(dispatch(WebhookEvent::Message(m)).job, None);

    let mut m = plain_message("listen <https://a.example/x>");
    m.hidden = true;
    assert_eq!(dispatch(WebhookEvent::Message(m)).job, None);

    let mut m = plain_message("listen <https://a.example/x>");
    m.thread_ts = Some("1531420617.000100".to_string());
    assert_eq!(dispatch(WebhookEvent::Message(m)).job, None);

    assert_eq!(dispatch(WebhookEvent::Message(plain_message("no links"))).job, None);
}

#[test]
fn slash_command_with_urls_hands_off_a_dm_job() {
    let d = handle_slack_command(
        "U2147483697".to_string(),
        Some("play example.com/song now".to_string()),
    );
    assert_eq!(d.status, 200);
    assert_eq!(d.body, ResponseBody::Empty);
    assert!(d.suppress_retry);
    let job = d.job.expect("a resolution job");
    assert_eq!(job.service, ServiceKind::Songwhip);
    assert_eq!(job.urls, vec!["https://example.com/song".to_string()]);
    assert_eq!(job.target, ReplyTarget::User { user_id: "U2147483697".to_string() });
}

#[test]
fn slash_command_without_urls_or_text_does_nothing() {
    let d = handle_slack_command("U2147483697".to_string(), Some("no urls in here".to_string()));
    assert_eq!(d.job, None);
    let d = handle_slack_command("U2147483697".to_string(), None);
    assert_eq!(d.job, None);
}

#[test]
fn interactions_are_not_yet_supported() {
    let d = handle_slack_interaction(Some(InteractionKind::BlockActions));
    assert_eq!(d.status, 500);
    assert_eq!(d.diagnostic, Some(Diagnostic::UnimplementedInteraction));
    assert_eq!(d.job, None);
    assert!(d.suppress_retry);

    let d = handle_slack_interaction(None);
    assert_eq!(d.status, 500);
    assert_eq!(d.diagnostic, Some(Diagnostic::UnsupportedPayloadShape));
    assert_eq!(d.job, None);
}

const SECRET: &str = "fa2c05deeef5a4077494e89f54394de0";

fn link_shared_event() -> WebhookEvent {
    WebhookEvent::LinkShared {
        channel: "C024BE91L".to_string(),
        message_ts: "1531420618.000200".to_string(),
        links: vec!["https://music.apple.com/us/song/44733632".to_string()],
        is_bot_user_member: true,
    }
}

#[test]
fn gate_accepts_signed_request_and_dispatches() {
    let body = "{\"type\":\"event_callback\"}";
    let ts = "1531420618";
    let sig = sign_request(SECRET, ts, body);
    let d: DispatchDecision = process_signed_request(
        SECRET,
        Some(&sig),
        Some(ts),
        body,
        1531420620,
        Some(link_shared_event()),
    );
    assert_eq!(d.status, 200);
    assert_eq!(d.body, ResponseBody::Empty);
    assert!(d.suppress_retry);
    assert!(d.job.is_some());
}

#[test]
fn gate_rejects_bad_signature_with_no_work() {
    let body = "{\"type\":\"event_callback\"}";
    let ts = "1531420618";
    let sig = sign_request("the-wrong-secret", ts, body);
    let d = process_signed_request(
        SECRET,
        Some(&sig),
        Some(ts),
        body,
        1531420620,
        Some(link_shared_event()),
    );
    assert_eq!(d.status, 401);
    assert_eq!(d.body, ResponseBody::Empty);
    assert!(d.suppress_retry);
    assert_eq!(d.job, None);
    assert_eq!(d.diagnostic, Some(Diagnostic::AuthenticationFailure));
}

#[test]
fn gate_rejects_replay_after_window_with_no_work() {
    let body = "{\"type\":\"event_callback\"}";
    let ts = "1531420618";
    let sig = sign_request(SECRET, ts, body);
    let d = process_signed_request(
        SECRET,
        Some(&sig),
        Some(ts),
        body,
        1531420618 + 301,
        Some(link_shared_event()),
    );
    assert_eq!(d.status, 401);
    assert_eq!(d.job, None);
}

#[test]
fn gate_acknowledges_unsupported_payload_without_action() {
    let body = "{\"something\":\"else\"}";
    let ts = "1531420618";
    let sig = sign_request(SECRET, ts, body);
    let d = process_signed_request(SECRET, Some(&sig), Some(ts), body, 1531420620, None);
    assert_eq!(d.status, 200);
    assert_eq!(d.job, None);
    assert_eq!(d.diagnostic, Some(Diagnostic::UnsupportedPayloadShape));
}

#[test]
fn batch_classification_preserves_length_and_position() {
    let batch: Vec<ServiceResponse<SongwhipResponseBody>> = vec![
        ServiceResponse::Status { code: 200, parsed: Some(sample_songwhip_body("one")) },
        ServiceResponse::Status { code: 400, parsed: None },
        ServiceResponse::TransportFailure,
    ];
    let links = classify_batch(batch);
    assert_eq!(links.len(), 3);
    assert!(matches!(&links[0], ResolvedLink::Found(b) if b.name == "one"));
    assert!(matches!(links[1], ResolvedLink::NotFound));
    assert!(matches!(
        links[2],
        ResolvedLink::ResolutionError(ResolutionErrorCause::TransportFailure)
    ));

    let found = filter_found(links);
    assert_eq!(found.len(), 1);
    assert_eq!(found[0].name, "one");
}

#[test]
fn lookup_classification_covers_each_cause() {
    let ok: ResolvedLink<SongwhipResponseBody> =
        classify_lookup(ServiceResponse::Status { code: 204, parsed: None });
    assert!(matches!(ok, ResolvedLink::ResolutionError(ResolutionErrorCause::MalformedBody)));

    let server_err: ResolvedLink<SongwhipResponseBody> =
        classify_lookup(ServiceResponse::Status { code: 503, parsed: None });
    assert!(matches!(
        server_err,
        ResolvedLink::ResolutionError(ResolutionErrorCause::UnexpectedStatus(503))
    ));

    let no_match: ResolvedLink<SongwhipResponseBody> =
        classify_lookup(ServiceResponse::Status { code: 400, parsed: None });
    assert!(matches!(no_match, ResolvedLink::NotFound));
}

#[test]
fn bot_membership_reads_only_a_present_true_flag() {
    assert!(is_bot_in_channel(Some(Some(true))));
    assert!(!is_bot_in_channel(Some(Some(false))));
    assert!(!is_bot_in_channel(Some(None)));
    assert!(!is_bot_in_channel(None));
}

#[test]
fn validation_errors_keep_their_pairs_in_order() {
    let action = SlackResponseAction::from_validation_errors(vec![
        SlackBlockValidationError {
            block_id: "b1".to_string(),
            error_message: "first".to_string(),
        },
        SlackBlockValidationError {
            block_id: "b2".to_string(),
            error_message: "second".to_string(),
        },
    ]);
    let SlackResponseAction::Errors { errors } = action;
    assert_eq!(
        errors,
        vec![
            ("b1".to_string(), "first".to_string()),
            ("b2".to_string(), "second".to_string()),
        ]
    );
}
