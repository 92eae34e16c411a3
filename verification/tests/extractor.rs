//! URL Extractor behavior: the two modes, source order, duplicates, and the
//! prefix retry.

use songwhip_bot::extract::{
    check_slack_formatted_message_for_urls, check_slash_command_for_urls, is_absolute_url_exec,
};

#[test]
fn markdown_mode_yields_wrapped_urls_in_order() {
    let urls =
        check_slack_formatted_message_for_urls("<https://a.example|A> and <https://b.example>");
    assert_eq!(urls, vec!["https://a.example".to_string(), "https://b.example".to_string()]);
}

#[test]
fn markdown_mode_keeps_duplicates_and_order() {
    let urls = check_slack_formatted_message_for_urls("<https://x.example> <https://x.example>");
    assert_eq!(urls, vec!["https://x.example".to_string(), "https://x.example".to_string()]);
}

#[test]
fn markdown_mode_ignores_unclosed_and_cross_line_wraps() {
    assert_eq!(check_slack_formatted_message_for_urls("<https://a.example"), Vec::<String>::new());
    assert_eq!(
        check_slack_formatted_message_for_urls("<https://a.example\n> <https://b.example>"),
        vec!["https://b.example".to_string()]
    );
}

#[test]
fn markdown_mode_on_empty_and_plain_text() {
    assert_eq!(check_slack_formatted_message_for_urls(""), Vec::<String>::new());
    assert_eq!(check_slack_formatted_message_for_urls("no links here"), Vec::<String>::new());
}

#[test]
fn plain_mode_keeps_prefixed_token_and_drops_the_rest() {
    let urls = check_slash_command_for_urls("check out example.com/x and not-a-url!!");
    assert_eq!(urls, vec!["https://example.com/x".to_string()]);
}

#[test]
fn plain_mode_keeps_token_with_scheme_as_is() {
    let urls = check_slash_command_for_urls("see https://open.spotify.com/track/1 now");
    assert_eq!(urls, vec!["https://open.spotify.com/track/1".to_string()]);
}

#[test]
fn plain_mode_empty_text_yields_nothing() {
    assert_eq!(check_slash_command_for_urls(""), Vec::<String>::new());
    assert_eq!(check_slash_command_for_urls("   \t\n  "), Vec::<String>::new());
}

#[test]
fn absolute_url_needs_scheme_and_dotted_host() {
    assert!(is_absolute_url_exec("https://example.com"));
    assert!(is_absolute_url_exec("http://a.b/c?d#e"));
    assert!(is_absolute_url_exec("https://a.example:8080/x"));
    assert!(!is_absolute_url_exec("https://check"));
    assert!(!is_absolute_url_exec("https://not-a-url!!"));
    assert!(!is_absolute_url_exec("example.com"));
    assert!(!is_absolute_url_exec("https://.example"));
    assert!(!is_absolute_url_exec("https://a..example"));
    assert!(!is_absolute_url_exec("https://a.example:port"));
}
