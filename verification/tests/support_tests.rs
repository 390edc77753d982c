use hackatime_client::config::{effective_base_url, ApiConfig, DEFAULT_BASE_URL};
use hackatime_client::endpoints::{
    api_keys_url, heartbeat_url, hours_url, me_url, project_details_url, projects_url, streak_url,
    token_url,
};
use hackatime_client::errors::{classify_http_failure, ClientError};
use hackatime_client::preferences::{get_preferences_path, Preferences};
use hackatime_client::presence::{activity_details, basename, DiscordActivity, DiscordRpcState};
use hackatime_client::strutil::{
    i64_to_string, join_strings, normalize_crlf, split_char, trim_str, u64_to_string,
};

#[test]
fn default_config_points_at_the_service() {
    assert_eq!(ApiConfig::new().base_url, "https://hackatime.hackclub.com");
    assert_eq!(ApiConfig::default().base_url, DEFAULT_BASE_URL);
}

#[test]
fn empty_base_url_falls_back_to_default() {
    let empty = ApiConfig { base_url: String::new() };
    assert_eq!(effective_base_url(&empty), DEFAULT_BASE_URL);
    let own = ApiConfig { base_url: String::from("https://my.example.com") };
    assert_eq!(effective_base_url(&own), "https://my.example.com");
}

#[test]
fn endpoint_urls_are_exact() {
    let b = "https://api.example.com";
    assert_eq!(token_url(b), "https://api.example.com/oauth/token");
    assert_eq!(me_url(b), "https://api.example.com/api/v1/authenticated/me");
    assert_eq!(
        heartbeat_url(b),
        "https://api.example.com/api/v1/authenticated/heartbeats/latest"
    );
    assert_eq!(
        hours_url(b, "2024-01-01", "2024-01-07"),
        "https://api.example.com/api/v1/authenticated/hours?start_date=2024-01-01&end_date=2024-01-07"
    );
    assert_eq!(streak_url(b), "https://api.example.com/api/v1/authenticated/streak");
    assert_eq!(api_keys_url(b), "https://api.example.com/api/v1/authenticated/api_keys");
    assert_eq!(projects_url(b), "https://api.example.com/api/v1/authenticated/projects");
}

#[test]
fn project_names_are_percent_encoded() {
    assert_eq!(
        project_details_url("https://h", "my project/x"),
        "https://h/api/v1/authenticated/projects/my%20project%2Fx"
    );
}

#[test]
fn rate_limit_is_distinguished_from_outage() {
    match classify_http_failure(429, String::from("slow down")) {
        ClientError::RateLimited(d) => assert_eq!(d, "slow down"),
        other => panic!("unexpected: {:?}", other),
    }
    match classify_http_failure(500, String::from("boom")) {
        ClientError::RemoteUnavailable(d) => assert_eq!(d, "boom"),
        other => panic!("unexpected: {:?}", other),
    }
}

#[test]
fn error_messages_are_exact() {
    assert_eq!(
        ClientError::StateMismatch.message(),
        "State parameter mismatch. Possible CSRF attack."
    );
    assert_eq!(
        ClientError::PkceExpired.message(),
        "PKCE state expired. Please restart authentication."
    );
    assert_eq!(
        ClientError::NoPendingFlow.message(),
        "No PKCE state found. Please restart authentication."
    );
    assert_eq!(
        ClientError::RateLimited(String::from("w")).message(),
        "Rate limited: w"
    );
    assert_eq!(
        ClientError::TokenExchangeFailed(String::from("d")).message(),
        "Token exchange failed: d"
    );
    assert_eq!(ClientError::AuthenticationRequired.message(), "Not authenticated");
    assert_eq!(
        ClientError::PersistenceError(String::from("disk full")).message(),
        "Persistence error: disk full"
    );
    assert_eq!(
        ClientError::RemoteUnavailable(String::from("timeout")).message(),
        "Request failed: timeout"
    );
    assert_eq!(
        ClientError::InvalidToken.message(),
        "Access token validation failed"
    );
    assert_eq!(ClientError::ResponseParseError.message(), "Failed to parse response");
}

#[test]
fn preferences_default_off_and_path_shape() {
    assert!(!Preferences::default().autostart_enabled);
    assert_eq!(
        get_preferences_path("/home/me/.config/app"),
        "/home/me/.config/app/preferences.json"
    );
}

#[test]
fn basename_takes_what_follows_the_last_slash() {
    assert_eq!(basename("src/main.rs"), "main.rs");
    assert_eq!(basename("main.rs"), "main.rs");
    assert_eq!(basename("a/b/c/d.txt"), "d.txt");
    assert_eq!(basename("dir/"), "");
}

fn activity(
    language: Option<&str>,
    editor: Option<&str>,
    entity: Option<&str>,
) -> DiscordActivity {
    DiscordActivity {
        project_name: String::from("proj"),
        language: language.map(String::from),
        editor: editor.map(String::from),
        entity: entity.map(String::from),
        start_time: Some(0),
    }
}

#[test]
fn activity_details_join_labelled_parts() {
    let a = activity(Some("Rust"), Some("vim"), Some("src/lib.rs"));
    assert_eq!(
        activity_details(&a).as_deref(),
        Some("Language: Rust \u{2022} Editor: vim \u{2022} File: lib.rs")
    );
    let only_lang = activity(Some("Go"), None, None);
    assert_eq!(activity_details(&only_lang).as_deref(), Some("Language: Go"));
    let nothing = activity(None, None, None);
    assert!(activity_details(&nothing).is_none());
}

#[test]
fn rpc_state_transitions() {
    let mut s = DiscordRpcState::new();
    assert!(!s.is_connected);
    s.on_connected(String::from("client-1"));
    assert!(s.is_connected);
    assert_eq!(s.client_id.as_deref(), Some("client-1"));
    s.on_activity_set(activity(Some("Rust"), None, None));
    assert!(s.current_activity.is_some());
    s.on_activity_cleared();
    assert!(s.current_activity.is_none());
    s.on_activity_set(activity(None, None, None));
    s.on_disconnected();
    assert!(!s.is_connected);
    assert!(s.client_id.is_none());
    assert!(s.current_activity.is_none());
}

#[test]
fn numbers_render_in_decimal() {
    assert_eq!(u64_to_string(0), "0");
    assert_eq!(u64_to_string(7), "7");
    assert_eq!(u64_to_string(1234567890), "1234567890");
    assert_eq!(u64_to_string(u64::MAX), "18446744073709551615");
    assert_eq!(i64_to_string(-5), "-5");
    assert_eq!(i64_to_string(42), "42");
    assert_eq!(i64_to_string(i64::MIN), "-9223372036854775808");
}

#[test]
fn string_helpers_behave_like_std() {
    assert_eq!(split_char("a&b&&c", '&'), vec!["a", "b", "", "c"]);
    assert_eq!(split_char("", '&'), vec![""]);
    assert_eq!(split_char("a&", '&'), vec!["a", ""]);
    assert_eq!(trim_str("  x \t"), "x");
    assert_eq!(trim_str("\r\n"), "");
    assert_eq!(normalize_crlf("a\r\nb\rc\nd\r\n"), "a\nb\rc\nd\n");
    let parts = vec![String::from("a"), String::from("b"), String::from("c")];
    assert_eq!(join_strings(&parts, ", "), "a, b, c");
    assert_eq!(join_strings(&Vec::new(), ", "), "");
}
