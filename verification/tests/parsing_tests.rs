use hackatime_client::callback::{parse_auth_input, query_param, ParsedAuthInput};
use hackatime_client::setup::{
    check_config_has_required_values, check_wakatime_config_result, get_expected_config_content,
};

#[test]
fn non_callback_input_is_a_direct_token() {
    match parse_auth_input("some-opaque-token") {
        ParsedAuthInput::DirectToken => {},
        other => panic!("unexpected: {:?}", other),
    }
    match parse_auth_input("https://example.com/auth/callback?code=x") {
        ParsedAuthInput::DirectToken => {},
        other => panic!("unexpected: {:?}", other),
    }
}

#[test]
fn callback_with_code_and_state_is_parsed() {
    match parse_auth_input("hackatime://auth/callback?code=abc123&state=xyz789") {
        ParsedAuthInput::CallbackCode { code, state } => {
            assert_eq!(code, "abc123");
            assert_eq!(state.as_deref(), Some("xyz789"));
        },
        other => panic!("unexpected: {:?}", other),
    }
}

#[test]
fn callback_without_state_has_none() {
    match parse_auth_input("hackatime://auth/callback?code=abc123") {
        ParsedAuthInput::CallbackCode { code, state } => {
            assert_eq!(code, "abc123");
            assert!(state.is_none());
        },
        other => panic!("unexpected: {:?}", other),
    }
}

#[test]
fn callback_error_wins_over_code() {
    match parse_auth_input("hackatime://auth/callback?code=abc&error=access_denied") {
        ParsedAuthInput::CallbackError { error } => assert_eq!(error, "access_denied"),
        other => panic!("unexpected: {:?}", other),
    }
}

#[test]
fn callback_without_query_or_code() {
    match parse_auth_input("hackatime://auth/callback") {
        ParsedAuthInput::CallbackNoQuery => {},
        other => panic!("unexpected: {:?}", other),
    }
    match parse_auth_input("hackatime://auth/callback?state=only") {
        ParsedAuthInput::CallbackMissingCode => {},
        other => panic!("unexpected: {:?}", other),
    }
}

#[test]
fn query_param_takes_first_match() {
    assert_eq!(
        query_param("a=1&code=first&code=second", "code=").as_deref(),
        Some("first")
    );
    assert_eq!(query_param("a=1&b=2", "code="), None);
    assert_eq!(
        query_param("code=with=equals&x=y", "code=").as_deref(),
        Some("with=equals")
    );
    assert_eq!(query_param("code=", "code=").as_deref(), Some(""));
}

#[test]
fn expected_config_content_is_exact() {
    assert_eq!(
        get_expected_config_content("my-key", "https://api.example.com"),
        "[settings]\napi_url = https://api.example.com\napi_key = my-key\nheartbeat_rate_limit_seconds = 30\n"
    );
}

#[test]
fn generated_config_passes_its_own_check() {
    let content = get_expected_config_content("k-123", "https://api.example.com");
    assert!(check_config_has_required_values(
        &content,
        "k-123",
        "https://api.example.com"
    ));
}

#[test]
fn config_check_accepts_crlf_and_padding() {
    let content = "[settings]\r\n  api_url =  https://u  \r\napi_key = k\r\n";
    assert!(check_config_has_required_values(content, "k", "https://u"));
}

#[test]
fn config_check_needs_both_values() {
    assert!(!check_config_has_required_values(
        "[settings]\napi_url = https://u\n",
        "k",
        "https://u"
    ));
    assert!(!check_config_has_required_values(
        "[settings]\napi_key = k\n",
        "k",
        "https://u"
    ));
    assert!(!check_config_has_required_values(
        "[settings]\napi_url = https://other\napi_key = k\n",
        "k",
        "https://u"
    ));
    assert!(!check_config_has_required_values("", "k", "https://u"));
}

#[test]
fn config_value_is_between_first_and_second_equals() {
    // What follows a second `=` is not part of the compared value.
    assert!(check_config_has_required_values(
        "api_url = u\napi_key = a =b\n",
        "a",
        "u"
    ));
    assert!(!check_config_has_required_values(
        "api_url = u\napi_key = a=b\n",
        "a=b",
        "u"
    ));
}

#[test]
fn config_check_result_composes_fields() {
    let r = check_wakatime_config_result(
        true,
        Some(String::from("api_url = u\napi_key = k\n")),
        "k",
        "u",
        String::from("/home/me/.wakatime.cfg"),
    );
    assert!(r.exists);
    assert!(r.matches);
    assert_eq!(r.config_path, "/home/me/.wakatime.cfg");
    assert_eq!(r.actual_content.as_deref(), Some("api_url = u\napi_key = k\n"));
    assert_eq!(r.expected_content, get_expected_config_content("k", "u"));

    let missing = check_wakatime_config_result(false, None, "k", "u", String::from("p"));
    assert!(!missing.exists);
    assert!(!missing.matches);
    assert!(missing.actual_content.is_none());
}
