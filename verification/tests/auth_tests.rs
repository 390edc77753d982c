use hackatime_client::auth::{
    generate_code_challenge, generate_code_verifier, generate_state, AuthState, ExchangeOutcome,
    PkceState, TokenStore, WhoamiOutcome, CALLBACK_URL, CLIENT_ID, PKCE_MAX_AGE_SECS,
};
use hackatime_client::errors::ClientError;

fn store_with_pkce(state: &str, timestamp: i64) -> TokenStore {
    let mut store = TokenStore::new();
    store.pkce = Some(PkceState {
        code_verifier: String::from("dBjftJeZ4CVP-mB92K27uhbUJU1p1r_wW1gFWFOEjXk"),
        state: String::from(state),
        timestamp,
    });
    store
}

#[test]
fn code_challenge_matches_rfc_7636_example() {
    // The verifier/challenge pair from the PKCE RFC's appendix.
    let challenge = generate_code_challenge("dBjftJeZ4CVP-mB92K27uhbUJU1p1r_wW1gFWFOEjXk");
    assert_eq!(challenge, "E9Melhoa2OwvFrEMTJguCHaoeK1t8URWbuGJSstw-cM");
}

#[test]
fn code_verifier_is_43_base64url_chars() {
    let v = generate_code_verifier();
    assert_eq!(v.len(), 43);
    assert!(v
        .chars()
        .all(|c| c.is_ascii_alphanumeric() || c == '-' || c == '_'));
}

#[test]
fn generated_states_are_alphanumeric_and_distinct() {
    let a = generate_state();
    let b = generate_state();
    assert_eq!(a.chars().count(), 32);
    assert!(a.chars().all(|c| c.is_ascii_alphanumeric()));
    assert_ne!(a, b);
}

#[test]
fn fresh_pkce_is_not_expired() {
    let p = PkceState::new();
    assert!(p.timestamp >= 0);
    assert!(!p.is_expired_at(p.timestamp, PKCE_MAX_AGE_SECS));
    assert!(p.is_expired_at(p.timestamp + 601, PKCE_MAX_AGE_SECS));
}

#[test]
fn begin_authorization_builds_exact_url() {
    let mut store = TokenStore::new();
    let url = store.begin_authorization("https://example.com");
    let pkce = store.pkce.as_ref().expect("flow stored");
    let challenge = generate_code_challenge(&pkce.code_verifier);
    let expected = format!(
        "https://example.com/oauth/authorize?client_id={}&redirect_uri=hackatime%3A%2F%2Fauth%2Fcallback&response_type=code&scope=profile&state={}&code_challenge={}&code_challenge_method=S256",
        CLIENT_ID, pkce.state, challenge
    );
    assert_eq!(url, expected);
    assert_eq!(CALLBACK_URL, "hackatime://auth/callback");
    assert!(!store.auth.is_authenticated);
}

#[test]
fn begin_authorization_overwrites_previous_flow() {
    let mut store = store_with_pkce("oldstate", 0);
    store.begin_authorization("https://example.com");
    let pkce = store.pkce.as_ref().unwrap();
    assert_ne!(pkce.state, "oldstate");
}

#[test]
fn callback_without_flow_is_no_pending_flow() {
    let mut store = TokenStore::new();
    let r = store.complete_authorization_start("code", "state", 0);
    assert!(matches!(r, Err(ClientError::NoPendingFlow)));
}

#[test]
fn state_mismatch_fails_and_keeps_flow() {
    let mut store = store_with_pkce("expected-state", 0);
    let r = store.complete_authorization_start("somecode", "other-state", 10);
    assert!(matches!(r, Err(ClientError::StateMismatch)));
    // The slot is kept: a mismatch is how a callback of an overwritten
    // earlier flow presents itself, and the current flow stays valid.
    assert!(store.pkce.is_some());
    assert!(!store.auth.is_authenticated);
}

#[test]
fn expired_flow_fails_and_is_consumed() {
    let mut store = store_with_pkce("st", 0);
    let r = store.complete_authorization_start("somecode", "st", PKCE_MAX_AGE_SECS + 1);
    assert!(matches!(r, Err(ClientError::PkceExpired)));
    assert!(store.pkce.is_none());
}

#[test]
fn flow_at_exactly_max_age_still_validates() {
    let mut store = store_with_pkce("st", 0);
    let r = store.complete_authorization_start("somecode", "st", PKCE_MAX_AGE_SECS);
    assert!(r.is_ok());
}

#[test]
fn valid_callback_yields_exact_token_request() {
    let mut store = store_with_pkce("st", 0);
    let req = store
        .complete_authorization_start("auth-code-1", "st", 10)
        .expect("valid callback");
    assert_eq!(req.grant_type, "authorization_code");
    assert_eq!(req.code, "auth-code-1");
    assert_eq!(req.client_id, CLIENT_ID);
    assert_eq!(req.redirect_uri, CALLBACK_URL);
    assert_eq!(req.code_verifier, "dBjftJeZ4CVP-mB92K27uhbUJU1p1r_wW1gFWFOEjXk");
}

#[test]
fn successful_exchange_authenticates_and_consumes_flow() {
    let mut store = store_with_pkce("st", 0);
    store
        .complete_authorization_start("code", "st", 1)
        .unwrap();
    let outcome = ExchangeOutcome::Token {
        access_token: String::from("tok-123"),
        profile: Some(vec![(String::from("username"), String::from("\"kate\""))]),
    };
    assert!(store.complete_authorization_finish(outcome).is_ok());
    assert!(store.auth.is_authenticated);
    assert_eq!(store.auth.access_token.as_deref(), Some("tok-123"));
    assert_eq!(
        store.auth.user_info.as_ref().unwrap()[0].0,
        "username"
    );
    assert!(store.pkce.is_none());
}

#[test]
fn second_callback_after_success_sees_no_pending_flow() {
    let mut store = store_with_pkce("st", 0);
    let first = store.complete_authorization_start("code", "st", 1);
    assert!(first.is_ok());
    store
        .complete_authorization_finish(ExchangeOutcome::Token {
            access_token: String::from("tok"),
            profile: None,
        })
        .unwrap();
    // The same code/state again: the flow was consumed by the success.
    let second = store.complete_authorization_start("code", "st", 2);
    assert!(matches!(second, Err(ClientError::NoPendingFlow)));
}

#[test]
fn missing_profile_yields_empty_user_info() {
    let mut store = store_with_pkce("st", 0);
    store
        .complete_authorization_finish(ExchangeOutcome::Token {
            access_token: String::from("tok"),
            profile: None,
        })
        .unwrap();
    assert!(store.auth.is_authenticated);
    assert_eq!(store.auth.user_info.as_ref().unwrap().len(), 0);
}

#[test]
fn failed_exchange_changes_nothing() {
    let mut store = store_with_pkce("st", 0);
    let r = store.complete_authorization_finish(ExchangeOutcome::Transport {
        detail: String::from("connection refused"),
    });
    match r {
        Err(ClientError::TokenExchangeFailed(d)) => assert_eq!(d, "connection refused"),
        other => panic!("unexpected: {:?}", other),
    }
    assert!(!store.auth.is_authenticated);
    assert!(store.pkce.is_some());

    let r = store.complete_authorization_finish(ExchangeOutcome::Http {
        status: 400,
        body: String::from("invalid_grant"),
    });
    match r {
        Err(ClientError::TokenExchangeFailed(d)) => assert_eq!(d, "invalid_grant"),
        other => panic!("unexpected: {:?}", other),
    }

    let r = store.complete_authorization_finish(ExchangeOutcome::Malformed);
    assert!(matches!(r, Err(ClientError::ResponseParseError)));
    assert!(store.pkce.is_some());
}

#[test]
fn authenticated_flag_always_tracks_token() {
    let mut store = TokenStore::new();
    assert_eq!(store.auth.is_authenticated, store.auth.access_token.is_some());
    store
        .complete_authorization_finish(ExchangeOutcome::Token {
            access_token: String::from("t"),
            profile: None,
        })
        .unwrap();
    assert_eq!(store.auth.is_authenticated, store.auth.access_token.is_some());
    store.logout();
    assert_eq!(store.auth.is_authenticated, store.auth.access_token.is_some());
}

#[test]
fn opaque_token_accepted_counts_as_exchange() {
    let mut store = store_with_pkce("st", 0);
    let r = store.validate_opaque_token_finish(
        String::from("pasted-token"),
        WhoamiOutcome::Profile {
            fields: vec![(String::from("id"), String::from("7"))],
        },
    );
    assert!(r.is_ok());
    assert!(store.auth.is_authenticated);
    assert_eq!(store.auth.access_token.as_deref(), Some("pasted-token"));
    assert!(store.pkce.is_none());
}

#[test]
fn opaque_token_refused_is_invalid_token() {
    let mut store = TokenStore::new();
    let r = store.validate_opaque_token_finish(
        String::from("bad"),
        WhoamiOutcome::Http {
            status: 401,
            body: String::from("unauthorized"),
        },
    );
    assert!(matches!(r, Err(ClientError::InvalidToken)));
    assert!(!store.auth.is_authenticated);
}

struct FailingStore;

impl FailingStore {
    fn clear(&self) -> Result<(), String> {
        Err(String::from("disk unavailable"))
    }
}

#[test]
fn logout_clears_state_even_when_persistence_clear_fails() {
    let mut store = TokenStore::new();
    store.handle_auth_callback(String::from("tok"));
    assert!(store.auth.is_authenticated);
    store.logout();
    // The persistence collaborator fails to clear; that is logged by the
    // caller and has no bearing on the in-memory state.
    let persistence = FailingStore;
    let _ = persistence.clear();
    assert!(!store.auth.is_authenticated);
    assert!(store.auth.access_token.is_none());
    assert!(store.auth.user_info.is_none());
}

#[test]
fn bearer_token_requires_authentication() {
    let mut store = TokenStore::new();
    assert!(matches!(
        store.bearer_token(),
        Err(ClientError::AuthenticationRequired)
    ));
    store.handle_auth_callback(String::from("tok"));
    assert_eq!(store.bearer_token().unwrap(), "tok");
}

#[test]
fn restore_saved_normalizes_malformed_records() {
    let mut store = TokenStore::new();
    store.restore_saved(Some(AuthState {
        is_authenticated: true,
        access_token: None,
        user_info: None,
    }));
    assert!(!store.auth.is_authenticated);

    store.restore_saved(Some(AuthState {
        is_authenticated: false,
        access_token: Some(String::from("tok")),
        user_info: None,
    }));
    assert!(store.auth.is_authenticated);
    assert_eq!(store.auth.access_token.as_deref(), Some("tok"));
}

#[test]
fn get_auth_state_returns_equal_copy() {
    let mut store = TokenStore::new();
    store.handle_auth_callback(String::from("tok"));
    let snapshot = store.get_auth_state();
    assert!(snapshot.is_authenticated);
    assert_eq!(snapshot.access_token.as_deref(), Some("tok"));
    assert_eq!(snapshot.user_info.as_ref().unwrap().len(), 0);
}
