//! The OAuth2 authorization-code flow with PKCE, and the token store it
//! fills.
//!
//! `begin_authorization` draws a fresh verifier/state pair, stores it as
//! the single in-flight flow and returns the authorization URL. When the
//! deep-link callback arrives, `complete_authorization_start` validates
//! it — no pending flow, expiry and CSRF state are checked here, before
//! anything touches the network — and hands back the exact token-endpoint
//! request to perform. The outcome of that remote call is then committed
//! by `complete_authorization_finish`, which on success populates the
//! auth state and consumes the in-flight flow in one step.

use vstd::prelude::*;
use vstd::string::StringExecFns;

use crate::clock::unix_now_secs;
use crate::crypto::{b64url_encode, b64url_of, is_b64url_char, sha256, sha256_of};
use crate::errors::ClientError;
use crate::random::random_bytes;
use crate::strutil::{clone_opt_string, is_alnum_char, push_char, substr_eq};
use crate::urlenc::{url_encode, url_encoded};

verus! {

/// OAuth client identifier registered with the remote service.
pub const CLIENT_ID: &'static str = "BPr5VekIV-xuQ2ZhmxbGaahJ3XVd7gM83pql-HYGYxQ";

/// The custom-scheme redirect URI the OS delivers callbacks to.
pub const CALLBACK_URL: &'static str = "hackatime://auth/callback";

/// How long an in-flight authorization stays valid, in seconds.
pub const PKCE_MAX_AGE_SECS: i64 = 600;

/// The current authentication state: a flag, the bearer token, and the
/// user profile as key/value pairs of raw JSON text.
///
/// The flag and the token are logically one optional credential:
/// `auth_wf` ties them together and every mutation preserves it.
#[derive(Debug)]
pub struct AuthState {
    pub is_authenticated: bool,
    pub access_token: Option<String>,
    pub user_info: Option<Vec<(String, String)>>,
}

/// The credential invariant: authenticated exactly when a token is held.
pub open spec fn auth_wf(a: AuthState) -> bool {
    a.is_authenticated == (a.access_token is Some)
}

/// The logged-out state.
pub open spec fn spec_logged_out() -> AuthState {
    AuthState { is_authenticated: false, access_token: None, user_info: None }
}

/// Two auth states agree in every observable field.
pub open spec fn auth_states_alike(a: AuthState, b: AuthState) -> bool {
    &&& a.is_authenticated == b.is_authenticated
    &&& (a.access_token is Some) == (b.access_token is Some)
    &&& a.access_token is Some ==> a.access_token->0@ == b.access_token->0@
    &&& (a.user_info is Some) == (b.user_info is Some)
    &&& a.user_info is Some ==> a.user_info->0@ == b.user_info->0@
}

/// One in-flight authorization attempt: the PKCE verifier, the CSRF
/// `state` echoed by the callback, and when the attempt was made.
#[derive(Debug)]
pub struct PkceState {
    pub code_verifier: String,
    pub state: String,
    pub timestamp: i64,
}

/// Shape of a freshly generated in-flight flow: a 43-character unpadded
/// base64url verifier (32 random bytes), a 32-character alphanumeric
/// state, and a non-negative creation time.
pub open spec fn pkce_wf(p: PkceState) -> bool {
    &&& p.code_verifier@.len() == 43
    &&& forall|i: int|
        0 <= i < p.code_verifier@.len() ==> is_b64url_char(#[trigger] p.code_verifier@[i])
    &&& p.state@.len() == 32
    &&& forall|i: int| 0 <= i < p.state@.len() ==> is_alnum_char(#[trigger] p.state@[i])
    &&& p.timestamp >= 0
}

/// A fresh PKCE verifier: 32 random bytes, base64url-encoded without
/// padding.
pub fn generate_code_verifier() -> (v: String)
    ensures
        v@.len() == 43,
        forall|i: int| 0 <= i < v@.len() ==> is_b64url_char(#[trigger] v@[i]),
{
    let bytes = random_bytes(32);
    b64url_encode(&bytes)
}

/// The PKCE challenge derived from a verifier:
/// base64url(SHA-256(verifier)), unpadded.
pub open spec fn spec_challenge_of(verifier: Seq<char>) -> Seq<char> {
    b64url_of(sha256_of(vstd::utf8::encode_utf8(verifier)))
}

/// Derive the challenge sent in the authorization URL from the stored
/// verifier.
pub fn generate_code_challenge(verifier: &str) -> (c: String)
    ensures
        c@ == spec_challenge_of(verifier@),
        forall|i: int| 0 <= i < c@.len() ==> is_b64url_char(#[trigger] c@[i]),
{
    let digest = sha256(verifier.as_bytes());
    b64url_encode(&digest)
}

/// The alphanumeric character the byte `b` selects: its value modulo
/// 62 indexes `A`-`Z`, `a`-`z`, `0`-`9` in that order.
pub open spec fn spec_state_char(b: u8) -> char {
    if b % 62 < 26 {
        (65 + b % 62) as char
    } else if b % 62 < 52 {
        (97 + (b % 62 - 26)) as char
    } else {
        (48 + (b % 62 - 52)) as char
    }
}

fn state_char(b: u8) -> (c: char)
    ensures
        c == spec_state_char(b),
        is_alnum_char(c),
{
    let d = b % 62;
    let code: u8 = if d < 26 {
        65 + d
    } else if d < 52 {
        97 + (d - 26)
    } else {
        48 + (d - 52)
    };
    code as char
}

/// A fresh CSRF `state`: 32 random alphanumeric characters.
pub fn generate_state() -> (s: String)
    ensures
        s@.len() == 32,
        forall|i: int| 0 <= i < s@.len() ==> is_alnum_char(#[trigger] s@[i]),
{
    let mut s = String::new();
    let mut i: usize = 0;
    while i < 32
        invariant
            i <= 32,
            s@.len() == i,
            forall|j: int| 0 <= j < s@.len() ==> is_alnum_char(#[trigger] s@[j]),
        decreases 32 - i,
    {
        let c = state_char(crate::random::random_bytes(1)[0]);
        push_char(&mut s, c);
        i = i + 1;
    }
    s
}

impl PkceState {
    /// A fresh in-flight flow, stamped with the current time.
    pub fn new() -> (p: Self)
        ensures
            pkce_wf(p),
    {
        let code_verifier = generate_code_verifier();
        let state = generate_state();
        Self { code_verifier, state, timestamp: unix_now_secs() }
    }

    /// Whether this flow is older than `max_age_seconds` as of `now`.
    pub fn is_expired_at(&self, now: i64, max_age_seconds: i64) -> (r: bool)
        requires
            self.timestamp >= 0,
            now >= 0,
        ensures
            r == (now - self.timestamp > max_age_seconds),
    {
        now - self.timestamp > max_age_seconds
    }

    /// Whether this flow is older than `max_age_seconds` right now. The
    /// result depends on the wall clock; decisions inside the crate go
    /// through `is_expired_at` with an explicit reading instead.
    pub fn is_expired(&self, max_age_seconds: i64) -> bool
        requires
            self.timestamp >= 0,
    {
        let now = unix_now_secs();
        self.is_expired_at(now, max_age_seconds)
    }
}

/// The authorization URL the browser is sent to: every query value that
/// needs it is percent-encoded.
pub open spec fn spec_authorization_url(
    base: Seq<char>,
    state: Seq<char>,
    challenge: Seq<char>,
) -> Seq<char> {
    base + "/oauth/authorize?client_id="@ + CLIENT_ID@ + "&redirect_uri="@ + url_encoded(
        CALLBACK_URL@,
    ) + "&response_type=code&scope=profile&state="@ + url_encoded(state) + "&code_challenge="@
        + url_encoded(challenge) + "&code_challenge_method=S256"@
}

/// Assemble the authorization URL for `base` with the given state and
/// challenge.
pub fn build_authorization_url(base: &str, state: &str, challenge: &str) -> (url: String)
    ensures
        url@ == spec_authorization_url(base@, state@, challenge@),
{
    let mut url = base.to_owned();
    url.append("/oauth/authorize?client_id=");
    url.append(CLIENT_ID);
    url.append("&redirect_uri=");
    let enc_cb = url_encode(CALLBACK_URL);
    url.append(enc_cb.as_str());
    url.append("&response_type=code&scope=profile&state=");
    let enc_state = url_encode(state);
    url.append(enc_state.as_str());
    url.append("&code_challenge=");
    let enc_challenge = url_encode(challenge);
    url.append(enc_challenge.as_str());
    url.append("&code_challenge_method=S256");
    url
}

/// The exact form fields the token endpoint must be sent.
#[derive(Debug)]
pub struct TokenRequest {
    pub grant_type: String,
    pub code: String,
    pub client_id: String,
    pub redirect_uri: String,
    pub code_verifier: String,
}

/// What the remote token exchange (and best-effort profile fetch) came
/// back with. Produced outside this crate; committed by
/// `complete_authorization_finish`, which is verified for every value.
#[derive(Debug)]
pub enum ExchangeOutcome {
    /// The exchange succeeded. A missing profile is not fatal: the
    /// profile fetch is best-effort.
    Token { access_token: String, profile: Option<Vec<(String, String)>> },
    /// The token endpoint could not be reached.
    Transport { detail: String },
    /// The token endpoint answered with a non-success status.
    Http { status: u16, body: String },
    /// The response did not contain an access token.
    Malformed,
}

/// What the identity ("whoami") endpoint came back with when validating
/// a directly supplied token.
#[derive(Debug)]
pub enum WhoamiOutcome {
    /// The token was accepted; here is the profile.
    Profile { fields: Vec<(String, String)> },
    /// The endpoint could not be reached.
    Transport { detail: String },
    /// The endpoint refused the token.
    Http { status: u16, body: String },
    /// The response was not a JSON object.
    Malformed,
}

/// The token store: the current authentication state plus the single
/// in-flight PKCE slot. At most one authorization attempt is in flight;
/// beginning a new one overwrites the previous, so only the most recent
/// flow is ever honored.
#[derive(Debug)]
pub struct TokenStore {
    pub auth: AuthState,
    pub pkce: Option<PkceState>,
}

impl TokenStore {
    /// Consistency of the store: the credential invariant, and a
    /// well-formed in-flight flow if any.
    pub open spec fn wf(self) -> bool {
        &&& auth_wf(self.auth)
        &&& self.pkce matches Some(p) ==> pkce_wf(p)
    }

    /// The empty store a process starts with.
    pub fn new() -> (s: Self)
        ensures
            s.wf(),
            s.auth == spec_logged_out(),
            s.pkce is None,
    {
        TokenStore {
            auth: AuthState { is_authenticated: false, access_token: None, user_info: None },
            pkce: None,
        }
    }

    /// Adopt the authentication state loaded from durable storage. The
    /// flag is re-derived from the presence of a token, so a malformed
    /// saved record cannot break the credential invariant.
    pub fn restore_saved(&mut self, saved: Option<AuthState>)
        requires
            old(self).wf(),
        ensures
            final(self).wf(),
            final(self).pkce == old(self).pkce,
            saved matches Some(s) ==> (final(self).auth.is_authenticated == (s.access_token
                is Some) && final(self).auth.access_token == s.access_token
                && final(self).auth.user_info == s.user_info),
            saved is None ==> final(self).auth == old(self).auth,
    {
        match saved {
            Some(s) => {
                let authenticated = s.access_token.is_some();
                self.auth = AuthState {
                    is_authenticated: authenticated,
                    access_token: s.access_token,
                    user_info: s.user_info,
                };
            },
            None => {},
        }
    }

    /// Start a fresh authorization flow: draw a verifier/state pair,
    /// store it as the in-flight flow (overwriting any previous one) and
    /// return the authorization URL to open in the browser. Opening the
    /// browser is the caller's side effect; if it fails, the URL is
    /// still in hand for a fallback.
    pub fn begin_authorization(&mut self, api_base_url: &str) -> (url: String)
        requires
            old(self).wf(),
        ensures
            final(self).wf(),
            final(self).auth == old(self).auth,
            final(self).pkce matches Some(p) && url@ == spec_authorization_url(
                api_base_url@,
                p.state@,
                spec_challenge_of(p.code_verifier@),
            ),
    {
        let pkce = PkceState::new();
        let challenge = generate_code_challenge(pkce.code_verifier.as_str());
        let url = build_authorization_url(api_base_url, pkce.state.as_str(), challenge.as_str());
        self.pkce = Some(pkce);
        url
    }

    /// Validate an arriving callback against the in-flight flow, before
    /// any network call, and produce the token-endpoint request.
    ///
    /// Fails with `NoPendingFlow` when nothing is in flight, with
    /// `PkceExpired` when the flow is older than `PKCE_MAX_AGE_SECS`
    /// (consuming the dead flow), and with `StateMismatch` when the
    /// callback's state is not the stored one — the slot is kept then,
    /// since a mismatch is how a callback of an overwritten earlier flow
    /// presents itself. Only a returned `TokenRequest` carries the
    /// verifier, so no exchange can be attempted for a rejected
    /// callback.
    pub fn complete_authorization_start(
        &mut self,
        callback_code: &str,
        callback_state: &str,
        now: i64,
    ) -> (r: Result<TokenRequest, ClientError>)
        requires
            old(self).wf(),
            now >= 0,
        ensures
            final(self).wf(),
            final(self).auth == old(self).auth,
            old(self).pkce is None ==> (r matches Err(e) && e is NoPendingFlow
                && final(self).pkce is None),
            old(self).pkce matches Some(p) ==> (if now - p.timestamp > PKCE_MAX_AGE_SECS {
                r matches Err(e) && e is PkceExpired && final(self).pkce is None
            } else if callback_state@ != p.state@ {
                r matches Err(e) && e is StateMismatch && final(self).pkce == old(self).pkce
            } else {
                r matches Ok(req) && final(self).pkce == old(self).pkce
                    && req.grant_type@ == "authorization_code"@
                    && req.code@ == callback_code@
                    && req.client_id@ == CLIENT_ID@
                    && req.redirect_uri@ == CALLBACK_URL@
                    && req.code_verifier == p.code_verifier
            }),
    {
        match &self.pkce {
            None => Err(ClientError::NoPendingFlow),
            Some(p) => {
                if p.is_expired_at(now, PKCE_MAX_AGE_SECS) {
                    self.pkce = None;
                    Err(ClientError::PkceExpired)
                } else if !substr_eq(callback_state, p.state.as_str()) {
                    Err(ClientError::StateMismatch)
                } else {
                    Ok(TokenRequest {
                        grant_type: String::from_str("authorization_code"),
                        code: callback_code.to_owned(),
                        client_id: String::from_str(CLIENT_ID),
                        redirect_uri: String::from_str(CALLBACK_URL),
                        code_verifier: p.code_verifier.clone(),
                    })
                }
            },
        }
    }

    /// Commit the outcome of the token exchange.
    ///
    /// On success the auth state is populated (an absent profile becomes
    /// an empty one) and the in-flight flow is consumed in the same
    /// step, so a second callback with the same code finds no pending
    /// flow. On any failure nothing changes, so a later retry of the
    /// exchange is still possible while the flow lives.
    pub fn complete_authorization_finish(&mut self, outcome: ExchangeOutcome) -> (r: Result<
        AuthState,
        ClientError,
    >)
        requires
            old(self).wf(),
        ensures
            final(self).wf(),
            outcome matches ExchangeOutcome::Token { access_token: t, profile: pr } ==> (r
                matches Ok(a) && auth_states_alike(a, final(self).auth) && final(self).pkce
                is None && final(self).auth.is_authenticated && final(self).auth.access_token
                == Some(t) && (match pr {
                Some(fields) => final(self).auth.user_info == Some(fields),
                None => final(self).auth.user_info matches Some(ui) && ui@ == Seq::<(
                    String,
                    String,
                )>::empty(),
            })),
            !(outcome is Token) ==> *final(self) == *old(self),
            outcome matches ExchangeOutcome::Transport { detail } ==> (r matches Err(e) && e
                matches ClientError::TokenExchangeFailed(d) && d == detail),
            outcome matches ExchangeOutcome::Http { status, body } ==> (r matches Err(e) && e
                matches ClientError::TokenExchangeFailed(d) && d == body),
            outcome is Malformed ==> (r matches Err(e) && e is ResponseParseError),
    {
        match outcome {
            ExchangeOutcome::Token { access_token, profile } => {
                let user_info = match profile {
                    Some(fields) => fields,
                    None => Vec::new(),
                };
                self.auth = AuthState {
                    is_authenticated: true,
                    access_token: Some(access_token),
                    user_info: Some(user_info),
                };
                self.pkce = None;
                Ok(self.get_auth_state())
            },
            ExchangeOutcome::Transport { detail } => {
                Err(ClientError::TokenExchangeFailed(detail))
            },
            ExchangeOutcome::Http { status: _, body } => {
                Err(ClientError::TokenExchangeFailed(body))
            },
            ExchangeOutcome::Malformed => Err(ClientError::ResponseParseError),
        }
    }

    /// Commit the outcome of validating a directly supplied token
    /// against the identity endpoint. Success counts exactly as a
    /// completed exchange: auth state populated, in-flight flow
    /// consumed, atomically. A refusal is `InvalidToken`; transport
    /// trouble and malformed responses leave everything unchanged too.
    pub fn validate_opaque_token_finish(&mut self, token: String, outcome: WhoamiOutcome) -> (r:
        Result<AuthState, ClientError>)
        requires
            old(self).wf(),
        ensures
            final(self).wf(),
            outcome matches WhoamiOutcome::Profile { fields } ==> (r matches Ok(a)
                && auth_states_alike(a, final(self).auth) && final(self).pkce is None
                && final(self).auth.is_authenticated
                && final(self).auth.access_token == Some(token)
                && final(self).auth.user_info == Some(fields)),
            !(outcome is Profile) ==> *final(self) == *old(self),
            outcome matches WhoamiOutcome::Transport { detail } ==> (r matches Err(e) && e
                matches ClientError::RemoteUnavailable(d) && d == detail),
            outcome matches WhoamiOutcome::Http { .. } ==> (r matches Err(e) && e
                is InvalidToken),
            outcome is Malformed ==> (r matches Err(e) && e is ResponseParseError),
    {
        match outcome {
            WhoamiOutcome::Profile { fields } => {
                self.auth = AuthState {
                    is_authenticated: true,
                    access_token: Some(token),
                    user_info: Some(fields),
                };
                self.pkce = None;
                Ok(self.get_auth_state())
            },
            WhoamiOutcome::Transport { detail } => Err(ClientError::RemoteUnavailable(detail)),
            WhoamiOutcome::Http { status: _, body: _ } => Err(ClientError::InvalidToken),
            WhoamiOutcome::Malformed => Err(ClientError::ResponseParseError),
        }
    }

    /// Record a token handed over directly (a test hook in the original
    /// client): authenticated with that token and an empty profile.
    pub fn handle_auth_callback(&mut self, token: String)
        requires
            old(self).wf(),
        ensures
            final(self).wf(),
            final(self).auth.is_authenticated,
            final(self).auth.access_token == Some(token),
            final(self).auth.user_info matches Some(ui) && ui@ == Seq::<(String, String)>::empty(),
            final(self).pkce == old(self).pkce,
    {
        self.auth = AuthState {
            is_authenticated: true,
            access_token: Some(token),
            user_info: Some(Vec::new()),
        };
    }

    /// Log out: the in-memory state is cleared unconditionally. Durable
    /// storage and cached statistics are cleared by the persistence
    /// collaborator afterwards; whether that succeeds or fails has no
    /// bearing on this state, which is what the contract says.
    pub fn logout(&mut self)
        requires
            old(self).wf(),
        ensures
            final(self).wf(),
            final(self).auth == spec_logged_out(),
            final(self).pkce == old(self).pkce,
    {
        self.auth = AuthState { is_authenticated: false, access_token: None, user_info: None };
    }

    /// The bearer token to attach to an authenticated request, or
    /// `AuthenticationRequired` when logged out.
    pub fn bearer_token(&self) -> (r: Result<String, ClientError>)
        requires
            self.wf(),
        ensures
            self.auth.is_authenticated ==> (r matches Ok(t) && t@ == self.auth.access_token->0@),
            !self.auth.is_authenticated ==> (r matches Err(e) && e is AuthenticationRequired),
    {
        if !self.auth.is_authenticated {
            return Err(ClientError::AuthenticationRequired);
        }
        match &self.auth.access_token {
            Some(t) => Ok(t.clone()),
            None => Err(ClientError::AuthenticationRequired),
        }
    }

    /// A copy of the current authentication state, equal to it in every
    /// observable field.
    pub fn get_auth_state(&self) -> (r: AuthState)
        ensures
            auth_states_alike(r, self.auth),
    {
        AuthState {
            is_authenticated: self.auth.is_authenticated,
            access_token: clone_opt_string(&self.auth.access_token),
            user_info: match &self.auth.user_info {
                Some(ui) => Some(clone_profile(ui)),
                None => None,
            },
        }
    }
}

/// A copy of a profile, element for element equal to the original.
fn clone_profile(v: &Vec<(String, String)>) -> (r: Vec<(String, String)>)
    ensures
        r@ == v@,
{
    let mut r: Vec<(String, String)> = Vec::new();
    let mut i: usize = 0;
    while i < v.len()
        invariant
            i <= v.len(),
            r@ =~= v@.take(i as int),
        decreases v.len() - i,
    {
        let pair = (v[i].0.clone(), v[i].1.clone());
        r.push(pair);
        i = i + 1;
    }
    assert(r@ =~= v@);
    r
}

} // verus!
