//! The authorized session: token requests and responses, the session's
//! token state, and its refresh.

use vstd::prelude::*;
use crate::decimal::{decimal_u64, parse_decimal};
use crate::form::{find_param, form_body, form_body_of, lookup, pairs_view, PairView};

verus! {

/// The token endpoint. Requests to it travel over TLS only.
pub const TOKEN_URL: &'static str = "https://ssl.reddit.com/api/v1/access_token/.json";

/// Why an authorization attempt or a refresh failed.
#[derive(Debug, Clone, Copy, PartialEq, Eq, Structural)]
pub enum AuthError {
    /// The loopback redirect address could not be bound.
    BindFailed,
    /// The system browser could not be started.
    BrowserLaunchFailed,
    /// The user denied consent, or the redirect carried an `error`.
    RemoteRejected,
    /// The redirect's `state` was absent or not the one this attempt generated.
    StateMismatch,
    /// The redirect matched but carried no authorization code.
    MissingCode,
    /// The token endpoint answered without a usable `access_token`.
    MissingToken,
    /// The code exchange or refresh answer lacked a field or held a bad one.
    IncompleteTokenResponse,
    /// The connection failed to carry a request.
    NetworkError,
    /// No redirect arrived within the allowed wait.
    Timeout,
    /// The session holds no refresh token.
    NoRefreshToken,
}

/// The grant of a token request, with its companion fields.
pub enum Grant {
    Password { username: String, password: String },
    AuthorizationCode { code: String, redirect_uri: String },
    RefreshToken { refresh_token: String },
}

/// A form-encoded `POST` to the token endpoint with HTTP Basic credentials.
pub struct TokenRequest {
    pub client_id: String,
    /// The Basic password: the app secret, or empty for an installed app.
    pub client_secret: String,
    pub grant: Grant,
}

/// A token request as plain values.
pub struct RequestView {
    pub client_id: Seq<char>,
    pub client_secret: Seq<char>,
    pub params: Seq<PairView>,
}

/// The form fields of a grant, in order.
pub open spec fn grant_params(g: Grant) -> Seq<PairView> {
    match g {
        Grant::Password { username, password } => seq![
            ("grant_type"@, "password"@),
            ("username"@, username@),
            ("password"@, password@),
        ],
        Grant::AuthorizationCode { code, redirect_uri } => seq![
            ("grant_type"@, "authorization_code"@),
            ("code"@, code@),
            ("redirect_uri"@, redirect_uri@),
        ],
        Grant::RefreshToken { refresh_token } => seq![
            ("grant_type"@, "refresh_token"@),
            ("refresh_token"@, refresh_token@),
        ],
    }
}

impl View for TokenRequest {
    type V = RequestView;

    open spec fn view(&self) -> RequestView {
        RequestView {
            client_id: self.client_id@,
            client_secret: self.client_secret@,
            params: grant_params(self.grant),
        }
    }
}

fn pair(name: &str, value: &String) -> (r: (String, String))
    ensures
        r.0@ == name@,
        r.1@ == value@,
{
    (String::from_str(name), value.clone())
}

impl TokenRequest {
    /// The form fields of the request, in order.
    pub fn params(&self) -> (r: Vec<(String, String)>)
        ensures
            pairs_view(r@) == self@.params,
    {
        let mut v: Vec<(String, String)> = Vec::new();
        match &self.grant {
            Grant::Password { username, password } => {
                v.push((String::from_str("grant_type"), String::from_str("password")));
                v.push(pair("username", username));
                v.push(pair("password", password));
            },
            Grant::AuthorizationCode { code, redirect_uri } => {
                v.push((String::from_str("grant_type"), String::from_str("authorization_code")));
                v.push(pair("code", code));
                v.push(pair("redirect_uri", redirect_uri));
            },
            Grant::RefreshToken { refresh_token } => {
                v.push((String::from_str("grant_type"), String::from_str("refresh_token")));
                v.push(pair("refresh_token", refresh_token));
            },
        }
        assert(pairs_view(v@) =~= self@.params);
        v
    }

    /// The form-encoded request body.
    pub fn body(&self) -> (r: String)
        ensures
            r@ == form_body_of(self@.params),
    {
        let params = self.params();
        form_body(&params)
    }
}

/// The token endpoint's answer, as the fields it named with their text.
pub struct TokenResponse {
    pub fields: Vec<(String, String)>,
}

impl View for TokenResponse {
    type V = Seq<PairView>;

    open spec fn view(&self) -> Seq<PairView> {
        pairs_view(self.fields@)
    }
}

impl TokenResponse {
    /// The text of a field, if the answer has it.
    pub fn get(&self, key: &str) -> (r: Option<String>)
        ensures
            crate::form::opt_view(r) == lookup(self@, key@),
    {
        find_param(&self.fields, key)
    }
}

/// The token state of an authorized session.
pub enum OAuth {
    /// A script app: its token is not tracked as expiring.
    Script {
        id: String,
        secret: String,
        username: String,
        password: String,
        token: String,
    },
    /// An installed app, whose token is replaced in place on refresh.
    InstalledApp {
        id: String,
        redirect: String,
        token: String,
        /// Absent when only a temporary grant was given.
        refresh_token: Option<String>,
        /// When the token expires, in seconds on the caller's clock.
        expire_instant: Option<u64>,
    },
}

/// A session as plain values.
pub enum SessionView {
    Script {
        id: Seq<char>,
        secret: Seq<char>,
        username: Seq<char>,
        password: Seq<char>,
        token: Seq<char>,
    },
    InstalledApp {
        id: Seq<char>,
        redirect: Seq<char>,
        token: Seq<char>,
        refresh_token: Option<Seq<char>>,
        expire_instant: Option<u64>,
    },
}

impl View for OAuth {
    type V = SessionView;

    open spec fn view(&self) -> SessionView {
        match self {
            OAuth::Script { id, secret, username, password, token } => SessionView::Script {
                id: id@,
                secret: secret@,
                username: username@,
                password: password@,
                token: token@,
            },
            OAuth::InstalledApp { id, redirect, token, refresh_token, expire_instant } =>
                SessionView::InstalledApp {
                id: id@,
                redirect: redirect@,
                token: token@,
                refresh_token: crate::form::opt_view(*refresh_token),
                expire_instant: *expire_instant,
            },
        }
    }
}

impl SessionView {
    /// A live session: it holds a non-empty token, and an expiry only
    /// together with a refresh token.
    pub open spec fn wf(self) -> bool {
        match self {
            SessionView::Script { token, .. } => token.len() > 0,
            SessionView::InstalledApp { token, refresh_token, expire_instant, .. } => token.len()
                > 0 && (expire_instant is Some ==> refresh_token is Some),
        }
    }

    pub open spec fn token(self) -> Seq<char> {
        match self {
            SessionView::Script { token, .. } => token,
            SessionView::InstalledApp { token, .. } => token,
        }
    }
}

/// The instant `expires_in` seconds after `now`, where `expires_in` is a
/// decimal and the sum fits in 64 bits.
pub open spec fn expiry_after(now: u64, expires_in: Seq<char>) -> Option<u64> {
    match decimal_u64(expires_in) {
        Some(e) => if now + e <= u64::MAX {
            Some((now + e) as u64)
        } else {
            None
        },
        None => None,
    }
}

/// The session a script app gets from a token answer.
pub open spec fn script_session(
    id: Seq<char>,
    secret: Seq<char>,
    username: Seq<char>,
    password: Seq<char>,
    resp: Seq<PairView>,
) -> Result<SessionView, AuthError> {
    match lookup(resp, "access_token"@) {
        Some(t) => if t.len() > 0 {
            Ok(SessionView::Script { id, secret, username, password, token: t })
        } else {
            Err(AuthError::MissingToken)
        },
        None => Err(AuthError::MissingToken),
    }
}

/// The session an installed app gets from the answer to its code exchange,
/// received at `now`: `expires_in`, `access_token`, `refresh_token` and
/// `scope` must all be there.
pub open spec fn installed_session(
    id: Seq<char>,
    redirect: Seq<char>,
    resp: Seq<PairView>,
    now: u64,
) -> Result<SessionView, AuthError> {
    match (
        lookup(resp, "expires_in"@),
        lookup(resp, "access_token"@),
        lookup(resp, "refresh_token"@),
        lookup(resp, "scope"@),
    ) {
        (Some(e), Some(t), Some(rt), Some(_)) => match expiry_after(now, e) {
            Some(at) => if t.len() > 0 {
                Ok(
                    SessionView::InstalledApp {
                        id,
                        redirect,
                        token: t,
                        refresh_token: Some(rt),
                        expire_instant: Some(at),
                    },
                )
            } else {
                Err(AuthError::IncompleteTokenResponse)
            },
            None => Err(AuthError::IncompleteTokenResponse),
        },
        _ => Err(AuthError::IncompleteTokenResponse),
    }
}

/// What a refresh with the answer `resp`, received at `now`, makes of a
/// session, and what it reports.
pub open spec fn refreshed(s: SessionView, resp: Seq<PairView>, now: u64) -> (
    SessionView,
    Result<(), AuthError>,
) {
    match s {
        SessionView::Script { .. } => (s, Ok(())),
        SessionView::InstalledApp { id, redirect, token, refresh_token, expire_instant } =>
            match refresh_token {
            None => (s, Err(AuthError::NoRefreshToken)),
            Some(old_rt) => match lookup(resp, "access_token"@) {
                Some(t) => if t.len() == 0 {
                    (s, Err(AuthError::MissingToken))
                } else {
                    match lookup(resp, "expires_in"@) {
                        Some(e) => match expiry_after(now, e) {
                            Some(at) => (
                                SessionView::InstalledApp {
                                    id,
                                    redirect,
                                    token: t,
                                    refresh_token: match lookup(resp, "refresh_token"@) {
                                        Some(nrt) => Some(nrt),
                                        None => Some(old_rt),
                                    },
                                    expire_instant: Some(at),
                                },
                                Ok(()),
                            ),
                            None => (s, Err(AuthError::IncompleteTokenResponse)),
                        },
                        None => (s, Err(AuthError::IncompleteTokenResponse)),
                    }
                },
                None => (s, Err(AuthError::MissingToken)),
            },
        },
    }
}

/// `now + expires_in` seconds, where the text is a decimal and the sum fits.
pub fn expiry(now: u64, expires_in: &String) -> (r: Option<u64>)
    ensures
        r == expiry_after(now, expires_in@),
{
    match parse_decimal(expires_in.as_str()) {
        Some(e) => now.checked_add(e),
        None => None,
    }
}

impl OAuth {
    /// The session of a script app from its token answer.
    pub fn from_script_response(
        id: String,
        secret: String,
        username: String,
        password: String,
        resp: &TokenResponse,
    ) -> (r: Result<OAuth, AuthError>)
        ensures
            match r {
                Ok(s) => script_session(id@, secret@, username@, password@, resp@) == Ok::<
                    SessionView,
                    AuthError,
                >(s@),
                Err(e) => script_session(id@, secret@, username@, password@, resp@) == Err::<
                    SessionView,
                    AuthError,
                >(e),
            },
    {
        match resp.get("access_token") {
            Some(token) => if token.unicode_len() > 0 {
                Ok(OAuth::Script { id, secret, username, password, token })
            } else {
                Err(AuthError::MissingToken)
            },
            None => Err(AuthError::MissingToken),
        }
    }

    /// The session of an installed app from the answer to its code
    /// exchange, received at `now` seconds.
    pub fn from_installed_response(id: String, redirect: String, resp: &TokenResponse, now: u64) -> (r:
        Result<OAuth, AuthError>)
        ensures
            match r {
                Ok(s) => installed_session(id@, redirect@, resp@, now) == Ok::<
                    SessionView,
                    AuthError,
                >(s@),
                Err(e) => installed_session(id@, redirect@, resp@, now) == Err::<
                    SessionView,
                    AuthError,
                >(e),
            },
    {
        let expires_in = resp.get("expires_in");
        let token = resp.get("access_token");
        let refresh_token = resp.get("refresh_token");
        let scope = resp.get("scope");
        match (expires_in, token, refresh_token, scope) {
            (Some(e), Some(t), Some(rt), Some(_)) => match expiry(now, &e) {
                Some(at) => if t.unicode_len() > 0 {
                    Ok(
                        OAuth::InstalledApp {
                            id,
                            redirect,
                            token: t,
                            refresh_token: Some(rt),
                            expire_instant: Some(at),
                        },
                    )
                } else {
                    Err(AuthError::IncompleteTokenResponse)
                },
                None => Err(AuthError::IncompleteTokenResponse),
            },
            _ => Err(AuthError::IncompleteTokenResponse),
        }
    }

    /// The current access token.
    pub fn token(&self) -> (r: &String)
        ensures
            r@ == self@.token(),
    {
        match self {
            OAuth::Script { token, .. } => token,
            OAuth::InstalledApp { token, .. } => token,
        }
    }

    /// Whether this is a script session.
    pub fn is_script(&self) -> (r: bool)
        ensures
            r == (self@ is Script),
    {
        match self {
            OAuth::Script { .. } => true,
            OAuth::InstalledApp { .. } => false,
        }
    }

    /// The request that exchanges this session's refresh token, if a
    /// refresh has anything to exchange: a script session needs none, and
    /// an installed session without a refresh token cannot make one.
    pub fn refresh_request(&self) -> (r: Option<TokenRequest>)
        ensures
            match self@ {
                SessionView::InstalledApp { id, refresh_token: Some(rt), .. } => r is Some && r->0@
                    == (RequestView {
                    client_id: id,
                    client_secret: Seq::empty(),
                    params: seq![("grant_type"@, "refresh_token"@), ("refresh_token"@, rt)],
                }),
                _ => r is None,
            },
    {
        match self {
            OAuth::InstalledApp { id, refresh_token: Some(rt), .. } => Some(
                TokenRequest {
                    client_id: id.clone(),
                    client_secret: String::new(),
                    grant: Grant::RefreshToken { refresh_token: rt.clone() },
                },
            ),
            _ => None,
        }
    }

    /// Applies the answer to a refresh exchange, received at `now` seconds.
    /// A script session is left as it is and the call succeeds. An
    /// installed session takes the new token, its new expiry and, where the
    /// answer names one, a new refresh token; on any error it is unchanged.
    pub fn refresh(&mut self, resp: &TokenResponse, now: u64) -> (r: Result<(), AuthError>)
        ensures
            (final(self)@, r) == refreshed(old(self)@, resp@, now),
    {
        match self {
            OAuth::Script { .. } => Ok(()),
            OAuth::InstalledApp { token, refresh_token, expire_instant, .. } => {
                if refresh_token.is_none() {
                    return Err(AuthError::NoRefreshToken);
                }
                let t = match resp.get("access_token") {
                    Some(t) => t,
                    None => {
                        return Err(AuthError::MissingToken);
                    },
                };
                if t.unicode_len() == 0 {
                    return Err(AuthError::MissingToken);
                }
                let at = match resp.get("expires_in") {
                    Some(e) => match expiry(now, &e) {
                        Some(at) => at,
                        None => {
                            return Err(AuthError::IncompleteTokenResponse);
                        },
                    },
                    None => {
                        return Err(AuthError::IncompleteTokenResponse);
                    },
                };
                match resp.get("refresh_token") {
                    Some(nrt) => {
                        *refresh_token = Some(nrt);
                    },
                    None => {},
                }
                *token = t;
                *expire_instant = Some(at);
                Ok(())
            },
        }
    }
}

/// The session after a run of refreshes, one for each answer and arrival
/// time in `calls`, in order.
pub open spec fn refresh_all(s: SessionView, calls: Seq<(Seq<PairView>, u64)>) -> SessionView
    decreases calls.len(),
{
    if calls.len() == 0 {
        s
    } else {
        refreshed(refresh_all(s, calls.drop_last()), calls.last().0, calls.last().1).0
    }
}

/// Refreshing a script session, any number of times and with any answers,
/// leaves it as it was, token included, and every refresh succeeds.
pub proof fn lemma_script_refresh_idempotent(s: SessionView, calls: Seq<(Seq<PairView>, u64)>)
    requires
        s is Script,
    ensures
        refresh_all(s, calls) == s,
        forall|i: int|
            0 <= i < calls.len() ==> (#[trigger] refreshed(refresh_all(s, calls.take(i)), calls[i].0, calls[i].1)).1 is Ok,
    decreases calls.len(),
{
    if calls.len() > 0 {
        lemma_script_refresh_idempotent(s, calls.drop_last());
        assert forall|i: int| 0 <= i < calls.len() implies (#[trigger] refreshed(
            refresh_all(s, calls.take(i)),
            calls[i].0,
            calls[i].1,
        )).1 is Ok by {
            if i < calls.len() - 1 {
                assert(calls.take(i) =~= calls.drop_last().take(i));
                assert(calls[i] == calls.drop_last()[i]);
            }
            lemma_script_refresh_idempotent(s, calls.take(i));
        }
    }
}

} // verus!
