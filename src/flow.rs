//! The authorization protocols as a state machine. The caller performs each
//! action (a token request, opening the browser and listening for the
//! redirect) and reports back what happened; the machine decides the rest.

use vstd::prelude::*;
use rand::Rng;
use crate::callback::{verdict, CallbackOutcome, CallbackServer, Page, PageView, RejectReason, Verdict};
use crate::decimal::decimal_u64;
use crate::form::{encode, form_encoded, lookup, PairView};
use crate::session::{
    installed_session, refreshed, script_session, AuthError, Grant, OAuth, RequestView, SessionView,
    TokenRequest, TokenResponse,
};

verus! {

/// Length of the random `state` of an installed-app attempt.
pub const STATE_LEN: usize = 16;

/// The credentials of one of the two supported app types.
pub enum OauthApp {
    /// A public app authorized through the user's browser.
    InstalledApp {
        id: String,
        /// Must equal the redirect URI registered for the app.
        redirect: String,
        /// Shown to the user when authorization succeeds.
        success_response: Option<Page>,
        /// Shown to the user when authorization fails.
        error_response: Option<Page>,
    },
    /// A confidential app acting for the account that owns it.
    Script { id: String, secret: String, username: String, password: String },
}

/// Credentials as plain values.
pub enum AppView {
    InstalledApp {
        id: Seq<char>,
        redirect: Seq<char>,
        success: Option<PageView>,
        error: Option<PageView>,
    },
    Script { id: Seq<char>, secret: Seq<char>, username: Seq<char>, password: Seq<char> },
}

pub open spec fn opt_page_view(p: Option<Page>) -> Option<PageView> {
    match p {
        Some(p) => Some(p@),
        None => None,
    }
}

impl View for OauthApp {
    type V = AppView;

    open spec fn view(&self) -> AppView {
        match self {
            OauthApp::InstalledApp { id, redirect, success_response, error_response } =>
                AppView::InstalledApp {
                id: id@,
                redirect: redirect@,
                success: opt_page_view(*success_response),
                error: opt_page_view(*error_response),
            },
            OauthApp::Script { id, secret, username, password } => AppView::Script {
                id: id@,
                secret: secret@,
                username: username@,
                password: password@,
            },
        }
    }
}

/// Where an authorization attempt stands.
pub enum AuthFlow {
    /// A script app's credentials have been sent.
    AwaitingScriptToken { id: String, secret: String, username: String, password: String },
    /// The browser was opened; the listener waits for the redirect.
    AwaitingCallback { id: String, redirect: String },
    /// The authorization code has been sent for exchange.
    AwaitingCodeToken { id: String, redirect: String },
    /// The attempt is over.
    Finished,
}

pub enum FlowView {
    AwaitingScriptToken { id: Seq<char>, secret: Seq<char>, username: Seq<char>, password: Seq<char> },
    AwaitingCallback { id: Seq<char>, redirect: Seq<char> },
    AwaitingCodeToken { id: Seq<char>, redirect: Seq<char> },
    Finished,
}

impl View for AuthFlow {
    type V = FlowView;

    open spec fn view(&self) -> FlowView {
        match self {
            AuthFlow::AwaitingScriptToken { id, secret, username, password } =>
                FlowView::AwaitingScriptToken {
                id: id@,
                secret: secret@,
                username: username@,
                password: password@,
            },
            AuthFlow::AwaitingCallback { id, redirect } => FlowView::AwaitingCallback {
                id: id@,
                redirect: redirect@,
            },
            AuthFlow::AwaitingCodeToken { id, redirect } => FlowView::AwaitingCodeToken {
                id: id@,
                redirect: redirect@,
            },
            AuthFlow::Finished => FlowView::Finished,
        }
    }
}

/// What the caller reports.
pub enum AuthEvent {
    /// The token endpoint answered, at `now` seconds on the caller's clock.
    TokenReceived { response: TokenResponse, now: u64 },
    /// The listener delivered its one outcome.
    CallbackDone(CallbackOutcome),
    /// The caller's own part failed: binding, the browser, the network, or
    /// the bounded wait for the redirect.
    Failed(AuthError),
}

pub enum EventView {
    TokenReceived { response: Seq<PairView>, now: u64 },
    CallbackDone(Verdict),
    Failed(AuthError),
}

impl View for AuthEvent {
    type V = EventView;

    open spec fn view(&self) -> EventView {
        match self {
            AuthEvent::TokenReceived { response, now } => EventView::TokenReceived {
                response: response@,
                now: *now,
            },
            AuthEvent::CallbackDone(o) => EventView::CallbackDone(o@),
            AuthEvent::Failed(e) => EventView::Failed(*e),
        }
    }
}

/// What the caller is asked to do next.
pub enum AuthAction {
    /// Send this request to the token endpoint over TLS.
    SendTokenRequest(TokenRequest),
    /// Open the system browser at `url` without waiting for it, run `server`
    /// on the registered loopback address until it yields its outcome, then
    /// release the address.
    OpenBrowser { url: String, server: CallbackServer },
    /// Nothing to do: the report did not fit the attempt's stage.
    Wait,
    /// The attempt ended with this result.
    Finish(Result<OAuth, AuthError>),
}

/// A listener as plain values.
pub struct ServerView {
    pub state: Seq<char>,
    pub success: Option<PageView>,
    pub error: Option<PageView>,
    pub listening: bool,
}

pub enum ActionView {
    SendTokenRequest(RequestView),
    OpenBrowser { url: Seq<char>, server: ServerView },
    Wait,
    Finish(Result<SessionView, AuthError>),
}

impl View for AuthAction {
    type V = ActionView;

    open spec fn view(&self) -> ActionView {
        match self {
            AuthAction::SendTokenRequest(r) => ActionView::SendTokenRequest(r@),
            AuthAction::OpenBrowser { url, server } => ActionView::OpenBrowser {
                url: url@,
                server: ServerView {
                    state: server.expected_state(),
                    success: server.success_view(),
                    error: server.error_view(),
                    listening: server.is_open(),
                },
            },
            AuthAction::Wait => ActionView::Wait,
            AuthAction::Finish(Ok(s)) => ActionView::Finish(Ok(s@)),
            AuthAction::Finish(Err(e)) => ActionView::Finish(Err(*e)),
        }
    }
}

/// The scopes every installed-app attempt asks for.
pub open spec fn scopes() -> Seq<char> {
    "identity,edit,flair,history,modconfig,modflair,modlog,modposts,modwiki,mysubreddits,privatemessages,read,report,save,submit,subscribe,vote,wikiedit,wikiread,account"@
}

/// The authorization page an installed app sends the user to.
pub open spec fn authorize_url(id: Seq<char>, state: Seq<char>, redirect: Seq<char>) -> Seq<
    char,
> {
    "https://www.reddit.com/api/v1/authorize?client_id="@ + form_encoded(id)
        + "&response_type=code&state="@ + form_encoded(state) + "&redirect_uri="@
        + form_encoded(redirect) + "&duration=permanent&scope="@ + scopes()
}

/// A `state` fit for one attempt: sixteen random letters and digits.
pub open spec fn state_shape(s: Seq<char>) -> bool {
    s.len() == STATE_LEN && forall|i: int|
        0 <= i < s.len() ==> (('A' <= #[trigger] s[i] && s[i] <= 'Z') || ('a' <= s[i] && s[i]
            <= 'z') || ('0' <= s[i] && s[i] <= '9'))
}

/// How an attempt starts, given the credentials and the `state` drawn for it.
pub open spec fn start(app: AppView, state: Seq<char>) -> (FlowView, ActionView) {
    match app {
        AppView::Script { id, secret, username, password } => (
            FlowView::AwaitingScriptToken { id, secret, username, password },
            ActionView::SendTokenRequest(
                RequestView {
                    client_id: id,
                    client_secret: secret,
                    params: seq![
                        ("grant_type"@, "password"@),
                        ("username"@, username),
                        ("password"@, password),
                    ],
                },
            ),
        ),
        AppView::InstalledApp { id, redirect, success, error } => (
            FlowView::AwaitingCallback { id, redirect },
            ActionView::OpenBrowser {
                url: authorize_url(id, state, redirect),
                server: ServerView { state, success, error, listening: true },
            },
        ),
    }
}

/// The error an attempt fails with for a refused redirect.
pub open spec fn rejection_error(v: Verdict) -> AuthError {
    match v {
        Verdict::RemoteError(_) => AuthError::RemoteRejected,
        Verdict::MissingCode => AuthError::MissingCode,
        _ => AuthError::StateMismatch,
    }
}

/// The next stage and action after a report.
pub open spec fn step(f: FlowView, e: EventView) -> (FlowView, ActionView) {
    match (f, e) {
        (FlowView::Finished, _) => (f, ActionView::Wait),
        (_, EventView::Failed(err)) => (FlowView::Finished, ActionView::Finish(Err(err))),
        (
            FlowView::AwaitingScriptToken { id, secret, username, password },
            EventView::TokenReceived { response, .. },
        ) => (
            FlowView::Finished,
            ActionView::Finish(script_session(id, secret, username, password, response)),
        ),
        (FlowView::AwaitingCallback { id, redirect }, EventView::CallbackDone(v)) => match v {
            Verdict::Accepted(code) => (
                FlowView::AwaitingCodeToken { id, redirect },
                ActionView::SendTokenRequest(
                    RequestView {
                        client_id: id,
                        client_secret: Seq::empty(),
                        params: seq![
                            ("grant_type"@, "authorization_code"@),
                            ("code"@, code),
                            ("redirect_uri"@, redirect),
                        ],
                    },
                ),
            ),
            _ => (FlowView::Finished, ActionView::Finish(Err(rejection_error(v)))),
        },
        (FlowView::AwaitingCodeToken { id, redirect }, EventView::TokenReceived { response, now }) =>
            (FlowView::Finished, ActionView::Finish(installed_session(id, redirect, response, now))),
        _ => (f, ActionView::Wait),
    }
}

/// Relies on rand's `thread_rng().gen_ascii_chars()`: each character it
/// yields is drawn from `A`-`Z`, `a`-`z` and `0`-`9`; sixteen are taken.
#[verifier::external_body]
fn random_state() -> (r: String)
    ensures
        state_shape(r@),
{
    rand::thread_rng().gen_ascii_chars().take(STATE_LEN).collect::<String>()
}

/// The authorization page for an installed app.
pub fn build_authorize_url(id: &str, state: &str, redirect: &str) -> (r: String)
    ensures
        r@ == authorize_url(id@, state@, redirect@),
{
    let mut url = String::from_str("https://www.reddit.com/api/v1/authorize?client_id=");
    url.append(encode(id).as_str());
    url.append("&response_type=code&state=");
    url.append(encode(state).as_str());
    url.append("&redirect_uri=");
    url.append(encode(redirect).as_str());
    url.append("&duration=permanent&scope=");
    url.append(
        "identity,edit,flair,history,modconfig,modflair,modlog,modposts,modwiki,mysubreddits,privatemessages,read,report,save,submit,subscribe,vote,wikiedit,wikiread,account",
    );
    url
}

impl AuthFlow {
    /// Starts an attempt with a given `state` for the installed-app
    /// redirect.
    pub fn begin_with_state(app: OauthApp, state: String) -> (r: (AuthFlow, AuthAction))
        ensures
            (r.0@, r.1@) == start(app@, state@),
    {
        match app {
            OauthApp::Script { id, secret, username, password } => {
                let request = TokenRequest {
                    client_id: id.clone(),
                    client_secret: secret.clone(),
                    grant: Grant::Password { username: username.clone(), password: password.clone() },
                };
                (
                    AuthFlow::AwaitingScriptToken { id, secret, username, password },
                    AuthAction::SendTokenRequest(request),
                )
            },
            OauthApp::InstalledApp { id, redirect, success_response, error_response } => {
                let url = build_authorize_url(id.as_str(), state.as_str(), redirect.as_str());
                let server = CallbackServer::new(state, success_response, error_response);
                (AuthFlow::AwaitingCallback { id, redirect }, AuthAction::OpenBrowser { url, server })
            },
        }
    }

    /// Takes the caller's report and says what comes next. Once finished,
    /// the attempt stays finished.
    pub fn advance(self, event: AuthEvent) -> (r: (AuthFlow, AuthAction))
        ensures
            (r.0@, r.1@) == step(self@, event@),
    {
        match (self, event) {
            (AuthFlow::Finished, _) => (AuthFlow::Finished, AuthAction::Wait),
            (_, AuthEvent::Failed(err)) => (AuthFlow::Finished, AuthAction::Finish(Err(err))),
            (
                AuthFlow::AwaitingScriptToken { id, secret, username, password },
                AuthEvent::TokenReceived { response, .. },
            ) => (
                AuthFlow::Finished,
                AuthAction::Finish(
                    OAuth::from_script_response(id, secret, username, password, &response),
                ),
            ),
            (AuthFlow::AwaitingCallback { id, redirect }, AuthEvent::CallbackDone(outcome)) =>
                match outcome {
                CallbackOutcome::Succeeded(code) => {
                    let request = TokenRequest {
                        client_id: id.clone(),
                        client_secret: String::new(),
                        grant: Grant::AuthorizationCode { code, redirect_uri: redirect.clone() },
                    };
                    (AuthFlow::AwaitingCodeToken { id, redirect }, AuthAction::SendTokenRequest(request))
                },
                CallbackOutcome::Rejected(reason) => {
                    let err = match reason {
                        RejectReason::RemoteError(_) => AuthError::RemoteRejected,
                        RejectReason::MissingCode => AuthError::MissingCode,
                        _ => AuthError::StateMismatch,
                    };
                    (AuthFlow::Finished, AuthAction::Finish(Err(err)))
                },
            },
            (AuthFlow::AwaitingCodeToken { id, redirect }, AuthEvent::TokenReceived { response, now }) =>
                (
                AuthFlow::Finished,
                AuthAction::Finish(OAuth::from_installed_response(id, redirect, &response, now)),
            ),
            (flow, _) => (flow, AuthAction::Wait),
        }
    }
}

impl OAuth {
    /// Starts authorizing with the given credentials, drawing a fresh random
    /// `state` for an installed app. The caller then performs each action
    /// and reports back through `AuthFlow::advance`.
    pub fn new(app: OauthApp) -> (r: (AuthFlow, AuthAction))
        ensures
            exists|state: Seq<char>| state_shape(state) && (r.0@, r.1@) == start(app@, state),
    {
        let state = random_state();
        let ghost s = state@;
        let ghost a = app@;
        let r = AuthFlow::begin_with_state(app, state);
        assert(state_shape(s) && (r.0@, r.1@) == start(a, s));
        r
    }
}

/// A script attempt whose token answer carries a non-empty `access_token`
/// finishes with a script session holding exactly that token.
pub proof fn lemma_script_yields_token(
    app: AppView,
    state: Seq<char>,
    response: Seq<PairView>,
    now: u64,
    token: Seq<char>,
)
    requires
        app is Script,
        lookup(response, "access_token"@) == Some(token),
        token.len() > 0,
    ensures
        ({
            let (f, a) = step(start(app, state).0, EventView::TokenReceived { response, now });
            &&& f is Finished
            &&& a matches ActionView::Finish(Ok(SessionView::Script { token: t, .. }))
            &&& t == token
        }),
{
}

/// A script attempt whose token answer has no `access_token` fails with
/// `MissingToken`.
pub proof fn lemma_script_missing_token(
    app: AppView,
    state: Seq<char>,
    response: Seq<PairView>,
    now: u64,
)
    requires
        app is Script,
        lookup(response, "access_token"@) is None,
    ensures
        step(start(app, state).0, EventView::TokenReceived { response, now }) == (
            FlowView::Finished,
            ActionView::Finish(Err(AuthError::MissingToken)),
        ),
{
}

/// A redirect without `error` whose `state` is not the attempt's own is
/// refused as a mismatch, whatever `code` it carries, and the attempt then
/// fails with `StateMismatch`.
pub proof fn lemma_state_mismatch_rejected(
    app: AppView,
    state: Seq<char>,
    query: Seq<PairView>,
    other: Seq<char>,
)
    requires
        app is InstalledApp,
        lookup(query, "error"@) is None,
        lookup(query, "state"@) == Some(other),
        other != state,
    ensures
        ({
            let (f, a) = start(app, state);
            let v = verdict(query, a->server.state);
            &&& v == Verdict::StateMismatch
            &&& step(f, EventView::CallbackDone(v)) == (
                FlowView::Finished,
                ActionView::Finish(Err(AuthError::StateMismatch)),
            )
        }),
{
}

/// A redirect with an `error` parameter is refused as a remote error
/// whatever the attempt's `state` and the redirect's own `state` are, and
/// the attempt then fails with `RemoteRejected`.
pub proof fn lemma_remote_error_first(
    query: Seq<PairView>,
    state: Seq<char>,
    id: Seq<char>,
    redirect: Seq<char>,
    error: Seq<char>,
)
    requires
        lookup(query, "error"@) == Some(error),
    ensures
        verdict(query, state) == Verdict::RemoteError(error),
        forall|other: Seq<char>| #[trigger] verdict(query, other) == verdict(query, state),
        step(
            FlowView::AwaitingCallback { id, redirect },
            EventView::CallbackDone(verdict(query, state)),
        ) == (FlowView::Finished, ActionView::Finish(Err::<SessionView, AuthError>(AuthError::RemoteRejected))),
{
}

/// An installed-app attempt that succeeds, its code exchanged by an answer
/// received at `now` with `expires_in` seconds, ends with a session that
/// expires exactly `expires_in` seconds after `now`, and so strictly after
/// `now` where `expires_in` is positive; it keeps the answer's refresh token.
pub proof fn lemma_installed_expiry(
    app: AppView,
    state: Seq<char>,
    code: Seq<char>,
    response: Seq<PairView>,
    now: u64,
)
    requires
        app is InstalledApp,
    ensures
        ({
            let f1 = start(app, state).0;
            let f2 = step(f1, EventView::CallbackDone(Verdict::Accepted(code))).0;
            let a = step(f2, EventView::TokenReceived { response, now }).1;
            a matches ActionView::Finish(Ok(SessionView::InstalledApp { refresh_token, expire_instant, .. }))
                ==> {
                &&& lookup(response, "expires_in"@) is Some
                &&& decimal_u64(lookup(response, "expires_in"@)->0) is Some
                &&& expire_instant == Some(
                    (now + decimal_u64(lookup(response, "expires_in"@)->0)->0) as u64,
                )
                &&& (decimal_u64(lookup(response, "expires_in"@)->0)->0 > 0 ==> expire_instant->0
                    > now)
                &&& refresh_token == lookup(response, "refresh_token"@)
            }
        }),
{
}

/// Every session an attempt finishes with is live: it has a non-empty token
/// and an expiry only together with a refresh token.
pub proof fn lemma_finished_sessions_wf(f: FlowView, e: EventView)
    ensures
        step(f, e).1 matches ActionView::Finish(Ok(s)) ==> s.wf(),
{
}

/// A refresh keeps a live session live.
pub proof fn lemma_refresh_keeps_wf(s: SessionView, response: Seq<PairView>, now: u64)
    requires
        s.wf(),
    ensures
        refreshed(s, response, now).0.wf(),
{
}

} // verus!
