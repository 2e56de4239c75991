use orca_auth::flow::{build_authorize_url, AuthAction, AuthEvent, AuthFlow, OauthApp};
use orca_auth::session::{AuthError, Grant, OAuth, TokenResponse};
use orca_auth::callback::CallbackOutcome;

fn response(fields: &[(&str, &str)]) -> TokenResponse {
    TokenResponse {
        fields: fields.iter().map(|(k, v)| (k.to_string(), v.to_string())).collect(),
    }
}

fn script_app() -> OauthApp {
    OauthApp::Script {
        id: "id".to_string(),
        secret: "sec".to_string(),
        username: "user".to_string(),
        password: "pw d".to_string(),
    }
}

fn installed_app() -> OauthApp {
    OauthApp::InstalledApp {
        id: "app".to_string(),
        redirect: "http://127.0.0.1:7878".to_string(),
        success_response: None,
        error_response: None,
    }
}

#[test]
fn script_flow_yields_token() {
    let (flow, action) = OAuth::new(script_app());
    let request = match action {
        AuthAction::SendTokenRequest(r) => r,
        _ => panic!("expected a token request"),
    };
    assert_eq!(request.client_id, "id");
    assert_eq!(request.client_secret, "sec");
    assert_eq!(request.body(), "grant_type=password&username=user&password=pw+d");
    let (flow, action) = flow.advance(AuthEvent::TokenReceived {
        response: response(&[("access_token", "T"), ("token_type", "bearer")]),
        now: 5,
    });
    assert!(matches!(flow, AuthFlow::Finished));
    match action {
        AuthAction::Finish(Ok(session)) => {
            assert!(session.is_script());
            assert_eq!(session.token(), "T");
        }
        _ => panic!("expected a session"),
    }
}

#[test]
fn script_flow_missing_token() {
    let (flow, _) = OAuth::new(script_app());
    let (_, action) = flow.advance(AuthEvent::TokenReceived {
        response: response(&[("error", "invalid_grant")]),
        now: 0,
    });
    assert!(matches!(action, AuthAction::Finish(Err(AuthError::MissingToken))));
    let r = OAuth::from_script_response(
        "i".to_string(), "s".to_string(), "u".to_string(), "p".to_string(),
        &response(&[("access_token", "")]),
    );
    assert!(matches!(r, Err(AuthError::MissingToken)));
}

#[test]
fn installed_flow_round_trip() {
    let (flow, action) = AuthFlow::begin_with_state(installed_app(), "abcdef0123456789".to_string());
    let mut server = match action {
        AuthAction::OpenBrowser { url, server } => {
            assert_eq!(
                url,
                build_authorize_url("app", "abcdef0123456789", "http://127.0.0.1:7878")
            );
            server
        }
        _ => panic!("expected the browser step"),
    };
    let (_, outcome) = server.handle("state=abcdef0123456789&code=XYZ").unwrap();
    let (flow, action) = flow.advance(AuthEvent::CallbackDone(outcome));
    let request = match action {
        AuthAction::SendTokenRequest(r) => r,
        _ => panic!("expected the code exchange"),
    };
    assert_eq!(request.client_id, "app");
    assert_eq!(request.client_secret, "");
    assert!(matches!(request.grant, Grant::AuthorizationCode { ref code, .. } if code == "XYZ"));
    assert_eq!(
        request.body(),
        "grant_type=authorization_code&code=XYZ&redirect_uri=http%3A%2F%2F127.0.0.1%3A7878"
    );
    let t0: u64 = 1_000_000;
    let (flow, action) = flow.advance(AuthEvent::TokenReceived {
        response: response(&[("expires_in", "3600"), ("access_token", "T"), ("refresh_token", "R"), ("scope", "read")]),
        now: t0,
    });
    assert!(matches!(flow, AuthFlow::Finished));
    match action {
        AuthAction::Finish(Ok(OAuth::InstalledApp { token, refresh_token, expire_instant, .. })) => {
            assert_eq!(token, "T");
            assert_eq!(refresh_token, Some("R".to_string()));
            assert_eq!(expire_instant, Some(t0 + 3600));
            assert!(expire_instant.unwrap() > t0);
        }
        _ => panic!("expected a session"),
    }
}

#[test]
fn token_answer_sets_expiry() {
    let t0: u64 = 42;
    let r = OAuth::from_installed_response(
        "app".to_string(),
        "http://127.0.0.1:7878".to_string(),
        &response(&[("expires_in", "3600"), ("access_token", "T"), ("refresh_token", "R"), ("scope", "read")]),
        t0,
    );
    match r {
        Ok(OAuth::InstalledApp { expire_instant, refresh_token, .. }) => {
            assert_eq!(expire_instant, Some(t0 + 3600));
            assert_eq!(refresh_token, Some("R".to_string()));
        }
        _ => panic!("expected a session"),
    }
}

#[test]
fn incomplete_token_answers() {
    let cases: Vec<Vec<(&str, &str)>> = vec![
        vec![("access_token", "T"), ("refresh_token", "R"), ("scope", "read")],
        vec![("expires_in", "3600"), ("refresh_token", "R"), ("scope", "read")],
        vec![("expires_in", "3600"), ("access_token", "T"), ("scope", "read")],
        vec![("expires_in", "3600"), ("access_token", "T"), ("refresh_token", "R")],
        vec![("expires_in", "soon"), ("access_token", "T"), ("refresh_token", "R"), ("scope", "read")],
    ];
    for c in cases {
        let r = OAuth::from_installed_response("a".to_string(), "r".to_string(), &response(&c), 0);
        assert!(matches!(r, Err(AuthError::IncompleteTokenResponse)));
    }
    let r = OAuth::from_installed_response(
        "a".to_string(), "r".to_string(),
        &response(&[("expires_in", "10"), ("access_token", "T"), ("refresh_token", "R"), ("scope", "read")]),
        u64::MAX,
    );
    assert!(matches!(r, Err(AuthError::IncompleteTokenResponse)));
}

#[test]
fn state_mismatch_fails_attempt() {
    let (flow, action) = AuthFlow::begin_with_state(installed_app(), "abcdef0123456789".to_string());
    let mut server = match action {
        AuthAction::OpenBrowser { server, .. } => server,
        _ => panic!("expected the browser step"),
    };
    let (_, outcome) = server.handle("state=wrong&code=XYZ").unwrap();
    let (flow, action) = flow.advance(AuthEvent::CallbackDone(outcome));
    assert!(matches!(flow, AuthFlow::Finished));
    assert!(matches!(action, AuthAction::Finish(Err(AuthError::StateMismatch))));
}

#[test]
fn rejections_map_to_errors() {
    let (flow, _) = AuthFlow::begin_with_state(installed_app(), "s".to_string());
    let (_, action) = flow.advance(AuthEvent::CallbackDone(CallbackOutcome::Rejected(
        orca_auth::callback::RejectReason::RemoteError("access_denied".to_string()),
    )));
    assert!(matches!(action, AuthAction::Finish(Err(AuthError::RemoteRejected))));
    let (flow, _) = AuthFlow::begin_with_state(installed_app(), "s".to_string());
    let (_, action) = flow.advance(AuthEvent::CallbackDone(CallbackOutcome::Rejected(
        orca_auth::callback::RejectReason::MissingCode,
    )));
    assert!(matches!(action, AuthAction::Finish(Err(AuthError::MissingCode))));
    let (flow, _) = AuthFlow::begin_with_state(installed_app(), "s".to_string());
    let (flow, action) = flow.advance(AuthEvent::Failed(AuthError::BindFailed));
    assert!(matches!(action, AuthAction::Finish(Err(AuthError::BindFailed))));
    let (_, action) = flow.advance(AuthEvent::Failed(AuthError::Timeout));
    assert!(matches!(action, AuthAction::Wait));
}

#[test]
fn unexpected_report_waits() {
    let (flow, _) = AuthFlow::begin_with_state(installed_app(), "s".to_string());
    let (flow, action) = flow.advance(AuthEvent::TokenReceived { response: response(&[]), now: 0 });
    assert!(matches!(action, AuthAction::Wait));
    assert!(matches!(flow, AuthFlow::AwaitingCallback { .. }));
}

#[test]
fn fresh_state_has_sixteen_alphanumerics() {
    let (_, a1) = OAuth::new(installed_app());
    let (_, a2) = OAuth::new(installed_app());
    let u1 = match a1 { AuthAction::OpenBrowser { url, .. } => url, _ => panic!() };
    let u2 = match a2 { AuthAction::OpenBrowser { url, .. } => url, _ => panic!() };
    let state_of = |u: &str| -> String {
        let i = u.find("&state=").unwrap() + 7;
        u[i..].split('&').next().unwrap().to_string()
    };
    let s1 = state_of(&u1);
    assert_eq!(s1.len(), 16);
    assert!(s1.chars().all(|c| c.is_ascii_alphanumeric()));
    assert_ne!(s1, state_of(&u2));
}

#[test]
fn authorize_url_is_exact() {
    let url = build_authorize_url("my id", "abc", "http://127.0.0.1:7878");
    assert_eq!(
        url,
        "https://www.reddit.com/api/v1/authorize?client_id=my+id&response_type=code&state=abc\
         &redirect_uri=http%3A%2F%2F127.0.0.1%3A7878&duration=permanent&scope=identity,edit,flair,\
         history,modconfig,modflair,modlog,modposts,modwiki,mysubreddits,privatemessages,read,\
         report,save,submit,subscribe,vote,wikiedit,wikiread,account"
    );
}

#[test]
fn script_refresh_is_idempotent() {
    let mut s = OAuth::Script {
        id: "i".to_string(), secret: "s".to_string(), username: "u".to_string(),
        password: "p".to_string(), token: "T".to_string(),
    };
    assert!(s.refresh_request().is_none());
    for n in 0..5u64 {
        assert_eq!(s.refresh(&response(&[("access_token", "other"), ("expires_in", "1")]), n), Ok(()));
        assert_eq!(s.token(), "T");
    }
}

#[test]
fn installed_refresh_replaces_token() {
    let mut s = OAuth::InstalledApp {
        id: "app".to_string(), redirect: "r".to_string(), token: "old".to_string(),
        refresh_token: Some("R".to_string()), expire_instant: Some(10),
    };
    let req = s.refresh_request().unwrap();
    assert_eq!(req.body(), "grant_type=refresh_token&refresh_token=R");
    assert_eq!(req.client_secret, "");
    assert_eq!(s.refresh(&response(&[("access_token", "")]), 100), Err(AuthError::MissingToken));
    assert_eq!(s.token(), "old");
    assert_eq!(s.refresh(&response(&[("access_token", "new")]), 100), Err(AuthError::IncompleteTokenResponse));
    assert_eq!(s.refresh(&response(&[("access_token", "new"), ("expires_in", "60")]), 100), Ok(()));
    match s {
        OAuth::InstalledApp { token, refresh_token, expire_instant, .. } => {
            assert_eq!(token, "new");
            assert_eq!(refresh_token, Some("R".to_string()));
            assert_eq!(expire_instant, Some(160));
        }
        _ => panic!(),
    }
    let mut t = OAuth::InstalledApp {
        id: "app".to_string(), redirect: "r".to_string(), token: "tmp".to_string(),
        refresh_token: None, expire_instant: None,
    };
    assert!(t.refresh_request().is_none());
    assert_eq!(t.refresh(&response(&[("access_token", "new"), ("expires_in", "60")]), 0), Err(AuthError::NoRefreshToken));
    assert_eq!(t.token(), "tmp");
}
