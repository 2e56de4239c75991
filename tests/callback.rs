use orca_auth::callback::{CallbackOutcome, CallbackServer, Page, RejectReason};

fn server() -> CallbackServer {
    CallbackServer::new("abcdef0123456789".to_string(), None, None)
}

#[test]
fn matching_state_yields_code() {
    let mut s = server();
    let (page, outcome) = s.handle("state=abcdef0123456789&code=XYZ").unwrap();
    assert!(matches!(outcome, CallbackOutcome::Succeeded(ref c) if c == "XYZ"));
    assert_eq!(page.status, 200);
    assert_eq!(page.body, b"Authorization successful!".to_vec());
    assert!(!s.is_listening());
}

#[test]
fn wrong_state_is_mismatch() {
    let mut s = server();
    let (page, outcome) = s.handle("state=wrong&code=XYZ").unwrap();
    assert!(matches!(outcome, CallbackOutcome::Rejected(RejectReason::StateMismatch)));
    assert_eq!(page.body, b"Authorization failed".to_vec());
}

#[test]
fn remote_error_comes_first() {
    let mut s = server();
    let (_, outcome) = s.handle("error=access_denied").unwrap();
    assert!(matches!(outcome,
        CallbackOutcome::Rejected(RejectReason::RemoteError(ref e)) if e == "access_denied"));
    let mut s = server();
    let (_, outcome) = s.handle("state=abcdef0123456789&code=XYZ&error=access_denied").unwrap();
    assert!(matches!(outcome, CallbackOutcome::Rejected(RejectReason::RemoteError(_))));
}

#[test]
fn missing_state_and_missing_code() {
    let mut s = server();
    let (page, outcome) = s.handle("code=XYZ").unwrap();
    assert!(matches!(outcome, CallbackOutcome::Rejected(RejectReason::MissingState)));
    assert_eq!(page.body, b"Authorization failed".to_vec());
    let mut s = server();
    let (_, outcome) = s.handle("state=abcdef0123456789").unwrap();
    assert!(matches!(outcome, CallbackOutcome::Rejected(RejectReason::MissingCode)));
}

#[test]
fn serves_only_one_redirect() {
    let mut s = server();
    assert!(s.is_listening());
    assert!(s.handle("state=wrong").is_some());
    assert!(s.handle("state=abcdef0123456789&code=XYZ").is_none());
    assert!(!s.is_listening());
}

#[test]
fn query_is_decoded() {
    let mut s = CallbackServer::new("a b".to_string(), None, None);
    let (_, outcome) = s.handle("state=a+b&code=X%2BY").unwrap();
    assert!(matches!(outcome, CallbackOutcome::Succeeded(ref c) if c == "X+Y"));
}

#[test]
fn configured_pages_are_served() {
    let ok = Page { status: 200, headers: vec![("Content-Type".to_string(), "text/html".to_string())], body: b"<p>yes</p>".to_vec() };
    let bad = Page { status: 403, headers: vec![], body: b"<p>no</p>".to_vec() };
    let mut s = CallbackServer::new("st".to_string(), Some(ok), Some(bad));
    let (page, _) = s.handle("state=st&code=c").unwrap();
    assert_eq!(page.body, b"<p>yes</p>".to_vec());
    assert_eq!(page.headers, vec![("Content-Type".to_string(), "text/html".to_string())]);
    let ok = Page::text("fine");
    let bad = Page { status: 403, headers: vec![], body: b"<p>no</p>".to_vec() };
    let mut s = CallbackServer::new("st".to_string(), Some(ok), Some(bad));
    let (page, _) = s.handle("state=other&code=c").unwrap();
    assert_eq!(page.status, 403);
    assert_eq!(page.body, b"<p>no</p>".to_vec());
}

#[test]
fn page_duplicate_is_equal() {
    let p = Page { status: 201, headers: vec![("A".to_string(), "b".to_string())], body: vec![1, 2, 3] };
    let q = p.duplicate();
    assert_eq!(q.status, 201);
    assert_eq!(q.headers, p.headers);
    assert_eq!(q.body, p.body);
}
