use todo_client::api::{ApiRequest, Method, Payload, Reply};
use todo_client::components::header::{is_logged_in, logout, Claims, Header};
use todo_client::router::Route;
use todo_client::screens::login::{LoginResponse, LoginScreen};
use todo_client::screens::register::RegisterScreen;
use todo_client::session::{Session, StorageRead};

fn origin() -> String {
    "http://127.0.0.1:8080".to_string()
}

fn login_with(user: &str, pass: &str) -> (LoginScreen, Option<ApiRequest>) {
    let mut s = LoginScreen::new(origin());
    s.form.set_username(user.to_string());
    s.form.set_password(pass.to_string());
    let r = s.submit();
    (s, r)
}

#[test]
fn login_success_stores_token_and_goes_to_todo() {
    let (mut s, r) = login_with("alice", "pw1");
    let req = r.expect("request");
    assert_eq!(req.method, Method::Post);
    assert_eq!(req.url, "http://127.0.0.1:8080/api/v1/login");
    assert_eq!(req.authorization, None);
    match &req.body {
        Payload::Login(c) => {
            assert_eq!(c.username, "alice");
            assert_eq!(c.password, "pw1");
        }
        other => panic!("unexpected body {:?}", other),
    }
    assert!(s.form.loading);
    let mut session = Session::new();
    let next = s.on_reply(&mut session, Reply::Answered(200, Some(LoginResponse { token: "abc".to_string() })));
    assert_eq!(session.get_token(), Some("abc".to_string()));
    assert!(session.is_authenticated());
    assert_eq!(next, Some(Route::Todo));
    assert_eq!(s.form.success.as_deref(), Some("Login successful!"));
    assert_eq!(s.form.error, None);
    assert!(!s.form.loading);
}

#[test]
fn login_unauthorized_keeps_session() {
    let (mut s, _) = login_with("alice", "wrong");
    let mut session = Session::new();
    session.set_token("old".to_string());
    let next = s.on_reply(&mut session, Reply::Answered(401, None));
    assert_eq!(s.form.error.as_deref(), Some("Username or password is incorrect"));
    assert_eq!(s.form.success, None);
    assert_eq!(session.get_token(), Some("old".to_string()));
    assert_eq!(next, None);
    assert!(!s.form.loading);
}

#[test]
fn login_other_status_network_decode_and_build_messages() {
    let mut session = Session::new();
    let (mut s, _) = login_with("a", "b");
    s.on_reply(&mut session, Reply::Answered(500, None));
    assert_eq!(s.form.error.as_deref(), Some("Login failed, status: 500"));
    s.on_reply(&mut session, Reply::Unreachable);
    assert_eq!(s.form.error.as_deref(), Some("Cannot connect to server"));
    s.on_reply(&mut session, Reply::Answered(200, None));
    assert_eq!(s.form.error.as_deref(), Some("Cannot parse data from server"));
    s.on_reply(&mut session, Reply::Unbuilt);
    assert_eq!(s.form.error.as_deref(), Some("Error creating request"));
    assert!(!session.is_authenticated());
}

#[test]
fn login_blank_fields_send_nothing() {
    let (s, r) = login_with("   ", "pw1");
    assert!(r.is_none());
    assert_eq!(s.form.error.as_deref(), Some("Username and password must not be empty"));
    assert!(!s.form.loading);
    let (_, r) = login_with("alice", " \t ");
    assert!(r.is_none());
    let (_, r) = login_with("", "");
    assert!(r.is_none());
}

#[test]
fn login_sends_trimmed_credentials() {
    let (s, r) = login_with("  alice  ", "\tpw1 ");
    match r.expect("request").body {
        Payload::Login(c) => {
            assert_eq!(c.username, "alice");
            assert_eq!(c.password, "pw1");
        }
        other => panic!("unexpected body {:?}", other),
    }
    assert_eq!(s.form.username, "  alice  ");
}

#[test]
fn can_submit_follows_fields_and_loading() {
    let mut s = LoginScreen::new(origin());
    assert!(!s.form.can_submit());
    s.form.set_username("bob".to_string());
    assert!(!s.form.can_submit());
    s.form.set_password(" x ".to_string());
    assert!(s.form.can_submit());
    s.submit();
    assert!(!s.form.can_submit());
}

#[test]
fn typing_dismisses_error() {
    let (mut s, _) = login_with("", "");
    assert!(s.form.error.is_some());
    s.form.set_username("a".to_string());
    assert_eq!(s.form.error, None);
}

#[test]
fn register_success_goes_to_login_without_token() {
    let mut s = RegisterScreen::new(origin());
    s.form.set_username(" carol ".to_string());
    s.form.set_password("pw".to_string());
    let req = s.submit().expect("request");
    assert_eq!(req.url, "http://127.0.0.1:8080/api/v1/register");
    assert_eq!(req.method, Method::Post);
    match &req.body {
        Payload::Register(c) => assert_eq!(c.username, "carol"),
        other => panic!("unexpected body {:?}", other),
    }
    let next = s.on_reply(Reply::Answered(201, Some(())));
    assert_eq!(next, Some(Route::Login));
    assert_eq!(s.form.success.as_deref(), Some("Registration successful!"));
    assert_eq!(s.form.error, None);
}

#[test]
fn register_failures() {
    let mut s = RegisterScreen::new(origin());
    assert!(s.submit().is_none());
    assert_eq!(s.form.error.as_deref(), Some("Username and password must not be empty"));
    assert_eq!(s.on_reply(Reply::Answered(409, None)), None);
    assert_eq!(s.form.error.as_deref(), Some("Registration failed, status: 409"));
    assert_eq!(s.form.success, None);
    s.on_reply(Reply::Unreachable);
    assert_eq!(s.form.error.as_deref(), Some("Cannot connect to server"));
    s.on_reply(Reply::Unbuilt);
    assert_eq!(s.form.error.as_deref(), Some("Failed to build the request"));
}

#[test]
fn session_set_get_clear() {
    let mut s = Session::new();
    assert!(!s.is_authenticated());
    assert_eq!(s.get_token(), None);
    s.set_token("t1".to_string());
    s.set_token("t2".to_string());
    assert_eq!(s.get_token(), Some("t2".to_string()));
    assert!(s.is_authenticated());
    s.clear_token();
    assert!(!s.is_authenticated());
}

#[test]
fn storage_failures_count_as_no_token() {
    assert!(!Session::from_storage(StorageRead::Unavailable).is_authenticated());
    assert!(!Session::from_storage(StorageRead::Failed).is_authenticated());
    assert!(!Session::from_storage(StorageRead::Absent).is_authenticated());
    let s = Session::from_storage(StorageRead::Present("tok".to_string()));
    assert_eq!(s.get_token(), Some("tok".to_string()));
    assert!(is_logged_in(&StorageRead::Present("x".to_string())));
    assert!(!is_logged_in(&StorageRead::Failed));
}

#[test]
fn logout_after_login_unauthenticates() {
    let (mut s, _) = login_with("alice", "pw1");
    let mut session = Session::new();
    s.on_reply(&mut session, Reply::Answered(200, Some(LoginResponse { token: "abc".to_string() })));
    assert!(session.is_authenticated());
    logout(&mut session);
    assert!(!session.is_authenticated());
}

#[test]
fn header_label_and_click() {
    let mut session = Session::new();
    session.set_token("tok".to_string());
    let mut h = Header::mount(&session);
    assert!(h.logged_in);
    let claims = Some(Claims { sub: Some("alice".to_string()) });
    assert_eq!(h.label(&claims), "alice");
    assert_eq!(h.label(&None), "Login");
    assert_eq!(h.label(&Some(Claims { sub: None })), "Login");
    assert_eq!(h.on_click(&mut session), None);
    assert!(!session.is_authenticated());
    assert_eq!(h.label(&claims), "Login");
    assert_eq!(h.on_click(&mut session), Some(Route::Login));
}

#[test]
fn blank_resubmission_clears_earlier_success() {
    let (mut s, _) = login_with("alice", "pw1");
    let mut session = Session::new();
    s.on_reply(&mut session, Reply::Answered(200, Some(LoginResponse { token: "abc".to_string() })));
    assert!(s.form.success.is_some());
    s.form.set_password("  ".to_string());
    assert!(s.submit().is_none());
    assert_eq!(s.form.success, None);
    assert_eq!(s.form.error.as_deref(), Some("Username and password must not be empty"));
}
