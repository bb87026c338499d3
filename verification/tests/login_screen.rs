use coldsonic::config::Credentials;
use coldsonic::screen::login::{login_outcome, login_task, Msg, State};
use coldsonic::{Action, Screen};

fn creds() -> Credentials {
    Credentials {
        url: "https://music.example".to_string(),
        username: "alice".to_string(),
        password: "SECRET-REDACTED".to_string(),
    }
}

#[test]
fn init_without_credentials_is_empty_and_idle() {
    let (state, action) = State::<u32>::init(None);
    assert_eq!(state.url_field(), "");
    assert_eq!(state.user_field(), "");
    assert_eq!(state.password_field(), "");
    assert!(!state.logging_in());
    assert!(matches!(action, Action::Nothing));
}

#[test]
fn init_with_credentials_logs_in_at_once() {
    let (state, action) = State::<u32>::init(Some(creds()));
    assert_eq!(state.url_field(), "https://music.example");
    assert_eq!(state.user_field(), "alice");
    assert_eq!(state.password_field(), "SECRET-REDACTED");
    assert!(state.logging_in());
    match action {
        Action::Task(t) => {
            assert_eq!(t.url, "https://music.example");
            assert_eq!(t.username, "alice");
            assert_eq!(t.password, "SECRET-REDACTED");
        },
        _ => panic!("expected a login task"),
    }
}

#[test]
fn edits_change_their_field_only() {
    let (mut state, _) = State::<u32>::init(None);
    assert!(matches!(state.update(Msg::<u32>::UrlEdit("http://h".to_string())), Action::Nothing));
    assert!(matches!(state.update(Msg::<u32>::UserEdit("bob".to_string())), Action::Nothing));
    assert!(matches!(state.update(Msg::<u32>::PasswordEdit("pw".to_string())), Action::Nothing));
    assert_eq!(state.url_field(), "http://h");
    assert_eq!(state.user_field(), "bob");
    assert_eq!(state.password_field(), "pw");
    assert!(!state.logging_in());
    state.update(Msg::<u32>::UserEdit("carol".to_string()));
    assert_eq!(state.url_field(), "http://h");
    assert_eq!(state.user_field(), "carol");
}

#[test]
fn attempt_sends_the_fields_and_failure_allows_retry() {
    let (mut state, _) = State::<u32>::init(None);
    state.update(Msg::<u32>::UrlEdit("http://h".to_string()));
    state.update(Msg::<u32>::UserEdit("bob".to_string()));
    state.update(Msg::<u32>::PasswordEdit("pw".to_string()));
    match state.update(Msg::<u32>::AttemptLogin) {
        Action::Task(t) => {
            assert_eq!((t.url.as_str(), t.username.as_str(), t.password.as_str()), ("http://h", "bob", "pw"));
        },
        _ => panic!("expected a login task"),
    }
    assert!(state.logging_in());
    assert!(matches!(state.update(Msg::<u32>::LoginFailed), Action::Nothing));
    assert!(!state.logging_in());
    assert_eq!(state.user_field(), "bob");
    match state.update(Msg::<u32>::AttemptLogin) {
        Action::Task(t) => assert_eq!(t.username, "bob"),
        _ => panic!("expected a login task"),
    }
}

#[test]
fn success_hands_the_client_up() {
    let (mut state, _) = State::<u32>::init(Some(creds()));
    assert!(matches!(state.update(Msg::LoginSucessful(77u32)), Action::Emit(77)));
    assert!(state.logging_in());
    assert_eq!(state.user_field(), "alice");
}

#[test]
fn login_task_carries_its_values() {
    match login_task::<u8>("u".to_string(), "n".to_string(), "p".to_string()) {
        Action::Task(t) => assert_eq!((t.url, t.username, t.password), ("u".to_string(), "n".to_string(), "p".to_string())),
        _ => panic!("expected a login task"),
    }
}

#[test]
fn login_outcome_needs_client_and_ping() {
    assert!(matches!(login_outcome(Some(5u8), true), Msg::LoginSucessful(5)));
    assert!(matches!(login_outcome(Some(5u8), false), Msg::LoginFailed));
    assert!(matches!(login_outcome::<u8>(None, true), Msg::LoginFailed));
    assert!(matches!(login_outcome::<u8>(None, false), Msg::LoginFailed));
}
