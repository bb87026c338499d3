use coldsonic::config::Credentials;
use coldsonic::root::{self, State as Root};
use coldsonic::screen::artists::{self, Artist, CoverState};
use coldsonic::screen::login;
use coldsonic::screen::{MainScreen, Msg, SubScreen, Task};
use coldsonic::{Action, Screen};
use std::sync::Arc;

fn artist(id: &str, cover: Option<&str>) -> Artist {
    Artist { id: id.to_string(), name: id.to_uppercase(), cover_art: cover.map(|c| c.to_string()), album_count: None }
}

#[test]
fn main_screen_starts_on_artists_sharing_the_client() {
    let (screen, action) = MainScreen::<String, u32>::init("client".to_string());
    assert_eq!(screen.client().as_str(), "client");
    assert!(screen.now_playing().is_none());
    match screen.current_screen() {
        SubScreen::Artists(a) => {
            assert!(a.rows().is_empty());
            assert!(Arc::ptr_eq(a.client(), screen.client()));
        },
    }
    assert!(matches!(action, Action::Task(Task::Artists(artists::Task::LoadArtists))));
}

#[test]
fn main_screen_routes_artist_messages() {
    let (mut screen, _) = MainScreen::<String, u32>::init("client".to_string());
    let action = screen.update(Msg::ArtistsScreenMsg(artists::Msg::ArtistsLoaded(vec![
        artist("a", Some("x")),
        artist("b", None),
    ])));
    match action {
        Action::Task(Task::Artists(artists::Task::FetchCovers(f))) => {
            assert_eq!(f.len(), 1);
            assert_eq!(f[0].id, "a");
        },
        _ => panic!("expected cover fetches"),
    }
    let action = screen.update(Msg::ArtistsScreenMsg(artists::Msg::CoverLoaded("a".to_string(), Ok(9))));
    assert!(matches!(action, Action::Nothing));
    match screen.current_screen() {
        SubScreen::Artists(a) => assert!(matches!(a.rows()[0].cover, CoverState::Loaded(9))),
    }
}

#[test]
fn root_starts_on_login() {
    let (state, task) = Root::<u8, u32>::init(None);
    assert!(matches!(state, Root::Login(_)));
    assert!(task.is_none());
    let (state, task) = Root::<u8, u32>::init(Some(Credentials {
        url: "http://s".to_string(),
        username: "u".to_string(),
        password: "p".to_string(),
    }));
    match state {
        Root::Login(l) => assert!(l.logging_in()),
        _ => panic!("expected the login screen"),
    }
    match task {
        Some(root::Task::Login(t)) => assert_eq!(t.url, "http://s"),
        _ => panic!("expected a login task"),
    }
}

#[test]
fn root_login_success_opens_the_main_screen() {
    let (mut state, _) = Root::<u8, u32>::init(None);
    let task = state.update(root::Msg::ScreenLogin(login::Msg::LoginSucessful(42)));
    assert!(matches!(state, Root::Login(_)));
    let next = match task {
        Some(root::Task::Done(msg)) => msg,
        _ => panic!("expected the message to deliver"),
    };
    assert!(matches!(next, root::Msg::LoggedIn(42)));
    let task = state.update(next);
    match &state {
        Root::Main(m) => assert_eq!(**m.client(), 42),
        _ => panic!("expected the main screen"),
    }
    assert!(matches!(task, Some(root::Task::Main(Task::Artists(artists::Task::LoadArtists)))));
}

#[test]
fn root_routes_login_work_and_drops_stray_messages() {
    let (mut state, _) = Root::<u8, u32>::init(None);
    assert!(state.update(root::Msg::ScreenLogin(login::Msg::UserEdit("bob".to_string()))).is_none());
    assert!(matches!(
        state.update(root::Msg::ScreenLogin(login::Msg::AttemptLogin)),
        Some(root::Task::Login(_))
    ));
    assert!(state.update(root::Msg::ScreenMain(Msg::ArtistsScreenMsg(artists::Msg::ArtistsLoadFailed))).is_none());
    assert!(state.update(root::Msg::FontLoaded(Ok(()))).is_none());
    match &state {
        Root::Login(l) => assert_eq!(l.user_field(), "bob"),
        _ => panic!("expected the login screen"),
    }
    state.update(root::Msg::LoggedIn(1));
    assert!(state.update(root::Msg::ScreenLogin(login::Msg::LoginFailed)).is_none());
    assert!(state.update(root::Msg::FontLoaded(Err(()))).is_none());
    assert!(matches!(state, Root::Main(_)));
    let task = state.update(root::Msg::ScreenMain(Msg::ArtistsScreenMsg(artists::Msg::ArtistsLoaded(vec![
        artist("q", Some("c")),
    ]))));
    assert!(matches!(task, Some(root::Task::Main(Task::Artists(artists::Task::FetchCovers(_))))));
}
