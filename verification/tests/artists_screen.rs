use coldsonic::screen::artists::{
    artists_outcome, flatten_groups, Artist, CoverState, Msg, State, Task, COVER_PX,
};
use coldsonic::{Action, Screen};
use std::sync::Arc;

fn artist(id: &str, cover: Option<&str>) -> Artist {
    Artist {
        id: id.to_string(),
        name: format!("name of {id}"),
        cover_art: cover.map(|c| c.to_string()),
        album_count: Some(1),
    }
}

fn ids(artists: &[Artist]) -> Vec<String> {
    artists.iter().map(|a| a.id.clone()).collect()
}

fn listed() -> State<&'static str, u32> {
    let (mut state, _) = State::<&'static str, u32>::init(Arc::new("client"));
    state.update(Msg::ArtistsLoaded(vec![
        artist("a", Some("ca")),
        artist("b", None),
        artist("c", Some("cc")),
        artist("a", Some("ca2")),
    ]));
    state
}

#[test]
fn init_asks_for_the_artists() {
    let client = Arc::new("client");
    let (state, action) = State::<&'static str, u32>::init(client.clone());
    assert!(state.rows().is_empty());
    assert!(Arc::ptr_eq(state.client(), &client));
    assert!(matches!(action, Action::Task(Task::LoadArtists)));
}

#[test]
fn listing_builds_rows_and_fetches_covers() {
    let (mut state, _) = State::<&'static str, u32>::init(Arc::new("client"));
    let action = state.update(Msg::ArtistsLoaded(vec![
        artist("a", Some("ca")),
        artist("b", None),
        artist("c", Some("cc")),
    ]));
    let rows = state.rows();
    assert_eq!(rows.len(), 3);
    assert_eq!(rows.iter().map(|r| r.artist.id.as_str()).collect::<Vec<_>>(), ["a", "b", "c"]);
    assert!(matches!(rows[0].cover, CoverState::Loading));
    assert!(matches!(rows[1].cover, CoverState::NotLoaded));
    assert!(matches!(rows[2].cover, CoverState::Loading));
    match action {
        Action::Task(Task::FetchCovers(fetches)) => {
            assert_eq!(fetches.iter().map(|f| f.id.as_str()).collect::<Vec<_>>(), ["a", "c"]);
            assert!(fetches.iter().all(|f| f.size == COVER_PX));
            assert_eq!(COVER_PX, 96);
        },
        _ => panic!("expected cover fetches"),
    }
}

#[test]
fn listing_without_cover_art_asks_nothing() {
    let (mut state, _) = State::<&'static str, u32>::init(Arc::new("client"));
    let action = state.update(Msg::ArtistsLoaded(vec![artist("x", None), artist("y", None)]));
    assert!(matches!(action, Action::Nothing));
    assert_eq!(state.rows().len(), 2);
    let action = state.update(Msg::ArtistsLoaded(vec![]));
    assert!(matches!(action, Action::Nothing));
    assert!(state.rows().is_empty());
}

#[test]
fn a_new_listing_replaces_the_rows() {
    let mut state = listed();
    state.update(Msg::ArtistsLoaded(vec![artist("z", None)]));
    assert_eq!(state.rows().len(), 1);
    assert_eq!(state.rows()[0].artist.id, "z");
}

#[test]
fn cover_goes_to_the_first_row_with_the_id() {
    let mut state = listed();
    assert!(matches!(state.update(Msg::CoverLoaded("a".to_string(), Ok(7))), Action::Nothing));
    let rows = state.rows();
    assert!(matches!(rows[0].cover, CoverState::Loaded(7)));
    assert!(matches!(rows[3].cover, CoverState::Loading));
    assert!(matches!(rows[2].cover, CoverState::Loading));
    assert_eq!(rows[0].artist.cover_art.as_deref(), Some("ca"));
}

#[test]
fn failed_cover_marks_the_row() {
    let mut state = listed();
    state.update(Msg::CoverLoaded("c".to_string(), Err(())));
    assert!(matches!(state.rows()[2].cover, CoverState::Failed));
    assert!(matches!(state.rows()[0].cover, CoverState::Loading));
}

#[test]
fn cover_for_a_row_without_cover_art_still_lands() {
    let mut state = listed();
    state.update(Msg::CoverLoaded("b".to_string(), Ok(3)));
    assert!(matches!(state.rows()[1].cover, CoverState::Loaded(3)));
}

#[test]
fn unknown_cover_and_other_messages_change_nothing() {
    let mut state = listed();
    for msg in [
        Msg::CoverLoaded("nobody".to_string(), Ok(1)),
        Msg::ArtistsLoadFailed,
        Msg::ArtistClicked("a".to_string()),
        Msg::PlayShuffled("c".to_string()),
    ] {
        assert!(matches!(state.update(msg), Action::Nothing));
        assert_eq!(state.rows().len(), 4);
        assert!(matches!(state.rows()[0].cover, CoverState::Loading));
        assert!(matches!(state.rows()[1].cover, CoverState::NotLoaded));
    }
}

#[test]
fn flatten_keeps_group_order() {
    let groups = vec![
        vec![artist("a", None), artist("b", None)],
        vec![],
        vec![artist("c", None)],
    ];
    assert_eq!(ids(&flatten_groups(groups)), ["a", "b", "c"]);
    assert!(flatten_groups(vec![]).is_empty());
}

#[test]
fn artists_outcome_maps_the_reply() {
    match artists_outcome::<u32>(Some(vec![vec![artist("a", None)], vec![artist("b", None)]])) {
        Msg::ArtistsLoaded(artists) => assert_eq!(ids(&artists), ["a", "b"]),
        _ => panic!("expected the artists"),
    }
    assert!(matches!(artists_outcome::<u32>(None), Msg::ArtistsLoadFailed));
}

#[test]
fn find_row_gives_the_first_match() {
    let state = listed();
    assert_eq!(state.find_row(&"a".to_string()), Some(0));
    assert_eq!(state.find_row(&"c".to_string()), Some(2));
    assert_eq!(state.find_row(&"nobody".to_string()), None);
}
