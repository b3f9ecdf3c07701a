use neubauten::action::Action;
use neubauten::session::{Effect, PlaybackTrack, SessionState};
use neubauten::view::NeubautenView;

fn three_playlists() -> SessionState<&'static str, &'static str> {
    SessionState::new(vec!["first", "second", "third"], 10, 20)
}

#[test]
fn drill_down_queue_and_play_next() {
    let mut state = three_playlists();
    assert_eq!(state.apply(Action::MoveDown), Effect::Nothing);
    assert_eq!(state.apply(Action::Select), Effect::OpenContainer("second"));
    state.enter_container("second", vec!["track one", "track two"]);
    assert_eq!(state.depth(), 2);

    assert_eq!(state.apply(Action::QueueTrack), Effect::Nothing);
    assert_eq!(state.queue_len(), 1);

    assert_eq!(state.apply(Action::PlayNextTrack), Effect::Play("track one"));
    assert_eq!(state.queue_len(), 0);
    assert_eq!(
        state.current_track(),
        Some(&PlaybackTrack { container: "second", track: "track one", index: 0 })
    );

    assert_eq!(state.apply(Action::PlayNextTrack), Effect::FetchTrack("second", 1));
    assert_eq!(state.next_track_fetched("second", 1, Some("track two")), Effect::Play("track two"));
    assert_eq!(
        state.current_track(),
        Some(&PlaybackTrack { container: "second", track: "track two", index: 1 })
    );

    assert_eq!(state.apply(Action::PlayNextTrack), Effect::FetchTrack("second", 2));
    assert_eq!(state.next_track_fetched("second", 2, None), Effect::Nothing);
    assert_eq!(state.current_track(), None);
    assert_eq!(state.apply(Action::PlayNextTrack), Effect::Nothing);
}

#[test]
fn back_on_the_bottom_view_keeps_it() {
    let mut state = three_playlists();
    assert_eq!(state.apply(Action::Back), Effect::Nothing);
    assert_eq!(state.depth(), 1);
    assert_eq!(state.apply(Action::Back), Effect::Nothing);
    assert_eq!(state.depth(), 1);
}

#[test]
fn back_clears_a_filter_before_it_pops() {
    let mut state = three_playlists();
    state.apply(Action::Select);
    state.enter_container("first", vec!["a", "b", "c"]);
    state.apply(Action::FilterList("c".to_string()));
    match state.current_view() {
        NeubautenView::TrackView(_, list) => {
            assert!(list.has_filter());
            assert_eq!(list.get_selected_index(), 2);
        },
        _ => panic!("expected a leaf view"),
    }
    state.apply(Action::Back);
    assert_eq!(state.depth(), 2);
    match state.current_view() {
        NeubautenView::TrackView(_, list) => assert!(!list.has_filter()),
        _ => panic!("expected a leaf view"),
    }
    state.apply(Action::Back);
    assert_eq!(state.depth(), 1);
}

#[test]
fn drilling_down_clears_the_filter_beneath() {
    let mut state = three_playlists();
    state.apply(Action::FilterList("thi".to_string()));
    assert_eq!(state.apply(Action::Select), Effect::OpenContainer("third"));
    state.enter_container("third", vec!["x"]);
    state.apply(Action::Back);
    match state.current_view() {
        NeubautenView::PlaylistView(list) => {
            assert!(!list.has_filter());
            assert_eq!(list.get_selected_index(), 0);
        },
        _ => panic!("expected the top-level view"),
    }
}

#[test]
fn select_on_a_leaf_plays_it() {
    let mut state = three_playlists();
    state.apply(Action::Select);
    state.enter_container("first", vec!["a", "b", "c"]);
    state.apply(Action::MoveBottom);
    assert_eq!(state.apply(Action::Select), Effect::Play("c"));
    assert_eq!(
        state.current_track(),
        Some(&PlaybackTrack { container: "first", track: "c", index: 2 })
    );
    assert_eq!(state.apply(Action::MoveTop), Effect::Nothing);
    assert_eq!(state.apply(Action::MoveUp), Effect::Nothing);
    assert_eq!(state.apply(Action::Select), Effect::Play("a"));
}

#[test]
fn queue_track_is_ignored_on_the_top_level() {
    let mut state = three_playlists();
    assert_eq!(state.apply(Action::QueueTrack), Effect::Nothing);
    assert_eq!(state.queue_len(), 0);
}

#[test]
fn select_on_an_empty_filtered_list_does_nothing() {
    let mut state = three_playlists();
    state.apply(Action::SearchTrack("zzz".to_string()));
    assert_eq!(state.apply(Action::Select), Effect::Nothing);
    assert_eq!(state.apply(Action::QueueTrack), Effect::Nothing);
    assert_eq!(state.visible_rows().len(), 0);
}

#[test]
fn toggle_quit_and_noop_pass_through() {
    let mut state = three_playlists();
    assert_eq!(state.apply(Action::TogglePlayback), Effect::TogglePlayback);
    assert_eq!(state.apply(Action::Quit), Effect::Quit);
    assert_eq!(state.apply(Action::Noop), Effect::Nothing);
    assert_eq!(state.depth(), 1);
}

#[test]
fn the_queue_is_first_in_first_out() {
    let mut state = three_playlists();
    state.apply(Action::Select);
    state.enter_container("first", vec!["a", "b", "c"]);
    state.apply(Action::MoveDown);
    state.apply(Action::QueueTrack);
    state.apply(Action::MoveDown);
    state.apply(Action::QueueTrack);
    assert_eq!(state.apply(Action::PlayNextTrack), Effect::Play("b"));
    assert_eq!(state.apply(Action::PlayNextTrack), Effect::Play("c"));
    assert_eq!(state.apply(Action::PlayNextTrack), Effect::FetchTrack("first", 3));
}

#[test]
fn visible_rows_of_the_current_view() {
    let mut state = SessionState::<&str, &str>::new(vec!["ab", "cd"], 1, 4);
    let rows = state.visible_rows();
    assert_eq!(rows.len(), 1);
    assert_eq!(rows[0].text, " ab ");
    assert!(rows[0].emphasized);
}

#[test]
fn drilling_down_keeps_the_cursor_beneath() {
    let mut state = three_playlists();
    state.apply(Action::MoveDown);
    assert_eq!(state.apply(Action::Select), Effect::OpenContainer("second"));
    state.enter_container("second", vec!["x", "y"]);
    assert_eq!(state.depth(), 2);
    state.apply(Action::Back);
    assert_eq!(state.depth(), 1);
    match state.current_view() {
        NeubautenView::PlaylistView(list) => {
            assert!(!list.has_filter());
            assert_eq!(list.get_selected_index(), 1);
        },
        _ => panic!("expected the top-level view"),
    }
}

#[test]
fn visible_rows_follow_the_cursor_of_the_current_view() {
    let mut state = SessionState::<&str, &str>::new(vec!["ab", "cd", "ef"], 2, 4);
    state.apply(Action::MoveBottom);
    let rows = state.visible_rows();
    assert_eq!(rows.len(), 2);
    assert_eq!(rows[0].text, " cd ");
    assert!(!rows[0].emphasized);
    assert_eq!(rows[1].text, " ef ");
    assert!(rows[1].emphasized);
}
