use neubauten::action::Action;
use neubauten::status_bar::{command_bar_text, status_bar_text};

#[test]
fn status_line_without_a_track() {
    assert_eq!(status_bar_text(None, 0, false, 14), "Playback: -   ");
    assert_eq!(status_bar_text(None, 0, true, 3), "Playback: -");
}

#[test]
fn status_line_with_a_track() {
    assert_eq!(status_bar_text(Some("Song"), 185, true, 0), "Playback: Song [3:05]");
    assert_eq!(status_bar_text(Some("Song"), 3600, true, 0), "Playback: Song [60:00]");
    assert_eq!(status_bar_text(Some("S"), 59, true, 20), "Playback: S [0:59]  ");
}

#[test]
fn status_line_marks_a_paused_track() {
    assert_eq!(status_bar_text(Some("Song"), 70, false, 0), "Playback: Song [1:10][Paused]");
    assert_eq!(status_bar_text(Some("Song"), 70, false, 31), "Playback: Song [1:10][Paused]  ");
}

#[test]
fn command_line_echoes_the_last_filter() {
    assert_eq!(command_bar_text(&Action::FilterList("abc".to_string())), "Filter: abc");
    assert_eq!(command_bar_text(&Action::MoveDown), "");
    assert_eq!(command_bar_text(&Action::SearchTrack("x".to_string())), "");
}
