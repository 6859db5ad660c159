use mood::layout::Rect;
use mood::model::PlaylistMd;
use mood::model::Track;
use mood::playback::Repeat;
use mood::playback::Shuffle;
use mood::screen::player::Focus;
use mood::screen::player::Instruction;
use mood::screen::player::Message;
use mood::screen::player::Mode;
use mood::screen::Player;
use mood::widget::control_bar;
use mood::widget::player;
use mood::widget::playlist;
use mood::widget::tracklist;
use std::rc::Rc;

fn song(id: u128) -> Track {
    Track { uuid: id, duration_ms: 10 * id as u64, path: format!("/m/song {id}.mp3") }
}

fn screen(n: u128) -> Player {
    let tracks: Vec<Track> = (1..=n).map(song).collect();
    let playlists = vec![PlaylistMd::with_uuid(1, "one".to_string())];
    Player::new(Rc::new(tracks), playlists, Rect::new(0, 0, 80, 24))
}

fn waiting(path: &str, index: usize) -> player::Track {
    player::Track { path: path.to_string(), index }
}

#[test]
fn the_screen_is_laid_out_in_three_parts() {
    let s = screen(3);
    assert_eq!(s.header.playlist_name, "HEADER");
    assert_eq!(s.header.area, Rect::new(0, 0, 80, 2));
    assert_eq!(s.tracklist.area, Rect::new(0, 2, 80, 18));
    assert_eq!(s.playlist.area, Rect::new(0, 2, 80, 18));
    assert_eq!(s.control_bar.control_bar_y, 23);
    assert_eq!(s.mode, Mode::Default);
    assert_eq!(s.focused_widget, Focus::Tracklist);
    assert_eq!(s.area, Rect::new(0, 0, 80, 24));
    assert_eq!(s.tracklist.list.len(), 3);
    assert_eq!(s.tracklist.shuffle, Shuffle::Off);
    assert_eq!(s.tracklist.repeat, Repeat::Off);
    assert_eq!(s.playlist.list.len(), 1);
}

#[test]
fn a_resize_lays_the_parts_out_anew() {
    let mut s = screen(3);
    s.control_bar.name = "kept".to_string();
    s.resize(40, 12);
    assert_eq!(s.header.area, Rect::new(0, 0, 40, 2));
    assert_eq!(s.tracklist.area, Rect::new(0, 2, 40, 6));
    assert_eq!(s.control_bar.control_bar_y, 11);
    assert_eq!(s.control_bar.name, "kept");
    let start = s.control_bar.shuffle_pos.start;
    assert!(start == 10 || start == 11);
    assert_eq!(s.control_bar.repeat_pos.end, start + 19);
}

#[test]
fn messages_reach_the_widget_that_owns_them() {
    let mut s = screen(3);
    let action = s.update(Message::Tracklist(tracklist::Message::CursorDown(1)));
    assert!(action.instruction.is_none());
    assert!(action.message.is_none());
    assert_eq!(s.tracklist.cursor, 1);
    assert_eq!(s.playlist.cursor, 0);

    let action = s.update(Message::Tracklist(tracklist::Message::SelectTrack));
    match action.instruction {
        Some(Instruction::Tracklist(tracklist::Instruction::AddToPlaylist(t))) => {
            assert_eq!(t.uuid, 2)
        }
        other => panic!("unexpected instruction {other:?}"),
    }

    let action = s.update(Message::Playlist(playlist::Message::SelectPlaylist));
    match action.instruction {
        Some(Instruction::Playlist(playlist::Instruction::SetPlaylist(md))) => {
            assert_eq!(md.uuid, 1)
        }
        other => panic!("unexpected instruction {other:?}"),
    }
    assert_eq!(s.tracklist.cursor, 1);

    let action = s.update(Message::ControlBar(control_bar::Message::ToggleRepeat));
    match action.instruction {
        Some(Instruction::ControlBar(control_bar::Instruction::SetRepeat(r))) => {
            assert_eq!(r, Repeat::Queue)
        }
        other => panic!("unexpected instruction {other:?}"),
    }
    assert_eq!(s.control_bar.repeat, Repeat::Queue);
    // The track list learns of the mode from the session, not from the bar.
    assert_eq!(s.tracklist.repeat, Repeat::Off);
}

#[test]
fn the_window_switches_and_the_cursor_follows() {
    let mut s = screen(5);
    s.cursor_down(2);
    assert_eq!((s.tracklist.cursor, s.playlist.cursor), (2, 0));
    s.switch_window();
    assert_eq!(s.focused_widget, Focus::Playlist);
    s.cursor_up(1);
    s.cursor_down(1);
    assert_eq!((s.tracklist.cursor, s.playlist.cursor), (2, 0));
    s.switch_window();
    assert_eq!(s.focused_widget, Focus::Tracklist);
    s.cursor_up(1);
    assert_eq!(s.tracklist.cursor, 1);
    s.dispatch_enter();
    assert_eq!(s.tracklist.cursor, 1);
}

#[test]
fn the_current_track_shows_in_the_control_bar() {
    let mut s = screen(2);
    assert!(s.get_current().is_none());
    s.set_current(song(2));
    assert_eq!(s.control_bar.name, "song 2");
    assert_eq!(s.get_current().map(|t| t.uuid), Some(2));
    assert_eq!(s.take_current().map(|t| t.uuid), Some(2));
    assert!(s.get_current().is_none());
    assert_eq!(s.control_bar.name, "song 2");
    s.set_current(song(1));
    s.unset_current();
    assert!(s.get_current().is_none());
    assert!(s.control_bar.name.is_empty());
}

#[test]
fn a_track_without_a_file_name_is_not_made_current() {
    let mut s = screen(1);
    let odd = Track { uuid: 9, duration_ms: 0, path: "/music/..".to_string() };
    let back = s.try_set_current(odd);
    assert_eq!(back.map(|t| t.uuid), Some(9));
    assert!(s.get_current().is_none());
    assert!(s.control_bar.name.is_empty());
    assert!(s.try_set_current(song(1)).is_none());
    assert_eq!(s.control_bar.name, "song 1");
}

#[test]
fn the_screen_steps_through_the_queues_of_the_track_list() {
    let mut s = screen(3);
    s.set_auto_queue(1);
    assert_eq!(s.tracklist.history.iter().map(|t| t.uuid).collect::<Vec<_>>(), vec![1]);
    assert_eq!(s.pop_auto_queue().map(|t| t.uuid), Some(2));
    s.push_front_manual_queue(song(8));
    s.manual_queue_mut().push_back(song(9));
    assert_eq!(s.get_next(Repeat::Off).map(|t| t.uuid), Some(8));
    assert_eq!(s.get_next(Repeat::Off).map(|t| t.uuid), Some(9));
    assert_eq!(s.get_next(Repeat::Off).map(|t| t.uuid), Some(3));
    assert!(s.get_next(Repeat::Off).is_none());
    assert_eq!(s.get_next(Repeat::Queue).map(|t| t.uuid), Some(1));
    assert_eq!(s.tracklist.repeat, Repeat::Off);
    assert_eq!(s.get_prev().map(|t| t.uuid), Some(3));
    assert_eq!(s.get_prev().map(|t| t.uuid), Some(1));
    assert!(s.get_prev().is_none());
    assert!(s.pop_auto_queue().is_some());
    s.tracklist.cursor = 2;
    assert_eq!(s.get_under_cursor().map(|t| t.uuid), Some(3));
    s.tracklist.cursor = 3;
    assert!(s.get_under_cursor().is_none());
}

#[test]
fn the_path_player_keeps_tracks_by_path() {
    let mut p = player::Player::new(vec!["/m/a.mp3".to_string(), "/m/b.mp3".to_string()]);
    assert_eq!(p.tracks_len(), 2);
    assert_eq!(p.tracks(), &vec!["/m/a.mp3".to_string(), "/m/b.mp3".to_string()]);
    assert_eq!(p.cursor(), 0);
    assert!(!p.is_paused());
    assert!(p.get_current().is_none());
    assert_eq!(p.get_current_path(), None);
    assert_eq!(p.get_current_duration(), None);
    assert_eq!(p.get_current_index(), None);
    assert_eq!(p.track_under_cursor(), ("/m/a.mp3".to_string(), 0));

    p.set_cursor(1);
    assert_eq!(p.track_under_cursor(), ("/m/b.mp3".to_string(), 1));
    p.set_current("/m/b.mp3".to_string(), 90_000, 1);
    assert_eq!(p.get_current_path(), Some("/m/b.mp3"));
    assert_eq!(p.get_current_duration(), Some(90_000));
    assert_eq!(p.get_current_index(), Some(1));
    assert_eq!(p.get_current().map(|c| c.index), Some(1));
    p.unset_current();
    assert!(p.get_current().is_none());
    p.set_is_paused(true);
    assert!(p.is_paused());
}

#[test]
fn the_path_player_has_two_queues() {
    let mut p = player::Player::new(vec!["/m/a.mp3".to_string()]);
    p.set_auto_queue(vec![waiting("/m/a.mp3", 0), waiting("/m/b.mp3", 1)]);
    p.manual_queue_mut().push_back(waiting("/m/c.mp3", 2));
    assert_eq!(p.manual_queue_mut().pop_front().map(|t| t.index), Some(2));
    assert!(p.manual_queue_mut().is_empty());
    assert_eq!(p.auto_queue_mut().pop_front().map(|t| t.path), Some("/m/a.mp3".to_string()));
    assert_eq!(p.auto_queue_mut().len(), 1);
    p.set_auto_queue(Vec::new());
    assert!(p.auto_queue_mut().is_empty());
}

#[test]
fn the_path_player_moves_its_cursor_within_the_area() {
    let tracks: Vec<String> = (0..6).map(|i| format!("/m/{i}.mp3")).collect();
    let mut p = player::Player::new(tracks);
    // Before the list was drawn it has no rows: the list scrolls.
    p.cursor_down(1);
    assert_eq!((p.cursor(), p.y_offset), (0, 1));
    p.y_offset = 0;
    p.set_area(Rect::new(0, 0, 20, 3));
    for expected in [(1, 0), (2, 0), (2, 1), (2, 2), (2, 3), (2, 3)] {
        p.cursor_down(1);
        assert_eq!((p.cursor(), p.y_offset), expected);
    }
    p.cursor_up(1);
    assert_eq!((p.cursor(), p.y_offset), (1, 3));
    p.cursor_up(3);
    assert_eq!((p.cursor(), p.y_offset), (1, 1));
    p.cursor_up(100_000);
    assert_eq!((p.cursor(), p.y_offset), (1, 0));
}
