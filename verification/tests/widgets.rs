use mood::input::KeyCode;
use mood::input::KeyModifiers;
use mood::input::MouseEvent;
use mood::input::MouseEventKind;
use mood::layout::Rect;
use mood::model::PlaylistMd;
use mood::model::Track;
use mood::playback::Repeat;
use mood::playback::Shuffle;
use mood::session::Mode;
use mood::widget::control_bar;
use mood::widget::control_bar::Buttons;
use mood::widget::control_bar::ControlBar;
use mood::widget::control_bar::SEEK_STEP_MS;
use mood::widget::header::Header;
use mood::widget::playlist;
use mood::widget::playlist::Playlist;
use mood::widget::popup;
use mood::widget::popup::Popup;
use mood::widget::Cursor;

fn md(id: u128) -> PlaylistMd {
    PlaylistMd::with_uuid(id, format!("list {id}"))
}

fn widget(n: u128, height: u16) -> Playlist {
    Playlist::new((1..=n).map(md).collect(), Rect::new(0, 0, 40, height))
}

fn song(id: u128) -> Track {
    Track { uuid: id, duration_ms: 1, path: format!("/m/{id}.mp3") }
}

fn bar_at(start: u16) -> ControlBar {
    ControlBar::with_buttons(Buttons { y: 7, start }, 0, Shuffle::Off, Repeat::Off)
}

fn click(column: u16) -> MouseEvent {
    MouseEvent { kind: MouseEventKind::Down, column, row: 0 }
}

#[test]
fn popup_collects_what_is_typed() {
    let mut popup = Popup::new();
    assert!(popup.buffer.is_empty());
    for ch in ['a', 'b', 'ß'] {
        assert!(popup.update(popup::Message::Push(ch)).is_none());
    }
    assert_eq!(popup.buffer, "abß");
    popup.update(popup::Message::Pop);
    assert_eq!(popup.buffer, "ab");
    popup.update(popup::Message::Pop);
    popup.update(popup::Message::Pop);
    popup.update(popup::Message::Pop);
    assert_eq!(popup.buffer, "");
    assert!(Popup::default().buffer.is_empty());
}

#[test]
fn popup_keys() {
    let popup = Popup::new();
    let none = KeyModifiers::none();
    assert_eq!(popup.handle_input(KeyCode::Char('x'), none), Some(popup::Message::Push('x')));
    assert_eq!(popup.handle_input(KeyCode::Backspace, none), Some(popup::Message::Pop));
    assert_eq!(popup.handle_input(KeyCode::Enter, none), None);
}

#[test]
fn cursor_starts_at_the_top() {
    assert_eq!(Cursor::new().y, 0);
}

#[test]
fn header_keeps_its_name_on_resize() {
    let mut header = Header::new("HEADER".to_string(), Rect::new(0, 0, 10, 2));
    header.resize(Rect::new(0, 0, 20, 2));
    assert_eq!(header.playlist_name, "HEADER");
    assert_eq!(header.area, Rect::new(0, 0, 20, 2));
}

#[test]
fn playlist_keys_in_the_list() {
    let mut w = widget(2, 10);
    let none = KeyModifiers::none();
    assert!(matches!(w.handle_input(KeyCode::Enter, none), Some(playlist::Message::SelectPlaylist)));
    w.update(playlist::Message::SetTrack(song(1)));
    assert!(matches!(
        w.handle_input(KeyCode::Enter, none),
        Some(playlist::Message::AddSelectedToPlaylist)
    ));
    assert!(matches!(w.handle_input(KeyCode::Char('j'), none), Some(playlist::Message::CursorDown(1))));
    assert!(matches!(w.handle_input(KeyCode::Char('k'), none), Some(playlist::Message::CursorUp(1))));
    assert!(matches!(w.handle_input(KeyCode::Char('p'), none), Some(playlist::Message::FocusTracklist)));
    assert!(matches!(w.handle_input(KeyCode::Char('d'), none), Some(playlist::Message::DeletePlaylist)));
    assert!(matches!(w.handle_input(KeyCode::Char('c'), none), Some(playlist::Message::OpenPopup)));
    assert!(w.handle_input(KeyCode::Char('z'), none).is_none());
    assert!(w.handle_input(KeyCode::End, none).is_none());
}

#[test]
fn playlist_keys_in_the_input_box() {
    let mut w = widget(2, 10);
    let none = KeyModifiers::none();
    let action = w.update(playlist::Message::OpenPopup);
    assert!(matches!(action.instruction, Some(playlist::Instruction::SetMode(Mode::Write))));
    assert_eq!(w.focused_widget, playlist::Focus::Popup);
    assert!(matches!(w.handle_input(KeyCode::End, none), Some(playlist::Message::CreatePlaylist)));
    assert!(matches!(
        w.handle_input(KeyCode::Char('j'), none),
        Some(playlist::Message::Popup(popup::Message::Push('j')))
    ));
    assert!(matches!(
        w.handle_input(KeyCode::Backspace, none),
        Some(playlist::Message::Popup(popup::Message::Pop))
    ));
    assert!(w.handle_input(KeyCode::Enter, none).is_none());
}

#[test]
fn a_playlist_is_created_from_the_input_box() {
    let mut w = widget(1, 10);
    w.update(playlist::Message::OpenPopup);
    for ch in "rock".chars() {
        let action = w.update(playlist::Message::Popup(popup::Message::Push(ch)));
        assert!(action.instruction.is_none());
        assert!(action.message.is_none());
    }
    let action = w.update(playlist::Message::CreatePlaylist);
    assert!(matches!(action.instruction, Some(playlist::Instruction::CreatePlaylist(ref n)) if n == "rock"));
    assert_eq!(w.focused_widget, playlist::Focus::Parent);
    assert!(w.popup.buffer.is_empty());
}

#[test]
fn the_playlist_under_the_cursor_is_selected_or_deleted() {
    let mut w = widget(3, 10);
    w.cursor = 1;
    let action = w.update(playlist::Message::SelectPlaylist);
    assert!(matches!(action.instruction, Some(playlist::Instruction::SetPlaylist(ref m)) if m.uuid == 2));
    let action = w.update(playlist::Message::DeletePlaylist);
    assert!(matches!(action.instruction, Some(playlist::Instruction::DeletePlaylist(ref m)) if m.uuid == 2));
    assert_eq!(w.list.iter().map(|p| p.uuid).collect::<Vec<_>>(), vec![1, 3]);
    w.cursor = 2;
    assert!(w.update(playlist::Message::SelectPlaylist).instruction.is_none());
    assert!(w.update(playlist::Message::DeletePlaylist).instruction.is_none());
    assert_eq!(w.list.len(), 2);
    let action = w.update(playlist::Message::FocusTracklist);
    assert!(matches!(action.instruction, Some(playlist::Instruction::FocusTracklist)));
}

#[test]
fn the_waiting_track_is_added_to_the_playlist_under_the_cursor() {
    let mut w = widget(2, 10);
    w.update(playlist::Message::SetTrack(song(5)));
    w.cursor = 1;
    let action = w.update(playlist::Message::AddSelectedToPlaylist);
    match action.instruction {
        Some(playlist::Instruction::AddTrackToPlaylist(m, t)) => {
            assert_eq!(m.uuid, 2);
            assert_eq!(t.uuid, 5);
        }
        other => panic!("unexpected instruction {other:?}"),
    }
    assert!(w.selected_track.is_none());
    // With the cursor on no playlist the track is given up all the same.
    w.update(playlist::Message::SetTrack(song(6)));
    w.cursor = 5;
    assert!(w.update(playlist::Message::AddSelectedToPlaylist).instruction.is_none());
    assert!(w.selected_track.is_none());
}

#[test]
fn a_shorter_list_of_playlists_pulls_the_view_back() {
    let mut w = widget(10, 4);
    w.cursor = 3;
    w.y_offset = 2;
    // Three rows less: two are taken from the scroll offset, one from the cursor.
    w.update(playlist::Message::SetPlaylists((1..=7).map(md).collect()));
    assert_eq!((w.cursor, w.y_offset), (2, 0));
    assert_eq!(w.list.len(), 7);
    w.y_offset = 5;
    w.update(playlist::Message::SetPlaylists((1..=5).map(md).collect()));
    assert_eq!((w.cursor, w.y_offset), (2, 3));
    // A longer list moves nothing.
    w.update(playlist::Message::SetPlaylists((1..=9).map(md).collect()));
    assert_eq!((w.cursor, w.y_offset), (2, 3));
}

#[test]
fn the_playlist_cursor_moves_and_scrolls() {
    let mut w = widget(5, 3);
    for expected in [(1, 0), (2, 0), (2, 1), (2, 2), (2, 2)] {
        w.update(playlist::Message::CursorDown(1));
        assert_eq!((w.cursor, w.y_offset), expected);
    }
    w.update(playlist::Message::CursorUp(1));
    assert_eq!((w.cursor, w.y_offset), (1, 2));
    w.update(playlist::Message::CursorUp(2));
    assert_eq!((w.cursor, w.y_offset), (1, 1));
    w.update(playlist::Message::Resize(Rect::new(0, 0, 9, 9)));
    assert_eq!(w.area, Rect::new(0, 0, 9, 9));
    assert_eq!(w.get_under_cursor().map(|m| m.uuid), Some(3));
}

#[test]
fn the_buttons_stand_side_by_side() {
    let bar = bar_at(30);
    assert_eq!(bar.control_bar_y, 7);
    assert_eq!(bar.shuffle_pos, 30..33);
    assert_eq!(bar.seek_backward_pos, 34..37);
    assert_eq!(bar.pause_pos, 38..41);
    assert_eq!(bar.seek_forward_pos, 42..45);
    assert_eq!(bar.repeat_pos, 46..49);
    let edge = bar_at(u16::MAX - 5);
    assert_eq!(edge.shuffle_pos, (u16::MAX - 5)..(u16::MAX - 2));
    assert_eq!(edge.repeat_pos, u16::MAX..u16::MAX);
}

#[test]
fn a_click_presses_the_button_under_it() {
    let bar = bar_at(30);
    assert!(bar.handle_mouse(click(29)).is_none());
    assert!(matches!(bar.handle_mouse(click(30)), Some(control_bar::Message::ToggleShuffle)));
    assert!(matches!(bar.handle_mouse(click(32)), Some(control_bar::Message::ToggleShuffle)));
    assert!(bar.handle_mouse(click(33)).is_none());
    assert!(matches!(
        bar.handle_mouse(click(35)),
        Some(control_bar::Message::SeekBackward(SEEK_STEP_MS))
    ));
    assert!(matches!(bar.handle_mouse(click(38)), Some(control_bar::Message::TogglePause)));
    assert!(matches!(
        bar.handle_mouse(click(44)),
        Some(control_bar::Message::SeekForward(SEEK_STEP_MS))
    ));
    assert!(matches!(bar.handle_mouse(click(48)), Some(control_bar::Message::ToggleRepeat)));
    assert!(bar.handle_mouse(click(49)).is_none());
    let moved = MouseEvent { kind: MouseEventKind::Moved, column: 31, row: 7 };
    assert!(bar.handle_mouse(moved).is_none());
    let up = MouseEvent { kind: MouseEventKind::Up, column: 31, row: 7 };
    assert!(bar.handle_mouse(up).is_none());
}

#[test]
fn toggles_ask_for_the_new_mode() {
    let mut bar = bar_at(0);
    let action = bar.update(control_bar::Message::ToggleShuffle);
    assert!(matches!(action.instruction, Some(control_bar::Instruction::SetShuffle(Shuffle::Random))));
    assert_eq!(bar.shuffle, Shuffle::Random);
    let action = bar.update(control_bar::Message::ToggleShuffle);
    assert!(matches!(action.instruction, Some(control_bar::Instruction::SetShuffle(Shuffle::Off))));

    let mut seen = Vec::new();
    for _ in 0..3 {
        match bar.update(control_bar::Message::ToggleRepeat).instruction {
            Some(control_bar::Instruction::SetRepeat(r)) => seen.push(r),
            other => panic!("unexpected instruction {other:?}"),
        }
    }
    assert_eq!(seen, vec![Repeat::Queue, Repeat::One, Repeat::Off]);
    assert_eq!(bar.repeat, Repeat::Off);

    let action = bar.update(control_bar::Message::TogglePause);
    assert!(matches!(action.instruction, Some(control_bar::Instruction::SetPause(true))));
    assert!(bar.paused);
    let action = bar.update(control_bar::Message::TogglePause);
    assert!(matches!(action.instruction, Some(control_bar::Instruction::SetPause(false))));
}

#[test]
fn seeks_are_passed_on_and_setters_only_set() {
    let mut bar = bar_at(0);
    let action = bar.update(control_bar::Message::SeekForward(5000));
    assert!(matches!(action.instruction, Some(control_bar::Instruction::SeekForward(5000))));
    let action = bar.update(control_bar::Message::SeekBackward(250));
    assert!(matches!(action.instruction, Some(control_bar::Instruction::SeekBackward(250))));

    assert!(bar.update(control_bar::Message::SetProgress(500)).instruction.is_none());
    assert!(bar.update(control_bar::Message::SetName("tune".to_string())).instruction.is_none());
    assert!(bar.update(control_bar::Message::SetShuffle(Shuffle::Random)).instruction.is_none());
    assert!(bar.update(control_bar::Message::SetRepeat(Repeat::One)).instruction.is_none());
    assert!(bar.update(control_bar::Message::SetPause(true)).instruction.is_none());
    assert_eq!(bar.progress, 500);
    assert_eq!(bar.name, "tune");
    assert_eq!(bar.shuffle, Shuffle::Random);
    assert_eq!(bar.repeat, Repeat::One);
    assert!(bar.paused);
    assert_eq!(bar.shuffle_pos, 0..3);
}

#[test]
fn the_layout_centres_the_buttons_in_the_last_row() {
    let bar = ControlBar::new(Rect::new(0, 20, 80, 4), 0, Shuffle::Random, Repeat::Queue);
    assert_eq!(bar.control_bar_y, 23);
    let start = bar.shuffle_pos.start;
    assert!(start == 30 || start == 31);
    assert_eq!(bar.shuffle_pos.end, start + 3);
    assert_eq!(bar.repeat_pos, (start + 16)..(start + 19));
    assert_eq!(bar.shuffle, Shuffle::Random);
    assert_eq!(bar.repeat, Repeat::Queue);
    assert!(!bar.paused);
    assert!(bar.name.is_empty());

    let mut bar = bar;
    bar.update(control_bar::Message::SetName("kept".to_string()));
    bar.update(control_bar::Message::Resize(Rect::new(10, 0, 39, 4)));
    assert_eq!(bar.control_bar_y, 3);
    assert_eq!(bar.shuffle_pos, 20..23);
    assert_eq!(bar.pause_pos, 28..31);
    assert_eq!(bar.name, "kept");
}

#[test]
fn the_buttons_stay_inside_a_bar_that_is_too_small() {
    for area in [
        Rect::new(5, 7, 10, 2),
        Rect::new(5, 7, 0, 0),
        Rect::new(0, 0, 19, 4),
        Rect::new(3, 1, 200, 40),
    ] {
        let bar = ControlBar::new(area, 0, Shuffle::Off, Repeat::Off);
        assert!(area.y <= bar.control_bar_y && bar.control_bar_y <= area.y + area.height);
        let start = bar.shuffle_pos.start;
        assert!(area.x <= start && start <= area.x + area.width);
    }
}
