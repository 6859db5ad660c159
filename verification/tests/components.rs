use mood::components::player_controls::progress_percent;
use mood::components::tracklist::Command;
use mood::components::utils::vertical_scroll::VerticalScroll;
use mood::components::ComponentCommand;
use mood::components::PlayerControlsComponent;
use mood::components::TracklistComponent;
use mood::config::Config;
use mood::config::KeyConfig;
use mood::current_track::CurrentTrack;
use mood::event::AudioMessage;
use mood::event::Event;
use mood::event::EventState;
use mood::event::Key;
use mood::event::SinkState;
use mood::input::KeyCode;
use mood::input::KeyEvent;
use mood::input::KeyModifiers;
use mood::input::MOD_ALT;
use mood::input::MOD_CONTROL;
use mood::input::MOD_SHIFT;
use mood::model::Track;
use mood::session::App;
use mood::session::Focus;

fn press(code: KeyCode, bits: u8) -> KeyEvent {
    KeyEvent { code, modifiers: KeyModifiers::new(bits) }
}

fn library(n: u128) -> Vec<Track> {
    (1..=n).map(|id| Track { uuid: id, duration_ms: 0, path: format!("/m/{id}.mp3") }).collect()
}

fn scroll(y_offset: usize, pos: usize, going_down: bool) -> VerticalScroll {
    VerticalScroll { y_offset, pos, going_down }
}

#[test]
fn event_state_from_bool() {
    assert_eq!(EventState::from(true), EventState::Consumed);
    assert_eq!(EventState::from(false), EventState::NotConsumed);
    assert!(EventState::Consumed.is_consumed());
    assert!(!EventState::NotConsumed.is_consumed());
}

#[test]
fn keys_from_key_presses() {
    assert_eq!(Key::from(press(KeyCode::Enter, 0)), Key::Enter);
    assert_eq!(Key::from(press(KeyCode::Tab, 0)), Key::Tab);
    assert_eq!(Key::from(press(KeyCode::Backspace, MOD_CONTROL)), Key::Backspace);
    assert_eq!(Key::from(press(KeyCode::Esc, 0)), Key::Esc);
    assert_eq!(Key::from(press(KeyCode::Left, 0)), Key::Left);
    assert_eq!(Key::from(press(KeyCode::Right, 0)), Key::Right);
    assert_eq!(Key::from(press(KeyCode::Up, 0)), Key::Up);
    assert_eq!(Key::from(press(KeyCode::Down, 0)), Key::Down);
    assert_eq!(Key::from(press(KeyCode::Insert, 0)), Key::Insert);
    assert_eq!(Key::from(press(KeyCode::Delete, 0)), Key::Delete);
    assert_eq!(Key::from(press(KeyCode::Home, 0)), Key::Home);
    assert_eq!(Key::from(press(KeyCode::End, 0)), Key::End);
    assert_eq!(Key::from(press(KeyCode::PageUp, 0)), Key::PageUp);
    assert_eq!(Key::from(press(KeyCode::PageDown, 0)), Key::PageDown);
    assert_eq!(Key::from(press(KeyCode::Other, 0)), Key::Unknown);
}

#[test]
fn function_keys_up_to_twelve() {
    let expected = [
        Key::F0,
        Key::F1,
        Key::F2,
        Key::F3,
        Key::F4,
        Key::F5,
        Key::F6,
        Key::F7,
        Key::F8,
        Key::F9,
        Key::F10,
        Key::F11,
        Key::F12,
    ];
    for (n, key) in expected.iter().enumerate() {
        assert_eq!(Key::from(press(KeyCode::F(n as u8), 0)), *key);
    }
    assert_eq!(Key::from(press(KeyCode::F(13), 0)), Key::Unknown);
    assert_eq!(Key::from(press(KeyCode::F(255), 0)), Key::Unknown);
}

#[test]
fn character_keys_and_their_modifiers() {
    assert_eq!(Key::from(press(KeyCode::Char('l'), 0)), Key::Char('l'));
    assert_eq!(Key::from(press(KeyCode::Char('l'), MOD_CONTROL)), Key::Ctrl('l'));
    assert_eq!(Key::from(press(KeyCode::Char('l'), MOD_ALT)), Key::Alt('l'));
    assert_eq!(Key::from(press(KeyCode::Char('L'), MOD_SHIFT)), Key::Char('L'));
    // Control together with another modifier is no control key.
    assert_eq!(Key::from(press(KeyCode::Char('l'), MOD_CONTROL | MOD_ALT)), Key::Char('l'));
    assert_eq!(Key::from(press(KeyCode::Char('l'), MOD_CONTROL | MOD_SHIFT)), Key::Char('l'));
}

#[test]
fn default_keys() {
    let keys = KeyConfig::default();
    assert_eq!(keys.quit, Key::Esc);
    assert_eq!(keys.scroll_up, Key::Char('k'));
    assert_eq!(keys.scroll_down, Key::Char('j'));
    assert_eq!(keys.play_audio, Key::Enter);
    assert_eq!(keys.add_to_manual_queue, Key::Char('q'));
    assert_eq!(keys.skip_to_next_audio, Key::Char('l'));
    assert_eq!(keys.skip_to_prev_audio, Key::Char('h'));
    assert_eq!(keys.seek_forward, Key::Ctrl('l'));
    assert_eq!(keys.seek_backward, Key::Ctrl('h'));
    assert_eq!(keys.pause, Key::Char(' '));
    assert_eq!(keys.shuffle, Key::Char('s'));
    assert_eq!(keys.repeat, Key::Char('r'));
    assert_eq!(keys.pick_playlist, Key::Enter);
    assert_eq!(keys.create_playlist, Key::Enter);
    assert_eq!(keys.delete_playlist, Key::Char('D'));
    assert_eq!(keys.focus_playlist_popup, Key::Char('p'));
}

#[test]
fn config_for_a_directory() {
    let config = Config::new("/home/me/music".to_string());
    assert_eq!(config.audio_dir, "/home/me/music");
    assert_eq!(config.key_config, KeyConfig::default());
    let config = Config::default();
    assert!(config.audio_dir.is_empty());
    assert_eq!(config.key_config, KeyConfig::default());
}

#[test]
fn the_name_of_the_current_track_is_its_file_stem() {
    let track = CurrentTrack::new("/music/albums/first song.mp3".to_string(), 180_000);
    assert_eq!(track.total_duration_ms, 180_000);
    assert_eq!(track.name(), "first song");
    assert_eq!(track.try_name(), Some("first song".to_string()));
    let archive = CurrentTrack::new("take.two.flac".to_string(), 1);
    assert_eq!(archive.name(), "take.two");
    let hidden = CurrentTrack::new("/music/.hidden".to_string(), 1);
    assert_eq!(hidden.name(), ".hidden");
}

#[test]
fn a_path_without_a_file_name_has_no_name() {
    assert_eq!(CurrentTrack::new("/music/..".to_string(), 1).try_name(), None);
    assert_eq!(CurrentTrack::new("".to_string(), 1).try_name(), None);
    assert_eq!(CurrentTrack::new("/".to_string(), 1).try_name(), None);
}

#[test]
fn player_controls_start_empty() {
    let mut controls = PlayerControlsComponent::new();
    assert!(controls.name.is_none());
    assert_eq!(controls.progress, 0);
    controls.name = Some("x".to_string());
    controls.progress = 40;
    controls.clear();
    assert!(controls.name.is_none());
    assert_eq!(controls.progress, 0);
}

#[test]
fn focus_switches_between_the_lists() {
    assert_eq!(Focus::Tracklist.switched(), Focus::Playlist);
    assert_eq!(Focus::Playlist.switched(), Focus::Tracklist);
}

#[test]
fn vertical_scroll_moves_within_the_list() {
    let mut s = VerticalScroll::new();
    assert_eq!((s.y_offset, s.pos(), s.going_down), (0, 0, true));
    s.move_up();
    assert_eq!((s.pos(), s.going_down), (0, false));
    s.move_down(3);
    s.move_down(3);
    assert_eq!((s.pos(), s.going_down), (2, true));
    s.move_down(3);
    assert_eq!(s.pos(), 2);
    s.move_down(0);
    assert_eq!(s.pos(), 2);
    s.move_up();
    assert_eq!((s.pos(), s.going_down), (1, false));
    let mut empty = VerticalScroll::new();
    empty.move_down(0);
    assert_eq!(empty.pos(), 0);
    empty.move_down(1);
    assert_eq!(empty.pos(), 0);
}

#[test]
fn scroll_offset_going_down() {
    // Ten rows, four visible.
    assert_eq!(scroll(0, 3, true).calc_scroll_offset(4, 3, 10), 0);
    assert_eq!(scroll(0, 4, true).calc_scroll_offset(4, 4, 10), 1);
    assert_eq!(scroll(1, 4, true).calc_scroll_offset(4, 4, 10), 1);
    assert_eq!(scroll(2, 9, true).calc_scroll_offset(4, 9, 10), 6);
    // No row is left below the visible part: the list stays.
    assert_eq!(scroll(6, 9, true).calc_scroll_offset(4, 9, 10), 6);
    assert_eq!(scroll(0, 7, true).calc_scroll_offset(4, 7, 4), 4);
}

#[test]
fn scroll_offset_going_up() {
    assert_eq!(scroll(5, 4, false).calc_scroll_offset(4, 4, 10), 4);
    assert_eq!(scroll(5, 5, false).calc_scroll_offset(4, 5, 10), 5);
    assert_eq!(scroll(5, 1, false).calc_scroll_offset(4, 1, 10), 4);
    assert_eq!(scroll(0, 0, false).calc_scroll_offset(4, 0, 10), 0);
}

#[test]
fn scroll_offset_at_the_edges() {
    assert_eq!(scroll(5, 2, true).calc_scroll_offset(0, 2, 10), 0);
    assert_eq!(scroll(5, 10, true).calc_scroll_offset(4, 10, 10), 10);
    assert_eq!(scroll(5, 12, false).calc_scroll_offset(4, 12, 10), 10);
    assert_eq!(scroll(0, 0, true).calc_scroll_offset(4, 0, 0), 0);
    assert_eq!(scroll(usize::MAX, 3, true).calc_scroll_offset(4, 3, 10), usize::MAX);
}

#[test]
fn update_scrolls_to_the_selection() {
    let mut s = scroll(0, 6, true);
    s.update(4, 10);
    assert_eq!((s.y_offset, s.pos, s.going_down), (3, 6, true));
    let mut s = scroll(3, 2, false);
    s.update(4, 10);
    assert_eq!((s.y_offset, s.pos, s.going_down), (2, 2, false));
}

#[test]
fn the_component_answers_its_keys() {
    let mut list = TracklistComponent::new(library(3), KeyConfig::default());
    let (state, command) = list.event(Key::Char('j'));
    assert_eq!(state, EventState::Consumed);
    assert!(command.is_none());
    assert_eq!(list.scroll.pos(), 1);
    let (state, command) = list.event(Key::Enter);
    assert_eq!(state, EventState::Consumed);
    match command {
        Some(ComponentCommand::TracklistComponent(Command::SetCurrentTrack { path })) => {
            assert_eq!(path, "/m/2.mp3")
        }
        None => panic!("no command"),
    }
    let (state, command) = list.event(Key::Char('k'));
    assert_eq!(state, EventState::Consumed);
    assert!(command.is_none());
    assert_eq!(list.scroll.pos(), 0);
    let (state, command) = list.event(Key::Char('x'));
    assert_eq!(state, EventState::NotConsumed);
    assert!(command.is_none());
    assert_eq!(list.scroll.pos(), 0);
}

#[test]
fn the_component_stops_at_the_ends_of_the_library() {
    let mut list = TracklistComponent::new(library(2), KeyConfig::default());
    list.prev_col();
    assert_eq!(list.scroll.pos(), 0);
    list.next_col();
    list.next_col();
    list.next_col();
    assert_eq!(list.scroll.pos(), 1);
    match list.play_selected() {
        ComponentCommand::TracklistComponent(Command::SetCurrentTrack { path }) => {
            assert_eq!(path, "/m/2.mp3")
        }
    }
}

#[test]
fn progress_in_percent_is_rounded_up() {
    assert_eq!(progress_percent(0, 200_000), 0);
    assert_eq!(progress_percent(1, 200_000), 1);
    assert_eq!(progress_percent(2_000, 200_000), 1);
    assert_eq!(progress_percent(2_001, 200_000), 2);
    assert_eq!(progress_percent(100_000, 200_000), 50);
    assert_eq!(progress_percent(200_000, 200_000), 100);
    assert_eq!(progress_percent(u64::MAX, u64::MAX), 100);
    assert_eq!(progress_percent(u64::MAX, 1), u16::MAX);
    assert_eq!(progress_percent(0, 0), 0);
    assert_eq!(progress_percent(5, 0), u16::MAX);
}

#[test]
fn the_controls_follow_the_audio_thread() {
    let mut controls = PlayerControlsComponent::new();
    controls.name = Some("tune".to_string());
    let state = SinkState { total_duration_ms: Some(4_000), pos_ms: 1_000, volume: 50 };
    controls.audio(AudioMessage::State(state));
    assert_eq!(controls.progress, 25);
    assert_eq!(controls.name.as_deref(), Some("tune"));
    controls.audio(AudioMessage::Noop);
    assert_eq!(controls.progress, 25);
    controls.audio(AudioMessage::State(SinkState { total_duration_ms: None, ..state }));
    assert_eq!(controls.progress, 0);
    controls.audio(AudioMessage::State(state));
    controls.audio(AudioMessage::EndOfTrack);
    assert_eq!(controls.progress, 0);
    assert!(controls.name.is_none());
    assert_eq!(Event::Audio(AudioMessage::Noop), Event::Audio(AudioMessage::Noop));
    assert_ne!(Event::Tick, Event::Input(Key::Enter));
}

#[test]
fn the_key_driven_session_plays_the_selected_track() {
    let mut app = App::new(library(3), Config::new("/m".to_string()));
    assert_eq!(app.focus, Focus::Tracklist);
    assert!(app.current_track.is_none());
    assert!(matches!(app.tick(), mood::event::Command::SendState));

    let (state, command) = app.event(Key::Char('j'));
    assert_eq!(state, EventState::Consumed);
    assert!(command.is_none());
    let (state, command) = app.event(Key::Enter);
    assert_eq!(state, EventState::Consumed);
    let path = match command {
        Some(ComponentCommand::TracklistComponent(Command::SetCurrentTrack { path })) => path,
        None => panic!("no command"),
    };
    assert_eq!(path, "/m/2.mp3");
    let (state, command) = app.event(Key::Esc);
    assert_eq!(state, EventState::NotConsumed);
    assert!(command.is_none());

    match app.set_current_track(path, 8_000) {
        mood::event::Command::Play(path) => assert_eq!(path, "/m/2.mp3"),
        other => panic!("unexpected command {other:?}"),
    }
    assert_eq!(app.player_controls.name.as_deref(), Some("2"));
    assert_eq!(app.current_track.as_ref().map(|c| c.total_duration_ms), Some(8_000));

    let state = SinkState { total_duration_ms: None, pos_ms: 2_000, volume: 50 };
    app.audio(AudioMessage::State(state));
    assert_eq!(app.player_controls.progress, 25);
    app.audio(AudioMessage::Noop);
    assert_eq!(app.player_controls.progress, 25);
    app.audio(AudioMessage::EndOfTrack);
    assert_eq!(app.player_controls.progress, 0);
    assert!(app.player_controls.name.is_none());
    assert!(app.current_track.is_none());
    app.audio(AudioMessage::State(state));
    assert_eq!(app.player_controls.progress, 0);

    assert!(app.try_set_current_track("/m/..".to_string(), 1).is_none());
    assert!(app.current_track.is_none());
    assert!(app.try_set_current_track("/m/x.mp3".to_string(), 1).is_some());
    assert_eq!(app.player_controls.name.as_deref(), Some("x"));
}
