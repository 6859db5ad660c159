use mood::io::Entry;
use mood::io::FileWalk;
use mood::io::Settings;
use mood::layout::columns;
use mood::layout::move_down;
use mood::layout::move_up;
use mood::layout::rows;
use mood::layout::Constraint;
use mood::layout::Rect;
use mood::model::identity::identify;
use mood::model::identity::Identity;
use mood::model::identity::LAYOUT_MASK;
use mood::model::identity::RANDOM_LAYOUT;
use mood::model::track::DbTrack;
use mood::model::Playlist;
use mood::model::PlaylistMd;
use mood::model::Track;
use mood::playback::Repeat;
use mood::playback::Shuffle;

fn song(id: u128) -> Track {
    Track { uuid: id, duration_ms: 10 * id as u64, path: format!("/m/{id}.mp3") }
}

fn row(track_uuid: u128) -> DbTrack {
    DbTrack { playlist_uuid: 1, track_uuid }
}

fn file(path: &str, extension: Option<&str>) -> Entry {
    Entry { path: path.to_string(), is_dir: false, extension: extension.map(|e| e.to_string()) }
}

fn dir(path: &str) -> Entry {
    Entry { path: path.to_string(), is_dir: true, extension: None }
}

#[test]
fn a_track_clone_is_the_same_track() {
    let track = song(4);
    let copy = track.clone();
    assert_eq!((copy.uuid, copy.duration_ms, copy.path.as_str()), (4, 40, "/m/4.mp3"));
}

#[test]
fn find_gives_the_first_track_with_the_identifier() {
    let tracks = vec![song(1), song(2), song(3), song(2)];
    assert_eq!(Track::find(&tracks, 2), Some(1));
    assert_eq!(Track::find(&tracks, 3), Some(2));
    assert_eq!(Track::find(&tracks, 9), None);
    assert_eq!(Track::find(&[].to_vec(), 1), None);
}

#[test]
fn rows_become_tracks_from_the_back() {
    let tracks = vec![song(1), song(2), song(3)];
    let found = Track::from_db_tracks(&tracks, vec![row(3), row(1), row(1), row(2)]);
    assert_eq!(found.iter().map(|t| t.uuid).collect::<Vec<_>>(), vec![2, 1, 1, 3]);
    assert_eq!(found[0].path, "/m/2.mp3");
    assert!(Track::from_db_tracks(&tracks, Vec::new()).is_empty());
}

#[test]
fn removing_a_track_keeps_the_order_of_the_others() {
    let playlist = Playlist {
        uuid: 8,
        name: "mix".to_string(),
        tracks: vec![song(1), song(2), song(3), song(2), song(4)],
    };
    let shorter = playlist.remove_track(&song(2));
    assert_eq!(shorter.uuid, 8);
    assert_eq!(shorter.name, "mix");
    assert_eq!(shorter.tracks.iter().map(|t| t.uuid).collect::<Vec<_>>(), vec![1, 3, 4]);
    let same = shorter.remove_track(&song(9));
    assert_eq!(same.tracks.len(), 3);
}

#[test]
fn a_playlist_from_its_metadata() {
    let md = PlaylistMd::with_uuid(5, "five".to_string());
    let copy = md.clone();
    assert_eq!((copy.uuid, copy.name.as_str()), (5, "five"));
    let playlist = Playlist::from_playlistmd(md, vec![song(2), song(1)]);
    assert_eq!((playlist.uuid, playlist.name.as_str()), (5, "five"));
    assert_eq!(playlist.tracks.iter().map(|t| t.uuid).collect::<Vec<_>>(), vec![2, 1]);
    let copy = playlist.clone();
    assert_eq!(copy.tracks.len(), 2);
}

#[test]
fn a_new_playlist_gets_a_random_identifier() {
    let a = PlaylistMd::new("a".to_string());
    let b = PlaylistMd::new("b".to_string());
    assert_eq!(a.name, "a");
    assert_eq!(b.name, "b");
    assert_eq!(a.uuid & LAYOUT_MASK, RANDOM_LAYOUT);
    assert_eq!(b.uuid & LAYOUT_MASK, RANDOM_LAYOUT);
    assert_ne!(a.uuid, b.uuid);
}

#[test]
fn a_tag_that_reads_as_an_identifier_is_kept() {
    let known = identify(Some("550e8400-e29b-41d4-a716-446655440000"));
    assert_eq!(known, Identity::Known(0x550e8400_e29b_41d4_a716_446655440000));
    assert_eq!(known.uuid(), 0x550e8400_e29b_41d4_a716_446655440000);
    let plain = identify(Some("a1a2a3a4b1b2c1c2d1d2d3d4d5d6d7d8"));
    assert_eq!(plain, Identity::Known(0xa1a2a3a4_b1b2_c1c2_d1d2_d3d4d5d6d7d8));
}

#[test]
fn a_file_without_a_usable_tag_gets_a_new_identifier() {
    for tag in [None, Some(""), Some("not an identifier"), Some("550e8400-e29b-41d4-a716")] {
        match identify(tag) {
            Identity::Fresh(uuid) => assert_eq!(uuid & LAYOUT_MASK, RANDOM_LAYOUT),
            Identity::Known(uuid) => panic!("{tag:?} read as {uuid}"),
        }
    }
}

#[test]
fn the_walk_reads_the_directory_found_last_first() {
    let mut walk = FileWalk::new("/music".to_string());
    let mp3 = "mp3".to_string();
    assert_eq!(walk.next_dir(), Some("/music".to_string()));
    walk.visit(
        vec![
            file("/music/a.mp3", Some("mp3")),
            dir("/music/rock"),
            file("/music/cover.png", Some("png")),
            file("/music/README", None),
            dir("/music/jazz"),
            file("/music/b.mp3", Some("mp3")),
        ],
        &mp3,
    );
    assert_eq!(walk.stack, vec!["/music/rock", "/music/jazz"]);
    assert_eq!(walk.files, vec!["/music/a.mp3", "/music/b.mp3"]);
    assert_eq!(walk.next_dir(), Some("/music/jazz".to_string()));
    walk.visit(vec![file("/music/jazz/c.mp3", Some("mp3")), file("/music/jazz/d.MP3", Some("MP3"))], &mp3);
    assert_eq!(walk.next_dir(), Some("/music/rock".to_string()));
    walk.visit(Vec::new(), &mp3);
    assert_eq!(walk.next_dir(), None);
    assert_eq!(walk.next_dir(), None);
    assert_eq!(walk.into_files(), vec!["/music/a.mp3", "/music/b.mp3", "/music/jazz/c.mp3"]);
}

#[test]
fn a_directory_with_an_extension_is_no_track() {
    let mut walk = FileWalk::new("/".to_string());
    walk.next_dir();
    walk.visit(
        vec![Entry { path: "/x.mp3".to_string(), is_dir: true, extension: Some("mp3".to_string()) }],
        &"mp3".to_string(),
    );
    assert!(walk.files.is_empty());
    assert_eq!(walk.stack, vec!["/x.mp3"]);
}

#[test]
fn lines_of_the_configuration_file() {
    let mut settings = Settings::default();
    assert!(settings.audio_dir_path.is_empty());
    assert_eq!(settings.volume, None);
    assert_eq!(settings.shuffle, Shuffle::Off);
    assert_eq!(settings.repeat, Repeat::Off);

    settings.apply(&"audio_path".to_string(), "/home/me/music".to_string());
    settings.apply(&"volume".to_string(), "0.35".to_string());
    settings.apply(&"shuffle".to_string(), "1".to_string());
    settings.apply(&"repeat".to_string(), "2".to_string());
    assert_eq!(settings.audio_dir_path, "/home/me/music");
    assert_eq!(settings.volume, Some("0.35".to_string()));
    assert_eq!(settings.shuffle, Shuffle::Random);
    assert_eq!(settings.repeat, Repeat::One);

    settings.apply(&"repeat".to_string(), "1".to_string());
    assert_eq!(settings.repeat, Repeat::Queue);
    settings.apply(&"repeat".to_string(), "0".to_string());
    assert_eq!(settings.repeat, Repeat::Off);
    settings.apply(&"shuffle".to_string(), "0".to_string());
    assert_eq!(settings.shuffle, Shuffle::Off);
}

#[test]
fn lines_that_mean_nothing_change_nothing() {
    let mut settings = Settings::default();
    settings.apply(&"shuffle".to_string(), "1".to_string());
    settings.apply(&"repeat".to_string(), "1".to_string());
    settings.apply(&"shuffle".to_string(), "2".to_string());
    settings.apply(&"shuffle".to_string(), "".to_string());
    settings.apply(&"repeat".to_string(), "3".to_string());
    settings.apply(&"repeat".to_string(), "one".to_string());
    settings.apply(&"colour".to_string(), "green".to_string());
    settings.apply(&"Volume".to_string(), "1".to_string());
    settings.apply(&"".to_string(), "1".to_string());
    assert_eq!(settings.shuffle, Shuffle::Random);
    assert_eq!(settings.repeat, Repeat::Queue);
    assert_eq!(settings.volume, None);
    assert!(settings.audio_dir_path.is_empty());
}

#[test]
fn modes_toggle_and_have_their_numbers() {
    assert_eq!(Shuffle::Off.toggle(), Shuffle::Random);
    assert_eq!(Shuffle::Random.toggle(), Shuffle::Off);
    assert_eq!(Repeat::Off.toggle(), Repeat::Queue);
    assert_eq!(Repeat::Queue.toggle(), Repeat::One);
    assert_eq!(Repeat::One.toggle(), Repeat::Off);
    assert_eq!((Shuffle::Off.as_code(), Shuffle::Random.as_code()), (0, 1));
    assert_eq!((Repeat::Off.as_code(), Repeat::Queue.as_code(), Repeat::One.as_code()), (0, 1, 2));
}

#[test]
fn cursor_arithmetic() {
    assert_eq!(move_up(5, 3, 2), (3, 3));
    assert_eq!(move_up(5, 3, 5), (0, 3));
    assert_eq!(move_up(2, 3, 4), (2, 1));
    assert_eq!(move_up(2, 3, 9), (2, 0));
    assert_eq!(move_up(0, 0, 0), (0, 0));
    assert_eq!(move_up(0, 0, u16::MAX), (0, 0));

    assert_eq!(move_down(0, 0, 1, 4, 10), (1, 0));
    assert_eq!(move_down(3, 0, 1, 4, 10), (3, 1));
    assert_eq!(move_down(3, 6, 1, 4, 10), (3, 6));
    assert_eq!(move_down(1, 0, 1, 4, 2), (1, 0));
    assert_eq!(move_down(0, 0, 1, 0, 0), (0, 0));
    assert_eq!(move_down(0, 0, 1, 0, 3), (0, 1));
    assert_eq!(move_down(0, u16::MAX, 1, 0, 100_000), (0, u16::MAX));
    assert_eq!(move_down(u16::MAX, 0, u16::MAX, u16::MAX, 3), (u16::MAX, 0));
}

#[test]
fn the_layout_cuts_an_area_into_rows_and_columns() {
    let area = Rect::new(2, 1, 80, 24);
    let parts = rows(area, &vec![Constraint::Length(2), Constraint::Fill(1), Constraint::Length(4)]);
    assert_eq!(
        parts,
        vec![Rect::new(2, 1, 80, 2), Rect::new(2, 3, 80, 18), Rect::new(2, 21, 80, 4)]
    );
    let parts = columns(area, &vec![Constraint::Length(10), Constraint::Fill(1)]);
    assert_eq!(parts, vec![Rect::new(2, 1, 10, 24), Rect::new(12, 1, 70, 24)]);
    assert!(rows(area, &Vec::new()).is_empty());
    assert_eq!(Rect::default(), Rect::new(0, 0, 0, 0));
}

#[test]
fn the_parts_of_an_area_lie_inside_it() {
    let constraints = vec![
        Constraint::Length(3),
        Constraint::Fill(1),
        Constraint::Length(4),
        Constraint::Fill(2),
    ];
    for area in [Rect::new(4, 9, 30, 12), Rect::new(4, 9, 2, 2), Rect::new(0, 0, 0, 0)] {
        let by_row = rows(area, &constraints);
        let by_column = columns(area, &constraints);
        assert_eq!(by_row.len(), 4);
        assert_eq!(by_column.len(), 4);
        for part in by_row.iter().chain(by_column.iter()) {
            assert!(area.x <= part.x && part.x + part.width <= area.x + area.width);
            assert!(area.y <= part.y && part.y + part.height <= area.y + area.height);
        }
        for part in &by_row {
            assert_eq!((part.x, part.width), (area.x, area.width));
        }
        for part in &by_column {
            assert_eq!((part.y, part.height), (area.y, area.height));
        }
    }
}
