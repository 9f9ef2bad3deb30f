use cohors::app::{App, AppMode, Command, EnterAction, Key, KeyKind, LoopMode};
use cohors::control::{CommandEffect, PlaybackState, PlayerCommand, SeekTarget};
use cohors::listing::DirEntry;
use cohors::radio::{RadioGroup, RadioStation};

fn station(name: &str, url: &str) -> RadioStation {
    RadioStation {
        name: name.to_string(),
        url: url.to_string(),
        description: None,
        homepage: None,
        tags: None,
        last_playing: None,
    }
}

fn entry(path: &str, is_dir: bool) -> DirEntry {
    DirEntry { path: path.to_string(), is_dir }
}

fn names(app: &App) -> Vec<String> {
    app.items
        .iter()
        .map(|p| {
            std::path::Path::new(p)
                .file_name()
                .map(|n| n.to_string_lossy().into_owned())
                .unwrap_or_else(|| "..".to_string())
        })
        .collect()
}

#[test]
fn test_navigation() {
    let mut app = App::new_test();
    app.items = vec!["a".to_string(), "b".to_string(), "c".to_string()];
    app.update_search_results();
    app.state.select(Some(0));

    app.next();
    assert_eq!(app.state.selected(), Some(1));
    app.next();
    assert_eq!(app.state.selected(), Some(2));
    app.next();
    assert_eq!(app.state.selected(), Some(0));

    app.previous();
    assert_eq!(app.state.selected(), Some(2));
    app.previous();
    assert_eq!(app.state.selected(), Some(1));
}

#[test]
fn test_navigation_none_selected() {
    let mut app = App::new_test();
    app.items = vec!["a".to_string()];
    app.update_search_results();
    app.state.select(None);
    app.next();
    assert_eq!(app.state.selected(), Some(0));

    app.state.select(None);
    app.previous();
    assert_eq!(app.state.selected(), Some(0));
}

#[test]
fn previous_after_next_returns_to_the_row() {
    let mut app = App::new_test();
    app.items = vec!["a".to_string(), "b".to_string(), "c".to_string()];
    app.update_search_results();
    for start in 0..3 {
        app.state.select(Some(start));
        app.next();
        app.previous();
        assert_eq!(app.state.selected(), Some(start));
    }
}

#[test]
fn test_load_directory() {
    let mut app = App::new_test();
    app.current_dir = "/music".to_string();
    app.load_directory(vec![
        entry("/music/test.mp3", false),
        entry("/music/test.txt", false),
        entry("/music/subdir", true),
    ]);

    let names = names(&app);
    assert!(names.contains(&"subdir".to_string()));
    assert!(names.contains(&"test.mp3".to_string()));
    assert!(!names.contains(&"test.txt".to_string()));
    assert_eq!(app.items[0], "/music/..");
    assert_eq!(app.state.selected(), Some(0));
}

#[test]
fn test_load_directory_sorting() {
    let mut app = App::new_test();
    app.current_dir = "/music".to_string();
    app.load_directory(vec![
        entry("/music/b.mp3", false),
        entry("/music/a.mp3", false),
        entry("/music/z_dir", true),
        entry("/music/a_dir", true),
    ]);

    let filtered: Vec<String> = names(&app).into_iter().filter(|n| n != "..").collect();
    assert_eq!(filtered, vec!["a_dir", "z_dir", "a.mp3", "b.mp3"]);
}

#[test]
fn load_directory_extensions_and_root() {
    let mut app = App::new_test();
    app.current_dir = "/".to_string();
    app.load_directory(vec![
        entry("/B.FLAC", false),
        entry("/a.Ogg", false),
        entry("/c.wav", false),
        entry("/noext", false),
    ]);
    assert_eq!(app.items, vec!["/B.FLAC", "/a.Ogg", "/c.wav"]);
}

#[test]
fn test_toggle_hidden_files() {
    let entries = || vec![entry("/m/normal.mp3", false), entry("/m/.hidden.mp3", false)];
    let mut app = App::new_test();
    app.current_dir = "/m".to_string();

    app.load_directory(entries());
    assert!(!names(&app).contains(&".hidden.mp3".to_string()));

    app.show_hidden = true;
    app.load_directory(entries());
    assert!(names(&app).contains(&".hidden.mp3".to_string()));

    app.show_hidden = false;
    app.load_directory(entries());
    assert!(!names(&app).contains(&".hidden.mp3".to_string()));

    app.toggle_hidden();
    assert!(app.show_hidden);
}

#[test]
fn test_enter_file() {
    let mut app = App::new_test();
    app.items = vec!["/m/test.mp3".to_string()];
    app.update_search_results();
    app.state.select(Some(0));

    match app.enter_directory() {
        EnterAction::OpenPath(p) => app.play_file(p),
        _ => panic!("expected a path to open"),
    }
    assert_eq!(app.current_track, Some("/m/test.mp3".to_string()));
    assert!(!app.is_paused);
}

#[test]
fn test_enter_directory_traversal() {
    let mut app = App::new_test();
    app.current_dir = "/tmp/x".to_string();
    app.load_directory(vec![entry("/tmp/x/subdir", true)]);
    let idx = app.items.iter().position(|p| p == "/tmp/x/subdir").unwrap();
    app.state.select(Some(idx));
    match app.enter_directory() {
        EnterAction::OpenPath(p) => app.enter_dir(p),
        _ => panic!("expected a path to open"),
    }
    assert_eq!(app.current_dir, "/tmp/x/subdir");

    app.load_directory(vec![]);
    let up = app.items.iter().position(|p| p.ends_with("..")).unwrap();
    app.state.select(Some(up));
    assert!(matches!(app.enter_directory(), EnterAction::GoUp));
    assert!(app.go_up());
    assert_eq!(app.current_dir, "/tmp/x");
}

#[test]
fn test_toggle_pause() {
    let mut app = App::new_test();
    assert!(!app.is_paused);
    app.toggle_pause();
    assert!(app.is_paused);
    app.toggle_pause();
    assert!(!app.is_paused);

    let mut silent = App::new(".".to_string(), false, None, "0.1.0".to_string());
    silent.toggle_pause();
    assert!(!silent.is_paused);
}

#[test]
fn test_track_switching() {
    let mut app = App::new_test();
    let (p1, p2, p3) = ("1.mp3".to_string(), "2.mp3".to_string(), "3.mp3".to_string());
    app.items = vec![p1.clone(), p2.clone(), p3.clone()];
    app.update_search_results();
    let dirs = vec![false, false, false];

    app.current_track = Some(p1.clone());
    app.next_track(&dirs);
    assert_eq!(app.current_track, Some(p2.clone()));
    app.next_track(&dirs);
    assert_eq!(app.current_track, Some(p3.clone()));
    assert_eq!(app.next_track(&dirs), None);
    assert_eq!(app.current_track, Some(p3.clone()));

    app.previous_track(&dirs);
    assert_eq!(app.current_track, Some(p2.clone()));
    app.previous_track(&dirs);
    assert_eq!(app.current_track, Some(p1.clone()));
}

#[test]
fn test_next_track_loop_all() {
    let mut app = App::new_test();
    let (p1, p2) = ("1.mp3".to_string(), "2.mp3".to_string());
    app.items = vec![p1.clone(), p2.clone()];
    app.update_search_results();
    app.loop_mode = LoopMode::All;
    app.current_track = Some(p2.clone());
    app.next_track(&vec![false, false]);
    assert_eq!(app.current_track, Some(p1));
}

#[test]
fn next_track_skips_directories() {
    let mut app = App::new_test();
    app.items = vec!["a.mp3".to_string(), "dir".to_string(), "b.mp3".to_string()];
    app.update_search_results();
    app.current_track = Some("a.mp3".to_string());
    assert_eq!(app.next_track(&vec![false, true, false]), Some("b.mp3".to_string()));
    assert_eq!(app.state.selected(), Some(2));
}

#[test]
fn next_track_finds_current_track_as_path() {
    let mut app = App::new_test();
    app.items = vec!["music/a.mp3".to_string(), "music/b.mp3".to_string()];
    app.update_search_results();
    app.current_track = Some("music//a.mp3".to_string());
    assert_eq!(app.next_track(&vec![false, false]), Some("music/b.mp3".to_string()));
    assert_eq!(app.state.selected(), Some(1));
}

#[test]
fn test_radio_navigation() {
    let mut app = App::new_test();
    app.mode = AppMode::Radio;
    app.radio_groups.push(RadioGroup {
        title: "Group 1".to_string(),
        stations: vec![station("1", "1")],
        is_expanded: true,
    });
    app.update_search_results();
    app.radio_state.select(Some(0));

    app.next();
    assert_eq!(app.radio_state.selected(), Some(1));
    app.next();
    assert_eq!(app.radio_state.selected(), Some(0));
    app.previous();
    assert_eq!(app.radio_state.selected(), Some(1));
    app.previous();
    assert_eq!(app.radio_state.selected(), Some(0));
}

#[test]
fn test_toggle_loop() {
    let mut app = App::new_test();
    assert!(matches!(app.loop_mode, LoopMode::Off));
    app.toggle_loop();
    assert!(matches!(app.loop_mode, LoopMode::Track));
    app.toggle_loop();
    assert!(matches!(app.loop_mode, LoopMode::All));
    app.toggle_loop();
    assert!(matches!(app.loop_mode, LoopMode::Off));
}

#[test]
fn test_on_search_input() {
    let mut app = App::new_test();
    app.items = vec!["apple".to_string(), "banana".to_string()];
    app.update_search_results();

    app.on_search_input('a');
    assert_eq!(app.search_query, "a");
    assert_eq!(app.filtered_items.len(), 2);

    app.on_search_input('p');
    assert_eq!(app.search_query, "ap");
    assert_eq!(app.filtered_items.len(), 1);
}

#[test]
fn test_on_search_backspace() {
    let mut app = App::new_test();
    app.items = vec!["apple".to_string(), "banana".to_string()];
    app.search_query = "ap".to_string();
    app.update_search_results();
    assert_eq!(app.filtered_items.len(), 1);

    app.on_search_backspace();
    assert_eq!(app.search_query, "a");
    assert_eq!(app.filtered_items.len(), 2);
}

#[test]
fn test_cancel_search() {
    let mut app = App::new_test();
    app.is_searching = true;
    app.search_query = "ap".to_string();
    app.update_search_results();

    app.cancel_search();
    assert!(!app.is_searching);
    assert!(app.search_query.is_empty());
    assert_eq!(app.filtered_items.len(), 0);
}

#[test]
fn test_submit_search() {
    let mut app = App::new_test();
    app.is_searching = true;
    app.search_query = "ap".to_string();
    app.submit_search();
    assert!(!app.is_searching);
    assert_eq!(app.search_query, "ap");
}

#[test]
fn search_ignores_case_of_the_file_name() {
    let mut app = App::new_test();
    app.items = vec!["/Music/Apple.MP3".to_string(), "/apple/pear.mp3".to_string()];
    app.search_query = "APP".to_string();
    app.update_search_results();
    assert_eq!(app.filtered_items, vec!["/Music/Apple.MP3".to_string()]);
}

#[test]
fn test_search_radio() {
    let mut app = App::new_test();
    app.mode = AppMode::Radio;
    app.radio_groups.push(RadioGroup {
        title: "Group 1".to_string(),
        stations: vec![station("Rock FM", "url1"), station("Jazz FM", "url2")],
        is_expanded: true,
    });
    app.search_query = "Rock".to_string();
    app.update_search_results();

    assert_eq!(app.filtered_radio_groups.len(), 1);
    assert_eq!(app.filtered_radio_groups[0].stations.len(), 1);
    assert_eq!(app.filtered_radio_groups[0].stations[0].name, "Rock FM");
}

#[test]
fn test_search_in_modes() {
    let mut app = App::new_test();
    app.mode = AppMode::Radio;
    app.on_search_input('a');
    assert_eq!(app.search_query, "a");
    assert_eq!(app.radio_state.selected(), Some(0));

    app.on_search_backspace();
    assert_eq!(app.search_query, "");
    assert_eq!(app.radio_state.selected(), Some(0));

    app.on_search_input('b');
    app.cancel_search();
    assert_eq!(app.search_query, "");
    assert!(!app.is_searching);
    assert_eq!(app.radio_state.selected(), Some(0));

    app.mode = AppMode::Favorites;
    app.on_search_input('a');
    assert_eq!(app.search_query, "a");
    assert_eq!(app.favorites_state.selected(), Some(0));

    app.on_search_backspace();
    assert_eq!(app.search_query, "");
    assert_eq!(app.favorites_state.selected(), Some(0));

    app.on_search_input('b');
    app.cancel_search();
    assert_eq!(app.search_query, "");
    assert!(!app.is_searching);
    assert_eq!(app.favorites_state.selected(), Some(0));
}

#[test]
fn test_radio_indexing() {
    let mut app = App::new_test();
    app.radio_groups.push(RadioGroup {
        title: "Group1".to_string(),
        stations: vec![station("Test", "http://test.com")],
        is_expanded: false,
    });
    app.radio_groups.push(RadioGroup {
        title: "Group2".to_string(),
        stations: vec![station("Test", "http://test.com")],
        is_expanded: true,
    });
    app.update_search_results();

    assert!(app.get_radio_station_at_index(0).is_none());
    assert!(app.get_radio_station_at_index(1).is_none());
    let s = app.get_radio_station_at_index(2);
    assert!(s.is_some());
    assert_eq!(s.unwrap().name, "Test");
    assert!(app.get_radio_station_at_index(3).is_none());
    assert_eq!(app.get_visible_radio_count(), 3);
}

#[test]
fn test_get_selected_station() {
    let mut app = App::new_test();
    app.mode = AppMode::Radio;
    app.radio_groups.push(RadioGroup {
        title: "G".to_string(),
        stations: vec![station("S1", "u1"), station("S2", "u2")],
        is_expanded: true,
    });
    app.update_search_results();
    app.radio_state.select(Some(2));
    assert_eq!(app.get_selected_station().unwrap().name, "S2");
    app.radio_state.select(Some(0));
    assert!(app.get_selected_station().is_none());
    app.radio_state.select(None);
    assert!(app.get_selected_station().is_none());
}

#[test]
fn test_favorites() {
    let mut app = App::new_test();
    app.items.push("test.mp3".to_string());
    app.update_search_results();
    app.state.select(Some(0));

    assert!(app.toggle_favorite());
    assert!(app.favorites.is_favorite_file(&"test.mp3".to_string()));
    assert!(app.toggle_favorite());
    assert!(!app.favorites.is_favorite_file(&"test.mp3".to_string()));

    app.mode = AppMode::Radio;
    let s = station("Test Station", "http://test.com");
    app.radio_groups.push(RadioGroup {
        title: "Test Group".to_string(),
        stations: vec![s.clone()],
        is_expanded: true,
    });
    app.update_search_results();
    app.radio_state.select(Some(1));

    app.toggle_favorite();
    assert!(app.favorites.is_favorite_station(&s));
    app.toggle_favorite();
    assert!(!app.favorites.is_favorite_station(&s));
}

#[test]
fn test_favorites_navigation() {
    let mut app = App::new_test();
    let s = station("Fav Station", "http://fav.com");
    app.favorites.files.push("test_fav.mp3".to_string());
    app.favorites.files.push("/tmp".to_string());
    app.favorites.stations.push(s.clone());
    app.mode = AppMode::Favorites;

    app.favorites_state.select(Some(0));
    match app.enter_directory() {
        EnterAction::OpenFavoritePath(p) => app.play_file(p),
        _ => panic!("expected a favorite path"),
    }
    assert_eq!(app.current_track, Some("test_fav.mp3".to_string()));

    app.favorites_state.select(Some(1));
    match app.enter_directory() {
        EnterAction::OpenFavoritePath(p) => app.open_favorite_dir(p),
        _ => panic!("expected a favorite path"),
    }
    assert_eq!(app.mode, AppMode::FileSystem);
    assert_eq!(app.current_dir, "/tmp");

    app.mode = AppMode::Favorites;
    app.favorites_state.select(Some(2));
    match app.enter_directory() {
        EnterAction::PlayStation(st) => {
            app.play_radio(&st);
        },
        _ => panic!("expected a station"),
    }
    assert_eq!(app.current_track, Some("Fav Station".to_string()));
}

#[test]
fn test_favorites_navigation_wrap() {
    let mut app = App::new_test();
    app.mode = AppMode::Favorites;
    app.favorites.files.push("1".to_string());
    app.favorites.files.push("2".to_string());

    app.favorites_state.select(Some(1));
    app.next();
    assert_eq!(app.favorites_state.selected(), Some(0));

    app.favorites_state.select(Some(0));
    app.previous();
    assert_eq!(app.favorites_state.selected(), Some(1));
}

#[test]
fn test_radio_enter_directory_logic() {
    let mut app = App::new_test();
    app.mode = AppMode::Radio;
    app.radio_groups.push(RadioGroup {
        title: "Group".to_string(),
        stations: vec![station("Station", "http://url")],
        is_expanded: false,
    });
    app.update_search_results();

    app.radio_state.select(Some(0));
    assert!(matches!(app.enter_directory(), EnterAction::ToggledGroup));
    assert!(app.radio_groups[0].is_expanded);

    app.radio_state.select(Some(1));
    match app.enter_directory() {
        EnterAction::PlayStation(st) => {
            assert!(app.play_radio(&st));
        },
        _ => panic!("expected a station"),
    }
    assert_eq!(app.current_track, Some("Station".to_string()));

    app.radio_state.select(Some(0));
    app.enter_directory();
    assert!(!app.radio_groups[0].is_expanded);
}

#[test]
fn test_play_radio_no_sink() {
    let mut app = App::new(".".to_string(), false, None, "0.1.0".to_string());
    assert!(!app.play_radio(&station("Test", "http://x")));
    assert_eq!(app.current_track, Some("Test".to_string()));
}

#[test]
fn test_play_file_no_sink() {
    let mut app = App::new(".".to_string(), false, None, "0.1.0".to_string());
    app.play_file("test.mp3".to_string());
    assert_eq!(app.last_error, Some("Audio not available".to_string()));
}

#[test]
fn test_mpris_commands() {
    let mut app = App::new_test();

    app.is_paused = false;
    app.handle_mpris_command(PlayerCommand::Pause, 0, None);
    assert!(app.is_paused);
    app.handle_mpris_command(PlayerCommand::Play, 0, None);
    assert!(!app.is_paused);
    app.handle_mpris_command(PlayerCommand::PlayPause, 0, None);
    assert!(app.is_paused);

    app.is_paused = false;
    app.handle_mpris_command(PlayerCommand::Stop, 0, None);
    assert!(app.is_paused);

    app.items = vec!["a".to_string(), "b".to_string()];
    app.update_search_results();
    app.state.select(Some(0));
    app.current_track = Some("a".to_string());
    let dirs = vec![false, false];

    assert_eq!(app.handle_mpris_command(PlayerCommand::Next, 0, None), CommandEffect::NextTrack);
    app.next_track(&dirs);
    assert_eq!(app.state.selected(), Some(1));

    assert_eq!(
        app.handle_mpris_command(PlayerCommand::Previous, 0, None),
        CommandEffect::PreviousTrack
    );
    app.previous_track(&dirs);
    assert_eq!(app.state.selected(), Some(0));

    assert_eq!(
        app.handle_mpris_command(PlayerCommand::Seek(5_000_000), 10_000_000, None),
        CommandEffect::SeekTo(SeekTarget::Micros(15_000_000))
    );
    assert_eq!(
        app.handle_mpris_command(PlayerCommand::Seek(-2_000_000), 15_000_000, None),
        CommandEffect::SeekTo(SeekTarget::Micros(13_000_000))
    );
    assert_eq!(
        app.handle_mpris_command(PlayerCommand::SetPosition(30_000_000), 13_000_000, None),
        CommandEffect::SeekTo(SeekTarget::Micros(30_000_000))
    );

    app.handle_mpris_command(PlayerCommand::SetLoop(LoopMode::Track), 0, None);
    assert!(matches!(app.loop_mode, LoopMode::Track));
    app.handle_mpris_command(PlayerCommand::SetLoop(LoopMode::All), 0, None);
    assert!(matches!(app.loop_mode, LoopMode::All));
    app.handle_mpris_command(PlayerCommand::SetLoop(LoopMode::Off), 0, None);
    assert!(matches!(app.loop_mode, LoopMode::Off));
}

#[test]
fn seek_stays_within_the_track() {
    let mut app = App::new_test();
    assert_eq!(
        app.handle_mpris_command(PlayerCommand::Seek(-20_000_000), 5_000_000, Some(60_000_000)),
        CommandEffect::SeekTo(SeekTarget::Micros(0))
    );
    assert_eq!(
        app.handle_mpris_command(PlayerCommand::Seek(90_000_000), 5_000_000, Some(60_000_000)),
        CommandEffect::SeekTo(SeekTarget::End)
    );
    assert_eq!(
        app.handle_mpris_command(PlayerCommand::SetPosition(70_000_000), 0, Some(60_000_000)),
        CommandEffect::SeekTo(SeekTarget::End)
    );
}

#[test]
fn test_update_mpris_state() {
    let mut app = App::new_test();
    assert_eq!(app.playback_status(false), PlaybackState::Stopped);
    assert_eq!(app.mpris_title(), "");

    app.current_track = Some("/music/song.mp3".to_string());
    app.is_paused = false;
    assert_eq!(app.playback_status(false), PlaybackState::Playing);
    assert_eq!(app.playback_status(true), PlaybackState::Stopped);
    app.is_paused = true;
    assert_eq!(app.playback_status(false), PlaybackState::Paused);
    assert_eq!(app.mpris_title(), "song.mp3");
}

#[test]
fn test_auto_advance_loop_track() {
    let mut app = App::new_test();
    app.loop_mode = LoopMode::Track;
    app.current_track = Some("1.mp3".to_string());
    app.is_paused = false;
    match app.auto_advance(true) {
        cohors::app::AutoAdvance::Replay(p) => assert_eq!(p, "1.mp3"),
        _ => panic!("expected a replay"),
    }
    assert!(matches!(app.auto_advance(false), cohors::app::AutoAdvance::Nothing));
}

#[test]
fn test_auto_advance_loop_all() {
    let mut app = App::new_test();
    app.items = vec!["1.mp3".to_string(), "2.mp3".to_string()];
    app.update_search_results();
    app.loop_mode = LoopMode::All;
    app.current_track = Some("1.mp3".to_string());
    app.is_paused = false;
    assert!(matches!(app.auto_advance(true), cohors::app::AutoAdvance::NextTrack));
    app.next_track(&vec![false, false]);
    assert_eq!(app.current_track, Some("2.mp3".to_string()));
}

#[test]
fn switching_views_comes_back() {
    let mut app = App::new_test();
    app.switch_mode();
    assert_eq!(app.mode, AppMode::Radio);
    app.switch_mode();
    assert_eq!(app.mode, AppMode::Favorites);
    app.switch_mode();
    assert_eq!(app.mode, AppMode::FileSystem);

    app.subsonic_clients = vec![cohors::navidrome::SubsonicClient::new(
        cohors::config::NavidromeSourceConfig {
            server_url: "http://s".to_string(),
            username: "u".to_string(),
            password: None,
            auth_token: None,
        },
    )];
    for expected in [AppMode::Radio, AppMode::Favorites, AppMode::Subsonic, AppMode::FileSystem] {
        app.switch_mode();
        assert_eq!(app.mode, expected);
    }
}

#[test]
fn play_pause_twice_restores() {
    let mut app = App::new_test();
    let before = app.is_paused;
    app.handle_mpris_command(PlayerCommand::PlayPause, 0, None);
    app.handle_mpris_command(PlayerCommand::PlayPause, 0, None);
    assert_eq!(app.is_paused, before);
    app.handle_mpris_command(PlayerCommand::Pause, 0, None);
    app.handle_mpris_command(PlayerCommand::Pause, 0, None);
    assert!(app.is_paused);
    app.handle_mpris_command(PlayerCommand::Play, 0, None);
    assert!(!app.is_paused);
}

#[test]
fn test_play_radio_sets_receiver() {
    let mut app = App::new_test();
    let mut s = station("Test Radio", "http://test.com");
    s.description = Some("Test".to_string());
    // With an audio output the stream is to be fetched.
    assert!(app.play_radio(&s));
}

#[test]
fn test_on_tick_receives_error() {
    let mut app = App::new_test();
    app.on_source_loaded(Err("Test Error".to_string()));
    assert_eq!(app.last_error, Some("Test Error".to_string()));
    assert!(app.is_paused);
}

#[test]
fn test_play_file_not_found() {
    let mut app = App::new_test();
    app.play_file("non_existent.mp3".to_string());
    assert_eq!(app.current_track, Some("non_existent.mp3".to_string()));
}

#[test]
fn test_check_for_updates_integration() {
    let mut app = App::new_test();
    app.on_update_checked(Some("9.9.9".to_string()));
    assert_eq!(app.latest_version, Some("9.9.9".to_string()));

    let mut app = App::new_test();
    app.on_update_checked(None);
    assert_eq!(app.latest_version, None);
}

#[test]
fn test_notification_expiry() {
    let mut app = App::new_test();
    app.notify("Test".to_string());
    app.expire_notification(4_000_000_000);
    assert!(app.notification.is_none());
}

#[test]
fn notification_stays_for_three_seconds() {
    let mut app = App::new_test();
    app.notify("Test".to_string());
    app.expire_notification(3_000_000_000);
    assert_eq!(app.notification, Some("Test".to_string()));
}

// The key loop of the terminal runs in the program; here each key goes through the
// library's key table and the library call its command stands for. Volume is a float kept
// by the program, and listing a directory reads the disk, so those two steps are left out.
#[test]
fn test_run_app() {
    let mut app = App::new_test();
    app.items.push("a".to_string());
    app.items.push("b".to_string());
    app.update_search_results();
    app.state.select(Some(0));

    let keys = [
        Key::Char('j'),
        Key::Char('k'),
        Key::Tab,
        Key::Tab,
        Key::Tab,
        Key::Char('+'),
        Key::Char('-'),
        Key::Left,
        Key::Right,
        Key::Char(' '),
        Key::Enter,
        Key::Backspace,
        Key::Char('?'),
        Key::Esc,
        Key::Char('h'),
        Key::Char('q'),
    ];
    let dirs = vec![false, false];
    let mut quit = false;
    for key in keys {
        match app.key_command(key, KeyKind::Press) {
            Command::Quit => {
                quit = true;
                break;
            },
            Command::Next => app.next(),
            Command::Previous => app.previous(),
            Command::SwitchMode => app.switch_mode(),
            Command::VolumeUp | Command::VolumeDown => {},
            Command::PreviousTrack => {
                if let Some(p) = app.previous_track(&dirs) {
                    app.play_file(p);
                }
            },
            Command::NextTrack => {
                if let Some(p) = app.next_track(&dirs) {
                    app.play_file(p);
                }
            },
            Command::TogglePause => app.toggle_pause(),
            Command::Enter => match app.enter_directory() {
                EnterAction::OpenPath(p) => app.play_file(p),
                _ => {},
            },
            Command::GoUp => {
                app.go_up();
            },
            Command::ShowHelp => app.set_help(true),
            Command::HideHelp => app.set_help(false),
            Command::ToggleHidden => app.toggle_hidden(),
            other => panic!("unexpected command {:?}", other),
        }
    }
    assert!(quit);
    assert_eq!(app.state.selected(), Some(0));
    assert!(matches!(app.mode, AppMode::FileSystem));
}
