use cohors::app::{AddModalState, App, AppMode, ConfirmationContext, Key, LoopMode, ModalOutcome};
use cohors::audiobookshelf::{
    duration_str, login_url, play_path, podcast_libraries, published_date, AbsLibrary, AbsPodcast,
    AbsPodcastMedia, AbsPodcastMetadata, AudioBookshelfClient,
};
use cohors::config::{
    add_source_to_config, add_station_to_config, delete_navidrome_from_config,
    delete_source_from_config, delete_station_from_config, edit_source_in_config,
    edit_station_in_config, AbsSourceConfig, IndividualStationConfig, NavidromeConfig,
    NavidromeSourceConfig, RadioConfig, RadioSourceConfig, StationMapping,
};
use cohors::favorites::Favorites;
use cohors::listing::DirEntry;
use cohors::locations::{config_file, station_file_lookup, StationFileLookup};
use cohors::navidrome::SubsonicClient;
use cohors::radio::{RadioGroup, RadioStation};
use cohors::startup::Args;
use cohors::view::{
    bar_width, file_row_label, status_labels, group_header_label, group_info, loop_label, notification_area,
    query_label, station_info, station_row_label, time_label, version_label, visible_radio_rows,
    window_offset,
};

fn station(name: &str, url: &str) -> RadioStation {
    RadioStation {
        name: name.to_string(),
        url: url.to_string(),
        description: None,
        homepage: None,
        tags: None,
        last_playing: None,
    }
}

fn type_text(app: &mut App, s: &str) {
    for c in s.chars() {
        app.handle_add_modal_input(Key::Char(c));
    }
}

// --- dialog ---

#[test]
fn test_add_modal_flow() {
    let mut app = App::new_test();
    app.open_add_modal();
    assert!(matches!(app.add_modal_state, Some(AddModalState::Selection)));

    app.handle_add_modal_input(Key::Char('s'));
    if let Some(AddModalState::InputStation { name, focused_field, .. }) = &app.add_modal_state {
        assert_eq!(name, "");
        assert_eq!(*focused_field, 0);
    } else {
        panic!("Expected InputStation state");
    }

    type_text(&mut app, "Test");
    app.handle_add_modal_input(Key::Tab);
    type_text(&mut app, "http");

    match app.handle_add_modal_input(Key::Enter) {
        ModalOutcome::SaveStation { station, original_url } => {
            assert_eq!(station.name, "Test");
            assert_eq!(station.url, "http");
            assert!(original_url.is_none());
            let mut radio = RadioConfig { sources: vec![], individual_stations: vec![] };
            assert!(add_station_to_config(&mut radio, &station));
            assert_eq!(radio.individual_stations[0].name, "Test");
            assert!(app.on_station_saved(Ok(()), &station.name));
        },
        _ => panic!("expected a station to save"),
    }
    assert!(app.add_modal_state.is_none());
    assert_eq!(app.notification.as_deref(), Some("Saved: Test"));
}

#[test]
fn test_add_modal_source_flow() {
    let mut app = App::new_test();
    app.open_add_modal();
    app.handle_add_modal_input(Key::Char('r'));
    if let Some(AddModalState::InputSource { title, focused_field, .. }) = &app.add_modal_state {
        assert_eq!(title, "");
        assert_eq!(*focused_field, 0);
    } else {
        panic!("Expected InputSource state");
    }

    type_text(&mut app, "Src");
    app.handle_add_modal_input(Key::Tab);
    type_text(&mut app, "http");
    app.handle_add_modal_input(Key::Tab);
    app.handle_add_modal_input(Key::Tab);
    type_text(&mut app, "n");
    app.handle_add_modal_input(Key::Tab);
    type_text(&mut app, "u");

    match app.handle_add_modal_input(Key::Enter) {
        ModalOutcome::SaveSource { source, original_title } => {
            assert_eq!(source.title, "Src");
            assert_eq!(source.json_url, "http");
            assert!(source.container.is_none());
            assert_eq!(source.mapping.station_name, "n");
            assert_eq!(source.mapping.station_url, "u");
            assert!(original_title.is_none());
            assert!(app.on_source_saved(Ok(()), &source.title));
        },
        _ => panic!("expected a source to save"),
    }
    assert!(app.add_modal_state.is_none());
}

#[test]
fn test_add_modal_navigation() {
    let mut app = App::new_test();
    app.open_add_modal();
    app.handle_add_modal_input(Key::Char('s'));
    let focus = |app: &App| match &app.add_modal_state {
        Some(AddModalState::InputStation { focused_field, .. }) => *focused_field,
        _ => panic!("Expected InputStation state"),
    };
    assert_eq!(focus(&app), 0);
    app.handle_add_modal_input(Key::Tab);
    assert_eq!(focus(&app), 1);
    app.handle_add_modal_input(Key::BackTab);
    assert_eq!(focus(&app), 0);
    app.handle_add_modal_input(Key::BackTab);
    assert_eq!(focus(&app), 4);
}

#[test]
fn test_add_modal_cancel() {
    let mut app = App::new_test();
    app.open_add_modal();
    assert!(app.add_modal_state.is_some());
    app.handle_add_modal_input(Key::Esc);
    assert!(app.add_modal_state.is_none());

    app.open_add_modal();
    app.handle_add_modal_input(Key::Char('s'));
    assert!(matches!(app.add_modal_state, Some(AddModalState::InputStation { .. })));
    app.handle_add_modal_input(Key::Esc);
    assert!(app.add_modal_state.is_none());
}

#[test]
fn test_add_modal_validation() {
    let mut app = App::new_test();
    app.open_add_modal();
    app.handle_add_modal_input(Key::Char('s'));
    assert!(matches!(app.handle_add_modal_input(Key::Enter), ModalOutcome::Nothing));
    assert!(app.notification.as_ref().unwrap().contains("required"));
    assert!(matches!(app.add_modal_state, Some(AddModalState::InputStation { .. })));

    app.add_modal_state = None;
    app.notification = None;
    app.open_add_modal();
    app.handle_add_modal_input(Key::Char('r'));
    app.handle_add_modal_input(Key::Enter);
    assert!(app.notification.as_ref().unwrap().contains("required"));
    assert!(matches!(app.add_modal_state, Some(AddModalState::InputSource { .. })));
}

#[test]
fn typing_then_backspace_restores_the_field() {
    let mut app = App::new_test();
    app.open_add_modal();
    app.handle_add_modal_input(Key::Char('s'));
    type_text(&mut app, "ab");
    app.handle_add_modal_input(Key::Char('c'));
    app.handle_add_modal_input(Key::Backspace);
    match &app.add_modal_state {
        Some(AddModalState::InputStation { name, .. }) => assert_eq!(name, "ab"),
        _ => panic!("Expected InputStation state"),
    }
}

fn custom_radio() -> (App, RadioConfig) {
    let mut app = App::new_test();
    app.radio_groups = vec![RadioGroup {
        title: "Custom Stations".to_string(),
        stations: vec![station("Test Station", "http://test.com")],
        is_expanded: true,
    }];
    app.update_search_results();
    app.radio_state.select(Some(1));
    app.mode = AppMode::Radio;
    let config = RadioConfig {
        individual_stations: vec![IndividualStationConfig {
            name: "Test Station".to_string(),
            station_url: "http://test.com".to_string(),
            description: None,
            homepage: None,
            tags: None,
        }],
        sources: vec![],
    };
    (app, config)
}

#[test]
fn test_open_delete_modal_station() {
    let (mut app, config) = custom_radio();
    app.open_delete_modal(Some(&config));
    match &app.add_modal_state {
        Some(AddModalState::Confirmation { context: ConfirmationContext::DeleteStation(url), message }) => {
            assert_eq!(url, "http://test.com");
            assert_eq!(message, "Are you sure you want to delete station 'Test Station'?");
        },
        _ => panic!("Expected Confirmation state"),
    }
}

#[test]
fn test_confirm_delete_station() {
    let (mut app, mut config) = custom_radio();
    app.open_delete_modal(Some(&config));
    match app.handle_add_modal_input(Key::Char('y')) {
        ModalOutcome::ConfirmDelete(ConfirmationContext::DeleteStation(url)) => {
            assert!(delete_station_from_config(&mut config, &url));
            assert!(config.individual_stations.is_empty());
        },
        _ => panic!("expected a confirmed deletion"),
    }
}

#[test]
fn test_cancel_delete() {
    let (mut app, config) = custom_radio();
    app.open_delete_modal(Some(&config));
    assert!(matches!(app.handle_add_modal_input(Key::Char('n')), ModalOutcome::Nothing));
    assert!(app.add_modal_state.is_none());
}

#[test]
fn test_open_edit_modal_station() {
    let (mut app, config) = custom_radio();
    app.open_edit_modal(Some(&config));
    match &app.add_modal_state {
        Some(AddModalState::InputStation { name, url, original_url, .. }) => {
            assert_eq!(name, "Test Station");
            assert_eq!(url, "http://test.com");
            assert_eq!(original_url.as_deref(), Some("http://test.com"));
        },
        _ => panic!("Expected InputStation state"),
    }
}

// --- configuration edits ---

fn source(title: &str) -> RadioSourceConfig {
    RadioSourceConfig {
        title: title.to_string(),
        json_url: "http://x".to_string(),
        container: None,
        mapping: StationMapping {
            station_name: "name".to_string(),
            station_url: "url".to_string(),
            description: None,
            homepage: None,
            tags: None,
            last_playing: None,
        },
    }
}

#[test]
fn test_add_station_to_config_duplicate() {
    let mut radio = RadioConfig { sources: vec![], individual_stations: vec![] };
    let s = station("A", "http://a");
    assert!(add_station_to_config(&mut radio, &s));
    assert!(!add_station_to_config(&mut radio, &s));
    assert_eq!(radio.individual_stations.len(), 1);
}

#[test]
fn test_edit_station_in_config() {
    let mut radio = RadioConfig { sources: vec![], individual_stations: vec![] };
    add_station_to_config(&mut radio, &station("A", "http://a"));
    assert!(edit_station_in_config(&mut radio, "http://a", &station("B", "http://b")));
    assert_eq!(radio.individual_stations[0].name, "B");
    assert!(!edit_station_in_config(&mut radio, "http://zzz", &station("C", "http://c")));
    assert!(delete_station_from_config(&mut radio, "http://b"));
    assert!(!delete_station_from_config(&mut radio, "http://b"));
}

#[test]
fn test_edit_source_in_config() {
    let mut radio = RadioConfig { sources: vec![], individual_stations: vec![] };
    assert!(add_source_to_config(&mut radio, &source("S")));
    assert!(!add_source_to_config(&mut radio, &source("S")));
    assert!(edit_source_in_config(&mut radio, "S", &source("T")));
    assert_eq!(radio.sources[0].title, "T");
    assert!(delete_source_from_config(&mut radio, "T"));
    assert!(radio.sources.is_empty());
}

#[test]
fn test_delete_navidrome_from_config() {
    let server = |u: &str| NavidromeSourceConfig {
        server_url: u.to_string(),
        username: "u".to_string(),
        password: None,
        auth_token: None,
    };
    let mut nav = Some(NavidromeConfig { sources: vec![server("http://a"), server("http://b")] });
    assert!(delete_navidrome_from_config(&mut nav, "http://a"));
    assert_eq!(nav.as_ref().unwrap().sources.len(), 1);
    assert!(!delete_navidrome_from_config(&mut nav, "http://zzz"));
    let mut none: Option<NavidromeConfig> = None;
    assert!(!delete_navidrome_from_config(&mut none, "http://a"));
}

// --- favorites ---

#[test]
fn favorites_toggle_twice_restores() {
    let mut f = Favorites { files: vec![], stations: vec![] };
    f.toggle_file("a.mp3".to_string());
    assert!(f.is_favorite_file(&"a.mp3".to_string()));
    f.toggle_file("a.mp3".to_string());
    assert!(f.files.is_empty());
    let s = station("S", "http://s");
    f.toggle_station(s.clone());
    assert!(f.is_favorite_station(&station("other name", "http://s")));
    f.toggle_station(s);
    assert!(f.stations.is_empty());
}

#[test]
fn favorites_compare_paths_by_components() {
    let mut f = Favorites { files: vec![], stations: vec![] };
    f.toggle_file("music/a.mp3".to_string());
    assert!(f.is_favorite_file(&"music//a.mp3".to_string()));
    assert!(f.is_favorite_file(&"music/a.mp3/".to_string()));
    assert!(!f.is_favorite_file(&"/music/a.mp3".to_string()));
    f.toggle_file("music/./a.mp3".to_string());
    assert!(f.files.is_empty());
}

// --- music server ---

fn baseline_config(url: &str) -> NavidromeSourceConfig {
    NavidromeSourceConfig {
        username: "testuser".to_string(),
        password: Some("testpass".to_string()),
        server_url: url.to_string(),
        auth_token: None,
    }
}

#[test]
fn test_build_url() {
    let client = SubsonicClient::new(baseline_config("http://localhost:4533"));
    assert_eq!(client.build_url("ping"), "http://localhost:4533/rest/ping");
    let client2 = SubsonicClient::new(baseline_config("http://localhost:4533/"));
    assert_eq!(client2.build_url("ping"), "http://localhost:4533/rest/ping");
}

#[test]
fn test_generate_auth_params() {
    let client = SubsonicClient::new(baseline_config("http://localhost:4533"));
    let auth_params = client.generate_auth_params();

    let u = auth_params.iter().find(|(k, _)| *k == "u").unwrap();
    assert_eq!(u.1, "testuser");
    let f = auth_params.iter().find(|(k, _)| *k == "f").unwrap();
    assert_eq!(f.1, "json");

    let t = auth_params.iter().find(|(k, _)| *k == "t");
    let s = auth_params.iter().find(|(k, _)| *k == "s");
    assert!(t.is_some());
    assert!(s.is_some());

    let payload = format!("testpass{}", s.unwrap().1);
    let expected_token = format!("{:x}", md5::compute(payload));
    assert_eq!(&t.unwrap().1, &expected_token);
}

#[test]
fn auth_params_with_a_known_salt() {
    let client = SubsonicClient::new(baseline_config("http://localhost:4533"));
    let params = client.auth_params_with_salt("abc123".to_string());
    let t = params.iter().find(|(k, _)| *k == "t").unwrap();
    assert_eq!(t.1, format!("{:x}", md5::compute("testpassabc123")));
    assert_ne!(t.1, "testpassabc123");
    let url = client.stream_url_with(params, "a b");
    assert!(url.ends_with("&id=a%20b"));
}

#[test]
fn test_get_stream_url() {
    let client = SubsonicClient::new(baseline_config("http://localhost:4533"));
    let stream_url = client.get_stream_url("my_track_123");
    assert!(stream_url.starts_with("http://localhost:4533/rest/stream?"));
    assert!(stream_url.contains("id=my_track_123"));
    assert!(stream_url.contains("u=testuser"));
    assert!(stream_url.contains("c=cohors"));
    assert!(stream_url.contains("v=1.16.1"));
}

// --- podcasts ---

fn make_client(url: &str) -> AudioBookshelfClient {
    AudioBookshelfClient::new(AbsSourceConfig {
        server_url: url.to_string(),
        username: "testuser".to_string(),
        api_token: "testtoken".to_string(),
    })
}

fn bare_podcast(id: &str, title: &str, author: Option<&str>) -> AbsPodcast {
    AbsPodcast {
        id: id.to_string(),
        media: AbsPodcastMedia {
            metadata: AbsPodcastMetadata {
                title: title.to_string(),
                author: author.map(str::to_string),
                description: None,
            },
            num_episodes: None,
        },
    }
}

/// The whole seconds of a positive length, none otherwise, as the player hands them on.
fn whole_secs(d: Option<f64>) -> Option<u64> {
    match d {
        Some(d) if d > 0.0 => Some(d as u64),
        _ => None,
    }
}

#[test]
fn test_build_url_no_trailing_slash() {
    let client = make_client("http://abs.local:13378");
    assert_eq!(client.build_url("/api/libraries"), "http://abs.local:13378/api/libraries");
}

#[test]
fn test_build_url_strips_trailing_slash() {
    let client = make_client("http://abs.local:13378/");
    assert_eq!(client.build_url("/api/libraries"), "http://abs.local:13378/api/libraries");
}

#[test]
fn test_auth_header() {
    assert_eq!(make_client("http://abs.local").auth_header(), "Bearer testtoken");
}

#[test]
fn test_episode_published_date_valid() {
    assert_eq!(published_date(Some(946684800000)), "2000-01-01");
}

#[test]
fn test_episode_published_date_none() {
    assert_eq!(published_date(None), "Unknown");
}

#[test]
fn test_episode_published_date_zero() {
    assert_eq!(published_date(Some(0)), "Unknown");
}

#[test]
fn published_dates_across_the_calendar() {
    assert_eq!(published_date(Some(1)), "1970-01-01");
    assert_eq!(published_date(Some(951782400000)), "2000-02-29");
    assert_eq!(published_date(Some(1709164800000)), "2024-02-29");
    assert_eq!(published_date(Some(1735689599999)), "2024-12-31");
    assert_eq!(published_date(Some(-5)), "Unknown");
}

#[test]
fn test_episode_duration_str_valid() {
    assert_eq!(duration_str(whole_secs(Some(3661.0))), "61:01");
}

#[test]
fn test_episode_duration_str_whole_hours() {
    assert_eq!(duration_str(whole_secs(Some(3600.0))), "60:00");
}

#[test]
fn test_episode_duration_str_none() {
    assert_eq!(duration_str(whole_secs(None)), "--:--");
}

#[test]
fn test_episode_duration_str_zero() {
    assert_eq!(duration_str(whole_secs(Some(0.0))), "--:--");
}

#[test]
fn test_podcast_title() {
    assert_eq!(bare_podcast("p1", "My Show", None).title(), "My Show");
}

#[test]
fn test_podcast_author_some() {
    assert_eq!(bare_podcast("p1", "My Show", Some("Jane")).author(), Some("Jane"));
}

#[test]
fn test_podcast_author_none() {
    assert_eq!(bare_podcast("p1", "My Show", None).author(), None);
}

#[test]
fn test_podcast_num_episodes_some() {
    let mut p = bare_podcast("p1", "My Show", None);
    p.media.num_episodes = Some(42);
    assert_eq!(p.num_episodes(), 42);
}

#[test]
fn test_podcast_num_episodes_none() {
    assert_eq!(bare_podcast("p1", "My Show", None).num_episodes(), 0);
}

#[test]
fn podcast_libraries_filter_by_media_type() {
    let lib = |id: &str, t: &str| AbsLibrary {
        id: id.to_string(),
        name: format!("Lib {id}"),
        media_type: t.to_string(),
    };
    let kept = podcast_libraries(vec![lib("lib1", "podcast"), lib("lib2", "book")]);
    assert_eq!(kept.len(), 1);
    assert_eq!(kept[0].id, "lib1");
    assert!(podcast_libraries(vec![lib("x", "book")]).is_empty());
}

#[test]
fn podcast_stream_urls() {
    let client = make_client("http://abs.local/");
    assert_eq!(
        client.stream_url("http://cdn.example.com/ep1.mp3"),
        "http://cdn.example.com/ep1.mp3?token=testtoken"
    );
    assert_eq!(
        client.stream_url("/s/item/pod1/ep1.mp3"),
        "http://abs.local/s/item/pod1/ep1.mp3?token=testtoken"
    );
    assert_eq!(login_url("http://abs.local//"), "http://abs.local/login");
}

// --- screen ---

#[test]
fn screen_labels() {
    assert_eq!(time_label(61, 0), "01:01");
    assert_eq!(time_label(5, 3723), "00:05 / 62:03");
    assert_eq!(loop_label(cohors::app::LoopMode::Track), "Loop: Track");
    assert_eq!(version_label("0.1.0", &None), "0.1.0 ");
    assert_eq!(
        version_label("0.1.0", &Some("0.2.0".to_string())),
        "0.1.0 -> 0.2.0 Update Available "
    );
    assert_eq!(query_label(true, "ab").as_deref(), Some("Search: ab_"));
    assert_eq!(query_label(false, "ab").as_deref(), Some("Filter: ab"));
    assert_eq!(query_label(false, ""), None);
    assert_eq!(file_row_label("/m/a.mp3", true, false), "a.mp3 ★");
    assert_eq!(file_row_label("/m/dir", false, true), "dir/");
    assert_eq!(file_row_label("/m/..", false, true), "..");
    let g = RadioGroup {
        title: "G".to_string(),
        stations: vec![station("S", "http://s")],
        is_expanded: false,
    };
    assert_eq!(group_header_label(&g), "> G");
    assert_eq!(group_info(&g), "Group: G (1 stations)");
    assert_eq!(station_row_label(&g.stations[0], true), "  S ★");
    assert_eq!(
        station_info(&g.stations[0]),
        "Name: S\nDescription:\nTags: \nLast Playing: \nHomepage: \nStation URL: http://s"
    );
}

#[test]
fn screen_sizes() {
    assert_eq!(window_offset(Some(3), 0, 10), 0);
    assert_eq!(window_offset(Some(12), 0, 10), 3);
    assert_eq!(window_offset(Some(2), 5, 10), 2);
    assert_eq!(window_offset(None, 4, 10), 0);
    assert_eq!(bar_width(42, 8), 4);
    assert_eq!(bar_width(1, 8), 0);
    assert_eq!(bar_width(42, 0), 3);
    assert_eq!(notification_area(5, 100), (78, 20));
    assert_eq!(notification_area(30, 100), (64, 34));
    assert_eq!(notification_area(100, 30), (0, 40));
}

#[test]
fn radio_window_rows() {
    let groups = vec![
        RadioGroup { title: "A".to_string(), stations: vec![station("a", "1")], is_expanded: true },
        RadioGroup { title: "B".to_string(), stations: vec![station("b", "2")], is_expanded: false },
    ];
    let rows = visible_radio_rows(&groups, 1, 5);
    assert_eq!(rows.len(), 2);
    assert_eq!(rows[0], cohors::app::RowRef::Station(0, 0));
    assert_eq!(rows[1], cohors::app::RowRef::Header(1));
}

// --- start up ---

fn args(path: Vec<&str>, radio: bool) -> Args {
    Args {
        volume: None,
        radio,
        station_file: None,
        invalidate_cache: false,
        path: path.into_iter().map(|s| s.to_string()).collect(),
    }
}

#[test]
fn test_apply_args_radio() {
    let mut app = App::new_test();
    app.apply_radio_arg(args(vec![], true).radio);
    assert_eq!(app.mode, AppMode::Radio);
}

#[test]
fn startup_path_joins_words() {
    assert_eq!(args(vec!["/tmp/test", "file.mp3"], false).startup_path().as_deref(), Some("/tmp/test file.mp3"));
    assert_eq!(args(vec!["/tmp/a.mp3"], false).startup_path().as_deref(), Some("/tmp/a.mp3"));
    assert_eq!(args(vec![], false).startup_path(), None);
}

#[test]
fn startup_directory_plays_first_file() {
    let mut app = App::new_test();
    app.open_startup_dir(
        "/m".to_string(),
        vec![
            DirEntry { path: "/m/b.mp3".to_string(), is_dir: false },
            DirEntry { path: "/m/sub".to_string(), is_dir: true },
            DirEntry { path: "/m/a.mp3".to_string(), is_dir: false },
        ],
    );
    assert_eq!(app.loop_mode, cohors::app::LoopMode::All);
    assert_eq!(app.items, vec!["/m/..", "/m/sub", "/m/a.mp3", "/m/b.mp3"]);
    let played = app.play_first_file(&vec![false, false, true, true]);
    assert_eq!(played.as_deref(), Some("/m/a.mp3"));
    assert_eq!(app.state.selected(), Some(2));

    let mut other = App::new_test();
    other.items = vec!["/m/x.mp3".to_string()];
    other.open_startup_file("/m/x.mp3".to_string());
    assert_eq!(other.current_track.as_deref(), Some("/m/x.mp3"));
    assert_eq!(other.state.selected(), Some(0));
}

#[test]
fn configuration_locations() {
    assert_eq!(config_file(Some("/xdg"), Some("/home/u")), "/xdg/cohors/config.json");
    assert_eq!(config_file(None, Some("/home/u")), "/home/u/.config/cohors/config.json");
    assert_eq!(config_file(None, None), "config.json");
    match station_file_lookup(None, Some("/home/u"), None) {
        StationFileLookup::Search(v) => assert_eq!(
            v,
            vec!["/home/u/.config/cohors/stations.config.json", "./stations.config.json"]
        ),
        _ => panic!("expected a search"),
    }
    match station_file_lookup(Some("/x.json".to_string()), Some("/home/u"), None) {
        StationFileLookup::Given(p) => assert_eq!(p, "/x.json"),
        _ => panic!("expected the given file"),
    }
}

#[test]
fn abs_session_stream_url_takes_first_track() {
    let c = make_client("http://abs.local/");
    assert_eq!(play_path("li1", "ep1"), "/api/items/li1/play/ep1");
    let urls = vec!["/s/1.mp3".to_string(), "/s/2.mp3".to_string()];
    assert_eq!(
        c.session_stream_url(&urls),
        Ok("http://abs.local/s/1.mp3?token=testtoken".to_string())
    );
    let abs = vec!["http://cdn/x.mp3".to_string()];
    assert_eq!(c.session_stream_url(&abs), Ok("http://cdn/x.mp3?token=testtoken".to_string()));
    assert_eq!(c.session_stream_url(&vec![]), Err("ABS returned no audio tracks".to_string()));
}

#[test]
fn status_line_texts() {
    let none: Option<String> = None;
    let track = Some("music/song.mp3".to_string());
    assert_eq!(
        status_labels(&none, false, &track, false, 100, LoopMode::All, 65, 200),
        ("Playing: song.mp3 (Vol: 100%) [Loop: All]".to_string(), "01:05 / 03:20".to_string())
    );
    assert_eq!(
        status_labels(&none, false, &track, true, 5, LoopMode::Off, 5, 0),
        ("Paused: song.mp3 (Vol: 5%) [Loop: Off]".to_string(), "00:05".to_string())
    );
    assert_eq!(
        status_labels(&Some("boom".to_string()), true, &track, false, 100, LoopMode::Off, 0, 0),
        ("Error: boom".to_string(), String::new())
    );
    assert_eq!(
        status_labels(&none, true, &track, false, 100, LoopMode::Off, 0, 0),
        ("Loading...".to_string(), "Loading...".to_string())
    );
    assert_eq!(
        status_labels(&none, false, &none, false, 100, LoopMode::Off, 0, 0),
        ("Playing: <Nothing>".to_string(), String::new())
    );
}
