use cohors::app::{AddModalState, App, AppMode, ConfirmationContext, Key, ModalOutcome, SubsonicView};
use cohors::config::{
    delete_navidrome_from_config, edit_source_in_config, edit_station_in_config,
    save_navidrome_source, IndividualStationConfig, NavidromeConfig, NavidromeSourceConfig,
    RadioConfig, RadioSourceConfig, StationMapping,
};
use cohors::navidrome::SubsonicClient;
use cohors::radio::{RadioGroup, RadioStation};

fn station(name: &str, url: &str) -> RadioStation {
    RadioStation {
        name: name.to_string(),
        url: url.to_string(),
        description: None,
        homepage: None,
        tags: None,
        last_playing: None,
    }
}

fn individual(name: &str, url: &str) -> IndividualStationConfig {
    IndividualStationConfig {
        name: name.to_string(),
        station_url: url.to_string(),
        description: None,
        homepage: None,
        tags: None,
    }
}

fn mapping(n: &str, u: &str) -> StationMapping {
    StationMapping {
        station_name: n.to_string(),
        station_url: u.to_string(),
        description: None,
        homepage: None,
        tags: None,
        last_playing: None,
    }
}

fn navi() -> NavidromeSourceConfig {
    NavidromeSourceConfig {
        server_url: "http://navi.com".to_string(),
        username: "user".to_string(),
        password: Some("pass".to_string()),
        auth_token: None,
    }
}

#[test]
fn test_open_delete_modal_source() {
    let mut app = App::new_test();
    let radio = RadioConfig {
        individual_stations: vec![],
        sources: vec![RadioSourceConfig {
            title: "Test Source".to_string(),
            json_url: "http://source.com".to_string(),
            container: None,
            mapping: mapping("name", "url"),
        }],
    };
    app.radio_groups = vec![RadioGroup {
        title: "Test Source".to_string(),
        stations: vec![],
        is_expanded: false,
    }];
    app.update_search_results();
    app.radio_state.select(Some(0));
    app.mode = AppMode::Radio;

    app.open_delete_modal(Some(&radio));
    match &app.add_modal_state {
        Some(AddModalState::Confirmation { context: ConfirmationContext::DeleteSource(title), .. }) => {
            assert_eq!(title, "Test Source");
        },
        _ => panic!("Expected Confirmation state"),
    }
}

#[test]
fn test_open_delete_modal_subsonic() {
    let mut app = App::new_test();
    app.subsonic_clients = vec![SubsonicClient::new(navi())];
    app.subsonic_view = SubsonicView::Servers;
    app.subsonic_state.select(Some(0));
    app.mode = AppMode::Subsonic;

    app.open_delete_modal(None);
    match &app.add_modal_state {
        Some(AddModalState::Confirmation { context: ConfirmationContext::DeleteSubsonic(url), .. }) => {
            assert_eq!(url, "http://navi.com");
        },
        _ => panic!("Expected Confirmation state"),
    }
}

#[test]
fn test_confirm_delete_subsonic() {
    let mut app = App::new_test();
    app.add_modal_state = Some(AddModalState::Confirmation {
        message: "Delete?".to_string(),
        context: ConfirmationContext::DeleteSubsonic("http://navi.com".to_string()),
    });
    let mut nav = Some(NavidromeConfig { sources: vec![navi()] });
    match app.handle_add_modal_input(Key::Char('y')) {
        ModalOutcome::ConfirmDelete(ConfirmationContext::DeleteSubsonic(url)) => {
            assert!(delete_navidrome_from_config(&mut nav, &url));
        },
        _ => panic!("expected a confirmed deletion"),
    }
    assert!(app.on_delete_finished(Ok(())));
    assert!(app.add_modal_state.is_none());
    assert!(nav.is_some());
    assert_eq!(nav.unwrap().sources.len(), 0);
}

#[test]
fn test_open_edit_modal_second_station() {
    let mut app = App::new_test();
    let radio = RadioConfig {
        individual_stations: vec![individual("Station 1", "http://1.com"), individual("Station 2", "http://2.com")],
        sources: vec![],
    };
    app.radio_groups = vec![RadioGroup {
        title: "Custom Stations".to_string(),
        stations: vec![station("Station 1", "http://1.com"), station("Station 2", "http://2.com")],
        is_expanded: true,
    }];
    app.update_search_results();
    app.radio_state.select(Some(2));
    app.mode = AppMode::Radio;

    app.open_edit_modal(Some(&radio));
    match &app.add_modal_state {
        Some(AddModalState::InputStation { name, url, original_url, .. }) => {
            assert_eq!(name, "Station 2");
            assert_eq!(url, "http://2.com");
            assert_eq!(original_url.as_deref(), Some("http://2.com"));
        },
        _ => panic!("Expected InputStation state for Station 2"),
    }
}

#[test]
fn test_open_edit_modal_source() {
    let mut app = App::new_test();
    let radio = RadioConfig {
        individual_stations: vec![],
        sources: vec![RadioSourceConfig {
            title: "Test Source".to_string(),
            json_url: "http://source.com".to_string(),
            container: Some("items".to_string()),
            mapping: mapping("name", "url"),
        }],
    };
    app.radio_groups = vec![RadioGroup {
        title: "Test Source".to_string(),
        stations: vec![],
        is_expanded: false,
    }];
    app.update_search_results();
    app.radio_state.select(Some(0));
    app.mode = AppMode::Radio;

    app.open_edit_modal(Some(&radio));
    match &app.add_modal_state {
        Some(AddModalState::InputSource { title, json_url, container, map_name, original_title, .. }) => {
            assert_eq!(title, "Test Source");
            assert_eq!(json_url, "http://source.com");
            assert_eq!(container, "items");
            assert_eq!(map_name, "name");
            assert_eq!(original_title.as_deref(), Some("Test Source"));
        },
        _ => panic!("Expected InputSource state"),
    }
}

#[test]
fn test_edit_station_flow() {
    let mut app = App::new_test();
    let mut radio = RadioConfig { individual_stations: vec![individual("Old Name", "http://old.com")], sources: vec![] };
    app.add_modal_state = Some(AddModalState::InputStation {
        name: "New Name".to_string(),
        url: "http://new.com".to_string(),
        description: "".to_string(),
        homepage: "".to_string(),
        tags: "".to_string(),
        focused_field: 0,
        original_url: Some("http://old.com".to_string()),
    });
    match app.handle_add_modal_input(Key::Enter) {
        ModalOutcome::SaveStation { station, original_url } => {
            assert!(edit_station_in_config(&mut radio, original_url.as_deref().unwrap(), &station));
        },
        _ => panic!("expected a station to save"),
    }
    assert_eq!(radio.individual_stations.len(), 1);
    assert_eq!(radio.individual_stations[0].name, "New Name");
    assert_eq!(radio.individual_stations[0].station_url, "http://new.com");
}

#[test]
fn test_edit_source_flow() {
    let mut app = App::new_test();
    let mut radio = RadioConfig {
        individual_stations: vec![],
        sources: vec![RadioSourceConfig {
            title: "Old Title".to_string(),
            json_url: "http://old.com".to_string(),
            container: None,
            mapping: mapping("n", "u"),
        }],
    };
    app.add_modal_state = Some(AddModalState::InputSource {
        title: "New Title".to_string(),
        json_url: "http://new.com".to_string(),
        container: "".to_string(),
        map_name: "n".to_string(),
        map_url: "u".to_string(),
        map_desc: "".to_string(),
        map_home: "".to_string(),
        map_tags: "".to_string(),
        focused_field: 0,
        original_title: Some("Old Title".to_string()),
    });
    match app.handle_add_modal_input(Key::Enter) {
        ModalOutcome::SaveSource { source, original_title } => {
            assert!(edit_source_in_config(&mut radio, original_title.as_deref().unwrap(), &source));
        },
        _ => panic!("expected a source to save"),
    }
    assert_eq!(radio.sources.len(), 1);
    assert_eq!(radio.sources[0].title, "New Title");
    assert_eq!(radio.sources[0].json_url, "http://new.com");
}

#[test]
fn test_open_edit_modal_subsonic() {
    let mut app = App::new_test();
    app.subsonic_clients = vec![SubsonicClient::new(navi())];
    app.subsonic_view = SubsonicView::Servers;
    app.subsonic_state.select(Some(0));
    app.mode = AppMode::Subsonic;

    app.open_edit_modal(None);
    match &app.add_modal_state {
        Some(AddModalState::InputSubsonic { server_url, username, password, focused_field, original_url }) => {
            assert_eq!(server_url, "http://navi.com");
            assert_eq!(username, "user");
            assert_eq!(password, "pass");
            assert_eq!(*focused_field, 0);
            assert_eq!(original_url.as_ref().unwrap(), "http://navi.com");
        },
        _ => panic!("Expected InputSubsonic state"),
    }

    app.handle_add_modal_input(Key::Char('2'));
    let mut nav = Some(NavidromeConfig { sources: vec![navi()] });
    match app.handle_add_modal_input(Key::Enter) {
        ModalOutcome::SaveServer { source, original_url } => {
            let url = source.server_url.clone();
            save_navidrome_source(&mut nav, &original_url, source);
            assert!(app.on_server_saved(Ok(()), &url));
        },
        _ => panic!("expected a server to save"),
    }
    assert!(app.add_modal_state.is_none());
    assert!(app.notification.clone().unwrap().contains("Saved"));
    assert_eq!(nav.unwrap().sources[0].server_url, "http://navi.com2");
}

#[test]
fn modal_ignores_typing_with_focus_out_of_range() {
    let mut app = App::new_test();
    app.add_modal_state = Some(AddModalState::InputStation {
        name: "N".to_string(),
        url: "".to_string(),
        description: "".to_string(),
        homepage: "".to_string(),
        tags: "".to_string(),
        focused_field: 9,
        original_url: None,
    });
    assert!(matches!(app.handle_add_modal_input(Key::Char('x')), ModalOutcome::Nothing));
    assert!(matches!(app.handle_add_modal_input(Key::Backspace), ModalOutcome::Nothing));
    match &app.add_modal_state {
        Some(AddModalState::InputStation { name, focused_field, .. }) => {
            assert_eq!(name, "N");
            assert_eq!(*focused_field, 9);
        },
        _ => panic!("Expected InputStation state"),
    }
    app.handle_add_modal_input(Key::Tab);
    match &app.add_modal_state {
        Some(AddModalState::InputStation { focused_field, .. }) => assert_eq!(*focused_field, 0),
        _ => panic!("Expected InputStation state"),
    }
}
