use cohors::config::{IndividualStationConfig, RadioConfig, RadioSourceConfig, StationMapping};
use cohors::radio::{parse_m3u, parse_pls, PlaylistError, RadioStation};
use cohors::stations::{
    cache_is_fresh, cache_path, check_playlist_type, custom_group, get_string_field, map_station,
    station_groups, stations_from_json, stream_url_from_playlist, JsonValue, SourceError,
};

fn text(s: &str) -> JsonValue {
    JsonValue::Text(s.to_string())
}

fn obj(entries: Vec<(&str, JsonValue)>) -> JsonValue {
    JsonValue::Object(entries.into_iter().map(|(k, v)| (k.to_string(), v)).collect())
}

fn mapping(name: &str, url: &str) -> StationMapping {
    StationMapping {
        station_name: name.to_string(),
        station_url: url.to_string(),
        description: None,
        homepage: None,
        tags: None,
        last_playing: None,
    }
}

fn source(title: &str, container: Option<&str>) -> RadioSourceConfig {
    RadioSourceConfig {
        title: title.to_string(),
        json_url: "http://example.com/stations.json".to_string(),
        container: container.map(|c| c.to_string()),
        mapping: mapping("name", "url"),
    }
}

#[test]
fn test_parse_pls() {
    let pls_content = "[playlist]\nNumberOfEntries=1\nFile1=http://example.com/stream\nTitle1=Example Radio\nLength1=-1\nVersion=2";
    let url = parse_pls(pls_content).unwrap();
    assert_eq!(url, "http://example.com/stream");
}

#[test]
fn test_parse_m3u() {
    let m3u_content = "#EXTM3U\n#EXTINF:-1,Example Radio\nhttp://example.com/stream\n#EXTINF:-1,Another Stream\nhttp://example.com/stream2";
    let url = parse_m3u(m3u_content).unwrap();
    assert_eq!(url, "http://example.com/stream");
}

#[test]
fn parse_pls_trims_the_line_and_reports_a_missing_entry() {
    assert_eq!(parse_pls("  File1=http://a.b/c  \n").unwrap(), "http://a.b/c");
    assert_eq!(parse_pls("[playlist]\nFile2=x"), Err(PlaylistError::NoStreamUrlInPls));
    assert_eq!(
        PlaylistError::NoStreamUrlInPls.message(),
        "No stream URL found in PLS"
    );
}

#[test]
fn parse_m3u_skips_comments_and_blank_lines() {
    assert_eq!(parse_m3u("\n  \n# c\n  http://x/y \r\n").unwrap(), "http://x/y");
    assert_eq!(parse_m3u("#only\n\n"), Err(PlaylistError::NoStreamUrlInM3u));
    assert_eq!(
        PlaylistError::NoStreamUrlInM3u.message(),
        "No stream URL found in M3U"
    );
}

#[test]
fn test_get_string_field() {
    let json = obj(vec![
        ("title", text("Test Station")),
        (
            "playlists",
            JsonValue::Array(vec![obj(vec![("url", text("http://test.com/stream"))])]),
        ),
    ]);

    assert_eq!(get_string_field(&json, "title").unwrap(), "Test Station");
    assert_eq!(
        get_string_field(&json, "playlists.0.url").unwrap(),
        "http://test.com/stream"
    );
}

#[test]
fn test_get_string_field_types() {
    let json = obj(vec![
        ("string", text("value")),
        ("number", JsonValue::Number("123".to_string())),
        ("float", JsonValue::Number("45.67".to_string())),
        ("bool", JsonValue::Bool(true)),
        ("null", JsonValue::Null),
        ("object", obj(vec![])),
        ("array", JsonValue::Array(vec![])),
    ]);

    assert_eq!(get_string_field(&json, "string").unwrap(), "value");
    assert_eq!(get_string_field(&json, "number").unwrap(), "123");
    assert!(get_string_field(&json, "bool").is_none());
    assert!(get_string_field(&json, "null").is_none());
    assert!(get_string_field(&json, "object").is_none());
    assert!(get_string_field(&json, "array").is_none());
}

#[test]
fn get_string_field_index_forms() {
    let json = obj(vec![(
        "list",
        JsonValue::Array(vec![text("zero"), text("one")]),
    )]);
    assert_eq!(get_string_field(&json, "list.+1").unwrap(), "one");
    assert!(get_string_field(&json, "list.2").is_none());
    assert!(get_string_field(&json, "list.-1").is_none());
    assert!(get_string_field(&json, "list.99999999999999999999999").is_none());
    assert!(get_string_field(&json, "").is_none());
    // An index is no member name, and a member name no index.
    let keyed = obj(vec![("0", text("member"))]);
    assert!(get_string_field(&keyed, "0").is_none());
}

#[test]
fn test_map_station_fallback() {
    let mapping = mapping("name", "url");

    let item = obj(vec![("name", text("My Station")), ("url", text("http://test.com"))]);
    let station = map_station(&item, &mapping).unwrap();
    assert_eq!(station.name, "My Station");

    let item = obj(vec![("name", text("   ")), ("url", text("http://test.com"))]);
    let station = map_station(&item, &mapping).unwrap();
    assert_eq!(station.name, "http://test.com");
}

#[test]
fn test_map_station_all_fields() {
    let mapping = StationMapping {
        station_name: "n".to_string(),
        station_url: "u".to_string(),
        description: Some("d".to_string()),
        homepage: Some("h".to_string()),
        tags: Some("t".to_string()),
        last_playing: Some("l".to_string()),
    };

    let item = obj(vec![
        ("n", text("Name")),
        ("u", text("Url")),
        ("d", text("Desc")),
        ("h", text("Home")),
        ("t", text("Tags")),
        ("l", text("Last")),
    ]);

    let station = map_station(&item, &mapping).unwrap();
    assert_eq!(station.name, "Name");
    assert_eq!(station.url, "Url");
    assert_eq!(station.description.as_deref(), Some("Desc"));
    assert_eq!(station.homepage.as_deref(), Some("Home"));
    assert_eq!(station.tags.as_deref(), Some("Tags"));
    assert_eq!(station.last_playing.as_deref(), Some("Last"));
}

#[test]
fn map_station_needs_name_and_url() {
    let m = mapping("name", "url");
    assert!(map_station(&obj(vec![("url", text("u"))]), &m).is_none());
    assert!(map_station(&obj(vec![("name", text("n"))]), &m).is_none());
    let s = map_station(&obj(vec![("name", text(" n ")), ("url", text(" u "))]), &m).unwrap();
    assert_eq!(s.name, "n");
    assert_eq!(s.url, "u");
}

#[test]
fn stations_from_root_array_and_container() {
    let items = vec![
        obj(vec![("name", text("Station 1")), ("url", text("http://1.com"))]),
        obj(vec![("name", text("no url"))]),
        obj(vec![("name", text("Station 2")), ("url", text("http://2.com"))]),
    ];
    let root = JsonValue::Array(items);
    let stations = stations_from_json(&root, &source("S", None)).unwrap();
    assert_eq!(stations.len(), 2);
    assert_eq!(stations[0].name, "Station 1");
    assert_eq!(stations[1].url, "http://2.com");

    let wrapped = obj(vec![("list", root)]);
    let stations = stations_from_json(&wrapped, &source("S", Some("list"))).unwrap();
    assert_eq!(stations.len(), 2);
}

#[test]
fn stations_from_json_errors() {
    let wrapped = obj(vec![("list", JsonValue::Array(vec![]))]);
    let err = stations_from_json(&wrapped, &source("S", Some("missing"))).unwrap_err();
    assert_eq!(err, SourceError::ContainerNotArray);
    assert_eq!(err.message(), "Container not found or not an array");
    let err = stations_from_json(&wrapped, &source("S", None)).unwrap_err();
    assert_eq!(err, SourceError::RootNotArray);
    assert_eq!(err.message(), "Root is not an array");
}

#[test]
fn custom_group_of_individual_stations() {
    let config = RadioConfig {
        sources: vec![source("Test Source", None), source("Broken", None)],
        individual_stations: vec![IndividualStationConfig {
            name: "My Station".to_string(),
            station_url: "http://my.com".to_string(),
            description: None,
            homepage: None,
            tags: Some("rock".to_string()),
        }],
    };
    let g = custom_group(&config).unwrap();
    assert_eq!(g.title, "Custom Stations");
    assert!(g.is_expanded);
    assert_eq!(g.stations[0].name, "My Station");
    assert_eq!(g.stations[0].tags.as_deref(), Some("rock"));

    let fetched = vec![
        Some(vec![RadioStation {
            name: "Station 1".to_string(),
            url: "http://1.com".to_string(),
            description: None,
            homepage: None,
            tags: None,
            last_playing: None,
        }]),
        None,
    ];
    let groups = station_groups(&config, fetched);
    assert_eq!(groups.len(), 2);
    assert_eq!(groups[0].title, "Custom Stations");
    assert_eq!(groups[1].title, "Test Source");
    assert!(!groups[1].is_expanded);
    assert_eq!(groups[1].stations.len(), 1);

    let empty = RadioConfig { sources: vec![], individual_stations: vec![] };
    assert!(custom_group(&empty).is_none());
    assert!(station_groups(&empty, vec![]).is_empty());
}

#[test]
fn cache_file_names_and_freshness() {
    assert_eq!(
        cache_path("/home/u", "TestSource"),
        "/home/u/.cache/cohors/stations/TestSource.json"
    );
    assert_eq!(
        cache_path("/home/u", "Test Source!"),
        "/home/u/.cache/cohors/stations/Test_Source_.json"
    );
    assert!(cache_is_fresh(Some(0)));
    assert!(cache_is_fresh(Some(604799)));
    assert!(!cache_is_fresh(Some(604800)));
    assert!(!cache_is_fresh(Some(8 * 24 * 60 * 60)));
    assert!(cache_is_fresh(None));
}

#[test]
fn playlist_content_types() {
    assert_eq!(check_playlist_type(Some("audio/mpeg")), Err(PlaylistError::AudioStream));
    assert_eq!(
        PlaylistError::AudioStream.message(),
        "URL is an audio stream, not a playlist file"
    );
    assert_eq!(check_playlist_type(Some("Audio/OGG")), Err(PlaylistError::AudioStream));
    assert_eq!(check_playlist_type(Some("audio/x-mpegurl")), Ok(()));
    assert_eq!(check_playlist_type(Some("audio/x-scpls")), Ok(()));
    assert_eq!(check_playlist_type(Some("text/plain")), Ok(()));
    assert_eq!(check_playlist_type(None), Ok(()));
}

#[test]
fn stream_url_from_pls_then_m3u() {
    assert_eq!(
        stream_url_from_playlist("[playlist]\nFile1=http://stream.com").unwrap(),
        "http://stream.com"
    );
    assert_eq!(
        stream_url_from_playlist("#EXTM3U\nhttp://stream.com/m3u").unwrap(),
        "http://stream.com/m3u"
    );
    assert_eq!(
        stream_url_from_playlist("# nothing"),
        Err(PlaylistError::NoStreamUrlInM3u)
    );
}
