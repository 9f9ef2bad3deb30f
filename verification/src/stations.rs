//! Radio station sources: reading stations out of a source's JSON document, the group of
//! hand-entered stations, the cache file of a source, and telling a playlist from a stream.
use crate::config::{IndividualStationConfig, RadioConfig, RadioSourceConfig, StationMapping};
use crate::paths::{join, path_join};
use crate::radio::{
    m3u_stream_url, parse_m3u, parse_pls, pls_stream_url, GroupView, PlaylistError, RadioGroup,
    RadioStation,
};
use crate::text::{
    chars_of, contains_chars, lowercase_of, occurs_in, opt_chars, owned, split_char, split_on,
    string_of, texts, to_lowercase, trim, trim_bounds,
};
use vstd::prelude::*;

verus! {

/// A JSON value as the station logic reads it. A number is held as the text JSON gives it.
#[derive(Debug)]
pub enum JsonValue {
    Null,
    Bool(bool),
    Number(String),
    Text(String),
    Array(Vec<JsonValue>),
    Object(Vec<(String, JsonValue)>),
}

/// Whether `c` is a decimal digit.
pub open spec fn is_digit(c: char) -> bool {
    '0' <= c && c <= '9'
}

/// The number the decimal digits `s` write.
pub open spec fn digits_value(s: Seq<char>) -> int
    decreases s.len(),
{
    if s.len() == 0 {
        0
    } else {
        digits_value(s.drop_last()) * 10 + (s.last() as int - '0' as int)
    }
}

/// The text after an optional leading `+`.
pub open spec fn unsigned_digits(s: Seq<char>) -> Seq<char> {
    if s.len() > 0 && s[0] == '+' {
        s.drop_first()
    } else {
        s
    }
}

/// Every character is a decimal digit.
pub open spec fn all_digits(d: Seq<char>) -> bool {
    forall|i: int| 0 <= i < d.len() ==> is_digit(#[trigger] d[i])
}

/// What `str::parse::<usize>` gives: digits after an optional `+`, at least one, and a
/// value that fits.
pub open spec fn index_value(s: Seq<char>) -> Option<int> {
    let d = unsigned_digits(s);
    if d.len() > 0 && all_digits(d) && digits_value(d) <= usize::MAX {
        Some(digits_value(d))
    } else {
        None
    }
}

/// The value under `key` in an object: that of the first entry with the key.
pub open spec fn entry_value(m: Seq<(String, JsonValue)>, key: Seq<char>) -> Option<JsonValue>
    decreases m.len(),
{
    if m.len() == 0 {
        None
    } else {
        match entry_value(m.drop_last(), key) {
            Some(v) => Some(v),
            None => if m.last().0@ == key {
                Some(m.last().1)
            } else {
                None
            },
        }
    }
}

/// The member `key` of an object; nothing for other values.
pub open spec fn json_member(v: JsonValue, key: Seq<char>) -> Option<JsonValue> {
    match v {
        JsonValue::Object(m) => entry_value(m@, key),
        _ => None,
    }
}

/// The element `i` of an array; nothing for other values.
pub open spec fn json_element(v: JsonValue, i: int) -> Option<JsonValue> {
    match v {
        JsonValue::Array(a) => if 0 <= i < a@.len() {
            Some(a@[i])
        } else {
            None
        },
        _ => None,
    }
}

/// One step of a dotted path: an element where the part is an index, a member otherwise.
pub open spec fn json_step(v: JsonValue, part: Seq<char>) -> Option<JsonValue> {
    match index_value(part) {
        Some(i) => json_element(v, i),
        None => json_member(v, part),
    }
}

/// The value at the end of the path `parts`.
pub open spec fn json_walk(v: JsonValue, parts: Seq<Seq<char>>) -> Option<JsonValue>
    decreases parts.len(),
{
    if parts.len() == 0 {
        Some(v)
    } else {
        match json_walk(v, parts.drop_last()) {
            Some(c) => json_step(c, parts.last()),
            None => None,
        }
    }
}

/// The text of a string or a number; nothing for other values.
pub open spec fn json_text(v: JsonValue) -> Option<Seq<char>> {
    match v {
        JsonValue::Text(s) => Some(s@),
        JsonValue::Number(n) => Some(n@),
        _ => None,
    }
}

/// The text at the dotted path `path` of `item`.
pub open spec fn string_field(item: JsonValue, path: Seq<char>) -> Option<Seq<char>> {
    match json_walk(item, split_on(path, '.')) {
        Some(c) => json_text(c),
        None => None,
    }
}

/// An optional station field: the trimmed text at the path, when there is a path.
pub open spec fn optional_field(item: JsonValue, path: Option<String>) -> Option<Seq<char>> {
    match path {
        Some(p) => match string_field(item, p@) {
            Some(t) => Some(trim(t)),
            None => None,
        },
        None => None,
    }
}

/// The text of a station's fields.
pub struct StationText {
    pub name: Seq<char>,
    pub url: Seq<char>,
    pub description: Option<Seq<char>>,
    pub homepage: Option<Seq<char>>,
    pub tags: Option<Seq<char>>,
    pub last_playing: Option<Seq<char>>,
}

pub open spec fn station_text(s: RadioStation) -> StationText {
    StationText {
        name: s.name@,
        url: s.url@,
        description: opt_chars(s.description),
        homepage: opt_chars(s.homepage),
        tags: opt_chars(s.tags),
        last_playing: opt_chars(s.last_playing),
    }
}

/// The station a source item describes: its name and address are required; all fields
/// are trimmed, and an empty name is replaced by the address.
pub open spec fn mapped_station(item: JsonValue, m: StationMapping) -> Option<StationText> {
    match (string_field(item, m.station_name@), string_field(item, m.station_url@)) {
        (Some(n), Some(u)) => {
            let (n, u) = (trim(n), trim(u));
            Some(
                StationText {
                    name: if n.len() == 0 {
                        u
                    } else {
                        n
                    },
                    url: u,
                    description: optional_field(item, m.description),
                    homepage: optional_field(item, m.homepage),
                    tags: optional_field(item, m.tags),
                    last_playing: optional_field(item, m.last_playing),
                },
            )
        },
        _ => None,
    }
}

/// A mapped station has the trimmed address it was given, and a name that is empty only
/// when the address is: its own trimmed name, or the address when that name is blank.
pub proof fn law_mapped_station_names(item: JsonValue, m: StationMapping)
    ensures
        mapped_station(item, m) matches Some(s) ==> {
            let n = trim(string_field(item, m.station_name@)->0);
            let u = trim(string_field(item, m.station_url@)->0);
            &&& s.url == u
            &&& (s.name == n || (n.len() == 0 && s.name == u))
            &&& (s.name.len() == 0 ==> s.url.len() == 0)
        },
        mapped_station(item, m) is Some <==> (string_field(item, m.station_name@) is Some
            && string_field(item, m.station_url@) is Some),
{
}

/// The stations of the items that describe one, in order.
pub open spec fn mapped_stations(items: Seq<JsonValue>, m: StationMapping) -> Seq<StationText>
    decreases items.len(),
{
    if items.len() == 0 {
        Seq::empty()
    } else {
        let r = mapped_stations(items.drop_last(), m);
        match mapped_station(items.last(), m) {
            Some(s) => r.push(s),
            None => r,
        }
    }
}

/// The list of station items of a document: the array under `container`, or the
/// document itself.
pub open spec fn source_items(json: JsonValue, container: Option<String>) -> Option<Seq<JsonValue>> {
    let v = match container {
        Some(c) => json_member(json, c@),
        None => Some(json),
    };
    match v {
        Some(JsonValue::Array(a)) => Some(a@),
        _ => None,
    }
}

/// Why a source's document holds no station list.
#[derive(Debug, Clone, Copy, PartialEq, Eq, Structural)]
pub enum SourceError {
    /// The member named as container is missing or not an array.
    ContainerNotArray,
    /// Without a container, the document is not an array.
    RootNotArray,
}

impl SourceError {
    pub open spec fn message_spec(self) -> Seq<char> {
        match self {
            SourceError::ContainerNotArray => "Container not found or not an array"@,
            SourceError::RootNotArray => "Root is not an array"@,
        }
    }

    /// The error's text.
    pub fn message(&self) -> (s: String)
        ensures
            s@ == self.message_spec(),
    {
        match self {
            SourceError::ContainerNotArray => owned("Container not found or not an array"),
            SourceError::RootNotArray => owned("Root is not an array"),
        }
    }
}

proof fn lemma_digits_grow(d: Seq<char>, i: int, j: int)
    requires
        0 <= i <= j <= d.len(),
        all_digits(d),
    ensures
        0 <= digits_value(d.take(i)) <= digits_value(d.take(j)),
    decreases j,
{
    if j > 0 {
        assert(d.take(j).drop_last() =~= d.take(j - 1));
        assert(is_digit(d[j - 1]));
        assert(d.take(j).last() == d[j - 1]);
        if i < j {
            lemma_digits_grow(d, i, j - 1);
        } else {
            lemma_digits_grow(d, j - 1, j - 1);
        }
    } else {
        assert(d.take(0) =~= Seq::<char>::empty());
    }
}

/// The index a path part names, as `str::parse::<usize>` reads it.
fn parse_index(s: &str) -> (r: Option<usize>)
    ensures
        match r {
            Some(i) => index_value(s@) == Some(i as int),
            None => index_value(s@) is None,
        },
{
    let v = chars_of(s);
    let start: usize = if v.len() > 0 && v[0] == '+' {
        1
    } else {
        0
    };
    let ghost d = v@.subrange(start as int, v@.len() as int);
    assert(d =~= if s@.len() > 0 && s@[0] == '+' {
        s@.drop_first()
    } else {
        s@
    });
    if start == v.len() {
        return None;
    }
    let mut value: usize = 0;
    let mut i: usize = start;
    assert(d.take(0) =~= Seq::<char>::empty());
    while i < v.len()
        invariant
            start <= i <= v@.len(),
            d == v@.subrange(start as int, v@.len() as int),
            d == unsigned_digits(s@),
            d.len() > 0,
            forall|k: int| 0 <= k < i - start ==> is_digit(#[trigger] d[k]),
            value == digits_value(d.take(i - start)),
        decreases v@.len() - i,
    {
        let c = v[i];
        if !('0' <= c && c <= '9') {
            assert(!is_digit(d[i - start]));
            assert(!all_digits(d));
            return None;
        }
        assert(d.take(i - start + 1).drop_last() =~= d.take(i - start));
        assert(d.take(i - start + 1).last() == c);
        let digit = (c as u32 - '0' as u32) as usize;
        assert(digits_value(d.take(i - start + 1)) == value * 10 + digit);
        match value.checked_mul(10) {
            Some(t) => match t.checked_add(digit) {
                Some(n) => {
                    value = n;
                },
                None => {
                    proof {
                        if all_digits(d) {
                            lemma_digits_grow(d, i - start + 1, d.len() as int);
                            assert(d.take(d.len() as int) =~= d);
                        }
                    }
                    return None;
                },
            },
            None => {
                proof {
                    if all_digits(d) {
                        lemma_digits_grow(d, i - start + 1, d.len() as int);
                        assert(d.take(d.len() as int) =~= d);
                    }
                }
                return None;
            },
        }
        i = i + 1;
    }
    assert(d.take(d.len() as int) =~= d);
    Some(value)
}

/// The element `i` of an array.
fn element_of(v: &JsonValue, i: usize) -> (r: Option<&JsonValue>)
    ensures
        match r {
            Some(c) => json_element(*v, i as int) == Some(*c),
            None => json_element(*v, i as int) is None,
        },
{
    match v {
        JsonValue::Array(a) => if i < a.len() {
            Some(&a[i])
        } else {
            None
        },
        _ => None,
    }
}

/// The value of the first entry of `m` under `key`.
fn entry_of<'a>(m: &'a Vec<(String, JsonValue)>, key: &str) -> (r: Option<&'a JsonValue>)
    ensures
        match r {
            Some(c) => entry_value(m@, key@) == Some(*c),
            None => entry_value(m@, key@) is None,
        },
{
    let mut j: usize = 0;
    while j < m.len()
        invariant
            j <= m@.len(),
            entry_value(m@.take(j as int), key@) is None,
        decreases m@.len() - j,
    {
        assert(m@.take(j + 1).drop_last() =~= m@.take(j as int));
        if crate::text::same_text(m[j].0.as_str(), key) {
            proof {
                lemma_entry_value_prefix(m@, j + 1);
                assert(m@.take(j + 1).last() == m@[j as int]);
                assert(entry_value(m@.take(j + 1), key@) == Some(m@[j as int].1));
            }
            return Some(&m[j].1);
        }
        j = j + 1;
    }
    assert(m@.take(m@.len() as int) =~= m@);
    None
}

/// Once a prefix of the entries holds the key, the whole list gives its value.
proof fn lemma_entry_value_prefix(m: Seq<(String, JsonValue)>, j: int)
    requires
        0 <= j <= m.len(),
    ensures
        forall|key: Seq<char>| #[trigger] entry_value(m.take(j), key) is Some ==> entry_value(m, key)
            == entry_value(m.take(j), key),
    decreases m.len() - j,
{
    if j < m.len() {
        lemma_entry_value_prefix(m, j + 1);
        assert(m.take(j + 1).drop_last() =~= m.take(j));
        assert forall|key: Seq<char>| #[trigger] entry_value(m.take(j), key) is Some implies entry_value(
            m,
            key,
        ) == entry_value(m.take(j), key) by {
            assert(entry_value(m.take(j + 1), key) == entry_value(m.take(j), key));
        }
    } else {
        assert(m.take(j) =~= m);
    }
}

/// The member `key` of an object.
fn member_of<'a>(v: &'a JsonValue, key: &str) -> (r: Option<&'a JsonValue>)
    ensures
        match r {
            Some(c) => json_member(*v, key@) == Some(*c),
            None => json_member(*v, key@) is None,
        },
{
    match v {
        JsonValue::Object(m) => entry_of(m, key),
        _ => None,
    }
}

/// The text at the dotted path `path` of `item`: each part an array index where it reads
/// as one, an object member otherwise; strings and numbers have a text.
pub fn get_string_field(item: &JsonValue, path: &str) -> (r: Option<String>)
    ensures
        opt_chars(r) == string_field(*item, path@),
{
    let parts = split_char(path, '.');
    let ghost ps = texts(parts@);
    let mut current: &JsonValue = item;
    let mut k: usize = 0;
    assert(ps.take(0) =~= Seq::<Seq<char>>::empty());
    while k < parts.len()
        invariant
            k <= parts@.len(),
            ps == texts(parts@),
            ps == split_on(path@, '.'),
            json_walk(*item, ps.take(k as int)) == Some(*current),
        decreases parts@.len() - k,
    {
        assert(ps.take(k + 1).drop_last() =~= ps.take(k as int));
        assert(ps.take(k + 1).last() == parts@[k as int]@);
        let step = match parse_index(parts[k].as_str()) {
            Some(i) => element_of(current, i),
            None => member_of(current, parts[k].as_str()),
        };
        match step {
            Some(c) => {
                current = c;
            },
            None => {
                proof {
                    assert(json_walk(*item, ps.take(k + 1)) is None);
                    lemma_walk_stops(*item, ps, k as int + 1);
                    assert(ps.take(ps.len() as int) =~= ps);
                }
                return None;
            },
        }
        k = k + 1;
    }
    assert(ps.take(ps.len() as int) =~= ps);
    match current {
        JsonValue::Text(s) => Some(s.clone()),
        JsonValue::Number(n) => Some(n.clone()),
        _ => None,
    }
}

/// A walk that stops on the way gives nothing at the end.
proof fn lemma_walk_stops(v: JsonValue, ps: Seq<Seq<char>>, j: int)
    requires
        0 <= j <= ps.len(),
        json_walk(v, ps.take(j)) is None,
    ensures
        json_walk(v, ps) is None,
    decreases ps.len() - j,
{
    if j < ps.len() {
        assert(ps.take(j + 1).drop_last() =~= ps.take(j));
        lemma_walk_stops(v, ps, j + 1);
    } else {
        assert(ps.take(j) =~= ps);
    }
}

/// `s` with white space trimmed at both ends.
fn trimmed(s: &str) -> (r: String)
    ensures
        r@ == trim(s@),
{
    let v = chars_of(s);
    let (a, b) = trim_bounds(&v, 0, v.len());
    assert(v@.subrange(0, v@.len() as int) =~= v@);
    string_of(&v, a, b)
}

/// The trimmed text at an optional path.
fn optional_text(item: &JsonValue, path: &Option<String>) -> (r: Option<String>)
    ensures
        opt_chars(r) == optional_field(*item, *path),
{
    match path {
        Some(p) => match get_string_field(item, p.as_str()) {
            Some(t) => Some(trimmed(t.as_str())),
            None => None,
        },
        None => None,
    }
}

/// The station a source item describes under `mapping`: none when its name or address is
/// missing; fields trimmed, and an empty name replaced by the address.
pub fn map_station(item: &JsonValue, mapping: &StationMapping) -> (r: Option<RadioStation>)
    ensures
        match r {
            Some(s) => mapped_station(*item, *mapping) == Some(station_text(s)),
            None => mapped_station(*item, *mapping) is None,
        },
{
    let name = match get_string_field(item, mapping.station_name.as_str()) {
        Some(n) => trimmed(n.as_str()),
        None => {
            return None;
        },
    };
    let url = match get_string_field(item, mapping.station_url.as_str()) {
        Some(u) => trimmed(u.as_str()),
        None => {
            return None;
        },
    };
    let name = if name.as_str().is_empty() {
        url.clone()
    } else {
        name
    };
    Some(
        RadioStation {
            name,
            url,
            description: optional_text(item, &mapping.description),
            homepage: optional_text(item, &mapping.homepage),
            tags: optional_text(item, &mapping.tags),
            last_playing: optional_text(item, &mapping.last_playing),
        },
    )
}

/// The stations of a source's document: the items of its list that describe a station.
pub fn stations_from_json(json: &JsonValue, source: &RadioSourceConfig) -> (r: Result<
    Vec<RadioStation>,
    SourceError,
>)
    ensures
        match r {
            Ok(v) => source_items(*json, source.container) matches Some(items)
                && v@.map_values(|s: RadioStation| station_text(s)) == mapped_stations(
                items,
                source.mapping,
            ),
            Err(e) => source_items(*json, source.container) is None && e == if source.container is Some {
                SourceError::ContainerNotArray
            } else {
                SourceError::RootNotArray
            },
        },
{
    let list = match &source.container {
        Some(c) => member_of(json, c.as_str()),
        None => Some(json),
    };
    let items = match list {
        Some(JsonValue::Array(a)) => a,
        _ => {
            return Err(
                if source.container.is_some() {
                    SourceError::ContainerNotArray
                } else {
                    SourceError::RootNotArray
                },
            );
        },
    };
    let mut stations: Vec<RadioStation> = Vec::new();
    let mut k: usize = 0;
    while k < items.len()
        invariant
            k <= items@.len(),
            stations@.map_values(|s: RadioStation| station_text(s)) == mapped_stations(
                items@.take(k as int),
                source.mapping,
            ),
        decreases items@.len() - k,
    {
        let ghost before = stations@.map_values(|s: RadioStation| station_text(s));
        assert(items@.take(k + 1).drop_last() =~= items@.take(k as int));
        assert(items@.take(k + 1).last() == items@[k as int]);
        match map_station(&items[k], &source.mapping) {
            Some(s) => {
                stations.push(s);
                assert(stations@.map_values(|s: RadioStation| station_text(s)) =~= before.push(
                    station_text(stations@.last()),
                ));
            },
            None => {},
        }
        k = k + 1;
    }
    assert(items@.take(items@.len() as int) =~= items@);
    Ok(stations)
}

/// The station text of a hand-entered station.
pub open spec fn individual_text(s: IndividualStationConfig) -> StationText {
    StationText {
        name: s.name@,
        url: s.station_url@,
        description: opt_chars(s.description),
        homepage: opt_chars(s.homepage),
        tags: opt_chars(s.tags),
        last_playing: None,
    }
}

/// The group of hand-entered stations, shown expanded.
pub open spec fn is_custom_group(g: GroupView, stations: Seq<IndividualStationConfig>) -> bool {
    &&& g.title@ == "Custom Stations"@
    &&& g.is_expanded
    &&& g.stations.map_values(|s: RadioStation| station_text(s)) == stations.map_values(
        |s: IndividualStationConfig| individual_text(s),
    )
}

/// The group "Custom Stations" of the hand-entered stations, when there are any.
pub fn custom_group(config: &RadioConfig) -> (r: Option<RadioGroup>)
    ensures
        r is None <==> config.individual_stations@.len() == 0,
        r matches Some(g) ==> is_custom_group(g.deep_view(), config.individual_stations@),
{
    if config.individual_stations.len() == 0 {
        return None;
    }
    let ghost src = config.individual_stations@.map_values(|s: IndividualStationConfig| individual_text(s));
    let mut stations: Vec<RadioStation> = Vec::new();
    let mut k: usize = 0;
    while k < config.individual_stations.len()
        invariant
            k <= config.individual_stations@.len(),
            src == config.individual_stations@.map_values(|s: IndividualStationConfig| individual_text(s)),
            stations@.map_values(|s: RadioStation| station_text(s)) == src.take(k as int),
        decreases config.individual_stations@.len() - k,
    {
        let s = &config.individual_stations[k];
        let st = RadioStation {
            name: s.name.clone(),
            url: s.station_url.clone(),
            description: s.description.clone(),
            homepage: s.homepage.clone(),
            tags: s.tags.clone(),
            last_playing: None,
        };
        let ghost before = stations@.map_values(|s: RadioStation| station_text(s));
        stations.push(st);
        assert(stations@.map_values(|s: RadioStation| station_text(s)) =~= before.push(station_text(st)));
        assert(src.take(k + 1) =~= src.take(k as int).push(src[k as int]));
        k = k + 1;
    }
    assert(src.take(src.len() as int) =~= src);
    Some(RadioGroup { title: owned("Custom Stations"), stations, is_expanded: true })
}

/// The groups of the sources whose stations came: each titled as its source, collapsed.
pub open spec fn source_groups(
    sources: Seq<RadioSourceConfig>,
    fetched: Seq<Option<Seq<RadioStation>>>,
) -> Seq<GroupView>
    decreases fetched.len(),
{
    if fetched.len() == 0 {
        Seq::empty()
    } else {
        let r = source_groups(sources, fetched.drop_last());
        match fetched.last() {
            Some(st) => r.push(
                GroupView {
                    title: sources[fetched.len() - 1].title,
                    stations: st,
                    is_expanded: false,
                },
            ),
            None => r,
        }
    }
}

/// The stations that came for each source, as sequences.
pub open spec fn fetched_view(f: Seq<Option<Vec<RadioStation>>>) -> Seq<Option<Seq<RadioStation>>> {
    f.map_values(|o: Option<Vec<RadioStation>>| match o {
        Some(v) => Some(v@),
        None => None,
    })
}

/// The groups of the radio list: the hand-entered stations first (when there are any),
/// then one group for each source whose stations could be had (`fetched[k]` holds what
/// came for source `k`; a source that failed is left out).
pub fn station_groups(config: &RadioConfig, fetched: Vec<Option<Vec<RadioStation>>>) -> (r: Vec<
    RadioGroup,
>)
    requires
        fetched@.len() == config.sources@.len(),
    ensures
        ({
            let groups = r.deep_view();
            let rest = source_groups(config.sources@, fetched_view(fetched@));
            if config.individual_stations@.len() == 0 {
                groups == rest
            } else {
                &&& groups.len() == rest.len() + 1
                &&& is_custom_group(groups[0], config.individual_stations@)
                &&& groups.drop_first() == rest
            }
        }),
{
    let ghost all = fetched_view(fetched@);
    let mut groups: Vec<RadioGroup> = Vec::new();
    match custom_group(config) {
        Some(g) => groups.push(g),
        None => {},
    }
    let ghost head = groups.deep_view();
    let mut rest = fetched;
    let mut k: usize = 0;
    while k < config.sources.len()
        invariant
            k <= all.len(),
            all.len() == config.sources@.len(),
            rest@.len() == all.len() - k,
            fetched_view(rest@) == all.subrange(k as int, all.len() as int),
            groups.deep_view() == head + source_groups(config.sources@, all.take(k as int)),
        decreases rest@.len(),
    {
        let ghost before = groups.deep_view();
        let ghost old_rest = rest@;
        let item = rest.remove(0);
        proof {
            assert(fetched_view(old_rest).len() == old_rest.len());
            assert(fetched_view(old_rest)[0] == all.subrange(k as int, all.len() as int)[0]);
            assert(fetched_view(old_rest)[0] == all[k as int]);
            assert(all.take(k + 1).drop_last() =~= all.take(k as int));
            assert(all.take(k + 1).last() == all[k as int]);
            assert forall|j: int| 0 <= j < rest@.len() implies fetched_view(rest@)[j] == all[k + 1 + j] by {
                assert(rest@[j] == old_rest[j + 1]);
                assert(fetched_view(old_rest)[j + 1] == all.subrange(k as int, all.len() as int)[j + 1]);
            }
            assert(fetched_view(rest@) =~= all.subrange(k + 1, all.len() as int));
        }
        match item {
            Some(st) => {
                let g = RadioGroup {
                    title: config.sources[k].title.clone(),
                    stations: st,
                    is_expanded: false,
                };
                groups.push(g);
                assert(groups.deep_view() =~= before.push(g.deep_view()));
            },
            None => {
                assert(groups.deep_view() =~= before);
            },
        }
        k = k + 1;
    }
    assert(all.take(all.len() as int) =~= all);
    proof {
        if config.individual_stations@.len() > 0 {
            assert((head + source_groups(config.sources@, all)).drop_first() =~= source_groups(
                config.sources@,
                all,
            ));
        } else {
            assert(head + source_groups(config.sources@, all) =~= source_groups(config.sources@, all));
        }
    }
    groups
}

/// How many sources' stations came.
pub open spec fn came_count(fetched: Seq<Option<Seq<RadioStation>>>) -> nat
    decreases fetched.len(),
{
    if fetched.len() == 0 {
        0
    } else {
        came_count(fetched.drop_last()) + if fetched.last() is Some {
            1nat
        } else {
            0nat
        }
    }
}

/// There is one group for each source whose stations came, and they keep the order of
/// the sources: the group of source `k` comes after the groups of the sources before it
/// that came, holds exactly the stations that came for `k`, collapsed, and bears the title
/// of source `k` itself.
pub proof fn law_each_source_titles_its_group(
    sources: Seq<RadioSourceConfig>,
    fetched: Seq<Option<Seq<RadioStation>>>,
    k: int,
)
    requires
        fetched.len() <= sources.len(),
        0 <= k < fetched.len(),
        fetched[k] is Some,
    ensures
        came_count(fetched.take(k)) < source_groups(sources, fetched).len(),
        source_groups(sources, fetched)[came_count(fetched.take(k)) as int] == (GroupView {
            title: sources[k].title,
            stations: fetched[k]->0,
            is_expanded: false,
        }),
    decreases fetched.len(),
{
    let n = fetched.len();
    let rest = fetched.drop_last();
    lemma_source_groups_len(sources, rest);
    if k == n - 1 {
        assert(fetched.take(k) =~= rest);
    } else {
        law_each_source_titles_its_group(sources, rest, k);
        assert(rest.take(k) =~= fetched.take(k));
    }
}

/// One group for each source whose stations came.
pub proof fn lemma_source_groups_len(sources: Seq<RadioSourceConfig>, fetched: Seq<Option<Seq<RadioStation>>>)
    ensures
        source_groups(sources, fetched).len() == came_count(fetched),
    decreases fetched.len(),
{
    if fetched.len() > 0 {
        lemma_source_groups_len(sources, fetched.drop_last());
    }
}

/// Whether `c` is alphabetic or numeric, as `char::is_alphanumeric` answers.
pub uninterp spec fn alphanumeric(c: char) -> bool;

/// Calls `char::is_alphanumeric`.
#[verifier::external_body]
fn is_alphanumeric(c: char) -> (r: bool)
    ensures
        r == alphanumeric(c),
{
    c.is_alphanumeric()
}

/// The cache file name of a source: its title with every character that is not alphabetic
/// or numeric replaced by `_`, then `.json`.
pub open spec fn cache_file_name(title: Seq<char>) -> Seq<char> {
    title.map_values(|c: char| if alphanumeric(c) {
        c
    } else {
        '_'
    }) + ".json"@
}

/// The file that caches a source's document under the home directory `home`.
pub open spec fn cache_path_spec(home: Seq<char>, title: Seq<char>) -> Seq<char> {
    path_join(path_join(home, ".cache/cohors/stations"@), cache_file_name(title))
}

/// The cache file of the source titled `title` under the home directory `home`.
pub fn cache_path(home: &str, title: &str) -> (r: String)
    ensures
        r@ == cache_path_spec(home@, title@),
{
    let v = chars_of(title);
    let mut name = String::new();
    let mut k: usize = 0;
    while k < v.len()
        invariant
            k <= v@.len(),
            v@ == title@,
            name@ == v@.take(k as int).map_values(|c: char| if alphanumeric(c) {
                c
            } else {
                '_'
            }),
        decreases v@.len() - k,
    {
        let c = v[k];
        if is_alphanumeric(c) {
            name.push(c);
        } else {
            name.push('_');
        }
        assert(v@.take(k + 1) =~= v@.take(k as int).push(c));
        assert(name@ =~= v@.take(k + 1).map_values(|c: char| if alphanumeric(c) {
            c
        } else {
            '_'
        }));
        k = k + 1;
    }
    assert(v@.take(v@.len() as int) =~= v@);
    crate::text::push_all(&mut name, ".json");
    let dir = join(home, ".cache/cohors/stations");
    join(dir.as_str(), name.as_str())
}

/// How long a cached document is used: one week, in seconds.
pub const CACHE_MAX_AGE_SECS: u64 = 604800;

/// Whether a cache file of age `age_secs` (in whole seconds; none when its time lies in
/// the future) is still used: it is younger than a week.
pub fn cache_is_fresh(age_secs: Option<u64>) -> (r: bool)
    ensures
        r == match age_secs {
            Some(a) => a < CACHE_MAX_AGE_SECS,
            None => true,
        },
{
    match age_secs {
        Some(a) => a < CACHE_MAX_AGE_SECS,
        None => true,
    }
}

/// Whether a response of the content type `ct` is an audio stream and not a playlist:
/// its lowercased type names audio, mpeg or ogg, and none of scpls, mpegurl and m3u.
pub open spec fn is_audio_stream(ct: Seq<char>) -> bool {
    let t = lowercase_of(ct);
    let playlist = occurs_in(t, "scpls"@) || occurs_in(t, "mpegurl"@) || occurs_in(t, "m3u"@);
    (occurs_in(t, "audio"@) || occurs_in(t, "mpeg"@) || occurs_in(t, "ogg"@)) && !playlist
}

/// Whether `t` contains `needle`.
fn has(t: &Vec<char>, needle: &str) -> (r: bool)
    ensures
        r == occurs_in(t@, needle@),
{
    let n = chars_of(needle);
    contains_chars(t, &n)
}

/// Refuses a response whose content type (if it has one) says it is an audio stream.
pub fn check_playlist_type(content_type: Option<&str>) -> (r: Result<(), PlaylistError>)
    ensures
        match content_type {
            Some(ct) => if is_audio_stream(ct@) {
                r == Err::<(), PlaylistError>(PlaylistError::AudioStream)
            } else {
                r is Ok
            },
            None => r is Ok,
        },
{
    match content_type {
        Some(ct) => {
            let lower = to_lowercase(ct);
            let t = chars_of(lower.as_str());
            let playlist = has(&t, "scpls") || has(&t, "mpegurl") || has(&t, "m3u");
            if (has(&t, "audio") || has(&t, "mpeg") || has(&t, "ogg")) && !playlist {
                Err(PlaylistError::AudioStream)
            } else {
                Ok(())
            }
        },
        None => Ok(()),
    }
}

/// The stream address in a playlist: read as PLS first, then as M3U.
pub fn stream_url_from_playlist(content: &str) -> (r: Result<String, PlaylistError>)
    ensures
        match r {
            Ok(u) => pls_stream_url(content@) == Some(u@) || (pls_stream_url(content@) is None
                && m3u_stream_url(content@) == Some(u@)),
            Err(e) => pls_stream_url(content@) is None && m3u_stream_url(content@) is None && e
                == PlaylistError::NoStreamUrlInM3u,
        },
{
    match parse_pls(content) {
        Ok(u) => Ok(u),
        Err(_) => parse_m3u(content),
    }
}

} // verus!
