//! The user's configuration document: radio stations and sources, music servers, and
//! the edits the player makes to it. Reading and writing the file is the caller's part.
use crate::radio::RadioStation;
use crate::text::same_text;
use vstd::prelude::*;

verus! {

/// The music servers the player knows.
#[derive(Debug)]
pub struct NavidromeConfig {
    pub sources: Vec<NavidromeSourceConfig>,
}

/// One Subsonic-compatible server and the account used on it.
#[derive(Debug)]
pub struct NavidromeSourceConfig {
    pub server_url: String,
    pub username: String,
    pub password: Option<String>,
    pub auth_token: Option<String>,
}

/// One Audiobookshelf server and the token used on it.
#[derive(Debug)]
pub struct AbsSourceConfig {
    pub server_url: String,
    pub username: String,
    pub api_token: String,
}

/// The radio part of the configuration: sources that list stations, and single stations.
#[derive(Debug)]
pub struct RadioConfig {
    pub sources: Vec<RadioSourceConfig>,
    pub individual_stations: Vec<IndividualStationConfig>,
}

/// A station the user entered by hand.
#[derive(Debug)]
pub struct IndividualStationConfig {
    pub name: String,
    pub station_url: String,
    pub description: Option<String>,
    pub homepage: Option<String>,
    pub tags: Option<String>,
}

/// A JSON document that lists stations, and where in it the station fields are.
#[derive(Debug)]
pub struct RadioSourceConfig {
    pub title: String,
    pub json_url: String,
    pub container: Option<String>,
    pub mapping: StationMapping,
}

/// For each station field, the dotted path of the JSON field that holds it.
#[derive(Debug)]
pub struct StationMapping {
    pub station_name: String,
    pub station_url: String,
    pub description: Option<String>,
    pub homepage: Option<String>,
    pub tags: Option<String>,
    pub last_playing: Option<String>,
}

impl Clone for NavidromeSourceConfig {
    fn clone(&self) -> (r: Self)
        ensures
            r == *self,
    {
        NavidromeSourceConfig {
            server_url: self.server_url.clone(),
            username: self.username.clone(),
            password: self.password.clone(),
            auth_token: self.auth_token.clone(),
        }
    }
}

impl Clone for AbsSourceConfig {
    fn clone(&self) -> (r: Self)
        ensures
            r == *self,
    {
        AbsSourceConfig {
            server_url: self.server_url.clone(),
            username: self.username.clone(),
            api_token: self.api_token.clone(),
        }
    }
}

impl Clone for IndividualStationConfig {
    fn clone(&self) -> (r: Self)
        ensures
            r == *self,
    {
        IndividualStationConfig {
            name: self.name.clone(),
            station_url: self.station_url.clone(),
            description: self.description.clone(),
            homepage: self.homepage.clone(),
            tags: self.tags.clone(),
        }
    }
}

impl Clone for StationMapping {
    fn clone(&self) -> (r: Self)
        ensures
            r == *self,
    {
        StationMapping {
            station_name: self.station_name.clone(),
            station_url: self.station_url.clone(),
            description: self.description.clone(),
            homepage: self.homepage.clone(),
            tags: self.tags.clone(),
            last_playing: self.last_playing.clone(),
        }
    }
}

impl Clone for RadioSourceConfig {
    fn clone(&self) -> (r: Self)
        ensures
            r == *self,
    {
        RadioSourceConfig {
            title: self.title.clone(),
            json_url: self.json_url.clone(),
            container: self.container.clone(),
            mapping: self.mapping.clone(),
        }
    }
}

impl Default for NavidromeConfig {
    fn default() -> (r: Self)
        ensures
            r.sources@ == Seq::<NavidromeSourceConfig>::empty(),
    {
        NavidromeConfig { sources: Vec::new() }
    }
}

impl Default for RadioConfig {
    fn default() -> (r: Self)
        ensures
            r.sources@ == Seq::<RadioSourceConfig>::empty(),
            r.individual_stations@ == Seq::<IndividualStationConfig>::empty(),
    {
        RadioConfig { sources: Vec::new(), individual_stations: Vec::new() }
    }
}

/// The first server whose address is `url`.
pub open spec fn server_position(sources: Seq<NavidromeSourceConfig>, url: Seq<char>) -> Option<
    int,
>
    decreases sources.len(),
{
    if sources.len() == 0 {
        None
    } else {
        match server_position(sources.drop_last(), url) {
            Some(i) => Some(i),
            None => if sources.last().server_url@ == url {
                Some(sources.len() - 1)
            } else {
                None
            },
        }
    }
}

/// The first hand-entered station whose address is `url`.
pub open spec fn individual_position(stations: Seq<IndividualStationConfig>, url: Seq<char>) -> Option<
    int,
>
    decreases stations.len(),
{
    if stations.len() == 0 {
        None
    } else {
        match individual_position(stations.drop_last(), url) {
            Some(i) => Some(i),
            None => if stations.last().station_url@ == url {
                Some(stations.len() - 1)
            } else {
                None
            },
        }
    }
}

/// The first source whose title is `title`.
pub open spec fn source_position(sources: Seq<RadioSourceConfig>, title: Seq<char>) -> Option<
    int,
>
    decreases sources.len(),
{
    if sources.len() == 0 {
        None
    } else {
        match source_position(sources.drop_last(), title) {
            Some(i) => Some(i),
            None => if sources.last().title@ == title {
                Some(sources.len() - 1)
            } else {
                None
            },
        }
    }
}

pub proof fn lemma_server_position(sources: Seq<NavidromeSourceConfig>, url: Seq<char>)
    ensures
        server_position(sources, url) matches Some(i) ==> 0 <= i < sources.len()
            && sources[i].server_url@ == url && forall|k: int|
            0 <= k < i ==> sources[k].server_url@ != url,
        server_position(sources, url) is None ==> forall|k: int|
            0 <= k < sources.len() ==> sources[k].server_url@ != url,
    decreases sources.len(),
{
    if sources.len() > 0 {
        lemma_server_position(sources.drop_last(), url);
        assert forall|k: int| 0 <= k < sources.len() - 1 implies sources[k] == sources.drop_last()[k] by {}
    }
}

pub proof fn lemma_individual_position(stations: Seq<IndividualStationConfig>, url: Seq<char>)
    ensures
        individual_position(stations, url) matches Some(i) ==> 0 <= i < stations.len()
            && stations[i].station_url@ == url && forall|k: int|
            0 <= k < i ==> stations[k].station_url@ != url,
        individual_position(stations, url) is None ==> forall|k: int|
            0 <= k < stations.len() ==> stations[k].station_url@ != url,
    decreases stations.len(),
{
    if stations.len() > 0 {
        lemma_individual_position(stations.drop_last(), url);
        assert forall|k: int| 0 <= k < stations.len() - 1 implies stations[k] == stations.drop_last()[k] by {}
    }
}

pub proof fn lemma_source_position(sources: Seq<RadioSourceConfig>, title: Seq<char>)
    ensures
        source_position(sources, title) matches Some(i) ==> 0 <= i < sources.len()
            && sources[i].title@ == title && forall|k: int|
            0 <= k < i ==> sources[k].title@ != title,
        source_position(sources, title) is None ==> forall|k: int|
            0 <= k < sources.len() ==> sources[k].title@ != title,
    decreases sources.len(),
{
    if sources.len() > 0 {
        lemma_source_position(sources.drop_last(), title);
        assert forall|k: int| 0 <= k < sources.len() - 1 implies sources[k] == sources.drop_last()[k] by {}
    }
}

/// Where the server with address `url` is in `sources`.
fn find_server(sources: &Vec<NavidromeSourceConfig>, url: &str) -> (r: Option<usize>)
    ensures
        r matches Some(i) ==> server_position(sources@, url@) == Some(i as int) && i < sources@.len(),
        r is None ==> server_position(sources@, url@) is None,
{
    let mut i: usize = 0;
    while i < sources.len()
        invariant
            i <= sources@.len(),
            forall|k: int| 0 <= k < i ==> sources@[k].server_url@ != url@,
        decreases sources@.len() - i,
    {
        if same_text(sources[i].server_url.as_str(), url) {
            proof {
                lemma_server_position(sources@, url@);
                if let Some(j) = server_position(sources@, url@) {
                    if j > i {
                        assert(sources@[i as int].server_url@ != url@);
                    }
                }
            }
            return Some(i);
        }
        i = i + 1;
    }
    proof {
        lemma_server_position(sources@, url@);
    }
    None
}

/// Where the hand-entered station with address `url` is in `stations`.
fn find_individual(stations: &Vec<IndividualStationConfig>, url: &str) -> (r: Option<usize>)
    ensures
        r matches Some(i) ==> individual_position(stations@, url@) == Some(i as int) && i
            < stations@.len(),
        r is None ==> individual_position(stations@, url@) is None,
{
    let mut i: usize = 0;
    while i < stations.len()
        invariant
            i <= stations@.len(),
            forall|k: int| 0 <= k < i ==> stations@[k].station_url@ != url@,
        decreases stations@.len() - i,
    {
        if same_text(stations[i].station_url.as_str(), url) {
            proof {
                lemma_individual_position(stations@, url@);
                if let Some(j) = individual_position(stations@, url@) {
                    if j > i {
                        assert(stations@[i as int].station_url@ != url@);
                    }
                }
            }
            return Some(i);
        }
        i = i + 1;
    }
    proof {
        lemma_individual_position(stations@, url@);
    }
    None
}

/// Where the source titled `title` is in `sources`.
fn find_source(sources: &Vec<RadioSourceConfig>, title: &str) -> (r: Option<usize>)
    ensures
        r matches Some(i) ==> source_position(sources@, title@) == Some(i as int) && i
            < sources@.len(),
        r is None ==> source_position(sources@, title@) is None,
{
    let mut i: usize = 0;
    while i < sources.len()
        invariant
            i <= sources@.len(),
            forall|k: int| 0 <= k < i ==> sources@[k].title@ != title@,
        decreases sources@.len() - i,
    {
        if same_text(sources[i].title.as_str(), title) {
            proof {
                lemma_source_position(sources@, title@);
                if let Some(j) = source_position(sources@, title@) {
                    if j > i {
                        assert(sources@[i as int].title@ != title@);
                    }
                }
            }
            return Some(i);
        }
        i = i + 1;
    }
    proof {
        lemma_source_position(sources@, title@);
    }
    None
}

} // verus!

verus! {

/// The servers without the first one at address `url`.
pub open spec fn without_server(sources: Seq<NavidromeSourceConfig>, url: Seq<char>) -> Seq<
    NavidromeSourceConfig,
> {
    match server_position(sources, url) {
        Some(i) => sources.remove(i),
        None => sources,
    }
}

/// The servers after saving `source`: in place of the first at `original` when editing
/// one that exists, appended when adding, unchanged when the edited one is gone.
pub open spec fn saved_servers(
    sources: Seq<NavidromeSourceConfig>,
    original: Option<Seq<char>>,
    source: NavidromeSourceConfig,
) -> Seq<NavidromeSourceConfig> {
    match original {
        Some(url) => match server_position(sources, url) {
            Some(i) => sources.update(i, source),
            None => sources,
        },
        None => sources.push(source),
    }
}

/// The hand-entered station that records `s`.
pub open spec fn individual_of(s: RadioStation) -> IndividualStationConfig {
    IndividualStationConfig {
        name: s.name,
        station_url: s.url,
        description: s.description,
        homepage: s.homepage,
        tags: s.tags,
    }
}

/// The stations with `s` appended, unless one already has its address.
pub open spec fn with_station(stations: Seq<IndividualStationConfig>, s: RadioStation) -> Seq<
    IndividualStationConfig,
> {
    match individual_position(stations, s.url@) {
        Some(_) => stations,
        None => stations.push(individual_of(s)),
    }
}

/// The stations with the first at address `url` replaced by `s`.
pub open spec fn replaced_station(
    stations: Seq<IndividualStationConfig>,
    url: Seq<char>,
    s: RadioStation,
) -> Seq<IndividualStationConfig> {
    match individual_position(stations, url) {
        Some(i) => stations.update(i, individual_of(s)),
        None => stations,
    }
}

/// The stations without the first at address `url`.
pub open spec fn without_station(stations: Seq<IndividualStationConfig>, url: Seq<char>) -> Seq<
    IndividualStationConfig,
> {
    match individual_position(stations, url) {
        Some(i) => stations.remove(i),
        None => stations,
    }
}

/// The sources with `source` appended, unless one already has its title.
pub open spec fn with_source(sources: Seq<RadioSourceConfig>, source: RadioSourceConfig) -> Seq<
    RadioSourceConfig,
> {
    match source_position(sources, source.title@) {
        Some(_) => sources,
        None => sources.push(source),
    }
}

/// The sources with the first titled `title` replaced by `source`.
pub open spec fn replaced_source(
    sources: Seq<RadioSourceConfig>,
    title: Seq<char>,
    source: RadioSourceConfig,
) -> Seq<RadioSourceConfig> {
    match source_position(sources, title) {
        Some(i) => sources.update(i, source),
        None => sources,
    }
}

/// The sources without the first titled `title`.
pub open spec fn without_source(sources: Seq<RadioSourceConfig>, title: Seq<char>) -> Seq<
    RadioSourceConfig,
> {
    match source_position(sources, title) {
        Some(i) => sources.remove(i),
        None => sources,
    }
}

/// Removes the music server at `server_url` from the configuration; returns whether one
/// was removed (and the configuration must be written back).
pub fn delete_navidrome_from_config(navidrome: &mut Option<NavidromeConfig>, server_url: &str) -> (removed: bool)
    ensures
        (*final(navidrome)) is Some == (*old(navidrome)) is Some,
        removed == (*old(navidrome) matches Some(c) && server_position(c.sources@, server_url@) is Some),
        *old(navidrome) matches Some(c) ==> (*final(navidrome))->0.sources@ == without_server(
            c.sources@,
            server_url@,
        ),
{
    match navidrome {
        Some(nav) => match find_server(&nav.sources, server_url) {
            Some(i) => {
                nav.sources.remove(i);
                true
            },
            None => false,
        },
        None => false,
    }
}

/// Records a music server the user entered: replaces the one at `original_url` when
/// editing, otherwise appends it (creating the server list if there is none).
pub fn save_navidrome_source(
    navidrome: &mut Option<NavidromeConfig>,
    original_url: &Option<String>,
    source: NavidromeSourceConfig,
)
    ensures
        (*old(navidrome)) is None && original_url is Some ==> (*final(navidrome)) is None,
        !((*old(navidrome)) is None && original_url is Some) ==> (*final(navidrome)) is Some
            && (*final(navidrome))->0.sources@ == saved_servers(
            match *old(navidrome) {
                Some(c) => c.sources@,
                None => Seq::empty(),
            },
            match original_url {
                Some(u) => Some(u@),
                None => None,
            },
            source,
        ),
{
    match original_url {
        Some(old_url) => {
            match navidrome {
                Some(nav) => match find_server(&nav.sources, old_url.as_str()) {
                    Some(i) => {
                        nav.sources.set(i, source);
                    },
                    None => {},
                },
                None => {},
            }
        },
        None => {
            if navidrome.is_none() {
                *navidrome = Some(NavidromeConfig::default());
            }
            match navidrome {
                Some(nav) => {
                    nav.sources.push(source);
                },
                None => {},
            }
        },
    }
}

/// The configuration record of a station.
pub fn individual_station_of(s: &RadioStation) -> (r: IndividualStationConfig)
    ensures
        r == individual_of(*s),
{
    IndividualStationConfig {
        name: s.name.clone(),
        station_url: s.url.clone(),
        description: s.description.clone(),
        homepage: s.homepage.clone(),
        tags: s.tags.clone(),
    }
}

/// Adds `station` to the hand-entered stations unless one has its address; returns
/// whether it was added.
pub fn add_station_to_config(radio: &mut RadioConfig, station: &RadioStation) -> (added: bool)
    ensures
        final(radio).individual_stations@ == with_station(old(radio).individual_stations@, *station),
        final(radio).sources@ == old(radio).sources@,
        added == (individual_position(old(radio).individual_stations@, station.url@) is None),
{
    match find_individual(&radio.individual_stations, station.url.as_str()) {
        Some(_) => false,
        None => {
            radio.individual_stations.push(individual_station_of(station));
            true
        },
    }
}

/// Replaces the hand-entered station at `old_url` with `station`; returns whether there
/// was one.
pub fn edit_station_in_config(radio: &mut RadioConfig, old_url: &str, station: &RadioStation) -> (found: bool)
    ensures
        final(radio).individual_stations@ == replaced_station(
            old(radio).individual_stations@,
            old_url@,
            *station,
        ),
        final(radio).sources@ == old(radio).sources@,
        found == (individual_position(old(radio).individual_stations@, old_url@) is Some),
{
    match find_individual(&radio.individual_stations, old_url) {
        Some(i) => {
            radio.individual_stations.set(i, individual_station_of(station));
            true
        },
        None => false,
    }
}

/// Removes the hand-entered station at `url`; returns whether there was one.
pub fn delete_station_from_config(radio: &mut RadioConfig, url: &str) -> (found: bool)
    ensures
        final(radio).individual_stations@ == without_station(old(radio).individual_stations@, url@),
        final(radio).sources@ == old(radio).sources@,
        found == (individual_position(old(radio).individual_stations@, url@) is Some),
{
    match find_individual(&radio.individual_stations, url) {
        Some(i) => {
            radio.individual_stations.remove(i);
            true
        },
        None => false,
    }
}

/// Adds `source` unless one has its title; returns whether it was added.
pub fn add_source_to_config(radio: &mut RadioConfig, source: &RadioSourceConfig) -> (added: bool)
    ensures
        final(radio).sources@ == with_source(old(radio).sources@, *source),
        final(radio).individual_stations@ == old(radio).individual_stations@,
        added == (source_position(old(radio).sources@, source.title@) is None),
{
    match find_source(&radio.sources, source.title.as_str()) {
        Some(_) => false,
        None => {
            radio.sources.push(source.clone());
            true
        },
    }
}

/// Replaces the source titled `old_title` with `source`; returns whether there was one.
pub fn edit_source_in_config(radio: &mut RadioConfig, old_title: &str, source: &RadioSourceConfig) -> (found: bool)
    ensures
        final(radio).sources@ == replaced_source(old(radio).sources@, old_title@, *source),
        final(radio).individual_stations@ == old(radio).individual_stations@,
        found == (source_position(old(radio).sources@, old_title@) is Some),
{
    match find_source(&radio.sources, old_title) {
        Some(i) => {
            radio.sources.set(i, source.clone());
            true
        },
        None => false,
    }
}

/// Removes the source titled `title`; returns whether there was one.
pub fn delete_source_from_config(radio: &mut RadioConfig, title: &str) -> (found: bool)
    ensures
        final(radio).sources@ == without_source(old(radio).sources@, title@),
        final(radio).individual_stations@ == old(radio).individual_stations@,
        found == (source_position(old(radio).sources@, title@) is Some),
{
    match find_source(&radio.sources, title) {
        Some(i) => {
            radio.sources.remove(i);
            true
        },
        None => false,
    }
}

} // verus!

verus! {

/// Adding a station whose address is not listed and then deleting that address gives back
/// the same stations.
pub proof fn law_add_then_delete_station(stations: Seq<IndividualStationConfig>, s: RadioStation)
    requires
        individual_position(stations, s.url@) is None,
    ensures
        without_station(with_station(stations, s), s.url@) == stations,
{
    lemma_individual_position(stations, s.url@);
    let t = stations.push(individual_of(s));
    lemma_individual_position(t, s.url@);
    let i = individual_position(t, s.url@)->0;
    if i < stations.len() {
        assert(t[i] == stations[i]);
    }
    assert(t.remove(stations.len() as int) =~= stations);
}

/// Adding the same station twice adds it once.
pub proof fn law_add_station_idempotent(stations: Seq<IndividualStationConfig>, s: RadioStation)
    ensures
        with_station(with_station(stations, s), s) == with_station(stations, s),
{
    lemma_individual_position(stations, s.url@);
    let t = with_station(stations, s);
    lemma_individual_position(t, s.url@);
    if individual_position(stations, s.url@) is None {
        assert(t[stations.len() as int].station_url@ == s.url@);
    }
}

/// Adding a source whose title is not listed and then deleting that title gives back the
/// same sources.
pub proof fn law_add_then_delete_source(sources: Seq<RadioSourceConfig>, source: RadioSourceConfig)
    requires
        source_position(sources, source.title@) is None,
    ensures
        without_source(with_source(sources, source), source.title@) == sources,
{
    lemma_source_position(sources, source.title@);
    let t = sources.push(source);
    lemma_source_position(t, source.title@);
    let i = source_position(t, source.title@)->0;
    if i < sources.len() {
        assert(t[i] == sources[i]);
    }
    assert(t.remove(sources.len() as int) =~= sources);
}

/// Adding the same source twice adds it once.
pub proof fn law_add_source_idempotent(sources: Seq<RadioSourceConfig>, source: RadioSourceConfig)
    ensures
        with_source(with_source(sources, source), source) == with_source(sources, source),
{
    lemma_source_position(sources, source.title@);
    let t = with_source(sources, source);
    lemma_source_position(t, source.title@);
    if source_position(sources, source.title@) is None {
        assert(t[sources.len() as int].title@ == source.title@);
    }
}

/// Adding a server whose address is not listed and then deleting that address gives back
/// the same servers.
pub proof fn law_add_then_delete_server(
    sources: Seq<NavidromeSourceConfig>,
    source: NavidromeSourceConfig,
)
    requires
        server_position(sources, source.server_url@) is None,
    ensures
        without_server(saved_servers(sources, None, source), source.server_url@) == sources,
{
    lemma_server_position(sources, source.server_url@);
    let t = sources.push(source);
    lemma_server_position(t, source.server_url@);
    let i = server_position(t, source.server_url@)->0;
    if i < sources.len() {
        assert(t[i] == sources[i]);
    }
    assert(t.remove(sources.len() as int) =~= sources);
}

/// Editing a station keeps the number of stations.
pub proof fn law_edit_station_keeps_count(
    stations: Seq<IndividualStationConfig>,
    url: Seq<char>,
    s: RadioStation,
)
    ensures
        replaced_station(stations, url, s).len() == stations.len(),
{
    lemma_individual_position(stations, url);
}

/// Editing replaces the station being edited, the first one at the old address, by the
/// new station, and leaves every other station where and as it was.
pub proof fn law_edit_replaces_edited_station(
    stations: Seq<IndividualStationConfig>,
    url: Seq<char>,
    s: RadioStation,
    i: int,
)
    requires
        0 <= i < stations.len(),
        stations[i].station_url@ == url,
        forall|k: int| 0 <= k < i ==> stations[k].station_url@ != url,
    ensures
        ({
            let r = replaced_station(stations, url, s);
            &&& r.len() == stations.len()
            &&& r[i].name == s.name
            &&& r[i].station_url == s.url
            &&& r[i].description == s.description
            &&& r[i].homepage == s.homepage
            &&& r[i].tags == s.tags
            &&& forall|j: int| 0 <= j < stations.len() && j != i ==> r[j] == stations[j]
        }),
{
    lemma_individual_position(stations, url);
    let p = individual_position(stations, url);
    assert(p is Some) by {
        if p is None {
            assert(stations[i].station_url@ != url);
        }
    }
    let q = p->0;
    assert(q == i) by {
        if q < i {
            assert(stations[q].station_url@ != url);
        }
        if q > i {
            assert(stations[i].station_url@ != url);
        }
    }
}

/// Editing an address that no station has changes nothing.
pub proof fn law_edit_unknown_address_keeps_stations(
    stations: Seq<IndividualStationConfig>,
    url: Seq<char>,
    s: RadioStation,
)
    requires
        forall|k: int| 0 <= k < stations.len() ==> stations[k].station_url@ != url,
    ensures
        replaced_station(stations, url, s) == stations,
{
    lemma_individual_position(stations, url);
    if let Some(q) = individual_position(stations, url) {
        assert(stations[q].station_url@ == url);
    }
}

} // verus!
