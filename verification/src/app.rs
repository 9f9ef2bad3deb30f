//! The player's state and the decisions it takes on each key, command and reply.
//! Audio output, timing, the terminal and the network are the caller's part: the
//! methods here change the state and say what outside work is to be done.
use crate::config::{
    individual_position, lemma_individual_position, lemma_source_position, source_position,
    IndividualStationConfig, NavidromeSourceConfig, RadioConfig, RadioSourceConfig,
    StationMapping,
};
use crate::favorites::{
    file_position, lemma_file_position, lemma_station_position, station_position, toggled_files,
    toggled_stations, Favorites,
};
use crate::navidrome::{auth_params_spec, endpoint_url, query_string, Album, Artist, SubsonicClient, Track};
use crate::paths::{
    ends_with_parent, file_name, parent, path_ends_with_parent, path_file_name, path_parent,
};
use crate::radio::{GroupView, RadioGroup, RadioStation};
use crate::text::{
    chars_of, contains_chars, lowercase_of, occurs_in, opt_chars, owned, push_all, same_text,
    to_lowercase, trim, trim_bounds,
};
use vstd::prelude::*;

verus! {

/// Which list the player shows.
#[derive(Debug, Clone, Copy, PartialEq, Eq, Structural)]
pub enum AppMode {
    FileSystem,
    Radio,
    Favorites,
    Subsonic,
}

/// Where the music server browser is: the server list, the artists of the active
/// server, the albums of an artist, or the songs of an album.
#[derive(Debug, PartialEq)]
pub enum SubsonicView {
    Servers,
    Artists,
    Albums(String),
    Tracks(String),
}

impl Clone for SubsonicView {
    fn clone(&self) -> (r: Self)
        ensures
            r == *self,
    {
        match self {
            SubsonicView::Servers => SubsonicView::Servers,
            SubsonicView::Artists => SubsonicView::Artists,
            SubsonicView::Albums(id) => SubsonicView::Albums(id.clone()),
            SubsonicView::Tracks(id) => SubsonicView::Tracks(id.clone()),
        }
    }
}

/// What happens when a track ends: nothing, the track again, or the next track.
#[derive(Debug, Clone, Copy, PartialEq, Eq, Structural)]
pub enum LoopMode {
    Off,
    Track,
    All,
}

/// What a confirmation dialog is about to delete.
#[derive(Debug, PartialEq)]
pub enum ConfirmationContext {
    DeleteStation(String),
    DeleteSource(String),
    DeleteSubsonic(String),
}

impl Clone for ConfirmationContext {
    fn clone(&self) -> (r: Self)
        ensures
            r == *self,
    {
        match self {
            ConfirmationContext::DeleteStation(s) => ConfirmationContext::DeleteStation(s.clone()),
            ConfirmationContext::DeleteSource(s) => ConfirmationContext::DeleteSource(s.clone()),
            ConfirmationContext::DeleteSubsonic(s) => ConfirmationContext::DeleteSubsonic(
                s.clone(),
            ),
        }
    }
}

/// The add / edit / confirm dialog and the text of its fields.
#[derive(Debug, PartialEq)]
pub enum AddModalState {
    Selection,
    InputStation {
        name: String,
        url: String,
        description: String,
        homepage: String,
        tags: String,
        focused_field: usize,
        original_url: Option<String>,
    },
    InputSource {
        title: String,
        json_url: String,
        container: String,
        map_name: String,
        map_url: String,
        map_desc: String,
        map_home: String,
        map_tags: String,
        focused_field: usize,
        original_title: Option<String>,
    },
    InputSubsonic {
        server_url: String,
        username: String,
        password: String,
        focused_field: usize,
        original_url: Option<String>,
    },
    Confirmation { message: String, context: ConfirmationContext },
}

/// The selection and scroll position of a list on screen.
#[derive(Debug, Clone, Copy, PartialEq, Eq, Structural)]
pub struct ListState {
    pub selected: Option<usize>,
    pub offset: usize,
}

impl Default for ListState {
    fn default() -> (r: Self)
        ensures
            r.selected is None,
            r.offset == 0,
    {
        ListState { selected: None, offset: 0 }
    }
}

impl ListState {
    /// Selects `index`; clearing the selection also scrolls back to the top.
    pub fn select(&mut self, index: Option<usize>)
        ensures
            final(self).selected == index,
            final(self).offset == if index is None {
                0
            } else {
                old(self).offset
            },
    {
        self.selected = index;
        if index.is_none() {
            self.offset = 0;
        }
    }

    pub fn selected(&self) -> (r: Option<usize>)
        ensures
            r == self.selected,
    {
        self.selected
    }

    pub fn offset(&self) -> (r: usize)
        ensures
            r == self.offset,
    {
        self.offset
    }

    pub fn with_offset(self, offset: usize) -> (r: Self)
        ensures
            r == (ListState { offset, ..self }),
    {
        ListState { offset, ..self }
    }

    pub fn with_selected(self, selected: Option<usize>) -> (r: Self)
        ensures
            r == (ListState { selected, ..self }),
    {
        ListState { selected, ..self }
    }
}

/// The list after selecting `i` (the scroll position stays).
pub open spec fn selecting(l: ListState, i: Option<usize>) -> ListState {
    ListState {
        selected: i,
        offset: if i is None {
            0
        } else {
            l.offset
        },
    }
}

/// A row of the radio list: a group's header, a station of an expanded group, or past the end.
pub enum RadioRow {
    Header(int),
    Station(int, int),
    Beyond,
}

/// How many station rows a group shows: all its stations when expanded, none otherwise.
pub open spec fn shown_stations(g: RadioGroup) -> int {
    if g.is_expanded {
        g.stations@.len() as int
    } else {
        0
    }
}

/// The row at position `index` of the list made of the groups from the `g`-th on.
pub open spec fn row_from(groups: Seq<RadioGroup>, g: int, index: int) -> RadioRow
    decreases groups.len() - g,
{
    if g < 0 || g >= groups.len() {
        RadioRow::Beyond
    } else if index == 0 {
        RadioRow::Header(g)
    } else if index - 1 < shown_stations(groups[g]) {
        RadioRow::Station(g, index - 1)
    } else {
        row_from(groups, g + 1, index - 1 - shown_stations(groups[g]))
    }
}

/// The row at position `index` of the radio list.
pub open spec fn row_at(groups: Seq<RadioGroup>, index: int) -> RadioRow {
    row_from(groups, 0, index)
}

/// The number of rows the groups from the `g`-th on show.
pub open spec fn count_from(groups: Seq<RadioGroup>, g: int) -> int
    decreases groups.len() - g,
{
    if g < 0 || g >= groups.len() {
        0
    } else {
        1 + shown_stations(groups[g]) + count_from(groups, g + 1)
    }
}

/// The number of rows of the radio list: one header per group and the stations of the
/// expanded ones.
pub open spec fn visible_count(groups: Seq<RadioGroup>) -> int {
    count_from(groups, 0)
}

/// The station shown at row `index`, if that row is a station.
pub open spec fn station_at(groups: Seq<RadioGroup>, index: int) -> Option<RadioStation> {
    match row_at(groups, index) {
        RadioRow::Station(g, s) => Some(groups[g].stations@[s]),
        _ => None,
    }
}

pub proof fn lemma_count_from_nonneg(groups: Seq<RadioGroup>, g: int)
    ensures
        count_from(groups, g) >= 0,
    decreases groups.len() - g,
{
    if 0 <= g < groups.len() {
        lemma_count_from_nonneg(groups, g + 1);
    }
}

/// A row of the radio list, by group and station index.
#[derive(Debug, Clone, Copy, PartialEq, Eq, Structural)]
pub enum RowRef {
    Header(usize),
    Station(usize, usize),
    Beyond,
}

pub open spec fn row_model(r: RowRef) -> RadioRow {
    match r {
        RowRef::Header(g) => RadioRow::Header(g as int),
        RowRef::Station(g, s) => RadioRow::Station(g as int, s as int),
        RowRef::Beyond => RadioRow::Beyond,
    }
}

/// The row at position `index` of the radio list made of `groups`.
pub fn radio_row_at(groups: &Vec<RadioGroup>, index: usize) -> (r: RowRef)
    ensures
        row_model(r) == row_at(groups@, index as int),
        r matches RowRef::Header(g) ==> g < groups@.len(),
        r matches RowRef::Station(g, s) ==> g < groups@.len() && s < groups@[g as int].stations@.len(),
{
    let mut current: usize = 0;
    let mut g: usize = 0;
    while g < groups.len()
        invariant
            g <= groups@.len(),
            current <= index,
            row_at(groups@, index as int) == row_from(groups@, g as int, index - current),
        decreases groups@.len() - g,
    {
        if current == index {
            return RowRef::Header(g);
        }
        current = current + 1;
        if groups[g].is_expanded {
            let n = groups[g].stations.len();
            if index - current < n {
                return RowRef::Station(g, index - current);
            }
            current = current + n;
        }
        g = g + 1;
    }
    RowRef::Beyond
}

/// The number of rows of the radio list made of `groups`.
pub fn radio_row_count(groups: &Vec<RadioGroup>) -> (n: usize)
    requires
        visible_count(groups@) <= usize::MAX,
    ensures
        n == visible_count(groups@),
{
    let mut count: usize = 0;
    let mut g: usize = 0;
    while g < groups.len()
        invariant
            g <= groups@.len(),
            count + count_from(groups@, g as int) == visible_count(groups@),
            visible_count(groups@) <= usize::MAX,
        decreases groups@.len() - g,
    {
        proof {
            lemma_count_from_nonneg(groups@, g + 1);
        }
        count = count + 1;
        if groups[g].is_expanded {
            count = count + groups[g].stations.len();
        }
        g = g + 1;
    }
    count
}

/// The index after `sel` in a wrapping list of `count` rows (the first when nothing is selected).
pub open spec fn wrap_next(sel: Option<usize>, count: int) -> usize {
    match sel {
        Some(i) => if i >= last_index(count) {
            0
        } else {
            (i + 1) as usize
        },
        None => 0,
    }
}

/// The index before `sel` in a wrapping list of `count` rows (the first when nothing is selected).
pub open spec fn wrap_prev(sel: Option<usize>, count: int) -> usize {
    match sel {
        Some(i) => if i == 0 {
            last_index(count) as usize
        } else {
            (i - 1) as usize
        },
        None => 0,
    }
}

/// The index of the last of `count` rows, or 0 for an empty list.
pub open spec fn last_index(count: int) -> int {
    if count > 0 {
        count - 1
    } else {
        0
    }
}

fn next_index(sel: Option<usize>, count: usize) -> (r: usize)
    ensures
        r == wrap_next(sel, count as int),
{
    match sel {
        Some(i) => if i >= count.saturating_sub(1) {
            0
        } else {
            i + 1
        },
        None => 0,
    }
}

fn prev_index(sel: Option<usize>, count: usize) -> (r: usize)
    ensures
        r == wrap_prev(sel, count as int),
{
    match sel {
        Some(i) => if i == 0 {
            count.saturating_sub(1)
        } else {
            i - 1
        },
        None => 0,
    }
}

/// The loop mode after `l`: off, repeat the track, go on through the list, off again.
pub open spec fn next_loop_mode(l: LoopMode) -> LoopMode {
    match l {
        LoopMode::Off => LoopMode::Track,
        LoopMode::Track => LoopMode::All,
        LoopMode::All => LoopMode::Off,
    }
}

/// The player's state.
#[derive(Debug)]
pub struct App {
    pub mode: AppMode,
    pub favorites: Favorites,
    pub current_dir: String,
    pub items: Vec<String>,
    pub state: ListState,
    pub radio_groups: Vec<RadioGroup>,
    pub radio_state: ListState,
    pub favorites_state: ListState,
    /// Whether an audio output is open.
    pub has_sink: bool,
    pub current_track: Option<String>,
    pub is_paused: bool,
    pub last_error: Option<String>,
    pub show_help: bool,
    pub show_hidden: bool,
    pub loop_mode: LoopMode,
    pub is_searching: bool,
    pub search_query: String,
    pub filtered_items: Vec<String>,
    pub filtered_radio_groups: Vec<RadioGroup>,
    pub current_version: String,
    pub latest_version: Option<String>,
    pub notification: Option<String>,
    /// Counts the notifications posted, so that each new one can be timed from when it came.
    pub notification_serial: u64,
    pub add_modal_state: Option<AddModalState>,
    pub subsonic_clients: Vec<SubsonicClient>,
    pub active_subsonic_client: usize,
    pub subsonic_state: ListState,
    pub subsonic_artists: Vec<Artist>,
    pub subsonic_albums: Vec<Album>,
    pub subsonic_tracks: Vec<Track>,
    pub subsonic_view: SubsonicView,
}

impl App {
    /// The number of rows of the music server list in its current view.
    pub open spec fn subsonic_count(self) -> int {
        match self.subsonic_view {
            SubsonicView::Servers => self.subsonic_clients@.len() as int,
            SubsonicView::Artists => self.subsonic_artists@.len() as int,
            SubsonicView::Albums(_) => self.subsonic_albums@.len() as int,
            SubsonicView::Tracks(_) => self.subsonic_tracks@.len() as int,
        }
    }

    /// The number of rows of the favorites list: files, then stations.
    pub open spec fn favorites_count(self) -> int {
        (self.favorites.files@.len() + self.favorites.stations@.len()) as int
    }

    /// The row counts of the lists fit in a machine word.
    pub open spec fn counts_fit(self) -> bool {
        &&& visible_count(self.filtered_radio_groups@) <= usize::MAX
        &&& self.favorites_count() <= usize::MAX
    }

    /// The state after moving the selection of the current list down by one.
    pub open spec fn after_next(self) -> App {
        match self.mode {
            AppMode::FileSystem => App {
                state: selecting(
                    self.state,
                    Some(wrap_next(self.state.selected, self.filtered_items@.len() as int)),
                ),
                ..self
            },
            AppMode::Radio => App {
                radio_state: selecting(
                    self.radio_state,
                    Some(wrap_next(self.radio_state.selected, visible_count(self.filtered_radio_groups@))),
                ),
                ..self
            },
            AppMode::Favorites => App {
                favorites_state: selecting(
                    self.favorites_state,
                    Some(wrap_next(self.favorites_state.selected, self.favorites_count())),
                ),
                ..self
            },
            AppMode::Subsonic => App {
                subsonic_state: selecting(
                    self.subsonic_state,
                    Some(wrap_next(self.subsonic_state.selected, self.subsonic_count())),
                ),
                ..self
            },
        }
    }

    /// The state after moving the selection of the current list up by one.
    pub open spec fn after_previous(self) -> App {
        match self.mode {
            AppMode::FileSystem => App {
                state: selecting(
                    self.state,
                    Some(wrap_prev(self.state.selected, self.filtered_items@.len() as int)),
                ),
                ..self
            },
            AppMode::Radio => App {
                radio_state: selecting(
                    self.radio_state,
                    Some(wrap_prev(self.radio_state.selected, visible_count(self.filtered_radio_groups@))),
                ),
                ..self
            },
            AppMode::Favorites => App {
                favorites_state: selecting(
                    self.favorites_state,
                    Some(wrap_prev(self.favorites_state.selected, self.favorites_count())),
                ),
                ..self
            },
            AppMode::Subsonic => App {
                subsonic_state: selecting(
                    self.subsonic_state,
                    Some(wrap_prev(self.subsonic_state.selected, self.subsonic_count())),
                ),
                ..self
            },
        }
    }

    fn subsonic_len(&self) -> (n: usize)
        ensures
            n == self.subsonic_count(),
    {
        match self.subsonic_view {
            SubsonicView::Servers => self.subsonic_clients.len(),
            SubsonicView::Artists => self.subsonic_artists.len(),
            SubsonicView::Albums(_) => self.subsonic_albums.len(),
            SubsonicView::Tracks(_) => self.subsonic_tracks.len(),
        }
    }

    /// The number of rows of the radio list as it is shown (filtered).
    pub fn get_visible_radio_count(&self) -> (n: usize)
        requires
            visible_count(self.filtered_radio_groups@) <= usize::MAX,
        ensures
            n == visible_count(self.filtered_radio_groups@),
    {
        radio_row_count(&self.filtered_radio_groups)
    }

    /// The station shown at row `index` of the radio list, if that row is a station.
    pub fn get_radio_station_at_index(&self, index: usize) -> (r: Option<&RadioStation>)
        ensures
            r is Some == station_at(self.filtered_radio_groups@, index as int) is Some,
            r matches Some(s) ==> *s == station_at(self.filtered_radio_groups@, index as int)->0,
    {
        match radio_row_at(&self.filtered_radio_groups, index) {
            RowRef::Station(g, s) => Some(&self.filtered_radio_groups[g].stations[s]),
            _ => None,
        }
    }

    /// The station at the selected row of the radio list (the first row when nothing is
    /// selected), if that row is a station.
    pub fn get_selected_station(&self) -> (r: Option<RadioStation>)
        ensures
            r == station_at(
                self.filtered_radio_groups@,
                match self.radio_state.selected {
                    Some(i) => i as int,
                    None => 0,
                },
            ),
    {
        let idx = match self.radio_state.selected {
            Some(i) => i,
            None => 0,
        };
        match self.get_radio_station_at_index(idx) {
            Some(s) => Some(s.clone()),
            None => None,
        }
    }

    /// Moves the selection of the current list down by one, wrapping to the top.
    pub fn next(&mut self)
        requires
            old(self).counts_fit(),
        ensures
            *final(self) == old(self).after_next(),
    {
        match self.mode {
            AppMode::FileSystem => {
                let i = next_index(self.state.selected, self.filtered_items.len());
                self.state.select(Some(i));
            },
            AppMode::Radio => {
                let count = self.get_visible_radio_count();
                let i = next_index(self.radio_state.selected, count);
                self.radio_state.select(Some(i));
            },
            AppMode::Favorites => {
                let count = self.favorites.files.len() + self.favorites.stations.len();
                let i = next_index(self.favorites_state.selected, count);
                self.favorites_state.select(Some(i));
            },
            AppMode::Subsonic => {
                let count = self.subsonic_len();
                let i = next_index(self.subsonic_state.selected, count);
                self.subsonic_state.select(Some(i));
            },
        }
    }

    /// Moves the selection of the current list up by one, wrapping to the bottom.
    pub fn previous(&mut self)
        requires
            old(self).counts_fit(),
        ensures
            *final(self) == old(self).after_previous(),
    {
        match self.mode {
            AppMode::FileSystem => {
                let i = prev_index(self.state.selected, self.filtered_items.len());
                self.state.select(Some(i));
            },
            AppMode::Radio => {
                let count = self.get_visible_radio_count();
                let i = prev_index(self.radio_state.selected, count);
                self.radio_state.select(Some(i));
            },
            AppMode::Favorites => {
                let count = self.favorites.files.len() + self.favorites.stations.len();
                let i = prev_index(self.favorites_state.selected, count);
                self.favorites_state.select(Some(i));
            },
            AppMode::Subsonic => {
                let count = self.subsonic_len();
                let i = prev_index(self.subsonic_state.selected, count);
                self.subsonic_state.select(Some(i));
            },
        }
    }
}


/// Whether the file name of the path `p` contains the lowercased query `q`, ignoring case.
pub open spec fn path_matches(p: Seq<char>, q: Seq<char>) -> bool {
    match path_file_name(p) {
        Some(n) => occurs_in(lowercase_of(n), q),
        None => false,
    }
}

/// The paths whose file name contains the lowercased query `q`.
pub open spec fn filter_paths(items: Seq<String>, q: Seq<char>) -> Seq<String>
    decreases items.len(),
{
    if items.len() == 0 {
        Seq::empty()
    } else {
        let r = filter_paths(items.drop_last(), q);
        if path_matches(items.last()@, q) {
            r.push(items.last())
        } else {
            r
        }
    }
}

/// The stations whose name contains the lowercased query `q`, ignoring case.
pub open spec fn filter_stations(stations: Seq<RadioStation>, q: Seq<char>) -> Seq<RadioStation>
    decreases stations.len(),
{
    if stations.len() == 0 {
        Seq::empty()
    } else {
        let r = filter_stations(stations.drop_last(), q);
        if occurs_in(lowercase_of(stations.last().name@), q) {
            r.push(stations.last())
        } else {
            r
        }
    }
}

/// The groups reduced to their stations that match `q`; groups left empty are dropped.
pub open spec fn filter_groups(groups: Seq<GroupView>, q: Seq<char>) -> Seq<GroupView>
    decreases groups.len(),
{
    if groups.len() == 0 {
        Seq::empty()
    } else {
        let r = filter_groups(groups.drop_last(), q);
        let g = groups.last();
        let fs = filter_stations(g.stations, q);
        if fs.len() > 0 {
            r.push(GroupView { title: g.title, stations: fs, is_expanded: g.is_expanded })
        } else {
            r
        }
    }
}

/// The files shown for a search query: all of them for an empty query.
pub open spec fn shown_items(items: Seq<String>, query: Seq<char>) -> Seq<String> {
    if query.len() == 0 {
        items
    } else {
        filter_paths(items, lowercase_of(query))
    }
}

/// The radio groups shown for a search query: all of them for an empty query.
pub open spec fn shown_groups(groups: Seq<GroupView>, query: Seq<char>) -> Seq<GroupView> {
    if query.len() == 0 {
        groups
    } else {
        filter_groups(groups, lowercase_of(query))
    }
}

/// Whether the file at `p` matches the lowercased query `q`.
fn path_matches_exec(p: &String, q: &Vec<char>) -> (b: bool)
    ensures
        b == path_matches(p@, q@),
{
    match file_name(p.as_str()) {
        Some(n) => {
            let lower = to_lowercase(n.as_str());
            let v = chars_of(lower.as_str());
            contains_chars(&v, q)
        },
        None => false,
    }
}

/// The paths of `items` that match the lowercased query `q`.
fn filter_paths_exec(items: &Vec<String>, q: &Vec<char>) -> (r: Vec<String>)
    ensures
        r@ == filter_paths(items@, q@),
{
    let mut r: Vec<String> = Vec::new();
    let mut i: usize = 0;
    while i < items.len()
        invariant
            i <= items@.len(),
            r@ == filter_paths(items@.subrange(0, i as int), q@),
        decreases items@.len() - i,
    {
        proof {
            assert(items@.subrange(0, i + 1).drop_last() =~= items@.subrange(0, i as int));
        }
        if path_matches_exec(&items[i], q) {
            r.push(items[i].clone());
        }
        i = i + 1;
    }
    assert(items@.subrange(0, items@.len() as int) =~= items@);
    r
}

/// The stations of `stations` whose name matches the lowercased query `q`.
fn filter_stations_exec(stations: &Vec<RadioStation>, q: &Vec<char>) -> (r: Vec<RadioStation>)
    ensures
        r@ == filter_stations(stations@, q@),
{
    let mut r: Vec<RadioStation> = Vec::new();
    let mut i: usize = 0;
    while i < stations.len()
        invariant
            i <= stations@.len(),
            r@ == filter_stations(stations@.subrange(0, i as int), q@),
        decreases stations@.len() - i,
    {
        proof {
            assert(stations@.subrange(0, i + 1).drop_last() =~= stations@.subrange(0, i as int));
        }
        let lower = to_lowercase(stations[i].name.as_str());
        let v = chars_of(lower.as_str());
        if contains_chars(&v, q) {
            r.push(stations[i].clone());
        }
        i = i + 1;
    }
    assert(stations@.subrange(0, stations@.len() as int) =~= stations@);
    r
}

/// The groups of `groups` reduced to the stations that match `q`, empty ones dropped.
fn filter_groups_exec(groups: &Vec<RadioGroup>, q: &Vec<char>) -> (r: Vec<RadioGroup>)
    ensures
        r.deep_view() == filter_groups(groups.deep_view(), q@),
{
    let mut r: Vec<RadioGroup> = Vec::new();
    let mut i: usize = 0;
    while i < groups.len()
        invariant
            i <= groups@.len(),
            r.deep_view() == filter_groups(groups.deep_view().subrange(0, i as int), q@),
        decreases groups@.len() - i,
    {
        let ghost before = r.deep_view();
        proof {
            assert(groups.deep_view().subrange(0, i + 1).drop_last() =~= groups.deep_view().subrange(
                0,
                i as int,
            ));
        }
        let fs = filter_stations_exec(&groups[i].stations, q);
        if fs.len() > 0 {
            r.push(RadioGroup { title: groups[i].title.clone(), stations: fs, is_expanded: groups[i].is_expanded });
            assert(r.deep_view() =~= before.push(r@[r@.len() - 1].deep_view()));
        } else {
            assert(r.deep_view() =~= before);
        }
        i = i + 1;
    }
    assert(groups.deep_view().subrange(0, groups@.len() as int) =~= groups.deep_view());
    r
}

/// Copies of the groups.
fn clone_groups(groups: &Vec<RadioGroup>) -> (r: Vec<RadioGroup>)
    ensures
        r.deep_view() == groups.deep_view(),
{
    let mut r: Vec<RadioGroup> = Vec::new();
    let mut i: usize = 0;
    while i < groups.len()
        invariant
            i <= groups@.len(),
            r.deep_view() == groups.deep_view().subrange(0, i as int),
        decreases groups@.len() - i,
    {
        let ghost before = r.deep_view();
        let c = groups[i].clone();
        assert(c.deep_view() == groups.deep_view()[i as int]);
        r.push(c);
        assert(r.deep_view() =~= before.push(c.deep_view()));
        assert(r.deep_view() =~= groups.deep_view().subrange(0, i + 1));
        i = i + 1;
    }
    assert(groups.deep_view().subrange(0, groups@.len() as int) =~= groups.deep_view());
    r
}

/// Copies of the paths.
fn clone_paths(items: &Vec<String>) -> (r: Vec<String>)
    ensures
        r@ == items@,
{
    let mut r: Vec<String> = Vec::new();
    let mut i: usize = 0;
    while i < items.len()
        invariant
            i <= items@.len(),
            r@ == items@.subrange(0, i as int),
        decreases items@.len() - i,
    {
        r.push(items[i].clone());
        assert(r@ =~= items@.subrange(0, i + 1));
        i = i + 1;
    }
    assert(items@.subrange(0, items@.len() as int) =~= items@);
    r
}

impl App {
    /// The filtered lists are those of the current search query.
    pub open spec fn results_current(self) -> bool {
        &&& self.filtered_items@ == shown_items(self.items@, self.search_query@)
        &&& self.filtered_radio_groups.deep_view() == shown_groups(
            self.radio_groups.deep_view(),
            self.search_query@,
        )
    }

    /// `other` differs from `self` at most in the filtered lists.
    pub open spec fn same_but_results(self, other: App) -> bool {
        (App {
            filtered_items: other.filtered_items,
            filtered_radio_groups: other.filtered_radio_groups,
            ..self
        }) == other
    }

    /// The state with the selection of the current list on its first row.
    pub open spec fn with_selection_reset(self) -> App {
        match self.mode {
            AppMode::FileSystem => App { state: selecting(self.state, Some(0)), ..self },
            AppMode::Radio => App { radio_state: selecting(self.radio_state, Some(0)), ..self },
            AppMode::Favorites => App {
                favorites_state: selecting(self.favorites_state, Some(0)),
                ..self
            },
            AppMode::Subsonic => App {
                subsonic_state: selecting(self.subsonic_state, Some(0)),
                ..self
            },
        }
    }

    /// Recomputes the shown files and radio groups from the search query: file names and
    /// station names that contain it, ignoring case; everything for an empty query.
    pub fn update_search_results(&mut self)
        ensures
            final(self).results_current(),
            old(self).same_but_results(*final(self)),
    {
        if self.search_query.as_str().is_empty() {
            self.filtered_items = clone_paths(&self.items);
            self.filtered_radio_groups = clone_groups(&self.radio_groups);
        } else {
            let lower = to_lowercase(self.search_query.as_str());
            let q = chars_of(lower.as_str());
            self.filtered_items = filter_paths_exec(&self.items, &q);
            self.filtered_radio_groups = filter_groups_exec(&self.radio_groups, &q);
        }
    }

    fn reset_selection(&mut self)
        ensures
            *final(self) == old(self).with_selection_reset(),
    {
        match self.mode {
            AppMode::FileSystem => self.state.select(Some(0)),
            AppMode::Radio => self.radio_state.select(Some(0)),
            AppMode::Favorites => self.favorites_state.select(Some(0)),
            AppMode::Subsonic => self.subsonic_state.select(Some(0)),
        }
    }

    /// Adds a character to the search query, refilters, and selects the first row.
    pub fn on_search_input(&mut self, c: char)
        ensures
            final(self).search_query@ == old(self).search_query@.push(c),
            final(self).results_current(),
            (App { search_query: final(self).search_query, ..*old(self) }).with_selection_reset().same_but_results(*final(self)),
    {
        self.search_query.push(c);
        self.update_search_results();
        self.reset_selection();
    }

    /// Removes the last character of the search query, refilters, and selects the first row.
    pub fn on_search_backspace(&mut self)
        ensures
            final(self).search_query@ == if old(self).search_query@.len() > 0 {
                old(self).search_query@.drop_last()
            } else {
                old(self).search_query@
            },
            final(self).results_current(),
            (App { search_query: final(self).search_query, ..*old(self) }).with_selection_reset().same_but_results(*final(self)),
    {
        self.search_query.pop();
        self.update_search_results();
        self.reset_selection();
    }

    /// Leaves search mode with an empty query, shows everything, and selects the first row.
    pub fn cancel_search(&mut self)
        ensures
            !final(self).is_searching,
            final(self).search_query@.len() == 0,
            final(self).results_current(),
            (App { search_query: final(self).search_query, is_searching: false, ..*old(self) }).with_selection_reset().same_but_results(*final(self)),
    {
        self.is_searching = false;
        self.search_query = String::new();
        self.update_search_results();
        self.reset_selection();
    }

    /// Leaves search mode and keeps the filter.
    pub fn submit_search(&mut self)
        ensures
            *final(self) == (App { is_searching: false, ..*old(self) }),
    {
        self.is_searching = false;
    }
}


/// Whether the row `i` of `items` can be played: not a directory, and not the `..` entry.
pub open spec fn playable(items: Seq<String>, dirs: Seq<bool>, i: int) -> bool {
    !dirs[i] && path_file_name(items[i]@) != Some(".."@)
}

/// The first playable row in `lo..hi`.
pub open spec fn first_playable(items: Seq<String>, dirs: Seq<bool>, lo: int, hi: int) -> Option<int>
    decreases hi - lo,
{
    if lo >= hi {
        None
    } else if playable(items, dirs, lo) {
        Some(lo)
    } else {
        first_playable(items, dirs, lo + 1, hi)
    }
}

/// The last playable row in `lo..hi`.
pub open spec fn last_playable(items: Seq<String>, dirs: Seq<bool>, lo: int, hi: int) -> Option<int>
    decreases hi - lo,
{
    if lo >= hi {
        None
    } else if playable(items, dirs, hi - 1) {
        Some(hi - 1)
    } else {
        last_playable(items, dirs, lo, hi - 1)
    }
}

/// The first row of `items` that is the path `p`, compared as paths.
pub open spec fn track_position(items: Seq<String>, p: Seq<char>) -> Option<int>
    decreases items.len(),
{
    if items.len() == 0 {
        None
    } else {
        match track_position(items.drop_last(), p) {
            Some(i) => Some(i),
            None => if crate::paths::same_path_spec(items.last()@, p) {
                Some(items.len() - 1)
            } else {
                None
            },
        }
    }
}

pub proof fn lemma_track_position(items: Seq<String>, p: Seq<char>)
    ensures
        track_position(items, p) matches Some(i) ==> 0 <= i < items.len() && crate::paths::same_path_spec(items[i]@, p)
            && forall|k: int| 0 <= k < i ==> !crate::paths::same_path_spec(items[k]@, p),
        track_position(items, p) is None ==> forall|k: int| 0 <= k < items.len() ==> !crate::paths::same_path_spec(items[k]@, p),
    decreases items.len(),
{
    if items.len() > 0 {
        lemma_track_position(items.drop_last(), p);
        assert forall|k: int| 0 <= k < items.len() - 1 implies items[k] == items.drop_last()[k] by {}
    }
}

pub proof fn lemma_first_playable(items: Seq<String>, dirs: Seq<bool>, lo: int, hi: int)
    requires
        0 <= lo,
        hi <= items.len(),
        hi <= dirs.len(),
    ensures
        first_playable(items, dirs, lo, hi) matches Some(i) ==> lo <= i < hi,
    decreases hi - lo,
{
    if lo < hi && !playable(items, dirs, lo) {
        lemma_first_playable(items, dirs, lo + 1, hi);
    }
}

pub proof fn lemma_last_playable(items: Seq<String>, dirs: Seq<bool>, lo: int, hi: int)
    requires
        0 <= lo,
        hi <= items.len(),
        hi <= dirs.len(),
    ensures
        last_playable(items, dirs, lo, hi) matches Some(i) ==> lo <= i < hi,
    decreases hi - lo,
{
    if lo < hi && !playable(items, dirs, hi - 1) {
        lemma_last_playable(items, dirs, lo, hi - 1);
    }
}

/// The position of the track `p` in `items`.
pub(crate) fn find_track(items: &Vec<String>, p: &String) -> (r: Option<usize>)
    ensures
        r matches Some(i) ==> track_position(items@, p@) == Some(i as int) && i < items@.len(),
        r is None ==> track_position(items@, p@) is None,
{
    proof {
        lemma_track_position(items@, p@);
    }
    let mut i: usize = 0;
    while i < items.len()
        invariant
            i <= items@.len(),
            forall|k: int| 0 <= k < i ==> !crate::paths::same_path_spec(items@[k]@, p@),
            track_position(items@, p@) matches Some(j) ==> 0 <= j < items@.len() && crate::paths::same_path_spec(items@[j]@, p@)
                && forall|k: int| 0 <= k < j ==> !crate::paths::same_path_spec(items@[k]@, p@),
            track_position(items@, p@) is None ==> forall|k: int|
                0 <= k < items@.len() ==> !crate::paths::same_path_spec(items@[k]@, p@),
        decreases items@.len() - i,
    {
        if crate::paths::same_path(items[i].as_str(), p.as_str()) {
            proof {
                if let Some(j) = track_position(items@, p@) {
                    if j < i {
                        assert(!crate::paths::same_path_spec(items@[j]@, p@));
                    }
                    if j > i {
                        assert(!crate::paths::same_path_spec(items@[i as int]@, p@));
                    }
                }
            }
            return Some(i);
        }
        i = i + 1;
    }
    None
}

/// Whether row `i` can be played.
fn playable_exec(items: &Vec<String>, dirs: &Vec<bool>, i: usize) -> (b: bool)
    requires
        i < items@.len(),
        i < dirs@.len(),
    ensures
        b == playable(items@, dirs@, i as int),
{
    if dirs[i] {
        return false;
    }
    match file_name(items[i].as_str()) {
        Some(n) => !same_text(n.as_str(), ".."),
        None => true,
    }
}

/// The first playable row in `lo..hi`.
fn first_playable_exec(items: &Vec<String>, dirs: &Vec<bool>, lo: usize, hi: usize) -> (r: Option<usize>)
    requires
        hi <= items@.len(),
        hi <= dirs@.len(),
    ensures
        r matches Some(i) ==> first_playable(items@, dirs@, lo as int, hi as int) == Some(i as int)
            && lo <= i < hi,
        r is None ==> first_playable(items@, dirs@, lo as int, hi as int) is None,
{
    let mut i: usize = lo;
    while i < hi
        invariant
            lo <= i,
            hi <= items@.len(),
            hi <= dirs@.len(),
            first_playable(items@, dirs@, lo as int, hi as int) == first_playable(
                items@,
                dirs@,
                i as int,
                hi as int,
            ),
        decreases hi - i,
    {
        if playable_exec(items, dirs, i) {
            return Some(i);
        }
        i = i + 1;
    }
    None
}

/// The last playable row in `lo..hi`.
fn last_playable_exec(items: &Vec<String>, dirs: &Vec<bool>, lo: usize, hi: usize) -> (r: Option<usize>)
    requires
        lo <= hi,
        hi <= items@.len(),
        hi <= dirs@.len(),
    ensures
        r matches Some(i) ==> last_playable(items@, dirs@, lo as int, hi as int) == Some(i as int)
            && lo <= i < hi,
        r is None ==> last_playable(items@, dirs@, lo as int, hi as int) is None,
{
    let mut j: usize = hi;
    while j > lo
        invariant
            lo <= j <= hi,
            hi <= items@.len(),
            hi <= dirs@.len(),
            last_playable(items@, dirs@, lo as int, hi as int) == last_playable(
                items@,
                dirs@,
                lo as int,
                j as int,
            ),
        decreases j - lo,
    {
        if playable_exec(items, dirs, j - 1) {
            return Some(j - 1);
        }
        j = j - 1;
    }
    None
}

impl App {
    /// `new` is `self` after starting to play `path`: the track is current and not paused;
    /// without audio output the error says so; nothing else changes.
    pub open spec fn started_playing(self, new: App, path: String) -> bool {
        &&& new.current_track == Some(path)
        &&& !new.is_paused
        &&& self.has_sink ==> new.last_error == self.last_error
        &&& !self.has_sink ==> opt_chars(new.last_error) == Some("Audio not available"@)
        &&& (App { current_track: Some(path), is_paused: false, last_error: new.last_error, ..self })
            == new
    }

    /// Makes `path` the current track and unpauses; notes that audio is unavailable when
    /// there is no output. Opening and decoding the file is the caller's part.
    pub fn play_file(&mut self, path: String)
        ensures
            old(self).started_playing(*final(self), path),
    {
        self.current_track = Some(path);
        self.is_paused = false;
        if !self.has_sink {
            self.last_error = Some(owned("Audio not available"));
        }
    }

    /// Makes the station the current track (by its name), unpaused and without error;
    /// returns whether its stream is to be fetched (there is an audio output).
    pub fn play_radio(&mut self, station: &RadioStation) -> (fetch: bool)
        ensures
            fetch == old(self).has_sink,
            *final(self) == (App {
                current_track: Some(station.name),
                is_paused: false,
                last_error: None,
                ..*old(self)
            }),
    {
        self.current_track = Some(station.name.clone());
        self.is_paused = false;
        self.last_error = None;
        self.has_sink
    }

    /// Pauses or resumes, when there is an audio output.
    pub fn toggle_pause(&mut self)
        ensures
            *final(self) == (App {
                is_paused: if old(self).has_sink {
                    !old(self).is_paused
                } else {
                    old(self).is_paused
                },
                ..*old(self)
            }),
    {
        if self.has_sink {
            self.is_paused = !self.is_paused;
        }
    }

    /// Cycles what happens at a track's end: off, repeat the track, go on to the next.
    pub fn toggle_loop(&mut self)
        ensures
            *final(self) == (App { loop_mode: next_loop_mode(old(self).loop_mode), ..*old(self) }),
    {
        self.loop_mode = match self.loop_mode {
            LoopMode::Off => LoopMode::Track,
            LoopMode::Track => LoopMode::All,
            LoopMode::All => LoopMode::Off,
        };
    }

    /// Opens the dialog that asks what to add.
    pub fn open_add_modal(&mut self)
        ensures
            *final(self) == (App { add_modal_state: Some(AddModalState::Selection), ..*old(self) }),
    {
        self.add_modal_state = Some(AddModalState::Selection);
    }

    /// The row of the next track to play after the current one: the first playable row
    /// after it, or with loop-all the first playable row up to it; none in radio mode or
    /// when the current track is not listed.
    pub open spec fn next_track_row(self, dirs: Seq<bool>) -> Option<int> {
        if self.mode == AppMode::Radio {
            None
        } else {
            match self.current_track {
                None => None,
                Some(c) => match track_position(self.filtered_items@, c@) {
                    None => None,
                    Some(idx) => match first_playable(
                        self.filtered_items@,
                        dirs,
                        idx + 1,
                        self.filtered_items@.len() as int,
                    ) {
                        Some(i) => Some(i),
                        None => if self.loop_mode == LoopMode::All {
                            first_playable(self.filtered_items@, dirs, 0, idx + 1)
                        } else {
                            None
                        },
                    },
                },
            }
        }
    }

    /// The row of the previous track: the last playable row before the current one; none
    /// in radio mode or when the current track is not listed.
    pub open spec fn previous_track_row(self, dirs: Seq<bool>) -> Option<int> {
        if self.mode == AppMode::Radio {
            None
        } else {
            match self.current_track {
                None => None,
                Some(c) => match track_position(self.filtered_items@, c@) {
                    None => None,
                    Some(idx) => last_playable(self.filtered_items@, dirs, 0, idx),
                },
            }
        }
    }

    /// Plays the next track of the shown files and selects it; `is_dir` tells which rows
    /// are directories. Returns the path to play, or none when there is no next track.
    pub fn next_track(&mut self, is_dir: &Vec<bool>) -> (r: Option<String>)
        requires
            is_dir@.len() == old(self).filtered_items@.len(),
        ensures
            match old(self).next_track_row(is_dir@) {
                Some(i) => r == Some(old(self).filtered_items@[i]) && (App {
                    state: selecting(old(self).state, Some(i as usize)),
                    ..*old(self)
                }).started_playing(*final(self), old(self).filtered_items@[i]),
                None => r is None && *final(self) == *old(self),
            },
    {
        if self.mode == AppMode::Radio {
            return None;
        }
        let idx = match &self.current_track {
            None => {
                return None;
            },
            Some(c) => match find_track(&self.filtered_items, c) {
                None => {
                    return None;
                },
                Some(idx) => idx,
            },
        };
        let n = self.filtered_items.len();
        assert(idx < n);
        let found = match first_playable_exec(&self.filtered_items, is_dir, idx + 1, n) {
            Some(i) => Some(i),
            None => if self.loop_mode == LoopMode::All {
                first_playable_exec(&self.filtered_items, is_dir, 0, idx + 1)
            } else {
                None
            },
        };
        match found {
            Some(i) => {
                let path = self.filtered_items[i].clone();
                self.state.select(Some(i));
                self.play_file(path.clone());
                Some(path)
            },
            None => None,
        }
    }

    /// Plays the previous track of the shown files and selects it; `is_dir` tells which
    /// rows are directories. Returns the path to play, or none when there is none before.
    pub fn previous_track(&mut self, is_dir: &Vec<bool>) -> (r: Option<String>)
        requires
            is_dir@.len() == old(self).filtered_items@.len(),
        ensures
            match old(self).previous_track_row(is_dir@) {
                Some(i) => r == Some(old(self).filtered_items@[i]) && (App {
                    state: selecting(old(self).state, Some(i as usize)),
                    ..*old(self)
                }).started_playing(*final(self), old(self).filtered_items@[i]),
                None => r is None && *final(self) == *old(self),
            },
    {
        if self.mode == AppMode::Radio {
            return None;
        }
        let idx = match &self.current_track {
            None => {
                return None;
            },
            Some(c) => match find_track(&self.filtered_items, c) {
                None => {
                    return None;
                },
                Some(idx) => idx,
            },
        };
        match last_playable_exec(&self.filtered_items, is_dir, 0, idx) {
            Some(i) => {
                let path = self.filtered_items[i].clone();
                self.state.select(Some(i));
                self.play_file(path.clone());
                Some(path)
            },
            None => None,
        }
    }

    /// Goes up one level: to the parent directory in file mode (returning true, the
    /// listing must be read again), or back one view in the music server browser.
    pub fn go_up(&mut self) -> (reload: bool)
        ensures
            reload == (old(self).mode == AppMode::FileSystem && path_parent(old(self).current_dir@) is Some),
            old(self).mode == AppMode::FileSystem ==> match path_parent(old(self).current_dir@) {
                Some(p) => final(self).current_dir@ == p && *final(self) == (App { current_dir: final(self).current_dir, ..*old(self) }),
                None => *final(self) == *old(self),
            },
            old(self).mode == AppMode::Subsonic ==> *final(self) == match old(self).subsonic_view {
                SubsonicView::Servers => *old(self),
                SubsonicView::Artists => App {
                    subsonic_view: SubsonicView::Servers,
                    subsonic_state: selecting(old(self).subsonic_state, Some(old(self).active_subsonic_client)),
                    ..*old(self)
                },
                SubsonicView::Albums(_) => App {
                    subsonic_view: SubsonicView::Artists,
                    subsonic_state: selecting(old(self).subsonic_state, Some(0)),
                    ..*old(self)
                },
                SubsonicView::Tracks(id) => App {
                    subsonic_view: SubsonicView::Albums(id),
                    subsonic_state: selecting(old(self).subsonic_state, Some(0)),
                    ..*old(self)
                },
            },
            (old(self).mode == AppMode::Radio || old(self).mode == AppMode::Favorites) ==> *final(self) == *old(self),
    {
        match self.mode {
            AppMode::FileSystem => {
                match parent(self.current_dir.as_str()) {
                    Some(p) => {
                        self.current_dir = p;
                        true
                    },
                    None => false,
                }
            },
            AppMode::Subsonic => {
                let next_view = match &self.subsonic_view {
                    SubsonicView::Servers => None,
                    SubsonicView::Artists => Some((SubsonicView::Servers, self.active_subsonic_client)),
                    SubsonicView::Albums(_) => Some((SubsonicView::Artists, 0)),
                    SubsonicView::Tracks(id) => Some((SubsonicView::Albums(id.clone()), 0)),
                };
                match next_view {
                    Some((v, sel)) => {
                        self.subsonic_view = v;
                        self.subsonic_state.select(Some(sel));
                    },
                    None => {},
                }
                false
            },
            _ => false,
        }
    }
}


impl App {
    /// The favorite files and stations after toggling the selected row, and whether the
    /// configuration is to be saved: in file mode the selected entry of the listing (not
    /// the `..` entry), in radio mode the selected station, in favorites mode the selected
    /// favorite; nothing in music server mode.
    pub open spec fn favorites_after_toggle(self) -> (Seq<String>, Seq<RadioStation>, bool) {
        let files = self.favorites.files@;
        let stations = self.favorites.stations@;
        match self.mode {
            AppMode::FileSystem => match self.state.selected {
                Some(i) => if i < self.items@.len() && path_file_name(self.items@[i as int]@) != Some(
                    ".."@,
                ) {
                    (toggled_files(files, self.items@[i as int]), stations, true)
                } else {
                    (files, stations, false)
                },
                None => (files, stations, false),
            },
            AppMode::Radio => match self.radio_state.selected {
                Some(i) => match station_at(self.filtered_radio_groups@, i as int) {
                    Some(st) => (files, toggled_stations(stations, st), true),
                    None => (files, stations, false),
                },
                None => (files, stations, false),
            },
            AppMode::Favorites => match self.favorites_state.selected {
                Some(i) => if i < files.len() {
                    (toggled_files(files, files[i as int]), stations, true)
                } else if i - files.len() < stations.len() {
                    (files, toggled_stations(stations, stations[i - files.len()]), true)
                } else {
                    (files, stations, false)
                },
                None => (files, stations, false),
            },
            AppMode::Subsonic => (files, stations, false),
        }
    }

    /// The favorites list selection after a toggle in favorites mode: cleared when the list
    /// became empty, moved to the last row when it fell past the end.
    pub open spec fn favorites_state_after_toggle(self) -> ListState {
        if self.mode == AppMode::Favorites {
            match self.favorites_state.selected {
                Some(i) => {
                    let (f, s, _) = self.favorites_after_toggle();
                    let count = f.len() + s.len();
                    if count == 0 {
                        selecting(self.favorites_state, None)
                    } else if i >= count {
                        selecting(self.favorites_state, Some((count - 1) as usize))
                    } else {
                        self.favorites_state
                    }
                },
                None => self.favorites_state,
            }
        } else {
            self.favorites_state
        }
    }

    /// Toggles the selected row as a favorite (see `favorites_after_toggle`); returns
    /// whether the configuration is to be saved.
    pub fn toggle_favorite(&mut self) -> (save: bool)
        requires
            old(self).counts_fit(),
        ensures
            final(self).favorites.files@ == old(self).favorites_after_toggle().0,
            final(self).favorites.stations@ == old(self).favorites_after_toggle().1,
            save == old(self).favorites_after_toggle().2,
            final(self).favorites_state == old(self).favorites_state_after_toggle(),
            (App {
                favorites: final(self).favorites,
                favorites_state: final(self).favorites_state,
                ..*old(self)
            }) == *final(self),
    {
        match self.mode {
            AppMode::FileSystem => match self.state.selected {
                Some(i) => {
                    if i < self.items.len() {
                        let is_parent = match file_name(self.items[i].as_str()) {
                            Some(n) => same_text(n.as_str(), ".."),
                            None => false,
                        };
                        if !is_parent {
                            let p = self.items[i].clone();
                            self.favorites.toggle_file(p);
                            return true;
                        }
                    }
                    false
                },
                None => false,
            },
            AppMode::Radio => match self.radio_state.selected {
                Some(i) => {
                    let st = match self.get_radio_station_at_index(i) {
                        Some(st) => Some(st.clone()),
                        None => None,
                    };
                    match st {
                        Some(st) => {
                            self.favorites.toggle_station(st);
                            true
                        },
                        None => false,
                    }
                },
                None => false,
            },
            AppMode::Favorites => match self.favorites_state.selected {
                Some(i) => {
                    let flen = self.favorites.files.len();
                    let mut saved = false;
                    if i < flen {
                        let p = self.favorites.files[i].clone();
                        proof {
                            lemma_file_position(self.favorites.files@, p@);
                        }
                        self.favorites.toggle_file(p);
                        saved = true;
                    } else {
                        let si = i - flen;
                        if si < self.favorites.stations.len() {
                            let st = self.favorites.stations[si].clone();
                            proof {
                                lemma_station_position(self.favorites.stations@, st.url@);
                            }
                            self.favorites.toggle_station(st);
                            saved = true;
                        }
                    }
                    let count = self.favorites.files.len() + self.favorites.stations.len();
                    if count == 0 {
                        self.favorites_state.select(None);
                    } else if i >= count {
                        self.favorites_state.select(Some(count - 1));
                    }
                    saved
                },
                None => false,
            },
            AppMode::Subsonic => false,
        }
    }
}


/// A key as the player reads it.
#[derive(Debug, Clone, Copy, PartialEq, Eq, Structural)]
pub enum Key {
    Char(char),
    Esc,
    Enter,
    Tab,
    BackTab,
    Backspace,
    Delete,
    Up,
    Down,
    Left,
    Right,
    Other,
}

/// Whether a key event is a press, a repeat of a held key, or a release.
#[derive(Debug, Clone, Copy, PartialEq, Eq, Structural)]
pub enum KeyKind {
    Press,
    Repeat,
    Release,
}

/// What the dialog asks the caller to do after a key.
#[derive(Debug)]
pub enum ModalOutcome {
    Nothing,
    /// Write this station to the configuration, in place of the one at `original_url`
    /// when editing.
    SaveStation { station: RadioStation, original_url: Option<String> },
    /// Write this source to the configuration, in place of the one titled
    /// `original_title` when editing.
    SaveSource { source: RadioSourceConfig, original_title: Option<String> },
    /// Write this music server to the configuration, in place of the one at
    /// `original_url` when editing.
    SaveServer { source: NavidromeSourceConfig, original_url: Option<String> },
    /// Delete what the confirmed dialog was about.
    ConfirmDelete(ConfirmationContext),
}

/// The dialog, with the text of its input fields in order.
pub enum ModalView {
    Selection,
    Station { fields: Seq<Seq<char>>, focused: int, original: Option<Seq<char>> },
    Source { fields: Seq<Seq<char>>, focused: int, original: Option<Seq<char>> },
    Server { fields: Seq<Seq<char>>, focused: int, original: Option<Seq<char>> },
    Confirm { message: Seq<char>, context: ConfirmationContext },
}

pub open spec fn modal_view(m: AddModalState) -> ModalView {
    match m {
        AddModalState::Selection => ModalView::Selection,
        AddModalState::InputStation {
            name,
            url,
            description,
            homepage,
            tags,
            focused_field,
            original_url,
        } => ModalView::Station {
            fields: seq![name@, url@, description@, homepage@, tags@],
            focused: focused_field as int,
            original: opt_chars(original_url),
        },
        AddModalState::InputSource {
            title,
            json_url,
            container,
            map_name,
            map_url,
            map_desc,
            map_home,
            map_tags,
            focused_field,
            original_title,
        } => ModalView::Source {
            fields: seq![
                title@,
                json_url@,
                container@,
                map_name@,
                map_url@,
                map_desc@,
                map_home@,
                map_tags@,
            ],
            focused: focused_field as int,
            original: opt_chars(original_title),
        },
        AddModalState::InputSubsonic {
            server_url,
            username,
            password,
            focused_field,
            original_url,
        } => ModalView::Server {
            fields: seq![server_url@, username@, password@],
            focused: focused_field as int,
            original: opt_chars(original_url),
        },
        AddModalState::Confirmation { message, context } => ModalView::Confirm {
            message: message@,
            context,
        },
    }
}

pub open spec fn opt_modal_view(m: Option<AddModalState>) -> Option<ModalView> {
    match m {
        Some(m) => Some(modal_view(m)),
        None => None,
    }
}

/// The focused field is one of the dialog's fields.
pub open spec fn modal_ok(m: ModalView) -> bool {
    match m {
        ModalView::Station { fields, focused, .. } => fields.len() == 5 && 0 <= focused < 5,
        ModalView::Source { fields, focused, .. } => fields.len() == 8 && 0 <= focused < 8,
        ModalView::Server { fields, focused, .. } => fields.len() == 3 && 0 <= focused < 3,
        _ => true,
    }
}

/// The focus can be moved by `key` without going past the largest machine word.
pub open spec fn modal_key_fits(m: ModalView, key: Key) -> bool {
    let forward = key == Key::Tab || key == Key::Down;
    let backward = key == Key::BackTab || key == Key::Up;
    match m {
        ModalView::Station { focused, .. } => (forward ==> focused + 1 <= usize::MAX) && (backward
            ==> focused + 4 <= usize::MAX),
        ModalView::Source { focused, .. } => (forward ==> focused + 1 <= usize::MAX) && (backward
            ==> focused + 7 <= usize::MAX),
        ModalView::Server { focused, .. } => forward ==> focused + 1 <= usize::MAX,
        _ => true,
    }
}

/// `n` empty fields.
pub open spec fn empty_fields(n: nat) -> Seq<Seq<char>> {
    Seq::new(n, |i: int| Seq::<char>::empty())
}

/// The field with the last character removed, if it has one.
pub open spec fn backspaced(f: Seq<char>) -> Seq<char> {
    if f.len() > 0 {
        f.drop_last()
    } else {
        f
    }
}

/// The dialog after a key (none when the key closes it). Enter keeps it open: it closes
/// only once what it saves has been written.
pub open spec fn modal_after_key(m: ModalView, key: Key) -> Option<ModalView> {
    match m {
        ModalView::Selection => match key {
            Key::Char('s') => Some(
                ModalView::Station { fields: empty_fields(5), focused: 0, original: None },
            ),
            Key::Char('r') => Some(
                ModalView::Source { fields: empty_fields(8), focused: 0, original: None },
            ),
            Key::Char('n') => Some(
                ModalView::Server { fields: empty_fields(3), focused: 0, original: None },
            ),
            Key::Esc => None,
            _ => Some(m),
        },
        ModalView::Station { fields, focused, original } => match key {
            Key::Esc => None,
            Key::Tab | Key::Down => Some(
                ModalView::Station { fields, focused: (focused + 1) % 5, original },
            ),
            Key::BackTab | Key::Up => Some(
                ModalView::Station { fields, focused: (focused + 4) % 5, original },
            ),
            Key::Char(c) => if 0 <= focused < 5 {
                Some(
                    ModalView::Station {
                        fields: fields.update(focused, fields[focused].push(c)),
                        focused,
                        original,
                    },
                )
            } else {
                Some(m)
            },
            Key::Backspace => if 0 <= focused < 5 {
                Some(
                    ModalView::Station {
                        fields: fields.update(focused, backspaced(fields[focused])),
                        focused,
                        original,
                    },
                )
            } else {
                Some(m)
            },
            _ => Some(m),
        },
        ModalView::Source { fields, focused, original } => match key {
            Key::Esc => None,
            Key::Tab | Key::Down => Some(
                ModalView::Source { fields, focused: (focused + 1) % 8, original },
            ),
            Key::BackTab | Key::Up => Some(
                ModalView::Source { fields, focused: (focused + 7) % 8, original },
            ),
            Key::Char(c) => if 0 <= focused < 8 {
                Some(
                    ModalView::Source {
                        fields: fields.update(focused, fields[focused].push(c)),
                        focused,
                        original,
                    },
                )
            } else {
                Some(m)
            },
            Key::Backspace => if 0 <= focused < 8 {
                Some(
                    ModalView::Source {
                        fields: fields.update(focused, backspaced(fields[focused])),
                        focused,
                        original,
                    },
                )
            } else {
                Some(m)
            },
            _ => Some(m),
        },
        ModalView::Server { fields, focused, original } => match key {
            Key::Esc => None,
            Key::Tab | Key::Down => Some(
                ModalView::Server { fields, focused: (focused + 1) % 3, original },
            ),
            Key::BackTab | Key::Up => Some(
                ModalView::Server {
                    fields,
                    focused: if focused > 0 {
                        focused - 1
                    } else {
                        2
                    },
                    original,
                },
            ),
            Key::Char(c) => if 0 <= focused < 3 {
                Some(
                    ModalView::Server {
                        fields: fields.update(focused, fields[focused].push(c)),
                        focused,
                        original,
                    },
                )
            } else {
                Some(m)
            },
            Key::Backspace => if 0 <= focused < 3 {
                Some(
                    ModalView::Server {
                        fields: fields.update(focused, backspaced(fields[focused])),
                        focused,
                        original,
                    },
                )
            } else {
                Some(m)
            },
            _ => Some(m),
        },
        ModalView::Confirm { .. } => match key {
            Key::Char('n') | Key::Esc => None,
            _ => Some(m),
        },
    }
}

/// An optional field: none when the text is empty.
pub open spec fn nonempty(f: Seq<char>) -> Option<Seq<char>> {
    if f.len() == 0 {
        None
    } else {
        Some(f)
    }
}

/// Enter in a dialog whose required fields are missing: the message to show, if any.
pub open spec fn modal_rejection(m: ModalView, key: Key) -> Option<Seq<char>> {
    if key != Key::Enter {
        None
    } else {
        match m {
            ModalView::Station { fields, .. } => if trim(fields[0]).len() == 0 || trim(fields[1]).len()
                == 0 {
                Some("Name and URL are required"@)
            } else {
                None
            },
            ModalView::Source { fields, .. } => if trim(fields[0]).len() == 0 || trim(fields[1]).len()
                == 0 || trim(fields[3]).len() == 0 || trim(fields[4]).len() == 0 {
                Some("Title, JSON URL, Name Map, and URL Map are required"@)
            } else {
                None
            },
            ModalView::Server { fields, .. } => if fields[0].len() == 0 || fields[1].len() == 0 {
                Some("Server URL and Username are required"@)
            } else {
                None
            },
            _ => None,
        }
    }
}

/// What the caller is asked to do after `key` in the dialog `m`.
pub open spec fn modal_outcome_ok(m: ModalView, key: Key, out: ModalOutcome) -> bool {
    match out {
        ModalOutcome::Nothing => !(key == Key::Enter && modal_rejection(m, key) is None && (
        m is Station || m is Source || m is Server)) && !(m is Confirm && (key == Key::Enter
            || key == Key::Char('y'))),
        ModalOutcome::SaveStation { station, original_url } => key == Key::Enter
            && modal_rejection(m, key) is None && match m {
            ModalView::Station { fields, original, .. } => {
                &&& station.name@ == fields[0]
                &&& station.url@ == fields[1]
                &&& opt_chars(station.description) == nonempty(fields[2])
                &&& opt_chars(station.homepage) == nonempty(fields[3])
                &&& opt_chars(station.tags) == nonempty(fields[4])
                &&& station.last_playing is None
                &&& opt_chars(original_url) == original
            },
            _ => false,
        },
        ModalOutcome::SaveSource { source, original_title } => key == Key::Enter
            && modal_rejection(m, key) is None && match m {
            ModalView::Source { fields, original, .. } => {
                &&& source.title@ == fields[0]
                &&& source.json_url@ == fields[1]
                &&& opt_chars(source.container) == nonempty(fields[2])
                &&& source.mapping.station_name@ == fields[3]
                &&& source.mapping.station_url@ == fields[4]
                &&& opt_chars(source.mapping.description) == nonempty(fields[5])
                &&& opt_chars(source.mapping.homepage) == nonempty(fields[6])
                &&& opt_chars(source.mapping.tags) == nonempty(fields[7])
                &&& source.mapping.last_playing is None
                &&& opt_chars(original_title) == original
            },
            _ => false,
        },
        ModalOutcome::SaveServer { source, original_url } => key == Key::Enter
            && modal_rejection(m, key) is None && match m {
            ModalView::Server { fields, original, .. } => {
                &&& source.server_url@ == fields[0]
                &&& source.username@ == fields[1]
                &&& opt_chars(source.password) == nonempty(fields[2])
                &&& source.auth_token is None
                &&& opt_chars(original_url) == original
            },
            _ => false,
        },
        ModalOutcome::ConfirmDelete(ctx) => (key == Key::Enter || key == Key::Char('y'))
            && match m {
            ModalView::Confirm { context, .. } => ctx == context,
            _ => false,
        },
    }
}

/// Whether `t` has a non-blank character.
fn not_blank(t: &String) -> (b: bool)
    ensures
        b == (trim(t@).len() > 0),
{
    let v = chars_of(t.as_str());
    let (a, b) = trim_bounds(&v, 0, v.len());
    assert(v@.subrange(0, v@.len() as int) =~= v@);
    a < b
}

fn optional(t: String) -> (r: Option<String>)
    ensures
        opt_chars(r) == nonempty(t@),
{
    if t.as_str().is_empty() {
        None
    } else {
        Some(t)
    }
}

/// Pushes `c` on the field `f` (`0..n`) of `fields`, or drops its last character.
fn edit_field(field: &mut String, key: Key)
    requires
        key is Char || key is Backspace,
    ensures
        key matches Key::Char(c) ==> final(field)@ == old(field)@.push(c),
        key is Backspace ==> final(field)@ == backspaced(old(field)@),
{
    match key {
        Key::Char(c) => field.push(c),
        _ => {
            field.pop();
        },
    }
}

/// The dialog after `key`, what to do, and the message to show if Enter was refused.
fn modal_step(m: AddModalState, key: Key) -> (r: (Option<AddModalState>, ModalOutcome, Option<String>))
    requires
        modal_key_fits(modal_view(m), key),
    ensures
        opt_modal_view(r.0) == modal_after_key(modal_view(m), key),
        modal_ok(modal_view(m)) ==> (r.0 matches Some(n) ==> modal_ok(modal_view(n))),
        modal_outcome_ok(modal_view(m), key, r.1),
        opt_chars(r.2) == modal_rejection(modal_view(m), key),
{
    let ghost mv = modal_view(m);
    match m {
        AddModalState::Selection => {
            let next = match key {
                Key::Char('s') => Some(
                    AddModalState::InputStation {
                        name: String::new(),
                        url: String::new(),
                        description: String::new(),
                        homepage: String::new(),
                        tags: String::new(),
                        focused_field: 0,
                        original_url: None,
                    },
                ),
                Key::Char('r') => Some(
                    AddModalState::InputSource {
                        title: String::new(),
                        json_url: String::new(),
                        container: String::new(),
                        map_name: String::new(),
                        map_url: String::new(),
                        map_desc: String::new(),
                        map_home: String::new(),
                        map_tags: String::new(),
                        focused_field: 0,
                        original_title: None,
                    },
                ),
                Key::Char('n') => Some(
                    AddModalState::InputSubsonic {
                        server_url: String::new(),
                        username: String::new(),
                        password: String::new(),
                        focused_field: 0,
                        original_url: None,
                    },
                ),
                Key::Esc => None,
                _ => Some(AddModalState::Selection),
            };
            assert(opt_modal_view(next) == modal_after_key(mv, key)) by {
                if let Some(n) = next {
                    match modal_view(n) {
                        ModalView::Station { fields, .. } => {
                            assert(fields =~= empty_fields(5));
                        },
                        ModalView::Source { fields, .. } => {
                            assert(fields =~= empty_fields(8));
                        },
                        ModalView::Server { fields, .. } => {
                            assert(fields =~= empty_fields(3));
                        },
                        _ => {},
                    }
                }
            }
            (next, ModalOutcome::Nothing, None)
        },
        AddModalState::InputStation {
            mut name,
            mut url,
            mut description,
            mut homepage,
            mut tags,
            mut focused_field,
            original_url,
        } => {
            match key {
                Key::Esc => {
                    return (None, ModalOutcome::Nothing, None);
                },
                Key::Tab | Key::Down => {
                    focused_field = (focused_field + 1) % 5;
                },
                Key::BackTab | Key::Up => {
                    focused_field = (focused_field + 4) % 5;
                },
                Key::Enter => {
                    if !not_blank(&name) || !not_blank(&url) {
                        let st = AddModalState::InputStation {
                            name,
                            url,
                            description,
                            homepage,
                            tags,
                            focused_field,
                            original_url,
                        };
                        return (Some(st), ModalOutcome::Nothing, Some(owned("Name and URL are required")));
                    }
                    let station = RadioStation {
                        name: name.clone(),
                        url: url.clone(),
                        description: optional(description.clone()),
                        homepage: optional(homepage.clone()),
                        tags: optional(tags.clone()),
                        last_playing: None,
                    };
                    let orig = original_url.clone();
                    let st = AddModalState::InputStation {
                        name,
                        url,
                        description,
                        homepage,
                        tags,
                        focused_field,
                        original_url,
                    };
                    return (Some(st), ModalOutcome::SaveStation { station, original_url: orig }, None);
                },
                Key::Char(_) | Key::Backspace => {
                    if focused_field == 0 {
                        edit_field(&mut name, key);
                    } else if focused_field == 1 {
                        edit_field(&mut url, key);
                    } else if focused_field == 2 {
                        edit_field(&mut description, key);
                    } else if focused_field == 3 {
                        edit_field(&mut homepage, key);
                    } else if focused_field == 4 {
                        edit_field(&mut tags, key);
                    }
                },
                _ => {},
            }
            let st = AddModalState::InputStation {
                name,
                url,
                description,
                homepage,
                tags,
                focused_field,
                original_url,
            };
            assert(opt_modal_view(Some(st)) == modal_after_key(mv, key)) by {
                if let ModalView::Station { fields, .. } = modal_view(st) {
                    if let Some(ModalView::Station { fields: f2, .. }) = modal_after_key(mv, key) {
                        assert(fields =~= f2);
                    }
                }
            }
            (Some(st), ModalOutcome::Nothing, None)
        },
        AddModalState::InputSource {
            mut title,
            mut json_url,
            mut container,
            mut map_name,
            mut map_url,
            mut map_desc,
            mut map_home,
            mut map_tags,
            mut focused_field,
            original_title,
        } => {
            match key {
                Key::Esc => {
                    return (None, ModalOutcome::Nothing, None);
                },
                Key::Tab | Key::Down => {
                    focused_field = (focused_field + 1) % 8;
                },
                Key::BackTab | Key::Up => {
                    focused_field = (focused_field + 7) % 8;
                },
                Key::Enter => {
                    if !not_blank(&title) || !not_blank(&json_url) || !not_blank(&map_name)
                        || !not_blank(&map_url) {
                        let st = AddModalState::InputSource {
                            title,
                            json_url,
                            container,
                            map_name,
                            map_url,
                            map_desc,
                            map_home,
                            map_tags,
                            focused_field,
                            original_title,
                        };
                        return (
                            Some(st),
                            ModalOutcome::Nothing,
                            Some(owned("Title, JSON URL, Name Map, and URL Map are required")),
                        );
                    }
                    let source = RadioSourceConfig {
                        title: title.clone(),
                        json_url: json_url.clone(),
                        container: optional(container.clone()),
                        mapping: StationMapping {
                            station_name: map_name.clone(),
                            station_url: map_url.clone(),
                            description: optional(map_desc.clone()),
                            homepage: optional(map_home.clone()),
                            tags: optional(map_tags.clone()),
                            last_playing: None,
                        },
                    };
                    let orig = original_title.clone();
                    let st = AddModalState::InputSource {
                        title,
                        json_url,
                        container,
                        map_name,
                        map_url,
                        map_desc,
                        map_home,
                        map_tags,
                        focused_field,
                        original_title,
                    };
                    return (Some(st), ModalOutcome::SaveSource { source, original_title: orig }, None);
                },
                Key::Char(_) | Key::Backspace => {
                    if focused_field == 0 {
                        edit_field(&mut title, key);
                    } else if focused_field == 1 {
                        edit_field(&mut json_url, key);
                    } else if focused_field == 2 {
                        edit_field(&mut container, key);
                    } else if focused_field == 3 {
                        edit_field(&mut map_name, key);
                    } else if focused_field == 4 {
                        edit_field(&mut map_url, key);
                    } else if focused_field == 5 {
                        edit_field(&mut map_desc, key);
                    } else if focused_field == 6 {
                        edit_field(&mut map_home, key);
                    } else if focused_field == 7 {
                        edit_field(&mut map_tags, key);
                    }
                },
                _ => {},
            }
            let st = AddModalState::InputSource {
                title,
                json_url,
                container,
                map_name,
                map_url,
                map_desc,
                map_home,
                map_tags,
                focused_field,
                original_title,
            };
            assert(opt_modal_view(Some(st)) == modal_after_key(mv, key)) by {
                if let ModalView::Source { fields, .. } = modal_view(st) {
                    if let Some(ModalView::Source { fields: f2, .. }) = modal_after_key(mv, key) {
                        assert(fields =~= f2);
                    }
                }
            }
            (Some(st), ModalOutcome::Nothing, None)
        },
        AddModalState::InputSubsonic {
            mut server_url,
            mut username,
            mut password,
            mut focused_field,
            original_url,
        } => {
            match key {
                Key::Esc => {
                    return (None, ModalOutcome::Nothing, None);
                },
                Key::Tab | Key::Down => {
                    focused_field = (focused_field + 1) % 3;
                },
                Key::BackTab | Key::Up => {
                    focused_field = if focused_field > 0 {
                        focused_field - 1
                    } else {
                        2
                    };
                },
                Key::Enter => {
                    if server_url.as_str().is_empty() || username.as_str().is_empty() {
                        let st = AddModalState::InputSubsonic {
                            server_url,
                            username,
                            password,
                            focused_field,
                            original_url,
                        };
                        return (
                            Some(st),
                            ModalOutcome::Nothing,
                            Some(owned("Server URL and Username are required")),
                        );
                    }
                    let source = NavidromeSourceConfig {
                        server_url: server_url.clone(),
                        username: username.clone(),
                        password: optional(password.clone()),
                        auth_token: None,
                    };
                    let orig = original_url.clone();
                    let st = AddModalState::InputSubsonic {
                        server_url,
                        username,
                        password,
                        focused_field,
                        original_url,
                    };
                    return (Some(st), ModalOutcome::SaveServer { source, original_url: orig }, None);
                },
                Key::Char(_) | Key::Backspace => {
                    if focused_field == 0 {
                        edit_field(&mut server_url, key);
                    } else if focused_field == 1 {
                        edit_field(&mut username, key);
                    } else if focused_field == 2 {
                        edit_field(&mut password, key);
                    }
                },
                _ => {},
            }
            let st = AddModalState::InputSubsonic {
                server_url,
                username,
                password,
                focused_field,
                original_url,
            };
            assert(opt_modal_view(Some(st)) == modal_after_key(mv, key)) by {
                if let ModalView::Server { fields, .. } = modal_view(st) {
                    if let Some(ModalView::Server { fields: f2, .. }) = modal_after_key(mv, key) {
                        assert(fields =~= f2);
                    }
                }
            }
            (Some(st), ModalOutcome::Nothing, None)
        },
        AddModalState::Confirmation { message, context } => {
            match key {
                Key::Char('y') | Key::Enter => {
                    let ctx = context.clone();
                    (Some(AddModalState::Confirmation { message, context }), ModalOutcome::ConfirmDelete(ctx), None)
                },
                Key::Char('n') | Key::Esc => (None, ModalOutcome::Nothing, None),
                _ => (Some(AddModalState::Confirmation { message, context }), ModalOutcome::Nothing, None),
            }
        },
    }
}


/// The serial number after `n`, wrapping around.
pub open spec fn next_serial(n: u64) -> u64 {
    if n == u64::MAX {
        0
    } else {
        (n + 1) as u64
    }
}

impl App {
    /// `new` is `self` with `message` posted as the notification.
    pub open spec fn notified(self, new: App, message: Seq<char>) -> bool {
        &&& opt_chars(new.notification) == Some(message)
        &&& new.notification_serial == next_serial(self.notification_serial)
        &&& (App {
            notification: new.notification,
            notification_serial: new.notification_serial,
            ..self
        }) == new
    }

    /// Shows `message` as the notification.
    pub fn notify(&mut self, message: String)
        ensures
            old(self).notified(*final(self), message@),
            final(self).notification == Some(message),
    {
        self.notification = Some(message);
        self.notification_serial = if self.notification_serial == u64::MAX {
            0
        } else {
            self.notification_serial + 1
        };
    }

    /// A notification shown for more than three seconds (`shown_nanos` nanoseconds) is
    /// taken away; a younger one stays.
    pub fn expire_notification(&mut self, shown_nanos: u128)
        ensures
            *final(self) == if old(self).notification is Some && shown_nanos > 3_000_000_000 {
                App { notification: None, ..*old(self) }
            } else {
                *old(self)
            },
    {
        if self.notification.is_some() && shown_nanos > 3_000_000_000 {
            self.notification = None;
        }
    }

    /// Handles a key in the open dialog: edits its fields, moves the focus, closes it, or
    /// asks the caller to save or delete (see `modal_after_key` and `modal_outcome_ok`);
    /// Enter with a required field missing shows why instead.
    pub fn handle_add_modal_input(&mut self, key: Key) -> (out: ModalOutcome)
        requires
            old(self).add_modal_state matches Some(m) ==> modal_key_fits(modal_view(m), key),
        ensures
            old(self).add_modal_state is None ==> *final(self) == *old(self) && out is Nothing,
            old(self).add_modal_state matches Some(m) ==> {
                &&& opt_modal_view(final(self).add_modal_state) == modal_after_key(modal_view(m), key)
                &&& modal_outcome_ok(modal_view(m), key, out)
                &&& match modal_rejection(modal_view(m), key) {
                    Some(msg) => (App { add_modal_state: final(self).add_modal_state, ..*old(self) }).notified(*final(self), msg),
                    None => *final(self) == (App { add_modal_state: final(self).add_modal_state, ..*old(self) }),
                }
            },
            (old(self).add_modal_state matches Some(m) ==> modal_ok(modal_view(m))) ==> (final(self).add_modal_state matches Some(n) ==> modal_ok(modal_view(n))),
    {
        let mut st: Option<AddModalState> = None;
        std::mem::swap(&mut st, &mut self.add_modal_state);
        match st {
            None => ModalOutcome::Nothing,
            Some(m) => {
                let (next, out, msg) = modal_step(m, key);
                self.add_modal_state = next;
                match msg {
                    Some(msg) => self.notify(msg),
                    None => {},
                }
                out
            },
        }
    }

    /// After writing a station: shows the error, or confirms, closes the dialog and returns
    /// true (the station lists are to be reloaded).
    pub fn on_station_saved(&mut self, result: Result<(), String>, name: &str) -> (reload: bool)
        ensures
            reload == result is Ok,
            match result {
                Ok(()) => (App { add_modal_state: None, ..*old(self) }).notified(*final(self), "Saved: "@ + name@),
                Err(e) => old(self).notified(*final(self), "Error: "@ + e@),
            },
    {
        match result {
            Ok(()) => {
                let mut msg = owned("Saved: ");
                push_all(&mut msg, name);
                self.add_modal_state = None;
                self.notify(msg);
                true
            },
            Err(e) => {
                let mut msg = owned("Error: ");
                push_all(&mut msg, e.as_str());
                self.notify(msg);
                false
            },
        }
    }

    /// After writing a source: shows the error, or confirms, closes the dialog and returns
    /// true (its cache is to be dropped and the station lists reloaded).
    pub fn on_source_saved(&mut self, result: Result<(), String>, title: &str) -> (reload: bool)
        ensures
            reload == result is Ok,
            match result {
                Ok(()) => (App { add_modal_state: None, ..*old(self) }).notified(*final(self), "Saved Source: "@ + title@),
                Err(e) => old(self).notified(*final(self), "Error: "@ + e@),
            },
    {
        match result {
            Ok(()) => {
                let mut msg = owned("Saved Source: ");
                push_all(&mut msg, title);
                self.add_modal_state = None;
                self.notify(msg);
                true
            },
            Err(e) => {
                let mut msg = owned("Error: ");
                push_all(&mut msg, e.as_str());
                self.notify(msg);
                false
            },
        }
    }

    /// After writing a music server: shows the error, or confirms, closes the dialog and
    /// returns true (the servers are to be reloaded).
    pub fn on_server_saved(&mut self, result: Result<(), String>, server_url: &str) -> (reload: bool)
        ensures
            reload == result is Ok,
            match result {
                Ok(()) => (App { add_modal_state: None, ..*old(self) }).notified(*final(self), "Saved Subsonic: "@ + server_url@),
                Err(e) => old(self).notified(*final(self), "Error: "@ + e@),
            },
    {
        match result {
            Ok(()) => {
                let mut msg = owned("Saved Subsonic: ");
                push_all(&mut msg, server_url);
                self.add_modal_state = None;
                self.notify(msg);
                true
            },
            Err(e) => {
                let mut msg = owned("Error: ");
                push_all(&mut msg, e.as_str());
                self.notify(msg);
                false
            },
        }
    }

    /// After a confirmed deletion: shows the error, or confirms, closes the dialog and
    /// returns true (the lists are to be reloaded).
    pub fn on_delete_finished(&mut self, result: Result<(), String>) -> (reload: bool)
        ensures
            reload == result is Ok,
            match result {
                Ok(()) => (App { add_modal_state: None, ..*old(self) }).notified(*final(self), "Deleted successfully"@),
                Err(e) => old(self).notified(*final(self), "Error: "@ + e@),
            },
    {
        match result {
            Ok(()) => {
                self.add_modal_state = None;
                self.notify(owned("Deleted successfully"));
                true
            },
            Err(e) => {
                let mut msg = owned("Error: ");
                push_all(&mut msg, e.as_str());
                self.notify(msg);
                false
            },
        }
    }
}


/// The configuration entry that the selected row stands for: a source (by index in the
/// configuration), a hand-entered station (by index), a music server (by index), or none.
#[derive(Debug, Clone, Copy, PartialEq, Eq, Structural)]
pub enum EntryTarget {
    Source(usize),
    Station(usize),
    Server(usize),
    Nothing,
}

/// The text of an optional field, empty when absent.
pub open spec fn text_or_empty(o: Option<String>) -> Seq<char> {
    match o {
        Some(s) => s@,
        None => Seq::empty(),
    }
}

fn string_or_empty(o: &Option<String>) -> (r: String)
    ensures
        r@ == text_or_empty(*o),
{
    match o {
        Some(s) => s.clone(),
        None => String::new(),
    }
}

/// Where in `sources` the source titled `title` is.
fn source_index(sources: &Vec<RadioSourceConfig>, title: &String) -> (r: Option<usize>)
    ensures
        r matches Some(i) ==> source_position(sources@, title@) == Some(i as int) && i < sources@.len(),
        r is None ==> source_position(sources@, title@) is None,
{
    proof {
        lemma_source_position(sources@, title@);
    }
    let mut i: usize = 0;
    while i < sources.len()
        invariant
            i <= sources@.len(),
            forall|k: int| 0 <= k < i ==> sources@[k].title@ != title@,
            source_position(sources@, title@) matches Some(j) ==> 0 <= j < sources@.len()
                && sources@[j].title@ == title@ && forall|k: int|
                0 <= k < j ==> sources@[k].title@ != title@,
            source_position(sources@, title@) is None ==> forall|k: int|
                0 <= k < sources@.len() ==> sources@[k].title@ != title@,
        decreases sources@.len() - i,
    {
        if sources[i].title == *title {
            proof {
                if let Some(j) = source_position(sources@, title@) {
                    if j < i {
                        assert(sources@[j].title@ != title@);
                    }
                    if j > i {
                        assert(sources@[i as int].title@ != title@);
                    }
                }
            }
            return Some(i);
        }
        i = i + 1;
    }
    None
}

/// Where in `stations` the hand-entered station with address `url` is.
fn individual_index(stations: &Vec<IndividualStationConfig>, url: &String) -> (r: Option<usize>)
    ensures
        r matches Some(i) ==> individual_position(stations@, url@) == Some(i as int) && i
            < stations@.len(),
        r is None ==> individual_position(stations@, url@) is None,
{
    proof {
        lemma_individual_position(stations@, url@);
    }
    let mut i: usize = 0;
    while i < stations.len()
        invariant
            i <= stations@.len(),
            forall|k: int| 0 <= k < i ==> stations@[k].station_url@ != url@,
            individual_position(stations@, url@) matches Some(j) ==> 0 <= j < stations@.len()
                && stations@[j].station_url@ == url@ && forall|k: int|
                0 <= k < j ==> stations@[k].station_url@ != url@,
            individual_position(stations@, url@) is None ==> forall|k: int|
                0 <= k < stations@.len() ==> stations@[k].station_url@ != url@,
        decreases stations@.len() - i,
    {
        if stations[i].station_url == *url {
            proof {
                if let Some(j) = individual_position(stations@, url@) {
                    if j < i {
                        assert(stations@[j].station_url@ != url@);
                    }
                    if j > i {
                        assert(stations@[i as int].station_url@ != url@);
                    }
                }
            }
            return Some(i);
        }
        i = i + 1;
    }
    None
}

impl App {
    /// The configuration entry the selected row stands for. In radio mode: the header of
    /// a group other than "Custom Stations" stands for the source with its title; a
    /// station of the "Custom Stations" group for the hand-entered station with its
    /// address (only when the configuration could be read). In the music server list: the
    /// selected server.
    pub open spec fn entry_target(self, config: Option<RadioConfig>) -> EntryTarget {
        match self.mode {
            AppMode::Radio => {
                let groups = self.filtered_radio_groups@;
                let idx = match self.radio_state.selected {
                    Some(i) => i as int,
                    None => 0,
                };
                match row_at(groups, idx) {
                    RadioRow::Header(g) => if groups[g].title@ != "Custom Stations"@ {
                        match config {
                            Some(c) => match source_position(c.sources@, groups[g].title@) {
                                Some(i) => EntryTarget::Source(i as usize),
                                None => EntryTarget::Nothing,
                            },
                            None => EntryTarget::Nothing,
                        }
                    } else {
                        EntryTarget::Nothing
                    },
                    RadioRow::Station(g, k) => if groups[g].title@ == "Custom Stations"@ {
                        match config {
                            Some(c) => match individual_position(
                                c.individual_stations@,
                                groups[g].stations@[k].url@,
                            ) {
                                Some(i) => EntryTarget::Station(i as usize),
                                None => EntryTarget::Nothing,
                            },
                            None => EntryTarget::Nothing,
                        }
                    } else {
                        EntryTarget::Nothing
                    },
                    RadioRow::Beyond => EntryTarget::Nothing,
                }
            },
            AppMode::Subsonic => match self.subsonic_view {
                SubsonicView::Servers => match self.subsonic_state.selected {
                    Some(i) => if i < self.subsonic_clients@.len() {
                        EntryTarget::Server(i)
                    } else {
                        EntryTarget::Nothing
                    },
                    None => EntryTarget::Nothing,
                },
                _ => EntryTarget::Nothing,
            },
            _ => EntryTarget::Nothing,
        }
    }

    fn entry_target_exec(&self, config: Option<&RadioConfig>) -> (t: EntryTarget)
        ensures
            t == self.entry_target(match config {
                Some(c) => Some(*c),
                None => None,
            }),
            config matches Some(c) ==> (t matches EntryTarget::Source(i) ==> i < c.sources@.len()),
            config matches Some(c) ==> (t matches EntryTarget::Station(i) ==> i < c.individual_stations@.len()),
            t matches EntryTarget::Server(i) ==> i < self.subsonic_clients@.len(),
    {
        match self.mode {
            AppMode::Radio => {
                let idx = match self.radio_state.selected {
                    Some(i) => i,
                    None => 0,
                };
                match radio_row_at(&self.filtered_radio_groups, idx) {
                    RowRef::Header(g) => {
                        let title = &self.filtered_radio_groups[g].title;
                        if !same_text(title.as_str(), "Custom Stations") {
                            match config {
                                Some(c) => match source_index(&c.sources, title) {
                                    Some(i) => EntryTarget::Source(i),
                                    None => EntryTarget::Nothing,
                                },
                                None => EntryTarget::Nothing,
                            }
                        } else {
                            EntryTarget::Nothing
                        }
                    },
                    RowRef::Station(g, k) => {
                        let group = &self.filtered_radio_groups[g];
                        if same_text(group.title.as_str(), "Custom Stations") {
                            match config {
                                Some(c) => match individual_index(&c.individual_stations, &group.stations[k].url) {
                                    Some(i) => EntryTarget::Station(i),
                                    None => EntryTarget::Nothing,
                                },
                                None => EntryTarget::Nothing,
                            }
                        } else {
                            EntryTarget::Nothing
                        }
                    },
                    RowRef::Beyond => EntryTarget::Nothing,
                }
            },
            AppMode::Subsonic => match self.subsonic_view {
                SubsonicView::Servers => match self.subsonic_state.selected {
                    Some(i) => if i < self.subsonic_clients.len() {
                        EntryTarget::Server(i)
                    } else {
                        EntryTarget::Nothing
                    },
                    None => EntryTarget::Nothing,
                },
                _ => EntryTarget::Nothing,
            },
            _ => EntryTarget::Nothing,
        }
    }

    /// Asks for confirmation before deleting the configuration entry of the selected row
    /// (see `entry_target`); nothing happens when the row stands for none. `config` is
    /// the radio configuration, if it could be read.
    pub fn open_delete_modal(&mut self, config: Option<&RadioConfig>)
        ensures
            match old(self).entry_target(match config { Some(c) => Some(*c), None => None }) {
                EntryTarget::Source(i) => final(self).add_modal_state matches Some(AddModalState::Confirmation { message, context: ConfirmationContext::DeleteSource(t) })
                    && t == config->0.sources@[i as int].title
                    && message@ == "Are you sure you want to delete source '"@ + t@ + "'?"@,
                EntryTarget::Station(i) => final(self).add_modal_state matches Some(AddModalState::Confirmation { message, context: ConfirmationContext::DeleteStation(u) })
                    && u == config->0.individual_stations@[i as int].station_url
                    && message@ == "Are you sure you want to delete station '"@ + config->0.individual_stations@[i as int].name@ + "'?"@,
                EntryTarget::Server(i) => final(self).add_modal_state matches Some(AddModalState::Confirmation { message, context: ConfirmationContext::DeleteSubsonic(u) })
                    && u == old(self).subsonic_clients@[i as int].config.server_url
                    && message@ == "Are you sure you want to delete Subsonic Server '"@ + u@ + "'?"@,
                EntryTarget::Nothing => final(self).add_modal_state == old(self).add_modal_state,
            },
            *final(self) == (App { add_modal_state: final(self).add_modal_state, ..*old(self) }),
    {
        let target = self.entry_target_exec(config);
        match target {
            EntryTarget::Source(i) => {
                let c = config.unwrap();
                let t = c.sources[i].title.clone();
                let mut message = owned("Are you sure you want to delete source '");
                push_all(&mut message, t.as_str());
                push_all(&mut message, "'?");
                self.add_modal_state = Some(AddModalState::Confirmation { message, context: ConfirmationContext::DeleteSource(t) });
            },
            EntryTarget::Station(i) => {
                let c = config.unwrap();
                let s = &c.individual_stations[i];
                let mut message = owned("Are you sure you want to delete station '");
                push_all(&mut message, s.name.as_str());
                push_all(&mut message, "'?");
                self.add_modal_state = Some(AddModalState::Confirmation {
                    message,
                    context: ConfirmationContext::DeleteStation(s.station_url.clone()),
                });
            },
            EntryTarget::Server(i) => {
                let u = self.subsonic_clients[i].config.server_url.clone();
                let mut message = owned("Are you sure you want to delete Subsonic Server '");
                push_all(&mut message, u.as_str());
                push_all(&mut message, "'?");
                self.add_modal_state = Some(AddModalState::Confirmation { message, context: ConfirmationContext::DeleteSubsonic(u) });
            },
            EntryTarget::Nothing => {},
        }
    }

    /// Opens the edit dialog for the configuration entry of the selected row (see
    /// `entry_target`), filled in from it, with the focus on its first field; nothing
    /// happens when the row stands for none.
    pub fn open_edit_modal(&mut self, config: Option<&RadioConfig>)
        ensures
            match old(self).entry_target(match config { Some(c) => Some(*c), None => None }) {
                EntryTarget::Source(i) => {
                    let src = config->0.sources@[i as int];
                    opt_modal_view(final(self).add_modal_state) == Some(ModalView::Source {
                        fields: seq![
                            src.title@,
                            src.json_url@,
                            text_or_empty(src.container),
                            src.mapping.station_name@,
                            src.mapping.station_url@,
                            text_or_empty(src.mapping.description),
                            text_or_empty(src.mapping.homepage),
                            text_or_empty(src.mapping.tags),
                        ],
                        focused: 0,
                        original: Some(src.title@),
                    })
                },
                EntryTarget::Station(i) => {
                    let st = config->0.individual_stations@[i as int];
                    opt_modal_view(final(self).add_modal_state) == Some(ModalView::Station {
                        fields: seq![
                            st.name@,
                            st.station_url@,
                            text_or_empty(st.description),
                            text_or_empty(st.homepage),
                            text_or_empty(st.tags),
                        ],
                        focused: 0,
                        original: Some(st.station_url@),
                    })
                },
                EntryTarget::Server(i) => {
                    let sv = old(self).subsonic_clients@[i as int].config;
                    opt_modal_view(final(self).add_modal_state) == Some(ModalView::Server {
                        fields: seq![sv.server_url@, sv.username@, text_or_empty(sv.password)],
                        focused: 0,
                        original: Some(sv.server_url@),
                    })
                },
                EntryTarget::Nothing => final(self).add_modal_state == old(self).add_modal_state,
            },
            *final(self) == (App { add_modal_state: final(self).add_modal_state, ..*old(self) }),
    {
        let target = self.entry_target_exec(config);
        match target {
            EntryTarget::Source(i) => {
                let c = config.unwrap();
                let src = &c.sources[i];
                let st = AddModalState::InputSource {
                    title: src.title.clone(),
                    json_url: src.json_url.clone(),
                    container: string_or_empty(&src.container),
                    map_name: src.mapping.station_name.clone(),
                    map_url: src.mapping.station_url.clone(),
                    map_desc: string_or_empty(&src.mapping.description),
                    map_home: string_or_empty(&src.mapping.homepage),
                    map_tags: string_or_empty(&src.mapping.tags),
                    focused_field: 0,
                    original_title: Some(src.title.clone()),
                };
                self.add_modal_state = Some(st);
            },
            EntryTarget::Station(i) => {
                let c = config.unwrap();
                let s = &c.individual_stations[i];
                let st = AddModalState::InputStation {
                    name: s.name.clone(),
                    url: s.station_url.clone(),
                    description: string_or_empty(&s.description),
                    homepage: string_or_empty(&s.homepage),
                    tags: string_or_empty(&s.tags),
                    focused_field: 0,
                    original_url: Some(s.station_url.clone()),
                };
                self.add_modal_state = Some(st);
            },
            EntryTarget::Server(i) => {
                let sv = &self.subsonic_clients[i].config;
                let st = AddModalState::InputSubsonic {
                    server_url: sv.server_url.clone(),
                    username: sv.username.clone(),
                    password: string_or_empty(&sv.password),
                    focused_field: 0,
                    original_url: Some(sv.server_url.clone()),
                };
                self.add_modal_state = Some(st);
            },
            EntryTarget::Nothing => {},
        }
    }
}


/// What Enter asks the caller to do.
#[derive(Debug)]
pub enum EnterAction {
    Nothing,
    /// The `..` row: go up one directory (see `go_up`) and list it.
    GoUp,
    /// A row of the file list: enter it if it is a directory, play it otherwise.
    OpenPath(String),
    /// A group header: the group was expanded or collapsed.
    ToggledGroup,
    /// Play this station (see `play_radio`).
    PlayStation(RadioStation),
    /// A favorite file: enter it in file mode if it is a directory, play it otherwise.
    OpenFavoritePath(String),
    /// Fetch the artists of the server at this index.
    LoadArtists(usize),
    /// Fetch the albums of the artist with this id.
    LoadAlbums(String),
    /// Fetch the songs of the album with this id.
    LoadTracks(String),
}

/// The first group titled `title`.
pub open spec fn group_position(groups: Seq<RadioGroup>, title: Seq<char>) -> Option<int>
    decreases groups.len(),
{
    if groups.len() == 0 {
        None
    } else {
        match group_position(groups.drop_last(), title) {
            Some(i) => Some(i),
            None => if groups.last().title@ == title {
                Some(groups.len() - 1)
            } else {
                None
            },
        }
    }
}

pub proof fn lemma_group_position(groups: Seq<RadioGroup>, title: Seq<char>)
    ensures
        group_position(groups, title) matches Some(i) ==> 0 <= i < groups.len() && groups[i].title@
            == title && forall|k: int| 0 <= k < i ==> groups[k].title@ != title,
        group_position(groups, title) is None ==> forall|k: int|
            0 <= k < groups.len() ==> groups[k].title@ != title,
    decreases groups.len(),
{
    if groups.len() > 0 {
        lemma_group_position(groups.drop_last(), title);
        assert forall|k: int| 0 <= k < groups.len() - 1 implies groups[k] == groups.drop_last()[k] by {}
    }
}

fn group_index(groups: &Vec<RadioGroup>, title: &String) -> (r: Option<usize>)
    ensures
        r matches Some(i) ==> group_position(groups@, title@) == Some(i as int) && i < groups@.len(),
        r is None ==> group_position(groups@, title@) is None,
{
    proof {
        lemma_group_position(groups@, title@);
    }
    let mut i: usize = 0;
    while i < groups.len()
        invariant
            i <= groups@.len(),
            forall|k: int| 0 <= k < i ==> groups@[k].title@ != title@,
            group_position(groups@, title@) matches Some(j) ==> 0 <= j < groups@.len()
                && groups@[j].title@ == title@ && forall|k: int|
                0 <= k < j ==> groups@[k].title@ != title@,
            group_position(groups@, title@) is None ==> forall|k: int|
                0 <= k < groups@.len() ==> groups@[k].title@ != title@,
        decreases groups@.len() - i,
    {
        if groups[i].title == *title {
            proof {
                if let Some(j) = group_position(groups@, title@) {
                    if j < i {
                        assert(groups@[j].title@ != title@);
                    }
                    if j > i {
                        assert(groups@[i as int].title@ != title@);
                    }
                }
            }
            return Some(i);
        }
        i = i + 1;
    }
    None
}

/// The groups with the first titled `title` expanded if it was collapsed and collapsed if
/// it was expanded.
pub open spec fn toggled_groups(groups: Seq<GroupView>, raw: Seq<RadioGroup>, title: Seq<char>) -> Seq<GroupView> {
    match group_position(raw, title) {
        Some(j) => groups.update(j, GroupView { is_expanded: !groups[j].is_expanded, ..groups[j] }),
        None => groups,
    }
}

/// The title a music server track is played under: "artist - title", or the title alone.
pub open spec fn track_display_name(t: Track) -> Seq<char> {
    match t.artist {
        Some(a) => a@ + " - "@ + t.title@,
        None => t.title@,
    }
}

impl App {
    /// Enter needs the active server (in the music server browser, past the server list)
    /// to be one of the servers.
    pub open spec fn active_client_ok(self) -> bool {
        (self.mode == AppMode::Subsonic && self.subsonic_state.selected is Some
            && self.subsonic_clients@.len() > 0 && !(self.subsonic_view is Servers))
            ==> self.active_subsonic_client < self.subsonic_clients@.len()
    }

    /// Acts on Enter at the selected row. File mode: the `..` row goes up, another row is
    /// opened. Radio mode: a header expands or collapses the group of that title (the
    /// first one in the unfiltered list) and refilters; a station is played. Favorites: a
    /// file is opened, a station played. Music servers: a server is made active and its
    /// artists fetched; an artist's albums, an album's songs are fetched; a song is played
    /// as a station named "artist - title" streaming from the server.
    pub fn enter_directory(&mut self) -> (action: EnterAction)
        requires
            old(self).active_client_ok(),
        ensures
            old(self).mode == AppMode::FileSystem ==> *final(self) == *old(self) && match old(self).state.selected {
                Some(i) => if i < old(self).filtered_items@.len() {
                    let p = old(self).filtered_items@[i as int];
                    if path_ends_with_parent(p@) {
                        action is GoUp
                    } else {
                        action == EnterAction::OpenPath(p)
                    }
                } else {
                    action is Nothing
                },
                None => action is Nothing,
            },
            old(self).mode == AppMode::Radio ==> {
                let groups = old(self).filtered_radio_groups@;
                let idx = match old(self).radio_state.selected {
                    Some(i) => i as int,
                    None => 0,
                };
                match row_at(groups, idx) {
                    RadioRow::Header(g) => action is ToggledGroup
                        && final(self).radio_groups.deep_view() == toggled_groups(old(self).radio_groups.deep_view(), old(self).radio_groups@, groups[g].title@)
                        && final(self).results_current()
                        && (App { radio_groups: final(self).radio_groups, filtered_items: final(self).filtered_items, filtered_radio_groups: final(self).filtered_radio_groups, ..*old(self) }) == *final(self),
                    RadioRow::Station(g, k) => action == EnterAction::PlayStation(groups[g].stations@[k]) && *final(self) == *old(self),
                    RadioRow::Beyond => action is Nothing && *final(self) == *old(self),
                }
            },
            old(self).mode == AppMode::Favorites ==> *final(self) == *old(self) && match old(self).favorites_state.selected {
                Some(i) => {
                    let files = old(self).favorites.files@;
                    let stations = old(self).favorites.stations@;
                    if i < files.len() {
                        action == EnterAction::OpenFavoritePath(files[i as int])
                    } else if i - files.len() < stations.len() {
                        action == EnterAction::PlayStation(stations[i - files.len()])
                    } else {
                        action is Nothing
                    }
                },
                None => action is Nothing,
            },
            old(self).mode == AppMode::Subsonic ==> match old(self).subsonic_state.selected {
                None => action is Nothing && *final(self) == *old(self),
                Some(i) => if old(self).subsonic_clients@.len() == 0 {
                    action is Nothing && *final(self) == *old(self)
                } else {
                    match old(self).subsonic_view {
                        SubsonicView::Servers => action == EnterAction::LoadArtists(i)
                            && *final(self) == (App { active_subsonic_client: i, ..*old(self) }),
                        SubsonicView::Artists => *final(self) == *old(self) && if i < old(self).subsonic_artists@.len() {
                            action == EnterAction::LoadAlbums(old(self).subsonic_artists@[i as int].id)
                        } else {
                            action is Nothing
                        },
                        SubsonicView::Albums(_) => *final(self) == *old(self) && if i < old(self).subsonic_albums@.len() {
                            action == EnterAction::LoadTracks(old(self).subsonic_albums@[i as int].id)
                        } else {
                            action is Nothing
                        },
                        SubsonicView::Tracks(_) => *final(self) == *old(self) && if i < old(self).subsonic_tracks@.len() {
                            let t = old(self).subsonic_tracks@[i as int];
                            let client = old(self).subsonic_clients@[old(self).active_subsonic_client as int];
                            action matches EnterAction::PlayStation(st) && {
                                &&& st.name@ == track_display_name(t)
                                &&& exists|salt: Seq<char>| salt.len() == 6 && st.url@ == endpoint_url(client.config.server_url@, "stream"@) + "?"@
                                    + query_string(auth_params_spec(client, salt).push(("id"@, t.id@)))
                                &&& st.description == t.album
                                &&& st.homepage is None
                                &&& st.tags is None
                                &&& st.last_playing is None
                            }
                        } else {
                            action is Nothing
                        },
                    }
                },
            },
    {
        match self.mode {
            AppMode::FileSystem => match self.state.selected {
                Some(i) => if i < self.filtered_items.len() {
                    let p = self.filtered_items[i].clone();
                    if ends_with_parent(p.as_str()) {
                        EnterAction::GoUp
                    } else {
                        EnterAction::OpenPath(p)
                    }
                } else {
                    EnterAction::Nothing
                },
                None => EnterAction::Nothing,
            },
            AppMode::Radio => {
                let idx = match self.radio_state.selected {
                    Some(i) => i,
                    None => 0,
                };
                match radio_row_at(&self.filtered_radio_groups, idx) {
                    RowRef::Header(g) => {
                        let title = self.filtered_radio_groups[g].title.clone();
                        match group_index(&self.radio_groups, &title) {
                            Some(j) => {
                                let mut grp = self.radio_groups[j].clone();
                                grp.is_expanded = !grp.is_expanded;
                                let ghost before = self.radio_groups.deep_view();
                                self.radio_groups.set(j, grp);
                                assert(self.radio_groups.deep_view() =~= toggled_groups(before, old(self).radio_groups@, title@));
                            },
                            None => {},
                        }
                        self.update_search_results();
                        EnterAction::ToggledGroup
                    },
                    RowRef::Station(g, k) => EnterAction::PlayStation(self.filtered_radio_groups[g].stations[k].clone()),
                    RowRef::Beyond => EnterAction::Nothing,
                }
            },
            AppMode::Favorites => match self.favorites_state.selected {
                Some(i) => {
                    let flen = self.favorites.files.len();
                    if i < flen {
                        EnterAction::OpenFavoritePath(self.favorites.files[i].clone())
                    } else if i - flen < self.favorites.stations.len() {
                        EnterAction::PlayStation(self.favorites.stations[i - flen].clone())
                    } else {
                        EnterAction::Nothing
                    }
                },
                None => EnterAction::Nothing,
            },
            AppMode::Subsonic => match self.subsonic_state.selected {
                None => EnterAction::Nothing,
                Some(i) => {
                    if self.subsonic_clients.len() == 0 {
                        return EnterAction::Nothing;
                    }
                    match &self.subsonic_view {
                        SubsonicView::Servers => {
                            self.active_subsonic_client = i;
                            EnterAction::LoadArtists(i)
                        },
                        SubsonicView::Artists => if i < self.subsonic_artists.len() {
                            EnterAction::LoadAlbums(self.subsonic_artists[i].id.clone())
                        } else {
                            EnterAction::Nothing
                        },
                        SubsonicView::Albums(_) => if i < self.subsonic_albums.len() {
                            EnterAction::LoadTracks(self.subsonic_albums[i].id.clone())
                        } else {
                            EnterAction::Nothing
                        },
                        SubsonicView::Tracks(_) => if i < self.subsonic_tracks.len() {
                            let t = &self.subsonic_tracks[i];
                            let client = &self.subsonic_clients[self.active_subsonic_client];
                            let url = client.get_stream_url(t.id.as_str());
                            let name = match &t.artist {
                                Some(a) => {
                                    let mut n = a.clone();
                                    push_all(&mut n, " - ");
                                    push_all(&mut n, t.title.as_str());
                                    n
                                },
                                None => t.title.clone(),
                            };
                            EnterAction::PlayStation(RadioStation {
                                name,
                                url,
                                description: t.album.clone(),
                                homepage: None,
                                tags: None,
                                last_playing: None,
                            })
                        } else {
                            EnterAction::Nothing
                        },
                    }
                },
            },
        }
    }

    /// Makes `path` the current directory (its listing is then read by the caller).
    pub fn enter_dir(&mut self, path: String)
        ensures
            *final(self) == (App { current_dir: path, ..*old(self) }),
    {
        self.current_dir = path;
    }

    /// Opens a favorite directory: file mode, in that directory.
    pub fn open_favorite_dir(&mut self, path: String)
        ensures
            *final(self) == (App { current_dir: path, mode: AppMode::FileSystem, ..*old(self) }),
    {
        self.current_dir = path;
        self.mode = AppMode::FileSystem;
    }

    /// Shows the fetched artists of the active server, or says why they could not be fetched.
    pub fn show_artists(&mut self, result: Result<Vec<Artist>, String>)
        ensures
            match result {
                Ok(a) => final(self).subsonic_artists@ == a@ && *final(self) == (App {
                    subsonic_artists: final(self).subsonic_artists,
                    subsonic_view: SubsonicView::Artists,
                    subsonic_state: selecting(old(self).subsonic_state, Some(0)),
                    ..*old(self)
                }),
                Err(e) => old(self).notified(*final(self), "Failed to load artists: "@ + e@),
            },
    {
        match result {
            Ok(a) => {
                self.subsonic_artists = a;
                self.subsonic_view = SubsonicView::Artists;
                self.subsonic_state.select(Some(0));
            },
            Err(e) => {
                let mut msg = owned("Failed to load artists: ");
                push_all(&mut msg, e.as_str());
                self.notify(msg);
            },
        }
    }

    /// Shows the fetched albums of an artist, or records why they could not be fetched.
    pub fn show_albums(&mut self, result: Result<Vec<Album>, String>, artist_id: String)
        ensures
            match result {
                Ok(a) => final(self).subsonic_albums@ == a@ && *final(self) == (App {
                    subsonic_albums: final(self).subsonic_albums,
                    subsonic_view: SubsonicView::Albums(artist_id),
                    subsonic_state: selecting(old(self).subsonic_state, Some(0)),
                    ..*old(self)
                }),
                Err(e) => opt_chars(final(self).last_error) == Some("Failed to load albums: "@ + e@)
                    && *final(self) == (App { last_error: final(self).last_error, ..*old(self) }),
            },
    {
        match result {
            Ok(a) => {
                self.subsonic_albums = a;
                self.subsonic_view = SubsonicView::Albums(artist_id);
                self.subsonic_state.select(Some(0));
            },
            Err(e) => {
                let mut msg = owned("Failed to load albums: ");
                push_all(&mut msg, e.as_str());
                self.last_error = Some(msg);
            },
        }
    }

    /// Shows the fetched songs of an album, or records why they could not be fetched.
    pub fn show_tracks(&mut self, result: Result<Vec<Track>, String>, album_id: String)
        ensures
            match result {
                Ok(t) => final(self).subsonic_tracks@ == t@ && *final(self) == (App {
                    subsonic_tracks: final(self).subsonic_tracks,
                    subsonic_view: SubsonicView::Tracks(album_id),
                    subsonic_state: selecting(old(self).subsonic_state, Some(0)),
                    ..*old(self)
                }),
                Err(e) => opt_chars(final(self).last_error) == Some("Failed to load tracks: "@ + e@)
                    && *final(self) == (App { last_error: final(self).last_error, ..*old(self) }),
            },
    {
        match result {
            Ok(t) => {
                self.subsonic_tracks = t;
                self.subsonic_view = SubsonicView::Tracks(album_id);
                self.subsonic_state.select(Some(0));
            },
            Err(e) => {
                let mut msg = owned("Failed to load tracks: ");
                push_all(&mut msg, e.as_str());
                self.last_error = Some(msg);
            },
        }
    }
}


/// What a key asks the caller to do (see `command_for`).
#[derive(Debug, Clone, Copy, PartialEq, Eq, Structural)]
pub enum Command {
    Nothing,
    Quit,
    ModalInput(Key),
    CancelSearch,
    SubmitSearch,
    SearchBackspace,
    SearchInput(char),
    HideHelp,
    ShowHelp,
    StartSearch,
    ToggleHidden,
    SwitchMode,
    Next,
    Previous,
    VolumeUp,
    VolumeDown,
    ToggleLoop,
    ToggleFavorite,
    PreviousTrack,
    NextTrack,
    ExportStation,
    OpenAdd,
    OpenEdit,
    TogglePause,
    Enter,
    OpenDelete,
    GoUp,
}

/// What happens when the playing track has ended.
#[derive(Debug)]
pub enum AutoAdvance {
    Nothing,
    /// Play the next track (see `next_track`).
    NextTrack,
    /// Play this track again.
    Replay(String),
}

impl App {
    /// The command a key event stands for. Releases do nothing. With the dialog open,
    /// keys go to it, but a held key repeats only for typing and erasing in an input
    /// field. While searching, keys edit the query. With help shown, `?` or Esc closes it
    /// and `q` quits. Otherwise the key bindings of the player apply; the delete keys
    /// delete in radio mode and in the music server list, and Backspace goes up
    /// elsewhere. Held keys repeat only moving, volume, track skipping and search typing.
    pub open spec fn command_for(self, key: Key, kind: KeyKind) -> Command {
        let rep = kind == KeyKind::Repeat;
        if kind == KeyKind::Release {
            Command::Nothing
        } else if self.add_modal_state is Some {
            let typing = key is Char || key == Key::Backspace;
            let process = !rep || match self.add_modal_state->0 {
                AddModalState::Selection => false,
                AddModalState::Confirmation { .. } => false,
                _ => typing,
            };
            if process {
                Command::ModalInput(key)
            } else {
                Command::Nothing
            }
        } else if self.is_searching {
            match key {
                Key::Esc => if rep { Command::Nothing } else { Command::CancelSearch },
                Key::Enter => if rep { Command::Nothing } else { Command::SubmitSearch },
                Key::Backspace => Command::SearchBackspace,
                Key::Char(c) => Command::SearchInput(c),
                _ => Command::Nothing,
            }
        } else if self.show_help {
            match key {
                Key::Char('?') | Key::Esc => if rep { Command::Nothing } else { Command::HideHelp },
                Key::Char('q') => Command::Quit,
                _ => Command::Nothing,
            }
        } else {
            match key {
                Key::Char('q') => Command::Quit,
                Key::Char('?') => if rep { Command::Nothing } else { Command::ShowHelp },
                Key::Char('/') => if rep { Command::Nothing } else { Command::StartSearch },
                Key::Esc => if !rep && self.search_query@.len() > 0 {
                    Command::CancelSearch
                } else {
                    Command::Nothing
                },
                Key::Char('h') => if rep { Command::Nothing } else { Command::ToggleHidden },
                Key::Tab => if rep { Command::Nothing } else { Command::SwitchMode },
                Key::Char('j') | Key::Down => Command::Next,
                Key::Char('k') | Key::Up => Command::Previous,
                Key::Char('+') | Key::Char('=') => Command::VolumeUp,
                Key::Char('l') => if rep { Command::Nothing } else { Command::ToggleLoop },
                Key::Char('f') => if rep { Command::Nothing } else { Command::ToggleFavorite },
                Key::Char('-') => Command::VolumeDown,
                Key::Left => Command::PreviousTrack,
                Key::Right => Command::NextTrack,
                Key::Char('x') => if rep { Command::Nothing } else { Command::ExportStation },
                Key::Char('a') => if rep { Command::Nothing } else { Command::OpenAdd },
                Key::Char('e') => if rep { Command::Nothing } else { Command::OpenEdit },
                Key::Char(' ') => if rep { Command::Nothing } else { Command::TogglePause },
                Key::Enter => if rep { Command::Nothing } else { Command::Enter },
                Key::Backspace | Key::Delete => if self.mode == AppMode::Radio || (self.mode
                    == AppMode::Subsonic && self.subsonic_view is Servers) {
                    if rep {
                        Command::Nothing
                    } else {
                        Command::OpenDelete
                    }
                } else if key == Key::Backspace {
                    Command::GoUp
                } else {
                    Command::Nothing
                },
                _ => Command::Nothing,
            }
        }
    }

    /// The command a key event stands for (see `command_for`).
    pub fn key_command(&self, key: Key, kind: KeyKind) -> (c: Command)
        ensures
            c == self.command_for(key, kind),
    {
        let rep = kind == KeyKind::Repeat;
        if kind == KeyKind::Release {
            return Command::Nothing;
        }
        match &self.add_modal_state {
            Some(state) => {
                let typing = match key {
                    Key::Char(_) | Key::Backspace => true,
                    _ => false,
                };
                let process = !rep || match state {
                    AddModalState::Selection => false,
                    AddModalState::Confirmation { .. } => false,
                    _ => typing,
                };
                return if process {
                    Command::ModalInput(key)
                } else {
                    Command::Nothing
                };
            },
            None => {},
        }
        if self.is_searching {
            match key {
                Key::Esc => if rep { Command::Nothing } else { Command::CancelSearch },
                Key::Enter => if rep { Command::Nothing } else { Command::SubmitSearch },
                Key::Backspace => Command::SearchBackspace,
                Key::Char(c) => Command::SearchInput(c),
                _ => Command::Nothing,
            }
        } else if self.show_help {
            match key {
                Key::Char('?') | Key::Esc => if rep { Command::Nothing } else { Command::HideHelp },
                Key::Char('q') => Command::Quit,
                _ => Command::Nothing,
            }
        } else {
            match key {
                Key::Char('q') => Command::Quit,
                Key::Char('?') => if rep { Command::Nothing } else { Command::ShowHelp },
                Key::Char('/') => if rep { Command::Nothing } else { Command::StartSearch },
                Key::Esc => if !rep && !self.search_query.as_str().is_empty() {
                    Command::CancelSearch
                } else {
                    Command::Nothing
                },
                Key::Char('h') => if rep { Command::Nothing } else { Command::ToggleHidden },
                Key::Tab => if rep { Command::Nothing } else { Command::SwitchMode },
                Key::Char('j') | Key::Down => Command::Next,
                Key::Char('k') | Key::Up => Command::Previous,
                Key::Char('+') | Key::Char('=') => Command::VolumeUp,
                Key::Char('l') => if rep { Command::Nothing } else { Command::ToggleLoop },
                Key::Char('f') => if rep { Command::Nothing } else { Command::ToggleFavorite },
                Key::Char('-') => Command::VolumeDown,
                Key::Left => Command::PreviousTrack,
                Key::Right => Command::NextTrack,
                Key::Char('x') => if rep { Command::Nothing } else { Command::ExportStation },
                Key::Char('a') => if rep { Command::Nothing } else { Command::OpenAdd },
                Key::Char('e') => if rep { Command::Nothing } else { Command::OpenEdit },
                Key::Char(' ') => if rep { Command::Nothing } else { Command::TogglePause },
                Key::Enter => if rep { Command::Nothing } else { Command::Enter },
                Key::Backspace | Key::Delete => {
                    let servers = match self.subsonic_view {
                        SubsonicView::Servers => true,
                        _ => false,
                    };
                    if self.mode == AppMode::Radio || (self.mode == AppMode::Subsonic && servers) {
                        if rep {
                            Command::Nothing
                        } else {
                            Command::OpenDelete
                        }
                    } else if key == Key::Backspace {
                        Command::GoUp
                    } else {
                        Command::Nothing
                    }
                },
                _ => Command::Nothing,
            }
        }
    }

    /// The mode after Tab: files, radio, favorites, the music servers (when there are
    /// any), and back to files.
    pub open spec fn mode_after_switch(self) -> AppMode {
        match self.mode {
            AppMode::FileSystem => AppMode::Radio,
            AppMode::Radio => AppMode::Favorites,
            AppMode::Favorites => if self.subsonic_clients@.len() == 0 {
                AppMode::FileSystem
            } else {
                AppMode::Subsonic
            },
            AppMode::Subsonic => AppMode::FileSystem,
        }
    }

    /// Switches to the next mode and cancels the search.
    pub fn switch_mode(&mut self)
        ensures
            final(self).mode == old(self).mode_after_switch(),
            !final(self).is_searching,
            final(self).search_query@.len() == 0,
            final(self).results_current(),
            (App { search_query: final(self).search_query, is_searching: false, mode: old(self).mode_after_switch(), ..*old(self) }).with_selection_reset().same_but_results(*final(self)),
    {
        self.mode = match self.mode {
            AppMode::FileSystem => AppMode::Radio,
            AppMode::Radio => AppMode::Favorites,
            AppMode::Favorites => if self.subsonic_clients.len() == 0 {
                AppMode::FileSystem
            } else {
                AppMode::Subsonic
            },
            AppMode::Subsonic => AppMode::FileSystem,
        };
        self.cancel_search();
    }

    /// Starts typing a search query, from an empty one.
    pub fn start_search(&mut self)
        ensures
            final(self).is_searching,
            final(self).search_query@.len() == 0,
            final(self).results_current(),
            (App { search_query: final(self).search_query, is_searching: true, ..*old(self) }).same_but_results(*final(self)),
    {
        self.is_searching = true;
        self.search_query = String::new();
        self.update_search_results();
    }

    /// Shows or hides the help screen.
    pub fn set_help(&mut self, show: bool)
        ensures
            *final(self) == (App { show_help: show, ..*old(self) }),
    {
        self.show_help = show;
    }

    /// Shows or hides hidden files (the listing is then read again by the caller).
    pub fn toggle_hidden(&mut self)
        ensures
            *final(self) == (App { show_hidden: !old(self).show_hidden, ..*old(self) }),
    {
        self.show_hidden = !self.show_hidden;
    }

    /// What to do when the audio output has run dry: with output, a current track and no
    /// pause, loop-all goes on to the next track and loop-track plays it again.
    pub fn auto_advance(&self, sink_empty: bool) -> (r: AutoAdvance)
        ensures
            (self.has_sink && sink_empty && !self.is_paused && self.current_track is Some) ==> match self.loop_mode {
                LoopMode::All => r is NextTrack,
                LoopMode::Track => r == AutoAdvance::Replay(self.current_track->0),
                LoopMode::Off => r is Nothing,
            },
            !(self.has_sink && sink_empty && !self.is_paused && self.current_track is Some) ==> r is Nothing,
    {
        if self.has_sink && sink_empty && !self.is_paused {
            match &self.current_track {
                Some(t) => match self.loop_mode {
                    LoopMode::All => AutoAdvance::NextTrack,
                    LoopMode::Track => AutoAdvance::Replay(t.clone()),
                    LoopMode::Off => AutoAdvance::Nothing,
                },
                None => AutoAdvance::Nothing,
            }
        } else {
            AutoAdvance::Nothing
        }
    }

    /// Records the outcome of opening a station's stream: cleared error when it plays, the
    /// error and a pause when it failed.
    pub fn on_source_loaded(&mut self, result: Result<(), String>)
        ensures
            match result {
                Ok(()) => *final(self) == (App { last_error: None, ..*old(self) }),
                Err(e) => *final(self) == (App { last_error: Some(e), is_paused: true, ..*old(self) }),
            },
    {
        match result {
            Ok(()) => {
                self.last_error = None;
            },
            Err(e) => {
                self.last_error = Some(e);
                self.is_paused = true;
            },
        }
    }

    /// Records a newer released version, if the check found one.
    pub fn on_update_checked(&mut self, latest: Option<String>)
        ensures
            *final(self) == match latest {
                Some(v) => App { latest_version: Some(v), ..*old(self) },
                None => *old(self),
            },
    {
        match latest {
            Some(v) => {
                self.latest_version = Some(v);
            },
            None => {},
        }
    }

    /// Takes the reloaded station groups and refilters, or records why reloading failed.
    pub fn on_stations_reloaded(&mut self, result: Result<Vec<RadioGroup>, String>)
        ensures
            match result {
                Ok(groups) => final(self).radio_groups.deep_view() == groups.deep_view()
                    && final(self).results_current()
                    && opt_chars(final(self).notification) == Some("Stations reloaded"@)
                    && final(self).notification_serial == next_serial(old(self).notification_serial)
                    && (App {
                        radio_groups: final(self).radio_groups,
                        filtered_items: final(self).filtered_items,
                        filtered_radio_groups: final(self).filtered_radio_groups,
                        notification: final(self).notification,
                        notification_serial: final(self).notification_serial,
                        ..*old(self)
                    }) == *final(self),
                Err(e) => opt_chars(final(self).last_error) == Some("Failed to reload stations: "@ + e@)
                    && *final(self) == (App { last_error: final(self).last_error, ..*old(self) }),
            },
    {
        match result {
            Ok(groups) => {
                self.radio_groups = groups;
                self.notify(owned("Stations reloaded"));
                self.update_search_results();
            },
            Err(e) => {
                let mut msg = owned("Failed to reload stations: ");
                push_all(&mut msg, e.as_str());
                self.last_error = Some(msg);
            },
        }
    }

    /// Takes the music servers of the configuration: one client per server. With none,
    /// the browser lists are emptied and nothing is selected; otherwise the first server
    /// is selected and true is returned (its artists are to be fetched).
    pub fn set_subsonic_servers(&mut self, sources: Option<Vec<NavidromeSourceConfig>>) -> (fetch: bool)
        ensures
            final(self).subsonic_clients@.len() == match sources {
                Some(v) => v@.len(),
                None => 0,
            },
            forall|i: int| 0 <= i < final(self).subsonic_clients@.len() ==> #[trigger] final(self).subsonic_clients@[i].config == sources->0@[i]
                && final(self).subsonic_clients@[i].client_name@ == "cohors"@
                && final(self).subsonic_clients@[i].version@ == "1.16.1"@,
            fetch == (final(self).subsonic_clients@.len() > 0),
            fetch ==> *final(self) == (App {
                subsonic_clients: final(self).subsonic_clients,
                subsonic_state: selecting(old(self).subsonic_state, Some(0)),
                ..*old(self)
            }),
            !fetch ==> final(self).subsonic_artists@.len() == 0 && final(self).subsonic_albums@.len() == 0
                && final(self).subsonic_tracks@.len() == 0 && *final(self) == (App {
                subsonic_clients: final(self).subsonic_clients,
                subsonic_artists: final(self).subsonic_artists,
                subsonic_albums: final(self).subsonic_albums,
                subsonic_tracks: final(self).subsonic_tracks,
                subsonic_state: selecting(old(self).subsonic_state, None),
                ..*old(self)
            }),
    {
        let mut clients: Vec<SubsonicClient> = Vec::new();
        match sources {
            Some(v) => {
                let ghost vs = v@;
                let mut i: usize = 0;
                while i < v.len()
                    invariant
                        v@ == vs,
                        i <= vs.len(),
                        clients@.len() == i,
                        forall|k: int| 0 <= k < i ==> #[trigger] clients@[k].config == vs[k]
                            && clients@[k].client_name@ == "cohors"@ && clients@[k].version@ == "1.16.1"@,
                    decreases vs.len() - i,
                {
                    clients.push(SubsonicClient::new(v[i].clone()));
                    i = i + 1;
                }
            },
            None => {},
        }
        self.subsonic_clients = clients;
        if self.subsonic_clients.len() == 0 {
            self.subsonic_artists = Vec::new();
            self.subsonic_albums = Vec::new();
            self.subsonic_tracks = Vec::new();
            self.subsonic_state.select(None);
            false
        } else {
            self.subsonic_state.select(Some(0));
            true
        }
    }

    /// Takes the artists of the first server after the servers were reloaded, or says why
    /// they could not be fetched.
    pub fn on_library_loaded(&mut self, result: Result<Vec<Artist>, String>)
        ensures
            match result {
                Ok(a) => final(self).subsonic_artists@ == a@ && *final(self) == (App { subsonic_artists: final(self).subsonic_artists, ..*old(self) }),
                Err(e) => old(self).notified(*final(self), "Failed to load Subsonic library: "@ + e@),
            },
    {
        match result {
            Ok(a) => {
                self.subsonic_artists = a;
            },
            Err(e) => {
                let mut msg = owned("Failed to load Subsonic library: ");
                push_all(&mut msg, e.as_str());
                self.notify(msg);
            },
        }
    }

    /// The state of a freshly started player in `current_dir`: file mode, nothing
    /// listed or playing, loop off, no dialog; `audio_error` says why the audio output
    /// could not be opened, if it could not.
    pub fn new(current_dir: String, has_sink: bool, audio_error: Option<String>, current_version: String) -> (app: App)
        ensures
            app.mode == AppMode::FileSystem,
            app.current_dir == current_dir,
            app.items@.len() == 0,
            app.filtered_items@.len() == 0,
            app.radio_groups@.len() == 0,
            app.filtered_radio_groups@.len() == 0,
            app.favorites.files@.len() == 0,
            app.favorites.stations@.len() == 0,
            app.state.selected is None,
            app.radio_state.selected is None,
            app.favorites_state.selected is None,
            app.has_sink == has_sink,
            app.last_error == audio_error,
            app.current_track is None,
            !app.is_paused,
            app.loop_mode == LoopMode::Off,
            !app.is_searching,
            app.search_query@.len() == 0,
            !app.show_help,
            !app.show_hidden,
            app.current_version == current_version,
            app.latest_version is None,
            app.notification is None,
            app.add_modal_state is None,
            app.subsonic_clients@.len() == 0,
            app.active_subsonic_client == 0,
            app.subsonic_state.selected is None,
            app.subsonic_view is Servers,
            app.subsonic_artists@.len() == 0,
            app.subsonic_albums@.len() == 0,
            app.subsonic_tracks@.len() == 0,
            app.notification_serial == 0,
            app.state == (ListState { selected: None, offset: 0 }),
            app.radio_state == (ListState { selected: None, offset: 0 }),
            app.favorites_state == (ListState { selected: None, offset: 0 }),
            app.subsonic_state == (ListState { selected: None, offset: 0 }),
            app.results_current(),
    {
        let app = App {
            mode: AppMode::FileSystem,
            favorites: Favorites { files: Vec::new(), stations: Vec::new() },
            current_dir,
            items: Vec::new(),
            state: ListState::default(),
            radio_groups: Vec::new(),
            radio_state: ListState::default(),
            favorites_state: ListState::default(),
            has_sink,
            current_track: None,
            is_paused: false,
            last_error: audio_error,
            show_help: false,
            show_hidden: false,
            loop_mode: LoopMode::Off,
            is_searching: false,
            search_query: String::new(),
            filtered_items: Vec::new(),
            filtered_radio_groups: Vec::new(),
            current_version,
            latest_version: None,
            notification: None,
            notification_serial: 0,
            add_modal_state: None,
            subsonic_clients: Vec::new(),
            active_subsonic_client: 0,
            subsonic_state: ListState::default(),
            subsonic_artists: Vec::new(),
            subsonic_albums: Vec::new(),
            subsonic_tracks: Vec::new(),
            subsonic_view: SubsonicView::Servers,
        };
        assert(app.filtered_radio_groups.deep_view() =~= app.radio_groups.deep_view());
        app
    }

    /// A player in the current directory with an (idle) audio output, for tests.
    pub fn new_test() -> (app: App)
        ensures
            app.mode == AppMode::FileSystem,
            app.current_dir@ == "."@,
            app.items@.len() == 0,
            app.filtered_items@.len() == 0,
            app.radio_groups@.len() == 0,
            app.filtered_radio_groups@.len() == 0,
            app.favorites.files@.len() == 0,
            app.favorites.stations@.len() == 0,
            app.has_sink,
            app.last_error is None,
            app.current_track is None,
            !app.is_paused,
            app.loop_mode == LoopMode::Off,
            !app.is_searching,
            app.search_query@.len() == 0,
            !app.show_help,
            !app.show_hidden,
            app.current_version@ == "0.1.0"@,
            app.latest_version is None,
            app.notification is None,
            app.add_modal_state is None,
            app.subsonic_clients@.len() == 0,
            app.active_subsonic_client == 0,
            app.subsonic_view is Servers,
            app.subsonic_artists@.len() == 0,
            app.subsonic_albums@.len() == 0,
            app.subsonic_tracks@.len() == 0,
            app.notification_serial == 0,
            app.state == (ListState { selected: None, offset: 0 }),
            app.radio_state == (ListState { selected: None, offset: 0 }),
            app.favorites_state == (ListState { selected: None, offset: 0 }),
            app.subsonic_state == (ListState { selected: None, offset: 0 }),
            app.results_current(),
    {
        App::new(owned("."), true, None, owned("0.1.0"))
    }
}

impl App {
    /// The station to write to the configuration on the export key: the selected station
    /// in radio mode, none otherwise.
    pub fn station_to_export(&self) -> (r: Option<RadioStation>)
        ensures
            r == if self.mode == AppMode::Radio {
                station_at(
                    self.filtered_radio_groups@,
                    match self.radio_state.selected {
                        Some(i) => i as int,
                        None => 0,
                    },
                )
            } else {
                None
            },
    {
        if self.mode == AppMode::Radio {
            self.get_selected_station()
        } else {
            None
        }
    }

    /// After exporting a station: confirms it; a failure shows nothing.
    pub fn on_station_exported(&mut self, result: Result<(), String>, name: &str)
        ensures
            match result {
                Ok(()) => old(self).notified(*final(self), "Exported: "@ + name@),
                Err(_) => *final(self) == *old(self),
            },
    {
        match result {
            Ok(()) => {
                let mut msg = owned("Exported: ");
                push_all(&mut msg, name);
                self.notify(msg);
            },
            Err(_) => {},
        }
    }
}

} // verus!
