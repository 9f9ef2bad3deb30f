//! What holds of the player's state over several steps: moving through a list, cycling
//! the loop mode and the views, typing into the dialog, and searching.
use crate::app::{
    filter_groups, filter_paths, filter_stations, last_index, modal_after_key, modal_ok, next_loop_mode,
    path_matches, shown_groups, shown_items, visible_count, wrap_next, wrap_prev, App, AppMode,
    Key, LoopMode, ModalView,
};
use crate::radio::{GroupView, RadioStation};
use crate::text::{lowercase_of, occurs_in};
use vstd::prelude::*;

verus! {

impl App {
    /// The number of rows of the list of the current mode.
    pub open spec fn current_count(self) -> int {
        match self.mode {
            AppMode::FileSystem => self.filtered_items@.len() as int,
            AppMode::Radio => visible_count(self.filtered_radio_groups@),
            AppMode::Favorites => self.favorites_count(),
            AppMode::Subsonic => self.subsonic_count(),
        }
    }

    /// The selected row of the list of the current mode.
    pub open spec fn current_selected(self) -> Option<usize> {
        match self.mode {
            AppMode::FileSystem => self.state.selected,
            AppMode::Radio => self.radio_state.selected,
            AppMode::Favorites => self.favorites_state.selected,
            AppMode::Subsonic => self.subsonic_state.selected,
        }
    }
}

/// Moving down and then up returns to the row one started from, the view otherwise
/// unchanged.
pub proof fn law_previous_undoes_next(app: App)
    requires
        app.current_selected() matches Some(i) && i < app.current_count(),
        app.current_count() <= usize::MAX,
    ensures
        app.after_next().after_previous() == app,
{
    lemma_wrap_round_trip(app.current_selected()->0, app.current_count());
}

proof fn lemma_wrap_round_trip(i: usize, count: int)
    requires
        i < count <= usize::MAX,
    ensures
        wrap_prev(Some(wrap_next(Some(i), count)), count) == i,
        wrap_next(Some(wrap_prev(Some(i), count)), count) == i,
{
}

/// Moving up and then down returns to the row one started from.
pub proof fn law_next_undoes_previous(app: App)
    requires
        app.current_selected() matches Some(i) && i < app.current_count(),
        app.current_count() <= usize::MAX,
    ensures
        app.after_previous().after_next() == app,
{
    lemma_wrap_round_trip(app.current_selected()->0, app.current_count());
}

/// From a row of the list, or from no selection, moving down or up selects a row of the
/// list, wrapping at its ends: below the last row comes the first, above the first comes
/// the last.
pub proof fn law_moves_stay_in_list(app: App)
    requires
        0 < app.current_count() <= usize::MAX,
        app.current_selected() matches Some(i) ==> i < app.current_count(),
    ensures
        app.after_next().current_selected() matches Some(j) && j < app.current_count(),
        app.after_previous().current_selected() matches Some(j) && j < app.current_count(),
        app.current_selected() == Some((app.current_count() - 1) as usize)
            ==> app.after_next().current_selected() == Some(0usize),
        app.current_selected() == Some(0usize)
            ==> app.after_previous().current_selected() == Some((app.current_count() - 1) as usize),
        app.after_next().mode == app.mode,
        app.after_previous().mode == app.mode,
{
}

/// The loop mode comes back after three toggles, through three different modes.
pub proof fn law_loop_mode_cycle(l: LoopMode)
    ensures
        next_loop_mode(next_loop_mode(next_loop_mode(l))) == l,
        next_loop_mode(l) != l,
        next_loop_mode(next_loop_mode(l)) != l,
{
}

/// Switching views visits files, radio, favorites and, when there are servers, the music
/// servers, then comes back: after three switches without servers, four with them.
pub proof fn law_switch_mode_cycle(app: App)
    ensures
        ({
            let a1 = App { mode: app.mode_after_switch(), ..app };
            let a2 = App { mode: a1.mode_after_switch(), ..a1 };
            let a3 = App { mode: a2.mode_after_switch(), ..a2 };
            let a4 = App { mode: a3.mode_after_switch(), ..a3 };
            &&& app.subsonic_clients@.len() == 0 && app.mode != AppMode::Subsonic ==> a3.mode
                == app.mode
            &&& app.subsonic_clients@.len() > 0 ==> a4.mode == app.mode
        }),
{
}

/// Whether the dialog is one of the three forms.
pub open spec fn is_form(m: ModalView) -> bool {
    m is Station || m is Source || m is Server
}

/// In a form, Tab then Shift-Tab (or Down then Up) gives back the same dialog.
pub proof fn law_focus_round_trip(m: ModalView)
    requires
        is_form(m),
        modal_ok(m),
    ensures
        modal_after_key(m, Key::Tab) matches Some(m1) && modal_after_key(m1, Key::BackTab) == Some(m),
        modal_after_key(m, Key::Down) matches Some(m2) && modal_after_key(m2, Key::Up) == Some(m),
{
}

/// Every key leaves the dialog with its fields in place and the focus on one of them.
pub proof fn law_keys_keep_dialog_valid(m: ModalView, key: Key)
    requires
        modal_ok(m),
    ensures
        modal_after_key(m, key) matches Some(m2) ==> modal_ok(m2),
{
}

/// Typing a character and erasing it gives back the same form.
pub proof fn law_backspace_undoes_typing(m: ModalView, c: char)
    requires
        is_form(m),
        modal_ok(m),
    ensures
        modal_after_key(m, Key::Char(c)) matches Some(m1) && modal_after_key(m1, Key::Backspace)
            == Some(m),
{
    match m {
        ModalView::Station { fields, focused, original } => {
            assert(fields[focused].push(c).drop_last() =~= fields[focused]);
            assert(fields.update(focused, fields[focused].push(c)).update(
                focused,
                fields[focused].push(c).drop_last(),
            ) =~= fields);
        },
        ModalView::Source { fields, focused, original } => {
            assert(fields[focused].push(c).drop_last() =~= fields[focused]);
            assert(fields.update(focused, fields[focused].push(c)).update(
                focused,
                fields[focused].push(c).drop_last(),
            ) =~= fields);
        },
        ModalView::Server { fields, focused, original } => {
            assert(fields[focused].push(c).drop_last() =~= fields[focused]);
            assert(fields.update(focused, fields[focused].push(c)).update(
                focused,
                fields[focused].push(c).drop_last(),
            ) =~= fields);
        },
        _ => {},
    }
}

/// With an empty query, the search shows every file and every group.
pub proof fn law_empty_query_shows_all(items: Seq<String>, groups: Seq<GroupView>)
    ensures
        shown_items(items, Seq::empty()) == items,
        shown_groups(groups, Seq::empty()) == groups,
{
}

/// A search shows only files of the list, in their order, each one whose name holds the
/// query, and all such files.
pub proof fn law_search_keeps_matching_files(items: Seq<String>, q: Seq<char>)
    ensures
        forall|k: int|
            0 <= k < filter_paths(items, q).len() ==> items.contains(
                #[trigger] filter_paths(items, q)[k],
            ) && path_matches(filter_paths(items, q)[k]@, q),
        forall|k: int|
            0 <= k < items.len() && path_matches(#[trigger] items[k]@, q) ==> filter_paths(
                items,
                q,
            ).contains(items[k]),
        filter_paths(items, q).len() <= items.len(),
    decreases items.len(),
{
    if items.len() > 0 {
        let rest = items.drop_last();
        law_search_keeps_matching_files(rest, q);
        assert forall|k: int|
            0 <= k < filter_paths(items, q).len() implies items.contains(
                #[trigger] filter_paths(items, q)[k],
            ) && path_matches(filter_paths(items, q)[k]@, q) by {
            if k < filter_paths(rest, q).len() {
                assert(filter_paths(items, q)[k] == filter_paths(rest, q)[k]);
                let x = filter_paths(rest, q)[k];
                assert(rest.contains(x));
                let j = choose|j: int| 0 <= j < rest.len() && rest[j] == x;
                assert(items[j] == x);
            } else {
                assert(items[items.len() - 1] == items.last());
            }
        }
        assert forall|k: int|
            0 <= k < items.len() && path_matches(#[trigger] items[k]@, q) implies filter_paths(
                items,
                q,
            ).contains(items[k]) by {
            if k < items.len() - 1 {
                assert(items[k] == rest[k]);
                let x = items[k];
                assert(filter_paths(rest, q).contains(x));
                let j = choose|j: int| 0 <= j < filter_paths(rest, q).len() && filter_paths(rest, q)[j] == x;
                assert(filter_paths(items, q)[j] == x);
            } else {
                let f = filter_paths(items, q);
                assert(f[f.len() - 1] == items[k]);
            }
        }
    }
}

/// A search over stations keeps exactly the stations whose name holds the query.
pub proof fn law_search_keeps_matching_stations(stations: Seq<RadioStation>, q: Seq<char>)
    ensures
        forall|k: int|
            0 <= k < filter_stations(stations, q).len() ==> stations.contains(
                #[trigger] filter_stations(stations, q)[k],
            ) && occurs_in(lowercase_of(filter_stations(stations, q)[k].name@), q),
        forall|k: int|
            0 <= k < stations.len() && occurs_in(lowercase_of(#[trigger] stations[k].name@), q)
                ==> filter_stations(stations, q).contains(stations[k]),
    decreases stations.len(),
{
    if stations.len() > 0 {
        let rest = stations.drop_last();
        law_search_keeps_matching_stations(rest, q);
        assert forall|k: int|
            0 <= k < filter_stations(stations, q).len() implies stations.contains(
                #[trigger] filter_stations(stations, q)[k],
            ) && occurs_in(lowercase_of(filter_stations(stations, q)[k].name@), q) by {
            if k < filter_stations(rest, q).len() {
                assert(filter_stations(stations, q)[k] == filter_stations(rest, q)[k]);
                let x = filter_stations(rest, q)[k];
                assert(rest.contains(x));
                let j = choose|j: int| 0 <= j < rest.len() && rest[j] == x;
                assert(stations[j] == x);
            } else {
                assert(stations[stations.len() - 1] == stations.last());
            }
        }
        assert forall|k: int|
            0 <= k < stations.len() && occurs_in(lowercase_of(#[trigger] stations[k].name@), q)
                implies filter_stations(stations, q).contains(stations[k]) by {
            if k < stations.len() - 1 {
                assert(stations[k] == rest[k]);
                let x = stations[k];
                assert(filter_stations(rest, q).contains(x));
                let j = choose|j: int|
                    0 <= j < filter_stations(rest, q).len() && filter_stations(rest, q)[j] == x;
                assert(filter_stations(stations, q)[j] == x);
            } else {
                let f = filter_stations(stations, q);
                assert(f[f.len() - 1] == stations[k]);
            }
        }
    }
}

/// A group as a search shows it: its title and expansion, and only its stations whose
/// name holds the lowercased query `q`.
pub open spec fn group_reduced_to(g: GroupView, q: Seq<char>) -> GroupView {
    GroupView { title: g.title, stations: filter_stations(g.stations, q), is_expanded: g.is_expanded }
}

/// A search over radio groups shows each group that has a matching station with all its
/// matching stations (and no others), and shows no other group.
pub proof fn law_search_keeps_matching_groups(groups: Seq<GroupView>, q: Seq<char>)
    ensures
        forall|k: int|
            0 <= k < filter_groups(groups, q).len() ==> exists|i: int|
                0 <= i < groups.len() && #[trigger] filter_groups(groups, q)[k] == group_reduced_to(
                    #[trigger] groups[i],
                    q,
                ) && filter_stations(groups[i].stations, q).len() > 0,
        forall|i: int|
            0 <= i < groups.len() && filter_stations((#[trigger] groups[i]).stations, q).len() > 0
                ==> exists|k: int|
                0 <= k < filter_groups(groups, q).len() && #[trigger] filter_groups(groups, q)[k]
                    == group_reduced_to(groups[i], q),
    decreases groups.len(),
{
    if groups.len() > 0 {
        let rest = groups.drop_last();
        law_search_keeps_matching_groups(rest, q);
        let r = filter_groups(rest, q);
        let f = filter_groups(groups, q);
        assert forall|k: int| 0 <= k < f.len() implies exists|i: int|
            0 <= i < groups.len() && #[trigger] f[k] == group_reduced_to(#[trigger] groups[i], q)
                && filter_stations(groups[i].stations, q).len() > 0 by {
            if k < r.len() {
                assert(f[k] == r[k]);
                let i = choose|i: int|
                    0 <= i < rest.len() && #[trigger] r[k] == group_reduced_to(#[trigger] rest[i], q)
                        && filter_stations(rest[i].stations, q).len() > 0;
                assert(rest[i] == groups[i]);
            } else {
                assert(groups[groups.len() - 1] == groups.last());
                assert(f[k] == group_reduced_to(groups[groups.len() - 1], q));
            }
        }
        assert forall|i: int|
            0 <= i < groups.len() && filter_stations((#[trigger] groups[i]).stations, q).len() > 0
                implies exists|k: int| 0 <= k < f.len() && #[trigger] f[k] == group_reduced_to(
                groups[i],
                q,
            ) by {
            if i < rest.len() {
                assert(rest[i] == groups[i]);
                let k = choose|k: int| 0 <= k < r.len() && #[trigger] r[k] == group_reduced_to(rest[i], q);
                assert(f[k] == r[k]);
            } else {
                assert(groups[i] == groups.last());
                assert(f[r.len() as int] == group_reduced_to(groups[i], q));
            }
        }
    }
}

/// A search over radio groups shows every station whose name holds the query, in a group
/// with the title of its own group, and every station it shows holds the query.
pub proof fn law_search_shows_every_matching_station(groups: Seq<GroupView>, q: Seq<char>)
    ensures
        forall|i: int, j: int|
            0 <= i < groups.len() && 0 <= j < groups[i].stations.len() && occurs_in(
                lowercase_of(#[trigger] groups[i].stations[j].name@),
                q,
            ) ==> exists|k: int|
                0 <= k < filter_groups(groups, q).len() && (#[trigger] filter_groups(groups, q)[k]).title
                    == groups[i].title && filter_groups(groups, q)[k].stations.contains(
                    groups[i].stations[j],
                ),
        forall|k: int, j: int|
            0 <= k < filter_groups(groups, q).len() && 0 <= j < filter_groups(
                groups,
                q,
            )[k].stations.len() ==> occurs_in(
                lowercase_of((#[trigger] filter_groups(groups, q)[k].stations[j]).name@),
                q,
            ),
{
    law_search_keeps_matching_groups(groups, q);
    let f = filter_groups(groups, q);
    assert forall|i: int, j: int|
        0 <= i < groups.len() && 0 <= j < groups[i].stations.len() && occurs_in(
            lowercase_of(#[trigger] groups[i].stations[j].name@),
            q,
        ) implies exists|k: int|
        0 <= k < f.len() && (#[trigger] f[k]).title == groups[i].title && f[k].stations.contains(
            groups[i].stations[j],
        ) by {
        crate::app_laws::law_search_keeps_matching_stations(groups[i].stations, q);
        let fs = filter_stations(groups[i].stations, q);
        assert(fs.contains(groups[i].stations[j]));
        assert(fs.len() > 0);
        let k = choose|k: int| 0 <= k < f.len() && #[trigger] f[k] == group_reduced_to(groups[i], q);
        assert(f[k].stations == fs);
    }
    assert forall|k: int, j: int|
        0 <= k < f.len() && 0 <= j < f[k].stations.len() implies occurs_in(
        lowercase_of((#[trigger] f[k].stations[j]).name@),
        q,
    ) by {
        let i = choose|i: int|
            0 <= i < groups.len() && #[trigger] f[k] == group_reduced_to(#[trigger] groups[i], q)
                && filter_stations(groups[i].stations, q).len() > 0;
        crate::app_laws::law_search_keeps_matching_stations(groups[i].stations, q);
        assert(f[k].stations[j] == filter_stations(groups[i].stations, q)[j]);
    }
}

} // verus!
