//! The user's favorite files and stations.
use crate::paths::{same_path, same_path_spec};
use crate::radio::RadioStation;
use vstd::prelude::*;

verus! {

/// Favorite files (by path) and favorite stations (identified by their stream address).
#[derive(Debug)]
pub struct Favorites {
    pub files: Vec<String>,
    pub stations: Vec<RadioStation>,
}

/// The first index at which `files` holds the path `p`, compared as paths.
pub open spec fn file_position(files: Seq<String>, p: Seq<char>) -> Option<int>
    decreases files.len(),
{
    if files.len() == 0 {
        None
    } else {
        match file_position(files.drop_last(), p) {
            Some(i) => Some(i),
            None => if same_path_spec(files.last()@, p) {
                Some(files.len() - 1)
            } else {
                None
            },
        }
    }
}

/// The first index of a station whose address is `url`.
pub open spec fn station_position(stations: Seq<RadioStation>, url: Seq<char>) -> Option<int>
    decreases stations.len(),
{
    if stations.len() == 0 {
        None
    } else {
        match station_position(stations.drop_last(), url) {
            Some(i) => Some(i),
            None => if stations.last().url@ == url {
                Some(stations.len() - 1)
            } else {
                None
            },
        }
    }
}

/// The file list after toggling `p`: its first occurrence removed, or `p` appended.
pub open spec fn toggled_files(files: Seq<String>, p: String) -> Seq<String> {
    match file_position(files, p@) {
        Some(i) => files.remove(i),
        None => files.push(p),
    }
}

/// The station list after toggling `s`: the first station with its address removed,
/// or `s` appended.
pub open spec fn toggled_stations(stations: Seq<RadioStation>, s: RadioStation) -> Seq<
    RadioStation,
> {
    match station_position(stations, s.url@) {
        Some(i) => stations.remove(i),
        None => stations.push(s),
    }
}

/// `files` holds the path `p`, compared as paths.
pub open spec fn has_file(files: Seq<String>, p: Seq<char>) -> bool {
    exists|i: int| 0 <= i < files.len() && same_path_spec(#[trigger] files[i]@, p)
}

/// Some station in `stations` has the address `url`.
pub open spec fn has_station_url(stations: Seq<RadioStation>, url: Seq<char>) -> bool {
    exists|i: int| 0 <= i < stations.len() && #[trigger] stations[i].url@ == url
}

/// No two stations share an address.
pub open spec fn distinct_urls(stations: Seq<RadioStation>) -> bool {
    forall|i: int, j: int|
        0 <= i < stations.len() && 0 <= j < stations.len() && i != j ==> #[trigger] stations[i].url@
            != #[trigger] stations[j].url@
}

pub proof fn lemma_file_position(files: Seq<String>, p: Seq<char>)
    ensures
        file_position(files, p) matches Some(i) ==> 0 <= i < files.len() && same_path_spec(files[i]@, p)
            && forall|k: int| 0 <= k < i ==> !same_path_spec(files[k]@, p),
        file_position(files, p) is None <==> !has_file(files, p),
    decreases files.len(),
{
    if files.len() > 0 {
        lemma_file_position(files.drop_last(), p);
        if file_position(files.drop_last(), p) is None {
            assert forall|k: int| 0 <= k < files.len() - 1 implies !same_path_spec(files[k]@, p) by {
                assert(files.drop_last()[k] == files[k]);
                if same_path_spec(files[k]@, p) {
                    assert(same_path_spec(files.drop_last()[k]@, p));
                }
            }
            if has_file(files, p) {
                let k = choose|k: int| 0 <= k < files.len() && same_path_spec(#[trigger] files[k]@, p);
                if k < files.len() - 1 {
                    assert(files.drop_last()[k] == files[k]);
                }
            }
        } else {
            let i = file_position(files.drop_last(), p)->0;
            assert(files.drop_last()[i] == files[i]);
            assert forall|k: int| 0 <= k < i implies !same_path_spec(files[k]@, p) by {
                assert(files.drop_last()[k] == files[k]);
            }
            assert(has_file(files, p));
        }
    }
}

pub proof fn lemma_station_position(stations: Seq<RadioStation>, url: Seq<char>)
    ensures
        station_position(stations, url) matches Some(i) ==> 0 <= i < stations.len()
            && stations[i].url@ == url && forall|k: int| 0 <= k < i ==> stations[k].url@ != url,
        station_position(stations, url) is None <==> !has_station_url(stations, url),
    decreases stations.len(),
{
    if stations.len() > 0 {
        lemma_station_position(stations.drop_last(), url);
        if station_position(stations.drop_last(), url) is None {
            assert forall|k: int| 0 <= k < stations.len() - 1 implies stations[k].url@ != url by {
                assert(stations.drop_last()[k] == stations[k]);
                if stations[k].url@ == url {
                    assert(stations.drop_last()[k].url@ == url);
                }
            }
            if has_station_url(stations, url) {
                let k = choose|k: int| 0 <= k < stations.len() && #[trigger] stations[k].url@ == url;
                if k < stations.len() - 1 {
                    assert(stations.drop_last()[k] == stations[k]);
                }
            }
        } else {
            let i = station_position(stations.drop_last(), url)->0;
            assert(stations.drop_last()[i] == stations[i]);
            assert forall|k: int| 0 <= k < i implies stations[k].url@ != url by {
                assert(stations.drop_last()[k] == stations[k]);
            }
            assert(has_station_url(stations, url));
        }
    }
}

impl Favorites {
    /// Adds `path` to the favorite files, or removes the first favorite that is the same
    /// path.
    pub fn toggle_file(&mut self, path: String)
        ensures
            final(self).files@ == toggled_files(old(self).files@, path),
            final(self).stations@ == old(self).stations@,
    {
        let mut i: usize = 0;
        while i < self.files.len()
            invariant
                i <= self.files@.len(),
                self.files@ == old(self).files@,
                self.stations@ == old(self).stations@,
                forall|k: int| 0 <= k < i ==> !same_path_spec(self.files@[k]@, path@),
            decreases self.files@.len() - i,
        {
            if same_path(self.files[i].as_str(), path.as_str()) {
                proof {
                    lemma_file_position(self.files@, path@);
                    if let Some(j) = file_position(self.files@, path@) {
                        if j < i {
                            assert(!same_path_spec(self.files@[j]@, path@));
                        }
                        if j > i {
                            assert(!same_path_spec(self.files@[i as int]@, path@));
                        }
                    }
                }
                self.files.remove(i);
                return;
            }
            i = i + 1;
        }
        proof {
            lemma_file_position(self.files@, path@);
            if let Some(j) = file_position(self.files@, path@) {
                assert(same_path_spec(self.files@[j]@, path@));
            }
        }
        self.files.push(path);
    }

    /// Adds `station` to the favorite stations, or removes the favorite with the same
    /// stream address if there is one.
    pub fn toggle_station(&mut self, station: RadioStation)
        ensures
            final(self).stations@ == toggled_stations(old(self).stations@, station),
            final(self).files@ == old(self).files@,
    {
        let mut i: usize = 0;
        while i < self.stations.len()
            invariant
                i <= self.stations@.len(),
                self.files@ == old(self).files@,
                self.stations@ == old(self).stations@,
                forall|k: int| 0 <= k < i ==> self.stations@[k].url@ != station.url@,
            decreases self.stations@.len() - i,
        {
            if self.stations[i].url == station.url {
                proof {
                    lemma_station_position(self.stations@, station.url@);
                    if let Some(j) = station_position(self.stations@, station.url@) {
                        if j < i {
                            assert(self.stations@[j].url@ != station.url@);
                        }
                        if j > i {
                            assert(self.stations@[i as int].url@ != station.url@);
                        }
                    }
                }
                self.stations.remove(i);
                return;
            }
            i = i + 1;
        }
        proof {
            lemma_station_position(self.stations@, station.url@);
            if let Some(j) = station_position(self.stations@, station.url@) {
                assert(self.stations@[j].url@ == station.url@);
                assert(j < self.stations@.len());
            }
        }
        self.stations.push(station);
    }

    /// Whether `path` is a favorite file.
    pub fn is_favorite_file(&self, path: &String) -> (b: bool)
        ensures
            b == has_file(self.files@, path@),
    {
        let mut i: usize = 0;
        while i < self.files.len()
            invariant
                i <= self.files@.len(),
                forall|k: int| 0 <= k < i ==> !same_path_spec(self.files@[k]@, path@),
            decreases self.files@.len() - i,
        {
            if same_path(self.files[i].as_str(), path.as_str()) {
                assert(same_path_spec(self.files@[i as int]@, path@));
                return true;
            }
            i = i + 1;
        }
        false
    }

    /// Whether a favorite station has the stream address of `station`.
    pub fn is_favorite_station(&self, station: &RadioStation) -> (b: bool)
        ensures
            b == has_station_url(self.stations@, station.url@),
    {
        let mut i: usize = 0;
        while i < self.stations.len()
            invariant
                i <= self.stations@.len(),
                forall|k: int| 0 <= k < i ==> self.stations@[k].url@ != station.url@,
            decreases self.stations@.len() - i,
        {
            if self.stations[i].url == station.url {
                assert(self.stations@[i as int].url@ == station.url@);
                return true;
            }
            i = i + 1;
        }
        false
    }
}

} // verus!

verus! {

/// No path occurs twice.
pub open spec fn distinct_paths(files: Seq<String>) -> bool {
    forall|i: int, j: int|
        0 <= i < files.len() && 0 <= j < files.len() && i != j ==> !same_path_spec(
            #[trigger] files[i]@,
            #[trigger] files[j]@,
        )
}

/// Toggling a file makes it a favorite exactly when it was not one, as long as no path
/// is listed twice.
pub proof fn law_toggle_file_flips(files: Seq<String>, p: String)
    requires
        distinct_paths(files),
    ensures
        has_file(toggled_files(files, p), p@) == !has_file(files, p@),
{
    lemma_file_position(files, p@);
    let t = toggled_files(files, p);
    if let Some(i) = file_position(files, p@) {
        if has_file(t, p@) {
            let k = choose|k: int| 0 <= k < t.len() && same_path_spec(#[trigger] t[k]@, p@);
            if k < i {
                assert(t[k] == files[k]);
            } else {
                assert(t[k] == files[k + 1]);
            }
        }
    } else {
        assert(t[files.len() as int] == p);
    }
}

/// Toggling a file keeps every path listed at most once.
pub proof fn law_toggle_file_keeps_distinct(files: Seq<String>, p: String)
    requires
        distinct_paths(files),
    ensures
        distinct_paths(toggled_files(files, p)),
{
    lemma_file_position(files, p@);
    let t = toggled_files(files, p);
    if let Some(i) = file_position(files, p@) {
        assert forall|a: int, b: int|
            0 <= a < t.len() && 0 <= b < t.len() && a != b implies !same_path_spec(
                #[trigger] t[a]@,
                #[trigger] t[b]@,
            ) by {
            let a2 = if a < i {
                a
            } else {
                a + 1
            };
            let b2 = if b < i {
                b
            } else {
                b + 1
            };
            assert(t[a] == files[a2]);
            assert(t[b] == files[b2]);
        }
    } else {
        assert forall|a: int, b: int|
            0 <= a < t.len() && 0 <= b < t.len() && a != b implies !same_path_spec(
                #[trigger] t[a]@,
                #[trigger] t[b]@,
            ) by {
            if a < files.len() && b < files.len() {
                assert(t[a] == files[a]);
                assert(t[b] == files[b]);
            } else if a < files.len() {
                assert(t[a] == files[a]);
            } else if b < files.len() {
                assert(t[b] == files[b]);
            }
        }
    }
}

/// Toggling a file that is not a favorite twice gives back the same list.
pub proof fn law_toggle_file_twice(files: Seq<String>, p: String)
    requires
        !has_file(files, p@),
    ensures
        toggled_files(toggled_files(files, p), p) == files,
{
    lemma_file_position(files, p@);
    let t = files.push(p);
    lemma_file_position(t, p@);
    let i = file_position(t, p@)->0;
    if i < files.len() {
        assert(t[i] == files[i]);
    }
    assert(t.remove(files.len() as int) =~= files);
}

/// Toggling a station makes its address a favorite exactly when it was not one, as long
/// as no address is listed twice.
pub proof fn law_toggle_station_flips(stations: Seq<RadioStation>, s: RadioStation)
    requires
        distinct_urls(stations),
    ensures
        has_station_url(toggled_stations(stations, s), s.url@) == !has_station_url(
            stations,
            s.url@,
        ),
{
    lemma_station_position(stations, s.url@);
    let t = toggled_stations(stations, s);
    if let Some(i) = station_position(stations, s.url@) {
        if has_station_url(t, s.url@) {
            let k = choose|k: int| 0 <= k < t.len() && #[trigger] t[k].url@ == s.url@;
            if k < i {
                assert(t[k] == stations[k]);
            } else {
                assert(t[k] == stations[k + 1]);
            }
        }
    } else {
        assert(t[stations.len() as int] == s);
    }
}

/// Toggling a station keeps every address listed at most once.
pub proof fn law_toggle_station_keeps_distinct(stations: Seq<RadioStation>, s: RadioStation)
    requires
        distinct_urls(stations),
    ensures
        distinct_urls(toggled_stations(stations, s)),
{
    lemma_station_position(stations, s.url@);
    let t = toggled_stations(stations, s);
    if let Some(i) = station_position(stations, s.url@) {
        assert forall|a: int, b: int|
            0 <= a < t.len() && 0 <= b < t.len() && a != b implies #[trigger] t[a].url@
            != #[trigger] t[b].url@ by {
            let a2 = if a < i {
                a
            } else {
                a + 1
            };
            let b2 = if b < i {
                b
            } else {
                b + 1
            };
            assert(t[a] == stations[a2]);
            assert(t[b] == stations[b2]);
        }
    } else {
        assert forall|a: int, b: int|
            0 <= a < t.len() && 0 <= b < t.len() && a != b implies #[trigger] t[a].url@
            != #[trigger] t[b].url@ by {
            if a < stations.len() && b < stations.len() {
                assert(t[a] == stations[a]);
                assert(t[b] == stations[b]);
            } else if a < stations.len() {
                assert(t[a] == stations[a]);
            } else if b < stations.len() {
                assert(t[b] == stations[b]);
            }
        }
    }
}

/// Toggling a station whose address is not a favorite twice gives back the same list.
pub proof fn law_toggle_station_twice(stations: Seq<RadioStation>, s: RadioStation)
    requires
        !has_station_url(stations, s.url@),
    ensures
        toggled_stations(toggled_stations(stations, s), s) == stations,
{
    lemma_station_position(stations, s.url@);
    let t = stations.push(s);
    lemma_station_position(t, s.url@);
    let i = station_position(t, s.url@)->0;
    if i < stations.len() {
        assert(t[i] == stations[i]);
    }
    assert(t.remove(stations.len() as int) =~= stations);
}

} // verus!
