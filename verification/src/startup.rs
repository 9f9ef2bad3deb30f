//! The command line and what the player does with it on start: the mode to open in, and
//! the file or directory to play.
use crate::app::{selecting, App, AppMode, LoopMode};
use crate::listing::DirEntry;
use crate::text::push_all;
use vstd::prelude::*;

verus! {

/// The command line's options.
#[derive(Debug)]
pub struct Args {
    /// The volume to start at, in percent.
    pub volume: Option<u8>,
    /// Start in radio mode.
    pub radio: bool,
    /// The station configuration file to read.
    pub station_file: Option<String>,
    /// Download the station lists again.
    pub invalidate_cache: bool,
    /// The file or directory to play, in words.
    pub path: Vec<String>,
}

/// The terminal as the source of the player's key events; reading them is the caller's part.
#[derive(Debug, Clone, Copy)]
pub struct CrosstermEvents;

/// The words joined by single spaces.
pub open spec fn joined(words: Seq<String>) -> Seq<char>
    decreases words.len(),
{
    if words.len() == 0 {
        Seq::empty()
    } else if words.len() == 1 {
        words[0]@
    } else {
        joined(words.drop_last()) + " "@ + words.last()@
    }
}

impl Args {
    /// The path to play: the words of the path argument joined by spaces (a path with
    /// spaces may come as several words); none without them.
    pub fn startup_path(&self) -> (r: Option<String>)
        ensures
            r is None <==> self.path@.len() == 0,
            r matches Some(p) ==> p@ == joined(self.path@),
    {
        if self.path.len() == 0 {
            return None;
        }
        let mut s = String::new();
        push_all(&mut s, self.path[0].as_str());
        let mut k: usize = 1;
        assert(self.path@.take(1).drop_last() =~= Seq::<String>::empty());
        while k < self.path.len()
            invariant
                1 <= k <= self.path@.len(),
                s@ == joined(self.path@.take(k as int)),
            decreases self.path@.len() - k,
        {
            push_all(&mut s, " ");
            push_all(&mut s, self.path[k].as_str());
            assert(self.path@.take(k + 1).drop_last() =~= self.path@.take(k as int));
            assert(s@ =~= joined(self.path@.take(k + 1)));
            k = k + 1;
        }
        assert(self.path@.take(self.path@.len() as int) =~= self.path@);
        Some(s)
    }
}

impl App {
    /// Opens in radio mode when asked.
    pub fn apply_radio_arg(&mut self, radio: bool)
        ensures
            *final(self) == if radio {
                App { mode: AppMode::Radio, ..*old(self) }
            } else {
                *old(self)
            },
    {
        if radio {
            self.mode = AppMode::Radio;
        }
    }

    /// Lists the directory `dir` given on the command line and plays it through: the
    /// loop mode goes on through the list.
    pub fn open_startup_dir(&mut self, dir: String, entries: Vec<DirEntry>)
        ensures
            final(self).current_dir == dir,
            final(self).loop_mode == LoopMode::All,
            final(self).items@.map_values(|p: String| p@) == crate::listing::listing(
                dir@,
                entries@,
                old(self).show_hidden,
            ),
            final(self).results_current(),
            final(self).state.selected == Some(0usize),
    {
        self.current_dir = dir;
        self.load_directory(entries);
        self.loop_mode = LoopMode::All;
    }

    /// Plays the first row of the file list that is a file (`is_file` tells which are) and
    /// selects it; returns its path, or none when there is no file.
    pub fn play_first_file(&mut self, is_file: &Vec<bool>) -> (r: Option<String>)
        requires
            is_file@.len() == old(self).items@.len(),
        ensures
            match r {
                Some(p) => exists|i: int|
                    0 <= i < is_file@.len() && is_file@[i] && (forall|j: int|
                        0 <= j < i ==> !is_file@[j]) && p == old(self).items@[i] && (App {
                        state: selecting(old(self).state, Some(i as usize)),
                        ..*old(self)
                    }).started_playing(*final(self), p),
                None => (forall|j: int| 0 <= j < is_file@.len() ==> !is_file@[j]) && *final(self)
                    == *old(self),
            },
    {
        let mut i: usize = 0;
        while i < is_file.len()
            invariant
                i <= is_file@.len(),
                is_file@.len() == self.items@.len(),
                *self == *old(self),
                forall|j: int| 0 <= j < i ==> !is_file@[j],
            decreases is_file@.len() - i,
        {
            if is_file[i] {
                let p = self.items[i].clone();
                let ghost before = *self;
                self.state.select(Some(i));
                self.play_file(p.clone());
                assert(0 <= i < is_file@.len() && is_file@[i as int] && (forall|j: int|
                    0 <= j < i ==> !is_file@[j]) && p == old(self).items@[i as int] && (App {
                    state: selecting(old(self).state, Some(i)),
                    ..*old(self)
                }).started_playing(*self, p));
                return Some(p);
            }
            i = i + 1;
        }
        None
    }

    /// Plays the file given on the command line and selects its row when it is listed.
    pub fn open_startup_file(&mut self, path: String)
        ensures
            ({
                let pos = crate::app::track_position(old(self).items@, path@);
                let base = match pos {
                    Some(i) => App { state: selecting(old(self).state, Some(i as usize)), ..*old(self) },
                    None => *old(self),
                };
                base.started_playing(*final(self), path)
            }),
    {
        let found = crate::app::find_track(&self.items, &path);
        self.play_file(path.clone());
        match found {
            Some(i) => self.state.select(Some(i)),
            None => {},
        }
    }
}

/// The newer release a published tag names: the tag without its leading `v`s, when that
/// differs from the running version.
pub open spec fn newer_release_spec(tag: Seq<char>, current: Seq<char>) -> Option<Seq<char>> {
    let latest = crate::text::strip_leading(tag, 'v');
    if latest == current {
        None
    } else {
        Some(latest)
    }
}

/// The version to announce for the latest release tag `tag_name`, if it is not the running one.
pub fn newer_release(tag_name: &str, current_version: &str) -> (r: Option<String>)
    ensures
        crate::text::opt_chars(r) == newer_release_spec(tag_name@, current_version@),
{
    let mut latest = String::new();
    crate::text::push_strip_leading(&mut latest, tag_name, 'v');
    assert(latest@ =~= crate::text::strip_leading(tag_name@, 'v'));
    if crate::text::same_text(latest.as_str(), current_version) {
        None
    } else {
        Some(latest)
    }
}

} // verus!
