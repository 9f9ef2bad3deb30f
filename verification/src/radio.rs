//! Radio stations: the station model, playlist files (PLS and M3U), and the mapping of
//! a source's JSON document onto stations.
use crate::text::{
    chars_of, has_prefix, lemma_split_lines_step, owned, split_lines, starts_with_at, string_of, trim,
    trim_bounds,
};
pub use crate::config::{IndividualStationConfig, RadioConfig, RadioSourceConfig, StationMapping};
use vstd::prelude::*;

verus! {

/// A named group of stations shown as one collapsible header in the radio list.
#[derive(Debug)]
pub struct RadioGroup {
    pub title: String,
    pub stations: Vec<RadioStation>,
    pub is_expanded: bool,
}

/// One internet radio station.
#[derive(Debug, PartialEq)]
pub struct RadioStation {
    pub name: String,
    pub url: String,
    pub description: Option<String>,
    pub homepage: Option<String>,
    pub tags: Option<String>,
    pub last_playing: Option<String>,
}

impl Clone for RadioStation {
    fn clone(&self) -> (r: Self)
        ensures
            r == *self,
    {
        RadioStation {
            name: self.name.clone(),
            url: self.url.clone(),
            description: self.description.clone(),
            homepage: self.homepage.clone(),
            tags: self.tags.clone(),
            last_playing: self.last_playing.clone(),
        }
    }
}

/// What a group holds, with its stations as a sequence.
pub struct GroupView {
    pub title: String,
    pub stations: Seq<RadioStation>,
    pub is_expanded: bool,
}

impl DeepView for RadioGroup {
    type V = GroupView;

    open spec fn deep_view(&self) -> GroupView {
        GroupView { title: self.title, stations: self.stations@, is_expanded: self.is_expanded }
    }
}

impl Clone for RadioGroup {
    fn clone(&self) -> (r: Self)
        ensures
            r.deep_view() == self.deep_view(),
    {
        let stations = self.stations.clone();
        assert(stations@ =~= self.stations@);
        RadioGroup { title: self.title.clone(), stations, is_expanded: self.is_expanded }
    }
}

/// Why no stream address could be taken from a playlist.
#[derive(Debug, Clone, Copy, PartialEq, Eq, Structural)]
pub enum PlaylistError {
    /// No `File1=` line in a PLS document.
    NoStreamUrlInPls,
    /// No line in an M3U document that is neither empty nor a `#` comment.
    NoStreamUrlInM3u,
    /// The address serves audio itself, not a playlist.
    AudioStream,
}

impl PlaylistError {
    pub open spec fn message_spec(self) -> Seq<char> {
        match self {
            PlaylistError::NoStreamUrlInPls => "No stream URL found in PLS"@,
            PlaylistError::NoStreamUrlInM3u => "No stream URL found in M3U"@,
            PlaylistError::AudioStream => "URL is an audio stream, not a playlist file"@,
        }
    }

    /// The error's text.
    pub fn message(&self) -> (s: String)
        ensures
            s@ == self.message_spec(),
    {
        match self {
            PlaylistError::NoStreamUrlInPls => owned("No stream URL found in PLS"),
            PlaylistError::NoStreamUrlInM3u => owned("No stream URL found in M3U"),
            PlaylistError::AudioStream => owned("URL is an audio stream, not a playlist file"),
        }
    }
}

/// The stream address a PLS line names: the trimmed line after its `File1=` prefix.
pub open spec fn pls_entry(line: Seq<char>) -> Option<Seq<char>> {
    let t = trim(line);
    if has_prefix(t, "File1="@) {
        Some(t.subrange("File1="@.len() as int, t.len() as int))
    } else {
        None
    }
}

/// The stream address an M3U line names: the trimmed line, unless it is empty or a comment.
pub open spec fn m3u_entry(line: Seq<char>) -> Option<Seq<char>> {
    let t = trim(line);
    if t.len() > 0 && t[0] != '#' {
        Some(t)
    } else {
        None
    }
}

pub open spec fn line_entry(line: Seq<char>, m3u: bool) -> Option<Seq<char>> {
    if m3u {
        m3u_entry(line)
    } else {
        pls_entry(line)
    }
}

/// The entry of the first line that has one.
pub open spec fn first_entry(lines: Seq<Seq<char>>, m3u: bool) -> Option<Seq<char>>
    decreases lines.len(),
{
    if lines.len() == 0 {
        None
    } else {
        match first_entry(lines.drop_last(), m3u) {
            Some(u) => Some(u),
            None => line_entry(lines.last(), m3u),
        }
    }
}

/// The stream address of a PLS document: that of its first `File1=` line.
pub open spec fn pls_stream_url(content: Seq<char>) -> Option<Seq<char>> {
    first_entry(split_lines(content), false)
}

/// The stream address of an M3U document: its first line that is neither blank nor a comment.
pub open spec fn m3u_stream_url(content: Seq<char>) -> Option<Seq<char>> {
    first_entry(split_lines(content), true)
}

/// The bounds in `v` of the entry of the line `v[lo..hi]`.
fn line_entry_bounds(v: &Vec<char>, lo: usize, hi: usize, m3u: bool, prefix: &Vec<char>) -> (r:
    Option<(usize, usize)>)
    requires
        lo <= hi <= v@.len(),
        prefix@ == "File1="@,
    ensures
        r is Some <==> line_entry(v@.subrange(lo as int, hi as int), m3u) is Some,
        r matches Some(b) ==> b.0 <= b.1 <= v@.len() && v@.subrange(b.0 as int, b.1 as int)
            == line_entry(v@.subrange(lo as int, hi as int), m3u)->0,
{
    let (a, b) = trim_bounds(v, lo, hi);
    let ghost t = trim(v@.subrange(lo as int, hi as int));
    if m3u {
        if a < b && v[a] != '#' {
            Some((a, b))
        } else {
            None
        }
    } else {
        if starts_with_at(v, a, b, prefix) {
            assert(v@.subrange(a + prefix@.len(), b as int) =~= t.subrange(
                prefix@.len() as int,
                t.len() as int,
            ));
            Some((a + prefix.len(), b))
        } else {
            None
        }
    }
}

/// The first line entry of `content`, scanning it line by line.
fn scan_playlist(content: &str, m3u: bool) -> (r: Option<String>)
    ensures
        r is Some <==> first_entry(split_lines(content@), m3u) is Some,
        r matches Some(u) ==> u@ == first_entry(split_lines(content@), m3u)->0,
{
    let v = chars_of(content);
    let prefix = chars_of("File1=");
    let mut ls: usize = 0;
    let mut found: Option<(usize, usize)> = None;
    let ghost mut done: Seq<Seq<char>> = Seq::empty();
    let mut i: usize = 0;
    assert(v@.take(0) =~= Seq::<char>::empty());
    assert(v@.subrange(0, 0) =~= Seq::<char>::empty());
    assert(done.push(v@.subrange(0, 0)) =~= seq![Seq::<char>::empty()]);
    while i < v.len()
        invariant
            ls <= i <= v@.len(),
            prefix@ == "File1="@,
            split_lines(v@.take(i as int)) == done.push(v@.subrange(ls as int, i as int)),
            found is Some <==> first_entry(done, m3u) is Some,
            found matches Some(b) ==> b.0 <= b.1 <= v@.len() && v@.subrange(b.0 as int, b.1 as int)
                == first_entry(done, m3u)->0,
        decreases v@.len() - i,
    {
        proof {
            lemma_split_lines_step(v@, i as int, ls as int, done);
        }
        if v[i] == '\n' {
            let ghost line = v@.subrange(ls as int, i as int);
            if found.is_none() {
                found = line_entry_bounds(&v, ls, i, m3u, &prefix);
            }
            proof {
                assert(done.push(line).drop_last() =~= done);
                done = done.push(line);
            }
            ls = i + 1;
        }
        i = i + 1;
    }
    let ghost line = v@.subrange(ls as int, v@.len() as int);
    if found.is_none() {
        found = line_entry_bounds(&v, ls, v.len(), m3u, &prefix);
    }
    proof {
        assert(v@.take(v@.len() as int) =~= v@);
        assert(done.push(line).drop_last() =~= done);
    }
    match found {
        Some((a, b)) => Some(string_of(&v, a, b)),
        None => None,
    }
}

/// The stream address in a PLS playlist: the value of its first `File1=` line.
pub fn parse_pls(content: &str) -> (r: Result<String, PlaylistError>)
    ensures
        match r {
            Ok(u) => pls_stream_url(content@) == Some(u@),
            Err(e) => pls_stream_url(content@) is None && e == PlaylistError::NoStreamUrlInPls,
        },
{
    match scan_playlist(content, false) {
        Some(u) => Ok(u),
        None => Err(PlaylistError::NoStreamUrlInPls),
    }
}

/// The stream address in an M3U playlist: its first line that is neither blank nor a comment.
pub fn parse_m3u(content: &str) -> (r: Result<String, PlaylistError>)
    ensures
        match r {
            Ok(u) => m3u_stream_url(content@) == Some(u@),
            Err(e) => m3u_stream_url(content@) is None && e == PlaylistError::NoStreamUrlInM3u,
        },
{
    match scan_playlist(content, true) {
        Some(u) => Ok(u),
        None => Err(PlaylistError::NoStreamUrlInM3u),
    }
}

} // verus!
