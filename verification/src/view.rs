//! What the screen shows, as text and numbers: labels of rows and of the status line, the
//! window of the radio list that fits, and the sizes of the visualizer bars and of the
//! notification box. Drawing them is the caller's part.
use crate::app::{radio_row_at, row_at, row_model, LoopMode, RadioRow, RowRef};
use crate::paths::{ends_with_parent, file_name, path_ends_with_parent, path_file_name};
use crate::radio::{RadioGroup, RadioStation};
use crate::text::{decimal, opt_chars, owned, push_all, push_decimal, push_padded, zero_padded};
use vstd::prelude::*;

verus! {

/// Minutes and seconds, each at least two digits: `MM:SS`.
pub open spec fn clock(secs: u64) -> Seq<char> {
    zero_padded((secs / 60) as nat, 2) + ":"@ + zero_padded((secs % 60) as nat, 2)
}

/// The time shown under the status line: elapsed, and the length when it is known
/// (more than zero seconds).
pub open spec fn time_text(elapsed: u64, total: u64) -> Seq<char> {
    if total > 0 {
        clock(elapsed) + " / "@ + clock(total)
    } else {
        clock(elapsed)
    }
}

fn push_clock(s: &mut String, secs: u64)
    ensures
        final(s)@ == old(s)@ + clock(secs),
{
    let ghost start = s@;
    push_padded(s, secs / 60, 2);
    push_all(s, ":");
    push_padded(s, secs % 60, 2);
    assert(s@ =~= start + clock(secs));
}

/// The elapsed time, and the length when it is known, in whole seconds.
pub fn time_label(elapsed: u64, total: u64) -> (s: String)
    ensures
        s@ == time_text(elapsed, total),
{
    let mut s = String::new();
    push_clock(&mut s, elapsed);
    if total > 0 {
        push_all(&mut s, " / ");
        push_clock(&mut s, total);
    }
    assert(s@ =~= time_text(elapsed, total));
    s
}

/// The loop mode as the status line names it.
pub open spec fn loop_text(l: LoopMode) -> Seq<char> {
    match l {
        LoopMode::Off => "Loop: Off"@,
        LoopMode::Track => "Loop: Track"@,
        LoopMode::All => "Loop: All"@,
    }
}

pub fn loop_label(l: LoopMode) -> (s: String)
    ensures
        s@ == loop_text(l),
{
    match l {
        LoopMode::Off => owned("Loop: Off"),
        LoopMode::Track => owned("Loop: Track"),
        LoopMode::All => owned("Loop: All"),
    }
}

/// The name shown for a track: its file name, empty when it has none.
pub open spec fn track_name(path: Seq<char>) -> Seq<char> {
    match path_file_name(path) {
        Some(n) => n,
        None => Seq::empty(),
    }
}

/// The status line and the label of the progress bar: an error comes first, then a
/// stream being loaded, then the track playing or paused with the volume in percent and
/// the loop mode (the label the elapsed time), else nothing playing.
pub open spec fn status_text(
    error: Option<Seq<char>>,
    loading: bool,
    track: Option<Seq<char>>,
    paused: bool,
    volume_percent: u64,
    l: LoopMode,
    elapsed: u64,
    total: u64,
) -> (Seq<char>, Seq<char>) {
    match error {
        Some(e) => ("Error: "@ + e, Seq::empty()),
        None => if loading {
            ("Loading..."@, "Loading..."@)
        } else {
            match track {
                Some(t) => (
                    (if paused {
                        "Paused"@
                    } else {
                        "Playing"@
                    }) + ": "@ + track_name(t) + " (Vol: "@ + decimal(volume_percent as nat)
                        + "%) ["@ + loop_text(l) + "]"@,
                    time_text(elapsed, total),
                ),
                None => ("Playing: <Nothing>"@, Seq::empty()),
            }
        },
    }
}

/// The status line and the label of the progress bar.
pub fn status_labels(
    error: &Option<String>,
    loading: bool,
    track: &Option<String>,
    paused: bool,
    volume_percent: u64,
    l: LoopMode,
    elapsed: u64,
    total: u64,
) -> (r: (String, String))
    ensures
        (r.0@, r.1@) == status_text(
            opt_chars(*error),
            loading,
            opt_chars(*track),
            paused,
            volume_percent,
            l,
            elapsed,
            total,
        ),
{
    match error {
        Some(e) => {
            let mut s = owned("Error: ");
            push_all(&mut s, e.as_str());
            return (s, String::new());
        },
        None => {},
    }
    if loading {
        return (owned("Loading..."), owned("Loading..."));
    }
    match track {
        Some(t) => {
            let mut s = if paused {
                owned("Paused")
            } else {
                owned("Playing")
            };
            push_all(&mut s, ": ");
            match file_name(t.as_str()) {
                Some(n) => push_all(&mut s, n.as_str()),
                None => {},
            }
            push_all(&mut s, " (Vol: ");
            push_decimal(&mut s, volume_percent);
            push_all(&mut s, "%) [");
            let lt = loop_label(l);
            push_all(&mut s, lt.as_str());
            push_all(&mut s, "]");
            let label = time_label(elapsed, total);
            let ghost st = if paused {
                "Paused"@
            } else {
                "Playing"@
            };
            assert(s@ =~= st + ": "@ + track_name(t@) + " (Vol: "@ + decimal(volume_percent as nat)
                + "%) ["@ + loop_text(l) + "]"@);
            (s, label)
        },
        None => (owned("Playing: <Nothing>"), String::new()),
    }
}

/// The first row shown of the radio list so that the selected row (the first when none
/// is) is in a window of `height` rows: the window moves up to the selection when it is
/// above, down just enough when it is below, and stays otherwise.
pub open spec fn window_start(selected: Option<usize>, offset: usize, height: usize) -> int {
    let s = match selected {
        Some(i) => i as int,
        None => 0,
    };
    if s < offset {
        s
    } else if s >= offset + height {
        if s >= height {
            if s - height + 1 > usize::MAX {
                usize::MAX as int
            } else {
                s - height + 1
            }
        } else {
            1
        }
    } else {
        offset as int
    }
}

/// The first row shown of the radio list.
pub fn window_offset(selected: Option<usize>, offset: usize, height: usize) -> (r: usize)
    requires
        offset + height <= usize::MAX,
    ensures
        r == window_start(selected, offset, height),
{
    let s = match selected {
        Some(i) => i,
        None => 0,
    };
    if s < offset {
        s
    } else if s >= offset + height {
        let below: usize = if s >= height {
            s - height
        } else {
            0
        };
        if below == usize::MAX {
            below
        } else {
            below + 1
        }
    } else {
        offset
    }
}

/// The window always holds the selected row when it has room for one.
pub proof fn law_window_holds_selection(selected: Option<usize>, offset: usize, height: usize)
    requires
        height > 0,
        offset + height <= usize::MAX,
    ensures
        ({
            let s = match selected {
                Some(i) => i as int,
                None => 0,
            };
            let w = window_start(selected, offset, height);
            w <= s < w + height
        }),
        window_start(selected, offset, height) == offset ==> (selected matches Some(i) ==> offset
            <= i < offset + height) || (selected is None && offset == 0),
{
}

/// The rows of the radio list that a window of `height` rows from row `start` shows: the
/// rows from `start` on, up to `height` of them, and none past the end of the list.
pub open spec fn window_rows_ok(groups: Seq<RadioGroup>, start: int, height: int, rows: Seq<RowRef>) -> bool {
    &&& rows.len() <= height
    &&& forall|k: int| 0 <= k < rows.len() ==> row_model(#[trigger] rows[k]) == row_at(groups, start + k)
        && row_at(groups, start + k) !is Beyond
    &&& rows.len() < height ==> row_at(groups, start + rows.len()) is Beyond
}

/// The rows of the radio list shown in a window of `height` rows from row `start`.
pub fn visible_radio_rows(groups: &Vec<RadioGroup>, start: usize, height: usize) -> (rows: Vec<RowRef>)
    requires
        start + height <= usize::MAX,
    ensures
        window_rows_ok(groups@, start as int, height as int, rows@),
{
    let mut rows: Vec<RowRef> = Vec::new();
    let mut k: usize = 0;
    while k < height
        invariant
            k <= height,
            start + height <= usize::MAX,
            rows@.len() == k,
            forall|j: int| 0 <= j < k ==> row_model(#[trigger] rows@[j]) == row_at(groups@, start + j)
                && row_at(groups@, start + j) !is Beyond,
        decreases height - k,
    {
        let r = radio_row_at(groups, start + k);
        if r == RowRef::Beyond {
            return rows;
        }
        rows.push(r);
        k = k + 1;
    }
    rows
}

/// The header row of a group: an open or a closed marker, then its title.
pub open spec fn group_header_text(title: Seq<char>, expanded: bool) -> Seq<char> {
    (if expanded {
        "v "@
    } else {
        "> "@
    }) + title
}

pub fn group_header_label(group: &RadioGroup) -> (s: String)
    ensures
        s@ == group_header_text(group.title@, group.is_expanded),
{
    let mut s = if group.is_expanded {
        owned("v ")
    } else {
        owned("> ")
    };
    push_all(&mut s, group.title.as_str());
    s
}

/// The row of a station: indented, with a star when it is a favorite.
pub open spec fn station_row_text(name: Seq<char>, favorite: bool) -> Seq<char> {
    "  "@ + name + if favorite {
        " ★"@
    } else {
        Seq::empty()
    }
}

pub fn station_row_label(station: &RadioStation, favorite: bool) -> (s: String)
    ensures
        s@ == station_row_text(station.name@, favorite),
{
    let mut s = owned("  ");
    push_all(&mut s, station.name.as_str());
    if favorite {
        push_all(&mut s, " ★");
    }
    assert(s@ =~= station_row_text(station.name@, favorite));
    s
}

/// The row of a file: `..` for the parent entry, else the file name; a star for a
/// favorite; a slash after a directory's name.
pub open spec fn file_row_text(path: Seq<char>, favorite: bool, is_dir: bool) -> Seq<char> {
    let up = path_ends_with_parent(path);
    let name = if up {
        ".."@
    } else {
        match path_file_name(path) {
            Some(n) => n,
            None => Seq::empty(),
        }
    };
    let starred = name + if favorite {
        " ★"@
    } else {
        Seq::empty()
    };
    starred + if is_dir && starred != ".."@ {
        "/"@
    } else {
        Seq::empty()
    }
}

pub fn file_row_label(path: &str, favorite: bool, is_dir: bool) -> (s: String)
    ensures
        s@ == file_row_text(path@, favorite, is_dir),
{
    let mut s = if ends_with_parent(path) {
        owned("..")
    } else {
        match file_name(path) {
            Some(n) => n,
            None => String::new(),
        }
    };
    if favorite {
        push_all(&mut s, " ★");
    }
    let ghost starred = s@;
    if is_dir && !crate::text::same_text(s.as_str(), "..") {
        push_all(&mut s, "/");
    }
    assert(s@ =~= file_row_text(path@, favorite, is_dir));
    s
}

/// The panel text of a selected group: its title and how many stations it has.
pub open spec fn group_info_text(title: Seq<char>, n: nat) -> Seq<char> {
    "Group: "@ + title + " ("@ + decimal(n) + " stations)"@
}

pub fn group_info(group: &RadioGroup) -> (s: String)
    ensures
        s@ == group_info_text(group.title@, group.stations@.len()),
{
    let mut s = owned("Group: ");
    push_all(&mut s, group.title.as_str());
    push_all(&mut s, " (");
    push_decimal(&mut s, group.stations.len() as u64);
    push_all(&mut s, " stations)");
    assert(s@ =~= group_info_text(group.title@, group.stations@.len()));
    s
}

/// An optional field's text, empty when absent.
pub open spec fn or_empty(o: Option<String>) -> Seq<char> {
    match o {
        Some(t) => t@,
        None => Seq::empty(),
    }
}

fn push_opt(s: &mut String, o: &Option<String>)
    ensures
        final(s)@ == old(s)@ + or_empty(*o),
{
    match o {
        Some(t) => push_all(s, t.as_str()),
        None => {
            assert(old(s)@ + Seq::<char>::empty() =~= old(s)@);
        },
    }
}

/// The panel text of a selected station: its fields one per line.
pub open spec fn station_info_text(st: RadioStation) -> Seq<char> {
    "Name: "@ + st.name@ + "\nDescription:"@ + or_empty(st.description) + "\nTags: "@ + or_empty(st.tags)
        + "\nLast Playing: "@ + or_empty(st.last_playing) + "\nHomepage: "@ + or_empty(st.homepage)
        + "\nStation URL: "@ + st.url@
}

pub fn station_info(st: &RadioStation) -> (s: String)
    ensures
        s@ == station_info_text(*st),
{
    let mut s = owned("Name: ");
    push_all(&mut s, st.name.as_str());
    push_all(&mut s, "\nDescription:");
    push_opt(&mut s, &st.description);
    push_all(&mut s, "\nTags: ");
    push_opt(&mut s, &st.tags);
    push_all(&mut s, "\nLast Playing: ");
    push_opt(&mut s, &st.last_playing);
    push_all(&mut s, "\nHomepage: ");
    push_opt(&mut s, &st.homepage);
    push_all(&mut s, "\nStation URL: ");
    push_all(&mut s, st.url.as_str());
    assert(s@ =~= station_info_text(*st));
    s
}

/// The version shown in the help bar, with the newer one when there is one.
pub open spec fn version_text(current: Seq<char>, latest: Option<String>) -> Seq<char> {
    match latest {
        Some(l) => current + " -> "@ + l@ + " Update Available "@,
        None => current + " "@,
    }
}

pub fn version_label(current: &str, latest: &Option<String>) -> (s: String)
    ensures
        s@ == version_text(current@, *latest),
{
    let mut s = owned(current);
    match latest {
        Some(l) => {
            push_all(&mut s, " -> ");
            push_all(&mut s, l.as_str());
            push_all(&mut s, " Update Available ");
        },
        None => push_all(&mut s, " "),
    }
    assert(s@ =~= version_text(current@, *latest));
    s
}

/// The search bar: the query being typed with a cursor, or the filter in force; nothing
/// when there is no query.
pub open spec fn query_text(is_searching: bool, query: Seq<char>) -> Option<Seq<char>> {
    if is_searching {
        Some("Search: "@ + query + "_"@)
    } else if query.len() > 0 {
        Some("Filter: "@ + query)
    } else {
        None
    }
}

pub fn query_label(is_searching: bool, query: &str) -> (r: Option<String>)
    ensures
        opt_chars(r) == query_text(is_searching, query@),
{
    if is_searching {
        let mut s = owned("Search: ");
        push_all(&mut s, query);
        push_all(&mut s, "_");
        Some(s)
    } else if !query.is_empty() {
        let mut s = owned("Filter: ");
        push_all(&mut s, query);
        Some(s)
    } else {
        None
    }
}

/// The width of each of `bars` visualizer bars in a box `width` cells wide: the inside
/// (borders taken off) less a one-cell gap between bars, shared out; 3 without bars.
pub open spec fn bar_width_spec(width: u16, bars: u16) -> int {
    let inner = if width >= 2 {
        width - 2
    } else {
        0
    };
    let gaps = if bars >= 1 {
        bars - 1
    } else {
        0
    };
    if bars > 0 {
        (if inner >= gaps {
            inner - gaps
        } else {
            0
        }) / bars as int
    } else {
        3
    }
}

pub fn bar_width(width: u16, bars: u16) -> (w: u16)
    ensures
        w == bar_width_spec(width, bars),
{
    let inner = width.saturating_sub(2);
    let gaps = bars.saturating_sub(1);
    if bars > 0 {
        inner.saturating_sub(gaps) / bars
    } else {
        3
    }
}

/// Where the notification box goes on a screen `screen_width` cells wide, for a message of
/// `len` bytes: its width is the length plus 4, between 20 and 40, and it stands two cells
/// from the right edge (at the left edge on a screen too narrow).
pub open spec fn notification_box(len: usize, screen_width: u16) -> (int, int) {
    let want = (len % 0x10000) + 4;
    let w = if want < 20 {
        20
    } else if want > 40 {
        40
    } else {
        want
    };
    (if screen_width >= w + 2 {
        screen_width - (w + 2)
    } else {
        0
    }, w)
}

/// The column and width of the notification box.
pub fn notification_area(len: usize, screen_width: u16) -> (r: (u16, u16))
    requires
        (len % 0x10000) + 4 <= u16::MAX,
    ensures
        (r.0 as int, r.1 as int) == notification_box(len, screen_width),
{
    let short: u16 = (len % 0x10000) as u16;
    let want: u16 = short + 4;
    let w: u16 = if want < 20 {
        20
    } else if want > 40 {
        40
    } else {
        want
    };
    (screen_width.saturating_sub(w + 2), w)
}

} // verus!
