//! The file browser's listing of a directory: which entries it shows, and in what order.
use crate::app::App;
use crate::paths::{extension, file_name, join, parent, path_extension, path_file_name, path_join, path_parent};
use crate::text::{chars_of, lowercase_of, same_text, to_lowercase};
use vstd::prelude::*;

verus! {

/// One entry of a directory as the file system reports it.
#[derive(Debug)]
pub struct DirEntry {
    pub path: String,
    pub is_dir: bool,
}

/// The file name of the entry, or nothing where the path has none.
pub open spec fn entry_name(e: DirEntry) -> Seq<char> {
    match path_file_name(e.path@) {
        Some(n) => n,
        None => Seq::empty(),
    }
}

/// Entries whose name starts with a dot are hidden.
pub open spec fn is_hidden(e: DirEntry) -> bool {
    entry_name(e).len() > 0 && entry_name(e)[0] == '.'
}

/// The extensions of the audio files the player lists, in lower case.
pub open spec fn is_audio_extension(x: Seq<char>) -> bool {
    ||| x == seq!['m', 'p', '3']
    ||| x == seq!['w', 'a', 'v']
    ||| x == seq!['o', 'g', 'g']
    ||| x == seq!['f', 'l', 'a', 'c']
}

/// Whether the entry is shown: directories and audio files (by their extension, in any
/// case), hidden ones only when hidden entries are shown.
pub open spec fn is_listed(e: DirEntry, show_hidden: bool) -> bool {
    &&& show_hidden || !is_hidden(e)
    &&& e.is_dir || match path_extension(e.path@) {
        Some(x) => is_audio_extension(lowercase_of(x)),
        None => false,
    }
}

/// The listed entries, in the order the file system gave them.
pub open spec fn listed_entries(es: Seq<DirEntry>, show_hidden: bool) -> Seq<DirEntry>
    decreases es.len(),
{
    if es.len() == 0 {
        Seq::empty()
    } else {
        let r = listed_entries(es.drop_last(), show_hidden);
        if is_listed(es.last(), show_hidden) {
            r.push(es.last())
        } else {
            r
        }
    }
}

/// Text order: by code point, a proper prefix first.
pub open spec fn text_le(a: Seq<char>, b: Seq<char>) -> bool
    decreases a.len(),
{
    if a.len() == 0 {
        true
    } else if b.len() == 0 {
        false
    } else if a[0] != b[0] {
        (a[0] as int) < (b[0] as int)
    } else {
        text_le(a.drop_first(), b.drop_first())
    }
}

/// Optional names in order: no name first.
pub open spec fn name_le(a: Option<Seq<char>>, b: Option<Seq<char>>) -> bool {
    match (a, b) {
        (None, _) => true,
        (Some(_), None) => false,
        (Some(x), Some(y)) => text_le(x, y),
    }
}

/// The listing order: directories before files, then by file name.
pub open spec fn entry_le(a: DirEntry, b: DirEntry) -> bool {
    ||| a.is_dir && !b.is_dir
    ||| a.is_dir == b.is_dir && name_le(path_file_name(a.path@), path_file_name(b.path@))
}

/// Every entry is in listing order with every later one.
pub open spec fn in_listing_order(s: Seq<DirEntry>) -> bool {
    forall|i: int, j: int| 0 <= i < j < s.len() ==> entry_le(#[trigger] s[i], #[trigger] s[j])
}

/// Where `e` goes into `s`: after the last entry that is not after it.
pub open spec fn insert_position(s: Seq<DirEntry>, e: DirEntry) -> int
    decreases s.len(),
{
    if s.len() == 0 {
        0
    } else if entry_le(s.last(), e) {
        s.len() as int
    } else {
        insert_position(s.drop_last(), e)
    }
}

/// The entries put in listing order one by one, each after those it is not before, so
/// that entries of equal rank keep the order they came in.
pub open spec fn sorted_entries(s: Seq<DirEntry>) -> Seq<DirEntry>
    decreases s.len(),
{
    if s.len() == 0 {
        Seq::empty()
    } else {
        let r = sorted_entries(s.drop_last());
        r.insert(insert_position(r, s.last()), s.last())
    }
}

/// The paths of the entries.
pub open spec fn entry_paths(s: Seq<DirEntry>) -> Seq<String> {
    s.map_values(|e: DirEntry| e.path)
}

/// The rows of the file browser for the directory `dir`: `..` first where the directory
/// has a parent, then the listed entries in listing order.
pub open spec fn listing(dir: Seq<char>, es: Seq<DirEntry>, show_hidden: bool) -> Seq<Seq<char>> {
    let up: Seq<Seq<char>> = if path_parent(dir) is Some {
        seq![path_join(dir, seq!['.', '.'])]
    } else {
        Seq::empty()
    };
    up + entry_paths(sorted_entries(listed_entries(es, show_hidden))).map_values(|p: String| p@)
}

pub proof fn lemma_text_le_total(a: Seq<char>, b: Seq<char>)
    ensures
        text_le(a, b) || text_le(b, a),
    decreases a.len(),
{
    if a.len() > 0 && b.len() > 0 && a[0] == b[0] {
        lemma_text_le_total(a.drop_first(), b.drop_first());
    }
}

pub proof fn lemma_text_le_transitive(a: Seq<char>, b: Seq<char>, c: Seq<char>)
    requires
        text_le(a, b),
        text_le(b, c),
    ensures
        text_le(a, c),
    decreases a.len(),
{
    if a.len() > 0 && b.len() > 0 && c.len() > 0 && a[0] == b[0] && b[0] == c[0] {
        lemma_text_le_transitive(a.drop_first(), b.drop_first(), c.drop_first());
    }
}

/// The listing order is total and transitive.
pub proof fn lemma_entry_le(a: DirEntry, b: DirEntry, c: DirEntry)
    ensures
        entry_le(a, b) || entry_le(b, a),
        entry_le(a, b) && entry_le(b, c) ==> entry_le(a, c),
{
    let (na, nb, nc) = (path_file_name(a.path@), path_file_name(b.path@), path_file_name(c.path@));
    if let (Some(x), Some(y)) = (na, nb) {
        lemma_text_le_total(x, y);
    }
    if let (Some(x), Some(y), Some(z)) = (na, nb, nc) {
        if text_le(x, y) && text_le(y, z) {
            lemma_text_le_transitive(x, y, z);
        }
    }
}

proof fn lemma_insert_position(s: Seq<DirEntry>, e: DirEntry)
    ensures
        0 <= insert_position(s, e) <= s.len(),
        forall|k: int| insert_position(s, e) <= k < s.len() ==> !entry_le(#[trigger] s[k], e),
        insert_position(s, e) > 0 ==> entry_le(s[insert_position(s, e) - 1], e),
    decreases s.len(),
{
    if s.len() > 0 && !entry_le(s.last(), e) {
        lemma_insert_position(s.drop_last(), e);
        assert forall|k: int| insert_position(s, e) <= k < s.len() implies !entry_le(#[trigger] s[k], e) by {
            if k < s.len() - 1 {
                assert(s[k] == s.drop_last()[k]);
            }
        }
    }
}

/// Putting an entry in its place keeps a listing in order.
proof fn lemma_insert_keeps_order(s: Seq<DirEntry>, e: DirEntry)
    requires
        in_listing_order(s),
    ensures
        in_listing_order(s.insert(insert_position(s, e), e)),
{
    lemma_insert_position(s, e);
    let p = insert_position(s, e);
    let r = s.insert(p, e);
    assert forall|i: int, j: int| 0 <= i < j < r.len() implies entry_le(#[trigger] r[i], #[trigger] r[j]) by {
        if i < p && j == p {
            lemma_entry_le(s[i], s[p - 1], e);
            if i < p - 1 {
                assert(entry_le(s[i], s[p - 1]));
            }
        } else if i == p && j > p {
            lemma_entry_le(e, s[j - 1], e);
        } else if i < p && j > p {
            assert(entry_le(s[i], s[j - 1]));
        } else if i > p {
            assert(entry_le(s[i - 1], s[j - 1]));
        }
    }
}

/// The listing is in order and holds exactly the entries it was made from.
pub proof fn law_listing_order(s: Seq<DirEntry>)
    ensures
        in_listing_order(sorted_entries(s)),
        sorted_entries(s).to_multiset() =~= s.to_multiset(),
    decreases s.len(),
{
    broadcast use vstd::seq_lib::group_to_multiset_ensures;

    if s.len() > 0 {
        let r = sorted_entries(s.drop_last());
        law_listing_order(s.drop_last());
        lemma_insert_keeps_order(r, s.last());
        lemma_insert_position(r, s.last());
        let p = insert_position(r, s.last());
        let t = r.insert(p, s.last());
        assert(t.remove(p) =~= r);
        assert(t[p] == s.last());
        assert(s.drop_last().push(s.last()) =~= s);
        assert(t.to_multiset() =~= t.to_multiset().remove(s.last()).insert(s.last())) by {
            assert(t.contains(s.last()));
        }
    }
}

/// In the listing every directory comes before every file, and entries of one kind are
/// in the order of their names.
pub proof fn law_directories_first(s: Seq<DirEntry>)
    ensures
        forall|i: int, j: int|
            0 <= i < j < sorted_entries(s).len() && (#[trigger] sorted_entries(s)[j]).is_dir
                ==> (#[trigger] sorted_entries(s)[i]).is_dir,
        forall|i: int, j: int|
            0 <= i < j < sorted_entries(s).len() && (#[trigger] sorted_entries(s)[i]).is_dir
                == (#[trigger] sorted_entries(s)[j]).is_dir ==> name_le(
                path_file_name(sorted_entries(s)[i].path@),
                path_file_name(sorted_entries(s)[j].path@),
            ),
{
    law_listing_order(s);
}

/// Only directories and audio files are listed, and hidden entries only when they are shown.
pub proof fn law_listed_entries_kept(es: Seq<DirEntry>, show_hidden: bool)
    ensures
        forall|k: int|
            0 <= k < listed_entries(es, show_hidden).len() ==> is_listed(
                #[trigger] listed_entries(es, show_hidden)[k],
                show_hidden,
            ),
        forall|k: int|
            0 <= k < es.len() && is_listed(#[trigger] es[k], show_hidden) ==> listed_entries(
                es,
                show_hidden,
            ).contains(es[k]),
    decreases es.len(),
{
    if es.len() > 0 {
        let rest = es.drop_last();
        law_listed_entries_kept(rest, show_hidden);
        let r = listed_entries(rest, show_hidden);
        assert forall|k: int|
            0 <= k < listed_entries(es, show_hidden).len() implies is_listed(
                #[trigger] listed_entries(es, show_hidden)[k],
                show_hidden,
            ) by {
            if k < r.len() {
                assert(listed_entries(es, show_hidden)[k] == r[k]);
            }
        }
        assert forall|k: int|
            0 <= k < es.len() && is_listed(#[trigger] es[k], show_hidden) implies listed_entries(
                es,
                show_hidden,
            ).contains(es[k]) by {
            if k < es.len() - 1 {
                assert(es[k] == rest[k]);
                let j = choose|j: int| 0 <= j < r.len() && r[j] == es[k];
                assert(listed_entries(es, show_hidden)[j] == es[k]);
            } else {
                let l = listed_entries(es, show_hidden);
                assert(l[l.len() - 1] == es[k]);
            }
        }
    }
}

/// Whether a file name (where there is one) starts with a dot.
pub open spec fn dot_name(n: Option<Seq<char>>) -> bool {
    match n {
        Some(x) => x.len() > 0 && x[0] == '.',
        None => false,
    }
}

/// How many rows come before the entries: one for `..` where the directory has a parent.
pub open spec fn up_rows(dir: Seq<char>) -> int {
    if path_parent(dir) is Some {
        1
    } else {
        0
    }
}

/// With hidden entries off, no row of the listing after `..`, directory or file, has a
/// name that starts with a dot; and every row after `..` is the path of an entry of the
/// directory.
pub proof fn law_hidden_entries_left_out(dir: Seq<char>, es: Seq<DirEntry>, show_hidden: bool)
    ensures
        listing(dir, es, show_hidden).len() >= up_rows(dir),
        forall|k: int|
            up_rows(dir) <= k < listing(dir, es, show_hidden).len() && !show_hidden ==> !dot_name(
                path_file_name(#[trigger] listing(dir, es, show_hidden)[k]),
            ),
        forall|k: int|
            up_rows(dir) <= k < listing(dir, es, show_hidden).len() ==> exists|m: int|
                0 <= m < es.len() && (#[trigger] es[m]).path@ == #[trigger] listing(
                    dir,
                    es,
                    show_hidden,
                )[k],
{
    broadcast use vstd::seq_lib::group_to_multiset_ensures;

    let l = listed_entries(es, show_hidden);
    let st = sorted_entries(l);
    law_listing_order(l);
    law_listed_entries_kept(es, show_hidden);
    lemma_listed_from(es, show_hidden);
    let rows = listing(dir, es, show_hidden);
    let u = up_rows(dir);
    let tail = entry_paths(st).map_values(|p: String| p@);
    assert(rows.len() == u + st.len());
    assert forall|k: int| u <= k < rows.len() implies (!show_hidden ==> !dot_name(
        path_file_name(#[trigger] rows[k]),
    )) && exists|m: int| 0 <= m < es.len() && (#[trigger] es[m]).path@ == rows[k] by {
        let j = k - u;
        assert(rows[k] == tail[j]);
        assert(tail[j] == st[j].path@);
        assert(st.to_multiset().count(st[j]) > 0);
        assert(l.contains(st[j]));
        let t = choose|t: int| 0 <= t < l.len() && l[t] == st[j];
        assert(is_listed(l[t], show_hidden));
        let m = choose|m: int| 0 <= m < es.len() && es[m] == l[t];
        assert(es[m].path@ == rows[k]);
    }
}

/// Every listed entry is an entry of the directory.
proof fn lemma_listed_from(es: Seq<DirEntry>, show_hidden: bool)
    ensures
        forall|t: int|
            0 <= t < listed_entries(es, show_hidden).len() ==> exists|m: int|
                0 <= m < es.len() && es[m] == #[trigger] listed_entries(es, show_hidden)[t],
    decreases es.len(),
{
    if es.len() > 0 {
        let rest = es.drop_last();
        lemma_listed_from(rest, show_hidden);
        let l = listed_entries(es, show_hidden);
        let r = listed_entries(rest, show_hidden);
        assert forall|t: int| 0 <= t < l.len() implies exists|m: int|
            0 <= m < es.len() && es[m] == #[trigger] l[t] by {
            if t < r.len() {
                assert(l[t] == r[t]);
                let m = choose|m: int| 0 <= m < rest.len() && rest[m] == #[trigger] r[t];
                assert(es[m] == rest[m]);
            } else {
                assert(es[es.len() - 1] == l[t]);
            }
        }
    }
}

/// Whether `a` comes before `b` in text order.
fn text_before(a: &Vec<char>, b: &Vec<char>) -> (r: bool)
    ensures
        r == text_le(a@, b@),
{
    let mut i: usize = 0;
    assert(a@.skip(0) =~= a@);
    assert(b@.skip(0) =~= b@);
    while i < a.len() && i < b.len() && a[i] == b[i]
        invariant
            i <= a@.len(),
            i <= b@.len(),
            text_le(a@, b@) == text_le(a@.skip(i as int), b@.skip(i as int)),
        decreases a@.len() - i,
    {
        assert(a@.skip(i as int).drop_first() =~= a@.skip(i + 1));
        assert(b@.skip(i as int).drop_first() =~= b@.skip(i + 1));
        i = i + 1;
    }
    assert(a@.skip(i as int).len() == a@.len() - i);
    assert(b@.skip(i as int).len() == b@.len() - i);
    if i == a.len() {
        true
    } else if i == b.len() {
        false
    } else {
        assert(a@.skip(i as int)[0] == a@[i as int]);
        assert(b@.skip(i as int)[0] == b@[i as int]);
        a[i] < b[i]
    }
}

/// Whether `a` comes before `b` in the listing, or ranks with it.
fn entry_before(a: &DirEntry, b: &DirEntry) -> (r: bool)
    ensures
        r == entry_le(*a, *b),
{
    if a.is_dir != b.is_dir {
        return a.is_dir;
    }
    match (file_name(a.path.as_str()), file_name(b.path.as_str())) {
        (None, _) => true,
        (Some(_), None) => false,
        (Some(x), Some(y)) => {
            let xs = chars_of(x.as_str());
            let ys = chars_of(y.as_str());
            text_before(&xs, &ys)
        },
    }
}

/// Whether the extension is one of an audio file, in any case.
fn audio_extension(x: &str) -> (r: bool)
    ensures
        r == is_audio_extension(lowercase_of(x@)),
{
    let lower = to_lowercase(x);
    let l = lower.as_str();
    proof {
        reveal_strlit("mp3");
        reveal_strlit("wav");
        reveal_strlit("ogg");
        reveal_strlit("flac");
        assert("mp3"@ =~= seq!['m', 'p', '3']);
        assert("wav"@ =~= seq!['w', 'a', 'v']);
        assert("ogg"@ =~= seq!['o', 'g', 'g']);
        assert("flac"@ =~= seq!['f', 'l', 'a', 'c']);
    }
    same_text(l, "mp3") || same_text(l, "wav") || same_text(l, "ogg") || same_text(l, "flac")
}

/// Whether the entry is listed.
fn listed(e: &DirEntry, show_hidden: bool) -> (r: bool)
    ensures
        r == is_listed(*e, show_hidden),
{
    if !show_hidden {
        if let Some(n) = file_name(e.path.as_str()) {
            let cs = chars_of(n.as_str());
            if cs.len() > 0 && cs[0] == '.' {
                return false;
            }
        }
    }
    if e.is_dir {
        return true;
    }
    match extension(e.path.as_str()) {
        Some(x) => audio_extension(x.as_str()),
        None => false,
    }
}

/// Puts `e` into the ordered `sorted` after every entry that is not after it.
fn insert_entry(sorted: &mut Vec<DirEntry>, e: DirEntry)
    ensures
        final(sorted)@ == old(sorted)@.insert(insert_position(old(sorted)@, e), e),
{
    let mut j: usize = sorted.len();
    assert(sorted@.subrange(0, j as int) =~= sorted@);
    while j > 0 && !entry_before(&sorted[j - 1], &e)
        invariant
            j <= sorted@.len(),
            insert_position(sorted@, e) == insert_position(sorted@.subrange(0, j as int), e),
        decreases j,
    {
        proof {
            assert(sorted@.subrange(0, j as int).drop_last() =~= sorted@.subrange(0, j - 1));
        }
        j = j - 1;
    }
    proof {
        if j > 0 {
            assert(sorted@.subrange(0, j as int).last() == sorted@[j - 1]);
        }
    }
    sorted.insert(j, e);
}

/// The listed entries of `entries`, in listing order.
pub fn sort_listed(entries: Vec<DirEntry>, show_hidden: bool) -> (r: Vec<DirEntry>)
    ensures
        r@ == sorted_entries(listed_entries(entries@, show_hidden)),
        in_listing_order(r@),
        r@.to_multiset() == listed_entries(entries@, show_hidden).to_multiset(),
{
    let ghost all = entries@;
    let mut sorted: Vec<DirEntry> = Vec::new();
    let mut rest = entries;
    let ghost mut i: int = 0;
    while rest.len() > 0
        invariant
            0 <= i <= all.len(),
            rest@ == all.subrange(i, all.len() as int),
            sorted@ == sorted_entries(listed_entries(all.subrange(0, i), show_hidden)),
        decreases rest@.len(),
    {
        let e = rest.remove(0);
        proof {
            assert(e == all[i]);
            assert(all.subrange(0, i + 1).drop_last() =~= all.subrange(0, i));
            assert(all.subrange(0, i + 1).last() == e);
            assert(rest@ =~= all.subrange(i + 1, all.len() as int));
        }
        let ghost prev = listed_entries(all.subrange(0, i), show_hidden);
        if listed(&e, show_hidden) {
            assert(prev.push(e).drop_last() =~= prev);
            insert_entry(&mut sorted, e);
        }
        proof {
            i = i + 1;
        }
    }
    assert(all.subrange(0, i) =~= all);
    proof {
        law_listing_order(listed_entries(entries@, show_hidden));
    }
    sorted
}

impl App {
    /// Lists the directory `current_dir` from its entries: `..` first where it has a
    /// parent, then directories and audio files in listing order, hidden ones only when
    /// shown; refilters and selects the first row.
    pub fn load_directory(&mut self, entries: Vec<DirEntry>)
        ensures
            final(self).items@.map_values(|p: String| p@) == listing(
                old(self).current_dir@,
                entries@,
                old(self).show_hidden,
            ),
            final(self).results_current(),
            final(self).state.selected == Some(0usize),
            final(self).state.offset == old(self).state.offset,
            (App {
                items: final(self).items,
                state: final(self).state,
                filtered_items: final(self).filtered_items,
                filtered_radio_groups: final(self).filtered_radio_groups,
                ..*old(self)
            }) == *final(self),
    {
        let sorted = sort_listed(entries, self.show_hidden);
        let mut items: Vec<String> = Vec::new();
        let has_parent = parent(self.current_dir.as_str()).is_some();
        if has_parent {
            let up = join(self.current_dir.as_str(), "..");
            proof {
                reveal_strlit("..");
                assert(".."@ =~= seq!['.', '.']);
            }
            items.push(up);
        }
        let ghost head = items@;
        let mut k: usize = 0;
        while k < sorted.len()
            invariant
                k <= sorted@.len(),
                items@ == head + entry_paths(sorted@.subrange(0, k as int)),
            decreases sorted@.len() - k,
        {
            items.push(sorted[k].path.clone());
            assert(entry_paths(sorted@.subrange(0, k + 1)) =~= entry_paths(sorted@.subrange(0, k as int)).push(sorted@[k as int].path));
            assert(items@ =~= head + entry_paths(sorted@.subrange(0, k + 1)));
            k = k + 1;
        }
        assert(sorted@.subrange(0, sorted@.len() as int) =~= sorted@);
        proof {
            let up: Seq<Seq<char>> = if path_parent(self.current_dir@) is Some {
                seq![path_join(self.current_dir@, seq!['.', '.'])]
            } else {
                Seq::empty()
            };
            assert(head.map_values(|p: String| p@) =~= up);
            assert(items@.map_values(|p: String| p@) =~= up + entry_paths(sorted@).map_values(|p: String| p@));
        }
        self.items = items;
        self.update_search_results();
        self.state.select(Some(0));
    }
}

} // verus!
