//! The Browse columns: moving through a filtered column, confirming a search, and
//! keeping selections on lists that arrive from the server.
use vstd::prelude::*;
use crate::nav::{BrowserColumn, Direction};
use crate::config::BrowseMode;
use crate::media::{Song, QueueState};
use crate::playback_error::{to_lowercase, lowercase_of};
use crate::text::{contains, str_contains, chars_of, string_of, push_char};

verus! {

/// A row of a Browse column is shown when there is no filter, or when its name in lower
/// case contains the filter.
pub open spec fn row_shown(name: Seq<char>, filter: Option<Seq<char>>) -> bool {
    match filter {
        Some(q) => contains(lowercase_of(name), q),
        None => true,
    }
}

/// The positions of the rows that `filter` shows, in order.
pub open spec fn shown_rows(names: Seq<Seq<char>>, filter: Option<Seq<char>>) -> Seq<int>
    decreases names.len(),
{
    if names.len() == 0 {
        Seq::empty()
    } else {
        let before = shown_rows(names.drop_last(), filter);
        if row_shown(names.last(), filter) { before.push(names.len() - 1) } else { before }
    }
}

/// The first place where `x` stands in `s`.
pub open spec fn place_of(s: Seq<int>, x: int) -> Option<int>
    decreases s.len(),
{
    if s.len() == 0 {
        None
    } else if s[0] == x {
        Some(0)
    } else {
        match place_of(s.drop_first(), x) {
            Some(p) => Some(p + 1),
            None => None,
        }
    }
}

/// Where a cursor at `cur` in a list of `len` rows (`len > 0`) lands after moving `dir`
/// by `steps` lines or by a page of `page` rows (at least one).
pub open spec fn stepped(cur: int, len: int, steps: int, page: int, dir: Direction) -> int {
    let last = len - 1;
    let page = if page < 1 { 1 } else { page };
    match dir {
        Direction::Up => if cur >= steps { cur - steps } else { 0 },
        Direction::Down => if cur + steps < last { cur + steps } else { last },
        Direction::Top => 0,
        Direction::Bottom => last,
        Direction::PageUp => if cur >= page { cur - page } else { 0 },
        Direction::PageDown => if cur + page < last { cur + page } else { last },
    }
}

/// The row a move through a filtered Browse column selects: among the rows shown, the
/// cursor starts where the selected row is (the first shown row when it is hidden or
/// nothing is selected) and moves by `stepped`. `None` when no row is shown.
pub open spec fn filtered_move(names: Seq<Seq<char>>, filter: Option<Seq<char>>, selected: Option<usize>,
    dir: Direction, steps: int, page: int) -> Option<int>
{
    let rows = shown_rows(names, filter);
    if rows.len() == 0 {
        None
    } else {
        let cur = match selected {
            Some(s) => match place_of(rows, s as int) {
                Some(p) => p,
                None => 0,
            },
            None => 0,
        };
        Some(rows[stepped(cur, rows.len() as int, steps, page, dir)])
    }
}

proof fn lemma_shown_rows_bounds(names: Seq<Seq<char>>, filter: Option<Seq<char>>)
    ensures
        shown_rows(names, filter).len() <= names.len(),
        forall|k: int| 0 <= k < shown_rows(names, filter).len() ==>
            0 <= #[trigger] shown_rows(names, filter)[k] < names.len(),
    decreases names.len(),
{
    if names.len() > 0 {
        lemma_shown_rows_bounds(names.drop_last(), filter);
    }
}

proof fn lemma_place_found(s: Seq<int>, x: int, j: int)
    requires
        0 <= j < s.len(),
        s[j] == x,
        forall|k: int| 0 <= k < j ==> s[k] != x,
    ensures
        place_of(s, x) == Some(j),
    decreases j,
{
    if j > 0 {
        lemma_place_found(s.drop_first(), x, j - 1);
    }
}

proof fn lemma_place_missing(s: Seq<int>, x: int)
    requires
        forall|k: int| 0 <= k < s.len() ==> s[k] != x,
    ensures
        place_of(s, x) is None,
    decreases s.len(),
{
    if s.len() > 0 {
        lemma_place_missing(s.drop_first(), x);
    }
}

fn shown_indices(names: &[String], filter: Option<&str>) -> (r: Vec<usize>)
    ensures
        r@.len() == shown_rows(names@.map_values(|n: String| n@), opt_str(filter)).len(),
        forall|k: int| 0 <= k < r@.len() ==>
            #[trigger] r@[k] as int == shown_rows(names@.map_values(|n: String| n@), opt_str(filter))[k],
{
    let ghost all = names@.map_values(|n: String| n@);
    let ghost f = opt_str(filter);
    let mut r: Vec<usize> = Vec::new();
    let mut i: usize = 0;
    assert(all.take(0) =~= Seq::<Seq<char>>::empty());
    while i < names.len()
        invariant
            i <= names.len(),
            all == names@.map_values(|n: String| n@),
            f == opt_str(filter),
            r@.len() == shown_rows(all.take(i as int), f).len(),
            forall|k: int| 0 <= k < r@.len() ==> #[trigger] r@[k] as int == shown_rows(all.take(i as int), f)[k],
        decreases names.len() - i,
    {
        assert(all.take(i + 1).drop_last() =~= all.take(i as int));
        assert(all.take(i + 1).last() == names@[i as int]@);
        let shown = match filter {
            Some(q) => {
                let lower = to_lowercase(names[i].as_str());
                str_contains(lower.as_str(), q)
            },
            None => true,
        };
        if shown {
            r.push(i);
        }
        i += 1;
    }
    assert(all.take(names.len() as int) =~= all);
    r
}

fn place_in(rows: &Vec<usize>, x: usize) -> (r: Option<usize>)
    ensures
        match r {
            Some(p) => place_of(rows@.map_values(|v: usize| v as int), x as int) == Some(p as int) && p < rows@.len(),
            None => place_of(rows@.map_values(|v: usize| v as int), x as int) is None,
        },
{
    let ghost rv = rows@.map_values(|v: usize| v as int);
    let mut j: usize = 0;
    while j < rows.len()
        invariant
            j <= rows.len(),
            rv == rows@.map_values(|v: usize| v as int),
            forall|k: int| 0 <= k < j ==> rv[k] != x as int,
        decreases rows.len() - j,
    {
        if rows[j] == x {
            proof { lemma_place_found(rv, x as int, j as int); }
            return Some(j);
        }
        j += 1;
    }
    proof { lemma_place_missing(rv, x as int); }
    None
}

/// A filter as plain characters.
pub open spec fn opt_str(filter: Option<&str>) -> Option<Seq<char>> {
    match filter {
        Some(q) => Some(q@),
        None => None,
    }
}

/// Moves through a Browse column whose rows are named `names`, showing only the rows
/// that `filter` keeps: the new selected row (its position in the whole column), or
/// `None` when no row is shown.
pub fn move_in_filtered_column(names: &[String], filter: Option<&str>, selected: Option<usize>,
    dir: Direction, line_steps: usize, page_rows: usize) -> (r: Option<usize>)
    ensures
        match r {
            Some(x) => filtered_move(names@.map_values(|n: String| n@), opt_str(filter), selected, dir,
                line_steps as int, page_rows as int) == Some(x as int) && x < names@.len(),
            None => filtered_move(names@.map_values(|n: String| n@), opt_str(filter), selected, dir,
                line_steps as int, page_rows as int) is None,
        },
{
    let ghost all = names@.map_values(|n: String| n@);
    let rows = shown_indices(names, filter);
    proof { lemma_shown_rows_bounds(all, opt_str(filter)); }
    if rows.len() == 0 {
        return None;
    }
    let ghost srows = shown_rows(all, opt_str(filter));
    let ghost rv = rows@.map_values(|v: usize| v as int);
    assert(rv =~= srows);
    let cur: usize = match selected {
        Some(x) => match place_in(&rows, x) {
            Some(p) => p,
            None => 0,
        },
        None => 0,
    };
    let len = rows.len();
    let last = len - 1;
    let page = if page_rows < 1 { 1 } else { page_rows };
    let pos = match dir {
        Direction::Up => if cur >= line_steps { cur - line_steps } else { 0 },
        Direction::Down => if line_steps < last - cur { cur + line_steps } else { last },
        Direction::Top => 0,
        Direction::Bottom => last,
        Direction::PageUp => if cur >= page { cur - page } else { 0 },
        Direction::PageDown => if page < last - cur { cur + page } else { last },
    };
    Some(rows[pos])
}

/// The selected row of each Browse column.
#[derive(Debug, Clone, Copy, Default, PartialEq, Eq)]
pub struct BrowserSelection {
    pub artist: Option<usize>,
    pub album: Option<usize>,
    pub track: Option<usize>,
}

impl BrowserSelection {
    pub open spec fn in_column(self, c: BrowserColumn) -> Option<usize> {
        match c {
            BrowserColumn::Artists => self.artist,
            BrowserColumn::Albums => self.album,
            BrowserColumn::Tracks => self.track,
        }
    }
}

/// Moves through the focused Browse column (rows named `names`, filtered by `filter`).
/// A new artist selects its first album and first track; a new album its first track.
/// Returns the row selected, or `None` (and nothing changes) when no row is shown.
pub fn navigate_browser_column(sel: &mut BrowserSelection, focus: BrowserColumn, names: &[String],
    filter: Option<&str>, dir: Direction, line_steps: usize, page_rows: usize) -> (r: Option<usize>)
    ensures
        r matches Some(x) ==> x < names@.len(),
        (match r {
            Some(x) => filtered_move(names@.map_values(|n: String| n@), opt_str(filter),
                old(sel).in_column(focus), dir, line_steps as int, page_rows as int) == Some(x as int),
            None => filtered_move(names@.map_values(|n: String| n@), opt_str(filter),
                old(sel).in_column(focus), dir, line_steps as int, page_rows as int) is None,
        }),
        r is None ==> *final(sel) == *old(sel),
        r matches Some(x) ==> *final(sel) == (match focus {
            BrowserColumn::Artists => BrowserSelection { artist: Some(x), album: Some(0), track: Some(0) },
            BrowserColumn::Albums => BrowserSelection { artist: old(sel).artist, album: Some(x), track: Some(0) },
            BrowserColumn::Tracks => BrowserSelection { artist: old(sel).artist, album: old(sel).album, track: Some(x) },
        }),
{
    let current = match focus {
        BrowserColumn::Artists => sel.artist,
        BrowserColumn::Albums => sel.album,
        BrowserColumn::Tracks => sel.track,
    };
    let r = move_in_filtered_column(names, filter, current, dir, line_steps, page_rows);
    if let Some(x) = r {
        match focus {
            BrowserColumn::Artists => {
                sel.artist = Some(x);
                sel.album = Some(0);
                sel.track = Some(0);
            },
            BrowserColumn::Albums => {
                sel.album = Some(x);
                sel.track = Some(0);
            },
            BrowserColumn::Tracks => {
                sel.track = Some(x);
            },
        }
    }
    r
}

/// The first row whose name, in lower case, contains the query in lower case; none for
/// an empty query.
pub open spec fn search_hit(names: Seq<Seq<char>>, query: Seq<char>) -> Option<int> {
    let rows = shown_rows(names, Some(lowercase_of(query)));
    if query.len() == 0 || rows.len() == 0 { None } else { Some(rows[0]) }
}

/// The first row whose name, in lower case, contains the query in lower case (what
/// Enter on a search selects); none for an empty query or when no row matches.
pub fn find_first(names: &[String], query: &str) -> (r: Option<usize>)
    ensures
        match r {
            Some(x) => search_hit(names@.map_values(|n: String| n@), query@) == Some(x as int) && x < names@.len(),
            None => search_hit(names@.map_values(|n: String| n@), query@) is None,
        },
{
    if query.unicode_len() == 0 {
        return None;
    }
    let q = to_lowercase(query);
    let rows = shown_indices(names, Some(q.as_str()));
    proof { lemma_shown_rows_bounds(names@.map_values(|n: String| n@), Some(q@)); }
    if rows.len() == 0 {
        None
    } else {
        Some(rows[0])
    }
}

/// Enter after a Browse search: the focused column selects the first row named like the
/// query, as a move there would (see `navigate_browser_column`).
pub fn confirm_browser_search(sel: &mut BrowserSelection, focus: BrowserColumn, names: &[String], query: &str) -> (r: Option<usize>)
    ensures
        match r {
            Some(x) => search_hit(names@.map_values(|n: String| n@), query@) == Some(x as int),
            None => search_hit(names@.map_values(|n: String| n@), query@) is None,
        },
        r is None ==> *final(sel) == *old(sel),
        r matches Some(x) ==> *final(sel) == (match focus {
            BrowserColumn::Artists => BrowserSelection { artist: Some(x), album: Some(0), track: Some(0) },
            BrowserColumn::Albums => BrowserSelection { artist: old(sel).artist, album: Some(x), track: Some(0) },
            BrowserColumn::Tracks => BrowserSelection { artist: old(sel).artist, album: old(sel).album, track: Some(x) },
        }),
{
    let r = find_first(names, query);
    if let Some(x) = r {
        match focus {
            BrowserColumn::Artists => {
                sel.artist = Some(x);
                sel.album = Some(0);
                sel.track = Some(0);
            },
            BrowserColumn::Albums => {
                sel.album = Some(x);
                sel.track = Some(0);
            },
            BrowserColumn::Tracks => {
                sel.track = Some(x);
            },
        }
    }
    r
}

/// The titles of the songs, in order.
pub open spec fn song_titles(songs: Seq<Song>) -> Seq<Seq<char>> {
    songs.map_values(|s: Song| s.title@)
}

fn titles_of(songs: &[Song]) -> (r: Vec<String>)
    ensures r@.map_values(|n: String| n@) == song_titles(songs@),
{
    let mut r: Vec<String> = Vec::new();
    let mut i: usize = 0;
    while i < songs.len()
        invariant
            i <= songs.len(),
            r@.len() == i,
            forall|j: int| 0 <= j < i ==> (#[trigger] r@[j])@ == songs@[j].title@,
        decreases songs.len() - i,
    {
        r.push(songs[i].title.clone());
        i += 1;
    }
    assert(r@.map_values(|n: String| n@) =~= song_titles(songs@));
    r
}

/// Enter after a search on Now Playing: the queue's cursor moves to the first song whose
/// title is like the query (nothing moves when none is).
pub fn confirm_queue_search(queue: &mut QueueState, query: &str) -> (r: Option<usize>)
    ensures
        match r {
            Some(x) => search_hit(song_titles(old(queue).songs@), query@) == Some(x as int)
                && final(queue).cursor == x,
            None => search_hit(song_titles(old(queue).songs@), query@) is None
                && final(queue).cursor == old(queue).cursor,
        },
        final(queue).songs@ == old(queue).songs@,
        final(queue).scroll == old(queue).scroll,
        final(queue).loop_enabled == old(queue).loop_enabled,
{
    let titles = titles_of(queue.songs.as_slice());
    let r = find_first(titles.as_slice(), query);
    if let Some(x) = r {
        queue.cursor = x;
    }
    r
}

/// The selection kept on a list that now has `len` rows (`len > 0`): the row selected
/// before (the first when none was), moved back onto the list.
pub open spec fn kept_on(sel: Option<usize>, len: int) -> int {
    let i = match sel { Some(i) => i as int, None => 0 };
    if i < len - 1 { i } else { len - 1 }
}

fn keep_on(sel: Option<usize>, len: usize) -> (r: usize)
    requires len > 0,
    ensures r == kept_on(sel, len as int),
{
    let i = match sel { Some(i) => i, None => 0 };
    if i < len - 1 { i } else { len - 1 }
}

/// The artists arrived (`count` of them): with any, the selected artist is kept on the
/// list (the first when none was) and its albums are to be shown, so its index is
/// returned; the album and track selections are left as they are.
pub fn artists_arrived(sel: &mut BrowserSelection, count: usize) -> (r: Option<usize>)
    ensures
        count == 0 ==> r is None && *final(sel) == *old(sel),
        count > 0 ==> r == Some(kept_on(old(sel).artist, count as int) as usize)
            && *final(sel) == (BrowserSelection { artist: r, ..*old(sel) }),
{
    if count == 0 {
        return None;
    }
    let i = keep_on(sel.artist, count);
    sel.artist = Some(i);
    Some(i)
}

/// The albums of an artist arrived (`count` of them). For the selected artist, with any
/// albums, the selected album is kept on the list (the first when none was) and its
/// index returned: its tracks are to be shown. Albums of another artist are only kept.
pub fn albums_arrived(sel: &mut BrowserSelection, for_selected_artist: bool, count: usize) -> (r: Option<usize>)
    ensures
        !(for_selected_artist && count > 0) ==> r is None && *final(sel) == *old(sel),
        for_selected_artist && count > 0 ==> r == Some(kept_on(old(sel).album, count as int) as usize)
            && *final(sel) == (BrowserSelection { album: r, ..*old(sel) }),
{
    if !for_selected_artist || count == 0 {
        return None;
    }
    let i = keep_on(sel.album, count);
    sel.album = Some(i);
    Some(i)
}

/// The tracks of an album arrived (`count` of them). For the selected album, with any
/// tracks, the selected track is kept on the list (the first when none was); otherwise
/// a missing track selection becomes the first track.
pub fn tracks_arrived(sel: &mut BrowserSelection, for_selected_album: bool, count: usize)
    ensures
        final(sel).artist == old(sel).artist,
        final(sel).album == old(sel).album,
        for_selected_album && count > 0 ==> final(sel).track == Some(kept_on(old(sel).track, count as int) as usize),
        !(for_selected_album && count > 0) ==> final(sel).track == match old(sel).track {
            Some(t) => Some(t),
            None => Some(0usize),
        },
{
    if for_selected_album && count > 0 {
        sel.track = Some(keep_on(sel.track, count));
    } else if sel.track.is_none() {
        sel.track = Some(0);
    }
}

/// The search being typed, and the confirmed search it replaced.
#[derive(Debug, Clone, Default)]
pub struct SearchEdit {
    pub active: bool,
    pub query: String,
    /// Index within the filtered results that is selected.
    pub selected: usize,
    /// The confirmed filter and its column when this search started.
    pub before_edit: Option<(BrowserColumn, String)>,
}

/// A key while searching.
#[derive(Debug, Clone, Copy, PartialEq, Eq)]
pub enum SearchKey {
    Start,
    Input(char),
    Backspace,
    Confirm,
    Cancel,
}

/// What a search key leaves for the application to do.
#[derive(Debug, Clone, PartialEq, Eq)]
pub enum SearchEffect {
    Nothing,
    /// The search was confirmed with this query (as typed): select the first match.
    Confirmed(String),
    /// A confirmed filter was dropped: say "Search cleared".
    Cleared,
}

/// The search and the confirmed Browse filter, as plain values.
pub struct SearchModel {
    pub active: bool,
    pub query: Seq<char>,
    pub selected: usize,
    pub before_edit: Option<(BrowserColumn, Seq<char>)>,
    pub filter: Option<Seq<char>>,
    pub column: Option<BrowserColumn>,
}

pub open spec fn search_model(s: SearchEdit, filter: Option<String>, column: Option<BrowserColumn>) -> SearchModel {
    SearchModel {
        active: s.active,
        query: s.query@,
        selected: s.selected,
        before_edit: match s.before_edit { Some((c, q)) => Some((c, q@)), None => None },
        filter: match filter { Some(f) => Some(f@), None => None },
        column,
    }
}

/// `SearchEffect` as plain values.
pub enum EffectModel {
    Nothing,
    Confirmed(Seq<char>),
    Cleared,
}

pub open spec fn effect_model(e: SearchEffect) -> EffectModel {
    match e {
        SearchEffect::Nothing => EffectModel::Nothing,
        SearchEffect::Confirmed(q) => EffectModel::Confirmed(q@),
        SearchEffect::Cleared => EffectModel::Cleared,
    }
}

/// One search key. Starting remembers the confirmed filter (with its column) and clears
/// it while typing; typing and backspace edit the query while a search is active;
/// confirming makes the query, in lower case, the filter of the focused column (an empty
/// query clears the filter); cancelling puts back the filter remembered at the start, or
/// else drops the filter.
pub open spec fn search_step(m: SearchModel, key: SearchKey, focus: BrowserColumn) -> (SearchModel, EffectModel) {
    match key {
        SearchKey::Start => (SearchModel {
            active: true,
            query: Seq::empty(),
            selected: 0,
            before_edit: match (m.filter, m.column) { (Some(q), Some(c)) => Some((c, q)), _ => None },
            filter: None,
            column: None,
        }, EffectModel::Nothing),
        SearchKey::Input(c) => if m.active {
            (SearchModel { query: m.query.push(c), selected: 0, ..m }, EffectModel::Nothing)
        } else {
            (m, EffectModel::Nothing)
        },
        SearchKey::Backspace => if m.active {
            (SearchModel { query: if m.query.len() > 0 { m.query.drop_last() } else { m.query }, selected: 0, ..m },
                EffectModel::Nothing)
        } else {
            (m, EffectModel::Nothing)
        },
        SearchKey::Confirm => if m.active {
            let q = lowercase_of(m.query);
            (SearchModel {
                active: false,
                query: Seq::empty(),
                before_edit: None,
                filter: if q.len() == 0 { None } else { Some(q) },
                column: if q.len() == 0 { None } else { Some(focus) },
                ..m
            }, EffectModel::Confirmed(m.query))
        } else {
            (m, EffectModel::Nothing)
        },
        SearchKey::Cancel => {
            let base = SearchModel { active: false, query: Seq::empty(), selected: 0, ..m };
            match m.before_edit {
                Some((c, q)) => (SearchModel { before_edit: None, filter: Some(q), column: Some(c), ..base },
                    EffectModel::Nothing),
                None => (SearchModel { filter: None, column: None, ..base },
                    if m.filter is Some { EffectModel::Cleared } else { EffectModel::Nothing }),
            }
        },
    }
}

/// Applies a search key to the search and the confirmed Browse filter (`filter`, of
/// `column`), with `focus` the focused Browse column.
pub fn search_key(s: &mut SearchEdit, filter: &mut Option<String>, column: &mut Option<BrowserColumn>,
    focus: BrowserColumn, key: SearchKey) -> (r: SearchEffect)
    ensures
        (search_model(*final(s), *final(filter), *final(column)), effect_model(r))
            == search_step(search_model(*old(s), *old(filter), *old(column)), key, focus),
{
    match key {
        SearchKey::Start => {
            s.before_edit = match (&*filter, *column) {
                (Some(q), Some(c)) => Some((c, q.clone())),
                _ => None,
            };
            s.active = true;
            s.query = String::new();
            s.selected = 0;
            *filter = None;
            *column = None;
            SearchEffect::Nothing
        },
        SearchKey::Input(c) => {
            if s.active {
                push_char(&mut s.query, c);
                s.selected = 0;
            }
            SearchEffect::Nothing
        },
        SearchKey::Backspace => {
            if s.active {
                let mut v = chars_of(s.query.as_str());
                if v.len() > 0 {
                    v.pop();
                }
                s.query = string_of(v.as_slice());
                s.selected = 0;
            }
            SearchEffect::Nothing
        },
        SearchKey::Confirm => {
            if !s.active {
                return SearchEffect::Nothing;
            }
            let q = to_lowercase(s.query.as_str());
            let typed_query = s.query.clone();
            if q.unicode_len() == 0 {
                *filter = None;
                *column = None;
            } else {
                *filter = Some(q);
                *column = Some(focus);
            }
            s.active = false;
            s.query = String::new();
            s.before_edit = None;
            SearchEffect::Confirmed(typed_query)
        },
        SearchKey::Cancel => {
            s.active = false;
            s.query = String::new();
            s.selected = 0;
            let before = s.before_edit.take();
            match before {
                Some((c, q)) => {
                    *filter = Some(q);
                    *column = Some(c);
                    SearchEffect::Nothing
                },
                None => {
                    let had = filter.is_some();
                    *filter = None;
                    *column = None;
                    if had { SearchEffect::Cleared } else { SearchEffect::Nothing }
                },
            }
        },
    }
}

/// Cancelling a search puts back the filter that was confirmed when it started, on the
/// same column, whatever was typed meanwhile.
pub proof fn search_cancel_restores(m: SearchModel, typed_keys: Seq<char>, focus: BrowserColumn)
    requires
        m.filter is Some,
        m.column is Some,
    ensures
        ({
            let started = search_step(m, SearchKey::Start, focus).0;
            let edited = typed_into(started, typed_keys);
            let cancelled = search_step(edited, SearchKey::Cancel, focus).0;
            cancelled.filter == m.filter && cancelled.column == m.column && !cancelled.active
        }),
{
    let started = search_step(m, SearchKey::Start, focus).0;
    lemma_typing_keeps_before(started, typed_keys);
}

/// The search after typing the characters `keys`, one by one.
pub open spec fn typed_into(m: SearchModel, keys: Seq<char>) -> SearchModel
    decreases keys.len(),
{
    if keys.len() == 0 { m } else { typed_into(search_step(m, SearchKey::Input(keys[0]), BrowserColumn::Artists).0, keys.drop_first()) }
}

proof fn lemma_typing_keeps_before(m: SearchModel, keys: Seq<char>)
    ensures
        typed_into(m, keys).before_edit == m.before_edit,
        typed_into(m, keys).filter == m.filter,
        typed_into(m, keys).column == m.column,
    decreases keys.len(),
{
    if keys.len() > 0 {
        lemma_typing_keeps_before(search_step(m, SearchKey::Input(keys[0]), BrowserColumn::Artists).0, keys.drop_first());
    }
}

/// The music folders (the roots of folder browse) arrived, `count` of them: with none
/// selected, the first is. Returns true when the only root is to be entered at once (one
/// root, and browsing has not gone into any folder yet).
pub fn music_folders_arrived(selected: &mut Option<usize>, count: usize, at_top: bool) -> (enter_only_root: bool)
    ensures
        *final(selected) == if (*old(selected)) is None && count > 0 { Some(0usize) } else { *old(selected) },
        enter_only_root == (count == 1 && at_top),
{
    if selected.is_none() && count > 0 {
        *selected = Some(0);
    }
    count == 1 && at_top
}

/// A folder's listing arrived. For the folder shown, once loaded: when its default row
/// was waiting, or nothing is selected, `default_row` is selected (and no longer waits);
/// when it failed, the default row no longer waits. Anything else changes nothing.
pub fn folder_listing_arrived(selected: &mut Option<usize>, default_pending: &mut bool, shown: bool, loaded: bool,
    default_row: usize)
    ensures
        shown && loaded && (*old(default_pending) || (*old(selected)) is None) ==> *final(selected) == Some(default_row)
            && !*final(default_pending),
        shown && loaded && !*old(default_pending) && (*old(selected)) is Some ==> *final(selected) == *old(selected)
            && !*final(default_pending),
        shown && !loaded ==> *final(selected) == *old(selected) && !*final(default_pending),
        !shown ==> *final(selected) == *old(selected) && *final(default_pending) == *old(default_pending),
{
    if !shown {
        return;
    }
    if loaded {
        if *default_pending || selected.is_none() {
            *selected = Some(default_row);
        }
    }
    *default_pending = false;
}

/// What the client does when a library index refresh ends.
#[derive(Debug, Clone, PartialEq, Eq)]
pub struct IndexRefreshStep {
    /// The status line.
    pub flash: String,
    /// Offline: browse the new index locally.
    pub offline_browse: bool,
    /// Online: drop the Browse fetches in flight.
    pub abort_fetches: bool,
    /// Clear the loaded albums and tracks and load the artists from the new index.
    pub reload_artists: bool,
    /// Mark the favorites again in the new index.
    pub merge_starred: bool,
    /// Show a desktop notification.
    pub notify: bool,
}

/// A library index refresh ended: `Ok(forced)` when the index was rebuilt (forced, or
/// on a schedule), else the error. On success Browse moves onto the new index (offline:
/// local browse; either way the artists reload unless browsing folders, and online the
/// Browse fetches in flight are dropped first), the favorites are marked again, the
/// status line says "Library index refresh complete" (forced) or "Library index
/// updated", and a forced refresh notifies when `notify_forced`. On failure it shows
/// `Library index refresh failed: ` and the error.
pub fn index_refresh_done(result: Result<bool, String>, reachable: bool, mode: BrowseMode, notify_forced: bool)
    -> (r: IndexRefreshStep)
    ensures
        match result {
            Ok(forced) => {
                &&& r.flash@ == (if forced { "Library index refresh complete"@ } else { "Library index updated"@ })
                &&& r.offline_browse == !reachable
                &&& r.abort_fetches == (reachable && mode != BrowseMode::Files)
                &&& r.reload_artists == (mode != BrowseMode::Files)
                &&& r.merge_starred
                &&& r.notify == (forced && notify_forced)
            },
            Err(e) => {
                &&& r.flash@ == "Library index refresh failed: "@ + e@
                &&& !r.offline_browse && !r.abort_fetches && !r.reload_artists && !r.merge_starred && !r.notify
            },
        },
{
    match result {
        Ok(forced) => IndexRefreshStep {
            flash: if forced {
                String::from_str("Library index refresh complete")
            } else {
                String::from_str("Library index updated")
            },
            offline_browse: !reachable,
            abort_fetches: reachable && mode != BrowseMode::Files,
            reload_artists: mode != BrowseMode::Files,
            merge_starred: true,
            notify: forced && notify_forced,
        },
        Err(e) => {
            let mut flash = String::from_str("Library index refresh failed: ");
            flash.append(e.as_str());
            IndexRefreshStep {
                flash, offline_browse: false, abort_fetches: false, reload_artists: false, merge_starred: false,
                notify: false,
            }
        },
    }
}

} // verus!
