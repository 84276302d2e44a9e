//! The Home tab: refreshing its panels from the listening history, moving through the
//! album strip and the lists, and what Enter on them does.
use vstd::prelude::*;
use crate::nav::{Tab, Direction, HomeSection, HomeState, RecentAlbum};
use crate::media::{Song, QueueState, PlayRecord, PlayHistory};
use crate::session::{TabView, clamp_index, clamp_usize, sat_sub, min_of, add_capped};

verus! {

/// How many plays the Home tab lists.
pub const RECENT_TRACKS: usize = 10;

/// The last `RECENT_TRACKS` records of the history, most recent first.
pub open spec fn recent_tracks_spec(records: Seq<PlayRecord>) -> Seq<PlayRecord> {
    let n = if records.len() < RECENT_TRACKS { records.len() as int } else { RECENT_TRACKS as int };
    Seq::new(n as nat, |i: int| records[records.len() - 1 - i])
}

/// The plays the Home tab lists: the last `RECENT_TRACKS` of the history, newest first.
pub fn recent_tracks(history: &PlayHistory) -> (r: Vec<PlayRecord>)
    ensures r@ == recent_tracks_spec(history.records@),
{
    let total = history.records.len();
    let n = if total < RECENT_TRACKS { total } else { RECENT_TRACKS };
    let mut r: Vec<PlayRecord> = Vec::new();
    let mut i: usize = 0;
    while i < n
        invariant
            n <= total,
            total == history.records@.len(),
            i <= n,
            r@.len() == i,
            forall|k: int| 0 <= k < i ==> #[trigger] r@[k] == history.records@[total - 1 - k],
        decreases n - i,
    {
        r.push(history.records[total - 1 - i].duplicate());
        i += 1;
    }
    assert(r@ =~= recent_tracks_spec(history.records@));
    r
}

/// How many albums the art strip holds at most.
pub const RECENT_ALBUMS: usize = 20;

/// The art strip made from `albums` (most recent first): the first `RECENT_ALBUMS`.
pub open spec fn strip_of(albums: Seq<RecentAlbum>) -> Seq<RecentAlbum> {
    if albums.len() <= RECENT_ALBUMS { albums } else { albums.take(RECENT_ALBUMS as int) }
}

/// The album ids of the art strip, in order.
pub open spec fn strip_ids(albums: Seq<RecentAlbum>) -> Seq<Seq<char>> {
    albums.map_values(|a: RecentAlbum| a.album_id@)
}

fn same_strip(a: &Vec<RecentAlbum>, b: &Vec<RecentAlbum>) -> (r: bool)
    ensures r == (strip_ids(a@) == strip_ids(b@)),
{
    if a.len() != b.len() {
        assert(strip_ids(a@).len() != strip_ids(b@).len());
        return false;
    }
    let mut i: usize = 0;
    while i < a.len()
        invariant
            i <= a.len(),
            a.len() == b.len(),
            forall|j: int| 0 <= j < i ==> a@[j].album_id@ == b@[j].album_id@,
        decreases a.len() - i,
    {
        if a[i].album_id != b[i].album_id {
            assert(strip_ids(a@)[i as int] != strip_ids(b@)[i as int]);
            return false;
        }
        i += 1;
    }
    assert(strip_ids(a@) =~= strip_ids(b@));
    true
}

/// The number of rows of a Home panel (the album strip is moved through separately).
pub open spec fn section_len(h: HomeState, s: HomeSection) -> int {
    match s {
        HomeSection::RecentAlbums => 0,
        HomeSection::RecentTracks => h.recent_tracks@.len() as int,
        HomeSection::TopArtists => h.top_artists@.len() as int,
        HomeSection::Rediscover => h.rediscover@.len() as int,
    }
}

/// Refreshes the Home panels with lists newly computed from the history. The plays are
/// the last `RECENT_TRACKS`, newest first; the album strip holds the first `RECENT_ALBUMS`
/// of `recent_albums` (most recent first). When the album strip holds the same albums in
/// the same order, its scroll and selection are kept (moved back onto the strip) and the
/// cursor of a list panel is kept on one of its rows; otherwise the strip starts again at
/// its first album and the Recent Albums panel is selected.
pub fn refresh_home(
    home: &mut HomeState,
    history: &PlayHistory,
    recent_albums: Vec<RecentAlbum>,
    top_artists: Vec<(String, String, u64)>,
    rediscover: Vec<(String, String)>,
)
    ensures
        final(home).recent_albums@ == strip_of(recent_albums@),
        final(home).recent_albums@.len() <= RECENT_ALBUMS,
        final(home).recent_tracks@ == recent_tracks_spec(history.records@),
        final(home).top_artists@ == top_artists@,
        final(home).rediscover@ == rediscover@,
        strip_ids(old(home).recent_albums@) == strip_ids(strip_of(recent_albums@)) ==> {
            &&& final(home).album_scroll_offset == clamp_index(old(home).album_scroll_offset as int,
                strip_of(recent_albums@).len() as int)
            &&& final(home).album_selected_index == clamp_index(old(home).album_selected_index as int,
                strip_of(recent_albums@).len() as int)
            &&& final(home).active_section == old(home).active_section
            &&& final(home).selected_index == if old(home).active_section == HomeSection::RecentAlbums {
                old(home).selected_index as int
            } else {
                clamp_index(old(home).selected_index as int, section_len(*final(home), old(home).active_section))
            }
        },
        strip_ids(old(home).recent_albums@) != strip_ids(strip_of(recent_albums@)) ==> {
            &&& final(home).album_scroll_offset == 0
            &&& final(home).album_selected_index == 0
            &&& final(home).selected_index == 0
            &&& final(home).active_section == HomeSection::RecentAlbums
        },
{
    let mut recent_albums = recent_albums;
    recent_albums.truncate(RECENT_ALBUMS);
    let unchanged = same_strip(&home.recent_albums, &recent_albums);
    let n = recent_albums.len();
    home.recent_albums = recent_albums;
    if unchanged {
        home.album_scroll_offset = clamp_usize(home.album_scroll_offset, n);
        home.album_selected_index = clamp_usize(home.album_selected_index, n);
    } else {
        home.album_scroll_offset = 0;
        home.album_selected_index = 0;
    }
    home.recent_tracks = recent_tracks(history);
    home.top_artists = top_artists;
    home.rediscover = rediscover;
    if !unchanged {
        home.selected_index = 0;
        home.active_section = HomeSection::RecentAlbums;
    } else {
        match home.active_section {
            HomeSection::RecentTracks => {
                home.selected_index = clamp_usize(home.selected_index, home.recent_tracks.len());
            },
            HomeSection::Rediscover => {
                home.selected_index = clamp_usize(home.selected_index, home.rediscover.len());
            },
            HomeSection::TopArtists => {
                home.selected_index = clamp_usize(home.selected_index, home.top_artists.len());
            },
            HomeSection::RecentAlbums => {},
        }
    }
}

/// Rows a Home list panel moves by on Page Up / Page Down.
pub const HOME_PAGE: usize = 8;

/// The cursor of a Home list panel of `len` rows after moving `dir`: one row up or down
/// (Top and Bottom too), or `HOME_PAGE` rows; it stays put in an empty panel.
pub open spec fn home_cursor_moved(sel: int, len: int, dir: Direction) -> int {
    if len == 0 {
        sel
    } else {
        match dir {
            Direction::Up | Direction::Top => sat_sub(sel, 1),
            Direction::Down | Direction::Bottom => min_of(sel + 1, len - 1),
            Direction::PageUp => sat_sub(sel, HOME_PAGE as int),
            Direction::PageDown => min_of(sel + HOME_PAGE, len - 1),
        }
    }
}

/// Moves the cursor of the selected Home list panel (the album strip has its own moves;
/// with it selected nothing changes here).
pub fn move_home_cursor(home: &mut HomeState, dir: Direction)
    ensures
        final(home).selected_index == home_cursor_moved(old(home).selected_index as int,
            section_len(*old(home), old(home).active_section), dir),
        final(home).active_section == old(home).active_section,
        final(home).album_selected_index == old(home).album_selected_index,
        final(home).album_scroll_offset == old(home).album_scroll_offset,
{
    let len = match home.active_section {
        HomeSection::RecentAlbums => 0,
        HomeSection::RecentTracks => home.recent_tracks.len(),
        HomeSection::TopArtists => home.top_artists.len(),
        HomeSection::Rediscover => home.rediscover.len(),
    };
    if len == 0 {
        return;
    }
    let sel = home.selected_index;
    home.selected_index = match dir {
        Direction::Up | Direction::Top => if sel >= 1 { sel - 1 } else { 0 },
        Direction::Down | Direction::Bottom => add_capped(sel, 1, len - 1),
        Direction::PageUp => if sel >= HOME_PAGE { sel - HOME_PAGE } else { 0 },
        Direction::PageDown => add_capped(sel, HOME_PAGE, len - 1),
    };
}

/// The album list (the strip shown without art) after moving `dir` with `rows` rows
/// visible (at least one): the new (selected, scroll). The view scrolls just enough to
/// keep the selection visible.
pub open spec fn album_list_moved(sel: int, scroll: int, len: int, rows: int, dir: Direction) -> (int, int) {
    let rows = if rows < 1 { 1 } else { rows };
    let max = sat_sub(len, 1);
    match dir {
        Direction::Up | Direction::Top => {
            let s = sat_sub(sel, 1);
            (s, if s < scroll { s } else { scroll })
        },
        Direction::Down | Direction::Bottom => {
            let s = min_of(sel + 1, max);
            (s, if s > scroll + (rows - 1) { min_of(scroll + 1, usize::MAX as int) } else { scroll })
        },
        Direction::PageUp => {
            let s = sat_sub(sel, rows);
            (s, min_of(scroll, s))
        },
        Direction::PageDown => {
            let s = min_of(sel + rows, max);
            (s, if s > scroll + (rows - 1) { sat_sub(s, rows - 1) } else { scroll })
        },
    }
}

/// Moves through the Recent Albums list shown without art (`rows` rows visible); an
/// empty list does not move.
pub fn move_album_list(home: &mut HomeState, dir: Direction, rows: usize)
    ensures
        old(home).recent_albums@.len() == 0 ==> final(home).album_selected_index == old(home).album_selected_index
            && final(home).album_scroll_offset == old(home).album_scroll_offset,
        old(home).recent_albums@.len() > 0 ==> (final(home).album_selected_index as int, final(home).album_scroll_offset as int)
            == album_list_moved(old(home).album_selected_index as int, old(home).album_scroll_offset as int,
                old(home).recent_albums@.len() as int, rows as int, dir),
        final(home).selected_index == old(home).selected_index,
        final(home).active_section == old(home).active_section,
{
    let len = home.recent_albums.len();
    if len == 0 {
        return;
    }
    let max = len - 1;
    let rows = if rows < 1 { 1 } else { rows };
    let sel = home.album_selected_index;
    let scroll = home.album_scroll_offset;
    match dir {
        Direction::Up | Direction::Top => {
            let s = if sel >= 1 { sel - 1 } else { 0 };
            home.album_selected_index = s;
            if s < scroll {
                home.album_scroll_offset = s;
            }
        },
        Direction::Down | Direction::Bottom => {
            let s = add_capped(sel, 1, max);
            home.album_selected_index = s;
            if s >= scroll && s - scroll > rows - 1 {
                home.album_scroll_offset = add_capped(scroll, 1, usize::MAX);
            }
        },
        Direction::PageUp => {
            let s = if sel >= rows { sel - rows } else { 0 };
            home.album_selected_index = s;
            if s < scroll {
                home.album_scroll_offset = s;
            }
        },
        Direction::PageDown => {
            let s = add_capped(sel, rows, max);
            home.album_selected_index = s;
            if s >= scroll && s - scroll > rows - 1 {
                home.album_scroll_offset = s - (rows - 1);
            }
        },
    }
}

/// `d` divided by `w`, rounded up.
pub open spec fn ceil_div(d: int, w: int) -> int {
    d / w + if d % w != 0 { 1int } else { 0int }
}

/// `a + b`, or `usize::MAX` when that is larger.
pub open spec fn sat_add(a: int, b: int) -> int {
    min_of(a + b, usize::MAX as int)
}

/// The strip's scroll offset after the selection `sel` moved above it: it moves up by
/// whole rows of `per_row` thumbnails until `sel` is on the first row shown.
pub open spec fn strip_scroll_up(off: int, sel: int, per_row: int) -> int {
    if sel < off { sat_sub(off, ceil_div(off - sel, per_row) * per_row) } else { off }
}

/// The strip's scroll offset after the selection `sel` moved past the `vis` thumbnails
/// shown: it moves down by whole rows of `per_row` thumbnails until `sel` is shown.
pub open spec fn strip_scroll_down(off: int, sel: int, per_row: int, vis: int) -> int {
    if sel > off + sat_sub(vis, 1) {
        sat_add(off, ceil_div(sel - (off + sat_sub(vis, 1)), per_row) * per_row)
    } else {
        off
    }
}

/// The strip's scroll offset once the selection `sel` is made visible again (by whole
/// rows, either way), kept on the strip (at most `max`).
pub open spec fn strip_scroll(off: int, sel: int, per_row: int, vis: int, max: int) -> int {
    min_of(if sel < off { strip_scroll_up(off, sel, per_row) } else { strip_scroll_down(off, sel, per_row, vis) }, max)
}

fn ceil_div_exec(d: usize, w: usize) -> (r: usize)
    requires w >= 1,
    ensures r == ceil_div(d as int, w as int),
{
    let q = d / w;
    if d % w != 0 {
        assert(q < usize::MAX) by (nonlinear_arith)
            requires q == d / w, w >= 1, d % w != 0, d <= usize::MAX;
        q + 1
    } else {
        q
    }
}

fn scroll_up_to(off: usize, sel: usize, per_row: usize) -> (r: usize)
    requires per_row >= 1,
    ensures r == strip_scroll_up(off as int, sel as int, per_row as int),
{
    if sel < off {
        let rows = ceil_div_exec(off - sel, per_row);
        match rows.checked_mul(per_row) {
            Some(p) => if p <= off { off - p } else { 0 },
            None => 0,
        }
    } else {
        off
    }
}

fn scroll_down_to(off: usize, sel: usize, per_row: usize, vis: usize) -> (r: usize)
    requires per_row >= 1, vis >= 1,
    ensures r == strip_scroll_down(off as int, sel as int, per_row as int, vis as int),
{
    if sel >= off && sel - off > vis - 1 {
        let rows = ceil_div_exec(sel - off - (vis - 1), per_row);
        match rows.checked_mul(per_row) {
            Some(p) => if p <= usize::MAX - off { off + p } else { usize::MAX },
            None => usize::MAX,
        }
    } else {
        off
    }
}

fn scroll_into_view(off: usize, sel: usize, per_row: usize, vis: usize, max: usize) -> (r: usize)
    requires per_row >= 1, vis >= 1,
    ensures r == strip_scroll(off as int, sel as int, per_row as int, vis as int, max as int),
{
    let o = if sel < off { scroll_up_to(off, sel, per_row) } else { scroll_down_to(off, sel, per_row, vis) };
    if o <= max { o } else { max }
}

/// The album strip after moving `dir` (shown with art, `per_row` thumbnails to a row,
/// `vis` thumbnails visible, each at least one): the new (selected, scroll). Up and Down
/// move a row, Page Up and Page Down the visible thumbnails; the selection stays on the
/// strip and the scroll follows it by whole rows.
pub open spec fn album_strip_moved(sel: int, off: int, len: int, per_row: int, vis: int, dir: Direction) -> (int, int) {
    let per_row = if per_row < 1 { 1 } else { per_row };
    let vis = if vis < 1 { 1 } else { vis };
    let max = sat_sub(len, 1);
    let step = match dir {
        Direction::PageUp | Direction::PageDown => vis,
        _ => per_row,
    };
    let s = match dir {
        Direction::Up | Direction::Top | Direction::PageUp => sat_sub(sel, step),
        _ => min_of(sel + step, max),
    };
    (s, strip_scroll(off, s, per_row, vis, max))
}

/// Moves up or down through the Recent Albums strip shown with art; an empty strip does
/// not move.
pub fn move_album_strip(home: &mut HomeState, dir: Direction, per_row: usize, vis: usize)
    ensures
        old(home).recent_albums@.len() == 0 ==> final(home).album_selected_index == old(home).album_selected_index
            && final(home).album_scroll_offset == old(home).album_scroll_offset,
        old(home).recent_albums@.len() > 0 ==> (final(home).album_selected_index as int, final(home).album_scroll_offset as int)
            == album_strip_moved(old(home).album_selected_index as int, old(home).album_scroll_offset as int,
                old(home).recent_albums@.len() as int, per_row as int, vis as int, dir),
        final(home).selected_index == old(home).selected_index,
        final(home).active_section == old(home).active_section,
{
    let len = home.recent_albums.len();
    if len == 0 {
        return;
    }
    let max = len - 1;
    let per_row = if per_row < 1 { 1 } else { per_row };
    let vis = if vis < 1 { 1 } else { vis };
    let step = match dir {
        Direction::PageUp | Direction::PageDown => vis,
        _ => per_row,
    };
    let sel = home.album_selected_index;
    let s = match dir {
        Direction::Up | Direction::Top | Direction::PageUp => if sel >= step { sel - step } else { 0 },
        _ => add_capped(sel, step, max),
    };
    home.album_selected_index = s;
    home.album_scroll_offset = scroll_into_view(home.album_scroll_offset, s, per_row, vis, max);
}

/// The album strip (shown with art) after a step left or right within the visible row
/// it is on: no step past either end of the row or past the last album; the scroll then
/// follows the selection by whole rows and stays on the strip.
pub open spec fn album_strip_side(sel: int, off: int, len: int, per_row: int, vis: int, right: bool) -> (int, int) {
    let per_row = if per_row < 1 { 1 } else { per_row };
    let vis = if vis < 1 { 1 } else { vis };
    let max = sat_sub(len, 1);
    let col = sat_sub(sel, off) % per_row;
    if !right {
        if col == 0 {
            (sel, off)
        } else {
            let s = sat_sub(sel, 1);
            (s, min_of(strip_scroll_up(off, s, per_row), max))
        }
    } else {
        if col + 1 >= per_row || sel >= max {
            (sel, off)
        } else {
            (sel + 1, min_of(strip_scroll_down(off, sel + 1, per_row, vis), max))
        }
    }
}

/// Left / Right on the Home tab. In a list panel it moves to the previous / next panel,
/// cursor on its first row. On Recent Albums it steps through the albums: up / down the
/// list when shown without art (`rows` rows visible), else along the row of thumbnails
/// (`per_row` to a row, `vis` visible).
pub fn album_side_step(home: &mut HomeState, right: bool, show_art: bool, per_row: usize, vis: usize, rows: usize)
    ensures
        old(home).active_section != HomeSection::RecentAlbums ==> {
            &&& final(home).active_section == if right { old(home).active_section.next_spec() } else { old(home).active_section.prev_spec() }
            &&& final(home).selected_index == 0
            &&& final(home).album_selected_index == old(home).album_selected_index
            &&& final(home).album_scroll_offset == old(home).album_scroll_offset
        },
        old(home).active_section == HomeSection::RecentAlbums ==> final(home).active_section == old(home).active_section
            && final(home).selected_index == old(home).selected_index,
        old(home).active_section == HomeSection::RecentAlbums && !show_art ==>
            (final(home).album_selected_index as int, final(home).album_scroll_offset as int) == album_list_moved(
                old(home).album_selected_index as int, old(home).album_scroll_offset as int,
                old(home).recent_albums@.len() as int, rows as int, if right { Direction::Down } else { Direction::Up }),
        old(home).active_section == HomeSection::RecentAlbums && show_art && old(home).recent_albums@.len() == 0 ==>
            final(home).album_selected_index == old(home).album_selected_index
            && final(home).album_scroll_offset == old(home).album_scroll_offset,
        old(home).active_section == HomeSection::RecentAlbums && show_art && old(home).recent_albums@.len() > 0 ==>
            (final(home).album_selected_index as int, final(home).album_scroll_offset as int) == album_strip_side(
                old(home).album_selected_index as int, old(home).album_scroll_offset as int,
                old(home).recent_albums@.len() as int, per_row as int, vis as int, right),
{
    if home.active_section != HomeSection::RecentAlbums {
        home.active_section = if right { home.active_section.next() } else { home.active_section.prev() };
        home.selected_index = 0;
        return;
    }
    let len = home.recent_albums.len();
    let max = if len >= 1 { len - 1 } else { 0 };
    let sel = home.album_selected_index;
    let off = home.album_scroll_offset;
    if !show_art {
        let rows = if rows < 1 { 1 } else { rows };
        if !right {
            let s = if sel >= 1 { sel - 1 } else { 0 };
            home.album_selected_index = s;
            if s < off {
                home.album_scroll_offset = s;
            }
        } else {
            let s = add_capped(sel, 1, max);
            home.album_selected_index = s;
            if s >= off && s - off > rows - 1 {
                home.album_scroll_offset = add_capped(off, 1, usize::MAX);
            }
        }
        return;
    }
    if len == 0 {
        return;
    }
    let per_row = if per_row < 1 { 1 } else { per_row };
    let vis = if vis < 1 { 1 } else { vis };
    let rel = if sel >= off { sel - off } else { 0 };
    let col = rel % per_row;
    if !right {
        if col == 0 {
            return;
        }
        let s = if sel >= 1 { sel - 1 } else { 0 };
        home.album_selected_index = s;
        let o = scroll_up_to(off, s, per_row);
        home.album_scroll_offset = if o <= max { o } else { max };
    } else {
        if col + 1 >= per_row || sel >= max {
            return;
        }
        let s = sel + 1;
        home.album_selected_index = s;
        let o = scroll_down_to(off, s, per_row, vis);
        home.album_scroll_offset = if o <= max { o } else { max };
    }
}

/// The song queued when a recent play is chosen on the Home tab: the record's track,
/// artist and album, its length (as `u32`), and nothing else.
pub open spec fn played_song(r: PlayRecord) -> Song {
    Song {
        id: r.song_id,
        title: r.track_name,
        album: Some(r.album_name),
        album_id: Some(r.album_id),
        artist: Some(r.artist_name),
        artist_id: Some(r.artist_id),
        cover_art: None,
        duration: Some(r.duration_secs as u32),
        track: None,
        disc_number: None,
        year: None,
        starred: false,
        user_rating: None,
    }
}

fn song_of_play(r: &PlayRecord) -> (s: Song)
    ensures s == played_song(*r),
{
    Song {
        id: r.song_id.clone(),
        title: r.track_name.clone(),
        album: Some(r.album_name.clone()),
        album_id: Some(r.album_id.clone()),
        artist: Some(r.artist_name.clone()),
        artist_id: Some(r.artist_id.clone()),
        cover_art: None,
        duration: Some(r.duration_secs as u32),
        track: None,
        disc_number: None,
        year: None,
        starred: false,
        user_rating: None,
    }
}

/// What Enter on the Home tab asks of the application.
#[derive(Debug, Clone, PartialEq, Eq)]
pub enum HomeChoice {
    /// Nothing is selected there.
    Nothing,
    /// Browse is shown; select this artist there.
    BrowseArtist(String),
    /// Browse is shown.
    Browse,
    /// The song now under the queue's cursor is to be played (as playback generation
    /// `play_gen`).
    PlayCurrent,
}

/// Enter on the Home tab. An album of the strip opens Browse on its artist; a recent
/// play is appended to the queue, the cursor put on it and the playback generation
/// advanced; Top Artists opens Browse; a Rediscover suggestion opens Browse on its
/// artist. Opening Browse clears its search.
pub fn select_home(home: &HomeState, queue: &mut QueueState, view: &mut TabView, play_gen: &mut u64) -> (r: HomeChoice)
    requires
        *old(play_gen) < u64::MAX,
    ensures
        (r == HomeChoice::Nothing || r == HomeChoice::PlayCurrent) ==> final(view).active_tab == old(view).active_tab
            && final(view).search_filter == old(view).search_filter
            && final(view).search_filter_column == old(view).search_filter_column,
        (r is BrowseArtist || r == HomeChoice::Browse) ==> final(view).active_tab == Tab::Browser
            && final(view).search_filter is None && final(view).search_filter_column is None,
        final(view).playlist_overlay_visible == old(view).playlist_overlay_visible,
        final(view).playlist_picker_open == old(view).playlist_picker_open,
        final(view).radio_picker_visible == old(view).radio_picker_visible,
        final(view).radio_editing == old(view).radio_editing,
        r != HomeChoice::PlayCurrent ==> final(queue).songs@ == old(queue).songs@
            && final(queue).cursor == old(queue).cursor && *final(play_gen) == *old(play_gen),
        final(queue).scroll == old(queue).scroll,
        final(queue).loop_enabled == old(queue).loop_enabled,
        match home.active_section {
            HomeSection::RecentAlbums => if home.album_selected_index < home.recent_albums@.len() {
                r matches HomeChoice::BrowseArtist(a) && a@ == home.recent_albums@[home.album_selected_index as int].artist_name@
            } else {
                r == HomeChoice::Nothing
            },
            HomeSection::RecentTracks => if home.selected_index < home.recent_tracks@.len() {
                &&& r == HomeChoice::PlayCurrent
                &&& final(queue).songs@ == old(queue).songs@.push(played_song(home.recent_tracks@[home.selected_index as int]))
                &&& final(queue).cursor == old(queue).songs@.len()
                &&& *final(play_gen) == *old(play_gen) + 1
            } else {
                r == HomeChoice::Nothing
            },
            HomeSection::TopArtists => r == HomeChoice::Browse,
            HomeSection::Rediscover => if home.selected_index < home.rediscover@.len() {
                r matches HomeChoice::BrowseArtist(a) && a@ == home.rediscover@[home.selected_index as int].1@
            } else {
                r == HomeChoice::Browse
            },
        },
{
    match home.active_section {
        HomeSection::RecentAlbums => {
            let idx = home.album_selected_index;
            if idx < home.recent_albums.len() {
                let artist = home.recent_albums[idx].artist_name.clone();
                view.active_tab = Tab::Browser;
                view.search_filter = None;
                view.search_filter_column = None;
                HomeChoice::BrowseArtist(artist)
            } else {
                HomeChoice::Nothing
            }
        },
        HomeSection::RecentTracks => {
            let idx = home.selected_index;
            if idx < home.recent_tracks.len() {
                let song = song_of_play(&home.recent_tracks[idx]);
                queue.push(song);
                queue.cursor = queue.songs.len() - 1;
                *play_gen = *play_gen + 1;
                HomeChoice::PlayCurrent
            } else {
                HomeChoice::Nothing
            }
        },
        HomeSection::TopArtists => {
            view.active_tab = Tab::Browser;
            view.search_filter = None;
            view.search_filter_column = None;
            HomeChoice::Browse
        },
        HomeSection::Rediscover => {
            let idx = home.selected_index;
            let r = if idx < home.rediscover.len() {
                HomeChoice::BrowseArtist(home.rediscover[idx].1.clone())
            } else {
                HomeChoice::Browse
            };
            view.active_tab = Tab::Browser;
            view.search_filter = None;
            view.search_filter_column = None;
            r
        },
    }
}

/// Tab / Shift+Tab between the Home panels (only on the Home tab): the next or previous
/// panel, with its cursor on the first row.
pub fn home_section_step(home: &mut HomeState, tab: Tab, forward: bool)
    ensures
        tab == Tab::Home ==> final(home).active_section == (if forward {
            old(home).active_section.next_spec()
        } else {
            old(home).active_section.prev_spec()
        }) && final(home).selected_index == 0,
        tab != Tab::Home ==> final(home).active_section == old(home).active_section
            && final(home).selected_index == old(home).selected_index,
        final(home).album_selected_index == old(home).album_selected_index,
        final(home).album_scroll_offset == old(home).album_scroll_offset,
{
    if tab == Tab::Home {
        home.active_section = if forward { home.active_section.next() } else { home.active_section.prev() };
        home.selected_index = 0;
    }
}

} // verus!
