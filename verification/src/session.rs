//! The decisions of the running client that depend only on its state: switching tabs,
//! the end and start of a track, adding to the queue, play and pause, ratings and the
//! library-wide questions.
//! Each takes the state and the event and gives the next state and what to do.
use vstd::prelude::*;
use crate::nav::{Tab, BrowserColumn};
use crate::media::{Song, QueueState};
use crate::track_order::{album_order, sort_album_order, artist_order, sort_artist_order};
use crate::text::{has_prefix, strip_prefix_str, strip_prefix};
use crate::config::BrowseMode;
use crate::nav::Direction;

verus! {

/// The tab bar and the overlays and search that a change of tab resets.
#[derive(Debug, Default)]
pub struct TabView {
    pub active_tab: Tab,
    /// The confirmed Browse search, and the column it filters.
    pub search_filter: Option<String>,
    pub search_filter_column: Option<BrowserColumn>,
    pub playlist_overlay_visible: bool,
    pub playlist_picker_open: bool,
    pub radio_picker_visible: bool,
    /// The radio picker is taking typed input (adding or editing a station).
    pub radio_editing: bool,
}

/// `after` is `before` moved to `tab`: the search and its column are cleared and the
/// playlist overlay, the playlist picker and the radio picker are closed.
pub open spec fn entered_tab(after: TabView, tab: Tab) -> bool {
    &&& after.active_tab == tab
    &&& after.search_filter is None
    &&& after.search_filter_column is None
    &&& !after.playlist_overlay_visible
    &&& !after.playlist_picker_open
    &&& !after.radio_picker_visible
    &&& !after.radio_editing
}

/// Moves to `tab`, closing the overlays and clearing the Browse search. Returns true
/// when the Home panels must be refreshed (the new tab is Home).
pub fn go_to_tab(v: &mut TabView, tab: Tab) -> (refresh_home: bool)
    ensures
        entered_tab(*final(v), tab),
        refresh_home == (tab == Tab::Home),
{
    v.playlist_overlay_visible = false;
    v.playlist_picker_open = false;
    v.radio_picker_visible = false;
    v.radio_editing = false;
    v.active_tab = tab;
    v.search_filter = None;
    v.search_filter_column = None;
    tab == Tab::Home
}

/// Tab / Shift+Tab: the next (or previous) tab, with the overlays closed and the Browse
/// search cleared. Returns true when the Home panels must be refreshed.
pub fn switch_tab(v: &mut TabView, reverse: bool) -> (refresh_home: bool)
    ensures
        entered_tab(*final(v), if reverse { old(v).active_tab.prev_spec() } else { old(v).active_tab.next_spec() }),
        refresh_home == (final(v).active_tab == Tab::Home),
{
    let tab = if reverse { v.active_tab.prev() } else { v.active_tab.next() };
    go_to_tab(v, tab)
}

/// What the player does when a track has played to its end.
#[derive(Debug, Clone, Copy, PartialEq, Eq, Structural)]
pub enum TrackEnd {
    /// Nothing more to play: the current song is cleared.
    Stop,
    /// Play the song now under the queue's cursor.
    PlayCurrent,
}

/// A track ended. A radio stream stops. Otherwise the queue moves on to the next song;
/// at the end of a non-empty queue with looping on it starts again from the first song
/// (cursor and scroll at 0); else playback stops and the queue is left as it was.
pub fn on_track_ended(queue: &mut QueueState, radio: bool) -> (r: TrackEnd)
    ensures
        final(queue).songs@ == old(queue).songs@,
        final(queue).loop_enabled == old(queue).loop_enabled,
        radio ==> r == TrackEnd::Stop && final(queue).cursor == old(queue).cursor
            && final(queue).scroll == old(queue).scroll,
        !radio && old(queue).cursor + 1 < old(queue).songs@.len() ==> r == TrackEnd::PlayCurrent
            && final(queue).cursor == old(queue).cursor + 1 && final(queue).scroll == old(queue).scroll,
        !radio && old(queue).cursor + 1 >= old(queue).songs@.len() && old(queue).songs@.len() > 0
            && old(queue).loop_enabled ==> r == TrackEnd::PlayCurrent && final(queue).cursor == 0
            && final(queue).scroll == 0,
        !radio && old(queue).cursor + 1 >= old(queue).songs@.len()
            && !(old(queue).songs@.len() > 0 && old(queue).loop_enabled) ==> r == TrackEnd::Stop
            && final(queue).cursor == old(queue).cursor && final(queue).scroll == old(queue).scroll,
{
    if radio {
        return TrackEnd::Stop;
    }
    if queue.next() {
        TrackEnd::PlayCurrent
    } else if queue.songs.len() > 0 && queue.loop_enabled {
        queue.cursor = 0;
        queue.scroll = 0;
        TrackEnd::PlayCurrent
    } else {
        TrackEnd::Stop
    }
}

/// `i` kept on a row of a list of `len` rows (0 for an empty list).
pub open spec fn clamp_index(i: int, len: int) -> int {
    if len <= 0 { 0 } else if i < len - 1 { i } else { len - 1 }
}

pub(crate) fn clamp_usize(i: usize, len: usize) -> (r: usize)
    ensures r == clamp_index(i as int, len as int),
{
    if len == 0 { 0 } else if i < len - 1 { i } else { len - 1 }
}

/// `a - b`, or 0 when `b` is larger.
pub open spec fn sat_sub(a: int, b: int) -> int {
    if a >= b { a - b } else { 0 }
}

/// The smaller of `a` and `b`.
pub open spec fn min_of(a: int, b: int) -> int {
    if a <= b { a } else { b }
}

/// `min(a + b, max)` without overflow, for `max` no larger than `usize::MAX`.
pub(crate) fn add_capped(a: usize, b: usize, max: usize) -> (r: usize)
    ensures r == min_of(a + b, max as int),
{
    if a >= max { max } else if b < max - a { a + b } else { max }
}

/// Puts `songs` in the queue: in place of what it held (`replace`) or after it. Returns
/// true when playback must start at the first song: the queue was replaced, or was empty,
/// and now holds songs; the cursor and scroll are then at 0.
pub fn queue_songs(queue: &mut QueueState, songs: &[Song], replace: bool) -> (play: bool)
    ensures
        final(queue).songs@ == if replace { songs@ } else { old(queue).songs@ + songs@ },
        play == ((replace || old(queue).songs@.len() == 0) && final(queue).songs@.len() > 0),
        play ==> final(queue).cursor == 0 && final(queue).scroll == 0,
        !play && replace ==> final(queue).cursor == 0 && final(queue).scroll == 0,
        !play && !replace ==> final(queue).cursor == old(queue).cursor && final(queue).scroll == old(queue).scroll,
        final(queue).loop_enabled == old(queue).loop_enabled,
{
    if replace {
        queue.songs = Vec::new();
        queue.cursor = 0;
        queue.scroll = 0;
    }
    let was_empty = queue.songs.len() == 0;
    let ghost start = queue.songs@;
    let mut i: usize = 0;
    while i < songs.len()
        invariant
            i <= songs.len(),
            queue.songs@ == start + songs@.take(i as int),
            queue.cursor == old(queue).cursor || replace,
            replace ==> queue.cursor == 0 && queue.scroll == 0,
            !replace ==> queue.cursor == old(queue).cursor && queue.scroll == old(queue).scroll,
            queue.loop_enabled == old(queue).loop_enabled,
            start == if replace { Seq::<Song>::empty() } else { old(queue).songs@ },
        decreases songs.len() - i,
    {
        queue.push(songs[i].duplicate());
        assert(songs@.take(i + 1) =~= songs@.take(i as int).push(songs@[i as int]));
        i += 1;
    }
    assert(songs@.take(songs.len() as int) =~= songs@);
    if (replace || was_empty) && queue.songs.len() > 0 {
        queue.cursor = 0;
        queue.scroll = 0;
        true
    } else {
        false
    }
}

/// What to do about cover art when a song starts.
#[derive(Debug, Clone, PartialEq, Eq)]
pub enum ArtStep {
    /// The song has no cover art: drop the art-derived accent.
    NoArt,
    /// Fetch this cover (the cached one is another).
    Fetch(String),
    /// The cached cover is this song's: use it at once.
    UseCached,
}

/// The art step for a song whose cover is `cover` when the cover `cached` is at hand.
pub open spec fn art_step_for(cover: Option<Seq<char>>, cached: Option<Seq<char>>) -> ArtStepModel {
    match cover {
        None => ArtStepModel::NoArt,
        Some(c) => if cached == Some(c) { ArtStepModel::UseCached } else { ArtStepModel::Fetch(c) },
    }
}

/// `ArtStep` as plain values.
pub enum ArtStepModel {
    NoArt,
    Fetch(Seq<char>),
    UseCached,
}

pub open spec fn art_model(a: ArtStep) -> ArtStepModel {
    match a {
        ArtStep::NoArt => ArtStepModel::NoArt,
        ArtStep::Fetch(c) => ArtStepModel::Fetch(c@),
        ArtStep::UseCached => ArtStepModel::UseCached,
    }
}

/// What the application does when the song under the queue's cursor starts.
#[derive(Debug, Clone, PartialEq, Eq)]
pub struct TrackStartPlan {
    pub art: ArtStep,
    /// Fetch the song's lyrics (the pane is shown and holds another song's).
    pub fetch_lyrics: bool,
    /// (song id, album id) of the songs to download to the local cache: the current one
    /// and the next two, those not cached yet.
    pub to_cache: Vec<(String, String)>,
}

/// True when `ids` holds `id`.
pub open spec fn holds_id(ids: Seq<String>, id: Seq<char>) -> bool {
    exists|i: int| 0 <= i < ids.len() && #[trigger] ids[i]@ == id
}

fn has_id(ids: &[String], id: &String) -> (r: bool)
    ensures r == holds_id(ids@, id@),
{
    let mut i: usize = 0;
    while i < ids.len()
        invariant
            i <= ids.len(),
            forall|k: int| 0 <= k < i ==> ids@[k]@ != id@,
        decreases ids.len() - i,
    {
        if ids[i] == *id {
            return true;
        }
        i += 1;
    }
    false
}

/// The (song id, album id) pair a song is cached under; a missing album id is empty.
pub open spec fn cache_key(s: Song) -> (Seq<char>, Seq<char>) {
    (s.id@, match s.album_id { Some(a) => a@, None => Seq::empty() })
}

/// The songs to download when the song at `cursor` starts: it and the next two, in
/// that order, each unless `cached` holds its id.
pub open spec fn cache_plan(songs: Seq<Song>, cursor: int, cached: Seq<String>) -> Seq<(Seq<char>, Seq<char>)> {
    let pick = |k: int| if cursor + k < songs.len() && !holds_id(cached, songs[cursor + k].id@) {
        seq![cache_key(songs[cursor + k])]
    } else {
        Seq::empty()
    };
    pick(0) + pick(1) + pick(2)
}

fn cache_pair(s: &Song) -> (r: (String, String))
    ensures (r.0@, r.1@) == cache_key(*s),
{
    let album = match &s.album_id {
        Some(a) => a.clone(),
        None => String::new(),
    };
    (s.id.clone(), album)
}

/// The plan for the song now under the queue's cursor (`None` when the cursor is on no
/// song): its cover art given the cover `art_cached` at hand; its lyrics when the pane is
/// shown (`lyrics_shown`) and holds another song's (`lyrics_for`); and, with the local
/// cache on, the downloads of `cache_plan`.
pub fn track_start_plan(queue: &QueueState, art_cached: Option<&String>, lyrics_shown: bool,
    lyrics_for: Option<&String>, cache_enabled: bool, cached: &[String]) -> (r: Option<TrackStartPlan>)
    ensures
        queue.cursor >= queue.songs@.len() ==> r is None,
        queue.cursor < queue.songs@.len() ==> (r matches Some(p) && {
            let song = queue.songs@[queue.cursor as int];
            &&& art_model(p.art) == art_step_for(opt_string(song.cover_art), opt_ref_string(art_cached))
            &&& p.fetch_lyrics == (lyrics_shown && !(lyrics_for matches Some(l) && l@ == song.id@))
            &&& p.to_cache@.map_values(|x: (String, String)| (x.0@, x.1@)) == if cache_enabled {
                cache_plan(queue.songs@, queue.cursor as int, cached@)
            } else {
                Seq::empty()
            }
        }),
{
    if queue.cursor >= queue.songs.len() {
        return None;
    }
    let song = &queue.songs[queue.cursor];
    let art = match &song.cover_art {
        None => ArtStep::NoArt,
        Some(c) => {
            let same = match art_cached {
                Some(a) => *a == *c,
                None => false,
            };
            if same { ArtStep::UseCached } else { ArtStep::Fetch(c.clone()) }
        },
    };
    let fetch_lyrics = lyrics_shown && match lyrics_for {
        Some(l) => *l != song.id,
        None => true,
    };
    let mut to_cache: Vec<(String, String)> = Vec::new();
    if cache_enabled {
        let ghost songs = queue.songs@;
        let ghost cur = queue.cursor as int;
        let mut k: usize = 0;
        while k < 3
            invariant
                k <= 3,
                songs == queue.songs@,
                cur == queue.cursor as int,
                cur < songs.len(),
                to_cache@.map_values(|x: (String, String)| (x.0@, x.1@)) == ({
                    let pick = |j: int| if cur + j < songs.len() && !holds_id(cached@, songs[cur + j].id@) {
                        seq![cache_key(songs[cur + j])]
                    } else {
                        Seq::empty()
                    };
                    if k == 0 { Seq::empty() } else if k == 1 { pick(0) } else if k == 2 { pick(0) + pick(1) } else { pick(0) + pick(1) + pick(2) }
                }),
            decreases 3 - k,
        {
            let ghost before = to_cache@;
            if k < queue.songs.len() - queue.cursor {
                let s = &queue.songs[queue.cursor + k];
                if !has_id(cached, &s.id) {
                    to_cache.push(cache_pair(s));
                    assert(to_cache@.map_values(|x: (String, String)| (x.0@, x.1@))
                        =~= before.map_values(|x: (String, String)| (x.0@, x.1@)).push(cache_key(*s)));
                }
            }
            k += 1;
        }
        assert(to_cache@.map_values(|x: (String, String)| (x.0@, x.1@)) =~= cache_plan(songs, cur, cached@));
    } else {
        assert(to_cache@.map_values(|x: (String, String)| (x.0@, x.1@)) =~= Seq::<(Seq<char>, Seq<char>)>::empty());
    }
    Some(TrackStartPlan { art, fetch_lyrics, to_cache })
}

/// An optional string as plain characters.
pub open spec fn opt_string(o: Option<String>) -> Option<Seq<char>> {
    match o {
        Some(s) => Some(s@),
        None => None,
    }
}

pub open spec fn opt_ref_string(o: Option<&String>) -> Option<Seq<char>> {
    match o {
        Some(s) => Some(s@),
        None => None,
    }
}

/// Songs made from internet radio stations have ids that start with this.
pub const RADIO_SONG_ID_PREFIX: &'static str = "radio:";

/// True for the id of a song made from an internet radio station.
pub fn is_radio_song_id(id: &str) -> (r: bool)
    ensures r == has_prefix(id@, RADIO_SONG_ID_PREFIX@),
{
    strip_prefix_str(id, RADIO_SONG_ID_PREFIX).is_some()
}

/// A question the status bar is waiting to have answered with y or n.
#[derive(Debug, Clone, Copy, PartialEq, Eq, Structural)]
pub enum GlobalConfirm {
    LibraryIndexRefresh,
    LibraryIndexAppendQueue,
    LibraryServerAppendQueue,
}

/// A library-wide command and its answers.
#[derive(Debug, Clone, Copy, PartialEq, Eq, Structural)]
pub enum LibraryCommand {
    /// Ask to rebuild the whole library index.
    AskIndexRefresh,
    /// Ask to append the whole library to the queue.
    AskAppendAll,
    /// y to one of the questions.
    ConfirmIndexRefresh,
    ConfirmIndexAppend,
    ConfirmServerAppend,
    /// n, or Escape.
    Cancel,
}

/// What the status bar says, or what starts, after a library-wide command.
#[derive(Debug, Clone, Copy, PartialEq, Eq, Structural)]
pub enum LibraryOutcome {
    Nothing,
    /// "Already confirming — press y or n".
    AlreadyAsking,
    /// The question is asked (the index question also says how many tracks it holds).
    Asking(GlobalConfirm),
    /// "Library index refresh in progress — try again shortly".
    IndexBusy,
    /// "Library fetch already in progress".
    FetchBusy,
    /// The confirmed work starts.
    Start(GlobalConfirm),
    /// "Cancelled".
    Cancelled,
}

/// The library-wide commands as a state machine over the open question. Asking while a
/// question is open is refused; appending the library asks to use the local index when
/// it is on and holds tracks, else to fetch from the server, and is refused while the
/// index is being rebuilt or the library fetched; each y starts only the work its own
/// question asked about, and closes it.
pub open spec fn library_step(pending: Option<GlobalConfirm>, cmd: LibraryCommand, index_refreshing: bool,
    server_fetching: bool, index_ready: bool) -> (Option<GlobalConfirm>, LibraryOutcome)
{
    match cmd {
        LibraryCommand::AskIndexRefresh => if pending is Some {
            (pending, LibraryOutcome::AlreadyAsking)
        } else {
            (Some(GlobalConfirm::LibraryIndexRefresh), LibraryOutcome::Asking(GlobalConfirm::LibraryIndexRefresh))
        },
        LibraryCommand::AskAppendAll => if pending is Some {
            (pending, LibraryOutcome::AlreadyAsking)
        } else if index_refreshing {
            (pending, LibraryOutcome::IndexBusy)
        } else if server_fetching {
            (pending, LibraryOutcome::FetchBusy)
        } else if index_ready {
            (Some(GlobalConfirm::LibraryIndexAppendQueue), LibraryOutcome::Asking(GlobalConfirm::LibraryIndexAppendQueue))
        } else {
            (Some(GlobalConfirm::LibraryServerAppendQueue), LibraryOutcome::Asking(GlobalConfirm::LibraryServerAppendQueue))
        },
        LibraryCommand::ConfirmIndexRefresh => confirm_step(pending, GlobalConfirm::LibraryIndexRefresh),
        LibraryCommand::ConfirmIndexAppend => confirm_step(pending, GlobalConfirm::LibraryIndexAppendQueue),
        LibraryCommand::ConfirmServerAppend => confirm_step(pending, GlobalConfirm::LibraryServerAppendQueue),
        LibraryCommand::Cancel => if pending is Some {
            (None, LibraryOutcome::Cancelled)
        } else {
            (None, LibraryOutcome::Nothing)
        },
    }
}

/// y to question `q`: starts its work only when `q` is the open question.
pub open spec fn confirm_step(pending: Option<GlobalConfirm>, q: GlobalConfirm) -> (Option<GlobalConfirm>, LibraryOutcome) {
    if pending == Some(q) { (None, LibraryOutcome::Start(q)) } else { (pending, LibraryOutcome::Nothing) }
}

fn confirm_exec(pending: &mut Option<GlobalConfirm>, q: GlobalConfirm) -> (r: LibraryOutcome)
    ensures (*final(pending), r) == confirm_step(*old(pending), q),
{
    if *pending == Some(q) {
        *pending = None;
        LibraryOutcome::Start(q)
    } else {
        LibraryOutcome::Nothing
    }
}

/// Applies a library-wide command (`index_ready`: the local index is on and holds tracks).
pub fn library_command(pending: &mut Option<GlobalConfirm>, cmd: LibraryCommand, index_refreshing: bool,
    server_fetching: bool, index_ready: bool) -> (r: LibraryOutcome)
    ensures
        (*final(pending), r) == library_step(*old(pending), cmd, index_refreshing, server_fetching, index_ready),
{
    match cmd {
        LibraryCommand::AskIndexRefresh => {
            if pending.is_some() {
                LibraryOutcome::AlreadyAsking
            } else {
                *pending = Some(GlobalConfirm::LibraryIndexRefresh);
                LibraryOutcome::Asking(GlobalConfirm::LibraryIndexRefresh)
            }
        },
        LibraryCommand::AskAppendAll => {
            if pending.is_some() {
                LibraryOutcome::AlreadyAsking
            } else if index_refreshing {
                LibraryOutcome::IndexBusy
            } else if server_fetching {
                LibraryOutcome::FetchBusy
            } else if index_ready {
                *pending = Some(GlobalConfirm::LibraryIndexAppendQueue);
                LibraryOutcome::Asking(GlobalConfirm::LibraryIndexAppendQueue)
            } else {
                *pending = Some(GlobalConfirm::LibraryServerAppendQueue);
                LibraryOutcome::Asking(GlobalConfirm::LibraryServerAppendQueue)
            }
        },
        LibraryCommand::ConfirmIndexRefresh => confirm_exec(pending, GlobalConfirm::LibraryIndexRefresh),
        LibraryCommand::ConfirmIndexAppend => confirm_exec(pending, GlobalConfirm::LibraryIndexAppendQueue),
        LibraryCommand::ConfirmServerAppend => confirm_exec(pending, GlobalConfirm::LibraryServerAppendQueue),
        LibraryCommand::Cancel => {
            let had = pending.is_some();
            *pending = None;
            if had { LibraryOutcome::Cancelled } else { LibraryOutcome::Nothing }
        },
    }
}

/// Work starts only after its own question was asked and answered: a y that follows no
/// question, or another question, starts nothing and leaves the open question as it was;
/// and after work starts no question is open.
pub proof fn library_confirm_laws(pending: Option<GlobalConfirm>, cmd: LibraryCommand, busy_index: bool,
    busy_fetch: bool, index_ready: bool)
    ensures
        library_step(pending, cmd, busy_index, busy_fetch, index_ready).1 matches LibraryOutcome::Start(q)
            ==> pending == Some(q) && library_step(pending, cmd, busy_index, busy_fetch, index_ready).0 is None,
        pending is Some && (cmd == LibraryCommand::AskIndexRefresh || cmd == LibraryCommand::AskAppendAll)
            ==> library_step(pending, cmd, busy_index, busy_fetch, index_ready)
                == (pending, LibraryOutcome::AlreadyAsking),
        pending is None ==> !(library_step(pending, cmd, busy_index, busy_fetch, index_ready).1 is Start),
{
}

/// What rating the selected item gets (0 clears it).
#[derive(Debug, Clone, Copy, PartialEq, Eq, Structural)]
pub enum RatingOutcome {
    /// Ratings go from 0 to 5: nothing happens.
    Ignored,
    /// "Ratings disabled — set [ratings].enabled = true".
    Disabled,
    /// "Server offline — cannot change rating".
    Offline,
    /// "No item selected".
    NoItem,
    /// "Ratings are not available for radio".
    Radio,
    /// The rating is stored (`None` clears it) and sent to the server.
    Rate(Option<u8>),
}

/// A rating key: out-of-range ratings are ignored; then ratings must be on, the server
/// reachable and an item selected, and a radio song cannot be rated.
pub fn rate_item(rating: u8, enabled: bool, online: bool, target: Option<(&str, bool)>) -> (r: RatingOutcome)
    ensures
        r == if rating > 5 {
            RatingOutcome::Ignored
        } else if !enabled {
            RatingOutcome::Disabled
        } else if !online {
            RatingOutcome::Offline
        } else {
            match target {
                None => RatingOutcome::NoItem,
                Some((id, is_song)) => if is_song && has_prefix(id@, RADIO_SONG_ID_PREFIX@) {
                    RatingOutcome::Radio
                } else {
                    RatingOutcome::Rate(if rating == 0 { None } else { Some(rating) })
                },
            }
        },
{
    if rating > 5 {
        return RatingOutcome::Ignored;
    }
    if !enabled {
        return RatingOutcome::Disabled;
    }
    if !online {
        return RatingOutcome::Offline;
    }
    match target {
        None => RatingOutcome::NoItem,
        Some((id, is_song)) => {
            if is_song && is_radio_song_id(id) {
                RatingOutcome::Radio
            } else {
                RatingOutcome::Rate(if rating == 0 { None } else { Some(rating) })
            }
        },
    }
}

/// What Play/Pause does.
#[derive(Debug, Clone, Copy, PartialEq, Eq, Structural)]
pub enum PlayPauseStep {
    /// Start the selected radio station (none is loaded).
    StartRadio,
    /// Load the song under the queue's cursor and play it (a restored queue).
    PlayCurrent,
    Resume,
    Pause,
}

/// Play/Pause: for radio, start the station when nothing is loaded; for the queue, load
/// the current song when nothing is loaded; otherwise resume when paused, else pause.
/// Returns the step and whether playback is paused after it.
pub fn play_pause(radio: bool, loaded: bool, paused: bool, has_current: bool) -> (r: (PlayPauseStep, bool))
    ensures
        r.0 == if radio && !loaded {
            PlayPauseStep::StartRadio
        } else if !radio && !loaded && has_current {
            PlayPauseStep::PlayCurrent
        } else if paused {
            PlayPauseStep::Resume
        } else {
            PlayPauseStep::Pause
        },
        r.0 == PlayPauseStep::Resume ==> !r.1,
        r.0 == PlayPauseStep::Pause ==> r.1,
        (r.0 == PlayPauseStep::StartRadio || r.0 == PlayPauseStep::PlayCurrent) ==> r.1 == paused,
{
    if radio && !loaded {
        (PlayPauseStep::StartRadio, paused)
    } else if !radio && !loaded && has_current {
        (PlayPauseStep::PlayCurrent, paused)
    } else if paused {
        (PlayPauseStep::Resume, false)
    } else {
        (PlayPauseStep::Pause, true)
    }
}

/// The volume after Volume Up / Volume Down: 5 points up (at most 100) or down (at least 0).
pub fn volume_step(volume: u8, up: bool) -> (r: u8)
    ensures
        r == if up { min_of(volume + 5, 100) } else { sat_sub(volume as int, 5) },
{
    if up {
        let v: u8 = if volume <= 250 { volume + 5 } else { 255 };
        if v < 100 { v } else { 100 }
    } else if volume >= 5 {
        volume - 5
    } else {
        0
    }
}

/// Next / previous track in the queue (not radio): true when the cursor moved and the
/// song under it is to be played.
pub fn step_track(queue: &mut QueueState, forward: bool) -> (play: bool)
    ensures
        final(queue).songs@ == old(queue).songs@,
        final(queue).scroll == old(queue).scroll,
        final(queue).loop_enabled == old(queue).loop_enabled,
        forward ==> play == (old(queue).cursor + 1 < old(queue).songs@.len()),
        !forward ==> play == (old(queue).cursor > 0),
        final(queue).cursor == if !play { old(queue).cursor as int } else if forward {
            old(queue).cursor + 1
        } else {
            old(queue).cursor - 1
        },
{
    if forward { queue.next() } else { queue.prev() }
}

/// Adds one song (Enter on a track, `a`): it goes to the end of the queue, and when the
/// queue was empty the cursor goes to it and it is to be played (true).
pub fn add_song(queue: &mut QueueState, song: Song) -> (play: bool)
    ensures
        final(queue).songs@ == old(queue).songs@.push(song),
        play == (old(queue).songs@.len() == 0),
        final(queue).cursor == if play { 0 } else { old(queue).cursor as int },
        final(queue).scroll == old(queue).scroll,
        final(queue).loop_enabled == old(queue).loop_enabled,
{
    let was_empty = queue.songs.len() == 0;
    queue.push(song);
    if was_empty {
        queue.cursor = 0;
    }
    was_empty
}

/// Appends an album's tracks in album order (disc, then track); when the queue was empty
/// and now holds songs the cursor goes to the first and it is to be played (true).
pub fn append_album(queue: &mut QueueState, tracks: &[Song]) -> (play: bool)
    ensures
        final(queue).songs@ == old(queue).songs@ + album_order(tracks@),
        play == (old(queue).songs@.len() == 0 && tracks@.len() > 0),
        final(queue).cursor == if play { 0 } else { old(queue).cursor as int },
        final(queue).scroll == old(queue).scroll,
        final(queue).loop_enabled == old(queue).loop_enabled,
{
    let sorted = sort_album_order(tracks);
    proof { crate::track_order::album_order_laws(tracks@); }
    let was_empty = queue.songs.len() == 0;
    let ghost start = queue.songs@;
    let mut i: usize = 0;
    while i < sorted.len()
        invariant
            i <= sorted.len(),
            queue.songs@ == start + sorted@.take(i as int),
            queue.cursor == old(queue).cursor,
            queue.scroll == old(queue).scroll,
            queue.loop_enabled == old(queue).loop_enabled,
            start == old(queue).songs@,
        decreases sorted.len() - i,
    {
        queue.push(sorted[i].duplicate());
        assert(sorted@.take(i + 1) =~= sorted@.take(i as int).push(sorted@[i as int]));
        i += 1;
    }
    assert(sorted@.take(sorted.len() as int) =~= sorted@);
    if was_empty && queue.songs.len() > 0 {
        queue.cursor = 0;
        true
    } else {
        false
    }
}

/// `?`: the help popup opens (scrolled to the top) or closes. Returns the new scroll.
pub fn toggle_help(visible: &mut bool, scroll: usize) -> (r: usize)
    ensures
        *final(visible) == !*old(visible),
        r == if *final(visible) { 0 } else { scroll },
{
    *visible = !*visible;
    if *visible { 0 } else { scroll }
}

/// The help popup's scroll after one line up or down (never below 0 nor past the end of
/// the number range).
pub fn help_scrolled(scroll: usize, down: bool) -> (r: usize)
    ensures
        r == if down { min_of(scroll + 1, usize::MAX as int) } else { sat_sub(scroll as int, 1) },
{
    if down { add_capped(scroll, 1, usize::MAX) } else if scroll >= 1 { scroll - 1 } else { 0 }
}

/// Lines a Page Up / Page Down moves plain (unsynced) lyrics by.
pub const LYRICS_PAGE: usize = 16;

/// The scroll of plain lyrics after moving `dir`: a line up or down (Top and Bottom too),
/// or `LYRICS_PAGE` lines; never below 0 nor past the end of the number range.
pub fn lyrics_scrolled(scroll: usize, dir: Direction) -> (r: usize)
    ensures
        r == match dir {
            Direction::Up | Direction::Top => sat_sub(scroll as int, 1),
            Direction::Down | Direction::Bottom => min_of(scroll + 1, usize::MAX as int),
            Direction::PageUp => sat_sub(scroll as int, LYRICS_PAGE as int),
            Direction::PageDown => min_of(scroll + LYRICS_PAGE, usize::MAX as int),
        },
{
    match dir {
        Direction::Up | Direction::Top => if scroll >= 1 { scroll - 1 } else { 0 },
        Direction::Down | Direction::Bottom => add_capped(scroll, 1, usize::MAX),
        Direction::PageUp => if scroll >= LYRICS_PAGE { scroll - LYRICS_PAGE } else { 0 },
        Direction::PageDown => add_capped(scroll, LYRICS_PAGE, usize::MAX),
    }
}

/// `l`: on Now Playing, with lyrics enabled, the lyrics pane is shown or hidden. Returns
/// true when the lyrics of the playing song (`playing`) must be fetched: the pane was just
/// shown and holds no lyrics for that song (`cached_for`).
pub fn toggle_lyrics(shown: &mut bool, tab: Tab, enabled: bool, playing: Option<&String>,
    cached_for: Option<&String>) -> (fetch: bool)
    ensures
        *final(shown) == if tab == Tab::NowPlaying && enabled { !*old(shown) } else { *old(shown) },
        fetch == (tab == Tab::NowPlaying && enabled && *final(shown) && (playing matches Some(p)
            && !(cached_for matches Some(c) && c@ == p@))),
{
    if tab != Tab::NowPlaying || !enabled {
        return false;
    }
    *shown = !*shown;
    if !*shown {
        return false;
    }
    match playing {
        None => false,
        Some(p) => match cached_for {
            Some(c) => *c != *p,
            None => true,
        },
    }
}

/// `v`: on Now Playing, with the visualizer enabled, it is shown or hidden. Returns true
/// when it was just hidden and its bands and waveform are to be cleared.
pub fn toggle_visualizer(shown: &mut bool, tab: Tab, enabled: bool) -> (clear: bool)
    ensures
        *final(shown) == if tab == Tab::NowPlaying && enabled { !*old(shown) } else { *old(shown) },
        clear == (tab == Tab::NowPlaying && enabled && !*final(shown)),
{
    if tab != Tab::NowPlaying || !enabled {
        return false;
    }
    *shown = !*shown;
    !*shown
}

/// What the folder-browse toggle did.
#[derive(Debug, Clone, Copy, PartialEq, Eq, Structural)]
pub enum FolderToggle {
    /// "Folder browse disabled — set [ui.browsetab] folder_navigation = true".
    Disabled,
    /// "Genre browse is not implemented (change mode in config)".
    GenreUnsupported,
    /// Browse now shows folders ("Browse: folders").
    Folders,
    /// Browse now shows artists, albums and tracks ("Browse: artists / albums / tracks").
    Library,
}

/// The folder-browse toggle: the overlays close first. With folder navigation off, or in
/// genre mode, nothing else changes; otherwise Browse switches between folders and the
/// artist / album / track columns, and is shown with its search cleared.
pub fn toggle_browser_folder(v: &mut TabView, mode: &mut BrowseMode, folder_navigation: bool) -> (r: FolderToggle)
    ensures
        !final(v).playlist_overlay_visible && !final(v).playlist_picker_open,
        !final(v).radio_picker_visible && !final(v).radio_editing,
        r == if !folder_navigation {
            FolderToggle::Disabled
        } else if *old(mode) == BrowseMode::Genre {
            FolderToggle::GenreUnsupported
        } else if *old(mode) == BrowseMode::Files {
            FolderToggle::Library
        } else {
            FolderToggle::Folders
        },
        (r == FolderToggle::Disabled || r == FolderToggle::GenreUnsupported) ==> *final(mode) == *old(mode)
            && final(v).active_tab == old(v).active_tab && final(v).search_filter == old(v).search_filter
            && final(v).search_filter_column == old(v).search_filter_column,
        r == FolderToggle::Folders ==> *final(mode) == BrowseMode::Files,
        r == FolderToggle::Library ==> *final(mode) == BrowseMode::Artists,
        (r == FolderToggle::Folders || r == FolderToggle::Library) ==> entered_tab(*final(v), Tab::Browser),
{
    v.playlist_overlay_visible = false;
    v.playlist_picker_open = false;
    v.radio_picker_visible = false;
    v.radio_editing = false;
    if !folder_navigation {
        return FolderToggle::Disabled;
    }
    match *mode {
        BrowseMode::Genre => FolderToggle::GenreUnsupported,
        BrowseMode::Files => {
            *mode = BrowseMode::Artists;
            go_to_tab(v, Tab::Browser);
            FolderToggle::Library
        },
        BrowseMode::Artists => {
            *mode = BrowseMode::Files;
            go_to_tab(v, Tab::Browser);
            FolderToggle::Folders
        },
    }
}

/// Play (`replace`) or append the selected album of the Home strip: the id of the album
/// to fetch, or `None` off the Home tab or with no album selected. Playing it empties the
/// queue first (cursor and scroll at 0); the application stops the player and clears what
/// was playing.
pub fn home_album_to_queue(home: &crate::nav::HomeState, tab: Tab, queue: &mut QueueState, replace: bool)
    -> (r: Option<String>)
    ensures
        tab == Tab::Home && home.album_selected_index < home.recent_albums@.len() ==> (r matches Some(id)
            && id@ == home.recent_albums@[home.album_selected_index as int].album_id@),
        !(tab == Tab::Home && home.album_selected_index < home.recent_albums@.len()) ==> r is None,
        r is Some && replace ==> final(queue).songs@.len() == 0 && final(queue).cursor == 0 && final(queue).scroll == 0,
        !(r is Some && replace) ==> final(queue).songs@ == old(queue).songs@ && final(queue).cursor == old(queue).cursor
            && final(queue).scroll == old(queue).scroll,
        final(queue).loop_enabled == old(queue).loop_enabled,
{
    if tab != Tab::Home || home.album_selected_index >= home.recent_albums.len() {
        return None;
    }
    let id = home.recent_albums[home.album_selected_index].album_id.clone();
    if replace {
        queue.songs = Vec::new();
        queue.cursor = 0;
        queue.scroll = 0;
    }
    Some(id)
}

/// The status line after a connectivity check.
#[derive(Debug, Clone, Copy, PartialEq, Eq, Structural)]
pub enum ConnectivityNote {
    /// "Server reachable" (a forced check, nothing changed).
    Reachable,
    /// "Server unreachable — offline mode" (a forced check, nothing changed).
    Unreachable,
    /// "Server reachable — back online".
    BackOnline,
    /// "Server unreachable — offline mode" (just went offline).
    WentOffline,
}

/// What the client does after learning whether the server answers.
#[derive(Debug, Clone, Copy, PartialEq, Eq, Structural)]
pub struct ConnectivityStep {
    /// Whether the server counts as reachable from now on.
    pub reachable: bool,
    pub note: Option<ConnectivityNote>,
    /// Going offline: drop the Home art in flight and the Browse fetches, and browse what
    /// is held locally.
    pub go_offline: bool,
    /// Going online: drop the local browse and browse the server again.
    pub go_online: bool,
    /// Clear the loaded albums and tracks and load the artists again.
    pub reload_artists: bool,
    /// Folder browse: mark the folders as needing the server.
    pub folders_need_server: bool,
    /// Folder browse: load the music folders if they are not loaded.
    pub load_folders: bool,
    /// Refresh the library index, fetch the favorites.
    pub refresh_index: bool,
    pub fetch_starred: bool,
    /// Load the radio stations.
    pub fetch_radio: bool,
    /// Send the scrobbles queued while offline.
    pub flush_scrobbles: bool,
}

/// The step after a check found the server `reachable` (or not) while it counted as
/// `reachable_now`. No change: only a forced check says so. Going offline: the status
/// line says so, and Browse reloads from what is held locally (artists) or marks folder
/// browse as needing the server. Coming back: the status line says so, Browse reloads
/// from the server (artists, or the folders when missing), the index is refreshed, the
/// favorites fetched, the radio stations and queued scrobbles handled when those are on.
pub open spec fn connectivity_spec(reachable_now: bool, reachable: bool, forced: bool, mode: BrowseMode,
    radio_enabled: bool, scrobble_enabled: bool) -> ConnectivityStep
{
    let none = ConnectivityStep {
        reachable: reachable_now, note: None, go_offline: false, go_online: false, reload_artists: false,
        folders_need_server: false, load_folders: false, refresh_index: false, fetch_starred: false,
        fetch_radio: false, flush_scrobbles: false,
    };
    if reachable_now == reachable {
        ConnectivityStep {
            note: if !forced { None } else if reachable { Some(ConnectivityNote::Reachable) } else {
                Some(ConnectivityNote::Unreachable)
            },
            ..none
        }
    } else if reachable {
        ConnectivityStep {
            reachable: true,
            note: Some(ConnectivityNote::BackOnline),
            go_online: true,
            reload_artists: mode != BrowseMode::Files,
            load_folders: mode == BrowseMode::Files,
            refresh_index: true,
            fetch_starred: true,
            fetch_radio: radio_enabled,
            flush_scrobbles: scrobble_enabled,
            ..none
        }
    } else {
        ConnectivityStep {
            reachable: false,
            note: Some(ConnectivityNote::WentOffline),
            go_offline: true,
            reload_artists: mode != BrowseMode::Files,
            folders_need_server: mode == BrowseMode::Files,
            ..none
        }
    }
}

/// A connectivity check answered (see `connectivity_spec`).
pub fn connectivity_changed(reachable_now: bool, reachable: bool, forced: bool, mode: BrowseMode,
    radio_enabled: bool, scrobble_enabled: bool) -> (r: ConnectivityStep)
    ensures r == connectivity_spec(reachable_now, reachable, forced, mode, radio_enabled, scrobble_enabled),
{
    let none = ConnectivityStep {
        reachable: reachable_now, note: None, go_offline: false, go_online: false, reload_artists: false,
        folders_need_server: false, load_folders: false, refresh_index: false, fetch_starred: false,
        fetch_radio: false, flush_scrobbles: false,
    };
    if reachable_now == reachable {
        let note = if !forced { None } else if reachable { Some(ConnectivityNote::Reachable) } else {
            Some(ConnectivityNote::Unreachable)
        };
        ConnectivityStep { note, ..none }
    } else if reachable {
        ConnectivityStep {
            reachable: true,
            note: Some(ConnectivityNote::BackOnline),
            go_online: true,
            reload_artists: mode != BrowseMode::Files,
            load_folders: mode == BrowseMode::Files,
            refresh_index: true,
            fetch_starred: true,
            fetch_radio: radio_enabled,
            flush_scrobbles: scrobble_enabled,
            ..none
        }
    } else {
        ConnectivityStep {
            reachable: false,
            note: Some(ConnectivityNote::WentOffline),
            go_offline: true,
            reload_artists: mode != BrowseMode::Files,
            folders_need_server: mode == BrowseMode::Files,
            ..none
        }
    }
}

/// A check changes the client only when reachability changed; an unforced check that
/// found nothing new says nothing; going offline and coming back are each other's
/// opposite in what they start.
pub proof fn connectivity_laws(reachable_now: bool, forced: bool, mode: BrowseMode, radio: bool, scrobble: bool)
    ensures
        !forced ==> connectivity_spec(reachable_now, reachable_now, forced, mode, radio, scrobble).note is None,
        !connectivity_spec(reachable_now, reachable_now, forced, mode, radio, scrobble).go_offline,
        !connectivity_spec(reachable_now, reachable_now, forced, mode, radio, scrobble).go_online,
        connectivity_spec(true, false, forced, mode, radio, scrobble).go_offline,
        !connectivity_spec(true, false, forced, mode, radio, scrobble).fetch_starred,
        connectivity_spec(false, true, forced, mode, radio, scrobble).go_online,
        connectivity_spec(false, true, forced, mode, radio, scrobble).fetch_starred,
        forall|a: bool, b: bool| #[trigger] connectivity_spec(a, b, forced, mode, radio, scrobble).reachable == b,
{
}

/// What the client does when the startup ping succeeds.
#[derive(Debug, Clone, Copy, PartialEq, Eq, Structural)]
pub struct StartupStep {
    /// Folder browse: load the music folders (not loaded yet, failed or still loading).
    pub load_folders: bool,
    /// Load the artists (they are not loaded).
    pub fetch_artists: bool,
    /// Re-request the selected artist's albums or album's tracks left waiting.
    pub resume_browse: bool,
    /// Fetch the artist ratings: some loaded artist has no rating from 1 to 5.
    pub fetch_artist_ratings: bool,
    pub fetch_radio: bool,
    pub flush_scrobbles: bool,
}

/// True when some artist has no rating from 1 to 5.
pub open spec fn some_unrated(a: Seq<crate::library::Artist>) -> bool {
    exists|i: int| 0 <= i < a.len() && !(#[trigger] a[i].user_rating matches Some(r) && 1 <= r <= 5)
}

/// The startup ping succeeded: the server counts as reachable. Folder browse loads its
/// folders unless loaded; otherwise with the artists loaded the waiting Browse requests
/// are resumed (and their ratings fetched when some artist has none), and without them
/// the artists are loaded. The library index is then refreshed and the favorites fetched
/// (always), the radio stations and queued scrobbles handled when those are on.
pub fn startup_ping_ok(mode: BrowseMode, folders_loaded: bool, artists: Option<&Vec<crate::library::Artist>>,
    radio_enabled: bool, scrobble_enabled: bool) -> (r: StartupStep)
    ensures
        r.load_folders == (mode == BrowseMode::Files && !folders_loaded),
        r.fetch_artists == (mode != BrowseMode::Files && artists is None),
        r.resume_browse == (mode != BrowseMode::Files && artists is Some),
        r.fetch_artist_ratings == (mode != BrowseMode::Files && (artists matches Some(a) && some_unrated(a@))),
        r.fetch_radio == radio_enabled,
        r.flush_scrobbles == scrobble_enabled,
{
    let mut step = StartupStep {
        load_folders: false, fetch_artists: false, resume_browse: false, fetch_artist_ratings: false,
        fetch_radio: radio_enabled, flush_scrobbles: scrobble_enabled,
    };
    if mode == BrowseMode::Files {
        step.load_folders = !folders_loaded;
        return step;
    }
    match artists {
        None => { step.fetch_artists = true; },
        Some(a) => {
            step.resume_browse = true;
            let mut i: usize = 0;
            let mut unrated = false;
            while i < a.len()
                invariant
                    i <= a.len(),
                    unrated == exists|j: int| 0 <= j < i && !(#[trigger] a@[j].user_rating matches Some(r) && 1 <= r <= 5),
                decreases a.len() - i,
            {
                let rated = match a[i].user_rating {
                    Some(r) => 1 <= r && r <= 5,
                    None => false,
                };
                if !rated {
                    unrated = true;
                    assert(!(a@[i as int].user_rating matches Some(r) && 1 <= r <= 5));
                }
                i += 1;
            }
            step.fetch_artist_ratings = unrated;
        },
    }
    step
}

/// The status line when the startup ping found no server: "Could not reach", the
/// server's label, the reason in parentheses, then "— offline mode".
pub fn startup_unreachable_text(label: &str, detail: &str) -> (r: String)
    ensures r@ == "Could not reach "@ + label@ + " ("@ + detail@ + ") — offline mode"@,
{
    let mut r = String::from_str("Could not reach ");
    r.append(label);
    r.append(" (");
    r.append(detail);
    r.append(") — offline mode");
    r
}

/// The first place of `id` among the station ids.
pub open spec fn station_place(ids: Seq<Seq<char>>, id: Seq<char>) -> Option<int>
    decreases ids.len(),
{
    if ids.len() == 0 {
        None
    } else if ids[0] == id {
        Some(0)
    } else {
        match station_place(ids.drop_first(), id) {
            Some(k) => Some(k + 1),
            None => None,
        }
    }
}

proof fn lemma_station_place(ids: Seq<Seq<char>>, id: Seq<char>, j: int)
    requires
        0 <= j <= ids.len(),
        forall|k: int| 0 <= k < j ==> ids[k] != id,
    ensures
        j < ids.len() && ids[j] == id ==> station_place(ids, id) == Some(j),
        j == ids.len() ==> station_place(ids, id) is None,
    decreases j,
{
    if j > 0 {
        lemma_station_place(ids.drop_first(), id, j - 1);
    }
}

/// The station selection after the station list (`ids`) arrived: moved back onto the
/// list; then, when a station is playing (the current song's id is `radio:` and a station
/// id), that station is selected if the list holds it.
pub open spec fn station_selected(selected: int, ids: Seq<Seq<char>>, playing: Option<Seq<char>>) -> int {
    let kept = if selected >= ids.len() { if ids.len() >= 1 { ids.len() - 1 } else { 0 } } else { selected };
    match playing {
        Some(p) => match crate::text::strip_prefix(p, RADIO_SONG_ID_PREFIX@) {
            Some(station) => match station_place(ids, station) {
                Some(k) => k,
                None => kept,
            },
            None => kept,
        },
        None => kept,
    }
}

/// The radio stations arrived (`ids`); `playing` is the current song's id, if any.
pub fn radio_stations_arrived(selected: usize, ids: &[String], playing: Option<&str>) -> (r: usize)
    ensures r == station_selected(selected as int, ids@.map_values(|s: String| s@), match playing {
        Some(p) => Some(p@),
        None => None,
    }),
{
    let ghost all = ids@.map_values(|s: String| s@);
    let kept = if selected >= ids.len() { if ids.len() >= 1 { ids.len() - 1 } else { 0 } } else { selected };
    let p = match playing {
        Some(p) => p,
        None => { return kept; },
    };
    let station = match strip_prefix_str(p, RADIO_SONG_ID_PREFIX) {
        Some(st) => st,
        None => { return kept; },
    };
    let mut k: usize = 0;
    while k < ids.len()
        invariant
            k <= ids.len(),
            all == ids@.map_values(|s: String| s@),
            playing == Some(p),
            strip_prefix(p@, RADIO_SONG_ID_PREFIX@) == Some(station@),
            kept == (if selected >= ids.len() { if ids.len() >= 1 { ids.len() - 1 } else { 0 } } else { selected as int }),
            forall|j: int| 0 <= j < k ==> all[j] != station@,
        decreases ids.len() - k,
    {
        if crate::text::str_eq(ids[k].as_str(), station) {
            proof { lemma_station_place(all, station@, k as int); }
            return k;
        }
        k += 1;
    }
    proof { lemma_station_place(all, station@, k as int); }
    kept
}

/// A change to the radio stations was answered: the typing ends; on success the status
/// line says "Radio stations updated" and the stations are loaded again (true); on
/// failure it shows `Radio: ` and the error.
pub fn radio_change_answered(error: Option<String>) -> (r: (String, bool))
    ensures
        error matches Some(e) ==> r.0@ == "Radio: "@ + e@ && !r.1,
        error is None ==> r.0@ == "Radio stations updated"@ && r.1,
{
    match error {
        Some(e) => {
            let mut m = String::from_str("Radio: ");
            m.append(e.as_str());
            (m, false)
        },
        None => (String::from_str("Radio stations updated"), true),
    }
}

/// All of an artist's tracks arrived: sorted in artist order (year, album, disc, track),
/// they go after the queue, or before it (`prepend`, the cursor then following the song
/// it was on). When the queue was empty, playback was asked for (`start_playing`) and
/// songs came, the cursor and scroll go to the first song and it is to be played (true).
pub fn artist_tracks_arrived(queue: &mut QueueState, songs: &[Song], start_playing: bool, prepend: bool) -> (play: bool)
    requires
        prepend && old(queue).songs@.len() > 0 ==> old(queue).cursor + songs@.len() <= usize::MAX,
    ensures
        final(queue).songs@ == if prepend { artist_order(songs@) + old(queue).songs@ } else {
            old(queue).songs@ + artist_order(songs@)
        },
        play == (start_playing && old(queue).songs@.len() == 0 && songs@.len() > 0),
        play ==> final(queue).cursor == 0 && final(queue).scroll == 0,
        !play ==> final(queue).scroll == old(queue).scroll && final(queue).cursor == (if prepend
            && old(queue).songs@.len() > 0 { old(queue).cursor + songs@.len() } else { old(queue).cursor as int }),
        final(queue).loop_enabled == old(queue).loop_enabled,
{
    let sorted = sort_artist_order(songs);
    proof { crate::track_order::lemma_artist_order_len(songs@); }
    let was_empty = queue.songs.len() == 0;
    let n = sorted.len();
    if prepend {
        let mut all: Vec<Song> = Vec::new();
        let mut i: usize = 0;
        while i < n
            invariant
                i <= n,
                n == sorted@.len(),
                all@ == sorted@.take(i as int),
            decreases n - i,
        {
            all.push(sorted[i].duplicate());
            assert(sorted@.take(i + 1) =~= sorted@.take(i as int).push(sorted@[i as int]));
            i += 1;
        }
        let mut j: usize = 0;
        assert(sorted@.take(n as int) =~= sorted@);
        while j < queue.songs.len()
            invariant
                j <= queue.songs@.len(),
                queue.songs@ == old(queue).songs@,
                all@ == sorted@ + queue.songs@.take(j as int),
            decreases queue.songs@.len() - j,
        {
            all.push(queue.songs[j].duplicate());
            assert(queue.songs@.take(j + 1) =~= queue.songs@.take(j as int).push(queue.songs@[j as int]));
            j += 1;
        }
        assert(queue.songs@.take(j as int) =~= queue.songs@);
        if !was_empty {
            queue.cursor = queue.cursor + n;
        }
        queue.songs = all;
    } else {
        let mut i: usize = 0;
        let ghost start = queue.songs@;
        while i < n
            invariant
                i <= n,
                n == sorted@.len(),
                start == old(queue).songs@,
                queue.songs@ == start + sorted@.take(i as int),
                queue.cursor == old(queue).cursor,
                queue.scroll == old(queue).scroll,
                queue.loop_enabled == old(queue).loop_enabled,
            decreases n - i,
        {
            queue.push(sorted[i].duplicate());
            assert(sorted@.take(i + 1) =~= sorted@.take(i as int).push(sorted@[i as int]));
            i += 1;
        }
        assert(sorted@.take(n as int) =~= sorted@);
    }
    if start_playing && was_empty && queue.songs.len() > 0 {
        queue.cursor = 0;
        queue.scroll = 0;
        true
    } else {
        false
    }
}

/// The whole library fetched from the server for the queue arrived (`Ok(tracks)`) or
/// failed. No tracks: "No tracks found in library". Otherwise they are appended; when the
/// queue was empty the cursor and scroll go to the first and it is to be played; the
/// status line says "Added <n> tracks to queue". A failure shows `Library fetch failed: `
/// and the error. Returns the status line and whether to play.
pub fn library_append_arrived(queue: &mut QueueState, result: Result<Vec<Song>, String>) -> (r: (String, bool))
    ensures
        match result {
            Ok(t) => if t@.len() == 0 {
                r.0@ == "No tracks found in library"@ && !r.1 && final(queue).songs@ == old(queue).songs@
                    && final(queue).cursor == old(queue).cursor && final(queue).scroll == old(queue).scroll
            } else {
                &&& r.0@ == "Added "@ + crate::text::decimal(t@.len()) + " tracks to queue"@
                &&& final(queue).songs@ == old(queue).songs@ + t@
                &&& r.1 == (old(queue).songs@.len() == 0)
                &&& r.1 ==> final(queue).cursor == 0 && final(queue).scroll == 0
                &&& !r.1 ==> final(queue).cursor == old(queue).cursor && final(queue).scroll == old(queue).scroll
            },
            Err(e) => r.0@ == "Library fetch failed: "@ + e@ && !r.1 && final(queue).songs@ == old(queue).songs@
                && final(queue).cursor == old(queue).cursor && final(queue).scroll == old(queue).scroll,
        },
        final(queue).loop_enabled == old(queue).loop_enabled,
{
    match result {
        Ok(tracks) => {
            if tracks.len() == 0 {
                return (String::from_str("No tracks found in library"), false);
            }
            let play = queue_songs(queue, tracks.as_slice(), false);
            let mut m = String::from_str("Added ");
            let count = crate::text::count_string(tracks.len());
            m.append(count.as_str());
            m.append(" tracks to queue");
            (m, play)
        },
        Err(e) => {
            let mut m = String::from_str("Library fetch failed: ");
            m.append(e.as_str());
            (m, false)
        },
    }
}

} // verus!
