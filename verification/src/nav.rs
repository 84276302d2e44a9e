//! Tabs, Browse columns, Home sections, list movement and the actions keys map to.
use vstd::prelude::*;
use std::time::Duration;
use crate::media::PlayRecord;

verus! {

/// A list movement requested by the user.
#[derive(Debug, Clone, Copy, PartialEq, Eq, Structural)]
pub enum Direction {
    Up,
    Down,
    /// `gg` (vim-style)
    Top,
    /// `G`
    Bottom,
    PageUp,
    PageDown,
}

/// Where a list cursor lands after moving `dir` from `cur` in a list of `len` rows
/// with a page of `page` rows (a page is at least one row).
pub open spec fn moved_index(cur: int, len: int, page: int, dir: Direction) -> int {
    let max = len - 1;
    let page = if page < 1 { 1 } else { page };
    if len == 0 {
        0
    } else {
        match dir {
            Direction::Up => if cur >= 1 { cur - 1 } else { 0 },
            Direction::Down => if cur + 1 < max { cur + 1 } else { max },
            Direction::Top => 0,
            Direction::Bottom => max,
            Direction::PageUp => if cur >= page { cur - page } else { 0 },
            Direction::PageDown => if cur + page < max { cur + page } else { max },
        }
    }
}

/// Move a list selection index by one row, one page, or to top/bottom.
pub fn move_list_index(cur: usize, len: usize, page: usize, dir: Direction) -> (r: usize)
    requires
        dir == Direction::Down ==> cur < usize::MAX,
        dir == Direction::PageDown ==> cur + (if page < 1 { 1 } else { page }) <= usize::MAX,
    ensures
        r == moved_index(cur as int, len as int, page as int, dir),
{
    if len == 0 {
        return 0;
    }
    let max = len - 1;
    let page = if page < 1 { 1 } else { page };
    match dir {
        Direction::Up => if cur >= 1 { cur - 1 } else { 0 },
        Direction::Down => if cur + 1 < max { cur + 1 } else { max },
        Direction::Top => 0,
        Direction::Bottom => max,
        Direction::PageUp => if cur >= page { cur - page } else { 0 },
        Direction::PageDown => if cur + page < max { cur + page } else { max },
    }
}

/// Everything a key press, click or wheel tick can ask the player to do.
#[derive(Debug, Clone)]
pub enum Action {
    Navigate(Direction),
    Select,
    Back,
    /// Cycle tabs forward: Home → Browser → Now Playing → Home (Tab key)
    SwitchTab,
    /// Cycle tabs backward: Home → Now Playing → Browser → Home (Backtick / Shift+Tab)
    SwitchTabReverse,
    /// Jump directly to Home tab (key '1')
    GoToHome,
    /// Jump directly to Browser tab (key '2')
    GoToBrowser,
    /// Toggle Browse tab between artist columns and folder layout (requires config).
    ToggleBrowserFolder,
    /// Jump directly to NowPlaying tab (key '3')
    GoToNowPlaying,
    /// Open or close the internet radio station picker (default: Shift+R).
    ToggleRadioPicker,
    /// Play the selected station from the radio picker and close it.
    RadioPickerSelect,
    /// Close the radio picker without playing.
    RadioPickerCancel,
    FocusLeft,
    FocusRight,
    AddToQueue,
    AddAllToQueue,
    /// Browser: replace queue with the **current album** (selected album + loaded tracks) and play.
    AddAllToQueueReplaceAlbum,
    /// Browser: replace queue with **all tracks for the current artist** (API fetch) and play.
    AddAllToQueueReplaceArtist,
    /// Browser: add all tracks — insert at the front of the queue.
    AddAllToQueuePrepend,
    PlayPause,
    NextTrack,
    PrevTrack,
    VolumeUp,
    VolumeDown,
    ClearQueue,
    /// Remove the highlighted track from the queue (Now Playing tab).
    RemoveFromQueue,
    Shuffle,
    Unshuffle,
    /// Toggle whether the queue loops after the last track (↻ control).
    ToggleQueueLoop,
    /// Replace the queue with a mix seeded by the selected song, or cancel a pending mix.
    InstantMix,
    /// Toggle Now Playing pane focus between live radio and library queue.
    ToggleNpPaneFocus,
    SeekForward,
    SeekBackward,
    /// Seek to an exact position (used by progress-bar clicks).
    SeekTo(Duration),
    SearchStart,
    SearchInput(char),
    SearchBackspace,
    SearchConfirm,
    SearchCancel,
    /// Toggle dynamic accent colour extraction from album art.
    ToggleDynamicTheme,
    /// Toggle the lyrics overlay on the NowPlaying tab.
    ToggleLyrics,
    /// Toggle the spectrum visualizer overlay on the NowPlaying tab.
    ToggleVisualizer,
    /// Toggle the keybind reference popup.
    ToggleHelp,
    /// Toggle favorite (star) status for the focused or playing track.
    ToggleFavorite,
    /// Set user rating (1–5) on the focused or playing song; 0 clears.
    RateSong(u8),
    /// Toggle the favorites (starred) browser overlay.
    ToggleFavoritesOverlay,
    /// Favorites overlay: move selection (j/k, PageUp/Down, gg/G).
    FavoritesNavigate(Direction),
    /// Favorites overlay: focus category list.
    FavoritesFocusCategories,
    /// Favorites overlay: focus items list.
    FavoritesFocusItems,
    /// Favorites overlay: replace queue and play (category or item).
    FavoritesPlay,
    /// Favorites overlay: append to queue (category or item).
    FavoritesAppend,
    /// Scroll the help popup up one line.
    HelpScrollUp,
    /// Scroll the help popup down one line.
    HelpScrollDown,
    /// Move to the next section on the Home tab (RecentAlbums → RecentTracks → TopArtists → Rediscover).
    HomeSectionNext,
    /// Move to the previous section on the Home tab.
    HomeSectionPrev,
    /// Refresh Home tab data (re-rolls rediscover suggestions).
    HomeRefresh,
    /// Refresh internet radio stations while the picker is open.
    RadioRefresh,
    /// Open the new-station form on the Radio tab.
    RadioCreate,
    /// Open the edit-station form for the selected station.
    RadioEdit,
    /// Prompt to delete the selected station.
    RadioDelete,
    /// Move to the next field in the radio station form.
    RadioFieldNext,
    /// Move to the previous field in the radio station form.
    RadioFieldPrev,
    /// Submit the radio station form.
    RadioInputConfirm,
    /// Cancel the radio station form or delete prompt.
    RadioInputCancel,
    /// Feed a character into the focused radio form field.
    RadioInputChar(char),
    /// Confirm deleting a radio station.
    RadioConfirmYes,
    /// Cancel deleting a radio station.
    RadioConfirmNo,
    /// Navigate the art strip left (decrement selected album).
    HomeAlbumLeft,
    /// Navigate the art strip right (increment selected album).
    HomeAlbumRight,
    /// Add the selected album (strip) to queue, replacing existing queue.
    #[allow(dead_code)]
    HomeAlbumPlay,
    /// Append the selected album (strip) to queue without clearing.
    HomeAlbumAddToQueue,
    /// Toggle the playlist browser overlay.
    TogglePlaylistOverlay,
    /// Move selection within the playlist overlay (list or tracks pane).
    PlaylistNavigate(Direction),
    /// Move focus to the tracks pane of the playlist overlay.
    PlaylistFocusTracks,
    /// Move focus back to the playlist list pane of the overlay.
    PlaylistFocusList,
    /// Replace the queue with all tracks from the selected playlist and play.
    PlaylistPlayAll,
    /// Append all tracks from the selected playlist to the queue.
    PlaylistAppendAll,
    /// Replace the queue with the highlighted track and play.
    PlaylistPlayTrack,
    /// Append the highlighted track to the queue.
    PlaylistAppendTrack,
    /// Create a new playlist (opens the name-input prompt).
    PlaylistCreate,
    /// Delete the currently selected playlist (opens confirmation prompt).
    PlaylistDelete,
    /// Rename the currently selected playlist (opens the rename-input prompt).
    PlaylistRename,
    /// Remove the highlighted track from the current playlist.
    PlaylistRemoveTrack,
    /// Open the playlist picker to add the focused browser track (or all tracks
    /// of the focused album) to a playlist.
    BrowserAddToPlaylist,
    /// Confirm selection in the playlist picker.
    PlaylistPickerSelect,
    /// Cancel and close the playlist picker.
    PlaylistPickerCancel,
    /// Move selection in the playlist picker.
    PlaylistPickerNavigate(Direction),
    /// Confirm the current text-input field (create / rename).
    PlaylistInputConfirm,
    /// Cancel the current text-input field.
    PlaylistInputCancel,
    /// Feed a character into the active text-input buffer.
    PlaylistInputChar(char),
    /// Confirm the yes/no confirmation prompt.
    PlaylistConfirmYes,
    /// Decline the yes/no confirmation prompt.
    PlaylistConfirmNo,
    /// Open the fzf (or `sk`) track picker using the local metadata index.
    LibraryFzfPicker,
    /// Force a full refresh of the metadata index from Subsonic.
    LibraryIndexRefresh,
    /// Confirm a pending full library index refresh.
    ConfirmLibraryIndexRefresh,
    /// Propose appending all indexed library tracks to the queue (shows y/n first).
    LibraryIndexAppendQueue,
    /// Confirm pending append of the full metadata index to the queue.
    ConfirmLibraryIndexAppendQueue,
    /// Confirm pending append of the full server library (non-index) to the queue.
    ConfirmLibraryServerAppendQueue,
    /// Dismiss a global confirmation prompt (e.g. library refresh).
    CancelGlobalConfirm,
    /// Check server connectivity now (optional keybind; periodic check uses `[server].connection_check_interval_secs`).
    CheckConnection,
    Quit,
    /// No action (a key with no binding).
    NoOp,
}

/// The three top-level tabs.
#[derive(Debug, Default, Clone, Copy, PartialEq, Eq, Structural)]
pub enum Tab {
    #[default]
    Home,
    Browser,
    NowPlaying,
}

impl Tab {
    pub open spec fn next_spec(self) -> Tab {
        match self {
            Tab::Home => Tab::Browser,
            Tab::Browser => Tab::NowPlaying,
            Tab::NowPlaying => Tab::Home,
        }
    }

    pub open spec fn prev_spec(self) -> Tab {
        match self {
            Tab::Home => Tab::NowPlaying,
            Tab::Browser => Tab::Home,
            Tab::NowPlaying => Tab::Browser,
        }
    }

    /// Cycle forward: Home → Browser → NowPlaying → Home
    pub fn next(self) -> (r: Tab)
        ensures r == self.next_spec(),
    {
        match self {
            Tab::Home => Tab::Browser,
            Tab::Browser => Tab::NowPlaying,
            Tab::NowPlaying => Tab::Home,
        }
    }

    /// Cycle backward: Home → NowPlaying → Browser → Home
    pub fn prev(self) -> (r: Tab)
        ensures r == self.prev_spec(),
    {
        match self {
            Tab::Home => Tab::NowPlaying,
            Tab::Browser => Tab::Home,
            Tab::NowPlaying => Tab::Browser,
        }
    }

    /// Same as `next`.
    pub fn toggle(self) -> (r: Tab)
        ensures r == self.next_spec(),
    {
        self.next()
    }

    /// The tab a saved name stands for: `home`, `browser`, `now_playing` (and the former
    /// `radio` tab, now part of Now Playing); anything else is Home.
    pub open spec fn from_name_spec(name: Seq<char>) -> Tab {
        if name == "browser"@ {
            Tab::Browser
        } else if name == "now_playing"@ || name == "radio"@ {
            Tab::NowPlaying
        } else {
            Tab::Home
        }
    }

    /// The tab a saved name stands for (see `from_name_spec`).
    pub fn from_name(name: &str) -> (r: Tab)
        ensures r == Tab::from_name_spec(name@),
    {
        proof {
            reveal_strlit("home");
            reveal_strlit("browser");
            reveal_strlit("now_playing");
            reveal_strlit("radio");
        }
        if crate::text::str_eq(name, "home") {
            assert("home"@.len() != "browser"@.len());
            assert("home"@.len() != "now_playing"@.len());
            assert("home"@.len() != "radio"@.len());
            Tab::Home
        } else if crate::text::str_eq(name, "browser") {
            Tab::Browser
        } else if crate::text::str_eq(name, "now_playing") || crate::text::str_eq(name, "radio") {
            Tab::NowPlaying
        } else {
            Tab::Home
        }
    }

    /// The name a tab is saved under.
    pub fn name(self) -> (r: &'static str)
        ensures
            r@ == match self {
                Tab::Home => "home"@,
                Tab::Browser => "browser"@,
                Tab::NowPlaying => "now_playing"@,
            },
    {
        match self {
            Tab::Home => "home",
            Tab::Browser => "browser",
            Tab::NowPlaying => "now_playing",
        }
    }
}

/// The three Browse columns.
#[derive(Debug, Default, Clone, Copy, PartialEq, Eq, Structural)]
pub enum BrowserColumn {
    #[default]
    Artists,
    Albums,
    Tracks,
}

impl BrowserColumn {
    pub open spec fn left_spec(self) -> BrowserColumn {
        match self {
            BrowserColumn::Artists => BrowserColumn::Artists,
            BrowserColumn::Albums => BrowserColumn::Artists,
            BrowserColumn::Tracks => BrowserColumn::Albums,
        }
    }

    pub open spec fn right_spec(self) -> BrowserColumn {
        match self {
            BrowserColumn::Artists => BrowserColumn::Albums,
            BrowserColumn::Albums => BrowserColumn::Tracks,
            BrowserColumn::Tracks => BrowserColumn::Tracks,
        }
    }

    /// The column to the left (Artists stays).
    pub fn left(self) -> (r: BrowserColumn)
        ensures r == self.left_spec(),
    {
        match self {
            BrowserColumn::Artists => BrowserColumn::Artists,
            BrowserColumn::Albums => BrowserColumn::Artists,
            BrowserColumn::Tracks => BrowserColumn::Albums,
        }
    }

    /// The column to the right (Tracks stays).
    pub fn right(self) -> (r: BrowserColumn)
        ensures r == self.right_spec(),
    {
        match self {
            BrowserColumn::Artists => BrowserColumn::Albums,
            BrowserColumn::Albums => BrowserColumn::Tracks,
            BrowserColumn::Tracks => BrowserColumn::Tracks,
        }
    }
}

/// The filter of a Browse column: the confirmed search applies only to the column that
/// was focused when it was confirmed.
pub fn browser_column_filter<'a>(search_filter: &'a Option<String>, search_filter_column: Option<BrowserColumn>,
    column: BrowserColumn) -> (r: Option<&'a str>)
    ensures
        match r {
            Some(q) => search_filter matches Some(f) && search_filter_column == Some(column) && q@ == f@,
            None => !(search_filter is Some && search_filter_column == Some(column)),
        },
{
    match (search_filter, search_filter_column) {
        (Some(q), Some(col)) => if col == column { Some(q.as_str()) } else { None },
        _ => None,
    }
}

/// The incremental search of a list.
#[derive(Debug, Default, Clone)]
pub struct SearchMode {
    pub active: bool,
    pub query: String,
    /// Index within the filtered result list that is currently selected.
    pub selected: usize,
}

/// A recently-played album entry for the Home tab art strip.
#[derive(Debug, Clone)]
pub struct RecentAlbum {
    pub album_id: String,
    pub album_name: String,
    pub artist_name: String,
}

/// The Home panels in navigation order.
#[derive(Debug, Clone, Copy, PartialEq, Eq, Default, Structural)]
pub enum HomeSection {
    #[default]
    RecentAlbums,
    RecentTracks,
    TopArtists,
    Rediscover,
}

impl HomeSection {
    pub open spec fn next_spec(self) -> HomeSection {
        match self {
            HomeSection::RecentAlbums => HomeSection::RecentTracks,
            HomeSection::RecentTracks => HomeSection::TopArtists,
            HomeSection::TopArtists => HomeSection::Rediscover,
            HomeSection::Rediscover => HomeSection::RecentAlbums,
        }
    }

    pub open spec fn prev_spec(self) -> HomeSection {
        match self {
            HomeSection::RecentAlbums => HomeSection::Rediscover,
            HomeSection::RecentTracks => HomeSection::RecentAlbums,
            HomeSection::TopArtists => HomeSection::RecentTracks,
            HomeSection::Rediscover => HomeSection::TopArtists,
        }
    }

    /// The next panel: RecentAlbums → RecentTracks → TopArtists → Rediscover → RecentAlbums.
    pub fn next(self) -> (r: HomeSection)
        ensures r == self.next_spec(),
    {
        match self {
            HomeSection::RecentAlbums => HomeSection::RecentTracks,
            HomeSection::RecentTracks => HomeSection::TopArtists,
            HomeSection::TopArtists => HomeSection::Rediscover,
            HomeSection::Rediscover => HomeSection::RecentAlbums,
        }
    }

    /// The previous panel: the same cycle backwards.
    pub fn prev(self) -> (r: HomeSection)
        ensures r == self.prev_spec(),
    {
        match self {
            HomeSection::RecentAlbums => HomeSection::Rediscover,
            HomeSection::RecentTracks => HomeSection::RecentAlbums,
            HomeSection::TopArtists => HomeSection::RecentTracks,
            HomeSection::Rediscover => HomeSection::TopArtists,
        }
    }
}

/// What the Home tab shows.
#[derive(Debug, Default)]
pub struct HomeState {
    pub active_section: HomeSection,
    /// Up to 20 recently-played unique albums (most recent first) for the art strip.
    pub recent_albums: Vec<RecentAlbum>,
    /// Scroll offset for the art strip (horizontal).
    pub album_scroll_offset: usize,
    /// Selected album index within `recent_albums`.
    pub album_selected_index: usize,
    /// Last 10 plays from history, most recent first.
    pub recent_tracks: Vec<PlayRecord>,
    /// Top artists: (artist_id, artist_name, play_count).
    pub top_artists: Vec<(String, String, u64)>,
    /// Rediscover suggestions: (artist_id, artist_name).
    pub rediscover: Vec<(String, String)>,
    /// Cursor within the active section.
    pub selected_index: usize,
}


/// Cycling the tabs: `prev` undoes `next` and `next` undoes `prev`; three steps either
/// way come back to the start, and `toggle` is `next`.
pub proof fn tab_cycle(t: Tab)
    ensures
        t.next_spec().prev_spec() == t,
        t.prev_spec().next_spec() == t,
        t.next_spec().next_spec().next_spec() == t,
        t.prev_spec().prev_spec().prev_spec() == t,
        t.next_spec() != t,
{
}

/// Moving between Browse columns: `left` undoes `right` except from the last column,
/// `right` undoes `left` except from the first; both stay inside the three columns.
pub proof fn browser_column_moves(c: BrowserColumn)
    ensures
        c != BrowserColumn::Tracks ==> c.right_spec().left_spec() == c,
        c != BrowserColumn::Artists ==> c.left_spec().right_spec() == c,
        BrowserColumn::Artists.left_spec() == BrowserColumn::Artists,
        BrowserColumn::Tracks.right_spec() == BrowserColumn::Tracks,
{
}

/// The Home panels form one cycle through all four: `prev` undoes `next`, and four
/// steps either way come back to the start.
pub proof fn home_section_cycle(s: HomeSection)
    ensures
        s.next_spec().prev_spec() == s,
        s.prev_spec().next_spec() == s,
        s.next_spec().next_spec().next_spec().next_spec() == s,
        s.prev_spec().prev_spec().prev_spec().prev_spec() == s,
        s.next_spec() != s,
        HomeSection::RecentAlbums.next_spec() == HomeSection::RecentTracks,
        HomeSection::RecentTracks.next_spec() == HomeSection::TopArtists,
        HomeSection::TopArtists.next_spec() == HomeSection::Rediscover,
        HomeSection::Rediscover.next_spec() == HomeSection::RecentAlbums,
{
}

/// A cursor on a row of the list stays on a row of the list when moved (0 for an empty
/// list); Top and Bottom land on the first and last row.
pub proof fn moved_index_in_list(cur: int, len: int, page: int, dir: Direction)
    requires
        0 <= cur,
        0 <= len,
        len > 0 ==> cur < len,
    ensures
        len == 0 ==> moved_index(cur, len, page, dir) == 0,
        len > 0 ==> 0 <= moved_index(cur, len, page, dir) < len,
        len > 0 ==> moved_index(cur, len, page, Direction::Top) == 0,
        len > 0 ==> moved_index(cur, len, page, Direction::Bottom) == len - 1,
{
}
} // verus!
