//! Settings from `config.toml` and how they resolve to what the player uses.
use vstd::prelude::*;
use crate::text::{
    trim, lower_seq, all_white, eq_ignore_case, is_white, lower, lemma_trim_around, trimmed, ascii_lowercase, str_eq, opt_view, opt_str_view, opt_as_str,
    string_lists_eq,
};
use crate::text::views;

verus! {

/// Raw keybind strings from config.toml. Every field is `Option<String>`;
/// unset fields fall back to built-in defaults inside `Keybinds::from_section`.
#[derive(Debug, Default, Clone)]
pub struct KeybindsSection {
    pub scroll_up: Option<String>,
    pub scroll_down: Option<String>,
    pub column_left: Option<String>,
    pub column_right: Option<String>,
    pub play_pause: Option<String>,
    pub next_track: Option<String>,
    pub prev_track: Option<String>,
    pub seek_forward: Option<String>,
    pub seek_backward: Option<String>,
    pub add_track: Option<String>,
    pub add_all: Option<String>,
    /// Replace queue with the **current album** (Browser). Default: Ctrl+r
    pub add_all_replace_album: Option<String>,
    /// Replace queue with **all tracks for the current artist** (Browser). Default: Ctrl+Shift+r
    pub add_all_replace_artist: Option<String>,
    /// Prepend artist/album tracks to the queue. Default: Ctrl+Shift+p
    pub add_all_prepend: Option<String>,
    pub shuffle: Option<String>,
    pub unshuffle: Option<String>,
    /// Toggle queue loop after the last track. Default: Shift+q
    pub toggle_queue_loop: Option<String>,
    /// Start or cancel Instant Mix. Default: m; empty disables the binding.
    pub instant_mix: Option<String>,
    /// Open or close the internet radio station picker. Default: Shift+r
    pub toggle_radio: Option<String>,
    /// Toggle Now Playing focus between live radio and library queue. Default: Ctrl+g
    pub np_focus_queue: Option<String>,
    pub clear_queue: Option<String>,
    /// Remove highlighted track from queue (Now Playing tab). Default: d
    pub remove_from_queue: Option<String>,
    pub search: Option<String>,
    pub volume_up: Option<String>,
    pub volume_down: Option<String>,
    pub tab_switch: Option<String>,
    /// Reverse tab cycle (Backtick by default)
    pub tab_switch_reverse: Option<String>,
    /// Jump to Home tab (default: '1')
    pub go_to_home: Option<String>,
    /// Jump to Browser tab (default: '2')
    pub go_to_browser: Option<String>,
    /// Jump to NowPlaying tab (default: '3')
    pub go_to_nowplaying: Option<String>,
    pub quit: Option<String>,
    /// Fuzzy track picker (metadata index). Default: Ctrl+f
    pub library_fzf: Option<String>,
    /// Force library index refresh. Default: Ctrl+g
    pub library_refresh: Option<String>,
    /// Ping the Subsonic server and update online/offline mode (`""` disables). Default: `Shift+c`.
    pub connection_check: Option<String>,
    /// Append all indexed tracks to the queue (y/n confirm). Default: Ctrl+a (`""` disables)
    pub library_index_append_queue: Option<String>,
    /// Toggle this help popup. Default: i
    pub toggle_help: Option<String>,
    /// Toggle dynamic accent from album art. Default: t
    pub toggle_dynamic_theme: Option<String>,
    /// Toggle lyrics overlay. Default: Shift+l (`L` in TOML is fine)
    pub toggle_lyrics: Option<String>,
    /// Toggle spectrum visualizer. Default: Shift+v (bare `V` still works in-app)
    pub toggle_visualizer: Option<String>,
    /// Browser: playlist overlay. Default: Shift+p
    pub playlist_overlay: Option<String>,
    /// Browser: add focused track (or all tracks of focused album) to a playlist. Default: >
    pub browser_add_to_playlist: Option<String>,
    /// Playlist overlay (tracks pane): remove highlighted track. Default: <
    pub remove_from_playlist: Option<String>,
    /// Home: next panel section. Default: Shift+j (`J` in TOML is fine)
    pub home_section_next: Option<String>,
    /// Home: previous panel section. Default: Shift+k
    pub home_section_prev: Option<String>,
    /// Home: re-roll / refresh. Default: r
    pub home_refresh: Option<String>,
    /// Browse: toggle folder navigation (requires `[ui.browsetab] folder_navigation`). Default: Ctrl+b
    pub toggle_folder_browse: Option<String>,
    /// Toggle favorite on the focused song, album, or artist (Subsonic star API). Default: f
    pub toggle_favorite: Option<String>,
    /// Browse: open favorites overlay. Default: Shift+f (`F`)
    pub favorites_overlay: Option<String>,
    /// Rate focused/playing song 1–5 (Subsonic setRating). Defaults: Shift+1 … Shift+5
    pub rate_song_1: Option<String>,
    pub rate_song_2: Option<String>,
    pub rate_song_3: Option<String>,
    pub rate_song_4: Option<String>,
    pub rate_song_5: Option<String>,
    /// Clear song rating. Default: Shift+0
    pub rate_song_clear: Option<String>,
}


/// How album art is rendered in the terminal (Now Playing column + Home strip).
#[derive(Debug, Clone, Copy, PartialEq, Eq, Structural, Default)]
pub enum AlbumArtBackend {
    /// Multi-protocol rendering via `ratatui-image` (Kitty, Sixel, iTerm2, half-blocks, …).
    #[default]
    RatatuiImage,
    /// Kitty terminal: APC graphics + post-draw path (separate from `ratatui-image`’s Kitty path).
    KittyApc,
}

/// A setting word as it is compared: surrounding white space removed, ASCII letters lowered.
pub open spec fn word(s: Seq<char>) -> Seq<char> {
    lower_seq(trim(s))
}

/// `s.trim().to_ascii_lowercase()`.
fn normalized(s: &str) -> (r: String)
    ensures r@ == word(s@),
{
    ascii_lowercase(trimmed(s))
}

// ── [lyrics] ──────────────────────────────────────────────────────────────────

/// Lyrics provider configured in `[lyrics].source`.
#[derive(Debug, Clone, Copy, PartialEq, Eq, Structural, Default)]
pub enum LyricsSource {
    /// Public LRCLib API (default).
    #[default]
    LrcLib,
    /// Unauthenticated NetEase Cloud Music web API.
    Netease,
    /// Subsonic server (`getLyricsBySongId` / `getLyrics`).
    Subsonic,
}

/// The provider a `[lyrics].source` value names, if any.
pub open spec fn lyrics_source_of(s: Seq<char>) -> Option<LyricsSource> {
    let w = word(s);
    if w == "lrclib"@ || w == "lrc-lib"@ || w == "lrc"@ {
        Some(LyricsSource::LrcLib)
    } else if w == "netease"@ || w == "netease-cloud-music"@ || w == "163"@ {
        Some(LyricsSource::Netease)
    } else if w == "subsonic"@ || w == "server"@ {
        Some(LyricsSource::Subsonic)
    } else {
        None
    }
}

/// Subdirectory name under `~/.cache/ratune/lyrics/` for each provider.
pub open spec fn lyrics_cache_dir(s: LyricsSource) -> Seq<char> {
    match s {
        LyricsSource::LrcLib => "lrclib"@,
        LyricsSource::Netease => "netease"@,
        LyricsSource::Subsonic => "subsonic"@,
    }
}

impl LyricsSource {
    /// Parses a `[lyrics].source` value, ignoring surrounding white space and ASCII case.
    pub fn parse(s: &str) -> (r: Option<LyricsSource>)
        ensures r == lyrics_source_of(s@),
    {
        let n = normalized(s);
        let w = n.as_str();
        if str_eq(w, "lrclib") || str_eq(w, "lrc-lib") || str_eq(w, "lrc") {
            Some(LyricsSource::LrcLib)
        } else if str_eq(w, "netease") || str_eq(w, "netease-cloud-music") || str_eq(w, "163") {
            Some(LyricsSource::Netease)
        } else if str_eq(w, "subsonic") || str_eq(w, "server") {
            Some(LyricsSource::Subsonic)
        } else {
            None
        }
    }

    /// Subdirectory name under `~/.cache/ratune/lyrics/`.
    pub fn cache_dir_name(self) -> (r: &'static str)
        ensures r@ == lyrics_cache_dir(self),
    {
        match self {
            LyricsSource::LrcLib => "lrclib",
            LyricsSource::Netease => "netease",
            LyricsSource::Subsonic => "subsonic",
        }
    }
}

/// A provider's cache directory name reads back as that provider, also with white space
/// around it and in any ASCII case.
pub proof fn lyrics_source_round_trip(src: LyricsSource, pre: Seq<char>, shown: Seq<char>, post: Seq<char>)
    requires
        all_white(pre),
        all_white(post),
        eq_ignore_case(shown, lyrics_cache_dir(src)),
    ensures
        lyrics_source_of(lyrics_cache_dir(src)) == Some(src),
        lyrics_source_of(pre + shown + post) == Some(src),
{
    reveal_strlit("lrclib");
    reveal_strlit("lrc-lib");
    reveal_strlit("lrc");
    reveal_strlit("netease");
    reveal_strlit("netease-cloud-music");
    reveal_strlit("163");
    reveal_strlit("subsonic");
    reveal_strlit("server");
    let d = lyrics_cache_dir(src);
    assert forall|i: int| 0 <= i < d.len() implies lower(#[trigger] d[i]) == d[i] && 'a' <= d[i] <= 'z' by {}
    assert forall|i: int| 0 <= i < shown.len() implies !is_white(#[trigger] shown[i]) && lower(shown[i]) == d[i] by {
        assert(lower(shown[i]) == lower(d[i]));
    }
    assert(lower_seq(shown) =~= d);
    lemma_trim_around(pre, shown, post);
    assert(lower_seq(trim(d)) =~= d) by {
        lemma_trim_around(Seq::empty(), d, Seq::empty());
        assert(Seq::<char>::empty() + d + Seq::<char>::empty() =~= d);
    }
}

// ── Home tab layout ───────────────────────────────────────────────────────────

/// Which block occupies each slot on the Home tab.
#[derive(Debug, Clone, Copy, PartialEq, Eq, Structural, Hash)]
pub enum HomePanel {
    RecentAlbums,
    RecentTracks,
    Rediscover,
}

/// The panel a `[ui.hometab.layout].panels` entry names, if any.
pub open spec fn home_panel_of(s: Seq<char>) -> Option<HomePanel> {
    let w = word(s);
    if w == "recent_albums"@ || w == "albums"@ {
        Some(HomePanel::RecentAlbums)
    } else if w == "recent_tracks"@ || w == "tracks"@ {
        Some(HomePanel::RecentTracks)
    } else if w == "rediscover"@ {
        Some(HomePanel::Rediscover)
    } else {
        None
    }
}

impl HomePanel {
    /// Parses one panel name, ignoring surrounding white space and ASCII case.
    pub fn parse(s: &str) -> (r: Option<HomePanel>)
        ensures r == home_panel_of(s@),
    {
        let n = normalized(s);
        let w = n.as_str();
        if str_eq(w, "recent_albums") || str_eq(w, "albums") {
            Some(HomePanel::RecentAlbums)
        } else if str_eq(w, "recent_tracks") || str_eq(w, "tracks") {
            Some(HomePanel::RecentTracks)
        } else if str_eq(w, "rediscover") {
            Some(HomePanel::Rediscover)
        } else {
            None
        }
    }
}

pub open spec fn default_panels() -> Seq<HomePanel> {
    seq![HomePanel::RecentAlbums, HomePanel::RecentTracks, HomePanel::Rediscover]
}

/// Recently played albums on top, recent tracks bottom-left, rediscover bottom-right.
pub fn default_home_panels() -> (r: [HomePanel; 3])
    ensures r@ == default_panels(),
{
    let r = [HomePanel::RecentAlbums, HomePanel::RecentTracks, HomePanel::Rediscover];
    assert(r@ =~= default_panels());
    r
}

/// The characters of each string of an optional list.
pub open spec fn opt_list_view(v: Option<Vec<String>>) -> Option<Seq<Seq<char>>> {
    match v {
        Some(l) => Some(l@.map_values(|x: String| x@)),
        None => None,
    }
}

/// The Home layout that `[ui.hometab.layout].panels` asks for: three names that parse and
/// name three different panels, in slot order; anything else gives the default layout.
pub open spec fn home_panels_of(v: Option<Seq<Seq<char>>>) -> Seq<HomePanel> {
    match v {
        None => default_panels(),
        Some(s) => {
            if s.len() == 3 && home_panel_of(s[0]) is Some && home_panel_of(s[1]) is Some
                && home_panel_of(s[2]) is Some {
                let a = home_panel_of(s[0])->0;
                let b = home_panel_of(s[1])->0;
                let c = home_panel_of(s[2])->0;
                if a != b && a != c && b != c { seq![a, b, c] } else { default_panels() }
            } else {
                default_panels()
            }
        },
    }
}

/// `[top, bottom_left, bottom_right]` from `[ui.hometab.layout].panels`. The list must be
/// a permutation of the three panels; otherwise the default layout is used.
pub fn parse_home_panels(v: Option<Vec<String>>) -> (r: [HomePanel; 3])
    ensures
        r@ == home_panels_of(opt_list_view(v)),
        forall|i: int, j: int| 0 <= i < j < 3 ==> r@[i] != r@[j],
{
    match v {
        None => default_home_panels(),
        Some(list) => {
            if list.len() != 3 {
                return default_home_panels();
            }
            let ghost s = list@.map_values(|x: String| x@);
            assert(s[0] == list@[0]@ && s[1] == list@[1]@ && s[2] == list@[2]@);
            let a = HomePanel::parse(list[0].as_str());
            let b = HomePanel::parse(list[1].as_str());
            let c = HomePanel::parse(list[2].as_str());
            match (a, b, c) {
                (Some(a), Some(b), Some(c)) => {
                    if a != b && a != c && b != c {
                        let r = [a, b, c];
                        assert(r@ =~= seq![a, b, c]);
                        r
                    } else {
                        default_home_panels()
                    }
                },
                _ => default_home_panels(),
            }
        },
    }
}

// ── Browse tab mode ───────────────────────────────────────────────────────────

/// Browse tab mode: `artists` (artist/album/track) or `files` (folder navigation).
#[derive(Debug, Clone, Copy, PartialEq, Eq, Structural, Default)]
pub enum BrowseMode {
    #[default]
    Artists,
    Genre,
    Files,
}

/// The browse mode a `[ui.browsetab].mode` value names, if any.
pub open spec fn browse_mode_of(s: Seq<char>) -> Option<BrowseMode> {
    let w = word(s);
    if w == "artists"@ || w == "artist"@ {
        Some(BrowseMode::Artists)
    } else if w == "genre"@ || w == "genres"@ {
        Some(BrowseMode::Genre)
    } else if w == "files"@ || w == "file"@ {
        Some(BrowseMode::Files)
    } else {
        None
    }
}

impl BrowseMode {
    /// Parses a browse mode, ignoring surrounding white space and ASCII case.
    pub fn parse(s: &str) -> (r: Option<BrowseMode>)
        ensures r == browse_mode_of(s@),
    {
        let n = normalized(s);
        let w = n.as_str();
        if str_eq(w, "artists") || str_eq(w, "artist") {
            Some(BrowseMode::Artists)
        } else if str_eq(w, "genre") || str_eq(w, "genres") {
            Some(BrowseMode::Genre)
        } else if str_eq(w, "files") || str_eq(w, "file") {
            Some(BrowseMode::Files)
        } else {
            None
        }
    }
}

// ── [theme] ───────────────────────────────────────────────────────────────────

/// Theme mode chosen by `[theme].preset`.
#[derive(Debug, Clone, Copy, PartialEq, Eq, Structural, Default)]
pub enum ThemePreset {
    /// Use the configured hex palette in `[theme]` (and do **not** extract accent from album art).
    Static,
    /// Use configured hex palette, but allow dynamic accent extracted from album art. (Default)
    #[default]
    Dynamic,
    /// Use terminal/OS palette (ANSI indices / default fg/bg), ignoring the hex palette.
    Terminal,
}

/// The preset that `[theme].preset` selects; unset or unknown values select `Dynamic`.
pub open spec fn theme_preset_of(p: Option<Seq<char>>) -> ThemePreset {
    match p {
        None => ThemePreset::Dynamic,
        Some(s) => {
            let w = word(s);
            if w == "static"@ {
                ThemePreset::Static
            } else if w == "dynamic"@ {
                ThemePreset::Dynamic
            } else if w == "os"@ || w == "terminal"@ || w == "term"@ {
                ThemePreset::Terminal
            } else {
                ThemePreset::Dynamic
            }
        },
    }
}

/// The theme preset of a `[theme]` table.
pub fn theme_preset_from_section(sec: &ThemeSection) -> (r: ThemePreset)
    ensures r == theme_preset_of(opt_view(sec.preset)),
{
    match &sec.preset {
        None => ThemePreset::Dynamic,
        Some(p) => {
            let n = normalized(p.as_str());
            let w = n.as_str();
            if str_eq(w, "static") {
                ThemePreset::Static
            } else if str_eq(w, "dynamic") {
                ThemePreset::Dynamic
            } else if str_eq(w, "os") || str_eq(w, "terminal") || str_eq(w, "term") {
                ThemePreset::Terminal
            } else {
                ThemePreset::Dynamic
            }
        },
    }
}

#[derive(Debug, Default, Clone)]
pub struct ThemeSection {
    /// Theme mode preset:
    /// - `dynamic` (default): configured palette + album-art accent extraction
    /// - `static`: configured palette only (no dynamic accent)
    /// - `terminal` / `os`: terminal palette defaults; optional fields below still override
    ///
    /// Optional colour fields merge on top of preset defaults. Values may be 6-digit hex (`#rrggbb`
    /// or `rrggbb`), a 256-colour index (`idx:N`, `indexed:N`, `ansi:N`, `color:N`, or `i:N` for N in 0..=255),
    /// or `reset` / `inherit` / `default` / `unset` / `none` / `transparent` to leave a
    /// background unpainted (for terminal transparency).
    pub preset: Option<String>,
    pub accent: Option<String>,
    /// General chrome (popups, selection inverse fg). Also sets tab/status bars when they are unset.
    pub background: Option<String>,
    /// Tab indicator bar (`Home | Browse | Now Playing`). Falls back to `background`.
    pub tab_bar: Option<String>,
    /// Bottom status bar. Falls back to `background`.
    pub status_bar: Option<String>,
    pub surface: Option<String>,
    pub foreground: Option<String>,
    pub dimmed: Option<String>,
    /// Inactive border colour.
    pub border: Option<String>,
    pub border_active: Option<String>,
    /// Pane outline style + optional edge glyphs. See [`ThemeBorderLinesSection`].
    pub border_lines: ThemeBorderLinesSection,
    /// Legacy — prefer `[theme.border_lines].type`.
    pub border_type: Option<String>,
    /// Legacy — prefer `[theme.border_lines].top_left` (etc.).
    pub border_top_left: Option<String>,
    pub border_top_right: Option<String>,
    pub border_bottom_left: Option<String>,
    pub border_bottom_right: Option<String>,
    pub border_vertical: Option<String>,
    pub border_horizontal: Option<String>,
    /// Optional glyph overrides (transport, favorite, ratings stars, tab/status chrome).
    /// See [`ThemeIconSection`]. Progress bar glyphs stay under `[ui.*.progress_style]`.
    pub icon: ThemeIconSection,
}

/// Pane box-drawing under `[theme.border_lines]` (avoids clashing with the `border` colour key).
///
/// ```toml
/// [theme.border_lines]
/// type = "ascii"          # plain | rounded | double | thick | ascii
/// top_left = "+"
/// top_right = "+"
/// bottom_left = "+"
/// bottom_right = "+"
/// vertical = "|"
/// horizontal = "-"
/// ```
#[derive(Debug, Default, Clone)]
pub struct ThemeBorderLinesSection {
    /// Outline style: `plain`, `rounded`, `double`, `thick`, or `ascii`.
    /// TOML key: `type` (also accepts `border_type`).
    pub style: Option<String>,
    pub top_left: Option<String>,
    pub top_right: Option<String>,
    pub bottom_left: Option<String>,
    pub bottom_right: Option<String>,
    pub vertical: Option<String>,
    pub horizontal: Option<String>,
}

/// Optional UI glyph overrides under `[theme.icon]`.
///
/// Omit any field to keep the built-in default. Useful when the terminal font lacks
/// media-control or specialty characters.
///
/// Box outlines live under `[theme.border_lines]`. Flat `[theme].border_type` / edge keys
/// and the same keys under `[theme.icon]` are still accepted as legacy fallbacks.
#[derive(Debug, Default, Clone)]
pub struct ThemeIconSection {
    /// Label while a track is playing (default: `( ⏸ )`).
    pub playing: Option<String>,
    /// Label while paused (default: `( ▶ )`).
    pub paused: Option<String>,
    /// Label when nothing is loaded (default: `▶`).
    pub stopped: Option<String>,
    /// Next-track control (default: `⏭`).
    pub next_song: Option<String>,
    /// Previous-track control (default: `⏮`).
    pub previous_song: Option<String>,
    /// Shuffle control (default: `⇄`).
    pub mode_shuffle: Option<String>,
    /// Queue-loop control (default: `↻`).
    pub mode_loop: Option<String>,
    /// Starred / favorite marker (default: `★`).
    pub favorite: Option<String>,
    /// Glyph repeated for each filled rating star (default: `⭑`).
    /// Legacy fallback: `[ratings].star_filled`.
    pub rating_filled: Option<String>,
    /// Glyph repeated for each empty rating star (default: `⭒`).
    /// Legacy fallback: `[ratings].star_empty`.
    pub rating_empty: Option<String>,
    /// Opening bracket around the rating star run (default: `[`).
    /// Legacy fallback: `[ratings].bracket_open`.
    pub rating_bracket_open: Option<String>,
    /// Closing bracket around the rating star run (default: `]`).
    /// Legacy fallback: `[ratings].bracket_close`.
    pub rating_bracket_close: Option<String>,
    /// Tab bar separator including surrounding spaces (default: ` │ `).
    pub tab_separator: Option<String>,
    /// Status-bar online indicator (default: `●`).
    pub online: Option<String>,
    /// Status-bar offline indicator (default: `○`).
    pub offline: Option<String>,
    /// Radio live prefix glyph (default: `●`).
    pub live: Option<String>,
    /// Legacy — prefer `[theme.border_lines].type`.
    pub border_type: Option<String>,
    /// Legacy — prefer `[theme.border_lines]` edge keys.
    pub border_top_left: Option<String>,
    pub border_top_right: Option<String>,
    pub border_bottom_left: Option<String>,
    pub border_bottom_right: Option<String>,
    pub border_vertical: Option<String>,
    pub border_horizontal: Option<String>,
}

/// Resolved border glyph sources (canonical → flat theme → icon legacy).
#[derive(Debug, Default, Clone)]
pub struct ThemeBorderSource<'a> {
    pub border_type: Option<&'a str>,
    pub top_left: Option<&'a str>,
    pub top_right: Option<&'a str>,
    pub bottom_left: Option<&'a str>,
    pub bottom_right: Option<&'a str>,
    pub vertical: Option<&'a str>,
    pub horizontal: Option<&'a str>,
}

/// The first of three optional values that is set.
pub open spec fn first_set<T>(a: Option<T>, b: Option<T>, c: Option<T>) -> Option<T> {
    if a is Some { a } else if b is Some { b } else { c }
}

/// The first of three optional strings that is set, borrowed.
fn first_set_str<'a>(a: &'a Option<String>, b: &'a Option<String>, c: &'a Option<String>) -> (r: Option<&'a str>)
    ensures opt_str_view(r) == first_set(opt_view(*a), opt_view(*b), opt_view(*c)),
{
    match opt_as_str(a) {
        Some(x) => Some(x),
        None => match opt_as_str(b) {
            Some(x) => Some(x),
            None => opt_as_str(c),
        },
    }
}

impl ThemeSection {
    /// Border style/glyphs: `[theme.border_lines]` → flat `[theme].border_*` → `[theme.icon]`.
    pub fn border_source(&self) -> (r: ThemeBorderSource<'_>)
        ensures
            opt_str_view(r.border_type) == first_set(opt_view(self.border_lines.style),
                opt_view(self.border_type), opt_view(self.icon.border_type)),
            opt_str_view(r.top_left) == first_set(opt_view(self.border_lines.top_left),
                opt_view(self.border_top_left), opt_view(self.icon.border_top_left)),
            opt_str_view(r.top_right) == first_set(opt_view(self.border_lines.top_right),
                opt_view(self.border_top_right), opt_view(self.icon.border_top_right)),
            opt_str_view(r.bottom_left) == first_set(opt_view(self.border_lines.bottom_left),
                opt_view(self.border_bottom_left), opt_view(self.icon.border_bottom_left)),
            opt_str_view(r.bottom_right) == first_set(opt_view(self.border_lines.bottom_right),
                opt_view(self.border_bottom_right), opt_view(self.icon.border_bottom_right)),
            opt_str_view(r.vertical) == first_set(opt_view(self.border_lines.vertical),
                opt_view(self.border_vertical), opt_view(self.icon.border_vertical)),
            opt_str_view(r.horizontal) == first_set(opt_view(self.border_lines.horizontal),
                opt_view(self.border_horizontal), opt_view(self.icon.border_horizontal)),
    {
        let lines = &self.border_lines;
        ThemeBorderSource {
            border_type: first_set_str(&lines.style, &self.border_type, &self.icon.border_type),
            top_left: first_set_str(&lines.top_left, &self.border_top_left, &self.icon.border_top_left),
            top_right: first_set_str(&lines.top_right, &self.border_top_right, &self.icon.border_top_right),
            bottom_left: first_set_str(&lines.bottom_left, &self.border_bottom_left, &self.icon.border_bottom_left),
            bottom_right: first_set_str(&lines.bottom_right, &self.border_bottom_right, &self.icon.border_bottom_right),
            vertical: first_set_str(&lines.vertical, &self.border_vertical, &self.icon.border_vertical),
            horizontal: first_set_str(&lines.horizontal, &self.border_horizontal, &self.icon.border_horizontal),
        }
    }
}

// ── [ratings] ─────────────────────────────────────────────────────────────────

/// Default glyph for a filled rating star.
pub const DEFAULT_RATING_STAR_FILLED: &'static str = "⭑";
/// Default glyph for an empty rating star.
pub const DEFAULT_RATING_STAR_EMPTY: &'static str = "⭒";
/// Default opening bracket around the rating stars.
pub const DEFAULT_RATING_BRACKET_OPEN: &'static str = "[";
/// Default closing bracket around the rating stars.
pub const DEFAULT_RATING_BRACKET_CLOSE: &'static str = "]";

pub fn default_rating_star_filled() -> (r: String)
    ensures r@ == DEFAULT_RATING_STAR_FILLED@,
{
    String::from_str(DEFAULT_RATING_STAR_FILLED)
}

pub fn default_rating_star_empty() -> (r: String)
    ensures r@ == DEFAULT_RATING_STAR_EMPTY@,
{
    String::from_str(DEFAULT_RATING_STAR_EMPTY)
}

pub fn default_rating_bracket_open() -> (r: String)
    ensures r@ == DEFAULT_RATING_BRACKET_OPEN@,
{
    String::from_str(DEFAULT_RATING_BRACKET_OPEN)
}

pub fn default_rating_bracket_close() -> (r: String)
    ensures r@ == DEFAULT_RATING_BRACKET_CLOSE@,
{
    String::from_str(DEFAULT_RATING_BRACKET_CLOSE)
}

/// The `[ratings]` table.
#[derive(Debug, Clone)]
pub struct RatingsSection {
    /// Show ratings in the UI, allow rating keybinds, and export MPRIS UserRating.
    pub enabled: bool,
    /// Legacy glyph — prefer `[theme.icon].rating_filled`. Default: ⭑
    pub star_filled: String,
    /// Legacy glyph — prefer `[theme.icon].rating_empty`. Default: ⭒
    pub star_empty: String,
    /// Legacy — prefer `[theme.icon].rating_bracket_open`. Default: `[`
    pub bracket_open: String,
    /// Legacy — prefer `[theme.icon].rating_bracket_close`. Default: `]`
    pub bracket_close: String,
}

impl Default for RatingsSection {
    fn default() -> (r: RatingsSection)
        ensures
            !r.enabled,
            r.star_filled@ == DEFAULT_RATING_STAR_FILLED@,
            r.star_empty@ == DEFAULT_RATING_STAR_EMPTY@,
            r.bracket_open@ == DEFAULT_RATING_BRACKET_OPEN@,
            r.bracket_close@ == DEFAULT_RATING_BRACKET_CLOSE@,
    {
        RatingsSection {
            enabled: false,
            star_filled: default_rating_star_filled(),
            star_empty: default_rating_star_empty(),
            bracket_open: default_rating_bracket_open(),
            bracket_close: default_rating_bracket_close(),
        }
    }
}

/// Glyphs used when rendering a 1–5 user rating in the UI.
#[derive(Debug, Clone)]
pub struct RatingStarGlyphs {
    pub filled: String,
    pub empty: String,
    pub bracket_open: String,
    pub bracket_close: String,
}

impl Default for RatingStarGlyphs {
    fn default() -> (r: RatingStarGlyphs)
        ensures
            r.filled@ == DEFAULT_RATING_STAR_FILLED@,
            r.empty@ == DEFAULT_RATING_STAR_EMPTY@,
            r.bracket_open@ == DEFAULT_RATING_BRACKET_OPEN@,
            r.bracket_close@ == DEFAULT_RATING_BRACKET_CLOSE@,
    {
        RatingStarGlyphs {
            filled: default_rating_star_filled(),
            empty: default_rating_star_empty(),
            bracket_open: default_rating_bracket_open(),
            bracket_close: default_rating_bracket_close(),
        }
    }
}

/// The override when it is set, else the legacy value.
pub open spec fn prefer(over: Option<Seq<char>>, legacy: Seq<char>) -> Seq<char> {
    match over {
        Some(s) => s,
        None => legacy,
    }
}

fn prefer_string(over: &Option<String>, legacy: &String) -> (r: String)
    ensures r@ == prefer(opt_view(*over), legacy@),
{
    match over {
        Some(s) => s.clone(),
        None => legacy.clone(),
    }
}

/// Resolve rating display glyphs: `[theme.icon]` wins over legacy `[ratings]` keys.
pub fn resolve_rating_stars(icon: &ThemeIconSection, ratings: &RatingsSection) -> (r: RatingStarGlyphs)
    ensures
        r.filled@ == prefer(opt_view(icon.rating_filled), ratings.star_filled@),
        r.empty@ == prefer(opt_view(icon.rating_empty), ratings.star_empty@),
        r.bracket_open@ == prefer(opt_view(icon.rating_bracket_open), ratings.bracket_open@),
        r.bracket_close@ == prefer(opt_view(icon.rating_bracket_close), ratings.bracket_close@),
{
    RatingStarGlyphs {
        filled: prefer_string(&icon.rating_filled, &ratings.star_filled),
        empty: prefer_string(&icon.rating_empty, &ratings.star_empty),
        bracket_open: prefer_string(&icon.rating_bracket_open, &ratings.bracket_open),
        bracket_close: prefer_string(&icon.rating_bracket_close, &ratings.bracket_close),
    }
}

// ── [radio] / [cache] defaults ────────────────────────────────────────────────

pub fn default_radio_enabled() -> (r: bool)
    ensures r,
{
    true
}

pub fn default_radio_fetch_station_icons() -> (r: bool)
    ensures r,
{
    true
}

pub fn default_cache_enabled() -> (r: bool)
    ensures r,
{
    true
}

pub fn default_cache_starred() -> (r: bool)
    ensures !r,
{
    false
}

pub fn default_cache_starred_albums() -> (r: bool)
    ensures !r,
{
    false
}

pub fn default_cache_starred_parallelism() -> (r: usize)
    ensures r == 2,
{
    2
}

// ── [lyrics] ──────────────────────────────────────────────────────────────────

pub fn default_lyrics_source() -> (r: String)
    ensures r@ == "lrclib"@,
{
    String::from_str("lrclib")
}

pub fn default_lrclib_url() -> (r: String)
    ensures r@ == "https://lrclib.net"@,
{
    String::from_str("https://lrclib.net")
}

pub fn default_lyrics_cache_enabled() -> (r: bool)
    ensures r,
{
    true
}

/// Lyrics fetch settings from config.toml.
#[derive(Debug, Clone)]
pub struct LyricsSection {
    /// Where to fetch lyrics: `lrclib` (default), `netease`, or `subsonic`.
    pub source: String,
    /// LRCLib server base URL (used when `source = "lrclib"`). Default: https://lrclib.net
    pub lrclib_url: String,
    /// Cache fetched lyrics on disk for offline use. Default: true.
    pub cache_enabled: bool,
}

impl Default for LyricsSection {
    fn default() -> (r: LyricsSection)
        ensures
            r.source@ == "lrclib"@,
            r.lrclib_url@ == "https://lrclib.net"@,
            r.cache_enabled,
    {
        LyricsSection {
            source: default_lyrics_source(),
            lrclib_url: default_lrclib_url(),
            cache_enabled: default_lyrics_cache_enabled(),
        }
    }
}

// ── [library] — metadata index + fzf picker ───────────────────────────────────

/// Max width (terminal columns) of each TSV field shown in the fuzzy picker; `0` = no
/// truncation.
#[derive(Debug, Clone, Copy, PartialEq, Eq, Structural)]
pub struct FzfColumns {
    pub artist: usize,
    pub album: usize,
    pub title: usize,
    pub duration: usize,
}

impl Default for FzfColumns {
    fn default() -> (r: FzfColumns)
        ensures r == (FzfColumns { artist: 26, album: 28, title: 36, duration: 6 }),
    {
        FzfColumns { artist: 26, album: 28, title: 36, duration: 6 }
    }
}

pub fn default_fzf_binary() -> (r: String)
    ensures r@ == "fzf"@,
{
    String::from_str("fzf")
}

/// The built-in picker arguments.
pub open spec fn default_fzf_args_spec() -> Seq<Seq<char>> {
    seq![
        "--delimiter=\t"@,
        "--with-nth=2,3,4,5"@,
        "--nth=1,2,3"@,
        "--multi"@,
        "--expect=ctrl-r"@,
        "--border=rounded"@,
    ]
}

pub fn default_fzf_args() -> (r: Vec<String>)
    ensures views(r@) == default_fzf_args_spec(),
{
    let mut v: Vec<String> = Vec::new();
    v.push(String::from_str("--delimiter=\t"));
    // Hide song id in the UI; only show artist–time.
    v.push(String::from_str("--with-nth=2,3,4,5"));
    // After `--with-nth`, displayed field 1 = artist … field 4 = time. Search artist,
    // album, title only (duration is visible but not fuzzy-matched).
    v.push(String::from_str("--nth=1,2,3"));
    v.push(String::from_str("--multi"));
    // Enter = append to queue; Ctrl+R = replace queue (first stdout line is `ctrl-r`).
    v.push(String::from_str("--expect=ctrl-r"));
    v.push(String::from_str("--border=rounded"));
    assert(views(v@) =~= default_fzf_args_spec());
    v
}

/// Fuzzy picker settings under `[library.fzf]`.
#[derive(Debug, Clone)]
pub struct LibraryFzfSection {
    /// Executable name or path. Default: `fzf` (also works with `sk`).
    pub binary: String,
    /// Arguments passed to the picker (delimiter, columns, key bindings, …).
    pub args: Vec<String>,
    /// Max width per TSV field (terminal columns). `0` = no truncation.
    pub columns: FzfColumns,
}

impl Default for LibraryFzfSection {
    fn default() -> (r: LibraryFzfSection)
        ensures
            r.binary@ == "fzf"@,
            views(r.args@) == default_fzf_args_spec(),
            r.columns == (FzfColumns { artist: 26, album: 28, title: 36, duration: 6 }),
    {
        LibraryFzfSection {
            binary: default_fzf_binary(),
            args: default_fzf_args(),
            columns: FzfColumns::default(),
        }
    }
}

pub fn default_library_enabled() -> (r: bool)
    ensures r,
{
    true
}

pub fn default_library_fetch_album_parallelism() -> (r: usize)
    ensures r == 12,
{
    12
}

pub fn default_library_fetch_artist_parallelism() -> (r: usize)
    ensures r == 4,
{
    4
}

pub fn default_library_notify_on_forced_refresh() -> (r: bool)
    ensures r,
{
    true
}

pub fn default_library_max_age_secs() -> (r: u64)
    ensures r == 86400,
{
    86400
}

/// Local library metadata index and fuzzy picker.
#[derive(Debug, Clone)]
pub struct LibrarySection {
    /// Build and use the on-disk index for fzf. Default: true.
    pub enabled: bool,
    /// Path to `library_index.json`. Empty = `~/.cache/ratune/library_index.json`.
    pub index_path: String,
    /// Consider the index stale after this many seconds (full refresh in background).
    /// Default: 86400 (24 h). Set to 0 to always refresh at startup.
    pub max_age_secs: u64,
    /// Fuzzy picker (`[library.fzf]`). Legacy flat keys under `[library]` are still read.
    pub fzf: LibraryFzfSection,
    /// Legacy: `fzf_binary` under `[library]`. Prefer `[library.fzf].binary`.
    pub legacy_fzf_binary: Option<String>,
    /// Legacy: `fzf_args` under `[library]`. Prefer `[library.fzf].args`.
    pub legacy_fzf_args: Option<Vec<String>>,
    /// Concurrent `getAlbum` calls per artist during a full index refresh. Default: 12.
    pub fetch_album_parallelism: usize,
    /// Concurrent artists during a full index refresh. Default: 4.
    pub fetch_artist_parallelism: usize,
    /// Navidrome only: if the on-disk index was built after the same library scan as
    /// `getScanStatus.lastScan`, skip the full API walk (still obeys forced index refresh).
    pub navidrome_skip_unchanged_scan: bool,
    /// After a forced index refresh, send a desktop notification (FreeDesktop
    /// `notify-send` protocol). Default: true.
    pub notify_on_forced_index_refresh: bool,
}

impl Default for LibrarySection {
    fn default() -> (r: LibrarySection)
        ensures
            r.enabled,
            r.index_path@.len() == 0,
            r.max_age_secs == 86400,
            r.fzf.binary@ == "fzf"@,
            views(r.fzf.args@) == default_fzf_args_spec(),
            r.fzf.columns == (FzfColumns { artist: 26, album: 28, title: 36, duration: 6 }),
            r.legacy_fzf_binary is None,
            r.legacy_fzf_args is None,
            r.fetch_album_parallelism == 12,
            r.fetch_artist_parallelism == 4,
            !r.navidrome_skip_unchanged_scan,
            r.notify_on_forced_index_refresh,
    {
        LibrarySection {
            enabled: default_library_enabled(),
            index_path: String::new(),
            max_age_secs: default_library_max_age_secs(),
            fzf: LibraryFzfSection::default(),
            legacy_fzf_binary: None,
            legacy_fzf_args: None,
            fetch_album_parallelism: default_library_fetch_album_parallelism(),
            fetch_artist_parallelism: default_library_fetch_artist_parallelism(),
            navidrome_skip_unchanged_scan: false,
            notify_on_forced_index_refresh: default_library_notify_on_forced_refresh(),
        }
    }
}

/// The picker binary after merging: a nested value other than the default wins, else the
/// legacy flat key, else the default.
pub open spec fn merged_binary(nested: Seq<char>, legacy: Option<Seq<char>>) -> Seq<char> {
    if nested != "fzf"@ {
        nested
    } else {
        match legacy {
            Some(b) => b,
            None => "fzf"@,
        }
    }
}

/// The picker arguments after merging, by the same rule as the binary.
pub open spec fn merged_args(nested: Seq<Seq<char>>, legacy: Option<Seq<Seq<char>>>) -> Seq<Seq<char>> {
    if nested != default_fzf_args_spec() {
        nested
    } else {
        match legacy {
            Some(a) => a,
            None => default_fzf_args_spec(),
        }
    }
}

/// A copy of a list of strings.
pub(crate) fn clone_strings(v: &Vec<String>) -> (r: Vec<String>)
    ensures views(r@) == views(v@),
{
    let mut r: Vec<String> = Vec::new();
    let mut i: usize = 0;
    while i < v.len()
        invariant
            i <= v.len(),
            r@.len() == i,
            forall|k: int| 0 <= k < i ==> (#[trigger] r@[k])@ == v@[k]@,
        decreases v.len() - i,
    {
        r.push(v[i].clone());
        i += 1;
    }
    assert(views(r@) =~= views(v@));
    r
}

impl LibrarySection {
    /// Merge `[library.fzf]` with legacy flat `fzf_*` keys. Non-default nested values win;
    /// legacy fills fields left at defaults.
    pub fn resolve_fzf(&self) -> (r: LibraryFzfSection)
        ensures
            r.binary@ == merged_binary(self.fzf.binary@, opt_view(self.legacy_fzf_binary)),
            views(r.args@) == merged_args(views(self.fzf.args@), opt_list_view(self.legacy_fzf_args)),
            r.columns == self.fzf.columns,
    {
        let nested = &self.fzf;
        let default_binary = default_fzf_binary();
        let default_args = default_fzf_args();
        let binary = if !str_eq(nested.binary.as_str(), default_binary.as_str()) {
            nested.binary.clone()
        } else {
            match &self.legacy_fzf_binary {
                Some(b) => b.clone(),
                None => default_binary,
            }
        };
        let args = if !string_lists_eq(&nested.args, &default_args) {
            clone_strings(&nested.args)
        } else {
            match &self.legacy_fzf_args {
                Some(a) => clone_strings(a),
                None => default_args,
            }
        };
        LibraryFzfSection { binary, args, columns: nested.columns }
    }
}

// ── [scrobble] — Last.fm / Libre.fm + Subsonic play counts ───────────────────

/// When a play counts as a listen: after `min_percent` of the track, or after
/// `max_listen_secs` seconds, whichever comes first.
#[derive(Debug, Clone, Copy, PartialEq, Eq, Structural)]
pub struct ListenThreshold {
    pub min_percent: u8,
    pub max_listen_secs: u64,
}

impl ListenThreshold {
    /// Local history + Subsonic: 50%, capped at 30 s.
    pub fn local_default() -> (r: ListenThreshold)
        ensures r == (ListenThreshold { min_percent: 50, max_listen_secs: 30 }),
    {
        ListenThreshold { min_percent: 50, max_listen_secs: 30 }
    }
}

/// Last.fm / Libre.fm rules: a listen threshold, and tracks of at most `min_track_secs`
/// seconds are never scrobbled.
#[derive(Debug, Clone, Copy, PartialEq, Eq, Structural)]
pub struct AudioscrobblerRules {
    pub listen: ListenThreshold,
    pub min_track_secs: u64,
}

impl Default for AudioscrobblerRules {
    /// Last.fm's documented rules: half the track or four minutes; tracks over 30 s.
    fn default() -> (r: AudioscrobblerRules)
        ensures
            r == (AudioscrobblerRules {
                listen: ListenThreshold { min_percent: 50, max_listen_secs: 240 },
                min_track_secs: 30,
            }),
    {
        AudioscrobblerRules {
            listen: ListenThreshold { min_percent: 50, max_listen_secs: 240 },
            min_track_secs: 30,
        }
    }
}

pub fn default_scrobble_min_percent() -> (r: u8)
    ensures r == 50,
{
    50
}

pub fn default_local_max_listen_seconds() -> (r: u32)
    ensures r == 30,
{
    30
}

pub fn default_audioscrobbler_max_listen_seconds() -> (r: u32)
    ensures r == 240,
{
    240
}

pub fn default_audioscrobbler_min_track_seconds() -> (r: u32)
    ensures r == 30,
{
    30
}

/// `n` clamped to `lo..=hi`.
pub open spec fn clamped(n: int, lo: int, hi: int) -> int {
    if n < lo { lo } else if n > hi { hi } else { n }
}

fn clamp_percent(p: u8) -> (r: u8)
    ensures r == clamped(p as int, 1, 100),
{
    if p < 1 { 1 } else if p > 100 { 100 } else { p }
}

/// Local listen threshold (history + Subsonic). Defaults: 50%, 30 s cap.
#[derive(Debug, Clone)]
pub struct ScrobbleLocalThresholdSection {
    /// Minimum fraction of track length before counting a listen (1–100). Default: 50.
    pub min_percent: u8,
    /// Upper cap on listen time (seconds). Default: 30.
    pub max_listen_seconds: u32,
}

impl Default for ScrobbleLocalThresholdSection {
    fn default() -> (r: ScrobbleLocalThresholdSection)
        ensures r.min_percent == 50, r.max_listen_seconds == 30,
    {
        ScrobbleLocalThresholdSection {
            min_percent: default_scrobble_min_percent(),
            max_listen_seconds: default_local_max_listen_seconds(),
        }
    }
}

impl ScrobbleLocalThresholdSection {
    /// The threshold in force: the percentage clamped to 1–100, the cap at least 1 s.
    pub fn resolve(&self) -> (r: ListenThreshold)
        ensures
            r.min_percent == clamped(self.min_percent as int, 1, 100),
            r.max_listen_secs == if self.max_listen_seconds < 1 { 1 } else { self.max_listen_seconds as int },
    {
        let secs: u32 = if self.max_listen_seconds < 1 { 1 } else { self.max_listen_seconds };
        ListenThreshold { min_percent: clamp_percent(self.min_percent), max_listen_secs: secs as u64 }
    }
}

/// Last.fm / Libre.fm listen rules. Defaults match Last.fm’s documented scrobbling rules.
#[derive(Debug, Clone)]
pub struct ScrobbleAudioscrobblerThresholdSection {
    pub min_percent: u8,
    pub max_listen_seconds: u32,
    /// Tracks this long or shorter are not scrobbled. Default: 30.
    pub min_track_seconds: u32,
}

impl Default for ScrobbleAudioscrobblerThresholdSection {
    fn default() -> (r: ScrobbleAudioscrobblerThresholdSection)
        ensures r.min_percent == 50, r.max_listen_seconds == 240, r.min_track_seconds == 30,
    {
        ScrobbleAudioscrobblerThresholdSection {
            min_percent: default_scrobble_min_percent(),
            max_listen_seconds: default_audioscrobbler_max_listen_seconds(),
            min_track_seconds: default_audioscrobbler_min_track_seconds(),
        }
    }
}

impl ScrobbleAudioscrobblerThresholdSection {
    /// The rules in force: the percentage clamped to 1–100, the listen cap at least 1 s,
    /// the minimum track length as configured.
    pub fn resolve(&self) -> (r: AudioscrobblerRules)
        ensures
            r.listen.min_percent == clamped(self.min_percent as int, 1, 100),
            r.listen.max_listen_secs == if self.max_listen_seconds < 1 { 1 } else { self.max_listen_seconds as int },
            r.min_track_secs == self.min_track_seconds,
    {
        let secs: u32 = if self.max_listen_seconds < 1 { 1 } else { self.max_listen_seconds };
        AudioscrobblerRules {
            listen: ListenThreshold { min_percent: clamp_percent(self.min_percent), max_listen_secs: secs as u64 },
            min_track_secs: self.min_track_seconds as u64,
        }
    }
}

/// `[scrobble.thresholds]`.
#[derive(Debug, Clone)]
pub struct ScrobbleThresholdsSection {
    pub local: ScrobbleLocalThresholdSection,
    pub audioscrobbler: ScrobbleAudioscrobblerThresholdSection,
}

impl Default for ScrobbleThresholdsSection {
    fn default() -> (r: ScrobbleThresholdsSection)
        ensures
            r.local.min_percent == 50,
            r.local.max_listen_seconds == 30,
            r.audioscrobbler.min_percent == 50,
            r.audioscrobbler.max_listen_seconds == 240,
            r.audioscrobbler.min_track_seconds == 30,
    {
        ScrobbleThresholdsSection {
            local: ScrobbleLocalThresholdSection::default(),
            audioscrobbler: ScrobbleAudioscrobblerThresholdSection::default(),
        }
    }
}

/// Audioscrobbler-compatible scrobbling service.
#[derive(Debug, Clone, Copy, PartialEq, Eq, Structural)]
pub enum ScrobbleService {
    LastFm,
    LibreFm,
}

/// The service a `[scrobble].service` value names, if any.
pub open spec fn scrobble_service_of(s: Seq<char>) -> Option<ScrobbleService> {
    let w = word(s);
    if w == "lastfm"@ {
        Some(ScrobbleService::LastFm)
    } else if w == "librefm"@ {
        Some(ScrobbleService::LibreFm)
    } else {
        None
    }
}

impl ScrobbleService {
    /// Parses `lastfm` or `librefm`, ignoring surrounding white space and ASCII case.
    pub fn parse(s: &str) -> (r: Option<ScrobbleService>)
        ensures r == scrobble_service_of(s@),
    {
        let n = normalized(s);
        let w = n.as_str();
        if str_eq(w, "lastfm") {
            Some(ScrobbleService::LastFm)
        } else if str_eq(w, "librefm") {
            Some(ScrobbleService::LibreFm)
        } else {
            None
        }
    }
}

pub fn default_scrobble_service() -> (r: String)
    ensures r@ == "lastfm"@,
{
    String::from_str("lastfm")
}

pub fn default_scrobble_to_server() -> (r: bool)
    ensures r,
{
    true
}

/// Audioscrobbler and server-side scrobbling settings from config.toml.
#[derive(Debug, Clone)]
pub struct ScrobbleSection {
    /// Enable scrobbling to Last.fm or Libre.fm. Default: false.
    pub enabled: bool,
    /// `lastfm` (default) or `librefm`.
    pub service: String,
    /// Application API key from your Last.fm / Libre.fm account.
    pub api_key: String,
    /// API shared secret (required to sign POST requests).
    pub api_secret: String,
    /// Shell command whose stdout is the API shared secret (trimmed).
    pub api_secret_command: String,
    /// Session key from `auth.getSession` (see docs). Prefer keyring / command over plaintext.
    pub session_key: String,
    /// Shell command whose stdout is the session key (trimmed).
    pub session_key_command: String,
    /// Call the Subsonic `/scrobble` endpoint when a listen is recorded. Default: true.
    pub scrobble_to_server: bool,
    /// Optional listen thresholds (defaults follow Last.fm conventions).
    pub thresholds: ScrobbleThresholdsSection,
}

impl Default for ScrobbleSection {
    fn default() -> (r: ScrobbleSection)
        ensures
            !r.enabled,
            r.service@ == "lastfm"@,
            r.api_key@.len() == 0,
            r.api_secret@.len() == 0,
            r.api_secret_command@.len() == 0,
            r.session_key@.len() == 0,
            r.session_key_command@.len() == 0,
            r.scrobble_to_server,
    {
        ScrobbleSection {
            enabled: false,
            service: default_scrobble_service(),
            api_key: String::new(),
            api_secret: String::new(),
            api_secret_command: String::new(),
            session_key: String::new(),
            session_key_command: String::new(),
            scrobble_to_server: default_scrobble_to_server(),
            thresholds: ScrobbleThresholdsSection::default(),
        }
    }
}

pub open spec fn service_name(s: ScrobbleService) -> Seq<char> {
    match s {
        ScrobbleService::LastFm => "lastfm"@,
        ScrobbleService::LibreFm => "librefm"@,
    }
}

pub fn scrobble_service_name(service: ScrobbleService) -> (r: &'static str)
    ensures r@ == service_name(service),
{
    match service {
        ScrobbleService::LastFm => "lastfm",
        ScrobbleService::LibreFm => "librefm",
    }
}

/// Keyring user label of a scrobble secret: `service|kind`.
pub fn scrobble_keyring_label(service: ScrobbleService, kind: &str) -> (r: String)
    ensures r@ == service_name(service) + "|"@ + kind@,
{
    let mut r = String::from_str(scrobble_service_name(service));
    r.append("|");
    r.append(kind);
    r
}

/// The configured service; unknown names fall back to Last.fm.
pub fn resolve_scrobble_service(sec: &ScrobbleSection) -> (r: ScrobbleService)
    ensures
        r == match scrobble_service_of(sec.service@) {
            Some(s) => s,
            None => ScrobbleService::LastFm,
        },
{
    match ScrobbleService::parse(sec.service.as_str()) {
        Some(s) => s,
        None => ScrobbleService::LastFm,
    }
}

// ── Secrets ───────────────────────────────────────────────────────────────────

/// Where a secret comes from, in the order the settings are tried.
#[derive(Debug, Clone, PartialEq, Eq)]
pub enum SecretStep {
    /// The secret is written in the config (already trimmed).
    Ready(String),
    /// Run this shell command; its trimmed stdout is the secret.
    RunCommand(String),
    /// Read the secret from the OS keyring under this user label (service `ratune`).
    Keyring(String),
}

/// A step as a tag (0 plaintext, 1 command, 2 keyring) and the characters it carries.
pub open spec fn step_chars(s: SecretStep) -> (int, Seq<char>) {
    match s {
        SecretStep::Ready(x) => (0, x@),
        SecretStep::RunCommand(x) => (1, x@),
        SecretStep::Keyring(x) => (2, x@),
    }
}

/// The step that a plaintext setting, a command setting and a keyring label select.
pub open spec fn step_chars_of(plain: Seq<char>, command: Seq<char>, label: Seq<char>) -> (int, Seq<char>) {
    if trim(plain).len() > 0 {
        (0, trim(plain))
    } else if trim(command).len() > 0 {
        (1, trim(command))
    } else {
        (2, label)
    }
}

fn choose_secret_step(plain: &str, command: &str, label: String) -> (r: SecretStep)
    ensures step_chars(r) == step_chars_of(plain@, command@, label@),
{
    let p = trimmed(plain);
    if p.unicode_len() > 0 {
        return SecretStep::Ready(String::from_str(p));
    }
    let c = trimmed(command);
    if c.unicode_len() > 0 {
        return SecretStep::RunCommand(String::from_str(c));
    }
    SecretStep::Keyring(label)
}

/// The keyring entry that holds the scrobble API shared secret.
pub fn resolve_scrobble_api_secret_from_keyring(sec: &ScrobbleSection) -> (r: String)
    ensures
        r@ == service_name(resolve_service_spec(sec.service@)) + "|api_secret"@,
{
    let label = scrobble_keyring_label(resolve_scrobble_service(sec), "api_secret");
    proof { reveal_strlit("|"); reveal_strlit("api_secret"); reveal_strlit("|api_secret"); }
    assert(label@ =~= service_name(resolve_service_spec(sec.service@)) + "|api_secret"@);
    label
}

/// The keyring entry that holds the scrobble session key.
pub fn resolve_scrobble_session_from_keyring(sec: &ScrobbleSection) -> (r: String)
    ensures
        r@ == service_name(resolve_service_spec(sec.service@)) + "|session"@,
{
    let label = scrobble_keyring_label(resolve_scrobble_service(sec), "session");
    proof { reveal_strlit("|"); reveal_strlit("session"); reveal_strlit("|session"); }
    assert(label@ =~= service_name(resolve_service_spec(sec.service@)) + "|session"@);
    label
}

/// The configured service, Last.fm when the name is unknown.
pub open spec fn resolve_service_spec(s: Seq<char>) -> ScrobbleService {
    match scrobble_service_of(s) {
        Some(x) => x,
        None => ScrobbleService::LastFm,
    }
}

/// Where the API shared secret comes from: `api_secret`, then `api_secret_command`, then
/// the keyring.
pub fn resolve_scrobble_api_secret(sec: &ScrobbleSection) -> (r: SecretStep)
    ensures
        step_chars(r) == step_chars_of(sec.api_secret@, sec.api_secret_command@,
            service_name(resolve_service_spec(sec.service@)) + "|api_secret"@),
{
    let label = resolve_scrobble_api_secret_from_keyring(sec);
    choose_secret_step(sec.api_secret.as_str(), sec.api_secret_command.as_str(), label)
}

/// Where the session key comes from: `session_key`, then `session_key_command`, then the
/// keyring.
pub fn resolve_scrobble_session_key(sec: &ScrobbleSection) -> (r: SecretStep)
    ensures
        step_chars(r) == step_chars_of(sec.session_key@, sec.session_key_command@,
            service_name(resolve_service_spec(sec.service@)) + "|session"@),
{
    let label = resolve_scrobble_session_from_keyring(sec);
    choose_secret_step(sec.session_key.as_str(), sec.session_key_command.as_str(), label)
}

/// Scrobbling is enabled but `[scrobble].api_key` is empty.
#[derive(Debug, Clone, Copy, PartialEq, Eq, Structural)]
pub struct EmptyApiKey;

/// Audioscrobbler credentials when `[scrobble].enabled` is true: the trimmed API key, and
/// where the shared secret and the session key come from. Fails when the key is blank.
pub fn resolve_scrobble_credentials(sec: &ScrobbleSection) -> (r: Result<(String, SecretStep, SecretStep), EmptyApiKey>)
    ensures
        r is Err <==> trim(sec.api_key@).len() == 0,
        r matches Ok(t) ==> {
            &&& t.0@ == trim(sec.api_key@)
            &&& step_chars(t.1) == step_chars_of(sec.api_secret@, sec.api_secret_command@,
                    service_name(resolve_service_spec(sec.service@)) + "|api_secret"@)
            &&& step_chars(t.2) == step_chars_of(sec.session_key@, sec.session_key_command@,
                    service_name(resolve_service_spec(sec.service@)) + "|session"@)
        },
{
    let api_key = trimmed(sec.api_key.as_str());
    if api_key.unicode_len() == 0 {
        return Err(EmptyApiKey);
    }
    let secret = resolve_scrobble_api_secret(sec);
    let session = resolve_scrobble_session_key(sec);
    Ok((String::from_str(api_key), secret, session))
}

/// The secret a command printed, or that was read from a keyring entry or a prompt:
/// trimmed, and `None` when nothing is left.
pub fn secret_from_output(out: &str) -> (r: Option<String>)
    ensures
        r is None <==> trim(out@).len() == 0,
        r matches Some(s) ==> s@ == trim(out@),
{
    let t = trimmed(out);
    if t.unicode_len() == 0 {
        None
    } else {
        Some(String::from_str(t))
    }
}

// ── [server] ──────────────────────────────────────────────────────────────────

pub fn default_connection_check_interval_secs() -> (r: u64)
    ensures r == 45,
{
    45
}

pub fn default_password_keyring() -> (r: String)
    ensures r@ == "keyutils"@,
{
    String::from_str("keyutils")
}

/// The `[server]` table. (Its `Default` is the empty table; the key defaults,
/// `default_password_keyring` and `default_connection_check_interval_secs`, apply to keys
/// missing from a table that is present.)
#[derive(Debug, Clone, Default)]
pub struct ServerSection {
    pub url: String,
    pub username: String,
    /// Plain Subsonic password or token (least secure). Prefer empty `password` with OS keyring
    /// or `password_command`. `SUBSONIC_PASS` overrides this field.
    pub password: String,
    /// Shell command whose stdout is the Subsonic secret (trimmed). Used when `password` is empty.
    /// Example: `secret-tool lookup --label=ratune service subsonic`.
    pub password_command: String,
    /// Linux only: keyring backend when `password` and `password_command` are empty.
    /// `keyutils` (default) or `secret-service` (gnome-keyring / KWallet). Ignored on macOS/Windows.
    pub password_keyring: String,
    /// Background Subsonic `ping` interval in seconds to detect online/offline transitions.
    /// `0` disables periodic checks (startup ping still runs). Default: 45.
    pub connection_check_interval_secs: u64,
    /// Optional label shown in the status bar instead of the server URL.
    pub alias: Option<String>,
}

/// `s` without its trailing `/` characters (`str::trim_end_matches('/')`).
pub open spec fn trim_end_slashes(s: Seq<char>) -> Seq<char>
    decreases s.len(),
{
    if s.len() > 0 && s.last() == '/' { trim_end_slashes(s.drop_last()) } else { s }
}

/// The keyring user of a server login: `url|username`, so multiple servers do not collide.
pub open spec fn keyring_user_of(url: Seq<char>, username: Seq<char>) -> Seq<char> {
    trim_end_slashes(url) + "|"@ + trim(username)
}

/// Keyring "user" field: `url|username` so multiple servers do not collide.
pub fn subsonic_keyring_user(server_url: &str, username: &str) -> (r: String)
    ensures r@ == keyring_user_of(server_url@, username@),
{
    let v = crate::text::chars_of(server_url);
    let mut e: usize = v.len();
    assert(v@.take(v.len() as int) =~= v@);
    while e > 0 && v[e - 1] == '/'
        invariant
            e <= v.len(),
            v@ == server_url@,
            trim_end_slashes(v@.take(e as int)) == trim_end_slashes(v@),
        decreases e,
    {
        assert(v@.take(e as int).drop_last() =~= v@.take(e - 1));
        e -= 1;
    }
    assert(v@.take(v.len() as int) =~= v@);
    let mut r = String::from_str(server_url.substring_char(0, e));
    assert(r@ == v@.take(e as int));
    r.append("|");
    r.append(trimmed(username));
    r
}

/// Why keyring login cannot start: the keyring entry is named after the server and user.
#[derive(Debug, Clone, Copy, PartialEq, Eq, Structural)]
pub enum KeyringSetupError {
    /// Both `[server].url` and `[server].username` are blank.
    MissingUrlAndUser,
    /// `[server].url` is blank.
    MissingUrl,
    /// `[server].username` is blank.
    MissingUser,
}

/// How the Subsonic secret is found: plaintext `[server].password` (incl. env
/// `SUBSONIC_PASS`), then `[server].password_command`, then the OS keyring entry
/// `subsonic_keyring_user(url, username)`, which needs both.
pub open spec fn subsonic_secret_of(server: ServerSection) -> Result<(int, Seq<char>), KeyringSetupError> {
    let url = trim(server.url@);
    let user = trim(server.username@);
    if trim(server.password@).len() > 0 || trim(server.password_command@).len() > 0 {
        Ok(step_chars_of(server.password@, server.password_command@, Seq::empty()))
    } else if url.len() == 0 && user.len() == 0 {
        Err(KeyringSetupError::MissingUrlAndUser)
    } else if url.len() == 0 {
        Err(KeyringSetupError::MissingUrl)
    } else if user.len() == 0 {
        Err(KeyringSetupError::MissingUser)
    } else {
        Ok((2, keyring_user_of(url, user)))
    }
}

/// Resolution order: plaintext `[server].password` (incl. env `SUBSONIC_PASS`), then
/// `[server].password_command`, then the OS keyring (`ratune` / `subsonic_keyring_user`).
pub fn resolve_subsonic_secret(server: &ServerSection) -> (r: Result<SecretStep, KeyringSetupError>)
    ensures
        match r {
            Ok(s) => subsonic_secret_of(*server) == Ok::<(int, Seq<char>), KeyringSetupError>(step_chars(s)),
            Err(e) => subsonic_secret_of(*server) == Err::<(int, Seq<char>), KeyringSetupError>(e),
        },
{
    let pass = trimmed(server.password.as_str());
    if pass.unicode_len() > 0 {
        return Ok(SecretStep::Ready(String::from_str(pass)));
    }
    let cmd = trimmed(server.password_command.as_str());
    if cmd.unicode_len() > 0 {
        return Ok(SecretStep::RunCommand(String::from_str(cmd)));
    }
    let url = trimmed(server.url.as_str());
    let user = trimmed(server.username.as_str());
    let url_empty = url.unicode_len() == 0;
    let user_empty = user.unicode_len() == 0;
    if url_empty && user_empty {
        return Err(KeyringSetupError::MissingUrlAndUser);
    }
    if url_empty {
        return Err(KeyringSetupError::MissingUrl);
    }
    if user_empty {
        return Err(KeyringSetupError::MissingUser);
    }
    let label = subsonic_keyring_user(url, user);
    Ok(SecretStep::Keyring(label))
}

// ── [ui] ─────────────────────────────────────────────────────────────────────

/// App-wide UI (all tabs): tab strip, and other cross-tab options.
#[derive(Debug, Clone, Default)]
pub struct UiGeneralSection {
    /// Tab strip: `bottom` (default) or `top` (still above the 1-row status bar).
    pub tab_bar_position: Option<String>,
    /// When true (default), show in-app playback level (`N%`) on the bottom-right of the status bar.
    pub show_volume_indicator: Option<bool>,
}

#[derive(Debug, Clone, Default)]
pub struct UiNpTabArtSection {
    pub show: Option<bool>,
    pub position: Option<String>,
}

#[derive(Debug, Clone, Default)]
pub struct UiNpTabLayoutSection {
    /// When the Now Playing tab is split into left/right columns, the left column width in percent (1–99).
    ///
    /// This replaces per-widget width percentages; it controls the left/right column split.
    pub left_width_percent: Option<u8>,
    /// When a single Now Playing column has exactly two stacked panes, this controls how much
    /// vertical space the **top** pane gets (1–99%). Default: 50.
    pub vertical_fill_top_percent: Option<u8>,
}

/// The spectrum visualizer pane. Its gain (`gain_db`, a float) is read by the application
/// binary, not here.
#[derive(Debug, Clone, Default)]
pub struct UiNpTabVisualizerSection {
    /// If false, the visualizer cannot be shown or toggled (`V`). Default: true.
    pub enabled: Option<bool>,
    /// Start with the spectrum visualizer overlay visible (toggle `V`).
    pub visible: Option<bool>,
    /// When open: `left` or `right`.
    pub location: Option<String>,
    /// Visualizer type: `spectrum` (default), `wave`.
    ///
    /// TOML key: `type` (alias: `visualizer_type`).
    pub visualizer_type: Option<String>,
    /// Visualizer update rate (FPS) when visible. Higher = smoother, more CPU. Default: 30.
    pub fps: Option<u16>,
    /// FFT window size for spectrum. Supported: 1024, 2048 (default), 4096.
    pub fft_size: Option<usize>,
    /// Visualizer colors. Examples:
    /// - `["accent"]` (default)
    /// - `["#00ffff", "#00ff00", "#ffff00", "#ff0000"]` (gradient)
    /// - `["47", "83", "119"]` (256-color indices)
    pub colors: Option<Vec<String>>,
    /// Color mode: `accent` (default), `fixed`, `gradient_height`, `gradient_theme`.
    pub color_mode: Option<String>,
}

#[derive(Debug, Clone, Default)]
pub struct UiNpTabQueueSection {
    /// Queue column side on the Now Playing tab: `left` or `right`.
    ///
    /// If omitted, it defaults to the opposite of `[ui.nptab.art].position` (so art + queue form
    /// two columns by default).
    pub position: Option<String>,
    /// One format string for **each queue row** (Now Playing tab queue list). Not the same as
    /// now-playing `lines` (`%` / `$` tags); this uses `{title}`, `{n}`, etc. (see `queue.rs`).
    ///
    /// Takes precedence over `[ui.nptab].queue_template` when set.
    pub queue_template: Option<String>,
}

/// Now Playing tab: overrides for the bottom strip + boxed pane (see `[ui.row_now_playing]` for shared defaults).
#[derive(Debug, Clone, Default)]
pub struct UiNpTabNowPlayingSection {
    pub bar_height: Option<u16>,
    pub layout: Option<String>,
    /// When `layout` is `boxed`: dock the pane on `left` or `right`.
    pub box_location: Option<String>,
    pub show_controls: Option<bool>,
    pub show_progress: Option<bool>,
    pub box_include_controls: Option<bool>,
    pub box_include_progress: Option<bool>,
    pub progress_style: Option<String>,
    /// ncmpcpp-style lines for the **boxed** NP pane only; omit to reuse row strip templates.
    pub lines: Option<Vec<String>>,
}

/// Shared defaults for the bottom **now-playing strip** (used on Home, Browse, and Now Playing).
///
/// Precedence for overlapping keys: `[ui.nptab.now_playing]` wins, then this table, then built-in defaults.
#[derive(Debug, Clone, Default)]
pub struct UiRowNowPlayingSection {
    pub bar_height: Option<u16>,
    pub layout: Option<String>,
    pub box_location: Option<String>,
    pub show_controls: Option<bool>,
    pub show_progress: Option<bool>,
    pub box_include_controls: Option<bool>,
    pub box_include_progress: Option<bool>,
    pub progress_style: Option<String>,
    pub lines: Option<Vec<String>>,
}

#[derive(Debug, Clone, Default)]
pub struct UiHomeRecentAlbumsSection {
    /// When false, Home uses text-only recently played (no Kitty art strip).
    pub show_art: Option<bool>,
    /// `getCoverArt` `size` (max edge px) for Home strip downloads. Smaller = faster network + decode.
    /// `0` = request full-size art (slowest). Default when omitted: 320.
    pub cover_fetch_max_px: Option<u32>,
}

#[derive(Debug, Clone, Default)]
pub struct UiHomeLayoutSection {
    /// Height of the top band as percent of the Home content area (25–75). Default: 50.
    pub top_height_percent: Option<u8>,
    /// Which panel sits where: `[top, bottom_left, bottom_right]`.
    /// Each value is `recent_albums`, `recent_tracks`, or `rediscover` (must be a permutation).
    pub panels: Option<Vec<String>>,
}

#[derive(Debug, Clone, Default)]
pub struct UiHomeTabSection {
    pub recent_albums: Option<UiHomeRecentAlbumsSection>,
    pub layout: Option<UiHomeLayoutSection>,
}

#[derive(Debug, Clone, Default)]
pub struct UiBrowseTabSection {
    /// When true, folder (`getMusicFolders` / `getMusicDirectory`) browsing is available and
    /// the configured key toggles between artist columns and folder view. Default: false.
    pub folder_navigation: Option<bool>,
    /// Default browse layout on startup: `artists` (default), `genre` (stub), or `files` (only
    /// applies when [`folder_navigation`](Self::folder_navigation) is true).
    pub mode: Option<String>,
    /// Browse tab: list rows to move per mouse wheel tick (default: 1).
    pub mouse_wheel_scroll_lines: Option<usize>,
}

/// Optional nested `[ui.nptab]` (Now Playing tab) table.
///
/// All fields are optional; when present, they override `[ui.row_now_playing]` and built-in defaults.
#[derive(Debug, Clone, Default)]
pub struct UiNpTabSection {
    /// Queue row template (Now Playing tab queue column). Prefer `[ui.nptab.queue].queue_template`
    /// when grouping with `position`; that key overrides this one when set.
    pub queue_template: Option<String>,
    /// Empty-queue hint (only when library fzf is enabled).
    pub show_fzf_hint: Option<bool>,
    /// Album art settings for the Now Playing tab.
    pub art: Option<UiNpTabArtSection>,
    /// Layout settings (column widths, etc.) for the Now Playing tab.
    pub layout: Option<UiNpTabLayoutSection>,
    /// Queue column placement for the Now Playing tab.
    pub queue: Option<UiNpTabQueueSection>,
    /// Lyrics overlay: same shape as [`UiNpTabVisualizerSection`] (`enabled`, `visible`, `location`).
    pub lyrics_pane: Option<UiNpTabLyricsSection>,
    /// Visualizer: feature toggle, startup visibility, pane docking.
    pub visualizer_pane: Option<UiNpTabVisualizerSection>,
    /// Bottom strip layout + boxed pane text (overrides `row_now_playing`).
    pub now_playing: Option<UiNpTabNowPlayingSection>,
}

#[derive(Debug, Clone, Default)]
pub struct UiNpTabLyricsSection {
    /// If false, lyrics cannot be shown or toggled (`L`). Default: true.
    pub enabled: Option<bool>,
    /// Start with the lyrics pane visible (toggle `L`). Default: false.
    pub visible: Option<bool>,
    /// `left`, `right`, or `full` (full-width dock row). Omitted → same side as the queue column.
    pub location: Option<String>,
}

/// UI preferences from config.toml.
///
/// Layout and Now Playing behavior live under `[ui.general]`, `[ui.row_now_playing]`, and
/// `[ui.nptab]` (plus `[ui.hometab]` / `[ui.browsetab]`). Only `album_art_backend` remains on the
/// root `[ui]` table.
#[derive(Debug, Clone, Default)]
pub struct UiSection {
    pub general: Option<UiGeneralSection>,
    /// `ratatui-image` (default) or `kitty-apc` (Kitty APC post-draw path).
    pub album_art_backend: AlbumArtBackend,
    pub nptab: Option<UiNpTabSection>,
    pub row_now_playing: Option<UiRowNowPlayingSection>,
    pub hometab: Option<UiHomeTabSection>,
    pub browsetab: Option<UiBrowseTabSection>,
}


pub fn default_ui_lyrics_enabled() -> (r: bool)
    ensures r,
{
    true
}

pub fn default_ui_visualizer_enabled() -> (r: bool)
    ensures r,
{
    true
}

pub fn default_ui_visualizer_type() -> (r: String)
    ensures r@ == "spectrum"@,
{
    String::from_str("spectrum")
}

pub fn default_ui_visualizer_fps() -> (r: u16)
    ensures r == 30,
{
    30
}

pub fn default_ui_visualizer_fft_size() -> (r: usize)
    ensures r == 2048,
{
    2048
}

pub fn default_ui_visualizer_colors() -> (r: Vec<String>)
    ensures views(r@) == seq!["accent"@],
{
    let mut v: Vec<String> = Vec::new();
    v.push(String::from_str("accent"));
    assert(views(v@) =~= seq!["accent"@]);
    v
}

pub fn default_ui_visualizer_color_mode() -> (r: String)
    ensures r@ == "accent"@,
{
    String::from_str("accent")
}

pub fn default_ui_progress_style() -> (r: String)
    ensures r@ == "██░"@,
{
    String::from_str("██░")
}

pub fn default_ui_nowplaying_show_art() -> (r: bool)
    ensures r,
{
    true
}

pub fn default_ui_nowplaying_art_position() -> (r: String)
    ensures r@ == "left"@,
{
    String::from_str("left")
}

pub fn default_ui_nowplaying_left_width_percent() -> (r: u8)
    ensures r == 50,
{
    50
}

pub fn default_ui_show_fzf_hint() -> (r: bool)
    ensures !r,
{
    false
}

pub fn default_ui_visualizer_location() -> (r: String)
    ensures r@ == "queue"@,
{
    String::from_str("queue")
}

pub fn default_ui_tab_bar_position() -> (r: String)
    ensures r@ == "bottom"@,
{
    String::from_str("bottom")
}

pub fn default_ui_now_playing_bar_height() -> (r: u16)
    ensures r == 4,
{
    4
}

pub fn default_ui_now_playing_layout() -> (r: String)
    ensures r@ == "row"@,
{
    String::from_str("row")
}

pub fn default_ui_now_playing_box_location() -> (r: String)
    ensures r@ == "right"@,
{
    String::from_str("right")
}

pub fn default_ui_now_playing_show_controls() -> (r: bool)
    ensures r,
{
    true
}

pub fn default_ui_now_playing_show_progress() -> (r: bool)
    ensures r,
{
    true
}

/// Title (bold), artist, album.
pub open spec fn default_lines_spec() -> Seq<Seq<char>> {
    seq!["$b%t$/b"@, "%a"@, "%b"@]
}

pub fn default_now_playing_lines() -> (r: Vec<String>)
    ensures views(r@) == default_lines_spec(),
{
    let mut v: Vec<String> = Vec::new();
    v.push(String::from_str("$b%t$/b"));
    v.push(String::from_str("%a"));
    v.push(String::from_str("%b"));
    assert(views(v@) =~= default_lines_spec());
    v
}

// ── [player] / [radio] / [cache] and the whole file ───────────────────────────

pub fn default_volume() -> (r: u8)
    ensures r == 70,
{
    70
}

pub fn default_mpris() -> (r: bool)
    ensures r,
{
    true
}

pub fn default_queue_loop() -> (r: bool)
    ensures r,
{
    true
}

/// The `[player]` table.
#[derive(Debug, Clone)]
pub struct PlayerSection {
    pub default_volume: u8,
    pub max_bit_rate: u32,
    /// Register on the session D-Bus as an MPRIS player (Linux media keys, etc.).
    pub mpris: bool,
    /// When true, playback wraps to the first queue track after the last one ends.
    pub queue_loop: bool,
}

impl Default for PlayerSection {
    fn default() -> (r: PlayerSection)
        ensures r.default_volume == 70, r.max_bit_rate == 0, r.mpris, r.queue_loop,
    {
        PlayerSection {
            default_volume: default_volume(),
            max_bit_rate: 0,
            mpris: default_mpris(),
            queue_loop: default_queue_loop(),
        }
    }
}

/// The `[radio]` table.
#[derive(Debug, Clone, Default)]
pub struct RadioSection {
    /// Enable Internet Radio (Shift+R picker, Now Playing radio pane). Default: true.
    pub enabled: Option<bool>,
    /// Fetch homepage icons for station art when no logo is uploaded in Navidrome.
    pub fetch_station_icons: Option<bool>,
}

/// Offline track cache settings from config.toml. The size cap (`max_size_gb`, a float)
/// is read by the application binary.
#[derive(Debug, Clone)]
pub struct CacheSection {
    /// Whether the track cache is enabled. Default: true.
    pub enabled: bool,
    /// Prefetch favorite tracks into the offline cache (Subsonic getStarred2). Default: false.
    pub cache_starred: bool,
    /// When true, prefetch all tracks from a favorited album into the cache. Default: false.
    pub cache_starred_albums: bool,
    /// Concurrent downloads when prefetching favorite tracks. Default: 2.
    pub cache_starred_parallelism: usize,
}

impl Default for CacheSection {
    fn default() -> (r: CacheSection)
        ensures r.enabled, !r.cache_starred, !r.cache_starred_albums, r.cache_starred_parallelism == 2,
    {
        CacheSection {
            enabled: default_cache_enabled(),
            cache_starred: default_cache_starred(),
            cache_starred_albums: default_cache_starred_albums(),
            cache_starred_parallelism: default_cache_starred_parallelism(),
        }
    }
}

/// Every table of `config.toml`.
#[derive(Debug, Clone, Default)]
pub struct FileConfig {
    pub server: ServerSection,
    pub player: PlayerSection,
    pub keybinds: KeybindsSection,
    pub theme: ThemeSection,
    pub ui: UiSection,
    pub cache: CacheSection,
    pub lyrics: LyricsSection,
    pub library: LibrarySection,
    pub scrobble: ScrobbleSection,
    pub radio: RadioSection,
    pub ratings: RatingsSection,
}

// ── Keyring outcomes ──────────────────────────────────────────────────────────

/// What reading a secret from the OS keyring gave.
#[derive(Debug, Clone, PartialEq, Eq)]
pub enum KeyringRead {
    /// The entry holds this value.
    Found(String),
    /// The store works but holds no such entry.
    NoEntry,
    /// No keyring store is available on this platform, or it failed to start.
    NoStore,
    /// The store exists but cannot be used right now (platform failure, no access).
    Unavailable,
    /// Any other keyring error.
    Failed,
}

/// The next step after reading the Subsonic secret from the keyring.
#[derive(Debug, Clone, PartialEq, Eq)]
pub enum SubsonicKeyringNext {
    /// Use this (trimmed) secret.
    Use(String),
    /// Prompt for the secret and store it in the keyring.
    PromptAndStore,
    /// Prompt for the secret for this session only; the keyring cannot hold it.
    PromptThisSession,
    /// Give up with the keyring error.
    Fail,
}

/// The step after a Subsonic keyring read, as a tag (0 use, 1 prompt and store, 2 prompt
/// for this session, 3 fail) and the secret to use.
pub open spec fn subsonic_keyring_next_of(read: KeyringRead) -> (int, Seq<char>) {
    match read {
        KeyringRead::Found(s) => if trim(s@).len() > 0 { (0, trim(s@)) } else { (1, Seq::empty()) },
        KeyringRead::NoEntry => (1, Seq::empty()),
        KeyringRead::NoStore => (2, Seq::empty()),
        KeyringRead::Unavailable => (2, Seq::empty()),
        KeyringRead::Failed => (3, Seq::empty()),
    }
}

pub open spec fn next_tag(n: SubsonicKeyringNext) -> (int, Seq<char>) {
    match n {
        SubsonicKeyringNext::Use(s) => (0, s@),
        SubsonicKeyringNext::PromptAndStore => (1, Seq::empty()),
        SubsonicKeyringNext::PromptThisSession => (2, Seq::empty()),
        SubsonicKeyringNext::Fail => (3, Seq::empty()),
    }
}

/// A stored secret is used trimmed; a blank or missing entry is prompted for and stored;
/// an unusable store falls back to a prompt for this session; other errors fail.
pub fn subsonic_keyring_next(read: KeyringRead) -> (r: SubsonicKeyringNext)
    ensures next_tag(r) == subsonic_keyring_next_of(read),
{
    match read {
        KeyringRead::Found(s) => match secret_from_output(s.as_str()) {
            Some(t) => SubsonicKeyringNext::Use(t),
            None => SubsonicKeyringNext::PromptAndStore,
        },
        KeyringRead::NoEntry => SubsonicKeyringNext::PromptAndStore,
        KeyringRead::NoStore => SubsonicKeyringNext::PromptThisSession,
        KeyringRead::Unavailable => SubsonicKeyringNext::PromptThisSession,
        KeyringRead::Failed => SubsonicKeyringNext::Fail,
    }
}

/// Why a scrobble secret could not be read from the keyring.
#[derive(Debug, Clone, Copy, PartialEq, Eq, Structural)]
pub enum ScrobbleKeyringError {
    /// No keyring store: the secret is not configured anywhere.
    NotConfigured,
    /// The keyring holds no entry for it.
    NotInKeyring,
    /// The entry is blank.
    EmptyEntry,
    /// The keyring failed.
    KeyringFailed,
}

pub open spec fn scrobble_keyring_secret_of(read: KeyringRead) -> Result<Seq<char>, ScrobbleKeyringError> {
    match read {
        KeyringRead::Found(s) => if trim(s@).len() > 0 { Ok(trim(s@)) } else { Err(ScrobbleKeyringError::EmptyEntry) },
        KeyringRead::NoEntry => Err(ScrobbleKeyringError::NotInKeyring),
        KeyringRead::NoStore => Err(ScrobbleKeyringError::NotConfigured),
        KeyringRead::Unavailable => Err(ScrobbleKeyringError::KeyringFailed),
        KeyringRead::Failed => Err(ScrobbleKeyringError::KeyringFailed),
    }
}

/// The scrobble secret a keyring read gives: the trimmed value, or why there is none.
pub fn scrobble_keyring_secret(read: KeyringRead) -> (r: Result<String, ScrobbleKeyringError>)
    ensures
        match r {
            Ok(s) => scrobble_keyring_secret_of(read) == Ok::<Seq<char>, ScrobbleKeyringError>(s@),
            Err(e) => scrobble_keyring_secret_of(read) == Err::<Seq<char>, ScrobbleKeyringError>(e),
        },
{
    match read {
        KeyringRead::Found(s) => match secret_from_output(s.as_str()) {
            Some(t) => Ok(t),
            None => Err(ScrobbleKeyringError::EmptyEntry),
        },
        KeyringRead::NoEntry => Err(ScrobbleKeyringError::NotInKeyring),
        KeyringRead::NoStore => Err(ScrobbleKeyringError::NotConfigured),
        KeyringRead::Unavailable => Err(ScrobbleKeyringError::KeyringFailed),
        KeyringRead::Failed => Err(ScrobbleKeyringError::KeyringFailed),
    }
}

// ── Environment overrides ─────────────────────────────────────────────────────

/// The environment variables that override `config.toml`, each `None` when unset.
#[derive(Debug, Clone, Default)]
pub struct EnvOverrides {
    pub termusic_subsonic_url: Option<String>,
    pub subsonic_url: Option<String>,
    pub termusic_subsonic_user: Option<String>,
    pub subsonic_user: Option<String>,
    pub termusic_subsonic_pass: Option<String>,
    pub subsonic_pass: Option<String>,
    pub lastfm_api_key: Option<String>,
    pub librefm_api_key: Option<String>,
    pub lastfm_api_secret: Option<String>,
    pub lastfm_shared_secret: Option<String>,
    pub librefm_api_secret: Option<String>,
    pub lastfm_session_key: Option<String>,
    pub librefm_session_key: Option<String>,
}

/// The value an overridable setting ends with: the first variable that is set, else the
/// file's value.
pub open spec fn overridden(first: Option<String>, second: Option<String>, file: String) -> Seq<char> {
    match first {
        Some(v) => v@,
        None => match second {
            Some(v) => v@,
            None => file@,
        },
    }
}

/// A set environment variable wins over the value in `config.toml`, whatever the file
/// holds; of two variables for one setting the first wins; with neither set, the file's
/// value stays.
pub proof fn environment_wins_over_file(first: Option<String>, second: Option<String>, file: String)
    ensures
        first matches Some(v) ==> overridden(first, second, file) == v@,
        first is None ==> (second matches Some(v) ==> overridden(first, second, file) == v@),
        first is None && second is None ==> overridden(first, second, file) == file@,
{
}

fn override_with(target: &mut String, first: &Option<String>, second: &Option<String>)
    ensures final(target)@ == overridden(*first, *second, *old(target)),
{
    match first {
        Some(v) => { *target = v.clone(); },
        None => match second {
            Some(v) => { *target = v.clone(); },
            None => {},
        },
    }
}

/// Env vars override file values: `TERMUSIC_SUBSONIC_*` before `SUBSONIC_*` for the server
/// URL, user and password; `LASTFM_*` before `LIBREFM_*` (and `LASTFM_SHARED_SECRET`
/// between them for the secret) for the scrobble key, secret and session key.
pub fn merge_env_overrides(cfg: &mut FileConfig, env: &EnvOverrides)
    ensures
        final(cfg).server.url@ == overridden(env.termusic_subsonic_url, env.subsonic_url, old(cfg).server.url),
        final(cfg).server.username@ == overridden(env.termusic_subsonic_user, env.subsonic_user, old(cfg).server.username),
        final(cfg).server.password@ == overridden(env.termusic_subsonic_pass, env.subsonic_pass, old(cfg).server.password),
        final(cfg).scrobble.api_key@ == overridden(env.lastfm_api_key, env.librefm_api_key, old(cfg).scrobble.api_key),
        final(cfg).scrobble.api_secret@ == match env.lastfm_api_secret {
            Some(v) => v@,
            None => overridden(env.lastfm_shared_secret, env.librefm_api_secret, old(cfg).scrobble.api_secret),
        },
        final(cfg).scrobble.session_key@ == overridden(env.lastfm_session_key, env.librefm_session_key, old(cfg).scrobble.session_key),
        final(cfg).server.password_command == old(cfg).server.password_command,
        final(cfg).server.password_keyring == old(cfg).server.password_keyring,
        final(cfg).server.alias == old(cfg).server.alias,
        final(cfg).server.connection_check_interval_secs == old(cfg).server.connection_check_interval_secs,
        final(cfg).scrobble.enabled == old(cfg).scrobble.enabled,
        final(cfg).scrobble.service == old(cfg).scrobble.service,
        final(cfg).scrobble.api_secret_command == old(cfg).scrobble.api_secret_command,
        final(cfg).scrobble.session_key_command == old(cfg).scrobble.session_key_command,
        final(cfg).scrobble.scrobble_to_server == old(cfg).scrobble.scrobble_to_server,
        final(cfg).scrobble.thresholds == old(cfg).scrobble.thresholds,
        final(cfg).player == old(cfg).player,
        final(cfg).keybinds == old(cfg).keybinds,
        final(cfg).theme == old(cfg).theme,
        final(cfg).ui == old(cfg).ui,
        final(cfg).cache == old(cfg).cache,
        final(cfg).lyrics == old(cfg).lyrics,
        final(cfg).library == old(cfg).library,
        final(cfg).radio == old(cfg).radio,
        final(cfg).ratings == old(cfg).ratings,
{
    override_with(&mut cfg.server.url, &env.termusic_subsonic_url, &env.subsonic_url);
    override_with(&mut cfg.server.username, &env.termusic_subsonic_user, &env.subsonic_user);
    override_with(&mut cfg.server.password, &env.termusic_subsonic_pass, &env.subsonic_pass);
    override_with(&mut cfg.scrobble.api_key, &env.lastfm_api_key, &env.librefm_api_key);
    match &env.lastfm_api_secret {
        Some(v) => { cfg.scrobble.api_secret = v.clone(); },
        None => override_with(&mut cfg.scrobble.api_secret, &env.lastfm_shared_secret, &env.librefm_api_secret),
    }
    override_with(&mut cfg.scrobble.session_key, &env.lastfm_session_key, &env.librefm_session_key);
}

/// The scrobble service and the trimmed application API key, for the browser auth flow
/// and the keyring helpers; fails when the key is blank.
pub fn resolve_scrobble_api_key(sec: &ScrobbleSection) -> (r: Result<(ScrobbleService, String), EmptyApiKey>)
    ensures
        r is Err <==> trim(sec.api_key@).len() == 0,
        r matches Ok(t) ==> t.0 == resolve_service_spec(sec.service@) && t.1@ == trim(sec.api_key@),
{
    let service = resolve_scrobble_service(sec);
    let key = trimmed(sec.api_key.as_str());
    if key.unicode_len() == 0 {
        Err(EmptyApiKey)
    } else {
        Ok((service, String::from_str(key)))
    }
}

/// What storing a scrobble secret in the keyring writes: the entry label `service|kind`
/// and the trimmed secret; `None` (refused) when the secret is blank.
pub fn scrobble_secret_to_store(service: ScrobbleService, kind: &str, value: &str) -> (r: Option<(String, String)>)
    ensures
        r is None <==> trim(value@).len() == 0,
        r matches Some(t) ==> t.0@ == service_name(service) + "|"@ + kind@ && t.1@ == trim(value@),
{
    match secret_from_output(value) {
        Some(secret) => Some((scrobble_keyring_label(service, kind), secret)),
        None => None,
    }
}

} // verus!
