//! How the tables of `config.toml` resolve to the settings the player runs with: which
//! table wins where two set the same key, the built-in defaults, and the ranges values
//! are clamped to.
use vstd::prelude::*;
use crate::text::{
    trim, trimmed, opt_view, opt_str_view, opt_as_str, eq_ignore_case, str_eq_ignore_case,
    has_prefix, strip_prefix_str,
};
use crate::text::views;
use crate::config::{
    UiSection, UiNpTabSection, UiNpTabNowPlayingSection, UiNpTabArtSection, UiNpTabLayoutSection,
    UiNpTabQueueSection, UiNpTabLyricsSection, UiNpTabVisualizerSection, UiHomeTabSection,
    UiHomeRecentAlbumsSection, UiHomeLayoutSection, UiRowNowPlayingSection,
    default_lines_spec, default_now_playing_lines, clamped, default_ui_visualizer_colors,
    UiGeneralSection, UiBrowseTabSection, HomePanel, BrowseMode, browse_mode_of, home_panels_of,
    opt_list_view, parse_home_panels, FileConfig, RatingStarGlyphs, KeybindsSection, ThemeSection,
    AlbumArtBackend, LyricsSource, LibraryFzfSection, ScrobbleService, ListenThreshold,
    AudioscrobblerRules, prefer, lyrics_source_of, merged_binary, merged_args, resolve_service_spec,
    resolve_rating_stars, resolve_scrobble_service, trim_end_slashes, clone_strings,
    default_ui_progress_style, default_ui_now_playing_layout, default_ui_now_playing_box_location,
    default_ui_now_playing_bar_height, default_ui_now_playing_show_controls,
    default_ui_now_playing_show_progress, default_ui_nowplaying_show_art,
    default_ui_nowplaying_art_position, default_ui_nowplaying_left_width_percent,
    default_ui_show_fzf_hint, default_ui_lyrics_enabled, default_ui_visualizer_location,
    default_ui_visualizer_type, default_ui_visualizer_color_mode, default_ui_visualizer_fps,
    default_ui_visualizer_fft_size, default_ui_visualizer_enabled, default_ui_tab_bar_position,
    default_radio_enabled, default_radio_fetch_station_icons,
};

verus! {

/// `Option::and_then` in specifications.
pub open spec fn bind<A, B>(o: Option<A>, f: spec_fn(A) -> Option<B>) -> Option<B> {
    match o {
        Some(a) => f(a),
        None => None,
    }
}

/// An optional borrow as an optional value.
pub open spec fn deref_opt<T>(o: Option<&T>) -> Option<T> {
    match o {
        Some(x) => Some(*x),
        None => None,
    }
}

/// The first of two optional values that is set.
pub open spec fn or2<T>(a: Option<T>, b: Option<T>) -> Option<T> {
    if a is Some { a } else { b }
}

/// The value when set, else `d`.
pub open spec fn or_default<T>(a: Option<T>, d: T) -> T {
    match a {
        Some(x) => x,
        None => d,
    }
}

/// `[ui.nptab.now_playing]`, when present.
pub open spec fn np_sec(ui: UiSection) -> Option<UiNpTabNowPlayingSection> {
    bind(ui.nptab, |n: UiNpTabSection| n.now_playing)
}

/// `[ui.nptab.art]`, when present.
pub open spec fn art_sec(ui: UiSection) -> Option<UiNpTabArtSection> {
    bind(ui.nptab, |n: UiNpTabSection| n.art)
}

/// `[ui.nptab.layout]`, when present.
pub open spec fn np_layout_sec(ui: UiSection) -> Option<UiNpTabLayoutSection> {
    bind(ui.nptab, |n: UiNpTabSection| n.layout)
}

/// `[ui.nptab.queue]`, when present.
pub open spec fn queue_sec(ui: UiSection) -> Option<UiNpTabQueueSection> {
    bind(ui.nptab, |n: UiNpTabSection| n.queue)
}

/// `[ui.nptab.lyrics_pane]`, when present.
pub open spec fn lyrics_sec(ui: UiSection) -> Option<UiNpTabLyricsSection> {
    bind(ui.nptab, |n: UiNpTabSection| n.lyrics_pane)
}

/// `[ui.nptab.visualizer_pane]`, when present.
pub open spec fn vis_sec(ui: UiSection) -> Option<UiNpTabVisualizerSection> {
    bind(ui.nptab, |n: UiNpTabSection| n.visualizer_pane)
}

/// `[ui.hometab.recent_albums]`, when present.
pub open spec fn home_recent_sec(ui: UiSection) -> Option<UiHomeRecentAlbumsSection> {
    bind(ui.hometab, |h: UiHomeTabSection| h.recent_albums)
}

/// `[ui.hometab.layout]`, when present.
pub open spec fn home_layout_sec(ui: UiSection) -> Option<UiHomeLayoutSection> {
    bind(ui.hometab, |h: UiHomeTabSection| h.layout)
}

fn np_ref(ui: &UiSection) -> (r: Option<&UiNpTabNowPlayingSection>)
    ensures deref_opt(r) == np_sec(*ui),
{
    match &ui.nptab {
        Some(n) => n.now_playing.as_ref(),
        None => None,
    }
}

fn art_ref(ui: &UiSection) -> (r: Option<&UiNpTabArtSection>)
    ensures deref_opt(r) == art_sec(*ui),
{
    match &ui.nptab {
        Some(n) => n.art.as_ref(),
        None => None,
    }
}

fn np_layout_ref(ui: &UiSection) -> (r: Option<&UiNpTabLayoutSection>)
    ensures deref_opt(r) == np_layout_sec(*ui),
{
    match &ui.nptab {
        Some(n) => n.layout.as_ref(),
        None => None,
    }
}

fn queue_ref(ui: &UiSection) -> (r: Option<&UiNpTabQueueSection>)
    ensures deref_opt(r) == queue_sec(*ui),
{
    match &ui.nptab {
        Some(n) => n.queue.as_ref(),
        None => None,
    }
}

fn lyrics_ref(ui: &UiSection) -> (r: Option<&UiNpTabLyricsSection>)
    ensures deref_opt(r) == lyrics_sec(*ui),
{
    match &ui.nptab {
        Some(n) => n.lyrics_pane.as_ref(),
        None => None,
    }
}

fn vis_ref(ui: &UiSection) -> (r: Option<&UiNpTabVisualizerSection>)
    ensures deref_opt(r) == vis_sec(*ui),
{
    match &ui.nptab {
        Some(n) => n.visualizer_pane.as_ref(),
        None => None,
    }
}

fn home_recent_ref(ui: &UiSection) -> (r: Option<&UiHomeRecentAlbumsSection>)
    ensures deref_opt(r) == home_recent_sec(*ui),
{
    match &ui.hometab {
        Some(h) => h.recent_albums.as_ref(),
        None => None,
    }
}

fn home_layout_ref(ui: &UiSection) -> (r: Option<&UiHomeLayoutSection>)
    ensures deref_opt(r) == home_layout_sec(*ui),
{
    match &ui.hometab {
        Some(h) => h.layout.as_ref(),
        None => None,
    }
}

/// The first of two optional values that is set, else `d`.
fn first_or<T: Copy>(a: Option<T>, b: Option<T>, d: T) -> (r: T)
    ensures r == or_default(or2(a, b), d),
{
    match a {
        Some(x) => x,
        None => match b {
            Some(x) => x,
            None => d,
        },
    }
}

/// The first of two optional strings that is set, else `d`, owned.
fn first_string_or(a: Option<&str>, b: Option<&str>, d: String) -> (r: String)
    ensures r@ == or_default(or2(opt_str_view(a), opt_str_view(b)), d@),
{
    match a {
        Some(x) => String::from_str(x),
        None => match b {
            Some(x) => String::from_str(x),
            None => d,
        },
    }
}


// ── The now-playing strip: `[ui.nptab.now_playing]` > `[ui.row_now_playing]` > default ──

pub open spec fn np_str(ui: UiSection, f: spec_fn(UiNpTabNowPlayingSection) -> Option<String>) -> Option<Seq<char>> {
    opt_view(bind(np_sec(ui), f))
}

pub open spec fn row_str(ui: UiSection, f: spec_fn(UiRowNowPlayingSection) -> Option<String>) -> Option<Seq<char>> {
    opt_view(bind(ui.row_now_playing, f))
}

pub open spec fn progress_style_of(ui: UiSection) -> Seq<char> {
    or_default(or2(np_str(ui, |n: UiNpTabNowPlayingSection| n.progress_style),
        row_str(ui, |r: UiRowNowPlayingSection| r.progress_style)), "██░"@)
}

pub open spec fn bar_height_of(ui: UiSection) -> u16 {
    or_default(or2(bind(np_sec(ui), |n: UiNpTabNowPlayingSection| n.bar_height),
        bind(ui.row_now_playing, |r: UiRowNowPlayingSection| r.bar_height)), 4)
}

pub open spec fn layout_of(ui: UiSection) -> Seq<char> {
    or_default(or2(np_str(ui, |n: UiNpTabNowPlayingSection| n.layout),
        row_str(ui, |r: UiRowNowPlayingSection| r.layout)), "row"@)
}

pub open spec fn box_location_of(ui: UiSection) -> Seq<char> {
    or_default(or2(np_str(ui, |n: UiNpTabNowPlayingSection| n.box_location),
        row_str(ui, |r: UiRowNowPlayingSection| r.box_location)), "right"@)
}

pub open spec fn show_controls_of(ui: UiSection) -> bool {
    or_default(or2(bind(np_sec(ui), |n: UiNpTabNowPlayingSection| n.show_controls),
        bind(ui.row_now_playing, |r: UiRowNowPlayingSection| r.show_controls)), true)
}

pub open spec fn show_progress_of(ui: UiSection) -> bool {
    or_default(or2(bind(np_sec(ui), |n: UiNpTabNowPlayingSection| n.show_progress),
        bind(ui.row_now_playing, |r: UiRowNowPlayingSection| r.show_progress)), true)
}

pub open spec fn box_include_controls_of(ui: UiSection) -> bool {
    or_default(or2(bind(np_sec(ui), |n: UiNpTabNowPlayingSection| n.box_include_controls),
        bind(ui.row_now_playing, |r: UiRowNowPlayingSection| r.box_include_controls)), false)
}

pub open spec fn box_include_progress_of(ui: UiSection) -> bool {
    or_default(or2(bind(np_sec(ui), |n: UiNpTabNowPlayingSection| n.box_include_progress),
        bind(ui.row_now_playing, |r: UiRowNowPlayingSection| r.box_include_progress)), false)
}

/// Row strip lines: `[ui.row_now_playing].lines` when set and not empty, else the default.
pub open spec fn lines_row_of(ui: UiSection) -> Seq<Seq<char>> {
    match bind(ui.row_now_playing, |r: UiRowNowPlayingSection| r.lines) {
        Some(v) => if v@.len() > 0 { views(v@) } else { default_lines_spec() },
        None => default_lines_spec(),
    }
}

/// Boxed pane lines: `[ui.nptab.now_playing].lines` when set and not empty, else the row
/// strip's lines.
pub open spec fn lines_boxed_of(ui: UiSection) -> Seq<Seq<char>> {
    match bind(np_sec(ui), |n: UiNpTabNowPlayingSection| n.lines) {
        Some(v) => if v@.len() > 0 { views(v@) } else { lines_row_of(ui) },
        None => lines_row_of(ui),
    }
}

/// The now-playing strip settings.
pub struct StripSettings {
    pub progress_style: String,
    pub bar_height: u16,
    pub layout: String,
    pub box_location: String,
    pub show_controls: bool,
    pub show_progress: bool,
    pub box_include_controls: bool,
    pub box_include_progress: bool,
    pub lines_row: Vec<String>,
    pub lines_boxed: Vec<String>,
}

/// Strip fields: `[ui.nptab.now_playing]` > `[ui.row_now_playing]` > built-in defaults.
pub fn resolve_strip(ui: &UiSection) -> (r: StripSettings)
    ensures
        r.progress_style@ == progress_style_of(*ui),
        r.bar_height == bar_height_of(*ui),
        r.layout@ == layout_of(*ui),
        r.box_location@ == box_location_of(*ui),
        r.show_controls == show_controls_of(*ui),
        r.show_progress == show_progress_of(*ui),
        r.box_include_controls == box_include_controls_of(*ui),
        r.box_include_progress == box_include_progress_of(*ui),
        views(r.lines_row@) == lines_row_of(*ui),
        views(r.lines_boxed@) == lines_boxed_of(*ui),
{
    let np = np_ref(ui);
    let row = ui.row_now_playing.as_ref();
    let (np_style, np_layout, np_box) = match np {
        Some(n) => (opt_as_str(&n.progress_style), opt_as_str(&n.layout), opt_as_str(&n.box_location)),
        None => (None, None, None),
    };
    let (row_style, row_layout, row_box) = match row {
        Some(r) => (opt_as_str(&r.progress_style), opt_as_str(&r.layout), opt_as_str(&r.box_location)),
        None => (None, None, None),
    };
    let progress_style = first_string_or(np_style, row_style, default_ui_progress_style());
    let layout = first_string_or(np_layout, row_layout, default_ui_now_playing_layout());
    let box_location = first_string_or(np_box, row_box, default_ui_now_playing_box_location());
    let (a_h, a_c, a_p, a_ic, a_ip) = match np {
        Some(n) => (n.bar_height, n.show_controls, n.show_progress, n.box_include_controls, n.box_include_progress),
        None => (None, None, None, None, None),
    };
    let (b_h, b_c, b_p, b_ic, b_ip) = match row {
        Some(r) => (r.bar_height, r.show_controls, r.show_progress, r.box_include_controls, r.box_include_progress),
        None => (None, None, None, None, None),
    };
    let lines_row = match row {
        Some(r) => match &r.lines {
            Some(v) => if v.len() > 0 { clone_strings(v) } else { default_now_playing_lines() },
            None => default_now_playing_lines(),
        },
        None => default_now_playing_lines(),
    };
    let lines_boxed = match np {
        Some(n) => match &n.lines {
            Some(v) => if v.len() > 0 { clone_strings(v) } else { clone_strings(&lines_row) },
            None => clone_strings(&lines_row),
        },
        None => clone_strings(&lines_row),
    };
    StripSettings {
        progress_style,
        bar_height: first_or(a_h, b_h, default_ui_now_playing_bar_height()),
        layout,
        box_location,
        show_controls: first_or(a_c, b_c, default_ui_now_playing_show_controls()),
        show_progress: first_or(a_p, b_p, default_ui_now_playing_show_progress()),
        box_include_controls: first_or(a_ic, b_ic, false),
        box_include_progress: first_or(a_ip, b_ip, false),
        lines_row,
        lines_boxed,
    }
}

// ── The Now Playing tab ───────────────────────────────────────────────────────

pub open spec fn show_art_of(ui: UiSection) -> bool {
    or_default(bind(art_sec(ui), |a: UiNpTabArtSection| a.show), true)
}

pub open spec fn art_position_of(ui: UiSection) -> Seq<char> {
    or_default(opt_view(bind(art_sec(ui), |a: UiNpTabArtSection| a.position)), "left"@)
}

/// The queue column: `[ui.nptab.queue].position`, else opposite the art column.
pub open spec fn queue_position_of(ui: UiSection) -> Seq<char> {
    or_default(opt_view(bind(queue_sec(ui), |q: UiNpTabQueueSection| q.position)),
        if eq_ignore_case(trim(art_position_of(ui)), "right"@) { "left"@ } else { "right"@ })
}

/// The lyrics pane: `[ui.nptab.lyrics_pane].location` unless blank, else the queue side.
pub open spec fn lyrics_location_of(ui: UiSection) -> Seq<char> {
    match opt_view(bind(lyrics_sec(ui), |l: UiNpTabLyricsSection| l.location)) {
        Some(s) => if trim(s).len() > 0 { s } else { queue_position_of(ui) },
        None => queue_position_of(ui),
    }
}

pub open spec fn left_width_percent_of(ui: UiSection) -> int {
    clamped(or_default(bind(np_layout_sec(ui), |l: UiNpTabLayoutSection| l.left_width_percent), 50u8) as int, 1, 99)
}

pub open spec fn vertical_fill_top_percent_of(ui: UiSection) -> int {
    clamped(or_default(bind(np_layout_sec(ui), |l: UiNpTabLayoutSection| l.vertical_fill_top_percent), 50u8) as int, 1, 99)
}

pub open spec fn show_fzf_hint_of(ui: UiSection) -> bool {
    or_default(bind(ui.nptab, |n: UiNpTabSection| n.show_fzf_hint), false)
}

pub open spec fn lyrics_visible_of(ui: UiSection) -> bool {
    or_default(bind(lyrics_sec(ui), |l: UiNpTabLyricsSection| l.visible), false)
}

pub open spec fn lyrics_enabled_of(ui: UiSection) -> bool {
    or_default(bind(lyrics_sec(ui), |l: UiNpTabLyricsSection| l.enabled), true)
}

/// The queue row template: `[ui.nptab.queue].queue_template`, else
/// `[ui.nptab].queue_template`, else empty (built-in columns).
pub open spec fn queue_template_of(ui: UiSection) -> Seq<char> {
    or_default(opt_view(bind(ui.nptab, |n: UiNpTabSection|
        or2(bind(n.queue, |q: UiNpTabQueueSection| q.queue_template), n.queue_template))), Seq::empty())
}

/// The Now Playing tab's columns and panes.
pub struct NowPlayingSettings {
    pub show_art: bool,
    pub art_position: String,
    pub queue_position: String,
    pub lyrics_location: String,
    pub left_width_percent: u8,
    pub vertical_fill_top_percent: u8,
    pub show_fzf_hint: bool,
    pub lyrics_visible: bool,
    pub lyrics_enabled: bool,
    pub queue_template: String,
}

fn clamp_u8(n: u8, lo: u8, hi: u8) -> (r: u8)
    requires lo <= hi,
    ensures r == clamped(n as int, lo as int, hi as int),
{
    if n < lo { lo } else if n > hi { hi } else { n }
}

/// The Now Playing tab's columns and panes from `[ui.nptab]`.
pub fn resolve_now_playing(ui: &UiSection) -> (r: NowPlayingSettings)
    ensures
        r.show_art == show_art_of(*ui),
        r.art_position@ == art_position_of(*ui),
        r.queue_position@ == queue_position_of(*ui),
        r.lyrics_location@ == lyrics_location_of(*ui),
        r.left_width_percent == left_width_percent_of(*ui),
        r.vertical_fill_top_percent == vertical_fill_top_percent_of(*ui),
        r.show_fzf_hint == show_fzf_hint_of(*ui),
        r.lyrics_visible == lyrics_visible_of(*ui),
        r.lyrics_enabled == lyrics_enabled_of(*ui),
        r.queue_template@ == queue_template_of(*ui),
{
    let art = art_ref(ui);
    let show_art = match art {
        Some(a) => match a.show { Some(b) => b, None => default_ui_nowplaying_show_art() },
        None => default_ui_nowplaying_show_art(),
    };
    let art_position = match art {
        Some(a) => match &a.position { Some(p) => p.clone(), None => default_ui_nowplaying_art_position() },
        None => default_ui_nowplaying_art_position(),
    };
    let queue = queue_ref(ui);
    let queue_position = match queue {
        Some(q) => match &q.position {
            Some(p) => p.clone(),
            None => opposite_side(&art_position),
        },
        None => opposite_side(&art_position),
    };
    let lyrics = lyrics_ref(ui);
    let lyrics_location = match lyrics {
        Some(l) => match &l.location {
            Some(s) => if trimmed(s.as_str()).unicode_len() > 0 { s.clone() } else { queue_position.clone() },
            None => queue_position.clone(),
        },
        None => queue_position.clone(),
    };
    let layout = np_layout_ref(ui);
    let (lw, vf) = match layout {
        Some(l) => (l.left_width_percent, l.vertical_fill_top_percent),
        None => (None, None),
    };
    let left_width_percent = clamp_u8(match lw { Some(x) => x, None => default_ui_nowplaying_left_width_percent() }, 1, 99);
    let vertical_fill_top_percent = clamp_u8(match vf { Some(x) => x, None => 50 }, 1, 99);
    let show_fzf_hint = match &ui.nptab {
        Some(n) => match n.show_fzf_hint { Some(b) => b, None => default_ui_show_fzf_hint() },
        None => default_ui_show_fzf_hint(),
    };
    let (lyrics_visible, lyrics_enabled) = match lyrics {
        Some(l) => (match l.visible { Some(b) => b, None => false },
            match l.enabled { Some(b) => b, None => default_ui_lyrics_enabled() }),
        None => (false, default_ui_lyrics_enabled()),
    };
    let queue_template = match &ui.nptab {
        Some(n) => {
            let from_queue = match &n.queue {
                Some(q) => opt_as_str(&q.queue_template),
                None => None,
            };
            match from_queue {
                Some(t) => String::from_str(t),
                None => match &n.queue_template {
                    Some(t) => t.clone(),
                    None => String::new(),
                },
            }
        },
        None => String::new(),
    };
    NowPlayingSettings {
        show_art,
        art_position,
        queue_position,
        lyrics_location,
        left_width_percent,
        vertical_fill_top_percent,
        show_fzf_hint,
        lyrics_visible,
        lyrics_enabled,
        queue_template,
    }
}

/// `"left"` when the art column is on the right, else `"right"`.
fn opposite_side(art_position: &String) -> (r: String)
    ensures r@ == if eq_ignore_case(trim(art_position@), "right"@) { "left"@ } else { "right"@ },
{
    if str_eq_ignore_case(trimmed(art_position.as_str()), "right") {
        String::from_str("left")
    } else {
        String::from_str("right")
    }
}

// ── The visualizer pane ───────────────────────────────────────────────────────

pub open spec fn vis_location_of(ui: UiSection) -> Seq<char> {
    or_default(opt_view(bind(vis_sec(ui), |v: UiNpTabVisualizerSection| v.location)), "queue"@)
}

/// The visualizer type; `wave_filled` is an alias of `wave`.
pub open spec fn vis_type_of(ui: UiSection) -> Seq<char> {
    let t = or_default(opt_view(bind(vis_sec(ui), |v: UiNpTabVisualizerSection| v.visualizer_type)), "spectrum"@);
    if eq_ignore_case(trim(t), "wave_filled"@) { "wave"@ } else { t }
}

pub open spec fn vis_fps_of(ui: UiSection) -> int {
    clamped(or_default(bind(vis_sec(ui), |v: UiNpTabVisualizerSection| v.fps), 30u16) as int, 1, 240)
}

pub open spec fn vis_fft_size_of(ui: UiSection) -> int {
    clamped(or_default(bind(vis_sec(ui), |v: UiNpTabVisualizerSection| v.fft_size), 2048usize) as int, 1024, 4096)
}

/// The visualizer colours: the configured list unless it is empty, else `["accent"]`.
pub open spec fn vis_colors_of(ui: UiSection) -> Seq<Seq<char>> {
    match bind(vis_sec(ui), |v: UiNpTabVisualizerSection| v.colors) {
        Some(c) => if c@.len() > 0 { views(c@) } else { seq!["accent"@] },
        None => seq!["accent"@],
    }
}

pub open spec fn vis_color_mode_of(ui: UiSection) -> Seq<char> {
    or_default(opt_view(bind(vis_sec(ui), |v: UiNpTabVisualizerSection| v.color_mode)), "accent"@)
}

pub open spec fn vis_visible_of(ui: UiSection) -> bool {
    or_default(bind(vis_sec(ui), |v: UiNpTabVisualizerSection| v.visible), false)
}

pub open spec fn vis_enabled_of(ui: UiSection) -> bool {
    or_default(bind(vis_sec(ui), |v: UiNpTabVisualizerSection| v.enabled), true)
}

/// The visualizer pane settings (its gain is a float, resolved by the application binary).
pub struct VisualizerSettings {
    pub location: String,
    pub visualizer_type: String,
    pub fps: u16,
    pub fft_size: usize,
    pub colors: Vec<String>,
    pub color_mode: String,
    pub visible: bool,
    pub enabled: bool,
}

/// The visualizer pane from `[ui.nptab.visualizer_pane]`.
pub fn resolve_visualizer(ui: &UiSection) -> (r: VisualizerSettings)
    ensures
        r.location@ == vis_location_of(*ui),
        r.visualizer_type@ == vis_type_of(*ui),
        r.fps == vis_fps_of(*ui),
        r.fft_size == vis_fft_size_of(*ui),
        views(r.colors@) == vis_colors_of(*ui),
        r.color_mode@ == vis_color_mode_of(*ui),
        r.visible == vis_visible_of(*ui),
        r.enabled == vis_enabled_of(*ui),
{
    let vis = vis_ref(ui);
    let (loc, ty, mode) = match vis {
        Some(v) => (opt_as_str(&v.location), opt_as_str(&v.visualizer_type), opt_as_str(&v.color_mode)),
        None => (None, None, None),
    };
    let location = first_string_or(loc, None, default_ui_visualizer_location());
    let mut visualizer_type = first_string_or(ty, None, default_ui_visualizer_type());
    if str_eq_ignore_case(trimmed(visualizer_type.as_str()), "wave_filled") {
        // Alias: keep configs working, but treat as `wave` for now.
        visualizer_type = String::from_str("wave");
    }
    let color_mode = first_string_or(mode, None, default_ui_visualizer_color_mode());
    let (fps, fft, visible, enabled) = match vis {
        Some(v) => (v.fps, v.fft_size, v.visible, v.enabled),
        None => (None, None, None, None),
    };
    let fps: u16 = match fps { Some(x) => x, None => default_ui_visualizer_fps() };
    let fps: u16 = if fps < 1 { 1 } else if fps > 240 { 240 } else { fps };
    let fft: usize = match fft { Some(x) => x, None => default_ui_visualizer_fft_size() };
    let fft: usize = if fft < 1024 { 1024 } else if fft > 4096 { 4096 } else { fft };
    let colors = match vis {
        Some(v) => match &v.colors {
            Some(c) => if c.len() > 0 { clone_strings(c) } else { default_ui_visualizer_colors() },
            None => default_ui_visualizer_colors(),
        },
        None => default_ui_visualizer_colors(),
    };
    VisualizerSettings {
        location,
        visualizer_type,
        fps,
        fft_size: fft,
        colors,
        color_mode,
        visible: match visible { Some(b) => b, None => false },
        enabled: match enabled { Some(b) => b, None => default_ui_visualizer_enabled() },
    }
}

// ── General, Home and Browse ──────────────────────────────────────────────────

pub open spec fn tab_bar_position_of(ui: UiSection) -> Seq<char> {
    or_default(opt_view(bind(ui.general, |g: UiGeneralSection| g.tab_bar_position)), "bottom"@)
}

pub open spec fn show_volume_indicator_of(ui: UiSection) -> bool {
    or_default(bind(ui.general, |g: UiGeneralSection| g.show_volume_indicator), true)
}

pub open spec fn home_show_art_of(ui: UiSection) -> bool {
    or_default(bind(home_recent_sec(ui), |r: UiHomeRecentAlbumsSection| r.show_art), true)
}

/// The Home strip's cover size: 320 when unset, 0 (full size) when 0, else clamped to
/// 64–2048.
pub open spec fn cover_fetch_max_px_of(ui: UiSection) -> int {
    match bind(home_recent_sec(ui), |r: UiHomeRecentAlbumsSection| r.cover_fetch_max_px) {
        None => 320,
        Some(n) => if n == 0 { 0 } else { clamped(n as int, 64, 2048) },
    }
}

pub open spec fn top_height_percent_of(ui: UiSection) -> int {
    clamped(or_default(bind(home_layout_sec(ui), |l: UiHomeLayoutSection| l.top_height_percent), 50u8) as int, 25, 75)
}

pub open spec fn panels_of(ui: UiSection) -> Seq<HomePanel> {
    home_panels_of(opt_list_view(bind(home_layout_sec(ui), |l: UiHomeLayoutSection| l.panels)))
}

pub open spec fn browse_mode_setting(ui: UiSection) -> BrowseMode {
    match opt_view(bind(ui.browsetab, |b: UiBrowseTabSection| b.mode)) {
        Some(m) => or_default(browse_mode_of(m), BrowseMode::Artists),
        None => BrowseMode::Artists,
    }
}

pub open spec fn folder_navigation_of(ui: UiSection) -> bool {
    or_default(bind(ui.browsetab, |b: UiBrowseTabSection| b.folder_navigation), false)
}

pub open spec fn wheel_lines_of(ui: UiSection) -> int {
    let n = or_default(bind(ui.browsetab, |b: UiBrowseTabSection| b.mouse_wheel_scroll_lines), 1usize);
    if n < 1 { 1 } else { n as int }
}

/// The tab strip, the Home tab and the Browse tab.
pub struct TabSettings {
    pub tab_bar_position: String,
    pub show_volume_indicator: bool,
    pub home_recent_albums_show_art: bool,
    pub home_cover_fetch_max_px: u32,
    pub home_top_height_percent: u8,
    pub home_panels: [HomePanel; 3],
    pub browse_mode: BrowseMode,
    pub browse_folder_navigation: bool,
    pub browse_mouse_wheel_scroll_lines: usize,
}

/// The tab strip, Home and Browse settings from `[ui.general]`, `[ui.hometab]` and
/// `[ui.browsetab]`.
pub fn resolve_tabs(ui: &UiSection) -> (r: TabSettings)
    ensures
        r.tab_bar_position@ == tab_bar_position_of(*ui),
        r.show_volume_indicator == show_volume_indicator_of(*ui),
        r.home_recent_albums_show_art == home_show_art_of(*ui),
        r.home_cover_fetch_max_px == cover_fetch_max_px_of(*ui),
        r.home_top_height_percent == top_height_percent_of(*ui),
        r.home_panels@ == panels_of(*ui),
        r.browse_mode == browse_mode_setting(*ui),
        r.browse_folder_navigation == folder_navigation_of(*ui),
        r.browse_mouse_wheel_scroll_lines == wheel_lines_of(*ui),
{
    let (tab_pos, vol) = match &ui.general {
        Some(g) => (opt_as_str(&g.tab_bar_position), g.show_volume_indicator),
        None => (None, None),
    };
    let tab_bar_position = first_string_or(tab_pos, None, default_ui_tab_bar_position());
    let recent = home_recent_ref(ui);
    let (show_art, cover) = match recent {
        Some(r) => (r.show_art, r.cover_fetch_max_px),
        None => (None, None),
    };
    let home_cover_fetch_max_px: u32 = match cover {
        None => 320,
        Some(n) => if n == 0 { 0 } else if n < 64 { 64 } else if n > 2048 { 2048 } else { n },
    };
    let layout = home_layout_ref(ui);
    let top = match layout { Some(l) => l.top_height_percent, None => None };
    let home_top_height_percent = clamp_u8(match top { Some(x) => x, None => 50 }, 25, 75);
    let panels = match layout {
        Some(l) => match &l.panels {
            Some(p) => Some(clone_strings(p)),
            None => None,
        },
        None => None,
    };
    proof {
        let want = opt_list_view(bind(home_layout_sec(*ui), |l: UiHomeLayoutSection| l.panels));
        assert(opt_list_view(panels) == want);
    }
    let home_panels = parse_home_panels(panels);
    let (mode, folders, wheel) = match &ui.browsetab {
        Some(b) => (opt_as_str(&b.mode), b.folder_navigation, b.mouse_wheel_scroll_lines),
        None => (None, None, None),
    };
    let browse_mode = match mode {
        Some(m) => match BrowseMode::parse(m) {
            Some(x) => x,
            None => BrowseMode::Artists,
        },
        None => BrowseMode::Artists,
    };
    let wheel: usize = match wheel { Some(n) => n, None => 1 };
    TabSettings {
        tab_bar_position,
        show_volume_indicator: match vol { Some(b) => b, None => true },
        home_recent_albums_show_art: match show_art { Some(b) => b, None => true },
        home_cover_fetch_max_px,
        home_top_height_percent,
        home_panels,
        browse_mode,
        browse_folder_navigation: match folders { Some(b) => b, None => false },
        browse_mouse_wheel_scroll_lines: if wheel < 1 { 1 } else { wheel },
    }
}

// ── The whole configuration ───────────────────────────────────────────────────

/// The settings the player runs with, resolved from `config.toml`, the environment and
/// the secret sources. (The visualizer gain and the cache size cap are floats and are
/// resolved by the application binary.)
#[derive(Debug, Clone)]
pub struct Config {
    pub subsonic_url: String,
    pub subsonic_user: String,
    pub subsonic_pass: String,
    /// When set, shown in the status bar instead of the server URL.
    pub server_alias: Option<String>,
    /// Periodic Subsonic `ping` interval (seconds). `0` = startup ping only.
    pub connection_check_interval_secs: u64,
    pub default_volume: u8,
    pub max_bit_rate: u32,
    /// Linux: register MPRIS on the session bus (media keys, `playerctl`).
    pub mpris_enabled: bool,
    /// When true, playback wraps to the first queue track after the last one ends.
    pub queue_loop: bool,
    /// When true, show ratings in the UI and allow rating keybinds / MPRIS UserRating (`[ratings].enabled`).
    pub ratings_enabled: bool,
    /// Star glyphs for rating display (`[theme.icon].rating_*`, legacy `[ratings].star_*`).
    pub rating_stars: RatingStarGlyphs,
    /// Internet Radio (picker, Now Playing pane, station management).
    pub radio_enabled: bool,
    /// When false, skip HTTP fetches to station homepages for Now Playing art.
    pub radio_fetch_station_icons: bool,
    /// Raw keybind strings — parsed into `Keybinds` when the app starts.
    pub keybinds: KeybindsSection,
    /// Raw theme colour strings — parsed into a theme when the app starts.
    pub theme: ThemeSection,
    /// Whether to show the lyrics overlay on startup.
    pub lyrics_visible: bool,
    /// Whether to show the spectrum visualizer overlay on startup.
    pub visualizer_visible: bool,
    /// Whether the lyrics overlay feature can be toggled at all.
    pub lyrics_enabled: bool,
    /// Whether the visualizer overlay feature can be toggled at all.
    pub visualizer_enabled: bool,
    /// Queue row display template; empty = built-in default columns.
    pub queue_template: String,
    /// Now-playing bar glyphs (three-character progress style).
    pub progress_style: String,
    /// NowPlaying tab: show the album-art column.
    pub nowplaying_show_art: bool,
    pub album_art_backend: AlbumArtBackend,
    /// NowPlaying tab: album art side ("left" or "right").
    pub nowplaying_art_position: String,
    /// NowPlaying tab: queue side ("left" or "right").
    pub nowplaying_queue_position: String,
    /// NowPlaying tab: left column width percent when split (1–99).
    pub nowplaying_left_width_percent: u8,
    /// NowPlaying tab: when exactly two panes stack in one column, top pane percent (1–99).
    pub nowplaying_vertical_fill_top_percent: u8,
    /// Show fzf picker hints in the UI where relevant.
    pub show_fzf_hint: bool,
    /// Now Playing tab: lyrics pane side when visible (`left`, `right`, or `full`). Defaults to
    /// the queue column side when omitted in config.
    pub lyrics_location: String,
    /// Where the visualizer pane appears ("queue" or "art").
    pub visualizer_location: String,
    /// Visualizer type: `spectrum`, `wave`.
    pub visualizer_type: String,
    /// Visualizer update rate (FPS) when visible.
    pub visualizer_fps: u16,
    /// FFT window size for spectrum analysis.
    pub visualizer_fft_size: usize,
    /// Visualizer colors (strings parsed at render-time).
    pub visualizer_colors: Vec<String>,
    /// Visualizer color mode: `accent`, `fixed`, `gradient_height`.
    pub visualizer_color_mode: String,
    /// Tab bar at top (`top`) or bottom (`bottom`).
    pub tab_bar_position: String,
    /// Show `N%` playback level at the bottom-right of the status bar (in-app gain, not OS volume).
    pub show_volume_indicator: bool,
    /// Now-playing bar height in rows.
    pub now_playing_bar_height: u16,
    /// `row` or `boxed` now-playing layout.
    pub now_playing_layout: String,
    /// Boxed Now Playing pane side (`left` or `right`).
    pub now_playing_box_location: String,
    pub now_playing_show_controls: bool,
    pub now_playing_show_progress: bool,
    pub now_playing_box_include_controls: bool,
    pub now_playing_box_include_progress: bool,
    /// ncmpcpp-style lines for the **row** strip (Home, Browse, NP when using row footer).
    pub now_playing_lines_row: Vec<String>,
    /// ncmpcpp-style lines for the **boxed** Now Playing pane (NP tab only). Falls back to
    /// `now_playing_lines_row` when empty.
    pub now_playing_lines_boxed: Vec<String>,
    /// Whether the offline track cache is enabled.
    pub cache_enabled: bool,
    /// Prefetch favorite tracks into the offline cache.
    pub cache_starred: bool,
    /// Prefetch all tracks from favorited albums into the offline cache.
    pub cache_starred_albums: bool,
    /// Concurrent downloads when prefetching favorite tracks.
    pub cache_starred_parallelism: usize,
    /// Where to fetch lyrics (`lrclib`, `netease`, or `subsonic`).
    pub lyrics_source: LyricsSource,
    /// LRCLib base URL when `lyrics_source` is `LrcLib`.
    pub lyrics_lrclib_url: String,
    /// Whether to cache lyrics on disk under `~/.cache/ratune/lyrics/`.
    pub lyrics_cache_enabled: bool,
    /// Local metadata index for fzf (see `[library]`).
    pub library_index_enabled: bool,
    pub library_index_path: String,
    pub library_index_max_age_secs: u64,
    pub fzf: LibraryFzfSection,
    pub library_fetch_album_parallelism: usize,
    pub library_fetch_artist_parallelism: usize,
    pub library_navidrome_skip_unchanged_scan: bool,
    /// Desktop notification after a forced library index refresh finishes.
    pub library_notify_on_forced_index_refresh: bool,
    /// Home tab: show Kitty thumbnails in Recently Played when supported.
    pub home_recent_albums_show_art: bool,
    /// Subsonic `getCoverArt` `size` for Home strip (0 = full resolution from server).
    pub home_cover_fetch_max_px: u32,
    /// Home tab: top band height as percent of the content area (25–75).
    pub home_top_height_percent: u8,
    /// Home tab: `[top, bottom_left, bottom_right]` panel assignment.
    pub home_panels: [HomePanel; 3],
    /// Browse tab: `artists` (default), or placeholder `genre` / `files`.
    pub browse_mode: BrowseMode,
    /// When true, folder browsing can be toggled with the keybind and used from the Browse tab.
    pub browse_folder_navigation: bool,
    /// Browse tab: list rows to move per mouse wheel tick.
    pub browse_mouse_wheel_scroll_lines: usize,
    /// Scrobble listens to Last.fm or Libre.fm when enabled and credentials are configured.
    pub scrobble_enabled: bool,
    pub scrobble_service: ScrobbleService,
    pub scrobble_api_key: String,
    pub scrobble_api_secret: String,
    pub scrobble_session_key: String,
    /// Notify the Subsonic server (Navidrome play counts) when a listen is recorded.
    pub scrobble_to_server: bool,
    /// Threshold for local history + Subsonic scrobble.
    pub scrobble_local_threshold: ListenThreshold,
    /// Threshold for Last.fm / Libre.fm scrobble.
    pub scrobble_audioscrobbler_rules: AudioscrobblerRules,
}

/// No Subsonic password, token or secret was found.
#[derive(Debug, Clone, Copy, PartialEq, Eq, Structural)]
pub struct MissingPassword;

/// `n`, but at least 1.
pub open spec fn at_least_one(n: usize) -> int {
    if n < 1 { 1 } else { n as int }
}

fn max_one(n: usize) -> (r: usize)
    ensures r == at_least_one(n),
{
    if n < 1 { 1 } else { n }
}

/// The server alias unless it is blank.
pub open spec fn alias_of(a: Option<String>) -> Option<Seq<char>> {
    match a {
        Some(s) => if trim(s@).len() > 0 { Some(s@) } else { None },
        None => None,
    }
}

/// The scrobble credentials in force: those resolved when scrobbling is enabled, empty
/// otherwise or when they could not be resolved.
pub open spec fn credentials_of(enabled: bool, creds: Option<(String, String, String)>) -> (Seq<char>, Seq<char>, Seq<char>) {
    match creds {
        Some(c) => if enabled { (c.0@, c.1@, c.2@) } else { (Seq::empty(), Seq::empty(), Seq::empty()) },
        None => (Seq::empty(), Seq::empty(), Seq::empty()),
    }
}

/// The whole configuration from the parsed file (after environment overrides), the
/// Subsonic secret and, when scrobbling is enabled, the resolved scrobble credentials
/// (`None` when they could not be resolved). Fails when the secret is empty.
#[verifier::rlimit(40)]
pub fn resolve_config(
    file: FileConfig,
    subsonic_pass: String,
    scrobble_credentials: Option<(String, String, String)>,
) -> (r: Result<Config, MissingPassword>)
    ensures
        r is Err <==> subsonic_pass@.len() == 0,
        r matches Ok(c) ==> {
            &&& c.subsonic_url@ == file.server.url@
            &&& c.subsonic_user@ == file.server.username@
            &&& c.subsonic_pass@ == subsonic_pass@
            &&& opt_view(c.server_alias) == alias_of(file.server.alias)
            &&& c.connection_check_interval_secs == file.server.connection_check_interval_secs
            &&& c.default_volume == file.player.default_volume
            &&& c.max_bit_rate == file.player.max_bit_rate
            &&& c.mpris_enabled == file.player.mpris
            &&& c.queue_loop == file.player.queue_loop
            &&& c.ratings_enabled == file.ratings.enabled
            &&& c.rating_stars.filled@ == prefer(opt_view(file.theme.icon.rating_filled), file.ratings.star_filled@)
            &&& c.rating_stars.empty@ == prefer(opt_view(file.theme.icon.rating_empty), file.ratings.star_empty@)
            &&& c.rating_stars.bracket_open@ == prefer(opt_view(file.theme.icon.rating_bracket_open), file.ratings.bracket_open@)
            &&& c.rating_stars.bracket_close@ == prefer(opt_view(file.theme.icon.rating_bracket_close), file.ratings.bracket_close@)
            &&& c.radio_enabled == or_default(file.radio.enabled, true)
            &&& c.radio_fetch_station_icons == or_default(file.radio.fetch_station_icons, true)
            &&& c.keybinds == file.keybinds
            &&& c.theme == file.theme
            &&& c.lyrics_visible == lyrics_visible_of(file.ui)
            &&& c.visualizer_visible == vis_visible_of(file.ui)
            &&& c.lyrics_enabled == lyrics_enabled_of(file.ui)
            &&& c.visualizer_enabled == vis_enabled_of(file.ui)
            &&& c.queue_template@ == queue_template_of(file.ui)
            &&& c.progress_style@ == progress_style_of(file.ui)
            &&& c.nowplaying_show_art == show_art_of(file.ui)
            &&& c.album_art_backend == file.ui.album_art_backend
            &&& c.nowplaying_art_position@ == art_position_of(file.ui)
            &&& c.nowplaying_queue_position@ == queue_position_of(file.ui)
            &&& c.nowplaying_left_width_percent == left_width_percent_of(file.ui)
            &&& c.nowplaying_vertical_fill_top_percent == vertical_fill_top_percent_of(file.ui)
            &&& c.show_fzf_hint == show_fzf_hint_of(file.ui)
            &&& c.lyrics_location@ == lyrics_location_of(file.ui)
            &&& c.visualizer_location@ == vis_location_of(file.ui)
            &&& c.visualizer_type@ == vis_type_of(file.ui)
            &&& c.visualizer_fps == vis_fps_of(file.ui)
            &&& c.visualizer_fft_size == vis_fft_size_of(file.ui)
            &&& views(c.visualizer_colors@) == vis_colors_of(file.ui)
            &&& c.visualizer_color_mode@ == vis_color_mode_of(file.ui)
            &&& c.tab_bar_position@ == tab_bar_position_of(file.ui)
            &&& c.show_volume_indicator == show_volume_indicator_of(file.ui)
            &&& c.now_playing_bar_height == bar_height_of(file.ui)
            &&& c.now_playing_layout@ == layout_of(file.ui)
            &&& c.now_playing_box_location@ == box_location_of(file.ui)
            &&& c.now_playing_show_controls == show_controls_of(file.ui)
            &&& c.now_playing_show_progress == show_progress_of(file.ui)
            &&& c.now_playing_box_include_controls == box_include_controls_of(file.ui)
            &&& c.now_playing_box_include_progress == box_include_progress_of(file.ui)
            &&& views(c.now_playing_lines_row@) == lines_row_of(file.ui)
            &&& views(c.now_playing_lines_boxed@) == lines_boxed_of(file.ui)
            &&& c.cache_enabled == file.cache.enabled
            &&& c.cache_starred == file.cache.cache_starred
            &&& c.cache_starred_albums == file.cache.cache_starred_albums
            &&& c.cache_starred_parallelism == at_least_one(file.cache.cache_starred_parallelism)
            &&& c.lyrics_source == or_default(lyrics_source_of(file.lyrics.source@), LyricsSource::LrcLib)
            &&& c.lyrics_lrclib_url@ == file.lyrics.lrclib_url@
            &&& c.lyrics_cache_enabled == file.lyrics.cache_enabled
            &&& c.library_index_enabled == file.library.enabled
            &&& c.library_index_path@ == file.library.index_path@
            &&& c.library_index_max_age_secs == file.library.max_age_secs
            &&& c.fzf.binary@ == merged_binary(file.library.fzf.binary@, opt_view(file.library.legacy_fzf_binary))
            &&& views(c.fzf.args@) == merged_args(views(file.library.fzf.args@), opt_list_view(file.library.legacy_fzf_args))
            &&& c.fzf.columns == file.library.fzf.columns
            &&& c.library_fetch_album_parallelism == at_least_one(file.library.fetch_album_parallelism)
            &&& c.library_fetch_artist_parallelism == at_least_one(file.library.fetch_artist_parallelism)
            &&& c.library_navidrome_skip_unchanged_scan == file.library.navidrome_skip_unchanged_scan
            &&& c.library_notify_on_forced_index_refresh == file.library.notify_on_forced_index_refresh
            &&& c.home_recent_albums_show_art == home_show_art_of(file.ui)
            &&& c.home_cover_fetch_max_px == cover_fetch_max_px_of(file.ui)
            &&& c.home_top_height_percent == top_height_percent_of(file.ui)
            &&& c.home_panels@ == panels_of(file.ui)
            &&& c.browse_mode == browse_mode_setting(file.ui)
            &&& c.browse_folder_navigation == folder_navigation_of(file.ui)
            &&& c.browse_mouse_wheel_scroll_lines == wheel_lines_of(file.ui)
            &&& c.scrobble_service == resolve_service_spec(file.scrobble.service@)
            &&& (c.scrobble_api_key@, c.scrobble_api_secret@, c.scrobble_session_key@)
                    == credentials_of(file.scrobble.enabled, scrobble_credentials)
            &&& c.scrobble_enabled == (file.scrobble.enabled && c.scrobble_api_key@.len() > 0
                    && c.scrobble_api_secret@.len() > 0 && c.scrobble_session_key@.len() > 0)
            &&& c.scrobble_to_server == file.scrobble.scrobble_to_server
            &&& c.scrobble_local_threshold.min_percent == clamped(file.scrobble.thresholds.local.min_percent as int, 1, 100)
            &&& c.scrobble_local_threshold.max_listen_secs == at_least_one(file.scrobble.thresholds.local.max_listen_seconds as usize)
            &&& c.scrobble_audioscrobbler_rules.listen.min_percent
                    == clamped(file.scrobble.thresholds.audioscrobbler.min_percent as int, 1, 100)
            &&& c.scrobble_audioscrobbler_rules.listen.max_listen_secs
                    == at_least_one(file.scrobble.thresholds.audioscrobbler.max_listen_seconds as usize)
            &&& c.scrobble_audioscrobbler_rules.min_track_secs == file.scrobble.thresholds.audioscrobbler.min_track_seconds
        },
{
    if subsonic_pass.as_str().unicode_len() == 0 {
        return Err(MissingPassword);
    }
    let strip = resolve_strip(&file.ui);
    let np = resolve_now_playing(&file.ui);
    let vis = resolve_visualizer(&file.ui);
    let tabs = resolve_tabs(&file.ui);
    let rating_stars = resolve_rating_stars(&file.theme.icon, &file.ratings);
    let server_alias = match &file.server.alias {
        Some(a) => if trimmed(a.as_str()).unicode_len() > 0 { Some(a.clone()) } else { None },
        None => None,
    };
    let scrobble_service = resolve_scrobble_service(&file.scrobble);
    let (api_key, api_secret, session_key) = if file.scrobble.enabled {
        match scrobble_credentials {
            Some(c) => c,
            None => (String::new(), String::new(), String::new()),
        }
    } else {
        (String::new(), String::new(), String::new())
    };
    let scrobble_enabled = file.scrobble.enabled && api_key.as_str().unicode_len() > 0
        && api_secret.as_str().unicode_len() > 0 && session_key.as_str().unicode_len() > 0;
    let lyrics_source = match LyricsSource::parse(file.lyrics.source.as_str()) {
        Some(s) => s,
        None => LyricsSource::LrcLib,
    };
    let fzf = file.library.resolve_fzf();
    let local = file.scrobble.thresholds.local.resolve();
    let rules = file.scrobble.thresholds.audioscrobbler.resolve();
    Ok(Config {
        subsonic_url: file.server.url,
        subsonic_user: file.server.username,
        subsonic_pass,
        server_alias,
        connection_check_interval_secs: file.server.connection_check_interval_secs,
        default_volume: file.player.default_volume,
        max_bit_rate: file.player.max_bit_rate,
        mpris_enabled: file.player.mpris,
        queue_loop: file.player.queue_loop,
        ratings_enabled: file.ratings.enabled,
        rating_stars,
        radio_enabled: match file.radio.enabled { Some(b) => b, None => default_radio_enabled() },
        radio_fetch_station_icons: match file.radio.fetch_station_icons { Some(b) => b, None => default_radio_fetch_station_icons() },
        keybinds: file.keybinds,
        theme: file.theme,
        lyrics_visible: np.lyrics_visible,
        visualizer_visible: vis.visible,
        lyrics_enabled: np.lyrics_enabled,
        visualizer_enabled: vis.enabled,
        queue_template: np.queue_template,
        progress_style: strip.progress_style,
        nowplaying_show_art: np.show_art,
        album_art_backend: file.ui.album_art_backend,
        nowplaying_art_position: np.art_position,
        nowplaying_queue_position: np.queue_position,
        nowplaying_left_width_percent: np.left_width_percent,
        nowplaying_vertical_fill_top_percent: np.vertical_fill_top_percent,
        show_fzf_hint: np.show_fzf_hint,
        lyrics_location: np.lyrics_location,
        visualizer_location: vis.location,
        visualizer_type: vis.visualizer_type,
        visualizer_fps: vis.fps,
        visualizer_fft_size: vis.fft_size,
        visualizer_colors: vis.colors,
        visualizer_color_mode: vis.color_mode,
        tab_bar_position: tabs.tab_bar_position,
        show_volume_indicator: tabs.show_volume_indicator,
        now_playing_bar_height: strip.bar_height,
        now_playing_layout: strip.layout,
        now_playing_box_location: strip.box_location,
        now_playing_show_controls: strip.show_controls,
        now_playing_show_progress: strip.show_progress,
        now_playing_box_include_controls: strip.box_include_controls,
        now_playing_box_include_progress: strip.box_include_progress,
        now_playing_lines_row: strip.lines_row,
        now_playing_lines_boxed: strip.lines_boxed,
        cache_enabled: file.cache.enabled,
        cache_starred: file.cache.cache_starred,
        cache_starred_albums: file.cache.cache_starred_albums,
        cache_starred_parallelism: max_one(file.cache.cache_starred_parallelism),
        lyrics_source,
        lyrics_lrclib_url: file.lyrics.lrclib_url,
        lyrics_cache_enabled: file.lyrics.cache_enabled,
        library_index_enabled: file.library.enabled,
        library_index_path: file.library.index_path,
        library_index_max_age_secs: file.library.max_age_secs,
        fzf,
        library_fetch_album_parallelism: max_one(file.library.fetch_album_parallelism),
        library_fetch_artist_parallelism: max_one(file.library.fetch_artist_parallelism),
        library_navidrome_skip_unchanged_scan: file.library.navidrome_skip_unchanged_scan,
        library_notify_on_forced_index_refresh: file.library.notify_on_forced_index_refresh,
        home_recent_albums_show_art: tabs.home_recent_albums_show_art,
        home_cover_fetch_max_px: tabs.home_cover_fetch_max_px,
        home_top_height_percent: tabs.home_top_height_percent,
        home_panels: tabs.home_panels,
        browse_mode: tabs.browse_mode,
        browse_folder_navigation: tabs.browse_folder_navigation,
        browse_mouse_wheel_scroll_lines: tabs.browse_mouse_wheel_scroll_lines,
        scrobble_enabled,
        scrobble_service,
        scrobble_api_key: api_key,
        scrobble_api_secret: api_secret,
        scrobble_session_key: session_key,
        scrobble_to_server: file.scrobble.scrobble_to_server,
        scrobble_local_threshold: local,
        scrobble_audioscrobbler_rules: rules,
    })
}

/// Tab bar placement and now-playing height for the screen layout.
#[derive(Debug, Clone, Copy, PartialEq, Eq, Structural)]
pub struct LayoutOptions {
    pub tab_bar_top: bool,
    pub now_playing_bar_height: u16,
}

impl Config {
    /// Tab bar position and now-playing height for the screen layout.
    pub fn layout_options(&self) -> (r: LayoutOptions)
        ensures
            r.tab_bar_top == eq_ignore_case(trim(self.tab_bar_position@), "top"@),
            r.now_playing_bar_height == self.now_playing_bar_height,
    {
        LayoutOptions {
            tab_bar_top: str_eq_ignore_case(trimmed(self.tab_bar_position.as_str()), "top"),
            now_playing_bar_height: self.now_playing_bar_height,
        }
    }
}

/// `s` with every leading copy of `p` removed (`str::trim_start_matches`).
pub open spec fn strip_all_prefix(s: Seq<char>, p: Seq<char>) -> Seq<char>
    decreases s.len(),
{
    if p.len() > 0 && has_prefix(s, p) { strip_all_prefix(s.skip(p.len() as int), p) } else { s }
}

fn trim_start_all<'a>(s: &'a str, p: &str) -> (r: &'a str)
    requires p@.len() > 0,
    ensures r@ == strip_all_prefix(s@, p@),
    decreases s@.len(),
{
    match strip_prefix_str(s, p) {
        Some(rest) => trim_start_all(rest, p),
        None => s,
    }
}

/// The server as the status bar names it: the alias unless it is blank (trimmed), else the
/// URL without its `http://` / `https://` scheme and trailing slashes.
pub open spec fn server_label_of(alias: Option<Seq<char>>, url: Seq<char>) -> Seq<char> {
    match alias {
        Some(a) => if trim(a).len() > 0 {
            trim(a)
        } else {
            trim_end_slashes(strip_all_prefix(strip_all_prefix(url, "http://"@), "https://"@))
        },
        None => trim_end_slashes(strip_all_prefix(strip_all_prefix(url, "http://"@), "https://"@)),
    }
}

fn without_trailing_slashes(s: &str) -> (r: String)
    ensures r@ == trim_end_slashes(s@),
{
    let v = crate::text::chars_of(s);
    let mut e: usize = v.len();
    assert(v@.take(v.len() as int) =~= v@);
    while e > 0 && v[e - 1] == '/'
        invariant
            e <= v.len(),
            v@ == s@,
            trim_end_slashes(v@.take(e as int)) == trim_end_slashes(v@),
        decreases e,
    {
        assert(v@.take(e as int).drop_last() =~= v@.take(e - 1));
        e -= 1;
    }
    String::from_str(s.substring_char(0, e))
}

impl Config {
    /// Server name for status-bar and warning text: the configured alias when set,
    /// otherwise the URL without its scheme. Keeps full URLs (and anything that
    /// could carry credentials) out of user-visible messages.
    pub fn server_label(&self) -> (r: String)
        ensures r@ == server_label_of(opt_view(self.server_alias), self.subsonic_url@),
    {
        if let Some(alias) = &self.server_alias {
            let t = trimmed(alias.as_str());
            if t.unicode_len() > 0 {
                return String::from_str(t);
            }
        }
        proof {
            reveal_strlit("http://");
            reveal_strlit("https://");
        }
        let a = trim_start_all(self.subsonic_url.as_str(), "http://");
        let b = trim_start_all(a, "https://");
        without_trailing_slashes(b)
    }
}

/// Resolved layout numbers stay in their ranges whatever the file says: column split and
/// stacked-pane split 1–99 %, visualizer 1–240 fps with a 1024–4096 window, Home top band
/// 25–75 %, Home cover size 0 (full) or 64–2048 px, at least one wheel line.
pub proof fn resolved_ranges(ui: UiSection)
    ensures
        1 <= left_width_percent_of(ui) <= 99,
        1 <= vertical_fill_top_percent_of(ui) <= 99,
        1 <= vis_fps_of(ui) <= 240,
        1024 <= vis_fft_size_of(ui) <= 4096,
        25 <= top_height_percent_of(ui) <= 75,
        cover_fetch_max_px_of(ui) == 0 || 64 <= cover_fetch_max_px_of(ui) <= 2048,
        wheel_lines_of(ui) >= 1,
{
}

/// For the now-playing strip, a key set under `[ui.nptab.now_playing]` wins over the
/// same key under `[ui.row_now_playing]`, which wins over the default.
pub proof fn now_playing_table_wins(ui: UiSection)
    ensures
        bind(np_sec(ui), |n: UiNpTabNowPlayingSection| n.bar_height) matches Some(h) ==> bar_height_of(ui) == h,
        bind(np_sec(ui), |n: UiNpTabNowPlayingSection| n.bar_height) is None ==>
            bar_height_of(ui) == or_default(bind(ui.row_now_playing, |r: UiRowNowPlayingSection| r.bar_height), 4u16),
        np_str(ui, |n: UiNpTabNowPlayingSection| n.layout) matches Some(l) ==> layout_of(ui) == l,
        np_str(ui, |n: UiNpTabNowPlayingSection| n.progress_style) matches Some(p) ==> progress_style_of(ui) == p,
{
}

/// Non-empty `lines` under `[ui.nptab.now_playing]` are the boxed pane's lines; without
/// them (absent or empty) the boxed pane shows the row strip's lines. Non-empty `lines`
/// under `[ui.row_now_playing]` are the row strip's lines; without them the row strip
/// shows the built-in lines.
pub proof fn strip_lines_from_their_tables(ui: UiSection)
    ensures
        ui.nptab matches Some(t) ==> (t.now_playing matches Some(n) ==> (n.lines matches Some(v)
            ==> (v@.len() > 0 ==> lines_boxed_of(ui) == views(v@)))),
        (match bind(np_sec(ui), |n: UiNpTabNowPlayingSection| n.lines) {
            Some(v) => v@.len() == 0,
            None => true,
        }) ==> lines_boxed_of(ui) == lines_row_of(ui),
        ui.row_now_playing matches Some(r) ==> (r.lines matches Some(v)
            ==> (v@.len() > 0 ==> lines_row_of(ui) == views(v@))),
        (match bind(ui.row_now_playing, |r: UiRowNowPlayingSection| r.lines) {
            Some(v) => v@.len() == 0,
            None => true,
        }) ==> lines_row_of(ui) == default_lines_spec(),
{
}

/// Without an explicit queue side, the queue column takes the side opposite the art
/// column, and the lyrics pane (without its own side) follows the queue column.
pub proof fn queue_opposite_art(ui: UiSection)
    requires
        bind(queue_sec(ui), |q: UiNpTabQueueSection| q.position) is None,
        bind(lyrics_sec(ui), |l: UiNpTabLyricsSection| l.location) is None,
    ensures
        eq_ignore_case(trim(art_position_of(ui)), "right"@) ==> queue_position_of(ui) == "left"@,
        !eq_ignore_case(trim(art_position_of(ui)), "right"@) ==> queue_position_of(ui) == "right"@,
        lyrics_location_of(ui) == queue_position_of(ui),
{
}
} // verus!
