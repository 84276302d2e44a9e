use ratune::config::{
    FileConfig, UiSection, UiNpTabSection, UiNpTabNowPlayingSection, UiRowNowPlayingSection,
    UiNpTabArtSection, UiNpTabQueueSection, UiNpTabLyricsSection, UiNpTabLayoutSection,
    UiNpTabVisualizerSection, UiHomeTabSection, UiHomeRecentAlbumsSection, UiHomeLayoutSection,
    UiBrowseTabSection, UiGeneralSection, HomePanel, BrowseMode, LyricsSource, ScrobbleService,
};
use ratune::settings::{resolve_config, MissingPassword, Config};

fn strings(v: &[&str]) -> Vec<String> {
    v.iter().map(|s| s.to_string()).collect()
}

fn resolved(file: FileConfig) -> Config {
    resolve_config(file, "pw".into(), None).expect("password given")
}

#[test]
fn empty_password_is_refused() {
    assert_eq!(resolve_config(FileConfig::default(), String::new(), None).err(), Some(MissingPassword));
}

#[test]
fn defaults_of_an_empty_file() {
    let c = resolved(FileConfig::default());
    assert_eq!(c.subsonic_pass, "pw");
    assert_eq!(c.progress_style, "██░");
    assert_eq!(c.now_playing_bar_height, 4);
    assert_eq!(c.now_playing_layout, "row");
    assert_eq!(c.now_playing_box_location, "right");
    assert!(c.now_playing_show_controls && c.now_playing_show_progress);
    assert!(!c.now_playing_box_include_controls && !c.now_playing_box_include_progress);
    assert_eq!(c.now_playing_lines_row, strings(&["$b%t$/b", "%a", "%b"]));
    assert_eq!(c.now_playing_lines_boxed, c.now_playing_lines_row);
    assert!(c.nowplaying_show_art);
    assert_eq!(c.nowplaying_art_position, "left");
    assert_eq!(c.nowplaying_queue_position, "right");
    assert_eq!(c.lyrics_location, "right");
    assert_eq!(c.nowplaying_left_width_percent, 50);
    assert_eq!(c.nowplaying_vertical_fill_top_percent, 50);
    assert_eq!(c.visualizer_location, "queue");
    assert_eq!(c.visualizer_type, "spectrum");
    assert_eq!(c.visualizer_fps, 30);
    assert_eq!(c.visualizer_fft_size, 2048);
    assert_eq!(c.visualizer_colors, strings(&["accent"]));
    assert_eq!(c.visualizer_color_mode, "accent");
    assert!(c.visualizer_enabled && !c.visualizer_visible);
    assert!(c.lyrics_enabled && !c.lyrics_visible);
    assert_eq!(c.queue_template, "");
    assert_eq!(c.tab_bar_position, "bottom");
    assert!(c.show_volume_indicator);
    assert!(c.home_recent_albums_show_art);
    assert_eq!(c.home_cover_fetch_max_px, 320);
    assert_eq!(c.home_top_height_percent, 50);
    assert_eq!(c.home_panels, [HomePanel::RecentAlbums, HomePanel::RecentTracks, HomePanel::Rediscover]);
    assert_eq!(c.browse_mode, BrowseMode::Artists);
    assert_eq!(c.browse_mouse_wheel_scroll_lines, 1);
    assert!(c.radio_enabled && c.radio_fetch_station_icons);
    assert_eq!(c.lyrics_source, LyricsSource::LrcLib);
    assert_eq!(c.scrobble_service, ScrobbleService::LastFm);
    assert!(!c.scrobble_enabled);
    assert_eq!(c.rating_stars.filled, "⭑");
    assert_eq!(c.fzf.binary, "fzf");
    assert_eq!(c.cache_starred_parallelism, 2);
    assert_eq!(c.library_fetch_album_parallelism, 12);
    assert_eq!(c.scrobble_local_threshold.max_listen_secs, 30);
    assert_eq!(c.scrobble_audioscrobbler_rules.listen.max_listen_secs, 240);
}

#[test]
fn now_playing_table_wins_over_row_table() {
    let mut file = FileConfig::default();
    file.ui.row_now_playing = Some(UiRowNowPlayingSection {
        bar_height: Some(6),
        layout: Some("boxed".into()),
        progress_style: Some("=- ".into()),
        show_controls: Some(false),
        lines: Some(strings(&["%t"])),
        ..Default::default()
    });
    file.ui.nptab = Some(UiNpTabSection {
        now_playing: Some(UiNpTabNowPlayingSection {
            bar_height: Some(3),
            lines: Some(vec![]),
            ..Default::default()
        }),
        ..Default::default()
    });
    let c = resolved(file);
    assert_eq!(c.now_playing_bar_height, 3);
    assert_eq!(c.now_playing_layout, "boxed");
    assert_eq!(c.progress_style, "=- ");
    assert!(!c.now_playing_show_controls);
    assert_eq!(c.now_playing_lines_row, strings(&["%t"]));
    assert_eq!(c.now_playing_lines_boxed, strings(&["%t"]));
}

#[test]
fn queue_and_lyrics_follow_the_art_column() {
    let mut file = FileConfig::default();
    file.ui.nptab = Some(UiNpTabSection {
        art: Some(UiNpTabArtSection { show: Some(false), position: Some(" RIGHT ".into()) }),
        lyrics_pane: Some(UiNpTabLyricsSection { location: Some("  ".into()), ..Default::default() }),
        queue: Some(UiNpTabQueueSection { position: None, queue_template: Some("{n}{title}".into()) }),
        queue_template: Some("ignored".into()),
        ..Default::default()
    });
    let c = resolved(file);
    assert!(!c.nowplaying_show_art);
    assert_eq!(c.nowplaying_queue_position, "left");
    assert_eq!(c.lyrics_location, "left");
    assert_eq!(c.queue_template, "{n}{title}");
}

#[test]
fn numbers_are_clamped() {
    let mut file = FileConfig::default();
    file.ui.nptab = Some(UiNpTabSection {
        layout: Some(UiNpTabLayoutSection { left_width_percent: Some(0), vertical_fill_top_percent: Some(120) }),
        visualizer_pane: Some(UiNpTabVisualizerSection {
            fps: Some(1000),
            fft_size: Some(16),
            visualizer_type: Some("Wave_Filled".into()),
            colors: Some(vec![]),
            ..Default::default()
        }),
        ..Default::default()
    });
    file.ui.hometab = Some(UiHomeTabSection {
        recent_albums: Some(UiHomeRecentAlbumsSection { show_art: None, cover_fetch_max_px: Some(10) }),
        layout: Some(UiHomeLayoutSection {
            top_height_percent: Some(90),
            panels: Some(strings(&["tracks", "rediscover", "albums"])),
        }),
    });
    file.ui.browsetab = Some(UiBrowseTabSection {
        folder_navigation: Some(true),
        mode: Some("files".into()),
        mouse_wheel_scroll_lines: Some(0),
    });
    file.ui.general = Some(UiGeneralSection { tab_bar_position: Some("Top".into()), show_volume_indicator: Some(false) });
    file.cache.cache_starred_parallelism = 0;
    let c = resolved(file);
    assert_eq!(c.nowplaying_left_width_percent, 1);
    assert_eq!(c.nowplaying_vertical_fill_top_percent, 99);
    assert_eq!(c.visualizer_fps, 240);
    assert_eq!(c.visualizer_fft_size, 1024);
    assert_eq!(c.visualizer_type, "wave");
    assert_eq!(c.visualizer_colors, strings(&["accent"]));
    assert_eq!(c.home_cover_fetch_max_px, 64);
    assert_eq!(c.home_top_height_percent, 75);
    assert_eq!(c.home_panels, [HomePanel::RecentTracks, HomePanel::Rediscover, HomePanel::RecentAlbums]);
    assert_eq!(c.browse_mode, BrowseMode::Files);
    assert!(c.browse_folder_navigation);
    assert_eq!(c.browse_mouse_wheel_scroll_lines, 1);
    assert!(!c.show_volume_indicator);
    assert!(c.layout_options().tab_bar_top);
    assert_eq!(c.cache_starred_parallelism, 1);
}

#[test]
fn scrobbling_needs_all_three_credentials() {
    let mut file = FileConfig::default();
    file.scrobble.enabled = true;
    file.scrobble.service = "librefm".into();
    let c = resolve_config(file.clone(), "pw".into(), Some(("k".into(), "s".into(), "".into()))).unwrap();
    assert!(!c.scrobble_enabled);
    assert_eq!(c.scrobble_service, ScrobbleService::LibreFm);
    let c = resolve_config(file.clone(), "pw".into(), Some(("k".into(), "s".into(), "x".into()))).unwrap();
    assert!(c.scrobble_enabled);
    assert_eq!(c.scrobble_session_key, "x");
    file.scrobble.enabled = false;
    let c = resolve_config(file, "pw".into(), Some(("k".into(), "s".into(), "x".into()))).unwrap();
    assert!(!c.scrobble_enabled);
    assert_eq!(c.scrobble_api_key, "");
}

#[test]
fn server_label_hides_the_scheme() {
    let mut file = FileConfig::default();
    file.server.url = "https://music.example:4533/".into();
    let c = resolved(file.clone());
    assert_eq!(c.server_label(), "music.example:4533");
    file.server.alias = Some("  ".into());
    let c = resolved(file.clone());
    assert_eq!(c.server_alias, None);
    assert_eq!(c.server_label(), "music.example:4533");
    file.server.alias = Some(" Home ".into());
    let c = resolved(file);
    assert_eq!(c.server_label(), "Home");
}
