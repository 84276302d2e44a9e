use ratune::config::{
    BrowseMode, LyricsSource, HomePanel, parse_home_panels, ThemeSection, ThemePreset,
    theme_preset_from_section, ThemeIconSection, RatingsSection, resolve_rating_stars,
    LibrarySection, LibraryFzfSection, default_fzf_args, ScrobbleThresholdsSection,
    ScrobbleLocalThresholdSection, ScrobbleAudioscrobblerThresholdSection, ListenThreshold,
    AudioscrobblerRules, ScrobbleService, ScrobbleSection, scrobble_keyring_label,
    subsonic_keyring_user, ServerSection, resolve_subsonic_secret, SecretStep, KeyringSetupError,
    resolve_scrobble_api_secret, resolve_scrobble_session_key, resolve_scrobble_credentials,
    secret_from_output, KeyringRead, subsonic_keyring_next, SubsonicKeyringNext,
    scrobble_keyring_secret, ScrobbleKeyringError, FzfColumns, default_now_playing_lines,
    LyricsSection, CacheSection, PlayerSection,
};

#[test]
fn browse_mode_parses_artists() {
    assert_eq!(BrowseMode::parse("artists"), Some(BrowseMode::Artists));
    assert_eq!(BrowseMode::parse("bogus"), None);
}

#[test]
fn lyrics_source_parses_supported_values() {
    assert_eq!(LyricsSource::parse("lrclib"), Some(LyricsSource::LrcLib));
    assert_eq!(LyricsSource::parse("netease"), Some(LyricsSource::Netease));
    assert_eq!(LyricsSource::parse("163"), Some(LyricsSource::Netease));
    assert_eq!(
        LyricsSource::parse("subsonic"),
        Some(LyricsSource::Subsonic)
    );
    assert_eq!(LyricsSource::parse("unknown"), None);
}

#[test]
fn lyrics_source_cache_dir_names() {
    assert_eq!(LyricsSource::LrcLib.cache_dir_name(), "lrclib");
    assert_eq!(LyricsSource::Netease.cache_dir_name(), "netease");
    assert_eq!(LyricsSource::Subsonic.cache_dir_name(), "subsonic");
}

#[test]
fn setting_words_ignore_case_and_surrounding_space() {
    assert_eq!(LyricsSource::parse("  LRC-Lib \n"), Some(LyricsSource::LrcLib));
    assert_eq!(LyricsSource::parse("Server"), Some(LyricsSource::Subsonic));
    assert_eq!(BrowseMode::parse(" Genres "), Some(BrowseMode::Genre));
    assert_eq!(BrowseMode::parse("FILE"), Some(BrowseMode::Files));
    assert_eq!(HomePanel::parse("Tracks"), Some(HomePanel::RecentTracks));
    assert_eq!(HomePanel::parse("nope"), None);
}

fn strings(v: &[&str]) -> Vec<String> {
    v.iter().map(|s| s.to_string()).collect()
}

#[test]
fn home_panels_accept_only_a_permutation() {
    let default = [HomePanel::RecentAlbums, HomePanel::RecentTracks, HomePanel::Rediscover];
    assert_eq!(parse_home_panels(None), default);
    assert_eq!(
        parse_home_panels(Some(strings(&["rediscover", "albums", "recent_tracks"]))),
        [HomePanel::Rediscover, HomePanel::RecentAlbums, HomePanel::RecentTracks]
    );
    // A repeated panel, an unknown name or the wrong count gives the default layout.
    assert_eq!(parse_home_panels(Some(strings(&["albums", "albums", "tracks"]))), default);
    assert_eq!(parse_home_panels(Some(strings(&["albums", "tracks", "other"]))), default);
    assert_eq!(parse_home_panels(Some(strings(&["albums", "tracks"]))), default);
}

#[test]
fn theme_preset_words() {
    let mut sec = ThemeSection::default();
    assert_eq!(theme_preset_from_section(&sec), ThemePreset::Dynamic);
    sec.preset = Some(" Static ".into());
    assert_eq!(theme_preset_from_section(&sec), ThemePreset::Static);
    sec.preset = Some("os".into());
    assert_eq!(theme_preset_from_section(&sec), ThemePreset::Terminal);
    sec.preset = Some("sparkly".into());
    assert_eq!(theme_preset_from_section(&sec), ThemePreset::Dynamic);
}

#[test]
fn rating_glyphs_prefer_theme_icon_over_legacy_ratings() {
    let mut ratings = RatingsSection::default();
    ratings.star_filled = "★".into();
    ratings.star_empty = "☆".into();
    let icon = ThemeIconSection {
        rating_filled: Some("*".into()),
        rating_empty: Some("-".into()),
        rating_bracket_open: Some("<".into()),
        rating_bracket_close: Some(">".into()),
        ..Default::default()
    };
    let stars = resolve_rating_stars(&icon, &ratings);
    assert_eq!(stars.filled, "*");
    assert_eq!(stars.empty, "-");
    assert_eq!(stars.bracket_open, "<");
    assert_eq!(stars.bracket_close, ">");
}

#[test]
fn rating_glyphs_legacy_ratings_section_still_works() {
    let ratings = RatingsSection {
        enabled: false,
        star_filled: "★".into(),
        star_empty: "☆".into(),
        bracket_open: "".into(),
        bracket_close: "".into(),
    };
    let stars = resolve_rating_stars(&ThemeIconSection::default(), &ratings);
    assert_eq!(stars.filled, "★");
    assert_eq!(stars.empty, "☆");
    assert_eq!(stars.bracket_open, "");
    assert_eq!(stars.bracket_close, "");
}

#[test]
fn ratings_defaults_disabled() {
    let r = RatingsSection::default();
    assert!(!r.enabled);
    assert_eq!(r.star_filled, "⭑");
    assert_eq!(r.star_empty, "⭒");
    assert_eq!(r.bracket_open, "[");
    assert_eq!(r.bracket_close, "]");
}

#[test]
fn theme_border_prefers_border_lines_over_legacy() {
    let mut theme = ThemeSection::default();
    theme.border_type = Some("double".into());
    theme.border_lines.style = Some("ascii".into());
    theme.icon.border_type = Some("thick".into());
    assert_eq!(theme.border_source().border_type, Some("ascii"));
}

#[test]
fn theme_border_legacy_flat_and_icon_keys_still_work() {
    let mut flat = ThemeSection::default();
    flat.border_type = Some("ascii".into());
    assert_eq!(flat.border_source().border_type, Some("ascii"));

    let mut icon = ThemeSection::default();
    icon.icon.border_type = Some("ascii".into());
    assert_eq!(icon.border_source().border_type, Some("ascii"));
}

#[test]
fn border_glyphs_fall_back_one_key_at_a_time() {
    let mut theme = ThemeSection::default();
    theme.border_top_left = Some("+".into());
    theme.icon.border_top_left = Some("#".into());
    theme.icon.border_vertical = Some("|".into());
    let src = theme.border_source();
    assert_eq!(src.top_left, Some("+"));
    assert_eq!(src.vertical, Some("|"));
    assert_eq!(src.horizontal, None);
    assert_eq!(src.border_type, None);
}

#[test]
fn parses_library_fzf_nested() {
    let mut library = LibrarySection::default();
    library.fzf.binary = "sk".into();
    library.fzf.columns.title = 0;
    let fzf = library.resolve_fzf();
    assert_eq!(fzf.binary, "sk");
    assert_eq!(fzf.columns.title, 0);
    assert_eq!(fzf.args, default_fzf_args());
}

#[test]
fn library_fzf_nested_overrides_legacy() {
    let mut library = LibrarySection::default();
    library.legacy_fzf_binary = Some("legacy-sk".into());
    library.fzf.binary = "sk".into();
    assert_eq!(library.resolve_fzf().binary, "sk");
}

#[test]
fn library_fzf_legacy_flat_keys() {
    let mut library = LibrarySection::default();
    library.legacy_fzf_binary = Some("sk".into());
    assert_eq!(library.resolve_fzf().binary, "sk");
}

#[test]
fn library_fzf_legacy_args_fill_default_args() {
    let mut library = LibrarySection::default();
    library.legacy_fzf_args = Some(strings(&["--multi"]));
    assert_eq!(library.resolve_fzf().args, strings(&["--multi"]));
    library.fzf.args = strings(&["--exact"]);
    assert_eq!(library.resolve_fzf().args, strings(&["--exact"]));
}

#[test]
fn library_defaults() {
    let fzf = LibraryFzfSection::default();
    assert_eq!(fzf.binary, "fzf");
    assert_eq!(
        fzf.args,
        strings(&[
            "--delimiter=\t",
            "--with-nth=2,3,4,5",
            "--nth=1,2,3",
            "--multi",
            "--expect=ctrl-r",
            "--border=rounded",
        ])
    );
    assert_eq!(fzf.columns, FzfColumns { artist: 26, album: 28, title: 36, duration: 6 });
    let lib = LibrarySection::default();
    assert!(lib.enabled);
    assert_eq!(lib.max_age_secs, 86400);
    assert_eq!(lib.fetch_album_parallelism, 12);
    assert_eq!(lib.fetch_artist_parallelism, 4);
    assert!(lib.notify_on_forced_index_refresh);
}

#[test]
fn section_defaults() {
    let lyrics = LyricsSection::default();
    assert_eq!(lyrics.source, "lrclib");
    assert_eq!(lyrics.lrclib_url, "https://lrclib.net");
    assert!(lyrics.cache_enabled);
    let cache = CacheSection::default();
    assert!(cache.enabled);
    assert_eq!(cache.cache_starred_parallelism, 2);
    let player = PlayerSection::default();
    assert_eq!(player.default_volume, 70);
    assert!(player.queue_loop);
    let server = ServerSection::default();
    assert_eq!(server.password_keyring, "");
    assert_eq!(server.connection_check_interval_secs, 0);
    assert_eq!(ratune::config::default_password_keyring(), "keyutils");
    assert_eq!(ratune::config::default_connection_check_interval_secs(), 45);
    assert_eq!(default_now_playing_lines(), strings(&["$b%t$/b", "%a", "%b"]));
}

#[test]
fn parses_scrobble_thresholds() {
    let mut sec = ScrobbleThresholdsSection::default();
    sec.local = ScrobbleLocalThresholdSection { min_percent: 40, max_listen_seconds: 45 };
    sec.audioscrobbler = ScrobbleAudioscrobblerThresholdSection {
        min_percent: 60,
        max_listen_seconds: 180,
        min_track_seconds: 20,
    };
    let local = sec.local.resolve();
    assert_eq!(local.min_percent, 40);
    assert_eq!(local.max_listen_secs, 45);
    let rules = sec.audioscrobbler.resolve();
    assert_eq!(rules.listen.min_percent, 60);
    assert_eq!(rules.listen.max_listen_secs, 180);
    assert_eq!(rules.min_track_secs, 20);
}

#[test]
fn scrobble_threshold_defaults_match_lastfm() {
    let sec = ScrobbleThresholdsSection::default();
    let local = sec.local.resolve();
    assert_eq!(local, ListenThreshold::local_default());
    let rules = sec.audioscrobbler.resolve();
    assert_eq!(rules, AudioscrobblerRules::default());
}

#[test]
fn scrobble_thresholds_are_clamped() {
    let local = ScrobbleLocalThresholdSection { min_percent: 0, max_listen_seconds: 0 }.resolve();
    assert_eq!(local, ListenThreshold { min_percent: 1, max_listen_secs: 1 });
    let rules = ScrobbleAudioscrobblerThresholdSection {
        min_percent: 250,
        max_listen_seconds: 0,
        min_track_seconds: 0,
    }
    .resolve();
    assert_eq!(rules.listen, ListenThreshold { min_percent: 100, max_listen_secs: 1 });
    assert_eq!(rules.min_track_secs, 0);
}

#[test]
fn keyring_labels() {
    assert_eq!(subsonic_keyring_user("https://music.example/", " alice "), "https://music.example|alice");
    assert_eq!(subsonic_keyring_user("http://x//", "bob"), "http://x|bob");
    assert_eq!(scrobble_keyring_label(ScrobbleService::LastFm, "session"), "lastfm|session");
    assert_eq!(scrobble_keyring_label(ScrobbleService::LibreFm, "api_secret"), "librefm|api_secret");
    assert_eq!(ScrobbleService::parse(" LibreFM "), Some(ScrobbleService::LibreFm));
    assert_eq!(ScrobbleService::parse("spotify"), None);
}

fn server(url: &str, user: &str, password: &str, command: &str) -> ServerSection {
    ServerSection {
        url: url.into(),
        username: user.into(),
        password: password.into(),
        password_command: command.into(),
        ..ServerSection::default()
    }
}

#[test]
fn subsonic_secret_resolution_order() {
    assert_eq!(
        resolve_subsonic_secret(&server("u", "a", " secret ", "cmd")),
        Ok(SecretStep::Ready("secret".into()))
    );
    assert_eq!(
        resolve_subsonic_secret(&server("u", "a", "  ", " printf x ")),
        Ok(SecretStep::RunCommand("printf x".into()))
    );
    assert_eq!(
        resolve_subsonic_secret(&server("http://m:4533/", " alice ", "", "")),
        Ok(SecretStep::Keyring("http://m:4533|alice".into()))
    );
    assert_eq!(resolve_subsonic_secret(&server("", " ", "", "")), Err(KeyringSetupError::MissingUrlAndUser));
    assert_eq!(resolve_subsonic_secret(&server("", "a", "", "")), Err(KeyringSetupError::MissingUrl));
    assert_eq!(resolve_subsonic_secret(&server("u", "", "", "")), Err(KeyringSetupError::MissingUser));
}

#[test]
fn scrobble_secret_resolution_order() {
    let mut sec = ScrobbleSection::default();
    sec.api_key = " key ".into();
    sec.api_secret_command = "printf '%s' 'shh-secret'".into();
    assert_eq!(
        resolve_scrobble_api_secret(&sec),
        SecretStep::RunCommand("printf '%s' 'shh-secret'".into())
    );
    sec.api_secret = " shh ".into();
    assert_eq!(resolve_scrobble_api_secret(&sec), SecretStep::Ready("shh".into()));
    assert_eq!(resolve_scrobble_session_key(&sec), SecretStep::Keyring("lastfm|session".into()));
    sec.service = "librefm".into();
    let (key, secret, session) = resolve_scrobble_credentials(&sec).expect("key set");
    assert_eq!(key, "key");
    assert_eq!(secret, SecretStep::Ready("shh".into()));
    assert_eq!(session, SecretStep::Keyring("librefm|session".into()));
    sec.api_key = "  ".into();
    assert!(resolve_scrobble_credentials(&sec).is_err());
}

#[test]
fn secrets_from_outputs_and_keyring() {
    assert_eq!(secret_from_output(" from-cmd\n"), Some("from-cmd".to_string()));
    assert_eq!(secret_from_output(" \n"), None);
    assert_eq!(subsonic_keyring_next(KeyringRead::Found(" pw ".into())), SubsonicKeyringNext::Use("pw".into()));
    assert_eq!(subsonic_keyring_next(KeyringRead::Found(" ".into())), SubsonicKeyringNext::PromptAndStore);
    assert_eq!(subsonic_keyring_next(KeyringRead::NoEntry), SubsonicKeyringNext::PromptAndStore);
    assert_eq!(subsonic_keyring_next(KeyringRead::Unavailable), SubsonicKeyringNext::PromptThisSession);
    assert_eq!(subsonic_keyring_next(KeyringRead::NoStore), SubsonicKeyringNext::PromptThisSession);
    assert_eq!(subsonic_keyring_next(KeyringRead::Failed), SubsonicKeyringNext::Fail);
    assert_eq!(scrobble_keyring_secret(KeyringRead::Found("k ".into())), Ok("k".to_string()));
    assert_eq!(scrobble_keyring_secret(KeyringRead::Found("".into())), Err(ScrobbleKeyringError::EmptyEntry));
    assert_eq!(scrobble_keyring_secret(KeyringRead::NoEntry), Err(ScrobbleKeyringError::NotInKeyring));
    assert_eq!(scrobble_keyring_secret(KeyringRead::NoStore), Err(ScrobbleKeyringError::NotConfigured));
    assert_eq!(scrobble_keyring_secret(KeyringRead::Failed), Err(ScrobbleKeyringError::KeyringFailed));
}

#[test]
fn lyrics_source_reads_back_its_cache_dir_name() {
    for src in [LyricsSource::LrcLib, LyricsSource::Netease, LyricsSource::Subsonic] {
        assert_eq!(LyricsSource::parse(src.cache_dir_name()), Some(src));
        let shouted = format!("  {}\t", src.cache_dir_name().to_ascii_uppercase());
        assert_eq!(LyricsSource::parse(&shouted), Some(src));
    }
}
