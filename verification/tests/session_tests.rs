use ratune::media::{Song, QueueState, PlayRecord, PlayHistory};
use ratune::nav::{Tab, BrowserColumn, Direction, HomeSection, HomeState, RecentAlbum};
use ratune::session::{
    TabView, switch_tab, go_to_tab, TrackEnd, on_track_ended, queue_songs, ArtStep, track_start_plan,
    GlobalConfirm, LibraryCommand, LibraryOutcome, library_command, RatingOutcome, rate_item,
    is_radio_song_id, PlayPauseStep, play_pause, volume_step, step_track, add_song, append_album,
    toggle_help, help_scrolled, lyrics_scrolled, toggle_lyrics, toggle_visualizer, FolderToggle,
    toggle_browser_folder, home_album_to_queue,
};
use ratune::config::BrowseMode;
use ratune::home::{
    recent_tracks, refresh_home, move_home_cursor, move_album_list, move_album_strip, album_side_step,
    select_home, HomeChoice, home_section_step,
};
use ratune::browse::{
    move_in_filtered_column, BrowserSelection, navigate_browser_column, find_first, confirm_browser_search,
    confirm_queue_search, artists_arrived, albums_arrived, tracks_arrived, SearchEdit, SearchKey,
    SearchEffect, search_key,
};
use ratune::playlists::{
    PlaylistCursor, navigate_playlists, PlaylistInput, PlaylistEdit, PlaylistRequest, edit_playlist,
    PlaylistAddition, picker_choice, playlist_created, playlist_deleted, playlist_renamed,
    playlist_track_removed, favorites_to_queue, FavoritesNote,
};
use ratune::session::{connectivity_changed, ConnectivityNote};
use ratune::session::{startup_ping_ok, startup_unreachable_text};
use ratune::library::Artist;
use ratune::session::{radio_stations_arrived, radio_change_answered};
use ratune::session::{artist_tracks_arrived, library_append_arrived};

fn song(id: &str) -> Song {
    Song { id: id.into(), title: id.into(), ..Default::default() }
}

fn queue_of(ids: &[&str], cursor: usize, looping: bool) -> QueueState {
    let mut q = QueueState::default();
    for id in ids {
        q.push(song(id));
    }
    q.cursor = cursor;
    q.scroll = 1;
    q.loop_enabled = looping;
    q
}

fn record(n: usize) -> PlayRecord {
    PlayRecord {
        song_id: format!("s{n}"),
        album_id: format!("al{n}"),
        artist_id: format!("ar{n}"),
        artist_name: format!("Artist {n}"),
        album_name: format!("Album {n}"),
        track_name: format!("Track {n}"),
        played_at: n as i64,
        duration_secs: 180,
    }
}

fn album(id: &str, artist: &str) -> RecentAlbum {
    RecentAlbum { album_id: id.into(), album_name: id.into(), artist_name: artist.into() }
}

fn busy_view(tab: Tab) -> TabView {
    TabView {
        active_tab: tab,
        search_filter: Some("abba".into()),
        search_filter_column: Some(BrowserColumn::Artists),
        playlist_overlay_visible: true,
        playlist_picker_open: true,
        radio_picker_visible: true,
        radio_editing: true,
    }
}

fn names(v: &[&str]) -> Vec<String> {
    v.iter().map(|s| s.to_string()).collect()
}

#[test]
fn switch_tab_cycles_and_resets_overlays_and_search() {
    let mut v = busy_view(Tab::Home);
    assert!(!switch_tab(&mut v, false));
    assert_eq!(v.active_tab, Tab::Browser);
    assert!(v.search_filter.is_none() && v.search_filter_column.is_none());
    assert!(!v.playlist_overlay_visible && !v.playlist_picker_open && !v.radio_picker_visible && !v.radio_editing);
    assert!(!switch_tab(&mut v, false));
    assert_eq!(v.active_tab, Tab::NowPlaying);
    assert!(switch_tab(&mut v, false));
    assert_eq!(v.active_tab, Tab::Home);
    let mut w = busy_view(Tab::Browser);
    assert!(switch_tab(&mut w, true));
    assert_eq!(w.active_tab, Tab::Home);
    assert!(!switch_tab(&mut w, true));
    assert_eq!(w.active_tab, Tab::NowPlaying);
}

#[test]
fn go_to_tab_closes_overlays() {
    let mut v = busy_view(Tab::NowPlaying);
    assert!(go_to_tab(&mut v, Tab::Home));
    assert_eq!(v.active_tab, Tab::Home);
    assert!(!v.radio_picker_visible && v.search_filter.is_none());
    let mut w = busy_view(Tab::Home);
    assert!(!go_to_tab(&mut w, Tab::Browser));
    assert_eq!(w.active_tab, Tab::Browser);
}

#[test]
fn track_end_advances_within_the_queue() {
    let mut q = queue_of(&["a", "b", "c"], 0, false);
    assert_eq!(on_track_ended(&mut q, false), TrackEnd::PlayCurrent);
    assert_eq!(q.cursor, 1);
    assert_eq!(q.scroll, 1);
}

#[test]
fn track_end_loops_back_to_first_song() {
    let mut q = queue_of(&["a", "b", "c"], 2, true);
    assert_eq!(on_track_ended(&mut q, false), TrackEnd::PlayCurrent);
    assert_eq!(q.cursor, 0);
    assert_eq!(q.scroll, 0);
}

#[test]
fn track_end_stops_at_end_without_loop() {
    let mut q = queue_of(&["a", "b", "c"], 2, false);
    assert_eq!(on_track_ended(&mut q, false), TrackEnd::Stop);
    assert_eq!(q.cursor, 2);
    assert_eq!(q.scroll, 1);
    let mut empty = queue_of(&[], 0, true);
    assert_eq!(on_track_ended(&mut empty, false), TrackEnd::Stop);
    assert_eq!(empty.cursor, 0);
}

#[test]
fn radio_track_end_stops_and_keeps_queue() {
    let mut q = queue_of(&["a", "b"], 0, true);
    assert_eq!(on_track_ended(&mut q, true), TrackEnd::Stop);
    assert_eq!(q.cursor, 0);
    assert_eq!(q.songs.len(), 2);
}

#[test]
fn queue_next_and_peek() {
    let mut q = queue_of(&["a", "b"], 0, false);
    assert_eq!(q.peek_next().map(|s| s.id.as_str()), Some("b"));
    assert!(q.next());
    assert_eq!(q.current().map(|s| s.id.as_str()), Some("b"));
    assert!(q.peek_next().is_none());
    assert!(!q.next());
    assert_eq!(q.cursor, 1);
}

#[test]
fn home_lists_last_ten_plays_newest_first() {
    let history = PlayHistory { records: (0..12).map(record).collect() };
    let r = recent_tracks(&history);
    assert_eq!(r.len(), 10);
    assert_eq!(r[0].song_id, "s11");
    assert_eq!(r[9].song_id, "s2");
    let short = PlayHistory { records: (0..3).map(record).collect() };
    let r = recent_tracks(&short);
    assert_eq!(r.iter().map(|x| x.song_id.as_str()).collect::<Vec<_>>(), ["s2", "s1", "s0"]);
}

#[test]
fn refresh_home_keeps_selection_when_strip_unchanged() {
    let mut home = HomeState::default();
    home.recent_albums = vec![album("x", "X"), album("y", "Y"), album("z", "Z")];
    home.album_selected_index = 5;
    home.album_scroll_offset = 4;
    home.active_section = HomeSection::RecentTracks;
    home.selected_index = 7;
    let history = PlayHistory { records: (0..3).map(record).collect() };
    refresh_home(&mut home, &history, vec![album("x", "X"), album("y", "Y"), album("z", "Z")], vec![], vec![]);
    assert_eq!(home.album_selected_index, 2);
    assert_eq!(home.album_scroll_offset, 2);
    assert_eq!(home.active_section, HomeSection::RecentTracks);
    assert_eq!(home.selected_index, 2);
    assert_eq!(home.recent_tracks.len(), 3);
}

#[test]
fn refresh_home_resets_when_strip_changes() {
    let mut home = HomeState::default();
    home.recent_albums = vec![album("x", "X")];
    home.album_selected_index = 0;
    home.active_section = HomeSection::Rediscover;
    home.selected_index = 3;
    let history = PlayHistory::default();
    refresh_home(&mut home, &history, vec![album("y", "Y"), album("x", "X")], vec![],
        vec![("a".into(), "A".into())]);
    assert_eq!(home.album_selected_index, 0);
    assert_eq!(home.album_scroll_offset, 0);
    assert_eq!(home.active_section, HomeSection::RecentAlbums);
    assert_eq!(home.selected_index, 0);
    assert_eq!(home.rediscover.len(), 1);
}

#[test]
fn filtered_column_moves_among_shown_rows() {
    let n = names(&["Abba", "Beatles", "ABC", "Cab"]);
    assert_eq!(move_in_filtered_column(&n, Some("ab"), Some(0), Direction::Down, 1, 10), Some(2));
    assert_eq!(move_in_filtered_column(&n, Some("ab"), Some(2), Direction::Down, 1, 10), Some(3));
    assert_eq!(move_in_filtered_column(&n, Some("ab"), Some(3), Direction::Down, 1, 10), Some(3));
    assert_eq!(move_in_filtered_column(&n, Some("ab"), Some(1), Direction::Down, 1, 10), Some(2));
    assert_eq!(move_in_filtered_column(&n, Some("ab"), Some(3), Direction::Top, 1, 10), Some(0));
    assert_eq!(move_in_filtered_column(&n, Some("ab"), None, Direction::Bottom, 1, 10), Some(3));
    assert_eq!(move_in_filtered_column(&n, Some("zz"), Some(0), Direction::Down, 1, 10), None);
    assert_eq!(move_in_filtered_column(&n, None, Some(0), Direction::PageDown, 1, 2), Some(2));
    assert_eq!(move_in_filtered_column(&n, None, Some(3), Direction::PageUp, 1, 0), Some(2));
    assert_eq!(move_in_filtered_column(&n, None, Some(0), Direction::Down, 3, 1), Some(3));
}

#[test]
fn browser_column_move_resets_deeper_columns() {
    let n = names(&["a", "b", "c"]);
    let mut sel = BrowserSelection { artist: Some(0), album: Some(2), track: Some(4) };
    assert_eq!(navigate_browser_column(&mut sel, BrowserColumn::Artists, &n, None, Direction::Down, 1, 5), Some(1));
    assert_eq!(sel, BrowserSelection { artist: Some(1), album: Some(0), track: Some(0) });
    sel.track = Some(3);
    assert_eq!(navigate_browser_column(&mut sel, BrowserColumn::Albums, &n, None, Direction::Bottom, 1, 5), Some(2));
    assert_eq!(sel, BrowserSelection { artist: Some(1), album: Some(2), track: Some(0) });
    assert_eq!(navigate_browser_column(&mut sel, BrowserColumn::Tracks, &n, Some("q"), Direction::Down, 1, 5), None);
    assert_eq!(sel, BrowserSelection { artist: Some(1), album: Some(2), track: Some(0) });
}

#[test]
fn home_list_cursor_moves_and_pages() {
    let mut home = HomeState::default();
    home.active_section = HomeSection::RecentTracks;
    home.recent_tracks = (0..12).map(record).collect();
    move_home_cursor(&mut home, Direction::Down);
    assert_eq!(home.selected_index, 1);
    move_home_cursor(&mut home, Direction::PageDown);
    assert_eq!(home.selected_index, 9);
    move_home_cursor(&mut home, Direction::PageDown);
    assert_eq!(home.selected_index, 11);
    move_home_cursor(&mut home, Direction::Top);
    assert_eq!(home.selected_index, 10);
    move_home_cursor(&mut home, Direction::PageUp);
    assert_eq!(home.selected_index, 2);
    home.active_section = HomeSection::TopArtists;
    move_home_cursor(&mut home, Direction::Down);
    assert_eq!(home.selected_index, 2);
}

#[test]
fn album_list_scrolls_to_keep_selection_visible() {
    let mut home = HomeState::default();
    home.recent_albums = (0..6).map(|i| album(&format!("a{i}"), "X")).collect();
    move_album_list(&mut home, Direction::Down, 2);
    assert_eq!((home.album_selected_index, home.album_scroll_offset), (1, 0));
    move_album_list(&mut home, Direction::Down, 2);
    assert_eq!((home.album_selected_index, home.album_scroll_offset), (2, 1));
    move_album_list(&mut home, Direction::PageDown, 2);
    assert_eq!((home.album_selected_index, home.album_scroll_offset), (4, 3));
    move_album_list(&mut home, Direction::PageUp, 3);
    assert_eq!((home.album_selected_index, home.album_scroll_offset), (1, 1));
    move_album_list(&mut home, Direction::Up, 3);
    assert_eq!((home.album_selected_index, home.album_scroll_offset), (0, 0));
}

#[test]
fn album_strip_scrolls_by_whole_rows() {
    let mut home = HomeState::default();
    home.recent_albums = (0..20).map(|i| album(&format!("a{i}"), "X")).collect();
    home.album_selected_index = 6;
    move_album_strip(&mut home, Direction::Down, 4, 8);
    assert_eq!((home.album_selected_index, home.album_scroll_offset), (10, 4));
    move_album_strip(&mut home, Direction::PageDown, 4, 8);
    assert_eq!((home.album_selected_index, home.album_scroll_offset), (18, 12));
    move_album_strip(&mut home, Direction::Down, 4, 8);
    assert_eq!((home.album_selected_index, home.album_scroll_offset), (19, 12));
    move_album_strip(&mut home, Direction::PageUp, 4, 8);
    assert_eq!((home.album_selected_index, home.album_scroll_offset), (11, 12 - 4));
    move_album_strip(&mut home, Direction::Up, 4, 8);
    assert_eq!((home.album_selected_index, home.album_scroll_offset), (7, 4));
}

#[test]
fn album_strip_side_steps_stay_in_row() {
    let mut home = HomeState::default();
    home.recent_albums = (0..10).map(|i| album(&format!("a{i}"), "X")).collect();
    home.album_selected_index = 4;
    album_side_step(&mut home, false, true, 4, 8, 8);
    assert_eq!(home.album_selected_index, 4);
    album_side_step(&mut home, true, true, 4, 8, 8);
    assert_eq!(home.album_selected_index, 5);
    home.album_selected_index = 7;
    album_side_step(&mut home, true, true, 4, 8, 8);
    assert_eq!(home.album_selected_index, 7);
    home.album_selected_index = 9;
    album_side_step(&mut home, true, true, 4, 8, 8);
    assert_eq!(home.album_selected_index, 9);
    home.active_section = HomeSection::RecentTracks;
    home.selected_index = 3;
    album_side_step(&mut home, true, true, 4, 8, 8);
    assert_eq!(home.active_section, HomeSection::TopArtists);
    assert_eq!(home.selected_index, 0);
    album_side_step(&mut home, false, true, 4, 8, 8);
    assert_eq!(home.active_section, HomeSection::RecentTracks);
}

#[test]
fn select_recent_play_queues_and_plays_it() {
    let mut home = HomeState::default();
    home.active_section = HomeSection::RecentTracks;
    home.recent_tracks = vec![record(1), record(2)];
    home.selected_index = 1;
    let mut q = queue_of(&["a"], 0, false);
    let mut v = busy_view(Tab::Home);
    let mut gen = 4u64;
    assert_eq!(select_home(&home, &mut q, &mut v, &mut gen), HomeChoice::PlayCurrent);
    assert_eq!(q.songs.len(), 2);
    assert_eq!(q.cursor, 1);
    assert_eq!(q.songs[1].id, "s2");
    assert_eq!(q.songs[1].artist.as_deref(), Some("Artist 2"));
    assert_eq!(q.songs[1].duration, Some(180));
    assert_eq!(gen, 5);
    assert_eq!(v.active_tab, Tab::Home);
}

#[test]
fn select_album_or_suggestion_opens_browse() {
    let mut home = HomeState::default();
    home.recent_albums = vec![album("x", "Xavier")];
    let mut q = QueueState::default();
    let mut v = busy_view(Tab::Home);
    let mut gen = 0u64;
    assert_eq!(select_home(&home, &mut q, &mut v, &mut gen), HomeChoice::BrowseArtist("Xavier".into()));
    assert_eq!(v.active_tab, Tab::Browser);
    assert!(v.search_filter.is_none());
    home.active_section = HomeSection::Rediscover;
    home.selected_index = 0;
    let mut v = busy_view(Tab::Home);
    assert_eq!(select_home(&home, &mut q, &mut v, &mut gen), HomeChoice::Browse);
    home.rediscover = vec![("id".into(), "Old Band".into())];
    assert_eq!(select_home(&home, &mut q, &mut v, &mut gen), HomeChoice::BrowseArtist("Old Band".into()));
    home.active_section = HomeSection::RecentTracks;
    let mut v = busy_view(Tab::Home);
    assert_eq!(select_home(&home, &mut q, &mut v, &mut gen), HomeChoice::Nothing);
    assert_eq!(v.active_tab, Tab::Home);
}

#[test]
fn queue_songs_replaces_or_appends() {
    let mut q = queue_of(&["a", "b"], 1, false);
    assert!(queue_songs(&mut q, &[song("x"), song("y")], true));
    assert_eq!(q.songs.iter().map(|s| s.id.as_str()).collect::<Vec<_>>(), ["x", "y"]);
    assert_eq!((q.cursor, q.scroll), (0, 0));
    assert!(!queue_songs(&mut q, &[song("z")], false));
    assert_eq!(q.songs.len(), 3);
    let mut empty = QueueState::default();
    assert!(queue_songs(&mut empty, &[song("z")], false));
    assert!(!queue_songs(&mut empty, &[], true));
    assert!(empty.songs.is_empty());
}

#[test]
fn playlist_navigation_resets_track_cursor() {
    let mut o = PlaylistCursor { list_viewport_rows: 5, tracks_viewport_rows: 5, selected_track_index: 3, ..Default::default() };
    assert!(navigate_playlists(&mut o, Direction::Down, 4, 10));
    assert_eq!((o.selected_playlist_index, o.selected_track_index), (1, 0));
    assert!(!navigate_playlists(&mut o, Direction::Top, 0, 10));
    o.selected_playlist_index = 3;
    assert!(!navigate_playlists(&mut o, Direction::Down, 4, 10));
    o.on_tracks = true;
    assert!(!navigate_playlists(&mut o, Direction::PageDown, 4, 10));
    assert_eq!(o.selected_track_index, 5);
}

#[test]
fn search_confirm_finds_first_match_ignoring_case() {
    let n = names(&["Beatles", "ABBA", "Abbey Road"]);
    assert_eq!(find_first(&n, "aBb"), Some(1));
    assert_eq!(find_first(&n, ""), None);
    assert_eq!(find_first(&n, "zeppelin"), None);
    let mut sel = BrowserSelection { artist: Some(2), album: Some(5), track: Some(5) };
    assert_eq!(confirm_browser_search(&mut sel, BrowserColumn::Albums, &n, "road"), Some(2));
    assert_eq!(sel, BrowserSelection { artist: Some(2), album: Some(2), track: Some(0) });
    let mut q = queue_of(&["one", "two", "three"], 0, false);
    assert_eq!(confirm_queue_search(&mut q, "T"), Some(1));
    assert_eq!(q.cursor, 1);
    assert_eq!(confirm_queue_search(&mut q, "four"), None);
    assert_eq!(q.cursor, 1);
}

#[test]
fn playlist_editing_state_machine() {
    let lists = vec![("p1".to_string(), "Road".to_string())];
    let mut m = PlaylistInput::Normal;
    assert_eq!(edit_playlist(&mut m, &lists, 0, PlaylistEdit::Create), PlaylistRequest::Nothing);
    assert_eq!(m, PlaylistInput::Creating { buffer: String::new() });
    edit_playlist(&mut m, &lists, 0, PlaylistEdit::Char('a'));
    edit_playlist(&mut m, &lists, 0, PlaylistEdit::Char('b'));
    edit_playlist(&mut m, &lists, 0, PlaylistEdit::Char('\x08'));
    assert_eq!(edit_playlist(&mut m, &lists, 0, PlaylistEdit::Confirm), PlaylistRequest::Create { name: "a".into() });
    assert_eq!(m, PlaylistInput::Normal);
    edit_playlist(&mut m, &lists, 0, PlaylistEdit::Rename);
    edit_playlist(&mut m, &lists, 0, PlaylistEdit::Char('!'));
    assert_eq!(edit_playlist(&mut m, &lists, 0, PlaylistEdit::Confirm),
        PlaylistRequest::Rename { playlist_id: "p1".into(), name: "Road!".into() });
    edit_playlist(&mut m, &lists, 0, PlaylistEdit::Delete);
    assert_eq!(m, PlaylistInput::ConfirmingDelete { id: "p1".into(), name: "Road".into() });
    assert_eq!(edit_playlist(&mut m, &lists, 0, PlaylistEdit::Yes), PlaylistRequest::Delete { id: "p1".into() });
    assert_eq!(m, PlaylistInput::Normal);
    assert_eq!(edit_playlist(&mut m, &lists, 3, PlaylistEdit::Delete), PlaylistRequest::Nothing);
    assert_eq!(m, PlaylistInput::Normal);
    edit_playlist(&mut m, &lists, 0, PlaylistEdit::Create);
    assert_eq!(edit_playlist(&mut m, &lists, 0, PlaylistEdit::Confirm), PlaylistRequest::Nothing);
}

#[test]
fn picker_adds_songs_or_album() {
    let lists = vec![("p1".to_string(), "Road".to_string())];
    let mut t1 = song("t1");
    t1.track = Some(2);
    let mut t2 = song("t2");
    t2.track = Some(1);
    assert_eq!(picker_choice(&lists, 0, vec!["s".into()], None, None),
        PlaylistAddition::Songs { playlist_id: "p1".into(), playlist_name: "Road".into(), song_ids: vec!["s".into()] });
    assert_eq!(picker_choice(&lists, 0, vec![], Some("al".into()), Some(&[t1, t2])),
        PlaylistAddition::Songs { playlist_id: "p1".into(), playlist_name: "Road".into(), song_ids: vec!["t2".into(), "t1".into()] });
    assert_eq!(picker_choice(&lists, 0, vec![], Some("al".into()), None),
        PlaylistAddition::Album { playlist_id: "p1".into(), playlist_name: "Road".into(), album_id: "al".into() });
    assert_eq!(picker_choice(&lists, 1, vec!["s".into()], None, None), PlaylistAddition::Nothing);
    assert_eq!(picker_choice(&lists, 0, vec![], None, None), PlaylistAddition::Nothing);
}

#[test]
fn arriving_lists_keep_selection_on_them() {
    let mut sel = BrowserSelection { artist: Some(9), album: None, track: None };
    assert_eq!(artists_arrived(&mut sel, 4), Some(3));
    assert_eq!(sel.artist, Some(3));
    assert_eq!(artists_arrived(&mut sel, 0), None);
    assert_eq!(albums_arrived(&mut sel, true, 2), Some(0));
    assert_eq!(sel.album, Some(0));
    assert_eq!(albums_arrived(&mut sel, false, 2), None);
    tracks_arrived(&mut sel, false, 3);
    assert_eq!(sel.track, Some(0));
    sel.track = Some(7);
    tracks_arrived(&mut sel, true, 3);
    assert_eq!(sel.track, Some(2));
}

#[test]
fn track_start_plans_art_lyrics_and_cache() {
    let mut q = queue_of(&["a", "b", "c", "d"], 1, false);
    q.songs[1].cover_art = Some("cov".into());
    q.songs[1].album_id = Some("alb".into());
    let plan = track_start_plan(&q, None, true, Some(&"a".to_string()), true, &["c".to_string()]).unwrap();
    assert_eq!(plan.art, ArtStep::Fetch("cov".into()));
    assert!(plan.fetch_lyrics);
    assert_eq!(plan.to_cache, vec![("b".to_string(), "alb".to_string()), ("d".to_string(), String::new())]);
    let plan = track_start_plan(&q, Some(&"cov".to_string()), true, Some(&"b".to_string()), false, &[]).unwrap();
    assert_eq!(plan.art, ArtStep::UseCached);
    assert!(!plan.fetch_lyrics);
    assert!(plan.to_cache.is_empty());
    q.cursor = 0;
    let plan = track_start_plan(&q, None, false, None, true, &[]).unwrap();
    assert_eq!(plan.art, ArtStep::NoArt);
    assert!(!plan.fetch_lyrics);
    assert_eq!(plan.to_cache.len(), 3);
    q.cursor = 9;
    assert!(track_start_plan(&q, None, false, None, true, &[]).is_none());
}

#[test]
fn library_questions_need_their_own_answer() {
    let mut p: Option<GlobalConfirm> = None;
    assert_eq!(library_command(&mut p, LibraryCommand::ConfirmIndexRefresh, false, false, false), LibraryOutcome::Nothing);
    assert_eq!(library_command(&mut p, LibraryCommand::AskIndexRefresh, false, false, false),
        LibraryOutcome::Asking(GlobalConfirm::LibraryIndexRefresh));
    assert_eq!(library_command(&mut p, LibraryCommand::AskAppendAll, false, false, true), LibraryOutcome::AlreadyAsking);
    assert_eq!(library_command(&mut p, LibraryCommand::ConfirmIndexAppend, false, false, true), LibraryOutcome::Nothing);
    assert_eq!(p, Some(GlobalConfirm::LibraryIndexRefresh));
    assert_eq!(library_command(&mut p, LibraryCommand::ConfirmIndexRefresh, false, false, false),
        LibraryOutcome::Start(GlobalConfirm::LibraryIndexRefresh));
    assert_eq!(p, None);
    assert_eq!(library_command(&mut p, LibraryCommand::AskAppendAll, true, false, true), LibraryOutcome::IndexBusy);
    assert_eq!(library_command(&mut p, LibraryCommand::AskAppendAll, false, true, true), LibraryOutcome::FetchBusy);
    assert_eq!(library_command(&mut p, LibraryCommand::AskAppendAll, false, false, false),
        LibraryOutcome::Asking(GlobalConfirm::LibraryServerAppendQueue));
    assert_eq!(library_command(&mut p, LibraryCommand::Cancel, false, false, false), LibraryOutcome::Cancelled);
    assert_eq!(library_command(&mut p, LibraryCommand::Cancel, false, false, false), LibraryOutcome::Nothing);
    assert_eq!(library_command(&mut p, LibraryCommand::AskAppendAll, false, false, true),
        LibraryOutcome::Asking(GlobalConfirm::LibraryIndexAppendQueue));
}

#[test]
fn rating_rules() {
    assert_eq!(rate_item(6, true, true, Some(("s", true))), RatingOutcome::Ignored);
    assert_eq!(rate_item(3, false, true, Some(("s", true))), RatingOutcome::Disabled);
    assert_eq!(rate_item(3, true, false, Some(("s", true))), RatingOutcome::Offline);
    assert_eq!(rate_item(3, true, true, None), RatingOutcome::NoItem);
    assert_eq!(rate_item(3, true, true, Some(("radio:7", true))), RatingOutcome::Radio);
    assert_eq!(rate_item(3, true, true, Some(("radio:7", false))), RatingOutcome::Rate(Some(3)));
    assert_eq!(rate_item(0, true, true, Some(("s", true))), RatingOutcome::Rate(None));
    assert!(is_radio_song_id("radio:x"));
    assert!(!is_radio_song_id("radi"));
}

#[test]
fn search_cancel_restores_confirmed_filter() {
    let mut s = SearchEdit::default();
    let mut filter = Some("abba".to_string());
    let mut column = Some(BrowserColumn::Albums);
    assert_eq!(search_key(&mut s, &mut filter, &mut column, BrowserColumn::Artists, SearchKey::Start), SearchEffect::Nothing);
    assert!(s.active && filter.is_none() && column.is_none());
    search_key(&mut s, &mut filter, &mut column, BrowserColumn::Artists, SearchKey::Input('Q'));
    search_key(&mut s, &mut filter, &mut column, BrowserColumn::Artists, SearchKey::Input('x'));
    search_key(&mut s, &mut filter, &mut column, BrowserColumn::Artists, SearchKey::Backspace);
    assert_eq!(s.query, "Q");
    assert_eq!(search_key(&mut s, &mut filter, &mut column, BrowserColumn::Artists, SearchKey::Cancel), SearchEffect::Nothing);
    assert_eq!(filter.as_deref(), Some("abba"));
    assert_eq!(column, Some(BrowserColumn::Albums));
    assert!(!s.active && s.query.is_empty());
}

#[test]
fn search_confirm_sets_lowercase_filter_on_focused_column() {
    let mut s = SearchEdit::default();
    let mut filter: Option<String> = None;
    let mut column: Option<BrowserColumn> = None;
    search_key(&mut s, &mut filter, &mut column, BrowserColumn::Tracks, SearchKey::Start);
    search_key(&mut s, &mut filter, &mut column, BrowserColumn::Tracks, SearchKey::Input('H'));
    search_key(&mut s, &mut filter, &mut column, BrowserColumn::Tracks, SearchKey::Input('i'));
    assert_eq!(search_key(&mut s, &mut filter, &mut column, BrowserColumn::Tracks, SearchKey::Confirm),
        SearchEffect::Confirmed("Hi".into()));
    assert_eq!(filter.as_deref(), Some("hi"));
    assert_eq!(column, Some(BrowserColumn::Tracks));
    search_key(&mut s, &mut filter, &mut column, BrowserColumn::Tracks, SearchKey::Start);
    search_key(&mut s, &mut filter, &mut column, BrowserColumn::Tracks, SearchKey::Input('z'));
    assert_eq!(search_key(&mut s, &mut filter, &mut column, BrowserColumn::Tracks, SearchKey::Confirm),
        SearchEffect::Confirmed("z".into()));
    let mut t = SearchEdit::default();
    assert_eq!(search_key(&mut t, &mut filter, &mut column, BrowserColumn::Tracks, SearchKey::Cancel), SearchEffect::Cleared);
    assert!(filter.is_none() && column.is_none());
    assert_eq!(search_key(&mut t, &mut filter, &mut column, BrowserColumn::Tracks, SearchKey::Input('a')), SearchEffect::Nothing);
    assert!(t.query.is_empty());
}

#[test]
fn play_pause_volume_and_track_steps() {
    assert_eq!(play_pause(true, false, true, false), (PlayPauseStep::StartRadio, true));
    assert_eq!(play_pause(false, false, false, true), (PlayPauseStep::PlayCurrent, false));
    assert_eq!(play_pause(false, false, true, false), (PlayPauseStep::Resume, false));
    assert_eq!(play_pause(false, true, false, true), (PlayPauseStep::Pause, true));
    assert_eq!(volume_step(97, true), 100);
    assert_eq!(volume_step(253, true), 100);
    assert_eq!(volume_step(50, true), 55);
    assert_eq!(volume_step(3, false), 0);
    assert_eq!(volume_step(50, false), 45);
    let mut q = queue_of(&["a", "b"], 0, false);
    assert!(!step_track(&mut q, false));
    assert!(step_track(&mut q, true));
    assert_eq!(q.cursor, 1);
    assert!(!step_track(&mut q, true));
    assert!(step_track(&mut q, false));
    assert_eq!(q.cursor, 0);
}

fn pl(id: &str, name: &str) -> (String, String) {
    (id.to_string(), name.to_string())
}

#[test]
fn playlist_list_updates() {
    let mut lists: Option<Vec<(String, String)>> = None;
    let mut sel = 5usize;
    playlist_created(&mut lists, &mut sel, pl("a", "A"));
    assert_eq!(lists, Some(vec![pl("a", "A")]));
    assert_eq!(sel, 0);
    playlist_created(&mut lists, &mut sel, pl("b", "B"));
    playlist_created(&mut lists, &mut sel, pl("c", "C"));
    assert_eq!(sel, 2);
    playlist_renamed(&mut lists, "b", "Bee".into());
    assert_eq!(lists.as_ref().unwrap()[1], pl("b", "Bee"));
    playlist_renamed(&mut lists, "zz", "Z".into());
    assert_eq!(lists.as_ref().unwrap().len(), 3);
    let mut loaded = Some("c".to_string());
    assert!(playlist_deleted(&mut lists, &mut sel, &mut loaded, "c"));
    assert_eq!(lists, Some(vec![pl("a", "A"), pl("b", "Bee")]));
    assert_eq!(sel, 1);
    assert!(loaded.is_none());
    let mut loaded = Some("a".to_string());
    assert!(!playlist_deleted(&mut lists, &mut sel, &mut loaded, "q"));
    assert_eq!(loaded.as_deref(), Some("a"));
    let mut none: Option<Vec<(String, String)>> = None;
    assert!(playlist_deleted(&mut none, &mut sel, &mut loaded, "a"));
    assert!(none.is_none() && loaded.is_none());
}

#[test]
fn playlist_track_removal_clamps_cursor() {
    let mut tracks = vec![song("a"), song("b"), song("c")];
    let mut sel = 2usize;
    playlist_track_removed(&mut tracks, &mut sel, 1);
    assert_eq!(tracks.iter().map(|s| s.id.as_str()).collect::<Vec<_>>(), ["a", "c"]);
    assert_eq!(sel, 1);
    playlist_track_removed(&mut tracks, &mut sel, 9);
    assert_eq!(tracks.len(), 2);
    playlist_track_removed(&mut tracks, &mut sel, 0);
    playlist_track_removed(&mut tracks, &mut sel, 0);
    assert!(tracks.is_empty());
    assert_eq!(sel, 0);
}

#[test]
fn adding_to_an_empty_queue_starts_playback() {
    let mut q = QueueState::default();
    q.cursor = 4;
    assert!(add_song(&mut q, song("a")));
    assert_eq!(q.cursor, 0);
    assert!(!add_song(&mut q, song("b")));
    assert_eq!(q.songs.len(), 2);
    let mut t1 = song("t1");
    t1.disc_number = Some(2);
    let mut t2 = song("t2");
    t2.track = Some(5);
    let mut t3 = song("t3");
    t3.track = Some(1);
    assert!(!append_album(&mut q, &[t1, t2, t3]));
    assert_eq!(q.songs.iter().map(|s| s.id.as_str()).collect::<Vec<_>>(), ["a", "b", "t3", "t2", "t1"]);
    let mut e = QueueState::default();
    assert!(!append_album(&mut e, &[]));
    assert!(append_album(&mut e, &[song("x")]));
}

#[test]
fn offline_favorites_keep_cached_songs() {
    let favs = vec![song("a"), song("b"), song("c")];
    let cached = vec!["c".to_string(), "a".to_string()];
    let kept = favorites_to_queue(&favs, true, &cached).unwrap();
    assert_eq!(kept.iter().map(|s| s.id.as_str()).collect::<Vec<_>>(), ["a", "c"]);
    assert_eq!(favorites_to_queue(&favs, false, &[]).unwrap().len(), 3);
    assert_eq!(favorites_to_queue(&favs, true, &[]).unwrap_err(), FavoritesNote::NoneCached);
    assert_eq!(favorites_to_queue(&[], false, &cached).unwrap_err(), FavoritesNote::NoneSelected);
}

#[test]
fn home_album_strip_holds_at_most_twenty() {
    let mut home = HomeState::default();
    let albums: Vec<RecentAlbum> = (0..25).map(|i| album(&format!("a{i}"), "X")).collect();
    refresh_home(&mut home, &PlayHistory::default(), albums, vec![], vec![]);
    assert_eq!(home.recent_albums.len(), 20);
    assert_eq!(home.recent_albums[0].album_id, "a0");
    assert_eq!(home.recent_albums[19].album_id, "a19");
}

#[test]
fn help_lyrics_and_visualizer_toggles() {
    let mut help = false;
    assert_eq!(toggle_help(&mut help, 7), 0);
    assert!(help);
    assert_eq!(toggle_help(&mut help, 7), 7);
    assert!(!help);
    assert_eq!(help_scrolled(0, false), 0);
    assert_eq!(help_scrolled(3, true), 4);
    assert_eq!(lyrics_scrolled(10, Direction::PageUp), 0);
    assert_eq!(lyrics_scrolled(10, Direction::PageDown), 26);
    assert_eq!(lyrics_scrolled(10, Direction::Top), 9);
    let mut shown = false;
    let song_id = "s1".to_string();
    assert!(toggle_lyrics(&mut shown, Tab::NowPlaying, true, Some(&song_id), None));
    assert!(shown);
    assert!(!toggle_lyrics(&mut shown, Tab::NowPlaying, true, Some(&song_id), None));
    assert!(!shown);
    assert!(!toggle_lyrics(&mut shown, Tab::NowPlaying, true, Some(&song_id), Some(&song_id)));
    assert!(shown);
    assert!(!toggle_lyrics(&mut shown, Tab::Browser, true, Some(&song_id), None));
    assert!(shown);
    let mut vis = true;
    assert!(toggle_visualizer(&mut vis, Tab::NowPlaying, true));
    assert!(!vis);
    assert!(!toggle_visualizer(&mut vis, Tab::NowPlaying, false));
    assert!(!vis);
}

#[test]
fn folder_toggle_switches_browse_mode() {
    let mut v = busy_view(Tab::Home);
    let mut mode = BrowseMode::Artists;
    assert_eq!(toggle_browser_folder(&mut v, &mut mode, false), FolderToggle::Disabled);
    assert_eq!(mode, BrowseMode::Artists);
    assert_eq!(v.active_tab, Tab::Home);
    assert!(!v.playlist_overlay_visible);
    assert_eq!(toggle_browser_folder(&mut v, &mut mode, true), FolderToggle::Folders);
    assert_eq!((mode, v.active_tab), (BrowseMode::Files, Tab::Browser));
    assert_eq!(toggle_browser_folder(&mut v, &mut mode, true), FolderToggle::Library);
    assert_eq!(mode, BrowseMode::Artists);
    let mut genre = BrowseMode::Genre;
    assert_eq!(toggle_browser_folder(&mut v, &mut genre, true), FolderToggle::GenreUnsupported);
}

#[test]
fn home_album_play_and_append() {
    let mut home = HomeState::default();
    home.recent_albums = vec![album("x", "X"), album("y", "Y")];
    home.album_selected_index = 1;
    let mut q = queue_of(&["a", "b"], 1, false);
    assert_eq!(home_album_to_queue(&home, Tab::Home, &mut q, false), Some("y".to_string()));
    assert_eq!(q.songs.len(), 2);
    assert_eq!(home_album_to_queue(&home, Tab::Browser, &mut q, true), None);
    assert_eq!(q.songs.len(), 2);
    assert_eq!(home_album_to_queue(&home, Tab::Home, &mut q, true), Some("y".to_string()));
    assert!(q.songs.is_empty());
    assert_eq!((q.cursor, q.scroll), (0, 0));
    home.album_selected_index = 5;
    assert_eq!(home_album_to_queue(&home, Tab::Home, &mut q, true), None);
}

#[test]
fn home_section_keys_cycle_panels() {
    let mut home = HomeState::default();
    home.selected_index = 4;
    home_section_step(&mut home, Tab::Home, true);
    assert_eq!((home.active_section, home.selected_index), (HomeSection::RecentTracks, 0));
    home_section_step(&mut home, Tab::Home, true);
    assert_eq!(home.active_section, HomeSection::TopArtists);
    home_section_step(&mut home, Tab::Home, false);
    assert_eq!(home.active_section, HomeSection::RecentTracks);
    home_section_step(&mut home, Tab::Browser, true);
    assert_eq!(home.active_section, HomeSection::RecentTracks);
}

#[test]
fn connectivity_changes_drive_reloads() {
    let same = connectivity_changed(true, true, false, BrowseMode::Artists, true, true);
    assert_eq!(same.note, None);
    assert!(same.reachable && !same.go_online && !same.go_offline);
    let forced = connectivity_changed(false, false, true, BrowseMode::Artists, true, true);
    assert_eq!(forced.note, Some(ConnectivityNote::Unreachable));
    let off = connectivity_changed(true, false, false, BrowseMode::Files, true, true);
    assert!(off.go_offline && off.folders_need_server && !off.reload_artists && !off.reachable);
    assert_eq!(off.note, Some(ConnectivityNote::WentOffline));
    let on = connectivity_changed(false, true, false, BrowseMode::Artists, false, true);
    assert!(on.go_online && on.reload_artists && on.refresh_index && on.fetch_starred && !on.fetch_radio && on.flush_scrobbles);
    assert_eq!(on.note, Some(ConnectivityNote::BackOnline));
}

#[test]
fn startup_ping_steps() {
    let files = startup_ping_ok(BrowseMode::Files, false, None, true, false);
    assert!(files.load_folders && !files.fetch_artists && files.fetch_radio && !files.flush_scrobbles);
    let cold = startup_ping_ok(BrowseMode::Artists, false, None, false, false);
    assert!(cold.fetch_artists && !cold.resume_browse);
    let rated = vec![Artist { id: "a".into(), user_rating: Some(3), ..Default::default() }];
    let s = startup_ping_ok(BrowseMode::Artists, false, Some(&rated), false, false);
    assert!(s.resume_browse && !s.fetch_artist_ratings);
    let unrated = vec![Artist { id: "a".into(), user_rating: Some(0), ..Default::default() }];
    assert!(startup_ping_ok(BrowseMode::Artists, false, Some(&unrated), false, false).fetch_artist_ratings);
    assert_eq!(startup_unreachable_text("Home", "no response"), "Could not reach Home (no response) — offline mode");
}

#[test]
fn radio_station_list_keeps_selection() {
    let ids = vec!["1".to_string(), "2".to_string(), "3".to_string()];
    assert_eq!(radio_stations_arrived(7, &ids, None), 2);
    assert_eq!(radio_stations_arrived(0, &ids, Some("radio:3")), 2);
    assert_eq!(radio_stations_arrived(1, &ids, Some("radio:9")), 1);
    assert_eq!(radio_stations_arrived(1, &ids, Some("song")), 1);
    assert_eq!(radio_stations_arrived(4, &[], None), 0);
    assert_eq!(radio_change_answered(None), ("Radio stations updated".to_string(), true));
    assert_eq!(radio_change_answered(Some("x".into())), ("Radio: x".to_string(), false));
}

#[test]
fn artist_tracks_are_ordered_and_queued() {
    let mut a = song("a"); a.year = Some(2001); a.album_id = Some("B".into());
    let mut b = song("b"); b.year = Some(1999);
    let mut c = song("c"); c.year = Some(2001); c.album_id = Some("A".into()); c.track = Some(2);
    let mut d = song("d"); d.year = Some(2001); d.album_id = Some("A".into()); d.track = Some(1);
    let mut q = QueueState::default();
    assert!(artist_tracks_arrived(&mut q, &[a.clone(), b.clone(), c.clone(), d.clone()], true, false));
    assert_eq!(q.songs.iter().map(|s| s.id.as_str()).collect::<Vec<_>>(), ["b", "d", "c", "a"]);
    q.cursor = 1;
    assert!(!artist_tracks_arrived(&mut q, &[song("x")], true, true));
    assert_eq!(q.songs[0].id, "x");
    assert_eq!(q.cursor, 2);
    let (msg, play) = library_append_arrived(&mut q, Ok(vec![song("y"), song("z")]));
    assert_eq!(msg, "Added 2 tracks to queue");
    assert!(!play);
    let (msg, _) = library_append_arrived(&mut q, Ok(vec![]));
    assert_eq!(msg, "No tracks found in library");
    let (msg, _) = library_append_arrived(&mut q, Err("down".into()));
    assert_eq!(msg, "Library fetch failed: down");
}
