use ratune::nav::{move_list_index, Direction, Tab, BrowserColumn, HomeSection, browser_column_filter};
use ratune::browse::{music_folders_arrived, folder_listing_arrived, index_refresh_done};
use ratune::config::BrowseMode;

#[test]
fn list_moves_stay_in_the_list() {
    assert_eq!(move_list_index(3, 10, 4, Direction::Up), 2);
    assert_eq!(move_list_index(0, 10, 4, Direction::Up), 0);
    assert_eq!(move_list_index(8, 10, 4, Direction::Down), 9);
    assert_eq!(move_list_index(9, 10, 4, Direction::Down), 9);
    assert_eq!(move_list_index(5, 10, 4, Direction::Top), 0);
    assert_eq!(move_list_index(5, 10, 4, Direction::Bottom), 9);
    assert_eq!(move_list_index(5, 10, 4, Direction::PageUp), 1);
    assert_eq!(move_list_index(2, 10, 4, Direction::PageUp), 0);
    assert_eq!(move_list_index(5, 10, 4, Direction::PageDown), 9);
    assert_eq!(move_list_index(1, 10, 0, Direction::PageDown), 2);
    assert_eq!(move_list_index(7, 0, 4, Direction::Down), 0);
}

#[test]
fn tabs_cycle_both_ways() {
    for t in [Tab::Home, Tab::Browser, Tab::NowPlaying] {
        assert_eq!(t.next().prev(), t);
        assert_eq!(t.prev().next(), t);
        assert_eq!(t.next().next().next(), t);
        assert_eq!(t.toggle(), t.next());
        assert_eq!(Tab::from_name(t.name()), t);
    }
    assert_eq!(Tab::Home.next(), Tab::Browser);
    assert_eq!(Tab::Home.prev(), Tab::NowPlaying);
    assert_eq!(Tab::from_name("radio"), Tab::NowPlaying);
    assert_eq!(Tab::from_name("elsewhere"), Tab::Home);
}

#[test]
fn browser_columns_clamp_at_the_edges() {
    assert_eq!(BrowserColumn::Artists.left(), BrowserColumn::Artists);
    assert_eq!(BrowserColumn::Artists.right(), BrowserColumn::Albums);
    assert_eq!(BrowserColumn::Tracks.right(), BrowserColumn::Tracks);
    assert_eq!(BrowserColumn::Tracks.left(), BrowserColumn::Albums);
    let filter = Some("abba".to_string());
    assert_eq!(browser_column_filter(&filter, Some(BrowserColumn::Albums), BrowserColumn::Albums), Some("abba"));
    assert_eq!(browser_column_filter(&filter, Some(BrowserColumn::Albums), BrowserColumn::Tracks), None);
    assert_eq!(browser_column_filter(&None, Some(BrowserColumn::Albums), BrowserColumn::Albums), None);
}

#[test]
fn home_sections_cycle_through_all_panels() {
    assert_eq!(HomeSection::RecentAlbums.next(), HomeSection::RecentTracks);
    assert_eq!(HomeSection::RecentTracks.next(), HomeSection::TopArtists);
    assert_eq!(HomeSection::TopArtists.next(), HomeSection::Rediscover);
    assert_eq!(HomeSection::Rediscover.next(), HomeSection::RecentAlbums);
    assert_eq!(HomeSection::RecentAlbums.prev(), HomeSection::Rediscover);
    assert_eq!(HomeSection::Rediscover.prev(), HomeSection::TopArtists);
    assert_eq!(HomeSection::TopArtists.prev(), HomeSection::RecentTracks);
    assert_eq!(HomeSection::RecentTracks.prev(), HomeSection::RecentAlbums);
}

#[test]
fn folders_and_index_refresh_steps() {
    let mut sel: Option<usize> = None;
    assert!(music_folders_arrived(&mut sel, 1, true));
    assert_eq!(sel, Some(0));
    assert!(!music_folders_arrived(&mut sel, 2, true));
    let mut sel = Some(3);
    let mut pending = true;
    folder_listing_arrived(&mut sel, &mut pending, true, true, 1);
    assert_eq!((sel, pending), (Some(1), false));
    folder_listing_arrived(&mut sel, &mut pending, true, true, 4);
    assert_eq!(sel, Some(1));
    let done = index_refresh_done(Ok(true), true, BrowseMode::Artists, true);
    assert_eq!(done.flash, "Library index refresh complete");
    assert!(done.abort_fetches && done.reload_artists && done.notify && !done.offline_browse);
    let done = index_refresh_done(Ok(false), false, BrowseMode::Files, true);
    assert_eq!(done.flash, "Library index updated");
    assert!(done.offline_browse && !done.reload_artists && !done.notify);
    assert_eq!(index_refresh_done(Err("x".into()), true, BrowseMode::Artists, true).flash, "Library index refresh failed: x");
}
