use ratune::library::{
    Artist, FavoriteKind, FavoritesCategory, LibraryModel, CachePolicy, StarCache, star_toggled,
    rating_set, album_for_cache, ratings_arrived, album_ratings_arrived, favorites_fetch_failed,
};
use ratune::media::{Album, Song};

fn song(id: &str) -> Song {
    Song { id: id.into(), title: id.into(), ..Default::default() }
}

fn album(id: &str) -> Album {
    Album { id: id.into(), name: id.into(), ..Default::default() }
}

fn artist(id: &str) -> Artist {
    Artist { id: id.into(), name: id.into(), ..Default::default() }
}

fn model() -> LibraryModel {
    LibraryModel {
        artists: vec![artist("ar1"), artist("ar2")],
        album_lists: vec![vec![album("al1"), album("al2")], vec![album("al1")]],
        song_lists: vec![vec![song("s1"), song("s2")], vec![song("s1")]],
        extra_song_lists: vec![vec![song("s1")]],
        queue: vec![song("s2"), song("s1")],
        current_song: Some(song("s1")),
        fav_songs: vec![],
        fav_albums: vec![],
        fav_artists: vec![],
        fav_category: FavoritesCategory::Songs,
        fav_selected: 0,
    }
}

#[test]
fn star_marks_the_song_everywhere() {
    let mut lib = model();
    let policy = CachePolicy { enabled: true, starred_songs: true, starred_albums: false };
    let step = star_toggled(&mut lib, FavoriteKind::Song, "s1", false, None, policy);
    assert_eq!(step.flash, "Added to favorites");
    assert!(step.refetch);
    assert_eq!(step.cache, StarCache::Song);
    assert!(lib.song_lists[0][0].starred && lib.song_lists[1][0].starred && lib.extra_song_lists[0][0].starred);
    assert!(!lib.song_lists[0][1].starred);
    assert!(lib.queue[1].starred && !lib.queue[0].starred);
    assert!(lib.current_song.as_ref().unwrap().starred);
}

#[test]
fn unstar_removes_from_favorites_and_keeps_cursor_on_list() {
    let mut lib = model();
    lib.fav_category = FavoritesCategory::Albums;
    lib.fav_albums = vec![Album { starred: true, ..album("al1") }, Album { starred: true, ..album("al2") }];
    lib.fav_selected = 1;
    lib.album_lists[0][1].starred = true;
    let step = star_toggled(&mut lib, FavoriteKind::Album, "al2", true, None, CachePolicy::default());
    assert_eq!(step.flash, "Removed from favorites");
    assert_eq!(step.cache, StarCache::Nothing);
    assert_eq!(lib.fav_albums.len(), 1);
    assert_eq!(lib.fav_selected, 0);
    assert!(!lib.album_lists[0][1].starred);
}

#[test]
fn failed_star_changes_nothing() {
    let mut lib = model();
    let step = star_toggled(&mut lib, FavoriteKind::Artist, "ar1", false, Some("boom".into()), CachePolicy::default());
    assert_eq!(step.flash, "Favorite failed: boom");
    assert!(!step.refetch);
    assert!(!lib.artists[0].starred);
    let step = star_toggled(&mut lib, FavoriteKind::Album, "al1", false, None,
        CachePolicy { enabled: true, starred_songs: false, starred_albums: true });
    assert_eq!(step.cache, StarCache::Album);
}

#[test]
fn rating_is_set_and_cleared_everywhere() {
    let mut lib = model();
    lib.fav_songs = vec![song("s1")];
    assert_eq!(rating_set(&mut lib, FavoriteKind::Song, "s1", 4, None), "Rating updated");
    assert_eq!(lib.queue[1].user_rating, Some(4));
    assert_eq!(lib.fav_songs[0].user_rating, Some(4));
    assert_eq!(lib.current_song.as_ref().unwrap().user_rating, Some(4));
    assert_eq!(rating_set(&mut lib, FavoriteKind::Song, "s1", 0, None), "Rating cleared");
    assert_eq!(lib.queue[1].user_rating, None);
    assert_eq!(rating_set(&mut lib, FavoriteKind::Artist, "ar2", 3, Some("no".into())), "Rating failed: no");
    assert_eq!(lib.artists[1].user_rating, None);
}

#[test]
fn cache_album_comes_from_index_or_queue() {
    let mut q = vec![song("a"), song("b")];
    q[1].album_id = Some("alb".into());
    assert_eq!(album_for_cache(None, &q, "b"), Some("alb".to_string()));
    assert_eq!(album_for_cache(None, &q, "a"), None);
    let idx = "ix".to_string();
    assert_eq!(album_for_cache(Some(&idx), &q, "b"), Some("ix".to_string()));
    let empty = String::new();
    assert_eq!(album_for_cache(Some(&empty), &q, "b"), None);
}

#[test]
fn browse_ratings_go_to_first_match() {
    let mut artists = vec![artist("a"), artist("b"), artist("a")];
    ratings_arrived(&mut artists, &[("a".to_string(), 5), ("zz".to_string(), 1)]);
    assert_eq!(artists[0].user_rating, Some(5));
    assert_eq!(artists[2].user_rating, None);
    let mut albums = vec![album("x"), album("y")];
    album_ratings_arrived(&mut artists, &mut albums, "b", Some(2), &[("y".to_string(), 4)]);
    assert_eq!(artists[1].user_rating, Some(2));
    assert_eq!(albums[1].user_rating, Some(4));
    assert_eq!(albums[0].user_rating, None);
}

#[test]
fn server_favorites_replace_stale_marks() {
    let mut lib = model();
    lib.song_lists[0][1].starred = true;
    lib.fav_category = FavoritesCategory::Songs;
    lib.sync_server_starred(vec![song("s1")], vec![album("al2")], vec![], true);
    assert!(!lib.song_lists[0][1].starred);
    assert!(lib.song_lists[0][0].starred && lib.queue[1].starred);
    assert!(lib.album_lists[0][1].starred && !lib.album_lists[0][0].starred);
    assert_eq!(lib.fav_songs.len(), 1);
    assert_eq!(lib.fav_albums[0].id, "al2");
    let mut keep = model();
    keep.song_lists[0][1].starred = true;
    keep.sync_server_starred(vec![], vec![], vec![], false);
    assert!(keep.song_lists[0][1].starred);
}

#[test]
fn favorites_fetch_error_shown_only_without_snapshot() {
    assert_eq!(favorites_fetch_failed(true, true, "e".into(), None), None);
    assert_eq!(favorites_fetch_failed(true, false, "e".into(), None), Some("e".to_string()));
    assert_eq!(favorites_fetch_failed(false, false, "e".into(), Some("old".into())), Some("old".to_string()));
}

#[test]
fn repeated_star_answer_changes_nothing_more() {
    let mut once = model();
    once.fav_category = FavoritesCategory::Artists;
    once.fav_artists = vec![Artist { starred: true, ..artist("ar1") }, Artist { starred: true, ..artist("ar2") }];
    once.fav_selected = 1;
    star_toggled(&mut once, FavoriteKind::Artist, "ar2", true, None, CachePolicy::default());
    let (sel, count, marks) = (once.fav_selected, once.fav_artists.len(), once.artists.clone());
    star_toggled(&mut once, FavoriteKind::Artist, "ar2", true, None, CachePolicy::default());
    assert_eq!((once.fav_selected, once.fav_artists.len(), once.artists.clone()), (sel, count, marks));
    rating_set(&mut once, FavoriteKind::Album, "al1", 5, None);
    let lists = once.album_lists.clone();
    rating_set(&mut once, FavoriteKind::Album, "al1", 5, None);
    assert_eq!(once.album_lists, lists);
}
