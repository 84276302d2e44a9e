use ratune::discovery::{rediscover, recent_seeds, Discovery, AlbumRequest, unique_albums};
use ratune::media::{Album, Song, PlayHistory, PlayRecord, QueueState, SongIndex};
use ratune::nav::Direction;

fn album(id: &str) -> Album {
    Album { id: id.into(), name: id.into(), ..Default::default() }
}

fn song(id: &str) -> Song {
    Song { id: id.into(), title: id.into(), ..Default::default() }
}

fn history() -> PlayHistory {
    let mut history = PlayHistory::default();
    for (id, at) in [("old", 1), ("recent", 30 * 86400), ("recent", 31 * 86400)] {
        history.records.push(PlayRecord {
            song_id: id.into(),
            album_id: id.into(),
            artist_id: "artist".into(),
            artist_name: "Artist".into(),
            album_name: id.into(),
            track_name: id.into(),
            played_at: at,
            duration_secs: 60,
        });
    }
    history
}

#[test]
fn rediscover_excludes_recent_and_deduplicates_with_explicit_unplayed_fallback() {
    let result = rediscover(
        &history(),
        vec![album("recent"), album("old"), album("new"), album("old")],
        32 * 86400,
        1,
    );
    assert_eq!(result.len(), 2);
    assert_eq!(result[0].album.id, "old");
    assert_eq!(result[0].last_played, Some(1));
    assert_eq!(result[1].last_played, None);
}

#[test]
fn rediscover_keeps_its_order_for_one_refresh_and_caps_the_shelf() {
    let catalog: Vec<Album> = (0..40).map(|i| album(&i.to_string())).collect();
    let a = rediscover(&history(), catalog.clone(), 32 * 86400, 7);
    let b = rediscover(&history(), catalog, 32 * 86400, 7);
    assert_eq!(a.len(), 24);
    let ids_a: Vec<String> = a.iter().map(|x| x.album.id.clone()).collect();
    let ids_b: Vec<String> = b.iter().map(|x| x.album.id.clone()).collect();
    assert_eq!(ids_a, ids_b);
}

#[test]
fn mix_seeds_are_recent_unique_tracks_and_retain_art() {
    let result = recent_seeds(&history(), &SongIndex::new());
    assert_eq!(
        result.iter().map(|s| s.id.as_str()).collect::<Vec<_>>(),
        ["recent", "old"]
    );
    assert_eq!(result[0].cover_art.as_deref(), Some("recent"));
}

#[test]
fn mix_seeds_prefer_the_indexed_song() {
    let mut index = SongIndex::new();
    let mut indexed = song("old");
    indexed.title = "Indexed".into();
    index.insert(indexed);
    let result = recent_seeds(&history(), &index);
    assert_eq!(result[1].title, "Indexed");
    assert_eq!(result[0].title, "recent");
}

#[test]
fn home_seed_is_selected_item_not_current_playback() {
    let mut state = Discovery {
        seeds: vec![song("one"), song("two")],
        section: 2,
        ..Default::default()
    };
    state.move_selection(Direction::Down);
    assert_eq!(state.selected_seed().unwrap().id, "two");
    state.section = 0;
    assert!(state.selected_seed().is_none());
}

#[test]
fn returning_home_preserves_order_and_selection_when_metadata_arrives() {
    let mut state = Discovery::default();
    let mut history = history();
    let catalog: Vec<_> = (0..40).map(|i| album(&i.to_string())).collect();
    state.rebuild_local(&history, &SongIndex::new(), catalog.clone(), 32 * 86400);
    let before: Vec<_> = state
        .rediscover
        .iter()
        .map(|a| a.album.id.clone())
        .collect();
    state.selected[1] = 3;
    state.selected[2] = 1;
    let mut record = history.records[0].clone();
    record.song_id = "new seed".into();
    record.duration_secs = u64::MAX;
    history.records.push(record);
    state.rebuild_local(
        &history,
        &SongIndex::new(),
        catalog.into_iter().rev().collect(),
        32 * 86400,
    );
    assert_eq!(
        before,
        state
            .rediscover
            .iter()
            .map(|a| a.album.id.clone())
            .collect::<Vec<_>>()
    );
    assert_eq!(state.selected[1], 3);
    assert_eq!(state.seeds[state.selected[2]].id, "old");
    assert_eq!(state.seeds[0].duration, Some(u32::MAX));
}

#[test]
fn new_additions_preserve_server_order_and_selected_identity() {
    let mut state = Discovery::default();
    state.set_newest(vec![album("b"), album("a"), album("b")]);
    assert_eq!(state.newest.len(), 2);
    assert_eq!(state.newest[0].id, "b");
    state.selected[0] = 1;
    state.set_newest(vec![album("c"), album("b"), album("a")]);
    assert_eq!(state.newest[state.selected[0]].id, "a");
}

#[test]
fn newest_shelf_is_unique_and_capped() {
    let albums: Vec<Album> = (0..30).map(|i| album(&(i % 27).to_string())).collect();
    let shelf = unique_albums(albums);
    assert_eq!(shelf.len(), 24);
    assert_eq!(shelf[0].id, "0");
    let mut with_blank = vec![album(""), album("x")];
    with_blank.push(album("x"));
    assert_eq!(unique_albums(with_blank).len(), 1);
}

#[test]
fn album_failure_empty_and_stale_responses_do_not_replace_queue() {
    let mut queue = QueueState::default();
    queue.push(song("playing"));
    let mut state = AlbumRequest::default();
    for result in [Err("network error".into()), Ok(Vec::new())] {
        let id = state.start(true, &queue, 1, false);
        assert!(state.finish(id, &queue, 1, false, result).is_err());
        assert_eq!(queue.songs[0].id, "playing");
    }
    let old = state.start(true, &queue, 1, false);
    let new = state.start(false, &queue, 1, false);
    assert!(state
        .finish(old, &queue, 1, false, Ok(vec![song("old")]))
        .unwrap()
        .is_none());
    queue.push(song("edited"));
    assert!(state
        .finish(new, &queue, 1, false, Ok(vec![song("new")]))
        .is_err());
}

#[test]
fn album_cancel_and_playback_change_reject_late_responses() {
    let queue = QueueState::default();
    let mut state = AlbumRequest::default();
    let id = state.start(true, &queue, 1, false);
    state.cancel();
    assert!(state
        .finish(id, &queue, 1, false, Ok(vec![song("late")]))
        .unwrap()
        .is_none());
    let id = state.start(true, &queue, 1, false);
    assert!(state
        .finish(id, &queue, 2, false, Ok(vec![song("late")]))
        .is_err());
}

#[test]
fn album_answer_is_in_disc_and_track_order_without_repeats() {
    let queue = QueueState::default();
    let mut state = AlbumRequest::new();
    let id = state.start(false, &queue, 1, false);
    let mut a = song("a");
    a.disc_number = Some(2);
    a.track = Some(1);
    let mut b = song("b");
    b.disc_number = Some(1);
    b.track = Some(2);
    let mut c = song("c");
    c.disc_number = Some(1);
    c.track = Some(1);
    let answer = state
        .finish(id, &queue, 1, false, Ok(vec![a.clone(), b, c, a, song("")]))
        .unwrap()
        .unwrap();
    assert!(!answer.0);
    assert_eq!(answer.1.iter().map(|s| s.id.as_str()).collect::<Vec<_>>(), ["c", "b", "a"]);
}
