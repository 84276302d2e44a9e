use ratune::track_order::{sort_album_order, sorted_album_song_ids};
use ratune::dedup::{unique_songs, unique_album_list};
use ratune::media::{Song, Album, ids_of, same_ids, SongIndex};
use ratune::text::{trimmed, str_eq_ignore_case, ascii_lowercase, str_contains};

fn song(id: &str, disc: Option<u32>, track: Option<u32>) -> Song {
    Song { id: id.into(), title: id.into(), disc_number: disc, track, ..Default::default() }
}

#[test]
fn album_order_is_disc_then_track_and_stable() {
    let songs = vec![
        song("d2t1", Some(2), Some(1)),
        song("d1t2", Some(1), Some(2)),
        song("none", None, None),
        song("d1t1", None, Some(1)),
        song("same", Some(1), Some(2)),
    ];
    let sorted = sort_album_order(&songs);
    assert_eq!(
        sorted.iter().map(|s| s.id.as_str()).collect::<Vec<_>>(),
        ["none", "d1t1", "d1t2", "same", "d2t1"]
    );
    assert_eq!(sorted_album_song_ids(&songs), ids_of(&sorted));
}

#[test]
fn dedup_keeps_first_of_each_id() {
    let songs = vec![song("a", None, None), song(" ", None, None), song("b", None, None), song("a", None, None)];
    let kept = unique_songs(&songs, vec!["b".to_string()], 10, true);
    assert_eq!(ids_of(&kept), vec!["a".to_string()]);
    let kept = unique_songs(&songs, Vec::new(), 10, false);
    assert_eq!(ids_of(&kept), vec!["a".to_string(), " ".to_string(), "b".to_string()]);
    let kept = unique_songs(&songs, Vec::new(), 1, true);
    assert_eq!(kept.len(), 1);
    let albums = vec![
        Album { id: "x".into(), ..Default::default() },
        Album { id: "x".into(), ..Default::default() },
        Album { id: "y".into(), ..Default::default() },
    ];
    assert_eq!(unique_album_list(&albums, 5).len(), 2);
    assert!(same_ids(&songs[..1], &[song("a", Some(3), None)]));
}

#[test]
fn song_index_finds_by_id() {
    let mut index = SongIndex::new();
    index.insert(song("a", Some(1), None));
    index.insert(song("a", Some(2), None));
    assert_eq!(index.get(&"a".to_string()).unwrap().disc_number, Some(2));
    assert!(index.get(&"b".to_string()).is_none());
}

#[test]
fn text_helpers() {
    assert_eq!(trimmed("\u{3000} x y \t"), "x y");
    assert!(str_eq_ignore_case("CtRl-R", "ctrl-r"));
    assert_eq!(ascii_lowercase("ÀbC"), "Àbc");
    assert!(str_contains("hello world", "o w"));
    assert!(!str_contains("hello", "world"));
}
