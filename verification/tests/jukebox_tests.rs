use ratune::jukebox::{
    plan, plan_against, selection_after_refresh, Intent, Jukebox, JukeboxCommand, JukeboxPlaylist,
    JukeboxStatus, RequestKind, jukebox_label, playlist_status_consistent, album_intent, mix_intent,
    synced_cursor, poll_due,
};
use ratune::media::Song;

fn song(id: &str, title: &str) -> Song {
    Song { id: id.into(), title: title.into(), ..Default::default() }
}

fn playlist() -> JukeboxPlaylist {
    JukeboxPlaylist {
        status: JukeboxStatus { current_index: 0, playing: true },
        entry: vec![song("one", "One"), song("two", "Two")],
    }
}

#[test]
fn remote_intents_keep_channel_messages_compact() {
    assert!(std::mem::size_of::<Intent>() <= 64);
}

#[test]
fn append_does_not_interrupt_playback_and_replace_is_explicit() {
    let p = playlist();
    let songs = p.entry.clone();
    assert_eq!(
        plan(&p, Intent::Songs { songs: songs.clone(), replace: false }).unwrap(),
        vec![JukeboxCommand::Add(vec!["one".into(), "two".into()])]
    );
    assert_eq!(plan(&p, Intent::Songs { songs, replace: true }).unwrap().len(), 3);
    assert!(plan(&p, Intent::Songs { songs: vec![], replace: true }).is_err());
}

#[test]
fn next_uses_server_playing_index_and_paused_seek_stays_paused() {
    let mut p = playlist();
    assert_eq!(plan(&p, Intent::Next).unwrap()[0], JukeboxCommand::Skip { index: 1, offset: 0 });
    p.status.playing = false;
    assert_eq!(
        plan(&p, Intent::Seek(40)).unwrap(),
        vec![JukeboxCommand::Skip { index: 0, offset: 40 }, JukeboxCommand::Stop]
    );
    p.status.current_index = 1;
    assert!(plan(&p, Intent::Next).is_err());
}

#[test]
fn stale_responses_and_disconnected_requests_are_ignored() {
    let mut state = Jukebox::new();
    let old = state.begin(RequestKind::Poll);
    let new = state.begin(RequestKind::Control);
    assert!(state.finish(old).is_none());
    assert!(state.busy());
    assert_eq!(state.finish(new), Some(RequestKind::Control));
    let id = state.begin(RequestKind::Connect);
    state.disconnect();
    assert!(state.finish(id).is_none());
}

#[test]
fn queued_but_unstarted_playback_begins_at_first_track() {
    let mut p = playlist();
    p.status.current_index = -1;
    p.status.playing = false;
    for intent in [Intent::Pause, Intent::Next, Intent::Previous] {
        assert_eq!(
            plan(&p, intent).unwrap(),
            vec![JukeboxCommand::Skip { index: 0, offset: 0 }, JukeboxCommand::Start]
        );
    }
    assert!(plan(&p, Intent::Seek(5)).is_err());
}

#[test]
fn polling_preserves_duplicate_selection_and_clamps_removed_rows() {
    let p = playlist();
    let old = vec![p.entry[0].clone(), p.entry[1].clone(), p.entry[0].clone()];
    assert_eq!(selection_after_refresh(&old, &old, 2), 2);
    let new = vec![p.entry[1].clone(), p.entry[0].clone(), p.entry[1].clone(), p.entry[0].clone()];
    assert_eq!(selection_after_refresh(&old, &new, 2), 3);
    assert_eq!(selection_after_refresh(&old, &[], 2), 0);
}

#[test]
fn plan_messages_and_simple_commands() {
    let p = playlist();
    assert_eq!(plan(&p, Intent::Pause).unwrap(), vec![JukeboxCommand::Stop]);
    assert_eq!(plan(&p, Intent::Play(1)).unwrap(), vec![JukeboxCommand::Skip { index: 1, offset: 0 }, JukeboxCommand::Start]);
    assert_eq!(plan(&p, Intent::Play(2)).unwrap_err(), "No track at that Jukebox queue position");
    assert_eq!(plan(&p, Intent::Remove(1)).unwrap(), vec![JukeboxCommand::Remove(1)]);
    assert_eq!(plan(&p, Intent::Remove(5)).unwrap_err(), "Unsupported Jukebox operation");
    assert_eq!(plan(&p, Intent::Clear).unwrap(), vec![JukeboxCommand::Clear]);
    assert_eq!(plan(&p, Intent::Shuffle).unwrap(), vec![JukeboxCommand::Shuffle]);
    assert_eq!(
        plan(&p, Intent::Album { id: "a".into(), replace: false }).unwrap_err(),
        "Unsupported Jukebox operation"
    );
    let empty = JukeboxPlaylist { status: JukeboxStatus { current_index: -1, playing: false }, entry: vec![] };
    assert_eq!(plan(&empty, Intent::Next).unwrap_err(), "Jukebox queue is empty");
    assert_eq!(
        plan(&empty, Intent::Songs { songs: vec![song("x", "X")], replace: false }).unwrap(),
        vec![JukeboxCommand::Add(vec!["x".into()]), JukeboxCommand::Skip { index: 0, offset: 0 }, JukeboxCommand::Start]
    );
    assert_eq!(
        plan(&p, Intent::Songs { songs: vec![song(" ", "blank")], replace: false }).unwrap_err(),
        "Jukebox: choose 1–200 tracks; queue unchanged"
    );
}

#[test]
fn plans_are_checked_against_the_server_state() {
    let shown = playlist();
    let mut now = playlist();
    now.entry.push(song("three", "Three"));
    assert_eq!(
        plan_against(&shown, &now, Intent::Next).unwrap_err(),
        "Jukebox queue changed elsewhere; refreshed without overwriting it"
    );
    let mut moved = playlist();
    moved.status.current_index = 1;
    assert_eq!(plan_against(&shown, &moved, Intent::Seek(3)).unwrap_err(), "Jukebox track changed; seek cancelled");
    assert!(plan_against(&shown, &moved, Intent::Next).is_err());
    assert_eq!(plan_against(&shown, &playlist(), Intent::Seek(3)).unwrap(), vec![JukeboxCommand::Skip { index: 0, offset: 3 }]);
}

#[test]
fn status_labels_and_consistency() {
    let mut j = Jukebox::new();
    assert_eq!(jukebox_label(&j), "Local");
    j.begin(RequestKind::Connect);
    assert_eq!(jukebox_label(&j), "Local (connecting)");
    let mut p = playlist();
    assert!(playlist_status_consistent(&p));
    p.status.current_index = 2;
    assert!(!playlist_status_consistent(&p));
    p.status.current_index = -1;
    assert!(!playlist_status_consistent(&p));
    p.status.playing = false;
    assert!(playlist_status_consistent(&p));
}

#[test]
fn album_and_mix_selections() {
    let mut a = song("a", "A");
    a.track = Some(2);
    let mut b = song("b", "B");
    b.track = Some(1);
    match album_intent(&[a, b], true) {
        Intent::Songs { songs, replace } => {
            assert!(replace);
            assert_eq!(songs.iter().map(|s| s.id.as_str()).collect::<Vec<_>>(), ["b", "a"]);
        }
        _ => panic!("album intent is a song selection"),
    }
    assert_eq!(
        mix_intent(song("seed", "S"), &[song("seed", "S")]).err().unwrap(),
        "Instant Mix: no similar songs; Jukebox unchanged"
    );
    match mix_intent(song("seed", "S"), &[song("x", "X")]).ok().unwrap() {
        Intent::Songs { songs, replace } => {
            assert!(replace);
            assert_eq!(songs.len(), 2);
        }
        _ => panic!("mix intent is a song selection"),
    }
}

#[test]
fn snapshot_cursor_and_poll_timing() {
    let p = playlist();
    let mut moved = playlist();
    moved.status.current_index = 1;
    assert_eq!(synced_cursor(true, &[], &moved, 0), 1);
    let old = vec![p.entry[0].clone(), p.entry[1].clone()];
    let swapped = JukeboxPlaylist { status: p.status, entry: vec![p.entry[1].clone(), p.entry[0].clone()] };
    assert_eq!(synced_cursor(false, &old, &swapped, 0), 1);
    let empty = JukeboxPlaylist { status: JukeboxStatus { current_index: -1, playing: false }, entry: vec![] };
    assert_eq!(synced_cursor(true, &old, &empty, 1), 0);
    let mut j = Jukebox::new();
    assert!(!poll_due(&j, None));
    j.local = Some(ratune::jukebox::LocalBackup {
        queue: ratune::media::QueueState::default(),
        playback: ratune::jukebox::PlaybackState {
            current_song: None,
            paused: false,
            player_loaded: false,
            elapsed: std::time::Duration::ZERO,
            total: None,
        },
        volume: 70,
        visualizer: false,
    });
    assert!(poll_due(&j, None));
    assert!(poll_due(&j, Some(2)));
    assert!(!poll_due(&j, Some(1)));
    j.begin(RequestKind::Poll);
    assert!(!poll_due(&j, Some(5)));
}
