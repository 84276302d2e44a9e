use ratune::instant_mix::{InstantMixState, MIX_COUNT, mix_from_similar};
use ratune::media::{Song, QueueState};

fn song(id: &str) -> Song {
    Song { id: id.into(), title: id.into(), ..Default::default() }
}

fn queue() -> QueueState {
    let mut queue = QueueState::default();
    queue.push(song("old"));
    queue
}

#[test]
fn mix_starts_with_seed_and_preserves_server_order_without_duplicates() {
    let queue = queue();
    let mut state = InstantMixState::default();
    let id = state.start(&queue, 2, false);
    let mix = state
        .finish(
            id,
            &queue,
            2,
            false,
            song("seed"),
            Ok(vec![song("b"), song("seed"), song("a"), song("b"), song("")]),
        )
        .unwrap()
        .unwrap();
    assert_eq!(mix.iter().map(|s| s.id.as_str()).collect::<Vec<_>>(), ["seed", "b", "a"]);
    assert!(state.started().is_none());
    assert_eq!(queue.songs[0].id, "old");
}

#[test]
fn errors_empty_and_seed_only_leave_queue_unchanged() {
    for response in [Err("unsupported".into()), Ok(vec![]), Ok(vec![song("seed")])] {
        let queue = queue();
        let mut state = InstantMixState::default();
        let id = state.start(&queue, 2, false);
        assert!(state.finish(id, &queue, 2, false, song("seed"), response).is_err());
        assert_eq!(queue.songs.len(), 1);
        assert_eq!(queue.songs[0].id, "old");
        assert!(state.started().is_none());
    }
}

#[test]
fn modified_queue_rejects_late_mix() {
    let mut queue = queue();
    let mut state = InstantMixState::default();
    let id = state.start(&queue, 2, false);
    queue.push(song("new"));
    assert!(state.finish(id, &queue, 2, false, song("seed"), Ok(vec![song("b")])).is_err());
    assert_eq!(queue.songs.len(), 2);
}

#[test]
fn changed_playback_or_pause_rejects_late_mix() {
    for (generation, paused) in [(3, false), (2, true)] {
        let queue = queue();
        let mut state = InstantMixState::default();
        let id = state.start(&queue, 2, false);
        assert!(state
            .finish(id, &queue, generation, paused, song("seed"), Ok(vec![song("b")]))
            .is_err());
    }
}

#[test]
fn reordered_queue_rejects_late_mix() {
    let mut queue = queue();
    queue.push(song("other"));
    let mut state = InstantMixState::default();
    let id = state.start(&queue, 2, false);
    queue.songs.reverse();
    assert!(state.finish(id, &queue, 2, false, song("seed"), Ok(vec![song("b")])).is_err());
}

#[test]
fn highlighting_another_row_does_not_cancel_the_request() {
    let mut queue = queue();
    queue.push(song("other"));
    let mut state = InstantMixState::default();
    let id = state.start(&queue, 2, false);
    queue.cursor = 1;
    assert!(state
        .finish(id, &queue, 2, false, song("seed"), Ok(vec![song("b")]))
        .unwrap()
        .is_some());
}

#[test]
fn oversized_response_is_limited_to_seed_and_requested_count() {
    let queue = queue();
    let mut state = InstantMixState::default();
    let id = state.start(&queue, 2, false);
    let songs = (0..100).map(|i| song(&i.to_string())).collect();
    let mix = state.finish(id, &queue, 2, false, song("seed"), Ok(songs)).unwrap().unwrap();
    assert_eq!(mix.len(), MIX_COUNT as usize + 1);
    assert_eq!(mix[1].id, "0");
    assert_eq!(mix.last().unwrap().id, "49");
}

#[test]
fn cancellation_and_old_response_do_not_consume_new_request() {
    let queue = queue();
    let mut state = InstantMixState::default();
    let old = state.start(&queue, 2, false);
    assert!(state.cancel());
    assert!(state
        .finish(old, &queue, 2, false, song("seed"), Ok(vec![song("b")]))
        .unwrap()
        .is_none());
    let new = state.start(&queue, 2, false);
    assert_ne!(old, new);
    assert!(state
        .finish(old, &queue, 2, false, song("seed"), Err("late error".into()))
        .unwrap()
        .is_none());
    assert!(state.started().is_some());
    assert!(state
        .finish(new, &queue, 2, false, song("seed"), Ok(vec![song("b")]))
        .unwrap()
        .is_some());
}

#[test]
fn failed_mix_message_names_the_error() {
    let queue = queue();
    let mut state = InstantMixState::new();
    let id = state.start(&queue, 2, false);
    let err = state.finish(id, &queue, 2, false, song("seed"), Err("boom".into())).unwrap_err();
    assert_eq!(err, "Instant Mix failed: boom");
    let id = state.start(&queue, 2, false);
    let err = state.finish(id, &queue, 3, false, song("seed"), Ok(vec![song("b")])).unwrap_err();
    assert_eq!(err, "Instant Mix cancelled: queue or playback changed");
}

#[test]
fn blank_ids_are_dropped_from_a_mix() {
    let mix = mix_from_similar(song("seed"), &[song("  "), song("x"), song("x")]);
    assert_eq!(mix.iter().map(|s| s.id.as_str()).collect::<Vec<_>>(), ["seed", "x"]);
}

#[test]
fn pending_request_is_latest_unanswered_start() {
    let queue = queue();
    let mut state = InstantMixState::default();
    assert!(state.started().is_none());
    let first = state.start(&queue, 1, false);
    assert!(state.started().is_some());
    let second = state.start(&queue, 1, false);
    assert!(second > first);
    assert_eq!(state.finish(first, &queue, 1, false, song("seed"), Ok(vec![song("x")])), Ok(None));
    assert!(state.started().is_some());
    assert!(state.cancel());
    assert!(state.started().is_none());
    assert!(!state.cancel());
    assert_eq!(state.finish(second, &queue, 1, false, song("seed"), Ok(vec![song("x")])), Ok(None));
}
