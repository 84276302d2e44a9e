use ratune::jukebox::{Intent, JukeboxCommand, JukeboxPlaylist, JukeboxStatus, jukebox_failure_text};
use ratune::jukebox_run::{JukeboxRun, RunAction, RunEvent, RunPhase, ReadFailure};
use ratune::media::Song;

fn song(id: &str, title: &str) -> Song {
    Song { id: id.into(), title: title.into(), ..Default::default() }
}

fn playlist() -> JukeboxPlaylist {
    JukeboxPlaylist {
        status: JukeboxStatus { current_index: 0, playing: true },
        entry: vec![song("one", "One"), song("two", "Two")],
    }
}

fn name(a: &RunAction) -> &'static str {
    match a {
        RunAction::Read => "get",
        RunAction::Send(JukeboxCommand::Skip { .. }) => "skip",
        RunAction::Send(JukeboxCommand::Start) => "start",
        RunAction::Send(_) => "other",
        RunAction::Finish(_) => "finish",
        RunAction::Wait => "wait",
    }
}

#[test]
fn remote_operation_is_preflighted_serialized_and_read_back() {
    let (mut run, first) = JukeboxRun::start(playlist(), Intent::Play(1));
    let mut actions = vec![name(&first)];
    let mut next = run.step(RunEvent::Read(Ok(playlist())));
    while let RunAction::Send(_) = next {
        actions.push(name(&next));
        next = run.step(RunEvent::Sent(Ok(())));
    }
    actions.push(name(&next));
    let result = match run.step(RunEvent::Read(Ok(playlist()))) {
        RunAction::Finish(r) => r.unwrap(),
        _ => panic!("the read back ends the operation"),
    };
    assert_eq!(result.entry.len(), 2);
    assert_eq!(actions, ["get", "skip", "start", "get"]);
    assert_eq!(run.phase(), RunPhase::Done);
}

#[test]
fn external_queue_change_is_not_overwritten() {
    let mut old = playlist();
    old.entry.pop();
    let (mut run, first) = JukeboxRun::start(old, Intent::Clear);
    assert_eq!(name(&first), "get");
    match run.step(RunEvent::Read(Ok(playlist()))) {
        RunAction::Finish(Err(e)) => assert!(e.contains("changed elsewhere")),
        _ => panic!("a changed queue is not overwritten"),
    }
    assert!(matches!(run.step(RunEvent::Sent(Ok(()))), RunAction::Wait));
}

#[test]
fn failed_mutation_is_not_retried_or_followed_by_playback() {
    let (mut run, first) = JukeboxRun::start(playlist(), Intent::Play(1));
    let mut actions = vec![name(&first)];
    let sent = run.step(RunEvent::Read(Ok(playlist())));
    actions.push(name(&sent));
    let error = match run.step(RunEvent::Sent(Err(None))) {
        RunAction::Finish(Err(e)) => e,
        _ => panic!("a failed command ends the operation"),
    };
    assert!(!error.contains("http"));
    assert_eq!(actions, ["get", "skip"]);
    assert!(matches!(run.step(RunEvent::Sent(Ok(()))), RunAction::Wait));
    assert!(matches!(run.step(RunEvent::Read(Ok(playlist()))), RunAction::Wait));
}

#[test]
fn inconsistent_remote_index_is_rejected() {
    let (mut run, _) = JukeboxRun::start(playlist(), Intent::Pause);
    let bad = JukeboxPlaylist { status: JukeboxStatus { current_index: -1, playing: true }, entry: vec![] };
    match run.step(RunEvent::Read(Ok(bad))) {
        RunAction::Finish(Err(e)) => assert!(e.contains("Invalid Jukebox status")),
        _ => panic!("an inconsistent status ends the operation"),
    }
}

#[test]
fn read_error_before_acting_sends_nothing() {
    let (mut run, _) = JukeboxRun::start(playlist(), Intent::Next);
    match run.step(RunEvent::Read(Err(ReadFailure::MissingPlaylist))) {
        RunAction::Finish(Err(e)) => assert_eq!(e, "Missing Jukebox playlist"),
        _ => panic!("a failed read ends the operation"),
    }
    assert_eq!(run.phase(), RunPhase::Done);
}

#[test]
fn failures_show_fixed_lines() {
    assert_eq!(jukebox_failure_text(None), "Jukebox request failed: connection or invalid server response");
    assert_eq!(jukebox_failure_text(Some(50)),
        "Jukebox unavailable (server error 50): check Jukebox enablement and user permissions");
    assert_eq!(jukebox_failure_text(Some(0)),
        "Jukebox unavailable (server error 0): check Jukebox enablement and user permissions");
    assert_eq!(jukebox_failure_text(Some(-7)),
        "Jukebox unavailable (server error -7): check Jukebox enablement and user permissions");
    assert_eq!(jukebox_failure_text(Some(i32::MIN)),
        format!("Jukebox unavailable (server error {}): check Jukebox enablement and user permissions", i32::MIN));
    let (mut run, _) = JukeboxRun::start(playlist(), Intent::Play(1));
    run.step(RunEvent::Read(Ok(playlist())));
    match run.step(RunEvent::Sent(Err(Some(70)))) {
        RunAction::Finish(Err(e)) => assert_eq!(e, jukebox_failure_text(Some(70))),
        _ => panic!("a failed command ends the operation"),
    }
    let (mut run, _) = JukeboxRun::start(playlist(), Intent::Next);
    match run.step(RunEvent::Read(Err(ReadFailure::Request(None)))) {
        RunAction::Finish(Err(e)) => assert!(e.starts_with("Jukebox request failed")),
        _ => panic!("a failed read ends the operation"),
    }
}

#[test]
fn invalid_remote_position_is_rejected() {
    let (mut run, first) = JukeboxRun::start(playlist(), Intent::Pause);
    assert_eq!(name(&first), "get");
    match run.step(RunEvent::Read(Err(ReadFailure::InvalidStatus))) {
        RunAction::Finish(Err(e)) => assert!(e.contains("Invalid Jukebox status")),
        _ => panic!("an invalid status ends the operation"),
    }
}
