use ratune::playback_error::{humanize_playback_error, classify_playback_error};

#[test]
fn known_causes_get_a_short_message() {
    assert_eq!(
        humanize_playback_error("playback error: Error decoding response body"),
        "Playback failed: stream interrupted or invalid (retry)"
    );
    assert_eq!(humanize_playback_error("stream HTTP 404"), "Playback failed: server error or denied");
    assert_eq!(humanize_playback_error("DNS lookup failed"), "Playback failed: network error");
    assert_eq!(humanize_playback_error("enqueue error: disk full"), "disk full");
    assert_eq!(humanize_playback_error("playback error: enqueue error: x"), "Next track: download failed");
    assert_eq!(humanize_playback_error("HLS stream detected"), "Playback failed: HLS streams are not supported");
}

#[test]
fn unknown_errors_show_their_first_line() {
    assert_eq!(humanize_playback_error("  something odd \nmore"), "something odd");
    assert_eq!(humanize_playback_error(" \n"), "Playback failed");
    let long = "x".repeat(80);
    let shown = humanize_playback_error(&long);
    assert_eq!(shown.chars().count(), 71);
    assert!(shown.ends_with('…'));
}

#[test]
fn classification_reads_the_lowercase_text() {
    assert_eq!(classify_playback_error("Timeout", "timeout"), "Playback failed: network error");
    assert_eq!(classify_playback_error("Weird", "weird"), "Weird");
}
