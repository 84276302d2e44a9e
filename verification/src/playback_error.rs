//! Short status-bar lines for playback failures.
use vstd::prelude::*;
use crate::text::{contains, trim, chars_of, trimmed, str_contains, strip_prefix_str, strip_prefix, owned};

verus! {

/// `str::to_lowercase`: the Unicode lowercase mapping of a string.
pub uninterp spec fn lowercase_of(s: Seq<char>) -> Seq<char>;

/// Lowercases `s` with `str::to_lowercase`; the result is `lowercase_of(s)`.
#[verifier::external_body]
pub(crate) fn to_lowercase(s: &str) -> (r: String)
    ensures r@ == lowercase_of(s@),
{
    s.to_lowercase()
}

/// The message without a leading `playback error: ` or `enqueue error: `.
pub open spec fn without_error_prefix(message: Seq<char>) -> Seq<char> {
    match strip_prefix(message, "playback error: "@) {
        Some(r) => r,
        None => match strip_prefix(message, "enqueue error: "@) {
            Some(r) => r,
            None => message,
        },
    }
}

/// The text before the first line feed.
pub open spec fn first_line(s: Seq<char>) -> Seq<char>
    decreases s.len(),
{
    if s.len() == 0 {
        s
    } else if s[0] == '\n' {
        Seq::empty()
    } else {
        seq![s[0]] + first_line(s.drop_first())
    }
}

/// The fallback line: the first line of `raw`, trimmed, cut to 70 characters (marked
/// with `…` when it reaches 70), or `Playback failed` when nothing is left.
pub open spec fn fallback_line(raw: Seq<char>) -> Seq<char> {
    let t = trim(first_line(raw));
    let one = if t.len() <= 70 { t } else { t.take(70) };
    if one.len() == 0 {
        "Playback failed"@
    } else if one.len() == 70 {
        one + "…"@
    } else {
        one
    }
}

/// The status line for an error whose text (without prefix) is `raw` and whose lowercase
/// form is `lower`: the first known cause found in `lower`, else the fallback line.
pub open spec fn humanized(raw: Seq<char>, lower: Seq<char>) -> Seq<char> {
    if contains(lower, "decoding response body"@) || contains(lower, "error decoding"@) {
        "Playback failed: stream interrupted or invalid (retry)"@
    } else if contains(lower, "stream http"@) || contains(lower, "http 4"@) || contains(lower, "http 5"@) {
        "Playback failed: server error or denied"@
    } else if contains(lower, "connecting to stream"@) || contains(lower, "connection refused"@) || contains(lower, "error sending request"@) || contains(lower, "timeout"@) || contains(lower, "dns"@) {
        "Playback failed: network error"@
    } else if contains(lower, "decoding live stream"@) || contains(lower, "format of the data"@) {
        "Playback failed: radio stream format not supported"@
    } else if contains(lower, "live stream timed out"@) || contains(lower, "timed out during decode"@) {
        "Playback failed: radio stream timed out"@
    } else if contains(lower, "hls stream"@) || contains(lower, ".m3u8"@) {
        "Playback failed: HLS streams are not supported"@
    } else if contains(lower, "aac radio stream"@) {
        "Playback failed: AAC stream could not start"@
    } else if contains(lower, "ogg radio stream"@) {
        "Playback failed: OGG stream could not start"@
    } else if contains(lower, "playlist redirect limit"@) {
        "Playback failed: too many playlist redirects — use a direct stream URL"@
    } else if contains(lower, "m3u playlist"@) || contains(lower, "pls playlist"@) {
        "Playback failed: use a direct stream URL, not a playlist file"@
    } else if contains(lower, "returned a web page"@) {
        "Playback failed: stream URL is not audio (check the station URL)"@
    } else if contains(lower, "stream prebuffer timeout"@) {
        "Playback failed: radio stream too slow to start (retry)"@
    } else if contains(lower, "stream returned no data"@) {
        "Playback failed: radio stream returned no data"@
    } else if contains(lower, "enqueue error"@) {
        "Next track: download failed"@
    } else if contains(lower, "reading stream body"@) {
        "Playback failed: stream interrupted (retry)"@
    } else if contains(lower, "reading cached track"@) {
        "Playback failed: offline cache unreadable (try disabling cache)"@
    } else {
        fallback_line(raw)
    }
}

fn first_line_len(v: &Vec<char>) -> (n: usize)
    ensures
        n <= v@.len(),
        v@.take(n as int) == first_line(v@),
{
    let mut i: usize = 0;
    assert(v@.skip(0) =~= v@);
    while i < v.len() && v[i] != '\n'
        invariant
            i <= v@.len(),
            first_line(v@) == v@.take(i as int) + first_line(v@.skip(i as int)),
        decreases v.len() - i,
    {
        assert(v@.skip(i as int).drop_first() =~= v@.skip(i + 1));
        assert(v@.take(i + 1) =~= v@.take(i as int) + seq![v@[i as int]]);
        i += 1;
    }
    assert(first_line(v@.skip(i as int)) =~= Seq::<char>::empty());
    assert(v@.take(i as int) + Seq::<char>::empty() =~= v@.take(i as int));
    i
}

fn fallback(raw: &str) -> (r: String)
    ensures r@ == fallback_line(raw@),
{
    let v = chars_of(raw);
    let n = first_line_len(&v);
    let line = raw.substring_char(0, n);
    let t = trimmed(line);
    let tv = chars_of(t);
    let k = if tv.len() <= 70 { tv.len() } else { 70 };
    let one = t.substring_char(0, k);
    assert(tv@.len() <= 70 ==> tv@.take(k as int) =~= tv@);
    if k == 0 {
        String::from_str("Playback failed")
    } else if k == 70 {
        let mut s = owned(one);
        s.append("…");
        s
    } else {
        owned(one)
    }
}

/// The status line for an error, given its text without prefix and that text lowercased.
pub fn classify_playback_error(raw: &str, lower: &str) -> (r: String)
    ensures r@ == humanized(raw@, lower@),
{
    if str_contains(lower, "decoding response body") || str_contains(lower, "error decoding") {
        String::from_str("Playback failed: stream interrupted or invalid (retry)")
    } else if str_contains(lower, "stream http") || str_contains(lower, "http 4") || str_contains(lower, "http 5") {
        String::from_str("Playback failed: server error or denied")
    } else if str_contains(lower, "connecting to stream") || str_contains(lower, "connection refused") || str_contains(lower, "error sending request") || str_contains(lower, "timeout") || str_contains(lower, "dns") {
        String::from_str("Playback failed: network error")
    } else if str_contains(lower, "decoding live stream") || str_contains(lower, "format of the data") {
        String::from_str("Playback failed: radio stream format not supported")
    } else if str_contains(lower, "live stream timed out") || str_contains(lower, "timed out during decode") {
        String::from_str("Playback failed: radio stream timed out")
    } else if str_contains(lower, "hls stream") || str_contains(lower, ".m3u8") {
        String::from_str("Playback failed: HLS streams are not supported")
    } else if str_contains(lower, "aac radio stream") {
        String::from_str("Playback failed: AAC stream could not start")
    } else if str_contains(lower, "ogg radio stream") {
        String::from_str("Playback failed: OGG stream could not start")
    } else if str_contains(lower, "playlist redirect limit") {
        String::from_str("Playback failed: too many playlist redirects — use a direct stream URL")
    } else if str_contains(lower, "m3u playlist") || str_contains(lower, "pls playlist") {
        String::from_str("Playback failed: use a direct stream URL, not a playlist file")
    } else if str_contains(lower, "returned a web page") {
        String::from_str("Playback failed: stream URL is not audio (check the station URL)")
    } else if str_contains(lower, "stream prebuffer timeout") {
        String::from_str("Playback failed: radio stream too slow to start (retry)")
    } else if str_contains(lower, "stream returned no data") {
        String::from_str("Playback failed: radio stream returned no data")
    } else if str_contains(lower, "enqueue error") {
        String::from_str("Next track: download failed")
    } else if str_contains(lower, "reading stream body") {
        String::from_str("Playback failed: stream interrupted (retry)")
    } else if str_contains(lower, "reading cached track") {
        String::from_str("Playback failed: offline cache unreadable (try disabling cache)")
    } else {
        fallback(raw)
    }
}

/// Map raw engine/network errors to a short status-bar line (no multiline chains).
pub fn humanize_playback_error(message: &str) -> (r: String)
    ensures
        r@ == humanized(without_error_prefix(message@), lowercase_of(without_error_prefix(message@))),
{
    let raw = match strip_prefix_str(message, "playback error: ") {
        Some(r) => r,
        None => match strip_prefix_str(message, "enqueue error: ") {
            Some(r) => r,
            None => message,
        },
    };
    let lower = to_lowercase(raw);
    classify_playback_error(raw, lower.as_str())
}

} // verus!
