//! Remote playback state and the commands that carry out a user intent on the server.
use vstd::prelude::*;
use std::time::{Duration, Instant};
use crate::media::{Song, QueueState, song_ids, ids_of, same_ids};
use crate::runtime::{now, abort_task};
use crate::text::{trim, trimmed, views, int_text, int_string};

verus! {

/// What the local player looked like before the Jukebox took over.
pub struct PlaybackState {
    pub current_song: Option<Song>,
    pub paused: bool,
    pub player_loaded: bool,
    pub elapsed: Duration,
    pub total: Option<Duration>,
}

/// Local queue and playback kept aside while the server plays.
pub struct LocalBackup {
    pub queue: QueueState,
    pub playback: PlaybackState,
    pub volume: u8,
    pub visualizer: bool,
}

#[derive(Debug, Clone, Copy, PartialEq, Eq, Structural)]
pub enum RequestKind {
    Connect,
    Poll,
    Control,
}

/// Server playback status: the index of the current entry (`-1` for none) and whether
/// it plays.
#[derive(Debug, Clone, Copy, PartialEq, Eq, Structural)]
pub struct JukeboxStatus {
    pub current_index: i32,
    pub playing: bool,
}

/// The server's Jukebox queue and status.
pub struct JukeboxPlaylist {
    pub status: JukeboxStatus,
    pub entry: Vec<Song>,
}

/// One Subsonic `jukeboxControl` action.
#[derive(Debug, Clone, PartialEq, Eq)]
pub enum JukeboxCommand {
    Get,
    Start,
    Stop,
    Skip { index: usize, offset: u64 },
    Clear,
    Remove(usize),
    Shuffle,
    SetQueue(Vec<String>),
    Add(Vec<String>),
}

/// A command as plain values.
pub enum CommandModel {
    Get,
    Start,
    Stop,
    Skip(int, int),
    Clear,
    Remove(int),
    Shuffle,
    SetQueue(Seq<Seq<char>>),
    Add(Seq<Seq<char>>),
}


impl JukeboxCommand {
    pub open spec fn model(self) -> CommandModel {
        match self {
            JukeboxCommand::Get => CommandModel::Get,
            JukeboxCommand::Start => CommandModel::Start,
            JukeboxCommand::Stop => CommandModel::Stop,
            JukeboxCommand::Skip { index, offset } => CommandModel::Skip(index as int, offset as int),
            JukeboxCommand::Clear => CommandModel::Clear,
            JukeboxCommand::Remove(i) => CommandModel::Remove(i as int),
            JukeboxCommand::Shuffle => CommandModel::Shuffle,
            JukeboxCommand::SetQueue(ids) => CommandModel::SetQueue(views(ids@)),
            JukeboxCommand::Add(ids) => CommandModel::Add(views(ids@)),
        }
    }
}

pub open spec fn models(v: Seq<JukeboxCommand>) -> Seq<CommandModel> {
    v.map_values(|c: JukeboxCommand| c.model())
}

/// What the user asked the remote player to do.
pub enum Intent {
    Pause,
    Play(usize),
    Next,
    Previous,
    /// Seek within the current entry, in whole seconds.
    Seek(u64),
    Clear,
    Remove(usize),
    Shuffle,
    Songs { songs: Vec<Song>, replace: bool },
    Album { id: String, replace: bool },
    Mix(Box<Song>),
}

pub open spec fn msg_empty() -> Seq<char> { "Jukebox queue is empty"@ }
pub open spec fn msg_no_track() -> Seq<char> { "No track at that Jukebox queue position"@ }
pub open spec fn msg_seek_needs_track() -> Seq<char> { "Jukebox: select a track before seeking"@ }
pub open spec fn msg_bad_selection() -> Seq<char> { "Jukebox: choose 1–200 tracks; queue unchanged"@ }
pub open spec fn msg_unsupported() -> Seq<char> { "Unsupported Jukebox operation"@ }
pub open spec fn msg_changed_elsewhere() -> Seq<char> {
    "Jukebox queue changed elsewhere; refreshed without overwriting it"@
}
pub open spec fn msg_track_changed() -> Seq<char> { "Jukebox track changed; seek cancelled"@ }

/// Skip to `target` and start, when the queue has such an entry.
pub open spec fn play_at(len: int, target: int) -> Result<Seq<CommandModel>, Seq<char>> {
    if target < len {
        Ok(seq![CommandModel::Skip(target, 0), CommandModel::Start])
    } else {
        Err(msg_no_track())
    }
}

/// A selection the server accepts: 1 to 200 ids, none of them blank.
pub open spec fn selection_ok(ids: Seq<Seq<char>>) -> bool {
    &&& 0 < ids.len() <= 200
    &&& forall|i: int| 0 <= i < ids.len() ==> trim(#[trigger] ids[i]).len() > 0
}

/// The commands that carry out `intent` on a server whose queue has `len` entries,
/// current index `ci` and play state `playing`, or the message shown instead.
pub open spec fn plan_spec(len: int, ci: int, playing: bool, intent: Intent) -> Result<Seq<CommandModel>, Seq<char>> {
    let index = if ci < 0 { 0 } else { ci };
    match intent {
        Intent::Pause => if len == 0 {
            Err(msg_empty())
        } else if ci < 0 {
            play_at(len, 0)
        } else if playing {
            Ok(seq![CommandModel::Stop])
        } else {
            Ok(seq![CommandModel::Start])
        },
        Intent::Play(target) => play_at(len, target as int),
        Intent::Next => if len == 0 {
            Err(msg_empty())
        } else {
            play_at(len, if ci < 0 { 0 } else { index + 1 })
        },
        Intent::Previous => if len == 0 {
            Err(msg_empty())
        } else {
            play_at(len, if index >= 1 { index - 1 } else { 0 })
        },
        Intent::Seek(secs) => if len == 0 {
            Err(msg_empty())
        } else if ci < 0 {
            Err(msg_seek_needs_track())
        } else if playing {
            Ok(seq![CommandModel::Skip(index, secs as int)])
        } else {
            Ok(seq![CommandModel::Skip(index, secs as int), CommandModel::Stop])
        },
        Intent::Clear => Ok(seq![CommandModel::Clear]),
        Intent::Remove(target) => if (target as int) < len {
            Ok(seq![CommandModel::Remove(target as int)])
        } else {
            Err(msg_unsupported())
        },
        Intent::Shuffle => if len == 0 {
            Err(msg_empty())
        } else {
            Ok(seq![CommandModel::Shuffle])
        },
        Intent::Songs { songs, replace } => {
            let ids = song_ids(songs@);
            if !selection_ok(ids) {
                Err(msg_bad_selection())
            } else if replace {
                Ok(seq![CommandModel::SetQueue(ids), CommandModel::Skip(0, 0), CommandModel::Start])
            } else if len == 0 {
                Ok(seq![CommandModel::Add(ids), CommandModel::Skip(0, 0), CommandModel::Start])
            } else {
                Ok(seq![CommandModel::Add(ids)])
            }
        },
        Intent::Album { .. } => Err(msg_unsupported()),
        Intent::Mix(_) => Err(msg_unsupported()),
    }
}

/// `plan_spec` for a server snapshot.
pub open spec fn planned(current: JukeboxPlaylist, intent: Intent) -> Result<Seq<CommandModel>, Seq<char>> {
    plan_spec(current.entry@.len() as int, current.status.current_index as int, current.status.playing, intent)
}

/// The plan's result as plain values.
pub open spec fn plan_result_model(r: Result<Vec<JukeboxCommand>, String>) -> Result<Seq<CommandModel>, Seq<char>> {
    match r {
        Ok(cmds) => Ok(models(cmds@)),
        Err(e) => Err(e@),
    }
}

fn text(s: &str) -> (r: String)
    ensures r@ == s@,
{
    String::from_str(s)
}

fn play_cmds(len: usize, target: usize) -> (r: Result<Vec<JukeboxCommand>, String>)
    ensures plan_result_model(r) == play_at(len as int, target as int),
{
    if target < len {
        let v = vec![JukeboxCommand::Skip { index: target, offset: 0 }, JukeboxCommand::Start];
        assert(models(v@) =~= seq![CommandModel::Skip(target as int, 0), CommandModel::Start]);
        Ok(v)
    } else {
        Err(text("No track at that Jukebox queue position"))
    }
}

fn ok1(c: JukeboxCommand) -> (r: Result<Vec<JukeboxCommand>, String>)
    ensures plan_result_model(r) == Ok::<Seq<CommandModel>, Seq<char>>(seq![c.model()]),
{
    let v = vec![c];
    assert(models(v@) =~= seq![c.model()]);
    Ok(v)
}

/// True when every id is non-blank.
fn ids_non_blank(ids: &Vec<String>) -> (r: bool)
    ensures r == (forall|i: int| 0 <= i < ids@.len() ==> trim(#[trigger] views(ids@)[i]).len() > 0),
{
    let mut i: usize = 0;
    while i < ids.len()
        invariant
            i <= ids.len(),
            forall|j: int| 0 <= j < i ==> trim(#[trigger] views(ids@)[j]).len() > 0,
        decreases ids.len() - i,
    {
        let t = trimmed(ids[i].as_str());
        if t.is_empty() {
            assert(trim(views(ids@)[i as int]).len() == 0);
            return false;
        }
        i += 1;
    }
    true
}

/// The commands that carry out `intent` on the server whose state is `current`.
pub fn plan(current: &JukeboxPlaylist, intent: Intent) -> (r: Result<Vec<JukeboxCommand>, String>)
    ensures plan_result_model(r) == planned(*current, intent),
{
    let len = current.entry.len();
    let ci = current.status.current_index;
    let index: usize = if ci < 0 { 0 } else { ci as usize };
    let playing = current.status.playing;
    match intent {
        Intent::Pause => {
            if len == 0 {
                Err(text("Jukebox queue is empty"))
            } else if ci < 0 {
                play_cmds(len, 0)
            } else if playing {
                ok1(JukeboxCommand::Stop)
            } else {
                ok1(JukeboxCommand::Start)
            }
        },
        Intent::Play(target) => play_cmds(len, target),
        Intent::Next => {
            if len == 0 {
                Err(text("Jukebox queue is empty"))
            } else {
                play_cmds(len, if ci < 0 { 0 } else { index + 1 })
            }
        },
        Intent::Previous => {
            if len == 0 {
                Err(text("Jukebox queue is empty"))
            } else {
                play_cmds(len, if index >= 1 { index - 1 } else { 0 })
            }
        },
        Intent::Seek(secs) => {
            if len == 0 {
                Err(text("Jukebox queue is empty"))
            } else if ci < 0 {
                Err(text("Jukebox: select a track before seeking"))
            } else if playing {
                ok1(JukeboxCommand::Skip { index, offset: secs })
            } else {
                let v = vec![JukeboxCommand::Skip { index, offset: secs }, JukeboxCommand::Stop];
                assert(models(v@) =~= seq![CommandModel::Skip(index as int, secs as int), CommandModel::Stop]);
                Ok(v)
            }
        },
        Intent::Clear => ok1(JukeboxCommand::Clear),
        Intent::Remove(target) => {
            if target < len {
                ok1(JukeboxCommand::Remove(target))
            } else {
                Err(text("Unsupported Jukebox operation"))
            }
        },
        Intent::Shuffle => {
            if len == 0 {
                Err(text("Jukebox queue is empty"))
            } else {
                ok1(JukeboxCommand::Shuffle)
            }
        },
        Intent::Songs { songs, replace } => {
            let ids = ids_of(songs.as_slice());
            assert(views(ids@) == song_ids(songs@));
            if ids.len() == 0 || ids.len() > 200 || !ids_non_blank(&ids) {
                Err(text("Jukebox: choose 1–200 tracks; queue unchanged"))
            } else if replace {
                let ghost m = views(ids@);
                let v = vec![JukeboxCommand::SetQueue(ids), JukeboxCommand::Skip { index: 0, offset: 0 }, JukeboxCommand::Start];
                assert(models(v@) =~= seq![CommandModel::SetQueue(m), CommandModel::Skip(0, 0), CommandModel::Start]);
                Ok(v)
            } else if len == 0 {
                let ghost m = views(ids@);
                let v = vec![JukeboxCommand::Add(ids), JukeboxCommand::Skip { index: 0, offset: 0 }, JukeboxCommand::Start];
                assert(models(v@) =~= seq![CommandModel::Add(m), CommandModel::Skip(0, 0), CommandModel::Start]);
                Ok(v)
            } else {
                ok1(JukeboxCommand::Add(ids))
            }
        },
        Intent::Album { .. } => Err(text("Unsupported Jukebox operation")),
        Intent::Mix(_) => Err(text("Unsupported Jukebox operation")),
    }
}


/// True when the server's status is self-consistent: the current index is `-1` (nothing
/// selected, and then not playing) or points into a non-empty queue. Gain and position
/// are floating-point values and are not checked here.
pub open spec fn status_consistent(p: JukeboxPlaylist) -> bool {
    let ci = p.status.current_index as int;
    let len = p.entry@.len();
    !(ci < -1 || (ci >= 0 && len > 0 && ci >= len) || (ci == -1 && p.status.playing))
}

pub fn playlist_status_consistent(p: &JukeboxPlaylist) -> (r: bool)
    ensures r == status_consistent(*p),
{
    let ci = p.status.current_index;
    !(ci < -1 || (ci >= 0 && !p.entry.is_empty() && ci as usize >= p.entry.len())
        || (ci == -1 && p.status.playing))
}

/// True when both snapshots hold the same song ids in the same order.
pub fn same_queue(a: &JukeboxPlaylist, b: &JukeboxPlaylist) -> (r: bool)
    ensures r == (song_ids(a.entry@) == song_ids(b.entry@)),
{
    same_ids(a.entry.as_slice(), b.entry.as_slice())
}

/// How many of the first `k` ids equal `id`.
pub open spec fn count_before(s: Seq<Seq<char>>, id: Seq<char>, k: int) -> nat
    decreases k,
{
    if k <= 0 {
        0
    } else {
        count_before(s, id, k - 1) + if s[k - 1] == id { 1nat } else { 0nat }
    }
}

/// The position, at or after `from`, of the `n`-th (from 0) occurrence of `id`.
pub open spec fn find_nth(s: Seq<Seq<char>>, id: Seq<char>, n: nat, from: int) -> Option<int>
    decreases s.len() - from,
{
    if from < 0 || from >= s.len() {
        None
    } else if s[from] == id {
        if n == 0 { Some(from) } else { find_nth(s, id, (n - 1) as nat, from + 1) }
    } else {
        find_nth(s, id, n, from + 1)
    }
}

/// The cursor after a refresh: the same occurrence of the selected song in the new list
/// when it is still there, else the old cursor; clamped to the new list.
pub open spec fn selection_spec(old: Seq<Seq<char>>, new: Seq<Seq<char>>, cursor: int) -> int {
    let target = if 0 <= cursor < old.len() {
        let id = old[cursor];
        match find_nth(new, id, count_before(old, id, cursor), 0) {
            Some(i) => i,
            None => cursor,
        }
    } else {
        cursor
    };
    let last = if new.len() >= 1 { new.len() - 1 } else { 0 };
    if target < last { target } else { last }
}

/// Where the `n`-th (from 0) song with id `id` stands in `songs`.
fn nth_position(songs: &[Song], id: &String, n: usize) -> (r: Option<usize>)
    ensures
        match r {
            Some(k) => find_nth(song_ids(songs@), id@, n as nat, 0) == Some(k as int),
            None => find_nth(song_ids(songs@), id@, n as nat, 0) is None,
        },
{
    let ghost w = song_ids(songs@);
    let mut remaining = n;
    let mut j: usize = 0;
    while j < songs.len()
        invariant
            j <= songs.len(),
            w == song_ids(songs@),
            find_nth(w, id@, n as nat, 0) == find_nth(w, id@, remaining as nat, j as int),
        decreases songs.len() - j,
    {
        if songs[j].id == *id {
            if remaining == 0 {
                return Some(j);
            }
            remaining -= 1;
        }
        j += 1;
    }
    None
}

/// Preserve the selected occurrence of repeated song IDs across server polls.
pub fn selection_after_refresh(old: &[Song], new: &[Song], cursor: usize) -> (r: usize)
    ensures r as int == selection_spec(song_ids(old@), song_ids(new@), cursor as int),
{
    let ghost o = song_ids(old@);
    let ghost w = song_ids(new@);
    let mut target = cursor;
    if cursor < old.len() {
        let id = &old[cursor].id;
        let mut occurrence: usize = 0;
        let mut i: usize = 0;
        while i < cursor
            invariant
                i <= cursor < old.len(),
                o == song_ids(old@),
                id@ == o[cursor as int],
                occurrence as nat == count_before(o, id@, i as int),
                occurrence <= i,
            decreases cursor - i,
        {
            if old[i].id == *id {
                occurrence += 1;
            }
            i += 1;
        }
        let found = nth_position(new, id, occurrence);
        match found {
            Some(k) => { target = k; },
            None => {},
        }
    }
    let last = if new.len() >= 1 { new.len() - 1 } else { 0 };
    if target < last { target } else { last }
}

/// True when `pending` is the request with id `id`.
pub open spec fn answers(pending: Option<(u64, RequestKind)>, id: u64) -> bool {
    match pending {
        Some((pid, _)) => pid == id,
        None => false,
    }
}

pub open spec fn kind_of(pending: Option<(u64, RequestKind)>) -> RequestKind {
    match pending {
        Some((_, k)) => k,
        None => RequestKind::Poll,
    }
}

/// Remote playback bookkeeping: at most one request is pending, and only its answer is
/// accepted.
pub struct Jukebox {
    pub local: Option<LocalBackup>,
    pub snapshot: Option<JukeboxPlaylist>,
    pub pending: Option<(u64, RequestKind)>,
    pub task: Option<tokio::task::AbortHandle>,
    pub next: u64,
    pub last_poll: Option<Instant>,
    pub stale: bool,
}

impl Jukebox {
    pub fn new() -> (r: Jukebox)
        ensures
            r.local is None,
            r.snapshot is None,
            r.pending is None,
            r.task is None,
            r.next == 0,
            r.last_poll is None,
            !r.stale,
    {
        Jukebox { local: None, snapshot: None, pending: None, task: None, next: 0, last_poll: None, stale: false }
    }

    /// Remote output is in use (the local queue is set aside).
    pub fn active(&self) -> (r: bool)
        ensures r == self.local is Some,
    {
        self.local.is_some()
    }

    /// A connect or control request is in flight (polls do not count).
    pub fn busy(&self) -> (r: bool)
        ensures r == (self.pending matches Some(p) && p.1 != RequestKind::Poll),
    {
        match self.pending {
            Some((_, k)) => k != RequestKind::Poll,
            None => false,
        }
    }

    /// Starts a new request of `kind`, cancelling the task of the previous one; returns
    /// its id, which no earlier request had.
    pub fn begin(&mut self, kind: RequestKind) -> (id: u64)
        requires
            old(self).next < u64::MAX,
        ensures
            id == old(self).next + 1,
            final(self).next == id,
            final(self).pending == Some((id, kind)),
            final(self).task is None,
            final(self).local == old(self).local,
            final(self).snapshot == old(self).snapshot,
            final(self).stale == old(self).stale,
            final(self).last_poll == old(self).last_poll,
    {
        if let Some(task) = self.task.take() {
            abort_task(&task);
        }
        self.next = self.next + 1;
        self.pending = Some((self.next, kind));
        self.next
    }

    /// Accepts the answer to request `id`: only the pending request is answered, and then
    /// its kind is returned and nothing is pending any more.
    pub fn finish(&mut self, id: u64) -> (r: Option<RequestKind>)
        ensures
            if answers(old(self).pending, id) {
                &&& r == Some(kind_of(old(self).pending))
                &&& final(self).pending is None
                &&& final(self).task is None
                &&& final(self).last_poll is Some
            } else {
                &&& r is None
                &&& final(self).pending == old(self).pending
                &&& final(self).task == old(self).task
                &&& final(self).last_poll == old(self).last_poll
            },
            final(self).next == old(self).next,
            final(self).local == old(self).local,
            final(self).snapshot == old(self).snapshot,
            final(self).stale == old(self).stale,
    {
        let current = self.pending;
        match current {
            Some((pid, kind)) => {
                if pid == id {
                    self.task = None;
                    self.last_poll = Some(now());
                    self.pending = None;
                    Some(kind)
                } else {
                    None
                }
            },
            None => None,
        }
    }

    /// Drops the pending request and the server snapshot.
    pub fn disconnect(&mut self)
        ensures
            final(self).pending is None,
            final(self).task is None,
            final(self).snapshot is None,
            !final(self).stale,
            final(self).next == old(self).next,
            final(self).local == old(self).local,
            final(self).last_poll == old(self).last_poll,
    {
        if let Some(task) = self.task.take() {
            abort_task(&task);
        }
        self.pending = None;
        self.snapshot = None;
        self.stale = false;
    }
}

/// The queue cursor after a server snapshot is taken over: on the first snapshot the
/// server's current entry (or the first), afterwards the same occurrence of the selected
/// song (`selection_spec`); clamped to the new queue either way.
pub open spec fn synced_cursor_spec(initial: bool, current_index: int, old: Seq<Seq<char>>, new: Seq<Seq<char>>, cursor: int) -> int {
    let target = if initial {
        if current_index >= 0 { current_index } else { 0 }
    } else {
        selection_spec(old, new, cursor)
    };
    let last = if new.len() >= 1 { new.len() - 1 } else { 0 };
    if target < last { target } else { last }
}

/// The queue cursor after taking over the server snapshot `snapshot` (see
/// `synced_cursor_spec`), `initial` when no snapshot was held before.
pub fn synced_cursor(initial: bool, old: &[Song], snapshot: &JukeboxPlaylist, cursor: usize) -> (r: usize)
    ensures
        r as int == synced_cursor_spec(initial, snapshot.status.current_index as int, song_ids(old@),
            song_ids(snapshot.entry@), cursor as int),
{
    let target: usize = if initial {
        if snapshot.status.current_index >= 0 { snapshot.status.current_index as usize } else { 0 }
    } else {
        selection_after_refresh(old, snapshot.entry.as_slice(), cursor)
    };
    let last = if snapshot.entry.len() >= 1 { snapshot.entry.len() - 1 } else { 0 };
    if target < last { target } else { last }
}

/// Seconds between status polls while the remote output is in use.
pub const POLL_INTERVAL_SECS: u64 = 2;

/// A poll is due when the remote output is in use, nothing is pending, and the last poll
/// (if any) was at least `POLL_INTERVAL_SECS` ago.
pub fn poll_due(jukebox: &Jukebox, secs_since_last_poll: Option<u64>) -> (r: bool)
    ensures
        r == (jukebox.local is Some && jukebox.pending is None && match secs_since_last_poll {
            Some(s) => s >= POLL_INTERVAL_SECS,
            None => true,
        }),
{
    jukebox.active() && jukebox.pending.is_none() && match secs_since_last_poll {
        Some(s) => s >= POLL_INTERVAL_SECS,
        None => true,
    }
}

/// The output label of the status bar.
pub open spec fn label_spec(active: bool, stale: bool, busy: bool) -> Seq<char> {
    if active {
        if stale { "Jukebox (stale)"@ } else if busy { "Jukebox (working)"@ } else { "Jukebox"@ }
    } else if busy {
        "Local (connecting)"@
    } else {
        "Local"@
    }
}

/// Status-bar label of the output: remote (and whether stale or working) or local.
pub fn jukebox_label(jukebox: &Jukebox) -> (r: &'static str)
    ensures r@ == label_spec(jukebox.local is Some, jukebox.stale,
        jukebox.pending matches Some(p) && p.1 != RequestKind::Poll),
{
    if jukebox.active() {
        if jukebox.stale {
            "Jukebox (stale)"
        } else if jukebox.busy() {
            "Jukebox (working)"
        } else {
            "Jukebox"
        }
    } else if jukebox.busy() {
        "Local (connecting)"
    } else {
        "Local"
    }
}

/// The commands for `intent` against the server read back as `current`, refused when the
/// queue changed since `expected` was shown or, for a seek, the current track did.
pub open spec fn checked_plan(expected: JukeboxPlaylist, current: JukeboxPlaylist, intent: Intent)
    -> Result<Seq<CommandModel>, Seq<char>>
{
    if song_ids(expected.entry@) != song_ids(current.entry@) {
        Err(msg_changed_elsewhere())
    } else if intent is Seek && expected.status.current_index != current.status.current_index {
        Err(msg_track_changed())
    } else {
        planned(current, intent)
    }
}

/// The commands to send once the server has been read back as `current`: refused when
/// the queue changed since `expected` was shown, or (for a seek) the current track did.
pub fn plan_against(expected: &JukeboxPlaylist, current: &JukeboxPlaylist, intent: Intent)
    -> (r: Result<Vec<JukeboxCommand>, String>)
    ensures
        plan_result_model(r) == checked_plan(*expected, *current, intent),
{
    if !same_queue(expected, current) {
        return Err(text("Jukebox queue changed elsewhere; refreshed without overwriting it"));
    }
    if let Intent::Seek(_) = intent {
        if expected.status.current_index != current.status.current_index {
            return Err(text("Jukebox track changed; seek cancelled"));
        }
    }
    plan(current, intent)
}

/// The songs of an album as a Jukebox selection, in album order (disc, then track).
pub fn album_intent(songs: &[Song], replace: bool) -> (r: Intent)
    ensures
        r matches Intent::Songs { songs: out, replace: rep } && out@ == crate::track_order::album_order(songs@)
            && rep == replace,
{
    Intent::Songs { songs: crate::track_order::sort_album_order(songs), replace }
}

pub open spec fn msg_jukebox_mix_empty() -> Seq<char> { "Instant Mix: no similar songs; Jukebox unchanged"@ }

/// The Instant Mix for `seed` as a Jukebox selection that replaces the server queue; an
/// error when the server found no new similar song.
pub fn mix_intent(seed: Song, similar: &[Song]) -> (r: Result<Intent, String>)
    ensures
        match r {
            Ok(i) => i matches Intent::Songs { songs: out, replace: rep }
                && out@ == crate::instant_mix::mix_spec(seed, similar@) && rep
                && crate::instant_mix::mix_spec(seed, similar@).len() > 1,
            Err(e) => e@ == msg_jukebox_mix_empty() && crate::instant_mix::mix_spec(seed, similar@).len() == 1,
        },
{
    let songs = crate::instant_mix::mix_from_similar(seed, similar);
    if songs.len() == 1 {
        return Err(String::from_str("Instant Mix: no similar songs; Jukebox unchanged"));
    }
    Ok(Intent::Songs { songs, replace: true })
}


/// Appending to a non-empty server queue sends only the `add`: what plays is not
/// interrupted.
pub proof fn append_does_not_interrupt(len: int, ci: int, playing: bool, songs: Vec<Song>)
    requires len > 0,
    ensures
        plan_spec(len, ci, playing, Intent::Songs { songs, replace: false }) matches Ok(cmds)
            ==> cmds == seq![CommandModel::Add(song_ids(songs@))],
{
}

/// True for a selection that is to replace the server queue.
pub open spec fn replaces_queue(intent: Intent) -> bool {
    match intent {
        Intent::Songs { replace, .. } => replace,
        _ => false,
    }
}

/// Only an explicit replace sets the server queue, and only an explicit clear clears it.
pub proof fn replace_and_clear_are_explicit(len: int, ci: int, playing: bool, intent: Intent)
    ensures
        plan_spec(len, ci, playing, intent) matches Ok(cmds) ==> {
            &&& (exists|i: int| 0 <= i < cmds.len() && #[trigger] cmds[i] is SetQueue)
                    ==> replaces_queue(intent)
            &&& (exists|i: int| 0 <= i < cmds.len() && #[trigger] cmds[i] is Clear)
                    ==> intent is Clear
        },
{
}

/// Next plays the entry after the one the server reports as current; with nothing
/// current, playback begins at the first entry (for Next and for play/pause).
pub proof fn next_follows_server_index(len: int, ci: int, playing: bool)
    requires len > 0,
    ensures
        0 <= ci && ci + 1 < len ==> plan_spec(len, ci, playing, Intent::Next)
            == Ok::<Seq<CommandModel>, Seq<char>>(seq![CommandModel::Skip(ci + 1, 0), CommandModel::Start]),
        ci < 0 ==> plan_spec(len, ci, playing, Intent::Next)
            == Ok::<Seq<CommandModel>, Seq<char>>(seq![CommandModel::Skip(0, 0), CommandModel::Start]),
        ci < 0 ==> plan_spec(len, ci, playing, Intent::Pause)
            == Ok::<Seq<CommandModel>, Seq<char>>(seq![CommandModel::Skip(0, 0), CommandModel::Start]),
{
}

/// Previous plays the entry before the one the server reports as current; at the first
/// entry, or with nothing current, it plays the first entry.
pub proof fn previous_goes_back_one(len: int, ci: int, playing: bool)
    requires len > 0,
    ensures
        1 <= ci < len ==> plan_spec(len, ci, playing, Intent::Previous)
            == Ok::<Seq<CommandModel>, Seq<char>>(seq![CommandModel::Skip(ci - 1, 0), CommandModel::Start]),
        ci <= 0 ==> plan_spec(len, ci, playing, Intent::Previous)
            == Ok::<Seq<CommandModel>, Seq<char>>(seq![CommandModel::Skip(0, 0), CommandModel::Start]),
{
}

/// A seek keeps the play state: while paused it is followed by a stop, while playing it
/// is sent alone.
pub proof fn seek_keeps_play_state(len: int, ci: int, playing: bool, secs: u64)
    requires len > 0, ci >= 0,
    ensures
        !playing ==> plan_spec(len, ci, playing, Intent::Seek(secs))
            == Ok::<Seq<CommandModel>, Seq<char>>(seq![CommandModel::Skip(ci, secs as int), CommandModel::Stop]),
        playing ==> plan_spec(len, ci, playing, Intent::Seek(secs))
            == Ok::<Seq<CommandModel>, Seq<char>>(seq![CommandModel::Skip(ci, secs as int)]),
{
}

proof fn lemma_count_before_monotone(s: Seq<Seq<char>>, id: Seq<char>, a: int, b: int)
    requires 0 <= a <= b,
    ensures count_before(s, id, a) <= count_before(s, id, b),
    decreases b - a,
{
    if a < b {
        lemma_count_before_monotone(s, id, a, b - 1);
    }
}

proof fn lemma_find_own_occurrence(s: Seq<Seq<char>>, id: Seq<char>, from: int, c: int)
    requires
        0 <= from <= c < s.len(),
        s[c] == id,
    ensures
        find_nth(s, id, (count_before(s, id, c) - count_before(s, id, from)) as nat, from) == Some(c),
    decreases c - from,
{
    if from < c {
        lemma_count_before_monotone(s, id, from + 1, c);
        lemma_find_own_occurrence(s, id, from + 1, c);
        assert(count_before(s, id, from + 1) == count_before(s, id, from) + if s[from] == id { 1nat } else { 0nat });
    }
}

/// When a poll returns the same queue, the cursor stays on its row; whatever the server
/// returns, the cursor lands on one of its rows (row 0 of an empty queue).
pub proof fn selection_kept_and_clamped(old: Seq<Seq<char>>, new: Seq<Seq<char>>, cursor: int)
    requires 0 <= cursor,
    ensures
        cursor < old.len() ==> selection_spec(old, old, cursor) == cursor,
        new.len() > 0 ==> 0 <= selection_spec(old, new, cursor) < new.len(),
        new.len() == 0 ==> selection_spec(old, new, cursor) == 0,
{
    if cursor < old.len() {
        lemma_find_own_occurrence(old, old[cursor], 0, cursor);
        assert(count_before(old, old[cursor], 0) == 0);
    }
    if 0 <= cursor < old.len() {
        let id = old[cursor];
        let n = count_before(old, id, cursor);
        match find_nth(new, id, n, 0) {
            Some(i) => { lemma_find_nth_bounds(new, id, n, 0); },
            None => {},
        }
    }
}

proof fn lemma_find_nth_counts(s: Seq<Seq<char>>, id: Seq<char>, n: nat, from: int)
    requires 0 <= from <= s.len(),
    ensures
        match find_nth(s, id, n, from) {
            Some(i) => from <= i < s.len() && s[i] == id
                && count_before(s, id, i) == count_before(s, id, from) + n
                && count_before(s, id, s.len() as int) > count_before(s, id, from) + n,
            None => count_before(s, id, s.len() as int) <= count_before(s, id, from) + n,
        },
    decreases s.len() - from,
{
    if from < s.len() {
        assert(count_before(s, id, from + 1) == count_before(s, id, from) + if s[from] == id { 1nat } else { 0nat });
        if s[from] == id && n == 0 {
            lemma_count_before_monotone(s, id, from + 1, s.len() as int);
        } else if s[from] == id {
            lemma_find_nth_counts(s, id, (n - 1) as nat, from + 1);
        } else {
            lemma_find_nth_counts(s, id, n, from + 1);
        }
    }
}

/// Across a refresh the cursor follows the song it was on. Say the song is the `k`-th
/// (from 0) copy of its id in the old list. When the new list holds more than `k` copies,
/// the cursor lands on a row with that id that has exactly `k` copies before it. When it
/// holds `k` or fewer (the song was removed), the cursor keeps its row number, clamped to
/// the last row of the new list.
pub proof fn selection_follows_the_song(old: Seq<Seq<char>>, new: Seq<Seq<char>>, cursor: int)
    requires
        0 <= cursor < old.len(),
        new.len() > 0,
    ensures
        ({
            let id = old[cursor];
            let k = count_before(old, id, cursor);
            let r = selection_spec(old, new, cursor);
            &&& count_before(new, id, new.len() as int) > k ==> {
                &&& 0 <= r < new.len()
                &&& new[r] == id
                &&& count_before(new, id, r) == k
            }
            &&& count_before(new, id, new.len() as int) <= k ==>
                r == if cursor < new.len() { cursor } else { new.len() - 1 }
        }),
{
    let id = old[cursor];
    let k = count_before(old, id, cursor);
    lemma_find_nth_counts(new, id, k, 0);
    assert(count_before(new, id, 0) == 0);
}

proof fn lemma_find_nth_bounds(s: Seq<Seq<char>>, id: Seq<char>, n: nat, from: int)
    ensures find_nth(s, id, n, from) matches Some(i) ==> 0 <= from <= i < s.len(),
    decreases s.len() - from,
{
    if 0 <= from < s.len() {
        if s[from] == id {
            if n > 0 {
                lemma_find_nth_bounds(s, id, (n - 1) as nat, from + 1);
            }
        } else {
            lemma_find_nth_bounds(s, id, n, from + 1);
        }
    }
}
/// The status line for a failed Jukebox request: with the Subsonic error code the server
/// answered, a hint to check Jukebox enablement and permissions; otherwise (no
/// connection, or an answer that could not be read) a fixed line that shows no address.
pub open spec fn failure_text(server_code: Option<i32>) -> Seq<char> {
    match server_code {
        Some(c) => "Jukebox unavailable (server error "@ + int_text(c as int)
            + "): check Jukebox enablement and user permissions"@,
        None => "Jukebox request failed: connection or invalid server response"@,
    }
}

/// The status line for a failed Jukebox request (see `failure_text`).
pub fn jukebox_failure_text(server_code: Option<i32>) -> (r: String)
    ensures r@ == failure_text(server_code),
{
    match server_code {
        Some(c) => {
            let mut r = text("Jukebox unavailable (server error ");
            let n = int_string(c);
            r.append(n.as_str());
            r.append("): check Jukebox enablement and user permissions");
            r
        },
        None => text("Jukebox request failed: connection or invalid server response"),
    }
}

} // verus!
