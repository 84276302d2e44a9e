//! Instant Mix request bookkeeping, kept apart from playback so it can be checked alone.
use vstd::prelude::*;
use std::time::Instant;
use crate::media::{Song, QueueState, song_ids, ids_of, same_ids};
use crate::runtime::now;
use crate::text::views;
use crate::dedup::{first_unique_songs, unique_songs, id_set, first_unique_songs_laws, subsequence_of};

verus! {

pub const MIX_COUNT: u32 = 50;

struct PendingMix {
    id: u64,
    started: Instant,
    queue_ids: Vec<String>,
    play_gen: u64,
    paused: bool,
}

/// The request in flight, as plain values: id, queue ids when it started, playback
/// generation and pause state.
pub struct PendingView {
    pub id: u64,
    pub queue_ids: Seq<Seq<char>>,
    pub play_gen: u64,
    pub paused: bool,
}


/// At most one Instant Mix request is pending; only its answer can change the queue.
#[derive(Default)]
pub struct InstantMixState {
    next_id: u64,
    pending: Option<PendingMix>,
}

/// The mix for `seed`: the seed, then up to `MIX_COUNT` similar songs in server order,
/// without blank ids and without repeating an id (the seed's included).
pub open spec fn mix_spec(seed: Song, similar: Seq<Song>) -> Seq<Song> {
    seq![seed] + first_unique_songs(similar, Set::empty().insert(seed.id@), MIX_COUNT as nat, true)
}

/// Builds the mix for `seed` from the songs the server found similar.
pub fn mix_from_similar(seed: Song, similar: &[Song]) -> (r: Vec<Song>)
    ensures r@ == mix_spec(seed, similar@),
{
    let mut seen: Vec<String> = Vec::new();
    seen.push(seed.id.clone());
    assert(id_set(seen@) =~= Set::<Seq<char>>::empty().insert(seed.id@)) by {
        assert(seen@[0]@ == seed.id@);
    }
    let rest = unique_songs(similar, seen, MIX_COUNT as usize, true);
    let mut mix: Vec<Song> = Vec::new();
    mix.push(seed);
    let mut i: usize = 0;
    while i < rest.len()
        invariant
            i <= rest.len(),
            mix@ == seq![seed] + rest@.take(i as int),
        decreases rest.len() - i,
    {
        mix.push(rest[i].duplicate());
        assert(rest@.take(i + 1) == rest@.take(i as int).push(rest@[i as int]));
        i += 1;
    }
    assert(rest@.take(rest.len() as int) =~= rest@);
    mix
}

pub open spec fn msg_mix_cancelled() -> Seq<char> { "Instant Mix cancelled: queue or playback changed"@ }
pub open spec fn msg_mix_failed(e: Seq<char>) -> Seq<char> { "Instant Mix failed: "@ + e }
pub open spec fn msg_mix_empty() -> Seq<char> { "Instant Mix: no similar songs — queue unchanged"@ }

/// What `finish` answers, as plain values.
pub open spec fn finish_spec(
    pending: Option<PendingView>,
    id: u64,
    queue: Seq<Seq<char>>,
    play_gen: u64,
    paused: bool,
    seed: Song,
    result: Result<Seq<Song>, Seq<char>>,
) -> Result<Option<Seq<Song>>, Seq<char>> {
    match pending {
        Some(p) if p.id == id => {
            if p.play_gen != play_gen || p.paused != paused || p.queue_ids != queue {
                Err(msg_mix_cancelled())
            } else {
                match result {
                    Err(e) => Err(msg_mix_failed(e)),
                    Ok(songs) => {
                        let mix = mix_spec(seed, songs);
                        if mix.len() == 1 { Err(msg_mix_empty()) } else { Ok(Some(mix)) }
                    },
                }
            }
        },
        _ => Ok(None),
    }
}

pub open spec fn result_view(r: Result<Vec<Song>, String>) -> Result<Seq<Song>, Seq<char>> {
    match r {
        Ok(v) => Ok(v@),
        Err(e) => Err(e@),
    }
}

pub open spec fn answer_view(r: Result<Option<Vec<Song>>, String>) -> Result<Option<Seq<Song>>, Seq<char>> {
    match r {
        Ok(Some(v)) => Ok(Some(v@)),
        Ok(None) => Ok(None),
        Err(e) => Err(e@),
    }
}

impl InstantMixState {
    /// The pending request as plain values.
    pub closed spec fn pending_view(&self) -> Option<PendingView> {
        match self.pending {
            Some(p) => Some(PendingView {
                id: p.id,
                queue_ids: views(p.queue_ids@),
                play_gen: p.play_gen,
                paused: p.paused,
            }),
            None => None,
        }
    }

    /// The id of the last request started.
    pub closed spec fn last_id(&self) -> u64 {
        self.next_id
    }

    #[verifier::type_invariant]
    spec fn well_formed(&self) -> bool {
        match self.pending {
            Some(p) => p.id <= self.next_id,
            None => true,
        }
    }

    pub fn new() -> (r: InstantMixState)
        ensures
            r.pending_view() is None,
            r.last_id() == 0,
    {
        InstantMixState { next_id: 0, pending: None }
    }

    /// The id of the last request started (0 before the first).
    pub fn last_request_id(&self) -> (r: u64)
        ensures
            r == self.last_id(),
            self.pending_view() matches Some(p) ==> p.id <= r,
    {
        proof { use_type_invariant(self); }
        self.next_id
    }

    /// When the pending request started, if one is pending.
    pub fn started(&self) -> (r: Option<Instant>)
        ensures r is Some <==> self.pending_view() is Some,
    {
        match &self.pending {
            Some(p) => Some(p.started),
            None => None,
        }
    }

    /// Drops the pending request; true when there was one.
    pub fn cancel(&mut self) -> (r: bool)
        ensures
            r == old(self).pending_view() is Some,
            final(self).pending_view() is None,
            final(self).last_id() == old(self).last_id(),
    {
        let had = self.pending.is_some();
        self.pending = None;
        had
    }

    /// Records a new request against the current queue and playback, replacing any
    /// pending one; returns its id, which no earlier request had.
    pub fn start(&mut self, queue: &QueueState, play_gen: u64, paused: bool) -> (id: u64)
        requires
            old(self).last_id() < u64::MAX,
        ensures
            id == old(self).last_id() + 1,
            final(self).last_id() == id,
            final(self).pending_view() == Some(PendingView {
                id,
                queue_ids: song_ids(queue.songs@),
                play_gen,
                paused,
            }),
    {
        proof { use_type_invariant(&*self); }
        self.next_id = self.next_id + 1;
        let ids = ids_of(queue.songs.as_slice());
        self.pending = Some(PendingMix { id: self.next_id, started: now(), queue_ids: ids, play_gen, paused });
        self.next_id
    }

    /// Return a replacement only for the latest request and unchanged playback/queue.
    /// Cancellation and late responses are silent. Errors never mutate the queue.
    pub fn finish(
        &mut self,
        id: u64,
        queue: &QueueState,
        play_gen: u64,
        paused: bool,
        seed: Song,
        result: Result<Vec<Song>, String>,
    ) -> (r: Result<Option<Vec<Song>>, String>)
        ensures
            answer_view(r) == finish_spec(old(self).pending_view(), id, song_ids(queue.songs@),
                play_gen, paused, seed, result_view(result)),
            final(self).pending_view() == if old(self).pending_view() matches Some(p) && p.id == id {
                None
            } else {
                old(self).pending_view()
            },
            final(self).last_id() == old(self).last_id(),
    {
        let matches_id = match &self.pending {
            Some(p) => p.id == id,
            None => false,
        };
        if !matches_id {
            return Ok(None);
        }
        let mut slot: Option<PendingMix> = None;
        std::mem::swap(&mut slot, &mut self.pending);
        let pending = slot.unwrap();
        let queue_ids = ids_of(queue.songs.as_slice());
        if pending.play_gen != play_gen || pending.paused != paused
            || !crate::text::string_lists_eq(&pending.queue_ids, &queue_ids)
        {
            return Err(String::from_str("Instant Mix cancelled: queue or playback changed"));
        }
        match result {
            Err(e) => {
                let mut m = String::from_str("Instant Mix failed: ");
                m.append(e.as_str());
                Err(m)
            },
            Ok(songs) => {
                let mix = mix_from_similar(seed, songs.as_slice());
                if mix.len() == 1 {
                    Err(String::from_str("Instant Mix: no similar songs — queue unchanged"))
                } else {
                    Ok(Some(mix))
                }
            },
        }
    }
}


/// An Instant Mix starts with its seed, then keeps the server's order; it holds at most
/// `MIX_COUNT` songs besides the seed, and no id twice.
pub proof fn mix_laws(seed: Song, similar: Seq<Song>)
    ensures
        mix_spec(seed, similar)[0] == seed,
        mix_spec(seed, similar).len() <= 1 + MIX_COUNT,
        subsequence_of(mix_spec(seed, similar).drop_first(), similar),
        forall|i: int, j: int| 0 <= i < j < mix_spec(seed, similar).len() ==>
            (#[trigger] mix_spec(seed, similar)[i]).id@ != (#[trigger] mix_spec(seed, similar)[j]).id@,
{
    let seen = Set::<Seq<char>>::empty().insert(seed.id@);
    let rest = first_unique_songs(similar, seen, MIX_COUNT as nat, true);
    first_unique_songs_laws(similar, seen, MIX_COUNT as nat, true);
    let m = mix_spec(seed, similar);
    assert(m.drop_first() =~= rest);
    assert forall|i: int, j: int| 0 <= i < j < m.len() implies (#[trigger] m[i]).id@ != (#[trigger] m[j]).id@ by {
        assert(m[j] == rest[j - 1]);
        if i == 0 {
            assert(seen.contains(seed.id@));
        } else {
            assert(m[i] == rest[i - 1]);
        }
    }
}

/// A mix answer changes nothing unless it answers the pending request: an answer to an
/// older or cancelled request is dropped silently; and an answer arriving after the
/// queue, the playing track or the pause state changed is refused.
pub proof fn late_mix_answers(
    pending: Option<PendingView>,
    id: u64,
    queue: Seq<Seq<char>>,
    play_gen: u64,
    paused: bool,
    seed: Song,
    result: Result<Seq<Song>, Seq<char>>,
)
    ensures
        !(pending matches Some(p) && p.id == id) ==> finish_spec(pending, id, queue, play_gen, paused, seed, result)
            == Ok::<Option<Seq<Song>>, Seq<char>>(None),
        (pending matches Some(p) && p.id == id && (p.queue_ids != queue || p.play_gen != play_gen
            || p.paused != paused)) ==> finish_spec(pending, id, queue, play_gen, paused, seed, result)
            == Err::<Option<Seq<Song>>, Seq<char>>(msg_mix_cancelled()),
{
}

/// Starting a request supersedes the earlier ones: its id is larger than every id handed
/// out before (none of which exceeds the last id), so an answer to any earlier request is
/// then dropped silently, whatever it holds.
pub proof fn start_supersedes(
    before: InstantMixState,
    after: InstantMixState,
    id: u64,
    earlier: u64,
    queue: Seq<Seq<char>>,
    play_gen: u64,
    paused: bool,
    seed: Song,
    result: Result<Seq<Song>, Seq<char>>,
)
    requires
        id == before.last_id() + 1,
        after.last_id() == id,
        after.pending_view() matches Some(p) && p.id == id,
        earlier <= before.last_id(),
    ensures
        earlier < id,
        after.pending_view() is Some,
        finish_spec(after.pending_view(), earlier, queue, play_gen, paused, seed, result)
            == Ok::<Option<Seq<Song>>, Seq<char>>(None),
{
}

/// Cancelling reports whether a request was pending and leaves none, so a second cancel
/// in a row reports false; and a request stays pending through an answer to another id.
pub proof fn cancel_and_answer_laws(
    a: Option<PendingView>,
    b: Option<PendingView>,
    c: Option<PendingView>,
    first: bool,
    second: bool,
    other: u64,
)
    requires
        first == a is Some,
        b is None,
        second == b is Some,
        c == if a matches Some(p) && p.id == other { None } else { a },
    ensures
        !second,
        a matches Some(p) && p.id != other ==> c == a,
{
}

/// A call on the request bookkeeping, by the id it carries.
pub enum MixOp {
    /// `start`, which handed out this id.
    Start(u64),
    Cancel,
    /// `finish` with this id.
    Finish(u64),
}

/// The id of the request pending after `op`, when `p` was pending before: `start` makes
/// its request the pending one, `cancel` drops it, and `finish` drops it only when it
/// carries its id (as the contracts of `start`, `cancel` and `finish` say).
pub open spec fn pending_step(p: Option<u64>, op: MixOp) -> Option<u64> {
    match op {
        MixOp::Start(id) => Some(id),
        MixOp::Cancel => None,
        MixOp::Finish(id) => if p == Some(id) { None } else { p },
    }
}

/// The id pending after the calls `ops`, from a state with none pending.
pub open spec fn pending_after(ops: Seq<MixOp>) -> Option<u64>
    decreases ops.len(),
{
    if ops.len() == 0 { None } else { pending_step(pending_after(ops.drop_last()), ops.last()) }
}

/// Request `x` was started at call `k` and is still the latest: no call after it starts
/// another request, cancels, or finishes `x`.
pub open spec fn live_from(ops: Seq<MixOp>, x: u64, k: int) -> bool {
    &&& 0 <= k < ops.len()
    &&& ops[k] == MixOp::Start(x)
    &&& forall|j: int| k < j < ops.len() ==> !(#[trigger] ops[j] is Start) && !(ops[j] is Cancel)
        && ops[j] != MixOp::Finish(x)
}

/// A request is pending (and `started()` is `Some`) exactly when the latest `start` has
/// been followed by neither `cancel` nor a `finish` with its id; a `finish` with any other
/// id changes nothing.
pub proof fn pending_is_latest_unanswered_start(ops: Seq<MixOp>, x: u64)
    ensures
        pending_after(ops) == Some(x) <==> exists|k: int| #[trigger] live_from(ops, x, k),
    decreases ops.len(),
{
    if ops.len() == 0 {
        return;
    }
    let n = ops.len() as int;
    let prev = ops.drop_last();
    pending_is_latest_unanswered_start(prev, x);
    assert forall|k: int| 0 <= k < n - 1 implies #[trigger] prev[k] == ops[k] by {}
    match ops.last() {
        MixOp::Start(id) => {
            if id == x {
                assert(live_from(ops, x, n - 1));
            } else {
                assert forall|k: int| !#[trigger] live_from(ops, x, k) by {
                    if 0 <= k < n - 1 {
                        assert(ops[n - 1] is Start);
                    }
                }
            }
        },
        MixOp::Cancel => {
            assert forall|k: int| !#[trigger] live_from(ops, x, k) by {
                if 0 <= k < n - 1 {
                    assert(ops[n - 1] is Cancel);
                }
            }
        },
        MixOp::Finish(id) => {
            if pending_after(ops) == Some(x) {
                assert(pending_after(prev) == Some(x) && id != x);
                let k = choose|k: int| #[trigger] live_from(prev, x, k);
                assert forall|j: int| k < j < n implies !(#[trigger] ops[j] is Start) && !(ops[j] is Cancel)
                    && ops[j] != MixOp::Finish(x) by {
                    if j < n - 1 {
                        assert(prev[j] == ops[j]);
                    }
                }
                assert(live_from(ops, x, k));
            }
            if exists|k: int| #[trigger] live_from(ops, x, k) {
                let k = choose|k: int| #[trigger] live_from(ops, x, k);
                assert(k < n - 1) by {
                    if k == n - 1 {
                        assert(ops[k] == MixOp::Start(x));
                    }
                }
                assert(ops[n - 1] != MixOp::Finish(x));
                assert forall|j: int| k < j < n - 1 implies !(#[trigger] prev[j] is Start) && !(prev[j] is Cancel)
                    && prev[j] != MixOp::Finish(x) by {
                    assert(prev[j] == ops[j]);
                }
                assert(live_from(prev, x, k));
            }
        },
    }
}

/// The id of a pending request.
pub open spec fn pending_id(v: Option<PendingView>) -> Option<u64> {
    match v {
        Some(p) => Some(p.id),
        None => None,
    }
}

/// What `start`, `cancel` and `finish` promise of the pending request is `pending_step` on
/// its id, so `pending_is_latest_unanswered_start` holds of any sequence of those calls.
pub proof fn calls_follow_pending_step(before: Option<PendingView>, after: Option<PendingView>, op: MixOp)
    requires
        op matches MixOp::Start(id) ==> (after matches Some(p) && p.id == id),
        op is Cancel ==> after is None,
        op matches MixOp::Finish(id) ==> after == (if before matches Some(p) && p.id == id { None } else { before }),
    ensures
        pending_id(after) == pending_step(pending_id(before), op),
{
}
} // verus!
