//! Discovery shelves and guarded album requests, independent of the audio engine.
use vstd::prelude::*;
use std::time::Instant;
use std::hash::{Hash, Hasher};
use std::collections::hash_map::DefaultHasher;
use crate::nav::Direction;
use crate::media::{Song, Album, PlayRecord, PlayHistory, QueueState, SongIndex, song_ids, ids_of, lookup};
use crate::dedup::{
    first_unique_albums, first_unique_songs, unique_album_list, unique_songs, id_set,
    first_unique_albums_laws, first_unique_songs_laws, subsequence_of,
};
use crate::track_order::{stable_sort, first_after, album_order, sort_album_order, lemma_stable_sort_sorted, sorted_by_key, album_key, album_order_laws};
use crate::text::views;

verus! {

pub const SHELF_LIMIT: usize = 24;
pub const MIX_SEED_LIMIT: usize = 8;
pub const RECENT_DAYS: i64 = 14;

/// An album suggested again, with when it was last played (if ever).
pub struct RediscoverAlbum {
    pub album: Album,
    pub last_played: Option<i64>,
}

impl RediscoverAlbum {
    pub fn duplicate(&self) -> (r: RediscoverAlbum)
        ensures r == *self,
    {
        RediscoverAlbum { album: self.album.duplicate(), last_played: self.last_played }
    }
}

/// A screen area (column, row, width, height) in terminal cells.
#[derive(Debug, Clone, Copy, PartialEq, Eq, Default)]
pub struct ScreenRect {
    pub x: u16,
    pub y: u16,
    pub width: u16,
    pub height: u16,
}

/// The Home shelves: 0 = newest, 1 = rediscover, 2 = recent Mix seeds.
#[derive(Default)]
pub struct Discovery {
    /// 0 = newest, 1 = rediscover, 2 = recent Mix seeds.
    pub section: usize,
    pub selected: [usize; 3],
    pub scroll: [usize; 3],
    pub visible: [usize; 3],
    pub hits: Vec<(ScreenRect, usize, usize)>,
    pub newest: Vec<Album>,
    pub candidates: Vec<Album>,
    pub rediscover: Vec<RediscoverAlbum>,
    pub seeds: Vec<Song>,
    pub loading: bool,
    pub error: Option<String>,
    pub refreshed: Option<Instant>,
    pub request_id: u64,
}

pub open spec fn sat_sub(a: int, b: int) -> int {
    if a >= b { a - b } else { 0 }
}

pub open spec fn sat_add(a: int, b: int) -> int {
    if a + b <= usize::MAX { a + b } else { usize::MAX as int }
}

pub open spec fn min_int(a: int, b: int) -> int {
    if a <= b { a } else { b }
}

/// Where the shelf cursor lands after moving `dir` from `pos`, on a shelf of `len`
/// items with `visible` items on screen.
pub open spec fn shelf_moved(pos: int, len: int, visible: int, dir: Direction) -> int {
    let max = sat_sub(len, 1);
    let page = if visible >= 1 { visible } else { 1 };
    match dir {
        Direction::Up => sat_sub(pos, 1),
        Direction::Down => min_int(sat_add(pos, 1), max),
        Direction::Top => 0,
        Direction::Bottom => max,
        Direction::PageUp => sat_sub(pos, page),
        Direction::PageDown => min_int(sat_add(pos, page), max),
    }
}

/// The index of the first album with id `id`.
pub open spec fn album_pos(s: Seq<Album>, id: Seq<char>) -> Option<int>
    decreases s.len(),
{
    if s.len() == 0 {
        None
    } else if s[0].id@ == id {
        Some(0)
    } else {
        match album_pos(s.drop_first(), id) {
            Some(i) => Some(i + 1),
            None => None,
        }
    }
}

/// The index of the first suggestion whose album has id `id`.
pub open spec fn suggestion_pos(s: Seq<RediscoverAlbum>, id: Seq<char>) -> Option<int>
    decreases s.len(),
{
    if s.len() == 0 {
        None
    } else if s[0].album.id@ == id {
        Some(0)
    } else {
        match suggestion_pos(s.drop_first(), id) {
            Some(i) => Some(i + 1),
            None => None,
        }
    }
}

/// The index of the first song with id `id`.
pub open spec fn song_pos(s: Seq<Song>, id: Seq<char>) -> Option<int>
    decreases s.len(),
{
    if s.len() == 0 {
        None
    } else if s[0].id@ == id {
        Some(0)
    } else {
        match song_pos(s.drop_first(), id) {
            Some(i) => Some(i + 1),
            None => None,
        }
    }
}

fn find_album(s: &Vec<Album>, id: &String) -> (r: Option<usize>)
    ensures
        match r {
            Some(i) => album_pos(s@, id@) == Some(i as int),
            None => album_pos(s@, id@) is None,
        },
{
    let mut i: usize = 0;
    while i < s.len()
        invariant
            i <= s.len(),
            forall|j: int| 0 <= j < i ==> (#[trigger] s@[j]).id@ != id@,
        decreases s.len() - i,
    {
        if s[i].id == *id {
            proof { lemma_album_pos_at(s@, id@, i as int); }
            return Some(i);
        }
        i += 1;
    }
    proof { lemma_album_pos_none(s@, id@); }
    None
}

proof fn lemma_album_pos_at(s: Seq<Album>, id: Seq<char>, i: int)
    requires
        0 <= i < s.len(),
        s[i].id@ == id,
        forall|j: int| 0 <= j < i ==> (#[trigger] s[j]).id@ != id,
    ensures album_pos(s, id) == Some(i),
    decreases i,
{
    if i > 0 {
        lemma_album_pos_at(s.drop_first(), id, i - 1);
    }
}

proof fn lemma_album_pos_none(s: Seq<Album>, id: Seq<char>)
    requires forall|j: int| 0 <= j < s.len() ==> (#[trigger] s[j]).id@ != id,
    ensures album_pos(s, id) is None,
    decreases s.len(),
{
    if s.len() > 0 {
        lemma_album_pos_none(s.drop_first(), id);
    }
}

fn find_suggestion(s: &Vec<RediscoverAlbum>, id: &String) -> (r: Option<usize>)
    ensures
        match r {
            Some(i) => suggestion_pos(s@, id@) == Some(i as int),
            None => suggestion_pos(s@, id@) is None,
        },
{
    let mut i: usize = 0;
    assert(s@.skip(0) =~= s@);
    while i < s.len()
        invariant
            i <= s.len(),
            suggestion_pos(s@, id@) == match suggestion_pos(s@.skip(i as int), id@) {
                Some(k) => Some(k + i),
                None => None,
            },
        decreases s.len() - i,
    {
        assert(s@.skip(i as int).drop_first() =~= s@.skip(i + 1));
        if s[i].album.id == *id {
            return Some(i);
        }
        i += 1;
    }
    None
}

fn find_song(s: &Vec<Song>, id: &String) -> (r: Option<usize>)
    ensures
        match r {
            Some(i) => song_pos(s@, id@) == Some(i as int),
            None => song_pos(s@, id@) is None,
        },
{
    let mut i: usize = 0;
    assert(s@.skip(0) =~= s@);
    while i < s.len()
        invariant
            i <= s.len(),
            song_pos(s@, id@) == match song_pos(s@.skip(i as int), id@) {
                Some(k) => Some(k + i),
                None => None,
            },
        decreases s.len() - i,
    {
        assert(s@.skip(i as int).drop_first() =~= s@.skip(i + 1));
        if s[i].id == *id {
            return Some(i);
        }
        i += 1;
    }
    None
}

/// Albums of the server's list, in order, without blank or repeated ids, at most
/// `SHELF_LIMIT` of them.
pub fn unique_albums(albums: Vec<Album>) -> (r: Vec<Album>)
    ensures r@ == first_unique_albums(albums@, Set::empty(), SHELF_LIMIT as nat),
{
    unique_album_list(albums.as_slice(), SHELF_LIMIT)
}

/// The latest time `album` was played according to `records`.
pub open spec fn last_played(records: Seq<PlayRecord>, album: Seq<char>) -> Option<i64>
    decreases records.len(),
{
    if records.len() == 0 {
        None
    } else {
        let prev = last_played(records.drop_last(), album);
        let r = records.last();
        if r.album_id@ == album {
            match prev {
                Some(t) => Some(if t >= r.played_at { t } else { r.played_at }),
                None => Some(r.played_at),
            }
        } else {
            prev
        }
    }
}

/// Played long enough ago (or never) to suggest again.
pub open spec fn is_stale(lp: Option<i64>, cutoff: int) -> bool {
    match lp {
        Some(t) => t < cutoff,
        None => true,
    }
}

/// The albums of `u` not played since `cutoff`, each with its last play.
pub open spec fn keep_stale(u: Seq<Album>, records: Seq<PlayRecord>, cutoff: int) -> Seq<RediscoverAlbum>
    decreases u.len(),
{
    if u.len() == 0 {
        Seq::empty()
    } else {
        let prev = keep_stale(u.drop_last(), records, cutoff);
        let a = u.last();
        let lp = last_played(records, a.id@);
        if is_stale(lp, cutoff) { prev.push(RediscoverAlbum { album: a, last_played: lp }) } else { prev }
    }
}

/// The suggestions before ordering: each album of the catalog once (blank ids dropped),
/// not played within `RECENT_DAYS` days of `now`.
pub open spec fn rediscover_candidates(records: Seq<PlayRecord>, albums: Seq<Album>, now: i64) -> Seq<RediscoverAlbum> {
    keep_stale(first_unique_albums(albums, Set::empty(), albums.len()), records, now - RECENT_DAYS * 86400)
}

/// Ordering key: albums played before come first, oldest first; then never-played ones;
/// ties by `tiebreak`.
pub open spec fn rank_key(lp: Option<i64>, tiebreak: u64) -> int {
    let never: int = if lp is None { 1 } else { 0 };
    let t: int = match lp { Some(t) => t as int, None => 0 };
    never * 0x1_0000_0000_0000_0000_0000_0000_0000_0000 + (t + 0x8000_0000_0000_0000) * 0x1_0000_0000_0000_0000 + tiebreak as int
}

pub open spec fn ranked_key() -> spec_fn((RediscoverAlbum, u64)) -> int {
    |p: (RediscoverAlbum, u64)| rank_key(p.0.last_played, p.1)
}

/// The suggestions with their tie-break values, in shelf order, at most `SHELF_LIMIT`.
pub open spec fn ranked(c: Seq<RediscoverAlbum>, tiebreak: Seq<u64>) -> Seq<RediscoverAlbum> {
    let sorted = stable_sort(Seq::new(c.len(), |i: int| (c[i], tiebreak[i])), ranked_key());
    let n = if sorted.len() <= SHELF_LIMIT { sorted.len() as int } else { SHELF_LIMIT as int };
    Seq::new(n as nat, |i: int| sorted[i].0)
}

fn rank_le(a: &(RediscoverAlbum, u64), b: &(RediscoverAlbum, u64)) -> (r: bool)
    ensures r == (rank_key(a.0.last_played, a.1) <= rank_key(b.0.last_played, b.1)),
{
    let na = a.0.last_played.is_none();
    let nb = b.0.last_played.is_none();
    let ta: i64 = match a.0.last_played { Some(t) => t, None => 0 };
    let tb: i64 = match b.0.last_played { Some(t) => t, None => 0 };
    if na != nb {
        nb
    } else if ta != tb {
        ta < tb
    } else {
        a.1 <= b.1
    }
}

/// Orders suggestions for the shelf (played albums oldest first, then never-played ones,
/// ties by `tiebreak`, stable) and keeps the first `SHELF_LIMIT`.
pub fn order_rediscover(candidates: Vec<RediscoverAlbum>, tiebreak: Vec<u64>) -> (r: Vec<RediscoverAlbum>)
    requires candidates@.len() == tiebreak@.len(),
    ensures r@ == ranked(candidates@, tiebreak@),
{
    let n = candidates.len();
    let ghost pairs = Seq::new(candidates@.len(), |i: int| (candidates@[i], tiebreak@[i]));
    let ghost key = ranked_key();
    let mut r: Vec<(RediscoverAlbum, u64)> = Vec::new();
    let mut i: usize = 0;
    while i < n
        invariant
            n == candidates@.len(),
            n == tiebreak@.len(),
            i <= n,
            pairs == Seq::new(candidates@.len(), |i: int| (candidates@[i], tiebreak@[i])),
            key == ranked_key(),
            r@ == stable_sort(pairs.take(i as int), key),
        decreases n - i,
    {
        let x = (candidates[i].duplicate(), tiebreak[i]);
        assert(x == pairs[i as int]);
        let mut p: usize = 0;
        assert(r@.skip(0) =~= r@);
        while p < r.len() && rank_le(&r[p], &x)
            invariant
                p <= r.len(),
                key == ranked_key(),
                first_after(r@, key(x), key) == p + first_after(r@.skip(p as int), key(x), key),
            decreases r.len() - p,
        {
            assert(r@.skip(p as int).drop_first() =~= r@.skip(p + 1));
            p += 1;
        }
        proof {
            assert(first_after(r@.skip(p as int), key(x), key) == 0);
            assert(pairs.take(i + 1).drop_last() =~= pairs.take(i as int));
            assert(pairs.take(i + 1).last() == x);
        }
        r.insert(p, x);
        assert(r@ =~= stable_sort(pairs.take(i + 1), key));
        i += 1;
    }
    assert(pairs.take(n as int) =~= pairs);
    let mut out: Vec<RediscoverAlbum> = Vec::new();
    let limit = if r.len() <= SHELF_LIMIT { r.len() } else { SHELF_LIMIT };
    let mut j: usize = 0;
    while j < limit
        invariant
            j <= limit <= r@.len(),
            limit == if r@.len() <= SHELF_LIMIT { r@.len() } else { SHELF_LIMIT as nat },
            r@ == stable_sort(pairs, key),
            key == ranked_key(),
            out@.len() == j,
            forall|k: int| 0 <= k < j ==> out@[k] == (#[trigger] r@[k]).0,
        decreases limit - j,
    {
        out.push(r[j].0.duplicate());
        j += 1;
    }
    assert(out@ =~= ranked(candidates@, tiebreak@));
    out
}

/// Feeds the tie-break key into `hasher` (`Hash::hash` for the pair). Nothing is stated
/// of the state it leaves: how the standard library hashes is not specified.
#[verifier::external_body]
fn hash_refresh_and_id(refresh: u64, album_id: &String, hasher: &mut DefaultHasher) {
    (refresh, album_id).hash(hasher);
}

fn tiebreak_for(refresh: u64, album_id: &String) -> u64 {
    let mut hasher = DefaultHasher::new();
    hash_refresh_and_id(refresh, album_id, &mut hasher);
    hasher.finish()
}

fn last_played_exec(records: &Vec<PlayRecord>, album: &String) -> (r: Option<i64>)
    ensures r == last_played(records@, album@),
{
    let mut best: Option<i64> = None;
    let mut i: usize = 0;
    while i < records.len()
        invariant
            i <= records.len(),
            best == last_played(records@.take(i as int), album@),
        decreases records.len() - i,
    {
        assert(records@.take(i + 1).drop_last() =~= records@.take(i as int));
        let r = &records[i];
        if r.album_id == *album {
            best = match best {
                Some(t) => Some(if t >= r.played_at { t } else { r.played_at }),
                None => Some(r.played_at),
            };
        }
        i += 1;
    }
    assert(records@.take(records.len() as int) =~= records@);
    best
}

/// Suggestions for the Rediscover shelf: catalog albums (each once, blank ids dropped)
/// not played in the last `RECENT_DAYS` days, played ones oldest first, never-played
/// ones after them, at most `SHELF_LIMIT`. Ties are broken by std's `DefaultHasher` hash
/// of `refresh` and the album id; the contract says nothing of those hash values (they
/// may differ between Rust releases and machines), so that repeating a refresh keeps the
/// order is not stated here.
pub fn rediscover(history: &PlayHistory, albums: Vec<Album>, now: i64, refresh: u64) -> (r: Vec<RediscoverAlbum>)
    requires
        now >= i64::MIN + RECENT_DAYS * 86400,
    ensures
        exists|tiebreak: Seq<u64>|
            tiebreak.len() == rediscover_candidates(history.records@, albums@, now).len()
            && r@ == ranked(rediscover_candidates(history.records@, albums@, now), tiebreak),
{
    let cutoff = now - RECENT_DAYS * 86400;
    let unique = unique_album_list(albums.as_slice(), albums.len());
    let ghost u = unique@;
    let mut candidates: Vec<RediscoverAlbum> = Vec::new();
    let mut tiebreak: Vec<u64> = Vec::new();
    let mut i: usize = 0;
    while i < unique.len()
        invariant
            i <= unique.len(),
            u == unique@,
            cutoff == now - RECENT_DAYS * 86400,
            candidates@ == keep_stale(u.take(i as int), history.records@, cutoff as int),
            tiebreak@.len() == candidates@.len(),
        decreases unique.len() - i,
    {
        assert(u.take(i + 1).drop_last() =~= u.take(i as int));
        let a = &unique[i];
        let lp = last_played_exec(&history.records, &a.id);
        let stale = match lp {
            Some(t) => t < cutoff,
            None => true,
        };
        if stale {
            candidates.push(RediscoverAlbum { album: a.duplicate(), last_played: lp });
            tiebreak.push(tiebreak_for(refresh, &a.id));
        }
        i += 1;
    }
    assert(u.take(u.len() as int) =~= u);
    let ghost tb = tiebreak@;
    let ghost c = candidates@;
    let r = order_rediscover(candidates, tiebreak);
    assert(tb.len() == rediscover_candidates(history.records@, albums@, now).len()
        && r@ == ranked(c, tb));
    r
}

/// The records behind the Mix seeds: newest first, each song once (blank ids dropped),
/// at most `limit`.
pub open spec fn seed_records(recs: Seq<PlayRecord>, seen: Set<Seq<char>>, limit: nat) -> Seq<PlayRecord>
    decreases recs.len(),
{
    if recs.len() == 0 || limit == 0 {
        Seq::empty()
    } else {
        let r = recs.last();
        if r.song_id@.len() > 0 && !seen.contains(r.song_id@) {
            seq![r] + seed_records(recs.drop_last(), seen.insert(r.song_id@), (limit - 1) as nat)
        } else {
            seed_records(recs.drop_last(), seen, limit)
        }
    }
}

/// A song rebuilt from a history record, keeping its identity and artwork.
pub open spec fn song_from_record(r: PlayRecord) -> Song {
    Song {
        id: r.song_id,
        title: r.track_name,
        album: Some(r.album_name),
        album_id: Some(r.album_id),
        artist: Some(r.artist_name),
        artist_id: Some(r.artist_id),
        cover_art: Some(r.album_id),
        duration: Some(if r.duration_secs <= u32::MAX as u64 { r.duration_secs as u32 } else { u32::MAX }),
        track: None,
        disc_number: None,
        year: None,
        starred: false,
        user_rating: None,
    }
}

/// The seed for a record: the indexed song when there is one, else the song rebuilt from
/// the record.
pub open spec fn seed_of(r: PlayRecord, index: Seq<Song>) -> Song {
    match lookup(index, r.song_id@) {
        Some(s) => s,
        None => song_from_record(r),
    }
}

pub open spec fn seeds_spec(records: Seq<PlayRecord>, index: Seq<Song>) -> Seq<Song> {
    seed_records(records, Set::empty(), MIX_SEED_LIMIT as nat).map_values(|r: PlayRecord| seed_of(r, index))
}

fn record_song(r: &PlayRecord) -> (s: Song)
    ensures s == song_from_record(*r),
{
    Song {
        id: r.song_id.clone(),
        title: r.track_name.clone(),
        album: Some(r.album_name.clone()),
        album_id: Some(r.album_id.clone()),
        artist: Some(r.artist_name.clone()),
        artist_id: Some(r.artist_id.clone()),
        cover_art: Some(r.album_id.clone()),
        duration: Some(if r.duration_secs <= u32::MAX as u64 { r.duration_secs as u32 } else { u32::MAX }),
        track: None,
        disc_number: None,
        year: None,
        starred: false,
        user_rating: None,
    }
}

fn contains_string(seen: &Vec<String>, id: &String) -> (r: bool)
    ensures r == id_set(seen@).contains(id@),
{
    let mut i: usize = 0;
    while i < seen.len()
        invariant
            i <= seen.len(),
            forall|j: int| 0 <= j < i ==> (#[trigger] seen@[j])@ != id@,
        decreases seen.len() - i,
    {
        if seen[i] == *id {
            assert(id_set(seen@).contains(id@));
            return true;
        }
        i += 1;
    }
    false
}

proof fn lemma_id_set_push(v: Seq<String>, x: String)
    ensures id_set(v.push(x)) =~= id_set(v).insert(x@),
{
    assert forall|y: Seq<char>| id_set(v.push(x)).contains(y) implies id_set(v).insert(x@).contains(y) by {
        let i = choose|i: int| 0 <= i < v.push(x).len() && (#[trigger] v.push(x)[i])@ == y;
        if i < v.len() {
            assert(v[i] == v.push(x)[i]);
        }
    }
    assert forall|y: Seq<char>| id_set(v).insert(x@).contains(y) implies id_set(v.push(x)).contains(y) by {
        if y == x@ {
            assert(v.push(x)[v.len() as int] == x);
        } else {
            let i = choose|i: int| 0 <= i < v.len() && (#[trigger] v[i])@ == y;
            assert(v.push(x)[i] == v[i]);
        }
    }
}

/// Seeds for the Mix shelf: the most recently played distinct songs (newest first, at
/// most `MIX_SEED_LIMIT`), taken from the index when it has them, else rebuilt from the
/// history record so artwork and identity survive without the index.
pub fn recent_seeds(history: &PlayHistory, index: &SongIndex) -> (r: Vec<Song>)
    ensures r@ == seeds_spec(history.records@, index.songs@),
{
    let recs = &history.records;
    let ghost goal = seed_records(recs@, Set::empty(), MIX_SEED_LIMIT as nat);
    let mut seen: Vec<String> = Vec::new();
    assert(id_set(seen@) =~= Set::<Seq<char>>::empty());
    let mut picked: Vec<usize> = Vec::new();
    let ghost picked_recs: Seq<PlayRecord> = Seq::empty();
    let mut left: usize = MIX_SEED_LIMIT;
    let mut i: usize = recs.len();
    assert(recs@.take(recs.len() as int) =~= recs@);
    while i > 0 && left > 0
        invariant
            i <= recs.len(),
            goal == picked_recs + seed_records(recs@.take(i as int), id_set(seen@), left as nat),
            picked@.len() == picked_recs.len(),
            forall|k: int| 0 <= k < picked@.len() ==> (#[trigger] picked@[k]) < recs.len()
                && recs@[picked@[k] as int] == picked_recs[k],
        decreases i,
    {
        let ghost t = recs@.take(i as int);
        assert(t.drop_last() =~= recs@.take(i - 1));
        let r = &recs[i - 1];
        assert(t.last() == *r);
        if !r.song_id.as_str().is_empty() && !contains_string(&seen, &r.song_id) {
            proof {
                lemma_id_set_push(seen@, r.song_id);
            }
            seen.push(r.song_id.clone());
            picked.push(i - 1);
            proof {
                picked_recs = picked_recs + seq![*r];
            }
            left -= 1;
        }
        i -= 1;
    }
    assert(seed_records(recs@.take(i as int), id_set(seen@), left as nat) =~= Seq::<PlayRecord>::empty());
    assert(goal =~= picked_recs);
    let mut out: Vec<Song> = Vec::new();
    let mut j: usize = 0;
    while j < picked.len()
        invariant
            j <= picked@.len(),
            picked@.len() == picked_recs.len(),
            goal == picked_recs,
            forall|k: int| 0 <= k < picked@.len() ==> (#[trigger] picked@[k]) < recs.len()
                && recs@[picked@[k] as int] == picked_recs[k],
            out@.len() == j,
            forall|k: int| 0 <= k < j ==> #[trigger] out@[k] == seed_of(picked_recs[k], index.songs@),
        decreases picked@.len() - j,
    {
        let r = &recs[picked[j]];
        let song = match index.get(&r.song_id) {
            Some(s) => s.duplicate(),
            None => record_song(r),
        };
        out.push(song);
        j += 1;
    }
    assert(out@ =~= seeds_spec(history.records@, index.songs@));
    out
}

/// A cursor index clamped to a shelf of `len` items.
pub open spec fn clamp_to(sel: int, len: int) -> int {
    min_int(sel, sat_sub(len, 1))
}

impl Discovery {
    /// Item count of shelf `section` (anything past 1 is the seed shelf).
    pub fn len(&self, section: usize) -> (r: usize)
        ensures
            r == match section {
                0 => self.newest@.len(),
                1 => self.rediscover@.len(),
                _ => self.seeds@.len(),
            },
    {
        match section {
            0 => self.newest.len(),
            1 => self.rediscover.len(),
            _ => self.seeds.len(),
        }
    }

    pub open spec fn shelf_len(&self, section: int) -> int {
        if section == 0 {
            self.newest@.len() as int
        } else if section == 1 {
            self.rediscover@.len() as int
        } else {
            self.seeds@.len() as int
        }
    }

    /// Moves the cursor of the current shelf.
    pub fn move_selection(&mut self, direction: Direction)
        requires old(self).section < 3,
        ensures
            final(self).selected@ == old(self).selected@.update(old(self).section as int,
                shelf_moved(old(self).selected@[old(self).section as int] as int,
                    old(self).shelf_len(old(self).section as int),
                    old(self).visible@[old(self).section as int] as int, direction) as usize),
            final(self).section == old(self).section,
            final(self).scroll == old(self).scroll,
            final(self).visible == old(self).visible,
            final(self).newest == old(self).newest,
            final(self).rediscover == old(self).rediscover,
            final(self).seeds == old(self).seeds,
    {
        let section = self.section;
        let len = self.len(section);
        let max = if len >= 1 { len - 1 } else { 0 };
        let pos = self.selected[section];
        let page = if self.visible[section] >= 1 { self.visible[section] } else { 1 };
        let next = match direction {
            Direction::Up => if pos >= 1 { pos - 1 } else { 0 },
            Direction::Down => {
                let up = if pos < usize::MAX { pos + 1 } else { usize::MAX };
                if up <= max { up } else { max }
            },
            Direction::Top => 0,
            Direction::Bottom => max,
            Direction::PageUp => if pos >= page { pos - page } else { 0 },
            Direction::PageDown => {
                let up = if pos <= usize::MAX - page { pos + page } else { usize::MAX };
                if up <= max { up } else { max }
            },
        };
        self.selected[section] = next;
    }

    /// The album under the cursor on the newest or rediscover shelf.
    pub fn selected_album(&self) -> (r: Option<&Album>)
        ensures
            r == if self.section == 0 && (self.selected@[0] as int) < self.newest@.len() {
                Some(&self.newest@[self.selected@[0] as int])
            } else if self.section == 1 && (self.selected@[1] as int) < self.rediscover@.len() {
                Some(&self.rediscover@[self.selected@[1] as int].album)
            } else {
                None
            },
    {
        match self.section {
            0 => if self.selected[0] < self.newest.len() { Some(&self.newest[self.selected[0]]) } else { None },
            1 => if self.selected[1] < self.rediscover.len() { Some(&self.rediscover[self.selected[1]].album) } else { None },
            _ => None,
        }
    }

    /// The song under the cursor on the seed shelf.
    pub fn selected_seed(&self) -> (r: Option<&Song>)
        ensures
            r == if self.section == 2 && (self.selected@[2] as int) < self.seeds@.len() {
                Some(&self.seeds@[self.selected@[2] as int])
            } else {
                None
            },
    {
        if self.section == 2 && self.selected[2] < self.seeds.len() {
            Some(&self.seeds[self.selected[2]])
        } else {
            None
        }
    }

    /// Replaces the newest shelf, keeping the cursor on the same album when it is still
    /// listed.
    pub fn set_newest(&mut self, albums: Vec<Album>)
        ensures
            final(self).newest@ == first_unique_albums(albums@, Set::empty(), SHELF_LIMIT as nat),
            final(self).selected@[0] == if (old(self).selected@[0] as int) < old(self).newest@.len() {
                match album_pos(final(self).newest@, old(self).newest@[old(self).selected@[0] as int].id@) {
                    Some(i) => i as usize,
                    None => old(self).selected@[0],
                }
            } else {
                old(self).selected@[0]
            },
            final(self).selected@[1] == old(self).selected@[1],
            final(self).selected@[2] == old(self).selected@[2],
            final(self).section == old(self).section,
            final(self).rediscover == old(self).rediscover,
            final(self).seeds == old(self).seeds,
    {
        let selected: Option<String> = if self.selected[0] < self.newest.len() {
            Some(self.newest[self.selected[0]].id.clone())
        } else {
            None
        };
        self.newest = unique_albums(albums);
        if let Some(id) = selected {
            if let Some(index) = find_album(&self.newest, &id) {
                self.selected[0] = index;
            }
        }
    }

    fn clamp_section(&mut self, section: usize, len: usize)
        requires section < 3,
        ensures
            final(self).selected@ == old(self).selected@.update(section as int,
                clamp_to(old(self).selected@[section as int] as int, len as int) as usize),
            final(self).scroll@ == old(self).scroll@.update(section as int,
                min_int(old(self).scroll@[section as int] as int,
                    clamp_to(old(self).selected@[section as int] as int, len as int)) as usize),
            final(self).newest == old(self).newest,
            final(self).candidates == old(self).candidates,
            final(self).rediscover == old(self).rediscover,
            final(self).seeds == old(self).seeds,
            final(self).section == old(self).section,
            final(self).request_id == old(self).request_id,
    {
        let last = if len >= 1 { len - 1 } else { 0 };
        let sel = self.selected[section];
        let sel = if sel <= last { sel } else { last };
        self.selected[section] = sel;
        let sc = self.scroll[section];
        self.scroll[section] = if sc <= sel { sc } else { sel };
    }

    /// Rebuilds the rediscover and seed shelves from history, keeping each cursor on the
    /// same item when it is still listed, then clamping cursors and scroll offsets.
    pub fn rebuild_local(&mut self, history: &PlayHistory, index: &SongIndex, catalog: Vec<Album>, now: i64)
        requires
            now >= i64::MIN + RECENT_DAYS * 86400,
        ensures
            exists|tiebreak: Seq<u64>|
                tiebreak.len() == rediscover_candidates(history.records@, catalog@ + old(self).candidates@, now).len()
                && final(self).rediscover@ == ranked(rediscover_candidates(history.records@,
                    catalog@ + old(self).candidates@, now), tiebreak),
            final(self).seeds@ == seeds_spec(history.records@, index.songs@),
            final(self).selected@[0] as int == clamp_to(old(self).selected@[0] as int, final(self).newest@.len() as int),
            final(self).selected@[1] as int == clamp_to(
                if (old(self).selected@[1] as int) < old(self).rediscover@.len() {
                    match suggestion_pos(final(self).rediscover@,
                        old(self).rediscover@[old(self).selected@[1] as int].album.id@) {
                        Some(i) => i,
                        None => old(self).selected@[1] as int,
                    }
                } else {
                    old(self).selected@[1] as int
                }, final(self).rediscover@.len() as int),
            final(self).selected@[2] as int == clamp_to(
                if (old(self).selected@[2] as int) < old(self).seeds@.len() {
                    match song_pos(final(self).seeds@, old(self).seeds@[old(self).selected@[2] as int].id@) {
                        Some(i) => i,
                        None => old(self).selected@[2] as int,
                    }
                } else {
                    old(self).selected@[2] as int
                }, final(self).seeds@.len() as int),
            forall|k: int| 0 <= k < 3 ==> #[trigger] final(self).scroll@[k] as int
                == min_int(old(self).scroll@[k] as int, final(self).selected@[k] as int),
            final(self).newest == old(self).newest,
            final(self).candidates == old(self).candidates,
            final(self).section == old(self).section,
            final(self).request_id == old(self).request_id,
    {
        let album_id: Option<String> = if self.selected[1] < self.rediscover.len() {
            Some(self.rediscover[self.selected[1]].album.id.clone())
        } else {
            None
        };
        let song_id: Option<String> = if self.selected[2] < self.seeds.len() {
            Some(self.seeds[self.selected[2]].id.clone())
        } else {
            None
        };
        let mut catalog = catalog;
        let ghost given = catalog@;
        let mut k: usize = 0;
        while k < self.candidates.len()
            invariant
                k <= self.candidates@.len(),
                catalog@ == given + self.candidates@.take(k as int),
            decreases self.candidates@.len() - k,
        {
            catalog.push(self.candidates[k].duplicate());
            assert(self.candidates@.take(k + 1) == self.candidates@.take(k as int).push(self.candidates@[k as int]));
            k += 1;
        }
        assert(self.candidates@.take(self.candidates@.len() as int) =~= self.candidates@);
        self.rediscover = rediscover(history, catalog, now, self.request_id);
        self.seeds = recent_seeds(history, index);
        if let Some(id) = album_id {
            if let Some(i) = find_suggestion(&self.rediscover, &id) {
                self.selected[1] = i;
            }
        }
        if let Some(id) = song_id {
            if let Some(i) = find_song(&self.seeds, &id) {
                self.selected[2] = i;
            }
        }
        let lens = [self.newest.len(), self.rediscover.len(), self.seeds.len()];
        self.clamp_section(0, lens[0]);
        self.clamp_section(1, lens[1]);
        self.clamp_section(2, lens[2]);
    }
}

/// The album request in flight, as plain values: id, whether it replaces the queue, queue
/// ids when it started, playback generation and pause state.
pub struct AlbumPending {
    pub id: u64,
    pub replace: bool,
    pub queue_ids: Seq<Seq<char>>,
    pub generation: u64,
    pub paused: bool,
}

/// At most one album request is pending; only its answer can change the queue.
#[derive(Default)]
pub struct AlbumRequest {
    next: u64,
    pending: Option<(u64, bool, Vec<String>, u64, bool)>,
}

pub open spec fn msg_album_cancelled() -> Seq<char> { "Album action cancelled: queue or playback changed"@ }
pub open spec fn msg_album_empty() -> Seq<char> { "Album has no tracks — queue unchanged"@ }

/// The album's songs for the queue: each id once (empty ids dropped), in album order.
pub open spec fn album_songs(songs: Seq<Song>) -> Seq<Song> {
    album_order(first_unique_songs(songs, Set::empty(), songs.len(), false))
}

/// What `AlbumRequest::finish` answers, as plain values.
pub open spec fn album_finish_spec(
    pending: Option<AlbumPending>,
    id: u64,
    queue: Seq<Seq<char>>,
    generation: u64,
    paused: bool,
    result: Result<Seq<Song>, Seq<char>>,
) -> Result<Option<(bool, Seq<Song>)>, Seq<char>> {
    match pending {
        Some(p) if p.id == id => {
            if p.generation != generation || p.paused != paused || p.queue_ids != queue {
                Err(msg_album_cancelled())
            } else {
                match result {
                    Err(e) => Err(e),
                    Ok(songs) => {
                        let out = album_songs(songs);
                        if out.len() == 0 { Err(msg_album_empty()) } else { Ok(Some((p.replace, out))) }
                    },
                }
            }
        },
        _ => Ok(None),
    }
}

pub open spec fn album_answer_view(r: Result<Option<(bool, Vec<Song>)>, String>) -> Result<Option<(bool, Seq<Song>)>, Seq<char>> {
    match r {
        Ok(Some((b, v))) => Ok(Some((b, v@))),
        Ok(None) => Ok(None),
        Err(e) => Err(e@),
    }
}

impl AlbumRequest {
    pub closed spec fn pending_view(&self) -> Option<AlbumPending> {
        match self.pending {
            Some((id, replace, ids, generation, paused)) => Some(AlbumPending {
                id,
                replace,
                queue_ids: views(ids@),
                generation,
                paused,
            }),
            None => None,
        }
    }

    pub closed spec fn last_id(&self) -> u64 {
        self.next
    }

    pub fn new() -> (r: AlbumRequest)
        ensures
            r.pending_view() is None,
            r.last_id() == 0,
    {
        AlbumRequest { next: 0, pending: None }
    }

    /// The id of the last request started (0 before the first).
    pub fn last_request_id(&self) -> (r: u64)
        ensures r == self.last_id(),
    {
        self.next
    }

    /// Drops the pending request; true when there was one.
    pub fn cancel(&mut self) -> (r: bool)
        ensures
            r == old(self).pending_view() is Some,
            final(self).pending_view() is None,
            final(self).last_id() == old(self).last_id(),
    {
        let had = self.pending.is_some();
        self.pending = None;
        had
    }

    /// Records a new request against the current queue and playback, replacing any
    /// pending one; returns its id, which no earlier request had.
    pub fn start(&mut self, replace: bool, queue: &QueueState, generation: u64, paused: bool) -> (id: u64)
        requires old(self).last_id() < u64::MAX,
        ensures
            id == old(self).last_id() + 1,
            final(self).last_id() == id,
            final(self).pending_view() == Some(AlbumPending {
                id,
                replace,
                queue_ids: song_ids(queue.songs@),
                generation,
                paused,
            }),
    {
        self.next = self.next + 1;
        let ids = ids_of(queue.songs.as_slice());
        self.pending = Some((self.next, replace, ids, generation, paused));
        self.next
    }

    /// Answers request `id`: nothing for a request that is no longer pending; an error
    /// when the queue or playback changed since it started, when the fetch failed or when
    /// the album has no tracks; else whether to replace the queue and the album's songs.
    pub fn finish(
        &mut self,
        id: u64,
        queue: &QueueState,
        generation: u64,
        paused: bool,
        result: Result<Vec<Song>, String>,
    ) -> (r: Result<Option<(bool, Vec<Song>)>, String>)
        ensures
            album_answer_view(r) == album_finish_spec(old(self).pending_view(), id,
                song_ids(queue.songs@), generation, paused, crate::instant_mix::result_view(result)),
            final(self).pending_view() == if old(self).pending_view() matches Some(p) && p.id == id {
                None
            } else {
                old(self).pending_view()
            },
            final(self).last_id() == old(self).last_id(),
    {
        let matches_id = match &self.pending {
            Some(p) => p.0 == id,
            None => false,
        };
        if !matches_id {
            return Ok(None);
        }
        let (_, replace, ids, old_generation, old_paused) = self.pending.take().unwrap();
        let queue_ids = ids_of(queue.songs.as_slice());
        if old_generation != generation || old_paused != paused
            || !crate::text::string_lists_eq(&ids, &queue_ids)
        {
            return Err(String::from_str("Album action cancelled: queue or playback changed"));
        }
        let songs = match result {
            Ok(s) => s,
            Err(e) => { return Err(e); },
        };
        let unique = unique_songs(songs.as_slice(), Vec::new(), songs.len(), false);
        assert(id_set(Seq::<String>::empty()) =~= Set::<Seq<char>>::empty());
        let ordered = sort_album_order(unique.as_slice());
        if ordered.len() == 0 {
            return Err(String::from_str("Album has no tracks — queue unchanged"));
        }
        Ok(Some((replace, ordered)))
    }
}


proof fn lemma_keep_stale(u: Seq<Album>, records: Seq<PlayRecord>, cutoff: int)
    ensures
        keep_stale(u, records, cutoff).len() <= u.len(),
        forall|k: int| 0 <= k < keep_stale(u, records, cutoff).len() ==> {
            let x = #[trigger] keep_stale(u, records, cutoff)[k];
            &&& u.contains(x.album)
            &&& x.last_played == last_played(records, x.album.id@)
            &&& is_stale(x.last_played, cutoff)
        },
        (forall|i: int, j: int| 0 <= i < j < u.len() ==> (#[trigger] u[i]).id@ != (#[trigger] u[j]).id@) ==>
            forall|i: int, j: int| 0 <= i < j < keep_stale(u, records, cutoff).len() ==>
                (#[trigger] keep_stale(u, records, cutoff)[i]).album.id@
                    != (#[trigger] keep_stale(u, records, cutoff)[j]).album.id@,
    decreases u.len(),
{
    if u.len() > 0 {
        let prev = keep_stale(u.drop_last(), records, cutoff);
        lemma_keep_stale(u.drop_last(), records, cutoff);
        let out = keep_stale(u, records, cutoff);
        assert forall|k: int| 0 <= k < out.len() implies u.contains((#[trigger] out[k]).album) by {
            if k < prev.len() {
                assert(out[k] == prev[k]);
                let m = choose|m: int| 0 <= m < u.drop_last().len() && u.drop_last()[m] == prev[k].album;
                assert(u[m] == prev[k].album);
            } else {
                assert(u[u.len() - 1] == out[k].album);
            }
        }
        if forall|i: int, j: int| 0 <= i < j < u.len() ==> (#[trigger] u[i]).id@ != (#[trigger] u[j]).id@ {
            assert forall|i: int, j: int| 0 <= i < j < u.drop_last().len() implies
                (#[trigger] u.drop_last()[i]).id@ != (#[trigger] u.drop_last()[j]).id@ by {
                assert(u.drop_last()[i] == u[i] && u.drop_last()[j] == u[j]);
            }
            assert forall|i: int, j: int| 0 <= i < j < out.len() implies
                (#[trigger] out[i]).album.id@ != (#[trigger] out[j]).album.id@ by {
                if j >= prev.len() {
                    assert(out[i] == prev[i]);
                    let m = choose|m: int| 0 <= m < u.drop_last().len() && u.drop_last()[m] == prev[i].album;
                    assert(u[m] == out[i].album);
                    assert(out[j].album == u[u.len() - 1]);
                } else {
                    assert(out[i] == prev[i] && out[j] == prev[j]);
                }
            }
        }
    }
}

/// The Rediscover shelf suggests only catalog albums not played in the last
/// `RECENT_DAYS` days (each with its true last play), each album once, at most
/// `SHELF_LIMIT` of them; albums played before come first, oldest first, then those
/// never played. This holds whatever the tie-break values are.
pub proof fn rediscover_laws(records: Seq<PlayRecord>, albums: Seq<Album>, now: i64, tiebreak: Seq<u64>)
    requires
        tiebreak.len() == rediscover_candidates(records, albums, now).len(),
    ensures
        ranked(rediscover_candidates(records, albums, now), tiebreak).len() <= SHELF_LIMIT,
        forall|i: int| 0 <= i < ranked(rediscover_candidates(records, albums, now), tiebreak).len() ==> {
            let x = #[trigger] ranked(rediscover_candidates(records, albums, now), tiebreak)[i];
            &&& albums.contains(x.album)
            &&& x.album.id@.len() > 0
            &&& x.last_played == last_played(records, x.album.id@)
            &&& is_stale(x.last_played, now - RECENT_DAYS * 86400)
        },
        forall|i: int, j: int| 0 <= i < j < ranked(rediscover_candidates(records, albums, now), tiebreak).len() ==> {
            let a = #[trigger] ranked(rediscover_candidates(records, albums, now), tiebreak)[i];
            let b = #[trigger] ranked(rediscover_candidates(records, albums, now), tiebreak)[j];
            &&& a.album.id@ != b.album.id@
            &&& a.last_played is None ==> b.last_played is None
            &&& (a.last_played is Some && b.last_played is Some) ==> a.last_played->0 <= b.last_played->0
        },
{
    let cutoff = now - RECENT_DAYS * 86400;
    let u = first_unique_albums(albums, Set::empty(), albums.len());
    first_unique_albums_laws(albums, Set::empty(), albums.len());
    lemma_keep_stale(u, records, cutoff);
    let c = rediscover_candidates(records, albums, now);
    let pairs = Seq::new(c.len(), |i: int| (c[i], tiebreak[i]));
    let key = ranked_key();
    let sorted = stable_sort(pairs, key);
    lemma_stable_sort_sorted(pairs, key);
    let out = ranked(c, tiebreak);
    broadcast use vstd::seq_lib::group_to_multiset_ensures;
    assert forall|i: int| 0 <= i < sorted.len() implies exists|k: int| 0 <= k < c.len() && #[trigger] sorted[i] == pairs[k] by {
        assert(sorted.contains(sorted[i]));
        assert(sorted.to_multiset().count(sorted[i]) > 0);
        assert(pairs.contains(sorted[i]));
    }
    assert(pairs.no_duplicates()) by {
        assert forall|i: int, j: int| 0 <= i < pairs.len() && 0 <= j < pairs.len() && i != j implies pairs[i] != pairs[j] by {
            if i < j {
                assert(c[i].album.id@ != c[j].album.id@);
            } else {
                assert(c[j].album.id@ != c[i].album.id@);
            }
        }
    }
    pairs.lemma_multiset_has_no_duplicates();
    sorted.lemma_multiset_has_no_duplicates_conv();
    assert forall|i: int| 0 <= i < out.len() implies {
        let x = #[trigger] out[i];
        &&& albums.contains(x.album)
        &&& x.album.id@.len() > 0
        &&& x.last_played == last_played(records, x.album.id@)
        &&& is_stale(x.last_played, cutoff)
    } by {
        assert(out[i] == sorted[i].0);
        let k = choose|k: int| 0 <= k < c.len() && #[trigger] sorted[i] == pairs[k];
        assert(out[i] == c[k]);
        let m = choose|m: int| 0 <= m < u.len() && u[m] == c[k].album;
        assert(u[m].id@.len() > 0);
    }
    assert forall|i: int, j: int| 0 <= i < j < out.len() implies {
        let a = #[trigger] out[i];
        let b = #[trigger] out[j];
        &&& a.album.id@ != b.album.id@
        &&& a.last_played is None ==> b.last_played is None
        &&& (a.last_played is Some && b.last_played is Some) ==> a.last_played->0 <= b.last_played->0
    } by {
        assert(out[i] == sorted[i].0 && out[j] == sorted[j].0);
        let ki = choose|k: int| 0 <= k < c.len() && #[trigger] sorted[i] == pairs[k];
        let kj = choose|k: int| 0 <= k < c.len() && #[trigger] sorted[j] == pairs[k];
        assert(sorted[i] != sorted[j]);
        assert(ki != kj);
        if ki < kj {
            assert(c[ki].album.id@ != c[kj].album.id@);
        } else {
            assert(c[kj].album.id@ != c[ki].album.id@);
        }
        assert(key(sorted[i]) <= key(sorted[j]));
    }
}

/// An album answer changes nothing unless it answers the pending request: an answer to
/// an older or cancelled request is dropped silently, and one arriving after the queue,
/// the playing track or the pause state changed is refused.
pub proof fn late_album_answers(
    pending: Option<AlbumPending>,
    id: u64,
    queue: Seq<Seq<char>>,
    generation: u64,
    paused: bool,
    result: Result<Seq<Song>, Seq<char>>,
)
    ensures
        !(pending matches Some(p) && p.id == id) ==> album_finish_spec(pending, id, queue, generation, paused, result)
            == Ok::<Option<(bool, Seq<Song>)>, Seq<char>>(None),
        (pending matches Some(p) && p.id == id && (p.queue_ids != queue || p.generation != generation
            || p.paused != paused)) ==> album_finish_spec(pending, id, queue, generation, paused, result)
            == Err::<Option<(bool, Seq<Song>)>, Seq<char>>(msg_album_cancelled()),
{
}

/// The answer to the pending album request, with the queue and playback unchanged since
/// it started: the album's songs with empty and repeated ids dropped (the first kept),
/// sorted by disc and then track, ties in the album's order, exactly the songs kept,
/// none blank and no id twice among them; an error when no song is left.
pub proof fn album_answer_laws(p: AlbumPending, songs: Seq<Song>)
    ensures
        first_unique_songs(songs, Set::empty(), songs.len(), false).len() > 0 ==>
            album_finish_spec(Some(p), p.id, p.queue_ids, p.generation, p.paused, Ok(songs))
                == Ok::<Option<(bool, Seq<Song>)>, Seq<char>>(Some((p.replace, album_songs(songs)))),
        first_unique_songs(songs, Set::empty(), songs.len(), false).len() == 0 ==>
            album_finish_spec(Some(p), p.id, p.queue_ids, p.generation, p.paused, Ok(songs))
                == Err::<Option<(bool, Seq<Song>)>, Seq<char>>(msg_album_empty()),
        sorted_by_key(album_songs(songs), |x: Song| album_key(x)),
        album_songs(songs).to_multiset() =~= first_unique_songs(songs, Set::empty(), songs.len(), false).to_multiset(),
        subsequence_of(first_unique_songs(songs, Set::empty(), songs.len(), false), songs),
        forall|i: int| 0 <= i < first_unique_songs(songs, Set::empty(), songs.len(), false).len() ==>
            (#[trigger] first_unique_songs(songs, Set::empty(), songs.len(), false)[i]).id@.len() > 0,
        forall|i: int, j: int| 0 <= i < j < first_unique_songs(songs, Set::empty(), songs.len(), false).len() ==>
            (#[trigger] first_unique_songs(songs, Set::empty(), songs.len(), false)[i]).id@
                != (#[trigger] first_unique_songs(songs, Set::empty(), songs.len(), false)[j]).id@,
{
    let kept = first_unique_songs(songs, Set::empty(), songs.len(), false);
    first_unique_songs_laws(songs, Set::empty(), songs.len(), false);
    album_order_laws(kept);
    assert forall|i: int| 0 <= i < kept.len() implies (#[trigger] kept[i]).id@.len() > 0 by {
        assert(!crate::dedup::blank(kept[i].id@, false));
    }
}

proof fn lemma_lookup_id(s: Seq<Song>, id: Seq<char>)
    ensures lookup(s, id) matches Some(x) ==> x.id@ == id,
    decreases s.len(),
{
    if s.len() > 0 && s[0].id@ != id {
        lemma_lookup_id(s.drop_first(), id);
    }
}

proof fn lemma_seed_records(recs: Seq<PlayRecord>, seen: Set<Seq<char>>, limit: nat)
    ensures
        seed_records(recs, seen, limit).len() <= limit,
        forall|i: int| 0 <= i < seed_records(recs, seen, limit).len() ==> {
            &&& (#[trigger] seed_records(recs, seen, limit)[i]).song_id@.len() > 0
            &&& !seen.contains(seed_records(recs, seen, limit)[i].song_id@)
            &&& recs.contains(seed_records(recs, seen, limit)[i])
        },
        forall|i: int, j: int| 0 <= i < j < seed_records(recs, seen, limit).len() ==>
            (#[trigger] seed_records(recs, seen, limit)[i]).song_id@
                != (#[trigger] seed_records(recs, seen, limit)[j]).song_id@,
    decreases recs.len(),
{
    let out = seed_records(recs, seen, limit);
    if recs.len() > 0 && limit > 0 {
        let r = recs.last();
        if r.song_id@.len() > 0 && !seen.contains(r.song_id@) {
            let seen2 = seen.insert(r.song_id@);
            let rest = seed_records(recs.drop_last(), seen2, (limit - 1) as nat);
            lemma_seed_records(recs.drop_last(), seen2, (limit - 1) as nat);
            assert(out == seq![r] + rest);
            assert forall|i: int| 0 <= i < out.len() implies recs.contains(#[trigger] out[i]) by {
                if i == 0 {
                    assert(recs[recs.len() - 1] == out[0]);
                } else {
                    assert(out[i] == rest[i - 1]);
                    let k = choose|k: int| 0 <= k < recs.drop_last().len() && recs.drop_last()[k] == rest[i - 1];
                    assert(recs[k] == out[i]);
                }
            }
            assert forall|i: int, j: int| 0 <= i < j < out.len() implies
                (#[trigger] out[i]).song_id@ != (#[trigger] out[j]).song_id@ by {
                assert(out[j] == rest[j - 1]);
                if i == 0 {
                    assert(seen2.contains(r.song_id@));
                } else {
                    assert(out[i] == rest[i - 1]);
                }
            }
        } else {
            lemma_seed_records(recs.drop_last(), seen, limit);
            assert forall|i: int| 0 <= i < out.len() implies recs.contains(#[trigger] out[i]) by {
                let k = choose|k: int| 0 <= k < recs.drop_last().len() && recs.drop_last()[k] == out[i];
                assert(recs[k] == out[i]);
            }
        }
    }
}

/// The Mix seeds are songs of the play history, newest play first: at most
/// `MIX_SEED_LIMIT`, none with an empty id, and no song twice.
pub proof fn mix_seed_laws(records: Seq<PlayRecord>, index: Seq<Song>)
    ensures
        seeds_spec(records, index).len() <= MIX_SEED_LIMIT,
        forall|i: int| 0 <= i < seeds_spec(records, index).len() ==>
            (#[trigger] seeds_spec(records, index)[i]).id@.len() > 0
            && exists|k: int| 0 <= k < records.len() && records[k].song_id@ == seeds_spec(records, index)[i].id@,
        forall|i: int, j: int| 0 <= i < j < seeds_spec(records, index).len() ==>
            (#[trigger] seeds_spec(records, index)[i]).id@ != (#[trigger] seeds_spec(records, index)[j]).id@,
{
    let recs = seed_records(records, Set::empty(), MIX_SEED_LIMIT as nat);
    lemma_seed_records(records, Set::empty(), MIX_SEED_LIMIT as nat);
    let seeds = seeds_spec(records, index);
    assert forall|i: int| 0 <= i < seeds.len() implies (#[trigger] seeds[i]).id@ == recs[i].song_id@ by {
        lemma_lookup_id(index, recs[i].song_id@);
    }
    assert forall|i: int| 0 <= i < seeds.len() implies
        (#[trigger] seeds[i]).id@.len() > 0
        && exists|k: int| 0 <= k < records.len() && records[k].song_id@ == seeds[i].id@ by {
        assert(seeds[i].id@ == recs[i].song_id@);
        let k = choose|k: int| 0 <= k < records.len() && records[k] == recs[i];
        assert(records[k].song_id@ == seeds[i].id@);
    }
    assert forall|i: int, j: int| 0 <= i < j < seeds.len() implies (#[trigger] seeds[i]).id@ != (#[trigger] seeds[j]).id@ by {
        assert(seeds[i].id@ == recs[i].song_id@);
        assert(seeds[j].id@ == recs[j].song_id@);
    }
}
} // verus!
