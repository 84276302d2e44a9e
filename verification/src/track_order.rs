//! Stable ordering of songs and other items by a numeric key.
use vstd::prelude::*;
use crate::media::Song;

verus! {

/// The first position in `r` whose key is greater than `k` (`r.len()` if none).
pub open spec fn first_after<T>(r: Seq<T>, k: int, key: spec_fn(T) -> int) -> int
    decreases r.len(),
{
    if r.len() == 0 {
        0
    } else if key(r[0]) > k {
        0
    } else {
        1 + first_after(r.drop_first(), k, key)
    }
}

/// `x` placed after every element of `r` whose key is at most its own.
pub open spec fn insert_after_equal<T>(r: Seq<T>, x: T, key: spec_fn(T) -> int) -> Seq<T> {
    let p = first_after(r, key(x), key);
    r.take(p) + seq![x] + r.skip(p)
}

/// A stable sort of `s` by `key`: ascending keys, ties in their original order (the
/// order that `slice::sort_by_key` gives).
pub open spec fn stable_sort<T>(s: Seq<T>, key: spec_fn(T) -> int) -> Seq<T>
    decreases s.len(),
{
    if s.len() == 0 {
        Seq::empty()
    } else {
        insert_after_equal(stable_sort(s.drop_last(), key), s.last(), key)
    }
}

pub open spec fn sorted_by_key<T>(s: Seq<T>, key: spec_fn(T) -> int) -> bool {
    forall|i: int, j: int| 0 <= i <= j < s.len() ==> key(s[i]) <= key(s[j])
}

proof fn lemma_first_after_bounds<T>(r: Seq<T>, k: int, key: spec_fn(T) -> int)
    ensures
        0 <= first_after(r, k, key) <= r.len(),
        forall|i: int| 0 <= i < first_after(r, k, key) ==> key(#[trigger] r[i]) <= k,
        first_after(r, k, key) < r.len() ==> key(r[first_after(r, k, key)]) > k,
    decreases r.len(),
{
    if r.len() > 0 && key(r[0]) <= k {
        lemma_first_after_bounds(r.drop_first(), k, key);
        assert forall|i: int| 0 <= i < first_after(r, k, key) implies key(#[trigger] r[i]) <= k by {
            if i > 0 {
                assert(r[i] == r.drop_first()[i - 1]);
            }
        }
    }
}

/// The stable sort is sorted by key and holds the same items.
pub proof fn lemma_stable_sort_sorted<T>(s: Seq<T>, key: spec_fn(T) -> int)
    ensures
        sorted_by_key(stable_sort(s, key), key),
        stable_sort(s, key).to_multiset() =~= s.to_multiset(),
        stable_sort(s, key).len() == s.len(),
    decreases s.len(),
{
    if s.len() > 0 {
        let r = stable_sort(s.drop_last(), key);
        lemma_stable_sort_sorted(s.drop_last(), key);
        let x = s.last();
        let k = key(x);
        lemma_first_after_bounds(r, k, key);
        let p = first_after(r, k, key);
        let out = r.take(p) + seq![x] + r.skip(p);
        assert forall|i: int, j: int| 0 <= i <= j < out.len() implies key(out[i]) <= key(out[j]) by {
            if i < p {
                assert(out[i] == r[i]);
                if j < p {
                    assert(out[j] == r[j]);
                } else if j == p {
                } else {
                    assert(out[j] == r[j - 1]);
                }
            } else if i == p {
                if j > p {
                    assert(out[j] == r[j - 1]);
                    assert(key(r[p]) > k);
                    assert(key(r[p]) <= key(r[j - 1]));
                }
            } else {
                assert(out[i] == r[i - 1]);
                assert(out[j] == r[j - 1]);
            }
        }
        assert(r =~= r.take(p) + r.skip(p));
        vstd::seq_lib::lemma_multiset_commutative(r.take(p), r.skip(p));
        vstd::seq_lib::lemma_multiset_commutative(r.take(p) + seq![x], r.skip(p));
        vstd::seq_lib::lemma_multiset_commutative(r.take(p), seq![x]);
        vstd::seq_lib::lemma_multiset_commutative(s.drop_last(), seq![x]);
        assert(s =~= s.drop_last() + seq![x]);
        assert(out.to_multiset() =~= r.take(p).to_multiset().add(seq![x].to_multiset()).add(r.skip(p).to_multiset()));
        assert(s.to_multiset() =~= s.drop_last().to_multiset().add(seq![x].to_multiset()));
        assert(stable_sort(s, key) == out);
        assert(r.to_multiset() =~= r.take(p).to_multiset().add(r.skip(p).to_multiset()));
        assert(out.to_multiset() =~= s.to_multiset());
    } else {
        broadcast use vstd::seq_lib::group_to_multiset_ensures;
        assert(s =~= Seq::<T>::empty());
    }
}

/// Album order of a song: disc first (missing disc counts as 1), then track number
/// (missing track counts as 0), as one number ordered the same way as the pair.
pub open spec fn album_key(s: Song) -> int {
    let disc: int = match s.disc_number { Some(d) => d as int, None => 1 };
    let track: int = match s.track { Some(t) => t as int, None => 0 };
    disc * 0x1_0000_0000 + track
}

/// Songs in album order, ties in the order given.
pub open spec fn album_order(s: Seq<Song>) -> Seq<Song> {
    stable_sort(s, |x: Song| album_key(x))
}

fn key_of(s: &Song) -> (r: u64)
    ensures r as int == album_key(*s),
{
    let disc: u64 = match s.disc_number { Some(d) => d as u64, None => 1 };
    let track: u64 = match s.track { Some(t) => t as u64, None => 0 };
    disc * 0x1_0000_0000 + track
}

/// Songs in album order: by disc (missing = 1), then track (missing = 0), ties in the
/// order given.
pub fn sort_album_order(songs: &[Song]) -> (r: Vec<Song>)
    ensures
        r@ == album_order(songs@),
{
    let ghost key = |x: Song| album_key(x);
    let mut r: Vec<Song> = Vec::new();
    let mut i: usize = 0;
    let n = songs.len();
    let ghost all = songs@;
    while i < n
        invariant
            n == all.len(),
            all == songs@,
            i <= n,
            key == (|x: Song| album_key(x)),
            r@ == stable_sort(all.take(i as int), key),
        decreases n - i,
    {
        let x = songs[i].duplicate();
        let k = key_of(&x);
        let mut p: usize = 0;
        assert(r@.skip(0) =~= r@);
        while p < r.len() && key_of(&r[p]) <= k
            invariant
                p <= r.len(),
                key == (|x: Song| album_key(x)),
                first_after(r@, k as int, key) == p + first_after(r@.skip(p as int), k as int, key),
            decreases r.len() - p,
        {
            assert(r@.skip(p as int).drop_first() =~= r@.skip(p + 1));
            p += 1;
        }
        proof {
            assert(first_after(r@.skip(p as int), k as int, key) == 0);
            assert(all.take(i + 1).drop_last() =~= all.take(i as int));
            assert(all.take(i + 1).last() == x);
        }
        r.insert(p, x);
        assert(r@ =~= stable_sort(all.take(i + 1), key));
        i += 1;
    }
    assert(all.take(n as int) =~= all);
    r
}

/// The ids of `songs` in album order (disc, then track).
pub fn sorted_album_song_ids(songs: &[Song]) -> (r: Vec<String>)
    ensures r@.map_values(|x: String| x@) == crate::media::song_ids(album_order(songs@)),
{
    let sorted = sort_album_order(songs);
    crate::media::ids_of(sorted.as_slice())
}


/// Album order holds the same songs, sorted by disc and then track.
pub proof fn album_order_laws(s: Seq<Song>)
    ensures
        sorted_by_key(album_order(s), |x: Song| album_key(x)),
        album_order(s).to_multiset() =~= s.to_multiset(),
        album_order(s).len() == s.len(),
{
    lemma_stable_sort_sorted(s, |x: Song| album_key(x));
}
/// `a` before `b` in the order of strings (character by character, a prefix first).
pub open spec fn chars_before(a: Seq<char>, b: Seq<char>) -> bool
    decreases a.len(),
{
    if b.len() == 0 {
        false
    } else if a.len() == 0 {
        true
    } else if a[0] != b[0] {
        a[0] < b[0]
    } else {
        chars_before(a.drop_first(), b.drop_first())
    }
}

/// The artist-order key of a song: year (missing = 0), album id (missing = empty), disc
/// (missing = 1), track (missing = 0).
pub open spec fn artist_year(s: Song) -> int { match s.year { Some(y) => y as int, None => 0 } }
pub open spec fn artist_album(s: Song) -> Seq<char> { match s.album_id { Some(a) => a@, None => Seq::empty() } }
pub open spec fn artist_disc(s: Song) -> int { match s.disc_number { Some(d) => d as int, None => 1 } }
pub open spec fn artist_track(s: Song) -> int { match s.track { Some(t) => t as int, None => 0 } }

/// `x` comes before `y` in artist order: by year, then album id, then disc, then track.
pub open spec fn artist_before(x: Song, y: Song) -> bool {
    if artist_year(x) != artist_year(y) {
        artist_year(x) < artist_year(y)
    } else if artist_album(x) != artist_album(y) {
        chars_before(artist_album(x), artist_album(y))
    } else if artist_disc(x) != artist_disc(y) {
        artist_disc(x) < artist_disc(y)
    } else {
        artist_track(x) < artist_track(y)
    }
}

/// The first place in `r` whose song comes after `x`.
pub open spec fn first_after_song(r: Seq<Song>, x: Song) -> int
    decreases r.len(),
{
    if r.len() == 0 { 0 } else if artist_before(x, r[0]) { 0 } else { 1 + first_after_song(r.drop_first(), x) }
}

/// An artist's songs in artist order, songs with the same key in the order given (each
/// song placed after the ones before it that do not come after it, as a stable sort
/// does).
pub open spec fn artist_order(s: Seq<Song>) -> Seq<Song>
    decreases s.len(),
{
    if s.len() == 0 {
        Seq::empty()
    } else {
        let r = artist_order(s.drop_last());
        let p = first_after_song(r, s.last());
        r.take(p) + seq![s.last()] + r.skip(p)
    }
}

fn chars_less(a: &Vec<char>, b: &Vec<char>) -> (r: bool)
    ensures r == chars_before(a@, b@),
{
    let mut i: usize = 0;
    assert(a@.skip(0) =~= a@ && b@.skip(0) =~= b@);
    while i < a.len() && i < b.len() && a[i] == b[i]
        invariant
            i <= a.len(),
            i <= b.len(),
            chars_before(a@, b@) == chars_before(a@.skip(i as int), b@.skip(i as int)),
        decreases a.len() - i,
    {
        assert(a@.skip(i as int).drop_first() =~= a@.skip(i + 1));
        assert(b@.skip(i as int).drop_first() =~= b@.skip(i + 1));
        i += 1;
    }
    if i >= b.len() {
        false
    } else if i >= a.len() {
        true
    } else {
        a[i] < b[i]
    }
}

fn album_chars(s: &Song) -> (r: Vec<char>)
    ensures r@ == artist_album(*s),
{
    match &s.album_id {
        Some(a) => crate::text::chars_of(a.as_str()),
        None => Vec::new(),
    }
}

fn song_before(x: &Song, y: &Song) -> (r: bool)
    ensures r == artist_before(*x, *y),
{
    let yx: u32 = match x.year { Some(v) => v, None => 0 };
    let yy: u32 = match y.year { Some(v) => v, None => 0 };
    if yx != yy {
        return yx < yy;
    }
    let ax = album_chars(x);
    let ay = album_chars(y);
    if !crate::text::chars_eq(ax.as_slice(), ay.as_slice()) {
        return chars_less(&ax, &ay);
    }
    let dx: u32 = match x.disc_number { Some(v) => v, None => 1 };
    let dy: u32 = match y.disc_number { Some(v) => v, None => 1 };
    if dx != dy {
        return dx < dy;
    }
    let tx: u32 = match x.track { Some(v) => v, None => 0 };
    let ty: u32 = match y.track { Some(v) => v, None => 0 };
    tx < ty
}

/// The songs in artist order (see `artist_order`).
pub fn sort_artist_order(songs: &[Song]) -> (r: Vec<Song>)
    ensures r@ == artist_order(songs@),
{
    let mut r: Vec<Song> = Vec::new();
    let mut i: usize = 0;
    let n = songs.len();
    while i < n
        invariant
            n == songs@.len(),
            i <= n,
            r@ == artist_order(songs@.take(i as int)),
        decreases n - i,
    {
        let x = songs[i].duplicate();
        let mut p: usize = 0;
        assert(r@.skip(0) =~= r@);
        while p < r.len() && !song_before(&x, &r[p])
            invariant
                p <= r.len(),
                first_after_song(r@, x) == p + first_after_song(r@.skip(p as int), x),
            decreases r.len() - p,
        {
            assert(r@.skip(p as int).drop_first() =~= r@.skip(p + 1));
            p += 1;
        }
        proof {
            if p < r.len() {
                assert(r@.skip(p as int)[0] == r@[p as int]);
            }
            assert(first_after_song(r@.skip(p as int), x) == 0);
            assert(songs@.take(i + 1).drop_last() =~= songs@.take(i as int));
            assert(songs@.take(i + 1).last() == x);
        }
        let ghost before = r@;
        r.insert(p, x);
        assert(r@ =~= before.take(p as int) + seq![x] + before.skip(p as int));
        i += 1;
    }
    assert(songs@.take(n as int) =~= songs@);
    r
}

/// Artist order keeps the number of songs.
pub proof fn lemma_artist_order_len(s: Seq<Song>)
    ensures artist_order(s).len() == s.len(),
    decreases s.len(),
{
    if s.len() > 0 {
        lemma_artist_order_len(s.drop_last());
        let r = artist_order(s.drop_last());
        lemma_first_after_song_bounds(r, s.last());
    }
}

proof fn lemma_first_after_song_bounds(r: Seq<Song>, x: Song)
    ensures 0 <= first_after_song(r, x) <= r.len(),
    decreases r.len(),
{
    if r.len() > 0 && !artist_before(x, r[0]) {
        lemma_first_after_song_bounds(r.drop_first(), x);
    }
}

} // verus!
