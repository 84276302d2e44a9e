//! Keeping the first song (or album) of each id, in order.
use vstd::prelude::*;
use crate::media::{Song, Album};
use crate::text::{trim, trimmed};

verus! {

/// An id that counts as missing: empty, or (when `by_trim`) only white space.
pub open spec fn blank(id: Seq<char>, by_trim: bool) -> bool {
    if by_trim { trim(id).len() == 0 } else { id.len() == 0 }
}

/// The songs of `s` in order, skipping blank ids and ids already in `seen` (or met
/// earlier), and stopping after `limit` songs.
pub open spec fn first_unique_songs(s: Seq<Song>, seen: Set<Seq<char>>, limit: nat, by_trim: bool) -> Seq<Song>
    decreases s.len(),
{
    if s.len() == 0 || limit == 0 {
        Seq::empty()
    } else if !blank(s[0].id@, by_trim) && !seen.contains(s[0].id@) {
        seq![s[0]] + first_unique_songs(s.drop_first(), seen.insert(s[0].id@), (limit - 1) as nat, by_trim)
    } else {
        first_unique_songs(s.drop_first(), seen, limit, by_trim)
    }
}

/// The same for albums.
pub open spec fn first_unique_albums(s: Seq<Album>, seen: Set<Seq<char>>, limit: nat) -> Seq<Album>
    decreases s.len(),
{
    if s.len() == 0 || limit == 0 {
        Seq::empty()
    } else if s[0].id@.len() > 0 && !seen.contains(s[0].id@) {
        seq![s[0]] + first_unique_albums(s.drop_first(), seen.insert(s[0].id@), (limit - 1) as nat)
    } else {
        first_unique_albums(s.drop_first(), seen, limit)
    }
}

pub open spec fn id_set(v: Seq<String>) -> Set<Seq<char>> {
    Set::new(|x: Seq<char>| exists|i: int| 0 <= i < v.len() && (#[trigger] v[i])@ == x)
}

fn contains_id(seen: &Vec<String>, id: &String) -> (r: bool)
    ensures r == id_set(seen@).contains(id@),
{
    let mut i: usize = 0;
    while i < seen.len()
        invariant
            i <= seen.len(),
            forall|j: int| 0 <= j < i ==> (#[trigger] seen@[j])@ != id@,
        decreases seen.len() - i,
    {
        if seen[i] == *id {
            assert(id_set(seen@).contains(id@));
            return true;
        }
        i += 1;
    }
    false
}

proof fn lemma_id_set_push(v: Seq<String>, x: String)
    ensures id_set(v.push(x)) =~= id_set(v).insert(x@),
{
    assert forall|y: Seq<char>| id_set(v.push(x)).contains(y) implies id_set(v).insert(x@).contains(y) by {
        let i = choose|i: int| 0 <= i < v.push(x).len() && (#[trigger] v.push(x)[i])@ == y;
        if i < v.len() {
            assert(v[i] == v.push(x)[i]);
        }
    }
    assert forall|y: Seq<char>| id_set(v).insert(x@).contains(y) implies id_set(v.push(x)).contains(y) by {
        if y == x@ {
            assert(v.push(x)[v.len() as int] == x);
        } else {
            let i = choose|i: int| 0 <= i < v.len() && (#[trigger] v[i])@ == y;
            assert(v.push(x)[i] == v[i]);
        }
    }
}

fn is_blank(id: &String, by_trim: bool) -> (r: bool)
    ensures r == blank(id@, by_trim),
{
    if by_trim {
        trimmed(id.as_str()).is_empty()
    } else {
        id.as_str().is_empty()
    }
}

/// `first_unique_songs` with `seen` starting as the ids in `seen_ids`.
pub fn unique_songs(songs: &[Song], seen_ids: Vec<String>, limit: usize, by_trim: bool) -> (r: Vec<Song>)
    ensures r@ == first_unique_songs(songs@, id_set(seen_ids@), limit as nat, by_trim),
{
    let mut seen = seen_ids;
    let ghost goal = first_unique_songs(songs@, id_set(seen@), limit as nat, by_trim);
    let mut out: Vec<Song> = Vec::new();
    let mut left = limit;
    let mut i: usize = 0;
    assert(songs@.skip(0) =~= songs@);
    while i < songs.len() && left > 0
        invariant
            i <= songs.len(),
            goal == out@ + first_unique_songs(songs@.skip(i as int), id_set(seen@), left as nat, by_trim),
        decreases songs.len() - i,
    {
        let ghost rest = songs@.skip(i as int);
        assert(rest.drop_first() =~= songs@.skip(i + 1));
        let s = &songs[i];
        if !is_blank(&s.id, by_trim) && !contains_id(&seen, &s.id) {
            proof { lemma_id_set_push(seen@, s.id); }
            let ghost before = out@;
            out.push(s.duplicate());
            seen.push(s.id.clone());
            left -= 1;
            assert(out@ == before + seq![rest[0]]);
        }
        i += 1;
    }
    assert(first_unique_songs(songs@.skip(i as int), id_set(seen@), left as nat, by_trim) =~= Seq::<Song>::empty());
    assert(out@ + Seq::<Song>::empty() =~= out@);
    out
}

/// `first_unique_albums` with nothing seen yet.
pub fn unique_album_list(albums: &[Album], limit: usize) -> (r: Vec<Album>)
    ensures r@ == first_unique_albums(albums@, Set::empty(), limit as nat),
{
    let mut seen: Vec<String> = Vec::new();
    assert(id_set(seen@) =~= Set::<Seq<char>>::empty());
    let ghost goal = first_unique_albums(albums@, id_set(seen@), limit as nat);
    let mut out: Vec<Album> = Vec::new();
    let mut left = limit;
    let mut i: usize = 0;
    assert(albums@.skip(0) =~= albums@);
    while i < albums.len() && left > 0
        invariant
            i <= albums.len(),
            goal == out@ + first_unique_albums(albums@.skip(i as int), id_set(seen@), left as nat),
        decreases albums.len() - i,
    {
        let ghost rest = albums@.skip(i as int);
        assert(rest.drop_first() =~= albums@.skip(i + 1));
        let a = &albums[i];
        if !a.id.as_str().is_empty() && !contains_id(&seen, &a.id) {
            proof { lemma_id_set_push(seen@, a.id); }
            let ghost before = out@;
            out.push(a.duplicate());
            seen.push(a.id.clone());
            left -= 1;
            assert(out@ == before + seq![rest[0]]);
        }
        i += 1;
    }
    assert(first_unique_albums(albums@.skip(i as int), id_set(seen@), left as nat) =~= Seq::<Album>::empty());
    assert(out@ + Seq::<Album>::empty() =~= out@);
    out
}


/// True when `r` is `s` with some elements left out, the rest in their order.
pub open spec fn subsequence_of<T>(r: Seq<T>, s: Seq<T>) -> bool
    decreases s.len(),
{
    if r.len() == 0 {
        true
    } else if s.len() == 0 {
        false
    } else if r[0] == s[0] {
        subsequence_of(r.drop_first(), s.drop_first())
    } else {
        subsequence_of(r, s.drop_first())
    }
}

/// Keeping the first song of each id: the kept songs come in their original order, at
/// most `limit` of them, none with a blank id or an id of `seen`, and no id twice.
pub proof fn first_unique_songs_laws(s: Seq<Song>, seen: Set<Seq<char>>, limit: nat, by_trim: bool)
    ensures
        first_unique_songs(s, seen, limit, by_trim).len() <= limit,
        subsequence_of(first_unique_songs(s, seen, limit, by_trim), s),
        forall|i: int| 0 <= i < first_unique_songs(s, seen, limit, by_trim).len() ==> {
            &&& !blank((#[trigger] first_unique_songs(s, seen, limit, by_trim)[i]).id@, by_trim)
            &&& !seen.contains(first_unique_songs(s, seen, limit, by_trim)[i].id@)
        },
        forall|i: int, j: int| 0 <= i < j < first_unique_songs(s, seen, limit, by_trim).len() ==>
            (#[trigger] first_unique_songs(s, seen, limit, by_trim)[i]).id@
                != (#[trigger] first_unique_songs(s, seen, limit, by_trim)[j]).id@,
    decreases s.len(),
{
    let r = first_unique_songs(s, seen, limit, by_trim);
    if s.len() == 0 || limit == 0 {
    } else if !blank(s[0].id@, by_trim) && !seen.contains(s[0].id@) {
        let seen2 = seen.insert(s[0].id@);
        let rest = first_unique_songs(s.drop_first(), seen2, (limit - 1) as nat, by_trim);
        first_unique_songs_laws(s.drop_first(), seen2, (limit - 1) as nat, by_trim);
        assert(r == seq![s[0]] + rest);
        assert(r.drop_first() =~= rest);
        assert forall|i: int| 0 < i < r.len() implies #[trigger] r[i] == rest[i - 1] by {}
        assert forall|i: int, j: int| 0 <= i < j < r.len() implies (#[trigger] r[i]).id@ != (#[trigger] r[j]).id@ by {
            if i == 0 {
                assert(r[j] == rest[j - 1]);
                assert(seen2.contains(s[0].id@));
            } else {
                assert(r[i] == rest[i - 1] && r[j] == rest[j - 1]);
            }
        }
    } else {
        first_unique_songs_laws(s.drop_first(), seen, limit, by_trim);
        if r.len() > 0 {
            assert(r[0] != s[0]);
        }
    }
}

/// Keeping the first album of each id: the kept albums come from `s` in order, at most
/// `limit` of them, none with an empty id or an id of `seen`, and no id twice.
pub proof fn first_unique_albums_laws(s: Seq<Album>, seen: Set<Seq<char>>, limit: nat)
    ensures
        first_unique_albums(s, seen, limit).len() <= limit,
        subsequence_of(first_unique_albums(s, seen, limit), s),
        forall|i: int| 0 <= i < first_unique_albums(s, seen, limit).len() ==> {
            &&& (#[trigger] first_unique_albums(s, seen, limit)[i]).id@.len() > 0
            &&& !seen.contains(first_unique_albums(s, seen, limit)[i].id@)
            &&& s.contains(first_unique_albums(s, seen, limit)[i])
        },
        forall|i: int, j: int| 0 <= i < j < first_unique_albums(s, seen, limit).len() ==>
            (#[trigger] first_unique_albums(s, seen, limit)[i]).id@
                != (#[trigger] first_unique_albums(s, seen, limit)[j]).id@,
    decreases s.len(),
{
    let r = first_unique_albums(s, seen, limit);
    if s.len() == 0 || limit == 0 {
    } else if s[0].id@.len() > 0 && !seen.contains(s[0].id@) {
        let seen2 = seen.insert(s[0].id@);
        let rest = first_unique_albums(s.drop_first(), seen2, (limit - 1) as nat);
        first_unique_albums_laws(s.drop_first(), seen2, (limit - 1) as nat);
        assert(r == seq![s[0]] + rest);
        assert(r.drop_first() =~= rest);
        assert forall|i: int| 0 <= i < r.len() implies s.contains(#[trigger] r[i]) by {
            if i == 0 {
                assert(s[0] == r[0]);
            } else {
                assert(r[i] == rest[i - 1]);
                let k = choose|k: int| 0 <= k < s.drop_first().len() && s.drop_first()[k] == rest[i - 1];
                assert(s[k + 1] == r[i]);
            }
        }
        assert forall|i: int, j: int| 0 <= i < j < r.len() implies (#[trigger] r[i]).id@ != (#[trigger] r[j]).id@ by {
            if i == 0 {
                assert(r[j] == rest[j - 1]);
                assert(seen2.contains(s[0].id@));
            } else {
                assert(r[i] == rest[i - 1] && r[j] == rest[j - 1]);
            }
        }
    } else {
        first_unique_albums_laws(s.drop_first(), seen, limit);
        assert forall|i: int| 0 <= i < r.len() implies s.contains(#[trigger] r[i]) by {
            let k = choose|k: int| 0 <= k < s.drop_first().len() && s.drop_first()[k] == r[i];
            assert(s[k + 1] == r[i]);
        }
        if r.len() > 0 {
            assert(r[0] != s[0]);
        }
    }
}
} // verus!
