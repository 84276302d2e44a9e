//! Songs, albums, the play queue and listening history: the fields the library reads.
use vstd::prelude::*;

verus! {

/// A track as the server describes it: the fields that the library's logic reads.
#[derive(Debug, Clone, PartialEq, Eq, Default)]
pub struct Song {
    pub id: String,
    pub title: String,
    pub album: Option<String>,
    pub album_id: Option<String>,
    pub artist: Option<String>,
    pub artist_id: Option<String>,
    pub cover_art: Option<String>,
    pub duration: Option<u32>,
    pub track: Option<u32>,
    pub disc_number: Option<u32>,
    pub year: Option<u32>,
    /// In the user's favorites (shown with ★).
    pub starred: bool,
    /// The user's rating, 1 to 5.
    pub user_rating: Option<u8>,
}

/// An album as the server describes it.
#[derive(Debug, Clone, PartialEq, Eq, Default)]
pub struct Album {
    pub id: String,
    pub name: String,
    pub artist: Option<String>,
    pub artist_id: Option<String>,
    pub cover_art: Option<String>,
    /// In the user's favorites (shown with ★).
    pub starred: bool,
    /// The user's rating, 1 to 5.
    pub user_rating: Option<u8>,
}

pub fn copy_opt_string(s: &Option<String>) -> (r: Option<String>)
    ensures r == *s,
{
    match s {
        Some(x) => Some(x.clone()),
        None => None,
    }
}

impl Song {
    /// A copy of the song, field by field.
    pub fn duplicate(&self) -> (r: Song)
        ensures r == *self,
    {
        Song {
            id: self.id.clone(),
            title: self.title.clone(),
            album: copy_opt_string(&self.album),
            album_id: copy_opt_string(&self.album_id),
            artist: copy_opt_string(&self.artist),
            artist_id: copy_opt_string(&self.artist_id),
            cover_art: copy_opt_string(&self.cover_art),
            duration: self.duration,
            track: self.track,
            disc_number: self.disc_number,
            year: self.year,
            starred: self.starred,
            user_rating: self.user_rating,
        }
    }
}

impl Album {
    /// A copy of the album, field by field.
    pub fn duplicate(&self) -> (r: Album)
        ensures r == *self,
    {
        Album {
            id: self.id.clone(),
            name: self.name.clone(),
            artist: copy_opt_string(&self.artist),
            artist_id: copy_opt_string(&self.artist_id),
            cover_art: copy_opt_string(&self.cover_art),
            starred: self.starred,
            user_rating: self.user_rating,
        }
    }
}

/// The ids of a sequence of songs.
pub open spec fn song_ids(s: Seq<Song>) -> Seq<Seq<char>> {
    s.map_values(|x: Song| x.id@)
}

/// The ids of the songs, in order.
pub fn ids_of(songs: &[Song]) -> (r: Vec<String>)
    ensures r@.map_values(|x: String| x@) == song_ids(songs@),
{
    let mut r: Vec<String> = Vec::new();
    let mut i: usize = 0;
    while i < songs.len()
        invariant
            i <= songs.len(),
            r.len() == i,
            forall|j: int| 0 <= j < i ==> (#[trigger] r@[j])@ == songs@[j].id@,
        decreases songs.len() - i,
    {
        r.push(songs[i].id.clone());
        i += 1;
    }
    assert(r@.map_values(|x: String| x@) =~= song_ids(songs@));
    r
}

/// True when the two lists hold the same song ids in the same order.
pub fn same_ids(a: &[Song], b: &[Song]) -> (r: bool)
    ensures r == (song_ids(a@) == song_ids(b@)),
{
    if a.len() != b.len() {
        assert(song_ids(a@).len() != song_ids(b@).len());
        return false;
    }
    let mut i: usize = 0;
    while i < a.len()
        invariant
            i <= a.len(),
            a.len() == b.len(),
            forall|j: int| 0 <= j < i ==> a@[j].id@ == b@[j].id@,
        decreases a.len() - i,
    {
        if a[i].id != b[i].id {
            assert(song_ids(a@)[i as int] != song_ids(b@)[i as int]);
            return false;
        }
        i += 1;
    }
    assert(song_ids(a@) =~= song_ids(b@));
    true
}

/// The play queue: the fields that request bookkeeping reads.
#[derive(Debug, Clone, Default)]
pub struct QueueState {
    pub songs: Vec<Song>,
    pub cursor: usize,
    pub scroll: usize,
    pub loop_enabled: bool,
}

impl QueueState {
    /// Appends a song to the end of the queue.
    pub fn push(&mut self, song: Song)
        ensures
            final(self).songs@ == old(self).songs@.push(song),
            final(self).cursor == old(self).cursor,
            final(self).scroll == old(self).scroll,
            final(self).loop_enabled == old(self).loop_enabled,
    {
        self.songs.push(song);
    }

    /// Moves the cursor to the next song; false (and nothing moves) at the last song or
    /// in an empty queue.
    pub fn next(&mut self) -> (r: bool)
        ensures
            r == (old(self).cursor + 1 < old(self).songs@.len()),
            final(self).cursor == if r { old(self).cursor + 1 } else { old(self).cursor as int },
            final(self).songs@ == old(self).songs@,
            final(self).scroll == old(self).scroll,
            final(self).loop_enabled == old(self).loop_enabled,
    {
        if self.cursor < self.songs.len() && self.songs.len() - self.cursor > 1 {
            self.cursor = self.cursor + 1;
            true
        } else {
            false
        }
    }

    /// Moves the cursor to the previous song; false (and nothing moves) at the first song.
    pub fn prev(&mut self) -> (r: bool)
        ensures
            r == (old(self).cursor > 0),
            final(self).cursor == if r { old(self).cursor - 1 } else { old(self).cursor as int },
            final(self).songs@ == old(self).songs@,
            final(self).scroll == old(self).scroll,
            final(self).loop_enabled == old(self).loop_enabled,
    {
        if self.cursor > 0 {
            self.cursor = self.cursor - 1;
            true
        } else {
            false
        }
    }

    /// The song under the cursor.
    pub fn current(&self) -> (r: Option<&Song>)
        ensures
            r == if self.cursor < self.songs@.len() { Some(&self.songs@[self.cursor as int]) } else { None },
    {
        if self.cursor < self.songs.len() { Some(&self.songs[self.cursor]) } else { None }
    }

    /// The song after the cursor, which gapless playback loads ahead.
    pub fn peek_next(&self) -> (r: Option<&Song>)
        ensures
            r == if self.cursor + 1 < self.songs@.len() { Some(&self.songs@[self.cursor + 1]) } else { None },
    {
        if self.cursor < self.songs.len() && self.songs.len() - self.cursor > 1 {
            Some(&self.songs[self.cursor + 1])
        } else {
            None
        }
    }
}

/// One recorded listen.
#[derive(Debug, Clone, Default)]
pub struct PlayRecord {
    pub song_id: String,
    pub album_id: String,
    pub artist_id: String,
    pub artist_name: String,
    pub album_name: String,
    pub track_name: String,
    pub played_at: i64,
    pub duration_secs: u64,
}

impl PlayRecord {
    /// A copy of the record, field by field.
    pub fn duplicate(&self) -> (r: PlayRecord)
        ensures r == *self,
    {
        PlayRecord {
            song_id: self.song_id.clone(),
            album_id: self.album_id.clone(),
            artist_id: self.artist_id.clone(),
            artist_name: self.artist_name.clone(),
            album_name: self.album_name.clone(),
            track_name: self.track_name.clone(),
            played_at: self.played_at,
            duration_secs: self.duration_secs,
        }
    }
}

/// Listening history, oldest record first.
#[derive(Debug, Clone, Default)]
pub struct PlayHistory {
    pub records: Vec<PlayRecord>,
}

} // verus!

verus! {

/// The first song of `s` whose id is `id`.
pub open spec fn lookup(s: Seq<Song>, id: Seq<char>) -> Option<Song>
    decreases s.len(),
{
    if s.len() == 0 {
        None
    } else if s[0].id@ == id {
        Some(s[0])
    } else {
        lookup(s.drop_first(), id)
    }
}

/// Songs found by id (the metadata index).
#[derive(Debug, Clone, Default)]
pub struct SongIndex {
    pub songs: Vec<Song>,
}

impl SongIndex {
    pub fn new() -> (r: SongIndex)
        ensures r.songs@.len() == 0,
    {
        SongIndex { songs: Vec::new() }
    }

    /// Adds `song` under its id, replacing the song that had that id.
    pub fn insert(&mut self, song: Song)
        ensures
            lookup(final(self).songs@, song.id@) == Some(song),
            forall|k: Seq<char>| k != song.id@ ==> lookup(#[trigger] final(self).songs@, k) == lookup(old(self).songs@, k),
    {
        let ghost before = self.songs@;
        let mut i: usize = 0;
        while i < self.songs.len()
            invariant
                i <= self.songs.len(),
                self.songs@ == before,
                before == old(self).songs@,
                forall|j: int| 0 <= j < i ==> (#[trigger] self.songs@[j]).id@ != song.id@,
            decreases self.songs.len() - i,
        {
            if self.songs[i].id == song.id {
                let ghost s = self.songs@;
                self.songs.set(i, song);
                proof {
                    lemma_lookup_set(s, i as int, song);
                    assert(self.songs@ == s.update(i as int, song));
                }
                return;
            }
            i += 1;
        }
        let ghost s = self.songs@;
        self.songs.push(song);
        proof {
            lemma_lookup_push(s, song);
            assert(self.songs@ == s.push(song));
        }
    }

    /// The song with id `id`.
    pub fn get(&self, id: &String) -> (r: Option<&Song>)
        ensures
            match r {
                Some(s) => lookup(self.songs@, id@) == Some(*s),
                None => lookup(self.songs@, id@) is None,
            },
    {
        let mut i: usize = 0;
        assert(self.songs@.skip(0) =~= self.songs@);
        while i < self.songs.len()
            invariant
                i <= self.songs.len(),
                lookup(self.songs@, id@) == lookup(self.songs@.skip(i as int), id@),
            decreases self.songs.len() - i,
        {
            assert(self.songs@.skip(i as int).drop_first() =~= self.songs@.skip(i + 1));
            if self.songs[i].id == *id {
                return Some(&self.songs[i]);
            }
            i += 1;
        }
        None
    }
}

proof fn lemma_lookup_set(s: Seq<Song>, i: int, x: Song)
    requires
        0 <= i < s.len(),
        s[i].id@ == x.id@,
        forall|j: int| 0 <= j < i ==> (#[trigger] s[j]).id@ != x.id@,
    ensures
        lookup(s.update(i, x), x.id@) == Some(x),
        forall|k: Seq<char>| k != x.id@ ==> lookup(#[trigger] s.update(i, x), k) == lookup(s, k),
    decreases i,
{
    if i > 0 {
        assert(s.update(i, x).drop_first() =~= s.drop_first().update(i - 1, x));
        lemma_lookup_set(s.drop_first(), i - 1, x);
        assert(s[0].id@ != x.id@);
        assert forall|k: Seq<char>| k != x.id@ implies lookup(#[trigger] s.update(i, x), k) == lookup(s, k) by {
            assert(lookup(s.drop_first().update(i - 1, x), k) == lookup(s.drop_first(), k));
        }
    } else {
        assert(s.update(0, x).drop_first() =~= s.drop_first());
        assert forall|k: Seq<char>| k != x.id@ implies lookup(#[trigger] s.update(i, x), k) == lookup(s, k) by {
        }
    }
}

proof fn lemma_lookup_push(s: Seq<Song>, x: Song)
    requires
        forall|j: int| 0 <= j < s.len() ==> (#[trigger] s[j]).id@ != x.id@,
    ensures
        lookup(s.push(x), x.id@) == Some(x),
        forall|k: Seq<char>| k != x.id@ ==> lookup(#[trigger] s.push(x), k) == lookup(s, k),
    decreases s.len(),
{
    if s.len() > 0 {
        assert(s.push(x).drop_first() =~= s.drop_first().push(x));
        lemma_lookup_push(s.drop_first(), x);
        assert(s[0].id@ != x.id@);
        assert forall|k: Seq<char>| k != x.id@ implies lookup(#[trigger] s.push(x), k) == lookup(s, k) by {
            assert(lookup(s.drop_first().push(x), k) == lookup(s.drop_first(), k));
        }
    } else {
        assert(s.push(x).drop_first() =~= Seq::<Song>::empty());
        assert forall|k: Seq<char>| k != x.id@ implies lookup(#[trigger] s.push(x), k) == lookup(s, k) by {
            assert(lookup(Seq::<Song>::empty(), k) is None);
        }
    }
}

} // verus!
