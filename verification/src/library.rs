//! Favorites and ratings across everything the client has loaded: the marks a star or a
//! rating changes, what the favorites overlay keeps, and the ratings the server sends for
//! the Browse columns.
use vstd::prelude::*;
use crate::media::{Song, Album};
use crate::session::{clamp_index, clamp_usize};
use crate::text::views;

verus! {

/// An artist of the Browse column and the favorites overlay.
#[derive(Debug, Clone, PartialEq, Eq, Default)]
pub struct Artist {
    pub id: String,
    pub name: String,
    /// In the user's favorites (shown with ★).
    pub starred: bool,
    /// The user's rating, 1 to 5.
    pub user_rating: Option<u8>,
}

/// What a star or a rating applies to.
#[derive(Debug, Clone, Copy, PartialEq, Eq, Structural)]
pub enum FavoriteKind {
    Song,
    Album,
    Artist,
}

/// The list the favorites overlay shows.
#[derive(Debug, Clone, Copy, PartialEq, Eq, Structural, Default)]
pub enum FavoritesCategory {
    #[default]
    Songs,
    Albums,
    Artists,
}

/// A song, album or artist: what a star or a rating changes on it.
pub trait LibraryItem: Sized {
    spec fn item_id(&self) -> Seq<char>;

    spec fn with_star(self, on: bool) -> Self;

    spec fn is_starred(&self) -> bool;

    fn starred_flag(&self) -> (r: bool)
        ensures r == self.is_starred();

    spec fn with_rating(self, rating: Option<u8>) -> Self;

    fn id_str(&self) -> (r: &str)
        ensures r@ == self.item_id();

    fn starred_copy(&self, on: bool) -> (r: Self)
        ensures r == self.with_star(on);

    fn rated_copy(&self, rating: Option<u8>) -> (r: Self)
        ensures r == self.with_rating(rating);

    fn same_copy(&self) -> (r: Self)
        ensures r == *self;
}

impl LibraryItem for Song {
    open spec fn item_id(&self) -> Seq<char> { self.id@ }

    open spec fn with_star(self, on: bool) -> Song { Song { starred: on, ..self } }

    open spec fn is_starred(&self) -> bool { self.starred }

    fn starred_flag(&self) -> (r: bool) { self.starred }

    open spec fn with_rating(self, rating: Option<u8>) -> Song { Song { user_rating: rating, ..self } }

    fn id_str(&self) -> (r: &str) { self.id.as_str() }

    fn starred_copy(&self, on: bool) -> (r: Song) {
        let mut c = self.duplicate();
        c.starred = on;
        c
    }

    fn rated_copy(&self, rating: Option<u8>) -> (r: Song) {
        let mut c = self.duplicate();
        c.user_rating = rating;
        c
    }

    fn same_copy(&self) -> (r: Song) { self.duplicate() }
}

impl LibraryItem for Album {
    open spec fn item_id(&self) -> Seq<char> { self.id@ }

    open spec fn with_star(self, on: bool) -> Album { Album { starred: on, ..self } }

    open spec fn is_starred(&self) -> bool { self.starred }

    fn starred_flag(&self) -> (r: bool) { self.starred }

    open spec fn with_rating(self, rating: Option<u8>) -> Album { Album { user_rating: rating, ..self } }

    fn id_str(&self) -> (r: &str) { self.id.as_str() }

    fn starred_copy(&self, on: bool) -> (r: Album) {
        let mut c = self.duplicate();
        c.starred = on;
        c
    }

    fn rated_copy(&self, rating: Option<u8>) -> (r: Album) {
        let mut c = self.duplicate();
        c.user_rating = rating;
        c
    }

    fn same_copy(&self) -> (r: Album) { self.duplicate() }
}

impl Artist {
    /// A copy of the artist, field by field.
    pub fn duplicate(&self) -> (r: Artist)
        ensures r == *self,
    {
        Artist { id: self.id.clone(), name: self.name.clone(), starred: self.starred, user_rating: self.user_rating }
    }
}

impl LibraryItem for Artist {
    open spec fn item_id(&self) -> Seq<char> { self.id@ }

    open spec fn with_star(self, on: bool) -> Artist { Artist { starred: on, ..self } }

    open spec fn is_starred(&self) -> bool { self.starred }

    fn starred_flag(&self) -> (r: bool) { self.starred }

    open spec fn with_rating(self, rating: Option<u8>) -> Artist { Artist { user_rating: rating, ..self } }

    fn id_str(&self) -> (r: &str) { self.id.as_str() }

    fn starred_copy(&self, on: bool) -> (r: Artist) {
        let mut c = self.duplicate();
        c.starred = on;
        c
    }

    fn rated_copy(&self, rating: Option<u8>) -> (r: Artist) {
        let mut c = self.duplicate();
        c.user_rating = rating;
        c
    }

    fn same_copy(&self) -> (r: Artist) { self.duplicate() }
}

/// `s` with every item whose id is `id` starred (or not).
pub open spec fn starred_where<T: LibraryItem>(s: Seq<T>, id: Seq<char>, on: bool) -> Seq<T> {
    s.map_values(|x: T| if x.item_id() == id { x.with_star(on) } else { x })
}

/// `s` with every item whose id is `id` given `rating`.
pub open spec fn rated_where<T: LibraryItem>(s: Seq<T>, id: Seq<char>, rating: Option<u8>) -> Seq<T> {
    s.map_values(|x: T| if x.item_id() == id { x.with_rating(rating) } else { x })
}

/// `s` without the items whose id is `id`, in order.
pub open spec fn without_id<T: LibraryItem>(s: Seq<T>, id: Seq<char>) -> Seq<T> {
    s.filter(other_id(id))
}

/// Holds of the items whose id is not `id`.
pub open spec fn other_id<T: LibraryItem>(id: Seq<char>) -> spec_fn(T) -> bool {
    |x: T| x.item_id() != id
}

fn star_items<T: LibraryItem>(s: &Vec<T>, id: &str, on: bool) -> (r: Vec<T>)
    ensures r@ == starred_where(s@, id@, on),
{
    let mut r: Vec<T> = Vec::new();
    let mut i: usize = 0;
    while i < s.len()
        invariant
            i <= s.len(),
            r@ == starred_where(s@.take(i as int), id@, on),
        decreases s.len() - i,
    {
        let x = if crate::text::str_eq(s[i].id_str(), id) { s[i].starred_copy(on) } else { s[i].same_copy() };
        r.push(x);
        assert(starred_where(s@.take(i + 1), id@, on) =~= starred_where(s@.take(i as int), id@, on).push(x));
        i += 1;
    }
    assert(s@.take(s.len() as int) =~= s@);
    r
}

fn rate_items<T: LibraryItem>(s: &Vec<T>, id: &str, rating: Option<u8>) -> (r: Vec<T>)
    ensures r@ == rated_where(s@, id@, rating),
{
    let mut r: Vec<T> = Vec::new();
    let mut i: usize = 0;
    while i < s.len()
        invariant
            i <= s.len(),
            r@ == rated_where(s@.take(i as int), id@, rating),
        decreases s.len() - i,
    {
        let x = if crate::text::str_eq(s[i].id_str(), id) { s[i].rated_copy(rating) } else { s[i].same_copy() };
        r.push(x);
        assert(rated_where(s@.take(i + 1), id@, rating) =~= rated_where(s@.take(i as int), id@, rating).push(x));
        i += 1;
    }
    assert(s@.take(s.len() as int) =~= s@);
    r
}

fn drop_items<T: LibraryItem>(s: &Vec<T>, id: &str) -> (r: Vec<T>)
    ensures r@ == without_id(s@, id@),
{
    let ghost keep = other_id::<T>(id@);
    let mut r: Vec<T> = Vec::new();
    let mut i: usize = 0;
    while i < s.len()
        invariant
            i <= s.len(),
            keep == other_id::<T>(id@),
            r@ == s@.take(i as int).filter(keep),
        decreases s.len() - i,
    {
        let ghost before = s@.take(i as int);
        assert(s@.take(i + 1) =~= before.push(s@[i as int]));
        proof { before.lemma_filter_push(s@[i as int], keep); }
        if !crate::text::str_eq(s[i].id_str(), id) {
            r.push(s[i].same_copy());
        }
        i += 1;
    }
    assert(s@.take(s.len() as int) =~= s@);
    r
}

/// The lists of lists as plain sequences.
pub open spec fn lists<T>(v: Seq<Vec<T>>) -> Seq<Seq<T>> {
    v.map_values(|l: Vec<T>| l@)
}

/// Every list of `v` with `starred_where` applied.
pub open spec fn starred_in_lists<T: LibraryItem>(v: Seq<Seq<T>>, id: Seq<char>, on: bool) -> Seq<Seq<T>> {
    v.map_values(|l: Seq<T>| starred_where(l, id, on))
}

/// Every list of `v` with `rated_where` applied.
pub open spec fn rated_in_lists<T: LibraryItem>(v: Seq<Seq<T>>, id: Seq<char>, rating: Option<u8>) -> Seq<Seq<T>> {
    v.map_values(|l: Seq<T>| rated_where(l, id, rating))
}

fn star_lists<T: LibraryItem>(v: &Vec<Vec<T>>, id: &str, on: bool) -> (r: Vec<Vec<T>>)
    ensures lists(r@) == starred_in_lists(lists(v@), id@, on),
{
    let mut r: Vec<Vec<T>> = Vec::new();
    let mut i: usize = 0;
    while i < v.len()
        invariant
            i <= v.len(),
            lists(r@) == starred_in_lists(lists(v@.take(i as int)), id@, on),
        decreases v.len() - i,
    {
        let l = star_items(&v[i], id, on);
        let ghost before = r@;
        r.push(l);
        assert(lists(r@) =~= lists(before).push(l@));
        assert(lists(v@.take(i + 1)) =~= lists(v@.take(i as int)).push(v@[i as int]@));
        assert(starred_in_lists(lists(v@.take(i + 1)), id@, on)
            =~= starred_in_lists(lists(v@.take(i as int)), id@, on).push(starred_where(v@[i as int]@, id@, on)));
        i += 1;
    }
    assert(v@.take(v.len() as int) =~= v@);
    r
}

fn rate_lists<T: LibraryItem>(v: &Vec<Vec<T>>, id: &str, rating: Option<u8>) -> (r: Vec<Vec<T>>)
    ensures lists(r@) == rated_in_lists(lists(v@), id@, rating),
{
    let mut r: Vec<Vec<T>> = Vec::new();
    let mut i: usize = 0;
    while i < v.len()
        invariant
            i <= v.len(),
            lists(r@) == rated_in_lists(lists(v@.take(i as int)), id@, rating),
        decreases v.len() - i,
    {
        let l = rate_items(&v[i], id, rating);
        let ghost before = r@;
        r.push(l);
        assert(lists(r@) =~= lists(before).push(l@));
        assert(lists(v@.take(i + 1)) =~= lists(v@.take(i as int)).push(v@[i as int]@));
        assert(rated_in_lists(lists(v@.take(i + 1)), id@, rating)
            =~= rated_in_lists(lists(v@.take(i as int)), id@, rating).push(rated_where(v@[i as int]@, id@, rating)));
        i += 1;
    }
    assert(v@.take(v.len() as int) =~= v@);
    r
}

/// Everything loaded that carries stars and ratings.
pub struct LibraryModel {
    /// The artists of the Browse column.
    pub artists: Vec<Artist>,
    /// The loaded album lists (one per artist).
    pub album_lists: Vec<Vec<Album>>,
    /// The loaded song lists that favorites are checked against: each album's tracks and
    /// the library index.
    pub song_lists: Vec<Vec<Song>>,
    /// The other loaded song lists: each folder's tracks and the playlist shown.
    pub extra_song_lists: Vec<Vec<Song>>,
    pub queue: Vec<Song>,
    pub current_song: Option<Song>,
    /// The favorites overlay: its three lists, the list shown and its cursor.
    pub fav_songs: Vec<Song>,
    pub fav_albums: Vec<Album>,
    pub fav_artists: Vec<Artist>,
    pub fav_category: FavoritesCategory,
    pub fav_selected: usize,
}

/// `LibraryModel` as plain values.
pub struct LibraryView {
    pub artists: Seq<Artist>,
    pub album_lists: Seq<Seq<Album>>,
    pub song_lists: Seq<Seq<Song>>,
    pub extra_song_lists: Seq<Seq<Song>>,
    pub queue: Seq<Song>,
    pub current_song: Option<Song>,
    pub fav_songs: Seq<Song>,
    pub fav_albums: Seq<Album>,
    pub fav_artists: Seq<Artist>,
    pub fav_category: FavoritesCategory,
    pub fav_selected: usize,
}

impl View for LibraryModel {
    type V = LibraryView;

    open spec fn view(&self) -> LibraryView {
        LibraryView {
            artists: self.artists@,
            album_lists: lists(self.album_lists@),
            song_lists: lists(self.song_lists@),
            extra_song_lists: lists(self.extra_song_lists@),
            queue: self.queue@,
            current_song: self.current_song,
            fav_songs: self.fav_songs@,
            fav_albums: self.fav_albums@,
            fav_artists: self.fav_artists@,
            fav_category: self.fav_category,
            fav_selected: self.fav_selected,
        }
    }
}

/// The number of rows of the favorites list shown.
pub open spec fn fav_count(v: LibraryView) -> int {
    match v.fav_category {
        FavoritesCategory::Songs => v.fav_songs.len() as int,
        FavoritesCategory::Albums => v.fav_albums.len() as int,
        FavoritesCategory::Artists => v.fav_artists.len() as int,
    }
}

/// The favorites cursor kept on the list shown.
pub open spec fn fav_cursor_kept(v: LibraryView) -> LibraryView {
    LibraryView { fav_selected: clamp_index(v.fav_selected as int, fav_count(v)) as usize, ..v }
}

/// The current song with `f` applied when its id is `id`.
pub open spec fn current_marked(c: Option<Song>, id: Seq<char>, f: spec_fn(Song) -> Song) -> Option<Song> {
    match c {
        Some(s) => if s.id@ == id { Some(f(s)) } else { Some(s) },
        None => None,
    }
}

/// The library after the item `id` of kind `kind` was starred (`on`) or unstarred, as
/// the client marks it everywhere it is loaded. A song is marked in every song list, the
/// queue and the current song; an album in every album list and the favorite albums; an
/// artist in the artists and the favorite artists. Unstarring also takes it out of its
/// favorites list, the cursor kept on the list shown.
pub open spec fn with_starred(v: LibraryView, kind: FavoriteKind, id: Seq<char>, on: bool) -> LibraryView {
    match kind {
        FavoriteKind::Song => {
            let marked = LibraryView {
                song_lists: starred_in_lists(v.song_lists, id, on),
                extra_song_lists: starred_in_lists(v.extra_song_lists, id, on),
                queue: starred_where(v.queue, id, on),
                current_song: current_marked(v.current_song, id, |s: Song| s.with_star(on)),
                ..v
            };
            if on { marked } else { fav_cursor_kept(LibraryView { fav_songs: without_id(v.fav_songs, id), ..marked }) }
        },
        FavoriteKind::Album => {
            let marked = LibraryView {
                album_lists: starred_in_lists(v.album_lists, id, on),
                fav_albums: starred_where(v.fav_albums, id, on),
                ..v
            };
            if on { marked } else {
                fav_cursor_kept(LibraryView { fav_albums: without_id(marked.fav_albums, id), ..marked })
            }
        },
        FavoriteKind::Artist => {
            let marked = LibraryView {
                artists: starred_where(v.artists, id, on),
                fav_artists: starred_where(v.fav_artists, id, on),
                ..v
            };
            if on { marked } else {
                fav_cursor_kept(LibraryView { fav_artists: without_id(marked.fav_artists, id), ..marked })
            }
        },
    }
}

/// The library after the item `id` of kind `kind` was given `rating` (`None` clears it):
/// a song in every song list, the queue, the current song and the favorite songs; an
/// album in every album list and the favorite albums; an artist in the artists and the
/// favorite artists.
pub open spec fn with_rating(v: LibraryView, kind: FavoriteKind, id: Seq<char>, rating: Option<u8>) -> LibraryView {
    match kind {
        FavoriteKind::Song => LibraryView {
            song_lists: rated_in_lists(v.song_lists, id, rating),
            extra_song_lists: rated_in_lists(v.extra_song_lists, id, rating),
            queue: rated_where(v.queue, id, rating),
            current_song: current_marked(v.current_song, id, |s: Song| s.with_rating(rating)),
            fav_songs: rated_where(v.fav_songs, id, rating),
            ..v
        },
        FavoriteKind::Album => LibraryView {
            album_lists: rated_in_lists(v.album_lists, id, rating),
            fav_albums: rated_where(v.fav_albums, id, rating),
            ..v
        },
        FavoriteKind::Artist => LibraryView {
            artists: rated_where(v.artists, id, rating),
            fav_artists: rated_where(v.fav_artists, id, rating),
            ..v
        },
    }
}

impl LibraryModel {
    fn keep_fav_cursor(&mut self)
        ensures final(self)@ == fav_cursor_kept(old(self)@),
    {
        let n = match self.fav_category {
            FavoritesCategory::Songs => self.fav_songs.len(),
            FavoritesCategory::Albums => self.fav_albums.len(),
            FavoritesCategory::Artists => self.fav_artists.len(),
        };
        self.fav_selected = clamp_usize(self.fav_selected, n);
    }

    /// Marks the item `id` starred (or not) everywhere it is loaded (see `with_starred`).
    pub fn set_starred(&mut self, kind: FavoriteKind, id: &str, on: bool)
        ensures final(self)@ == with_starred(old(self)@, kind, id@, on),
    {
        match kind {
            FavoriteKind::Song => {
                self.song_lists = star_lists(&self.song_lists, id, on);
                self.extra_song_lists = star_lists(&self.extra_song_lists, id, on);
                self.queue = star_items(&self.queue, id, on);
                let cur = match &self.current_song {
                    Some(s) => Some(if crate::text::str_eq(s.id.as_str(), id) { s.starred_copy(on) } else { s.duplicate() }),
                    None => None,
                };
                self.current_song = cur;
                if !on {
                    self.fav_songs = drop_items(&self.fav_songs, id);
                    self.keep_fav_cursor();
                }
            },
            FavoriteKind::Album => {
                self.album_lists = star_lists(&self.album_lists, id, on);
                self.fav_albums = star_items(&self.fav_albums, id, on);
                if !on {
                    self.fav_albums = drop_items(&self.fav_albums, id);
                    self.keep_fav_cursor();
                }
            },
            FavoriteKind::Artist => {
                self.artists = star_items(&self.artists, id, on);
                self.fav_artists = star_items(&self.fav_artists, id, on);
                if !on {
                    self.fav_artists = drop_items(&self.fav_artists, id);
                    self.keep_fav_cursor();
                }
            },
        }
    }

    /// Gives the item `id` the rating `rating` everywhere it is loaded (see `with_rating`).
    pub fn set_rating(&mut self, kind: FavoriteKind, id: &str, rating: Option<u8>)
        ensures final(self)@ == with_rating(old(self)@, kind, id@, rating),
    {
        match kind {
            FavoriteKind::Song => {
                self.song_lists = rate_lists(&self.song_lists, id, rating);
                self.extra_song_lists = rate_lists(&self.extra_song_lists, id, rating);
                self.queue = rate_items(&self.queue, id, rating);
                let cur = match &self.current_song {
                    Some(s) => Some(if crate::text::str_eq(s.id.as_str(), id) { s.rated_copy(rating) } else { s.duplicate() }),
                    None => None,
                };
                self.current_song = cur;
                self.fav_songs = rate_items(&self.fav_songs, id, rating);
            },
            FavoriteKind::Album => {
                self.album_lists = rate_lists(&self.album_lists, id, rating);
                self.fav_albums = rate_items(&self.fav_albums, id, rating);
            },
            FavoriteKind::Artist => {
                self.artists = rate_items(&self.artists, id, rating);
                self.fav_artists = rate_items(&self.fav_artists, id, rating);
            },
        }
    }
}

/// The local cache settings that decide what a new favorite downloads.
#[derive(Debug, Clone, Copy, PartialEq, Eq, Structural, Default)]
pub struct CachePolicy {
    /// The local cache is on.
    pub enabled: bool,
    /// Keep favorite songs in the cache.
    pub starred_songs: bool,
    /// Keep the tracks of favorite albums in the cache.
    pub starred_albums: bool,
}

/// What a new favorite puts in the local cache.
#[derive(Debug, Clone, Copy, PartialEq, Eq, Structural)]
pub enum StarCache {
    Nothing,
    /// Download the song (unless cached) under its album, found in the library index or
    /// else among the queued songs.
    Song,
    /// Download the album's tracks.
    Album,
}

/// What follows a star answered by the server.
#[derive(Debug, Clone, PartialEq, Eq)]
pub struct StarStep {
    /// The status line.
    pub flash: String,
    /// Fetch the favorites from the server again.
    pub refetch: bool,
    pub cache: StarCache,
}

/// The cache work and the refetch after a successful star of kind `kind`: a new favorite
/// song or album is cached when the policy says so; the favorites are fetched again.
pub open spec fn star_cache_spec(kind: FavoriteKind, was_starred: bool, cache: CachePolicy) -> StarCache {
    if !was_starred && kind == FavoriteKind::Song && cache.enabled && cache.starred_songs {
        StarCache::Song
    } else if !was_starred && kind == FavoriteKind::Album && cache.enabled && cache.starred_albums {
        StarCache::Album
    } else {
        StarCache::Nothing
    }
}

/// The server answered a star toggle of `id` (which was starred when asked, or not).
/// A failure shows `Favorite failed: ` and the error and changes nothing. Otherwise the
/// item is marked the other way everywhere it is loaded, the status line says it was
/// added to or removed from the favorites, a new favorite is cached as the policy says,
/// and the favorites are fetched again.
pub fn star_toggled(lib: &mut LibraryModel, kind: FavoriteKind, id: &str, was_starred: bool,
    error: Option<String>, cache: CachePolicy) -> (r: StarStep)
    ensures
        error matches Some(e) ==> final(lib)@ == old(lib)@ && r.flash@ == "Favorite failed: "@ + e@
            && !r.refetch && r.cache == StarCache::Nothing,
        error is None ==> {
            &&& final(lib)@ == with_starred(old(lib)@, kind, id@, !was_starred)
            &&& r.flash@ == (if was_starred { "Removed from favorites"@ } else { "Added to favorites"@ })
            &&& r.refetch
            &&& r.cache == star_cache_spec(kind, was_starred, cache)
        },
{
    match error {
        Some(e) => {
            let mut flash = String::from_str("Favorite failed: ");
            flash.append(e.as_str());
            StarStep { flash, refetch: false, cache: StarCache::Nothing }
        },
        None => {
            lib.set_starred(kind, id, !was_starred);
            let flash = if was_starred {
                String::from_str("Removed from favorites")
            } else {
                String::from_str("Added to favorites")
            };
            let c = if !was_starred && kind == FavoriteKind::Song && cache.enabled && cache.starred_songs {
                StarCache::Song
            } else if !was_starred && kind == FavoriteKind::Album && cache.enabled && cache.starred_albums {
                StarCache::Album
            } else {
                StarCache::Nothing
            };
            StarStep { flash, refetch: true, cache: c }
        },
    }
}

/// The album a new favorite song is cached under, when the library index does not know
/// it: that of the first queued song with its id, if not empty.
pub open spec fn queued_album_of(queue: Seq<Song>, id: Seq<char>) -> Option<Seq<char>>
    decreases queue.len(),
{
    if queue.len() == 0 {
        None
    } else if queue[0].id@ == id {
        match queue[0].album_id {
            Some(a) => if a@.len() > 0 { Some(a@) } else { None },
            None => None,
        }
    } else {
        queued_album_of(queue.drop_first(), id)
    }
}

/// The album id to cache the new favorite song `id` under (see `queued_album_of`); the
/// album the library index gives, `indexed`, comes first.
pub fn album_for_cache(indexed: Option<&String>, queue: &[Song], id: &str) -> (r: Option<String>)
    ensures
        match indexed {
            Some(a) => if a@.len() > 0 { r matches Some(x) && x@ == a@ } else { r is None },
            None => match r {
                Some(x) => queued_album_of(queue@, id@) == Some(x@),
                None => queued_album_of(queue@, id@) is None,
            },
        },
{
    if let Some(a) = indexed {
        return if a.unicode_len() > 0 { Some(a.clone()) } else { None };
    }
    let mut i: usize = 0;
    assert(queue@.skip(0) =~= queue@);
    while i < queue.len()
        invariant
            i <= queue.len(),
            indexed is None,
            queued_album_of(queue@, id@) == queued_album_of(queue@.skip(i as int), id@),
        decreases queue.len() - i,
    {
        assert(queue@.skip(i as int).drop_first() =~= queue@.skip(i + 1));
        if crate::text::str_eq(queue[i].id.as_str(), id) {
            return match &queue[i].album_id {
                Some(a) => if a.unicode_len() > 0 { Some(a.clone()) } else { None },
                None => None,
            };
        }
        i += 1;
    }
    None
}

/// The server answered a rating of `id` (`rating` 0 clears it). A failure gives
/// `Rating failed: ` and the error and changes nothing; otherwise the rating is set
/// everywhere the item is loaded and the status line says it was updated or cleared.
pub fn rating_set(lib: &mut LibraryModel, kind: FavoriteKind, id: &str, rating: u8, error: Option<String>) -> (r: String)
    ensures
        error matches Some(e) ==> final(lib)@ == old(lib)@ && r@ == "Rating failed: "@ + e@,
        error is None ==> final(lib)@ == with_rating(old(lib)@, kind, id@, if rating == 0 { None } else { Some(rating) })
            && r@ == (if rating == 0 { "Rating cleared"@ } else { "Rating updated"@ }),
{
    match error {
        Some(e) => {
            let mut flash = String::from_str("Rating failed: ");
            flash.append(e.as_str());
            flash
        },
        None => {
            lib.set_rating(kind, id, if rating == 0 { None } else { Some(rating) });
            if rating == 0 { String::from_str("Rating cleared") } else { String::from_str("Rating updated") }
        },
    }
}

/// The first place of an item with id `id`.
pub open spec fn first_with_id<T: LibraryItem>(s: Seq<T>, id: Seq<char>) -> Option<int>
    decreases s.len(),
{
    if s.len() == 0 {
        None
    } else if s[0].item_id() == id {
        Some(0)
    } else {
        match first_with_id(s.drop_first(), id) {
            Some(k) => Some(k + 1),
            None => None,
        }
    }
}

/// `s` with the first item whose id is `id` given `rating`.
pub open spec fn rate_first<T: LibraryItem>(s: Seq<T>, id: Seq<char>, rating: u8) -> Seq<T> {
    match first_with_id(s, id) {
        Some(k) => s.update(k, s[k].with_rating(Some(rating))),
        None => s,
    }
}

/// `s` after the (id, rating) pairs are applied in order, each to the first item with
/// its id.
pub open spec fn ratings_applied<T: LibraryItem>(s: Seq<T>, ratings: Seq<(Seq<char>, u8)>) -> Seq<T>
    decreases ratings.len(),
{
    if ratings.len() == 0 { s } else { ratings_applied(rate_first(s, ratings[0].0, ratings[0].1), ratings.drop_first()) }
}

/// The (id, rating) pairs as plain values.
pub open spec fn rating_pairs(r: Seq<(String, u8)>) -> Seq<(Seq<char>, u8)> {
    r.map_values(|x: (String, u8)| (x.0@, x.1))
}

proof fn lemma_first_with_id<T: LibraryItem>(s: Seq<T>, id: Seq<char>, j: int)
    requires
        0 <= j <= s.len(),
        forall|k: int| 0 <= k < j ==> s[k].item_id() != id,
    ensures
        j < s.len() && s[j].item_id() == id ==> first_with_id(s, id) == Some(j),
        j == s.len() ==> first_with_id(s, id) is None,
    decreases j,
{
    if j > 0 {
        lemma_first_with_id(s.drop_first(), id, j - 1);
    } else if s.len() > 0 && s[0].item_id() == id {
    }
}

fn rate_first_exec<T: LibraryItem>(items: &mut Vec<T>, id: &str, rating: u8)
    ensures final(items)@ == rate_first(old(items)@, id@, rating),
{
    let mut k: usize = 0;
    while k < items.len()
        invariant
            k <= items.len(),
            items@ == old(items)@,
            forall|j: int| 0 <= j < k ==> items@[j].item_id() != id@,
        decreases items.len() - k,
    {
        if crate::text::str_eq(items[k].id_str(), id) {
            proof { lemma_first_with_id(items@, id@, k as int); }
            let x = items[k].rated_copy(Some(rating));
            items.set(k, x);
            return;
        }
        k += 1;
    }
    proof { lemma_first_with_id(items@, id@, k as int); }
}

/// Ratings the server sent for a Browse list: each (id, rating) pair, in order, goes to
/// the first item with that id; items the list does not hold are skipped.
pub fn ratings_arrived<T: LibraryItem>(items: &mut Vec<T>, ratings: &[(String, u8)])
    ensures final(items)@ == ratings_applied(old(items)@, rating_pairs(ratings@)),
{
    let ghost all = rating_pairs(ratings@);
    let mut i: usize = 0;
    assert(all.skip(0) =~= all);
    while i < ratings.len()
        invariant
            i <= ratings.len(),
            all == rating_pairs(ratings@),
            ratings_applied(old(items)@, all) == ratings_applied(items@, all.skip(i as int)),
        decreases ratings.len() - i,
    {
        assert(all.skip(i as int)[0] == (ratings@[i as int].0@, ratings@[i as int].1));
        assert(all.skip(i as int).drop_first() =~= all.skip(i + 1));
        rate_first_exec(items, ratings[i].0.as_str(), ratings[i].1);
        i += 1;
    }
}

/// Ratings the server sent for an artist's albums: the artist's own rating, if given,
/// goes to the first artist with its id; the album ratings to that artist's loaded albums
/// (see `ratings_arrived`).
pub fn album_ratings_arrived(artists: &mut Vec<Artist>, albums: &mut Vec<Album>, artist_id: &str,
    artist_rating: Option<u8>, album_ratings: &[(String, u8)])
    ensures
        final(artists)@ == match artist_rating {
            Some(r) => rate_first(old(artists)@, artist_id@, r),
            None => old(artists)@,
        },
        final(albums)@ == ratings_applied(old(albums)@, rating_pairs(album_ratings@)),
{
    if let Some(r) = artist_rating {
        rate_first_exec(artists, artist_id, r);
    }
    ratings_arrived(albums, album_ratings);
}

/// The lists one after another.
pub open spec fn flat<T>(v: Seq<Seq<T>>) -> Seq<T>
    decreases v.len(),
{
    if v.len() == 0 { Seq::empty() } else { flat(v.drop_last()) + v.last() }
}

/// The ids of the starred items of `items` that the server's favorites (`server`) do not
/// hold, in order (an id may repeat).
pub open spec fn stale_ids<T: LibraryItem>(items: Seq<T>, server: Seq<Seq<char>>) -> Seq<Seq<char>> {
    items.filter(|x: T| x.is_starred() && !server.contains(x.item_id())).map_values(|x: T| x.item_id())
}

/// `with_starred` applied for each id of `ids`, in order.
pub open spec fn marks_set(v: LibraryView, kind: FavoriteKind, ids: Seq<Seq<char>>, on: bool) -> LibraryView
    decreases ids.len(),
{
    if ids.len() == 0 { v } else { marks_set(with_starred(v, kind, ids[0], on), kind, ids.drop_first(), on) }
}

/// The ids of the items.
pub open spec fn ids_of_items<T: LibraryItem>(s: Seq<T>) -> Seq<Seq<char>> {
    s.map_values(|x: T| x.item_id())
}

/// The library after the server's favorites (`songs`, `albums`, `artists`) arrived. With
/// `clear_stale`, every item starred here but not on the server is unstarred first
/// (songs among the album tracks, the index and the queue; albums among the loaded
/// albums; artists among the artists). Then every favorite of the server is starred, and
/// the favorites overlay shows the server's lists.
pub open spec fn synced(v: LibraryView, songs: Seq<Song>, albums: Seq<Album>, artists: Seq<Artist>,
    clear_stale: bool) -> LibraryView
{
    let v1 = if clear_stale {
        let va = marks_set(v, FavoriteKind::Song, stale_ids(flat(v.song_lists) + v.queue, ids_of_items(songs)), false);
        let vb = marks_set(va, FavoriteKind::Album, stale_ids(flat(va.album_lists), ids_of_items(albums)), false);
        marks_set(vb, FavoriteKind::Artist, stale_ids(vb.artists, ids_of_items(artists)), false)
    } else {
        v
    };
    let v2 = marks_set(marks_set(marks_set(v1, FavoriteKind::Song, ids_of_items(songs), true),
        FavoriteKind::Album, ids_of_items(albums), true), FavoriteKind::Artist, ids_of_items(artists), true);
    LibraryView { fav_songs: songs, fav_albums: albums, fav_artists: artists, ..v2 }
}

fn flatten<T: LibraryItem>(v: &Vec<Vec<T>>) -> (r: Vec<T>)
    ensures r@ == flat(lists(v@)),
{
    let mut r: Vec<T> = Vec::new();
    let mut i: usize = 0;
    while i < v.len()
        invariant
            i <= v.len(),
            r@ == flat(lists(v@.take(i as int))),
        decreases v.len() - i,
    {
        assert(lists(v@.take(i + 1)).drop_last() =~= lists(v@.take(i as int)));
        assert(lists(v@.take(i + 1)).last() == v@[i as int]@);
        let mut j: usize = 0;
        let ghost start = r@;
        while j < v[i].len()
            invariant
                i < v.len(),
                j <= v@[i as int]@.len(),
                r@ == start + v@[i as int]@.take(j as int),
            decreases v@[i as int]@.len() - j,
        {
            r.push(v[i][j].same_copy());
            assert(v@[i as int]@.take(j + 1) =~= v@[i as int]@.take(j as int).push(v@[i as int]@[j as int]));
            j += 1;
        }
        assert(v@[i as int]@.take(j as int) =~= v@[i as int]@);
        i += 1;
    }
    assert(v@.take(v.len() as int) =~= v@);
    r
}

fn copy_items<T: LibraryItem>(s: &Vec<T>) -> (r: Vec<T>)
    ensures r@ == s@,
{
    let mut r: Vec<T> = Vec::new();
    let mut i: usize = 0;
    while i < s.len()
        invariant
            i <= s.len(),
            r@ == s@.take(i as int),
        decreases s.len() - i,
    {
        r.push(s[i].same_copy());
        assert(s@.take(i + 1) =~= s@.take(i as int).push(s@[i as int]));
        i += 1;
    }
    assert(s@.take(s.len() as int) =~= s@);
    r
}

fn item_ids<T: LibraryItem>(s: &Vec<T>) -> (r: Vec<String>)
    ensures views(r@) == ids_of_items(s@),
{
    let mut r: Vec<String> = Vec::new();
    let mut i: usize = 0;
    while i < s.len()
        invariant
            i <= s.len(),
            views(r@) == ids_of_items(s@.take(i as int)),
        decreases s.len() - i,
    {
        let id = String::from_str(s[i].id_str());
        r.push(id);
        assert(views(r@) =~= ids_of_items(s@.take(i as int)).push(s@[i as int].item_id()));
        assert(ids_of_items(s@.take(i + 1)) =~= ids_of_items(s@.take(i as int)).push(s@[i as int].item_id()));
        i += 1;
    }
    assert(s@.take(s.len() as int) =~= s@);
    r
}

fn holds_str(v: &Vec<String>, x: &str) -> (r: bool)
    ensures r == views(v@).contains(x@),
{
    let mut i: usize = 0;
    while i < v.len()
        invariant
            i <= v.len(),
            forall|k: int| 0 <= k < i ==> views(v@)[k] != x@,
        decreases v.len() - i,
    {
        if crate::text::str_eq(v[i].as_str(), x) {
            assert(views(v@)[i as int] == x@);
            return true;
        }
        i += 1;
    }
    false
}

fn stale_in<T: LibraryItem>(items: &Vec<T>, server: &Vec<String>) -> (r: Vec<String>)
    ensures views(r@) == stale_ids(items@, views(server@)),
{
    let ghost keep = |x: T| x.is_starred() && !views(server@).contains(x.item_id());
    let mut r: Vec<String> = Vec::new();
    let mut i: usize = 0;
    while i < items.len()
        invariant
            i <= items.len(),
            keep == (|x: T| x.is_starred() && !views(server@).contains(x.item_id())),
            views(r@) == items@.take(i as int).filter(keep).map_values(|x: T| x.item_id()),
        decreases items.len() - i,
    {
        let ghost before = items@.take(i as int);
        assert(items@.take(i + 1) =~= before.push(items@[i as int]));
        proof { before.lemma_filter_push(items@[i as int], keep); }
        if items[i].starred_flag() && !holds_str(server, items[i].id_str()) {
            let ghost prev = views(r@);
            r.push(String::from_str(items[i].id_str()));
            assert(views(r@) =~= prev.push(items@[i as int].item_id()));
            assert(before.push(items@[i as int]).filter(keep) == before.filter(keep).push(items@[i as int]));
            assert(before.filter(keep).push(items@[i as int]).map_values(|x: T| x.item_id())
                =~= before.filter(keep).map_values(|x: T| x.item_id()).push(items@[i as int].item_id()));
        }
        i += 1;
    }
    assert(items@.take(items.len() as int) =~= items@);
    r
}

impl LibraryModel {
    fn set_marks(&mut self, kind: FavoriteKind, ids: &Vec<String>, on: bool)
        ensures final(self)@ == marks_set(old(self)@, kind, views(ids@), on),
    {
        let ghost all = views(ids@);
        let mut i: usize = 0;
        assert(all.skip(0) =~= all);
        while i < ids.len()
            invariant
                i <= ids.len(),
                all == views(ids@),
                marks_set(old(self)@, kind, all, on) == marks_set(self@, kind, all.skip(i as int), on),
            decreases ids.len() - i,
        {
            assert(all.skip(i as int)[0] == ids@[i as int]@);
            assert(all.skip(i as int).drop_first() =~= all.skip(i + 1));
            self.set_starred(kind, ids[i].as_str(), on);
            i += 1;
        }
        assert(all.skip(ids.len() as int) =~= Seq::<Seq<char>>::empty());
    }

    /// The server's favorites arrived (see `synced`): marks everywhere follow them and
    /// the favorites overlay shows them.
    pub fn sync_server_starred(&mut self, songs: Vec<Song>, albums: Vec<Album>, artists: Vec<Artist>, clear_stale: bool)
        ensures final(self)@ == synced(old(self)@, songs@, albums@, artists@, clear_stale),
    {
        let song_ids = item_ids(&songs);
        let album_ids = item_ids(&albums);
        let artist_ids = item_ids(&artists);
        if clear_stale {
            let mut checked = flatten(&self.song_lists);
            let mut q = copy_items(&self.queue);
            checked.append(&mut q);
            let stale = stale_in(&checked, &song_ids);
            self.set_marks(FavoriteKind::Song, &stale, false);
            let loaded_albums = flatten(&self.album_lists);
            let stale = stale_in(&loaded_albums, &album_ids);
            self.set_marks(FavoriteKind::Album, &stale, false);
            let stale = stale_in(&self.artists, &artist_ids);
            self.set_marks(FavoriteKind::Artist, &stale, false);
        }
        self.set_marks(FavoriteKind::Song, &song_ids, true);
        self.set_marks(FavoriteKind::Album, &album_ids, true);
        self.set_marks(FavoriteKind::Artist, &artist_ids, true);
        self.fav_songs = songs;
        self.fav_albums = albums;
        self.fav_artists = artists;
    }
}

/// The error the favorites overlay shows after fetching the favorites failed with
/// `error`: while the overlay is open, none when the saved favorites could be shown
/// instead (`snapshot_opened`), else the error; with the overlay closed, what it showed.
pub fn favorites_fetch_failed(visible: bool, snapshot_opened: bool, error: String, shown: Option<String>)
    -> (r: Option<String>)
    ensures
        visible && snapshot_opened ==> r is None,
        visible && !snapshot_opened ==> (r matches Some(e) && e@ == error@),
        !visible ==> r == shown,
{
    if visible {
        if snapshot_opened { None } else { Some(error) }
    } else {
        shown
    }
}

proof fn lemma_starred_twice<T: LibraryItem>(s: Seq<T>, id: Seq<char>, on: bool)
    requires
        forall|x: T| #[trigger] x.with_star(on).item_id() == x.item_id(),
        forall|x: T| #[trigger] x.with_star(on).with_star(on) == x.with_star(on),
    ensures
        starred_where(starred_where(s, id, on), id, on) == starred_where(s, id, on),
{
    assert(starred_where(starred_where(s, id, on), id, on) =~= starred_where(s, id, on));
}

proof fn lemma_rated_twice<T: LibraryItem>(s: Seq<T>, id: Seq<char>, r: Option<u8>)
    requires
        forall|x: T| #[trigger] x.with_rating(r).item_id() == x.item_id(),
        forall|x: T| #[trigger] x.with_rating(r).with_rating(r) == x.with_rating(r),
    ensures
        rated_where(rated_where(s, id, r), id, r) == rated_where(s, id, r),
{
    assert(rated_where(rated_where(s, id, r), id, r) =~= rated_where(s, id, r));
}

proof fn lemma_filter_all<T>(s: Seq<T>, p: spec_fn(T) -> bool)
    requires
        forall|k: int| 0 <= k < s.len() ==> p(#[trigger] s[k]),
    ensures
        s.filter(p) == s,
    decreases s.len(),
{
    if s.len() > 0 {
        lemma_filter_all(s.drop_last(), p);
        assert(s == s.drop_last().push(s.last()));
        s.drop_last().lemma_filter_push(s.last(), p);
    } else {
        reveal(Seq::filter);
        assert(s.filter(p) =~= s);
    }
}

proof fn lemma_without_all_other<T: LibraryItem>(s: Seq<T>, id: Seq<char>)
    ensures
        forall|k: int| 0 <= k < without_id(s, id).len() ==> (#[trigger] without_id(s, id)[k]).item_id() != id,
{
    assert forall|k: int| 0 <= k < without_id(s, id).len() implies (#[trigger] without_id(s, id)[k]).item_id() != id by {
        s.lemma_filter_pred(other_id::<T>(id), k);
    }
}

proof fn lemma_without_twice<T: LibraryItem>(s: Seq<T>, id: Seq<char>)
    ensures
        without_id(without_id(s, id), id) == without_id(s, id),
{
    lemma_without_all_other(s, id);
    let w = without_id(s, id);
    assert forall|k: int| 0 <= k < w.len() implies (other_id::<T>(id))(#[trigger] w[k]) by {}
    lemma_filter_all(w, other_id::<T>(id));
}

proof fn lemma_starred_without<T: LibraryItem>(s: Seq<T>, id: Seq<char>, on: bool)
    requires
        forall|x: T| #[trigger] x.with_star(on).item_id() == x.item_id(),
    ensures
        starred_where(without_id(s, id), id, on) == without_id(s, id),
        without_id(starred_where(s, id, on), id) == without_id(s, id),
    decreases s.len(),
{
    lemma_without_all_other(s, id);
    let w = without_id(s, id);
    assert(starred_where(w, id, on) =~= w);
    let p = other_id::<T>(id);
    if s.len() > 0 {
        lemma_starred_without(s.drop_last(), id, on);
        let m = starred_where(s, id, on);
        assert(m.drop_last() =~= starred_where(s.drop_last(), id, on));
        assert(m == m.drop_last().push(m.last()));
        assert(s == s.drop_last().push(s.last()));
        m.drop_last().lemma_filter_push(m.last(), p);
        s.drop_last().lemma_filter_push(s.last(), p);
        assert(m.last().item_id() == s.last().item_id());
    } else {
        assert(starred_where(s, id, on) =~= s);
    }
}

proof fn lemma_starred_lists_twice<T: LibraryItem>(v: Seq<Seq<T>>, id: Seq<char>, on: bool)
    requires
        forall|x: T| #[trigger] x.with_star(on).item_id() == x.item_id(),
        forall|x: T| #[trigger] x.with_star(on).with_star(on) == x.with_star(on),
    ensures
        starred_in_lists(starred_in_lists(v, id, on), id, on) == starred_in_lists(v, id, on),
{
    assert forall|k: int| 0 <= k < v.len() implies
        #[trigger] starred_in_lists(starred_in_lists(v, id, on), id, on)[k] == starred_in_lists(v, id, on)[k] by {
        lemma_starred_twice(v[k], id, on);
    }
    assert(starred_in_lists(starred_in_lists(v, id, on), id, on) =~= starred_in_lists(v, id, on));
}

/// Starring (or unstarring) an item a second time changes nothing more: a repeated
/// answer from the server leaves the library as the first left it.
pub proof fn star_is_idempotent(v: LibraryView, kind: FavoriteKind, id: Seq<char>, on: bool)
    ensures
        with_starred(with_starred(v, kind, id, on), kind, id, on) == with_starred(v, kind, id, on),
{
    match kind {
        FavoriteKind::Song => {
            lemma_starred_lists_twice(v.song_lists, id, on);
            lemma_starred_lists_twice(v.extra_song_lists, id, on);
            lemma_starred_twice(v.queue, id, on);
            lemma_without_twice(v.fav_songs, id);
        },
        FavoriteKind::Album => {
            lemma_starred_lists_twice(v.album_lists, id, on);
            lemma_starred_twice(v.fav_albums, id, on);
            lemma_starred_without(v.fav_albums, id, on);
            lemma_without_twice(v.fav_albums, id);
        },
        FavoriteKind::Artist => {
            lemma_starred_twice(v.artists, id, on);
            lemma_starred_twice(v.fav_artists, id, on);
            lemma_starred_without(v.fav_artists, id, on);
            lemma_without_twice(v.fav_artists, id);
        },
    }
}

/// Setting the same rating twice leaves the library as setting it once.
pub proof fn rating_is_idempotent(v: LibraryView, kind: FavoriteKind, id: Seq<char>, rating: Option<u8>)
    ensures
        with_rating(with_rating(v, kind, id, rating), kind, id, rating) == with_rating(v, kind, id, rating),
{
    match kind {
        FavoriteKind::Song => {
            lemma_rated_twice(v.queue, id, rating);
            lemma_rated_twice(v.fav_songs, id, rating);
            let a = rated_in_lists(rated_in_lists(v.song_lists, id, rating), id, rating);
            assert forall|k: int| 0 <= k < v.song_lists.len() implies #[trigger] a[k] == rated_in_lists(v.song_lists, id, rating)[k] by {
                lemma_rated_twice(v.song_lists[k], id, rating);
            }
            assert(a =~= rated_in_lists(v.song_lists, id, rating));
            let b = rated_in_lists(rated_in_lists(v.extra_song_lists, id, rating), id, rating);
            assert forall|k: int| 0 <= k < v.extra_song_lists.len() implies #[trigger] b[k] == rated_in_lists(v.extra_song_lists, id, rating)[k] by {
                lemma_rated_twice(v.extra_song_lists[k], id, rating);
            }
            assert(b =~= rated_in_lists(v.extra_song_lists, id, rating));
        },
        FavoriteKind::Album => {
            lemma_rated_twice(v.fav_albums, id, rating);
            let a = rated_in_lists(rated_in_lists(v.album_lists, id, rating), id, rating);
            assert forall|k: int| 0 <= k < v.album_lists.len() implies #[trigger] a[k] == rated_in_lists(v.album_lists, id, rating)[k] by {
                lemma_rated_twice(v.album_lists[k], id, rating);
            }
            assert(a =~= rated_in_lists(v.album_lists, id, rating));
        },
        FavoriteKind::Artist => {
            lemma_rated_twice(v.artists, id, rating);
            lemma_rated_twice(v.fav_artists, id, rating);
        },
    }
}

} // verus!
