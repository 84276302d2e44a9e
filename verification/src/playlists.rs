//! The playlists overlay: moving through it, naming, renaming and deleting playlists, the
//! "add to playlist" picker, the updates the server sends back, and which favorite songs
//! can be queued.
use vstd::prelude::*;
use crate::nav::{Direction, moved_index, move_list_index};
use crate::media::{Song, song_ids};
use crate::track_order::{album_order, sorted_album_song_ids};
use crate::text::{chars_of, string_of, push_char};
use crate::session::{clamp_index, clamp_usize, holds_id};

verus! {

/// The playlists overlay: which pane has focus, the selections and the rows each pane
/// shows.
#[derive(Debug, Clone, Copy, Default, PartialEq, Eq)]
pub struct PlaylistCursor {
    /// The tracks pane has focus (else the list of playlists).
    pub on_tracks: bool,
    pub selected_playlist_index: usize,
    pub selected_track_index: usize,
    pub list_viewport_rows: usize,
    pub tracks_viewport_rows: usize,
}

/// Moves through the focused pane of the playlists overlay (`playlists` and `tracks`
/// loaded rows; 0 when not loaded). Moving to another playlist puts the track cursor on
/// its first track and returns true: that playlist's tracks are to be shown.
pub fn navigate_playlists(o: &mut PlaylistCursor, dir: Direction, playlists: usize, tracks: usize) -> (show_tracks: bool)
    requires
        !old(o).on_tracks && playlists > 0 && dir == Direction::Down ==> old(o).selected_playlist_index < usize::MAX,
        !old(o).on_tracks && playlists > 0 && dir == Direction::PageDown ==> old(o).selected_playlist_index
            + (if old(o).list_viewport_rows < 1 { 1 } else { old(o).list_viewport_rows }) <= usize::MAX,
        old(o).on_tracks && tracks > 0 && dir == Direction::Down ==> old(o).selected_track_index < usize::MAX,
        old(o).on_tracks && tracks > 0 && dir == Direction::PageDown ==> old(o).selected_track_index
            + (if old(o).tracks_viewport_rows < 1 { 1 } else { old(o).tracks_viewport_rows }) <= usize::MAX,
    ensures
        final(o).on_tracks == old(o).on_tracks,
        final(o).list_viewport_rows == old(o).list_viewport_rows,
        final(o).tracks_viewport_rows == old(o).tracks_viewport_rows,
        !old(o).on_tracks && playlists > 0 && moved_index(old(o).selected_playlist_index as int, playlists as int,
            old(o).list_viewport_rows as int, dir) != old(o).selected_playlist_index ==> {
            &&& show_tracks
            &&& final(o).selected_playlist_index == moved_index(old(o).selected_playlist_index as int,
                playlists as int, old(o).list_viewport_rows as int, dir)
            &&& final(o).selected_track_index == 0
        },
        !(!old(o).on_tracks && playlists > 0 && moved_index(old(o).selected_playlist_index as int, playlists as int,
            old(o).list_viewport_rows as int, dir) != old(o).selected_playlist_index) ==> !show_tracks
            && final(o).selected_playlist_index == old(o).selected_playlist_index,
        old(o).on_tracks && tracks > 0 ==> final(o).selected_track_index == moved_index(
            old(o).selected_track_index as int, tracks as int, old(o).tracks_viewport_rows as int, dir),
        old(o).on_tracks && tracks == 0 ==> final(o).selected_track_index == old(o).selected_track_index,
        !old(o).on_tracks && !show_tracks ==> final(o).selected_track_index == old(o).selected_track_index,
{
    if !o.on_tracks {
        if playlists == 0 {
            return false;
        }
        let next = move_list_index(o.selected_playlist_index, playlists, o.list_viewport_rows, dir);
        if next != o.selected_playlist_index {
            o.selected_playlist_index = next;
            o.selected_track_index = 0;
            true
        } else {
            false
        }
    } else {
        if tracks == 0 {
            return false;
        }
        o.selected_track_index = move_list_index(o.selected_track_index, tracks, o.tracks_viewport_rows, dir);
        false
    }
}

/// What the playlists overlay is taking input for.
#[derive(Debug, Clone, PartialEq, Eq)]
pub enum PlaylistInput {
    Normal,
    /// Typing the name of a new playlist.
    Creating { buffer: String },
    /// Typing a new name for the playlist `playlist_id`.
    Renaming { buffer: String, playlist_id: String },
    /// Asking whether to delete the playlist `id` (named `name`).
    ConfirmingDelete { id: String, name: String },
}

/// `PlaylistInput` as plain values.
pub enum InputModel {
    Normal,
    Creating(Seq<char>),
    Renaming(Seq<char>, Seq<char>),
    ConfirmingDelete(Seq<char>, Seq<char>),
}

pub open spec fn input_model(m: PlaylistInput) -> InputModel {
    match m {
        PlaylistInput::Normal => InputModel::Normal,
        PlaylistInput::Creating { buffer } => InputModel::Creating(buffer@),
        PlaylistInput::Renaming { buffer, playlist_id } => InputModel::Renaming(buffer@, playlist_id@),
        PlaylistInput::ConfirmingDelete { id, name } => InputModel::ConfirmingDelete(id@, name@),
    }
}

/// A key or command in the playlists overlay's editing.
#[derive(Debug, Clone, Copy, PartialEq, Eq)]
pub enum PlaylistEdit {
    Create,
    Rename,
    Delete,
    /// A typed character; backspace (`\x08`) removes the last one.
    Char(char),
    Confirm,
    Cancel,
    Yes,
    No,
}

/// What the server is asked to do once an edit is confirmed.
#[derive(Debug, Clone, PartialEq, Eq)]
pub enum PlaylistRequest {
    Nothing,
    Create { name: String },
    Rename { playlist_id: String, name: String },
    Delete { id: String },
}

/// `PlaylistRequest` as plain values.
pub enum RequestModel {
    Nothing,
    Create(Seq<char>),
    Rename(Seq<char>, Seq<char>),
    Delete(Seq<char>),
}

pub open spec fn request_model(r: PlaylistRequest) -> RequestModel {
    match r {
        PlaylistRequest::Nothing => RequestModel::Nothing,
        PlaylistRequest::Create { name } => RequestModel::Create(name@),
        PlaylistRequest::Rename { playlist_id, name } => RequestModel::Rename(playlist_id@, name@),
        PlaylistRequest::Delete { id } => RequestModel::Delete(id@),
    }
}

/// The text being typed after character `c`: backspace removes the last character (of a
/// non-empty text), any other character is appended.
pub open spec fn typed(b: Seq<char>, c: char) -> Seq<char> {
    if c == '\x08' { if b.len() > 0 { b.drop_last() } else { b } } else { b.push(c) }
}

/// The overlay's input after `e`, with `playlists` (id, name) loaded and `selected` the
/// selected playlist, and what the server is asked to do. Rename and Delete need a
/// selected playlist; typing goes to a name being entered; Confirm sends a non-empty name
/// and Yes confirms a deletion; Confirm, Cancel and No end the input.
pub open spec fn edited(m: InputModel, playlists: Seq<(Seq<char>, Seq<char>)>, selected: int, e: PlaylistEdit)
    -> (InputModel, RequestModel)
{
    match e {
        PlaylistEdit::Create => (InputModel::Creating(Seq::empty()), RequestModel::Nothing),
        PlaylistEdit::Rename => if 0 <= selected < playlists.len() {
            (InputModel::Renaming(playlists[selected].1, playlists[selected].0), RequestModel::Nothing)
        } else {
            (m, RequestModel::Nothing)
        },
        PlaylistEdit::Delete => if 0 <= selected < playlists.len() {
            (InputModel::ConfirmingDelete(playlists[selected].0, playlists[selected].1), RequestModel::Nothing)
        } else {
            (m, RequestModel::Nothing)
        },
        PlaylistEdit::Char(c) => match m {
            InputModel::Creating(b) => (InputModel::Creating(typed(b, c)), RequestModel::Nothing),
            InputModel::Renaming(b, id) => (InputModel::Renaming(typed(b, c), id), RequestModel::Nothing),
            _ => (m, RequestModel::Nothing),
        },
        PlaylistEdit::Confirm => (InputModel::Normal, match m {
            InputModel::Creating(b) => if b.len() > 0 { RequestModel::Create(b) } else { RequestModel::Nothing },
            InputModel::Renaming(b, id) => if b.len() > 0 { RequestModel::Rename(id, b) } else { RequestModel::Nothing },
            _ => RequestModel::Nothing,
        }),
        PlaylistEdit::Cancel | PlaylistEdit::No => (InputModel::Normal, RequestModel::Nothing),
        PlaylistEdit::Yes => match m {
            InputModel::ConfirmingDelete(id, _) => (InputModel::Normal, RequestModel::Delete(id)),
            _ => (m, RequestModel::Nothing),
        },
    }
}

fn type_char(b: &String, c: char) -> (r: String)
    ensures r@ == typed(b@, c),
{
    if c == '\x08' {
        let mut v = chars_of(b.as_str());
        if v.len() > 0 {
            v.pop();
        }
        string_of(v.as_slice())
    } else {
        let mut r = b.clone();
        push_char(&mut r, c);
        r
    }
}

/// The (id, name) pairs of the playlists.
pub open spec fn playlist_pairs(p: Seq<(String, String)>) -> Seq<(Seq<char>, Seq<char>)> {
    p.map_values(|x: (String, String)| (x.0@, x.1@))
}

/// Applies `e` to the playlists overlay's input (`playlists` as (id, name), empty when
/// not loaded) and says what to ask of the server.
pub fn edit_playlist(mode: &mut PlaylistInput, playlists: &[(String, String)], selected: usize, e: PlaylistEdit)
    -> (r: PlaylistRequest)
    ensures
        (input_model(*final(mode)), request_model(r)) == edited(input_model(*old(mode)),
            playlist_pairs(playlists@), selected as int, e),
{
    let ghost pairs = playlist_pairs(playlists@);
    match e {
        PlaylistEdit::Create => {
            *mode = PlaylistInput::Creating { buffer: String::new() };
            PlaylistRequest::Nothing
        },
        PlaylistEdit::Rename => {
            if selected < playlists.len() {
                assert(pairs[selected as int] == (playlists@[selected as int].0@, playlists@[selected as int].1@));
                *mode = PlaylistInput::Renaming {
                    buffer: playlists[selected].1.clone(),
                    playlist_id: playlists[selected].0.clone(),
                };
            }
            PlaylistRequest::Nothing
        },
        PlaylistEdit::Delete => {
            if selected < playlists.len() {
                assert(pairs[selected as int] == (playlists@[selected as int].0@, playlists@[selected as int].1@));
                *mode = PlaylistInput::ConfirmingDelete {
                    id: playlists[selected].0.clone(),
                    name: playlists[selected].1.clone(),
                };
            }
            PlaylistRequest::Nothing
        },
        PlaylistEdit::Char(c) => {
            let next = match &*mode {
                PlaylistInput::Creating { buffer } => Some(PlaylistInput::Creating { buffer: type_char(buffer, c) }),
                PlaylistInput::Renaming { buffer, playlist_id } => Some(PlaylistInput::Renaming {
                    buffer: type_char(buffer, c),
                    playlist_id: playlist_id.clone(),
                }),
                _ => None,
            };
            if let Some(n) = next {
                *mode = n;
            }
            PlaylistRequest::Nothing
        },
        PlaylistEdit::Confirm => {
            let r = match &*mode {
                PlaylistInput::Creating { buffer } => if buffer.unicode_len() > 0 {
                    PlaylistRequest::Create { name: buffer.clone() }
                } else {
                    PlaylistRequest::Nothing
                },
                PlaylistInput::Renaming { buffer, playlist_id } => if buffer.unicode_len() > 0 {
                    PlaylistRequest::Rename { playlist_id: playlist_id.clone(), name: buffer.clone() }
                } else {
                    PlaylistRequest::Nothing
                },
                _ => PlaylistRequest::Nothing,
            };
            *mode = PlaylistInput::Normal;
            r
        },
        PlaylistEdit::Cancel | PlaylistEdit::No => {
            *mode = PlaylistInput::Normal;
            PlaylistRequest::Nothing
        },
        PlaylistEdit::Yes => {
            let id = match &*mode {
                PlaylistInput::ConfirmingDelete { id, .. } => Some(id.clone()),
                _ => None,
            };
            match id {
                Some(id) => {
                    *mode = PlaylistInput::Normal;
                    PlaylistRequest::Delete { id }
                },
                None => PlaylistRequest::Nothing,
            }
        },
    }
}

/// What choosing a playlist in the "add to playlist" picker asks of the server.
#[derive(Debug, Clone, PartialEq, Eq)]
pub enum PlaylistAddition {
    Nothing,
    /// Add these songs (by id), in this order.
    Songs { playlist_id: String, playlist_name: String, song_ids: Vec<String> },
    /// Add the album, whose tracks are not known here.
    Album { playlist_id: String, playlist_name: String, album_id: String },
}

/// The picker's choice: with a playlist selected, the songs it was opened for; when it was
/// opened for an album whose tracks were not loaded yet but are now (`album_tracks`),
/// those tracks in album order; else the album itself. Nothing without songs or album.
pub fn picker_choice(
    playlists: &[(String, String)],
    selected: usize,
    song_ids_in: Vec<String>,
    album_id: Option<String>,
    album_tracks: Option<&[Song]>,
) -> (r: PlaylistAddition)
    ensures
        selected >= playlists@.len() ==> r == PlaylistAddition::Nothing,
        selected < playlists@.len() ==> match r {
            PlaylistAddition::Nothing => song_ids_in@.len() == 0 && album_id is None,
            PlaylistAddition::Songs { playlist_id, playlist_name, song_ids: ids } => {
                &&& playlist_id@ == playlists@[selected as int].0@
                &&& playlist_name@ == playlists@[selected as int].1@
                &&& ids@.len() > 0
                &&& if song_ids_in@.len() > 0 {
                    ids@ == song_ids_in@
                } else {
                    album_id is Some && (album_tracks matches Some(t)
                        && ids@.map_values(|x: String| x@) == song_ids(album_order(t@)))
                }
            },
            PlaylistAddition::Album { playlist_id, playlist_name, album_id: a } => {
                &&& playlist_id@ == playlists@[selected as int].0@
                &&& playlist_name@ == playlists@[selected as int].1@
                &&& song_ids_in@.len() == 0
                &&& album_id matches Some(x) && a@ == x@
                &&& (album_tracks matches Some(t) ==> t@.len() == 0)
            },
        },
{
    if selected >= playlists.len() {
        return PlaylistAddition::Nothing;
    }
    let playlist_id = playlists[selected].0.clone();
    let playlist_name = playlists[selected].1.clone();
    let mut ids = song_ids_in;
    if ids.len() == 0 {
        if album_id.is_some() {
            if let Some(t) = album_tracks {
                ids = sorted_album_song_ids(t);
                assert(ids@.len() == t@.len()) by {
                    crate::track_order::album_order_laws(t@);
                    assert(ids@.map_values(|x: String| x@).len() == ids@.len());
                }
            }
        }
    }
    if ids.len() > 0 {
        PlaylistAddition::Songs { playlist_id, playlist_name, song_ids: ids }
    } else {
        match album_id {
            Some(a) => PlaylistAddition::Album { playlist_id, playlist_name, album_id: a },
            None => PlaylistAddition::Nothing,
        }
    }
}

/// The playlists without those whose id is `id`, in order.
pub open spec fn without_playlist(p: Seq<(Seq<char>, Seq<char>)>, id: Seq<char>) -> Seq<(Seq<char>, Seq<char>)>
    decreases p.len(),
{
    if p.len() == 0 {
        Seq::empty()
    } else {
        let rest = without_playlist(p.drop_last(), id);
        if p.last().0 == id { rest } else { rest.push(p.last()) }
    }
}

/// The first place of a playlist with id `id`.
pub open spec fn playlist_place(p: Seq<(Seq<char>, Seq<char>)>, id: Seq<char>) -> Option<int>
    decreases p.len(),
{
    if p.len() == 0 {
        None
    } else if p[0].0 == id {
        Some(0)
    } else {
        match playlist_place(p.drop_first(), id) {
            Some(k) => Some(k + 1),
            None => None,
        }
    }
}

/// A playlist was created: it is appended to the loaded list (which it starts when none
/// was loaded) and selected.
pub fn playlist_created(playlists: &mut Option<Vec<(String, String)>>, selected: &mut usize, p: (String, String))
    ensures
        match *old(playlists) {
            Some(list) => (*final(playlists)) matches Some(l) && playlist_pairs(l@) == playlist_pairs(list@).push((p.0@, p.1@))
                && *final(selected) == list@.len(),
            None => (*final(playlists)) matches Some(l) && playlist_pairs(l@) == seq![(p.0@, p.1@)] && *final(selected) == 0,
        },
{
    let taken = playlists.take();
    match taken {
        Some(mut list) => {
            let ghost before = list@;
            *selected = list.len();
            list.push(p);
            assert(playlist_pairs(list@) =~= playlist_pairs(before).push((p.0@, p.1@)));
            *playlists = Some(list);
        },
        None => {
            let mut list: Vec<(String, String)> = Vec::new();
            list.push(p);
            assert(playlist_pairs(list@) =~= seq![(p.0@, p.1@)]);
            *playlists = Some(list);
            *selected = 0;
        },
    }
}

/// A playlist was deleted: every playlist with its id leaves the loaded list and the
/// selection is moved back onto the list; when its tracks were the ones shown they are
/// dropped (`loaded_id` cleared) and true is returned.
pub fn playlist_deleted(playlists: &mut Option<Vec<(String, String)>>, selected: &mut usize,
    loaded_id: &mut Option<String>, id: &str) -> (tracks_dropped: bool)
    ensures
        match *old(playlists) {
            Some(list) => (*final(playlists)) matches Some(l)
                && playlist_pairs(l@) == without_playlist(playlist_pairs(list@), id@)
                && *final(selected) == clamp_index(*old(selected) as int, l@.len() as int),
            None => (*final(playlists)) is None && *final(selected) == *old(selected),
        },
        tracks_dropped == ((*old(loaded_id)) matches Some(l) && l@ == id@),
        tracks_dropped ==> (*final(loaded_id)) is None,
        !tracks_dropped ==> *final(loaded_id) == *old(loaded_id),
{
    let taken = playlists.take();
    match taken {
        Some(list) => {
            let mut kept: Vec<(String, String)> = Vec::new();
            let mut i: usize = 0;
            while i < list.len()
                invariant
                    i <= list.len(),
                    playlist_pairs(kept@) == without_playlist(playlist_pairs(list@.take(i as int)), id@),
                decreases list.len() - i,
            {
                let ghost before = kept@;
                assert(playlist_pairs(list@.take(i + 1)).drop_last() =~= playlist_pairs(list@.take(i as int)));
                assert(playlist_pairs(list@.take(i + 1)).last() == (list@[i as int].0@, list@[i as int].1@));
                if !crate::text::str_eq(list[i].0.as_str(), id) {
                    kept.push((list[i].0.clone(), list[i].1.clone()));
                    assert(playlist_pairs(kept@) =~= playlist_pairs(before).push((list@[i as int].0@, list@[i as int].1@)));
                }
                i += 1;
            }
            assert(list@.take(list.len() as int) =~= list@);
            *selected = if kept.len() == 0 { 0 } else if *selected < kept.len() - 1 { *selected } else { kept.len() - 1 };
            *playlists = Some(kept);
        },
        None => {},
    }
    let dropped = match &*loaded_id {
        Some(l) => crate::text::str_eq(l.as_str(), id),
        None => false,
    };
    if dropped {
        *loaded_id = None;
    }
    dropped
}

/// A playlist was renamed: the first loaded playlist with its id takes the new name.
pub fn playlist_renamed(playlists: &mut Option<Vec<(String, String)>>, id: &str, new_name: String)
    ensures
        match *old(playlists) {
            Some(list) => (*final(playlists)) matches Some(l) && playlist_pairs(l@) == match playlist_place(playlist_pairs(list@), id@) {
                Some(k) => playlist_pairs(list@).update(k, (id@, new_name@)),
                None => playlist_pairs(list@),
            },
            None => (*final(playlists)) is None,
        },
{
    let taken = playlists.take();
    match taken {
        Some(mut list) => {
            let ghost orig = playlist_pairs(list@);
            let mut i: usize = 0;
            while i < list.len()
                invariant
                    i <= list.len(),
                    (*old(playlists)) is Some,
                    list@ == old(playlists).unwrap()@,
                    orig == playlist_pairs(list@),
                    forall|k: int| 0 <= k < i ==> orig[k].0 != id@,
                decreases list.len() - i,
            {
                if crate::text::str_eq(list[i].0.as_str(), id) {
                    proof { lemma_playlist_place(orig, id@, i as int); }
                    let ghost name_view = new_name@;
                    let entry = (list[i].0.clone(), new_name);
                    assert(entry.0@ == id@ && entry.1@ == name_view);
                    list.set(i, entry);
                    assert(playlist_pairs(list@) =~= orig.update(i as int, (id@, name_view)));
                    assert(playlist_place(orig, id@) == Some(i as int));
                    *playlists = Some(list);
                    return;
                }
                i += 1;
            }
            proof { lemma_playlist_missing(orig, id@); }
            *playlists = Some(list);
        },
        None => {},
    }
}

proof fn lemma_playlist_place(p: Seq<(Seq<char>, Seq<char>)>, id: Seq<char>, j: int)
    requires
        0 <= j < p.len(),
        p[j].0 == id,
        forall|k: int| 0 <= k < j ==> p[k].0 != id,
    ensures
        playlist_place(p, id) == Some(j),
    decreases j,
{
    if j > 0 {
        lemma_playlist_place(p.drop_first(), id, j - 1);
    }
}

proof fn lemma_playlist_missing(p: Seq<(Seq<char>, Seq<char>)>, id: Seq<char>)
    requires
        forall|k: int| 0 <= k < p.len() ==> p[k].0 != id,
    ensures
        playlist_place(p, id) is None,
    decreases p.len(),
{
    if p.len() > 0 {
        lemma_playlist_missing(p.drop_first(), id);
    }
}

/// A track was removed from the playlist shown: it leaves the list when `index` is on it,
/// and the track cursor is moved back onto the list.
pub fn playlist_track_removed(tracks: &mut Vec<Song>, selected: &mut usize, index: usize)
    ensures
        final(tracks)@ == if index < old(tracks)@.len() { old(tracks)@.remove(index as int) } else { old(tracks)@ },
        *final(selected) == clamp_index(*old(selected) as int, final(tracks)@.len() as int),
{
    if index < tracks.len() {
        tracks.remove(index);
    }
    *selected = clamp_usize(*selected, tracks.len());
}

/// The favorite songs to queue: offline, only those in the local cache (`cached` ids).
pub open spec fn playable_favorites(songs: Seq<Song>, offline: bool, cached: Seq<String>) -> Seq<Song> {
    if offline { songs.filter(|s: Song| holds_id(cached, s.id@)) } else { songs }
}

/// Why no favorite song was queued.
#[derive(Debug, Clone, Copy, PartialEq, Eq, Structural)]
pub enum FavoritesNote {
    /// "No favorite tracks selected".
    NoneSelected,
    /// "No cached favorite tracks available offline".
    NoneCached,
}

fn has_cached(ids: &[String], id: &String) -> (r: bool)
    ensures r == holds_id(ids@, id@),
{
    let mut i: usize = 0;
    while i < ids.len()
        invariant
            i <= ids.len(),
            forall|k: int| 0 <= k < i ==> ids@[k]@ != id@,
        decreases ids.len() - i,
    {
        if ids[i] == *id {
            return true;
        }
        i += 1;
    }
    false
}

/// The favorite songs to put in the queue: all of them, or offline only the cached ones.
/// None selected, or none cached offline, is refused with the reason.
pub fn favorites_to_queue(songs: &[Song], offline: bool, cached: &[String]) -> (r: Result<Vec<Song>, FavoritesNote>)
    ensures
        songs@.len() == 0 ==> r == Err::<Vec<Song>, FavoritesNote>(FavoritesNote::NoneSelected),
        songs@.len() > 0 && playable_favorites(songs@, offline, cached@).len() == 0 ==>
            r == Err::<Vec<Song>, FavoritesNote>(FavoritesNote::NoneCached),
        r matches Ok(v) ==> v@ == playable_favorites(songs@, offline, cached@) && v@.len() > 0,
        songs@.len() > 0 && playable_favorites(songs@, offline, cached@).len() > 0 ==> r is Ok,
{
    if songs.len() == 0 {
        return Err(FavoritesNote::NoneSelected);
    }
    let mut out: Vec<Song> = Vec::new();
    let mut i: usize = 0;
    let ghost keep = |s: Song| holds_id(cached@, s.id@);
    while i < songs.len()
        invariant
            i <= songs.len(),
            keep == (|s: Song| holds_id(cached@, s.id@)),
            out@ == if offline { songs@.take(i as int).filter(keep) } else { songs@.take(i as int) },
        decreases songs.len() - i,
    {
        let ghost before = songs@.take(i as int);
        assert(songs@.take(i + 1) =~= before.push(songs@[i as int]));
        if !offline || has_cached(cached, &songs[i].id) {
            out.push(songs[i].duplicate());
        }
        proof {
            if offline {
                assert(songs@.take(i + 1).filter(keep) =~= before.push(songs@[i as int]).filter(keep));
                before.lemma_filter_push(songs@[i as int], keep);
            }
        }
        i += 1;
    }
    assert(songs@.take(songs.len() as int) =~= songs@);
    if out.len() == 0 {
        Err(FavoritesNote::NoneCached)
    } else {
        Ok(out)
    }
}

} // verus!
