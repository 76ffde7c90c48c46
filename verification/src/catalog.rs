//! Answering song requests from the local catalogue, and adding songs to it.
use vstd::prelude::*;

use crate::song::{GetMode, GetModeView, Song, SongRequest, SongResponse};
use crate::song_id::{fresh_song_id, is_uuid_v4_text};

verus! {

/// Whether `song` is one of the songs that `mode` asks for.
pub open spec fn song_matches(mode: GetModeView, song: Song) -> bool {
    match mode {
        GetModeView::All => true,
        GetModeView::ByTitle(t) => song.title@ == t,
        GetModeView::ById(i) => song.id@ == i,
        GetModeView::ByAuthor(a) => song.author@ == a,
    }
}

/// The songs of `songs` that `mode` asks for, in catalogue order.
pub open spec fn select_songs(songs: Seq<Song>, mode: GetModeView) -> Seq<Song>
    decreases songs.len(),
{
    if songs.len() == 0 {
        Seq::<Song>::empty()
    } else {
        let before = select_songs(songs.drop_last(), mode);
        if song_matches(mode, songs.last()) {
            before.push(songs.last())
        } else {
            before
        }
    }
}

/// The songs of `songs` that `mode` asks for, in the order in which they are stored.
pub fn filter_songs(songs: &Vec<Song>, mode: &GetMode) -> (selected: Vec<Song>)
    ensures
        selected@ == select_songs(songs@, mode@),
        *mode == GetMode::ALL ==> selected@ == songs@,
        mode@ matches GetModeView::ByTitle(t) ==> selected@ == songs@.filter(|s: Song| s.title@ == t),
        mode@ matches GetModeView::ByAuthor(a) ==> selected@ == songs@.filter(
            |s: Song| s.author@ == a,
        ),
        mode@ matches GetModeView::ById(i) ==> selected@ == songs@.filter(|s: Song| s.id@ == i),
{
    proof {
        lemma_answer_is_filter(songs@, mode@);
    }
    let mut selected: Vec<Song> = Vec::new();
    let n = songs.len();
    let mut i: usize = 0;
    assert(songs@.take(0) =~= Seq::<Song>::empty());
    while i < n
        invariant
            n == songs@.len(),
            i <= n,
            selected@ == select_songs(songs@.take(i as int), mode@),
        decreases n - i,
    {
        let song = &songs[i];
        assert(songs@.take(i + 1).drop_last() =~= songs@.take(i as int));
        let keep = match mode {
            GetMode::ALL => true,
            GetMode::ByTitle(t) => song.title == *t,
            GetMode::ById(id) => song.id == *id,
            GetMode::ByAuthor(a) => song.author == *a,
        };
        if keep {
            selected.push(song.duplicate());
        }
        i = i + 1;
    }
    assert(songs@.take(n as int) =~= songs@);
    selected
}

/// The answer of a peer whose catalogue is `songs` and whose id is `responser_peer_id` to
/// `req`: the selected songs, addressed back to the requester. The answer's own `mode` is
/// always `ALL`, whatever the request asked for.
pub fn get_songs(req: &SongRequest, songs: &Vec<Song>, responser_peer_id: String) -> (response:
    SongResponse)
    ensures
        response.mode == GetMode::ALL,
        response.responser_peer_id == responser_peer_id,
        response.requester_peer_id == req.requester_peer_id,
        response.data@ == select_songs(songs@, req.mode@),
        req.mode == GetMode::ALL ==> response.data@ == songs@,
        req.mode@ matches GetModeView::ByTitle(t) ==> response.data@ == songs@.filter(
            |s: Song| s.title@ == t,
        ),
        req.mode@ matches GetModeView::ByAuthor(a) ==> response.data@ == songs@.filter(
            |s: Song| s.author@ == a,
        ),
        req.mode@ matches GetModeView::ById(i) ==> response.data@ == songs@.filter(
            |s: Song| s.id@ == i,
        ),
{
    let data = filter_songs(songs, &req.mode);
    SongResponse {
        mode: GetMode::ALL,
        responser_peer_id,
        requester_peer_id: req.requester_peer_id.clone(),
        data,
    }
}

/// Adds the song `(id, title, author)` at the end of the catalogue.
pub fn append_song(songs: &mut Vec<Song>, id: String, title: &str, author: &str)
    ensures
        final(songs)@.len() == old(songs)@.len() + 1,
        final(songs)@.drop_last() == old(songs)@,
        final(songs)@.last().id == id,
        final(songs)@.last().title@ == title@,
        final(songs)@.last().author@ == author@,
{
    let song = Song::new(id, title.to_owned(), author.to_owned());
    songs.push(song);
    assert(songs@.drop_last() =~= old(songs)@);
}

/// Adds a song with the given title and author and a fresh random id to the catalogue.
pub fn create_new_song(songs: &mut Vec<Song>, title: &str, author: &str)
    ensures
        final(songs)@.len() == old(songs)@.len() + 1,
        final(songs)@.drop_last() == old(songs)@,
        final(songs)@.last().title@ == title@,
        final(songs)@.last().author@ == author@,
        is_uuid_v4_text(final(songs)@.last().id@),
{
    let id = fresh_song_id();
    append_song(songs, id, title, author);
}

/// Selecting by `mode` keeps exactly the songs that satisfy `pred`, when `pred` agrees with
/// `mode` on every song.
proof fn lemma_select_is_filter(songs: Seq<Song>, mode: GetModeView, pred: spec_fn(Song) -> bool)
    requires
        forall|s: Song| #[trigger] pred(s) == song_matches(mode, s),
    ensures
        select_songs(songs, mode) == songs.filter(pred),
    decreases songs.len(),
{
    reveal_with_fuel(Seq::<_>::filter, 1);
    if songs.len() > 0 {
        lemma_select_is_filter(songs.drop_last(), mode, pred);
        assert(pred(songs.last()) == song_matches(mode, songs.last()));
    }
}

/// The answer to a title request is the catalogue, in order, restricted to the songs whose
/// title is exactly the requested one; every song in it has that title, and every song of
/// the catalogue with that title is in it.
pub proof fn lemma_title_answer(songs: Seq<Song>, t: Seq<char>)
    ensures
        select_songs(songs, GetModeView::ByTitle(t)) == songs.filter(|s: Song| s.title@ == t),
        forall|i: int|
            0 <= i < select_songs(songs, GetModeView::ByTitle(t)).len() ==> (#[trigger] select_songs(
                songs,
                GetModeView::ByTitle(t),
            )[i]).title@ == t,
        forall|k: int|
            0 <= k < songs.len() && (#[trigger] songs[k]).title@ == t ==> select_songs(
                songs,
                GetModeView::ByTitle(t),
            ).contains(songs[k]),
{
    let pred = |s: Song| s.title@ == t;
    lemma_select_is_filter(songs, GetModeView::ByTitle(t), pred);
    lemma_filter_properties(songs, pred);
}

/// The answer to an author request is the catalogue, in order, restricted to the songs whose
/// author is exactly the requested one.
pub proof fn lemma_author_answer(songs: Seq<Song>, a: Seq<char>)
    ensures
        select_songs(songs, GetModeView::ByAuthor(a)) == songs.filter(|s: Song| s.author@ == a),
        forall|i: int|
            0 <= i < select_songs(songs, GetModeView::ByAuthor(a)).len() ==> (#[trigger] select_songs(
                songs,
                GetModeView::ByAuthor(a),
            )[i]).author@ == a,
        forall|k: int|
            0 <= k < songs.len() && (#[trigger] songs[k]).author@ == a ==> select_songs(
                songs,
                GetModeView::ByAuthor(a),
            ).contains(songs[k]),
{
    let pred = |s: Song| s.author@ == a;
    lemma_select_is_filter(songs, GetModeView::ByAuthor(a), pred);
    lemma_filter_properties(songs, pred);
}

/// The answer to an id request is the catalogue, in order, restricted to the songs whose id is
/// exactly the requested one.
pub proof fn lemma_id_answer(songs: Seq<Song>, id: Seq<char>)
    ensures
        select_songs(songs, GetModeView::ById(id)) == songs.filter(|s: Song| s.id@ == id),
        forall|i: int|
            0 <= i < select_songs(songs, GetModeView::ById(id)).len() ==> (#[trigger] select_songs(
                songs,
                GetModeView::ById(id),
            )[i]).id@ == id,
        forall|k: int|
            0 <= k < songs.len() && (#[trigger] songs[k]).id@ == id ==> select_songs(
                songs,
                GetModeView::ById(id),
            ).contains(songs[k]),
{
    let pred = |s: Song| s.id@ == id;
    lemma_select_is_filter(songs, GetModeView::ById(id), pred);
    lemma_filter_properties(songs, pred);
}

/// Every element of `songs.filter(pred)` satisfies `pred`, and every element of `songs` that
/// satisfies `pred` is kept.
proof fn lemma_filter_properties(songs: Seq<Song>, pred: spec_fn(Song) -> bool)
    ensures
        forall|i: int| 0 <= i < songs.filter(pred).len() ==> pred(#[trigger] songs.filter(pred)[i]),
        forall|k: int| 0 <= k < songs.len() && pred(#[trigger] songs[k]) ==> songs.filter(
            pred,
        ).contains(songs[k]),
{
    assert forall|i: int| 0 <= i < songs.filter(pred).len() implies pred(
        #[trigger] songs.filter(pred)[i],
    ) by {
        songs.lemma_filter_pred(pred, i);
    }
    assert forall|k: int| 0 <= k < songs.len() && pred(#[trigger] songs[k]) implies songs.filter(
        pred,
    ).contains(songs[k]) by {
        songs.lemma_filter_contains(pred, k);
    }
}

/// The answer to a request is given by its selector: the whole catalogue for `ALL`, and for a
/// title, author or id the catalogue restricted to the songs with exactly that value.
pub proof fn lemma_answer_is_filter(songs: Seq<Song>, mode: GetModeView)
    ensures
        mode == GetModeView::All ==> select_songs(songs, mode) == songs,
        mode matches GetModeView::ByTitle(t) ==> select_songs(songs, mode) == songs.filter(
            |s: Song| s.title@ == t,
        ),
        mode matches GetModeView::ByAuthor(a) ==> select_songs(songs, mode) == songs.filter(
            |s: Song| s.author@ == a,
        ),
        mode matches GetModeView::ById(i) ==> select_songs(songs, mode) == songs.filter(
            |s: Song| s.id@ == i,
        ),
{
    match mode {
        GetModeView::All => lemma_select_all(songs),
        GetModeView::ByTitle(t) => lemma_title_answer(songs, t),
        GetModeView::ByAuthor(a) => lemma_author_answer(songs, a),
        GetModeView::ById(i) => lemma_id_answer(songs, i),
    }
}

/// Requests with the `ALL` selector are answered with the whole catalogue.
pub proof fn lemma_select_all(songs: Seq<Song>)
    ensures
        select_songs(songs, GetModeView::All) == songs,
    decreases songs.len(),
{
    if songs.len() > 0 {
        lemma_select_all(songs.drop_last());
        assert(songs.drop_last().push(songs.last()) =~= songs);
    }
}

/// A song is in an answer exactly when it is in the catalogue and matches the request.
pub proof fn lemma_select_exact(songs: Seq<Song>, mode: GetModeView, song: Song)
    ensures
        select_songs(songs, mode).contains(song) <==> (songs.contains(song) && song_matches(
            mode,
            song,
        )),
    decreases songs.len(),
{
    if songs.len() > 0 {
        let init = songs.drop_last();
        lemma_select_exact(init, mode, song);
        assert(songs =~= init.push(songs.last()));
        if songs.contains(song) {
            let k = choose|k: int| 0 <= k < songs.len() && songs[k] == song;
            if k < songs.len() - 1 {
                assert(init[k] == song);
            }
        }
        if init.contains(song) {
            let k = choose|k: int| 0 <= k < init.len() && init[k] == song;
            assert(songs[k] == song);
        }
        let before = select_songs(init, mode);
        if song_matches(mode, songs.last()) {
            if before.push(songs.last()).contains(song) && song != songs.last() {
                let k = choose|k: int|
                    0 <= k < before.push(songs.last()).len() && before.push(songs.last())[k]
                        == song;
                assert(before[k] == song);
            }
            if before.contains(song) {
                let k = choose|k: int| 0 <= k < before.len() && before[k] == song;
                assert(before.push(songs.last())[k] == song);
            }
            assert(before.push(songs.last())[before.len() as int] == songs.last());
        }
        assert(songs[songs.len() - 1] == songs.last());
    }
}

/// An answer never holds more songs than the catalogue.
pub proof fn lemma_select_len(songs: Seq<Song>, mode: GetModeView)
    ensures
        select_songs(songs, mode).len() <= songs.len(),
    decreases songs.len(),
{
    if songs.len() > 0 {
        lemma_select_len(songs.drop_last(), mode);
    }
}

/// Selecting again with the same request changes nothing.
pub proof fn lemma_select_idempotent(songs: Seq<Song>, mode: GetModeView)
    ensures
        select_songs(select_songs(songs, mode), mode) == select_songs(songs, mode),
    decreases songs.len(),
{
    if songs.len() > 0 {
        let init = songs.drop_last();
        lemma_select_idempotent(init, mode);
        let before = select_songs(init, mode);
        if song_matches(mode, songs.last()) {
            assert(before.push(songs.last()).drop_last() =~= before);
        }
    }
}

/// A newly added song is the last song of the answer to a request for its title, for its
/// author, or for its id.
pub proof fn lemma_created_song_found(songs: Seq<Song>, song: Song)
    ensures
        select_songs(songs.push(song), GetModeView::ByTitle(song.title@)).last() == song,
        select_songs(songs.push(song), GetModeView::ByAuthor(song.author@)).last() == song,
        select_songs(songs.push(song), GetModeView::ById(song.id@)).last() == song,
{
    assert(songs.push(song).drop_last() =~= songs);
}

} // verus!
