//! The songs a peer stores and the messages that peers exchange about them.
use vstd::prelude::*;

verus! {

/// A song in a peer's local catalogue.
#[derive(Debug)]
pub struct Song {
    pub id: String,
    pub title: String,
    pub author: String,
}

/// Which songs a request asks for.
#[allow(non_camel_case_types)]
#[derive(Debug)]
pub enum GetMode {
    ALL,
    ByTitle(String),
    ById(String),
    ByAuthor(String),
}

/// The abstract value of a [`GetMode`]: the selector with its text.
pub enum GetModeView {
    All,
    ByTitle(Seq<char>),
    ById(Seq<char>),
    ByAuthor(Seq<char>),
}

impl View for GetMode {
    type V = GetModeView;

    open spec fn view(&self) -> GetModeView {
        match self {
            GetMode::ALL => GetModeView::All,
            GetMode::ByTitle(t) => GetModeView::ByTitle(t@),
            GetMode::ById(i) => GetModeView::ById(i@),
            GetMode::ByAuthor(a) => GetModeView::ByAuthor(a@),
        }
    }
}

/// A request, broadcast to all peers, for the songs that match `mode`.
#[derive(Debug)]
pub struct SongRequest {
    pub mode: GetMode,
    pub requester_peer_id: String,
}

/// A peer's answer to a [`SongRequest`], sent back to the requester.
#[derive(Debug)]
pub struct SongResponse {
    pub mode: GetMode,
    pub responser_peer_id: String,
    pub requester_peer_id: String,
    pub data: Vec<Song>,
}

/// What the event loop reacts to: a response to forward, or a line typed by the user.
#[derive(Debug)]
pub enum EventType {
    Response(SongResponse),
    Input(String),
}

impl Song {
    /// A song with the given fields.
    pub fn new(id: String, title: String, author: String) -> (song: Song)
        ensures
            song.id == id,
            song.title == title,
            song.author == author,
    {
        Song { id, title, author }
    }

    /// A copy of this song, field by field.
    pub fn duplicate(&self) -> (copy: Song)
        ensures
            copy == *self,
    {
        Song { id: self.id.clone(), title: self.title.clone(), author: self.author.clone() }
    }
}

impl GetMode {
    /// A copy of this selector.
    pub fn duplicate(&self) -> (copy: GetMode)
        ensures
            copy == *self,
    {
        match self {
            GetMode::ALL => GetMode::ALL,
            GetMode::ByTitle(t) => GetMode::ByTitle(t.clone()),
            GetMode::ById(i) => GetMode::ById(i.clone()),
            GetMode::ByAuthor(a) => GetMode::ByAuthor(a.clone()),
        }
    }
}

impl SongRequest {
    /// A request for the songs selected by `mode`, answered to `requester_peer_id`.
    pub fn new(mode: GetMode, requester_peer_id: String) -> (req: SongRequest)
        ensures
            req.mode == mode,
            req.requester_peer_id == requester_peer_id,
    {
        SongRequest { mode, requester_peer_id }
    }
}

} // verus!
