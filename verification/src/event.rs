//! The decisions of the event loop: what to do with each console line and each response.
use vstd::prelude::*;

use crate::command::{
    Command, CommandView, command_malformed, free_of, lemma_parse_author_query,
    lemma_parse_create_song, lemma_parse_id_query, lemma_parse_title_query, spec_parse_command,
};
use crate::song::GetModeView;
use crate::song::{EventType, SongRequest, SongResponse};

verus! {

/// A message that the event loop reports to the user.
#[derive(Debug)]
pub enum Notice {
    /// "Invalid command line".
    InvalidCommand,
    /// "Invalid get command".
    InvalidGetCommand,
    /// "Too few arguments - Format: title|author".
    TooFewArguments,
    /// "Too many arguments - Format: title|author".
    TooManyArguments,
}

/// What the event loop does next.
#[derive(Debug)]
pub enum Action {
    /// Print the peers discovered so far.
    ListPeers,
    /// Broadcast the request to all peers on the songs topic.
    Publish(SongRequest),
    /// Add a song with this title and author to the local catalogue.
    CreateSong { title: String, author: String },
    /// Send the response to the peer whose id it names as requester.
    SendResponse(SongResponse),
    /// Report a notice to the user.
    Report(Notice),
    /// Do nothing.
    Idle,
}

/// The event is a console line that the program does not accept.
pub open spec fn event_malformed(event: EventType) -> bool {
    match event {
        EventType::Input(line) => command_malformed(line@),
        EventType::Response(_) => false,
    }
}

/// The action that a console command calls for, at a peer whose id is `local_peer_id`.
pub open spec fn action_for_command(cmd: CommandView, local_peer_id: Seq<char>, action: Action) -> bool {
    match cmd {
        CommandView::ListPeers => action is ListPeers,
        CommandView::ListSongs(mode) => action matches Action::Publish(req) && req.mode@ == mode
            && req.requester_peer_id@ == local_peer_id,
        CommandView::CreateSong { title, author } => action matches Action::CreateSong {
            title: t,
            author: a,
        } && t@ == title && a@ == author,
        CommandView::Ignored => action is Idle,
        CommandView::InvalidCommand => action matches Action::Report(Notice::InvalidCommand),
        CommandView::InvalidGetCommand => action matches Action::Report(Notice::InvalidGetCommand),
        CommandView::TooFewArguments => action matches Action::Report(Notice::TooFewArguments),
        CommandView::TooManyArguments => action matches Action::Report(Notice::TooManyArguments),
    }
}

impl Action {
    /// The action for a console command at a peer whose id is `local_peer_id`.
    pub fn for_command(cmd: Command, local_peer_id: String) -> (action: Action)
        ensures
            action_for_command(cmd@, local_peer_id@, action),
            cmd matches Command::ListSongs(m) ==> (action matches Action::Publish(req)
                && req.mode == m && req.requester_peer_id == local_peer_id),
    {
        match cmd {
            Command::ListPeers => Action::ListPeers,
            Command::ListSongs(mode) => Action::Publish(SongRequest::new(mode, local_peer_id)),
            Command::CreateSong { title, author } => Action::CreateSong { title, author },
            Command::Ignored => Action::Idle,
            Command::InvalidCommand => Action::Report(Notice::InvalidCommand),
            Command::InvalidGetCommand => Action::Report(Notice::InvalidGetCommand),
            Command::TooFewArguments => Action::Report(Notice::TooFewArguments),
            Command::TooManyArguments => Action::Report(Notice::TooManyArguments),
        }
    }

    /// What the event loop of a peer whose id is `local_peer_id` does with `event`: a
    /// console line is parsed and acted on; a response produced by this peer is sent to
    /// its requester.
    pub fn next(event: EventType, local_peer_id: String) -> (action: Action)
        requires
            !event_malformed(event),
        ensures
            match event {
                EventType::Input(line) => action_for_command(
                    spec_parse_command(line@),
                    local_peer_id@,
                    action,
                ),
                EventType::Response(response) => action == Action::SendResponse(response),
            },
            event matches EventType::Input(line) ==> (spec_parse_command(line@) matches CommandView::ListSongs(m)
                ==> (action matches Action::Publish(req) && req.mode@ == m && req.requester_peer_id@
                == local_peer_id@)),
    {
        match event {
            EventType::Input(line) => {
                let cmd = Command::parse(line.as_str());
                Action::for_command(cmd, local_peer_id)
            },
            EventType::Response(response) => Action::SendResponse(response),
        }
    }
}

/// A song listing is answered by publishing a request for exactly the parsed selector,
/// naming this peer as the requester, whatever the selector.
pub proof fn lemma_list_songs_publishes(mode: GetModeView, local_peer_id: Seq<char>, action: Action)
    requires
        action_for_command(CommandView::ListSongs(mode), local_peer_id, action),
    ensures
        action matches Action::Publish(req) && req.mode@ == mode && req.requester_peer_id@
            == local_peer_id,
{
}

/// The line `ls s title <title>` publishes a request for that title from this peer.
pub proof fn lemma_title_line_publishes(title: Seq<char>, local_peer_id: Seq<char>, action: Action)
    requires
        action_for_command(spec_parse_command("ls s title "@ + title), local_peer_id, action),
    ensures
        action matches Action::Publish(req) && req.mode@ == GetModeView::ByTitle(title)
            && req.requester_peer_id@ == local_peer_id,
{
    lemma_parse_title_query(title);
}

/// The line `ls s author <author>` publishes a request for that author from this peer.
pub proof fn lemma_author_line_publishes(
    author: Seq<char>,
    local_peer_id: Seq<char>,
    action: Action,
)
    requires
        action_for_command(spec_parse_command("ls s author "@ + author), local_peer_id, action),
    ensures
        action matches Action::Publish(req) && req.mode@ == GetModeView::ByAuthor(author)
            && req.requester_peer_id@ == local_peer_id,
{
    lemma_parse_author_query(author);
}

/// The line `ls s id <id>` publishes a request for that id from this peer.
pub proof fn lemma_id_line_publishes(id: Seq<char>, local_peer_id: Seq<char>, action: Action)
    requires
        action_for_command(spec_parse_command("ls s id "@ + id), local_peer_id, action),
    ensures
        action matches Action::Publish(req) && req.mode@ == GetModeView::ById(id)
            && req.requester_peer_id@ == local_peer_id,
{
    lemma_parse_id_query(id);
}

/// The line `ls s all` publishes a request for all songs from this peer.
pub proof fn lemma_all_line_publishes(local_peer_id: Seq<char>, action: Action)
    requires
        action_for_command(spec_parse_command("ls s all"@), local_peer_id, action),
    ensures
        action matches Action::Publish(req) && req.mode@ == GetModeView::All
            && req.requester_peer_id@ == local_peer_id,
{
    reveal_strlit("ls s all");
    reveal_strlit("ls p");
    reveal_strlit("ls s");
    reveal_strlit("ls s ");
    reveal_strlit("all");
    let line = "ls s all"@;
    assert(line.take(4) =~= "ls s"@);
    assert(line.take(5) =~= "ls s "@);
    assert(line.skip(5) =~= "all"@);
    assert(line != "ls p"@) by {
        assert(line[3] != "ls p"@[3]);
    }
}

/// The line `create s <title>|<author>`, with neither part holding `|`, creates exactly that
/// song.
pub proof fn lemma_create_line_creates(
    title: Seq<char>,
    author: Seq<char>,
    local_peer_id: Seq<char>,
    action: Action,
)
    requires
        free_of(title, '|'),
        free_of(author, '|'),
        action_for_command(
            spec_parse_command("create s "@ + title + "|"@ + author),
            local_peer_id,
            action,
        ),
    ensures
        action matches Action::CreateSong { title: t, author: a } && t@ == title && a@ == author,
{
    lemma_parse_create_song(title, author);
}

} // verus!
