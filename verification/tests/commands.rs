use p2p_songs::command::Command;
use p2p_songs::event::{Action, Notice};
use p2p_songs::{EventType, GetMode, SongResponse};

fn parse(line: &str) -> Command {
    assert!(Command::is_accepted(line));
    Command::parse(line)
}

#[test]
fn list_peers_is_exact() {
    assert!(matches!(parse("ls p"), Command::ListPeers));
    assert!(matches!(parse("ls p "), Command::InvalidCommand));
    assert!(matches!(parse("ls peers"), Command::InvalidCommand));
}

#[test]
fn list_all_songs() {
    assert!(matches!(parse("ls s all"), Command::ListSongs(GetMode::ALL)));
}

#[test]
fn list_by_title_author_id() {
    match parse("ls s title Hey Jude") {
        Command::ListSongs(GetMode::ByTitle(t)) => assert_eq!(t, "Hey Jude"),
        other => panic!("unexpected {:?}", other),
    }
    match parse("ls s author The Beatles") {
        Command::ListSongs(GetMode::ByAuthor(a)) => assert_eq!(a, "The Beatles"),
        other => panic!("unexpected {:?}", other),
    }
    match parse("ls s id 42") {
        Command::ListSongs(GetMode::ById(i)) => assert_eq!(i, "42"),
        other => panic!("unexpected {:?}", other),
    }
    match parse("ls s title ") {
        Command::ListSongs(GetMode::ByTitle(t)) => assert_eq!(t, ""),
        other => panic!("unexpected {:?}", other),
    }
}

#[test]
fn unknown_selector_is_invalid_get() {
    assert!(matches!(parse("ls s everything"), Command::InvalidGetCommand));
    assert!(matches!(parse("ls s all "), Command::InvalidGetCommand));
    assert!(matches!(parse("ls s "), Command::InvalidGetCommand));
}

#[test]
fn missing_space_after_prefix_is_ignored() {
    assert!(matches!(parse("ls s"), Command::Ignored));
    assert!(matches!(parse("ls sall"), Command::Ignored));
    assert!(matches!(parse("create s"), Command::Ignored));
    assert!(matches!(parse("create songs"), Command::Ignored));
}

#[test]
fn selector_without_argument_is_not_accepted() {
    assert!(!Command::is_accepted("ls s id"));
    assert!(!Command::is_accepted("ls s idea"));
    assert!(!Command::is_accepted("ls s author"));
    assert!(!Command::is_accepted("ls s titles"));
    assert!(Command::is_accepted("ls s id "));
    assert!(Command::is_accepted("ls p"));
    assert!(Command::is_accepted("anything else"));
}

#[test]
fn create_song_splits_title_and_author() {
    match parse("create s Yesterday|The Beatles") {
        Command::CreateSong { title, author } => {
            assert_eq!(title, "Yesterday");
            assert_eq!(author, "The Beatles");
        }
        other => panic!("unexpected {:?}", other),
    }
    match parse("create s |") {
        Command::CreateSong { title, author } => {
            assert_eq!(title, "");
            assert_eq!(author, "");
        }
        other => panic!("unexpected {:?}", other),
    }
}

#[test]
fn create_song_argument_count() {
    assert!(matches!(parse("create s Yesterday"), Command::TooFewArguments));
    assert!(matches!(parse("create s "), Command::TooFewArguments));
    assert!(matches!(parse("create s a|b|c"), Command::TooManyArguments));
    assert!(matches!(parse("create s ||"), Command::TooManyArguments));
}

#[test]
fn unknown_line_is_invalid() {
    assert!(matches!(parse(""), Command::InvalidCommand));
    assert!(matches!(parse("help"), Command::InvalidCommand));
}

#[test]
fn non_ascii_text_is_kept() {
    match parse("create s Ça plane pour moi|Plastic Bertrand") {
        Command::CreateSong { title, author } => {
            assert_eq!(title, "Ça plane pour moi");
            assert_eq!(author, "Plastic Bertrand");
        }
        other => panic!("unexpected {:?}", other),
    }
}

#[test]
fn input_event_publishes_request_from_local_peer() {
    let action = Action::next(EventType::Input("ls s author Queen".to_string()), "peer-A".to_string());
    match action {
        Action::Publish(req) => {
            assert_eq!(req.requester_peer_id, "peer-A");
            assert!(matches!(req.mode, GetMode::ByAuthor(ref a) if a == "Queen"));
        }
        other => panic!("unexpected {:?}", other),
    }
}

#[test]
fn input_event_reports_notices() {
    let a = Action::next(EventType::Input("frobnicate".to_string()), "p".to_string());
    assert!(matches!(a, Action::Report(Notice::InvalidCommand)));
    let a = Action::next(EventType::Input("ls s nothing".to_string()), "p".to_string());
    assert!(matches!(a, Action::Report(Notice::InvalidGetCommand)));
    let a = Action::next(EventType::Input("create s x".to_string()), "p".to_string());
    assert!(matches!(a, Action::Report(Notice::TooFewArguments)));
    let a = Action::next(EventType::Input("create s x|y|z".to_string()), "p".to_string());
    assert!(matches!(a, Action::Report(Notice::TooManyArguments)));
    let a = Action::next(EventType::Input("ls s".to_string()), "p".to_string());
    assert!(matches!(a, Action::Idle));
    let a = Action::next(EventType::Input("ls p".to_string()), "p".to_string());
    assert!(matches!(a, Action::ListPeers));
    let a = Action::next(EventType::Input("create s T|A".to_string()), "p".to_string());
    assert!(matches!(a, Action::CreateSong { ref title, ref author } if title == "T" && author == "A"));
}

#[test]
fn response_event_is_forwarded() {
    let resp = SongResponse {
        mode: GetMode::ALL,
        responser_peer_id: "me".to_string(),
        requester_peer_id: "you".to_string(),
        data: Vec::new(),
    };
    match Action::next(EventType::Response(resp), "me".to_string()) {
        Action::SendResponse(r) => {
            assert_eq!(r.requester_peer_id, "you");
            assert_eq!(r.responser_peer_id, "me");
        }
        other => panic!("unexpected {:?}", other),
    }
}
