use p2p_songs::catalog::{append_song, create_new_song, filter_songs, get_songs};
use p2p_songs::{GetMode, Song, SongRequest};

fn song(id: &str, title: &str, author: &str) -> Song {
    Song { id: id.to_string(), title: title.to_string(), author: author.to_string() }
}

fn catalogue() -> Vec<Song> {
    vec![
        song("1", "Yesterday", "The Beatles"),
        song("2", "Bohemian Rhapsody", "Queen"),
        song("3", "Help!", "The Beatles"),
        song("4", "Yesterday", "Boyz II Men"),
    ]
}

fn ids(songs: &[Song]) -> Vec<&str> {
    songs.iter().map(|s| s.id.as_str()).collect()
}

#[test]
fn all_returns_whole_catalogue_in_order() {
    let songs = catalogue();
    assert_eq!(ids(&filter_songs(&songs, &GetMode::ALL)), vec!["1", "2", "3", "4"]);
}

#[test]
fn filters_by_author_title_and_id() {
    let songs = catalogue();
    assert_eq!(ids(&filter_songs(&songs, &GetMode::ByAuthor("The Beatles".to_string()))), vec!["1", "3"]);
    assert_eq!(ids(&filter_songs(&songs, &GetMode::ByTitle("Yesterday".to_string()))), vec!["1", "4"]);
    assert_eq!(ids(&filter_songs(&songs, &GetMode::ById("2".to_string()))), vec!["2"]);
}

#[test]
fn no_match_gives_empty_answer() {
    let songs = catalogue();
    assert!(filter_songs(&songs, &GetMode::ByAuthor("Abba".to_string())).is_empty());
    assert!(filter_songs(&songs, &GetMode::ByTitle("yesterday".to_string())).is_empty());
    assert!(filter_songs(&Vec::new(), &GetMode::ALL).is_empty());
}

#[test]
fn selecting_twice_changes_nothing() {
    let songs = catalogue();
    let mode = GetMode::ByAuthor("The Beatles".to_string());
    let once = filter_songs(&songs, &mode);
    let twice = filter_songs(&once, &mode);
    assert_eq!(ids(&once), ids(&twice));
}

#[test]
fn response_is_addressed_back_and_marked_all() {
    let songs = catalogue();
    let req = SongRequest::new(GetMode::ByTitle("Help!".to_string()), "requester".to_string());
    let resp = get_songs(&req, &songs, "responder".to_string());
    assert!(matches!(resp.mode, GetMode::ALL));
    assert_eq!(resp.requester_peer_id, "requester");
    assert_eq!(resp.responser_peer_id, "responder");
    assert_eq!(ids(&resp.data), vec!["3"]);
    assert_eq!(resp.data[0].title, "Help!");
    assert_eq!(resp.data[0].author, "The Beatles");
}

fn is_uuid_v4(id: &str) -> bool {
    let b = id.as_bytes();
    if b.len() != 36 {
        return false;
    }
    for (i, c) in b.iter().enumerate() {
        let ok = if i == 8 || i == 13 || i == 18 || i == 23 {
            *c == b'-'
        } else {
            c.is_ascii_digit() || (b'a'..=b'f').contains(c)
        };
        if !ok {
            return false;
        }
    }
    b[14] == b'4' && matches!(b[19], b'8' | b'9' | b'a' | b'b')
}

#[test]
fn created_song_is_appended_with_fresh_id() {
    let mut songs = catalogue();
    create_new_song(&mut songs, "Imagine", "John Lennon");
    assert_eq!(songs.len(), 5);
    assert_eq!(ids(&songs[..4]), vec!["1", "2", "3", "4"]);
    let new = &songs[4];
    assert_eq!(new.title, "Imagine");
    assert_eq!(new.author, "John Lennon");
    assert!(is_uuid_v4(&new.id), "bad id {}", new.id);
    assert_ne!(new.id, "1");
}

#[test]
fn created_song_is_found_by_title_author_and_id() {
    let mut songs = catalogue();
    create_new_song(&mut songs, "Yesterday", "Someone");
    let id = songs[4].id.clone();
    let by_title = filter_songs(&songs, &GetMode::ByTitle("Yesterday".to_string()));
    assert_eq!(by_title.last().unwrap().id, id);
    let by_author = filter_songs(&songs, &GetMode::ByAuthor("Someone".to_string()));
    assert_eq!(ids(&by_author), vec![id.as_str()]);
    let by_id = filter_songs(&songs, &GetMode::ById(id.clone()));
    assert_eq!(by_id.len(), 1);
    assert_eq!(by_id[0].title, "Yesterday");
}

#[test]
fn two_created_songs_get_distinct_ids() {
    let mut songs = Vec::new();
    create_new_song(&mut songs, "a", "b");
    create_new_song(&mut songs, "a", "b");
    assert_ne!(songs[0].id, songs[1].id);
}

#[test]
fn appended_song_keeps_its_given_id() {
    let mut songs = catalogue();
    append_song(&mut songs, "fixed-id".to_string(), "Let It Be", "The Beatles");
    assert_eq!(ids(&songs), vec!["1", "2", "3", "4", "fixed-id"]);
    assert_eq!(songs[4].title, "Let It Be");
    assert_eq!(songs[4].author, "The Beatles");
}
