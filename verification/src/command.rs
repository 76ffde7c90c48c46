//! The commands a user types at the console.
//!
//! - `ls p` lists the discovered peers;
//! - `ls s all`, `ls s id <id>`, `ls s author <author>` and `ls s title <title>` ask all
//!   peers for songs;
//! - `create s <title>|<author>` adds a song to the local catalogue.
use vstd::prelude::*;

use crate::song::{GetMode, GetModeView};
use crate::text::{has_prefix, same_text, split_on, split_on_char, starts_with, strip_prefix};

verus! {

/// What a console line asks for.
#[derive(Debug)]
pub enum Command {
    /// `ls p`.
    ListPeers,
    /// `ls s <selector>`.
    ListSongs(GetMode),
    /// `create s <title>|<author>`.
    CreateSong { title: String, author: String },
    /// `ls s` or `create s` not followed by a space: nothing is done.
    Ignored,
    /// A line that is no command.
    InvalidCommand,
    /// `ls s ` followed by no known selector.
    InvalidGetCommand,
    /// `create s ` followed by text without `|`.
    TooFewArguments,
    /// `create s ` followed by text with more than one `|`.
    TooManyArguments,
}

/// The abstract value of a [`Command`].
pub enum CommandView {
    ListPeers,
    ListSongs(GetModeView),
    CreateSong { title: Seq<char>, author: Seq<char> },
    Ignored,
    InvalidCommand,
    InvalidGetCommand,
    TooFewArguments,
    TooManyArguments,
}

impl View for Command {
    type V = CommandView;

    open spec fn view(&self) -> CommandView {
        match self {
            Command::ListPeers => CommandView::ListPeers,
            Command::ListSongs(mode) => CommandView::ListSongs(mode@),
            Command::CreateSong { title, author } => CommandView::CreateSong {
                title: title@,
                author: author@,
            },
            Command::Ignored => CommandView::Ignored,
            Command::InvalidCommand => CommandView::InvalidCommand,
            Command::InvalidGetCommand => CommandView::InvalidGetCommand,
            Command::TooFewArguments => CommandView::TooFewArguments,
            Command::TooManyArguments => CommandView::TooManyArguments,
        }
    }
}

/// `rest` starts with the selector word `word` but not with `word` and a space: the
/// selector has no argument where one is required.
pub open spec fn selector_without_argument(rest: Seq<char>, word: Seq<char>) -> bool {
    has_prefix(rest, word) && !has_prefix(rest, word + seq![' '])
}

/// The meaning of the text after `ls s `.
pub open spec fn spec_parse_selector(rest: Seq<char>) -> CommandView {
    if rest == "all"@ {
        CommandView::ListSongs(GetModeView::All)
    } else if has_prefix(rest, "id"@) {
        CommandView::ListSongs(GetModeView::ById(rest.skip(3)))
    } else if has_prefix(rest, "author"@) {
        CommandView::ListSongs(GetModeView::ByAuthor(rest.skip(7)))
    } else if has_prefix(rest, "title"@) {
        CommandView::ListSongs(GetModeView::ByTitle(rest.skip(6)))
    } else {
        CommandView::InvalidGetCommand
    }
}

/// The text after `ls s ` names a selector but lacks the space before its argument; such a
/// line is not accepted.
pub open spec fn selector_malformed(rest: Seq<char>) -> bool {
    if rest == "all"@ {
        false
    } else if has_prefix(rest, "id"@) {
        selector_without_argument(rest, "id"@)
    } else if has_prefix(rest, "author"@) {
        selector_without_argument(rest, "author"@)
    } else if has_prefix(rest, "title"@) {
        selector_without_argument(rest, "title"@)
    } else {
        false
    }
}

/// The meaning of the text after `create s `: a title and an author separated by `|`.
pub open spec fn spec_parse_create(rest: Seq<char>) -> CommandView {
    let words = split_on(rest, '|');
    if words.len() < 2 {
        CommandView::TooFewArguments
    } else if words.len() > 2 {
        CommandView::TooManyArguments
    } else {
        CommandView::CreateSong { title: words[0], author: words[1] }
    }
}

/// The meaning of a console line.
pub open spec fn spec_parse_command(line: Seq<char>) -> CommandView {
    if line == "ls p"@ {
        CommandView::ListPeers
    } else if has_prefix(line, "ls s"@) {
        if has_prefix(line, "ls s "@) {
            spec_parse_selector(line.skip(5))
        } else {
            CommandView::Ignored
        }
    } else if has_prefix(line, "create s"@) {
        if has_prefix(line, "create s "@) {
            spec_parse_create(line.skip(9))
        } else {
            CommandView::Ignored
        }
    } else {
        CommandView::InvalidCommand
    }
}

/// The console line is a song listing whose selector lacks the space before its argument
/// (`ls s idX`, `ls s author`, ...); the program does not accept it.
pub open spec fn command_malformed(line: Seq<char>) -> bool {
    line != "ls p"@ && has_prefix(line, "ls s "@) && selector_malformed(line.skip(5))
}

/// Parses the text after `ls s `.
fn parse_selector(rest: &str) -> (cmd: Command)
    requires
        !selector_malformed(rest@),
    ensures
        cmd@ == spec_parse_selector(rest@),
{
    proof {
        reveal_strlit("all");
        reveal_strlit("id");
        reveal_strlit("id ");
        reveal_strlit("author");
        reveal_strlit("author ");
        reveal_strlit("title");
        reveal_strlit("title ");
        assert("id"@ + seq![' '] =~= "id "@);
        assert("author"@ + seq![' '] =~= "author "@);
        assert("title"@ + seq![' '] =~= "title "@);
    }
    if same_text(rest, "all") {
        Command::ListSongs(GetMode::ALL)
    } else if starts_with(rest, "id") {
        match strip_prefix(rest, "id ") {
            Some(id) => Command::ListSongs(GetMode::ById(id.to_owned())),
            None => Command::InvalidGetCommand,
        }
    } else if starts_with(rest, "author") {
        match strip_prefix(rest, "author ") {
            Some(author) => Command::ListSongs(GetMode::ByAuthor(author.to_owned())),
            None => Command::InvalidGetCommand,
        }
    } else if starts_with(rest, "title") {
        match strip_prefix(rest, "title ") {
            Some(title) => Command::ListSongs(GetMode::ByTitle(title.to_owned())),
            None => Command::InvalidGetCommand,
        }
    } else {
        Command::InvalidGetCommand
    }
}

/// Parses the text after `create s `.
fn parse_create(rest: &str) -> (cmd: Command)
    ensures
        cmd@ == spec_parse_create(rest@),
{
    let mut words = split_on_char(rest, '|');
    let n = words.len();
    if n < 2 {
        Command::TooFewArguments
    } else if n > 2 {
        Command::TooManyArguments
    } else {
        let ghost pieces = words.deep_view();
        let author = words.pop().unwrap();
        let title = words.pop().unwrap();
        assert(title@ == pieces[0]);
        Command::CreateSong { title, author }
    }
}

impl Command {
    /// Whether the program accepts `line`: every line is accepted but a song listing whose
    /// selector lacks the space before its argument.
    pub fn is_accepted(line: &str) -> (accepted: bool)
        ensures
            accepted == !command_malformed(line@),
    {
        proof {
            reveal_strlit("ls p");
            reveal_strlit("ls s ");
            reveal_strlit("all");
            reveal_strlit("id");
            reveal_strlit("id ");
            reveal_strlit("author");
            reveal_strlit("author ");
            reveal_strlit("title");
            reveal_strlit("title ");
            assert("id"@ + seq![' '] =~= "id "@);
            assert("author"@ + seq![' '] =~= "author "@);
            assert("title"@ + seq![' '] =~= "title "@);
        }
        if same_text(line, "ls p") {
            return true;
        }
        match strip_prefix(line, "ls s ") {
            None => true,
            Some(rest) => {
                if same_text(rest, "all") {
                    true
                } else if starts_with(rest, "id") {
                    starts_with(rest, "id ")
                } else if starts_with(rest, "author") {
                    starts_with(rest, "author ")
                } else if starts_with(rest, "title") {
                    starts_with(rest, "title ")
                } else {
                    true
                }
            },
        }
    }

    /// Parses a console line.
    pub fn parse(line: &str) -> (cmd: Command)
        requires
            !command_malformed(line@),
        ensures
            cmd@ == spec_parse_command(line@),
    {
        proof {
            reveal_strlit("ls p");
            reveal_strlit("ls s");
            reveal_strlit("ls s ");
            reveal_strlit("create s");
            reveal_strlit("create s ");
        }
        if same_text(line, "ls p") {
            Command::ListPeers
        } else if starts_with(line, "ls s") {
            match strip_prefix(line, "ls s ") {
                Some(rest) => parse_selector(rest),
                None => Command::Ignored,
            }
        } else if starts_with(line, "create s") {
            match strip_prefix(line, "create s ") {
                Some(rest) => parse_create(rest),
                None => Command::Ignored,
            }
        } else {
            Command::InvalidCommand
        }
    }
}

/// `s` has no occurrence of `c`.
pub open spec fn free_of(s: Seq<char>, c: char) -> bool {
    forall|i: int| 0 <= i < s.len() ==> s[i] != c
}

/// Appending separator-free text to `p` extends the last piece of `p`.
proof fn lemma_split_extend(p: Seq<char>, v: Seq<char>, sep: char)
    requires
        free_of(v, sep),
    ensures
        split_on(p + v, sep) == split_on(p, sep).update(
            split_on(p, sep).len() - 1,
            split_on(p, sep).last() + v,
        ),
    decreases v.len(),
{
    crate::text::lemma_split_on_nonempty(p, sep);
    if v.len() == 0 {
        assert(p + v =~= p);
        assert(split_on(p, sep).last() + v =~= split_on(p, sep).last());
        assert(split_on(p, sep).update(split_on(p, sep).len() - 1, split_on(p, sep).last())
            =~= split_on(p, sep));
    } else {
        let w = v.drop_last();
        lemma_split_extend(p, w, sep);
        assert((p + v).drop_last() =~= p + w);
        assert((p + v).last() == v.last());
        assert(v[v.len() - 1] != sep);
        let before = split_on(p, sep);
        assert((before.last() + w).push(v.last()) =~= before.last() + v);
        assert(split_on(p + w, sep).update(split_on(p + w, sep).len() - 1, split_on(p + w, sep).last().push(v.last()))
            =~= before.update(before.len() - 1, before.last() + v));
    }
}

/// `create s <title>|<author>`, with neither part holding `|`, creates exactly that song.
pub proof fn lemma_parse_create_song(title: Seq<char>, author: Seq<char>)
    requires
        free_of(title, '|'),
        free_of(author, '|'),
    ensures
        !command_malformed("create s "@ + title + "|"@ + author),
        spec_parse_command("create s "@ + title + "|"@ + author) == (CommandView::CreateSong {
            title,
            author,
        }),
{
    reveal_strlit("create s ");
    reveal_strlit("create s");
    reveal_strlit("ls p");
    reveal_strlit("ls s");
    reveal_strlit("ls s ");
    reveal_strlit("|");
    let line = "create s "@ + title + "|"@ + author;
    let rest = title + "|"@ + author;
    assert(line.take(9) =~= "create s "@);
    assert(line.take(8) =~= "create s"@);
    assert(line.skip(9) =~= rest);
    assert(line[0] == 'c');
    assert(line.take(4) != "ls s"@);
    assert(line != "ls p"@);
    let empty = Seq::<char>::empty();
    assert(split_on(empty, '|') == seq![empty]);
    lemma_split_extend(empty, title, '|');
    assert(empty + title =~= title);
    assert(seq![empty].update(0, empty + title) =~= seq![title]);
    assert((title + "|"@).drop_last() =~= title);
    assert(split_on(title + "|"@, '|') =~= seq![title, empty]);
    lemma_split_extend(title + "|"@, author, '|');
    assert(title + "|"@ + author =~= rest);
    assert(empty + author =~= author);
    assert(split_on(rest, '|') =~= seq![title, author]);
}

/// A title query `ls s title <title>` asks for exactly that title.
pub proof fn lemma_parse_title_query(title: Seq<char>)
    ensures
        !command_malformed("ls s title "@ + title),
        spec_parse_command("ls s title "@ + title) == CommandView::ListSongs(
            GetModeView::ByTitle(title),
        ),
{
    reveal_strlit("ls s title ");
    reveal_strlit("ls p");
    reveal_strlit("ls s");
    reveal_strlit("ls s ");
    reveal_strlit("all");
    reveal_strlit("id");
    reveal_strlit("author");
    reveal_strlit("title");
    let line = "ls s title "@ + title;
    let rest = line.skip(5);
    assert(line.take(4) =~= "ls s"@);
    assert(line.take(5) =~= "ls s "@);
    assert(line.len() >= 11);
    assert(line != "ls p"@) by {
        assert(line[3] == 's');
    }
    assert(rest[0] == 't');
    assert(rest != "all"@);
    assert(rest.take(2) != "id"@) by {
        assert(rest.take(2)[0] == 't');
    }
    assert(rest.take(6) != "author"@) by {
        assert(rest.take(6)[0] == 't');
    }
    assert(rest.take(5) =~= "title"@);
    assert(rest.take(6) =~= "title"@ + seq![' ']);
    assert(rest.skip(6) =~= title);
}

/// An author query `ls s author <author>` asks for exactly that author.
pub proof fn lemma_parse_author_query(author: Seq<char>)
    ensures
        !command_malformed("ls s author "@ + author),
        spec_parse_command("ls s author "@ + author) == CommandView::ListSongs(
            GetModeView::ByAuthor(author),
        ),
{
    reveal_strlit("ls s author ");
    reveal_strlit("ls p");
    reveal_strlit("ls s");
    reveal_strlit("ls s ");
    reveal_strlit("all");
    reveal_strlit("id");
    reveal_strlit("author");
    let line = "ls s author "@ + author;
    let rest = line.skip(5);
    assert(line.take(4) =~= "ls s"@);
    assert(line.take(5) =~= "ls s "@);
    assert(line.len() >= 12);
    assert(line != "ls p"@) by {
        assert(line[3] == 's');
    }
    assert(rest[0] == 'a');
    assert(rest != "all"@) by {
        assert(rest[1] == 'u');
    }
    assert(rest.take(2) != "id"@) by {
        assert(rest.take(2)[0] == 'a');
    }
    assert(rest.take(6) =~= "author"@);
    assert(rest.take(7) =~= "author"@ + seq![' ']);
    assert(rest.skip(7) =~= author);
}

/// An id query `ls s id <id>` asks for exactly that id.
pub proof fn lemma_parse_id_query(id: Seq<char>)
    ensures
        !command_malformed("ls s id "@ + id),
        spec_parse_command("ls s id "@ + id) == CommandView::ListSongs(GetModeView::ById(id)),
{
    reveal_strlit("ls s id ");
    reveal_strlit("ls p");
    reveal_strlit("ls s");
    reveal_strlit("ls s ");
    reveal_strlit("all");
    reveal_strlit("id");
    let line = "ls s id "@ + id;
    let rest = line.skip(5);
    assert(line.take(4) =~= "ls s"@);
    assert(line.take(5) =~= "ls s "@);
    assert(line.len() >= 8);
    assert(line != "ls p"@) by {
        assert(line[3] == 's');
    }
    assert(rest[0] == 'i');
    assert(rest != "all"@);
    assert(rest.take(2) =~= "id"@);
    assert(rest.take(3) =~= "id"@ + seq![' ']);
    assert(rest.skip(3) =~= id);
}

} // verus!
