//! The client side of a connection: the heartbeat rule and how a text
//! frame from the client names a command.

use vstd::prelude::*;
use vstd::string::*;

use crate::ws::error::WsError;
use crate::ws::server::command::disconnect::Disconnect;

pub mod message;
pub mod request;

verus! {

/// How often heartbeat pings are sent, in seconds.
pub const HEARTBEAT_INTERVAL_SECS: u64 = 5;

/// How long a client may stay silent, in seconds, before it is dropped.
pub const CLIENT_TIMEOUT_SECS: u64 = 10;

/// The session id a message carries before the session fills it in.
pub fn default_id() -> (res: usize)
    ensures
        res == 0,
{
    0
}

/// A client that was last heard `secs` seconds and `nanos` nanoseconds ago
/// is still alive: the silence does not exceed the client timeout.
pub fn heartbeat_ok(secs: u64, nanos: u32) -> (res: bool)
    requires
        nanos < 1_000_000_000,
    ensures
        res == (secs * 1_000_000_000 + nanos <= CLIENT_TIMEOUT_SECS * 1_000_000_000),
{
    secs < CLIENT_TIMEOUT_SECS || (secs == CLIENT_TIMEOUT_SECS && nanos == 0)
}

/// What the heartbeat does at one of its ticks.
#[derive(Debug)]
pub enum HeartbeatAction {
    /// The client was heard recently enough: ping it with an empty payload.
    Ping,
    /// The client was silent too long: tell the server it left, and stop
    /// the session.
    Disconnect(Disconnect),
}

/// The heartbeat of session `id` at a tick, when the client was last heard
/// `secs` seconds and `nanos` nanoseconds ago: a ping while the silence does
/// not exceed the client timeout, otherwise the disconnection of `id`.
pub fn heartbeat_tick(id: usize, secs: u64, nanos: u32) -> (res: HeartbeatAction)
    requires
        nanos < 1_000_000_000,
    ensures
        res is Ping <==> secs * 1_000_000_000 + nanos <= CLIENT_TIMEOUT_SECS * 1_000_000_000,
        res matches HeartbeatAction::Disconnect(d) ==> d.id == id,
{
    if heartbeat_ok(secs, nanos) {
        HeartbeatAction::Ping
    } else {
        HeartbeatAction::Disconnect(Disconnect { id })
    }
}

/// The commands a client can send.
#[derive(Debug, Clone, Copy, PartialEq, Eq, Structural)]
pub enum ClientCommand {
    Message,
    Join,
    CreateGame,
    AskQuestion,
    Answer,
    ValidateAnswer,
    ChooseAnswerer,
}

/// The command a word names, if any.
pub open spec fn command_named(word: Seq<char>) -> Option<ClientCommand> {
    if word == "message"@ {
        Some(ClientCommand::Message)
    } else if word == "join"@ {
        Some(ClientCommand::Join)
    } else if word == "create_game"@ {
        Some(ClientCommand::CreateGame)
    } else if word == "ask_question"@ {
        Some(ClientCommand::AskQuestion)
    } else if word == "answer"@ {
        Some(ClientCommand::Answer)
    } else if word == "validate_answer"@ {
        Some(ClientCommand::ValidateAnswer)
    } else if word == "choose_answerer"@ {
        Some(ClientCommand::ChooseAnswerer)
    } else {
        None
    }
}

/// `i` is the position of the first space in `s`.
pub open spec fn first_space_at(s: Seq<char>, i: int) -> bool {
    &&& 0 <= i < s.len()
    &&& s[i] == ' '
    &&& forall|j: int| 0 <= j < i ==> s[j] != ' '
}

/// The first word of `s`: everything before the first space, or all of
/// `s` if it has none.
pub open spec fn head_of(s: Seq<char>) -> Seq<char> {
    if exists|i: int| first_space_at(s, i) {
        s.take(choose|i: int| first_space_at(s, i))
    } else {
        s
    }
}

/// What follows the first space of `s`, if it has one.
pub open spec fn tail_of(s: Seq<char>) -> Option<Seq<char>> {
    if exists|i: int| first_space_at(s, i) {
        Some(s.skip((choose|i: int| first_space_at(s, i)) + 1))
    } else {
        None
    }
}

/// A sequence with a space at `j` has a first space.
proof fn lemma_has_first_space(s: Seq<char>, j: int)
    requires
        0 <= j < s.len(),
        s[j] == ' ',
    ensures
        exists|i: int| first_space_at(s, i),
    decreases j,
{
    if exists|m: int| 0 <= m < j && s[m] == ' ' {
        let m = choose|m: int| 0 <= m < j && s[m] == ' ';
        lemma_has_first_space(s, m);
    } else {
        assert(first_space_at(s, j));
    }
}

/// Splitting a frame loses nothing: the first word, a space and the rest
/// give the frame back, and a frame without a space is its own first word
/// and holds no space at all.
pub proof fn lemma_split_restores(s: Seq<char>)
    ensures
        tail_of(s) matches Some(t) ==> head_of(s) + seq![' '] + t == s,
        tail_of(s) is Some ==> !head_of(s).contains(' '),
        tail_of(s) is None ==> head_of(s) == s && !s.contains(' '),
{
    if exists|i: int| first_space_at(s, i) {
        let i = choose|i: int| first_space_at(s, i);
        let h = s.take(i);
        assert(h + seq![' '] + s.skip(i + 1) =~= s);
        assert forall|j: int| 0 <= j < h.len() implies h[j] != ' ' by {
            assert(h[j] == s[j]);
        }
    } else {
        assert forall|j: int| 0 <= j < s.len() implies s[j] != ' ' by {
            if s[j] == ' ' {
                lemma_has_first_space(s, j);
            }
        }
    }
}

/// `communication error - unknown command <word>`
pub open spec fn unknown_command_message(word: Seq<char>) -> Seq<char> {
    "communication error - unknown command "@ + word
}

/// Splits `encoded` at its first space, into at most two parts.
pub fn split_command(encoded: &str) -> (res: (String, Option<String>))
    ensures
        res.0@ == head_of(encoded@),
        res.1 is Some <==> tail_of(encoded@) is Some,
        res.1 matches Some(t) ==> tail_of(encoded@) == Some(t@),
{
    let n = encoded.unicode_len();
    let mut i: usize = 0;
    while i < n
        invariant
            n == encoded@.len(),
            i <= n,
            forall|j: int| 0 <= j < i ==> encoded@[j] != ' ',
        decreases n - i,
    {
        if encoded.get_char(i) == ' ' {
            proof {
                assert(first_space_at(encoded@, i as int));
                let k = choose|k: int| first_space_at(encoded@, k);
                assert(k == i as int);
            }
            let head = encoded.substring_char(0, i).to_owned();
            let tail = encoded.substring_char(i + 1, n).to_owned();
            assert(tail@ =~= encoded@.skip(i + 1));
            return (head, Some(tail));
        }
        i = i + 1;
    }
    assert(!exists|k: int| first_space_at(encoded@, k));
    (encoded.to_owned(), None)
}

/// Reads which command a text frame from a client names: its first word.
/// The rest of the frame, after the first space, is the command's data.
/// An unknown word is an error.
pub fn parse_client_command(encoded: &str) -> (res: Result<(ClientCommand, Option<String>), WsError>)
    ensures
        match command_named(head_of(encoded@)) {
            Some(c) => res matches Ok((c2, rest)) && c2 == c && (rest is Some <==> tail_of(
                encoded@,
            ) is Some) && (rest matches Some(t) ==> tail_of(encoded@) == Some(t@)),
            None => res matches Err(e) && e.message@ == unknown_command_message(head_of(encoded@)),
        },
{
    let (word, rest) = split_command(encoded);
    let command = if word == String::from_str("message") {
        ClientCommand::Message
    } else if word == String::from_str("join") {
        ClientCommand::Join
    } else if word == String::from_str("create_game") {
        ClientCommand::CreateGame
    } else if word == String::from_str("ask_question") {
        ClientCommand::AskQuestion
    } else if word == String::from_str("answer") {
        ClientCommand::Answer
    } else if word == String::from_str("validate_answer") {
        ClientCommand::ValidateAnswer
    } else if word == String::from_str("choose_answerer") {
        ClientCommand::ChooseAnswerer
    } else {
        let mut text = String::from_str("communication error - unknown command ");
        text.append(word.as_str());
        return Err(WsError::message(text.as_str()));
    };
    Ok((command, rest))
}

} // verus!
