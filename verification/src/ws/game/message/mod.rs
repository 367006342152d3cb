//! The messages a game accepts, what it answers, and what it asks its
//! surroundings to do.

use vstd::prelude::*;

use vstd::string::*;

use crate::ws::game::state::{state_debug, GameState};
use crate::ws::text::{decimal, usize_to_string};
use crate::ws::server::message::game_message::answer_timeout::AnswerTimedOut;
use crate::ws::server::message::game_message::player_lost::PlayerLost;

verus! {

/// What a game answers to a message it accepted.
#[derive(Debug)]
pub enum GameMessageResponse {
    Started,
    /// (answerer_id)
    QuestionAsked(usize),
    /// (answerer_id, answer, question)
    QuestionAnswered(usize, String, String),
    /// (answerer_id, is_answer_valid)
    AnswerValidated(usize, bool),
    /// (new_answerer_id)
    AnswererChosen(usize),
}

/// Why a game refused a message.
#[derive(Debug)]
pub struct GameMessageError {
    pub message: String,
    pub game_id: usize,
    pub game_state: Option<GameState>,
}

impl GameMessageError {
    /// An error that records the state the game was in.
    pub fn with_state(message: &str, game_id: usize, game_state: GameState) -> (res: Self)
        ensures
            res.message@ == message@,
            res.game_id == game_id,
            res.game_state == Some(game_state),
    {
        GameMessageError { game_id, game_state: Some(game_state), message: message.to_owned() }
    }

    /// An error that is not tied to a game state.
    pub fn new(message: &str, game_id: usize) -> (res: Self)
        ensures
            res.message@ == message@,
            res.game_id == game_id,
            res.game_state is None,
    {
        GameMessageError { game_id, game_state: None, message: message.to_owned() }
    }
}

/// The text of an error: `game_id: <id>, game_state: <state:?>: <message>`,
/// the state written as an `Option` is by `{:?}`.
pub open spec fn error_text(e: GameMessageError) -> Seq<char> {
    "game_id: "@ + decimal(e.game_id as nat) + ", game_state: "@ + match e.game_state {
        None => "None"@,
        Some(st) => "Some("@ + state_debug(st) + ")"@,
    } + ": "@ + e.message@
}

impl GameMessageError {
    /// The text of the error, for a reader.
    pub fn to_string(&self) -> (res: String)
        ensures
            res@ == error_text(*self),
    {
        let mut s = String::from_str("game_id: ");
        s.append(usize_to_string(self.game_id).as_str());
        s.append(", game_state: ");
        match &self.game_state {
            None => s.append("None"),
            Some(st) => {
                s.append("Some(");
                s.append(st.debug_text().as_str());
                s.append(")");
            },
        }
        s.append(": ");
        s.append(self.message.as_str());
        s
    }
}

/// The answer of a game to one message.
pub type GameMessageResult = Result<GameMessageResponse, GameMessageError>;

/// Work that a game hands to whoever runs it.
#[derive(Debug)]
pub enum GameEffect {
    /// Arm the answer timer of the game for the given number of seconds;
    /// when it fires, `handle_timeout` is due.
    StartAnswerTimer(u64),
    /// Disarm the answer timer of the game, if one is armed.
    CancelAnswerTimer,
    /// Tell the room that a player ran out of chances.
    PlayerLost(PlayerLost),
    /// Tell the room that the answerer did not answer in time.
    AnswerTimedOut(AnswerTimedOut),
}

} // verus!

pub mod start;
pub mod ask_question;
pub mod answer;
pub mod choose_answerer;
pub mod validate_answer;
