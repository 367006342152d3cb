//! The states a game goes through, one round after another.

use vstd::prelude::*;
use vstd::string::*;

use crate::ws::text::{decimal, debug_quoted, option_debug, option_usize_debug, str_debug, usize_to_string};

verus! {

/// The game waits for the Game Master to ask `answerer_id` a question.
#[derive(Debug)]
pub struct AskQuestionState {
    pub previous_answerer_id: Option<usize>,
    pub answerer_id: usize,
}

/// The question was asked; the game waits for `answerer_id` to answer it.
#[derive(Debug)]
pub struct AnswerState {
    pub previous_answerer_id: Option<usize>,
    pub answerer_id: usize,
    pub question: String,
}

/// The answer was given; the game waits for the Game Master to judge it.
#[derive(Debug)]
pub struct ValidateAnswerState {
    pub previous_answerer_id: Option<usize>,
    pub answerer_id: usize,
    pub answer: String,
}

/// The game waits for `chooser_id` to name the next answerer.
#[derive(Debug)]
pub struct ChooseAnswererState {
    pub previous_answerer_id: Option<usize>,
    pub chooser_id: usize,
}

/// Where a game stands.
#[derive(Debug)]
pub enum GameState {
    Starting,
    AskQuestion(AskQuestionState),
    Answer(AnswerState),
    ValidateAnswer(ValidateAnswerState),
    ChooseAnswerer(ChooseAnswererState),
    _Finished,
}

/// The text that `{:?}` gives for a game state.
pub open spec fn state_debug(s: GameState) -> Seq<char> {
    match s {
        GameState::Starting => "Starting"@,
        GameState::AskQuestion(st) => "AskQuestion(AskQuestionState { previous_answerer_id: "@
            + option_debug(st.previous_answerer_id) + ", answerer_id: "@ + decimal(
            st.answerer_id as nat,
        ) + " })"@,
        GameState::Answer(st) => "Answer(AnswerState { previous_answerer_id: "@ + option_debug(
            st.previous_answerer_id,
        ) + ", answerer_id: "@ + decimal(st.answerer_id as nat) + ", question: "@ + debug_quoted(
            st.question@,
        ) + " })"@,
        GameState::ValidateAnswer(st) => "ValidateAnswer(ValidateAnswerState { previous_answerer_id: "@
            + option_debug(st.previous_answerer_id) + ", answerer_id: "@ + decimal(
            st.answerer_id as nat,
        ) + ", answer: "@ + debug_quoted(st.answer@) + " })"@,
        GameState::ChooseAnswerer(st) => "ChooseAnswerer(ChooseAnswererState { previous_answerer_id: "@
            + option_debug(st.previous_answerer_id) + ", chooser_id: "@ + decimal(
            st.chooser_id as nat,
        ) + " })"@,
        GameState::_Finished => "_Finished"@,
    }
}

impl GameState {
    /// A copy of this state.
    pub fn snapshot(&self) -> (res: GameState)
        ensures
            res == *self,
    {
        match self {
            GameState::Starting => GameState::Starting,
            GameState::AskQuestion(s) => GameState::AskQuestion(
                AskQuestionState {
                    previous_answerer_id: s.previous_answerer_id,
                    answerer_id: s.answerer_id,
                },
            ),
            GameState::Answer(s) => GameState::Answer(
                AnswerState {
                    previous_answerer_id: s.previous_answerer_id,
                    answerer_id: s.answerer_id,
                    question: s.question.clone(),
                },
            ),
            GameState::ValidateAnswer(s) => GameState::ValidateAnswer(
                ValidateAnswerState {
                    previous_answerer_id: s.previous_answerer_id,
                    answerer_id: s.answerer_id,
                    answer: s.answer.clone(),
                },
            ),
            GameState::ChooseAnswerer(s) => GameState::ChooseAnswerer(
                ChooseAnswererState {
                    previous_answerer_id: s.previous_answerer_id,
                    chooser_id: s.chooser_id,
                },
            ),
            GameState::_Finished => GameState::_Finished,
        }
    }

    /// The text that `{:?}` gives for this state.
    pub fn debug_text(&self) -> (res: String)
        ensures
            res@ == state_debug(*self),
    {
        match self {
            GameState::Starting => String::from_str("Starting"),
            GameState::AskQuestion(st) => {
                let mut s = String::from_str("AskQuestion(AskQuestionState { previous_answerer_id: ");
                s.append(option_usize_debug(st.previous_answerer_id).as_str());
                s.append(", answerer_id: ");
                s.append(usize_to_string(st.answerer_id).as_str());
                s.append(" })");
                s
            },
            GameState::Answer(st) => {
                let mut s = String::from_str("Answer(AnswerState { previous_answerer_id: ");
                s.append(option_usize_debug(st.previous_answerer_id).as_str());
                s.append(", answerer_id: ");
                s.append(usize_to_string(st.answerer_id).as_str());
                s.append(", question: ");
                s.append(str_debug(st.question.as_str()).as_str());
                s.append(" })");
                s
            },
            GameState::ValidateAnswer(st) => {
                let mut s = String::from_str(
                    "ValidateAnswer(ValidateAnswerState { previous_answerer_id: ",
                );
                s.append(option_usize_debug(st.previous_answerer_id).as_str());
                s.append(", answerer_id: ");
                s.append(usize_to_string(st.answerer_id).as_str());
                s.append(", answer: ");
                s.append(str_debug(st.answer.as_str()).as_str());
                s.append(" })");
                s
            },
            GameState::ChooseAnswerer(st) => {
                let mut s = String::from_str(
                    "ChooseAnswerer(ChooseAnswererState { previous_answerer_id: ",
                );
                s.append(option_usize_debug(st.previous_answerer_id).as_str());
                s.append(", chooser_id: ");
                s.append(usize_to_string(st.chooser_id).as_str());
                s.append(" })");
                s
            },
            GameState::_Finished => String::from_str("_Finished"),
        }
    }
}

} // verus!
