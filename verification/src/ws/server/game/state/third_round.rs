//! The states of the third round.

use vstd::prelude::*;

verus! {

/// Where the third round stands.
#[derive(Debug)]
pub enum ThirdRoundGameState {
    Start,
    AskQuestion(AskQuestionState),
    Answer(AnswerState),
    ValidateAnswer(ValidateAnswerState),
    ChooseAnswerer(ChooseAnswererState),
    Finished,
}

/// The Game Master is to ask `answerer_id` a question.
#[derive(Debug)]
pub struct AskQuestionState {
    pub old_answerer_id: Option<usize>,
    pub answerer_id: usize,
}

/// `answerer_id` is to answer `question`.
#[derive(Debug)]
pub struct AnswerState {
    pub old_answerer_id: Option<usize>,
    pub answerer_id: usize,
    pub question: String,
}

/// The Game Master is to judge `answer`.
#[derive(Debug)]
pub struct ValidateAnswerState {
    pub old_answerer_id: Option<usize>,
    pub answerer_id: usize,
    pub answer: String,
}

/// `chooser_id` is to name the next answerer.
#[derive(Debug)]
pub struct ChooseAnswererState {
    pub old_answerer_id: Option<usize>,
    pub chooser_id: usize,
}

} // verus!
