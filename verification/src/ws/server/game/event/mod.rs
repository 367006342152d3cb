//! The events that move a tick-driven game on.

use vstd::prelude::*;

pub mod answer;
pub mod answer_timeout;
pub mod ask_question;
pub mod choose_answerer;
pub mod start;
pub mod validate_answer;

pub use answer::QuestionAnswered;
pub use answer_timeout::AnswerTimeout;
pub use ask_question::AskedQuestion;
pub use choose_answerer::AnswererChosen;
pub use start::Start;
pub use validate_answer::AnswerValidated;

verus! {

/// What a tick reports.
#[derive(Debug)]
pub enum TickResult {
    Started,
    QuestionAsked(usize),
    /// (answerer_id, answer, question)
    QuestionAnswered(usize, String, String),
    /// (is_valid, answerer_id)
    AnswerValidated(bool, usize),
    AnswererChosen(usize),
    /// (next answerer, name of the new state)
    AnswerTimeout(Option<usize>, String),
}

/// A game that an event of type `T` moves on.
pub trait GameTick<T>: Sized {
    /// The game can take `data` now.
    spec fn tick_ready(&self, data: T) -> bool;

    /// Taking `data` moved the game from `self` to `next`, reporting `res`.
    spec fn ticked(&self, data: T, next: Self, res: TickResult) -> bool;

    /// Moves the game on by `data`.
    fn tick(&mut self, data: T) -> (res: TickResult)
        requires
            old(self).tick_ready(data),
        ensures
            old(self).ticked(data, *final(self), res),
    ;
}

} // verus!
