//! Messages about games that the server handles.

pub mod answer;
pub mod answer_timeout;
pub mod ask_question;
pub mod choose_answerer;
pub mod create_game;
pub mod player_lost;
pub mod validate_answer;
