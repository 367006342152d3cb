//! A tick-driven form of a game, played as the third round of
//! a show: every event is a tick that moves the game on and reports what
//! happened. Waiting for the answer is left to the caller: a question
//! arms the answer watch (`timer_armed`), an answer disarms it.

use std::collections::HashMap;

use vstd::prelude::*;

use crate::ws::game::{choose_id, key_list, Host};
use crate::ws::server::game::state::third_round::{
    AnswerState,
    AskQuestionState,
    ChooseAnswererState,
    ThirdRoundGameState,
};

pub mod event;
pub mod player;
pub mod state;

pub use crate::ws::server::game::player::Player;

verus! {

/// The round a tick-driven game is in.
#[derive(Debug)]
pub enum GameState {
    ThirdRound(ThirdRoundGameState),
}

/// A tick-driven game.
#[derive(Debug)]
pub struct Game {
    pub id: usize,
    pub players: HashMap<usize, Player>,
    pub host: Host,
    pub state: GameState,
    pub room: String,
    /// Whether an answer watch is running for the current question.
    pub timer_armed: bool,
}

/// The player whose turn it is in state `s`, if any.
pub open spec fn tick_answerer_of(s: GameState) -> Option<usize> {
    match s {
        GameState::ThirdRound(ThirdRoundGameState::AskQuestion(st)) => Some(st.answerer_id),
        GameState::ThirdRound(ThirdRoundGameState::Answer(st)) => Some(st.answerer_id),
        GameState::ThirdRound(ThirdRoundGameState::ChooseAnswerer(st)) => Some(st.chooser_id),
        _ => None,
    }
}

/// The player `p` after their answer was judged `is_valid`: ten points
/// for a valid answer, one chance less for an invalid one.
pub open spec fn tick_scored(p: Player, is_valid: bool) -> Player {
    if is_valid {
        Player { points: (p.points + 10) as usize, ..p }
    } else {
        let chances = (p.chances - 1) as usize;
        Player { chances, is_active: if chances == 0 { false } else { p.is_active }, ..p }
    }
}

impl Game {
    /// The answer of `answerer_id` can be scored: they are a player, and
    /// the score or the chances do not leave their range.
    pub open spec fn can_score(&self, is_valid: bool, answerer_id: usize) -> bool {
        &&& self.players@.contains_key(answerer_id)
        &&& is_valid ==> self.players@[answerer_id].points + 10 <= usize::MAX
        &&& !is_valid ==> self.players@[answerer_id].chances >= 1
    }

    /// `self` and `other` differ at most in their state and answer watch.
    pub open spec fn same_but_state(self, other: Game) -> bool {
        &&& self.id == other.id
        &&& self.players@ == other.players@
        &&& self.host == other.host
        &&& self.room == other.room
    }

    /// The player whose turn it is, if the state has one.
    pub fn get_answerer_id(&self) -> (res: Option<usize>)
        ensures
            res == tick_answerer_of(self.state),
    {
        match &self.state {
            GameState::ThirdRound(state) => match state {
                ThirdRoundGameState::AskQuestion(AskQuestionState { old_answerer_id: _, answerer_id })
                | ThirdRoundGameState::Answer(AnswerState { old_answerer_id: _, answerer_id, question: _ })
                | ThirdRoundGameState::ChooseAnswerer(
                    ChooseAnswererState { old_answerer_id: _, chooser_id: answerer_id },
                ) => Some(*answerer_id),
                _ => None,
            },
        }
    }

    /// One of the players, chosen at random.
    pub fn get_random_player_id(&self) -> (res: usize)
        requires
            self.players@.len() > 0,
        ensures
            self.players@.contains_key(res),
    {
        let ids = key_list(&self.players);
        proof {
            let k = self.players@.dom().choose();
            assert(self.players@.dom().contains(k));
            assert(ids@.to_set().contains(k));
        }
        let id = choose_id(&ids).unwrap();
        assert(ids@.to_set().contains(id));
        id
    }

    /// Scores the answer of `answerer_id`.
    pub fn handle_answer(&mut self, is_valid: bool, answerer_id: usize)
        requires
            old(self).can_score(is_valid, answerer_id),
        ensures
            final(self).players@ == old(self).players@.insert(
                answerer_id,
                tick_scored(old(self).players@[answerer_id], is_valid),
            ),
            final(self).id == old(self).id,
            final(self).host == old(self).host,
            final(self).state == old(self).state,
            final(self).room == old(self).room,
            final(self).timer_armed == old(self).timer_armed,
    {
        let mut player = *self.players.get(&answerer_id).unwrap();
        if is_valid {
            player.points = player.points + 10;
        } else {
            player.chances = player.chances - 1;
            if player.chances == 0 {
                player.is_active = false;
            }
        }
        self.players.insert(answerer_id, player);
    }
}

} // verus!
