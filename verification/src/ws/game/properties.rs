//! What holds of every move of a game, whatever message or timer caused it.

use vstd::prelude::*;

use crate::ws::game::message::answer::AnswerQuestion;
use crate::ws::game::message::ask_question::AskQuestion;
use crate::ws::game::message::choose_answerer::ChooseAnswerer;
use crate::ws::game::message::validate_answer::{scoring_notices, ValidateAnswer};
use crate::ws::game::message::{GameEffect, GameMessageResult};
use crate::ws::game::state::GameState;
use crate::ws::game::{answerer_of, Game, GameConfig};

verus! {

/// `post` is `pre` after one message or timer: a start, a question, an
/// answer, a verdict, a choice or a timeout.
pub open spec fn game_step(pre: Game, post: Game) -> bool {
    ||| exists|r: GameMessageResult| #[trigger] Game::start_spec(pre, post, r)
    ||| exists|m: AskQuestion, r: (GameMessageResult, Seq<GameEffect>)|
        #[trigger] Game::ask_question_spec(pre, post, m, r)
    ||| exists|m: AnswerQuestion, r: (GameMessageResult, Seq<GameEffect>)|
        #[trigger] Game::answer_spec(pre, post, m, r)
    ||| exists|m: ValidateAnswer, r: (GameMessageResult, Seq<GameEffect>)|
        #[trigger] Game::validate_answer_spec(pre, post, m, r) && pre.validate_ok(m)
    ||| exists|m: ChooseAnswerer, r: GameMessageResult|
        #[trigger] Game::choose_answerer_spec(pre, post, m, r)
    ||| pre.timeout_ok() && exists|e: Seq<GameEffect>| #[trigger] Game::timeout_spec(pre, post, e)
}

/// The moves of the game: start, question, answer, then the verdict or
/// the timeout hands the turn to a chooser or straight to the next
/// question, and a choice leads to the next question.
pub open spec fn follows(a: GameState, b: GameState) -> bool {
    match (a, b) {
        (GameState::Starting, GameState::AskQuestion(_)) => true,
        (GameState::AskQuestion(_), GameState::Answer(_)) => true,
        (GameState::Answer(_), GameState::ValidateAnswer(_)) => true,
        (GameState::Answer(_), GameState::ChooseAnswerer(_)) => true,
        (GameState::Answer(_), GameState::AskQuestion(_)) => true,
        (GameState::ValidateAnswer(_), GameState::ChooseAnswerer(_)) => true,
        (GameState::ValidateAnswer(_), GameState::AskQuestion(_)) => true,
        (GameState::ChooseAnswerer(_), GameState::AskQuestion(_)) => true,
        _ => false,
    }
}

/// Every move of a game that its handler admits stays on its cycle, keeps its id, Game Master,
/// room, rules and players; points never go down, chances never go up,
/// and a player out of chances stays out.
pub proof fn lemma_game_step(pre: Game, post: Game)
    requires
        game_step(pre, post),
    ensures
        post.state == pre.state || follows(pre.state, post.state),
        post.id == pre.id,
        post.host == pre.host,
        post.room == pre.room,
        post.config == pre.config,
        post.players@.dom() == pre.players@.dom(),
        forall|k: usize| #[trigger]
            pre.players@.contains_key(k) ==> {
                &&& post.players@[k].points >= pre.players@[k].points
                &&& post.players@[k].chances <= pre.players@[k].chances
                &&& !pre.players@[k].is_active && pre.wf() ==> !post.players@[k].is_active
            },
{
    if exists|r: GameMessageResult| #[trigger] Game::start_spec(pre, post, r) {
    } else if exists|m: AskQuestion, r: (GameMessageResult, Seq<GameEffect>)|
        #[trigger] Game::ask_question_spec(pre, post, m, r) {
    } else if exists|m: AnswerQuestion, r: (GameMessageResult, Seq<GameEffect>)|
        #[trigger] Game::answer_spec(pre, post, m, r) {
    } else if exists|m: ValidateAnswer, r: (GameMessageResult, Seq<GameEffect>)|
        #[trigger] Game::validate_answer_spec(pre, post, m, r) && pre.validate_ok(m) {
        let (m, r) = choose|m: ValidateAnswer, r: (GameMessageResult, Seq<GameEffect>)|
            #[trigger] Game::validate_answer_spec(pre, post, m, r) && pre.validate_ok(m);
        if m.host_id == pre.host.id {
            if let GameState::ValidateAnswer(s) = pre.state {
                assert(post.players@.dom() =~= pre.players@.dom());
            }
        }
    } else if exists|m: ChooseAnswerer, r: GameMessageResult|
        #[trigger] Game::choose_answerer_spec(pre, post, m, r) {
    } else {
        let e = choose|e: Seq<GameEffect>| #[trigger] Game::timeout_spec(pre, post, e);
        if let GameState::Answer(s) = pre.state {
            assert(post.players@.dom() =~= pre.players@.dom());
        }
    }
}

/// Only the Game Master asks: a question from anyone else is refused and
/// changes nothing.
pub proof fn lemma_only_the_host_asks(
    pre: Game,
    post: Game,
    msg: AskQuestion,
    r: (GameMessageResult, Seq<GameEffect>),
)
    requires
        Game::ask_question_spec(pre, post, msg, r),
        msg.host_id != pre.host.id,
    ensures
        r.0 is Err,
        r.1.len() == 0,
        post.state == pre.state,
        post.same_but_state(pre),
{
}

/// Only the Game Master judges: a verdict from anyone else is refused and
/// changes nothing.
pub proof fn lemma_only_the_host_judges(
    pre: Game,
    post: Game,
    msg: ValidateAnswer,
    r: (GameMessageResult, Seq<GameEffect>),
)
    requires
        Game::validate_answer_spec(pre, post, msg, r),
        msg.host_id != pre.host.id,
    ensures
        r.0 is Err,
        r.1.len() == 0,
        post.state == pre.state,
        post.same_but_state(pre),
{
}

/// Only the player whose turn it is answers: an answer from anyone else
/// is refused and changes nothing.
pub proof fn lemma_only_the_answerer_answers(
    pre: Game,
    post: Game,
    msg: AnswerQuestion,
    r: (GameMessageResult, Seq<GameEffect>),
)
    requires
        Game::answer_spec(pre, post, msg, r),
        answerer_of(pre.state) != Some(msg.answerer_id),
    ensures
        r.0 is Err,
        r.1.len() == 0,
        post.state == pre.state,
        post.same_but_state(pre),
{
}

/// Only the player whose turn it is chooses: a choice from anyone else is
/// refused and changes nothing.
pub proof fn lemma_only_the_answerer_chooses(
    pre: Game,
    post: Game,
    msg: ChooseAnswerer,
    r: GameMessageResult,
)
    requires
        Game::choose_answerer_spec(pre, post, msg, r),
        answerer_of(pre.state) != Some(msg.chooser_id),
    ensures
        r is Err,
        post.state == pre.state,
        post.same_but_state(pre),
{
}

/// A refused message changes nothing and asks for nothing: whatever the
/// message, if the game answers with an error, it stays as it was.
pub proof fn lemma_refusal_changes_nothing(pre: Game, post: Game)
    ensures
        forall|m: AskQuestion, r: (GameMessageResult, Seq<GameEffect>)|
            #[trigger] Game::ask_question_spec(pre, post, m, r) && r.0 is Err ==> {
                &&& post.state == pre.state
                &&& post.same_but_state(pre)
                &&& r.1.len() == 0
            },
        forall|m: AnswerQuestion, r: (GameMessageResult, Seq<GameEffect>)|
            #[trigger] Game::answer_spec(pre, post, m, r) && r.0 is Err ==> {
                &&& post.state == pre.state
                &&& post.same_but_state(pre)
                &&& r.1.len() == 0
            },
        forall|m: ValidateAnswer, r: (GameMessageResult, Seq<GameEffect>)|
            #[trigger] Game::validate_answer_spec(pre, post, m, r) && r.0 is Err ==> {
                &&& post.state == pre.state
                &&& post.same_but_state(pre)
                &&& r.1.len() == 0
            },
        forall|m: ChooseAnswerer, r: GameMessageResult|
            #[trigger] Game::choose_answerer_spec(pre, post, m, r) && r is Err ==> {
                &&& post.state == pre.state
                &&& post.same_but_state(pre)
            },
        forall|r: GameMessageResult|
            #[trigger] Game::start_spec(pre, post, r) && r is Err ==> {
                &&& post.state == pre.state
                &&& post.same_but_state(pre)
            },
{
    assert forall|m: ValidateAnswer, r: (GameMessageResult, Seq<GameEffect>)|
        #[trigger] Game::validate_answer_spec(pre, post, m, r) && r.0 is Err implies {
            &&& post.state == pre.state
            &&& post.same_but_state(pre)
            &&& r.1.len() == 0
        } by {
        if m.host_id == pre.host.id {
            if let GameState::ValidateAnswer(s) = pre.state {
                assert(r.0 is Ok);
            }
        }
    }
}

/// A player's loss is announced exactly when the verdict takes their last
/// chance.
pub proof fn lemma_loss_is_announced_on_the_last_chance(
    pre: Game,
    post: Game,
    msg: ValidateAnswer,
    r: (GameMessageResult, Seq<GameEffect>),
)
    requires
        pre.wf(),
        pre.validate_ok(msg),
        Game::validate_answer_spec(pre, post, msg, r),
        msg.host_id == pre.host.id,
        pre.state is ValidateAnswer,
    ensures
        ({
            let a = pre.state->ValidateAnswer_0.answerer_id;
            &&& (exists|j: int| 0 <= j < r.1.len() && #[trigger] r.1[j] is PlayerLost)
                <==> (post.players@[a].chances == 0 && pre.players@[a].chances > 0)
            &&& post.players@[a].chances == 0 ==> !post.players@[a].is_active
        }),
{
    let a = pre.state->ValidateAnswer_0.answerer_id;
    assert(r.1 == scoring_notices(pre, msg.is_valid, a));
    if !msg.is_valid && pre.players@[a].chances == 1 {
        assert(r.1[0] is PlayerLost);
    }
}

} // verus!

verus! {

/// How a verdict scores the judged answerer `a` of `pre`, giving `post`: a
/// valid answer adds exactly the reward to their points, whatever they had,
/// and keeps their chances; an invalid one takes exactly one chance and
/// keeps their points; they stay in the game exactly while they have
/// chances left, and every other player is untouched.
pub open spec fn scored_as(pre: Game, post: Game, a: usize, is_valid: bool) -> bool {
    let before = pre.players@[a];
    let after = post.players@[a];
    &&& post.players@.dom() == pre.players@.dom()
    &&& after.session_id == a
    &&& is_valid ==> after.points == before.points + pre.config.valid_answer_reward
        && after.chances == before.chances
    &&& !is_valid ==> after.points == before.points && after.chances == before.chances - 1
    &&& after.is_active <==> after.chances > 0
    &&& forall|k: usize| k != a && #[trigger] pre.players@.contains_key(k) ==> post.players@[k]
        == pre.players@[k]
}

/// A verdict of the Game Master on a given answer scores its answerer: a
/// valid answer adds exactly the reward (ten points) to their points,
/// whatever they had before, and an invalid one costs exactly one chance.
pub proof fn lemma_verdict_scores_the_answerer(
    pre: Game,
    post: Game,
    msg: ValidateAnswer,
    res: (GameMessageResult, Seq<GameEffect>),
)
    requires
        pre.wf(),
        pre.validate_ok(msg),
        Game::validate_answer_spec(pre, post, msg, res),
        msg.host_id == pre.host.id,
        pre.state is ValidateAnswer,
    ensures
        scored_as(pre, post, pre.state->ValidateAnswer_0.answerer_id, msg.is_valid),
        msg.is_valid && pre.config == GameConfig::spec_default() ==> post.players@[pre.state->ValidateAnswer_0.answerer_id].points
            == pre.players@[pre.state->ValidateAnswer_0.answerer_id].points + 10,
{
    let a = pre.state->ValidateAnswer_0.answerer_id;
    assert(post.players@.dom() =~= pre.players@.dom());
}

/// An answer that did not come in time costs the answerer exactly one
/// chance and nothing else; every other player is untouched.
pub proof fn lemma_timeout_costs_a_chance(pre: Game, post: Game, effects: Seq<GameEffect>)
    requires
        pre.wf(),
        pre.timeout_ok(),
        Game::timeout_spec(pre, post, effects),
        pre.state is Answer,
    ensures
        scored_as(pre, post, pre.state->Answer_0.answerer_id, false),
{
    assert(post.players@.dom() =~= pre.players@.dom());
}

} // verus!
