use std::collections::HashMap;

use oot::ws::game::Host;
use oot::ws::server::game::event::{
    AnswerTimeout, AnswerValidated, AnswererChosen, AskedQuestion, GameTick, QuestionAnswered, Start, TickResult,
};
use oot::ws::server::game::state::third_round::{AnswerState, ThirdRoundGameState};
use oot::ws::server::game::{Game, GameState, Player};

fn game(players: &[usize]) -> Game {
    let mut map = HashMap::new();
    for id in players {
        map.insert(*id, Player { id: *id, points: 0, chances: 3, is_active: true });
    }
    Game {
        id: 1,
        players: map,
        host: Host { id: 9 },
        state: GameState::ThirdRound(ThirdRoundGameState::Start),
        room: "r".to_string(),
        timer_armed: false,
    }
}

#[test]
fn a_round_of_ticks() {
    let mut g = game(&[4]);
    assert!(matches!(g.tick(Start), TickResult::Started));
    assert_eq!(g.get_answerer_id(), Some(4));
    assert!(matches!(g.tick(AskedQuestion { contents: "q" }), TickResult::QuestionAsked(4)));
    assert!(g.timer_armed);
    match g.tick(QuestionAnswered { contents: "a".to_string() }) {
        TickResult::QuestionAnswered(id, answer, question) => {
            assert_eq!((id, answer.as_str(), question.as_str()), (4, "a", "q"));
        },
        _ => panic!("unexpected tick result"),
    }
    assert!(!g.timer_armed);
    assert_eq!(g.get_answerer_id(), None);
    assert!(matches!(g.tick(AnswerValidated { is_valid: true }), TickResult::AnswerValidated(true, 4)));
    assert_eq!(g.players.get(&4).unwrap().points, 10);
    assert_eq!(g.get_answerer_id(), Some(4));
    assert!(matches!(g.tick(AnswererChosen { answerer_id: 4 }), TickResult::AnswererChosen(4)));
    assert_eq!(g.get_answerer_id(), Some(4));
}

#[test]
fn a_tick_timeout_reasks_the_same_answerer() {
    let mut g = game(&[4, 5]);
    g.state = GameState::ThirdRound(ThirdRoundGameState::Answer(AnswerState { old_answerer_id: None, answerer_id: 4, question: "q".to_string() }));
    match g.tick(AnswerTimeout) {
        TickResult::AnswerTimeout(Some(drawn), state) => {
            assert!(drawn == 4 || drawn == 5);
            assert_eq!(state, "AskQuestion");
        },
        _ => panic!("unexpected tick result"),
    }
    assert_eq!(g.get_answerer_id(), Some(4));
    assert_eq!(g.players.get(&4).unwrap().chances, 2);
    assert!(matches!(g.tick(AnswerTimeout), TickResult::AnswerTimeout(None, ref s) if s.is_empty()));
}

#[test]
fn a_tick_timeout_after_a_round_goes_to_the_previous_answerer() {
    let mut g = game(&[4, 5]);
    g.state = GameState::ThirdRound(ThirdRoundGameState::Answer(AnswerState { old_answerer_id: Some(5), answerer_id: 4, question: "q".to_string() }));
    g.players.get_mut(&4).unwrap().chances = 1;
    assert!(matches!(g.tick(AnswerTimeout), TickResult::AnswerTimeout(Some(5), ref s) if s == "ChooseAnswerer"));
    assert_eq!(g.get_answerer_id(), Some(5));
    let p = g.players.get(&4).unwrap();
    assert_eq!(p.chances, 0);
    assert!(!p.is_active);
}
