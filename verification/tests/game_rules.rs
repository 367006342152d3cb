use std::collections::HashSet;

use oot::ws::game::message::answer::AnswerQuestion;
use oot::ws::game::message::ask_question::AskQuestion;
use oot::ws::game::message::choose_answerer::ChooseAnswerer;
use oot::ws::game::message::start::Start;
use oot::ws::game::message::validate_answer::ValidateAnswer;
use oot::ws::game::message::{GameEffect, GameMessageError, GameMessageResponse};
use oot::ws::game::state::{AnswerState, AskQuestionState, ChooseAnswererState, GameState, ValidateAnswerState};
use oot::ws::game::{Game, GameConfig};

fn ids(v: &[usize]) -> HashSet<usize> {
    v.iter().copied().collect()
}

/// A started game with one player, so that the random draw is known.
fn started_single(host: usize, player: usize) -> Game {
    let mut g = Game::new(7, "room", &ids(&[player]), host);
    assert!(matches!(g.handle_start(Start), Ok(GameMessageResponse::Started)));
    g
}

fn answerer(g: &Game) -> Option<usize> {
    g.get_answerer_id()
}

#[test]
fn default_config_matches_the_readme() {
    let c = GameConfig::default();
    assert_eq!(c.timeout_secs, 5);
    assert_eq!(c.init_chances, 3);
    assert_eq!(c.valid_answer_reward, 10);
}

#[test]
fn new_game_has_fresh_players() {
    let g = Game::new(3, "r", &ids(&[1, 2, 5]), 9);
    assert_eq!(g.id, 3);
    assert_eq!(g.room, "r");
    assert_eq!(g.host.id, 9);
    assert!(matches!(g.state, GameState::Starting));
    assert_eq!(g.players.len(), 3);
    for id in [1usize, 2, 5] {
        let p = g.players.get(&id).unwrap();
        assert_eq!(p.session_id, id);
        assert_eq!(p.points, 0);
        assert_eq!(p.chances, 3);
        assert!(p.is_active);
    }
    assert_eq!(g.get_answerer_id(), None);
}

#[test]
fn start_draws_a_player() {
    for _ in 0..20 {
        let mut g = Game::new(1, "r", &ids(&[4, 6, 8]), 1);
        assert!(matches!(g.handle_start(Start), Ok(GameMessageResponse::Started)));
        match &g.state {
            GameState::AskQuestion(s) => {
                assert!(s.previous_answerer_id.is_none());
                assert!([4usize, 6, 8].contains(&s.answerer_id));
            },
            other => panic!("unexpected state {:?}", other),
        }
    }
}

#[test]
fn start_twice_is_refused_with_the_state_text() {
    let mut g = started_single(1, 2);
    let err = g.handle_start(Start).unwrap_err();
    assert_eq!(
        err.message,
        "Received Start message, but the game state is AskQuestion(AskQuestionState { previous_answerer_id: None, answerer_id: 2 })"
    );
    assert_eq!(err.game_id, 7);
    assert!(matches!(err.game_state, Some(GameState::AskQuestion(AskQuestionState { previous_answerer_id: None, answerer_id: 2 }))));
}

#[test]
fn state_text_is_the_debug_text() {
    let states = vec![
        GameState::Starting,
        GameState::AskQuestion(AskQuestionState { previous_answerer_id: Some(3), answerer_id: 12 }),
        GameState::Answer(AnswerState { previous_answerer_id: None, answerer_id: 0, question: "Who \"are\" you?\n".to_string() }),
        GameState::ValidateAnswer(ValidateAnswerState { previous_answerer_id: Some(1), answerer_id: 2, answer: "żółw".to_string() }),
        GameState::ChooseAnswerer(ChooseAnswererState { previous_answerer_id: Some(4), chooser_id: 4 }),
        GameState::_Finished,
    ];
    for s in states {
        assert_eq!(s.debug_text(), format!("{:?}", s));
    }
}

#[test]
fn only_the_host_asks() {
    let mut g = started_single(1, 2);
    let (res, effects) = g.handle_ask_question(AskQuestion { contents: "q".to_string(), host_id: 2 });
    let err = res.unwrap_err();
    assert_eq!(err.message, "AskQuestion message error: given user (2) is not the host (1)");
    assert!(effects.is_empty());
    assert!(matches!(g.state, GameState::AskQuestion(AskQuestionState { answerer_id: 2, .. })));
}

#[test]
fn asking_starts_the_answer_timer() {
    let mut g = started_single(1, 2);
    let (res, effects) = g.handle_ask_question(AskQuestion { contents: "2+2?".to_string(), host_id: 1 });
    assert!(matches!(res, Ok(GameMessageResponse::QuestionAsked(2))));
    assert_eq!(effects.len(), 1);
    assert!(matches!(effects[0], GameEffect::StartAnswerTimer(5)));
    match &g.state {
        GameState::Answer(s) => {
            assert_eq!(s.answerer_id, 2);
            assert_eq!(s.question, "2+2?");
            assert_eq!(s.previous_answerer_id, None);
        },
        other => panic!("unexpected state {:?}", other),
    }
}

#[test]
fn asking_in_the_wrong_state_is_refused() {
    let mut g = Game::new(1, "r", &ids(&[2]), 1);
    let (res, effects) = g.handle_ask_question(AskQuestion { contents: "q".to_string(), host_id: 1 });
    assert_eq!(res.unwrap_err().message, "Received AskQuestion message, but the game state is Starting");
    assert!(effects.is_empty());
    assert!(matches!(g.state, GameState::Starting));
}

#[test]
fn only_the_answerer_answers() {
    let mut g = started_single(1, 2);
    let _ = g.handle_ask_question(AskQuestion { contents: "q".to_string(), host_id: 1 });
    let (res, effects) = g.handle_answer_question(AnswerQuestion { contents: "a".to_string(), answerer_id: 3 });
    assert_eq!(res.unwrap_err().message, "AnswerQuestion message error: given user (3) is not the answerer");
    assert!(effects.is_empty());
    let mut fresh = Game::new(1, "r", &ids(&[2]), 1);
    let (res, _) = fresh.handle_answer_question(AnswerQuestion { contents: "a".to_string(), answerer_id: 2 });
    assert_eq!(res.unwrap_err().message, "AnswerQuestion message error: there is no answerer set in the game");
}

#[test]
fn answering_stops_the_timer_and_awaits_the_verdict() {
    let mut g = started_single(1, 2);
    let _ = g.handle_ask_question(AskQuestion { contents: "capital of France?".to_string(), host_id: 1 });
    let (res, effects) = g.handle_answer_question(AnswerQuestion { contents: "Paris".to_string(), answerer_id: 2 });
    match res {
        Ok(GameMessageResponse::QuestionAnswered(a, answer, question)) => {
            assert_eq!(a, 2);
            assert_eq!(answer, "Paris");
            assert_eq!(question, "capital of France?");
        },
        other => panic!("unexpected {:?}", other),
    }
    assert!(matches!(effects.as_slice(), [GameEffect::CancelAnswerTimer]));
    match &g.state {
        GameState::ValidateAnswer(s) => {
            assert_eq!(s.answerer_id, 2);
            assert_eq!(s.answer, "Paris");
        },
        other => panic!("unexpected state {:?}", other),
    }
}

#[test]
fn answering_too_early_is_refused() {
    let mut g = started_single(1, 2);
    let (res, _) = g.handle_answer_question(AnswerQuestion { contents: "a".to_string(), answerer_id: 2 });
    assert_eq!(
        res.unwrap_err().message,
        "Received AnswerQuestion message, but the game state is AskQuestion(AskQuestionState { previous_answerer_id: None, answerer_id: 2 })"
    );
}

fn answered(g: &mut Game, answerer_id: usize) {
    let _ = g.handle_ask_question(AskQuestion { contents: "q".to_string(), host_id: 1 });
    let (res, _) = g.handle_answer_question(AnswerQuestion { contents: "a".to_string(), answerer_id });
    assert!(res.is_ok());
}

#[test]
fn a_valid_answer_scores_and_lets_the_answerer_choose() {
    let mut g = started_single(1, 2);
    answered(&mut g, 2);
    let (res, effects) = g.handle_validate_answer(ValidateAnswer { is_valid: true, host_id: 1 });
    assert!(matches!(res, Ok(GameMessageResponse::AnswerValidated(2, true))));
    assert!(effects.is_empty());
    assert_eq!(g.players.get(&2).unwrap().points, 10);
    assert_eq!(g.players.get(&2).unwrap().chances, 3);
    assert!(matches!(g.state, GameState::ChooseAnswerer(ChooseAnswererState { previous_answerer_id: Some(2), chooser_id: 2 })));
    assert_eq!(answerer(&g), Some(2));
}

#[test]
fn only_the_host_validates() {
    let mut g = started_single(1, 2);
    answered(&mut g, 2);
    let (res, _) = g.handle_validate_answer(ValidateAnswer { is_valid: true, host_id: 2 });
    assert_eq!(res.unwrap_err().message, "ValidateAnswer message error: given user (2) is not the host (1)");
    assert_eq!(g.players.get(&2).unwrap().points, 0);
    assert!(matches!(g.state, GameState::ValidateAnswer(_)));
}

#[test]
fn choosing_hands_the_turn_on() {
    let mut g = Game::new(1, "r", &ids(&[2, 3]), 1);
    g.state = GameState::ChooseAnswerer(ChooseAnswererState { previous_answerer_id: Some(2), chooser_id: 2 });
    let res = g.handle_choose_answerer(ChooseAnswerer { new_answerer_id: 3, chooser_id: 3 });
    assert_eq!(res.unwrap_err().message, "ChooseAnswerer message error: given user (3) is not the answerer");
    let res = g.handle_choose_answerer(ChooseAnswerer { new_answerer_id: 3, chooser_id: 2 });
    assert!(matches!(res, Ok(GameMessageResponse::AnswererChosen(3))));
    assert!(matches!(g.state, GameState::AskQuestion(AskQuestionState { previous_answerer_id: Some(2), answerer_id: 3 })));
    let res = g.handle_choose_answerer(ChooseAnswerer { new_answerer_id: 2, chooser_id: 3 });
    assert_eq!(
        res.unwrap_err().message,
        "Received ChooseAnswerer message, but the game state is AskQuestion(AskQuestionState { previous_answerer_id: Some(2), answerer_id: 3 })"
    );
}

#[test]
fn an_invalid_answer_returns_the_choice_to_the_previous_answerer() {
    let mut g = Game::new(1, "r", &ids(&[2, 3]), 1);
    g.state = GameState::ValidateAnswer(ValidateAnswerState { previous_answerer_id: Some(2), answerer_id: 3, answer: "x".to_string() });
    let (res, effects) = g.handle_validate_answer(ValidateAnswer { is_valid: false, host_id: 1 });
    assert!(matches!(res, Ok(GameMessageResponse::AnswerValidated(3, false))));
    assert!(effects.is_empty());
    assert_eq!(g.players.get(&3).unwrap().chances, 2);
    assert!(g.players.get(&3).unwrap().is_active);
    assert!(matches!(g.state, GameState::ChooseAnswerer(ChooseAnswererState { previous_answerer_id: Some(3), chooser_id: 2 })));
}

#[test]
fn an_invalid_first_answer_draws_a_new_answerer() {
    let mut g = started_single(1, 2);
    answered(&mut g, 2);
    let (res, effects) = g.handle_validate_answer(ValidateAnswer { is_valid: false, host_id: 1 });
    assert!(matches!(res, Ok(GameMessageResponse::AnswerValidated(2, false))));
    assert!(effects.is_empty());
    assert!(matches!(g.state, GameState::AskQuestion(AskQuestionState { previous_answerer_id: None, answerer_id: 2 })));
    assert_eq!(g.players.get(&2).unwrap().chances, 2);
}

#[test]
fn the_last_chance_loses_the_player() {
    let mut g = started_single(1, 2);
    for round in 0..3 {
        answered(&mut g, 2);
        let (res, effects) = g.handle_validate_answer(ValidateAnswer { is_valid: false, host_id: 1 });
        assert!(res.is_ok());
        if round < 2 {
            assert!(effects.is_empty());
        } else {
            match effects.as_slice() {
                [GameEffect::PlayerLost(p)] => {
                    assert_eq!(p.player_id, 2);
                    assert_eq!(p.game_id, 7);
                    assert_eq!(p.points, 0);
                },
                other => panic!("unexpected {:?}", other),
            }
        }
    }
    let p = g.players.get(&2).unwrap();
    assert_eq!(p.chances, 0);
    assert!(!p.is_active);
}

#[test]
fn a_timeout_costs_a_chance_and_is_announced() {
    let mut g = Game::new(4, "r", &ids(&[2, 3]), 1);
    g.state = GameState::Answer(AnswerState { previous_answerer_id: Some(2), answerer_id: 3, question: "q".to_string() });
    let effects = g.handle_timeout();
    assert_eq!(g.players.get(&3).unwrap().chances, 2);
    assert!(matches!(g.state, GameState::ChooseAnswerer(ChooseAnswererState { previous_answerer_id: Some(2), chooser_id: 2 })));
    match effects.as_slice() {
        [GameEffect::AnswerTimedOut(t)] => {
            assert_eq!(t.game_id, 4);
            assert_eq!(t.new_state, "ChooseAnswerer");
        },
        other => panic!("unexpected {:?}", other),
    }
    let mut first = Game::new(4, "r", &ids(&[3]), 1);
    first.state = GameState::Answer(AnswerState { previous_answerer_id: None, answerer_id: 3, question: "q".to_string() });
    let effects = first.handle_timeout();
    assert!(matches!(first.state, GameState::AskQuestion(AskQuestionState { previous_answerer_id: None, answerer_id: 3 })));
    assert!(matches!(effects.as_slice(), [GameEffect::AnswerTimedOut(t)] if t.new_state == "AskQuestion"));
}

#[test]
fn a_late_timeout_changes_nothing() {
    let mut g = started_single(1, 2);
    let effects = g.handle_timeout();
    assert!(effects.is_empty());
    assert!(matches!(g.state, GameState::AskQuestion(_)));
    assert_eq!(g.players.get(&2).unwrap().chances, 3);
}

#[test]
fn a_timeout_on_the_last_chance_loses_the_player_first() {
    let mut g = Game::new(4, "r", &ids(&[3]), 1);
    g.players.get_mut(&3).unwrap().chances = 1;
    g.players.get_mut(&3).unwrap().points = 20;
    g.state = GameState::Answer(AnswerState { previous_answerer_id: Some(3), answerer_id: 3, question: "q".to_string() });
    let effects = g.handle_timeout();
    match effects.as_slice() {
        [GameEffect::PlayerLost(p), GameEffect::AnswerTimedOut(t)] => {
            assert_eq!((p.player_id, p.game_id, p.points), (3, 4, 20));
            assert_eq!(t.new_state, "ChooseAnswerer");
        },
        other => panic!("unexpected {:?}", other),
    }
}

#[test]
fn error_constructors_keep_their_fields() {
    let e = GameMessageError::new("Invalid game_id", 12);
    assert_eq!(e.message, "Invalid game_id");
    assert_eq!(e.game_id, 12);
    assert!(e.game_state.is_none());
    let e = GameMessageError::with_state("m", 3, GameState::Starting);
    assert_eq!(e.message, "m");
    assert!(matches!(e.game_state, Some(GameState::Starting)));
}

#[test]
fn an_invalid_first_answer_reports_the_judged_answerer() {
    for _ in 0..20 {
        let mut g = Game::new(1, "r", &ids(&[2, 3, 4]), 1);
        g.state = GameState::ValidateAnswer(ValidateAnswerState { previous_answerer_id: None, answerer_id: 3, answer: "x".to_string() });
        let (res, effects) = g.handle_validate_answer(ValidateAnswer { is_valid: false, host_id: 1 });
        assert!(matches!(res, Ok(GameMessageResponse::AnswerValidated(3, false))));
        assert!(effects.is_empty());
        assert_eq!(g.players.get(&3).unwrap().chances, 2);
        match g.state {
            GameState::AskQuestion(AskQuestionState { previous_answerer_id: None, answerer_id }) => {
                assert!([2, 3, 4].contains(&answerer_id))
            }
            _ => panic!("expected a new question"),
        }
    }
}

#[test]
fn error_texts() {
    assert_eq!(GameMessageError::new("Invalid game_id", 7).to_string(), "game_id: 7, game_state: None: Invalid game_id");
    assert_eq!(
        GameMessageError::with_state("m", 3, GameState::Starting).to_string(),
        "game_id: 3, game_state: Some(Starting): m"
    );
    let st = GameState::AskQuestion(AskQuestionState { previous_answerer_id: Some(1), answerer_id: 2 });
    let e = GameMessageError::with_state("bad", 12, st);
    assert_eq!(
        e.to_string(),
        "game_id: 12, game_state: Some(AskQuestion(AskQuestionState { previous_answerer_id: Some(1), answerer_id: 2 })): bad"
    );
}
