use std::collections::HashSet;

use oot::ws::error::WsError;

use oot::ws::game::state::GameState;
use oot::ws::server::command::disconnect::Disconnect;
use oot::ws::server::message::chat_message::ChatMessage;
use oot::ws::server::message::game_message::answer::AnswerQuestion;
use oot::ws::server::message::game_message::ask_question::AskQuestion;
use oot::ws::server::message::game_message::choose_answerer::ChooseAnswerer;
use oot::ws::server::message::game_message::create_game::CreateGame;
use oot::ws::server::message::game_message::validate_answer::ValidateAnswer;
use oot::ws::server::message::join::JoinRoom;
use oot::ws::server::message::server_message::ResponseStatus;
use oot::ws::server::{GameServer, Outgoing, Payload, TimerAction};

fn receivers(o: &Outgoing) -> HashSet<usize> {
    o.receivers.iter().copied().collect()
}

fn set(v: &[usize]) -> HashSet<usize> {
    v.iter().copied().collect()
}

fn join(s: &mut GameServer, id: usize, room: &str) -> Vec<Outgoing> {
    s.handle_join_room(JoinRoom { session_id: id, room: room.to_string() }).outgoing
}

/// A server with sessions 1..=n, all in room "r".
fn server_with(n: usize) -> GameServer {
    let mut s = GameServer::default();
    for i in 1..=n {
        let r = s.handle_connect(format!("user{}", i));
        assert_eq!(r.connected_id, i);
        join(&mut s, i, "r");
    }
    s
}

fn create(s: &mut GameServer, session: usize, room: &str, players: &[usize], host: usize) -> Vec<Outgoing> {
    let reply = s.handle_create_game(CreateGame {
        session_id: session,
        room: room.to_string(),
        players: set(players),
        host,
    });
    assert!(reply.timers.is_empty());
    reply.outgoing
}

#[test]
fn sessions_get_increasing_ids() {
    let mut s = GameServer::default();
    let a = s.handle_connect("a".to_string()).connected_id;
    let b = s.handle_connect("b".to_string()).connected_id;
    let c = s.handle_connect("c".to_string()).connected_id;
    assert_eq!((a, b, c), (1, 2, 3));
    assert_eq!(s.sessions.get(&2).unwrap().name, "b");
    assert!(s.sessions.get(&2).unwrap().rooms.is_empty());
}

#[test]
fn joining_creates_the_room_and_tells_everyone_in_it() {
    let mut s = GameServer::default();
    s.handle_connect("a".to_string());
    s.handle_connect("b".to_string());
    let out = join(&mut s, 1, "lobby");
    assert_eq!(out.len(), 1);
    assert_eq!(receivers(&out[0]), set(&[1]));
    assert_eq!(out[0].status, ResponseStatus::Success);
    assert!(matches!(&out[0].payload, Payload::RoomJoined(r) if r.joined_id == 1 && r.room == "lobby"));
    let out = join(&mut s, 2, "lobby");
    assert_eq!(receivers(&out[0]), set(&[1, 2]));
    assert_eq!(s.rooms.len(), 1);
    assert_eq!(s.rooms[0].0, "lobby");
    assert_eq!(s.rooms[0].1.members, set(&[1, 2]));
}

#[test]
fn joining_twice_or_unconnected_changes_nothing() {
    let mut s = server_with(1);
    assert!(join(&mut s, 1, "r").is_empty());
    assert!(join(&mut s, 5, "r").is_empty());
    assert_eq!(s.rooms.len(), 1);
    assert_eq!(s.rooms[0].1.members, set(&[1]));
}

#[test]
fn chat_goes_to_the_other_members() {
    let mut s = server_with(3);
    s.handle_connect("outsider".to_string());
    let reply = s.handle_chat_message(ChatMessage { session_id: 2, room: "r".to_string(), game_id: 0, contents: "hi".to_string() });
    assert_eq!(reply.outgoing.len(), 1);
    assert_eq!(receivers(&reply.outgoing[0]), set(&[1, 3]));
    assert!(matches!(&reply.outgoing[0].payload, Payload::Chat(c) if c.sender_id == 2 && c.message == "hi" && c.room == "r"));
    let reply = s.handle_chat_message(ChatMessage { session_id: 4, room: "r".to_string(), game_id: 0, contents: "hi".to_string() });
    assert!(reply.outgoing.is_empty());
}

#[test]
fn create_game_refusals() {
    let mut s = server_with(3);
    s.handle_connect("outsider".to_string());
    let out = create(&mut s, 1, "nowhere", &[2], 1);
    assert_eq!(out[0].status, ResponseStatus::Failure);
    assert_eq!(receivers(&out[0]), set(&[1]));
    assert!(matches!(&out[0].payload, Payload::Error(e) if e.message == "Invalid room name nowhere"));
    let out = create(&mut s, 4, "r", &[2], 1);
    assert_eq!(receivers(&out[0]), set(&[4]));
    assert!(matches!(&out[0].payload, Payload::Error(e) if e.message == "Sender (4) is not in the room r"));
    let out = create(&mut s, 4, "r", &[2], 9);
    assert!(matches!(&out[0].payload, Payload::Error(e) if e.message == "Host (9) is not in the room r"));
    let out = create(&mut s, 4, "r", &[2, 9], 1);
    assert!(matches!(&out[0].payload, Payload::Error(e) if e.message == "Some of given players do not belong to the room r"));
    let out = create(&mut s, 1, "r", &[2], 4);
    assert!(matches!(&out[0].payload, Payload::Error(e) if e.message == "Host (4) is not in the room r"));
    let out = create(&mut s, 1, "r", &[2, 4], 1);
    assert!(matches!(&out[0].payload, Payload::Error(e) if e.message == "Some of given players do not belong to the room r"));
    let out = create(&mut s, 1, "r", &[1, 2], 1);
    assert!(matches!(&out[0].payload, Payload::Error(e) if e.message == "Host (1) cannot be one of the players"));
    assert_eq!(s.game_counter, 0);
    assert!(s.games.is_empty());
}

#[test]
fn create_game_refusal_is_known_beforehand() {
    let s = server_with(3);
    let msg = |room: &str, players: &[usize], host: usize| CreateGame {
        session_id: 1,
        room: room.to_string(),
        players: set(players),
        host,
    };
    assert_eq!(s.refusal_of_create_game(&msg("nowhere", &[2], 1)), Some("Invalid room name nowhere".to_string()));
    assert_eq!(s.refusal_of_create_game(&msg("r", &[2], 9)), Some("Host (9) is not in the room r".to_string()));
    let outside = CreateGame { session_id: 8, room: "r".to_string(), players: set(&[2]), host: 1 };
    assert_eq!(s.refusal_of_create_game(&outside), Some("Sender (8) is not in the room r".to_string()));
    assert_eq!(
        s.refusal_of_create_game(&msg("r", &[2, 9], 1)),
        Some("Some of given players do not belong to the room r".to_string())
    );
    assert_eq!(s.refusal_of_create_game(&msg("r", &[1, 2], 1)), Some("Host (1) cannot be one of the players".to_string()));
    assert_eq!(s.refusal_of_create_game(&msg("r", &[2, 3], 1)), None);
}

#[test]
fn a_created_game_is_started_and_announced() {
    let mut s = server_with(3);
    let out = create(&mut s, 3, "r", &[2, 3], 1);
    assert_eq!(out.len(), 1);
    assert_eq!(receivers(&out[0]), set(&[1, 2, 3]));
    match &out[0].payload {
        Payload::GameCreated(g) => {
            assert_eq!(g.game_id, 1);
            assert_eq!(g.room, "r");
            assert_eq!(g.players, set(&[2, 3]));
            assert_eq!(g.host, 1);
        },
        other => panic!("unexpected {:?}", other),
    }
    let game = s.games.get(&1).unwrap();
    assert!(matches!(&game.state, GameState::AskQuestion(a) if a.previous_answerer_id.is_none() && (a.answerer_id == 2 || a.answerer_id == 3)));
    assert!(s.rooms[0].1.game_ids.contains(&1));
    let out = create(&mut s, 3, "r", &[2], 1);
    assert!(matches!(&out[0].payload, Payload::GameCreated(g) if g.game_id == 2));
}

#[test]
fn unknown_games_are_reported_to_the_sender() {
    let mut s = server_with(2);
    let reply = s.handle_ask_question(AskQuestion { session_id: 1, game_id: 9, room: "r".to_string(), contents: "q".to_string() });
    assert_eq!(reply.outgoing.len(), 1);
    assert_eq!(reply.outgoing[0].status, ResponseStatus::Failure);
    assert_eq!(receivers(&reply.outgoing[0]), set(&[1]));
    assert!(matches!(&reply.outgoing[0].payload, Payload::GameError(e) if e.message == "Invalid game_id" && e.game_id == 9 && e.game_state.is_none()));
}

#[test]
fn a_full_round_through_the_server() {
    let mut s = server_with(3);
    create(&mut s, 1, "r", &[2], 1);
    // a player may not ask
    let reply = s.handle_ask_question(AskQuestion { session_id: 2, game_id: 1, room: "r".to_string(), contents: "q".to_string() });
    assert_eq!(reply.outgoing[0].status, ResponseStatus::Failure);
    assert_eq!(receivers(&reply.outgoing[0]), set(&[2]));
    assert!(reply.timers.is_empty());
    // the host asks
    let reply = s.handle_ask_question(AskQuestion { session_id: 1, game_id: 1, room: "r".to_string(), contents: "2+2?".to_string() });
    assert_eq!(receivers(&reply.outgoing[0]), set(&[1, 2, 3]));
    assert!(matches!(&reply.outgoing[0].payload, Payload::QuestionAsked(q) if q.question == "2+2?" && q.answerer_id == 2));
    assert!(matches!(reply.timers.as_slice(), [TimerAction::Start { game_id: 1, secs: 5 }]));
    // the answerer answers; the others hear it
    let reply = s.handle_answer_question(AnswerQuestion { session_id: 2, game_id: 1, room: "r".to_string(), contents: "4".to_string() });
    assert_eq!(receivers(&reply.outgoing[0]), set(&[1, 3]));
    assert!(matches!(&reply.outgoing[0].payload, Payload::QuestionAnswered(a) if a.answerer_id == 2 && a.answer == "4" && a.question == "2+2?"));
    assert!(matches!(reply.timers.as_slice(), [TimerAction::Cancel { game_id: 1 }]));
    // the host validates
    let reply = s.handle_validate_answer(ValidateAnswer { session_id: 1, game_id: 1, room: "r".to_string(), is_answer_valid: true });
    assert!(matches!(&reply.outgoing[0].payload, Payload::AnswerValidated(v) if v.answerer_id == 2 && v.is_answer_valid));
    assert_eq!(s.games.get(&1).unwrap().players.get(&2).unwrap().points, 10);
    // the answerer chooses
    let reply = s.handle_choose_answerer(ChooseAnswerer { session_id: 2, game_id: 1, room: "r".to_string(), new_answerer_id: 2 });
    assert!(matches!(&reply.outgoing[0].payload, Payload::AnswererChosen(c) if c.previous_answerer_id == 2 && c.new_answerer_id == 2));
    assert!(matches!(&s.games.get(&1).unwrap().state, GameState::AskQuestion(a) if a.answerer_id == 2 && a.previous_answerer_id == Some(2)));
}

#[test]
fn timeouts_through_the_server() {
    let mut s = server_with(2);
    create(&mut s, 1, "r", &[2], 1);
    s.handle_ask_question(AskQuestion { session_id: 1, game_id: 1, room: "r".to_string(), contents: "q".to_string() });
    let reply = s.handle_answer_timeout(1);
    assert!(reply.timers.is_empty());
    assert_eq!(reply.outgoing.len(), 1);
    assert_eq!(receivers(&reply.outgoing[0]), set(&[1, 2]));
    assert!(matches!(&reply.outgoing[0].payload, Payload::AnswerTimedOut(t) if t.game_id == 1 && t.new_state == "AskQuestion"));
    assert_eq!(s.games.get(&1).unwrap().players.get(&2).unwrap().chances, 2);
    // a timer of a game that moved on changes nothing
    let reply = s.handle_answer_timeout(1);
    assert!(reply.outgoing.is_empty());
    let reply = s.handle_answer_timeout(42);
    assert!(reply.outgoing.is_empty());
}

#[test]
fn losing_the_last_chance_is_announced_after_the_verdict() {
    let mut s = server_with(2);
    create(&mut s, 1, "r", &[2], 1);
    for round in 0..3 {
        s.handle_ask_question(AskQuestion { session_id: 1, game_id: 1, room: "r".to_string(), contents: "q".to_string() });
        s.handle_answer_question(AnswerQuestion { session_id: 2, game_id: 1, room: "r".to_string(), contents: "a".to_string() });
        let reply = s.handle_validate_answer(ValidateAnswer { session_id: 1, game_id: 1, room: "r".to_string(), is_answer_valid: false });
        assert!(matches!(&reply.outgoing[0].payload, Payload::AnswerValidated(v) if !v.is_answer_valid));
        if round == 2 {
            assert_eq!(reply.outgoing.len(), 2);
            assert!(matches!(&reply.outgoing[1].payload, Payload::PlayerLost(p) if p.player_id == 2 && p.game_id == 1 && p.points == 0));
            assert_eq!(receivers(&reply.outgoing[1]), set(&[1, 2]));
        } else {
            assert_eq!(reply.outgoing.len(), 1);
        }
    }
}

#[test]
fn disconnecting_leaves_every_room() {
    let mut s = server_with(3);
    join(&mut s, 2, "second");
    join(&mut s, 3, "second");
    let reply = s.handle_disconnect(Disconnect { id: 2 });
    assert!(s.sessions.get(&2).is_none());
    assert_eq!(reply.outgoing.len(), 2);
    for (o, room) in reply.outgoing.iter().zip(["r", "second"]) {
        assert!(matches!(&o.payload, Payload::SomeoneDisconnected(d) if d.disconnected_id == 2 && d.room == room));
        assert!(!o.receivers.contains(&2));
    }
    assert_eq!(receivers(&reply.outgoing[0]), set(&[1, 3]));
    assert_eq!(receivers(&reply.outgoing[1]), set(&[3]));
    for (_, room) in &s.rooms {
        assert!(!room.members.contains(&2));
    }
    let reply = s.handle_disconnect(Disconnect { id: 2 });
    assert!(reply.outgoing.is_empty());
}

#[test]
fn direct_messages_reach_only_connected_sessions() {
    let s = server_with(2);
    let out = s.send_message_to(2, Payload::Error(WsError::message("hello")));
    assert_eq!(out.status, ResponseStatus::Success);
    assert_eq!(receivers(&out), set(&[2]));
    assert!(matches!(&out.payload, Payload::Error(e) if e.message == "hello"));
    let out = s.send_message_to(7, Payload::Error(WsError::message("nobody")));
    assert!(out.receivers.is_empty());
    let out = s.fail_to(1, Payload::Error(*WsError::boxed("no")));
    assert_eq!(out.status, ResponseStatus::Failure);
    assert_eq!(receivers(&out), set(&[1]));
    assert!(matches!(&out.payload, Payload::Error(e) if e.message == "no"));
}
