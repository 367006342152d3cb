use oot::ws::parse_bool_flag;
use oot::ws::session::{
    default_id, heartbeat_ok, heartbeat_tick, parse_client_command, split_command, ClientCommand, HeartbeatAction,
};
use oot::ws::error::WsError;
use oot::ws::server::message::chat_message::ChatMessage;
use oot::ws::server::message::game_message::create_game::CreateGame;
use oot::ws::session::message::SessionMessage;
use oot::ws::session::request::ClientRequest;
use oot::ws::text::option_usize_debug;

#[test]
fn commands_are_read_from_the_first_word() {
    let (c, rest) = parse_client_command("join {\"room\": \"a b\"}").unwrap();
    assert_eq!(c, ClientCommand::Join);
    assert_eq!(rest.unwrap(), "{\"room\": \"a b\"}");
    let cases = [
        ("message", ClientCommand::Message),
        ("create_game", ClientCommand::CreateGame),
        ("ask_question", ClientCommand::AskQuestion),
        ("answer", ClientCommand::Answer),
        ("validate_answer", ClientCommand::ValidateAnswer),
        ("choose_answerer", ClientCommand::ChooseAnswerer),
    ];
    for (word, cmd) in cases {
        let (c, rest) = parse_client_command(&format!("{} {{}}", word)).unwrap();
        assert_eq!(c, cmd);
        assert_eq!(rest.unwrap(), "{}");
    }
}

#[test]
fn a_command_without_data_has_no_rest() {
    let (c, rest) = parse_client_command("join").unwrap();
    assert_eq!(c, ClientCommand::Join);
    assert!(rest.is_none());
}

#[test]
fn unknown_commands_are_errors() {
    let e = parse_client_command("dance {}").unwrap_err();
    assert_eq!(e.message, "communication error - unknown command dance");
    let e = parse_client_command("").unwrap_err();
    assert_eq!(e.message, "communication error - unknown command ");
    let e = parse_client_command("Join {}").unwrap_err();
    assert_eq!(e.message, "communication error - unknown command Join");
}

#[test]
fn splitting_keeps_later_spaces() {
    let (head, tail) = split_command("a  b c");
    assert_eq!(head, "a");
    assert_eq!(tail.unwrap(), " b c");
    let (head, tail) = split_command("żółw ma");
    assert_eq!(head, "żółw");
    assert_eq!(tail.unwrap(), "ma");
    let (head, tail) = split_command(" x");
    assert_eq!(head, "");
    assert_eq!(tail.unwrap(), "x");
}

#[test]
fn heartbeat_allows_ten_seconds_of_silence() {
    assert!(heartbeat_ok(0, 0));
    assert!(heartbeat_ok(9, 999_999_999));
    assert!(heartbeat_ok(10, 0));
    assert!(!heartbeat_ok(10, 1));
    assert!(!heartbeat_ok(11, 0));
}

#[test]
fn default_session_id_is_zero() {
    assert_eq!(default_id(), 0);
}

#[test]
fn flags_are_read_case_insensitively() {
    assert_eq!(parse_bool_flag("true"), Ok(true));
    assert_eq!(parse_bool_flag("TRUE"), Ok(true));
    assert_eq!(parse_bool_flag("1"), Ok(true));
    assert_eq!(parse_bool_flag("False"), Ok(false));
    assert_eq!(parse_bool_flag("0"), Ok(false));
    assert_eq!(parse_bool_flag("Yes"), Err("yes".to_string()));
    assert_eq!(parse_bool_flag(""), Err(String::new()));
}

#[test]
fn text_helpers() {
    assert_eq!(option_usize_debug(None), "None");
    assert_eq!(option_usize_debug(Some(0)), "Some(0)");
    assert_eq!(option_usize_debug(Some(42)), "Some(42)");
    assert_eq!(option_usize_debug(Some(usize::MAX)), format!("Some({})", usize::MAX));
}

#[test]
fn session_message_wraps_its_text() {
    let m = SessionMessage::from("{\"status\":\"success\"}".to_string());
    assert_eq!(m.response, "{\"status\":\"success\"}");
}

#[test]
fn a_session_speaks_only_for_itself() {
    let forged = ClientRequest::CreateGame(CreateGame {
        session_id: 99,
        room: "r".to_string(),
        players: [2, 3].into_iter().collect(),
        host: 1,
    });
    match forged.from_session(5) {
        ClientRequest::CreateGame(m) => {
            assert_eq!(m.session_id, 5);
            assert_eq!(m.room, "r");
            assert_eq!(m.host, 1);
            assert_eq!(m.players, [2, 3].into_iter().collect());
        }
        _ => panic!("the kind of request changed"),
    }
    let chat = ClientRequest::Chat(ChatMessage { session_id: 0, room: "r".to_string(), game_id: 0, contents: "hi".to_string() });
    match chat.from_session(2) {
        ClientRequest::Chat(m) => {
            assert_eq!(m.session_id, 2);
            assert_eq!(m.contents, "hi");
        }
        _ => panic!("the kind of request changed"),
    }
}

#[test]
fn ws_error_text_is_its_message() {
    assert_eq!(WsError::message("oops").to_string(), "oops");
}

#[test]
fn the_heartbeat_pings_or_drops_the_session() {
    assert!(matches!(heartbeat_tick(3, 0, 0), HeartbeatAction::Ping));
    assert!(matches!(heartbeat_tick(3, 10, 0), HeartbeatAction::Ping));
    assert!(matches!(heartbeat_tick(3, 10, 1), HeartbeatAction::Disconnect(d) if d.id == 3));
    assert!(matches!(heartbeat_tick(7, 25, 0), HeartbeatAction::Disconnect(d) if d.id == 7));
}
