# oot

A WebSocket server for a "one of ten" style quiz. Clients connect to
`/ws/{name}`, join rooms, chat, and play games in which a Game Master asks
questions, players answer within five seconds, and the Game Master judges
the answers.

- `src/` is the verified library: the server state (sessions, rooms,
  games), one handler per client message, the game state machine, the
  client command protocol and the heartbeat rule. Each handler returns what
  is to be sent to whom and which answer timers to arm or disarm.
  `ws/game/properties.rs` and `ws/server/properties.rs` state the laws that
  hold across the handlers.
- `app/` is the program: the actix actors that own the library's state,
  encode its replies as JSON, run the timers and talk WebSocket.
- `tests/` exercise the library on concrete games and servers.
