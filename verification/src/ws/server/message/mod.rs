//! Messages that the server handles.

pub mod chat_message;
pub mod connect;
pub mod game_message;
pub mod join;
pub mod server_message;
