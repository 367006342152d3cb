//! A game server for a "one of ten" style quiz: rooms, chat, and the
//! question/answer game played inside a room, written as verified logic
//! that an outer event loop drives.

pub mod ws;
