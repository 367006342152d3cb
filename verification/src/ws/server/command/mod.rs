//! Commands from the session layer to the server.

pub mod disconnect;
