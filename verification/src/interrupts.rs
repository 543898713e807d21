//! The host services a program reaches through the `Int` instruction.
pub mod handler;
pub mod io;
