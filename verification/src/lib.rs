//! An Elm-style application runtime: a program turns messages into model
//! updates and commands, an effect manager turns commands back into
//! messages, and a worker drives both through a pair of mailboxes.

pub mod channel;
pub mod framework;
pub mod platform;
