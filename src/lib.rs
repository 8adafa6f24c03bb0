//! Conversation engine of a chat front-end for a small catalogue of
//! restaurants, dishes and reviews: the callback-token codec, the command
//! parser, the per-chat dialogue state machine and the update router.

pub mod codec;
pub mod command;
pub mod data;
pub mod db;
pub mod engine;
pub mod search;
pub mod session;
pub mod settle;
pub mod text;
