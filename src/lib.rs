pub mod error;
pub mod store;
pub mod config;
pub mod bytes;
pub mod settlement;
pub mod player;
pub mod meme;
pub mod state;
pub mod command;
pub mod lemmas;
