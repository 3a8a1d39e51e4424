//! Polls a quest catalog, keeps the ids it has seen, and decides which
//! quests to announce, once each, with cooperative cancellation.
pub mod collectibles;
pub mod config;
pub mod constants;
pub mod error;
pub mod lookup;
pub mod payload;
pub mod processor;
pub mod quest;
pub mod reward;
pub mod shutdown;
pub mod store;
pub mod task;
pub mod text;
pub mod webhook;
