//! Background monitors: a long-running command whose output lines are turned
//! into batched notices for a conversation.
pub mod delivery;
pub mod handler;
pub mod ids;
pub mod protocol;
pub mod runs;
pub mod text;
pub mod tool;
pub mod watch;
