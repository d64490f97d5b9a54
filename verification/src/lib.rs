//! Interaction model of a terminal manager for per-user launch agents: the
//! screen state machine, the new-agent form with its field cycle and key
//! handling, path completion, and the agent definitions handed to the
//! service manager.

pub mod command;
pub mod document;
pub mod events;
pub mod form;
pub mod key;
pub mod launchctl;
pub mod laws;
pub mod number;
pub mod path_utils;
pub mod state;
pub mod status;
pub mod text_input;
