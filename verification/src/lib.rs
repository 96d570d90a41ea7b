//! Session manager state machine for a zellij plugin: combines running
//! sessions, resurrectable sessions and zoxide directories into one list,
//! searches it, and turns key presses into state changes and host commands.

pub mod command;
pub mod config;
pub mod external;
pub mod key;
pub mod laws;
pub mod model;
pub mod new_session_info;
pub mod session;
pub mod state;
pub mod text;
pub mod zoxide;
