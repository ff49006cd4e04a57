//! Client side of a file-transfer protocol with a separate control channel
//! and short-lived data channels: command encoding, reply parsing and the
//! decisions of the control session, all verified.

pub mod numbers;
pub mod error;
pub mod text;
pub mod reply;
pub mod address;
pub mod commands;
pub mod session;
pub mod data_channel;
pub mod settings;
pub mod cli;
