//! Verified core of the Atri QQ bot: the message model, event flags,
//! listener settings, configuration defaults and the pure decisions that the
//! bot runtime takes.

pub mod text;
pub mod message;
pub mod event;
pub mod config;
pub mod data;
pub mod path;
pub mod client;
pub mod contact;
pub mod error;
pub mod kick;
pub mod fun;
pub mod plugin;
pub mod cli;
pub mod dispatch;
