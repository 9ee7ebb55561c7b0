//! A websocket source connector: its descriptor, the compilation of user
//! options into an operator configuration, and the connectivity-test session
//! that reports its progress as a stream of status events.

pub mod config;
pub mod connector;
pub mod descriptor;
pub mod event;
pub mod json;
pub mod options;
pub mod registry;
pub mod session;
pub mod table;
pub mod transcript;
