//! The plugin execution core of a desktop launcher: the protocol between a
//! plugin's scripting runtime and the UI process, the table of event handlers
//! that a plugin registers, the resolution of its modules, and the decisions
//! of the plugin lifecycle manager.

pub mod handlers;
pub mod lifecycle;
pub mod messages;
pub mod preferences;
pub mod protocol;
pub mod records;
pub mod resolver;
pub mod shortcuts;
pub mod wire;
