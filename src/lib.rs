//! Client-side codec for the i3 window manager's IPC protocol: framing of
//! command and event messages, a streaming frame decoder, the command and
//! event registries, and routing of decoded frames by their type tag.
mod buffer;
pub mod decoder;
pub mod dispatch;
pub mod error;
pub mod event;
pub mod frame;
pub mod inbox;
pub mod msg;
pub mod reader;
pub mod reply;
pub mod wire;
