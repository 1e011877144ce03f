//! Native-Rust IPC framing and the decision logic of the search front end:
//! how a frame is laid out on the wire, where the sidecar binary is looked
//! up, what the settings area shows, and how the application shell reacts to
//! searches and navigation.

pub mod ipc;
pub mod sidecar;
pub mod settings;
pub mod shell;
