//! Gateway core for a desktop chat client that talks to locally hosted
//! model servers (OpenAI-compatible and Ollama endpoints).
//!
//! The crate holds the logic that sits between a GUI shell and the model
//! servers: endpoint resolution, a bounded diagnostic log ring, the chat
//! retry pipeline, the broadcast relay's routing rules, and a counter of
//! active UI sessions. Network and clock access reach the logic only
//! through narrow trusted seams, so everything that decides or computes
//! is verified.

pub mod chat;
pub mod directory;
pub mod errors;
pub mod http;
pub mod json_data;
pub mod log_ring;
pub mod relay;
pub mod resolver;
pub mod system;
pub mod text;

pub use system::SystemState;
