//! The session core: the consumer-facing event taxonomy, the tool registry
//! and the decisions of the session actor.

pub mod builder;
pub mod events;
pub mod response;
pub mod session;
pub mod tools;
pub mod voice;

pub use events::SdkEvent;
pub use session::{ActorState, Outputs, PendingToolCall, ToolOutcome};
pub use tools::{ToolCall, ToolDefinition, ToolRegistry, ToolResult};
pub use voice::{AudioChunk, TranscriptChunk, VoiceEvent};
