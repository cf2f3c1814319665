//! Client-side engine for a realtime conversational session: the protocol
//! message model, input validation, the event classifier, the tool registry
//! and the decision core of the session actor.

pub mod error;
pub mod protocol;
pub mod sdk;
pub mod validate;

pub use error::{ApiErrorType, Error, ServerError};
pub use protocol::client_events::ClientEvent;
pub use protocol::server_events::ServerEvent;
pub use sdk::builder::{Realtime, RealtimeBuilder};
pub use sdk::events::SdkEvent;
pub use sdk::response::ResponseBuilder;
pub use sdk::tools::{ToolCall, ToolRegistry, ToolResult};
pub use sdk::voice::VoiceEvent;
