//! Wire model: outbound commands, inbound notifications and their payloads.

pub mod client_events;
pub mod items;
pub mod json;
pub mod models;
pub mod server_events;
