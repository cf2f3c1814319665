//! Outbound commands. Each carries an optional client-chosen correlation id.

use vstd::prelude::*;

use super::models::{Item, ResponseConfig, SessionUpdate};

verus! {

#[derive(Debug)]
pub enum ClientEvent {
    SessionUpdate { event_id: Option<String>, session: Box<SessionUpdate> },
    InputAudioBufferAppend { event_id: Option<String>, audio: String },
    InputAudioBufferCommit { event_id: Option<String> },
    InputAudioBufferClear { event_id: Option<String> },
    ConversationItemCreate { event_id: Option<String>, previous_item_id: Option<String>, item: Box<Item> },
    ConversationItemRetrieve { event_id: Option<String>, item_id: String },
    ConversationItemTruncate { event_id: Option<String>, item_id: String, content_index: u32, audio_end_ms: u32 },
    ConversationItemDelete { event_id: Option<String>, item_id: String },
    ResponseCreate { event_id: Option<String>, response: Option<Box<ResponseConfig>> },
    ResponseCancel { event_id: Option<String>, response_id: Option<String> },
    OutputAudioBufferClear { event_id: Option<String> },
}

} // verus!
