//! Lifecycle and voice events, decoded audio and transcript chunks.

use vstd::prelude::*;

verus! {

#[derive(Debug, Clone)]
pub enum VoiceEvent {
    SpeechStarted { audio_start_ms: Option<u32> },
    SpeechStopped { audio_end_ms: Option<u32> },
    AudioDelta { response_id: String, item_id: String, output_index: u32, content_index: u32, pcm: Vec<u8> },
    AudioDone { response_id: String, item_id: String, output_index: u32, content_index: u32 },
    TranscriptDelta { response_id: String, item_id: String, output_index: u32, content_index: u32, delta: String },
    TranscriptDone { response_id: String, item_id: String, output_index: u32, content_index: u32, transcript: String },
    UserTranscriptDone { item_id: String, content_index: u32, transcript: String },
    ResponseCreated { response_id: String },
    ResponseDone { response_id: String },
    ResponseCancelled { response_id: String },
    DecodeError { message: String },
}

/// Decoded output audio of one delta.
#[derive(Debug, Clone)]
pub struct AudioChunk {
    pub response_id: String,
    pub item_id: String,
    pub output_index: u32,
    pub content_index: u32,
    pub pcm: Vec<u8>,
}

/// A piece of the spoken answer's transcript; `is_final` marks the complete text.
#[derive(Debug, Clone)]
pub struct TranscriptChunk {
    pub response_id: String,
    pub item_id: String,
    pub output_index: u32,
    pub content_index: u32,
    pub text: String,
    pub is_final: bool,
}

} // verus!
