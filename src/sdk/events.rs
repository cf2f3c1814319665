//! The coarse, consumer-facing classification of inbound notifications.

use vstd::prelude::*;

use crate::error::ServerError;
use crate::protocol::json::Json;
use crate::protocol::server_events::ServerEvent;

verus! {

#[derive(Debug)]
pub enum SdkEvent {
    TextDelta { response_id: String, item_id: String, output_index: u32, content_index: u32, delta: String },
    TextDone { response_id: String, item_id: String, output_index: u32, content_index: u32, text: String },
    AudioDelta { response_id: String, item_id: String, output_index: u32, content_index: u32, delta: String },
    AudioDone { response_id: String, item_id: String, output_index: u32, content_index: u32, item: Option<Json> },
    TranscriptDelta { response_id: String, item_id: String, output_index: u32, content_index: u32, delta: String },
    TranscriptDone { response_id: String, item_id: String, output_index: u32, content_index: u32, transcript: String },
    ContentPartAdded { response_id: String, item_id: String, output_index: u32, content_index: u32, part: Json },
    ContentPartDone { response_id: String, item_id: String, output_index: u32, content_index: u32, part: Json },
    ToolCall { response_id: String, item_id: String, output_index: u32, call_id: String, name: String, arguments: String },
    ToolCallDelta { response_id: String, item_id: String, output_index: u32, call_id: String, delta: String },
    InputTranscriptionDelta { item_id: String, content_index: u32, delta: String },
    InputTranscriptionCompleted { item_id: String, content_index: u32, transcript: String, usage: Option<Json> },
    Error { event_id: String, error: ServerError },
    Raw(Box<ServerEvent>),
}

/// The consumer event a notification maps to. Every notification maps to
/// exactly one; those without a dedicated kind pass through whole as `Raw`.
pub open spec fn classify(e: ServerEvent) -> SdkEvent {
    match e {
        ServerEvent::ResponseOutputTextDelta { response_id, item_id, output_index, content_index, delta, .. } =>
            SdkEvent::TextDelta { response_id, item_id, output_index, content_index, delta },
        ServerEvent::ResponseOutputTextDone { response_id, item_id, output_index, content_index, text, .. } =>
            SdkEvent::TextDone { response_id, item_id, output_index, content_index, text },
        ServerEvent::ResponseOutputAudioDelta { response_id, item_id, output_index, content_index, delta, .. } =>
            SdkEvent::AudioDelta { response_id, item_id, output_index, content_index, delta },
        ServerEvent::ResponseOutputAudioDone { response_id, item_id, output_index, content_index, item, .. } =>
            SdkEvent::AudioDone { response_id, item_id, output_index, content_index, item },
        ServerEvent::ResponseOutputAudioTranscriptDelta { response_id, item_id, output_index, content_index, delta, .. } =>
            SdkEvent::TranscriptDelta { response_id, item_id, output_index, content_index, delta },
        ServerEvent::ResponseOutputAudioTranscriptDone { response_id, item_id, output_index, content_index, transcript, .. } =>
            SdkEvent::TranscriptDone { response_id, item_id, output_index, content_index, transcript },
        ServerEvent::ResponseContentPartAdded { response_id, item_id, output_index, content_index, part, .. } =>
            SdkEvent::ContentPartAdded { response_id, item_id, output_index, content_index, part },
        ServerEvent::ResponseContentPartDone { response_id, item_id, output_index, content_index, part, .. } =>
            SdkEvent::ContentPartDone { response_id, item_id, output_index, content_index, part },
        ServerEvent::ResponseFunctionCallArgumentsDelta { response_id, item_id, output_index, call_id, delta, .. } =>
            SdkEvent::ToolCallDelta { response_id, item_id, output_index, call_id, delta },
        ServerEvent::ResponseFunctionCallArgumentsDone { response_id, item_id, output_index, call_id, name, arguments, .. } =>
            SdkEvent::ToolCall { response_id, item_id, output_index, call_id, name, arguments },
        ServerEvent::InputAudioTranscriptionDelta { item_id, content_index, delta, .. } =>
            SdkEvent::InputTranscriptionDelta { item_id, content_index, delta },
        ServerEvent::InputAudioTranscriptionCompleted { item_id, content_index, transcript, usage, .. } =>
            SdkEvent::InputTranscriptionCompleted { item_id, content_index, transcript, usage },
        ServerEvent::Error { event_id, error } => SdkEvent::Error { event_id, error },
        other => SdkEvent::Raw(Box::new(other)),
    }
}

impl SdkEvent {
    /// Classifies a notification. Total: the result is always present.
    pub fn from_server(event: ServerEvent) -> (r: Option<SdkEvent>)
        ensures
            r == Some(classify(event)),
    {
        Some(SdkEvent::classify_owned(event))
    }

    /// The consumer event a notification maps to.
    pub fn classify_owned(event: ServerEvent) -> (r: SdkEvent)
        ensures
            r == classify(event),
    {
        match event {
            ServerEvent::ResponseOutputTextDelta { response_id, item_id, output_index, content_index, delta, .. } =>
                SdkEvent::TextDelta { response_id, item_id, output_index, content_index, delta },
            ServerEvent::ResponseOutputTextDone { response_id, item_id, output_index, content_index, text, .. } =>
                SdkEvent::TextDone { response_id, item_id, output_index, content_index, text },
            ServerEvent::ResponseOutputAudioDelta { response_id, item_id, output_index, content_index, delta, .. } =>
                SdkEvent::AudioDelta { response_id, item_id, output_index, content_index, delta },
            ServerEvent::ResponseOutputAudioDone { response_id, item_id, output_index, content_index, item, .. } =>
                SdkEvent::AudioDone { response_id, item_id, output_index, content_index, item },
            ServerEvent::ResponseOutputAudioTranscriptDelta { response_id, item_id, output_index, content_index, delta, .. } =>
                SdkEvent::TranscriptDelta { response_id, item_id, output_index, content_index, delta },
            ServerEvent::ResponseOutputAudioTranscriptDone { response_id, item_id, output_index, content_index, transcript, .. } =>
                SdkEvent::TranscriptDone { response_id, item_id, output_index, content_index, transcript },
            ServerEvent::ResponseContentPartAdded { response_id, item_id, output_index, content_index, part, .. } =>
                SdkEvent::ContentPartAdded { response_id, item_id, output_index, content_index, part },
            ServerEvent::ResponseContentPartDone { response_id, item_id, output_index, content_index, part, .. } =>
                SdkEvent::ContentPartDone { response_id, item_id, output_index, content_index, part },
            ServerEvent::ResponseFunctionCallArgumentsDelta { response_id, item_id, output_index, call_id, delta, .. } =>
                SdkEvent::ToolCallDelta { response_id, item_id, output_index, call_id, delta },
            ServerEvent::ResponseFunctionCallArgumentsDone { response_id, item_id, output_index, call_id, name, arguments, .. } =>
                SdkEvent::ToolCall { response_id, item_id, output_index, call_id, name, arguments },
            ServerEvent::InputAudioTranscriptionDelta { item_id, content_index, delta, .. } =>
                SdkEvent::InputTranscriptionDelta { item_id, content_index, delta },
            ServerEvent::InputAudioTranscriptionCompleted { item_id, content_index, transcript, usage, .. } =>
                SdkEvent::InputTranscriptionCompleted { item_id, content_index, transcript, usage },
            ServerEvent::Error { event_id, error } => SdkEvent::Error { event_id, error },
            other => SdkEvent::Raw(Box::new(other)),
        }
    }
}

} // verus!
