//! Inbound notifications: an open tagged union that keeps any notification
//! it does not recognise as the JSON value it arrived as.

use vstd::prelude::*;

use super::json::{
    field_of, get_field, get_opt_str, get_str, get_u32, get_u64, has_field, opt_json_at,
    opt_str_at, str_at, take_field, take_opt_field, u32_at, u64_at, Json,
};
use crate::error::{ApiErrorType, ServerError};

verus! {

/// A notification received from the server. Each variant corresponds to one
/// value of the wire discriminator `type`; `Unknown` holds, unchanged, any
/// value that is not a well-formed instance of a known variant.
#[derive(Debug)]
pub enum ServerEvent {
    Error {
        event_id: String,
        error: ServerError,
    },
    SessionCreated {
        event_id: String,
        session: Json,
    },
    SessionUpdated {
        event_id: String,
        session: Json,
    },
    ConversationItemAdded {
        event_id: String,
        previous_item_id: Option<String>,
        item: Json,
    },
    ConversationItemDone {
        event_id: String,
        previous_item_id: Option<String>,
        item: Json,
    },
    ConversationItemRetrieved {
        event_id: String,
        item: Json,
    },
    ConversationItemDeleted {
        event_id: String,
        item_id: String,
    },
    ConversationItemTruncated {
        event_id: String,
        item_id: String,
        content_index: u32,
        audio_end_ms: u32,
    },
    InputAudioBufferCommitted {
        event_id: String,
        previous_item_id: Option<String>,
        item_id: String,
    },
    InputAudioBufferCleared {
        event_id: String,
    },
    InputAudioBufferSpeechStarted {
        event_id: String,
        audio_start_ms: u32,
        item_id: String,
    },
    InputAudioBufferSpeechStopped {
        event_id: String,
        audio_end_ms: u32,
        item_id: String,
    },
    InputAudioBufferTimeoutTriggered {
        event_id: String,
        item_id: String,
        audio_start_ms: u32,
        audio_end_ms: u32,
    },
    DtmfEventReceived {
        event: String,
        received_at: u64,
    },
    OutputAudioBufferStarted {
        event_id: String,
        response_id: String,
    },
    OutputAudioBufferStopped {
        event_id: String,
        response_id: String,
    },
    OutputAudioBufferCleared {
        event_id: String,
        response_id: String,
    },
    InputAudioTranscriptionDelta {
        event_id: String,
        item_id: String,
        content_index: u32,
        delta: String,
        obfuscation: Option<Json>,
        logprobs: Option<Json>,
    },
    InputAudioTranscriptionSegment {
        event_id: String,
        item_id: String,
        content_index: u32,
        text: String,
        id: Option<String>,
        speaker: Option<String>,
        start: Option<Json>,
        end: Option<Json>,
    },
    InputAudioTranscriptionFailed {
        event_id: String,
        item_id: String,
        content_index: u32,
        error: ServerError,
    },
    InputAudioTranscriptionCompleted {
        event_id: String,
        item_id: String,
        content_index: u32,
        transcript: String,
        usage: Option<Json>,
    },
    McpListToolsInProgress {
        event_id: String,
        item_id: String,
    },
    McpListToolsCompleted {
        event_id: String,
        item_id: String,
    },
    McpListToolsFailed {
        event_id: String,
        item_id: String,
        error: Option<ServerError>,
    },
    ResponseCreated {
        event_id: String,
        response: Json,
    },
    ResponseDone {
        event_id: String,
        response: Json,
    },
    ResponseOutputItemAdded {
        event_id: String,
        response_id: String,
        output_index: u32,
        item: Json,
    },
    ResponseOutputItemDone {
        event_id: String,
        response_id: String,
        output_index: u32,
        item: Json,
    },
    ResponseContentPartAdded {
        event_id: String,
        response_id: String,
        item_id: String,
        output_index: u32,
        content_index: u32,
        part: Json,
    },
    ResponseContentPartDone {
        event_id: String,
        response_id: String,
        item_id: String,
        output_index: u32,
        content_index: u32,
        part: Json,
    },
    ResponseOutputTextDelta {
        event_id: String,
        response_id: String,
        item_id: String,
        output_index: u32,
        content_index: u32,
        delta: String,
    },
    ResponseOutputTextDone {
        event_id: String,
        response_id: String,
        item_id: String,
        output_index: u32,
        content_index: u32,
        text: String,
    },
    ResponseOutputAudioDelta {
        event_id: String,
        response_id: String,
        item_id: String,
        output_index: u32,
        content_index: u32,
        delta: String,
    },
    ResponseOutputAudioDone {
        event_id: String,
        response_id: String,
        item_id: String,
        output_index: u32,
        content_index: u32,
        item: Option<Json>,
    },
    ResponseOutputAudioTranscriptDelta {
        event_id: String,
        response_id: String,
        item_id: String,
        output_index: u32,
        content_index: u32,
        delta: String,
    },
    ResponseOutputAudioTranscriptDone {
        event_id: String,
        response_id: String,
        item_id: String,
        output_index: u32,
        content_index: u32,
        transcript: String,
    },
    ResponseFunctionCallArgumentsDelta {
        event_id: String,
        response_id: String,
        item_id: String,
        output_index: u32,
        call_id: String,
        delta: String,
    },
    ResponseFunctionCallArgumentsDone {
        event_id: String,
        response_id: String,
        item_id: String,
        output_index: u32,
        call_id: String,
        name: String,
        arguments: String,
    },
    ResponseMcpCallArgumentsDelta {
        event_id: String,
        response_id: String,
        item_id: String,
        output_index: u32,
        delta: String,
        obfuscation: Option<Json>,
    },
    ResponseMcpCallArgumentsDone {
        event_id: String,
        response_id: String,
        item_id: String,
        output_index: u32,
        arguments: String,
    },
    ResponseMcpCallInProgress {
        event_id: String,
        item_id: String,
        output_index: u32,
    },
    ResponseMcpCallCompleted {
        event_id: String,
        item_id: String,
        output_index: u32,
    },
    ResponseMcpCallFailed {
        event_id: String,
        item_id: String,
        output_index: u32,
    },
    RateLimitsUpdated {
        event_id: String,
        rate_limits: Json,
    },
    Unknown(Json),
}

/// The error category named by a wire string; unrecognised names read as `Unknown`.
pub open spec fn api_error_type_of(s: Seq<char>) -> ApiErrorType {
    if s == "invalid_request_error"@ {
        ApiErrorType::InvalidRequestError
    } else if s == "rate_limit_error"@ {
        ApiErrorType::RateLimitError
    } else if s == "authentication_error"@ {
        ApiErrorType::AuthenticationError
    } else if s == "server_error"@ {
        ApiErrorType::ServerError
    } else {
        ApiErrorType::Unknown
    }
}

/// The server error described by `j`, when it is one.
pub open spec fn server_error_of(j: Json) -> Option<ServerError> {
    match j {
        Json::Object(f) => match (
            str_at(f@, "type"@),
            opt_str_at(f@, "code"@),
            str_at(f@, "message"@),
            opt_str_at(f@, "param"@),
            opt_str_at(f@, "event_id"@),
        ) {
            (Some(t), Some(code), Some(message), Some(param), Some(event_id)) => Some(
                ServerError { error_type: api_error_type_of(t@), code, message, param, event_id },
            ),
            _ => None,
        },
        _ => None,
    }
}

/// A required server-error member.
pub open spec fn err_at(f: Seq<(String, Json)>, key: Seq<char>) -> Option<ServerError> {
    match field_of(f, key) {
        Some(v) => server_error_of(v),
        None => None,
    }
}

/// An optional server-error member: absent or null reads as `Some(None)`.
pub open spec fn opt_err_at(f: Seq<(String, Json)>, key: Seq<char>) -> Option<Option<ServerError>> {
    match field_of(f, key) {
        None => Some(None),
        Some(Json::Null) => Some(None),
        Some(v) => match server_error_of(v) {
            Some(e) => Some(Some(e)),
            None => None,
        },
    }
}

fn text_is(t: &String, lit: &str) -> (r: bool)
    ensures
        r == (t@ == lit@),
{
    *t == lit.to_owned()
}

fn api_error_type_from(t: &String) -> (r: ApiErrorType)
    ensures
        r == api_error_type_of(t@),
{
    if text_is(t, "invalid_request_error") {
        ApiErrorType::InvalidRequestError
    } else if text_is(t, "rate_limit_error") {
        ApiErrorType::RateLimitError
    } else if text_is(t, "authentication_error") {
        ApiErrorType::AuthenticationError
    } else if text_is(t, "server_error") {
        ApiErrorType::ServerError
    } else {
        ApiErrorType::Unknown
    }
}

fn api_error_type_name(t: ApiErrorType) -> (r: String)
    ensures
        api_error_type_of(r@) == t,
{
    proof {
        reveal_strlit("invalid_request_error");
        reveal_strlit("rate_limit_error");
        reveal_strlit("authentication_error");
        reveal_strlit("server_error");
        reveal_strlit("unknown");
        assert("invalid_request_error"@.len() == 21);
        assert("rate_limit_error"@.len() == 16);
        assert("authentication_error"@.len() == 20);
        assert("server_error"@.len() == 12);
        assert("unknown"@.len() == 7);
    }
    match t {
        ApiErrorType::InvalidRequestError => "invalid_request_error".to_owned(),
        ApiErrorType::RateLimitError => "rate_limit_error".to_owned(),
        ApiErrorType::AuthenticationError => "authentication_error".to_owned(),
        ApiErrorType::ServerError => "server_error".to_owned(),
        ApiErrorType::Unknown => "unknown".to_owned(),
    }
}

/// Reads a server error from its wire form.
pub fn decode_server_error(j: &Json) -> (r: Option<ServerError>)
    ensures
        r == server_error_of(*j),
{
    match j {
        Json::Object(f) => {
            let t = get_str(f, "type");
            let code = get_opt_str(f, "code");
            let message = get_str(f, "message");
            let param = get_opt_str(f, "param");
            let event_id = get_opt_str(f, "event_id");
            match (t, code, message, param, event_id) {
                (Some(t), Some(code), Some(message), Some(param), Some(event_id)) => {
                    let error_type = api_error_type_from(&t);
                    Some(ServerError { error_type, code, message, param, event_id })
                },
                _ => None,
            }
        },
        _ => None,
    }
}

fn opt_text(s: Option<String>) -> (r: Json)
    ensures
        s matches Some(v) ==> r == Json::Str(v),
        s is None ==> r == Json::Null,
{
    match s {
        Some(v) => Json::Str(v),
        None => Json::Null,
    }
}

/// Writes a server error in its wire form.
pub fn encode_server_error(e: ServerError) -> (r: Json)
    ensures
        server_error_of(r) == Some(e),
{
    let ServerError { error_type, code, message, param, event_id } = e;
    let mut f: Vec<(String, Json)> = Vec::new();
    f.push(("type".to_owned(), Json::Str(api_error_type_name(error_type))));
    f.push(("code".to_owned(), opt_text(code)));
    f.push(("message".to_owned(), Json::Str(message)));
    f.push(("param".to_owned(), opt_text(param)));
    f.push(("event_id".to_owned(), opt_text(event_id)));
    proof {
        reveal_with_fuel(field_of, 6);
        reveal_strlit("type");
        reveal_strlit("code");
        reveal_strlit("message");
        reveal_strlit("param");
        reveal_strlit("event_id");
        assert("type"@.len() == 4);
        assert("code"@.len() == 4);
        assert("message"@.len() == 7);
        assert("param"@.len() == 5);
        assert("event_id"@.len() == 8);
        assert("type"@[0] != "code"@[0]);
    }
    Json::Object(f)
}

fn get_err(f: &Vec<(String, Json)>, key: &str) -> (r: Option<ServerError>)
    ensures
        r == err_at(f@, key@),
{
    match get_field(f, key) {
        Some(v) => decode_server_error(v),
        None => None,
    }
}

fn get_opt_err(f: &Vec<(String, Json)>, key: &str) -> (r: Option<Option<ServerError>>)
    ensures
        r == opt_err_at(f@, key@),
{
    match get_field(f, key) {
        None => Some(None),
        Some(Json::Null) => Some(None),
        Some(v) => match decode_server_error(v) {
            Some(e) => Some(Some(e)),
            None => None,
        },
    }
}

fn opt_error_json(e: Option<ServerError>) -> (r: Json)
    ensures
        e matches Some(v) ==> server_error_of(r) == Some(v),
        e is None ==> r == Json::Null,
{
    match e {
        Some(v) => encode_server_error(v),
        None => Json::Null,
    }
}

/// The id of a response payload.
pub open spec fn response_id_in(response: Json) -> Option<String> {
    match response {
        Json::Object(f) => str_at(f@, "id"@),
        _ => None,
    }
}

/// Whether the member `key` is a response payload carrying a string id.
fn has_response_id(f: &Vec<(String, Json)>, key: &str) -> (r: bool)
    ensures
        r == (field_of(f@, key@) matches Some(v) && response_id_in(v) is Some),
{
    match get_field(f, key) {
        Some(Json::Object(m)) => get_str(m, "id").is_some(),
        _ => false,
    }
}

/// A notification that can be written: response payloads carry their id.
pub open spec fn event_well_formed(e: ServerEvent) -> bool {
    match e {
        ServerEvent::ResponseCreated { response, .. } => response_id_in(response) is Some,
        ServerEvent::ResponseDone { response, .. } => response_id_in(response) is Some,
        _ => true,
    }
}


/// What a JSON value decodes to: the variant its `type` names, when every
/// member that variant needs is present with the right shape; otherwise the
/// value itself, as `Unknown`. Members a variant does not name are ignored.
pub open spec fn decode_event(j: Json) -> ServerEvent {
    match j {
        Json::Object(f) => match str_at(f@, "type"@) {
            Some(t) => decode_tagged(t@, j, f@),
            None => ServerEvent::Unknown(j),
        },
        _ => ServerEvent::Unknown(j),
    }
}

pub open spec fn decode_tagged(t: Seq<char>, j: Json, f: Seq<(String, Json)>) -> ServerEvent {
    if t == "error"@ {
        decode_error(j, f)
    } else if t == "session.created"@ {
        decode_session_created(j, f)
    } else if t == "session.updated"@ {
        decode_session_updated(j, f)
    } else if t == "conversation.item.added"@ {
        decode_conversation_item_added(j, f)
    } else if t == "conversation.item.done"@ {
        decode_conversation_item_done(j, f)
    } else if t == "conversation.item.retrieved"@ {
        decode_conversation_item_retrieved(j, f)
    } else if t == "conversation.item.deleted"@ {
        decode_conversation_item_deleted(j, f)
    } else if t == "conversation.item.truncated"@ {
        decode_conversation_item_truncated(j, f)
    } else if t == "input_audio_buffer.committed"@ {
        decode_input_audio_buffer_committed(j, f)
    } else if t == "input_audio_buffer.cleared"@ {
        decode_input_audio_buffer_cleared(j, f)
    } else if t == "input_audio_buffer.speech_started"@ {
        decode_input_audio_buffer_speech_started(j, f)
    } else if t == "input_audio_buffer.speech_stopped"@ {
        decode_input_audio_buffer_speech_stopped(j, f)
    } else if t == "input_audio_buffer.timeout_triggered"@ {
        decode_input_audio_buffer_timeout_triggered(j, f)
    } else if t == "input_audio_buffer.dtmf_event_received"@ {
        decode_dtmf_event_received(j, f)
    } else if t == "output_audio_buffer.started"@ {
        decode_output_audio_buffer_started(j, f)
    } else if t == "output_audio_buffer.stopped"@ {
        decode_output_audio_buffer_stopped(j, f)
    } else if t == "output_audio_buffer.cleared"@ {
        decode_output_audio_buffer_cleared(j, f)
    } else if t == "input_audio_transcription.delta"@ {
        decode_input_audio_transcription_delta(j, f)
    } else if t == "input_audio_transcription.segment"@ {
        decode_input_audio_transcription_segment(j, f)
    } else if t == "input_audio_transcription.failed"@ {
        decode_input_audio_transcription_failed(j, f)
    } else if t == "input_audio_transcription.completed"@ {
        decode_input_audio_transcription_completed(j, f)
    } else if t == "mcp_list_tools.in_progress"@ {
        decode_mcp_list_tools_in_progress(j, f)
    } else if t == "mcp_list_tools.completed"@ {
        decode_mcp_list_tools_completed(j, f)
    } else if t == "mcp_list_tools.failed"@ {
        decode_mcp_list_tools_failed(j, f)
    } else if t == "response.created"@ {
        decode_response_created(j, f)
    } else if t == "response.done"@ {
        decode_response_done(j, f)
    } else if t == "response.output_item.added"@ {
        decode_response_output_item_added(j, f)
    } else if t == "response.output_item.done"@ {
        decode_response_output_item_done(j, f)
    } else if t == "response.content_part.added"@ {
        decode_response_content_part_added(j, f)
    } else if t == "response.content_part.done"@ {
        decode_response_content_part_done(j, f)
    } else if t == "response.output_text.delta"@ {
        decode_response_output_text_delta(j, f)
    } else if t == "response.output_text.done"@ {
        decode_response_output_text_done(j, f)
    } else if t == "response.output_audio.delta"@ {
        decode_response_output_audio_delta(j, f)
    } else if t == "response.output_audio.done"@ {
        decode_response_output_audio_done(j, f)
    } else if t == "response.output_audio_transcript.delta"@ {
        decode_response_output_audio_transcript_delta(j, f)
    } else if t == "response.output_audio_transcript.done"@ {
        decode_response_output_audio_transcript_done(j, f)
    } else if t == "response.function_call_arguments.delta"@ {
        decode_response_function_call_arguments_delta(j, f)
    } else if t == "response.function_call_arguments.done"@ {
        decode_response_function_call_arguments_done(j, f)
    } else if t == "response.mcp_call_arguments.delta"@ {
        decode_response_mcp_call_arguments_delta(j, f)
    } else if t == "response.mcp_call_arguments.done"@ {
        decode_response_mcp_call_arguments_done(j, f)
    } else if t == "response.mcp_call.in_progress"@ {
        decode_response_mcp_call_in_progress(j, f)
    } else if t == "response.mcp_call.completed"@ {
        decode_response_mcp_call_completed(j, f)
    } else if t == "response.mcp_call.failed"@ {
        decode_response_mcp_call_failed(j, f)
    } else if t == "rate_limits.updated"@ {
        decode_rate_limits_updated(j, f)
    } else {
        ServerEvent::Unknown(j)
    }
}

pub open spec fn decode_error(j: Json, f: Seq<(String, Json)>) -> ServerEvent {
    match (str_at(f, "event_id"@), err_at(f, "error"@),) {
        (Some(event_id), Some(error),) => {
            ServerEvent::Error { event_id, error }
        },
        _ => ServerEvent::Unknown(j),
    }
}

pub open spec fn decode_session_created(j: Json, f: Seq<(String, Json)>) -> ServerEvent {
    match (str_at(f, "event_id"@),) {
        (Some(event_id),) => {
            match field_of(f, "session"@) {
                Some(session) => {
                    ServerEvent::SessionCreated { event_id, session }
                },
                None => ServerEvent::Unknown(j),
            }
        },
        _ => ServerEvent::Unknown(j),
    }
}

pub open spec fn decode_session_updated(j: Json, f: Seq<(String, Json)>) -> ServerEvent {
    match (str_at(f, "event_id"@),) {
        (Some(event_id),) => {
            match field_of(f, "session"@) {
                Some(session) => {
                    ServerEvent::SessionUpdated { event_id, session }
                },
                None => ServerEvent::Unknown(j),
            }
        },
        _ => ServerEvent::Unknown(j),
    }
}

pub open spec fn decode_conversation_item_added(j: Json, f: Seq<(String, Json)>) -> ServerEvent {
    match (str_at(f, "event_id"@), opt_str_at(f, "previous_item_id"@),) {
        (Some(event_id), Some(previous_item_id),) => {
            match field_of(f, "item"@) {
                Some(item) => {
                    ServerEvent::ConversationItemAdded { event_id, previous_item_id, item }
                },
                None => ServerEvent::Unknown(j),
            }
        },
        _ => ServerEvent::Unknown(j),
    }
}

pub open spec fn decode_conversation_item_done(j: Json, f: Seq<(String, Json)>) -> ServerEvent {
    match (str_at(f, "event_id"@), opt_str_at(f, "previous_item_id"@),) {
        (Some(event_id), Some(previous_item_id),) => {
            match field_of(f, "item"@) {
                Some(item) => {
                    ServerEvent::ConversationItemDone { event_id, previous_item_id, item }
                },
                None => ServerEvent::Unknown(j),
            }
        },
        _ => ServerEvent::Unknown(j),
    }
}

pub open spec fn decode_conversation_item_retrieved(j: Json, f: Seq<(String, Json)>) -> ServerEvent {
    match (str_at(f, "event_id"@),) {
        (Some(event_id),) => {
            match field_of(f, "item"@) {
                Some(item) => {
                    ServerEvent::ConversationItemRetrieved { event_id, item }
                },
                None => ServerEvent::Unknown(j),
            }
        },
        _ => ServerEvent::Unknown(j),
    }
}

pub open spec fn decode_conversation_item_deleted(j: Json, f: Seq<(String, Json)>) -> ServerEvent {
    match (str_at(f, "event_id"@), str_at(f, "item_id"@),) {
        (Some(event_id), Some(item_id),) => {
            ServerEvent::ConversationItemDeleted { event_id, item_id }
        },
        _ => ServerEvent::Unknown(j),
    }
}

pub open spec fn decode_conversation_item_truncated(j: Json, f: Seq<(String, Json)>) -> ServerEvent {
    match (str_at(f, "event_id"@), str_at(f, "item_id"@), u32_at(f, "content_index"@), u32_at(f, "audio_end_ms"@),) {
        (Some(event_id), Some(item_id), Some(content_index), Some(audio_end_ms),) => {
            ServerEvent::ConversationItemTruncated { event_id, item_id, content_index, audio_end_ms }
        },
        _ => ServerEvent::Unknown(j),
    }
}

pub open spec fn decode_input_audio_buffer_committed(j: Json, f: Seq<(String, Json)>) -> ServerEvent {
    match (str_at(f, "event_id"@), opt_str_at(f, "previous_item_id"@), str_at(f, "item_id"@),) {
        (Some(event_id), Some(previous_item_id), Some(item_id),) => {
            ServerEvent::InputAudioBufferCommitted { event_id, previous_item_id, item_id }
        },
        _ => ServerEvent::Unknown(j),
    }
}

pub open spec fn decode_input_audio_buffer_cleared(j: Json, f: Seq<(String, Json)>) -> ServerEvent {
    match (str_at(f, "event_id"@),) {
        (Some(event_id),) => {
            ServerEvent::InputAudioBufferCleared { event_id }
        },
        _ => ServerEvent::Unknown(j),
    }
}

pub open spec fn decode_input_audio_buffer_speech_started(j: Json, f: Seq<(String, Json)>) -> ServerEvent {
    match (str_at(f, "event_id"@), u32_at(f, "audio_start_ms"@), str_at(f, "item_id"@),) {
        (Some(event_id), Some(audio_start_ms), Some(item_id),) => {
            ServerEvent::InputAudioBufferSpeechStarted { event_id, audio_start_ms, item_id }
        },
        _ => ServerEvent::Unknown(j),
    }
}

pub open spec fn decode_input_audio_buffer_speech_stopped(j: Json, f: Seq<(String, Json)>) -> ServerEvent {
    match (str_at(f, "event_id"@), u32_at(f, "audio_end_ms"@), str_at(f, "item_id"@),) {
        (Some(event_id), Some(audio_end_ms), Some(item_id),) => {
            ServerEvent::InputAudioBufferSpeechStopped { event_id, audio_end_ms, item_id }
        },
        _ => ServerEvent::Unknown(j),
    }
}

pub open spec fn decode_input_audio_buffer_timeout_triggered(j: Json, f: Seq<(String, Json)>) -> ServerEvent {
    match (str_at(f, "event_id"@), str_at(f, "item_id"@), u32_at(f, "audio_start_ms"@), u32_at(f, "audio_end_ms"@),) {
        (Some(event_id), Some(item_id), Some(audio_start_ms), Some(audio_end_ms),) => {
            ServerEvent::InputAudioBufferTimeoutTriggered { event_id, item_id, audio_start_ms, audio_end_ms }
        },
        _ => ServerEvent::Unknown(j),
    }
}

pub open spec fn decode_dtmf_event_received(j: Json, f: Seq<(String, Json)>) -> ServerEvent {
    match (str_at(f, "event"@), u64_at(f, "received_at"@),) {
        (Some(event), Some(received_at),) => {
            ServerEvent::DtmfEventReceived { event, received_at }
        },
        _ => ServerEvent::Unknown(j),
    }
}

pub open spec fn decode_output_audio_buffer_started(j: Json, f: Seq<(String, Json)>) -> ServerEvent {
    match (str_at(f, "event_id"@), str_at(f, "response_id"@),) {
        (Some(event_id), Some(response_id),) => {
            ServerEvent::OutputAudioBufferStarted { event_id, response_id }
        },
        _ => ServerEvent::Unknown(j),
    }
}

pub open spec fn decode_output_audio_buffer_stopped(j: Json, f: Seq<(String, Json)>) -> ServerEvent {
    match (str_at(f, "event_id"@), str_at(f, "response_id"@),) {
        (Some(event_id), Some(response_id),) => {
            ServerEvent::OutputAudioBufferStopped { event_id, response_id }
        },
        _ => ServerEvent::Unknown(j),
    }
}

pub open spec fn decode_output_audio_buffer_cleared(j: Json, f: Seq<(String, Json)>) -> ServerEvent {
    match (str_at(f, "event_id"@), str_at(f, "response_id"@),) {
        (Some(event_id), Some(response_id),) => {
            ServerEvent::OutputAudioBufferCleared { event_id, response_id }
        },
        _ => ServerEvent::Unknown(j),
    }
}

pub open spec fn decode_input_audio_transcription_delta(j: Json, f: Seq<(String, Json)>) -> ServerEvent {
    match (str_at(f, "event_id"@), str_at(f, "item_id"@), u32_at(f, "content_index"@), str_at(f, "delta"@),) {
        (Some(event_id), Some(item_id), Some(content_index), Some(delta),) => {
            ServerEvent::InputAudioTranscriptionDelta { event_id, item_id, content_index, delta, obfuscation: opt_json_at(f, "obfuscation"@), logprobs: opt_json_at(f, "logprobs"@) }
        },
        _ => ServerEvent::Unknown(j),
    }
}

pub open spec fn decode_input_audio_transcription_segment(j: Json, f: Seq<(String, Json)>) -> ServerEvent {
    match (str_at(f, "event_id"@), str_at(f, "item_id"@), u32_at(f, "content_index"@), str_at(f, "text"@), opt_str_at(f, "id"@), opt_str_at(f, "speaker"@),) {
        (Some(event_id), Some(item_id), Some(content_index), Some(text), Some(id), Some(speaker),) => {
            ServerEvent::InputAudioTranscriptionSegment { event_id, item_id, content_index, text, id, speaker, start: opt_json_at(f, "start"@), end: opt_json_at(f, "end"@) }
        },
        _ => ServerEvent::Unknown(j),
    }
}

pub open spec fn decode_input_audio_transcription_failed(j: Json, f: Seq<(String, Json)>) -> ServerEvent {
    match (str_at(f, "event_id"@), str_at(f, "item_id"@), u32_at(f, "content_index"@), err_at(f, "error"@),) {
        (Some(event_id), Some(item_id), Some(content_index), Some(error),) => {
            ServerEvent::InputAudioTranscriptionFailed { event_id, item_id, content_index, error }
        },
        _ => ServerEvent::Unknown(j),
    }
}

pub open spec fn decode_input_audio_transcription_completed(j: Json, f: Seq<(String, Json)>) -> ServerEvent {
    match (str_at(f, "event_id"@), str_at(f, "item_id"@), u32_at(f, "content_index"@), str_at(f, "transcript"@),) {
        (Some(event_id), Some(item_id), Some(content_index), Some(transcript),) => {
            ServerEvent::InputAudioTranscriptionCompleted { event_id, item_id, content_index, transcript, usage: opt_json_at(f, "usage"@) }
        },
        _ => ServerEvent::Unknown(j),
    }
}

pub open spec fn decode_mcp_list_tools_in_progress(j: Json, f: Seq<(String, Json)>) -> ServerEvent {
    match (str_at(f, "event_id"@), str_at(f, "item_id"@),) {
        (Some(event_id), Some(item_id),) => {
            ServerEvent::McpListToolsInProgress { event_id, item_id }
        },
        _ => ServerEvent::Unknown(j),
    }
}

pub open spec fn decode_mcp_list_tools_completed(j: Json, f: Seq<(String, Json)>) -> ServerEvent {
    match (str_at(f, "event_id"@), str_at(f, "item_id"@),) {
        (Some(event_id), Some(item_id),) => {
            ServerEvent::McpListToolsCompleted { event_id, item_id }
        },
        _ => ServerEvent::Unknown(j),
    }
}

pub open spec fn decode_mcp_list_tools_failed(j: Json, f: Seq<(String, Json)>) -> ServerEvent {
    match (str_at(f, "event_id"@), str_at(f, "item_id"@), opt_err_at(f, "error"@),) {
        (Some(event_id), Some(item_id), Some(error),) => {
            ServerEvent::McpListToolsFailed { event_id, item_id, error }
        },
        _ => ServerEvent::Unknown(j),
    }
}

pub open spec fn decode_response_created(j: Json, f: Seq<(String, Json)>) -> ServerEvent {
    match (str_at(f, "event_id"@),) {
        (Some(event_id),) => {
            match field_of(f, "response"@) {
                Some(response) => if response_id_in(response) is Some {
                    ServerEvent::ResponseCreated { event_id, response }
                } else {
                    ServerEvent::Unknown(j)
                },
                None => ServerEvent::Unknown(j),
            }
        },
        _ => ServerEvent::Unknown(j),
    }
}

pub open spec fn decode_response_done(j: Json, f: Seq<(String, Json)>) -> ServerEvent {
    match (str_at(f, "event_id"@),) {
        (Some(event_id),) => {
            match field_of(f, "response"@) {
                Some(response) => if response_id_in(response) is Some {
                    ServerEvent::ResponseDone { event_id, response }
                } else {
                    ServerEvent::Unknown(j)
                },
                None => ServerEvent::Unknown(j),
            }
        },
        _ => ServerEvent::Unknown(j),
    }
}

pub open spec fn decode_response_output_item_added(j: Json, f: Seq<(String, Json)>) -> ServerEvent {
    match (str_at(f, "event_id"@), str_at(f, "response_id"@), u32_at(f, "output_index"@),) {
        (Some(event_id), Some(response_id), Some(output_index),) => {
            match field_of(f, "item"@) {
                Some(item) => {
                    ServerEvent::ResponseOutputItemAdded { event_id, response_id, output_index, item }
                },
                None => ServerEvent::Unknown(j),
            }
        },
        _ => ServerEvent::Unknown(j),
    }
}

pub open spec fn decode_response_output_item_done(j: Json, f: Seq<(String, Json)>) -> ServerEvent {
    match (str_at(f, "event_id"@), str_at(f, "response_id"@), u32_at(f, "output_index"@),) {
        (Some(event_id), Some(response_id), Some(output_index),) => {
            match field_of(f, "item"@) {
                Some(item) => {
                    ServerEvent::ResponseOutputItemDone { event_id, response_id, output_index, item }
                },
                None => ServerEvent::Unknown(j),
            }
        },
        _ => ServerEvent::Unknown(j),
    }
}

pub open spec fn decode_response_content_part_added(j: Json, f: Seq<(String, Json)>) -> ServerEvent {
    match (str_at(f, "event_id"@), str_at(f, "response_id"@), str_at(f, "item_id"@), u32_at(f, "output_index"@), u32_at(f, "content_index"@),) {
        (Some(event_id), Some(response_id), Some(item_id), Some(output_index), Some(content_index),) => {
            match field_of(f, "part"@) {
                Some(part) => {
                    ServerEvent::ResponseContentPartAdded { event_id, response_id, item_id, output_index, content_index, part }
                },
                None => ServerEvent::Unknown(j),
            }
        },
        _ => ServerEvent::Unknown(j),
    }
}

pub open spec fn decode_response_content_part_done(j: Json, f: Seq<(String, Json)>) -> ServerEvent {
    match (str_at(f, "event_id"@), str_at(f, "response_id"@), str_at(f, "item_id"@), u32_at(f, "output_index"@), u32_at(f, "content_index"@),) {
        (Some(event_id), Some(response_id), Some(item_id), Some(output_index), Some(content_index),) => {
            match field_of(f, "part"@) {
                Some(part) => {
                    ServerEvent::ResponseContentPartDone { event_id, response_id, item_id, output_index, content_index, part }
                },
                None => ServerEvent::Unknown(j),
            }
        },
        _ => ServerEvent::Unknown(j),
    }
}

pub open spec fn decode_response_output_text_delta(j: Json, f: Seq<(String, Json)>) -> ServerEvent {
    match (str_at(f, "event_id"@), str_at(f, "response_id"@), str_at(f, "item_id"@), u32_at(f, "output_index"@), u32_at(f, "content_index"@), str_at(f, "delta"@),) {
        (Some(event_id), Some(response_id), Some(item_id), Some(output_index), Some(content_index), Some(delta),) => {
            ServerEvent::ResponseOutputTextDelta { event_id, response_id, item_id, output_index, content_index, delta }
        },
        _ => ServerEvent::Unknown(j),
    }
}

pub open spec fn decode_response_output_text_done(j: Json, f: Seq<(String, Json)>) -> ServerEvent {
    match (str_at(f, "event_id"@), str_at(f, "response_id"@), str_at(f, "item_id"@), u32_at(f, "output_index"@), u32_at(f, "content_index"@), str_at(f, "text"@),) {
        (Some(event_id), Some(response_id), Some(item_id), Some(output_index), Some(content_index), Some(text),) => {
            ServerEvent::ResponseOutputTextDone { event_id, response_id, item_id, output_index, content_index, text }
        },
        _ => ServerEvent::Unknown(j),
    }
}

pub open spec fn decode_response_output_audio_delta(j: Json, f: Seq<(String, Json)>) -> ServerEvent {
    match (str_at(f, "event_id"@), str_at(f, "response_id"@), str_at(f, "item_id"@), u32_at(f, "output_index"@), u32_at(f, "content_index"@), str_at(f, "delta"@),) {
        (Some(event_id), Some(response_id), Some(item_id), Some(output_index), Some(content_index), Some(delta),) => {
            ServerEvent::ResponseOutputAudioDelta { event_id, response_id, item_id, output_index, content_index, delta }
        },
        _ => ServerEvent::Unknown(j),
    }
}

pub open spec fn decode_response_output_audio_done(j: Json, f: Seq<(String, Json)>) -> ServerEvent {
    match (str_at(f, "event_id"@), str_at(f, "response_id"@), str_at(f, "item_id"@), u32_at(f, "output_index"@), u32_at(f, "content_index"@),) {
        (Some(event_id), Some(response_id), Some(item_id), Some(output_index), Some(content_index),) => {
            ServerEvent::ResponseOutputAudioDone { event_id, response_id, item_id, output_index, content_index, item: opt_json_at(f, "item"@) }
        },
        _ => ServerEvent::Unknown(j),
    }
}

pub open spec fn decode_response_output_audio_transcript_delta(j: Json, f: Seq<(String, Json)>) -> ServerEvent {
    match (str_at(f, "event_id"@), str_at(f, "response_id"@), str_at(f, "item_id"@), u32_at(f, "output_index"@), u32_at(f, "content_index"@), str_at(f, "delta"@),) {
        (Some(event_id), Some(response_id), Some(item_id), Some(output_index), Some(content_index), Some(delta),) => {
            ServerEvent::ResponseOutputAudioTranscriptDelta { event_id, response_id, item_id, output_index, content_index, delta }
        },
        _ => ServerEvent::Unknown(j),
    }
}

pub open spec fn decode_response_output_audio_transcript_done(j: Json, f: Seq<(String, Json)>) -> ServerEvent {
    match (str_at(f, "event_id"@), str_at(f, "response_id"@), str_at(f, "item_id"@), u32_at(f, "output_index"@), u32_at(f, "content_index"@), str_at(f, "transcript"@),) {
        (Some(event_id), Some(response_id), Some(item_id), Some(output_index), Some(content_index), Some(transcript),) => {
            ServerEvent::ResponseOutputAudioTranscriptDone { event_id, response_id, item_id, output_index, content_index, transcript }
        },
        _ => ServerEvent::Unknown(j),
    }
}

pub open spec fn decode_response_function_call_arguments_delta(j: Json, f: Seq<(String, Json)>) -> ServerEvent {
    match (str_at(f, "event_id"@), str_at(f, "response_id"@), str_at(f, "item_id"@), u32_at(f, "output_index"@), str_at(f, "call_id"@), str_at(f, "delta"@),) {
        (Some(event_id), Some(response_id), Some(item_id), Some(output_index), Some(call_id), Some(delta),) => {
            ServerEvent::ResponseFunctionCallArgumentsDelta { event_id, response_id, item_id, output_index, call_id, delta }
        },
        _ => ServerEvent::Unknown(j),
    }
}

pub open spec fn decode_response_function_call_arguments_done(j: Json, f: Seq<(String, Json)>) -> ServerEvent {
    match (str_at(f, "event_id"@), str_at(f, "response_id"@), str_at(f, "item_id"@), u32_at(f, "output_index"@), str_at(f, "call_id"@), str_at(f, "name"@), str_at(f, "arguments"@),) {
        (Some(event_id), Some(response_id), Some(item_id), Some(output_index), Some(call_id), Some(name), Some(arguments),) => {
            ServerEvent::ResponseFunctionCallArgumentsDone { event_id, response_id, item_id, output_index, call_id, name, arguments }
        },
        _ => ServerEvent::Unknown(j),
    }
}

pub open spec fn decode_response_mcp_call_arguments_delta(j: Json, f: Seq<(String, Json)>) -> ServerEvent {
    match (str_at(f, "event_id"@), str_at(f, "response_id"@), str_at(f, "item_id"@), u32_at(f, "output_index"@), str_at(f, "delta"@),) {
        (Some(event_id), Some(response_id), Some(item_id), Some(output_index), Some(delta),) => {
            ServerEvent::ResponseMcpCallArgumentsDelta { event_id, response_id, item_id, output_index, delta, obfuscation: opt_json_at(f, "obfuscation"@) }
        },
        _ => ServerEvent::Unknown(j),
    }
}

pub open spec fn decode_response_mcp_call_arguments_done(j: Json, f: Seq<(String, Json)>) -> ServerEvent {
    match (str_at(f, "event_id"@), str_at(f, "response_id"@), str_at(f, "item_id"@), u32_at(f, "output_index"@), str_at(f, "arguments"@),) {
        (Some(event_id), Some(response_id), Some(item_id), Some(output_index), Some(arguments),) => {
            ServerEvent::ResponseMcpCallArgumentsDone { event_id, response_id, item_id, output_index, arguments }
        },
        _ => ServerEvent::Unknown(j),
    }
}

pub open spec fn decode_response_mcp_call_in_progress(j: Json, f: Seq<(String, Json)>) -> ServerEvent {
    match (str_at(f, "event_id"@), str_at(f, "item_id"@), u32_at(f, "output_index"@),) {
        (Some(event_id), Some(item_id), Some(output_index),) => {
            ServerEvent::ResponseMcpCallInProgress { event_id, item_id, output_index }
        },
        _ => ServerEvent::Unknown(j),
    }
}

pub open spec fn decode_response_mcp_call_completed(j: Json, f: Seq<(String, Json)>) -> ServerEvent {
    match (str_at(f, "event_id"@), str_at(f, "item_id"@), u32_at(f, "output_index"@),) {
        (Some(event_id), Some(item_id), Some(output_index),) => {
            ServerEvent::ResponseMcpCallCompleted { event_id, item_id, output_index }
        },
        _ => ServerEvent::Unknown(j),
    }
}

pub open spec fn decode_response_mcp_call_failed(j: Json, f: Seq<(String, Json)>) -> ServerEvent {
    match (str_at(f, "event_id"@), str_at(f, "item_id"@), u32_at(f, "output_index"@),) {
        (Some(event_id), Some(item_id), Some(output_index),) => {
            ServerEvent::ResponseMcpCallFailed { event_id, item_id, output_index }
        },
        _ => ServerEvent::Unknown(j),
    }
}

pub open spec fn decode_rate_limits_updated(j: Json, f: Seq<(String, Json)>) -> ServerEvent {
    match (str_at(f, "event_id"@),) {
        (Some(event_id),) => {
            match field_of(f, "rate_limits"@) {
                Some(rate_limits) => {
                    ServerEvent::RateLimitsUpdated { event_id, rate_limits }
                },
                None => ServerEvent::Unknown(j),
            }
        },
        _ => ServerEvent::Unknown(j),
    }
}

fn decode_error_members(fields: Vec<(String, Json)>) -> (r: ServerEvent)
    ensures
        r == decode_error(Json::Object(fields), fields@),
{
    let event_id = get_str(&fields, "event_id");
    let error = get_err(&fields, "error");
    match (event_id, error,) {
        (Some(event_id), Some(error),) => {
            ServerEvent::Error { event_id, error }
        },
        _ => ServerEvent::Unknown(Json::Object(fields)),
    }
}

fn decode_session_created_members(fields: Vec<(String, Json)>) -> (r: ServerEvent)
    ensures
        r == decode_session_created(Json::Object(fields), fields@),
{
    let event_id = get_str(&fields, "event_id");
    let has_session = has_field(&fields, "session");
    match (event_id,) {
        (Some(event_id),) => {
            if has_session {
                let mut fields = fields;
                let session = take_field(&mut fields, "session");
                ServerEvent::SessionCreated { event_id, session }
            } else {
                ServerEvent::Unknown(Json::Object(fields))
            }
        },
        _ => ServerEvent::Unknown(Json::Object(fields)),
    }
}

fn decode_session_updated_members(fields: Vec<(String, Json)>) -> (r: ServerEvent)
    ensures
        r == decode_session_updated(Json::Object(fields), fields@),
{
    let event_id = get_str(&fields, "event_id");
    let has_session = has_field(&fields, "session");
    match (event_id,) {
        (Some(event_id),) => {
            if has_session {
                let mut fields = fields;
                let session = take_field(&mut fields, "session");
                ServerEvent::SessionUpdated { event_id, session }
            } else {
                ServerEvent::Unknown(Json::Object(fields))
            }
        },
        _ => ServerEvent::Unknown(Json::Object(fields)),
    }
}

fn decode_conversation_item_added_members(fields: Vec<(String, Json)>) -> (r: ServerEvent)
    ensures
        r == decode_conversation_item_added(Json::Object(fields), fields@),
{
    let event_id = get_str(&fields, "event_id");
    let previous_item_id = get_opt_str(&fields, "previous_item_id");
    let has_item = has_field(&fields, "item");
    match (event_id, previous_item_id,) {
        (Some(event_id), Some(previous_item_id),) => {
            if has_item {
                let mut fields = fields;
                let item = take_field(&mut fields, "item");
                ServerEvent::ConversationItemAdded { event_id, previous_item_id, item }
            } else {
                ServerEvent::Unknown(Json::Object(fields))
            }
        },
        _ => ServerEvent::Unknown(Json::Object(fields)),
    }
}

fn decode_conversation_item_done_members(fields: Vec<(String, Json)>) -> (r: ServerEvent)
    ensures
        r == decode_conversation_item_done(Json::Object(fields), fields@),
{
    let event_id = get_str(&fields, "event_id");
    let previous_item_id = get_opt_str(&fields, "previous_item_id");
    let has_item = has_field(&fields, "item");
    match (event_id, previous_item_id,) {
        (Some(event_id), Some(previous_item_id),) => {
            if has_item {
                let mut fields = fields;
                let item = take_field(&mut fields, "item");
                ServerEvent::ConversationItemDone { event_id, previous_item_id, item }
            } else {
                ServerEvent::Unknown(Json::Object(fields))
            }
        },
        _ => ServerEvent::Unknown(Json::Object(fields)),
    }
}

fn decode_conversation_item_retrieved_members(fields: Vec<(String, Json)>) -> (r: ServerEvent)
    ensures
        r == decode_conversation_item_retrieved(Json::Object(fields), fields@),
{
    let event_id = get_str(&fields, "event_id");
    let has_item = has_field(&fields, "item");
    match (event_id,) {
        (Some(event_id),) => {
            if has_item {
                let mut fields = fields;
                let item = take_field(&mut fields, "item");
                ServerEvent::ConversationItemRetrieved { event_id, item }
            } else {
                ServerEvent::Unknown(Json::Object(fields))
            }
        },
        _ => ServerEvent::Unknown(Json::Object(fields)),
    }
}

fn decode_conversation_item_deleted_members(fields: Vec<(String, Json)>) -> (r: ServerEvent)
    ensures
        r == decode_conversation_item_deleted(Json::Object(fields), fields@),
{
    let event_id = get_str(&fields, "event_id");
    let item_id = get_str(&fields, "item_id");
    match (event_id, item_id,) {
        (Some(event_id), Some(item_id),) => {
            ServerEvent::ConversationItemDeleted { event_id, item_id }
        },
        _ => ServerEvent::Unknown(Json::Object(fields)),
    }
}

fn decode_conversation_item_truncated_members(fields: Vec<(String, Json)>) -> (r: ServerEvent)
    ensures
        r == decode_conversation_item_truncated(Json::Object(fields), fields@),
{
    let event_id = get_str(&fields, "event_id");
    let item_id = get_str(&fields, "item_id");
    let content_index = get_u32(&fields, "content_index");
    let audio_end_ms = get_u32(&fields, "audio_end_ms");
    match (event_id, item_id, content_index, audio_end_ms,) {
        (Some(event_id), Some(item_id), Some(content_index), Some(audio_end_ms),) => {
            ServerEvent::ConversationItemTruncated { event_id, item_id, content_index, audio_end_ms }
        },
        _ => ServerEvent::Unknown(Json::Object(fields)),
    }
}

fn decode_input_audio_buffer_committed_members(fields: Vec<(String, Json)>) -> (r: ServerEvent)
    ensures
        r == decode_input_audio_buffer_committed(Json::Object(fields), fields@),
{
    let event_id = get_str(&fields, "event_id");
    let previous_item_id = get_opt_str(&fields, "previous_item_id");
    let item_id = get_str(&fields, "item_id");
    match (event_id, previous_item_id, item_id,) {
        (Some(event_id), Some(previous_item_id), Some(item_id),) => {
            ServerEvent::InputAudioBufferCommitted { event_id, previous_item_id, item_id }
        },
        _ => ServerEvent::Unknown(Json::Object(fields)),
    }
}

fn decode_input_audio_buffer_cleared_members(fields: Vec<(String, Json)>) -> (r: ServerEvent)
    ensures
        r == decode_input_audio_buffer_cleared(Json::Object(fields), fields@),
{
    let event_id = get_str(&fields, "event_id");
    match (event_id,) {
        (Some(event_id),) => {
            ServerEvent::InputAudioBufferCleared { event_id }
        },
        _ => ServerEvent::Unknown(Json::Object(fields)),
    }
}

fn decode_input_audio_buffer_speech_started_members(fields: Vec<(String, Json)>) -> (r: ServerEvent)
    ensures
        r == decode_input_audio_buffer_speech_started(Json::Object(fields), fields@),
{
    let event_id = get_str(&fields, "event_id");
    let audio_start_ms = get_u32(&fields, "audio_start_ms");
    let item_id = get_str(&fields, "item_id");
    match (event_id, audio_start_ms, item_id,) {
        (Some(event_id), Some(audio_start_ms), Some(item_id),) => {
            ServerEvent::InputAudioBufferSpeechStarted { event_id, audio_start_ms, item_id }
        },
        _ => ServerEvent::Unknown(Json::Object(fields)),
    }
}

fn decode_input_audio_buffer_speech_stopped_members(fields: Vec<(String, Json)>) -> (r: ServerEvent)
    ensures
        r == decode_input_audio_buffer_speech_stopped(Json::Object(fields), fields@),
{
    let event_id = get_str(&fields, "event_id");
    let audio_end_ms = get_u32(&fields, "audio_end_ms");
    let item_id = get_str(&fields, "item_id");
    match (event_id, audio_end_ms, item_id,) {
        (Some(event_id), Some(audio_end_ms), Some(item_id),) => {
            ServerEvent::InputAudioBufferSpeechStopped { event_id, audio_end_ms, item_id }
        },
        _ => ServerEvent::Unknown(Json::Object(fields)),
    }
}

fn decode_input_audio_buffer_timeout_triggered_members(fields: Vec<(String, Json)>) -> (r: ServerEvent)
    ensures
        r == decode_input_audio_buffer_timeout_triggered(Json::Object(fields), fields@),
{
    let event_id = get_str(&fields, "event_id");
    let item_id = get_str(&fields, "item_id");
    let audio_start_ms = get_u32(&fields, "audio_start_ms");
    let audio_end_ms = get_u32(&fields, "audio_end_ms");
    match (event_id, item_id, audio_start_ms, audio_end_ms,) {
        (Some(event_id), Some(item_id), Some(audio_start_ms), Some(audio_end_ms),) => {
            ServerEvent::InputAudioBufferTimeoutTriggered { event_id, item_id, audio_start_ms, audio_end_ms }
        },
        _ => ServerEvent::Unknown(Json::Object(fields)),
    }
}

fn decode_dtmf_event_received_members(fields: Vec<(String, Json)>) -> (r: ServerEvent)
    ensures
        r == decode_dtmf_event_received(Json::Object(fields), fields@),
{
    let event = get_str(&fields, "event");
    let received_at = get_u64(&fields, "received_at");
    match (event, received_at,) {
        (Some(event), Some(received_at),) => {
            ServerEvent::DtmfEventReceived { event, received_at }
        },
        _ => ServerEvent::Unknown(Json::Object(fields)),
    }
}

fn decode_output_audio_buffer_started_members(fields: Vec<(String, Json)>) -> (r: ServerEvent)
    ensures
        r == decode_output_audio_buffer_started(Json::Object(fields), fields@),
{
    let event_id = get_str(&fields, "event_id");
    let response_id = get_str(&fields, "response_id");
    match (event_id, response_id,) {
        (Some(event_id), Some(response_id),) => {
            ServerEvent::OutputAudioBufferStarted { event_id, response_id }
        },
        _ => ServerEvent::Unknown(Json::Object(fields)),
    }
}

fn decode_output_audio_buffer_stopped_members(fields: Vec<(String, Json)>) -> (r: ServerEvent)
    ensures
        r == decode_output_audio_buffer_stopped(Json::Object(fields), fields@),
{
    let event_id = get_str(&fields, "event_id");
    let response_id = get_str(&fields, "response_id");
    match (event_id, response_id,) {
        (Some(event_id), Some(response_id),) => {
            ServerEvent::OutputAudioBufferStopped { event_id, response_id }
        },
        _ => ServerEvent::Unknown(Json::Object(fields)),
    }
}

fn decode_output_audio_buffer_cleared_members(fields: Vec<(String, Json)>) -> (r: ServerEvent)
    ensures
        r == decode_output_audio_buffer_cleared(Json::Object(fields), fields@),
{
    let event_id = get_str(&fields, "event_id");
    let response_id = get_str(&fields, "response_id");
    match (event_id, response_id,) {
        (Some(event_id), Some(response_id),) => {
            ServerEvent::OutputAudioBufferCleared { event_id, response_id }
        },
        _ => ServerEvent::Unknown(Json::Object(fields)),
    }
}

fn decode_input_audio_transcription_delta_members(fields: Vec<(String, Json)>) -> (r: ServerEvent)
    ensures
        r == decode_input_audio_transcription_delta(Json::Object(fields), fields@),
{
    let event_id = get_str(&fields, "event_id");
    let item_id = get_str(&fields, "item_id");
    let content_index = get_u32(&fields, "content_index");
    let delta = get_str(&fields, "delta");
    match (event_id, item_id, content_index, delta,) {
        (Some(event_id), Some(item_id), Some(content_index), Some(delta),) => {
            let mut fields = fields;
            proof {
                lemma_member_names_differ();
            }
            let obfuscation = take_opt_field(&mut fields, "obfuscation");
            let logprobs = take_opt_field(&mut fields, "logprobs");
            ServerEvent::InputAudioTranscriptionDelta { event_id, item_id, content_index, delta, obfuscation, logprobs }
        },
        _ => ServerEvent::Unknown(Json::Object(fields)),
    }
}

fn decode_input_audio_transcription_segment_members(fields: Vec<(String, Json)>) -> (r: ServerEvent)
    ensures
        r == decode_input_audio_transcription_segment(Json::Object(fields), fields@),
{
    let event_id = get_str(&fields, "event_id");
    let item_id = get_str(&fields, "item_id");
    let content_index = get_u32(&fields, "content_index");
    let text = get_str(&fields, "text");
    let id = get_opt_str(&fields, "id");
    let speaker = get_opt_str(&fields, "speaker");
    match (event_id, item_id, content_index, text, id, speaker,) {
        (Some(event_id), Some(item_id), Some(content_index), Some(text), Some(id), Some(speaker),) => {
            let mut fields = fields;
            proof {
                lemma_member_names_differ();
            }
            let start = take_opt_field(&mut fields, "start");
            let end = take_opt_field(&mut fields, "end");
            ServerEvent::InputAudioTranscriptionSegment { event_id, item_id, content_index, text, id, speaker, start, end }
        },
        _ => ServerEvent::Unknown(Json::Object(fields)),
    }
}

fn decode_input_audio_transcription_failed_members(fields: Vec<(String, Json)>) -> (r: ServerEvent)
    ensures
        r == decode_input_audio_transcription_failed(Json::Object(fields), fields@),
{
    let event_id = get_str(&fields, "event_id");
    let item_id = get_str(&fields, "item_id");
    let content_index = get_u32(&fields, "content_index");
    let error = get_err(&fields, "error");
    match (event_id, item_id, content_index, error,) {
        (Some(event_id), Some(item_id), Some(content_index), Some(error),) => {
            ServerEvent::InputAudioTranscriptionFailed { event_id, item_id, content_index, error }
        },
        _ => ServerEvent::Unknown(Json::Object(fields)),
    }
}

fn decode_input_audio_transcription_completed_members(fields: Vec<(String, Json)>) -> (r: ServerEvent)
    ensures
        r == decode_input_audio_transcription_completed(Json::Object(fields), fields@),
{
    let event_id = get_str(&fields, "event_id");
    let item_id = get_str(&fields, "item_id");
    let content_index = get_u32(&fields, "content_index");
    let transcript = get_str(&fields, "transcript");
    match (event_id, item_id, content_index, transcript,) {
        (Some(event_id), Some(item_id), Some(content_index), Some(transcript),) => {
            let mut fields = fields;
            let usage = take_opt_field(&mut fields, "usage");
            ServerEvent::InputAudioTranscriptionCompleted { event_id, item_id, content_index, transcript, usage }
        },
        _ => ServerEvent::Unknown(Json::Object(fields)),
    }
}

fn decode_mcp_list_tools_in_progress_members(fields: Vec<(String, Json)>) -> (r: ServerEvent)
    ensures
        r == decode_mcp_list_tools_in_progress(Json::Object(fields), fields@),
{
    let event_id = get_str(&fields, "event_id");
    let item_id = get_str(&fields, "item_id");
    match (event_id, item_id,) {
        (Some(event_id), Some(item_id),) => {
            ServerEvent::McpListToolsInProgress { event_id, item_id }
        },
        _ => ServerEvent::Unknown(Json::Object(fields)),
    }
}

fn decode_mcp_list_tools_completed_members(fields: Vec<(String, Json)>) -> (r: ServerEvent)
    ensures
        r == decode_mcp_list_tools_completed(Json::Object(fields), fields@),
{
    let event_id = get_str(&fields, "event_id");
    let item_id = get_str(&fields, "item_id");
    match (event_id, item_id,) {
        (Some(event_id), Some(item_id),) => {
            ServerEvent::McpListToolsCompleted { event_id, item_id }
        },
        _ => ServerEvent::Unknown(Json::Object(fields)),
    }
}

fn decode_mcp_list_tools_failed_members(fields: Vec<(String, Json)>) -> (r: ServerEvent)
    ensures
        r == decode_mcp_list_tools_failed(Json::Object(fields), fields@),
{
    let event_id = get_str(&fields, "event_id");
    let item_id = get_str(&fields, "item_id");
    let error = get_opt_err(&fields, "error");
    match (event_id, item_id, error,) {
        (Some(event_id), Some(item_id), Some(error),) => {
            ServerEvent::McpListToolsFailed { event_id, item_id, error }
        },
        _ => ServerEvent::Unknown(Json::Object(fields)),
    }
}

fn decode_response_created_members(fields: Vec<(String, Json)>) -> (r: ServerEvent)
    ensures
        r == decode_response_created(Json::Object(fields), fields@),
{
    let event_id = get_str(&fields, "event_id");
    let has_response = has_response_id(&fields, "response");
    match (event_id,) {
        (Some(event_id),) => {
            if has_response {
                let mut fields = fields;
                let response = take_field(&mut fields, "response");
                ServerEvent::ResponseCreated { event_id, response }
            } else {
                ServerEvent::Unknown(Json::Object(fields))
            }
        },
        _ => ServerEvent::Unknown(Json::Object(fields)),
    }
}

fn decode_response_done_members(fields: Vec<(String, Json)>) -> (r: ServerEvent)
    ensures
        r == decode_response_done(Json::Object(fields), fields@),
{
    let event_id = get_str(&fields, "event_id");
    let has_response = has_response_id(&fields, "response");
    match (event_id,) {
        (Some(event_id),) => {
            if has_response {
                let mut fields = fields;
                let response = take_field(&mut fields, "response");
                ServerEvent::ResponseDone { event_id, response }
            } else {
                ServerEvent::Unknown(Json::Object(fields))
            }
        },
        _ => ServerEvent::Unknown(Json::Object(fields)),
    }
}

fn decode_response_output_item_added_members(fields: Vec<(String, Json)>) -> (r: ServerEvent)
    ensures
        r == decode_response_output_item_added(Json::Object(fields), fields@),
{
    let event_id = get_str(&fields, "event_id");
    let response_id = get_str(&fields, "response_id");
    let output_index = get_u32(&fields, "output_index");
    let has_item = has_field(&fields, "item");
    match (event_id, response_id, output_index,) {
        (Some(event_id), Some(response_id), Some(output_index),) => {
            if has_item {
                let mut fields = fields;
                let item = take_field(&mut fields, "item");
                ServerEvent::ResponseOutputItemAdded { event_id, response_id, output_index, item }
            } else {
                ServerEvent::Unknown(Json::Object(fields))
            }
        },
        _ => ServerEvent::Unknown(Json::Object(fields)),
    }
}

fn decode_response_output_item_done_members(fields: Vec<(String, Json)>) -> (r: ServerEvent)
    ensures
        r == decode_response_output_item_done(Json::Object(fields), fields@),
{
    let event_id = get_str(&fields, "event_id");
    let response_id = get_str(&fields, "response_id");
    let output_index = get_u32(&fields, "output_index");
    let has_item = has_field(&fields, "item");
    match (event_id, response_id, output_index,) {
        (Some(event_id), Some(response_id), Some(output_index),) => {
            if has_item {
                let mut fields = fields;
                let item = take_field(&mut fields, "item");
                ServerEvent::ResponseOutputItemDone { event_id, response_id, output_index, item }
            } else {
                ServerEvent::Unknown(Json::Object(fields))
            }
        },
        _ => ServerEvent::Unknown(Json::Object(fields)),
    }
}

fn decode_response_content_part_added_members(fields: Vec<(String, Json)>) -> (r: ServerEvent)
    ensures
        r == decode_response_content_part_added(Json::Object(fields), fields@),
{
    let event_id = get_str(&fields, "event_id");
    let response_id = get_str(&fields, "response_id");
    let item_id = get_str(&fields, "item_id");
    let output_index = get_u32(&fields, "output_index");
    let content_index = get_u32(&fields, "content_index");
    let has_part = has_field(&fields, "part");
    match (event_id, response_id, item_id, output_index, content_index,) {
        (Some(event_id), Some(response_id), Some(item_id), Some(output_index), Some(content_index),) => {
            if has_part {
                let mut fields = fields;
                let part = take_field(&mut fields, "part");
                ServerEvent::ResponseContentPartAdded { event_id, response_id, item_id, output_index, content_index, part }
            } else {
                ServerEvent::Unknown(Json::Object(fields))
            }
        },
        _ => ServerEvent::Unknown(Json::Object(fields)),
    }
}

fn decode_response_content_part_done_members(fields: Vec<(String, Json)>) -> (r: ServerEvent)
    ensures
        r == decode_response_content_part_done(Json::Object(fields), fields@),
{
    let event_id = get_str(&fields, "event_id");
    let response_id = get_str(&fields, "response_id");
    let item_id = get_str(&fields, "item_id");
    let output_index = get_u32(&fields, "output_index");
    let content_index = get_u32(&fields, "content_index");
    let has_part = has_field(&fields, "part");
    match (event_id, response_id, item_id, output_index, content_index,) {
        (Some(event_id), Some(response_id), Some(item_id), Some(output_index), Some(content_index),) => {
            if has_part {
                let mut fields = fields;
                let part = take_field(&mut fields, "part");
                ServerEvent::ResponseContentPartDone { event_id, response_id, item_id, output_index, content_index, part }
            } else {
                ServerEvent::Unknown(Json::Object(fields))
            }
        },
        _ => ServerEvent::Unknown(Json::Object(fields)),
    }
}

fn decode_response_output_text_delta_members(fields: Vec<(String, Json)>) -> (r: ServerEvent)
    ensures
        r == decode_response_output_text_delta(Json::Object(fields), fields@),
{
    let event_id = get_str(&fields, "event_id");
    let response_id = get_str(&fields, "response_id");
    let item_id = get_str(&fields, "item_id");
    let output_index = get_u32(&fields, "output_index");
    let content_index = get_u32(&fields, "content_index");
    let delta = get_str(&fields, "delta");
    match (event_id, response_id, item_id, output_index, content_index, delta,) {
        (Some(event_id), Some(response_id), Some(item_id), Some(output_index), Some(content_index), Some(delta),) => {
            ServerEvent::ResponseOutputTextDelta { event_id, response_id, item_id, output_index, content_index, delta }
        },
        _ => ServerEvent::Unknown(Json::Object(fields)),
    }
}

fn decode_response_output_text_done_members(fields: Vec<(String, Json)>) -> (r: ServerEvent)
    ensures
        r == decode_response_output_text_done(Json::Object(fields), fields@),
{
    let event_id = get_str(&fields, "event_id");
    let response_id = get_str(&fields, "response_id");
    let item_id = get_str(&fields, "item_id");
    let output_index = get_u32(&fields, "output_index");
    let content_index = get_u32(&fields, "content_index");
    let text = get_str(&fields, "text");
    match (event_id, response_id, item_id, output_index, content_index, text,) {
        (Some(event_id), Some(response_id), Some(item_id), Some(output_index), Some(content_index), Some(text),) => {
            ServerEvent::ResponseOutputTextDone { event_id, response_id, item_id, output_index, content_index, text }
        },
        _ => ServerEvent::Unknown(Json::Object(fields)),
    }
}

fn decode_response_output_audio_delta_members(fields: Vec<(String, Json)>) -> (r: ServerEvent)
    ensures
        r == decode_response_output_audio_delta(Json::Object(fields), fields@),
{
    let event_id = get_str(&fields, "event_id");
    let response_id = get_str(&fields, "response_id");
    let item_id = get_str(&fields, "item_id");
    let output_index = get_u32(&fields, "output_index");
    let content_index = get_u32(&fields, "content_index");
    let delta = get_str(&fields, "delta");
    match (event_id, response_id, item_id, output_index, content_index, delta,) {
        (Some(event_id), Some(response_id), Some(item_id), Some(output_index), Some(content_index), Some(delta),) => {
            ServerEvent::ResponseOutputAudioDelta { event_id, response_id, item_id, output_index, content_index, delta }
        },
        _ => ServerEvent::Unknown(Json::Object(fields)),
    }
}

fn decode_response_output_audio_done_members(fields: Vec<(String, Json)>) -> (r: ServerEvent)
    ensures
        r == decode_response_output_audio_done(Json::Object(fields), fields@),
{
    let event_id = get_str(&fields, "event_id");
    let response_id = get_str(&fields, "response_id");
    let item_id = get_str(&fields, "item_id");
    let output_index = get_u32(&fields, "output_index");
    let content_index = get_u32(&fields, "content_index");
    match (event_id, response_id, item_id, output_index, content_index,) {
        (Some(event_id), Some(response_id), Some(item_id), Some(output_index), Some(content_index),) => {
            let mut fields = fields;
            let item = take_opt_field(&mut fields, "item");
            ServerEvent::ResponseOutputAudioDone { event_id, response_id, item_id, output_index, content_index, item }
        },
        _ => ServerEvent::Unknown(Json::Object(fields)),
    }
}

fn decode_response_output_audio_transcript_delta_members(fields: Vec<(String, Json)>) -> (r: ServerEvent)
    ensures
        r == decode_response_output_audio_transcript_delta(Json::Object(fields), fields@),
{
    let event_id = get_str(&fields, "event_id");
    let response_id = get_str(&fields, "response_id");
    let item_id = get_str(&fields, "item_id");
    let output_index = get_u32(&fields, "output_index");
    let content_index = get_u32(&fields, "content_index");
    let delta = get_str(&fields, "delta");
    match (event_id, response_id, item_id, output_index, content_index, delta,) {
        (Some(event_id), Some(response_id), Some(item_id), Some(output_index), Some(content_index), Some(delta),) => {
            ServerEvent::ResponseOutputAudioTranscriptDelta { event_id, response_id, item_id, output_index, content_index, delta }
        },
        _ => ServerEvent::Unknown(Json::Object(fields)),
    }
}

fn decode_response_output_audio_transcript_done_members(fields: Vec<(String, Json)>) -> (r: ServerEvent)
    ensures
        r == decode_response_output_audio_transcript_done(Json::Object(fields), fields@),
{
    let event_id = get_str(&fields, "event_id");
    let response_id = get_str(&fields, "response_id");
    let item_id = get_str(&fields, "item_id");
    let output_index = get_u32(&fields, "output_index");
    let content_index = get_u32(&fields, "content_index");
    let transcript = get_str(&fields, "transcript");
    match (event_id, response_id, item_id, output_index, content_index, transcript,) {
        (Some(event_id), Some(response_id), Some(item_id), Some(output_index), Some(content_index), Some(transcript),) => {
            ServerEvent::ResponseOutputAudioTranscriptDone { event_id, response_id, item_id, output_index, content_index, transcript }
        },
        _ => ServerEvent::Unknown(Json::Object(fields)),
    }
}

fn decode_response_function_call_arguments_delta_members(fields: Vec<(String, Json)>) -> (r: ServerEvent)
    ensures
        r == decode_response_function_call_arguments_delta(Json::Object(fields), fields@),
{
    let event_id = get_str(&fields, "event_id");
    let response_id = get_str(&fields, "response_id");
    let item_id = get_str(&fields, "item_id");
    let output_index = get_u32(&fields, "output_index");
    let call_id = get_str(&fields, "call_id");
    let delta = get_str(&fields, "delta");
    match (event_id, response_id, item_id, output_index, call_id, delta,) {
        (Some(event_id), Some(response_id), Some(item_id), Some(output_index), Some(call_id), Some(delta),) => {
            ServerEvent::ResponseFunctionCallArgumentsDelta { event_id, response_id, item_id, output_index, call_id, delta }
        },
        _ => ServerEvent::Unknown(Json::Object(fields)),
    }
}

fn decode_response_function_call_arguments_done_members(fields: Vec<(String, Json)>) -> (r: ServerEvent)
    ensures
        r == decode_response_function_call_arguments_done(Json::Object(fields), fields@),
{
    let event_id = get_str(&fields, "event_id");
    let response_id = get_str(&fields, "response_id");
    let item_id = get_str(&fields, "item_id");
    let output_index = get_u32(&fields, "output_index");
    let call_id = get_str(&fields, "call_id");
    let name = get_str(&fields, "name");
    let arguments = get_str(&fields, "arguments");
    match (event_id, response_id, item_id, output_index, call_id, name, arguments,) {
        (Some(event_id), Some(response_id), Some(item_id), Some(output_index), Some(call_id), Some(name), Some(arguments),) => {
            ServerEvent::ResponseFunctionCallArgumentsDone { event_id, response_id, item_id, output_index, call_id, name, arguments }
        },
        _ => ServerEvent::Unknown(Json::Object(fields)),
    }
}

fn decode_response_mcp_call_arguments_delta_members(fields: Vec<(String, Json)>) -> (r: ServerEvent)
    ensures
        r == decode_response_mcp_call_arguments_delta(Json::Object(fields), fields@),
{
    let event_id = get_str(&fields, "event_id");
    let response_id = get_str(&fields, "response_id");
    let item_id = get_str(&fields, "item_id");
    let output_index = get_u32(&fields, "output_index");
    let delta = get_str(&fields, "delta");
    match (event_id, response_id, item_id, output_index, delta,) {
        (Some(event_id), Some(response_id), Some(item_id), Some(output_index), Some(delta),) => {
            let mut fields = fields;
            let obfuscation = take_opt_field(&mut fields, "obfuscation");
            ServerEvent::ResponseMcpCallArgumentsDelta { event_id, response_id, item_id, output_index, delta, obfuscation }
        },
        _ => ServerEvent::Unknown(Json::Object(fields)),
    }
}

fn decode_response_mcp_call_arguments_done_members(fields: Vec<(String, Json)>) -> (r: ServerEvent)
    ensures
        r == decode_response_mcp_call_arguments_done(Json::Object(fields), fields@),
{
    let event_id = get_str(&fields, "event_id");
    let response_id = get_str(&fields, "response_id");
    let item_id = get_str(&fields, "item_id");
    let output_index = get_u32(&fields, "output_index");
    let arguments = get_str(&fields, "arguments");
    match (event_id, response_id, item_id, output_index, arguments,) {
        (Some(event_id), Some(response_id), Some(item_id), Some(output_index), Some(arguments),) => {
            ServerEvent::ResponseMcpCallArgumentsDone { event_id, response_id, item_id, output_index, arguments }
        },
        _ => ServerEvent::Unknown(Json::Object(fields)),
    }
}

fn decode_response_mcp_call_in_progress_members(fields: Vec<(String, Json)>) -> (r: ServerEvent)
    ensures
        r == decode_response_mcp_call_in_progress(Json::Object(fields), fields@),
{
    let event_id = get_str(&fields, "event_id");
    let item_id = get_str(&fields, "item_id");
    let output_index = get_u32(&fields, "output_index");
    match (event_id, item_id, output_index,) {
        (Some(event_id), Some(item_id), Some(output_index),) => {
            ServerEvent::ResponseMcpCallInProgress { event_id, item_id, output_index }
        },
        _ => ServerEvent::Unknown(Json::Object(fields)),
    }
}

fn decode_response_mcp_call_completed_members(fields: Vec<(String, Json)>) -> (r: ServerEvent)
    ensures
        r == decode_response_mcp_call_completed(Json::Object(fields), fields@),
{
    let event_id = get_str(&fields, "event_id");
    let item_id = get_str(&fields, "item_id");
    let output_index = get_u32(&fields, "output_index");
    match (event_id, item_id, output_index,) {
        (Some(event_id), Some(item_id), Some(output_index),) => {
            ServerEvent::ResponseMcpCallCompleted { event_id, item_id, output_index }
        },
        _ => ServerEvent::Unknown(Json::Object(fields)),
    }
}

fn decode_response_mcp_call_failed_members(fields: Vec<(String, Json)>) -> (r: ServerEvent)
    ensures
        r == decode_response_mcp_call_failed(Json::Object(fields), fields@),
{
    let event_id = get_str(&fields, "event_id");
    let item_id = get_str(&fields, "item_id");
    let output_index = get_u32(&fields, "output_index");
    match (event_id, item_id, output_index,) {
        (Some(event_id), Some(item_id), Some(output_index),) => {
            ServerEvent::ResponseMcpCallFailed { event_id, item_id, output_index }
        },
        _ => ServerEvent::Unknown(Json::Object(fields)),
    }
}

fn decode_rate_limits_updated_members(fields: Vec<(String, Json)>) -> (r: ServerEvent)
    ensures
        r == decode_rate_limits_updated(Json::Object(fields), fields@),
{
    let event_id = get_str(&fields, "event_id");
    let has_rate_limits = has_field(&fields, "rate_limits");
    match (event_id,) {
        (Some(event_id),) => {
            if has_rate_limits {
                let mut fields = fields;
                let rate_limits = take_field(&mut fields, "rate_limits");
                ServerEvent::RateLimitsUpdated { event_id, rate_limits }
            } else {
                ServerEvent::Unknown(Json::Object(fields))
            }
        },
        _ => ServerEvent::Unknown(Json::Object(fields)),
    }
}

fn decode_tagged_members(t: String, fields: Vec<(String, Json)>) -> (r: ServerEvent)
    ensures
        r == decode_tagged(t@, Json::Object(fields), fields@),
{
    if text_is(&t, "error") {
        decode_error_members(fields)
    } else if text_is(&t, "session.created") {
        decode_session_created_members(fields)
    } else if text_is(&t, "session.updated") {
        decode_session_updated_members(fields)
    } else if text_is(&t, "conversation.item.added") {
        decode_conversation_item_added_members(fields)
    } else if text_is(&t, "conversation.item.done") {
        decode_conversation_item_done_members(fields)
    } else if text_is(&t, "conversation.item.retrieved") {
        decode_conversation_item_retrieved_members(fields)
    } else if text_is(&t, "conversation.item.deleted") {
        decode_conversation_item_deleted_members(fields)
    } else if text_is(&t, "conversation.item.truncated") {
        decode_conversation_item_truncated_members(fields)
    } else if text_is(&t, "input_audio_buffer.committed") {
        decode_input_audio_buffer_committed_members(fields)
    } else if text_is(&t, "input_audio_buffer.cleared") {
        decode_input_audio_buffer_cleared_members(fields)
    } else if text_is(&t, "input_audio_buffer.speech_started") {
        decode_input_audio_buffer_speech_started_members(fields)
    } else if text_is(&t, "input_audio_buffer.speech_stopped") {
        decode_input_audio_buffer_speech_stopped_members(fields)
    } else if text_is(&t, "input_audio_buffer.timeout_triggered") {
        decode_input_audio_buffer_timeout_triggered_members(fields)
    } else if text_is(&t, "input_audio_buffer.dtmf_event_received") {
        decode_dtmf_event_received_members(fields)
    } else if text_is(&t, "output_audio_buffer.started") {
        decode_output_audio_buffer_started_members(fields)
    } else if text_is(&t, "output_audio_buffer.stopped") {
        decode_output_audio_buffer_stopped_members(fields)
    } else if text_is(&t, "output_audio_buffer.cleared") {
        decode_output_audio_buffer_cleared_members(fields)
    } else if text_is(&t, "input_audio_transcription.delta") {
        decode_input_audio_transcription_delta_members(fields)
    } else if text_is(&t, "input_audio_transcription.segment") {
        decode_input_audio_transcription_segment_members(fields)
    } else if text_is(&t, "input_audio_transcription.failed") {
        decode_input_audio_transcription_failed_members(fields)
    } else if text_is(&t, "input_audio_transcription.completed") {
        decode_input_audio_transcription_completed_members(fields)
    } else if text_is(&t, "mcp_list_tools.in_progress") {
        decode_mcp_list_tools_in_progress_members(fields)
    } else if text_is(&t, "mcp_list_tools.completed") {
        decode_mcp_list_tools_completed_members(fields)
    } else if text_is(&t, "mcp_list_tools.failed") {
        decode_mcp_list_tools_failed_members(fields)
    } else if text_is(&t, "response.created") {
        decode_response_created_members(fields)
    } else if text_is(&t, "response.done") {
        decode_response_done_members(fields)
    } else if text_is(&t, "response.output_item.added") {
        decode_response_output_item_added_members(fields)
    } else if text_is(&t, "response.output_item.done") {
        decode_response_output_item_done_members(fields)
    } else if text_is(&t, "response.content_part.added") {
        decode_response_content_part_added_members(fields)
    } else if text_is(&t, "response.content_part.done") {
        decode_response_content_part_done_members(fields)
    } else if text_is(&t, "response.output_text.delta") {
        decode_response_output_text_delta_members(fields)
    } else if text_is(&t, "response.output_text.done") {
        decode_response_output_text_done_members(fields)
    } else if text_is(&t, "response.output_audio.delta") {
        decode_response_output_audio_delta_members(fields)
    } else if text_is(&t, "response.output_audio.done") {
        decode_response_output_audio_done_members(fields)
    } else if text_is(&t, "response.output_audio_transcript.delta") {
        decode_response_output_audio_transcript_delta_members(fields)
    } else if text_is(&t, "response.output_audio_transcript.done") {
        decode_response_output_audio_transcript_done_members(fields)
    } else if text_is(&t, "response.function_call_arguments.delta") {
        decode_response_function_call_arguments_delta_members(fields)
    } else if text_is(&t, "response.function_call_arguments.done") {
        decode_response_function_call_arguments_done_members(fields)
    } else if text_is(&t, "response.mcp_call_arguments.delta") {
        decode_response_mcp_call_arguments_delta_members(fields)
    } else if text_is(&t, "response.mcp_call_arguments.done") {
        decode_response_mcp_call_arguments_done_members(fields)
    } else if text_is(&t, "response.mcp_call.in_progress") {
        decode_response_mcp_call_in_progress_members(fields)
    } else if text_is(&t, "response.mcp_call.completed") {
        decode_response_mcp_call_completed_members(fields)
    } else if text_is(&t, "response.mcp_call.failed") {
        decode_response_mcp_call_failed_members(fields)
    } else if text_is(&t, "rate_limits.updated") {
        decode_rate_limits_updated_members(fields)
    } else {
        ServerEvent::Unknown(Json::Object(fields))
    }
}

/// The lengths of the member names, and where two have the same length a character that tells them apart.
proof fn lemma_member_names_differ()
    ensures
        "type"@.len() == 4,
        "arguments"@.len() == 9,
        "audio_end_ms"@.len() == 12,
        "audio_start_ms"@.len() == 14,
        "call_id"@.len() == 7,
        "content_index"@.len() == 13,
        "delta"@.len() == 5,
        "end"@.len() == 3,
        "error"@.len() == 5,
        "event"@.len() == 5,
        "event_id"@.len() == 8,
        "id"@.len() == 2,
        "item"@.len() == 4,
        "item_id"@.len() == 7,
        "logprobs"@.len() == 8,
        "name"@.len() == 4,
        "obfuscation"@.len() == 11,
        "output_index"@.len() == 12,
        "part"@.len() == 4,
        "previous_item_id"@.len() == 16,
        "rate_limits"@.len() == 11,
        "received_at"@.len() == 11,
        "response"@.len() == 8,
        "response_id"@.len() == 11,
        "session"@.len() == 7,
        "speaker"@.len() == 7,
        "start"@.len() == 5,
        "text"@.len() == 4,
        "transcript"@.len() == 10,
        "usage"@.len() == 5,
        "type"@[0] == 't',
        "item"@[0] == 'i',
        "name"@[0] == 'n',
        "part"@[0] == 'p',
        "type"@[1] == 'y',
        "text"@[1] == 'e',
        "audio_end_ms"@[0] == 'a',
        "output_index"@[0] == 'o',
        "call_id"@[0] == 'c',
        "item_id"@[0] == 'i',
        "session"@[0] == 's',
        "speaker"@[0] == 's',
        "delta"@[0] == 'd',
        "error"@[0] == 'e',
        "event"@[0] == 'e',
        "start"@[0] == 's',
        "usage"@[0] == 'u',
        "error"@[1] == 'r',
        "event"@[1] == 'v',
        "event_id"@[0] == 'e',
        "logprobs"@[0] == 'l',
        "response"@[0] == 'r',
        "text"@[0] == 't',
        "obfuscation"@[0] == 'o',
        "rate_limits"@[0] == 'r',
        "received_at"@[0] == 'r',
        "response_id"@[0] == 'r',
        "rate_limits"@[1] == 'a',
        "received_at"@[1] == 'e',
        "response_id"@[1] == 'e',
        "received_at"@[2] == 'c',
        "response_id"@[2] == 's',
        "session"@[1] == 'e',
        "speaker"@[1] == 'p',
{
    reveal_strlit("type");
    reveal_strlit("arguments");
    reveal_strlit("audio_end_ms");
    reveal_strlit("audio_start_ms");
    reveal_strlit("call_id");
    reveal_strlit("content_index");
    reveal_strlit("delta");
    reveal_strlit("end");
    reveal_strlit("error");
    reveal_strlit("event");
    reveal_strlit("event_id");
    reveal_strlit("id");
    reveal_strlit("item");
    reveal_strlit("item_id");
    reveal_strlit("logprobs");
    reveal_strlit("name");
    reveal_strlit("obfuscation");
    reveal_strlit("output_index");
    reveal_strlit("part");
    reveal_strlit("previous_item_id");
    reveal_strlit("rate_limits");
    reveal_strlit("received_at");
    reveal_strlit("response");
    reveal_strlit("response_id");
    reveal_strlit("session");
    reveal_strlit("speaker");
    reveal_strlit("start");
    reveal_strlit("text");
    reveal_strlit("transcript");
    reveal_strlit("usage");
}

/// The lengths of the `type` values, and where two have the same length a character that tells them apart.
proof fn lemma_event_tags_differ()
    ensures
        "error"@.len() == 5,
        "session.created"@.len() == 15,
        "session.updated"@.len() == 15,
        "conversation.item.added"@.len() == 23,
        "conversation.item.done"@.len() == 22,
        "conversation.item.retrieved"@.len() == 27,
        "conversation.item.deleted"@.len() == 25,
        "conversation.item.truncated"@.len() == 27,
        "input_audio_buffer.committed"@.len() == 28,
        "input_audio_buffer.cleared"@.len() == 26,
        "input_audio_buffer.speech_started"@.len() == 33,
        "input_audio_buffer.speech_stopped"@.len() == 33,
        "input_audio_buffer.timeout_triggered"@.len() == 36,
        "input_audio_buffer.dtmf_event_received"@.len() == 38,
        "output_audio_buffer.started"@.len() == 27,
        "output_audio_buffer.stopped"@.len() == 27,
        "output_audio_buffer.cleared"@.len() == 27,
        "input_audio_transcription.delta"@.len() == 31,
        "input_audio_transcription.segment"@.len() == 33,
        "input_audio_transcription.failed"@.len() == 32,
        "input_audio_transcription.completed"@.len() == 35,
        "mcp_list_tools.in_progress"@.len() == 26,
        "mcp_list_tools.completed"@.len() == 24,
        "mcp_list_tools.failed"@.len() == 21,
        "response.created"@.len() == 16,
        "response.done"@.len() == 13,
        "response.output_item.added"@.len() == 26,
        "response.output_item.done"@.len() == 25,
        "response.content_part.added"@.len() == 27,
        "response.content_part.done"@.len() == 26,
        "response.output_text.delta"@.len() == 26,
        "response.output_text.done"@.len() == 25,
        "response.output_audio.delta"@.len() == 27,
        "response.output_audio.done"@.len() == 26,
        "response.output_audio_transcript.delta"@.len() == 38,
        "response.output_audio_transcript.done"@.len() == 37,
        "response.function_call_arguments.delta"@.len() == 38,
        "response.function_call_arguments.done"@.len() == 37,
        "response.mcp_call_arguments.delta"@.len() == 33,
        "response.mcp_call_arguments.done"@.len() == 32,
        "response.mcp_call.in_progress"@.len() == 29,
        "response.mcp_call.completed"@.len() == 27,
        "response.mcp_call.failed"@.len() == 24,
        "rate_limits.updated"@.len() == 19,
        "session.created"@[8] == 'c',
        "session.updated"@[8] == 'u',
        "conversation.item.retrieved"@[18] == 'r',
        "conversation.item.truncated"@[18] == 't',
        "conversation.item.retrieved"@[0] == 'c',
        "output_audio_buffer.started"@[0] == 'o',
        "output_audio_buffer.stopped"@[0] == 'o',
        "output_audio_buffer.cleared"@[0] == 'o',
        "response.content_part.added"@[0] == 'r',
        "response.output_audio.delta"@[0] == 'r',
        "response.mcp_call.completed"@[0] == 'r',
        "conversation.item.deleted"@[0] == 'c',
        "response.output_item.done"@[0] == 'r',
        "response.output_text.done"@[0] == 'r',
        "conversation.item.truncated"@[0] == 'c',
        "input_audio_buffer.cleared"@[0] == 'i',
        "mcp_list_tools.in_progress"@[0] == 'm',
        "response.output_item.added"@[0] == 'r',
        "response.content_part.done"@[0] == 'r',
        "response.output_text.delta"@[0] == 'r',
        "response.output_audio.done"@[0] == 'r',
        "input_audio_buffer.speech_started"@[28] == 'a',
        "input_audio_buffer.speech_stopped"@[28] == 'o',
        "input_audio_buffer.speech_started"@[12] == 'b',
        "input_audio_transcription.segment"@[12] == 't',
        "input_audio_buffer.speech_started"@[0] == 'i',
        "response.mcp_call_arguments.delta"@[0] == 'r',
        "input_audio_buffer.speech_stopped"@[12] == 'b',
        "input_audio_buffer.speech_stopped"@[0] == 'i',
        "input_audio_buffer.dtmf_event_received"@[0] == 'i',
        "response.output_audio_transcript.delta"@[0] == 'r',
        "response.function_call_arguments.delta"@[0] == 'r',
        "output_audio_buffer.started"@[22] == 'a',
        "output_audio_buffer.stopped"@[22] == 'o',
        "output_audio_buffer.started"@[20] == 's',
        "output_audio_buffer.cleared"@[20] == 'c',
        "output_audio_buffer.stopped"@[20] == 's',
        "input_audio_transcription.segment"@[0] == 'i',
        "input_audio_transcription.failed"@[0] == 'i',
        "response.mcp_call_arguments.done"@[0] == 'r',
        "mcp_list_tools.completed"@[0] == 'm',
        "response.mcp_call.failed"@[0] == 'r',
        "response.output_item.added"@[9] == 'o',
        "response.content_part.done"@[9] == 'c',
        "response.output_item.added"@[16] == 'i',
        "response.output_text.delta"@[16] == 't',
        "response.output_audio.done"@[16] == 'a',
        "response.output_item.done"@[16] == 'i',
        "response.output_text.done"@[16] == 't',
        "response.content_part.added"@[9] == 'c',
        "response.output_audio.delta"@[9] == 'o',
        "response.mcp_call.completed"@[9] == 'm',
        "response.output_text.delta"@[9] == 'o',
        "response.output_audio.done"@[9] == 'o',
        "response.output_audio_transcript.delta"@[9] == 'o',
        "response.function_call_arguments.delta"@[9] == 'f',
        "response.output_audio_transcript.done"@[9] == 'o',
        "response.function_call_arguments.done"@[9] == 'f',
{
    reveal_strlit("error");
    reveal_strlit("session.created");
    reveal_strlit("session.updated");
    reveal_strlit("conversation.item.added");
    reveal_strlit("conversation.item.done");
    reveal_strlit("conversation.item.retrieved");
    reveal_strlit("conversation.item.deleted");
    reveal_strlit("conversation.item.truncated");
    reveal_strlit("input_audio_buffer.committed");
    reveal_strlit("input_audio_buffer.cleared");
    reveal_strlit("input_audio_buffer.speech_started");
    reveal_strlit("input_audio_buffer.speech_stopped");
    reveal_strlit("input_audio_buffer.timeout_triggered");
    reveal_strlit("input_audio_buffer.dtmf_event_received");
    reveal_strlit("output_audio_buffer.started");
    reveal_strlit("output_audio_buffer.stopped");
    reveal_strlit("output_audio_buffer.cleared");
    reveal_strlit("input_audio_transcription.delta");
    reveal_strlit("input_audio_transcription.segment");
    reveal_strlit("input_audio_transcription.failed");
    reveal_strlit("input_audio_transcription.completed");
    reveal_strlit("mcp_list_tools.in_progress");
    reveal_strlit("mcp_list_tools.completed");
    reveal_strlit("mcp_list_tools.failed");
    reveal_strlit("response.created");
    reveal_strlit("response.done");
    reveal_strlit("response.output_item.added");
    reveal_strlit("response.output_item.done");
    reveal_strlit("response.content_part.added");
    reveal_strlit("response.content_part.done");
    reveal_strlit("response.output_text.delta");
    reveal_strlit("response.output_text.done");
    reveal_strlit("response.output_audio.delta");
    reveal_strlit("response.output_audio.done");
    reveal_strlit("response.output_audio_transcript.delta");
    reveal_strlit("response.output_audio_transcript.done");
    reveal_strlit("response.function_call_arguments.delta");
    reveal_strlit("response.function_call_arguments.done");
    reveal_strlit("response.mcp_call_arguments.delta");
    reveal_strlit("response.mcp_call_arguments.done");
    reveal_strlit("response.mcp_call.in_progress");
    reveal_strlit("response.mcp_call.completed");
    reveal_strlit("response.mcp_call.failed");
    reveal_strlit("rate_limits.updated");
}

fn encode_error(event_id: String, error: ServerError) -> (r: Json)
    ensures
        decode_event(r) == (ServerEvent::Error { event_id, error }),
{
    let mut f: Vec<(String, Json)> = Vec::new();
    f.push(("type".to_owned(), Json::Str("error".to_owned())));
    f.push(("event_id".to_owned(), Json::Str(event_id)));
    f.push(("error".to_owned(), encode_server_error(error)));
    proof {
        reveal_with_fuel(field_of, 4);
        lemma_member_names_differ();
        lemma_event_tags_differ();
    }
    Json::Object(f)
}

fn encode_session_created(event_id: String, session: Json) -> (r: Json)
    ensures
        decode_event(r) == (ServerEvent::SessionCreated { event_id, session }),
{
    let mut f: Vec<(String, Json)> = Vec::new();
    f.push(("type".to_owned(), Json::Str("session.created".to_owned())));
    f.push(("event_id".to_owned(), Json::Str(event_id)));
    f.push(("session".to_owned(), session));
    proof {
        reveal_with_fuel(field_of, 4);
        lemma_member_names_differ();
        lemma_event_tags_differ();
    }
    Json::Object(f)
}

fn encode_session_updated(event_id: String, session: Json) -> (r: Json)
    ensures
        decode_event(r) == (ServerEvent::SessionUpdated { event_id, session }),
{
    let mut f: Vec<(String, Json)> = Vec::new();
    f.push(("type".to_owned(), Json::Str("session.updated".to_owned())));
    f.push(("event_id".to_owned(), Json::Str(event_id)));
    f.push(("session".to_owned(), session));
    proof {
        reveal_with_fuel(field_of, 4);
        lemma_member_names_differ();
        lemma_event_tags_differ();
    }
    Json::Object(f)
}

fn encode_conversation_item_added(event_id: String, previous_item_id: Option<String>, item: Json) -> (r: Json)
    ensures
        decode_event(r) == (ServerEvent::ConversationItemAdded { event_id, previous_item_id, item }),
{
    let mut f: Vec<(String, Json)> = Vec::new();
    f.push(("type".to_owned(), Json::Str("conversation.item.added".to_owned())));
    f.push(("event_id".to_owned(), Json::Str(event_id)));
    f.push(("previous_item_id".to_owned(), opt_text(previous_item_id)));
    f.push(("item".to_owned(), item));
    proof {
        reveal_with_fuel(field_of, 5);
        lemma_member_names_differ();
        lemma_event_tags_differ();
    }
    Json::Object(f)
}

fn encode_conversation_item_done(event_id: String, previous_item_id: Option<String>, item: Json) -> (r: Json)
    ensures
        decode_event(r) == (ServerEvent::ConversationItemDone { event_id, previous_item_id, item }),
{
    let mut f: Vec<(String, Json)> = Vec::new();
    f.push(("type".to_owned(), Json::Str("conversation.item.done".to_owned())));
    f.push(("event_id".to_owned(), Json::Str(event_id)));
    f.push(("previous_item_id".to_owned(), opt_text(previous_item_id)));
    f.push(("item".to_owned(), item));
    proof {
        reveal_with_fuel(field_of, 5);
        lemma_member_names_differ();
        lemma_event_tags_differ();
    }
    Json::Object(f)
}

fn encode_conversation_item_retrieved(event_id: String, item: Json) -> (r: Json)
    ensures
        decode_event(r) == (ServerEvent::ConversationItemRetrieved { event_id, item }),
{
    let mut f: Vec<(String, Json)> = Vec::new();
    f.push(("type".to_owned(), Json::Str("conversation.item.retrieved".to_owned())));
    f.push(("event_id".to_owned(), Json::Str(event_id)));
    f.push(("item".to_owned(), item));
    proof {
        reveal_with_fuel(field_of, 4);
        lemma_member_names_differ();
        lemma_event_tags_differ();
    }
    Json::Object(f)
}

fn encode_conversation_item_deleted(event_id: String, item_id: String) -> (r: Json)
    ensures
        decode_event(r) == (ServerEvent::ConversationItemDeleted { event_id, item_id }),
{
    let mut f: Vec<(String, Json)> = Vec::new();
    f.push(("type".to_owned(), Json::Str("conversation.item.deleted".to_owned())));
    f.push(("event_id".to_owned(), Json::Str(event_id)));
    f.push(("item_id".to_owned(), Json::Str(item_id)));
    proof {
        reveal_with_fuel(field_of, 4);
        lemma_member_names_differ();
        lemma_event_tags_differ();
    }
    Json::Object(f)
}

fn encode_conversation_item_truncated(event_id: String, item_id: String, content_index: u32, audio_end_ms: u32) -> (r: Json)
    ensures
        decode_event(r) == (ServerEvent::ConversationItemTruncated { event_id, item_id, content_index, audio_end_ms }),
{
    let mut f: Vec<(String, Json)> = Vec::new();
    f.push(("type".to_owned(), Json::Str("conversation.item.truncated".to_owned())));
    f.push(("event_id".to_owned(), Json::Str(event_id)));
    f.push(("item_id".to_owned(), Json::Str(item_id)));
    f.push(("content_index".to_owned(), Json::UInt(content_index as u64)));
    f.push(("audio_end_ms".to_owned(), Json::UInt(audio_end_ms as u64)));
    proof {
        reveal_with_fuel(field_of, 6);
        lemma_member_names_differ();
        lemma_event_tags_differ();
    }
    Json::Object(f)
}

fn encode_input_audio_buffer_committed(event_id: String, previous_item_id: Option<String>, item_id: String) -> (r: Json)
    ensures
        decode_event(r) == (ServerEvent::InputAudioBufferCommitted { event_id, previous_item_id, item_id }),
{
    let mut f: Vec<(String, Json)> = Vec::new();
    f.push(("type".to_owned(), Json::Str("input_audio_buffer.committed".to_owned())));
    f.push(("event_id".to_owned(), Json::Str(event_id)));
    f.push(("previous_item_id".to_owned(), opt_text(previous_item_id)));
    f.push(("item_id".to_owned(), Json::Str(item_id)));
    proof {
        reveal_with_fuel(field_of, 5);
        lemma_member_names_differ();
        lemma_event_tags_differ();
    }
    Json::Object(f)
}

fn encode_input_audio_buffer_cleared(event_id: String) -> (r: Json)
    ensures
        decode_event(r) == (ServerEvent::InputAudioBufferCleared { event_id }),
{
    let mut f: Vec<(String, Json)> = Vec::new();
    f.push(("type".to_owned(), Json::Str("input_audio_buffer.cleared".to_owned())));
    f.push(("event_id".to_owned(), Json::Str(event_id)));
    proof {
        reveal_with_fuel(field_of, 3);
        lemma_member_names_differ();
        lemma_event_tags_differ();
    }
    Json::Object(f)
}

fn encode_input_audio_buffer_speech_started(event_id: String, audio_start_ms: u32, item_id: String) -> (r: Json)
    ensures
        decode_event(r) == (ServerEvent::InputAudioBufferSpeechStarted { event_id, audio_start_ms, item_id }),
{
    let mut f: Vec<(String, Json)> = Vec::new();
    f.push(("type".to_owned(), Json::Str("input_audio_buffer.speech_started".to_owned())));
    f.push(("event_id".to_owned(), Json::Str(event_id)));
    f.push(("audio_start_ms".to_owned(), Json::UInt(audio_start_ms as u64)));
    f.push(("item_id".to_owned(), Json::Str(item_id)));
    proof {
        reveal_with_fuel(field_of, 5);
        lemma_member_names_differ();
        lemma_event_tags_differ();
    }
    Json::Object(f)
}

fn encode_input_audio_buffer_speech_stopped(event_id: String, audio_end_ms: u32, item_id: String) -> (r: Json)
    ensures
        decode_event(r) == (ServerEvent::InputAudioBufferSpeechStopped { event_id, audio_end_ms, item_id }),
{
    let mut f: Vec<(String, Json)> = Vec::new();
    f.push(("type".to_owned(), Json::Str("input_audio_buffer.speech_stopped".to_owned())));
    f.push(("event_id".to_owned(), Json::Str(event_id)));
    f.push(("audio_end_ms".to_owned(), Json::UInt(audio_end_ms as u64)));
    f.push(("item_id".to_owned(), Json::Str(item_id)));
    proof {
        reveal_with_fuel(field_of, 5);
        lemma_member_names_differ();
        lemma_event_tags_differ();
    }
    Json::Object(f)
}

fn encode_input_audio_buffer_timeout_triggered(event_id: String, item_id: String, audio_start_ms: u32, audio_end_ms: u32) -> (r: Json)
    ensures
        decode_event(r) == (ServerEvent::InputAudioBufferTimeoutTriggered { event_id, item_id, audio_start_ms, audio_end_ms }),
{
    let mut f: Vec<(String, Json)> = Vec::new();
    f.push(("type".to_owned(), Json::Str("input_audio_buffer.timeout_triggered".to_owned())));
    f.push(("event_id".to_owned(), Json::Str(event_id)));
    f.push(("item_id".to_owned(), Json::Str(item_id)));
    f.push(("audio_start_ms".to_owned(), Json::UInt(audio_start_ms as u64)));
    f.push(("audio_end_ms".to_owned(), Json::UInt(audio_end_ms as u64)));
    proof {
        reveal_with_fuel(field_of, 6);
        lemma_member_names_differ();
        lemma_event_tags_differ();
    }
    Json::Object(f)
}

fn encode_dtmf_event_received(event: String, received_at: u64) -> (r: Json)
    ensures
        decode_event(r) == (ServerEvent::DtmfEventReceived { event, received_at }),
{
    let mut f: Vec<(String, Json)> = Vec::new();
    f.push(("type".to_owned(), Json::Str("input_audio_buffer.dtmf_event_received".to_owned())));
    f.push(("event".to_owned(), Json::Str(event)));
    f.push(("received_at".to_owned(), Json::UInt(received_at)));
    proof {
        reveal_with_fuel(field_of, 4);
        lemma_member_names_differ();
        lemma_event_tags_differ();
    }
    Json::Object(f)
}

fn encode_output_audio_buffer_started(event_id: String, response_id: String) -> (r: Json)
    ensures
        decode_event(r) == (ServerEvent::OutputAudioBufferStarted { event_id, response_id }),
{
    let mut f: Vec<(String, Json)> = Vec::new();
    f.push(("type".to_owned(), Json::Str("output_audio_buffer.started".to_owned())));
    f.push(("event_id".to_owned(), Json::Str(event_id)));
    f.push(("response_id".to_owned(), Json::Str(response_id)));
    proof {
        reveal_with_fuel(field_of, 4);
        lemma_member_names_differ();
        lemma_event_tags_differ();
    }
    Json::Object(f)
}

fn encode_output_audio_buffer_stopped(event_id: String, response_id: String) -> (r: Json)
    ensures
        decode_event(r) == (ServerEvent::OutputAudioBufferStopped { event_id, response_id }),
{
    let mut f: Vec<(String, Json)> = Vec::new();
    f.push(("type".to_owned(), Json::Str("output_audio_buffer.stopped".to_owned())));
    f.push(("event_id".to_owned(), Json::Str(event_id)));
    f.push(("response_id".to_owned(), Json::Str(response_id)));
    proof {
        reveal_with_fuel(field_of, 4);
        lemma_member_names_differ();
        lemma_event_tags_differ();
    }
    Json::Object(f)
}

fn encode_output_audio_buffer_cleared(event_id: String, response_id: String) -> (r: Json)
    ensures
        decode_event(r) == (ServerEvent::OutputAudioBufferCleared { event_id, response_id }),
{
    let mut f: Vec<(String, Json)> = Vec::new();
    f.push(("type".to_owned(), Json::Str("output_audio_buffer.cleared".to_owned())));
    f.push(("event_id".to_owned(), Json::Str(event_id)));
    f.push(("response_id".to_owned(), Json::Str(response_id)));
    proof {
        reveal_with_fuel(field_of, 4);
        lemma_member_names_differ();
        lemma_event_tags_differ();
    }
    Json::Object(f)
}

fn encode_input_audio_transcription_delta(event_id: String, item_id: String, content_index: u32, delta: String, obfuscation: Option<Json>, logprobs: Option<Json>) -> (r: Json)
    ensures
        decode_event(r) == (ServerEvent::InputAudioTranscriptionDelta { event_id, item_id, content_index, delta, obfuscation, logprobs }),
{
    let mut f: Vec<(String, Json)> = Vec::new();
    f.push(("type".to_owned(), Json::Str("input_audio_transcription.delta".to_owned())));
    f.push(("event_id".to_owned(), Json::Str(event_id)));
    f.push(("item_id".to_owned(), Json::Str(item_id)));
    f.push(("content_index".to_owned(), Json::UInt(content_index as u64)));
    f.push(("delta".to_owned(), Json::Str(delta)));
    match obfuscation {
        Some(v) => f.push(("obfuscation".to_owned(), v)),
        None => {},
    }
    match logprobs {
        Some(v) => f.push(("logprobs".to_owned(), v)),
        None => {},
    }
    proof {
        reveal_with_fuel(field_of, 8);
        lemma_member_names_differ();
        lemma_event_tags_differ();
    }
    Json::Object(f)
}

fn encode_input_audio_transcription_segment(event_id: String, item_id: String, content_index: u32, text: String, id: Option<String>, speaker: Option<String>, start: Option<Json>, end: Option<Json>) -> (r: Json)
    ensures
        decode_event(r) == (ServerEvent::InputAudioTranscriptionSegment { event_id, item_id, content_index, text, id, speaker, start, end }),
{
    let mut f: Vec<(String, Json)> = Vec::new();
    f.push(("type".to_owned(), Json::Str("input_audio_transcription.segment".to_owned())));
    f.push(("event_id".to_owned(), Json::Str(event_id)));
    f.push(("item_id".to_owned(), Json::Str(item_id)));
    f.push(("content_index".to_owned(), Json::UInt(content_index as u64)));
    f.push(("text".to_owned(), Json::Str(text)));
    f.push(("id".to_owned(), opt_text(id)));
    f.push(("speaker".to_owned(), opt_text(speaker)));
    match start {
        Some(v) => f.push(("start".to_owned(), v)),
        None => {},
    }
    match end {
        Some(v) => f.push(("end".to_owned(), v)),
        None => {},
    }
    proof {
        reveal_with_fuel(field_of, 10);
        lemma_member_names_differ();
        lemma_event_tags_differ();
    }
    Json::Object(f)
}

fn encode_input_audio_transcription_failed(event_id: String, item_id: String, content_index: u32, error: ServerError) -> (r: Json)
    ensures
        decode_event(r) == (ServerEvent::InputAudioTranscriptionFailed { event_id, item_id, content_index, error }),
{
    let mut f: Vec<(String, Json)> = Vec::new();
    f.push(("type".to_owned(), Json::Str("input_audio_transcription.failed".to_owned())));
    f.push(("event_id".to_owned(), Json::Str(event_id)));
    f.push(("item_id".to_owned(), Json::Str(item_id)));
    f.push(("content_index".to_owned(), Json::UInt(content_index as u64)));
    f.push(("error".to_owned(), encode_server_error(error)));
    proof {
        reveal_with_fuel(field_of, 6);
        lemma_member_names_differ();
        lemma_event_tags_differ();
    }
    Json::Object(f)
}

fn encode_input_audio_transcription_completed(event_id: String, item_id: String, content_index: u32, transcript: String, usage: Option<Json>) -> (r: Json)
    ensures
        decode_event(r) == (ServerEvent::InputAudioTranscriptionCompleted { event_id, item_id, content_index, transcript, usage }),
{
    let mut f: Vec<(String, Json)> = Vec::new();
    f.push(("type".to_owned(), Json::Str("input_audio_transcription.completed".to_owned())));
    f.push(("event_id".to_owned(), Json::Str(event_id)));
    f.push(("item_id".to_owned(), Json::Str(item_id)));
    f.push(("content_index".to_owned(), Json::UInt(content_index as u64)));
    f.push(("transcript".to_owned(), Json::Str(transcript)));
    match usage {
        Some(v) => f.push(("usage".to_owned(), v)),
        None => {},
    }
    proof {
        reveal_with_fuel(field_of, 7);
        lemma_member_names_differ();
        lemma_event_tags_differ();
    }
    Json::Object(f)
}

fn encode_mcp_list_tools_in_progress(event_id: String, item_id: String) -> (r: Json)
    ensures
        decode_event(r) == (ServerEvent::McpListToolsInProgress { event_id, item_id }),
{
    let mut f: Vec<(String, Json)> = Vec::new();
    f.push(("type".to_owned(), Json::Str("mcp_list_tools.in_progress".to_owned())));
    f.push(("event_id".to_owned(), Json::Str(event_id)));
    f.push(("item_id".to_owned(), Json::Str(item_id)));
    proof {
        reveal_with_fuel(field_of, 4);
        lemma_member_names_differ();
        lemma_event_tags_differ();
    }
    Json::Object(f)
}

fn encode_mcp_list_tools_completed(event_id: String, item_id: String) -> (r: Json)
    ensures
        decode_event(r) == (ServerEvent::McpListToolsCompleted { event_id, item_id }),
{
    let mut f: Vec<(String, Json)> = Vec::new();
    f.push(("type".to_owned(), Json::Str("mcp_list_tools.completed".to_owned())));
    f.push(("event_id".to_owned(), Json::Str(event_id)));
    f.push(("item_id".to_owned(), Json::Str(item_id)));
    proof {
        reveal_with_fuel(field_of, 4);
        lemma_member_names_differ();
        lemma_event_tags_differ();
    }
    Json::Object(f)
}

fn encode_mcp_list_tools_failed(event_id: String, item_id: String, error: Option<ServerError>) -> (r: Json)
    ensures
        decode_event(r) == (ServerEvent::McpListToolsFailed { event_id, item_id, error }),
{
    let mut f: Vec<(String, Json)> = Vec::new();
    f.push(("type".to_owned(), Json::Str("mcp_list_tools.failed".to_owned())));
    f.push(("event_id".to_owned(), Json::Str(event_id)));
    f.push(("item_id".to_owned(), Json::Str(item_id)));
    f.push(("error".to_owned(), opt_error_json(error)));
    proof {
        reveal_with_fuel(field_of, 5);
        lemma_member_names_differ();
        lemma_event_tags_differ();
    }
    Json::Object(f)
}

fn encode_response_created(event_id: String, response: Json) -> (r: Json)
    requires
        response_id_in(response) is Some,
    ensures
        decode_event(r) == (ServerEvent::ResponseCreated { event_id, response }),
{
    let mut f: Vec<(String, Json)> = Vec::new();
    f.push(("type".to_owned(), Json::Str("response.created".to_owned())));
    f.push(("event_id".to_owned(), Json::Str(event_id)));
    f.push(("response".to_owned(), response));
    proof {
        reveal_with_fuel(field_of, 4);
        lemma_member_names_differ();
        lemma_event_tags_differ();
    }
    Json::Object(f)
}

fn encode_response_done(event_id: String, response: Json) -> (r: Json)
    requires
        response_id_in(response) is Some,
    ensures
        decode_event(r) == (ServerEvent::ResponseDone { event_id, response }),
{
    let mut f: Vec<(String, Json)> = Vec::new();
    f.push(("type".to_owned(), Json::Str("response.done".to_owned())));
    f.push(("event_id".to_owned(), Json::Str(event_id)));
    f.push(("response".to_owned(), response));
    proof {
        reveal_with_fuel(field_of, 4);
        lemma_member_names_differ();
        lemma_event_tags_differ();
    }
    Json::Object(f)
}

fn encode_response_output_item_added(event_id: String, response_id: String, output_index: u32, item: Json) -> (r: Json)
    ensures
        decode_event(r) == (ServerEvent::ResponseOutputItemAdded { event_id, response_id, output_index, item }),
{
    let mut f: Vec<(String, Json)> = Vec::new();
    f.push(("type".to_owned(), Json::Str("response.output_item.added".to_owned())));
    f.push(("event_id".to_owned(), Json::Str(event_id)));
    f.push(("response_id".to_owned(), Json::Str(response_id)));
    f.push(("output_index".to_owned(), Json::UInt(output_index as u64)));
    f.push(("item".to_owned(), item));
    proof {
        reveal_with_fuel(field_of, 6);
        lemma_member_names_differ();
        lemma_event_tags_differ();
    }
    Json::Object(f)
}

fn encode_response_output_item_done(event_id: String, response_id: String, output_index: u32, item: Json) -> (r: Json)
    ensures
        decode_event(r) == (ServerEvent::ResponseOutputItemDone { event_id, response_id, output_index, item }),
{
    let mut f: Vec<(String, Json)> = Vec::new();
    f.push(("type".to_owned(), Json::Str("response.output_item.done".to_owned())));
    f.push(("event_id".to_owned(), Json::Str(event_id)));
    f.push(("response_id".to_owned(), Json::Str(response_id)));
    f.push(("output_index".to_owned(), Json::UInt(output_index as u64)));
    f.push(("item".to_owned(), item));
    proof {
        reveal_with_fuel(field_of, 6);
        lemma_member_names_differ();
        lemma_event_tags_differ();
    }
    Json::Object(f)
}

fn encode_response_content_part_added(event_id: String, response_id: String, item_id: String, output_index: u32, content_index: u32, part: Json) -> (r: Json)
    ensures
        decode_event(r) == (ServerEvent::ResponseContentPartAdded { event_id, response_id, item_id, output_index, content_index, part }),
{
    let mut f: Vec<(String, Json)> = Vec::new();
    f.push(("type".to_owned(), Json::Str("response.content_part.added".to_owned())));
    f.push(("event_id".to_owned(), Json::Str(event_id)));
    f.push(("response_id".to_owned(), Json::Str(response_id)));
    f.push(("item_id".to_owned(), Json::Str(item_id)));
    f.push(("output_index".to_owned(), Json::UInt(output_index as u64)));
    f.push(("content_index".to_owned(), Json::UInt(content_index as u64)));
    f.push(("part".to_owned(), part));
    proof {
        reveal_with_fuel(field_of, 8);
        lemma_member_names_differ();
        lemma_event_tags_differ();
    }
    Json::Object(f)
}

fn encode_response_content_part_done(event_id: String, response_id: String, item_id: String, output_index: u32, content_index: u32, part: Json) -> (r: Json)
    ensures
        decode_event(r) == (ServerEvent::ResponseContentPartDone { event_id, response_id, item_id, output_index, content_index, part }),
{
    let mut f: Vec<(String, Json)> = Vec::new();
    f.push(("type".to_owned(), Json::Str("response.content_part.done".to_owned())));
    f.push(("event_id".to_owned(), Json::Str(event_id)));
    f.push(("response_id".to_owned(), Json::Str(response_id)));
    f.push(("item_id".to_owned(), Json::Str(item_id)));
    f.push(("output_index".to_owned(), Json::UInt(output_index as u64)));
    f.push(("content_index".to_owned(), Json::UInt(content_index as u64)));
    f.push(("part".to_owned(), part));
    proof {
        reveal_with_fuel(field_of, 8);
        lemma_member_names_differ();
        lemma_event_tags_differ();
    }
    Json::Object(f)
}

fn encode_response_output_text_delta(event_id: String, response_id: String, item_id: String, output_index: u32, content_index: u32, delta: String) -> (r: Json)
    ensures
        decode_event(r) == (ServerEvent::ResponseOutputTextDelta { event_id, response_id, item_id, output_index, content_index, delta }),
{
    let mut f: Vec<(String, Json)> = Vec::new();
    f.push(("type".to_owned(), Json::Str("response.output_text.delta".to_owned())));
    f.push(("event_id".to_owned(), Json::Str(event_id)));
    f.push(("response_id".to_owned(), Json::Str(response_id)));
    f.push(("item_id".to_owned(), Json::Str(item_id)));
    f.push(("output_index".to_owned(), Json::UInt(output_index as u64)));
    f.push(("content_index".to_owned(), Json::UInt(content_index as u64)));
    f.push(("delta".to_owned(), Json::Str(delta)));
    proof {
        reveal_with_fuel(field_of, 8);
        lemma_member_names_differ();
        lemma_event_tags_differ();
    }
    Json::Object(f)
}

fn encode_response_output_text_done(event_id: String, response_id: String, item_id: String, output_index: u32, content_index: u32, text: String) -> (r: Json)
    ensures
        decode_event(r) == (ServerEvent::ResponseOutputTextDone { event_id, response_id, item_id, output_index, content_index, text }),
{
    let mut f: Vec<(String, Json)> = Vec::new();
    f.push(("type".to_owned(), Json::Str("response.output_text.done".to_owned())));
    f.push(("event_id".to_owned(), Json::Str(event_id)));
    f.push(("response_id".to_owned(), Json::Str(response_id)));
    f.push(("item_id".to_owned(), Json::Str(item_id)));
    f.push(("output_index".to_owned(), Json::UInt(output_index as u64)));
    f.push(("content_index".to_owned(), Json::UInt(content_index as u64)));
    f.push(("text".to_owned(), Json::Str(text)));
    proof {
        reveal_with_fuel(field_of, 8);
        lemma_member_names_differ();
        lemma_event_tags_differ();
    }
    Json::Object(f)
}

fn encode_response_output_audio_delta(event_id: String, response_id: String, item_id: String, output_index: u32, content_index: u32, delta: String) -> (r: Json)
    ensures
        decode_event(r) == (ServerEvent::ResponseOutputAudioDelta { event_id, response_id, item_id, output_index, content_index, delta }),
{
    let mut f: Vec<(String, Json)> = Vec::new();
    f.push(("type".to_owned(), Json::Str("response.output_audio.delta".to_owned())));
    f.push(("event_id".to_owned(), Json::Str(event_id)));
    f.push(("response_id".to_owned(), Json::Str(response_id)));
    f.push(("item_id".to_owned(), Json::Str(item_id)));
    f.push(("output_index".to_owned(), Json::UInt(output_index as u64)));
    f.push(("content_index".to_owned(), Json::UInt(content_index as u64)));
    f.push(("delta".to_owned(), Json::Str(delta)));
    proof {
        reveal_with_fuel(field_of, 8);
        lemma_member_names_differ();
        lemma_event_tags_differ();
    }
    Json::Object(f)
}

fn encode_response_output_audio_done(event_id: String, response_id: String, item_id: String, output_index: u32, content_index: u32, item: Option<Json>) -> (r: Json)
    ensures
        decode_event(r) == (ServerEvent::ResponseOutputAudioDone { event_id, response_id, item_id, output_index, content_index, item }),
{
    let mut f: Vec<(String, Json)> = Vec::new();
    f.push(("type".to_owned(), Json::Str("response.output_audio.done".to_owned())));
    f.push(("event_id".to_owned(), Json::Str(event_id)));
    f.push(("response_id".to_owned(), Json::Str(response_id)));
    f.push(("item_id".to_owned(), Json::Str(item_id)));
    f.push(("output_index".to_owned(), Json::UInt(output_index as u64)));
    f.push(("content_index".to_owned(), Json::UInt(content_index as u64)));
    match item {
        Some(v) => f.push(("item".to_owned(), v)),
        None => {},
    }
    proof {
        reveal_with_fuel(field_of, 8);
        lemma_member_names_differ();
        lemma_event_tags_differ();
    }
    Json::Object(f)
}

fn encode_response_output_audio_transcript_delta(event_id: String, response_id: String, item_id: String, output_index: u32, content_index: u32, delta: String) -> (r: Json)
    ensures
        decode_event(r) == (ServerEvent::ResponseOutputAudioTranscriptDelta { event_id, response_id, item_id, output_index, content_index, delta }),
{
    let mut f: Vec<(String, Json)> = Vec::new();
    f.push(("type".to_owned(), Json::Str("response.output_audio_transcript.delta".to_owned())));
    f.push(("event_id".to_owned(), Json::Str(event_id)));
    f.push(("response_id".to_owned(), Json::Str(response_id)));
    f.push(("item_id".to_owned(), Json::Str(item_id)));
    f.push(("output_index".to_owned(), Json::UInt(output_index as u64)));
    f.push(("content_index".to_owned(), Json::UInt(content_index as u64)));
    f.push(("delta".to_owned(), Json::Str(delta)));
    proof {
        reveal_with_fuel(field_of, 8);
        lemma_member_names_differ();
        lemma_event_tags_differ();
    }
    Json::Object(f)
}

fn encode_response_output_audio_transcript_done(event_id: String, response_id: String, item_id: String, output_index: u32, content_index: u32, transcript: String) -> (r: Json)
    ensures
        decode_event(r) == (ServerEvent::ResponseOutputAudioTranscriptDone { event_id, response_id, item_id, output_index, content_index, transcript }),
{
    let mut f: Vec<(String, Json)> = Vec::new();
    f.push(("type".to_owned(), Json::Str("response.output_audio_transcript.done".to_owned())));
    f.push(("event_id".to_owned(), Json::Str(event_id)));
    f.push(("response_id".to_owned(), Json::Str(response_id)));
    f.push(("item_id".to_owned(), Json::Str(item_id)));
    f.push(("output_index".to_owned(), Json::UInt(output_index as u64)));
    f.push(("content_index".to_owned(), Json::UInt(content_index as u64)));
    f.push(("transcript".to_owned(), Json::Str(transcript)));
    proof {
        reveal_with_fuel(field_of, 8);
        lemma_member_names_differ();
        lemma_event_tags_differ();
    }
    Json::Object(f)
}

fn encode_response_function_call_arguments_delta(event_id: String, response_id: String, item_id: String, output_index: u32, call_id: String, delta: String) -> (r: Json)
    ensures
        decode_event(r) == (ServerEvent::ResponseFunctionCallArgumentsDelta { event_id, response_id, item_id, output_index, call_id, delta }),
{
    let mut f: Vec<(String, Json)> = Vec::new();
    f.push(("type".to_owned(), Json::Str("response.function_call_arguments.delta".to_owned())));
    f.push(("event_id".to_owned(), Json::Str(event_id)));
    f.push(("response_id".to_owned(), Json::Str(response_id)));
    f.push(("item_id".to_owned(), Json::Str(item_id)));
    f.push(("output_index".to_owned(), Json::UInt(output_index as u64)));
    f.push(("call_id".to_owned(), Json::Str(call_id)));
    f.push(("delta".to_owned(), Json::Str(delta)));
    proof {
        reveal_with_fuel(field_of, 8);
        lemma_member_names_differ();
        lemma_event_tags_differ();
    }
    Json::Object(f)
}

fn encode_response_function_call_arguments_done(event_id: String, response_id: String, item_id: String, output_index: u32, call_id: String, name: String, arguments: String) -> (r: Json)
    ensures
        decode_event(r) == (ServerEvent::ResponseFunctionCallArgumentsDone { event_id, response_id, item_id, output_index, call_id, name, arguments }),
{
    let mut f: Vec<(String, Json)> = Vec::new();
    f.push(("type".to_owned(), Json::Str("response.function_call_arguments.done".to_owned())));
    f.push(("event_id".to_owned(), Json::Str(event_id)));
    f.push(("response_id".to_owned(), Json::Str(response_id)));
    f.push(("item_id".to_owned(), Json::Str(item_id)));
    f.push(("output_index".to_owned(), Json::UInt(output_index as u64)));
    f.push(("call_id".to_owned(), Json::Str(call_id)));
    f.push(("name".to_owned(), Json::Str(name)));
    f.push(("arguments".to_owned(), Json::Str(arguments)));
    proof {
        reveal_with_fuel(field_of, 9);
        lemma_member_names_differ();
        lemma_event_tags_differ();
    }
    Json::Object(f)
}

fn encode_response_mcp_call_arguments_delta(event_id: String, response_id: String, item_id: String, output_index: u32, delta: String, obfuscation: Option<Json>) -> (r: Json)
    ensures
        decode_event(r) == (ServerEvent::ResponseMcpCallArgumentsDelta { event_id, response_id, item_id, output_index, delta, obfuscation }),
{
    let mut f: Vec<(String, Json)> = Vec::new();
    f.push(("type".to_owned(), Json::Str("response.mcp_call_arguments.delta".to_owned())));
    f.push(("event_id".to_owned(), Json::Str(event_id)));
    f.push(("response_id".to_owned(), Json::Str(response_id)));
    f.push(("item_id".to_owned(), Json::Str(item_id)));
    f.push(("output_index".to_owned(), Json::UInt(output_index as u64)));
    f.push(("delta".to_owned(), Json::Str(delta)));
    match obfuscation {
        Some(v) => f.push(("obfuscation".to_owned(), v)),
        None => {},
    }
    proof {
        reveal_with_fuel(field_of, 8);
        lemma_member_names_differ();
        lemma_event_tags_differ();
    }
    Json::Object(f)
}

fn encode_response_mcp_call_arguments_done(event_id: String, response_id: String, item_id: String, output_index: u32, arguments: String) -> (r: Json)
    ensures
        decode_event(r) == (ServerEvent::ResponseMcpCallArgumentsDone { event_id, response_id, item_id, output_index, arguments }),
{
    let mut f: Vec<(String, Json)> = Vec::new();
    f.push(("type".to_owned(), Json::Str("response.mcp_call_arguments.done".to_owned())));
    f.push(("event_id".to_owned(), Json::Str(event_id)));
    f.push(("response_id".to_owned(), Json::Str(response_id)));
    f.push(("item_id".to_owned(), Json::Str(item_id)));
    f.push(("output_index".to_owned(), Json::UInt(output_index as u64)));
    f.push(("arguments".to_owned(), Json::Str(arguments)));
    proof {
        reveal_with_fuel(field_of, 7);
        lemma_member_names_differ();
        lemma_event_tags_differ();
    }
    Json::Object(f)
}

fn encode_response_mcp_call_in_progress(event_id: String, item_id: String, output_index: u32) -> (r: Json)
    ensures
        decode_event(r) == (ServerEvent::ResponseMcpCallInProgress { event_id, item_id, output_index }),
{
    let mut f: Vec<(String, Json)> = Vec::new();
    f.push(("type".to_owned(), Json::Str("response.mcp_call.in_progress".to_owned())));
    f.push(("event_id".to_owned(), Json::Str(event_id)));
    f.push(("item_id".to_owned(), Json::Str(item_id)));
    f.push(("output_index".to_owned(), Json::UInt(output_index as u64)));
    proof {
        reveal_with_fuel(field_of, 5);
        lemma_member_names_differ();
        lemma_event_tags_differ();
    }
    Json::Object(f)
}

fn encode_response_mcp_call_completed(event_id: String, item_id: String, output_index: u32) -> (r: Json)
    ensures
        decode_event(r) == (ServerEvent::ResponseMcpCallCompleted { event_id, item_id, output_index }),
{
    let mut f: Vec<(String, Json)> = Vec::new();
    f.push(("type".to_owned(), Json::Str("response.mcp_call.completed".to_owned())));
    f.push(("event_id".to_owned(), Json::Str(event_id)));
    f.push(("item_id".to_owned(), Json::Str(item_id)));
    f.push(("output_index".to_owned(), Json::UInt(output_index as u64)));
    proof {
        reveal_with_fuel(field_of, 5);
        lemma_member_names_differ();
        lemma_event_tags_differ();
    }
    Json::Object(f)
}

fn encode_response_mcp_call_failed(event_id: String, item_id: String, output_index: u32) -> (r: Json)
    ensures
        decode_event(r) == (ServerEvent::ResponseMcpCallFailed { event_id, item_id, output_index }),
{
    let mut f: Vec<(String, Json)> = Vec::new();
    f.push(("type".to_owned(), Json::Str("response.mcp_call.failed".to_owned())));
    f.push(("event_id".to_owned(), Json::Str(event_id)));
    f.push(("item_id".to_owned(), Json::Str(item_id)));
    f.push(("output_index".to_owned(), Json::UInt(output_index as u64)));
    proof {
        reveal_with_fuel(field_of, 5);
        lemma_member_names_differ();
        lemma_event_tags_differ();
    }
    Json::Object(f)
}

fn encode_rate_limits_updated(event_id: String, rate_limits: Json) -> (r: Json)
    ensures
        decode_event(r) == (ServerEvent::RateLimitsUpdated { event_id, rate_limits }),
{
    let mut f: Vec<(String, Json)> = Vec::new();
    f.push(("type".to_owned(), Json::Str("rate_limits.updated".to_owned())));
    f.push(("event_id".to_owned(), Json::Str(event_id)));
    f.push(("rate_limits".to_owned(), rate_limits));
    proof {
        reveal_with_fuel(field_of, 4);
        lemma_member_names_differ();
        lemma_event_tags_differ();
    }
    Json::Object(f)
}

/// The event id a notification carries.
pub open spec fn event_id_of(e: ServerEvent) -> Option<Seq<char>> {
    match e {
        ServerEvent::Error { event_id, .. } => Some(event_id@),
        ServerEvent::SessionCreated { event_id, .. } => Some(event_id@),
        ServerEvent::SessionUpdated { event_id, .. } => Some(event_id@),
        ServerEvent::ConversationItemAdded { event_id, .. } => Some(event_id@),
        ServerEvent::ConversationItemDone { event_id, .. } => Some(event_id@),
        ServerEvent::ConversationItemRetrieved { event_id, .. } => Some(event_id@),
        ServerEvent::ConversationItemDeleted { event_id, .. } => Some(event_id@),
        ServerEvent::ConversationItemTruncated { event_id, .. } => Some(event_id@),
        ServerEvent::InputAudioBufferCommitted { event_id, .. } => Some(event_id@),
        ServerEvent::InputAudioBufferCleared { event_id, .. } => Some(event_id@),
        ServerEvent::InputAudioBufferSpeechStarted { event_id, .. } => Some(event_id@),
        ServerEvent::InputAudioBufferSpeechStopped { event_id, .. } => Some(event_id@),
        ServerEvent::InputAudioBufferTimeoutTriggered { event_id, .. } => Some(event_id@),
        ServerEvent::DtmfEventReceived { .. } => None,
        ServerEvent::OutputAudioBufferStarted { event_id, .. } => Some(event_id@),
        ServerEvent::OutputAudioBufferStopped { event_id, .. } => Some(event_id@),
        ServerEvent::OutputAudioBufferCleared { event_id, .. } => Some(event_id@),
        ServerEvent::InputAudioTranscriptionDelta { event_id, .. } => Some(event_id@),
        ServerEvent::InputAudioTranscriptionSegment { event_id, .. } => Some(event_id@),
        ServerEvent::InputAudioTranscriptionFailed { event_id, .. } => Some(event_id@),
        ServerEvent::InputAudioTranscriptionCompleted { event_id, .. } => Some(event_id@),
        ServerEvent::McpListToolsInProgress { event_id, .. } => Some(event_id@),
        ServerEvent::McpListToolsCompleted { event_id, .. } => Some(event_id@),
        ServerEvent::McpListToolsFailed { event_id, .. } => Some(event_id@),
        ServerEvent::ResponseCreated { event_id, .. } => Some(event_id@),
        ServerEvent::ResponseDone { event_id, .. } => Some(event_id@),
        ServerEvent::ResponseOutputItemAdded { event_id, .. } => Some(event_id@),
        ServerEvent::ResponseOutputItemDone { event_id, .. } => Some(event_id@),
        ServerEvent::ResponseContentPartAdded { event_id, .. } => Some(event_id@),
        ServerEvent::ResponseContentPartDone { event_id, .. } => Some(event_id@),
        ServerEvent::ResponseOutputTextDelta { event_id, .. } => Some(event_id@),
        ServerEvent::ResponseOutputTextDone { event_id, .. } => Some(event_id@),
        ServerEvent::ResponseOutputAudioDelta { event_id, .. } => Some(event_id@),
        ServerEvent::ResponseOutputAudioDone { event_id, .. } => Some(event_id@),
        ServerEvent::ResponseOutputAudioTranscriptDelta { event_id, .. } => Some(event_id@),
        ServerEvent::ResponseOutputAudioTranscriptDone { event_id, .. } => Some(event_id@),
        ServerEvent::ResponseFunctionCallArgumentsDelta { event_id, .. } => Some(event_id@),
        ServerEvent::ResponseFunctionCallArgumentsDone { event_id, .. } => Some(event_id@),
        ServerEvent::ResponseMcpCallArgumentsDelta { event_id, .. } => Some(event_id@),
        ServerEvent::ResponseMcpCallArgumentsDone { event_id, .. } => Some(event_id@),
        ServerEvent::ResponseMcpCallInProgress { event_id, .. } => Some(event_id@),
        ServerEvent::ResponseMcpCallCompleted { event_id, .. } => Some(event_id@),
        ServerEvent::ResponseMcpCallFailed { event_id, .. } => Some(event_id@),
        ServerEvent::RateLimitsUpdated { event_id, .. } => Some(event_id@),
        ServerEvent::Unknown(v) => match v {
            Json::Object(f) => match field_of(f@, "event_id"@) {
                Some(Json::Str(s)) => Some(s@),
                _ => None,
            },
            _ => None,
        },
    }
}

impl ServerEvent {
    /// Decodes a notification from its JSON form, falling back to `Unknown`
    /// with the value untouched.
    pub fn from_json(j: Json) -> (r: ServerEvent)
        ensures
            r == decode_event(j),
    {
        match j {
            Json::Object(fields) => {
                let t = get_str(&fields, "type");
                match t {
                    Some(t) => decode_tagged_members(t, fields),
                    None => ServerEvent::Unknown(Json::Object(fields)),
                }
            },
            other => ServerEvent::Unknown(other),
        }
    }

    /// Encodes the notification as JSON. A known variant encodes to a value
    /// that decodes back to it; `Unknown` gives back exactly the value it holds.
    /// Response notifications must carry a response with an id, as every
    /// decoded one does.
    pub fn to_json(self) -> (r: Json)
        requires
            event_well_formed(self),
        ensures
            self matches ServerEvent::Unknown(v) ==> r == v,
            !(self is Unknown) ==> decode_event(r) == self,
    {
        match self {
            ServerEvent::Error { event_id, error } => encode_error(event_id, error),
            ServerEvent::SessionCreated { event_id, session } => encode_session_created(event_id, session),
            ServerEvent::SessionUpdated { event_id, session } => encode_session_updated(event_id, session),
            ServerEvent::ConversationItemAdded { event_id, previous_item_id, item } => encode_conversation_item_added(event_id, previous_item_id, item),
            ServerEvent::ConversationItemDone { event_id, previous_item_id, item } => encode_conversation_item_done(event_id, previous_item_id, item),
            ServerEvent::ConversationItemRetrieved { event_id, item } => encode_conversation_item_retrieved(event_id, item),
            ServerEvent::ConversationItemDeleted { event_id, item_id } => encode_conversation_item_deleted(event_id, item_id),
            ServerEvent::ConversationItemTruncated { event_id, item_id, content_index, audio_end_ms } => encode_conversation_item_truncated(event_id, item_id, content_index, audio_end_ms),
            ServerEvent::InputAudioBufferCommitted { event_id, previous_item_id, item_id } => encode_input_audio_buffer_committed(event_id, previous_item_id, item_id),
            ServerEvent::InputAudioBufferCleared { event_id } => encode_input_audio_buffer_cleared(event_id),
            ServerEvent::InputAudioBufferSpeechStarted { event_id, audio_start_ms, item_id } => encode_input_audio_buffer_speech_started(event_id, audio_start_ms, item_id),
            ServerEvent::InputAudioBufferSpeechStopped { event_id, audio_end_ms, item_id } => encode_input_audio_buffer_speech_stopped(event_id, audio_end_ms, item_id),
            ServerEvent::InputAudioBufferTimeoutTriggered { event_id, item_id, audio_start_ms, audio_end_ms } => encode_input_audio_buffer_timeout_triggered(event_id, item_id, audio_start_ms, audio_end_ms),
            ServerEvent::DtmfEventReceived { event, received_at } => encode_dtmf_event_received(event, received_at),
            ServerEvent::OutputAudioBufferStarted { event_id, response_id } => encode_output_audio_buffer_started(event_id, response_id),
            ServerEvent::OutputAudioBufferStopped { event_id, response_id } => encode_output_audio_buffer_stopped(event_id, response_id),
            ServerEvent::OutputAudioBufferCleared { event_id, response_id } => encode_output_audio_buffer_cleared(event_id, response_id),
            ServerEvent::InputAudioTranscriptionDelta { event_id, item_id, content_index, delta, obfuscation, logprobs } => encode_input_audio_transcription_delta(event_id, item_id, content_index, delta, obfuscation, logprobs),
            ServerEvent::InputAudioTranscriptionSegment { event_id, item_id, content_index, text, id, speaker, start, end } => encode_input_audio_transcription_segment(event_id, item_id, content_index, text, id, speaker, start, end),
            ServerEvent::InputAudioTranscriptionFailed { event_id, item_id, content_index, error } => encode_input_audio_transcription_failed(event_id, item_id, content_index, error),
            ServerEvent::InputAudioTranscriptionCompleted { event_id, item_id, content_index, transcript, usage } => encode_input_audio_transcription_completed(event_id, item_id, content_index, transcript, usage),
            ServerEvent::McpListToolsInProgress { event_id, item_id } => encode_mcp_list_tools_in_progress(event_id, item_id),
            ServerEvent::McpListToolsCompleted { event_id, item_id } => encode_mcp_list_tools_completed(event_id, item_id),
            ServerEvent::McpListToolsFailed { event_id, item_id, error } => encode_mcp_list_tools_failed(event_id, item_id, error),
            ServerEvent::ResponseCreated { event_id, response } => encode_response_created(event_id, response),
            ServerEvent::ResponseDone { event_id, response } => encode_response_done(event_id, response),
            ServerEvent::ResponseOutputItemAdded { event_id, response_id, output_index, item } => encode_response_output_item_added(event_id, response_id, output_index, item),
            ServerEvent::ResponseOutputItemDone { event_id, response_id, output_index, item } => encode_response_output_item_done(event_id, response_id, output_index, item),
            ServerEvent::ResponseContentPartAdded { event_id, response_id, item_id, output_index, content_index, part } => encode_response_content_part_added(event_id, response_id, item_id, output_index, content_index, part),
            ServerEvent::ResponseContentPartDone { event_id, response_id, item_id, output_index, content_index, part } => encode_response_content_part_done(event_id, response_id, item_id, output_index, content_index, part),
            ServerEvent::ResponseOutputTextDelta { event_id, response_id, item_id, output_index, content_index, delta } => encode_response_output_text_delta(event_id, response_id, item_id, output_index, content_index, delta),
            ServerEvent::ResponseOutputTextDone { event_id, response_id, item_id, output_index, content_index, text } => encode_response_output_text_done(event_id, response_id, item_id, output_index, content_index, text),
            ServerEvent::ResponseOutputAudioDelta { event_id, response_id, item_id, output_index, content_index, delta } => encode_response_output_audio_delta(event_id, response_id, item_id, output_index, content_index, delta),
            ServerEvent::ResponseOutputAudioDone { event_id, response_id, item_id, output_index, content_index, item } => encode_response_output_audio_done(event_id, response_id, item_id, output_index, content_index, item),
            ServerEvent::ResponseOutputAudioTranscriptDelta { event_id, response_id, item_id, output_index, content_index, delta } => encode_response_output_audio_transcript_delta(event_id, response_id, item_id, output_index, content_index, delta),
            ServerEvent::ResponseOutputAudioTranscriptDone { event_id, response_id, item_id, output_index, content_index, transcript } => encode_response_output_audio_transcript_done(event_id, response_id, item_id, output_index, content_index, transcript),
            ServerEvent::ResponseFunctionCallArgumentsDelta { event_id, response_id, item_id, output_index, call_id, delta } => encode_response_function_call_arguments_delta(event_id, response_id, item_id, output_index, call_id, delta),
            ServerEvent::ResponseFunctionCallArgumentsDone { event_id, response_id, item_id, output_index, call_id, name, arguments } => encode_response_function_call_arguments_done(event_id, response_id, item_id, output_index, call_id, name, arguments),
            ServerEvent::ResponseMcpCallArgumentsDelta { event_id, response_id, item_id, output_index, delta, obfuscation } => encode_response_mcp_call_arguments_delta(event_id, response_id, item_id, output_index, delta, obfuscation),
            ServerEvent::ResponseMcpCallArgumentsDone { event_id, response_id, item_id, output_index, arguments } => encode_response_mcp_call_arguments_done(event_id, response_id, item_id, output_index, arguments),
            ServerEvent::ResponseMcpCallInProgress { event_id, item_id, output_index } => encode_response_mcp_call_in_progress(event_id, item_id, output_index),
            ServerEvent::ResponseMcpCallCompleted { event_id, item_id, output_index } => encode_response_mcp_call_completed(event_id, item_id, output_index),
            ServerEvent::ResponseMcpCallFailed { event_id, item_id, output_index } => encode_response_mcp_call_failed(event_id, item_id, output_index),
            ServerEvent::RateLimitsUpdated { event_id, rate_limits } => encode_rate_limits_updated(event_id, rate_limits),
            ServerEvent::Unknown(v) => v,
        }
    }

    /// The notification's event id: the member of that name for an unknown
    /// notification, when it is a string; a DTMF notification has none.
    pub fn event_id(&self) -> (r: Option<&str>)
        ensures
            r is Some <==> event_id_of(*self) is Some,
            r matches Some(s) ==> event_id_of(*self) == Some(s@),
    {
        match self {
            ServerEvent::Error { event_id, .. } => Some(event_id.as_str()),
            ServerEvent::SessionCreated { event_id, .. } => Some(event_id.as_str()),
            ServerEvent::SessionUpdated { event_id, .. } => Some(event_id.as_str()),
            ServerEvent::ConversationItemAdded { event_id, .. } => Some(event_id.as_str()),
            ServerEvent::ConversationItemDone { event_id, .. } => Some(event_id.as_str()),
            ServerEvent::ConversationItemRetrieved { event_id, .. } => Some(event_id.as_str()),
            ServerEvent::ConversationItemDeleted { event_id, .. } => Some(event_id.as_str()),
            ServerEvent::ConversationItemTruncated { event_id, .. } => Some(event_id.as_str()),
            ServerEvent::InputAudioBufferCommitted { event_id, .. } => Some(event_id.as_str()),
            ServerEvent::InputAudioBufferCleared { event_id, .. } => Some(event_id.as_str()),
            ServerEvent::InputAudioBufferSpeechStarted { event_id, .. } => Some(event_id.as_str()),
            ServerEvent::InputAudioBufferSpeechStopped { event_id, .. } => Some(event_id.as_str()),
            ServerEvent::InputAudioBufferTimeoutTriggered { event_id, .. } => Some(event_id.as_str()),
            ServerEvent::DtmfEventReceived { .. } => None,
            ServerEvent::OutputAudioBufferStarted { event_id, .. } => Some(event_id.as_str()),
            ServerEvent::OutputAudioBufferStopped { event_id, .. } => Some(event_id.as_str()),
            ServerEvent::OutputAudioBufferCleared { event_id, .. } => Some(event_id.as_str()),
            ServerEvent::InputAudioTranscriptionDelta { event_id, .. } => Some(event_id.as_str()),
            ServerEvent::InputAudioTranscriptionSegment { event_id, .. } => Some(event_id.as_str()),
            ServerEvent::InputAudioTranscriptionFailed { event_id, .. } => Some(event_id.as_str()),
            ServerEvent::InputAudioTranscriptionCompleted { event_id, .. } => Some(event_id.as_str()),
            ServerEvent::McpListToolsInProgress { event_id, .. } => Some(event_id.as_str()),
            ServerEvent::McpListToolsCompleted { event_id, .. } => Some(event_id.as_str()),
            ServerEvent::McpListToolsFailed { event_id, .. } => Some(event_id.as_str()),
            ServerEvent::ResponseCreated { event_id, .. } => Some(event_id.as_str()),
            ServerEvent::ResponseDone { event_id, .. } => Some(event_id.as_str()),
            ServerEvent::ResponseOutputItemAdded { event_id, .. } => Some(event_id.as_str()),
            ServerEvent::ResponseOutputItemDone { event_id, .. } => Some(event_id.as_str()),
            ServerEvent::ResponseContentPartAdded { event_id, .. } => Some(event_id.as_str()),
            ServerEvent::ResponseContentPartDone { event_id, .. } => Some(event_id.as_str()),
            ServerEvent::ResponseOutputTextDelta { event_id, .. } => Some(event_id.as_str()),
            ServerEvent::ResponseOutputTextDone { event_id, .. } => Some(event_id.as_str()),
            ServerEvent::ResponseOutputAudioDelta { event_id, .. } => Some(event_id.as_str()),
            ServerEvent::ResponseOutputAudioDone { event_id, .. } => Some(event_id.as_str()),
            ServerEvent::ResponseOutputAudioTranscriptDelta { event_id, .. } => Some(event_id.as_str()),
            ServerEvent::ResponseOutputAudioTranscriptDone { event_id, .. } => Some(event_id.as_str()),
            ServerEvent::ResponseFunctionCallArgumentsDelta { event_id, .. } => Some(event_id.as_str()),
            ServerEvent::ResponseFunctionCallArgumentsDone { event_id, .. } => Some(event_id.as_str()),
            ServerEvent::ResponseMcpCallArgumentsDelta { event_id, .. } => Some(event_id.as_str()),
            ServerEvent::ResponseMcpCallArgumentsDone { event_id, .. } => Some(event_id.as_str()),
            ServerEvent::ResponseMcpCallInProgress { event_id, .. } => Some(event_id.as_str()),
            ServerEvent::ResponseMcpCallCompleted { event_id, .. } => Some(event_id.as_str()),
            ServerEvent::ResponseMcpCallFailed { event_id, .. } => Some(event_id.as_str()),
            ServerEvent::RateLimitsUpdated { event_id, .. } => Some(event_id.as_str()),
            ServerEvent::Unknown(v) => match v {
                Json::Object(f) => match get_field(f, "event_id") {
                    Some(Json::Str(s)) => Some(s.as_str()),
                    _ => None,
                },
                _ => None,
            },
        }
    }
}
/// Decoding loses nothing: a value that is not a well-formed known
/// notification is kept as the very value received, which encoding gives back.
pub proof fn lemma_unknown_kept(j: Json)
    ensures
        decode_event(j) matches ServerEvent::Unknown(v) ==> v == j,
{
}

/// Every decoded notification can be encoded again, and the encoding decodes
/// to the same notification.
pub proof fn lemma_decoded_is_well_formed(j: Json)
    ensures
        event_well_formed(decode_event(j)),
{
}

} // verus!
