//! Configuration payloads, conversation items and their parts.
//!
//! Members whose wire form is a floating-point number (temperatures, speeds,
//! thresholds, ratios) are carried as the JSON number they are written as.

use vstd::prelude::*;

use super::json::Json;
use crate::error::{decimal, fails_with, push_decimal, Error, ServerError};

verus! {

pub const DEFAULT_MODEL: &'static str = "gpt-realtime";

/// The only sample rate accepted for PCM audio.
pub const PCM_24KHZ_RATE: u32 = 24000;

#[derive(Debug, Clone, Copy, PartialEq, Eq, Structural)]
pub enum Role {
    User,
    Assistant,
    System,
}

#[derive(Debug, Clone, Copy, PartialEq, Eq, Structural)]
pub enum ItemStatus {
    InProgress,
    Completed,
    Incomplete,
}

#[derive(Debug, Clone, Copy, PartialEq, Eq, Structural)]
pub enum Modality {
    Audio,
    Text,
}

#[derive(Debug, Clone, Copy, PartialEq, Eq, Structural)]
pub enum OutputModalities {
    Audio,
    Text,
}

#[derive(Debug, Clone, Copy, PartialEq, Eq, Structural)]
pub enum ConversationMode {
    Auto,
    /// Written `none` on the wire: the response stays out of the conversation.
    Off,
}

#[derive(Debug, Clone, Copy, PartialEq, Eq, Structural)]
pub enum SessionKind {
    Realtime,
    Transcription,
}

#[derive(Debug, Clone, Copy, PartialEq, Eq, Structural)]
pub enum Eagerness {
    Auto,
    Low,
    Medium,
    High,
}

#[derive(Debug, Clone)]
pub enum Voice {
    Id(String),
    Object { id: String },
}

impl Voice {
    /// The voice's id, however it is written.
    pub fn id(&self) -> (r: &str)
        ensures
            self matches Voice::Id(id) ==> r@ == id@,
            self matches Voice::Object { id } ==> r@ == id@,
    {
        match self {
            Voice::Id(id) => id.as_str(),
            Voice::Object { id } => id.as_str(),
        }
    }
}

#[derive(Debug, Clone)]
pub struct BetaAudioFormat(pub String);

/// An audio encoding. PCM carries its sample rate.
#[derive(Debug, Clone, Copy, PartialEq, Eq, Structural)]
pub enum AudioFormat {
    Pcm { rate: u32 },
    Pcmu,
    Pcma,
}

/// The rate a PCM format has when none is given.
pub fn default_pcm_rate() -> (r: u32)
    ensures
        r == PCM_24KHZ_RATE,
{
    PCM_24KHZ_RATE
}

/// A format is acceptable unless it is PCM at a rate other than 24 kHz.
pub open spec fn audio_format_ok(f: AudioFormat) -> bool {
    match f {
        AudioFormat::Pcm { rate } => rate == PCM_24KHZ_RATE,
        _ => true,
    }
}

/// Why a format is rejected, if it is.
pub open spec fn audio_format_error(f: AudioFormat) -> Option<Seq<char>> {
    match f {
        AudioFormat::Pcm { rate } => if rate == PCM_24KHZ_RATE {
            None
        } else {
            Some("audio/pcm rate must be 24000, got "@ + decimal(rate as nat))
        },
        _ => None,
    }
}

/// Whether a result is a local validation failure.
pub open spec fn is_invalid_event<T>(r: Result<T, Error>) -> bool {
    r matches Err(Error::InvalidClientEvent(_))
}

impl AudioFormat {
    /// PCM at 24 kHz, the rate the service requires.
    pub fn pcm_24khz() -> (r: AudioFormat)
        ensures
            r == (AudioFormat::Pcm { rate: PCM_24KHZ_RATE }),
    {
        AudioFormat::Pcm { rate: PCM_24KHZ_RATE }
    }

    /// The media type naming the encoding.
    pub fn mime_type(&self) -> (r: &'static str)
        ensures
            self is Pcm ==> r@ == "audio/pcm"@,
            self is Pcmu ==> r@ == "audio/pcmu"@,
            self is Pcma ==> r@ == "audio/pcma"@,
    {
        match self {
            AudioFormat::Pcm { .. } => "audio/pcm",
            AudioFormat::Pcmu => "audio/pcmu",
            AudioFormat::Pcma => "audio/pcma",
        }
    }

    /// Rejects PCM at any rate but 24 kHz.
    pub fn validate(&self) -> (r: Result<(), Error>)
        ensures
            r is Ok <==> audio_format_ok(*self),
            r is Err ==> is_invalid_event(r),
            fails_with(r, audio_format_error(*self)),
    {
        match self {
            AudioFormat::Pcm { rate } => {
                if *rate != PCM_24KHZ_RATE {
                    let mut msg = "audio/pcm rate must be 24000, got ".to_owned();
                    push_decimal(&mut msg, *rate as usize);
                    return Err(Error::InvalidClientEvent(msg));
                }
                Ok(())
            },
            _ => Ok(()),
        }
    }
}

#[derive(Debug, Clone)]
pub enum MaxTokens {
    Count(u32),
    Infinite(Infinite),
}

#[derive(Debug, Clone, Copy, PartialEq, Eq, Structural)]
pub enum Infinite {
    Inf,
}

#[derive(Debug, Clone)]
pub enum PromptRef {
    Id(String),
    Object { id: String },
}

#[derive(Debug, Clone, Copy, PartialEq, Eq, Structural)]
pub enum TracingAuto {
    Auto,
}

#[derive(Debug)]
pub struct TracingConfig {
    pub workflow_name: Option<String>,
    pub group_id: Option<String>,
    pub metadata: Option<Json>,
}

#[derive(Debug)]
pub enum Tracing {
    Auto(TracingAuto),
    Config(TracingConfig),
}

#[derive(Debug, Clone, Copy, PartialEq, Eq, Structural)]
pub enum TruncationStrategy {
    Auto,
    Disabled,
}

#[derive(Debug, Clone, Copy, PartialEq, Eq, Structural)]
pub enum TruncationType {
    RetentionRatio,
}

#[derive(Debug, Clone, Copy, PartialEq, Eq, Structural)]
pub struct TokenLimits {
    pub post_instructions: Option<u32>,
}

#[derive(Debug)]
pub struct RetentionRatioTruncation {
    pub kind: TruncationType,
    pub retention_ratio: Json,
    pub token_limits: Option<TokenLimits>,
}

#[derive(Debug)]
pub enum Truncation {
    Strategy(TruncationStrategy),
    RetentionRatio(RetentionRatioTruncation),
}

/// A tri-state member: omitted (outer `None`), explicitly null, or a value.
#[derive(Debug, Clone)]
pub enum Nullable<T> {
    Value(T),
    Null,
}

impl<T> Nullable<T> {
    /// The value, when there is one.
    pub fn as_ref(&self) -> (r: Option<&T>)
        ensures
            self matches Nullable::Value(v) ==> r == Some(v),
            self is Null ==> r is None,
    {
        match self {
            Nullable::Value(v) => Some(v),
            Nullable::Null => None,
        }
    }
}

#[derive(Debug, Clone, Copy, PartialEq, Eq, Structural)]
pub enum NoiseReductionType {
    NearField,
    FarField,
}

#[derive(Debug, Clone, Copy, PartialEq, Eq, Structural)]
pub struct NoiseReduction {
    pub kind: NoiseReductionType,
}

#[derive(Debug, Clone)]
pub struct InputAudioTranscription {
    pub model: Option<String>,
    pub language: Option<String>,
    pub prompt: Option<String>,
}

#[derive(Debug)]
pub enum TurnDetection {
    ServerVad {
        threshold: Option<Json>,
        prefix_padding_ms: Option<u32>,
        silence_duration_ms: Option<u32>,
        idle_timeout_ms: Option<u32>,
        create_response: Option<bool>,
        interrupt_response: Option<bool>,
    },
    SemanticVad {
        eagerness: Option<Eagerness>,
        create_response: Option<bool>,
        interrupt_response: Option<bool>,
    },
}

#[derive(Debug)]
pub struct InputAudioConfig {
    pub format: Option<AudioFormat>,
    pub turn_detection: Option<Nullable<TurnDetection>>,
    pub transcription: Option<Nullable<InputAudioTranscription>>,
    pub noise_reduction: Option<Nullable<NoiseReduction>>,
}

#[derive(Debug)]
pub struct OutputAudioConfig {
    pub format: Option<AudioFormat>,
    pub voice: Option<Voice>,
    pub speed: Option<Json>,
}

#[derive(Debug)]
pub struct AudioConfig {
    pub input: Option<InputAudioConfig>,
    pub output: Option<OutputAudioConfig>,
}

#[derive(Debug, Clone, Copy, PartialEq, Eq, Structural)]
pub enum ApprovalMode {
    Always,
    Never,
}

#[derive(Debug, Clone)]
pub struct ApprovalFilter {
    pub tool_names: Vec<String>,
}

#[derive(Debug, Clone)]
pub enum RequireApproval {
    Mode(ApprovalMode),
    Filter(ApprovalFilter),
}

/// A tool executed by a remote MCP server rather than by a local handler.
#[derive(Debug, Clone)]
pub struct McpToolConfig {
    pub server_label: String,
    pub server_url: Option<String>,
    pub connector_id: Option<String>,
    pub headers: Option<Vec<(String, String)>>,
    pub authorization: Option<String>,
    pub allowed_tools: Option<Vec<String>>,
    pub require_approval: Option<RequireApproval>,
    pub server_description: Option<String>,
}

/// A remote tool must say where it runs: a server URL, a connector id, or both.
pub open spec fn mcp_config_ok(c: McpToolConfig) -> bool {
    c.server_url is Some || c.connector_id is Some
}

/// Why a remote tool descriptor is rejected, if it is.
pub open spec fn mcp_config_error(c: McpToolConfig) -> Option<Seq<char>> {
    if mcp_config_ok(c) {
        None
    } else {
        Some("mcp tool requires server_url or connector_id"@)
    }
}

impl Default for McpToolConfig {
    fn default() -> (r: McpToolConfig)
        ensures
            r.server_label@.len() == 0,
            r.server_url is None,
            r.connector_id is None,
    {
        McpToolConfig::labelled(String::new())
    }
}

impl McpToolConfig {
    /// A descriptor with only a label set.
    pub fn labelled(server_label: String) -> (r: McpToolConfig)
        ensures
            r.server_label == server_label,
            r.server_url is None,
            r.connector_id is None,
            r.headers is None,
            r.authorization is None,
            r.allowed_tools is None,
            r.require_approval is None,
            r.server_description is None,
    {
        McpToolConfig {
            server_label,
            server_url: None,
            connector_id: None,
            headers: None,
            authorization: None,
            allowed_tools: None,
            require_approval: None,
            server_description: None,
        }
    }

    /// Rejects a descriptor with neither a server URL nor a connector id.
    pub fn validate(&self) -> (r: Result<(), Error>)
        ensures
            r is Ok <==> mcp_config_ok(*self),
            r is Err ==> is_invalid_event(r),
            fails_with(r, mcp_config_error(*self)),
    {
        if self.server_url.is_none() && self.connector_id.is_none() {
            return Err(Error::InvalidClientEvent("mcp tool requires server_url or connector_id".to_owned()));
        }
        Ok(())
    }
}

#[derive(Debug)]
pub enum Tool {
    Function { name: String, description: Option<String>, parameters: Json },
    Mcp(McpToolConfig),
}

#[derive(Debug, Clone, Copy, PartialEq, Eq, Structural)]
pub enum ToolChoiceMode {
    Auto,
    /// Written `none` on the wire: the model calls no tool.
    NoTool,
    Required,
}

#[derive(Debug, Clone)]
pub enum ToolChoice {
    Mode(ToolChoiceMode),
    Specific { kind: String, name: Option<String>, server_label: Option<String> },
}

#[derive(Debug)]
pub struct McpToolInfo {
    pub name: String,
    pub description: Option<String>,
    pub input_schema: Option<Json>,
    pub annotations: Option<Json>,
}

#[derive(Debug, Clone)]
pub enum McpError {
    Protocol { code: i32, message: String },
    ToolExecution { message: String },
    Http { code: i32, message: String },
    Unknown,
}

#[derive(Debug, Clone)]
pub enum AudioPartFormat {
    Label(String),
    Config(AudioFormat),
}

/// One part of a message's content. `Unknown` keeps a part of a kind this
/// library does not know, as received.
#[derive(Debug)]
pub enum ContentPart {
    InputText { text: String },
    InputAudio { audio: String, transcript: Option<String>, format: Option<AudioFormat> },
    InputImage { image_url: String, detail: Option<String> },
    OutputText { text: String },
    OutputAudio { audio: Option<String>, transcript: Option<String>, format: Option<AudioFormat> },
    Text { text: String },
    Audio { audio: Option<String>, transcript: Option<String>, format: Option<AudioPartFormat> },
    Unknown(Json),
}

/// A conversation item. `Unknown` keeps an item of a kind this library does
/// not know, as received.
#[derive(Debug)]
pub enum Item {
    Message { id: Option<String>, status: Option<ItemStatus>, role: Role, content: Vec<ContentPart> },
    FunctionCall {
        id: Option<String>,
        status: Option<ItemStatus>,
        name: String,
        call_id: String,
        arguments: String,
    },
    FunctionCallOutput { id: Option<String>, call_id: String, output: String },
    McpCall {
        id: Option<String>,
        status: Option<ItemStatus>,
        call_id: String,
        server_label: String,
        name: String,
        arguments: String,
        approval_request_id: Option<String>,
        output: Option<String>,
        error: Option<McpError>,
    },
    McpListTools {
        id: Option<String>,
        status: Option<ItemStatus>,
        server_label: String,
        tools: Option<Vec<McpToolInfo>>,
    },
    McpApprovalRequest {
        id: Option<String>,
        status: Option<ItemStatus>,
        server_label: String,
        name: String,
        arguments: String,
    },
    McpApprovalResponse {
        id: Option<String>,
        status: Option<ItemStatus>,
        approval_request_id: String,
        approve: bool,
        reason: Option<String>,
    },
    Unknown(Json),
}

#[derive(Debug, Clone, Copy, PartialEq, Eq, Structural)]
pub struct CachedTokenDetails {
    pub text_tokens: Option<u32>,
    pub audio_tokens: Option<u32>,
    pub image_tokens: Option<u32>,
}

#[derive(Debug, Clone, Copy, PartialEq, Eq, Structural)]
pub struct InputTokenDetails {
    pub cached_tokens: Option<u32>,
    pub text_tokens: Option<u32>,
    pub audio_tokens: Option<u32>,
    pub image_tokens: Option<u32>,
    pub cached_tokens_details: Option<CachedTokenDetails>,
}

#[derive(Debug, Clone, Copy, PartialEq, Eq, Structural)]
pub struct OutputTokenDetails {
    pub text_tokens: Option<u32>,
    pub audio_tokens: Option<u32>,
}

#[derive(Debug, Clone, Copy, PartialEq, Eq, Structural)]
pub struct Usage {
    pub total_tokens: u32,
    pub input_tokens: u32,
    pub output_tokens: u32,
    pub input_token_details: Option<InputTokenDetails>,
    pub output_token_details: Option<OutputTokenDetails>,
    pub cached_tokens: Option<u32>,
    pub cached_tokens_details: Option<CachedTokenDetails>,
}

#[derive(Debug, Clone, Copy, PartialEq, Eq, Structural)]
pub enum ResponseStatus {
    InProgress,
    Completed,
    Cancelled,
    Failed,
    Incomplete,
}

#[derive(Debug, Clone)]
pub struct ResponseStatusDetails {
    pub reason: Option<String>,
    pub error: Option<ServerError>,
}

#[derive(Debug)]
pub enum InputItem {
    ItemReference { id: String },
    Message { id: Option<String>, role: Role, content: Vec<ContentPart> },
}

/// The members of a session-configuration update; every member is optional.
#[derive(Debug)]
pub struct SessionUpdateConfig {
    pub output_modalities: Option<OutputModalities>,
    pub modalities: Option<Vec<Modality>>,
    /// Extra outputs the server should add to its replies.
    pub included: Option<Vec<String>>,
    pub prompt: Option<PromptRef>,
    pub truncation: Option<Truncation>,
    pub instructions: Option<String>,
    pub input_audio_format: Option<AudioFormat>,
    pub output_audio_format: Option<AudioFormat>,
    pub input_audio_transcription: Option<InputAudioTranscription>,
    pub turn_detection: Option<TurnDetection>,
    pub tools: Option<Vec<Tool>>,
    pub tool_choice: Option<ToolChoice>,
    pub temperature: Option<Json>,
    pub max_output_tokens: Option<MaxTokens>,
    pub audio: Option<AudioConfig>,
    pub tracing: Option<Tracing>,
}

#[derive(Debug)]
pub struct SessionUpdate {
    pub config: SessionUpdateConfig,
}

/// Options for one response.
#[derive(Debug)]
pub struct ResponseConfig {
    pub conversation: Option<ConversationMode>,
    pub metadata: Option<Json>,
    pub modalities: Option<Vec<Modality>>,
    pub output_modalities: Option<OutputModalities>,
    pub input_audio_format: Option<AudioFormat>,
    pub input: Option<Vec<InputItem>>,
    pub instructions: Option<String>,
    pub audio: Option<AudioConfig>,
    pub voice: Option<Voice>,
    pub temperature: Option<Json>,
    pub max_output_tokens: Option<MaxTokens>,
    pub tools: Option<Vec<Tool>>,
    pub tool_choice: Option<ToolChoice>,
}

impl Default for SessionUpdateConfig {
    /// An update that changes nothing.
    fn default() -> (r: SessionUpdateConfig)
        ensures
            r.output_modalities is None,
            r.modalities is None,
            r.included is None,
            r.prompt is None,
            r.truncation is None,
            r.instructions is None,
            r.input_audio_format is None,
            r.output_audio_format is None,
            r.input_audio_transcription is None,
            r.turn_detection is None,
            r.tools is None,
            r.tool_choice is None,
            r.temperature is None,
            r.max_output_tokens is None,
            r.audio is None,
            r.tracing is None,
    {
        SessionUpdateConfig {
            output_modalities: None,
            modalities: None,
            included: None,
            prompt: None,
            truncation: None,
            instructions: None,
            input_audio_format: None,
            output_audio_format: None,
            input_audio_transcription: None,
            turn_detection: None,
            tools: None,
            tool_choice: None,
            temperature: None,
            max_output_tokens: None,
            audio: None,
            tracing: None,
        }
    }
}

impl Default for ResponseConfig {
    /// A response request that leaves every option to the server.
    fn default() -> (r: ResponseConfig)
        ensures
            r.conversation is None,
            r.metadata is None,
            r.modalities is None,
            r.output_modalities is None,
            r.input_audio_format is None,
            r.input is None,
            r.instructions is None,
            r.audio is None,
            r.voice is None,
            r.temperature is None,
            r.max_output_tokens is None,
            r.tools is None,
            r.tool_choice is None,
    {
        ResponseConfig {
            conversation: None,
            metadata: None,
            modalities: None,
            output_modalities: None,
            input_audio_format: None,
            input: None,
            instructions: None,
            audio: None,
            voice: None,
            temperature: None,
            max_output_tokens: None,
            tools: None,
            tool_choice: None,
        }
    }
}


/// A full session configuration, as the server reports it.
#[derive(Debug)]
pub struct SessionConfig {
    pub kind: SessionKind,
    pub model: String,
    pub output_modalities: OutputModalities,
    pub modalities: Option<Vec<Modality>>,
    /// Extra outputs the server should add to its replies.
    pub included: Option<Vec<String>>,
    pub prompt: Option<PromptRef>,
    pub truncation: Option<Truncation>,
    pub instructions: Option<String>,
    pub input_audio_format: Option<AudioFormat>,
    pub output_audio_format: Option<AudioFormat>,
    pub input_audio_transcription: Option<InputAudioTranscription>,
    pub turn_detection: Option<TurnDetection>,
    pub tools: Option<Vec<Tool>>,
    pub tool_choice: Option<ToolChoice>,
    pub temperature: Option<Json>,
    pub max_output_tokens: Option<MaxTokens>,
    pub audio: Option<AudioConfig>,
    pub tracing: Option<Tracing>,
    pub voice: Option<Voice>,
}

impl SessionConfig {
    /// A configuration of the given kind, model and output modality, with
    /// every optional member unset.
    pub fn new(kind: SessionKind, model: String, output_modalities: OutputModalities) -> (r: SessionConfig)
        ensures
            r.kind == kind,
            r.model == model,
            r.output_modalities == output_modalities,
            r.instructions is None,
            r.input_audio_format is None,
            r.output_audio_format is None,
            r.audio is None,
            r.tools is None,
            r.voice is None,
    {
        SessionConfig {
            kind,
            model,
            output_modalities,
            modalities: None,
            included: None,
            prompt: None,
            truncation: None,
            instructions: None,
            input_audio_format: None,
            output_audio_format: None,
            input_audio_transcription: None,
            turn_detection: None,
            tools: None,
            tool_choice: None,
            temperature: None,
            max_output_tokens: None,
            audio: None,
            tracing: None,
            voice: None,
        }
    }
}

/// A session: its identity and expiry, with its configuration.
#[derive(Debug)]
pub struct Session {
    pub id: String,
    pub object: String,
    pub expires_at: u64,
    pub config: SessionConfig,
}


impl Default for InputAudioConfig {
    fn default() -> (r: InputAudioConfig)
        ensures
            r.format is None,
    {
        InputAudioConfig { format: None, turn_detection: None, transcription: None, noise_reduction: None }
    }
}

impl Default for OutputAudioConfig {
    fn default() -> (r: OutputAudioConfig)
        ensures
            r.format is None,
    {
        OutputAudioConfig { format: None, voice: None, speed: None }
    }
}

impl Default for AudioConfig {
    fn default() -> (r: AudioConfig)
        ensures
            r.input is None,
            r.output is None,
    {
        AudioConfig { input: None, output: None }
    }
}


impl Item {
    /// The wire name of the item's kind; `unknown` for a kept unknown item.
    pub fn kind_name(&self) -> (r: &'static str)
        ensures
            self is Message ==> r@ == "message"@,
            self is FunctionCall ==> r@ == "function_call"@,
            self is FunctionCallOutput ==> r@ == "function_call_output"@,
            self is McpCall ==> r@ == "mcp_call"@,
            self is McpListTools ==> r@ == "mcp_list_tools"@,
            self is McpApprovalRequest ==> r@ == "mcp_approval_request"@,
            self is McpApprovalResponse ==> r@ == "mcp_approval_response"@,
            self is Unknown ==> r@ == "unknown"@,
    {
        match self {
            Item::Message { .. } => "message",
            Item::FunctionCall { .. } => "function_call",
            Item::FunctionCallOutput { .. } => "function_call_output",
            Item::McpCall { .. } => "mcp_call",
            Item::McpListTools { .. } => "mcp_list_tools",
            Item::McpApprovalRequest { .. } => "mcp_approval_request",
            Item::McpApprovalResponse { .. } => "mcp_approval_response",
            Item::Unknown(_) => "unknown",
        }
    }
}

impl ContentPart {
    /// The wire name of the part's kind; `unknown` for a kept unknown part.
    pub fn kind_name(&self) -> (r: &'static str)
        ensures
            self is InputText ==> r@ == "input_text"@,
            self is InputAudio ==> r@ == "input_audio"@,
            self is InputImage ==> r@ == "input_image"@,
            self is OutputText ==> r@ == "output_text"@,
            self is OutputAudio ==> r@ == "output_audio"@,
            self is Text ==> r@ == "text"@,
            self is Audio ==> r@ == "audio"@,
            self is Unknown ==> r@ == "unknown"@,
    {
        match self {
            ContentPart::InputText { .. } => "input_text",
            ContentPart::InputAudio { .. } => "input_audio",
            ContentPart::InputImage { .. } => "input_image",
            ContentPart::OutputText { .. } => "output_text",
            ContentPart::OutputAudio { .. } => "output_audio",
            ContentPart::Text { .. } => "text",
            ContentPart::Audio { .. } => "audio",
            ContentPart::Unknown(_) => "unknown",
        }
    }
}

impl SessionUpdate {
    /// The update that applies a full configuration: every configurable
    /// member carried over, the output modality always set.
    pub fn from_config(config: SessionConfig) -> (r: SessionUpdate)
        ensures
            r.config.output_modalities == Some(config.output_modalities),
            r.config.instructions == config.instructions,
            r.config.input_audio_format == config.input_audio_format,
            r.config.output_audio_format == config.output_audio_format,
            r.config.audio == config.audio,
            r.config.tools == config.tools,
            r.config.turn_detection == config.turn_detection,
            r.config.temperature == config.temperature,
    {
        let SessionConfig {
            kind: _,
            model: _,
            output_modalities,
            modalities,
            included,
            prompt,
            truncation,
            instructions,
            input_audio_format,
            output_audio_format,
            input_audio_transcription,
            turn_detection,
            tools,
            tool_choice,
            temperature,
            max_output_tokens,
            audio,
            tracing,
            voice: _,
        } = config;
        SessionUpdate {
            config: SessionUpdateConfig {
                output_modalities: Some(output_modalities),
                modalities,
                included,
                prompt,
                truncation,
                instructions,
                input_audio_format,
                output_audio_format,
                input_audio_transcription,
                turn_detection,
                tools,
                tool_choice,
                temperature,
                max_output_tokens,
                audio,
                tracing,
            },
        }
    }
}

/// The protocol revision spoken on the connection.
#[derive(Debug, Clone, Copy, PartialEq, Eq, Structural)]
pub enum ProtocolVersion {
    Ga,
    BetaV1,
}

} // verus!
