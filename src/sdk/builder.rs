//! Assembling a session's configuration before connecting. Handlers are
//! attached by the host; everything that decides the configuration is here.

use vstd::prelude::*;

use crate::error::Error;
use crate::protocol::json::Json;
use crate::protocol::models::{
    AudioConfig, AudioFormat, InputAudioConfig, InputAudioTranscription, MaxTokens, McpToolConfig,
    NoiseReduction, Nullable, OutputAudioConfig, OutputModalities, SessionConfig, SessionKind, ToolChoice,
    TurnDetection, Voice, DEFAULT_MODEL, PCM_24KHZ_RATE,
};
use crate::protocol::models::{is_invalid_event, mcp_config_ok};
use crate::sdk::tools::ToolRegistry;

verus! {

/// Entry point of the builders.
pub struct Realtime;

impl Realtime {
    pub fn builder() -> (r: RealtimeBuilder)
        ensures
            r.api_key is None,
            r.auto_barge_in == false,
            r.auto_tool_response == true,
    {
        RealtimeBuilder::new()
    }
}

/// Settings of a session to be opened.
pub struct RealtimeBuilder {
    pub api_key: Option<String>,
    pub model: Option<String>,
    pub voice: Option<String>,
    pub output_modalities: Option<OutputModalities>,
    pub instructions: Option<String>,
    pub tool_choice: Option<ToolChoice>,
    pub temperature: Option<Json>,
    pub max_output_tokens: Option<MaxTokens>,
    pub audio: Option<AudioConfig>,
    pub auto_barge_in: bool,
    pub auto_tool_response: bool,
    pub tools: ToolRegistry,
}

/// What a builder produces: the credentials, the session configuration to
/// apply once connected, the tools and the actor's switches.
pub struct SessionSettings {
    pub api_key: String,
    pub model: Option<String>,
    pub session: SessionConfig,
    pub tools: ToolRegistry,
    pub auto_barge_in: bool,
    pub auto_tool_response: bool,
}

/// The model a session uses: the one chosen, or the default.
pub open spec fn model_or_default(model: Option<String>) -> Seq<char> {
    match model {
        Some(m) => m@,
        None => DEFAULT_MODEL@,
    }
}

impl RealtimeBuilder {
    /// Nothing chosen yet: no automatic barge-in, automatic follow-up after tool calls.
    pub fn new() -> (r: RealtimeBuilder)
        ensures
            r.api_key is None,
            r.model is None,
            r.voice is None,
            r.output_modalities is None,
            r.instructions is None,
            r.audio is None,
            r.auto_barge_in == false,
            r.auto_tool_response == true,
            r.tools.definitions_view().len() == 0,
            r.tools.remotes_view().len() == 0,
    {
        RealtimeBuilder {
            api_key: None,
            model: None,
            voice: None,
            output_modalities: None,
            instructions: None,
            tool_choice: None,
            temperature: None,
            max_output_tokens: None,
            audio: None,
            auto_barge_in: false,
            auto_tool_response: true,
            tools: ToolRegistry::new(),
        }
    }

    pub fn api_key(self, key: String) -> (r: RealtimeBuilder)
        ensures
            r == (RealtimeBuilder { api_key: Some(key), ..self }),
    {
        RealtimeBuilder { api_key: Some(key), ..self }
    }

    pub fn model(self, model: String) -> (r: RealtimeBuilder)
        ensures
            r == (RealtimeBuilder { model: Some(model), ..self }),
    {
        RealtimeBuilder { model: Some(model), ..self }
    }

    pub fn voice(self, voice: String) -> (r: RealtimeBuilder)
        ensures
            r == (RealtimeBuilder { voice: Some(voice), ..self }),
    {
        RealtimeBuilder { voice: Some(voice), ..self }
    }

    pub fn instructions(self, instructions: String) -> (r: RealtimeBuilder)
        ensures
            r == (RealtimeBuilder { instructions: Some(instructions), ..self }),
    {
        RealtimeBuilder { instructions: Some(instructions), ..self }
    }

    pub fn tool_choice(self, choice: ToolChoice) -> (r: RealtimeBuilder)
        ensures
            r == (RealtimeBuilder { tool_choice: Some(choice), ..self }),
    {
        RealtimeBuilder { tool_choice: Some(choice), ..self }
    }

    /// The sampling temperature, as the JSON number to send.
    pub fn temperature(self, temperature: Json) -> (r: RealtimeBuilder)
        ensures
            r == (RealtimeBuilder { temperature: Some(temperature), ..self }),
    {
        RealtimeBuilder { temperature: Some(temperature), ..self }
    }

    pub fn max_output_tokens(self, max_output_tokens: MaxTokens) -> (r: RealtimeBuilder)
        ensures
            r == (RealtimeBuilder { max_output_tokens: Some(max_output_tokens), ..self }),
    {
        RealtimeBuilder { max_output_tokens: Some(max_output_tokens), ..self }
    }

    pub fn auto_barge_in(self, enabled: bool) -> (r: RealtimeBuilder)
        ensures
            r == (RealtimeBuilder { auto_barge_in: enabled, ..self }),
    {
        RealtimeBuilder { auto_barge_in: enabled, ..self }
    }

    pub fn auto_tool_response(self, enabled: bool) -> (r: RealtimeBuilder)
        ensures
            r == (RealtimeBuilder { auto_tool_response: enabled, ..self }),
    {
        RealtimeBuilder { auto_tool_response: enabled, ..self }
    }

    pub fn output_audio(self) -> (r: RealtimeBuilder)
        ensures
            r == (RealtimeBuilder { output_modalities: Some(OutputModalities::Audio), ..self }),
    {
        RealtimeBuilder { output_modalities: Some(OutputModalities::Audio), ..self }
    }

    pub fn output_text(self) -> (r: RealtimeBuilder)
        ensures
            r == (RealtimeBuilder { output_modalities: Some(OutputModalities::Text), ..self }),
    {
        RealtimeBuilder { output_modalities: Some(OutputModalities::Text), ..self }
    }

    pub fn tools(self, tools: ToolRegistry) -> (r: RealtimeBuilder)
        ensures
            r == (RealtimeBuilder { tools, ..self }),
    {
        RealtimeBuilder { tools, ..self }
    }

    /// Adds a remote tool, rejecting a descriptor with neither a server URL
    /// nor a connector id.
    pub fn mcp_tool(self, config: McpToolConfig) -> (r: Result<RealtimeBuilder, Error>)
        ensures
            r is Ok <==> mcp_config_ok(config),
            r is Err ==> is_invalid_event(r),
            r matches Ok(b) ==> b.tools.remotes_view() == self.tools.remotes_view().push(config)
                && b.tools.definitions_view() == self.tools.definitions_view()
                && b.api_key == self.api_key && b.model == self.model,
    {
        let mut this = self;
        match this.tools.mcp_tool(config) {
            Ok(()) => Ok(this),
            Err(e) => Err(e),
        }
    }

    /// Switches to a voice session preset.
    pub fn voice_session(self) -> (r: VoiceSessionBuilder)
        ensures
            r.inner.auto_barge_in,
            r.inner.output_modalities == Some(OutputModalities::Audio),
            r.inner.api_key == self.api_key,
    {
        VoiceSessionBuilder::new(self)
    }

    /// The settings to connect with. An API key is required; the model
    /// defaults to the default model and the output to audio; the registry's
    /// tools are attached when there are any.
    pub fn build(self) -> (r: Result<SessionSettings, Error>)
        ensures
            r is Err <==> self.api_key is None,
            r is Err ==> is_invalid_event(r),
            r matches Ok(s) ==> {
                &&& self.api_key == Some(s.api_key)
                &&& s.model == self.model
                &&& s.session.kind == SessionKind::Realtime
                &&& s.session.model@ == model_or_default(self.model)
                &&& s.session.output_modalities == match self.output_modalities {
                    Some(m) => m,
                    None => OutputModalities::Audio,
                }
                &&& s.session.instructions == self.instructions
                &&& s.session.voice == match self.voice {
                    Some(v) => Some(Voice::Id(v)),
                    None => None,
                }
                &&& s.session.tool_choice == self.tool_choice
                &&& s.session.temperature == self.temperature
                &&& s.session.max_output_tokens == self.max_output_tokens
                &&& s.session.audio == self.audio
                &&& (s.session.tools is Some <==> (self.tools.definitions_view().len() > 0 || self.tools.remotes_view().len() > 0))
                &&& s.session.tools matches Some(t) ==> t@.len() == self.tools.definitions_view().len() + self.tools.remotes_view().len()
                &&& s.tools == self.tools
                &&& s.auto_barge_in == self.auto_barge_in
                &&& s.auto_tool_response == self.auto_tool_response
            },
    {
        let RealtimeBuilder {
            api_key,
            model,
            voice,
            output_modalities,
            instructions,
            tool_choice,
            temperature,
            max_output_tokens,
            audio,
            auto_barge_in,
            auto_tool_response,
            tools,
        } = self;
        let api_key = match api_key {
            Some(k) => k,
            None => {
                return Err(Error::InvalidClientEvent("api_key required".to_owned()));
            },
        };
        let output = match output_modalities {
            Some(m) => m,
            None => OutputModalities::Audio,
        };
        let model_name = match &model {
            Some(m) => m.clone(),
            None => DEFAULT_MODEL.to_owned(),
        };
        let mut session = SessionConfig::new(SessionKind::Realtime, model_name, output);
        session.voice = match voice {
            Some(v) => Some(Voice::Id(v)),
            None => None,
        };
        session.instructions = instructions;
        session.tool_choice = tool_choice;
        session.temperature = temperature;
        session.max_output_tokens = max_output_tokens;
        session.audio = audio;
        if !tools.is_empty() {
            session.tools = Some(tools.try_as_tools());
        }
        Ok(SessionSettings { api_key, model, session, tools, auto_barge_in, auto_tool_response })
    }
}

/// Server-side voice activity detection that answers and interrupts on its own.
pub open spec fn default_server_vad() -> TurnDetection {
    TurnDetection::ServerVad {
        threshold: None,
        prefix_padding_ms: None,
        silence_duration_ms: None,
        idle_timeout_ms: None,
        create_response: Some(true),
        interrupt_response: Some(true),
    }
}

fn server_vad() -> (r: TurnDetection)
    ensures
        r == default_server_vad(),
{
    TurnDetection::ServerVad {
        threshold: None,
        prefix_padding_ms: None,
        silence_duration_ms: None,
        idle_timeout_ms: None,
        create_response: Some(true),
        interrupt_response: Some(true),
    }
}

/// A builder preset for spoken conversation: 24 kHz PCM both ways, server
/// voice activity detection, audio output and automatic barge-in.
pub struct VoiceSessionBuilder {
    pub inner: RealtimeBuilder,
}

/// The input-audio block of a configuration, when there is one.
pub open spec fn input_block(audio: Option<AudioConfig>) -> Option<InputAudioConfig> {
    match audio {
        Some(a) => a.input,
        None => None,
    }
}

/// The output-audio block of a configuration, when there is one.
pub open spec fn output_block(audio: Option<AudioConfig>) -> Option<OutputAudioConfig> {
    match audio {
        Some(a) => a.output,
        None => None,
    }
}

/// Which change to make to the input-audio block.
enum InputChange {
    TurnDetection(TurnDetection),
    Transcription(InputAudioTranscription),
    NoiseReduction(NoiseReduction),
}

fn change_input(audio: Option<AudioConfig>, change: InputChange) -> (r: Option<AudioConfig>)
    ensures
        input_block(audio) is None ==> r == audio,
        input_block(audio) matches Some(i) ==> r matches Some(a) && output_block(r) == output_block(audio)
            && a.input == Some(match change {
                InputChange::TurnDetection(t) => InputAudioConfig { turn_detection: Some(Nullable::Value(t)), ..i },
                InputChange::Transcription(t) => InputAudioConfig { transcription: Some(Nullable::Value(t)), ..i },
                InputChange::NoiseReduction(n) => InputAudioConfig { noise_reduction: Some(Nullable::Value(n)), ..i },
            }),
{
    match audio {
        Some(AudioConfig { input: Some(input), output }) => {
            let input = match change {
                InputChange::TurnDetection(t) => InputAudioConfig { turn_detection: Some(Nullable::Value(t)), ..input },
                InputChange::Transcription(t) => InputAudioConfig { transcription: Some(Nullable::Value(t)), ..input },
                InputChange::NoiseReduction(n) => InputAudioConfig { noise_reduction: Some(Nullable::Value(n)), ..input },
            };
            Some(AudioConfig { input: Some(input), output })
        },
        other => other,
    }
}

impl VoiceSessionBuilder {
    /// Applies the voice preset to `inner`.
    pub fn new(inner: RealtimeBuilder) -> (r: VoiceSessionBuilder)
        ensures
            r.inner.output_modalities == Some(OutputModalities::Audio),
            r.inner.auto_barge_in,
            r.inner.audio == Some(AudioConfig {
                input: Some(InputAudioConfig {
                    format: Some(AudioFormat::Pcm { rate: PCM_24KHZ_RATE }),
                    turn_detection: Some(Nullable::Value(default_server_vad())),
                    transcription: None,
                    noise_reduction: None,
                }),
                output: Some(OutputAudioConfig {
                    format: Some(AudioFormat::Pcm { rate: PCM_24KHZ_RATE }),
                    voice: None,
                    speed: None,
                }),
            }),
            r.inner.api_key == inner.api_key,
            r.inner.model == inner.model,
            r.inner.voice == inner.voice,
            r.inner.instructions == inner.instructions,
            r.inner.auto_tool_response == inner.auto_tool_response,
            r.inner.tools == inner.tools,
    {
        let input = InputAudioConfig {
            format: Some(AudioFormat::pcm_24khz()),
            turn_detection: Some(Nullable::Value(server_vad())),
            transcription: None,
            noise_reduction: None,
        };
        let output = OutputAudioConfig { format: Some(AudioFormat::pcm_24khz()), voice: None, speed: None };
        VoiceSessionBuilder {
            inner: RealtimeBuilder {
                output_modalities: Some(OutputModalities::Audio),
                audio: Some(AudioConfig { input: Some(input), output: Some(output) }),
                auto_barge_in: true,
                ..inner
            },
        }
    }

    pub fn api_key(self, key: String) -> (r: VoiceSessionBuilder)
        ensures
            r.inner == (RealtimeBuilder { api_key: Some(key), ..self.inner }),
    {
        VoiceSessionBuilder { inner: self.inner.api_key(key) }
    }

    pub fn model(self, model: String) -> (r: VoiceSessionBuilder)
        ensures
            r.inner == (RealtimeBuilder { model: Some(model), ..self.inner }),
    {
        VoiceSessionBuilder { inner: self.inner.model(model) }
    }

    pub fn instructions(self, instructions: String) -> (r: VoiceSessionBuilder)
        ensures
            r.inner == (RealtimeBuilder { instructions: Some(instructions), ..self.inner }),
    {
        VoiceSessionBuilder { inner: self.inner.instructions(instructions) }
    }

    /// Chooses the voice, both for the session and for the output audio.
    pub fn voice(self, voice: String) -> (r: VoiceSessionBuilder)
        ensures
            r.inner.voice == Some(voice),
            input_block(r.inner.audio) == input_block(self.inner.audio),
            output_block(self.inner.audio) is None ==> r.inner.audio == self.inner.audio,
            output_block(self.inner.audio) matches Some(o) ==> output_block(r.inner.audio) == Some(
                OutputAudioConfig { voice: Some(Voice::Id(voice)), ..o },
            ),
            r.inner.api_key == self.inner.api_key,
            r.inner.auto_barge_in == self.inner.auto_barge_in,
    {
        let inner = self.inner;
        let audio = match inner.audio {
            Some(AudioConfig { input, output: Some(output) }) => Some(AudioConfig {
                input,
                output: Some(OutputAudioConfig { voice: Some(Voice::Id(voice.clone())), ..output }),
            }),
            other => other,
        };
        VoiceSessionBuilder { inner: RealtimeBuilder { voice: Some(voice), audio, ..inner } }
    }

    /// Server voice activity detection with automatic responses and interruption.
    pub fn vad_server_default(self) -> (r: VoiceSessionBuilder)
        ensures
            input_block(self.inner.audio) matches Some(i) ==> input_block(r.inner.audio) == Some(
                InputAudioConfig { turn_detection: Some(Nullable::Value(default_server_vad())), ..i },
            ),
            input_block(self.inner.audio) is None ==> r.inner.audio == self.inner.audio,
    {
        self.set_turn_detection(server_vad())
    }

    pub fn set_turn_detection(self, vad: TurnDetection) -> (r: VoiceSessionBuilder)
        ensures
            input_block(self.inner.audio) matches Some(i) ==> input_block(r.inner.audio) == Some(
                InputAudioConfig { turn_detection: Some(Nullable::Value(vad)), ..i },
            ),
            input_block(self.inner.audio) is None ==> r.inner.audio == self.inner.audio,
            output_block(r.inner.audio) == output_block(self.inner.audio),
    {
        let inner = self.inner;
        let audio = change_input(inner.audio, InputChange::TurnDetection(vad));
        VoiceSessionBuilder { inner: RealtimeBuilder { audio, ..inner } }
    }

    /// Transcribes the user's speech with `model`.
    pub fn transcription(self, model: String) -> (r: VoiceSessionBuilder)
        ensures
            input_block(self.inner.audio) matches Some(i) ==> input_block(r.inner.audio) == Some(
                InputAudioConfig {
                    transcription: Some(Nullable::Value(InputAudioTranscription { model: Some(model), language: None, prompt: None })),
                    ..i
                },
            ),
            input_block(self.inner.audio) is None ==> r.inner.audio == self.inner.audio,
    {
        let inner = self.inner;
        let t = InputAudioTranscription { model: Some(model), language: None, prompt: None };
        let audio = change_input(inner.audio, InputChange::Transcription(t));
        VoiceSessionBuilder { inner: RealtimeBuilder { audio, ..inner } }
    }

    pub fn noise_reduction(self, noise_reduction: NoiseReduction) -> (r: VoiceSessionBuilder)
        ensures
            input_block(self.inner.audio) matches Some(i) ==> input_block(r.inner.audio) == Some(
                InputAudioConfig { noise_reduction: Some(Nullable::Value(noise_reduction)), ..i },
            ),
            input_block(self.inner.audio) is None ==> r.inner.audio == self.inner.audio,
    {
        let inner = self.inner;
        let audio = change_input(inner.audio, InputChange::NoiseReduction(noise_reduction));
        VoiceSessionBuilder { inner: RealtimeBuilder { audio, ..inner } }
    }

    pub fn auto_barge_in(self, enabled: bool) -> (r: VoiceSessionBuilder)
        ensures
            r.inner == (RealtimeBuilder { auto_barge_in: enabled, ..self.inner }),
    {
        VoiceSessionBuilder { inner: self.inner.auto_barge_in(enabled) }
    }

    pub fn auto_tool_response(self, enabled: bool) -> (r: VoiceSessionBuilder)
        ensures
            r.inner == (RealtimeBuilder { auto_tool_response: enabled, ..self.inner }),
    {
        VoiceSessionBuilder { inner: self.inner.auto_tool_response(enabled) }
    }

    pub fn tools(self, tools: ToolRegistry) -> (r: VoiceSessionBuilder)
        ensures
            r.inner == (RealtimeBuilder { tools, ..self.inner }),
    {
        VoiceSessionBuilder { inner: self.inner.tools(tools) }
    }

    /// The settings to connect with, as [`RealtimeBuilder::build`] gives them.
    pub fn build(self) -> (r: Result<SessionSettings, Error>)
        ensures
            r is Err <==> self.inner.api_key is None,
            r matches Ok(s) ==> s.session.audio == self.inner.audio && s.auto_barge_in == self.inner.auto_barge_in,
    {
        self.inner.build()
    }
}

} // verus!
