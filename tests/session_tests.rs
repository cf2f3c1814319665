use oai_rt_rs::protocol::client_events::ClientEvent;
use oai_rt_rs::protocol::json::Json;
use oai_rt_rs::protocol::models::{
    AudioFormat, ContentPart, InputItem, Item, McpToolConfig, Nullable, OutputModalities, Role, Tool, TurnDetection, Voice,
};
use oai_rt_rs::sdk::builder::Realtime;
use oai_rt_rs::sdk::response::ResponseBuilder;
use oai_rt_rs::protocol::server_events::ServerEvent;
use oai_rt_rs::sdk::events::SdkEvent;
use oai_rt_rs::sdk::session::{
    append_audio_command, barge_in_commands, mcp_approval_command, pcm16_le_bytes, prepare_send,
    tool_arguments, tool_error_output, user_text_command, ActorState, ToolOutcome,
};
use oai_rt_rs::sdk::tools::{ToolCall, ToolDefinition, ToolRegistry};
use oai_rt_rs::sdk::voice::VoiceEvent;

fn response(id: &str) -> Json {
    Json::Object(vec![("id".to_string(), Json::Str(id.to_string())), ("object".to_string(), Json::Str("response".to_string()))])
}

fn created(id: &str) -> ServerEvent {
    ServerEvent::ResponseCreated { event_id: "evt_1".to_string(), response: response(id) }
}

fn audio_delta(response_id: &str, delta: &str) -> ServerEvent {
    ServerEvent::ResponseOutputAudioDelta {
        event_id: "evt_2".to_string(),
        response_id: response_id.to_string(),
        item_id: "item_1".to_string(),
        output_index: 0,
        content_index: 0,
        delta: delta.to_string(),
    }
}

fn text_delta(item: &str, index: u32, delta: &str) -> ServerEvent {
    ServerEvent::ResponseOutputTextDelta {
        event_id: "e".to_string(),
        response_id: "resp_1".to_string(),
        item_id: item.to_string(),
        output_index: 0,
        content_index: index,
        delta: delta.to_string(),
    }
}

fn text_done(item: &str, index: u32, text: &str) -> ServerEvent {
    ServerEvent::ResponseOutputTextDone {
        event_id: "e".to_string(),
        response_id: "resp_1".to_string(),
        item_id: item.to_string(),
        output_index: 0,
        content_index: index,
        text: text.to_string(),
    }
}

#[test]
fn tool_call_sends_output() {
    let mut state = ActorState::new(false, true);
    let evt = ServerEvent::ResponseFunctionCallArgumentsDone {
        event_id: "evt_1".to_string(),
        response_id: "resp_1".to_string(),
        item_id: "item_1".to_string(),
        output_index: 0,
        call_id: "call_1".to_string(),
        name: "echo".to_string(),
        arguments: r#"{"hello":"world"}"#.to_string(),
    };
    let outs = state.on_notification(evt);
    let call = outs.tool_call.expect("tool call");
    assert_eq!(call.call_id, "call_1");
    assert_eq!(call.name, "echo");
    assert_eq!(call.response_id.as_deref(), Some("resp_1"));
    let writes = state.tool_outcome(call.call_id, ToolOutcome::Success(r#"{"hello":"world"}"#.to_string()));
    assert_eq!(writes.len(), 2);
    match &writes[0] {
        ClientEvent::ConversationItemCreate { item, .. } => match item.as_ref() {
            Item::FunctionCallOutput { call_id, output, .. } => {
                assert_eq!(call_id, "call_1");
                assert!(output.contains("hello"));
            }
            other => panic!("unexpected item: {other:?}"),
        },
        other => panic!("unexpected event: {other:?}"),
    }
    assert!(matches!(writes[1], ClientEvent::ResponseCreate { response: None, .. }));
}

#[test]
fn tool_output_without_follow_up_or_after_failure() {
    let state = ActorState::new(false, false);
    let writes = state.tool_outcome("c".to_string(), ToolOutcome::Success("1".to_string()));
    assert_eq!(writes.len(), 1);
    let state = ActorState::new(false, true);
    let writes = state.tool_outcome("c".to_string(), ToolOutcome::Failure(r#"{"error":"boom"}"#.to_string()));
    assert_eq!(writes.len(), 1);
    match &writes[0] {
        ClientEvent::ConversationItemCreate { item, .. } => match item.as_ref() {
            Item::FunctionCallOutput { call_id, output, .. } => {
                assert_eq!(call_id, "c");
                assert_eq!(output, r#"{"error":"boom"}"#);
            }
            other => panic!("unexpected item: {other:?}"),
        },
        other => panic!("unexpected event: {other:?}"),
    }
}

#[test]
fn next_event_maps_sdk_event() {
    let mut state = ActorState::new(false, true);
    let outs = state.on_notification(text_delta("item_1", 0, "hello"));
    match outs.classified {
        SdkEvent::TextDelta { delta, .. } => assert_eq!(delta, "hello"),
        other => panic!("unexpected event: {other:?}"),
    }
    assert!(outs.texts.is_empty());
}

#[test]
fn event_stream_yields_sdk_event() {
    let mut state = ActorState::new(false, true);
    let outs = state.on_notification(text_done("item_1", 0, "done"));
    match outs.classified {
        SdkEvent::TextDone { text, .. } => assert_eq!(text, "done"),
        other => panic!("unexpected event: {other:?}"),
    }
    assert_eq!(outs.texts, vec!["done".to_string()]);
}

#[test]
fn text_done_publishes_done_text_and_clears_buffer() {
    let mut state = ActorState::new(false, true);
    for piece in ["a", "b", "c"] {
        let outs = state.on_notification(text_delta("item_1", 0, piece));
        assert!(outs.texts.is_empty());
    }
    let _ = state.on_notification(text_delta("item_2", 1, "other"));
    assert_eq!(state.open_buffers(), 2);
    assert_eq!(state.buffers[0].text, "abc");
    let outs = state.on_notification(text_done("item_1", 0, "final text"));
    assert_eq!(outs.texts, vec!["final text".to_string()]);
    assert_eq!(state.open_buffers(), 1);
    let _ = state.on_notification(text_delta("item_1", 0, "x"));
    assert_eq!(state.open_buffers(), 2);
    assert_eq!(state.buffers[1].text, "x");
}

#[test]
fn voice_event_audio_delta_decodes() {
    let mut state = ActorState::new(false, true);
    let _ = state.on_notification(created("resp_1"));
    // [1, 2, 3, 4] in base64
    let outs = state.on_notification(audio_delta("resp_1", "AQIDBA=="));
    assert_eq!(outs.voice.len(), 1);
    match &outs.voice[0] {
        VoiceEvent::AudioDelta { pcm, .. } => assert_eq!(pcm, &vec![1u8, 2, 3, 4]),
        other => panic!("unexpected voice event: {other:?}"),
    }
    assert_eq!(outs.audio.len(), 1);
    assert_eq!(outs.audio[0].pcm, vec![1u8, 2, 3, 4]);
}

#[test]
fn undecodable_audio_reports_decode_error() {
    let mut state = ActorState::new(false, true);
    let _ = state.on_notification(created("resp_1"));
    let outs = state.on_notification(audio_delta("resp_1", "!!!!"));
    assert_eq!(outs.voice.len(), 1);
    assert!(matches!(outs.voice[0], VoiceEvent::DecodeError { .. }));
    assert!(outs.audio.is_empty());
}

#[test]
fn barge_in_sends_clear_and_cancel() {
    let mut state = ActorState::new(false, true);
    let outs = state.on_notification(created("resp_1"));
    assert!(matches!(&outs.voice[0], VoiceEvent::ResponseCreated { response_id } if response_id == "resp_1"));
    let taken = state.active_response_id.take();
    let writes = barge_in_commands(taken);
    assert_eq!(writes.len(), 2);
    assert!(matches!(writes[0], ClientEvent::OutputAudioBufferClear { .. }));
    assert!(matches!(&writes[1], ClientEvent::ResponseCancel { response_id: Some(id), .. } if id == "resp_1"));
    assert_eq!(barge_in_commands(None).len(), 1);
}

#[test]
fn auto_barge_in_on_speech_started() {
    let mut state = ActorState::new(true, true);
    let _ = state.on_notification(created("R"));
    assert_eq!(state.active_response_id.as_deref(), Some("R"));
    let speech = ServerEvent::InputAudioBufferSpeechStarted { event_id: "evt_2".to_string(), audio_start_ms: 0, item_id: "item_1".to_string() };
    let outs = state.on_notification(speech);
    assert_eq!(outs.writes.len(), 2);
    assert!(matches!(outs.writes[0], ClientEvent::OutputAudioBufferClear { .. }));
    assert!(matches!(&outs.writes[1], ClientEvent::ResponseCancel { response_id: Some(id), .. } if id == "R"));
    assert!(state.active_response_id.is_none());
    assert!(matches!(outs.voice[0], VoiceEvent::SpeechStarted { audio_start_ms: Some(0) }));
}

#[test]
fn speech_without_auto_barge_in_writes_nothing() {
    let mut state = ActorState::new(false, true);
    let _ = state.on_notification(created("R"));
    let speech = ServerEvent::InputAudioBufferSpeechStarted { event_id: "e".to_string(), audio_start_ms: 5, item_id: "i".to_string() };
    let outs = state.on_notification(speech);
    assert!(outs.writes.is_empty());
    assert_eq!(state.active_response_id.as_deref(), Some("R"));
}

#[test]
fn audio_deltas_gate_on_active_response() {
    let mut state = ActorState::new(false, true);
    let _ = state.on_notification(created("resp_1"));
    let outs = state.on_notification(audio_delta("resp_2", "AQI="));
    assert!(outs.audio.is_empty());
    assert!(outs.voice.is_empty());
    assert!(matches!(outs.classified, SdkEvent::AudioDelta { .. }));
    let outs = state.on_notification(audio_delta("resp_1", "AQI="));
    assert_eq!(outs.audio.len(), 1);
    assert_eq!(outs.audio[0].pcm, vec![1u8, 2]);
}

#[test]
fn transcripts_are_gated_and_tagged() {
    let mut state = ActorState::new(false, true);
    let _ = state.on_notification(created("resp_1"));
    let delta = ServerEvent::ResponseOutputAudioTranscriptDelta {
        event_id: "e".to_string(),
        response_id: "resp_1".to_string(),
        item_id: "i".to_string(),
        output_index: 0,
        content_index: 0,
        delta: "hel".to_string(),
    };
    let outs = state.on_notification(delta);
    assert_eq!(outs.transcripts.len(), 1);
    assert!(!outs.transcripts[0].is_final);
    assert_eq!(outs.transcripts[0].text, "hel");
    let done = ServerEvent::ResponseOutputAudioTranscriptDone {
        event_id: "e".to_string(),
        response_id: "resp_1".to_string(),
        item_id: "i".to_string(),
        output_index: 0,
        content_index: 0,
        transcript: "hello".to_string(),
    };
    let outs = state.on_notification(done);
    assert!(outs.transcripts[0].is_final);
    assert_eq!(outs.transcripts[0].text, "hello");
    let stale = ServerEvent::ResponseOutputAudioTranscriptDone {
        event_id: "e".to_string(),
        response_id: "other".to_string(),
        item_id: "i".to_string(),
        output_index: 0,
        content_index: 0,
        transcript: "x".to_string(),
    };
    let outs = state.on_notification(stale);
    assert!(outs.transcripts.is_empty());
}

#[test]
fn audio_without_active_response_is_dropped() {
    let mut state = ActorState::new(true, true);
    let _ = state.on_notification(created("resp_1"));
    let speech = ServerEvent::InputAudioBufferSpeechStarted { event_id: "e".to_string(), audio_start_ms: 0, item_id: "i".to_string() };
    let _ = state.on_notification(speech);
    let outs = state.on_notification(audio_delta("resp_1", "AQI="));
    assert!(outs.audio.is_empty());
    assert!(outs.voice.is_empty());
    assert!(matches!(outs.classified, SdkEvent::AudioDelta { .. }));
}

#[test]
fn tool_failure_payload_and_argument_fallback() {
    let out = tool_error_output("boom".to_string());
    assert_eq!(out, Json::Object(vec![("error".to_string(), Json::Str("boom".to_string()))]));
    assert_eq!(tool_arguments(None, "not json".to_string()), Json::Str("not json".to_string()));
    assert_eq!(tool_arguments(Some(Json::UInt(3)), "3".to_string()), Json::UInt(3));
}

#[test]
fn response_done_clears_active() {
    let mut state = ActorState::new(false, true);
    let _ = state.on_notification(created("resp_1"));
    let done = ServerEvent::ResponseDone { event_id: "e".to_string(), response: response("resp_1") };
    let outs = state.on_notification(done);
    assert!(state.active_response_id.is_none());
    assert!(matches!(&outs.voice[0], VoiceEvent::ResponseDone { response_id } if response_id == "resp_1"));
}

#[test]
fn approve_mcp_sends_item() {
    let cmd = mcp_approval_command("req_1".to_string(), true, Some("ok".to_string()));
    match cmd {
        ClientEvent::ConversationItemCreate { item, .. } => match *item {
            Item::McpApprovalResponse { approval_request_id, approve, reason, .. } => {
                assert_eq!(approval_request_id, "req_1");
                assert!(approve);
                assert_eq!(reason.as_deref(), Some("ok"));
            }
            other => panic!("unexpected item: {other:?}"),
        },
        other => panic!("unexpected event: {other:?}"),
    }
}

#[test]
fn say_builds_user_message() {
    match user_text_command("hi".to_string()) {
        ClientEvent::ConversationItemCreate { item, .. } => match *item {
            Item::Message { role, content, .. } => {
                assert_eq!(role, Role::User);
                assert!(matches!(&content[0], ContentPart::InputText { text } if text == "hi"));
            }
            other => panic!("unexpected item: {other:?}"),
        },
        other => panic!("unexpected event: {other:?}"),
    }
}

#[test]
fn send_audio_pcm16_appends_and_commits() {
    let bytes = pcm16_le_bytes(&[1i16, -2, 256]);
    assert_eq!(bytes, vec![1u8, 0, 254, 255, 0, 1]);
    match append_audio_command(&bytes).expect("append") {
        ClientEvent::InputAudioBufferAppend { audio, .. } => assert_eq!(audio, "AQD+/wAB"),
        other => panic!("unexpected: {other:?}"),
    }
    assert!(append_audio_command(&[]).is_none());
}

#[test]
fn oversized_append_is_never_handed_to_the_connection() {
    let oversized = ClientEvent::InputAudioBufferAppend { event_id: None, audio: "A".repeat(20_971_524) };
    let mut written: Vec<ClientEvent> = Vec::new();
    if let Ok(cmd) = prepare_send(oversized) {
        written.push(cmd);
    }
    assert!(written.is_empty());
    let ok = ClientEvent::InputAudioBufferAppend { event_id: None, audio: "AAAA".to_string() };
    assert!(prepare_send(ok).is_ok());
}

#[test]
fn tool_registry_collects_definitions() {
    let mut registry = ToolRegistry::new();
    assert!(registry.is_empty());
    registry.register_definition(ToolDefinition {
        name: "echo".to_string(),
        description: Some("Echo input".to_string()),
        schema: Json::Object(vec![("type".to_string(), Json::Str("object".to_string()))]),
    });
    assert!(registry.mcp_tool(McpToolConfig { server_label: "bad".to_string(), ..McpToolConfig::default() }).is_err());
    assert!(registry
        .mcp_tool(McpToolConfig {
            server_label: "weather".to_string(),
            server_url: Some("https://mcp.example.com".to_string()),
            ..McpToolConfig::default()
        })
        .is_ok());
    assert_eq!(registry.definitions().len(), 1);
    assert_eq!(registry.remotes().len(), 1);
    let tools = registry.try_as_tools();
    assert_eq!(tools.len(), 2);
    match &tools[0] {
        Tool::Function { name, description, parameters } => {
            assert_eq!(name, "echo");
            assert_eq!(description.as_deref(), Some("Echo input"));
            assert_eq!(parameters, &Json::Object(vec![("type".to_string(), Json::Str("object".to_string()))]));
        }
        other => panic!("unexpected: {other:?}"),
    }
    assert!(matches!(&tools[1], Tool::Mcp(c) if c.server_label == "weather"));
}

#[test]
fn dispatch_of_unknown_tool_is_an_error() {
    let mut registry = ToolRegistry::new();
    registry.register_definition(ToolDefinition { name: "echo".to_string(), description: None, schema: Json::Null });
    let call = |name: &str| ToolCall {
        name: name.to_string(),
        call_id: "c".to_string(),
        arguments: Json::Null,
        response_id: None,
        item_id: None,
        output_index: None,
    };
    assert!(registry.check_call(&call("echo")).is_ok());
    assert!(registry.check_call(&call("missing")).is_err());
}

#[test]
fn builder_chain_compiles() {
    let b = Realtime::builder()
        .api_key("k".to_string())
        .model("gpt-realtime".to_string())
        .voice("marin".to_string())
        .output_audio();
    assert_eq!(b.voice.as_deref(), Some("marin"));
    assert_eq!(b.output_modalities, Some(OutputModalities::Audio));
}

#[test]
fn voice_session_builder_compiles() {
    let b = Realtime::builder().voice_session().voice("alloy".to_string()).vad_server_default();
    assert!(b.inner.auto_barge_in);
    let audio = b.inner.audio.as_ref().expect("audio preset");
    let output = audio.output.as_ref().expect("output preset");
    assert!(matches!(&output.voice, Some(Voice::Id(v)) if v == "alloy"));
    assert_eq!(output.format, Some(AudioFormat::Pcm { rate: 24000 }));
    let input = audio.input.as_ref().expect("input preset");
    assert!(matches!(
        input.turn_detection,
        Some(Nullable::Value(TurnDetection::ServerVad { create_response: Some(true), interrupt_response: Some(true), .. }))
    ));
}

#[test]
fn builder_settings_defaults() {
    let missing_key = Realtime::builder().model("m".to_string()).build();
    assert!(missing_key.is_err());
    let settings = Realtime::builder()
        .api_key("k".to_string())
        .instructions("be brief".to_string())
        .output_text()
        .auto_barge_in(true)
        .build()
        .expect("settings");
    assert_eq!(settings.session.model, "gpt-realtime");
    assert_eq!(settings.session.instructions.as_deref(), Some("be brief"));
    assert_eq!(settings.session.output_modalities, OutputModalities::Text);
    assert!(settings.session.tools.is_none());
    assert!(settings.auto_barge_in);
    assert!(settings.auto_tool_response);
    let with_tool = Realtime::builder()
        .api_key("k".to_string())
        .mcp_tool(McpToolConfig { server_label: "w".to_string(), connector_id: Some("c".to_string()), ..McpToolConfig::default() })
        .expect("valid remote tool")
        .build()
        .expect("settings");
    assert_eq!(with_tool.session.tools.as_ref().map(Vec::len), Some(1));
    assert_eq!(with_tool.session.output_modalities, OutputModalities::Audio);
}

#[test]
fn send_response_emits_response_create() {
    let config = ResponseBuilder::new()
        .instructions("Respond.".to_string())
        .input_text("Pineapple?".to_string())
        .input_item(InputItem::ItemReference { id: "item_ref_1".to_string() })
        .output_text()
        .build();
    assert_eq!(config.instructions.as_deref(), Some("Respond."));
    assert_eq!(config.output_modalities, Some(OutputModalities::Text));
    let input = config.input.as_ref().expect("input");
    assert_eq!(input.len(), 2);
    assert!(matches!(&input[0], InputItem::Message { role: Role::User, content, .. } if matches!(&content[0], ContentPart::InputText { text } if text == "Pineapple?")));
    assert!(matches!(&input[1], InputItem::ItemReference { id } if id == "item_ref_1"));
    let event = ClientEvent::ResponseCreate { event_id: None, response: Some(Box::new(config)) };
    assert!(prepare_send(event).is_ok());
}

#[test]
fn appended_audio_passes_validation() {
    let pcm = pcm16_le_bytes(&[0i16; 1000]);
    let cmd = append_audio_command(&pcm).expect("append");
    assert!(prepare_send(cmd).is_ok());
}
