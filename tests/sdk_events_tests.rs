use oai_rt_rs::protocol::json::Json;
use oai_rt_rs::protocol::models::{
    AudioFormat, ContentPart, Item, ItemStatus, OutputModalities, Role, Session, SessionConfig, SessionKind,
};
use oai_rt_rs::protocol::server_events::ServerEvent;
use oai_rt_rs::sdk::events::SdkEvent;
use oai_rt_rs::{ApiErrorType, ServerError};

fn obj(members: Vec<(&str, Json)>) -> Json {
    Json::Object(members.into_iter().map(|(k, v)| (k.to_string(), v)).collect())
}

fn text(s: &str) -> Json {
    Json::Str(s.to_string())
}

#[test]
fn sdk_event_maps_text_delta() {
    let evt = ServerEvent::ResponseOutputTextDelta {
        event_id: "evt_1".to_string(),
        response_id: "resp_1".to_string(),
        item_id: "item_1".to_string(),
        output_index: 0,
        content_index: 0,
        delta: "hi".to_string(),
    };
    let mapped = SdkEvent::from_server(evt).expect("event maps");
    match mapped {
        SdkEvent::TextDelta { response_id, item_id, delta, .. } => {
            assert_eq!(response_id, "resp_1");
            assert_eq!(item_id, "item_1");
            assert_eq!(delta, "hi");
        }
        other => panic!("unexpected mapping: {other:?}"),
    }
}

#[test]
fn test_server_event_flat_deserialization() {
    let json = obj(vec![
        ("type", text("response.output_text.delta")),
        ("event_id", text("evt_1")),
        ("response_id", text("resp_1")),
        ("item_id", text("item_1")),
        ("output_index", Json::UInt(0)),
        ("content_index", Json::UInt(0)),
        ("delta", text("hello")),
    ]);
    let event = ServerEvent::from_json(json);
    assert_eq!(event.event_id(), Some("evt_1"));
    match event {
        ServerEvent::ResponseOutputTextDelta { delta, .. } => assert_eq!(delta, "hello"),
        _ => panic!("Wrong variant"),
    }
}

#[test]
fn test_item_status_copy() {
    let s = ItemStatus::Completed;
    let _ = s;
    assert_eq!(s, ItemStatus::Completed);
}

#[test]
fn test_session_struct_update() {
    let mut config = SessionConfig::new(SessionKind::Realtime, "gpt-realtime".to_string(), OutputModalities::Audio);
    config.instructions = Some("Test instructions".to_string());
    let session = Session { id: "sess_123".to_string(), object: "realtime.session".to_string(), expires_at: 123, config };
    assert_eq!(session.config.model.as_str(), "gpt-realtime");
    assert_eq!(session.config.instructions.as_deref(), Some("Test instructions"));
    assert_eq!(session.config.output_modalities, OutputModalities::Audio);
}

#[test]
fn unknown_type_is_kept_verbatim() {
    let json = obj(vec![("type", text("response.brand_new")), ("event_id", text("evt_9")), ("x", Json::Float("0.5".to_string()))]);
    let expected = obj(vec![("type", text("response.brand_new")), ("event_id", text("evt_9")), ("x", Json::Float("0.5".to_string()))]);
    let event = ServerEvent::from_json(json);
    assert_eq!(event.event_id(), Some("evt_9"));
    assert!(matches!(event, ServerEvent::Unknown(_)));
    assert_eq!(event.to_json(), expected);
}

#[test]
fn known_type_with_missing_member_is_unknown() {
    let json = obj(vec![("type", text("response.output_text.delta")), ("event_id", text("evt_1"))]);
    let event = ServerEvent::from_json(json);
    assert!(matches!(event, ServerEvent::Unknown(_)));
    let not_object = ServerEvent::from_json(Json::UInt(7));
    assert!(matches!(not_object, ServerEvent::Unknown(Json::UInt(7))));
}

#[test]
fn known_event_round_trips() {
    let evt = ServerEvent::InputAudioTranscriptionDelta {
        event_id: "e".to_string(),
        item_id: "i".to_string(),
        content_index: 3,
        delta: "d".to_string(),
        obfuscation: Some(text("xyz")),
        logprobs: None,
    };
    let json = evt.to_json();
    match ServerEvent::from_json(json) {
        ServerEvent::InputAudioTranscriptionDelta { event_id, item_id, content_index, delta, obfuscation, logprobs } => {
            assert_eq!(event_id, "e");
            assert_eq!(item_id, "i");
            assert_eq!(content_index, 3);
            assert_eq!(delta, "d");
            assert_eq!(obfuscation, Some(text("xyz")));
            assert_eq!(logprobs, None);
        }
        other => panic!("unexpected: {other:?}"),
    }
}

#[test]
fn extra_members_are_ignored() {
    let json = obj(vec![
        ("type", text("input_audio_buffer.speech_started")),
        ("event_id", text("evt_2")),
        ("audio_start_ms", Json::UInt(120)),
        ("item_id", text("item_1")),
        ("later_addition", Json::Bool(true)),
    ]);
    match ServerEvent::from_json(json) {
        ServerEvent::InputAudioBufferSpeechStarted { audio_start_ms, item_id, .. } => {
            assert_eq!(audio_start_ms, 120);
            assert_eq!(item_id, "item_1");
        }
        other => panic!("unexpected: {other:?}"),
    }
}

#[test]
fn error_event_decodes_and_classifies() {
    let json = obj(vec![
        ("type", text("error")),
        ("event_id", text("evt_3")),
        ("error", obj(vec![("type", text("rate_limit_error")), ("message", text("slow down")), ("code", Json::Null)])),
    ]);
    let event = ServerEvent::from_json(json);
    match SdkEvent::from_server(event).unwrap() {
        SdkEvent::Error { event_id, error } => {
            assert_eq!(event_id, "evt_3");
            assert_eq!(error.error_type, ApiErrorType::RateLimitError);
            assert_eq!(error.message, "slow down");
            assert_eq!(error.code, None);
        }
        other => panic!("unexpected: {other:?}"),
    }
    let unknown_kind = obj(vec![("type", text("teapot_error")), ("message", text("m"))]);
    let err = oai_rt_rs::protocol::server_events::decode_server_error(&unknown_kind).unwrap();
    assert_eq!(err.error_type, ApiErrorType::Unknown);
    let back = oai_rt_rs::protocol::server_events::encode_server_error(ServerError {
        error_type: ApiErrorType::ServerError,
        code: Some("c".to_string()),
        message: "m".to_string(),
        param: None,
        event_id: None,
    });
    let again = oai_rt_rs::protocol::server_events::decode_server_error(&back).unwrap();
    assert_eq!(again.error_type, ApiErrorType::ServerError);
    assert_eq!(again.code.as_deref(), Some("c"));
}

#[test]
fn unmapped_notifications_pass_through_raw() {
    let evt = ServerEvent::InputAudioBufferCleared { event_id: "evt_4".to_string() };
    match SdkEvent::from_server(evt).unwrap() {
        SdkEvent::Raw(inner) => assert!(matches!(*inner, ServerEvent::InputAudioBufferCleared { .. })),
        other => panic!("unexpected: {other:?}"),
    }
    let unknown = ServerEvent::Unknown(obj(vec![("type", text("x"))]));
    assert!(matches!(SdkEvent::from_server(unknown).unwrap(), SdkEvent::Raw(_)));
}

#[test]
fn tool_call_done_classifies_with_name() {
    let evt = ServerEvent::ResponseFunctionCallArgumentsDone {
        event_id: "e".to_string(),
        response_id: "r".to_string(),
        item_id: "i".to_string(),
        output_index: 1,
        call_id: "c".to_string(),
        name: "echo".to_string(),
        arguments: "{}".to_string(),
    };
    match SdkEvent::from_server(evt).unwrap() {
        SdkEvent::ToolCall { call_id, name, arguments, output_index, .. } => {
            assert_eq!(call_id, "c");
            assert_eq!(name, "echo");
            assert_eq!(arguments, "{}");
            assert_eq!(output_index, 1);
        }
        other => panic!("unexpected: {other:?}"),
    }
}

#[test]
fn content_parts_decode_or_stay_unknown() {
    let part = ContentPart::from_json(obj(vec![("type", text("input_text")), ("text", text("hi"))]));
    assert!(matches!(part, ContentPart::InputText { ref text } if text == "hi"));
    let audio = ContentPart::from_json(obj(vec![
        ("type", text("input_audio")),
        ("audio", text("AAAA")),
        ("format", obj(vec![("type", text("audio/pcm"))])),
    ]));
    assert!(matches!(audio, ContentPart::InputAudio { format: Some(AudioFormat::Pcm { rate: 24000 }), .. }));
    let future = ContentPart::from_json(obj(vec![("type", text("hologram")), ("data", Json::UInt(1))]));
    assert_eq!(future.kind_name(), "unknown");
    assert!(matches!(future, ContentPart::Unknown(ref v) if *v == obj(vec![("type", text("hologram")), ("data", Json::UInt(1))])));
}

#[test]
fn items_decode_or_stay_unknown() {
    let message = Item::from_json(obj(vec![
        ("type", text("message")),
        ("id", text("item_1")),
        ("status", text("completed")),
        ("role", text("assistant")),
        ("content", Json::Array(vec![obj(vec![("type", text("output_text")), ("text", text("hello"))])])),
    ]));
    match &message {
        Item::Message { id, status, role, content } => {
            assert_eq!(id.as_deref(), Some("item_1"));
            assert_eq!(*status, Some(ItemStatus::Completed));
            assert_eq!(*role, Role::Assistant);
            assert!(matches!(&content[0], ContentPart::OutputText { text } if text == "hello"));
        }
        other => panic!("unexpected: {other:?}"),
    }
    assert_eq!(message.kind_name(), "message");
    let call = Item::from_json(obj(vec![
        ("type", text("function_call")),
        ("name", text("echo")),
        ("call_id", text("c1")),
        ("arguments", text("{}")),
    ]));
    assert!(matches!(call, Item::FunctionCall { ref call_id, .. } if call_id == "c1"));
    let bad_role = Item::from_json(obj(vec![("type", text("message")), ("role", text("robot")), ("content", Json::Array(vec![]))]));
    assert!(matches!(bad_role, Item::Unknown(_)));
    let tools = Item::from_json(obj(vec![
        ("type", text("mcp_list_tools")),
        ("server_label", text("weather")),
        ("tools", Json::Array(vec![obj(vec![("name", text("forecast")), ("input_schema", obj(vec![]))])])),
    ]));
    match tools {
        Item::McpListTools { tools: Some(list), .. } => {
            assert_eq!(list[0].name, "forecast");
            assert_eq!(list[0].input_schema, Some(obj(vec![])));
        }
        other => panic!("unexpected: {other:?}"),
    }
}

#[test]
fn config_helpers_keep_their_values() {
    assert_eq!(oai_rt_rs::protocol::models::default_pcm_rate(), 24000);
    assert_eq!(AudioFormat::Pcmu.mime_type(), "audio/pcmu");
    assert_eq!(AudioFormat::pcm_24khz().mime_type(), "audio/pcm");
    let voice = oai_rt_rs::protocol::models::Voice::Object { id: "alloy".to_string() };
    assert_eq!(voice.id(), "alloy");
    let present = oai_rt_rs::protocol::models::Nullable::Value(5u32);
    assert_eq!(present.as_ref(), Some(&5));
    let absent: oai_rt_rs::protocol::models::Nullable<u32> = oai_rt_rs::protocol::models::Nullable::Null;
    assert_eq!(absent.as_ref(), None);
    let mut config = SessionConfig::new(SessionKind::Realtime, "m".to_string(), OutputModalities::Text);
    config.instructions = Some("be brief".to_string());
    config.input_audio_format = Some(AudioFormat::Pcma);
    let update = oai_rt_rs::protocol::models::SessionUpdate::from_config(config);
    assert_eq!(update.config.output_modalities, Some(OutputModalities::Text));
    assert_eq!(update.config.instructions.as_deref(), Some("be brief"));
    assert_eq!(update.config.input_audio_format, Some(AudioFormat::Pcma));
    assert_eq!(Item::FunctionCallOutput { id: None, call_id: "c".to_string(), output: "o".to_string() }.kind_name(), "function_call_output");
    assert_eq!(ContentPart::Text { text: "t".to_string() }.kind_name(), "text");
    assert_eq!(Role::System, Role::System);
}

#[test]
fn test_new_voice_events_mapping() {
    let done = oai_rt_rs::VoiceEvent::UserTranscriptDone {
        item_id: "item_1".to_string(),
        content_index: 0,
        transcript: "hello".to_string(),
    };
    assert!(matches!(done, oai_rt_rs::VoiceEvent::UserTranscriptDone { ref transcript, .. } if transcript == "hello"));
    let cancelled = oai_rt_rs::VoiceEvent::ResponseCancelled { response_id: "resp_1".to_string() };
    assert!(matches!(cancelled, oai_rt_rs::VoiceEvent::ResponseCancelled { ref response_id } if response_id == "resp_1"));
}

#[test]
fn items_and_parts_encode_back_to_themselves() {
    let part = ContentPart::InputAudio { audio: "AAAA".to_string(), transcript: None, format: Some(AudioFormat::Pcm { rate: 24000 }) };
    let j = part.to_json();
    assert_eq!(
        j,
        obj(vec![
            ("type", text("input_audio")),
            ("audio", text("AAAA")),
            ("format", obj(vec![("type", text("audio/pcm")), ("rate", Json::UInt(24000))])),
        ])
    );
    assert!(matches!(ContentPart::from_json(j), ContentPart::InputAudio { format: Some(AudioFormat::Pcm { rate: 24000 }), .. }));
    let raw = obj(vec![("type", text("hologram"))]);
    assert_eq!(ContentPart::Unknown(obj(vec![("type", text("hologram"))])).to_json(), raw);
    let item = Item::McpApprovalResponse {
        id: None,
        status: Some(ItemStatus::Completed),
        approval_request_id: "req_1".to_string(),
        approve: true,
        reason: Some("ok".to_string()),
    };
    match Item::from_json(item.to_json()) {
        Item::McpApprovalResponse { approval_request_id, approve, reason, status, .. } => {
            assert_eq!(approval_request_id, "req_1");
            assert!(approve);
            assert_eq!(reason.as_deref(), Some("ok"));
            assert_eq!(status, Some(ItemStatus::Completed));
        }
        other => panic!("unexpected: {other:?}"),
    }
    let message = Item::Message {
        id: None,
        status: None,
        role: Role::User,
        content: vec![ContentPart::InputText { text: "hi".to_string() }],
    };
    assert_eq!(
        message.to_json(),
        obj(vec![
            ("type", text("message")),
            ("role", text("user")),
            ("content", Json::Array(vec![obj(vec![("type", text("input_text")), ("text", text("hi"))])])),
        ])
    );
}

#[test]
fn response_without_id_stays_unknown() {
    let json = obj(vec![("type", text("response.created")), ("event_id", text("e")), ("response", obj(vec![("object", text("response"))]))]);
    assert!(matches!(ServerEvent::from_json(json), ServerEvent::Unknown(_)));
}
