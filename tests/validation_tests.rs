use oai_rt_rs::protocol::client_events::ClientEvent;
use oai_rt_rs::protocol::models::{
    AudioConfig, AudioFormat, InputAudioConfig, McpToolConfig, ResponseConfig, SessionUpdate,
    SessionUpdateConfig, Tool,
};
use oai_rt_rs::validate::{
    estimate_base64_decoded_len, validate_client_event, validate_response_config,
    validate_session_update, validate_tools,
};
use oai_rt_rs::Error;

fn validate_base64_audio(s: &str) -> Result<(), Error> {
    validate_client_event(&ClientEvent::InputAudioBufferAppend { event_id: None, audio: s.to_string() })
}

#[test]
fn base64_valid_passes() {
    // "hello" in base64
    let valid = "aGVsbG8=";
    assert!(validate_base64_audio(valid).is_ok());
}

#[test]
fn base64_valid_no_padding_passes() {
    // "test" in base64
    let valid = "dGVzdA==";
    assert!(validate_base64_audio(valid).is_ok());
}

#[test]
fn base64_invalid_length_errors() {
    let invalid = "abc";
    let err = validate_base64_audio(invalid).unwrap_err();
    assert!(matches!(err, Error::InvalidClientEvent(msg) if msg.contains("invalid base64 length")));
}

#[test]
fn base64_invalid_character_errors() {
    let invalid = "abc!";
    let err = validate_base64_audio(invalid).unwrap_err();
    assert!(matches!(err, Error::InvalidClientEvent(msg) if msg.contains("invalid base64 character")));
}

#[test]
fn base64_invalid_padding_placement_errors() {
    let invalid = "ab=c";
    let err = validate_base64_audio(invalid).unwrap_err();
    assert!(matches!(err, Error::InvalidClientEvent(msg) if msg.contains("invalid base64 padding")));
}

#[test]
fn base64_exceeds_15mb_errors() {
    // 15728641 bytes need ceil(15728641 / 3) * 4 = 20971524 characters
    let oversized = "A".repeat(20_971_524);
    let err = validate_base64_audio(&oversized).unwrap_err();
    assert!(matches!(err, Error::InvalidClientEvent(msg) if msg.contains("exceeds 15MB")));
}

#[test]
fn base64_exactly_15mb_passes() {
    // 15728640 bytes are exactly (15728640 / 3) * 4 = 20971520 characters
    let max_size = "A".repeat(20_971_520);
    assert!(validate_base64_audio(&max_size).is_ok());
}

#[test]
fn audio_format_pcm_24khz_passes() {
    let format = AudioFormat::pcm_24khz();
    assert!(format.validate().is_ok());
}

#[test]
fn audio_format_pcm_wrong_rate_errors() {
    let format = AudioFormat::Pcm { rate: 16000 };
    let err = format.validate().unwrap_err();
    assert!(matches!(err, Error::InvalidClientEvent(msg) if msg.contains("rate must be 24000")));
}

#[test]
fn audio_format_pcm_48khz_errors() {
    let format = AudioFormat::Pcm { rate: 48000 };
    let err = format.validate().unwrap_err();
    assert!(matches!(err, Error::InvalidClientEvent(msg) if msg.contains("rate must be 24000")));
}

#[test]
fn audio_format_pcmu_passes() {
    let format = AudioFormat::Pcmu;
    assert!(format.validate().is_ok());
}

#[test]
fn audio_format_pcma_passes() {
    let format = AudioFormat::Pcma;
    assert!(format.validate().is_ok());
}

#[test]
fn mcp_tool_with_server_url_passes() {
    let config = McpToolConfig {
        server_label: "test".to_string(),
        server_url: Some("https://example.com".to_string()),
        ..McpToolConfig::default()
    };
    assert!(config.validate().is_ok());
}

#[test]
fn mcp_tool_with_connector_id_passes() {
    let config = McpToolConfig {
        server_label: "test".to_string(),
        connector_id: Some("conn_123".to_string()),
        ..McpToolConfig::default()
    };
    assert!(config.validate().is_ok());
}

#[test]
fn mcp_tool_with_both_passes() {
    let config = McpToolConfig {
        server_label: "test".to_string(),
        server_url: Some("https://example.com".to_string()),
        connector_id: Some("conn_123".to_string()),
        ..McpToolConfig::default()
    };
    assert!(config.validate().is_ok());
}

#[test]
fn mcp_tool_missing_url_and_connector_errors() {
    let config = McpToolConfig {
        server_label: "test".to_string(),
        server_url: None,
        connector_id: None,
        ..McpToolConfig::default()
    };
    let err = config.validate().unwrap_err();
    assert!(matches!(err, Error::InvalidClientEvent(msg) if msg.contains("server_url or connector_id")));
}

#[test]
fn session_update_with_invalid_audio_format_errors() {
    let config = SessionUpdateConfig {
        input_audio_format: Some(AudioFormat::Pcm { rate: 8000 }),
        ..SessionUpdateConfig::default()
    };
    let err = config.input_audio_format.as_ref().unwrap().validate().unwrap_err();
    assert!(matches!(err, Error::InvalidClientEvent(msg) if msg.contains("rate must be 24000")));
}

#[test]
fn session_update_with_invalid_mcp_tool_errors() {
    let invalid_mcp = Tool::Mcp(McpToolConfig {
        server_label: "broken".to_string(),
        server_url: None,
        connector_id: None,
        ..McpToolConfig::default()
    });
    if let Tool::Mcp(config) = &invalid_mcp {
        let err = config.validate().unwrap_err();
        assert!(matches!(err, Error::InvalidClientEvent(msg) if msg.contains("server_url or connector_id")));
    }
}

#[test]
fn response_config_with_nested_invalid_audio_errors() {
    let config = ResponseConfig {
        audio: Some(AudioConfig {
            input: Some(InputAudioConfig {
                format: Some(AudioFormat::Pcm { rate: 44100 }),
                ..InputAudioConfig::default()
            }),
            output: None,
        }),
        ..ResponseConfig::default()
    };
    let format = config.audio.as_ref().unwrap().input.as_ref().unwrap().format.as_ref().unwrap();
    let err = format.validate().unwrap_err();
    assert!(matches!(err, Error::InvalidClientEvent(msg) if msg.contains("rate must be 24000")));
}

#[test]
fn valid_session_config_passes() {
    let config = SessionUpdateConfig {
        input_audio_format: Some(AudioFormat::pcm_24khz()),
        output_audio_format: Some(AudioFormat::pcm_24khz()),
        tools: Some(vec![Tool::Mcp(McpToolConfig {
            server_label: "weather".to_string(),
            server_url: Some("https://mcp.example.com".to_string()),
            ..McpToolConfig::default()
        })]),
        ..SessionUpdateConfig::default()
    };
    assert!(config.input_audio_format.as_ref().unwrap().validate().is_ok());
    assert!(config.output_audio_format.as_ref().unwrap().validate().is_ok());
    if let Some(tools) = &config.tools {
        for tool in tools {
            if let Tool::Mcp(mcp) = tool {
                assert!(mcp.validate().is_ok());
            }
        }
    }
}

#[test]
fn estimate_counts_padding() {
    assert_eq!(estimate_base64_decoded_len("aGVsbG8=").unwrap(), 5);
    assert_eq!(estimate_base64_decoded_len("dGVzdA==").unwrap(), 4);
    assert_eq!(estimate_base64_decoded_len("AAAA").unwrap(), 3);
    assert_eq!(estimate_base64_decoded_len("").unwrap(), 0);
}

#[test]
fn estimate_rejects_three_pads() {
    let err = estimate_base64_decoded_len("A===").unwrap_err();
    assert!(matches!(err, Error::InvalidClientEvent(msg) if msg.contains("padding length")));
}

#[test]
fn padded_text_one_byte_over_limit_is_rejected() {
    // 20971524 characters with two pads decode to 15728643 - 2 = 15728641 bytes
    let mut over = "A".repeat(20_971_522);
    over.push_str("==");
    let err = validate_base64_audio(&over).unwrap_err();
    assert!(matches!(err, Error::InvalidClientEvent(msg) if msg.contains("(15728641 bytes)")));
}

#[test]
fn session_update_checks_nested_formats_and_tools() {
    let bad_audio = SessionUpdate {
        config: SessionUpdateConfig {
            audio: Some(AudioConfig {
                input: Some(InputAudioConfig { format: Some(AudioFormat::Pcm { rate: 8000 }), ..InputAudioConfig::default() }),
                output: None,
            }),
            ..SessionUpdateConfig::default()
        },
    };
    assert!(validate_session_update(&bad_audio).is_err());
    let bad_tool = SessionUpdate {
        config: SessionUpdateConfig {
            tools: Some(vec![Tool::Mcp(McpToolConfig { server_label: "x".to_string(), ..McpToolConfig::default() })]),
            ..SessionUpdateConfig::default()
        },
    };
    assert!(validate_session_update(&bad_tool).is_err());
    let event = ClientEvent::SessionUpdate { event_id: None, session: Box::new(bad_tool) };
    assert!(validate_client_event(&event).is_err());
    assert!(validate_session_update(&SessionUpdate { config: SessionUpdateConfig::default() }).is_ok());
}

#[test]
fn response_config_checks_tools() {
    let config = ResponseConfig {
        tools: Some(vec![Tool::Mcp(McpToolConfig { server_label: "x".to_string(), ..McpToolConfig::default() })]),
        ..ResponseConfig::default()
    };
    assert!(validate_response_config(&config).is_err());
    let event = ClientEvent::ResponseCreate { event_id: None, response: Some(Box::new(config)) };
    assert!(validate_client_event(&event).is_err());
    assert!(validate_tools(&Vec::new()).is_ok());
    let commit = ClientEvent::InputAudioBufferCommit { event_id: None };
    assert!(validate_client_event(&commit).is_ok());
}
