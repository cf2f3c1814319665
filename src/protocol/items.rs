//! Decoding conversation items and content parts: each is an open tagged
//! union, decoded strictly when its `type` is known and its members have the
//! expected shapes, and otherwise kept as the JSON value received.

use vstd::prelude::*;

use super::json::{
    field_of, get_field, get_opt_str, get_str, opt_json_at, opt_str_at, str_at, take_field,
    take_opt_field, Json,
};
use super::models::{
    AudioFormat, AudioPartFormat, ContentPart, Item, ItemStatus, McpError, McpToolInfo, Role, PCM_24KHZ_RATE,
};

verus! {

fn text_is(t: &String, lit: &str) -> (r: bool)
    ensures
        r == (t@ == lit@),
{
    *t == lit.to_owned()
}

/// An audio format object: `audio/pcm` (rate defaulting to 24 kHz),
/// `audio/pcmu` or `audio/pcma`.
pub open spec fn audio_format_of(j: Json) -> Option<AudioFormat> {
    match j {
        Json::Object(f) => match str_at(f@, "type"@) {
            Some(t) => if t@ == "audio/pcm"@ {
                match field_of(f@, "rate"@) {
                    None => Some(AudioFormat::Pcm { rate: PCM_24KHZ_RATE }),
                    Some(Json::UInt(n)) => if n <= u32::MAX { Some(AudioFormat::Pcm { rate: n as u32 }) } else { None },
                    _ => None,
                }
            } else if t@ == "audio/pcmu"@ {
                Some(AudioFormat::Pcmu)
            } else if t@ == "audio/pcma"@ {
                Some(AudioFormat::Pcma)
            } else {
                None
            },
            None => None,
        },
        _ => None,
    }
}

/// An optional audio format member: absent or null reads as `Some(None)`.
pub open spec fn opt_format_at(f: Seq<(String, Json)>, key: Seq<char>) -> Option<Option<AudioFormat>> {
    match field_of(f, key) {
        None => Some(None),
        Some(Json::Null) => Some(None),
        Some(v) => match audio_format_of(v) {
            Some(x) => Some(Some(x)),
            None => None,
        },
    }
}

/// A part's format: a label string or a format object.
pub open spec fn opt_part_format_at(f: Seq<(String, Json)>, key: Seq<char>) -> Option<Option<AudioPartFormat>> {
    match field_of(f, key) {
        None => Some(None),
        Some(Json::Null) => Some(None),
        Some(Json::Str(s)) => Some(Some(AudioPartFormat::Label(s))),
        Some(v) => match audio_format_of(v) {
            Some(x) => Some(Some(AudioPartFormat::Config(x))),
            None => None,
        },
    }
}

fn decode_audio_format(j: &Json) -> (r: Option<AudioFormat>)
    ensures
        r == audio_format_of(*j),
{
    match j {
        Json::Object(f) => match get_str(f, "type") {
            Some(t) => if text_is(&t, "audio/pcm") {
                match get_field(f, "rate") {
                    None => Some(AudioFormat::Pcm { rate: PCM_24KHZ_RATE }),
                    Some(Json::UInt(n)) => if *n <= 4294967295u64 { Some(AudioFormat::Pcm { rate: *n as u32 }) } else { None },
                    _ => None,
                }
            } else if text_is(&t, "audio/pcmu") {
                Some(AudioFormat::Pcmu)
            } else if text_is(&t, "audio/pcma") {
                Some(AudioFormat::Pcma)
            } else {
                None
            },
            None => None,
        },
        _ => None,
    }
}

fn get_opt_format(f: &Vec<(String, Json)>, key: &str) -> (r: Option<Option<AudioFormat>>)
    ensures
        r == opt_format_at(f@, key@),
{
    match get_field(f, key) {
        None => Some(None),
        Some(Json::Null) => Some(None),
        Some(v) => match decode_audio_format(v) {
            Some(x) => Some(Some(x)),
            None => None,
        },
    }
}

fn get_opt_part_format(f: &Vec<(String, Json)>, key: &str) -> (r: Option<Option<AudioPartFormat>>)
    ensures
        r == opt_part_format_at(f@, key@),
{
    match get_field(f, key) {
        None => Some(None),
        Some(Json::Null) => Some(None),
        Some(Json::Str(s)) => Some(Some(AudioPartFormat::Label(s.clone()))),
        Some(v) => match decode_audio_format(v) {
            Some(x) => Some(Some(AudioPartFormat::Config(x))),
            None => None,
        },
    }
}

/// What a JSON value decodes to as a content part.
pub open spec fn part_of(j: Json) -> ContentPart {
    match j {
        Json::Object(f) => match str_at(f@, "type"@) {
            Some(t) => part_tagged(t@, j, f@),
            None => ContentPart::Unknown(j),
        },
        _ => ContentPart::Unknown(j),
    }
}

pub open spec fn part_tagged(t: Seq<char>, j: Json, f: Seq<(String, Json)>) -> ContentPart {
    if t == "input_text"@ || t == "output_text"@ || t == "text"@ {
        match str_at(f, "text"@) {
            Some(text) => if t == "input_text"@ {
                ContentPart::InputText { text }
            } else if t == "output_text"@ {
                ContentPart::OutputText { text }
            } else {
                ContentPart::Text { text }
            },
            None => ContentPart::Unknown(j),
        }
    } else if t == "input_audio"@ {
        match (str_at(f, "audio"@), opt_str_at(f, "transcript"@), opt_format_at(f, "format"@)) {
            (Some(audio), Some(transcript), Some(format)) => ContentPart::InputAudio { audio, transcript, format },
            _ => ContentPart::Unknown(j),
        }
    } else if t == "input_image"@ {
        match (str_at(f, "image_url"@), opt_str_at(f, "detail"@)) {
            (Some(image_url), Some(detail)) => ContentPart::InputImage { image_url, detail },
            _ => ContentPart::Unknown(j),
        }
    } else if t == "output_audio"@ {
        match (opt_str_at(f, "audio"@), opt_str_at(f, "transcript"@), opt_format_at(f, "format"@)) {
            (Some(audio), Some(transcript), Some(format)) => ContentPart::OutputAudio { audio, transcript, format },
            _ => ContentPart::Unknown(j),
        }
    } else if t == "audio"@ {
        match (opt_str_at(f, "audio"@), opt_str_at(f, "transcript"@), opt_part_format_at(f, "format"@)) {
            (Some(audio), Some(transcript), Some(format)) => ContentPart::Audio { audio, transcript, format },
            _ => ContentPart::Unknown(j),
        }
    } else {
        ContentPart::Unknown(j)
    }
}

fn part_tagged_members(t: String, fields: Vec<(String, Json)>) -> (r: ContentPart)
    ensures
        r == part_tagged(t@, Json::Object(fields), fields@),
{
    if text_is(&t, "input_text") || text_is(&t, "output_text") || text_is(&t, "text") {
        match get_str(&fields, "text") {
            Some(text) => if text_is(&t, "input_text") {
                ContentPart::InputText { text }
            } else if text_is(&t, "output_text") {
                ContentPart::OutputText { text }
            } else {
                ContentPart::Text { text }
            },
            None => ContentPart::Unknown(Json::Object(fields)),
        }
    } else if text_is(&t, "input_audio") {
        match (get_str(&fields, "audio"), get_opt_str(&fields, "transcript"), get_opt_format(&fields, "format")) {
            (Some(audio), Some(transcript), Some(format)) => ContentPart::InputAudio { audio, transcript, format },
            _ => ContentPart::Unknown(Json::Object(fields)),
        }
    } else if text_is(&t, "input_image") {
        match (get_str(&fields, "image_url"), get_opt_str(&fields, "detail")) {
            (Some(image_url), Some(detail)) => ContentPart::InputImage { image_url, detail },
            _ => ContentPart::Unknown(Json::Object(fields)),
        }
    } else if text_is(&t, "output_audio") {
        match (get_opt_str(&fields, "audio"), get_opt_str(&fields, "transcript"), get_opt_format(&fields, "format")) {
            (Some(audio), Some(transcript), Some(format)) => ContentPart::OutputAudio { audio, transcript, format },
            _ => ContentPart::Unknown(Json::Object(fields)),
        }
    } else if text_is(&t, "audio") {
        match (get_opt_str(&fields, "audio"), get_opt_str(&fields, "transcript"), get_opt_part_format(&fields, "format")) {
            (Some(audio), Some(transcript), Some(format)) => ContentPart::Audio { audio, transcript, format },
            _ => ContentPart::Unknown(Json::Object(fields)),
        }
    } else {
        ContentPart::Unknown(Json::Object(fields))
    }
}

impl ContentPart {
    /// Decodes a content part, keeping an unrecognised one as received.
    pub fn from_json(j: Json) -> (r: ContentPart)
        ensures
            r == part_of(j),
    {
        match j {
            Json::Object(fields) => match get_str(&fields, "type") {
                Some(t) => part_tagged_members(t, fields),
                None => ContentPart::Unknown(Json::Object(fields)),
            },
            other => ContentPart::Unknown(other),
        }
    }
}

/// Decodes every element of an array as a content part.
pub fn parts_from_json(items: Vec<Json>) -> (r: Vec<ContentPart>)
    ensures
        r@.len() == items@.len(),
        forall|i: int| 0 <= i < items@.len() ==> #[trigger] r@[i] == part_of(items@[i]),
{
    let ghost orig = items@;
    let mut items = items;
    let mut out: Vec<ContentPart> = Vec::new();
    while items.len() > 0
        invariant
            out@.len() + items@.len() == orig.len(),
            items@ == orig.subrange(out@.len() as int, orig.len() as int),
            forall|i: int| 0 <= i < out@.len() ==> #[trigger] out@[i] == part_of(orig[i]),
        decreases items@.len(),
    {
        let first = items.remove(0);
        proof {
            assert(first == orig[out@.len() as int]);
        }
        out.push(ContentPart::from_json(first));
        proof {
            assert(items@ =~= orig.subrange(out@.len() as int, orig.len() as int));
        }
    }
    out
}


/// An item status named by a wire string.
pub open spec fn status_named(s: Seq<char>) -> Option<ItemStatus> {
    if s == "in_progress"@ {
        Some(ItemStatus::InProgress)
    } else if s == "completed"@ {
        Some(ItemStatus::Completed)
    } else if s == "incomplete"@ {
        Some(ItemStatus::Incomplete)
    } else {
        None
    }
}

/// An optional status member: absent or null reads as `Some(None)`.
pub open spec fn opt_status_at(f: Seq<(String, Json)>, key: Seq<char>) -> Option<Option<ItemStatus>> {
    match field_of(f, key) {
        None => Some(None),
        Some(Json::Null) => Some(None),
        Some(Json::Str(s)) => match status_named(s@) {
            Some(x) => Some(Some(x)),
            None => None,
        },
        _ => None,
    }
}

/// A required role member.
pub open spec fn role_at(f: Seq<(String, Json)>, key: Seq<char>) -> Option<Role> {
    match str_at(f, key) {
        Some(s) => if s@ == "user"@ {
            Some(Role::User)
        } else if s@ == "assistant"@ {
            Some(Role::Assistant)
        } else if s@ == "system"@ {
            Some(Role::System)
        } else {
            None
        },
        None => None,
    }
}

/// A required boolean member.
pub open spec fn bool_at(f: Seq<(String, Json)>, key: Seq<char>) -> Option<bool> {
    match field_of(f, key) {
        Some(Json::Bool(b)) => Some(b),
        _ => None,
    }
}

/// A JSON integer that fits in 32 signed bits.
pub open spec fn i32_of(j: Json) -> Option<i32> {
    match j {
        Json::UInt(n) => if n <= i32::MAX { Some(n as i32) } else { None },
        Json::Int(n) => if i32::MIN <= n <= i32::MAX { Some(n as i32) } else { None },
        _ => None,
    }
}

/// An MCP error object; an unrecognised `type` reads as `Unknown`.
pub open spec fn mcp_error_of(j: Json) -> Option<McpError> {
    match j {
        Json::Object(f) => match str_at(f@, "type"@) {
            Some(t) => if t@ == "protocol"@ || t@ == "http"@ {
                match (field_of(f@, "code"@), str_at(f@, "message"@)) {
                    (Some(c), Some(message)) => match i32_of(c) {
                        Some(code) => if t@ == "protocol"@ {
                            Some(McpError::Protocol { code, message })
                        } else {
                            Some(McpError::Http { code, message })
                        },
                        None => None,
                    },
                    _ => None,
                }
            } else if t@ == "tool_execution"@ {
                match str_at(f@, "message"@) {
                    Some(message) => Some(McpError::ToolExecution { message }),
                    None => None,
                }
            } else {
                Some(McpError::Unknown)
            },
            None => None,
        },
        _ => None,
    }
}

/// An optional MCP error member: absent or null reads as `Some(None)`.
pub open spec fn opt_mcp_error_at(f: Seq<(String, Json)>, key: Seq<char>) -> Option<Option<McpError>> {
    match field_of(f, key) {
        None => Some(None),
        Some(Json::Null) => Some(None),
        Some(v) => match mcp_error_of(v) {
            Some(e) => Some(Some(e)),
            None => None,
        },
    }
}

/// Whether `j` is a well-formed MCP tool description.
pub open spec fn tool_info_ok(j: Json) -> bool {
    match j {
        Json::Object(f) => str_at(f@, "name"@) is Some && opt_str_at(f@, "description"@) is Some,
        _ => false,
    }
}

/// `t` is what the MCP tool description `j` decodes to.
pub open spec fn tool_info_decodes(j: Json, t: McpToolInfo) -> bool {
    match j {
        Json::Object(f) => {
            &&& str_at(f@, "name"@) == Some(t.name)
            &&& opt_str_at(f@, "description"@) == Some(t.description)
            &&& t.input_schema == opt_json_at(f@, "input_schema"@)
            &&& t.annotations == opt_json_at(f@, "annotations"@)
        },
        _ => false,
    }
}

/// The optional tool list of an MCP list-tools item: `Some(None)` when
/// absent or null, `Some(Some(items))` for an array of well-formed
/// descriptions, `None` otherwise.
pub open spec fn tools_list_at(f: Seq<(String, Json)>, key: Seq<char>) -> Option<Option<Seq<Json>>> {
    match field_of(f, key) {
        None => Some(None),
        Some(Json::Null) => Some(None),
        Some(Json::Array(items)) => if forall|i: int| 0 <= i < items@.len() ==> tool_info_ok(#[trigger] items@[i]) {
            Some(Some(items@))
        } else {
            None
        },
        _ => None,
    }
}

/// `r` is what `j` decodes to as a conversation item.
pub open spec fn item_decodes(j: Json, r: Item) -> bool {
    match j {
        Json::Object(f) => match str_at(f@, "type"@) {
            Some(t) => item_tagged_decodes(t@, j, f@, r),
            None => r == Item::Unknown(j),
        },
        _ => r == Item::Unknown(j),
    }
}

pub open spec fn item_tagged_decodes(t: Seq<char>, j: Json, f: Seq<(String, Json)>, r: Item) -> bool {
    if t == "message"@ {
        match (opt_str_at(f, "id"@), opt_status_at(f, "status"@), role_at(f, "role"@), field_of(f, "content"@)) {
            (Some(id), Some(status), Some(role), Some(Json::Array(items))) => r matches Item::Message {
                id: i,
                status: st,
                role: ro,
                content,
            } && i == id && st == status && ro == role && content@.len() == items@.len() && forall|k: int|
                0 <= k < items@.len() ==> #[trigger] content@[k] == part_of(items@[k]),
            _ => r == Item::Unknown(j),
        }
    } else if t == "function_call"@ {
        match (opt_str_at(f, "id"@), opt_status_at(f, "status"@), str_at(f, "name"@), str_at(f, "call_id"@), str_at(f, "arguments"@)) {
            (Some(id), Some(status), Some(name), Some(call_id), Some(arguments)) =>
                r == (Item::FunctionCall { id, status, name, call_id, arguments }),
            _ => r == Item::Unknown(j),
        }
    } else if t == "function_call_output"@ {
        match (opt_str_at(f, "id"@), str_at(f, "call_id"@), str_at(f, "output"@)) {
            (Some(id), Some(call_id), Some(output)) => r == (Item::FunctionCallOutput { id, call_id, output }),
            _ => r == Item::Unknown(j),
        }
    } else if t == "mcp_call"@ {
        match (
            opt_str_at(f, "id"@),
            opt_status_at(f, "status"@),
            str_at(f, "call_id"@),
            str_at(f, "server_label"@),
            str_at(f, "name"@),
            str_at(f, "arguments"@),
            opt_str_at(f, "approval_request_id"@),
            opt_str_at(f, "output"@),
            opt_mcp_error_at(f, "error"@),
        ) {
            (
                Some(id),
                Some(status),
                Some(call_id),
                Some(server_label),
                Some(name),
                Some(arguments),
                Some(approval_request_id),
                Some(output),
                Some(error),
            ) => r == (Item::McpCall {
                id,
                status,
                call_id,
                server_label,
                name,
                arguments,
                approval_request_id,
                output,
                error,
            }),
            _ => r == Item::Unknown(j),
        }
    } else if t == "mcp_list_tools"@ {
        match (opt_str_at(f, "id"@), opt_status_at(f, "status"@), str_at(f, "server_label"@), tools_list_at(f, "tools"@)) {
            (Some(id), Some(status), Some(server_label), Some(list)) => r matches Item::McpListTools {
                id: i,
                status: st,
                server_label: sl,
                tools,
            } && i == id && st == status && sl == server_label && match list {
                None => tools is None,
                Some(items) => tools matches Some(ts) && ts@.len() == items.len() && forall|k: int|
                    0 <= k < items.len() ==> tool_info_decodes(items[k], #[trigger] ts@[k]),
            },
            _ => r == Item::Unknown(j),
        }
    } else if t == "mcp_approval_request"@ {
        match (opt_str_at(f, "id"@), opt_status_at(f, "status"@), str_at(f, "server_label"@), str_at(f, "name"@), str_at(f, "arguments"@)) {
            (Some(id), Some(status), Some(server_label), Some(name), Some(arguments)) =>
                r == (Item::McpApprovalRequest { id, status, server_label, name, arguments }),
            _ => r == Item::Unknown(j),
        }
    } else if t == "mcp_approval_response"@ {
        match (opt_str_at(f, "id"@), opt_status_at(f, "status"@), str_at(f, "approval_request_id"@), bool_at(f, "approve"@), opt_str_at(f, "reason"@)) {
            (Some(id), Some(status), Some(approval_request_id), Some(approve), Some(reason)) =>
                r == (Item::McpApprovalResponse { id, status, approval_request_id, approve, reason }),
            _ => r == Item::Unknown(j),
        }
    } else {
        r == Item::Unknown(j)
    }
}

fn get_opt_status(f: &Vec<(String, Json)>, key: &str) -> (r: Option<Option<ItemStatus>>)
    ensures
        r == opt_status_at(f@, key@),
{
    match get_field(f, key) {
        None => Some(None),
        Some(Json::Null) => Some(None),
        Some(Json::Str(s)) => if text_is(s, "in_progress") {
            Some(Some(ItemStatus::InProgress))
        } else if text_is(s, "completed") {
            Some(Some(ItemStatus::Completed))
        } else if text_is(s, "incomplete") {
            Some(Some(ItemStatus::Incomplete))
        } else {
            None
        },
        _ => None,
    }
}

fn get_role(f: &Vec<(String, Json)>, key: &str) -> (r: Option<Role>)
    ensures
        r == role_at(f@, key@),
{
    match get_str(f, key) {
        Some(s) => if text_is(&s, "user") {
            Some(Role::User)
        } else if text_is(&s, "assistant") {
            Some(Role::Assistant)
        } else if text_is(&s, "system") {
            Some(Role::System)
        } else {
            None
        },
        None => None,
    }
}

fn get_bool(f: &Vec<(String, Json)>, key: &str) -> (r: Option<bool>)
    ensures
        r == bool_at(f@, key@),
{
    match get_field(f, key) {
        Some(Json::Bool(b)) => Some(*b),
        _ => None,
    }
}

fn to_i32(j: &Json) -> (r: Option<i32>)
    ensures
        r == i32_of(*j),
{
    match j {
        Json::UInt(n) => if *n <= 2147483647u64 { Some(*n as i32) } else { None },
        Json::Int(n) => if -2147483648i64 <= *n && *n <= 2147483647i64 { Some(*n as i32) } else { None },
        _ => None,
    }
}

fn decode_mcp_error(j: &Json) -> (r: Option<McpError>)
    ensures
        r == mcp_error_of(*j),
{
    match j {
        Json::Object(f) => match get_str(f, "type") {
            Some(t) => if text_is(&t, "protocol") || text_is(&t, "http") {
                match (get_field(f, "code"), get_str(f, "message")) {
                    (Some(c), Some(message)) => match to_i32(c) {
                        Some(code) => if text_is(&t, "protocol") {
                            Some(McpError::Protocol { code, message })
                        } else {
                            Some(McpError::Http { code, message })
                        },
                        None => None,
                    },
                    _ => None,
                }
            } else if text_is(&t, "tool_execution") {
                match get_str(f, "message") {
                    Some(message) => Some(McpError::ToolExecution { message }),
                    None => None,
                }
            } else {
                Some(McpError::Unknown)
            },
            None => None,
        },
        _ => None,
    }
}

fn get_opt_mcp_error(f: &Vec<(String, Json)>, key: &str) -> (r: Option<Option<McpError>>)
    ensures
        r == opt_mcp_error_at(f@, key@),
{
    match get_field(f, key) {
        None => Some(None),
        Some(Json::Null) => Some(None),
        Some(v) => match decode_mcp_error(v) {
            Some(e) => Some(Some(e)),
            None => None,
        },
    }
}

fn tool_info_valid(j: &Json) -> (r: bool)
    ensures
        r == tool_info_ok(*j),
{
    match j {
        Json::Object(f) => get_str(f, "name").is_some() && get_opt_str(f, "description").is_some(),
        _ => false,
    }
}

/// Checks the optional tool list without taking anything out of it.
fn tools_list_valid(f: &Vec<(String, Json)>, key: &str) -> (r: bool)
    ensures
        r == tools_list_at(f@, key@) is Some,
{
    match get_field(f, key) {
        None => true,
        Some(Json::Null) => true,
        Some(Json::Array(items)) => {
            let mut i: usize = 0;
            while i < items.len()
                invariant
                    0 <= i <= items@.len(),
                    field_of(f@, key@) == Some(Json::Array(*items)),
                    forall|k: int| 0 <= k < i ==> tool_info_ok(#[trigger] items@[k]),
                decreases items.len() - i,
            {
                if !tool_info_valid(&items[i]) {
                    proof {
                        assert(!tool_info_ok(items@[i as int]));
                        assert(!(forall|k: int| 0 <= k < items@.len() ==> tool_info_ok(#[trigger] items@[k])));
                    }
                    return false;
                }
                i = i + 1;
            }
            true
        },
        _ => false,
    }
}

fn tool_info_from(j: Json) -> (r: McpToolInfo)
    requires
        tool_info_ok(j),
    ensures
        tool_info_decodes(j, r),
{
    match j {
        Json::Object(fields) => {
            let name = get_str(&fields, "name");
            let description = get_opt_str(&fields, "description");
            let mut fields = fields;
            let input_schema = take_opt_field(&mut fields, "input_schema");
            proof {
                reveal_strlit("input_schema");
                reveal_strlit("annotations");
                assert("input_schema"@.len() == 12);
                assert("annotations"@.len() == 11);
            }
            let annotations = take_opt_field(&mut fields, "annotations");
            match (name, description) {
                (Some(name), Some(description)) => McpToolInfo { name, description, input_schema, annotations },
                _ => McpToolInfo { name: String::new(), description: None, input_schema: None, annotations: None },
            }
        },
        _ => McpToolInfo { name: String::new(), description: None, input_schema: None, annotations: None },
    }
}

fn tools_from(items: Vec<Json>) -> (r: Vec<McpToolInfo>)
    requires
        forall|i: int| 0 <= i < items@.len() ==> tool_info_ok(#[trigger] items@[i]),
    ensures
        r@.len() == items@.len(),
        forall|k: int| 0 <= k < items@.len() ==> tool_info_decodes(items@[k], #[trigger] r@[k]),
{
    let ghost orig = items@;
    let mut items = items;
    let mut out: Vec<McpToolInfo> = Vec::new();
    while items.len() > 0
        invariant
            out@.len() + items@.len() == orig.len(),
            items@ == orig.subrange(out@.len() as int, orig.len() as int),
            forall|i: int| 0 <= i < orig.len() ==> tool_info_ok(#[trigger] orig[i]),
            forall|k: int| 0 <= k < out@.len() ==> tool_info_decodes(orig[k], #[trigger] out@[k]),
        decreases items@.len(),
    {
        let first = items.remove(0);
        proof {
            assert(first == orig[out@.len() as int]);
        }
        out.push(tool_info_from(first));
        proof {
            assert(items@ =~= orig.subrange(out@.len() as int, orig.len() as int));
        }
    }
    out
}

impl Item {
    /// Decodes a conversation item, keeping an unrecognised or malformed one
    /// as received.
    pub fn from_json(j: Json) -> (r: Item)
        ensures
            item_decodes(j, r),
    {
        match j {
            Json::Object(fields) => match get_str(&fields, "type") {
                Some(t) => item_tagged_members(t, fields),
                None => Item::Unknown(Json::Object(fields)),
            },
            other => Item::Unknown(other),
        }
    }
}

fn item_tagged_members(t: String, fields: Vec<(String, Json)>) -> (r: Item)
    ensures
        item_tagged_decodes(t@, Json::Object(fields), fields@, r),
{
    if text_is(&t, "message") {
        let id = get_opt_str(&fields, "id");
        let status = get_opt_status(&fields, "status");
        let role = get_role(&fields, "role");
        let is_array = match get_field(&fields, "content") {
            Some(Json::Array(_)) => true,
            _ => false,
        };
        match (id, status, role) {
            (Some(id), Some(status), Some(role)) => if is_array {
                let mut fields = fields;
                let content = take_field(&mut fields, "content");
                match content {
                    Json::Array(items) => {
                        let content = parts_from_json(items);
                        Item::Message { id, status, role, content }
                    },
                    _ => Item::Unknown(Json::Null),
                }
            } else {
                Item::Unknown(Json::Object(fields))
            },
            _ => Item::Unknown(Json::Object(fields)),
        }
    } else if text_is(&t, "function_call") {
        match (
            get_opt_str(&fields, "id"),
            get_opt_status(&fields, "status"),
            get_str(&fields, "name"),
            get_str(&fields, "call_id"),
            get_str(&fields, "arguments"),
        ) {
            (Some(id), Some(status), Some(name), Some(call_id), Some(arguments)) =>
                Item::FunctionCall { id, status, name, call_id, arguments },
            _ => Item::Unknown(Json::Object(fields)),
        }
    } else if text_is(&t, "function_call_output") {
        match (get_opt_str(&fields, "id"), get_str(&fields, "call_id"), get_str(&fields, "output")) {
            (Some(id), Some(call_id), Some(output)) => Item::FunctionCallOutput { id, call_id, output },
            _ => Item::Unknown(Json::Object(fields)),
        }
    } else if text_is(&t, "mcp_call") {
        match (
            get_opt_str(&fields, "id"),
            get_opt_status(&fields, "status"),
            get_str(&fields, "call_id"),
            get_str(&fields, "server_label"),
            get_str(&fields, "name"),
            get_str(&fields, "arguments"),
            get_opt_str(&fields, "approval_request_id"),
            get_opt_str(&fields, "output"),
            get_opt_mcp_error(&fields, "error"),
        ) {
            (
                Some(id),
                Some(status),
                Some(call_id),
                Some(server_label),
                Some(name),
                Some(arguments),
                Some(approval_request_id),
                Some(output),
                Some(error),
            ) => Item::McpCall {
                id,
                status,
                call_id,
                server_label,
                name,
                arguments,
                approval_request_id,
                output,
                error,
            },
            _ => Item::Unknown(Json::Object(fields)),
        }
    } else if text_is(&t, "mcp_list_tools") {
        let valid = tools_list_valid(&fields, "tools");
        match (get_opt_str(&fields, "id"), get_opt_status(&fields, "status"), get_str(&fields, "server_label")) {
            (Some(id), Some(status), Some(server_label)) => if valid {
                let mut fields = fields;
                let tools = match take_opt_field(&mut fields, "tools") {
                    Some(Json::Array(items)) => Some(tools_from(items)),
                    _ => None,
                };
                Item::McpListTools { id, status, server_label, tools }
            } else {
                Item::Unknown(Json::Object(fields))
            },
            _ => Item::Unknown(Json::Object(fields)),
        }
    } else if text_is(&t, "mcp_approval_request") {
        match (
            get_opt_str(&fields, "id"),
            get_opt_status(&fields, "status"),
            get_str(&fields, "server_label"),
            get_str(&fields, "name"),
            get_str(&fields, "arguments"),
        ) {
            (Some(id), Some(status), Some(server_label), Some(name), Some(arguments)) =>
                Item::McpApprovalRequest { id, status, server_label, name, arguments },
            _ => Item::Unknown(Json::Object(fields)),
        }
    } else if text_is(&t, "mcp_approval_response") {
        match (
            get_opt_str(&fields, "id"),
            get_opt_status(&fields, "status"),
            get_str(&fields, "approval_request_id"),
            get_bool(&fields, "approve"),
            get_opt_str(&fields, "reason"),
        ) {
            (Some(id), Some(status), Some(approval_request_id), Some(approve), Some(reason)) =>
                Item::McpApprovalResponse { id, status, approval_request_id, approve, reason },
            _ => Item::Unknown(Json::Object(fields)),
        }
    } else {
        Item::Unknown(Json::Object(fields))
    }
}



/// An unknown part that does not read as a known one: such parts encode and
/// decode back to themselves.
pub open spec fn parts_canonical(content: Seq<ContentPart>) -> bool {
    forall|k: int| 0 <= k < content.len() ==> (#[trigger] content[k] matches ContentPart::Unknown(v) ==> part_of(v) == content[k])
}

/// An item whose content, if any, is made of canonical parts.
pub open spec fn item_canonical(i: Item) -> bool {
    match i {
        Item::Message { content, .. } => parts_canonical(content@),
        _ => true,
    }
}

/// The wire form of an audio format.
pub fn audio_format_json(f: AudioFormat) -> (r: Json)
    ensures
        audio_format_of(r) == Some(f),
{
    let mut m: Vec<(String, Json)> = Vec::new();
    proof {
        reveal_with_fuel(field_of, 3);
        lemma_part_names_differ();
    }
    match f {
        AudioFormat::Pcm { rate } => {
            m.push(("type".to_owned(), Json::Str("audio/pcm".to_owned())));
            m.push(("rate".to_owned(), Json::UInt(rate as u64)));
        },
        AudioFormat::Pcmu => {
            m.push(("type".to_owned(), Json::Str("audio/pcmu".to_owned())));
        },
        AudioFormat::Pcma => {
            m.push(("type".to_owned(), Json::Str("audio/pcma".to_owned())));
        },
    }
    Json::Object(m)
}

fn part_format_json(f: AudioPartFormat) -> (r: Json)
    ensures
        r is Object ==> f is Config,
        f matches AudioPartFormat::Label(s) ==> r == Json::Str(s),
        f matches AudioPartFormat::Config(c) ==> audio_format_of(r) == Some(c) && r is Object,
{
    match f {
        AudioPartFormat::Label(s) => Json::Str(s),
        AudioPartFormat::Config(c) => {
            let r = audio_format_json(c);
            proof {
                if !(r is Object) {
                    assert(audio_format_of(r) is None);
                }
            }
            r
        },
    }
}

fn status_json(s: ItemStatus) -> (r: Json)
    ensures
        r matches Json::Str(t) && status_named(t@) == Some(s),
{
    proof {
        lemma_item_names_differ();
    }
    match s {
        ItemStatus::InProgress => Json::Str("in_progress".to_owned()),
        ItemStatus::Completed => Json::Str("completed".to_owned()),
        ItemStatus::Incomplete => Json::Str("incomplete".to_owned()),
    }
}

fn role_json(role: Role) -> (r: Json)
    ensures
        r matches Json::Str(t) && (role == Role::User <==> t@ == "user"@) && (role == Role::Assistant
            <==> t@ == "assistant"@) && (role == Role::System <==> t@ == "system"@),
{
    proof {
        lemma_item_names_differ();
    }
    match role {
        Role::User => Json::Str("user".to_owned()),
        Role::Assistant => Json::Str("assistant".to_owned()),
        Role::System => Json::Str("system".to_owned()),
    }
}

fn i32_json(n: i32) -> (r: Json)
    ensures
        i32_of(r) == Some(n),
{
    if n >= 0 {
        Json::UInt(n as u64)
    } else {
        Json::Int(n as i64)
    }
}

fn mcp_error_json(e: McpError) -> (r: Json)
    ensures
        mcp_error_of(r) == Some(e),
{
    let mut m: Vec<(String, Json)> = Vec::new();
    proof {
        reveal_with_fuel(field_of, 4);
        lemma_mcp_names_differ();
    }
    match e {
        McpError::Protocol { code, message } => {
            m.push(("type".to_owned(), Json::Str("protocol".to_owned())));
            m.push(("code".to_owned(), i32_json(code)));
            m.push(("message".to_owned(), Json::Str(message)));
        },
        McpError::ToolExecution { message } => {
            m.push(("type".to_owned(), Json::Str("tool_execution".to_owned())));
            m.push(("message".to_owned(), Json::Str(message)));
        },
        McpError::Http { code, message } => {
            m.push(("type".to_owned(), Json::Str("http".to_owned())));
            m.push(("code".to_owned(), i32_json(code)));
            m.push(("message".to_owned(), Json::Str(message)));
        },
        McpError::Unknown => {
            m.push(("type".to_owned(), Json::Str("unknown".to_owned())));
        },
    }
    Json::Object(m)
}

fn tool_info_json(t: McpToolInfo) -> (r: Json)
    ensures
        tool_info_ok(r),
        tool_info_decodes(r, t),
{
    let McpToolInfo { name, description, input_schema, annotations } = t;
    let mut m: Vec<(String, Json)> = Vec::new();
    m.push(("name".to_owned(), Json::Str(name)));
    if let Some(d) = description {
        m.push(("description".to_owned(), Json::Str(d)));
    }
    if let Some(s) = input_schema {
        m.push(("input_schema".to_owned(), s));
    }
    if let Some(a) = annotations {
        m.push(("annotations".to_owned(), a));
    }
    proof {
        reveal_with_fuel(field_of, 5);
        lemma_mcp_names_differ();
    }
    Json::Object(m)
}

fn tools_to_json(tools: Vec<McpToolInfo>) -> (r: Vec<Json>)
    ensures
        r@.len() == tools@.len(),
        forall|k: int| 0 <= k < tools@.len() ==> tool_info_ok(#[trigger] r@[k]) && tool_info_decodes(r@[k], tools@[k]),
{
    let ghost orig = tools@;
    let mut tools = tools;
    let mut out: Vec<Json> = Vec::new();
    while tools.len() > 0
        invariant
            out@.len() + tools@.len() == orig.len(),
            tools@ == orig.subrange(out@.len() as int, orig.len() as int),
            forall|k: int| 0 <= k < out@.len() ==> tool_info_ok(#[trigger] out@[k]) && tool_info_decodes(out@[k], orig[k]),
        decreases tools@.len(),
    {
        let first = tools.remove(0);
        proof {
            assert(first == orig[out@.len() as int]);
        }
        out.push(tool_info_json(first));
        proof {
            assert(tools@ =~= orig.subrange(out@.len() as int, orig.len() as int));
        }
    }
    out
}

fn parts_to_json(parts: Vec<ContentPart>) -> (r: Vec<Json>)
    ensures
        r@.len() == parts@.len(),
        forall|k: int| 0 <= k < parts@.len() ==> (#[trigger] parts@[k] matches ContentPart::Unknown(v) ==> r@[k] == v)
            && (!(parts@[k] is Unknown) ==> part_of(r@[k]) == parts@[k]),
{
    let ghost orig = parts@;
    let mut parts = parts;
    let mut out: Vec<Json> = Vec::new();
    while parts.len() > 0
        invariant
            out@.len() + parts@.len() == orig.len(),
            parts@ == orig.subrange(out@.len() as int, orig.len() as int),
            forall|k: int| 0 <= k < out@.len() ==> (#[trigger] orig[k] matches ContentPart::Unknown(v) ==> out@[k] == v)
                && (!(orig[k] is Unknown) ==> part_of(out@[k]) == orig[k]),
        decreases parts@.len(),
    {
        let first = parts.remove(0);
        proof {
            assert(first == orig[out@.len() as int]);
        }
        out.push(first.to_json());
        proof {
            assert(parts@ =~= orig.subrange(out@.len() as int, orig.len() as int));
        }
    }
    out
}

fn encode_part_input_text(text: String) -> (r: Json)
    ensures
        part_of(r) == (ContentPart::InputText { text }),
{
    let mut f: Vec<(String, Json)> = Vec::new();
    f.push(("type".to_owned(), Json::Str("input_text".to_owned())));
    let v = text;
    f.push(("text".to_owned(), Json::Str(v)));
    proof {
        reveal_with_fuel(field_of, 3);
        lemma_part_names_differ();
    }
    Json::Object(f)
}

fn encode_part_input_audio(audio: String, transcript: Option<String>, format: Option<AudioFormat>) -> (r: Json)
    ensures
        part_of(r) == (ContentPart::InputAudio { audio, transcript, format }),
{
    let mut f: Vec<(String, Json)> = Vec::new();
    f.push(("type".to_owned(), Json::Str("input_audio".to_owned())));
    let v = audio;
    f.push(("audio".to_owned(), Json::Str(v)));
    if let Some(v) = transcript {
        f.push(("transcript".to_owned(), Json::Str(v)));
    }
    if let Some(v) = format {
        f.push(("format".to_owned(), audio_format_json(v)));
    }
    proof {
        reveal_with_fuel(field_of, 5);
        lemma_part_names_differ();
    }
    Json::Object(f)
}

fn encode_part_input_image(image_url: String, detail: Option<String>) -> (r: Json)
    ensures
        part_of(r) == (ContentPart::InputImage { image_url, detail }),
{
    let mut f: Vec<(String, Json)> = Vec::new();
    f.push(("type".to_owned(), Json::Str("input_image".to_owned())));
    let v = image_url;
    f.push(("image_url".to_owned(), Json::Str(v)));
    if let Some(v) = detail {
        f.push(("detail".to_owned(), Json::Str(v)));
    }
    proof {
        reveal_with_fuel(field_of, 4);
        lemma_part_names_differ();
    }
    Json::Object(f)
}

fn encode_part_output_text(text: String) -> (r: Json)
    ensures
        part_of(r) == (ContentPart::OutputText { text }),
{
    let mut f: Vec<(String, Json)> = Vec::new();
    f.push(("type".to_owned(), Json::Str("output_text".to_owned())));
    let v = text;
    f.push(("text".to_owned(), Json::Str(v)));
    proof {
        reveal_with_fuel(field_of, 3);
        lemma_part_names_differ();
    }
    Json::Object(f)
}

fn encode_part_output_audio(audio: Option<String>, transcript: Option<String>, format: Option<AudioFormat>) -> (r: Json)
    ensures
        part_of(r) == (ContentPart::OutputAudio { audio, transcript, format }),
{
    let mut f: Vec<(String, Json)> = Vec::new();
    f.push(("type".to_owned(), Json::Str("output_audio".to_owned())));
    if let Some(v) = audio {
        f.push(("audio".to_owned(), Json::Str(v)));
    }
    if let Some(v) = transcript {
        f.push(("transcript".to_owned(), Json::Str(v)));
    }
    if let Some(v) = format {
        f.push(("format".to_owned(), audio_format_json(v)));
    }
    proof {
        reveal_with_fuel(field_of, 5);
        lemma_part_names_differ();
    }
    Json::Object(f)
}

fn encode_part_text(text: String) -> (r: Json)
    ensures
        part_of(r) == (ContentPart::Text { text }),
{
    let mut f: Vec<(String, Json)> = Vec::new();
    f.push(("type".to_owned(), Json::Str("text".to_owned())));
    let v = text;
    f.push(("text".to_owned(), Json::Str(v)));
    proof {
        reveal_with_fuel(field_of, 3);
        lemma_part_names_differ();
    }
    Json::Object(f)
}

fn encode_part_audio(audio: Option<String>, transcript: Option<String>, format: Option<AudioPartFormat>) -> (r: Json)
    ensures
        part_of(r) == (ContentPart::Audio { audio, transcript, format }),
{
    let mut f: Vec<(String, Json)> = Vec::new();
    f.push(("type".to_owned(), Json::Str("audio".to_owned())));
    if let Some(v) = audio {
        f.push(("audio".to_owned(), Json::Str(v)));
    }
    if let Some(v) = transcript {
        f.push(("transcript".to_owned(), Json::Str(v)));
    }
    if let Some(v) = format {
        f.push(("format".to_owned(), part_format_json(v)));
    }
    proof {
        reveal_with_fuel(field_of, 5);
        lemma_part_names_differ();
    }
    Json::Object(f)
}

fn encode_item_message(id: Option<String>, status: Option<ItemStatus>, role: Role, content: Vec<ContentPart>) -> (r: Json)
    ensures
        parts_canonical(content@) ==> item_decodes(r, Item::Message { id, status, role, content }),
{
    let mut f: Vec<(String, Json)> = Vec::new();
    f.push(("type".to_owned(), Json::Str("message".to_owned())));
    let v = role;
    f.push(("role".to_owned(), role_json(v)));
    let v = content;
    f.push(("content".to_owned(), Json::Array(parts_to_json(v))));
    if let Some(v) = id {
        f.push(("id".to_owned(), Json::Str(v)));
    }
    if let Some(v) = status {
        f.push(("status".to_owned(), status_json(v)));
    }
    proof {
        reveal_with_fuel(field_of, 6);
        lemma_item_names_differ();
    }
    Json::Object(f)
}

fn encode_item_function_call(id: Option<String>, status: Option<ItemStatus>, name: String, call_id: String, arguments: String) -> (r: Json)
    ensures
        item_decodes(r, Item::FunctionCall { id, status, name, call_id, arguments }),
{
    let mut f: Vec<(String, Json)> = Vec::new();
    f.push(("type".to_owned(), Json::Str("function_call".to_owned())));
    let v = name;
    f.push(("name".to_owned(), Json::Str(v)));
    let v = call_id;
    f.push(("call_id".to_owned(), Json::Str(v)));
    let v = arguments;
    f.push(("arguments".to_owned(), Json::Str(v)));
    if let Some(v) = id {
        f.push(("id".to_owned(), Json::Str(v)));
    }
    if let Some(v) = status {
        f.push(("status".to_owned(), status_json(v)));
    }
    proof {
        reveal_with_fuel(field_of, 7);
        lemma_item_names_differ();
    }
    Json::Object(f)
}

fn encode_item_function_call_output(id: Option<String>, call_id: String, output: String) -> (r: Json)
    ensures
        item_decodes(r, Item::FunctionCallOutput { id, call_id, output }),
{
    let mut f: Vec<(String, Json)> = Vec::new();
    f.push(("type".to_owned(), Json::Str("function_call_output".to_owned())));
    let v = call_id;
    f.push(("call_id".to_owned(), Json::Str(v)));
    let v = output;
    f.push(("output".to_owned(), Json::Str(v)));
    if let Some(v) = id {
        f.push(("id".to_owned(), Json::Str(v)));
    }
    proof {
        reveal_with_fuel(field_of, 5);
        lemma_item_names_differ();
    }
    Json::Object(f)
}

#[verifier::rlimit(40)]
fn encode_item_mcp_call(id: Option<String>, status: Option<ItemStatus>, call_id: String, server_label: String, name: String, arguments: String, approval_request_id: Option<String>, output: Option<String>, error: Option<McpError>) -> (r: Json)
    ensures
        item_decodes(r, Item::McpCall { id, status, call_id, server_label, name, arguments, approval_request_id, output, error }),
{
    let mut f: Vec<(String, Json)> = Vec::new();
    f.push(("type".to_owned(), Json::Str("mcp_call".to_owned())));
    let v = call_id;
    f.push(("call_id".to_owned(), Json::Str(v)));
    let v = server_label;
    f.push(("server_label".to_owned(), Json::Str(v)));
    let v = name;
    f.push(("name".to_owned(), Json::Str(v)));
    let v = arguments;
    f.push(("arguments".to_owned(), Json::Str(v)));
    if let Some(v) = id {
        f.push(("id".to_owned(), Json::Str(v)));
    }
    if let Some(v) = status {
        f.push(("status".to_owned(), status_json(v)));
    }
    if let Some(v) = approval_request_id {
        f.push(("approval_request_id".to_owned(), Json::Str(v)));
    }
    if let Some(v) = output {
        f.push(("output".to_owned(), Json::Str(v)));
    }
    if let Some(v) = error {
        f.push(("error".to_owned(), mcp_error_json(v)));
    }
    proof {
        reveal_with_fuel(field_of, 11);
        lemma_item_names_differ();
    }
    Json::Object(f)
}

fn encode_item_mcp_list_tools(id: Option<String>, status: Option<ItemStatus>, server_label: String, tools: Option<Vec<McpToolInfo>>) -> (r: Json)
    ensures
        item_decodes(r, Item::McpListTools { id, status, server_label, tools }),
{
    let mut f: Vec<(String, Json)> = Vec::new();
    f.push(("type".to_owned(), Json::Str("mcp_list_tools".to_owned())));
    let v = server_label;
    f.push(("server_label".to_owned(), Json::Str(v)));
    if let Some(v) = id {
        f.push(("id".to_owned(), Json::Str(v)));
    }
    if let Some(v) = status {
        f.push(("status".to_owned(), status_json(v)));
    }
    if let Some(v) = tools {
        f.push(("tools".to_owned(), Json::Array(tools_to_json(v))));
    }
    proof {
        reveal_with_fuel(field_of, 6);
        lemma_item_names_differ();
    }
    Json::Object(f)
}

fn encode_item_mcp_approval_request(id: Option<String>, status: Option<ItemStatus>, server_label: String, name: String, arguments: String) -> (r: Json)
    ensures
        item_decodes(r, Item::McpApprovalRequest { id, status, server_label, name, arguments }),
{
    let mut f: Vec<(String, Json)> = Vec::new();
    f.push(("type".to_owned(), Json::Str("mcp_approval_request".to_owned())));
    let v = server_label;
    f.push(("server_label".to_owned(), Json::Str(v)));
    let v = name;
    f.push(("name".to_owned(), Json::Str(v)));
    let v = arguments;
    f.push(("arguments".to_owned(), Json::Str(v)));
    if let Some(v) = id {
        f.push(("id".to_owned(), Json::Str(v)));
    }
    if let Some(v) = status {
        f.push(("status".to_owned(), status_json(v)));
    }
    proof {
        reveal_with_fuel(field_of, 7);
        lemma_item_names_differ();
    }
    Json::Object(f)
}

fn encode_item_mcp_approval_response(id: Option<String>, status: Option<ItemStatus>, approval_request_id: String, approve: bool, reason: Option<String>) -> (r: Json)
    ensures
        item_decodes(r, Item::McpApprovalResponse { id, status, approval_request_id, approve, reason }),
{
    let mut f: Vec<(String, Json)> = Vec::new();
    f.push(("type".to_owned(), Json::Str("mcp_approval_response".to_owned())));
    let v = approval_request_id;
    f.push(("approval_request_id".to_owned(), Json::Str(v)));
    let v = approve;
    f.push(("approve".to_owned(), Json::Bool(v)));
    if let Some(v) = id {
        f.push(("id".to_owned(), Json::Str(v)));
    }
    if let Some(v) = status {
        f.push(("status".to_owned(), status_json(v)));
    }
    if let Some(v) = reason {
        f.push(("reason".to_owned(), Json::Str(v)));
    }
    proof {
        reveal_with_fuel(field_of, 7);
        lemma_item_names_differ();
    }
    Json::Object(f)
}

impl ContentPart {
    /// Encodes a content part. A known part encodes to a value that decodes
    /// back to it; `Unknown` gives back exactly the value it holds.
    pub fn to_json(self) -> (r: Json)
        ensures
            self matches ContentPart::Unknown(v) ==> r == v,
            !(self is Unknown) ==> part_of(r) == self,
    {
        match self {
            ContentPart::InputText { text } => encode_part_input_text(text),
            ContentPart::InputAudio { audio, transcript, format } => encode_part_input_audio(audio, transcript, format),
            ContentPart::InputImage { image_url, detail } => encode_part_input_image(image_url, detail),
            ContentPart::OutputText { text } => encode_part_output_text(text),
            ContentPart::OutputAudio { audio, transcript, format } => encode_part_output_audio(audio, transcript, format),
            ContentPart::Text { text } => encode_part_text(text),
            ContentPart::Audio { audio, transcript, format } => encode_part_audio(audio, transcript, format),
            ContentPart::Unknown(v) => v,
        }
    }
}

impl Item {
    /// Encodes a conversation item. `Unknown` gives back exactly the value it
    /// holds; a known item encodes to a value that decodes back to it, as long
    /// as any unknown content part it holds is not itself a known part.
    pub fn to_json(self) -> (r: Json)
        ensures
            self matches Item::Unknown(v) ==> r == v,
            !(self is Unknown) && item_canonical(self) ==> item_decodes(r, self),
    {
        match self {
            Item::Message { id, status, role, content } => encode_item_message(id, status, role, content),
            Item::FunctionCall { id, status, name, call_id, arguments } => encode_item_function_call(id, status, name, call_id, arguments),
            Item::FunctionCallOutput { id, call_id, output } => encode_item_function_call_output(id, call_id, output),
            Item::McpCall { id, status, call_id, server_label, name, arguments, approval_request_id, output, error } => encode_item_mcp_call(id, status, call_id, server_label, name, arguments, approval_request_id, output, error),
            Item::McpListTools { id, status, server_label, tools } => encode_item_mcp_list_tools(id, status, server_label, tools),
            Item::McpApprovalRequest { id, status, server_label, name, arguments } => encode_item_mcp_approval_request(id, status, server_label, name, arguments),
            Item::McpApprovalResponse { id, status, approval_request_id, approve, reason } => encode_item_mcp_approval_response(id, status, approval_request_id, approve, reason),
            Item::Unknown(v) => v,
        }
    }
}

/// The lengths of the part member names and `type` values, and where two
/// have the same length a character that tells them apart.
proof fn lemma_part_names_differ()
    ensures
        "type"@.len() == 4,
        "audio"@.len() == 5,
        "detail"@.len() == 6,
        "format"@.len() == 6,
        "image_url"@.len() == 9,
        "text"@.len() == 4,
        "transcript"@.len() == 10,
        "rate"@.len() == 4,
        "input_text"@.len() == 10,
        "input_audio"@.len() == 11,
        "input_image"@.len() == 11,
        "output_text"@.len() == 11,
        "output_audio"@.len() == 12,
        "audio/pcm"@.len() == 9,
        "audio/pcmu"@.len() == 10,
        "audio/pcma"@.len() == 10,
        "type"@[1] == 'y',
        "text"@[1] == 'e',
        "type"@[0] == 't',
        "rate"@[0] == 'r',
        "detail"@[0] == 'd',
        "format"@[0] == 'f',
        "image_url"@[0] == 'i',
        "audio/pcm"@[0] == 'a',
        "text"@[0] == 't',
        "transcript"@[0] == 't',
        "input_text"@[0] == 'i',
        "audio/pcmu"@[0] == 'a',
        "audio/pcma"@[0] == 'a',
        "input_audio"@[6] == 'a',
        "input_image"@[6] == 'i',
        "input_audio"@[0] == 'i',
        "output_text"@[0] == 'o',
        "input_image"@[0] == 'i',
        "audio/pcmu"@[9] == 'u',
        "audio/pcma"@[9] == 'a',
{
    reveal_strlit("type");
    reveal_strlit("audio");
    reveal_strlit("detail");
    reveal_strlit("format");
    reveal_strlit("image_url");
    reveal_strlit("text");
    reveal_strlit("transcript");
    reveal_strlit("rate");
    reveal_strlit("input_text");
    reveal_strlit("input_audio");
    reveal_strlit("input_image");
    reveal_strlit("output_text");
    reveal_strlit("output_audio");
    reveal_strlit("audio/pcm");
    reveal_strlit("audio/pcmu");
    reveal_strlit("audio/pcma");
}

/// The lengths of the item member names and `type` values, and where two
/// have the same length a character that tells them apart.
proof fn lemma_item_names_differ()
    ensures
        "type"@.len() == 4,
        "approval_request_id"@.len() == 19,
        "approve"@.len() == 7,
        "arguments"@.len() == 9,
        "call_id"@.len() == 7,
        "content"@.len() == 7,
        "error"@.len() == 5,
        "id"@.len() == 2,
        "name"@.len() == 4,
        "output"@.len() == 6,
        "reason"@.len() == 6,
        "role"@.len() == 4,
        "server_label"@.len() == 12,
        "status"@.len() == 6,
        "tools"@.len() == 5,
        "message"@.len() == 7,
        "function_call"@.len() == 13,
        "function_call_output"@.len() == 20,
        "mcp_call"@.len() == 8,
        "mcp_list_tools"@.len() == 14,
        "mcp_approval_request"@.len() == 20,
        "mcp_approval_response"@.len() == 21,
        "in_progress"@.len() == 11,
        "completed"@.len() == 9,
        "incomplete"@.len() == 10,
        "user"@.len() == 4,
        "assistant"@.len() == 9,
        "system"@.len() == 6,
        "type"@[0] == 't',
        "name"@[0] == 'n',
        "role"@[0] == 'r',
        "user"@[0] == 'u',
        "approve"@[0] == 'a',
        "call_id"@[0] == 'c',
        "content"@[0] == 'c',
        "message"@[0] == 'm',
        "arguments"@[0] == 'a',
        "completed"@[0] == 'c',
        "arguments"@[1] == 'r',
        "assistant"@[1] == 's',
        "call_id"@[1] == 'a',
        "content"@[1] == 'o',
        "error"@[0] == 'e',
        "tools"@[0] == 't',
        "output"@[0] == 'o',
        "reason"@[0] == 'r',
        "status"@[0] == 's',
        "system"@[0] == 's',
        "status"@[1] == 't',
        "system"@[1] == 'y',
        "function_call_output"@[0] == 'f',
        "mcp_approval_request"@[0] == 'm',
        "assistant"@[0] == 'a',
{
    reveal_strlit("type");
    reveal_strlit("approval_request_id");
    reveal_strlit("approve");
    reveal_strlit("arguments");
    reveal_strlit("call_id");
    reveal_strlit("content");
    reveal_strlit("error");
    reveal_strlit("id");
    reveal_strlit("name");
    reveal_strlit("output");
    reveal_strlit("reason");
    reveal_strlit("role");
    reveal_strlit("server_label");
    reveal_strlit("status");
    reveal_strlit("tools");
    reveal_strlit("message");
    reveal_strlit("function_call");
    reveal_strlit("function_call_output");
    reveal_strlit("mcp_call");
    reveal_strlit("mcp_list_tools");
    reveal_strlit("mcp_approval_request");
    reveal_strlit("mcp_approval_response");
    reveal_strlit("in_progress");
    reveal_strlit("completed");
    reveal_strlit("incomplete");
    reveal_strlit("user");
    reveal_strlit("assistant");
    reveal_strlit("system");
}

/// The lengths of the MCP error and tool-description member names and tags,
/// and where two have the same length a character that tells them apart.
proof fn lemma_mcp_names_differ()
    ensures
        "type"@.len() == 4,
        "code"@.len() == 4,
        "message"@.len() == 7,
        "protocol"@.len() == 8,
        "http"@.len() == 4,
        "tool_execution"@.len() == 14,
        "unknown"@.len() == 7,
        "name"@.len() == 4,
        "description"@.len() == 11,
        "input_schema"@.len() == 12,
        "annotations"@.len() == 11,
        "type"@[0] == 't',
        "code"@[0] == 'c',
        "http"@[0] == 'h',
        "name"@[0] == 'n',
        "message"@[0] == 'm',
        "unknown"@[0] == 'u',
        "description"@[0] == 'd',
        "annotations"@[0] == 'a',
{
    reveal_strlit("type");
    reveal_strlit("code");
    reveal_strlit("message");
    reveal_strlit("protocol");
    reveal_strlit("http");
    reveal_strlit("tool_execution");
    reveal_strlit("unknown");
    reveal_strlit("name");
    reveal_strlit("description");
    reveal_strlit("input_schema");
    reveal_strlit("annotations");
}

} // verus!
