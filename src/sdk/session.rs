//! The decisions of the session actor. The host runs the loop: it waits on
//! the command queue and the connection, and for each inbound notification
//! calls [`ActorState::on_notification`], then performs what comes back:
//! writes on the connection, pushes on each output channel, and tool calls.

use vstd::prelude::*;

use base64::engine::general_purpose;
use base64::Engine;

use crate::error::Error;
use crate::protocol::client_events::ClientEvent;
use crate::protocol::json::{get_str, Json};
use crate::protocol::models::{is_invalid_event, ContentPart, Item, ItemStatus, Role};
use crate::protocol::server_events::{response_id_in, ServerEvent};
use crate::sdk::events::{classify, SdkEvent};
use crate::sdk::voice::{AudioChunk, TranscriptChunk, VoiceEvent};
use crate::error::fails_with;
use crate::validate::{
    b64_decode, b64_estimated_len, b64_well_formed, client_event_error, client_event_ok, lemma_well_formed_accepted,
    validate_client_event, MAX_INPUT_AUDIO_CHUNK_BYTES,
};
use vstd::string::StringSliceAdditionalSpecFns;
use vstd::utf8::encode_utf8;

verus! {

/// base64's decoding error, carried without looking inside; only its
/// description is used.
#[verifier::external_type_specification]
#[verifier::external_body]
pub struct ExDecodeError(base64::DecodeError);

/// What the standard base64 engine decodes `text` to, when it accepts it.
pub uninterp spec fn base64_decoding(text: Seq<char>) -> Option<Seq<u8>>;

/// What the standard base64 engine encodes `bytes` as.
pub uninterp spec fn base64_encoding(bytes: Seq<u8>) -> Seq<char>;

/// Relies on base64's `STANDARD` engine `decode` (standard alphabet, canonical
/// padding required): whether it succeeds and what it yields depend on the
/// text alone, and what it accepts is well-formed base64 that decodes group by
/// group.
#[verifier::external_body]
fn decode_base64(text: &str) -> (r: Result<Vec<u8>, base64::DecodeError>)
    ensures
        r is Ok <==> base64_decoding(text@) is Some,
        r matches Ok(v) ==> base64_decoding(text@) == Some(v@),
        r matches Ok(v) ==> b64_well_formed(text.spec_bytes()) && v@ == b64_decode(text.spec_bytes()),
{
    general_purpose::STANDARD.decode(text.as_bytes())
}

/// Relies on base64's `STANDARD` engine `encode`: the text depends on the bytes
/// alone; it is padded standard base64, four characters for each three bytes
/// or fewer, which decodes back to the bytes. It panics when the encoded length overflows `usize`, which the
/// precondition rules out.
#[verifier::external_body]
fn encode_base64(bytes: &[u8]) -> (r: String)
    requires
        bytes@.len() / 3 * 4 + 4 <= usize::MAX,
    ensures
        r@ == base64_encoding(bytes@),
        b64_well_formed(encode_utf8(r@)),
        b64_estimated_len(encode_utf8(r@)) == bytes@.len(),
        b64_decode(encode_utf8(r@)) == bytes@,
{
    general_purpose::STANDARD.encode(bytes)
}

/// The accumulated text of one (item id, content index) stream.
#[derive(Debug)]
pub struct TextBuffer {
    pub item_id: String,
    pub content_index: u32,
    pub text: String,
}

/// A function call the model finished issuing, with its arguments as sent.
#[derive(Debug)]
pub struct PendingToolCall {
    pub name: String,
    pub call_id: String,
    pub arguments: String,
    pub response_id: Option<String>,
    pub item_id: Option<String>,
    pub output_index: Option<u32>,
}

/// How a tool call ended: the JSON text of its output, or the JSON text of
/// an error object.
#[derive(Debug)]
pub enum ToolOutcome {
    Success(String),
    Failure(String),
}

/// Everything one notification produces, per output family. Within a family
/// the order is the order of emission.
#[derive(Debug)]
pub struct Outputs {
    pub writes: Vec<ClientEvent>,
    pub voice: Vec<VoiceEvent>,
    pub audio: Vec<AudioChunk>,
    pub transcripts: Vec<TranscriptChunk>,
    pub classified: SdkEvent,
    pub texts: Vec<String>,
    pub tool_call: Option<PendingToolCall>,
}

/// The state the actor owns for one connection.
#[derive(Debug)]
pub struct ActorState {
    pub active_response_id: Option<String>,
    /// The open text buffers, read as a map from (item id, content index) to
    /// text through [`buffer_in`] (the first entry of a key counts). A `Vec`
    /// stands in for a hash map: vstd specifies hash maps only for key types
    /// known to follow its key model (integers, `bool`), and a
    /// `(String, u32)` pair is not one of them.
    pub buffers: Vec<TextBuffer>,
    pub auto_barge_in: bool,
    pub auto_tool_response: bool,
}

/// Audio and transcript of a response are delivered only while that
/// response is the active one.
pub open spec fn gate_open(active: Option<String>, response_id: String) -> bool {
    match active {
        Some(a) => a@ == response_id@,
        None => false,
    }
}

/// The active response after a notification.
pub open spec fn active_after(active: Option<String>, auto_barge_in: bool, e: ServerEvent) -> Option<String> {
    match e {
        ServerEvent::ResponseCreated { response, .. } => match response_id_in(response) {
            Some(id) => Some(id),
            None => active,
        },
        ServerEvent::ResponseDone { .. } => None,
        ServerEvent::InputAudioBufferSpeechStarted { .. } => if auto_barge_in { None } else { active },
        _ => active,
    }
}

/// The commands that interrupt the active response: clear the output audio,
/// then cancel the response if there is one.
pub open spec fn barge_in_writes(active: Option<String>) -> Seq<ClientEvent> {
    seq![ClientEvent::OutputAudioBufferClear { event_id: None }] + match active {
        Some(id) => seq![ClientEvent::ResponseCancel { event_id: None, response_id: Some(id) }],
        None => Seq::empty(),
    }
}

/// The commands the actor writes on its own for a notification.
pub open spec fn writes_for(active: Option<String>, auto_barge_in: bool, e: ServerEvent) -> Seq<ClientEvent> {
    match e {
        ServerEvent::InputAudioBufferSpeechStarted { .. } => if auto_barge_in { barge_in_writes(active) } else { Seq::empty() },
        _ => Seq::empty(),
    }
}

/// The lifecycle and voice events of a notification.
pub open spec fn voice_matches(active: Option<String>, e: ServerEvent, v: Seq<VoiceEvent>) -> bool {
    match e {
        ServerEvent::ResponseCreated { response, .. } => match response_id_in(response) {
            Some(id) => v == seq![VoiceEvent::ResponseCreated { response_id: id }],
            None => v.len() == 0,
        },
        ServerEvent::ResponseDone { response, .. } => match response_id_in(response) {
            Some(id) => v == seq![VoiceEvent::ResponseDone { response_id: id }],
            None => v.len() == 0,
        },
        ServerEvent::InputAudioBufferSpeechStarted { audio_start_ms, .. } =>
            v == seq![VoiceEvent::SpeechStarted { audio_start_ms: Some(audio_start_ms) }],
        ServerEvent::InputAudioBufferSpeechStopped { audio_end_ms, .. } =>
            v == seq![VoiceEvent::SpeechStopped { audio_end_ms: Some(audio_end_ms) }],
        ServerEvent::ResponseOutputAudioDelta { response_id, item_id, output_index, content_index, delta, .. } =>
            if !gate_open(active, response_id) {
                v.len() == 0
            } else {
                match base64_decoding(delta@) {
                    Some(bytes) => v.len() == 1 && (v[0] matches VoiceEvent::AudioDelta { response_id: r, item_id: i, output_index: o, content_index: c, pcm }
                        && r == response_id && i == item_id && o == output_index && c == content_index && pcm@ == bytes),
                    None => v.len() == 1 && v[0] is DecodeError,
                }
            },
        ServerEvent::ResponseOutputAudioDone { response_id, item_id, output_index, content_index, .. } =>
            if gate_open(active, response_id) {
                v == seq![VoiceEvent::AudioDone { response_id, item_id, output_index, content_index }]
            } else {
                v.len() == 0
            },
        ServerEvent::ResponseOutputAudioTranscriptDelta { response_id, item_id, output_index, content_index, delta, .. } =>
            if gate_open(active, response_id) {
                v == seq![VoiceEvent::TranscriptDelta { response_id, item_id, output_index, content_index, delta }]
            } else {
                v.len() == 0
            },
        ServerEvent::ResponseOutputAudioTranscriptDone { response_id, item_id, output_index, content_index, transcript, .. } =>
            if gate_open(active, response_id) {
                v == seq![VoiceEvent::TranscriptDone { response_id, item_id, output_index, content_index, transcript }]
            } else {
                v.len() == 0
            },
        _ => v.len() == 0,
    }
}

/// The decoded audio chunks of a notification.
pub open spec fn audio_matches(active: Option<String>, e: ServerEvent, a: Seq<AudioChunk>) -> bool {
    match e {
        ServerEvent::ResponseOutputAudioDelta { response_id, item_id, output_index, content_index, delta, .. } =>
            match base64_decoding(delta@) {
                Some(bytes) if gate_open(active, response_id) => a.len() == 1 && a[0].response_id == response_id
                    && a[0].item_id == item_id && a[0].output_index == output_index
                    && a[0].content_index == content_index && a[0].pcm@ == bytes,
                _ => a.len() == 0,
            },
        _ => a.len() == 0,
    }
}

/// The transcript chunks of a notification.
pub open spec fn transcripts_for(active: Option<String>, e: ServerEvent) -> Seq<TranscriptChunk> {
    match e {
        ServerEvent::ResponseOutputAudioTranscriptDelta { response_id, item_id, output_index, content_index, delta, .. } =>
            if gate_open(active, response_id) {
                seq![TranscriptChunk { response_id, item_id, output_index, content_index, text: delta, is_final: false }]
            } else {
                Seq::empty()
            },
        ServerEvent::ResponseOutputAudioTranscriptDone { response_id, item_id, output_index, content_index, transcript, .. } =>
            if gate_open(active, response_id) {
                seq![TranscriptChunk { response_id, item_id, output_index, content_index, text: transcript, is_final: true }]
            } else {
                Seq::empty()
            },
        _ => Seq::empty(),
    }
}

/// The completed texts a notification publishes: the terminal text itself.
pub open spec fn texts_for(e: ServerEvent) -> Seq<String> {
    match e {
        ServerEvent::ResponseOutputTextDone { text, .. } => seq![text],
        _ => Seq::empty(),
    }
}

/// The buffer of one (item id, content index) stream after a notification.
pub open spec fn next_buffer(prev: Option<Seq<char>>, e: ServerEvent, item: Seq<char>, index: u32) -> Option<Seq<char>> {
    match e {
        ServerEvent::ResponseOutputTextDelta { item_id, content_index, delta, .. } =>
            if item_id@ == item && content_index == index {
                Some(
                    match prev {
                        Some(p) => p,
                        None => Seq::empty(),
                    } + delta@,
                )
            } else {
                prev
            },
        ServerEvent::ResponseOutputTextDone { item_id, content_index, .. } =>
            if item_id@ == item && content_index == index { None } else { prev },
        _ => prev,
    }
}

/// The tool call a notification asks for.
pub open spec fn tool_call_for(e: ServerEvent) -> Option<PendingToolCall> {
    match e {
        ServerEvent::ResponseFunctionCallArgumentsDone { response_id, item_id, output_index, call_id, name, arguments, .. } =>
            Some(PendingToolCall {
                name,
                call_id,
                arguments,
                response_id: Some(response_id),
                item_id: Some(item_id),
                output_index: Some(output_index),
            }),
        _ => None,
    }
}

/// The buffer kept for a stream, if any (the first entry with that key).
pub open spec fn buffer_in(b: Seq<TextBuffer>, item: Seq<char>, index: u32) -> Option<Seq<char>>
    decreases b.len(),
{
    if b.len() == 0 {
        None
    } else if b[0].item_id@ == item && b[0].content_index == index {
        Some(b[0].text@)
    } else {
        buffer_in(b.drop_first(), item, index)
    }
}

/// The commands a finished tool call leads to: one function-call output for
/// the same call id, then, on success with automatic follow-up, a request for
/// a new response.
pub open spec fn tool_outcome_writes(call_id: String, outcome: ToolOutcome, auto_follow_up: bool) -> Seq<ClientEvent> {
    let output = match outcome {
        ToolOutcome::Success(t) => t,
        ToolOutcome::Failure(t) => t,
    };
    let item = ClientEvent::ConversationItemCreate {
        event_id: None,
        previous_item_id: None,
        item: Box::new(Item::FunctionCallOutput { id: None, call_id, output }),
    };
    if outcome is Success && auto_follow_up {
        seq![item, ClientEvent::ResponseCreate { event_id: None, response: None }]
    } else {
        seq![item]
    }
}

proof fn lemma_buffer_in_index(b: Seq<TextBuffer>, i: int, item: Seq<char>, index: u32)
    requires
        0 <= i < b.len(),
        b[i].item_id@ == item && b[i].content_index == index,
        forall|j: int| 0 <= j < i ==> !(b[j].item_id@ == item && b[j].content_index == index),
    ensures
        buffer_in(b, item, index) == Some(b[i].text@),
    decreases i,
{
    if i > 0 {
        assert forall|j: int| 0 <= j < i - 1 implies !(b.drop_first()[j].item_id@ == item && b.drop_first()[j].content_index == index) by {
            assert(b.drop_first()[j] == b[j + 1]);
        }
        lemma_buffer_in_index(b.drop_first(), i - 1, item, index);
    }
}

proof fn lemma_buffer_in_none(b: Seq<TextBuffer>, item: Seq<char>, index: u32)
    requires
        forall|j: int| 0 <= j < b.len() ==> !(b[j].item_id@ == item && b[j].content_index == index),
    ensures
        buffer_in(b, item, index) is None,
    decreases b.len(),
{
    if b.len() > 0 {
        assert forall|j: int| 0 <= j < b.len() - 1 implies !(b.drop_first()[j].item_id@ == item && b.drop_first()[j].content_index == index) by {
            assert(b.drop_first()[j] == b[j + 1]);
        }
        lemma_buffer_in_none(b.drop_first(), item, index);
    }
}

/// Changing or removing an entry of another key leaves a stream's buffer as it was.
proof fn lemma_buffer_in_update(b: Seq<TextBuffer>, i: int, nb: TextBuffer, item: Seq<char>, index: u32)
    requires
        0 <= i < b.len(),
        !(b[i].item_id@ == item && b[i].content_index == index),
        !(nb.item_id@ == item && nb.content_index == index),
    ensures
        buffer_in(b.update(i, nb), item, index) == buffer_in(b, item, index),
        buffer_in(b.remove(i), item, index) == buffer_in(b, item, index),
    decreases b.len(),
{
    if i > 0 {
        assert(b.update(i, nb).drop_first() =~= b.drop_first().update(i - 1, nb));
        assert(b.remove(i).drop_first() =~= b.drop_first().remove(i - 1));
        lemma_buffer_in_update(b.drop_first(), i - 1, nb, item, index);
    } else {
        assert(b.update(i, nb).drop_first() =~= b.drop_first());
        assert(b.remove(i) =~= b.drop_first());
    }
}

/// Appending an entry of another key leaves a stream's buffer as it was; the
/// entry is found when no earlier entry has its key.
proof fn lemma_buffer_in_push(b: Seq<TextBuffer>, nb: TextBuffer, item: Seq<char>, index: u32)
    ensures
        !(nb.item_id@ == item && nb.content_index == index) ==> buffer_in(b.push(nb), item, index) == buffer_in(b, item, index),
        buffer_in(b, item, index) is None && nb.item_id@ == item && nb.content_index == index
            ==> buffer_in(b.push(nb), item, index) == Some(nb.text@),
    decreases b.len(),
{
    if b.len() > 0 {
        assert(b.push(nb).drop_first() =~= b.drop_first().push(nb));
        lemma_buffer_in_push(b.drop_first(), nb, item, index);
    } else {
        assert(b.push(nb).drop_first() =~= Seq::<TextBuffer>::empty());
        assert(buffer_in(Seq::<TextBuffer>::empty(), item, index) is None);
        assert(b.push(nb)[0] == nb);
    }
}

fn same_text(a: &Option<String>, b: &String) -> (r: bool)
    ensures
        r == gate_open(*a, *b),
{
    match a {
        Some(id) => *id == *b,
        None => false,
    }
}

fn copy_bytes(v: &Vec<u8>) -> (r: Vec<u8>)
    ensures
        r@ == v@,
{
    let mut out: Vec<u8> = Vec::new();
    let mut i: usize = 0;
    while i < v.len()
        invariant
            0 <= i <= v.len(),
            out@ == v@.subrange(0, i as int),
        decreases v.len() - i,
    {
        out.push(v[i]);
        assert(out@ =~= v@.subrange(0, i + 1));
        i = i + 1;
    }
    assert(out@ =~= v@);
    out
}

fn response_id_from(response: &Json) -> (r: Option<String>)
    ensures
        r == response_id_in(*response),
{
    match response {
        Json::Object(f) => get_str(f, "id"),
        _ => None,
    }
}

impl ActorState {
    pub open spec fn buffers_view(&self) -> Seq<TextBuffer> {
        self.buffers@
    }

    /// The buffer of a stream, if one is open.
    pub open spec fn buffer(&self, item: Seq<char>, index: u32) -> Option<Seq<char>> {
        buffer_in(self.buffers_view(), item, index)
    }

    /// A fresh state: no active response, no buffers.
    pub fn new(auto_barge_in: bool, auto_tool_response: bool) -> (r: ActorState)
        ensures
            r.active_response_id is None,
            r.auto_barge_in == auto_barge_in,
            r.auto_tool_response == auto_tool_response,
            forall|item: Seq<char>, index: u32| r.buffer(item, index) is None,
    {
        ActorState { active_response_id: None, buffers: Vec::new(), auto_barge_in, auto_tool_response }
    }

    /// The number of open buffers.
    pub fn open_buffers(&self) -> (r: usize)
        ensures
            r == self.buffers_view().len(),
    {
        self.buffers.len()
    }

    fn find_buffer(&self, item_id: &String, content_index: u32) -> (r: Option<usize>)
        ensures
            r matches Some(i) ==> i < self.buffers@.len() && self.buffers@[i as int].item_id@ == item_id@
                && self.buffers@[i as int].content_index == content_index
                && forall|j: int| 0 <= j < i ==> !(self.buffers@[j].item_id@ == item_id@ && self.buffers@[j].content_index == content_index),
            r is None ==> forall|j: int| 0 <= j < self.buffers@.len() ==> !(self.buffers@[j].item_id@ == item_id@ && self.buffers@[j].content_index == content_index),
    {
        let mut i: usize = 0;
        while i < self.buffers.len()
            invariant
                0 <= i <= self.buffers@.len(),
                forall|j: int| 0 <= j < i ==> !(self.buffers@[j].item_id@ == item_id@ && self.buffers@[j].content_index == content_index),
            decreases self.buffers.len() - i,
        {
            if self.buffers[i].item_id == *item_id && self.buffers[i].content_index == content_index {
                return Some(i);
            }
            i = i + 1;
        }
        None
    }

    /// Appends a text delta to its stream's buffer, opening the buffer if needed.
    fn append_text(&mut self, item_id: &String, content_index: u32, delta: &String)
        ensures
            final(self).buffer(item_id@, content_index) == Some(
                match old(self).buffer(item_id@, content_index) {
                    Some(p) => p,
                    None => Seq::empty(),
                } + delta@,
            ),
            forall|k: Seq<char>, n: u32| !(k == item_id@ && n == content_index) ==> final(self).buffer(k, n) == old(self).buffer(k, n),
            final(self).active_response_id == old(self).active_response_id,
            final(self).auto_barge_in == old(self).auto_barge_in,
            final(self).auto_tool_response == old(self).auto_tool_response,
    {
        match self.find_buffer(item_id, content_index) {
            Some(i) => {
                let ghost b0 = self.buffers@;
                proof {
                    lemma_buffer_in_index(b0, i as int, item_id@, content_index);
                }
                let mut entry = self.buffers.remove(i);
                entry.text.append(delta.as_str());
                self.buffers.insert(i, entry);
                proof {
                    assert(self.buffers@ =~= b0.update(i as int, entry));
                    assert forall|j: int| 0 <= j < i implies !(self.buffers@[j].item_id@ == item_id@ && self.buffers@[j].content_index == content_index) by {
                        assert(self.buffers@[j] == b0[j]);
                    }
                    lemma_buffer_in_index(self.buffers@, i as int, item_id@, content_index);
                    assert forall|k: Seq<char>, n: u32| !(k == item_id@ && n == content_index) implies buffer_in(self.buffers@, k, n) == buffer_in(b0, k, n) by {
                        lemma_buffer_in_update(b0, i as int, entry, k, n);
                    }
                }
            },
            None => {
                let ghost b0 = self.buffers@;
                proof {
                    lemma_buffer_in_none(b0, item_id@, content_index);
                }
                let entry = TextBuffer { item_id: item_id.clone(), content_index, text: delta.clone() };
                self.buffers.push(entry);
                proof {
                    lemma_buffer_in_push(b0, entry, item_id@, content_index);
                    assert(Seq::<char>::empty() + delta@ =~= delta@);
                    assert forall|k: Seq<char>, n: u32| !(k == item_id@ && n == content_index) implies buffer_in(self.buffers@, k, n) == buffer_in(b0, k, n) by {
                        lemma_buffer_in_push(b0, entry, k, n);
                    }
                }
            },
        }
    }


    /// Handles one inbound notification: lifecycle, speech boundary (with
    /// automatic barge-in), gated audio and transcript delivery, the
    /// classified event, text accumulation and the tool call to run.
    pub fn on_notification(&mut self, event: ServerEvent) -> (outs: Outputs)
        ensures
            final(self).active_response_id == active_after(old(self).active_response_id, old(self).auto_barge_in, event),
            final(self).auto_barge_in == old(self).auto_barge_in,
            final(self).auto_tool_response == old(self).auto_tool_response,
            outs.writes@ == writes_for(old(self).active_response_id, old(self).auto_barge_in, event),
            voice_matches(old(self).active_response_id, event, outs.voice@),
            audio_matches(old(self).active_response_id, event, outs.audio@),
            outs.transcripts@ == transcripts_for(old(self).active_response_id, event),
            outs.classified == classify(event),
            outs.texts@ == texts_for(event),
            outs.tool_call == tool_call_for(event),
            forall|item: Seq<char>, index: u32|
                #[trigger] final(self).buffer(item, index) == next_buffer(old(self).buffer(item, index), event, item, index),
    {
        let mut writes: Vec<ClientEvent> = Vec::new();
        let mut voice: Vec<VoiceEvent> = Vec::new();
        let mut audio: Vec<AudioChunk> = Vec::new();
        let mut transcripts: Vec<TranscriptChunk> = Vec::new();
        let mut texts: Vec<String> = Vec::new();
        let mut tool_call: Option<PendingToolCall> = None;
        match &event {
            ServerEvent::ResponseCreated { response, .. } => {
                if let Some(id) = response_id_from(response) {
                    self.active_response_id = Some(id.clone());
                    voice.push(VoiceEvent::ResponseCreated { response_id: id });
                }
            },
            ServerEvent::ResponseDone { response, .. } => {
                self.active_response_id = None;
                if let Some(id) = response_id_from(response) {
                    voice.push(VoiceEvent::ResponseDone { response_id: id });
                }
            },
            ServerEvent::InputAudioBufferSpeechStarted { audio_start_ms, .. } => {
                voice.push(VoiceEvent::SpeechStarted { audio_start_ms: Some(*audio_start_ms) });
                if self.auto_barge_in {
                    let taken = match &self.active_response_id {
                        Some(id) => Some(id.clone()),
                        None => None,
                    };
                    self.active_response_id = None;
                    writes.push(ClientEvent::OutputAudioBufferClear { event_id: None });
                    if let Some(id) = taken {
                        writes.push(ClientEvent::ResponseCancel { event_id: None, response_id: Some(id) });
                    }
                }
            },
            ServerEvent::InputAudioBufferSpeechStopped { audio_end_ms, .. } => {
                voice.push(VoiceEvent::SpeechStopped { audio_end_ms: Some(*audio_end_ms) });
            },
            ServerEvent::ResponseOutputAudioDelta { response_id, item_id, output_index, content_index, delta, .. } => {
                if same_text(&self.active_response_id, response_id) {
                    match decode_base64(delta.as_str()) {
                        Ok(pcm) => {
                            voice.push(VoiceEvent::AudioDelta {
                                response_id: response_id.clone(),
                                item_id: item_id.clone(),
                                output_index: *output_index,
                                content_index: *content_index,
                                pcm: copy_bytes(&pcm),
                            });
                            audio.push(AudioChunk {
                                response_id: response_id.clone(),
                                item_id: item_id.clone(),
                                output_index: *output_index,
                                content_index: *content_index,
                                pcm,
                            });
                        },
                        Err(err) => {
                            voice.push(VoiceEvent::DecodeError { message: err.to_string() });
                        },
                    }
                }
            },
            ServerEvent::ResponseOutputAudioDone { response_id, item_id, output_index, content_index, .. } => {
                if same_text(&self.active_response_id, response_id) {
                    voice.push(VoiceEvent::AudioDone {
                        response_id: response_id.clone(),
                        item_id: item_id.clone(),
                        output_index: *output_index,
                        content_index: *content_index,
                    });
                }
            },
            ServerEvent::ResponseOutputAudioTranscriptDelta { response_id, item_id, output_index, content_index, delta, .. } => {
                if same_text(&self.active_response_id, response_id) {
                    voice.push(VoiceEvent::TranscriptDelta {
                        response_id: response_id.clone(),
                        item_id: item_id.clone(),
                        output_index: *output_index,
                        content_index: *content_index,
                        delta: delta.clone(),
                    });
                    transcripts.push(TranscriptChunk {
                        response_id: response_id.clone(),
                        item_id: item_id.clone(),
                        output_index: *output_index,
                        content_index: *content_index,
                        text: delta.clone(),
                        is_final: false,
                    });
                }
            },
            ServerEvent::ResponseOutputAudioTranscriptDone { response_id, item_id, output_index, content_index, transcript, .. } => {
                if same_text(&self.active_response_id, response_id) {
                    voice.push(VoiceEvent::TranscriptDone {
                        response_id: response_id.clone(),
                        item_id: item_id.clone(),
                        output_index: *output_index,
                        content_index: *content_index,
                        transcript: transcript.clone(),
                    });
                    transcripts.push(TranscriptChunk {
                        response_id: response_id.clone(),
                        item_id: item_id.clone(),
                        output_index: *output_index,
                        content_index: *content_index,
                        text: transcript.clone(),
                        is_final: true,
                    });
                }
            },
            ServerEvent::ResponseOutputTextDelta { item_id, content_index, delta, .. } => {
                self.append_text(item_id, *content_index, delta);
            },
            ServerEvent::ResponseOutputTextDone { item_id, content_index, text, .. } => {
                self.close_text(item_id, *content_index);
                texts.push(text.clone());
            },
            ServerEvent::ResponseFunctionCallArgumentsDone { response_id, item_id, output_index, call_id, name, arguments, .. } => {
                tool_call = Some(PendingToolCall {
                    name: name.clone(),
                    call_id: call_id.clone(),
                    arguments: arguments.clone(),
                    response_id: Some(response_id.clone()),
                    item_id: Some(item_id.clone()),
                    output_index: Some(*output_index),
                });
            },
            _ => {},
        }
        proof {
            assert(writes@ =~= writes_for(old(self).active_response_id, old(self).auto_barge_in, event));
            assert(voice_matches(old(self).active_response_id, event, voice@));
            assert(transcripts@ =~= transcripts_for(old(self).active_response_id, event));
            assert(texts@ =~= texts_for(event));
        }
        let classified = SdkEvent::classify_owned(event);
        Outputs { writes, voice, audio, transcripts, classified, texts, tool_call }
    }

    /// The commands that report a finished tool call: exactly one
    /// function-call output carrying the call's id, and a follow-up response
    /// request after a success when automatic follow-up is on.
    pub fn tool_outcome(&self, call_id: String, outcome: ToolOutcome) -> (r: Vec<ClientEvent>)
        ensures
            r@ == tool_outcome_writes(call_id, outcome, self.auto_tool_response),
    {
        let (succeeded, output) = match outcome {
            ToolOutcome::Success(t) => (true, t),
            ToolOutcome::Failure(t) => (false, t),
        };
        let mut r: Vec<ClientEvent> = Vec::new();
        r.push(ClientEvent::ConversationItemCreate {
            event_id: None,
            previous_item_id: None,
            item: Box::new(Item::FunctionCallOutput { id: None, call_id, output }),
        });
        if succeeded && self.auto_tool_response {
            r.push(ClientEvent::ResponseCreate { event_id: None, response: None });
        }
        r
    }

    /// Drops a stream's buffer.
    fn close_text(&mut self, item_id: &String, content_index: u32)
        ensures
            final(self).buffer(item_id@, content_index) is None,
            forall|k: Seq<char>, n: u32| !(k == item_id@ && n == content_index) ==> final(self).buffer(k, n) == old(self).buffer(k, n),
            final(self).active_response_id == old(self).active_response_id,
            final(self).auto_barge_in == old(self).auto_barge_in,
            final(self).auto_tool_response == old(self).auto_tool_response,
    {
        loop
            invariant
                forall|k: Seq<char>, m: u32| !(k == item_id@ && m == content_index) ==> self.buffer(k, m) == old(self).buffer(k, m),
                self.active_response_id == old(self).active_response_id,
                self.auto_barge_in == old(self).auto_barge_in,
                self.auto_tool_response == old(self).auto_tool_response,
            decreases self.buffers@.len(),
        {
            match self.find_buffer(item_id, content_index) {
                Some(i) => {
                    let ghost b0 = self.buffers@;
                    self.buffers.remove(i);
                    proof {
                        assert forall|k: Seq<char>, m: u32| !(k == item_id@ && m == content_index) implies buffer_in(self.buffers@, k, m) == buffer_in(b0, k, m) by {
                            lemma_buffer_in_update(b0, i as int, b0[i as int], k, m);
                        }
                    }
                },
                None => {
                    proof {
                        lemma_buffer_in_none(self.buffers@, item_id@, content_index);
                    }
                    return;
                },
            }
        }
    }
}

/// The output reported for a failed tool call: an object whose `error`
/// member holds the failure's description.
pub fn tool_error_output(message: String) -> (r: Json)
    ensures
        r matches Json::Object(f) && f@.len() == 1 && f@[0].0@ == "error"@ && f@[0].1 == Json::Str(message),
{
    let mut f: Vec<(String, Json)> = Vec::new();
    f.push(("error".to_owned(), Json::Str(message)));
    Json::Object(f)
}

/// The arguments handed to a tool: the call's argument text as parsed JSON
/// when it parses, otherwise the text itself as a JSON string.
pub fn tool_arguments(parsed: Option<Json>, text: String) -> (r: Json)
    ensures
        parsed matches Some(j) ==> r == j,
        parsed is None ==> r == Json::Str(text),
{
    match parsed {
        Some(j) => j,
        None => Json::Str(text),
    }
}

/// The commands of an explicit barge-in, given the active response taken
/// from the actor: clear the output audio, then cancel that response.
pub fn barge_in_commands(active: Option<String>) -> (r: Vec<ClientEvent>)
    ensures
        r@ == barge_in_writes(active),
{
    let mut r: Vec<ClientEvent> = Vec::new();
    r.push(ClientEvent::OutputAudioBufferClear { event_id: None });
    if let Some(id) = active {
        r.push(ClientEvent::ResponseCancel { event_id: None, response_id: Some(id) });
    }
    proof {
        assert(r@ =~= barge_in_writes(active));
    }
    r
}

/// The command that sends a user's text message.
pub fn user_text_command(text: String) -> (r: ClientEvent)
    ensures
        r matches ClientEvent::ConversationItemCreate { event_id: None, previous_item_id: None, item }
            && *item matches Item::Message { id: None, status: None, role: Role::User, content }
            && content@.len() == 1 && content@[0] == (ContentPart::InputText { text }),
{
    let mut content: Vec<ContentPart> = Vec::new();
    content.push(ContentPart::InputText { text });
    let item = Item::Message { id: None, status: None, role: Role::User, content };
    ClientEvent::ConversationItemCreate { event_id: None, previous_item_id: None, item: Box::new(item) }
}

/// The command that answers an MCP approval request.
pub fn mcp_approval_command(approval_request_id: String, approve: bool, reason: Option<String>) -> (r: ClientEvent)
    ensures
        r == (ClientEvent::ConversationItemCreate {
            event_id: None,
            previous_item_id: None,
            item: Box::new(Item::McpApprovalResponse {
                id: None,
                status: Some(ItemStatus::Completed),
                approval_request_id,
                approve,
                reason,
            }),
        }),
{
    let item = Item::McpApprovalResponse {
        id: None,
        status: Some(ItemStatus::Completed),
        approval_request_id,
        approve,
        reason,
    };
    ClientEvent::ConversationItemCreate { event_id: None, previous_item_id: None, item: Box::new(item) }
}

/// Little-endian bytes of 16-bit PCM samples.
pub fn pcm16_le_bytes(samples: &[i16]) -> (r: Vec<u8>)
    requires
        samples@.len() * 2 <= usize::MAX,
    ensures
        r@.len() == samples@.len() * 2,
        forall|i: int| 0 <= i < samples@.len() ==> r@[2 * i] == (samples@[i] as u16 % 256) as u8
            && r@[2 * i + 1] == (samples@[i] as u16 / 256) as u8,
{
    let mut out: Vec<u8> = Vec::new();
    let mut i: usize = 0;
    while i < samples.len()
        invariant
            0 <= i <= samples@.len(),
            out@.len() == 2 * i,
            forall|j: int| 0 <= j < i ==> out@[2 * j] == (samples@[j] as u16 % 256) as u8
                && out@[2 * j + 1] == (samples@[j] as u16 / 256) as u8,
        decreases samples.len() - i,
    {
        let v = samples[i] as u16;
        out.push((v % 256) as u8);
        out.push((v / 256) as u8);
        i = i + 1;
    }
    out
}

/// The command that appends audio bytes to the input buffer, base64-encoded;
/// nothing for no bytes.
pub fn append_audio_command(pcm: &[u8]) -> (r: Option<ClientEvent>)
    requires
        pcm@.len() / 3 * 4 + 4 <= usize::MAX,
    ensures
        pcm@.len() == 0 <==> r is None,
        r matches Some(c) ==> c matches ClientEvent::InputAudioBufferAppend { event_id: None, audio }
            && audio@ == base64_encoding(pcm@),
        pcm@.len() <= MAX_INPUT_AUDIO_CHUNK_BYTES ==> (r matches Some(c) ==> client_event_ok(c)),
{
    if pcm.len() == 0 {
        return None;
    }
    let audio = encode_base64(pcm);
    proof {
        lemma_well_formed_accepted(encode_utf8(audio@));
    }
    Some(ClientEvent::InputAudioBufferAppend { event_id: None, audio })
}

/// A command accepted for writing: it passed every local check. A rejected
/// command yields its error and nothing to write.
pub fn prepare_send(event: ClientEvent) -> (r: Result<ClientEvent, Error>)
    ensures
        r is Ok <==> client_event_ok(event),
        r is Err ==> is_invalid_event(r),
        r is Err ==> fails_with(r, client_event_error(event)),
        r matches Ok(c) ==> c == event,
{
    match validate_client_event(&event) {
        Ok(()) => Ok(event),
        Err(e) => Err(e),
    }
}


/// A finished function call is answered by exactly one function-call output,
/// carrying the call id the notification gave; every other notification
/// asks for no call. After a successful call a follow-up response request is
/// written exactly when automatic follow-up is on.
pub proof fn lemma_tool_call_answered_once(e: ServerEvent, outcome: ToolOutcome, auto_follow_up: bool)
    ensures
        !(e is ResponseFunctionCallArgumentsDone) ==> tool_call_for(e) is None,
        e matches ServerEvent::ResponseFunctionCallArgumentsDone { call_id, .. } ==> {
            &&& tool_call_for(e) matches Some(c) && c.call_id == call_id
            &&& tool_outcome_writes(call_id, outcome, auto_follow_up)[0] matches ClientEvent::ConversationItemCreate { item, .. }
                && *item matches Item::FunctionCallOutput { call_id: answered, .. } && answered == call_id
            &&& forall|i: int| 1 <= i < tool_outcome_writes(call_id, outcome, auto_follow_up).len()
                ==> !(#[trigger] tool_outcome_writes(call_id, outcome, auto_follow_up)[i] is ConversationItemCreate)
            &&& outcome is Success ==> (tool_outcome_writes(call_id, outcome, auto_follow_up).len() == 2 <==> auto_follow_up)
            &&& tool_outcome_writes(call_id, outcome, auto_follow_up).len() == 2
                ==> tool_outcome_writes(call_id, outcome, auto_follow_up)[1] is ResponseCreate
            &&& tool_outcome_writes(call_id, outcome, auto_follow_up).len() <= 2
        },
{
}

/// With automatic barge-in on, speech that starts while response `R` is
/// active writes, in order, an output-audio clear and a cancel of `R`, and
/// leaves no active response.
pub proof fn lemma_barge_in_cancels_active(active: Option<String>, created: ServerEvent, speech: ServerEvent, r: String)
    requires
        created matches ServerEvent::ResponseCreated { response, .. } && response_id_in(response) == Some(r),
        speech is InputAudioBufferSpeechStarted,
    ensures
        writes_for(active_after(active, true, created), true, speech) == seq![
            ClientEvent::OutputAudioBufferClear { event_id: None },
            ClientEvent::ResponseCancel { event_id: None, response_id: Some(r) },
        ],
        active_after(active_after(active, true, created), true, speech) is None,
{
    assert(writes_for(active_after(active, true, created), true, speech) =~= seq![
        ClientEvent::OutputAudioBufferClear { event_id: None },
        ClientEvent::ResponseCancel { event_id: None, response_id: Some(r) },
    ]);
}

/// Audio of a response other than the active one reaches neither the audio
/// nor the lifecycle channel, yet is still classified as an audio delta.
pub proof fn lemma_stale_audio_dropped(active: String, e: ServerEvent, voice: Seq<VoiceEvent>, audio: Seq<AudioChunk>)
    requires
        e matches ServerEvent::ResponseOutputAudioDelta { response_id, .. } && response_id@ != active@,
        voice_matches(Some(active), e, voice),
        audio_matches(Some(active), e, audio),
    ensures
        voice.len() == 0,
        audio.len() == 0,
        classify(e) is AudioDelta,
{
}

/// Text deltas publish nothing; the terminal text publishes exactly its own
/// text, whatever was accumulated, and closes the stream's buffer, so the
/// next delta starts a fresh one.
pub proof fn lemma_text_done_publishes_once(
    delta_event: ServerEvent,
    done: ServerEvent,
    accumulated: Option<Seq<char>>,
)
    requires
        delta_event matches ServerEvent::ResponseOutputTextDelta { item_id, content_index, .. },
        done matches ServerEvent::ResponseOutputTextDone { item_id, content_index, .. }
            && item_id@ == delta_event->ResponseOutputTextDelta_item_id@
            && content_index == delta_event->ResponseOutputTextDelta_content_index,
    ensures
        texts_for(delta_event).len() == 0,
        texts_for(done) == seq![done->ResponseOutputTextDone_text],
        next_buffer(accumulated, done, done->ResponseOutputTextDone_item_id@, done->ResponseOutputTextDone_content_index) is None,
        next_buffer(
            next_buffer(accumulated, done, done->ResponseOutputTextDone_item_id@, done->ResponseOutputTextDone_content_index),
            delta_event,
            done->ResponseOutputTextDone_item_id@,
            done->ResponseOutputTextDone_content_index,
        ) == Some(delta_event->ResponseOutputTextDelta_delta@),
{
    assert(Seq::<char>::empty() + delta_event->ResponseOutputTextDelta_delta@ =~= delta_event->ResponseOutputTextDelta_delta@);
}

} // verus!
