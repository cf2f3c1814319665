//! Checks applied to an outbound command before it is written: audio formats,
//! remote tool descriptors, and the size and shape of appended audio.

use vstd::prelude::*;
use vstd::string::StringSliceAdditionalSpecFns;
use vstd::utf8::encode_utf8;

use crate::error::{decimal, fails_with, push_decimal, Error};
use crate::protocol::client_events::ClientEvent;
use crate::protocol::models::{
    audio_format_error, mcp_config_error, AudioConfig, AudioFormat, InputAudioConfig,
    OutputAudioConfig, ResponseConfig, SessionUpdate, Tool,
};

verus! {

/// The largest decoded size of one appended audio chunk: 15 MiB.
pub const MAX_INPUT_AUDIO_CHUNK_BYTES: usize = 15728640;

/// A character of the standard base64 alphabet.
pub open spec fn b64_symbol(c: u8) -> bool {
    (65 <= c <= 90) || (97 <= c <= 122) || (48 <= c <= 57) || c == 43 || c == 47
}

pub open spec fn is_pad(c: u8) -> bool {
    c == 61
}

/// How many `=` characters end `b`.
pub open spec fn trailing_pads(b: Seq<u8>) -> nat
    decreases b.len(),
{
    if b.len() > 0 && is_pad(b.last()) {
        1 + trailing_pads(b.drop_last())
    } else {
        0
    }
}

/// Standard base64 text: a length that is a multiple of four, alphabet
/// characters only, then at most two `=` at the very end.
pub open spec fn b64_well_formed(b: Seq<u8>) -> bool {
    &&& b.len() % 4 == 0
    &&& trailing_pads(b) <= 2
    &&& forall|i: int| 0 <= i < b.len() - trailing_pads(b) ==> b64_symbol(#[trigger] b[i])
}

/// How many alphabet characters begin `b`.
pub open spec fn prefix_symbols(b: Seq<u8>) -> nat
    decreases b.len(),
{
    if b.len() > 0 && b64_symbol(b[0]) {
        1 + prefix_symbols(b.drop_first())
    } else {
        0
    }
}

/// Why appended text is not acceptable base64, checked in this order: its
/// length, a character outside the alphabet, data after padding, more than
/// two padding characters.
pub open spec fn b64_error(b: Seq<u8>) -> Option<Seq<char>> {
    let n = b.len();
    let k = prefix_symbols(b);
    if n % 4 != 0 {
        Some("input_audio_buffer.append invalid base64 length"@)
    } else if k == n {
        None
    } else if !is_pad(b[k as int]) {
        Some("input_audio_buffer.append invalid base64 character"@)
    } else if exists|i: int| k < i < n && !is_pad(#[trigger] b[i]) {
        Some("input_audio_buffer.append invalid base64 padding"@)
    } else if n - k > 2 {
        Some("input_audio_buffer.append invalid base64 padding length"@)
    } else {
        None
    }
}

proof fn lemma_prefix_symbols(b: Seq<u8>, k: int)
    requires
        0 <= k <= b.len(),
        forall|j: int| 0 <= j < k ==> b64_symbol(#[trigger] b[j]),
        k < b.len() ==> !b64_symbol(b[k]),
    ensures
        prefix_symbols(b) == k,
    decreases k,
{
    if k > 0 {
        let d = b.drop_first();
        assert forall|j: int| 0 <= j < k - 1 implies b64_symbol(#[trigger] d[j]) by {
            assert(d[j] == b[j + 1]);
        }
        if k < b.len() {
            assert(d[k - 1] == b[k]);
        }
        lemma_prefix_symbols(d, k - 1);
    }
}

/// The decoded size of well-formed base64 text, from its length and padding.
pub open spec fn b64_estimated_len(b: Seq<u8>) -> int {
    b.len() / 4 * 3 - trailing_pads(b)
}

/// The six-bit value of an alphabet character (padding counts as zero).
pub open spec fn sextet(c: u8) -> nat {
    if 65 <= c <= 90 {
        (c - 65) as nat
    } else if 97 <= c <= 122 {
        (c - 71) as nat
    } else if 48 <= c <= 57 {
        (c + 4) as nat
    } else if c == 43 {
        62
    } else if c == 47 {
        63
    } else {
        0
    }
}

/// The bytes one group of four characters stands for: three, less one for
/// each `=` in the group.
pub open spec fn b64_group(g: Seq<u8>) -> Seq<u8> {
    let v = sextet(g[0]) * 262144 + sextet(g[1]) * 4096 + sextet(g[2]) * 64 + sextet(g[3]);
    let bytes = seq![(v / 65536 % 256) as u8, (v / 256 % 256) as u8, (v % 256) as u8];
    let pads: int = (if is_pad(g[2]) { 1int } else { 0int }) + (if is_pad(g[3]) { 1int } else { 0int });
    bytes.take(3 - pads)
}

/// Standard base64 decoding, group by group.
pub open spec fn b64_decode(b: Seq<u8>) -> Seq<u8>
    decreases b.len(),
{
    if b.len() < 4 {
        Seq::empty()
    } else {
        b64_group(b.take(4)) + b64_decode(b.skip(4))
    }
}

proof fn lemma_trailing_pads_bound(b: Seq<u8>)
    ensures
        trailing_pads(b) <= b.len(),
        forall|i: int| b.len() - trailing_pads(b) <= i < b.len() ==> is_pad(#[trigger] b[i]),
        trailing_pads(b) < b.len() ==> !is_pad(b[b.len() - trailing_pads(b) - 1]),
    decreases b.len(),
{
    if b.len() > 0 && is_pad(b.last()) {
        let d = b.drop_last();
        lemma_trailing_pads_bound(d);
        assert forall|i: int| b.len() - trailing_pads(b) <= i < b.len() implies is_pad(#[trigger] b[i]) by {
            if i < b.len() - 1 {
                assert(b[i] == d[i]);
            }
        }
        if trailing_pads(b) < b.len() {
            assert(b[b.len() - trailing_pads(b) - 1] == d[d.len() - trailing_pads(d) - 1]);
        }
    }
}

/// A run of `=` that closes `b` after a non-`=` character (or the start) is its padding.
proof fn lemma_trailing_pads_exact(b: Seq<u8>, k: int)
    requires
        0 <= k <= b.len(),
        forall|i: int| k <= i < b.len() ==> is_pad(#[trigger] b[i]),
        k > 0 ==> !is_pad(b[k - 1]),
    ensures
        trailing_pads(b) == b.len() - k,
    decreases b.len(),
{
    if b.len() > k {
        lemma_trailing_pads_exact(b.drop_last(), k);
    } else if b.len() > 0 {
        assert(!is_pad(b.last()));
    }
}

/// A character that is not `=` bounds the padding to what follows it.
proof fn lemma_pads_after(b: Seq<u8>, i: int)
    requires
        0 <= i < b.len(),
        !is_pad(b[i]),
    ensures
        trailing_pads(b) <= b.len() - 1 - i,
{
    lemma_trailing_pads_bound(b);
}

/// The decoded length of well-formed base64 is what its length and padding give.
pub proof fn lemma_estimate_is_decoded_len(b: Seq<u8>)
    requires
        b64_well_formed(b),
    ensures
        b64_decode(b).len() == b64_estimated_len(b),
    decreases b.len(),
{
    lemma_trailing_pads_bound(b);
    if b.len() >= 4 {
        let rest = b.skip(4);
        let g = b.take(4);
        if b.len() == 4 {
            assert(rest.len() == 0);
            assert(b64_decode(rest).len() == 0);
            let p = trailing_pads(b);
            assert(g =~= b);
            if p == 0 {
                assert(!is_pad(b[3]));
                assert(b64_symbol(b[2]));
            } else if p == 1 {
                assert(is_pad(b[3]));
                assert(b64_symbol(b[2]));
            } else {
                assert(is_pad(b[3]) && is_pad(b[2]));
            }
        } else {
            assert(b.len() >= 8);
            assert(b64_symbol(b[2]) && b64_symbol(b[3]));
            assert(g[2] == b[2] && g[3] == b[3]);
            lemma_trailing_pads_bound(rest);
            let k = b.len() - trailing_pads(b);
            assert forall|i: int| k - 4 <= i < rest.len() implies is_pad(#[trigger] rest[i]) by {
                assert(rest[i] == b[i + 4]);
            }
            if k - 4 > 0 {
                assert(rest[k - 5] == b[k - 1]);
                assert(b64_symbol(b[k - 1]));
            }
            lemma_trailing_pads_exact(rest, k - 4);
            assert forall|i: int| 0 <= i < rest.len() - trailing_pads(rest) implies b64_symbol(#[trigger] rest[i]) by {
                assert(rest[i] == b[i + 4]);
            }
            lemma_estimate_is_decoded_len(rest);
            assert(rest.len() / 4 * 3 == b.len() / 4 * 3 - 3) by {
                assert(rest.len() == b.len() - 4);
            }
        }
    }
}

/// Well-formed base64 passes every shape check.
pub proof fn lemma_well_formed_accepted(b: Seq<u8>)
    requires
        b64_well_formed(b),
    ensures
        b64_error(b) is None,
{
    lemma_trailing_pads_bound(b);
    let t = trailing_pads(b);
    let n = b.len();
    if t == 0 {
        lemma_prefix_symbols(b, n as int);
    } else {
        assert(is_pad(b[n - t]));
        lemma_prefix_symbols(b, n - t);
        assert(!(exists|i: int| n - t < i < n && !is_pad(#[trigger] b[i])));
    }
}

/// The decoded size of appended audio, computed from the text without decoding it.
pub fn estimate_base64_decoded_len(s: &str) -> (r: Result<usize, Error>)
    ensures
        r is Ok <==> b64_well_formed(s.spec_bytes()),
        r matches Ok(n) ==> n == b64_estimated_len(s.spec_bytes()),
        fails_with(r, b64_error(s.spec_bytes())),
{
    let bytes = s.as_bytes();
    let ghost b = s.spec_bytes();
    let n = bytes.len();
    if n % 4 != 0 {
        return Err(Error::InvalidClientEvent("input_audio_buffer.append invalid base64 length".to_owned()));
    }
    let mut padding: usize = 0;
    let mut seen_padding = false;
    let ghost mut first_pad: int = 0;
    let mut i: usize = 0;
    while i < n
        invariant
            n == bytes@.len(),
            bytes@ == b,
            b == s.spec_bytes(),
            n % 4 == 0,
            0 <= i <= n,
            !seen_padding ==> padding == 0,
            !seen_padding ==> forall|j: int| 0 <= j < i ==> b64_symbol(#[trigger] b[j]),
            seen_padding ==> 0 <= first_pad < i,
            seen_padding ==> padding == i - first_pad,
            seen_padding ==> forall|j: int| 0 <= j < first_pad ==> b64_symbol(#[trigger] b[j]),
            seen_padding ==> forall|j: int| first_pad <= j < i ==> is_pad(#[trigger] b[j]),
        decreases n - i,
    {
        let c = bytes[i];
        if c == 61u8 {
            if !seen_padding {
                proof {
                    first_pad = i as int;
                }
            }
            seen_padding = true;
            padding = padding + 1;
        } else {
            if seen_padding {
                proof {
                    lemma_pads_after(b, i as int);
                    assert(is_pad(b[first_pad]));
                    assert(!b64_symbol(b[first_pad]));
                    assert(first_pad < b.len() - trailing_pads(b));
                    assert(!b64_well_formed(b));
                    lemma_prefix_symbols(b, first_pad);
                    assert(c == b[i as int]);
                    assert(!is_pad(b[i as int]));
                    assert(first_pad < i);
                }
                return Err(Error::InvalidClientEvent("input_audio_buffer.append invalid base64 padding".to_owned()));
            }
            let valid = (65u8 <= c && c <= 90u8) || (97u8 <= c && c <= 122u8) || (48u8 <= c && c <= 57u8) || c == 43u8 || c == 47u8;
            if !valid {
                proof {
                    assert(c == b[i as int]);
                    lemma_pads_after(b, i as int);
                    assert(!b64_symbol(b[i as int]));
                    assert(!b64_well_formed(b));
                    lemma_prefix_symbols(b, i as int);
                    assert(!is_pad(b[i as int]));
                }
                return Err(Error::InvalidClientEvent("input_audio_buffer.append invalid base64 character".to_owned()));
            }
        }
        i = i + 1;
    }
    proof {
        if seen_padding {
            if first_pad > 0 {
                assert(b64_symbol(b[first_pad - 1]));
            }
            lemma_trailing_pads_exact(b, first_pad);
            lemma_prefix_symbols(b, first_pad);
        } else {
            lemma_trailing_pads_exact(b, n as int);
            lemma_prefix_symbols(b, n as int);
        }
    }
    if padding > 2 {
        return Err(Error::InvalidClientEvent("input_audio_buffer.append invalid base64 padding length".to_owned()));
    }
    Ok(n / 4 * 3 - padding)
}


/// The first of two reasons for rejection, in the order they are checked.
pub open spec fn first_error(a: Option<Seq<char>>, b: Option<Seq<char>>) -> Option<Seq<char>> {
    if a is Some { a } else { b }
}

/// Why an input-audio block is rejected: its format, if given.
pub open spec fn input_audio_error(c: InputAudioConfig) -> Option<Seq<char>> {
    match c.format {
        Some(f) => audio_format_error(f),
        None => None,
    }
}

/// Why an output-audio block is rejected: its format, if given.
pub open spec fn output_audio_error(c: OutputAudioConfig) -> Option<Seq<char>> {
    match c.format {
        Some(f) => audio_format_error(f),
        None => None,
    }
}

/// The input block is checked before the output block.
pub open spec fn audio_config_error(a: AudioConfig) -> Option<Seq<char>> {
    first_error(
        match a.input {
            Some(i) => input_audio_error(i),
            None => None,
        },
        match a.output {
            Some(o) => output_audio_error(o),
            None => None,
        },
    )
}

/// Only remote tools are checked.
pub open spec fn tool_error(t: Tool) -> Option<Seq<char>> {
    match t {
        Tool::Mcp(c) => mcp_config_error(c),
        _ => None,
    }
}

/// The first rejected tool from index `i` on.
pub open spec fn tools_error_from(tools: Seq<Tool>, i: int) -> Option<Seq<char>>
    decreases tools.len() - i,
{
    if i < 0 || i >= tools.len() {
        None
    } else {
        first_error(tool_error(tools[i]), tools_error_from(tools, i + 1))
    }
}

pub open spec fn tools_error(tools: Seq<Tool>) -> Option<Seq<char>> {
    tools_error_from(tools, 0)
}

/// Formats first (input, then output), then the audio block, then the tools.
pub open spec fn session_update_error(u: SessionUpdate) -> Option<Seq<char>> {
    let c = u.config;
    first_error(
        match c.input_audio_format {
            Some(f) => audio_format_error(f),
            None => None,
        },
        first_error(
            match c.output_audio_format {
                Some(f) => audio_format_error(f),
                None => None,
            },
            first_error(
                match c.audio {
                    Some(a) => audio_config_error(a),
                    None => None,
                },
                match c.tools {
                    Some(t) => tools_error(t@),
                    None => None,
                },
            ),
        ),
    )
}

/// The audio block, then the tools.
pub open spec fn response_config_error(c: ResponseConfig) -> Option<Seq<char>> {
    first_error(
        match c.audio {
            Some(a) => audio_config_error(a),
            None => None,
        },
        match c.tools {
            Some(t) => tools_error(t@),
            None => None,
        },
    )
}

/// Malformed base64 first; then a decoded size over 15 MiB, naming the size.
pub open spec fn append_error(audio: Seq<char>) -> Option<Seq<char>> {
    let b = encode_utf8(audio);
    match b64_error(b) {
        Some(m) => Some(m),
        None => if b64_estimated_len(b) > MAX_INPUT_AUDIO_CHUNK_BYTES {
            Some("input_audio_buffer.append exceeds 15MB ("@ + decimal(b64_estimated_len(b) as nat) + " bytes)"@)
        } else {
            None
        },
    }
}

/// Why a command is rejected before it is written, if it is.
pub open spec fn client_event_error(e: ClientEvent) -> Option<Seq<char>> {
    match e {
        ClientEvent::InputAudioBufferAppend { audio, .. } => append_error(audio@),
        ClientEvent::SessionUpdate { session, .. } => session_update_error(*session),
        ClientEvent::ResponseCreate { response: Some(config), .. } => response_config_error(*config),
        _ => None,
    }
}

/// Whether a command passes every local check and may be written.
pub open spec fn client_event_ok(e: ClientEvent) -> bool {
    client_event_error(e) is None
}

pub fn validate_audio_format(format: &AudioFormat) -> (r: Result<(), Error>)
    ensures
        fails_with(r, audio_format_error(*format)),
{
    format.validate()
}

pub fn validate_input_audio_config(audio: &InputAudioConfig) -> (r: Result<(), Error>)
    ensures
        fails_with(r, input_audio_error(*audio)),
{
    if let Some(format) = &audio.format {
        validate_audio_format(format)?;
    }
    Ok(())
}

pub fn validate_output_audio_config(audio: &OutputAudioConfig) -> (r: Result<(), Error>)
    ensures
        fails_with(r, output_audio_error(*audio)),
{
    if let Some(format) = &audio.format {
        validate_audio_format(format)?;
    }
    Ok(())
}

pub fn validate_audio_config(audio: &AudioConfig) -> (r: Result<(), Error>)
    ensures
        fails_with(r, audio_config_error(*audio)),
{
    if let Some(input) = &audio.input {
        validate_input_audio_config(input)?;
    }
    if let Some(output) = &audio.output {
        validate_output_audio_config(output)?;
    }
    Ok(())
}

pub fn validate_tools(tools: &Vec<Tool>) -> (r: Result<(), Error>)
    ensures
        fails_with(r, tools_error(tools@)),
{
    let mut i: usize = 0;
    while i < tools.len()
        invariant
            0 <= i <= tools.len(),
            tools_error(tools@) == tools_error_from(tools@, i as int),
        decreases tools.len() - i,
    {
        if let Tool::Mcp(config) = &tools[i] {
            let checked = config.validate();
            if checked.is_err() {
                return checked;
            }
        }
        i = i + 1;
    }
    Ok(())
}

pub fn validate_session_update(session: &SessionUpdate) -> (r: Result<(), Error>)
    ensures
        fails_with(r, session_update_error(*session)),
{
    let config = &session.config;
    if let Some(format) = &config.input_audio_format {
        validate_audio_format(format)?;
    }
    if let Some(format) = &config.output_audio_format {
        validate_audio_format(format)?;
    }
    if let Some(audio) = &config.audio {
        validate_audio_config(audio)?;
    }
    if let Some(tools) = &config.tools {
        validate_tools(tools)?;
    }
    Ok(())
}

pub fn validate_response_config(config: &ResponseConfig) -> (r: Result<(), Error>)
    ensures
        fails_with(r, response_config_error(*config)),
{
    if let Some(audio) = &config.audio {
        validate_audio_config(audio)?;
    }
    if let Some(tools) = &config.tools {
        validate_tools(tools)?;
    }
    Ok(())
}

/// Checks a command before it is written; a command that fails here never
/// reaches the connection.
pub fn validate_client_event(event: &ClientEvent) -> (r: Result<(), Error>)
    ensures
        fails_with(r, client_event_error(*event)),
{
    match event {
        ClientEvent::InputAudioBufferAppend { audio, .. } => {
            let size = estimate_base64_decoded_len(audio.as_str())?;
            if size > MAX_INPUT_AUDIO_CHUNK_BYTES {
                let mut msg = "input_audio_buffer.append exceeds 15MB (".to_owned();
                push_decimal(&mut msg, size);
                msg.append(" bytes)");
                return Err(Error::InvalidClientEvent(msg));
            }
            Ok(())
        },
        ClientEvent::SessionUpdate { session, .. } => validate_session_update(session),
        ClientEvent::ResponseCreate { response: Some(config), .. } => validate_response_config(config),
        _ => Ok(()),
    }
}

/// An audio append whose decoded size exceeds 15 MiB fails the checks, so it
/// is rejected before anything is written.
pub proof fn lemma_oversized_append_rejected(event: ClientEvent)
    requires
        event matches ClientEvent::InputAudioBufferAppend { audio, .. }
            && b64_estimated_len(encode_utf8(audio@)) > MAX_INPUT_AUDIO_CHUNK_BYTES,
    ensures
        !client_event_ok(event),
{
}

} // verus!
