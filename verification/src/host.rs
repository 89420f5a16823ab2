//! The native-messaging host's pure logic: the length-prefixed message
//! framing (4-byte little-endian length, then the payload, capped at one
//! mebibyte) and the reply for each incoming action.

use vstd::prelude::*;
use vstd::arithmetic::div_mod::{lemma_div_denominator, lemma_fundamental_div_mod};
use vstd::string::StringExecFns;

use crate::json::{push_json_escaped, push_json_string, spec_escape, spec_json_string};
use crate::text::str_eq;

verus! {

/// The largest message payload the host accepts: one mebibyte.
pub const MAX_MESSAGE_LEN: usize = 1048576;

/// The four bytes of `n` in little-endian order.
pub open spec fn spec_u32_le(n: u32) -> Seq<u8> {
    seq![
        (n as nat % 256) as u8,
        ((n as nat / 0x100) % 256) as u8,
        ((n as nat / 0x10000) % 256) as u8,
        (n as nat / 0x1000000) as u8,
    ]
}

/// The number held by four little-endian bytes.
pub open spec fn spec_le_u32(b: Seq<u8>) -> nat {
    (b[0] as nat) + (b[1] as nat) * 0x100 + (b[2] as nat) * 0x10000 + (b[3] as nat) * 0x1000000
}

/// A whole message frame: the payload length in four little-endian bytes,
/// then the payload itself.
pub open spec fn spec_message_frame(payload: Seq<u8>) -> Seq<u8> {
    spec_u32_le(payload.len() as u32) + payload
}

/// Encode one message frame.
pub fn encode_message_frame(payload: &[u8]) -> (frame: Vec<u8>)
    requires
        payload@.len() <= u32::MAX,
    ensures
        frame@ == spec_message_frame(payload@),
        frame@.len() == 4 + payload@.len(),
{
    let len = payload.len() as u32;
    let mut frame: Vec<u8> = Vec::new();
    frame.push((len % 256) as u8);
    frame.push(((len / 0x100) % 256) as u8);
    frame.push(((len / 0x10000) % 256) as u8);
    frame.push((len / 0x1000000) as u8);
    proof {
        assert(frame@ =~= spec_u32_le(payload@.len() as u32));
    }
    let mut i: usize = 0;
    while i < payload.len()
        invariant
            i <= payload@.len(),
            frame@ == spec_u32_le(payload@.len() as u32) + payload@.take(i as int),
        decreases payload@.len() - i,
    {
        frame.push(payload[i]);
        proof {
            assert(spec_u32_le(payload@.len() as u32) + payload@.take(i as int) + seq![
                payload@[i as int],
            ] =~= spec_u32_le(payload@.len() as u32) + payload@.take(i as int + 1));
        }
        i = i + 1;
    }
    proof {
        assert(payload@.take(payload@.len() as int) =~= payload@);
    }
    frame
}

/// Read the payload length out of a frame's 4-byte header; `None` when it
/// announces a payload larger than `MAX_MESSAGE_LEN`.
pub fn frame_payload_len(header: &[u8]) -> (r: Option<usize>)
    requires
        header@.len() >= 4,
    ensures
        match r {
            Some(len) => {
                &&& len == spec_le_u32(header@.take(4))
                &&& len <= MAX_MESSAGE_LEN
            },
            None => spec_le_u32(header@.take(4)) > MAX_MESSAGE_LEN,
        },
{
    let b0 = header[0] as u32;
    let b1 = header[1] as u32;
    let b2 = header[2] as u32;
    let b3 = header[3] as u32;
    let len32: u32 = b0 + b1 * 0x100 + b2 * 0x10000 + b3 * 0x1000000;
    proof {
        assert(len32 as nat == spec_le_u32(header@.take(4)));
    }
    let len = len32 as usize;
    if len > MAX_MESSAGE_LEN {
        None
    } else {
        Some(len)
    }
}

/// What a buffered message input holds.
#[derive(Debug)]
pub enum FrameParse {
    /// No complete length header: the stream ended at or inside the 4-byte
    /// header, an orderly end of input.
    End,
    /// The header announces a payload larger than `MAX_MESSAGE_LEN`.
    TooLarge,
    /// The header is complete but the payload bytes run out early.
    Truncated,
    /// One complete message of exactly the announced length.
    Payload(Vec<u8>),
}

/// Parse the front of a buffered message stream.
pub fn decode_message_frame(input: &[u8]) -> (r: FrameParse)
    ensures
        match r {
            FrameParse::End => input@.len() < 4,
            FrameParse::TooLarge => {
                &&& input@.len() >= 4
                &&& spec_le_u32(input@.take(4)) > MAX_MESSAGE_LEN
            },
            FrameParse::Truncated => {
                &&& input@.len() >= 4
                &&& spec_le_u32(input@.take(4)) <= MAX_MESSAGE_LEN
                &&& input@.len() < 4 + spec_le_u32(input@.take(4))
            },
            FrameParse::Payload(p) => {
                &&& input@.len() >= 4
                &&& spec_le_u32(input@.take(4)) <= MAX_MESSAGE_LEN
                &&& p@.len() == spec_le_u32(input@.take(4))
                &&& input@.len() >= 4 + p@.len()
                &&& p@ == input@.subrange(4, 4 + p@.len() as int)
            },
        },
{
    if input.len() < 4 {
        return FrameParse::End;
    }
    let b0 = input[0] as u32;
    let b1 = input[1] as u32;
    let b2 = input[2] as u32;
    let b3 = input[3] as u32;
    let len32: u32 = b0 + b1 * 0x100 + b2 * 0x10000 + b3 * 0x1000000;
    proof {
        assert(len32 as nat == spec_le_u32(input@.take(4)));
    }
    let len = len32 as usize;
    if len > MAX_MESSAGE_LEN {
        return FrameParse::TooLarge;
    }
    if input.len() - 4 < len {
        return FrameParse::Truncated;
    }
    let mut p: Vec<u8> = Vec::new();
    let mut i: usize = 0;
    while i < len
        invariant
            i <= len,
            len <= MAX_MESSAGE_LEN,
            len + 4 <= input@.len(),
            p@ == input@.subrange(4, 4 + i as int),
        decreases len - i,
    {
        p.push(input[4 + i]);
        proof {
            assert(input@.subrange(4, 4 + i as int) + seq![input@[4 + i as int]] =~= input@
                .subrange(4, 4 + i as int + 1));
        }
        i = i + 1;
    }
    FrameParse::Payload(p)
}

/// Reassembling four little-endian bytes gives the number back.
pub proof fn lemma_u32_le_roundtrip(n: u32)
    ensures
        spec_le_u32(spec_u32_le(n)) == n as nat,
{
    let x = n as int;
    lemma_fundamental_div_mod(x, 256);
    lemma_fundamental_div_mod(x / 256, 256);
    lemma_fundamental_div_mod(x / 0x10000, 256);
    lemma_div_denominator(x, 256, 256);
    lemma_div_denominator(x, 0x10000, 256);
    assert(x == 0x1000000 * (x / 0x1000000) + 0x10000 * ((x / 0x10000) % 256) + 256 * ((x / 256)
        % 256) + (x % 256));
}

/// Law: framing a payload and parsing the frame gives the payload back,
/// byte for byte.
pub proof fn lemma_message_frame_roundtrip(payload: Seq<u8>)
    requires
        payload.len() <= MAX_MESSAGE_LEN,
    ensures
        spec_message_frame(payload).len() == 4 + payload.len(),
        spec_le_u32(spec_message_frame(payload).take(4)) == payload.len(),
        spec_message_frame(payload).subrange(4, spec_message_frame(payload).len() as int)
            == payload,
{
    let n = payload.len() as u32;
    lemma_u32_le_roundtrip(n);
    assert(spec_message_frame(payload).take(4) =~= spec_u32_le(n));
    assert(spec_message_frame(payload).subrange(4, spec_message_frame(payload).len() as int)
        =~= payload);
}

/// What the host must do for one incoming message's action.
#[derive(Clone, Copy, Debug, PartialEq, Eq, Structural)]
pub enum HostAction {
    /// Reply with the handshake record.
    Handshake,
    /// Reply with a pong.
    Ping,
    /// Launch the desktop app, then reply with the launch outcome.
    Launch,
    /// Reply with an unknown-action error.
    Unknown,
}

/// Which action an incoming message asks for.
pub open spec fn spec_classify_action(a: Seq<char>) -> HostAction {
    if a == "handshake"@ {
        HostAction::Handshake
    } else if a == "ping"@ {
        HostAction::Ping
    } else if a == "launch"@ {
        HostAction::Launch
    } else {
        HostAction::Unknown
    }
}

/// Classify an incoming message's action string.
pub fn classify_action(action: &str) -> (r: HostAction)
    ensures
        r == spec_classify_action(action@),
{
    if str_eq(action, "handshake") {
        HostAction::Handshake
    } else if str_eq(action, "ping") {
        HostAction::Ping
    } else if str_eq(action, "launch") {
        HostAction::Launch
    } else {
        HostAction::Unknown
    }
}

/// The host's JSON reply for a non-launch action, keys in alphabetical
/// order.
pub open spec fn spec_host_response(action: Seq<char>, version: Seq<char>) -> Seq<char> {
    if action == "handshake"@ {
        "{\"action\":\"handshake\",\"name\":\"ok200-host\",\"version\":"@ + spec_json_string(
            version,
        ) + "}"@
    } else if action == "ping"@ {
        "{\"action\":\"pong\"}"@
    } else {
        "{\"error\":\"unknown action: "@ + spec_escape(action) + "\"}"@
    }
}

/// The host's JSON reply for a launch request, given the launch outcome:
/// `None` for success, or the failure message.
pub open spec fn spec_launch_response(error: Option<Seq<char>>) -> Seq<char> {
    match error {
        None => "{\"action\":\"launch\",\"ok\":true}"@,
        Some(e) => "{\"action\":\"launch\",\"error\":"@ + spec_json_string(e) + ",\"ok\":false}"@,
    }
}

/// Build the reply for a handshake, ping, or unknown action.
pub fn host_response_json(action: &str, version: &str) -> (r: String)
    requires
        spec_classify_action(action@) != HostAction::Launch,
    ensures
        r@ == spec_host_response(action@, version@),
{
    let mut out = String::new();
    if str_eq(action, "handshake") {
        out.append("{\"action\":\"handshake\",\"name\":\"ok200-host\",\"version\":");
        push_json_string(&mut out, version);
        out.append("}");
    } else if str_eq(action, "ping") {
        out.append("{\"action\":\"pong\"}");
    } else {
        out.append("{\"error\":\"unknown action: ");
        push_json_escaped(&mut out, action);
        out.append("\"}");
    }
    proof {
        assert(out@ =~= spec_host_response(action@, version@));
    }
    out
}

/// Build the reply for a launch request from its outcome.
pub fn launch_response_json(error: Option<&str>) -> (r: String)
    ensures
        r@ == spec_launch_response(
            match error {
                None => None,
                Some(e) => Some(e@),
            },
        ),
{
    let mut out = String::new();
    match error {
        None => {
            out.append("{\"action\":\"launch\",\"ok\":true}");
        },
        Some(e) => {
            out.append("{\"action\":\"launch\",\"error\":");
            push_json_string(&mut out, e);
            out.append(",\"ok\":false}");
        },
    }
    proof {
        assert(out@ =~= spec_launch_response(
            match error {
                None => None,
                Some(e) => Some(e@),
            },
        ));
    }
    out
}

} // verus!
