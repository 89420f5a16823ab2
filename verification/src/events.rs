//! The two message shapes of the outbound multiplexed stream: structured
//! control events, encoded as JSON text, and raw data frames, encoded as a
//! 4-byte big-endian socket id followed by the payload bytes.

use vstd::prelude::*;
use vstd::arithmetic::div_mod::{lemma_div_denominator, lemma_fundamental_div_mod};
use vstd::string::StringExecFns;

use crate::json::{
    push_dec_u32, push_json_bool, push_json_string, spec_dec, spec_json_bool, spec_json_string,
};

verus! {

/// A structured lifecycle/status message on the multiplexed stream.
#[derive(Debug)]
pub enum ControlEvent {
    /// A listener was bound; `port` is the actual local port (meaningful
    /// when the requested port was 0 and the OS chose one).
    Listening { listener_id: u32, port: u16 },
    /// A listener could not be set up.
    ListenError { listener_id: u32, error: String },
    /// A listener accepted a connection, registered under `socket_id`.
    Accept { listener_id: u32, socket_id: u32, remote_address: String, remote_port: u16 },
    /// A socket terminated; `had_error` tells an orderly half-close from a
    /// read failure.
    Close { socket_id: u32, had_error: bool },
    /// A read error on a socket, reported before its closing event.
    Error { socket_id: u32, message: String },
}

/// The JSON encoding of a control event, discriminated by its `type` field.
pub open spec fn spec_event_json(e: ControlEvent) -> Seq<char> {
    match e {
        ControlEvent::Listening { listener_id, port } => {
            "{\"type\":\"listening\",\"listenerId\":"@ + spec_dec(listener_id as nat)
                + ",\"port\":"@ + spec_dec(port as nat) + "}"@
        },
        ControlEvent::ListenError { listener_id, error } => {
            "{\"type\":\"listen_error\",\"listenerId\":"@ + spec_dec(listener_id as nat)
                + ",\"error\":"@ + spec_json_string(error@) + "}"@
        },
        ControlEvent::Accept { listener_id, socket_id, remote_address, remote_port } => {
            "{\"type\":\"accept\",\"listenerId\":"@ + spec_dec(listener_id as nat)
                + ",\"socketId\":"@ + spec_dec(socket_id as nat) + ",\"remoteAddress\":"@
                + spec_json_string(remote_address@) + ",\"remotePort\":"@ + spec_dec(
                remote_port as nat,
            ) + "}"@
        },
        ControlEvent::Close { socket_id, had_error } => {
            "{\"type\":\"close\",\"socketId\":"@ + spec_dec(socket_id as nat) + ",\"hadError\":"@
                + spec_json_bool(had_error) + "}"@
        },
        ControlEvent::Error { socket_id, message } => {
            "{\"type\":\"error\",\"socketId\":"@ + spec_dec(socket_id as nat) + ",\"message\":"@
                + spec_json_string(message@) + "}"@
        },
    }
}

/// Encode a control event as JSON text, exactly as `spec_event_json` says.
pub fn control_event_json(e: &ControlEvent) -> (r: String)
    ensures
        r@ == spec_event_json(*e),
{
    let mut out = String::new();
    match e {
        ControlEvent::Listening { listener_id, port } => {
            out.append("{\"type\":\"listening\",\"listenerId\":");
            push_dec_u32(&mut out, *listener_id);
            out.append(",\"port\":");
            push_dec_u32(&mut out, *port as u32);
            out.append("}");
        },
        ControlEvent::ListenError { listener_id, error } => {
            out.append("{\"type\":\"listen_error\",\"listenerId\":");
            push_dec_u32(&mut out, *listener_id);
            out.append(",\"error\":");
            push_json_string(&mut out, error.as_str());
            out.append("}");
        },
        ControlEvent::Accept { listener_id, socket_id, remote_address, remote_port } => {
            out.append("{\"type\":\"accept\",\"listenerId\":");
            push_dec_u32(&mut out, *listener_id);
            out.append(",\"socketId\":");
            push_dec_u32(&mut out, *socket_id);
            out.append(",\"remoteAddress\":");
            push_json_string(&mut out, remote_address.as_str());
            out.append(",\"remotePort\":");
            push_dec_u32(&mut out, *remote_port as u32);
            out.append("}");
        },
        ControlEvent::Close { socket_id, had_error } => {
            out.append("{\"type\":\"close\",\"socketId\":");
            push_dec_u32(&mut out, *socket_id);
            out.append(",\"hadError\":");
            push_json_bool(&mut out, *had_error);
            out.append("}");
        },
        ControlEvent::Error { socket_id, message } => {
            out.append("{\"type\":\"error\",\"socketId\":");
            push_dec_u32(&mut out, *socket_id);
            out.append(",\"message\":");
            push_json_string(&mut out, message.as_str());
            out.append("}");
        },
    }
    proof {
        assert(out@ =~= spec_event_json(*e));
    }
    out
}

/// The four bytes of `n` in big-endian order.
pub open spec fn spec_u32_be(n: u32) -> Seq<u8> {
    seq![
        (n as nat / 0x1000000) as u8,
        ((n as nat / 0x10000) % 256) as u8,
        ((n as nat / 0x100) % 256) as u8,
        (n as nat % 256) as u8,
    ]
}

/// A data frame: the socket id in 4 big-endian bytes, then the payload,
/// byte for byte.
pub open spec fn spec_data_frame(socket_id: u32, payload: Seq<u8>) -> Seq<u8> {
    spec_u32_be(socket_id) + payload
}

/// The number held by four big-endian bytes.
pub open spec fn spec_be_u32(b: Seq<u8>) -> nat {
    (b[0] as nat) * 0x1000000 + (b[1] as nat) * 0x10000 + (b[2] as nat) * 0x100 + (b[3] as nat)
}

/// Encode a data frame for one socket: a 4-byte big-endian socket id prefix
/// followed by the raw payload, with no per-byte encoding overhead.
pub fn encode_data_frame(socket_id: u32, data: &[u8]) -> (frame: Vec<u8>)
    ensures
        frame@ == spec_data_frame(socket_id, data@),
        frame@.len() == 4 + data@.len(),
{
    let mut frame: Vec<u8> = Vec::new();
    frame.push((socket_id / 0x1000000) as u8);
    frame.push(((socket_id / 0x10000) % 256) as u8);
    frame.push(((socket_id / 0x100) % 256) as u8);
    frame.push((socket_id % 256) as u8);
    proof {
        assert(frame@ =~= spec_u32_be(socket_id));
    }
    let mut i: usize = 0;
    while i < data.len()
        invariant
            i <= data@.len(),
            frame@ == spec_u32_be(socket_id) + data@.take(i as int),
        decreases data@.len() - i,
    {
        frame.push(data[i]);
        proof {
            assert(spec_u32_be(socket_id) + data@.take(i as int) + seq![data@[i as int]]
                =~= spec_u32_be(socket_id) + data@.take(i as int + 1));
        }
        i = i + 1;
    }
    proof {
        assert(data@.take(data@.len() as int) =~= data@);
    }
    frame
}

/// Read the socket id back out of a data frame's 4-byte prefix.
pub fn decode_frame_socket_id(frame: &[u8]) -> (id: u32)
    requires
        frame@.len() >= 4,
    ensures
        id as nat == spec_be_u32(frame@.take(4)),
{
    let b0 = frame[0] as u32;
    let b1 = frame[1] as u32;
    let b2 = frame[2] as u32;
    let b3 = frame[3] as u32;
    b0 * 0x1000000 + b1 * 0x10000 + b2 * 0x100 + b3
}

/// Splitting a number into big-endian bytes and reassembling them gives the
/// number back.
pub proof fn lemma_u32_be_roundtrip(n: u32)
    ensures
        spec_be_u32(spec_u32_be(n)) == n as nat,
{
    let x = n as int;
    lemma_fundamental_div_mod(x, 256);
    lemma_fundamental_div_mod(x / 256, 256);
    lemma_fundamental_div_mod(x / 0x10000, 256);
    lemma_div_denominator(x, 256, 256);
    lemma_div_denominator(x, 0x10000, 256);
    assert(x == 0x1000000 * (x / 0x1000000) + 0x10000 * ((x / 0x10000) % 256) + 256 * ((x / 256)
        % 256) + (x % 256));
}

/// Law: a data frame carries its payload exactly — the frame is 4 bytes of
/// socket id followed by the payload bytes, with no truncation, duplication
/// or reordering, and the id prefix decodes back to the socket id.
pub proof fn lemma_data_frame_preserves_payload(socket_id: u32, payload: Seq<u8>)
    ensures
        spec_data_frame(socket_id, payload).len() == 4 + payload.len(),
        spec_data_frame(socket_id, payload).skip(4) == payload,
        spec_data_frame(socket_id, payload).take(4) == spec_u32_be(socket_id),
        spec_be_u32(spec_data_frame(socket_id, payload).take(4)) == socket_id as nat,
{
    lemma_u32_be_roundtrip(socket_id);
    assert(spec_data_frame(socket_id, payload).skip(4) =~= payload);
    assert(spec_data_frame(socket_id, payload).take(4) =~= spec_u32_be(socket_id));
}

} // verus!
