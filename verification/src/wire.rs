//! The messages exchanged between host and runtime, and their byte layout.
//!
//! A message travels as a frame: eight bytes that hold the payload's length,
//! least significant first, and then the payload. Inside a payload every
//! integer has a fixed width and is little-endian, a variant is a 32-bit tag,
//! and a byte string or a text is a 64-bit length followed by its bytes.

use crate::bytes::{le_bytes, put_le};
use vstd::prelude::*;
use vstd::utf8::*;

verus! {

/// Tag of [`WasmCommand::Shutdown`].
pub const TAG_SHUTDOWN: u64 = 0;

/// Tag of [`WasmCommand::Request`].
pub const TAG_REQUEST: u64 = 1;

/// Tag of a successful result.
pub const TAG_OK: u64 = 0;

/// Tag of a failed result.
pub const TAG_ERR: u64 = 1;

/// Why a sequence of bytes is not a message.
#[derive(Clone, Copy, Debug, PartialEq, Eq, Structural)]
pub enum WireError {
    /// The bytes end before the message does.
    Truncated,
    /// A variant tag names no variant.
    UnknownVariant,
    /// A text is not UTF-8.
    InvalidUtf8,
    /// A frame announces more bytes than this machine can address.
    TooLarge,
}

/// One unit of work for the runtime.
#[derive(Debug, PartialEq, Eq)]
pub struct Request {
    /// Chosen by the host; unique among the requests still in flight.
    pub id: u64,
    /// Names the guest module that is to run.
    pub module: String,
    /// The module's input.
    pub data: Vec<u8>,
}

/// What the host tells the runtime.
#[derive(Debug, PartialEq, Eq)]
pub enum WasmCommand {
    /// Accept no more requests, finish those under way, and exit.
    Shutdown,
    /// Run a module on some input.
    Request(Request),
}

/// What the runtime answers to one request.
#[derive(Debug, PartialEq, Eq)]
pub struct Response {
    /// The id of the request that this answers.
    pub id: u64,
    /// The module's output, or the reason why there is none.
    pub response: Result<Vec<u8>, String>,
}

/// A request as a mathematical value.
pub ghost struct RequestModel {
    pub id: u64,
    pub module: Seq<char>,
    pub data: Seq<u8>,
}

/// A command as a mathematical value.
pub ghost enum CommandModel {
    Shutdown,
    Request(RequestModel),
}

/// A response as a mathematical value.
pub ghost struct ResponseModel {
    pub id: u64,
    pub response: Result<Seq<u8>, Seq<char>>,
}

impl View for Request {
    type V = RequestModel;

    open spec fn view(&self) -> RequestModel {
        RequestModel { id: self.id, module: self.module@, data: self.data@ }
    }
}

impl View for WasmCommand {
    type V = CommandModel;

    open spec fn view(&self) -> CommandModel {
        match self {
            WasmCommand::Shutdown => CommandModel::Shutdown,
            WasmCommand::Request(r) => CommandModel::Request(r@),
        }
    }
}

impl View for Response {
    type V = ResponseModel;

    open spec fn view(&self) -> ResponseModel {
        ResponseModel {
            id: self.id,
            response: match self.response {
                Ok(bytes) => Ok(bytes@),
                Err(text) => Err(text@),
            },
        }
    }
}

/// A byte string on the wire: its length in eight bytes, then the bytes.
pub open spec fn spec_encode_bytes(b: Seq<u8>) -> Seq<u8> {
    le_bytes(b.len(), 8) + b
}

/// A text on the wire: its UTF-8 form as a byte string.
pub open spec fn spec_encode_text(t: Seq<char>) -> Seq<u8> {
    spec_encode_bytes(encode_utf8(t))
}

/// The payload of a command.
pub open spec fn spec_encode_command(c: CommandModel) -> Seq<u8> {
    match c {
        CommandModel::Shutdown => le_bytes(TAG_SHUTDOWN as nat, 4),
        CommandModel::Request(r) => le_bytes(TAG_REQUEST as nat, 4) + le_bytes(r.id as nat, 8)
            + spec_encode_text(r.module) + spec_encode_bytes(r.data),
    }
}

/// The payload of a response.
pub open spec fn spec_encode_response(r: ResponseModel) -> Seq<u8> {
    le_bytes(r.id as nat, 8) + match r.response {
        Ok(bytes) => le_bytes(TAG_OK as nat, 4) + spec_encode_bytes(bytes),
        Err(text) => le_bytes(TAG_ERR as nat, 4) + spec_encode_text(text),
    }
}

/// A payload with its length in front.
pub open spec fn spec_frame(payload: Seq<u8>) -> Seq<u8> {
    le_bytes(payload.len(), 8) + payload
}

/// Appends a byte string in its wire form.
pub fn put_bytes(buf: &mut Vec<u8>, b: &[u8])
    ensures
        final(buf)@ == old(buf)@ + spec_encode_bytes(b@),
{
    let n: usize = b.len();
    put_le(buf, n as u64, 8);
    buf.extend_from_slice(b);
    assert(buf@ =~= old(buf)@ + spec_encode_bytes(b@));
}

/// Appends a text in its wire form.
pub fn put_text(buf: &mut Vec<u8>, t: &str)
    ensures
        final(buf)@ == old(buf)@ + spec_encode_text(t@),
{
    put_bytes(buf, t.as_bytes());
}

/// The payload of `cmd`.
pub fn command_payload(cmd: &WasmCommand) -> (out: Vec<u8>)
    ensures
        out@ == spec_encode_command(cmd@),
{
    let mut out: Vec<u8> = Vec::new();
    match cmd {
        WasmCommand::Shutdown => {
            put_le(&mut out, TAG_SHUTDOWN, 4);
            assert(out@ =~= spec_encode_command(cmd@));
        },
        WasmCommand::Request(r) => {
            put_le(&mut out, TAG_REQUEST, 4);
            put_le(&mut out, r.id, 8);
            put_text(&mut out, r.module.as_str());
            put_bytes(&mut out, r.data.as_slice());
            assert(out@ =~= spec_encode_command(cmd@));
        },
    }
    out
}

/// The payload of `resp`.
pub fn response_payload(resp: &Response) -> (out: Vec<u8>)
    ensures
        out@ == spec_encode_response(resp@),
{
    let mut out: Vec<u8> = Vec::new();
    put_le(&mut out, resp.id, 8);
    match &resp.response {
        Ok(bytes) => {
            put_le(&mut out, TAG_OK, 4);
            put_bytes(&mut out, bytes.as_slice());
            assert(out@ =~= spec_encode_response(resp@));
        },
        Err(text) => {
            put_le(&mut out, TAG_ERR, 4);
            put_text(&mut out, text.as_str());
            assert(out@ =~= spec_encode_response(resp@));
        },
    }
    out
}

/// Puts the length of `payload` in front of it.
pub fn frame(payload: &[u8]) -> (out: Vec<u8>)
    ensures
        out@ == spec_frame(payload@),
{
    let mut out: Vec<u8> = Vec::new();
    put_bytes(&mut out, payload);
    assert(out@ =~= spec_frame(payload@));
    out
}

/// The frame that carries `cmd` to the runtime.
pub fn encode_command(cmd: &WasmCommand) -> (out: Vec<u8>)
    ensures
        out@ == spec_frame(spec_encode_command(cmd@)),
{
    let payload = command_payload(cmd);
    frame(payload.as_slice())
}

/// The frame that carries `resp` to the host.
pub fn encode_response(resp: &Response) -> (out: Vec<u8>)
    ensures
        out@ == spec_frame(spec_encode_response(resp@)),
{
    let payload = response_payload(resp);
    frame(payload.as_slice())
}

} // verus!
