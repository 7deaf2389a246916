//! Reading messages back from bytes.
//!
//! Every reader starts at a position in a byte sequence and either yields a
//! value together with the position behind it, or says why the bytes are no
//! message. Bytes behind a complete payload are not looked at.

use crate::bytes::{get_le, le_value};
use crate::wire::{
    CommandModel, Request, RequestModel, Response, ResponseModel, WasmCommand, WireError, TAG_ERR,
    TAG_OK, TAG_REQUEST, TAG_SHUTDOWN,
};
use vstd::prelude::*;
use vstd::slice::slice_subrange;
use vstd::slice::slice_to_vec;
use vstd::utf8::*;

verus! {

/// `String::from_utf8` of the standard library: the text that `bytes`
/// spell in UTF-8, and `None` exactly when they are not well-formed UTF-8.
#[verifier::external_body]
pub(crate) fn string_from_utf8(bytes: Vec<u8>) -> (out: Option<String>)
    ensures
        out is Some <==> valid_utf8(bytes@),
        out is Some ==> out->0@ == decode_utf8(bytes@),
{
    String::from_utf8(bytes).ok()
}

/// An integer of `width` bytes at `at`.
pub open spec fn spec_take_le(s: Seq<u8>, at: int, width: int) -> Result<(nat, int), WireError> {
    if at + width <= s.len() {
        Ok((le_value(s.subrange(at, at + width)), at + width))
    } else {
        Err(WireError::Truncated)
    }
}

/// A byte string at `at`: eight bytes of length, then that many bytes.
pub open spec fn spec_take_bytes(s: Seq<u8>, at: int) -> Result<(Seq<u8>, int), WireError> {
    match spec_take_le(s, at, 8) {
        Err(e) => Err(e),
        Ok((n, next)) => if next + n <= s.len() {
            Ok((s.subrange(next, next + n), next + n))
        } else {
            Err(WireError::Truncated)
        },
    }
}

/// A text at `at`: a byte string that is well-formed UTF-8.
pub open spec fn spec_take_text(s: Seq<u8>, at: int) -> Result<(Seq<char>, int), WireError> {
    match spec_take_bytes(s, at) {
        Err(e) => Err(e),
        Ok((b, next)) => if valid_utf8(b) {
            Ok((decode_utf8(b), next))
        } else {
            Err(WireError::InvalidUtf8)
        },
    }
}

/// The fields of a request, from `at` on.
pub open spec fn spec_take_request(s: Seq<u8>, at: int) -> Result<RequestModel, WireError> {
    match spec_take_le(s, at, 8) {
        Err(e) => Err(e),
        Ok((id, a)) => match spec_take_text(s, a) {
            Err(e) => Err(e),
            Ok((module, b)) => match spec_take_bytes(s, b) {
                Err(e) => Err(e),
                Ok((data, _)) => Ok(RequestModel { id: id as u64, module, data }),
            },
        },
    }
}

/// The command that a payload holds.
pub open spec fn spec_decode_command(s: Seq<u8>) -> Result<CommandModel, WireError> {
    match spec_take_le(s, 0, 4) {
        Err(e) => Err(e),
        Ok((tag, at)) => if tag == TAG_SHUTDOWN {
            Ok(CommandModel::Shutdown)
        } else if tag == TAG_REQUEST {
            match spec_take_request(s, at) {
                Err(e) => Err(e),
                Ok(r) => Ok(CommandModel::Request(r)),
            }
        } else {
            Err(WireError::UnknownVariant)
        },
    }
}

/// The response that a payload holds.
pub open spec fn spec_decode_response(s: Seq<u8>) -> Result<ResponseModel, WireError> {
    match spec_take_le(s, 0, 8) {
        Err(e) => Err(e),
        Ok((id, a)) => match spec_take_le(s, a, 4) {
            Err(e) => Err(e),
            Ok((tag, b)) => if tag == TAG_OK {
                match spec_take_bytes(s, b) {
                    Err(e) => Err(e),
                    Ok((bytes, _)) => Ok(ResponseModel { id: id as u64, response: Ok(bytes) }),
                }
            } else if tag == TAG_ERR {
                match spec_take_text(s, b) {
                    Err(e) => Err(e),
                    Ok((text, _)) => Ok(ResponseModel { id: id as u64, response: Err(text) }),
                }
            } else {
                Err(WireError::UnknownVariant)
            },
        },
    }
}

/// Reads an integer of `width` bytes at `at`.
pub fn take_le(bytes: &[u8], at: usize, width: usize) -> (out: Result<(u64, usize), WireError>)
    requires
        width <= 8,
        at <= bytes@.len(),
    ensures
        match spec_take_le(bytes@, at as int, width as int) {
            Ok((v, next)) => out == Ok::<(u64, usize), WireError>((v as u64, next as usize))
                && v <= u64::MAX && next <= bytes@.len(),
            Err(e) => out == Err::<(u64, usize), WireError>(e),
        },
{
    let n: usize = bytes.len();
    if width > n - at {
        return Err(WireError::Truncated);
    }
    let v: u64 = get_le(bytes, at, width);
    Ok((v, at + width))
}

/// Reads a byte string at `at`.
pub fn take_bytes(bytes: &[u8], at: usize) -> (out: Result<(Vec<u8>, usize), WireError>)
    requires
        at <= bytes@.len(),
    ensures
        match spec_take_bytes(bytes@, at as int) {
            Ok((v, next)) => out is Ok && out->Ok_0.0@ == v && out->Ok_0.1 == next && next
                <= bytes@.len(),
            Err(e) => out == Err::<(Vec<u8>, usize), WireError>(e),
        },
{
    let total: usize = bytes.len();
    let (n, next) = match take_le(bytes, at, 8) {
        Ok(pair) => pair,
        Err(e) => {
            return Err(e);
        },
    };
    if n > (total - next) as u64 {
        return Err(WireError::Truncated);
    }
    let len: usize = n as usize;
    let body = slice_to_vec(slice_subrange(bytes, next, next + len));
    Ok((body, next + len))
}

/// Reads a text at `at`.
pub fn take_text(bytes: &[u8], at: usize) -> (out: Result<(String, usize), WireError>)
    requires
        at <= bytes@.len(),
    ensures
        match spec_take_text(bytes@, at as int) {
            Ok((v, next)) => out is Ok && out->Ok_0.0@ == v && out->Ok_0.1 == next && next
                <= bytes@.len(),
            Err(e) => out == Err::<(String, usize), WireError>(e),
        },
{
    let (raw, next) = match take_bytes(bytes, at) {
        Ok(pair) => pair,
        Err(e) => {
            return Err(e);
        },
    };
    match string_from_utf8(raw) {
        Some(text) => Ok((text, next)),
        None => Err(WireError::InvalidUtf8),
    }
}

/// Reads the command that `payload` holds.
pub fn decode_command(payload: &[u8]) -> (out: Result<WasmCommand, WireError>)
    ensures
        match spec_decode_command(payload@) {
            Ok(c) => out is Ok && out->Ok_0@ == c,
            Err(e) => out == Err::<WasmCommand, WireError>(e),
        },
{
    let (tag, at) = match take_le(payload, 0, 4) {
        Ok(pair) => pair,
        Err(e) => {
            return Err(e);
        },
    };
    if tag == TAG_SHUTDOWN {
        return Ok(WasmCommand::Shutdown);
    }
    if tag != TAG_REQUEST {
        return Err(WireError::UnknownVariant);
    }
    let (id, a) = match take_le(payload, at, 8) {
        Ok(pair) => pair,
        Err(e) => {
            return Err(e);
        },
    };
    let (module, b) = match take_text(payload, a) {
        Ok(pair) => pair,
        Err(e) => {
            return Err(e);
        },
    };
    let (data, _) = match take_bytes(payload, b) {
        Ok(pair) => pair,
        Err(e) => {
            return Err(e);
        },
    };
    Ok(WasmCommand::Request(Request { id, module, data }))
}

/// Reads the response that `payload` holds.
pub fn decode_response(payload: &[u8]) -> (out: Result<Response, WireError>)
    ensures
        match spec_decode_response(payload@) {
            Ok(r) => out is Ok && out->Ok_0@ == r,
            Err(e) => out == Err::<Response, WireError>(e),
        },
{
    let (id, a) = match take_le(payload, 0, 8) {
        Ok(pair) => pair,
        Err(e) => {
            return Err(e);
        },
    };
    let (tag, b) = match take_le(payload, a, 4) {
        Ok(pair) => pair,
        Err(e) => {
            return Err(e);
        },
    };
    if tag == TAG_OK {
        match take_bytes(payload, b) {
            Ok((bytes, _)) => Ok(Response { id, response: Ok(bytes) }),
            Err(e) => Err(e),
        }
    } else if tag == TAG_ERR {
        match take_text(payload, b) {
            Ok((text, _)) => Ok(Response { id, response: Err(text) }),
            Err(e) => Err(e),
        }
    } else {
        Err(WireError::UnknownVariant)
    }
}

} // verus!
