//! Frames at the front of a byte stream.
//!
//! A stream that ends before its first byte is closed, which is no fault.
//! A stream that ends anywhere else inside a frame is broken.

use crate::bytes::le_value;
use crate::decode::{decode_command, decode_response, spec_decode_command, spec_decode_response, take_le};
use crate::wire::{CommandModel, Request, RequestModel, Response, ResponseModel, WasmCommand, WireError};
use vstd::prelude::*;
use vstd::slice::slice_subrange;

verus! {

/// Width of the length that stands in front of every payload.
pub const PREFIX_LEN: usize = 8;

/// The payload length that the front of a stream announces; `None` for a
/// stream that holds nothing at all.
pub open spec fn spec_frame_length(prefix: Seq<u8>) -> Result<Option<nat>, WireError> {
    if prefix.len() == 0 {
        Ok(None)
    } else if prefix.len() < 8 {
        Err(WireError::Truncated)
    } else {
        Ok(Some(le_value(prefix.subrange(0, 8))))
    }
}

/// The first payload of a stream and the position behind it.
pub open spec fn spec_split_frame(stream: Seq<u8>) -> Result<Option<(Seq<u8>, int)>, WireError> {
    match spec_frame_length(stream) {
        Err(e) => Err(e),
        Ok(None) => Ok(None),
        Ok(Some(n)) => if 8 + n <= stream.len() {
            Ok(Some((stream.subrange(8, 8 + n as int), 8 + n as int)))
        } else {
            Err(WireError::Truncated)
        },
    }
}

/// The first response of a stream and the position behind it.
pub open spec fn spec_read_response(stream: Seq<u8>) -> Result<
    Option<(ResponseModel, int)>,
    WireError,
> {
    match spec_split_frame(stream) {
        Err(e) => Err(e),
        Ok(None) => Ok(None),
        Ok(Some((payload, end))) => match spec_decode_response(payload) {
            Err(e) => Err(e),
            Ok(r) => Ok(Some((r, end))),
        },
    }
}

/// The first command of a stream and the position behind it.
pub open spec fn spec_read_command(stream: Seq<u8>) -> Result<
    Option<(CommandModel, int)>,
    WireError,
> {
    match spec_split_frame(stream) {
        Err(e) => Err(e),
        Ok(None) => Ok(None),
        Ok(Some((payload, end))) => match spec_decode_command(payload) {
            Err(e) => Err(e),
            Ok(c) => Ok(Some((c, end))),
        },
    }
}

/// The first request of a stream; `None` where the stream is closed or
/// its first command asks to shut down.
pub open spec fn spec_get_request(stream: Seq<u8>) -> Result<
    Option<(RequestModel, int)>,
    WireError,
> {
    match spec_read_command(stream) {
        Err(e) => Err(e),
        Ok(None) => Ok(None),
        Ok(Some((CommandModel::Shutdown, _))) => Ok(None),
        Ok(Some((CommandModel::Request(r), end))) => Ok(Some((r, end))),
    }
}

/// Reads the payload length from what could be read of a frame's first
/// eight bytes before the stream ended.
pub fn frame_length(prefix: &[u8]) -> (out: Result<Option<usize>, WireError>)
    ensures
        match spec_frame_length(prefix@) {
            Err(e) => out == Err::<Option<usize>, WireError>(e),
            Ok(None) => out == Ok::<Option<usize>, WireError>(None),
            Ok(Some(n)) => if n <= usize::MAX {
                out == Ok::<Option<usize>, WireError>(Some(n as usize))
            } else {
                out == Err::<Option<usize>, WireError>(WireError::TooLarge)
            },
        },
{
    let have: usize = prefix.len();
    if have == 0 {
        return Ok(None);
    }
    match take_le(prefix, 0, PREFIX_LEN) {
        Err(e) => Err(e),
        Ok((n, _)) => {
            if n > usize::MAX as u64 {
                Err(WireError::TooLarge)
            } else {
                Ok(Some(n as usize))
            }
        },
    }
}

/// Finds the end of the first frame of `stream`; its payload starts at
/// [`PREFIX_LEN`].
pub fn split_frame(stream: &[u8]) -> (out: Result<Option<usize>, WireError>)
    ensures
        match (spec_split_frame(stream@), out) {
            (Err(e), Err(got)) => got == e,
            (Ok(None), Ok(None)) => true,
            (Ok(Some((_, end))), Ok(Some(got))) => got == end && 8 <= got <= stream@.len(),
            _ => false,
        },
{
    let total: usize = stream.len();
    match frame_length(stream) {
        Err(WireError::TooLarge) => Err(WireError::Truncated),
        Err(e) => Err(e),
        Ok(None) => Ok(None),
        Ok(Some(n)) => {
            if n > total - PREFIX_LEN {
                Err(WireError::Truncated)
            } else {
                Ok(Some(PREFIX_LEN + n))
            }
        },
    }
}

/// Reads the first response of `stream`: `None` where the stream is closed,
/// else the response and the number of bytes it took.
pub fn read_response(stream: &[u8]) -> (out: Result<Option<(Response, usize)>, WireError>)
    ensures
        match (spec_read_response(stream@), out) {
            (Err(e), Err(got)) => got == e,
            (Ok(None), Ok(None)) => true,
            (Ok(Some((r, end))), Ok(Some((got, used)))) => got@ == r && used == end,
            _ => false,
        },
{
    let end = match split_frame(stream) {
        Err(e) => {
            return Err(e);
        },
        Ok(None) => {
            return Ok(None);
        },
        Ok(Some(end)) => end,
    };
    match decode_response(slice_subrange(stream, PREFIX_LEN, end)) {
        Err(e) => Err(e),
        Ok(r) => Ok(Some((r, end))),
    }
}

/// Reads the first command of `stream`: `None` where the stream is closed,
/// else the command and the number of bytes it took.
pub fn read_command(stream: &[u8]) -> (out: Result<Option<(WasmCommand, usize)>, WireError>)
    ensures
        match (spec_read_command(stream@), out) {
            (Err(e), Err(got)) => got == e,
            (Ok(None), Ok(None)) => true,
            (Ok(Some((c, end))), Ok(Some((got, used)))) => got@ == c && used == end,
            _ => false,
        },
{
    let end = match split_frame(stream) {
        Err(e) => {
            return Err(e);
        },
        Ok(None) => {
            return Ok(None);
        },
        Ok(Some(end)) => end,
    };
    match decode_command(slice_subrange(stream, PREFIX_LEN, end)) {
        Err(e) => Err(e),
        Ok(c) => Ok(Some((c, end))),
    }
}

/// Reads the next request of `stream`: `None` where the stream is closed or
/// the host asks to shut down, else the request and the number of bytes it
/// took.
pub fn get_request(stream: &[u8]) -> (out: Result<Option<(Request, usize)>, WireError>)
    ensures
        match (spec_get_request(stream@), out) {
            (Err(e), Err(got)) => got == e,
            (Ok(None), Ok(None)) => true,
            (Ok(Some((r, end))), Ok(Some((got, used)))) => got@ == r && used == end,
            _ => false,
        },
{
    match read_command(stream) {
        Err(e) => Err(e),
        Ok(None) => Ok(None),
        Ok(Some((WasmCommand::Shutdown, _))) => Ok(None),
        Ok(Some((WasmCommand::Request(r), end))) => Ok(Some((r, end))),
    }
}

} // verus!
