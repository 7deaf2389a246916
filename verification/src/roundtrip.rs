//! What is written can be read back.
//!
//! Each law takes a message, the bytes that the encoder gives for it, and any
//! bytes that may follow, and states that the reader finds the message again
//! and stops right behind it.

use crate::bytes::{
    le_bytes, lemma_le_bytes_len, lemma_le_value_of_bytes, lemma_pow256_values, pow256,
};
use crate::decode::{
    spec_decode_command, spec_decode_response, spec_take_bytes, spec_take_le, spec_take_request,
    spec_take_text,
};
use crate::stream::{spec_get_request, spec_read_command, spec_read_response, spec_split_frame};
use crate::wire::{
    spec_encode_bytes, spec_encode_command, spec_encode_response, spec_encode_text, spec_frame,
    CommandModel, RequestModel, ResponseModel, TAG_ERR, TAG_OK, TAG_REQUEST, TAG_SHUTDOWN,
};
use vstd::prelude::*;
use vstd::utf8::*;

verus! {

/// The largest length that eight bytes can announce.
pub open spec fn fits_length(n: nat) -> bool {
    n < pow256(8)
}

/// A command whose text and input are short enough to be announced.
pub open spec fn command_fits(c: CommandModel) -> bool {
    match c {
        CommandModel::Shutdown => true,
        CommandModel::Request(r) => fits_length(encode_utf8(r.module).len()) && fits_length(
            r.data.len(),
        ),
    }
}

/// A response whose output or message is short enough to be announced.
pub open spec fn response_fits(r: ResponseModel) -> bool {
    match r.response {
        Ok(bytes) => fits_length(bytes.len()),
        Err(text) => fits_length(encode_utf8(text).len()),
    }
}

/// An integer written between `pre` and `post` is read back at `pre`'s end.
pub proof fn lemma_take_le_after_put(pre: Seq<u8>, x: nat, width: nat, post: Seq<u8>)
    requires
        x < pow256(width),
    ensures
        spec_take_le(pre + le_bytes(x, width) + post, pre.len() as int, width as int) == Ok::<
            (nat, int),
            crate::wire::WireError,
        >((x, (pre.len() + width) as int)),
{
    let s = pre + le_bytes(x, width) + post;
    lemma_le_bytes_len(x, width);
    lemma_le_value_of_bytes(x, width);
    assert(s.subrange(pre.len() as int, (pre.len() + width) as int) =~= le_bytes(x, width));
}

/// A byte string written between `pre` and `post` is read back at `pre`'s end.
pub proof fn lemma_take_bytes_after_put(pre: Seq<u8>, b: Seq<u8>, post: Seq<u8>)
    requires
        fits_length(b.len()),
    ensures
        spec_encode_bytes(b).len() == 8 + b.len(),
        spec_take_bytes(pre + spec_encode_bytes(b) + post, pre.len() as int) == Ok::<
            (Seq<u8>, int),
            crate::wire::WireError,
        >((b, (pre.len() + 8 + b.len()) as int)),
{
    let s = pre + spec_encode_bytes(b) + post;
    lemma_le_bytes_len(b.len(), 8);
    lemma_take_le_after_put(pre, b.len(), 8, b + post);
    assert(s =~= pre + le_bytes(b.len(), 8) + (b + post));
    assert(s.subrange((pre.len() + 8) as int, (pre.len() + 8 + b.len()) as int) =~= b);
}

/// A text written between `pre` and `post` is read back at `pre`'s end.
pub proof fn lemma_take_text_after_put(pre: Seq<u8>, t: Seq<char>, post: Seq<u8>)
    requires
        fits_length(encode_utf8(t).len()),
    ensures
        spec_encode_text(t).len() == 8 + encode_utf8(t).len(),
        spec_take_text(pre + spec_encode_text(t) + post, pre.len() as int) == Ok::<
            (Seq<char>, int),
            crate::wire::WireError,
        >((t, (pre.len() + 8 + encode_utf8(t).len()) as int)),
{
    lemma_take_bytes_after_put(pre, encode_utf8(t), post);
    encode_utf8_valid_utf8(t);
    encode_utf8_decode_utf8(t);
}

/// Decoding the payload of a command gives the command, whatever follows.
pub proof fn lemma_command_round_trip(c: CommandModel, rest: Seq<u8>)
    requires
        command_fits(c),
    ensures
        spec_decode_command(spec_encode_command(c) + rest) == Ok::<
            CommandModel,
            crate::wire::WireError,
        >(c),
{
    lemma_pow256_values();
    let s = spec_encode_command(c) + rest;
    let none = Seq::<u8>::empty();
    match c {
        CommandModel::Shutdown => {
            lemma_take_le_after_put(none, TAG_SHUTDOWN as nat, 4, rest);
            assert(s =~= none + le_bytes(TAG_SHUTDOWN as nat, 4) + rest);
        },
        CommandModel::Request(r) => {
            let tag = le_bytes(TAG_REQUEST as nat, 4);
            let id = le_bytes(r.id as nat, 8);
            let module = spec_encode_text(r.module);
            let data = spec_encode_bytes(r.data);
            lemma_le_bytes_len(TAG_REQUEST as nat, 4);
            lemma_le_bytes_len(r.id as nat, 8);
            lemma_take_le_after_put(none, TAG_REQUEST as nat, 4, id + module + data + rest);
            assert(s =~= none + tag + (id + module + data + rest));
            lemma_take_le_after_put(tag, r.id as nat, 8, module + data + rest);
            assert(s =~= tag + id + (module + data + rest));
            lemma_take_text_after_put(tag + id, r.module, data + rest);
            assert(s =~= (tag + id) + module + (data + rest));
            lemma_take_bytes_after_put(tag + id + module, r.data, rest);
            assert(s =~= (tag + id + module) + data + rest);
            assert(spec_take_request(s, 4) == Ok::<RequestModel, crate::wire::WireError>(r));
        },
    }
}

/// Decoding the payload of a response gives the response, whatever follows.
pub proof fn lemma_response_round_trip(r: ResponseModel, rest: Seq<u8>)
    requires
        response_fits(r),
    ensures
        spec_decode_response(spec_encode_response(r) + rest) == Ok::<
            ResponseModel,
            crate::wire::WireError,
        >(r),
{
    lemma_pow256_values();
    let s = spec_encode_response(r) + rest;
    let none = Seq::<u8>::empty();
    let id = le_bytes(r.id as nat, 8);
    lemma_le_bytes_len(r.id as nat, 8);
    match r.response {
        Ok(bytes) => {
            let tag = le_bytes(TAG_OK as nat, 4);
            let body = spec_encode_bytes(bytes);
            lemma_le_bytes_len(TAG_OK as nat, 4);
            lemma_take_le_after_put(none, r.id as nat, 8, tag + body + rest);
            assert(s =~= none + id + (tag + body + rest));
            lemma_take_le_after_put(id, TAG_OK as nat, 4, body + rest);
            assert(s =~= id + tag + (body + rest));
            lemma_take_bytes_after_put(id + tag, bytes, rest);
            assert(s =~= (id + tag) + body + rest);
        },
        Err(text) => {
            let tag = le_bytes(TAG_ERR as nat, 4);
            let body = spec_encode_text(text);
            lemma_le_bytes_len(TAG_ERR as nat, 4);
            lemma_take_le_after_put(none, r.id as nat, 8, tag + body + rest);
            assert(s =~= none + id + (tag + body + rest));
            lemma_take_le_after_put(id, TAG_ERR as nat, 4, body + rest);
            assert(s =~= id + tag + (body + rest));
            lemma_take_text_after_put(id + tag, text, rest);
            assert(s =~= (id + tag) + body + rest);
        },
    }
}

/// The first frame of a stream that starts with a frame is that frame.
pub proof fn lemma_frame_round_trip(payload: Seq<u8>, rest: Seq<u8>)
    requires
        fits_length(payload.len()),
    ensures
        spec_frame(payload).len() == 8 + payload.len(),
        spec_split_frame(spec_frame(payload) + rest) == Ok::<
            Option<(Seq<u8>, int)>,
            crate::wire::WireError,
        >(Some((payload, (8 + payload.len()) as int))),
{
    let s = spec_frame(payload) + rest;
    let none = Seq::<u8>::empty();
    lemma_le_bytes_len(payload.len(), 8);
    lemma_take_le_after_put(none, payload.len(), 8, payload + rest);
    assert(s =~= none + le_bytes(payload.len(), 8) + (payload + rest));
    assert(s.subrange(8, (8 + payload.len()) as int) =~= payload);
}

/// A command sent as a frame is the command that the runtime reads, and the
/// runtime stops reading right behind it.
pub proof fn lemma_command_frame_round_trip(c: CommandModel, rest: Seq<u8>)
    requires
        command_fits(c),
        fits_length(spec_encode_command(c).len()),
    ensures
        spec_read_command(spec_frame(spec_encode_command(c)) + rest) == Ok::<
            Option<(CommandModel, int)>,
            crate::wire::WireError,
        >(Some((c, (8 + spec_encode_command(c).len()) as int))),
        spec_get_request(spec_frame(spec_encode_command(c)) + rest) == match c {
            CommandModel::Shutdown => Ok::<Option<(RequestModel, int)>, crate::wire::WireError>(
                None,
            ),
            CommandModel::Request(r) => Ok(Some((r, (8 + spec_encode_command(c).len()) as int))),
        },
{
    let payload = spec_encode_command(c);
    lemma_frame_round_trip(payload, rest);
    lemma_command_round_trip(c, Seq::<u8>::empty());
    assert(payload + Seq::<u8>::empty() =~= payload);
}

/// A response sent as a frame is the response that the host reads, and the
/// host stops reading right behind it.
pub proof fn lemma_response_frame_round_trip(r: ResponseModel, rest: Seq<u8>)
    requires
        response_fits(r),
        fits_length(spec_encode_response(r).len()),
    ensures
        spec_read_response(spec_frame(spec_encode_response(r)) + rest) == Ok::<
            Option<(ResponseModel, int)>,
            crate::wire::WireError,
        >(Some((r, (8 + spec_encode_response(r).len()) as int))),
{
    let payload = spec_encode_response(r);
    lemma_frame_round_trip(payload, rest);
    lemma_response_round_trip(r, Seq::<u8>::empty());
    assert(payload + Seq::<u8>::empty() =~= payload);
}

} // verus!
