//! What holds of one call from end to end.

use crate::bytes::{lemma_le_bytes_len, lemma_pow256_values};
use crate::driver::{spec_settle, spec_submit, spec_waiter, DriverState, Phase};
use crate::executor::{
    lemma_echo_returns_input, spec_begin, spec_begin_error, spec_finish, spec_guest_read,
    spec_guest_write, StepState,
};
use crate::pipe::spec_front;
use crate::roundtrip::{
    command_fits, fits_length, lemma_command_frame_round_trip, lemma_response_frame_round_trip,
};
use crate::stream::{spec_get_request, spec_read_response};
use crate::wire::{
    spec_encode_command, spec_encode_response, spec_frame, CommandModel, RequestModel,
    ResponseModel, WireError,
};
use vstd::prelude::*;

verus! {

/// The request that a driver in state `s` sends for `payload`.
pub open spec fn spec_request(s: DriverState, module: Seq<char>, payload: Seq<u8>) -> RequestModel {
    RequestModel { id: s.current_id, module, data: payload }
}

/// The state of a module after a guest that writes back what it reads has
/// been called with `payload`.
pub open spec fn spec_echoed(step: StepState, payload: Seq<u8>) -> StepState {
    let begun = spec_begin(step, payload);
    let input = spec_front(begun.stdin, payload.len());
    spec_guest_write(spec_guest_read(begun, payload.len()), input)
}

/// A payload that is run through a module that echoes its input comes back
/// as it went out. The frame that the host sends is read by the runtime as
/// the request that was meant; the module's output is the payload; the
/// frame that the runtime sends is read by the host as the answer with the
/// request's id; and under this id waits the caller who asked, and nobody
/// after the answer was handed over.
pub proof fn lemma_echo_run_round_trip(
    s: DriverState,
    step: StepState,
    waiter: u64,
    module: Seq<char>,
    payload: Seq<u8>,
    behind_request: Seq<u8>,
    behind_response: Seq<u8>,
)
    requires
        s.phase == Phase::Accepting,
        spec_begin_error(step, payload) is None,
        command_fits(CommandModel::Request(spec_request(s, module, payload))),
        fits_length(
            spec_encode_command(CommandModel::Request(spec_request(s, module, payload))).len(),
        ),
    ensures
        ({
            let request = spec_request(s, module, payload);
            let sent = spec_frame(spec_encode_command(CommandModel::Request(request)));
            let answer = ResponseModel {
                id: request.id,
                response: Ok(spec_echoed(step, payload).stdout),
            };
            let back = spec_frame(spec_encode_response(answer));
            let waiting = spec_submit(s, waiter);
            &&& spec_get_request(sent + behind_request) == Ok::<
                Option<(RequestModel, int)>,
                WireError,
            >(Some((request, sent.len() as int)))
            &&& spec_echoed(step, payload).stdout == payload
            &&& !spec_finish(spec_echoed(step, payload)).running
            &&& spec_read_response(back + behind_response) == Ok::<
                Option<(ResponseModel, int)>,
                WireError,
            >(Some((answer, back.len() as int)))
            &&& answer.response == Ok::<Seq<u8>, Seq<char>>(payload)
            &&& spec_waiter(waiting, answer.id) == Some(waiter)
            &&& spec_waiter(spec_settle(waiting, answer.id), answer.id) == None::<u64>
        }),
{
    let request = spec_request(s, module, payload);
    let command = CommandModel::Request(request);
    lemma_command_frame_round_trip(command, behind_request);
    lemma_le_bytes_len(spec_encode_command(command).len(), 8);
    lemma_echo_returns_input(step, payload);
    let answer = ResponseModel { id: request.id, response: Ok(payload) };
    lemma_pow256_values();
    lemma_le_bytes_len(request.id as nat, 8);
    lemma_le_bytes_len(0, 4);
    lemma_le_bytes_len(payload.len(), 8);
    assert(spec_encode_response(answer).len() == 20 + payload.len());
    lemma_response_frame_round_trip(answer, behind_response);
    lemma_le_bytes_len(spec_encode_response(answer).len(), 8);
}

} // verus!
