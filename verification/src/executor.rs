//! One guest module and the calls into it.
//!
//! A call goes in three steps. `begin` stages the input: it replaces what
//! the guest's input queue held, empties the output queue, and says with
//! how many bytes the guest is to be entered. Then the guest runs, reading its input queue and filling
//! its output queue. `finish` takes the output and reads it by the status
//! that the guest returned. Between `begin` and `finish` the module is
//! busy, and no second call can begin. What a call hands out is what the
//! guest wrote during that call and nothing else: a guest that fails
//! without a status leaves nothing behind for the calls after it.

use crate::pipe::{spec_behind, spec_front, ReadWritePipe};
use vstd::prelude::*;
use vstd::utf8::*;

verus! {

/// The name under which a guest module exports its entry point.
pub const ENTRY_POINT: &'static str = "__ddns_step_main__";

/// Seconds between two rounds of giving back unused memory.
pub const GC_PERIOD_SECS: u64 = 120;

/// The status with which a guest reports success.
pub const STATUS_OK: i32 = 0;

/// Why a call cannot begin.
#[derive(Clone, Copy, Debug, PartialEq, Eq, Structural)]
pub enum ExecError {
    /// The input has more bytes than the guest can be told.
    CapacityOverflow,
    /// Another call into this module is under way.
    Busy,
}

/// The text that `String::from_utf8_lossy` makes of `bytes`.
pub uninterp spec fn lossy_text(bytes: Seq<u8>) -> Seq<char>;

/// `String::from_utf8_lossy` of the standard library, made an owned text:
/// for well-formed UTF-8 it is the text that the bytes spell.
#[verifier::external_body]
fn string_from_utf8_lossy(bytes: &[u8]) -> (text: String)
    ensures
        text@ == lossy_text(bytes@),
        valid_utf8(bytes@) ==> text@ == decode_utf8(bytes@),
{
    String::from_utf8_lossy(bytes).into_owned()
}

/// The number that a guest is told for the input `data`: its length, which
/// has to fit 32 bits.
pub fn input_length(data: &[u8]) -> (out: Result<u32, ExecError>)
    ensures
        data@.len() <= u32::MAX ==> out == Ok::<u32, ExecError>(data@.len() as u32),
        data@.len() > u32::MAX ==> out == Err::<u32, ExecError>(ExecError::CapacityOverflow),
{
    let len: usize = data.len();
    if len > u32::MAX as usize {
        Err(ExecError::CapacityOverflow)
    } else {
        Ok(len as u32)
    }
}

/// The two queues of a guest module.
pub struct SharedCtx {
    stdout_pipe: ReadWritePipe,
    stdin_pipe: ReadWritePipe,
}

impl SharedCtx {
    /// What waits for the guest to read.
    pub closed spec fn stdin(&self) -> Seq<u8> {
        self.stdin_pipe@
    }

    /// What the guest has written and the host has not taken.
    pub closed spec fn stdout(&self) -> Seq<u8> {
        self.stdout_pipe@
    }

    /// Two empty queues.
    pub fn new() -> (ctx: Self)
        ensures
            ctx.stdin() == Seq::<u8>::empty(),
            ctx.stdout() == Seq::<u8>::empty(),
    {
        SharedCtx { stdout_pipe: ReadWritePipe::new(), stdin_pipe: ReadWritePipe::new() }
    }

    /// Gives back the memory that the queues hold beyond their content.
    /// What waits in them stays as it is.
    pub fn gc(&mut self)
        ensures
            final(self).stdin() == old(self).stdin(),
            final(self).stdout() == old(self).stdout(),
    {
        self.stdin_pipe.gc();
        self.stdout_pipe.gc();
    }
}

/// A guest module as a mathematical value.
pub ghost struct StepState {
    pub stdin: Seq<u8>,
    pub stdout: Seq<u8>,
    /// Whether a call is under way.
    pub running: bool,
}

/// Whether a call with `data` can begin in `s`, and if not, why.
pub open spec fn spec_begin_error(s: StepState, data: Seq<u8>) -> Option<ExecError> {
    if data.len() > u32::MAX {
        Some(ExecError::CapacityOverflow)
    } else if s.running {
        Some(ExecError::Busy)
    } else {
        None
    }
}

/// The state after `begin` was called with `data`: the input is `data`,
/// and the output starts empty, whatever was left there.
pub open spec fn spec_begin(s: StepState, data: Seq<u8>) -> StepState {
    if spec_begin_error(s, data) is None {
        StepState { stdin: data, stdout: Seq::empty(), running: true }
    } else {
        s
    }
}

/// The state after the guest read up to `amount` bytes of its input.
pub open spec fn spec_guest_read(s: StepState, amount: nat) -> StepState {
    StepState { stdin: spec_behind(s.stdin, amount), stdout: s.stdout, running: s.running }
}

/// The state after the guest wrote `data`.
pub open spec fn spec_guest_write(s: StepState, data: Seq<u8>) -> StepState {
    StepState { stdin: s.stdin, stdout: s.stdout + data, running: s.running }
}

/// The state after `finish`.
pub open spec fn spec_finish(s: StepState) -> StepState {
    StepState { stdin: s.stdin, stdout: Seq::empty(), running: false }
}

/// The state after a call that ended without a status: what the guest
/// wrote is dropped.
pub open spec fn spec_abort(s: StepState) -> StepState {
    StepState { stdin: s.stdin, stdout: Seq::empty(), running: false }
}

/// One guest module, ready to be called.
pub struct WasmDdnsStep {
    ctx: SharedCtx,
    running: bool,
}

impl View for WasmDdnsStep {
    type V = StepState;

    closed spec fn view(&self) -> StepState {
        StepState { stdin: self.ctx.stdin(), stdout: self.ctx.stdout(), running: self.running }
    }
}

impl WasmDdnsStep {
    /// A module with empty queues and no call under way.
    pub fn new() -> (step: Self)
        ensures
            step@ == (StepState {
                stdin: Seq::<u8>::empty(),
                stdout: Seq::<u8>::empty(),
                running: false,
            }),
    {
        WasmDdnsStep { ctx: SharedCtx::new(), running: false }
    }

    /// Whether a call is under way.
    pub fn is_running(&self) -> (running: bool)
        ensures
            running == self@.running,
    {
        self.running
    }

    /// Begins a call with the input `data`: the input queue holds `data`
    /// and nothing else, and the output queue is empty. The result is the
    /// number that the guest's entry point is to be called with: the
    /// length of the input. Nothing changes where the call cannot begin.
    pub fn begin(&mut self, data: &[u8]) -> (out: Result<u32, ExecError>)
        ensures
            final(self)@ == spec_begin(old(self)@, data@),
            match spec_begin_error(old(self)@, data@) {
                Some(e) => out == Err::<u32, ExecError>(e),
                None => out == Ok::<u32, ExecError>(data@.len() as u32),
            },
    {
        let len: u32 = match input_length(data) {
            Ok(len) => len,
            Err(e) => {
                return Err(e);
            },
        };
        if self.running {
            return Err(ExecError::Busy);
        }
        self.ctx.stdin_pipe.write(data);
        self.ctx.stdout_pipe.clear();
        self.running = true;
        Ok(len)
    }

    /// The guest reads: takes up to `amount` bytes from its input.
    pub fn guest_read(&mut self, amount: usize) -> (out: Vec<u8>)
        ensures
            final(self)@ == spec_guest_read(old(self)@, amount as nat),
            out@ == spec_front(old(self)@.stdin, amount as nat),
    {
        self.ctx.stdin_pipe.read(amount)
    }

    /// The guest writes: puts `data` behind its output so far. The result
    /// is the number of bytes taken, which is all of them.
    pub fn guest_write(&mut self, data: &[u8]) -> (written: usize)
        ensures
            final(self)@ == spec_guest_write(old(self)@, data@),
            written == data@.len(),
    {
        self.ctx.stdout_pipe.append(data);
        data.len()
    }

    /// Ends a call that returned `status`. The guest's output is taken out
    /// of its queue. With the status zero it is the result of the call; with
    /// any other status it is the message of the guest's error.
    pub fn finish(&mut self, status: i32) -> (out: Result<Vec<u8>, String>)
        ensures
            final(self)@ == spec_finish(old(self)@),
            status == STATUS_OK ==> out is Ok && out->Ok_0@ == old(self)@.stdout,
            status != STATUS_OK ==> out is Err && out->Err_0@ == lossy_text(old(self)@.stdout),
            status != STATUS_OK && valid_utf8(old(self)@.stdout) ==> out->Err_0@ == decode_utf8(
                old(self)@.stdout,
            ),
    {
        let output = self.ctx.stdout_pipe.take_output();
        self.running = false;
        if status == STATUS_OK {
            Ok(output)
        } else {
            Err(string_from_utf8_lossy(output.as_slice()))
        }
    }

    /// Ends a call in which the guest did not return at all. What it wrote
    /// before it failed is dropped, so that no later call hands it out.
    pub fn abort(&mut self)
        ensures
            final(self)@ == spec_abort(old(self)@),
    {
        self.ctx.stdout_pipe.clear();
        self.running = false;
    }

    /// Gives back the memory that the queues hold beyond their content.
    /// The module stays warm: its queues hold what they held, and a call
    /// that is under way stays under way.
    pub fn gc(&mut self)
        ensures
            final(self)@ == old(self)@,
    {
        self.ctx.gc();
    }
}

impl ExecError {
    /// The text that a call shows which could not begin.
    pub fn message(&self) -> (text: &'static str)
        ensures
            match self {
                ExecError::CapacityOverflow => text@ == "data capacity overflow"@,
                ExecError::Busy => text@ == "module is busy"@,
            },
    {
        match self {
            ExecError::CapacityOverflow => "data capacity overflow",
            ExecError::Busy => "module is busy",
        }
    }
}

/// A second call cannot begin while one is under way: whatever the guest
/// reads and writes in between, `begin` fails until `finish` or `abort`.
pub proof fn lemma_calls_do_not_overlap(s: StepState, first: Seq<u8>, second: Seq<u8>)
    requires
        spec_begin_error(s, first) is None,
    ensures
        spec_begin(s, first).running,
        spec_begin_error(spec_begin(s, first), second) is Some,
        spec_begin(spec_begin(s, first), second) == spec_begin(s, first),
        forall|n: nat| #[trigger] spec_guest_read(spec_begin(s, first), n).running,
        forall|d: Seq<u8>| #[trigger] spec_guest_write(spec_begin(s, first), d).running,
        !spec_finish(spec_begin(s, first)).running,
        !spec_abort(spec_begin(s, first)).running,
{
}

/// What a call hands out is what the guest wrote during that call,
/// whatever the queues held before: after `begin` the guest writes `out`,
/// and `out` is what `finish` takes. This holds as well after a call in
/// which the guest wrote `left` and then failed without a status.
pub proof fn lemma_result_is_this_calls_output(
    s: StepState,
    left: Seq<u8>,
    data: Seq<u8>,
    out: Seq<u8>,
)
    requires
        spec_begin_error(s, data) is None,
    ensures
        spec_guest_write(spec_begin(s, data), out).stdout == out,
        spec_abort(spec_guest_write(spec_begin(s, data), left)).stdout == Seq::<u8>::empty(),
        spec_guest_write(
            spec_begin(spec_abort(spec_guest_write(spec_begin(s, data), left)), data),
            out,
        ).stdout == out,
{
    assert(Seq::<u8>::empty() + out =~= out);
}

/// A guest that writes back what it reads and returns zero makes the call
/// yield its input: the output that `finish` hands out is `data`.
pub proof fn lemma_echo_returns_input(s: StepState, data: Seq<u8>)
    requires
        spec_begin_error(s, data) is None,
    ensures
        ({
            let begun = spec_begin(s, data);
            let input = spec_front(begun.stdin, data.len());
            let echoed = spec_guest_write(spec_guest_read(begun, data.len()), input);
            echoed.stdout == data && spec_finish(echoed).stdout == Seq::<u8>::empty()
                && spec_finish(echoed).stdin == Seq::<u8>::empty()
        }),
{
    let begun = spec_begin(s, data);
    let input = spec_front(begun.stdin, data.len());
    assert(input =~= data);
    let echoed = spec_guest_write(spec_guest_read(begun, data.len()), input);
    assert(echoed.stdout =~= data);
    assert(spec_behind(data, data.len()) =~= Seq::<u8>::empty());
}

} // verus!
