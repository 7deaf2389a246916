//! The decisions of the host driver.
//!
//! The driver owns the table of requests in flight and goes through five
//! phases: it connects to the endpoint that the runtime named, it accepts
//! work, it drains what is in flight after `close`, it waits for the
//! runtime to exit once it has told it to shut down, and it is closed. Whoever runs the driver performs the actions that its steps
//! hand back (send these bytes, wake that caller, kill the runtime) and
//! reports what happened since (an answer came, a timer fired, the runtime
//! left).

use crate::handshake::{parse_handshake, spec_parse_handshake, HandshakeError};
use crate::pending::{no_entries, spec_next_id, RequestsMap};
use crate::wire::{
    encode_command, spec_encode_command, spec_frame, CommandModel, Request, RequestModel, Response,
    WasmCommand,
};
use vstd::prelude::*;
use vstd::string::StringExecFns;

verus! {

/// Seconds after which a request without answer is given up.
pub const REQUEST_TIMEOUT_SECS: u64 = 10;

/// Seconds within which the runtime has to complete the handshake.
pub const HANDSHAKE_TIMEOUT_SECS: u64 = 15;

/// Seconds that the runtime gets to exit before it is killed.
pub const EXIT_TIMEOUT_SECS: u64 = 15;

/// Milliseconds between two looks at the table while it drains.
pub const DRAIN_POLL_MILLIS: u64 = 8;

/// Units of work that may wait to be sent.
pub const QUEUE_CAPACITY: usize = 256;

/// Where a driver stands in its life.
#[derive(Clone, Copy, Debug, PartialEq, Eq, Structural)]
pub enum Phase {
    /// The handshake is read, and the endpoint is yet to be reached.
    Connecting,
    /// Work is accepted and sent.
    Accepting,
    /// No new work; answers to what is in flight are still awaited.
    Draining,
    /// The runtime was told to shut down and has yet to exit.
    AwaitingExit,
    /// The runtime is gone.
    Closed,
}

/// Why a driver could not be opened.
#[derive(Clone, Copy, Debug, PartialEq, Eq, Structural)]
pub enum OpenError {
    /// There is no runtime binary at the given place.
    NoWasmDriver,
    /// The runtime could not be started.
    SpawnFailed,
    /// The runtime did not complete the handshake in time.
    TimedOut,
    /// The runtime wrote something that is no handshake.
    Handshake(HandshakeError),
    /// The endpoint that the runtime named could not be reached.
    ConnectFailed,
}

/// Why a call of `run` has no output.
#[derive(Debug, PartialEq, Eq)]
pub enum RunError {
    /// No answer came in time, or the driver went away first.
    Timeout,
    /// The runtime answered with an error; this is its message.
    Guest(String),
}

/// What the driver decided about a unit of work.
#[derive(Debug, PartialEq, Eq)]
pub enum Submission {
    /// The request got the id `id`. `frame` is to be sent, and a timer for
    /// `id` is to be started. `displaced` waited under the same id and
    /// will get no answer any more.
    Send { frame: Vec<u8>, id: u64, displaced: Option<u64> },
    /// The driver takes no more work.
    Rejected,
}

/// A driver as a mathematical value.
pub ghost struct DriverState {
    /// From the id of each request in flight to the token of its caller.
    pub entries: Map<u64, u64>,
    /// The id that the next request will get.
    pub current_id: u64,
    pub phase: Phase,
}

/// The state of a driver that was just opened.
pub open spec fn spec_opened() -> DriverState {
    DriverState { entries: no_entries(), current_id: 0, phase: Phase::Connecting }
}

/// The state of a driver that has reached its runtime and has taken no
/// work yet.
pub open spec fn spec_ready() -> DriverState {
    DriverState { entries: no_entries(), current_id: 0, phase: Phase::Accepting }
}

/// Why a driver that tried to reach its runtime cannot go on, if so:
/// `reached` is `None` where the time was up, else whether the endpoint
/// was reached.
pub open spec fn spec_connect_error(s: DriverState, reached: Option<bool>) -> Option<OpenError> {
    if s.phase != Phase::Connecting {
        None
    } else {
        match reached {
            None => Some(OpenError::TimedOut),
            Some(false) => Some(OpenError::ConnectFailed),
            Some(true) => None,
        }
    }
}

/// The state after the try to reach the runtime ended.
pub open spec fn spec_connected(s: DriverState, reached: Option<bool>) -> DriverState {
    if s.phase != Phase::Connecting {
        s
    } else {
        DriverState {
            entries: s.entries,
            current_id: s.current_id,
            phase: if reached == Some(true) {
                Phase::Accepting
            } else {
                Phase::Closed
            },
        }
    }
}

/// The token that waits under `id`, if any.
pub open spec fn spec_waiter(s: DriverState, id: u64) -> Option<u64> {
    if s.entries.contains_key(id) {
        Some(s.entries[id])
    } else {
        None
    }
}

/// The state after work was handed in for the caller `waiter`.
pub open spec fn spec_submit(s: DriverState, waiter: u64) -> DriverState {
    if s.phase == Phase::Accepting {
        DriverState {
            entries: s.entries.insert(s.current_id, waiter),
            current_id: spec_next_id(s.current_id),
            phase: s.phase,
        }
    } else {
        s
    }
}

/// The state after the entry of `id` was taken out, by its answer or by
/// its timer.
pub open spec fn spec_settle(s: DriverState, id: u64) -> DriverState {
    DriverState { entries: s.entries.remove(id), current_id: s.current_id, phase: s.phase }
}

/// The state after `close` was called.
pub open spec fn spec_close(s: DriverState) -> DriverState {
    if s.phase == Phase::Accepting {
        DriverState { entries: s.entries, current_id: s.current_id, phase: Phase::Draining }
    } else {
        s
    }
}

/// Whether a draining driver tells the runtime to shut down now.
pub open spec fn spec_drained(s: DriverState, timed_out: bool) -> bool {
    s.phase == Phase::Draining && (timed_out || s.entries == no_entries())
}

/// The state after a look at the table while it drains.
pub open spec fn spec_poll_drain(s: DriverState, timed_out: bool) -> DriverState {
    if spec_drained(s, timed_out) {
        DriverState { entries: s.entries, current_id: s.current_id, phase: Phase::AwaitingExit }
    } else {
        s
    }
}

/// The state after the wait for the runtime's exit ended.
pub open spec fn spec_exit(s: DriverState) -> DriverState {
    if s.phase == Phase::AwaitingExit {
        DriverState { entries: s.entries, current_id: s.current_id, phase: Phase::Closed }
    } else {
        s
    }
}

/// The host's side of the exchange with one runtime.
pub struct WasmDriver {
    requests: RequestsMap,
    phase: Phase,
}

impl View for WasmDriver {
    type V = DriverState;

    closed spec fn view(&self) -> DriverState {
        DriverState {
            entries: self.requests.entries(),
            current_id: self.requests.current_id(),
            phase: self.phase,
        }
    }
}

impl WasmDriver {
    /// Opens a driver on what the start of the runtime brought: whether
    /// its binary was there, whether it could be started, and what it
    /// wrote before it began to listen (`None` where it wrote too little
    /// in time). The result is the driver and the name of the endpoint to
    /// connect to.
    pub fn open(binary_exists: bool, spawned: bool, output: Option<&[u8]>) -> (out: Result<
        (WasmDriver, String),
        OpenError,
    >)
        ensures
            !binary_exists ==> out == Err::<(WasmDriver, String), OpenError>(
                OpenError::NoWasmDriver,
            ),
            binary_exists && !spawned ==> out == Err::<(WasmDriver, String), OpenError>(
                OpenError::SpawnFailed,
            ),
            binary_exists && spawned && output is None ==> out == Err::<
                (WasmDriver, String),
                OpenError,
            >(OpenError::TimedOut),
            binary_exists && spawned && output is Some ==> match (
                spec_parse_handshake(output->0@),
                out,
            ) {
                (Err(e), Err(got)) => got == OpenError::Handshake(e),
                (Ok(name), Ok((driver, endpoint))) => endpoint@ == name && driver@
                    == spec_opened(),
                _ => false,
            },
    {
        if !binary_exists {
            return Err(OpenError::NoWasmDriver);
        }
        if !spawned {
            return Err(OpenError::SpawnFailed);
        }
        let bytes = match output {
            None => {
                return Err(OpenError::TimedOut);
            },
            Some(bytes) => bytes,
        };
        match parse_handshake(bytes) {
            Err(e) => Err(OpenError::Handshake(e)),
            Ok(endpoint) => Ok(
                (WasmDriver { requests: RequestsMap::new(), phase: Phase::Connecting }, endpoint),
            ),
        }
    }

    /// Ends the try to reach the endpoint that the runtime named:
    /// `reached` is `None` where the time for opening was up, else whether
    /// the endpoint was reached. A driver that has reached its runtime
    /// accepts work; one that has not is closed. Nothing changes and
    /// nothing fails where the driver was not connecting.
    pub fn connected(&mut self, reached: Option<bool>) -> (out: Result<(), OpenError>)
        ensures
            final(self)@ == spec_connected(old(self)@, reached),
            match spec_connect_error(old(self)@, reached) {
                Some(e) => out == Err::<(), OpenError>(e),
                None => out == Ok::<(), OpenError>(()),
            },
    {
        match self.phase {
            Phase::Connecting => {},
            _ => {
                return Ok(());
            },
        }
        match reached {
            None => {
                self.phase = Phase::Closed;
                Err(OpenError::TimedOut)
            },
            Some(false) => {
                self.phase = Phase::Closed;
                Err(OpenError::ConnectFailed)
            },
            Some(true) => {
                self.phase = Phase::Accepting;
                Ok(())
            },
        }
    }

    /// Where the driver stands.
    pub fn phase(&self) -> (phase: Phase)
        ensures
            phase == self@.phase,
    {
        self.phase
    }

    /// Takes a unit of work for the caller `waiter`. While the driver
    /// accepts work, the request gets the next id and an entry in the
    /// table; afterwards it is rejected and nothing changes.
    pub fn submit(&mut self, module: String, data: Vec<u8>, waiter: u64) -> (out: Submission)
        ensures
            final(self)@ == spec_submit(old(self)@, waiter),
            old(self)@.phase != Phase::Accepting ==> out == Submission::Rejected,
            old(self)@.phase == Phase::Accepting ==> match out {
                Submission::Send { frame, id, displaced } => id == old(self)@.current_id
                    && displaced == spec_waiter(old(self)@, id) && frame@ == spec_frame(
                    spec_encode_command(
                        CommandModel::Request(RequestModel { id, module: module@, data: data@ }),
                    ),
                ),
                Submission::Rejected => false,
            },
    {
        match self.phase {
            Phase::Accepting => {},
            _ => {
                return Submission::Rejected;
            },
        }
        let (id, displaced) = self.requests.insert(waiter);
        let frame = encode_command(&WasmCommand::Request(Request { id, module, data }));
        Submission::Send { frame, id, displaced }
    }

    /// Takes in an answer of the runtime. The result is the token of the
    /// caller who waited for it, together with what that caller is to get;
    /// `None` where nobody waits under this id any more, in which case the
    /// answer is dropped and nothing changes.
    pub fn on_response(&mut self, response: Response) -> (out: Option<
        (u64, Result<Vec<u8>, String>),
    >)
        ensures
            final(self)@ == spec_settle(old(self)@, response.id),
            match (spec_waiter(old(self)@, response.id), out) {
                (None, None) => true,
                (Some(waiter), Some((token, result))) => token == waiter && result
                    == response.response,
                _ => false,
            },
    {
        match self.requests.remove(response.id) {
            None => None,
            Some(waiter) => Some((waiter, response.response)),
        }
    }

    /// Gives up the request `id` because its time is up. The result is the
    /// token of the caller who waited, who is to learn that no answer came;
    /// `None` where the request was settled before.
    pub fn on_timeout(&mut self, id: u64) -> (out: Option<u64>)
        ensures
            final(self)@ == spec_settle(old(self)@, id),
            out == spec_waiter(old(self)@, id),
    {
        self.requests.remove(id)
    }

    /// Stops taking work. What is in flight may still be answered.
    pub fn close(&mut self)
        ensures
            final(self)@ == spec_close(old(self)@),
    {
        match self.phase {
            Phase::Accepting => {
                self.phase = Phase::Draining;
            },
            _ => {},
        }
    }

    /// Looks at the table while the driver drains; `timed_out` says that
    /// the time for draining is up. Once nothing is in flight, or the time
    /// is up, the result is the frame that tells the runtime to shut down.
    pub fn poll_drain(&mut self, timed_out: bool) -> (out: Option<Vec<u8>>)
        ensures
            final(self)@ == spec_poll_drain(old(self)@, timed_out),
            out is Some <==> spec_drained(old(self)@, timed_out),
            out is Some ==> out->0@ == spec_frame(spec_encode_command(CommandModel::Shutdown)),
    {
        match self.phase {
            Phase::Draining => {},
            _ => {
                return None;
            },
        }
        if !timed_out && !self.requests.is_empty() {
            return None;
        }
        self.phase = Phase::AwaitingExit;
        Some(encode_command(&WasmCommand::Shutdown))
    }

    /// Ends the wait for the runtime's exit; `exited` says that it left by
    /// itself in time. The result says whether it has to be killed.
    pub fn on_exit(&mut self, exited: bool) -> (kill: bool)
        ensures
            final(self)@ == spec_exit(old(self)@),
            kill <==> old(self)@.phase == Phase::AwaitingExit && !exited,
    {
        match self.phase {
            Phase::AwaitingExit => {
                self.phase = Phase::Closed;
                !exited
            },
            _ => false,
        }
    }
}

/// What a caller of `run` gets for its completion: the output, or the
/// reason why there is none. `None` stands for a caller whose entry went
/// away without an answer.
pub fn run_outcome(completion: Option<Result<Vec<u8>, String>>) -> (out: Result<Vec<u8>, RunError>)
    ensures
        match (completion, out) {
            (None, Err(RunError::Timeout)) => true,
            (Some(Err(text)), Err(RunError::Guest(got))) => got == text,
            (Some(Ok(bytes)), Ok(got)) => got == bytes,
            _ => false,
        },
{
    match completion {
        None => Err(RunError::Timeout),
        Some(Err(text)) => Err(RunError::Guest(text)),
        Some(Ok(bytes)) => Ok(bytes),
    }
}

impl RunError {
    /// The text that the failed call shows.
    pub fn message(&self) -> (text: String)
        ensures
            match self {
                RunError::Timeout => text@ == "request timeout"@,
                RunError::Guest(e) => text@ == "failed to run wasm command: "@ + e@,
            },
    {
        match self {
            RunError::Timeout => String::from_str("request timeout"),
            RunError::Guest(e) => {
                let mut text = String::from_str("failed to run wasm command: ");
                text.append(e.as_str());
                text
            },
        }
    }
}

} // verus!
