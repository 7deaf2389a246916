//! The decisions of the runtime's dispatch loop.
//!
//! The loop reads commands until the host asks to shut down or the stream
//! ends. A request that names its module by anything but an absolute path
//! is answered at once with an error, and its module is never looked for.
//! Every other request becomes a task of its own. The runtime may exit once
//! no more requests are taken and every task has ended.

use crate::wire::{Request, Response, ResponseModel};
use std::path::Path;
use vstd::prelude::*;
use vstd::string::StringExecFns;

verus! {

/// `Path::is_absolute` of the standard library on `module` as a path.
/// What counts as absolute is the platform's business; nothing is claimed
/// of the result.
#[verifier::external_body]
fn path_is_absolute(module: &str) -> (absolute: bool) {
    Path::new(module).is_absolute()
}

/// What the loop does with a request.
#[derive(Debug, PartialEq, Eq)]
pub enum Dispatch {
    /// Answer at once with this response.
    Reply(Response),
    /// Run this request as a task of its own.
    Spawn(Request),
    /// Drop the request: the loop takes no more.
    Closed,
}

/// A dispatcher as a mathematical value.
pub ghost struct DispatcherState {
    /// Whether requests are still taken.
    pub accepting: bool,
    /// The tasks that were started and have not ended.
    pub running: nat,
}

/// The text of the error for a module that is not named by an absolute
/// path.
pub open spec fn spec_relative_message() -> Seq<char> {
    "You must provide absolute paths as the module path"@
}

/// Whether a request becomes a task: the loop still takes requests, and
/// the module is named by an absolute path.
pub open spec fn spec_spawns(s: DispatcherState, absolute: bool) -> bool {
    s.accepting && absolute
}

/// The state after a request came in.
pub open spec fn spec_route(s: DispatcherState, absolute: bool) -> DispatcherState {
    if spec_spawns(s, absolute) {
        DispatcherState { accepting: s.accepting, running: s.running + 1 }
    } else {
        s
    }
}

/// The state after the host asked to shut down, or a stream ended.
pub open spec fn spec_shutdown(s: DispatcherState) -> DispatcherState {
    DispatcherState { accepting: false, running: s.running }
}

/// The state after a task ended.
pub open spec fn spec_task_done(s: DispatcherState) -> DispatcherState {
    DispatcherState {
        accepting: s.accepting,
        running: if s.running > 0 {
            (s.running - 1) as nat
        } else {
            0
        },
    }
}

/// Whether the runtime may exit.
pub open spec fn spec_may_exit(s: DispatcherState) -> bool {
    !s.accepting && s.running == 0
}

/// The dispatch loop of one runtime.
pub struct Dispatcher {
    accepting: bool,
    running: usize,
}

impl View for Dispatcher {
    type V = DispatcherState;

    closed spec fn view(&self) -> DispatcherState {
        DispatcherState { accepting: self.accepting, running: self.running as nat }
    }
}

impl Dispatcher {
    /// A loop that takes requests and has started no task.
    pub fn new() -> (d: Self)
        ensures
            d@ == (DispatcherState { accepting: true, running: 0 }),
    {
        Dispatcher { accepting: true, running: 0 }
    }

    /// The number of tasks that were started and have not ended.
    pub fn running(&self) -> (n: usize)
        ensures
            n == self@.running,
    {
        self.running
    }

    /// Decides what to do with `request`, given whether its module is named
    /// by an absolute path.
    pub fn route(&mut self, request: Request, absolute: bool) -> (out: Dispatch)
        requires
            old(self)@.running < usize::MAX,
        ensures
            final(self)@ == spec_route(old(self)@, absolute),
            match out {
                Dispatch::Closed => !old(self)@.accepting,
                Dispatch::Reply(response) => old(self)@.accepting && !absolute && response@ == (
                ResponseModel { id: request.id, response: Err(spec_relative_message()) }),
                Dispatch::Spawn(task) => old(self)@.accepting && absolute && task == request,
            },
    {
        if !self.accepting {
            return Dispatch::Closed;
        }
        if !absolute {
            return Dispatch::Reply(
                Response {
                    id: request.id,
                    response: Err(
                        String::from_str("You must provide absolute paths as the module path"),
                    ),
                },
            );
        }
        self.running = self.running + 1;
        Dispatch::Spawn(request)
    }

    /// Decides what to do with `request`: asks the platform whether its
    /// module is named by an absolute path, and goes by the answer as
    /// [`Dispatcher::route`] does.
    pub fn on_request(&mut self, request: Request) -> (out: Dispatch)
        requires
            old(self)@.running < usize::MAX,
        ensures
            final(self)@ == spec_route(old(self)@, out is Spawn),
            match out {
                Dispatch::Closed => !old(self)@.accepting,
                Dispatch::Reply(response) => old(self)@.accepting && response@ == (ResponseModel {
                    id: request.id,
                    response: Err(spec_relative_message()),
                }),
                Dispatch::Spawn(task) => old(self)@.accepting && task == request,
            },
    {
        let absolute = path_is_absolute(request.module.as_str());
        self.route(request, absolute)
    }

    /// Takes no more requests: the host asked to shut down, or one of the
    /// streams from the host ended.
    pub fn on_shutdown(&mut self)
        ensures
            final(self)@ == spec_shutdown(old(self)@),
    {
        self.accepting = false;
    }

    /// Notes that a task ended.
    pub fn on_task_done(&mut self)
        ensures
            final(self)@ == spec_task_done(old(self)@),
    {
        if self.running > 0 {
            self.running = self.running - 1;
        }
    }

    /// Whether the runtime may exit: no more requests are taken, and every
    /// task has ended.
    pub fn may_exit(&self) -> (exit: bool)
        ensures
            exit == spec_may_exit(self@),
    {
        !self.accepting && self.running == 0
    }
}

/// The response that carries the outcome of a task to the host.
pub fn respond(id: u64, outcome: Result<Vec<u8>, String>) -> (out: Response)
    ensures
        out.id == id,
        out.response == outcome,
{
    Response { id, response: outcome }
}

/// A request whose module is not named by an absolute path starts no task
/// and leaves the dispatcher as it was.
pub proof fn lemma_relative_module_is_refused(s: DispatcherState)
    ensures
        !spec_spawns(s, false),
        spec_route(s, false) == s,
{
}

/// After the host asked to shut down, no request starts a task, and the
/// runtime may exit exactly when the tasks that run have ended.
pub proof fn lemma_shutdown_waits_for_tasks(s: DispatcherState, absolute: bool)
    ensures
        !spec_spawns(spec_shutdown(s), absolute),
        spec_route(spec_shutdown(s), absolute) == spec_shutdown(s),
        spec_may_exit(spec_shutdown(s)) <==> s.running == 0,
        s.running == 1 ==> spec_may_exit(spec_task_done(spec_shutdown(s))),
{
}

} // verus!
