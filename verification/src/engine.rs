//! How the sandboxing engine is set up, and what its clock asks of a guest.
//!
//! One clock per process advances a counter on a fixed period. A guest
//! that is still at work when the counter has advanced is made to step
//! aside for a moment, so that other work gets its turn, and may then go
//! on until the counter advances again. A slow guest is not ended by this.

use vstd::prelude::*;

verus! {

/// Milliseconds between two advances of the clock.
pub const EPOCH_MILLIS: u64 = 25;

/// Advances of the clock that a guest may see before it has to step aside
/// again.
pub const YIELD_TICKS: u64 = 1;

/// Instances that the engine keeps warm although nobody uses them.
pub const MAX_UNUSED_WARM_SLOTS: u32 = 256;

/// What a guest does when the clock has advanced under it.
#[derive(Clone, Copy, Debug, PartialEq, Eq, Structural)]
pub enum DeadlineUpdate {
    /// Go on at once, for this many advances more.
    Continue(u64),
    /// Step aside first, then go on for this many advances.
    Yield(u64),
}

/// What a clock does when it fell behind.
#[derive(Clone, Copy, Debug, PartialEq, Eq, Structural)]
pub enum MissedTicks {
    /// Advance late, and count the period from then on.
    Delay,
    /// Leave out what was missed.
    Skip,
}

/// What the engine's clock does when it fell behind: it advances late.
pub const ENGINE_CLOCK_MISSED_TICKS: MissedTicks = MissedTicks::Delay;

/// What the timer of a module's memory round does when it fell behind: it
/// leaves out what was missed.
pub const GC_MISSED_TICKS: MissedTicks = MissedTicks::Skip;

/// How instances get their memory.
#[derive(Clone, Copy, Debug, PartialEq, Eq, Structural)]
pub struct PoolingSettings {
    /// Whether the stack of a finished call is cleared.
    pub async_stack_zeroing: bool,
    /// Whether memory protection keys guard the pool.
    pub memory_protection_keys: bool,
    /// The memory protection keys that may be used.
    pub max_memory_protection_keys: usize,
    /// Instances that are kept warm although nobody uses them.
    pub max_unused_warm_slots: u32,
}

/// How the engine is set up.
#[derive(Clone, Copy, Debug, PartialEq, Eq, Structural)]
pub struct EngineSettings {
    /// Whether guests are called as tasks that can step aside.
    pub async_support: bool,
    /// Whether a guest has a budget of steps.
    pub consume_fuel: bool,
    /// Whether the clock can interrupt a guest.
    pub epoch_interruption: bool,
    /// Whether a failure of a guest comes with its call stack.
    pub wasm_backtrace: bool,
    /// Whether that call stack names files and lines.
    pub wasm_backtrace_details: bool,
    /// Whether modules are compiled on several threads.
    pub parallel_compilation: bool,
    /// Whether the guests are profiled.
    pub profiling: bool,
    /// Whether modules are compiled for speed.
    pub optimize_for_speed: bool,
    /// How instances get their memory.
    pub pooling: PoolingSettings,
}

/// The settings of the engine that runs the guests: guests are tasks, the
/// clock interrupts them and no budget of steps does, failures come with a
/// plain call stack, modules are compiled in parallel and for speed, and
/// instances come from a pool without protection keys.
pub fn configured_engine() -> (settings: EngineSettings)
    ensures
        settings == (EngineSettings {
            async_support: true,
            consume_fuel: false,
            epoch_interruption: true,
            wasm_backtrace: true,
            wasm_backtrace_details: false,
            parallel_compilation: true,
            profiling: false,
            optimize_for_speed: true,
            pooling: PoolingSettings {
                async_stack_zeroing: false,
                memory_protection_keys: false,
                max_memory_protection_keys: 0,
                max_unused_warm_slots: MAX_UNUSED_WARM_SLOTS,
            },
        }),
{
    EngineSettings {
        async_support: true,
        consume_fuel: false,
        epoch_interruption: true,
        wasm_backtrace: true,
        wasm_backtrace_details: false,
        parallel_compilation: true,
        profiling: false,
        optimize_for_speed: true,
        pooling: PoolingSettings {
            async_stack_zeroing: false,
            memory_protection_keys: false,
            max_memory_protection_keys: 0,
            max_unused_warm_slots: MAX_UNUSED_WARM_SLOTS,
        },
    }
}

/// What a guest does when the clock has advanced under it: it steps aside,
/// and may then go on until the next advance.
pub fn on_epoch_deadline() -> (update: DeadlineUpdate)
    ensures
        update == DeadlineUpdate::Yield(YIELD_TICKS),
{
    DeadlineUpdate::Yield(YIELD_TICKS)
}

} // verus!
