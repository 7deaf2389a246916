//! Host-side and runtime-side logic of a sandboxed transform service.
//!
//! A host process hands byte payloads to a companion runtime process, which
//! runs them through guest modules and answers over one local byte stream.
//! This crate holds the parts of that exchange that are decisions on plain
//! values, each with a contract that is proved:
//!
//! - the wire format ([`wire`], [`decode`], [`stream`]) and the laws that
//!   what is written is read back ([`roundtrip`]);
//! - the start-up handshake ([`handshake`]);
//! - the table that matches answers to waiting callers ([`pending`]), the
//!   steps of the host driver ([`driver`]) and what holds of every run of
//!   it ([`driver_laws`]);
//! - on the runtime's side the dispatch loop ([`dispatcher`]), the cache of
//!   modules ([`modules`]), one module and its calls ([`executor`]), the
//!   byte queues that stand for a guest's standard streams ([`pipe`]), and
//!   the settings of the engine ([`engine`]);
//! - one call from end to end ([`run_laws`]);
//! - the settings of the updater that uses all this ([`config`], [`time`],
//!   [`entity`], [`util`]).
//!
//! Reading and writing streams, starting processes, waiting and entering a
//! guest are left to the program around this crate: it performs what the
//! steps here hand back and reports what happened.

pub mod bytes;
pub mod config;
pub mod decode;
pub mod dispatcher;
pub mod driver;
pub mod driver_laws;
pub mod engine;
pub mod entity;
pub mod executor;
pub mod handshake;
pub mod modules;
pub mod pending;
pub mod pipe;
pub mod roundtrip;
pub mod run_laws;
pub mod stream;
pub mod time;
pub mod util;
pub mod wire;
