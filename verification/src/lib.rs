//! A runtime-agnostic abstraction for driving non-blocking I/O on raw OS
//! handles through interchangeable readiness-notification backends.
//!
//! The library verifies the readiness-polling core: the builder contract that
//! binds a raw handle to a backend registration, the retry/suspend engine that
//! turns a synchronous non-blocking operation into a suspend-and-resume
//! operation, the single-use awaitable adapters, the accepter that yields
//! freshly registered streams, and the two external stream-consumption shapes
//! (fill-cursor buffer, and plain slice with count).
//!
//! The backend notification mechanisms themselves are external collaborators.
//! They are modelled here by [`backend::Backend`], a registry of registration
//! slots and per-direction wakeup interest, and by event values
//! ([`engine::Attempt`], [`engine::ReadyCheck`]) that stand for the outcomes
//! an operation closure and a readiness query report. An unverified embedding
//! runs the real event loop and hands those outcomes in; every decision taken
//! on them is verified here.

pub mod backend;
pub mod engine;
pub mod fd;
pub mod stream;
pub mod tcp;

use vstd::prelude::*;

verus! {

/// Selector for the backend whose readiness primitive is a per-poll guard
/// that must be told about false-positive readiness (guarded single-shot
/// strategy).
pub struct TokioBuilder;

/// Selector for the backend whose readiness primitive is "ask me again when
/// ready" (level-triggered retry-loop strategy).
pub struct AsyncIoBuilder;

} // verus!
