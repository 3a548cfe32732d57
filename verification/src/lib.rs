//! Diagnostics for a multi-phase language front end.
//!
//! Every phase of the front end (syntax analysis, symbol resolution, type
//! checking, overload resolution, decompilation) reports its failures through
//! the single closed taxonomy in [`error`]. Pure factory constructors build
//! each named failure situation; overload resolution first collects one
//! [`candidate::FunctionResolutionError`] per rejected signature and then
//! aggregates them into one bounded, order-preserving diagnostic. Raw host
//! failures (I/O, text formatting) enter the taxonomy losslessly through the
//! types of [`host`]. The general guarantees of the subsystem are stated and
//! proved in [`laws`].

pub mod candidate;
pub mod decimal;
pub mod error;
pub mod host;
pub mod laws;
pub mod pos;
