//! A boundary layer between generic, statically typed algorithms and callers
//! that can pass only type names, plain values and handles.
//!
//! A caller names the types of a call site in a selector (`selector`), which
//! is read into type identifiers (`types`). Dispatch (`dispatch`) resolves
//! them against the class of types that the call site accepts and reaches the
//! one implementation built for exactly those types, or refuses before
//! anything is built. Values cross the boundary in containers that remember
//! their type and give them back only to a request for that very type
//! (`any`). What is constructed is held by a handle with a life of its own
//! (`handle`, `trans`, `meas`). Every operation answers with a payload or
//! with an error as data (`boundary`, `error`).
//!
//! Floating-point values are carried by their bit patterns and never
//! computed with here: implementations over integers are carried out by this
//! library, those over floats by the program that embeds it, which brings
//! their verdicts and results back to the handle.

#![allow(non_snake_case)]

pub mod any;
pub mod boundary;
pub mod canonical;
pub mod dispatch;
pub mod error;
pub mod handle;
pub mod meas;
pub mod selector;
pub mod trans;
pub mod types;
pub mod util;
