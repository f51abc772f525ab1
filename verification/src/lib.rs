//! A library for running untrusted source code in a sandbox: language
//! dispatch, workspace naming, sandbox command construction, and the
//! classification of compile and run outcomes.
//!
//! The library decides; the surrounding program performs the file and
//! process work and feeds the results back in.

pub mod code;
pub mod command;
pub mod lang;
pub mod pipeline;
pub mod workspace;
