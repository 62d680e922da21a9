//! Bridge core between a managed host and a native Opus codec.
//!
//! A host that collects its garbage drives a codec instance that is allocated
//! and freed by hand. This crate holds every decision on that path: which
//! requests are rejected before the codec is touched, which arguments a native
//! call gets, and what its result means for the host. The native calls and the
//! host's own machinery are made by the caller, who hands their results back.

use vstd::prelude::*;

pub mod status;
pub mod text;
pub mod error;
pub mod config;
pub mod buffer;
pub mod session;
pub mod decoder;
pub mod encoder;
