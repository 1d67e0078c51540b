//! The decisions of a gateway in front of container-image registries: which
//! upstream serves a request, whether the client is who it claims to be,
//! which credentials go upstream, and how the upstream's answer is relayed.
//!
//! Everything here works on plain values and is verified; requests are sent
//! and responses are received by the program around this library.

use vstd::prelude::*;

pub mod auth_utils;
pub mod config;
pub mod encoding;
pub mod error;
pub mod handlers;
pub mod text;
