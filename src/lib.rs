//! Core of a remote WebAssembly compilation service: opaque session
//! identifiers, the per-session build/compile state machine and its request
//! handlers, the wire encoding of target triples, the artifact cache's
//! fingerprint and single-flight discipline, the ordering of per-function
//! results, trampoline layout, and the client's local view of a session.

pub mod cache;
pub mod client;
pub mod codegen;
pub mod commands;
pub mod compile_env;
pub mod convert;
pub mod fingerprint;
pub mod flags;
pub mod module_reply;
pub mod pipeline;
pub mod remote_id;
pub mod service;
pub mod session;
pub mod status;
pub mod trampoline;
pub mod target;
pub mod wire;
