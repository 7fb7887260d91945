//! The compile environment carried on each module-build request: code
//! generation knobs, enabled WebAssembly proposals and the memory
//! initialisation mode.

use vstd::prelude::*;

verus! {

/// Code generation knobs chosen per compilation.
#[derive(PartialEq, Eq, Structural, Clone, Copy, Debug)]
pub struct Tunables {
    pub static_memory_bound: u64,
    pub static_memory_offset_guard_size: u64,
    pub dynamic_memory_offset_guard_size: u64,
    pub generate_native_debuginfo: bool,
    pub parse_wasm_debuginfo: bool,
    pub interruptable: bool,
    pub consume_fuel: bool,
    pub static_memory_bound_is_maximum: bool,
    pub guard_before_linear_memory: bool,
}

/// The WebAssembly proposals that the module may use.
#[derive(PartialEq, Eq, Structural, Clone, Copy, Debug)]
pub struct WasmFeatures {
    pub reference_types: bool,
    pub multi_value: bool,
    pub bulk_memory: bool,
    pub module_linking: bool,
    pub simd: bool,
    pub threads: bool,
    pub tail_call: bool,
    pub deterministic_only: bool,
    pub multi_memory: bool,
    pub exceptions: bool,
    pub memory64: bool,
}

/// A request to compile a module: the bytes and the environment, whose
/// first two parts are optional on the wire.
#[derive(Clone, Debug)]
pub struct BuildModuleRequest {
    pub wasm: Vec<u8>,
    pub tunables: Option<Tunables>,
    pub features: Option<WasmFeatures>,
    pub paged_memory_initialization: bool,
}

/// Errors of the server's own request checks.
#[derive(PartialEq, Eq, Structural, Clone, Copy, Debug)]
pub enum ServerError {
    /// The request lacks its tunables or its feature set.
    BadCompileEnv,
}

/// The environment of one compilation, complete.
#[derive(PartialEq, Eq, Structural, Clone, Copy, Debug)]
pub struct CompileEnv {
    pub tunables: Tunables,
    pub features: WasmFeatures,
    pub paged_memory_initialization: bool,
}

impl CompileEnv {
    /// The environment a request carries, when it is complete.
    pub open spec fn try_from_spec(req: BuildModuleRequest) -> Option<CompileEnv> {
        if req.tunables is Some && req.features is Some {
            Some(
                CompileEnv {
                    tunables: req.tunables.unwrap(),
                    features: req.features.unwrap(),
                    paged_memory_initialization: req.paged_memory_initialization,
                },
            )
        } else {
            None
        }
    }

    /// Reads the environment out of a request; it is complete only when both
    /// the tunables and the feature set are present.
    pub fn try_from(req: &BuildModuleRequest) -> (r: Result<CompileEnv, ServerError>)
        ensures
            r is Ok <==> req.tunables is Some && req.features is Some,
            r matches Ok(env) ==> Self::try_from_spec(*req) == Some(env),
            r matches Err(e) ==> e == ServerError::BadCompileEnv,
    {
        let tunables = match req.tunables {
            Some(t) => t,
            None => return Err(ServerError::BadCompileEnv),
        };
        let features = match req.features {
            Some(f) => f,
            None => return Err(ServerError::BadCompileEnv),
        };
        Ok(CompileEnv {
            tunables,
            features,
            paged_memory_initialization: req.paged_memory_initialization,
        })
    }
}

} // verus!
