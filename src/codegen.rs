//! The code generator as a plug-in: the steps the compile pipeline drives,
//! each with its result named over its arguments.

use crate::compile_env::CompileEnv;
use vstd::prelude::*;

verus! {

/// The code generator as the compile pipeline drives it, for modules `M`,
/// function bodies `F`, compiled functions `K` and module artifacts `A`.
/// Implementations are plugged in at process start. Each step's result is
/// named by a spec function of its arguments: code generation is
/// deterministic. The names are left unspecified here; an implementation
/// may say more.
pub trait CodeGenerator<M, F, K, A> {
    /// The modules found in `wasm`; `None` when it is not valid WebAssembly.
    closed spec fn translation(&self, wasm: Seq<u8>, env: CompileEnv) -> Option<Seq<M>> {
        arbitrary()
    }

    /// A module's function bodies, each with its defined-function index.
    closed spec fn bodies(&self, module: M) -> Seq<(usize, F)> {
        arbitrary()
    }

    closed spec fn compiled(&self, module: M, index: usize, body: F, env: CompileEnv) -> Result<K, String> {
        arbitrary()
    }

    /// The artifact of a module: its object emitted from the functions in
    /// index order, memory laid out in pages when `paged_init`, then mapped.
    closed spec fn finished(&self, module: M, functions: Seq<K>, paged_init: bool, env: CompileEnv) -> Result<
        A,
        String,
    > {
        arbitrary()
    }

    closed spec fn serialized(&self, artifacts: Seq<A>, env: CompileEnv) -> Result<Seq<u8>, String> {
        arbitrary()
    }

    fn translate(&self, wasm: &[u8], env: &CompileEnv) -> (r: Option<Vec<M>>)
        ensures
            r is Some <==> self.translation(wasm@, *env) is Some,
            r matches Some(v) ==> self.translation(wasm@, *env) == Some(v@),
    ;

    /// Hands out a module's function bodies. The pipeline calls it once per
    /// module; an implementation may drain the module.
    fn take_bodies(&self, module: &M) -> (r: Vec<(usize, F)>)
        ensures
            r@ == self.bodies(*module),
    ;

    fn compile_function(&self, module: &M, index: usize, body: F, env: &CompileEnv) -> (r: Result<
        K,
        String,
    >)
        ensures
            r == self.compiled(*module, index, body, *env),
    ;

    fn finish(&self, module: M, functions: Vec<K>, paged_init: bool, env: &CompileEnv) -> (r: Result<
        A,
        String,
    >)
        ensures
            r == self.finished(module, functions@, paged_init, *env),
    ;

    fn serialize(&self, artifacts: Vec<A>, env: &CompileEnv) -> (r: Result<Vec<u8>, String>)
        ensures
            r matches Ok(b) ==> self.serialized(artifacts@, *env) == Ok::<Seq<u8>, String>(b@),
            r matches Err(e) ==> self.serialized(artifacts@, *env) == Err::<Seq<u8>, String>(e),
    ;
}

} // verus!
