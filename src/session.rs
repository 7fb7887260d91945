//! A session is either configuring a compiler (`Build`) or holding the
//! compiler that configuration produced (`Compile`). Typed projections give
//! access to the inner object and fail outside the matching state.

use crate::status::{Code, Status, NOT_IN_BUILD_STATE, NOT_IN_COMPILE_STATE};
use vstd::prelude::*;

verus! {

/// The state of one session.
#[derive(Debug)]
pub enum CompilerSession<B, C> {
    Build(B),
    Compile(C),
}

impl<B, C> CompilerSession<B, C> {
    /// The builder, when the session is still being configured.
    pub fn map_builder(&self) -> (r: Result<&B, Status>)
        ensures
            r is Ok <==> *self is Build,
            r matches Ok(b) ==> *self == CompilerSession::<B, C>::Build(*b),
            r matches Err(e) ==> e.code == Code::FailedPrecondition && e.message@ == NOT_IN_BUILD_STATE@,
    {
        match self {
            CompilerSession::Build(builder) => Ok(builder),
            _ => Err(Status::failed_precondition(NOT_IN_BUILD_STATE)),
        }
    }

    /// The builder, for changing its configuration.
    pub fn map_builder_mut(&mut self) -> (r: Result<&mut B, Status>)
        ensures
            r is Ok <==> *old(self) is Build,
            r matches Ok(b) ==> *old(self) == CompilerSession::<B, C>::Build(*b)
                && *final(self) == CompilerSession::<B, C>::Build(*final(b)),
            r matches Err(e) ==> e.code == Code::FailedPrecondition && e.message@ == NOT_IN_BUILD_STATE@ && *final(self) == *old(self),
    {
        match self {
            CompilerSession::Build(builder) => Ok(builder),
            _ => Err(Status::failed_precondition(NOT_IN_BUILD_STATE)),
        }
    }

    /// The compiler, once configuration is frozen.
    pub fn map_compiler(&self) -> (r: Result<&C, Status>)
        ensures
            r is Ok <==> *self is Compile,
            r matches Ok(c) ==> *self == CompilerSession::<B, C>::Compile(*c),
            r matches Err(e) ==> e.code == Code::FailedPrecondition && e.message@ == NOT_IN_COMPILE_STATE@,
    {
        match self {
            CompilerSession::Compile(compiler) => Ok(compiler),
            _ => Err(Status::failed_precondition(NOT_IN_COMPILE_STATE)),
        }
    }

    /// The compiler, for operations that need exclusive access to it.
    pub fn map_compiler_mut(&mut self) -> (r: Result<&mut C, Status>)
        ensures
            r is Ok <==> *old(self) is Compile,
            r matches Ok(c) ==> *old(self) == CompilerSession::<B, C>::Compile(*c)
                && *final(self) == CompilerSession::<B, C>::Compile(*final(c)),
            r matches Err(e) ==> e.code == Code::FailedPrecondition && e.message@ == NOT_IN_COMPILE_STATE@ && *final(self) == *old(self),
    {
        match self {
            CompilerSession::Compile(compiler) => Ok(compiler),
            _ => Err(Status::failed_precondition(NOT_IN_COMPILE_STATE)),
        }
    }
}

/// At every moment exactly one family of projections succeeds on a session:
/// the builder projections in the build state, the compiler projections in
/// the compile state.
pub proof fn lemma_state_exclusive<B, C>(s: CompilerSession<B, C>)
    ensures
        s is Build <==> !(s is Compile),
{
}

} // verus!
