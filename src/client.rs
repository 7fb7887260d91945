//! The client side of a session: what the client keeps locally so that its
//! embedder sees an ordinary compiler. A `Builder` knows its identifier and
//! the target it has set; building turns it into a `Compiler` that also
//! keeps the flag maps the server reported, which no longer change and are
//! read without a round trip.

use crate::convert::{triple_from_wire, triple_to_wire};
use crate::convert::{internal2rpc, rpc2internal};
use crate::flags::{FlagMap, FlagValueView};
use crate::module_reply::BuildModuleResponse;
use crate::remote_id::RemoteId;
use crate::target;
use crate::wire;
use vstd::prelude::*;

verus! {

/// Why a client-side step cannot proceed.
#[derive(PartialEq, Eq, Structural, Clone, Copy, Debug)]
pub enum ClientError {
    /// The server's reply carries no module.
    MissingModule,
}

/// A request to change one setting.
#[derive(Clone, Debug)]
pub struct SetRequest {
    pub name: String,
    pub value: String,
}

/// The client's half of a session that is still being configured: its
/// identifier, its target and the settings it keeps locally, in the order
/// they were made.
pub struct Builder {
    remote_id: RemoteId,
    triple: target::Triple,
    settings: Vec<SetRequest>,
}

/// The settings every client starts from: division traps are avoided, and
/// stack probes are not used as a stack limit mechanism.
pub open spec fn initial_settings() -> Seq<(Seq<char>, Seq<char>)> {
    seq![(AVOID_DIV_TRAPS@, TRUE@), (ENABLE_PROBESTACK@, FALSE@)]
}

pub const AVOID_DIV_TRAPS: &'static str = "avoid_div_traps";
pub const ENABLE_PROBESTACK: &'static str = "enable_probestack";
pub const TRUE: &'static str = "true";
pub const FALSE: &'static str = "false";

/// Settings as name and value pairs.
pub open spec fn settings_view(s: Seq<SetRequest>) -> Seq<(Seq<char>, Seq<char>)> {
    s.map_values(|r: SetRequest| (r.name@, r.value@))
}

/// The client's half of a session whose compiler is built.
pub struct Compiler {
    remote_id: RemoteId,
    triple: target::Triple,
    flags: FlagMap,
    isa_flags: FlagMap,
}

impl Builder {
    pub closed spec fn spec_remote_id(&self) -> Seq<char> {
        self.remote_id@
    }

    pub closed spec fn spec_triple(&self) -> target::Triple {
        self.triple
    }

    pub closed spec fn spec_settings(&self) -> Seq<(Seq<char>, Seq<char>)> {
        settings_view(self.settings@)
    }

    /// The builder as it stands after the handshake: the identifier the
    /// server minted, the triple the server reported for it (unknown tags
    /// read as `Unknown`), and the initial local settings.
    pub fn new(remote_id: RemoteId, reported: &wire::Triple) -> (r: Builder)
        ensures
            r.spec_remote_id() == remote_id@,
            r.spec_triple() == triple_from_wire(*reported),
            r.spec_settings() == initial_settings(),
    {
        let mut settings: Vec<SetRequest> = Vec::new();
        settings.push(SetRequest { name: AVOID_DIV_TRAPS.to_string(), value: TRUE.to_string() });
        settings.push(SetRequest { name: ENABLE_PROBESTACK.to_string(), value: FALSE.to_string() });
        assert(settings_view(settings@) =~= initial_settings());
        Builder { remote_id, triple: rpc2internal::from_triple(reported), settings }
    }

    /// The settings kept locally, oldest first.
    pub fn settings(&self) -> (r: &Vec<SetRequest>)
        ensures
            settings_view(r@) == self.spec_settings(),
    {
        &self.settings
    }

    /// The value of the identifier slot that every request carries.
    pub fn remote_id(&self) -> (r: &str)
        ensures
            r@ == self.spec_remote_id(),
    {
        self.remote_id.as_str()
    }

    /// The target, known locally.
    pub fn triple(&self) -> (r: target::Triple)
        ensures
            r == self.spec_triple(),
    {
        self.triple
    }

    /// The wire form of a new target.
    pub fn target_request(&self, t: &target::Triple) -> (r: wire::Triple)
        ensures
            r == triple_to_wire(*t),
    {
        internal2rpc::from_triple(t)
    }

    /// Records a target once the server accepted it.
    pub fn target(&mut self, t: target::Triple)
        ensures
            final(self).spec_triple() == t,
            final(self).spec_remote_id() == old(self).spec_remote_id(),
            final(self).spec_settings() == old(self).spec_settings(),
    {
        self.triple = t;
    }

    /// A request to change one setting; the setting is also kept locally.
    pub fn set(&mut self, name: &str, value: &str) -> (r: SetRequest)
        ensures
            r.name@ == name@,
            r.value@ == value@,
            final(self).spec_settings() == old(self).spec_settings().push((name@, value@)),
            final(self).spec_triple() == old(self).spec_triple(),
            final(self).spec_remote_id() == old(self).spec_remote_id(),
    {
        self.settings.push(SetRequest { name: name.to_string(), value: value.to_string() });
        assert(settings_view(self.settings@) =~= settings_view(old(self).settings@).push((name@, value@)));
        SetRequest { name: name.to_string(), value: value.to_string() }
    }

    /// The compiler, once the server has built it and reported its flag
    /// maps. The builder is used up.
    pub fn build(self, flags: FlagMap, isa_flags: FlagMap) -> (r: Compiler)
        ensures
            r.spec_remote_id() == self.spec_remote_id(),
            r.spec_triple() == self.spec_triple(),
            r.spec_flags() == flags@,
            r.spec_isa_flags() == isa_flags@,
    {
        let Builder { remote_id, triple, settings } = self;
        Compiler { remote_id, triple, flags, isa_flags }
    }
}

impl Compiler {
    pub closed spec fn spec_remote_id(&self) -> Seq<char> {
        self.remote_id@
    }

    pub closed spec fn spec_triple(&self) -> target::Triple {
        self.triple
    }

    pub closed spec fn spec_flags(&self) -> Seq<(Seq<char>, FlagValueView)> {
        self.flags@
    }

    pub closed spec fn spec_isa_flags(&self) -> Seq<(Seq<char>, FlagValueView)> {
        self.isa_flags@
    }

    /// The value of the identifier slot that every request carries.
    pub fn remote_id(&self) -> (r: &str)
        ensures
            r@ == self.spec_remote_id(),
    {
        self.remote_id.as_str()
    }

    /// The target, known locally.
    pub fn triple(&self) -> (r: target::Triple)
        ensures
            r == self.spec_triple(),
    {
        self.triple
    }

    /// The shared flags, read without a round trip.
    pub fn flags(&self) -> (r: &FlagMap)
        ensures
            r@ == self.spec_flags(),
    {
        &self.flags
    }

    /// The target-specific flags, read without a round trip.
    pub fn isa_flags(&self) -> (r: &FlagMap)
        ensures
            r@ == self.spec_isa_flags(),
    {
        &self.isa_flags
    }
}

/// The serialized module out of a `BuildModule` reply.
pub fn module_bytes(resp: BuildModuleResponse) -> (r: Result<Vec<u8>, ClientError>)
    ensures
        r is Ok <==> resp.serialized_module is Some,
        r matches Ok(b) ==> b@ == resp.serialized_module.unwrap().value@,
        r matches Err(e) ==> e == ClientError::MissingModule,
{
    match resp.serialized_module {
        Some(any) => Ok(any.value),
        None => Err(ClientError::MissingModule),
    }
}

} // verus!
