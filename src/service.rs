//! The session store: a map from remote identifier to session, and the
//! request handlers' decisions on it. Each handler checks the request in the
//! order the service defines (argument, then identifier, then state) and
//! hands the caller the object the operation applies to.

use crate::compile_env::{BuildModuleRequest, CompileEnv};
use crate::convert::{rpc2internal, triple_from_wire};
use crate::remote_id::{RemoteId, REMOTE_ID_LEN};
use crate::session::CompilerSession;
use crate::status::{
    Code, Status, BAD_COMPILE_ENV, INVALID_REMOTE_ID, NOT_IMPLEMENTED, NOT_IN_BUILD_STATE,
    NOT_IN_COMPILE_STATE, NO_RANDOMNESS, REMOTE_ID_IN_USE,
};
use crate::target;
use crate::wire;
use vstd::prelude::*;

verus! {

/// One registered session.
pub struct SessionEntry<B, C> {
    pub id: RemoteId,
    pub session: CompilerSession<B, C>,
}

/// All sessions of the server, keyed by remote identifier.
pub struct CompilerService<B, C> {
    sessions: Vec<SessionEntry<B, C>>,
}

/// Reply to a successful `Build`.
#[derive(Clone, Debug)]
pub struct BuildResponse {
    pub remote_id: String,
}

/// Reads the session identifier from the request's metadata slot.
pub fn get_remote_id(header: Option<&str>) -> (r: Result<RemoteId, Status>)
    ensures
        r is Ok <==> header is Some,
        r matches Ok(id) ==> id@ == header.unwrap()@,
        r matches Err(e) ==> e.code == Code::FailedPrecondition && e.message@ == INVALID_REMOTE_ID@,
{
    match header {
        Some(text) => Ok(RemoteId::from_text(text)),
        None => Err(Status::failed_precondition(INVALID_REMOTE_ID)),
    }
}

/// The map that a list of entries stands for.
pub closed spec fn entries_view<B, C>(s: Seq<SessionEntry<B, C>>) -> Map<Seq<char>, CompilerSession<B, C>> {
    Map::new(
        |k: Seq<char>| exists|i: int| 0 <= i < s.len() && s[i].id@ == k,
        |k: Seq<char>| s[choose|i: int| 0 <= i < s.len() && s[i].id@ == k].session,
    )
}

/// No two entries share an identifier.
pub closed spec fn entries_wf<B, C>(s: Seq<SessionEntry<B, C>>) -> bool {
    forall|i: int, j: int| 0 <= i < s.len() && 0 <= j < s.len() && i != j ==> s[i].id@ != s[j].id@
}

proof fn lemma_entries_at<B, C>(s: Seq<SessionEntry<B, C>>, i: int)
    requires
        entries_wf(s),
        0 <= i < s.len(),
    ensures
        entries_view(s).contains_key(s[i].id@),
        entries_view(s)[s[i].id@] == s[i].session,
{
    let k = s[i].id@;
    assert(entries_view(s).contains_key(k));
    let j = choose|j: int| 0 <= j < s.len() && s[j].id@ == k;
    assert(j == i);
}

proof fn lemma_entries_update<B, C>(s: Seq<SessionEntry<B, C>>, i: int)
    requires
        entries_wf(s),
        0 <= i < s.len(),
    ensures
        forall|e: SessionEntry<B, C>|
            e.id@ == s[i].id@ ==> entries_wf(#[trigger] s.update(i, e)) && entries_view(s.update(i, e))
                == entries_view(s).insert(e.id@, e.session),
{
    assert forall|e: SessionEntry<B, C>| e.id@ == s[i].id@ implies entries_wf(#[trigger] s.update(i, e))
        && entries_view(s.update(i, e)) == entries_view(s).insert(e.id@, e.session) by {
        let t = s.update(i, e);
        assert(entries_wf(t));
        lemma_entries_at(t, i);
        assert forall|k: Seq<char>| #[trigger] entries_view(t).contains_key(k) <==> entries_view(s).insert(e.id@, e.session).contains_key(k) by {
            if k != e.id@ {
                if entries_view(s).contains_key(k) {
                    let j = choose|j: int| 0 <= j < s.len() && s[j].id@ == k;
                    assert(t[j].id@ == k);
                }
                if entries_view(t).contains_key(k) {
                    let j = choose|j: int| 0 <= j < t.len() && t[j].id@ == k;
                    assert(s[j].id@ == k);
                }
            }
        }
        assert forall|k: Seq<char>| #[trigger] entries_view(t).contains_key(k) && k != e.id@ implies entries_view(t)[k] == entries_view(s)[k] by {
            let j = choose|j: int| 0 <= j < t.len() && t[j].id@ == k;
            assert(j != i);
            lemma_entries_at(t, j);
            lemma_entries_at(s, j);
        }
        assert(entries_view(t) =~= entries_view(s).insert(e.id@, e.session));
    }
}

proof fn lemma_entries_push<B, C>(s: Seq<SessionEntry<B, C>>, e: SessionEntry<B, C>)
    requires
        entries_wf(s),
        !entries_view(s).contains_key(e.id@),
    ensures
        entries_wf(s.push(e)),
        entries_view(s.push(e)) == entries_view(s).insert(e.id@, e.session),
{
    let t = s.push(e);
    assert forall|i: int, j: int| 0 <= i < t.len() && 0 <= j < t.len() && i != j implies t[i].id@ != t[j].id@ by {
        if i < s.len() && j < s.len() {
        } else if i < s.len() {
            assert(entries_view(s).contains_key(s[i].id@));
        } else {
            assert(entries_view(s).contains_key(s[j].id@));
        }
    }
    lemma_entries_at(t, s.len() as int);
    assert forall|k: Seq<char>| #[trigger] entries_view(t).contains_key(k) <==> entries_view(s).insert(e.id@, e.session).contains_key(k) by {
        if k != e.id@ {
            if entries_view(s).contains_key(k) {
                let j = choose|j: int| 0 <= j < s.len() && s[j].id@ == k;
                assert(t[j].id@ == k);
            }
            if entries_view(t).contains_key(k) {
                let j = choose|j: int| 0 <= j < t.len() && t[j].id@ == k;
                assert(s[j].id@ == k);
            }
        }
    }
    assert forall|k: Seq<char>| #[trigger] entries_view(t).contains_key(k) && k != e.id@ implies entries_view(t)[k] == entries_view(s)[k] by {
        let j = choose|j: int| 0 <= j < t.len() && t[j].id@ == k;
        assert(j < s.len());
        lemma_entries_at(t, j);
        lemma_entries_at(s, j);
    }
    assert(entries_view(t) =~= entries_view(s).insert(e.id@, e.session));
}

/// Whether the request's identifier names a registered session.
pub open spec fn header_known<B, C>(m: Map<Seq<char>, CompilerSession<B, C>>, header: Option<&str>) -> bool {
    header matches Some(h) && m.contains_key(h@)
}

/// Whether the request names a session that is still being configured.
pub open spec fn addresses_builder<B, C>(m: Map<Seq<char>, CompilerSession<B, C>>, header: Option<&str>) -> bool {
    header_known(m, header) && m[header.unwrap()@] is Build
}

/// Whether the request names a session that holds a compiler.
pub open spec fn addresses_compiler<B, C>(m: Map<Seq<char>, CompilerSession<B, C>>, header: Option<&str>) -> bool {
    header_known(m, header) && m[header.unwrap()@] is Compile
}

/// The message of a builder request that the store refuses.
pub open spec fn builder_refusal<B, C>(m: Map<Seq<char>, CompilerSession<B, C>>, header: Option<&str>) -> Seq<char> {
    if header_known(m, header) {
        NOT_IN_BUILD_STATE@
    } else {
        INVALID_REMOTE_ID@
    }
}

/// The message of a compiler request that the store refuses.
pub open spec fn compiler_refusal<B, C>(m: Map<Seq<char>, CompilerSession<B, C>>, header: Option<&str>) -> Seq<char> {
    if header_known(m, header) {
        NOT_IN_COMPILE_STATE@
    } else {
        INVALID_REMOTE_ID@
    }
}

impl<B, C> View for CompilerService<B, C> {
    type V = Map<Seq<char>, CompilerSession<B, C>>;

    closed spec fn view(&self) -> Map<Seq<char>, CompilerSession<B, C>> {
        entries_view(self.sessions@)
    }
}

impl<B, C> CompilerService<B, C> {
    /// No two sessions share an identifier.
    pub closed spec fn wf(&self) -> bool {
        entries_wf(self.sessions@)
    }

    /// An empty store.
    pub fn new() -> (r: Self)
        ensures
            r.wf(),
            r@ == Map::<Seq<char>, CompilerSession<B, C>>::empty(),
    {
        let r = CompilerService { sessions: Vec::new() };
        assert(r@ =~= Map::<Seq<char>, CompilerSession<B, C>>::empty());
        r
    }

    fn position(&self, id: &RemoteId) -> (r: Option<usize>)
        requires
            self.wf(),
        ensures
            r is None <==> !self@.contains_key(id@),
            r matches Some(i) ==> i < self.sessions@.len() && self.sessions@[i as int].id@ == id@,
    {
        let mut i: usize = 0;
        while i < self.sessions.len()
            invariant
                i <= self.sessions@.len(),
                forall|j: int| 0 <= j < i ==> self.sessions@[j].id@ != id@,
            decreases self.sessions@.len() - i,
        {
            if self.sessions[i].id.id == id.id {
                return Some(i);
            }
            i = i + 1;
        }
        None
    }

    /// Looks a session up by identifier.
    pub fn get_session(&self, id: &RemoteId) -> (r: Result<&CompilerSession<B, C>, Status>)
        requires
            self.wf(),
        ensures
            r is Ok <==> self@.contains_key(id@),
            r matches Ok(s) ==> *s == self@[id@],
            r matches Err(e) ==> e.code == Code::FailedPrecondition && e.message@ == INVALID_REMOTE_ID@,
    {
        match self.position(id) {
            Some(i) => {
                proof {
                    lemma_entries_at(self.sessions@, i as int);
                }
                Ok(&self.sessions[i].session)
            },
            None => Err(Status::failed_precondition(INVALID_REMOTE_ID)),
        }
    }

    /// Looks a session up by identifier, for a change of its state.
    pub fn get_session_mut(&mut self, id: &RemoteId) -> (r: Result<&mut CompilerSession<B, C>, Status>)
        requires
            old(self).wf(),
        ensures
            r is Ok <==> old(self)@.contains_key(id@),
            r matches Ok(s) ==> *s == old(self)@[id@] && final(self).wf()
                && final(self)@ == old(self)@.insert(id@, *final(s)),
            r matches Err(e) ==> e.code == Code::FailedPrecondition && e.message@ == INVALID_REMOTE_ID@
                && *final(self) == *old(self),
    {
        match self.position(id) {
            Some(i) => {
                proof {
                    lemma_entries_at(self.sessions@, i as int);
                }
                proof {
                    lemma_entries_update(self.sessions@, i as int);
                }
                let entry = &mut self.sessions[i];
                Ok(&mut entry.session)
            },
            None => Err(Status::failed_precondition(INVALID_REMOTE_ID)),
        }
    }

    /// Registers a session under an identifier that is not in use yet.
    pub fn insert_session(&mut self, id: RemoteId, session: CompilerSession<B, C>) -> (r: Result<(), Status>)
        requires
            old(self).wf(),
        ensures
            final(self).wf(),
            r is Ok <==> !old(self)@.contains_key(id@),
            r is Ok ==> final(self)@ == old(self)@.insert(id@, session),
            r matches Err(e) ==> e.code == Code::Internal && e.message@ == REMOTE_ID_IN_USE@
                && final(self)@ == old(self)@,
    {
        match self.position(&id) {
            Some(_) => Err(Status::internal(REMOTE_ID_IN_USE)),
            None => {
                let entry = SessionEntry { id, session };
                proof {
                    lemma_entries_push(self.sessions@, entry);
                }
                self.sessions.push(entry);
                Ok(())
            },
        }
    }

    /// Opens a session in the build state around a fresh builder and
    /// returns its new identifier, which no registered session had. It fails
    /// only when the operating system supplies no random bytes, or when the
    /// random identifier drawn is already registered, which cannot happen on
    /// a store that holds no identifier of that length.
    pub fn new_builder(&mut self, builder: B) -> (r: Result<RemoteId, Status>)
        requires
            old(self).wf(),
        ensures
            final(self).wf(),
            r matches Ok(id) ==> !old(self)@.contains_key(id@) && id@.len() == REMOTE_ID_LEN
                && final(self)@ == old(self)@.insert(id@, CompilerSession::Build(builder)),
            r matches Err(e) ==> e.code == Code::Internal && (e.message@ == REMOTE_ID_IN_USE@
                || e.message@ == NO_RANDOMNESS@) && final(self)@ == old(self)@,
            r matches Err(e) && e.message@ == REMOTE_ID_IN_USE@ ==> exists|k: Seq<char>|
                old(self)@.contains_key(k) && k.len() == REMOTE_ID_LEN,
    {
        let id = match RemoteId::new() {
            Some(id) => id,
            None => {
                proof {
                    reveal_strlit("no random bytes for a remote id");
                    reveal_strlit("remote id already in use");
                    assert(NO_RANDOMNESS@[0] != REMOTE_ID_IN_USE@[0]);
                }
                return Err(Status::internal(NO_RANDOMNESS));
            },
        };
        let reply = RemoteId::from_text(id.as_str());
        match self.insert_session(id, CompilerSession::Build(builder)) {
            Ok(()) => Ok(reply),
            Err(e) => Err(e),
        }
    }

    /// The session that a request names.
    fn addressed(&self, header: Option<&str>) -> (r: Result<&CompilerSession<B, C>, Status>)
        requires
            self.wf(),
        ensures
            r is Ok <==> header_known(self@, header),
            r matches Ok(s) ==> *s == self@[header.unwrap()@],
            r matches Err(e) ==> e.code == Code::FailedPrecondition && e.message@ == INVALID_REMOTE_ID@,
    {
        let id = get_remote_id(header)?;
        self.get_session(&id)
    }

    /// The session that a request names, for a change of its state.
    fn addressed_mut(&mut self, header: Option<&str>) -> (r: Result<&mut CompilerSession<B, C>, Status>)
        requires
            old(self).wf(),
        ensures
            r is Ok <==> header_known(old(self)@, header),
            r matches Ok(s) ==> *s == old(self)@[header.unwrap()@] && final(self).wf()
                && final(self)@ == old(self)@.insert(header.unwrap()@, *final(s)),
            r matches Err(e) ==> e.code == Code::FailedPrecondition && e.message@ == INVALID_REMOTE_ID@
                && *final(self) == *old(self),
    {
        let id = match get_remote_id(header) {
            Ok(id) => id,
            Err(e) => return Err(e),
        };
        self.get_session_mut(&id)
    }

    /// `SetTarget`: hands out the named session's builder together with the
    /// decoded triple to apply to it. Every wire triple decodes; unknown tags
    /// read as `Unknown`.
    pub fn set_target(&mut self, header: Option<&str>, triple: &wire::Triple) -> (r: Result<
        (&mut B, target::Triple),
        Status,
    >)
        requires
            old(self).wf(),
        ensures
            r is Ok <==> addresses_builder(old(self)@, header),
            r matches Ok((b, t)) ==> t == triple_from_wire(*triple) && old(self)@[header.unwrap()@]
                == CompilerSession::<B, C>::Build(*b) && final(self).wf() && final(self)@ == old(
                self,
            )@.insert(header.unwrap()@, CompilerSession::<B, C>::Build(*final(b))),
            r matches Err(e) ==> e.code == Code::FailedPrecondition && e.message@ == builder_refusal(
                old(self)@,
                header,
            ) && final(self).wf() && final(self)@ == old(self)@,
    {
        let t = rpc2internal::from_triple(triple);
        match self.set_settings(header) {
            Ok(b) => Ok((b, t)),
            Err(e) => Err(e),
        }
    }

    /// `GetTriple`: the named session in either state; the triple is that of
    /// the builder or of the compiler it holds.
    pub fn get_triple(&self, header: Option<&str>) -> (r: Result<&CompilerSession<B, C>, Status>)
        requires
            self.wf(),
        ensures
            r is Ok <==> header_known(self@, header),
            r matches Ok(s) ==> *s == self@[header.unwrap()@],
            r matches Err(e) ==> e.code == Code::FailedPrecondition && e.message@ == INVALID_REMOTE_ID@,
    {
        self.addressed(header)
    }

    /// The named session's builder, which `Build` turns into a compiler.
    pub fn builder(&self, header: Option<&str>) -> (r: Result<&B, Status>)
        requires
            self.wf(),
        ensures
            r is Ok <==> addresses_builder(self@, header),
            r matches Ok(b) ==> self@[header.unwrap()@] == CompilerSession::<B, C>::Build(*b),
            r matches Err(e) ==> e.code == Code::FailedPrecondition && e.message@ == builder_refusal(
                self@,
                header,
            ),
    {
        self.addressed(header)?.map_builder()
    }

    /// `SetSettings`: the named session's builder, to change one setting.
    pub fn set_settings(&mut self, header: Option<&str>) -> (r: Result<&mut B, Status>)
        requires
            old(self).wf(),
        ensures
            r is Ok <==> addresses_builder(old(self)@, header),
            r matches Ok(b) ==> old(self)@[header.unwrap()@] == CompilerSession::<B, C>::Build(*b)
                && final(self).wf() && final(self)@ == old(self)@.insert(
                header.unwrap()@,
                CompilerSession::<B, C>::Build(*final(b)),
            ),
            r matches Err(e) ==> e.code == Code::FailedPrecondition && e.message@ == builder_refusal(
                old(self)@,
                header,
            ) && final(self).wf() && final(self)@ == old(self)@,
    {
        proof {
            if header_known(self@, header) {
                assert(self@.insert(header.unwrap()@, self@[header.unwrap()@]) =~= self@);
            }
        }
        match self.addressed_mut(header) {
            Ok(session) => session.map_builder_mut(),
            Err(e) => Err(e),
        }
    }

    /// `EnableSettings` is reserved.
    pub fn enable_settings(&self, name: &str) -> (r: Result<(), Status>)
        ensures
            r matches Err(e) && e.code == Code::Unimplemented && e.message@ == NOT_IMPLEMENTED@,
    {
        Err(Status::unimplemented(NOT_IMPLEMENTED))
    }

    /// `GetSettings` is reserved.
    pub fn get_settings(&self) -> (r: Result<(), Status>)
        ensures
            r matches Err(e) && e.code == Code::Unimplemented && e.message@ == NOT_IMPLEMENTED@,
    {
        Err(Status::unimplemented(NOT_IMPLEMENTED))
    }

    /// `Build`, second half: once the builder has produced `compiler`, the
    /// named session moves to the compile state for good. A session that is
    /// not in the build state is left as it is.
    pub fn build(&mut self, header: Option<&str>, compiler: C) -> (r: Result<BuildResponse, Status>)
        requires
            old(self).wf(),
        ensures
            final(self).wf(),
            r is Ok <==> addresses_builder(old(self)@, header),
            r matches Ok(resp) ==> resp.remote_id@ == header.unwrap()@ && final(self)@ == old(
                self,
            )@.insert(header.unwrap()@, CompilerSession::<B, C>::Compile(compiler)),
            r matches Err(e) ==> e.code == Code::FailedPrecondition && e.message@ == builder_refusal(
                old(self)@,
                header,
            ) && final(self)@ == old(self)@,
    {
        let id = get_remote_id(header)?;
        let session = self.get_session_mut(&id)?;
        match session {
            CompilerSession::Build(_) => {
                *session = CompilerSession::Compile(compiler);
                Ok(BuildResponse { remote_id: id.id })
            },
            CompilerSession::Compile(_) => Err(Status::failed_precondition(NOT_IN_BUILD_STATE)),
        }
    }

    /// `GetFlags` and `GetIsaFlags`: the named session's compiler.
    pub fn compiler(&self, header: Option<&str>) -> (r: Result<&C, Status>)
        requires
            self.wf(),
        ensures
            r is Ok <==> addresses_compiler(self@, header),
            r matches Ok(c) ==> self@[header.unwrap()@] == CompilerSession::<B, C>::Compile(*c),
            r matches Err(e) ==> e.code == Code::FailedPrecondition && e.message@ == compiler_refusal(
                self@,
                header,
            ),
    {
        self.addressed(header)?.map_compiler()
    }

    /// `BuildModule`: checks the compile environment, then hands out the
    /// named session's compiler together with that environment.
    pub fn build_module(&self, header: Option<&str>, req: &BuildModuleRequest) -> (r: Result<
        (&C, CompileEnv),
        Status,
    >)
        requires
            self.wf(),
        ensures
            r is Ok <==> req.tunables is Some && req.features is Some && addresses_compiler(
                self@,
                header,
            ),
            !(req.tunables is Some && req.features is Some) ==> (r matches Err(e) && e.code
                == Code::InvalidArgument && e.message@ == BAD_COMPILE_ENV@),
            req.tunables is Some && req.features is Some && !addresses_compiler(self@, header)
                ==> (r matches Err(e) && e.code == Code::FailedPrecondition && e.message@
                == compiler_refusal(self@, header)),
            r matches Ok((c, env)) ==> self@[header.unwrap()@] == CompilerSession::<B, C>::Compile(*c)
                && CompileEnv::try_from_spec(*req) == Some(env),
    {
        let env = match CompileEnv::try_from(req) {
            Ok(env) => env,
            Err(_) => return Err(Status::invalid_argument(BAD_COMPILE_ENV)),
        };
        let compiler = self.compiler(header)?;
        Ok((compiler, env))
    }
}

/// Two successive `new_builder` calls never hand out the same identifier:
/// the second identifier was not registered after the first call, which
/// registered the first.
pub proof fn lemma_new_builder_ids_distinct<B, C>(
    before: Map<Seq<char>, CompilerSession<B, C>>,
    first: Seq<char>,
    builder: B,
    second: Seq<char>,
)
    requires
        !before.contains_key(first),
        !before.insert(first, CompilerSession::<B, C>::Build(builder)).contains_key(second),
    ensures
        first != second,
{
    assert(before.insert(first, CompilerSession::<B, C>::Build(builder)).contains_key(first));
}

/// A lookup keeps returning the same session while other sessions are
/// opened or changed: a store change made through another identifier leaves
/// this identifier's session as it was.
pub proof fn lemma_lookup_stable<B, C>(
    store: Map<Seq<char>, CompilerSession<B, C>>,
    id: Seq<char>,
    other: Seq<char>,
    session: CompilerSession<B, C>,
)
    requires
        store.contains_key(id),
        other != id,
    ensures
        store.insert(other, session).contains_key(id),
        store.insert(other, session)[id] == store[id],
{
}

/// For every registered session, exactly one family of handlers gets
/// through: the builder handlers while it is being configured, the compiler
/// handlers once it is built.
pub proof fn lemma_store_state_exclusive<B, C>(store: Map<Seq<char>, CompilerSession<B, C>>, header: Option<&str>)
    requires
        header_known(store, header),
    ensures
        addresses_builder(store, header) != addresses_compiler(store, header),
{
}

} // verus!
