//! Aggregation of per-function compilation results. Functions are compiled
//! in any order; their results are put back in the order of their
//! defined-function indices, and the first failure observed aborts the
//! module.

use crate::codegen::CodeGenerator;
use crate::compile_env::CompileEnv;
use crate::module_reply::BuildFailure;
use vstd::prelude::*;

verus! {

/// Why a module's function results could not be assembled.
pub enum CollectError<E> {
    /// A function failed to compile; this is the first failure observed.
    Compile(E),
    /// The indices are not exactly `0..count`, each once.
    BadIndex,
}

/// Whether some result gives `value` as the compiled function of index `i`.
pub open spec fn compiled_at<T, E>(results: Seq<(usize, Result<T, E>)>, i: int, value: T) -> bool {
    exists|j: int| 0 <= j < results.len() && results[j].0 == i && results[j].1 == Ok::<T, E>(value)
}

/// Whether some result carries index `i`.
pub open spec fn has_index<T, E>(results: Seq<(usize, Result<T, E>)>, i: int) -> bool {
    exists|j: int| 0 <= j < results.len() && results[j].0 == i
}

/// Whether the results' indices are exactly `0..count`, each once.
pub open spec fn indices_exact<T, E>(results: Seq<(usize, Result<T, E>)>, count: nat) -> bool {
    &&& forall|j: int| 0 <= j < results.len() ==> results[j].0 < count
    &&& forall|j: int, k: int|
        0 <= j < results.len() && 0 <= k < results.len() && j != k ==> results[j].0 != results[k].0
    &&& forall|i: int| 0 <= i < count ==> #[trigger] has_index(results, i)
}

/// Whether no result is a failure.
pub open spec fn all_compiled<T, E>(results: Seq<(usize, Result<T, E>)>) -> bool {
    forall|j: int| 0 <= j < results.len() ==> results[j].1 is Ok
}

/// Puts per-function results in index order. The first failure in `results`
/// wins; otherwise the indices must be exactly `0..count`, and the output
/// holds at position `i` the function compiled for index `i`.
pub fn collect_in_index_order<T, E>(count: usize, results: Vec<(usize, Result<T, E>)>) -> (r: Result<
    Vec<T>,
    CollectError<E>,
>)
    ensures
        r matches Err(CollectError::Compile(e)) ==> exists|j: int|
            0 <= j < results@.len() && results@[j].1 == Err::<T, E>(e) && forall|k: int|
                0 <= k < j ==> results@[k].1 is Ok,
        !all_compiled(results@) ==> r matches Err(CollectError::Compile(_)),
        all_compiled(results@) ==> (r is Ok <==> indices_exact(results@, count as nat)),
        r matches Ok(v) ==> v@.len() == count && forall|i: int|
            0 <= i < count ==> compiled_at(results@, i, #[trigger] v@[i]),
{
    let ghost orig = results@;
    let mut pending = results;
    // Fail fast on the first failure.
    let mut j: usize = 0;
    while j < pending.len()
        invariant
            pending@ == orig,
            orig == results@,
            j <= orig.len(),
            forall|k: int| 0 <= k < j ==> orig[k].1 is Ok,
        decreases orig.len() - j,
    {
        if pending[j].1.is_err() {
            let (_, failed) = pending.remove(j);
            match failed {
                Ok(_) => {
                    assert(false);
                    return Err(CollectError::BadIndex);
                },
                Err(e) => {
                    assert(orig[j as int].1 == Err::<T, E>(e));
                    assert(!all_compiled(orig));
                    return Err(CollectError::Compile(e));
                },
            }
        }
        j = j + 1;
    }
    assert(all_compiled(orig));
    // Every index below `count`, each once, and every index seen.
    let mut seen: Vec<bool> = Vec::new();
    let mut i: usize = 0;
    while i < count
        invariant
            i <= count,
            seen@.len() == i,
            forall|k: int| 0 <= k < i ==> !seen@[k],
        decreases count - i,
    {
        seen.push(false);
        i = i + 1;
    }
    let mut j: usize = 0;
    while j < pending.len()
        invariant
            pending@ == orig,
            orig == results@,
            all_compiled(orig),
            j <= orig.len(),
            seen@.len() == count,
            forall|k: int| 0 <= k < j ==> orig[k].0 < count,
            forall|k: int, l: int| 0 <= k < j && 0 <= l < j && k != l ==> orig[k].0 != orig[l].0,
            forall|i: int|
                0 <= i < count ==> (seen@[i] <==> exists|k: int| 0 <= k < j && orig[k].0 == i),
        decreases orig.len() - j,
    {
        let idx = pending[j].0;
        if idx >= count || seen[idx] {
            proof {
                if idx < count {
                    let k = choose|k: int| 0 <= k < j && orig[k].0 == idx;
                    assert(orig[k].0 == orig[j as int].0);
                }
                assert(!indices_exact(orig, count as nat));
            }
            return Err(CollectError::BadIndex);
        }
        seen.set(idx, true);
        j = j + 1;
    }
    assert forall|i: int| 0 <= i < count implies (seen@[i] <==> #[trigger] has_index(orig, i)) by {
        if has_index(orig, i) {
            let k = choose|k: int| 0 <= k < orig.len() && orig[k].0 == i;
        }
    }
    let mut i: usize = 0;
    while i < count
        invariant
            i <= count,
            orig == results@,
            all_compiled(orig),
            seen@.len() == count,
            forall|k: int| 0 <= k < i ==> seen@[k],
            forall|i: int|
                0 <= i < count ==> (seen@[i] <==> has_index(orig, i)),
        decreases count - i,
    {
        if !seen[i] {
            assert(!has_index(orig, i as int));
            assert(!indices_exact(orig, count as nat));
            return Err(CollectError::BadIndex);
        }
        i = i + 1;
    }
    assert(indices_exact(orig, count as nat));
    // Move each result into the slot of its index.
    let mut slots: Vec<Option<T>> = Vec::new();
    let mut i: usize = 0;
    while i < count
        invariant
            i <= count,
            slots@.len() == i,
            forall|k: int| 0 <= k < i ==> slots@[k] is None,
        decreases count - i,
    {
        slots.push(None);
        i = i + 1;
    }
    assert(pending@ =~= orig.take(orig.len() as int));
    while pending.len() > 0
        invariant
            indices_exact(orig, count as nat),
            all_compiled(orig),
            pending@.len() <= orig.len(),
            pending@ == orig.take(pending@.len() as int),
            slots@.len() == count,
            forall|i: int|
                0 <= i < count ==> match #[trigger] slots@[i] {
                    Some(t) => compiled_at(orig, i, t),
                    None => has_index(pending@, i),
                },
        decreases pending@.len(),
    {
        let ghost n = pending@.len() - 1;
        assert(pending@[n] == orig[n]);
        let (idx, res) = match pending.pop() {
            Some(p) => p,
            None => {
                assert(false);
                return Err(CollectError::BadIndex);
            },
        };
        assert(orig[n] == (idx, res));
        match res {
            Ok(t) => {
                proof {
                    assert(compiled_at(orig, idx as int, t));
                    assert forall|i: int| 0 <= i < count && i != idx && #[trigger] slots@[i] is None
                        implies has_index(pending@, i) by {
                        let k = choose|k: int| 0 <= k < n + 1 && orig[k].0 == i;
                        assert(k != n);
                        assert(pending@[k].0 == i);
                    }
                }
                slots.set(idx, Some(t));
            },
            Err(_) => {
                assert(false);
            },
        }
        assert(pending@ =~= orig.take(pending@.len() as int));
    }
    let mut out: Vec<T> = Vec::new();
    let mut i: usize = 0;
    while i < count
        invariant
            i <= count,
            slots@.len() == count,
            out@.len() == i,
            forall|k: int| 0 <= k < i ==> compiled_at(orig, k, #[trigger] out@[k]),
            forall|k: int| i <= k < count ==> match #[trigger] slots@[k] {
                Some(t) => compiled_at(orig, k, t),
                None => false,
            },
        decreases count - i,
    {
        match slots[i].take() {
            Some(t) => out.push(t),
            None => {
                assert(false);
            },
        }
        i = i + 1;
    }
    Ok(out)
}

/// The result of compiling each of a module's functions, in the order the
/// code generator lists them.
pub open spec fn compile_results<M, F, K, A, G: CodeGenerator<M, F, K, A>>(
    g: G,
    module: M,
    env: CompileEnv,
) -> Seq<(usize, Result<K, String>)> {
    g.bodies(module).map_values(|p: (usize, F)| (p.0, g.compiled(module, p.0, p.1, env)))
}

/// The first failure among the results, in their order.
pub open spec fn first_failure<T, E>(rs: Seq<(usize, Result<T, E>)>) -> Option<E>
    decreases rs.len(),
{
    if rs.len() == 0 {
        None
    } else if rs[0].1 is Err {
        Some(rs[0].1->Err_0)
    } else {
        first_failure(rs.drop_first())
    }
}

/// The compiled functions in index order.
pub open spec fn index_ordered<T, E>(rs: Seq<(usize, Result<T, E>)>) -> Seq<T> {
    Seq::new(rs.len(), |i: int| choose|t: T| compiled_at(rs, i, t))
}

/// What compiling one module gives: the first function failure, or the
/// artifact of its functions in index order, with paged memory layout
/// exactly when the environment asks for it.
pub open spec fn module_outcome<M, F, K, A, G: CodeGenerator<M, F, K, A>>(
    g: G,
    module: M,
    env: CompileEnv,
) -> Result<A, BuildFailure> {
    let rs = compile_results(g, module, env);
    match first_failure(rs) {
        Some(e) => Err(BuildFailure::Compile(e)),
        None => if indices_exact(rs, rs.len()) {
            match g.finished(module, index_ordered(rs), env.paged_memory_initialization, env) {
                Ok(a) => Ok(a),
                Err(e) => Err(BuildFailure::Compile(e)),
            }
        } else {
            Err(BuildFailure::BadFunctionIndex)
        },
    }
}

/// The artifacts of the modules in order, or the first failure.
pub open spec fn modules_outcome<M, F, K, A, G: CodeGenerator<M, F, K, A>>(
    g: G,
    modules: Seq<M>,
    env: CompileEnv,
) -> Result<Seq<A>, BuildFailure>
    decreases modules.len(),
{
    if modules.len() == 0 {
        Ok(Seq::empty())
    } else {
        match modules_outcome(g, modules.drop_last(), env) {
            Err(e) => Err(e),
            Ok(arts) => match module_outcome(g, modules.last(), env) {
                Err(e) => Err(e),
                Ok(a) => Ok(arts.push(a)),
            },
        }
    }
}

/// What the pipeline gives for `wasm`: a parse failure before anything is
/// compiled, else the first module failure, else the serialized artifacts.
pub open spec fn pipeline_outcome<M, F, K, A, G: CodeGenerator<M, F, K, A>>(
    g: G,
    wasm: Seq<u8>,
    env: CompileEnv,
) -> Result<Seq<u8>, BuildFailure> {
    match g.translation(wasm, env) {
        None => Err(BuildFailure::Parse),
        Some(modules) => match modules_outcome(g, modules, env) {
            Err(e) => Err(e),
            Ok(arts) => match g.serialized(arts, env) {
                Ok(b) => Ok(b),
                Err(e) => Err(BuildFailure::Compile(e)),
            },
        },
    }
}

proof fn lemma_first_failure<T, E>(rs: Seq<(usize, Result<T, E>)>)
    ensures
        first_failure(rs) is None <==> all_compiled(rs),
        forall|j: int|
            0 <= j < rs.len() && rs[j].1 is Err && (forall|k: int| 0 <= k < j ==> rs[k].1 is Ok)
                ==> first_failure(rs) == Some(rs[j].1->Err_0),
    decreases rs.len(),
{
    if rs.len() > 0 {
        let t = rs.drop_first();
        lemma_first_failure(t);
        assert forall|j: int|
            0 <= j < rs.len() && rs[j].1 is Err && (forall|k: int| 0 <= k < j ==> rs[k].1 is Ok)
                implies first_failure(rs) == Some(rs[j].1->Err_0) by {
            if j > 0 {
                assert(rs[0].1 is Ok);
                assert(t[j - 1] == rs[j]);
                assert forall|k: int| 0 <= k < j - 1 implies t[k].1 is Ok by {
                    assert(t[k] == rs[k + 1]);
                }
            }
        }
        if all_compiled(rs) {
            assert forall|k: int| 0 <= k < t.len() implies t[k].1 is Ok by {
                assert(t[k] == rs[k + 1]);
            }
        }
        if rs[0].1 is Ok && all_compiled(t) {
            assert forall|k: int| 0 <= k < rs.len() implies rs[k].1 is Ok by {
                if k > 0 {
                    assert(t[k - 1] == rs[k]);
                }
            }
        }
    }
}

proof fn lemma_index_ordered<T, E>(rs: Seq<(usize, Result<T, E>)>, v: Seq<T>)
    requires
        indices_exact(rs, rs.len()),
        v.len() == rs.len(),
        forall|i: int| 0 <= i < rs.len() ==> compiled_at(rs, i, #[trigger] v[i]),
    ensures
        v == index_ordered(rs),
{
    assert forall|i: int| 0 <= i < rs.len() implies v[i] == index_ordered(rs)[i] by {
        let t = choose|t: T| compiled_at(rs, i, t);
        assert(compiled_at(rs, i, v[i]));
        let j1 = choose|j: int| 0 <= j < rs.len() && rs[j].0 == i && rs[j].1 == Ok::<T, E>(v[i]);
        let j2 = choose|j: int| 0 <= j < rs.len() && rs[j].0 == i && rs[j].1 == Ok::<T, E>(t);
        assert(j1 == j2);
    }
    assert(v =~= index_ordered(rs));
}

fn compile_module<M, F, K, A, G: CodeGenerator<M, F, K, A>>(g: &G, module: M, env: &CompileEnv) -> (r:
    Result<A, BuildFailure>)
    ensures
        r == module_outcome(*g, module, *env),
{
    let mut bodies = g.take_bodies(&module);
    let ghost all = compile_results(*g, module, *env);
    let ghost bs = bodies@;
    let count = bodies.len();
    let mut results: Vec<(usize, Result<K, String>)> = Vec::new();
    let mut j: usize = 0;
    while bodies.len() > 0
        invariant
            bs == g.bodies(module),
            all == compile_results(*g, module, *env),
            all.len() == bs.len(),
            count == bs.len(),
            j + bodies@.len() == bs.len(),
            bodies@ == bs.skip(j as int),
            results@ == all.take(j as int),
        decreases bodies@.len(),
    {
        let (index, body) = bodies.remove(0);
        assert(bs[j as int] == (index, body));
        let res = g.compile_function(&module, index, body, env);
        assert(all[j as int] == (index, res));
        results.push((index, res));
        assert(results@ =~= all.take(j + 1));
        assert(bodies@ =~= bs.skip(j + 1));
        j = j + 1;
    }
    assert(results@ =~= all);
    proof {
        lemma_first_failure(all);
    }
    match collect_in_index_order(count, results) {
        Err(CollectError::Compile(e)) => Err(BuildFailure::Compile(e)),
        Err(CollectError::BadIndex) => Err(BuildFailure::BadFunctionIndex),
        Ok(functions) => {
            proof {
                lemma_index_ordered(all, functions@);
            }
            match g.finish(module, functions, env.paged_memory_initialization, env) {
                Ok(a) => Ok(a),
                Err(e) => Err(BuildFailure::Compile(e)),
            }
        },
    }
}

/// The compile pipeline: parse and validate `wasm`; for each module take its
/// function bodies, compile them, put them back in index order, emit the
/// object, lay memory out in pages when the environment asks for it, and
/// finish; then serialize the artifacts of all modules together. A parse
/// failure comes before any compilation, and the first failure aborts the
/// rest.
pub fn build_artifacts<M, F, K, A, G: CodeGenerator<M, F, K, A>>(
    g: &G,
    env: &CompileEnv,
    wasm: &[u8],
) -> (r: Result<Vec<u8>, BuildFailure>)
    ensures
        r matches Ok(b) ==> pipeline_outcome(*g, wasm@, *env) == Ok::<Seq<u8>, BuildFailure>(b@),
        r matches Err(e) ==> pipeline_outcome(*g, wasm@, *env) == Err::<Seq<u8>, BuildFailure>(e),
{
    let mut modules = match g.translate(wasm, env) {
        Some(ms) => ms,
        None => return Err(BuildFailure::Parse),
    };
    let ghost ms = modules@;
    let total = modules.len();
    let mut artifacts: Vec<A> = Vec::new();
    let mut i: usize = 0;
    while modules.len() > 0
        invariant
            g.translation(wasm@, *env) == Some(ms),
            ms.len() == total,
            i + modules@.len() == ms.len(),
            modules@ == ms.skip(i as int),
            modules_outcome(*g, ms.take(i as int), *env) == Ok::<Seq<A>, BuildFailure>(artifacts@),
        decreases modules@.len(),
    {
        let module = modules.remove(0);
        assert(ms[i as int] == module);
        assert(ms.take(i + 1).drop_last() =~= ms.take(i as int));
        assert(ms.take(i + 1).last() == module);
        match compile_module(g, module, env) {
            Ok(a) => artifacts.push(a),
            Err(e) => {
                proof {
                    lemma_outcome_stops(*g, ms, i as int, *env);
                    assert(ms.take(ms.len() as int) =~= ms);
                    assert(modules_outcome(*g, ms.take(ms.len() as int), *env) == Err::<
                        Seq<A>,
                        BuildFailure,
                    >(e));
                }
                return Err(e);
            },
        }
        assert(modules@ =~= ms.skip(i + 1));
        i = i + 1;
    }
    assert(ms.take(i as int) =~= ms);
    match g.serialize(artifacts, env) {
        Ok(b) => Ok(b),
        Err(e) => Err(BuildFailure::Compile(e)),
    }
}

/// Once a module fails, the outcome of any longer prefix is that failure.
proof fn lemma_outcome_stops<M, F, K, A, G: CodeGenerator<M, F, K, A>>(
    g: G,
    ms: Seq<M>,
    i: int,
    env: CompileEnv,
)
    requires
        0 <= i < ms.len(),
        modules_outcome(g, ms.take(i), env) is Ok,
        module_outcome(g, ms[i], env) is Err,
    ensures
        forall|n: int|
            i < n <= ms.len() ==> #[trigger] modules_outcome(g, ms.take(n), env) == Err::<
                Seq<A>,
                BuildFailure,
            >(module_outcome(g, ms[i], env)->Err_0),
    decreases ms.len() - i,
{
    assert forall|n: int| i < n <= ms.len() implies #[trigger] modules_outcome(g, ms.take(n), env)
        == Err::<Seq<A>, BuildFailure>(module_outcome(g, ms[i], env)->Err_0) by {
        lemma_outcome_prefix(g, ms, i, n, env);
    }
}

proof fn lemma_outcome_prefix<M, F, K, A, G: CodeGenerator<M, F, K, A>>(
    g: G,
    ms: Seq<M>,
    i: int,
    n: int,
    env: CompileEnv,
)
    requires
        0 <= i < n <= ms.len(),
        modules_outcome(g, ms.take(i), env) is Ok,
        module_outcome(g, ms[i], env) is Err,
    ensures
        modules_outcome(g, ms.take(n), env) == Err::<Seq<A>, BuildFailure>(
            module_outcome(g, ms[i], env)->Err_0,
        ),
    decreases n - i,
{
    assert(ms.take(n).drop_last() =~= ms.take(n - 1));
    if n == i + 1 {
        assert(ms.take(n).last() == ms[i]);
    } else {
        lemma_outcome_prefix(g, ms, i, n - 1, env);
    }
}

} // verus!
