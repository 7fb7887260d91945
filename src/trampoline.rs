//! Layout decisions of the host/wasm trampolines: the size of a value slot,
//! the length of the slot buffer, where each argument and result lives, and
//! the relocations a trampoline body may carry.

use vstd::prelude::*;

verus! {

/// The smallest slot: one 128-bit value.
pub const MIN_SLOT_SIZE: u32 = 16;

/// Bytes of one value slot for a target whose pointers take `pointer_bytes`.
pub open spec fn slot_size_spec(pointer_bytes: u32) -> u32 {
    if pointer_bytes > MIN_SLOT_SIZE {
        pointer_bytes
    } else {
        MIN_SLOT_SIZE
    }
}

/// Byte offset of slot `i` in a buffer of `slot`-byte slots.
pub open spec fn slot_offset_spec(i: int, slot: u32) -> int {
    i * slot
}

/// The larger of two counts.
pub open spec fn max_count(a: usize, b: usize) -> int {
    if a > b {
        a as int
    } else {
        b as int
    }
}

/// The slot size: the larger of 16 bytes and the pointer width, so that
/// every scalar, reference and small vector fits in one slot.
pub fn slot_size(pointer_bytes: u32) -> (r: u32)
    ensures
        r == slot_size_spec(pointer_bytes),
        r >= MIN_SLOT_SIZE,
        r >= pointer_bytes,
{
    if pointer_bytes > MIN_SLOT_SIZE {
        pointer_bytes
    } else {
        MIN_SLOT_SIZE
    }
}

/// Length in bytes of the slot buffer: one slot for each parameter or each
/// result, whichever are more. `None` when it does not fit in 32 bits.
pub fn values_vec_len(params: usize, results: usize, slot: u32) -> (r: Option<u32>)
    ensures
        r is Some <==> max_count(params, results) * slot <= u32::MAX,
        r matches Some(n) ==> n == max_count(params, results) * slot,
{
    let count = if params > results {
        params
    } else {
        results
    };
    if slot == 0 {
        return Some(0);
    }
    if count > u32::MAX as usize {
        proof {
            assert(count * slot >= count) by (nonlinear_arith)
                requires
                    slot >= 1,
            ;
        }
        return None;
    }
    let c = count as u64;
    proof {
        assert(c * slot <= u32::MAX * u32::MAX) by (nonlinear_arith)
            requires
                c <= u32::MAX,
                slot <= u32::MAX,
        ;
    }
    let total = c * slot as u64;
    if total > u32::MAX as u64 {
        None
    } else {
        Some(total as u32)
    }
}

/// Byte offsets of slots `0..count`, as the signed offsets that loads and
/// stores take. `None` when the last offset does not fit.
pub fn slot_offsets(count: usize, slot: u32) -> (r: Option<Vec<i32>>)
    ensures
        r is Some <==> count == 0 || (count - 1) * slot <= i32::MAX,
        r matches Some(v) ==> v@.len() == count && forall|i: int|
            0 <= i < count ==> v@[i] == slot_offset_spec(i, slot),
{
    let mut v: Vec<i32> = Vec::new();
    let mut i: usize = 0;
    let mut offset: u64 = 0;
    while i < count
        invariant
            i <= count,
            v@.len() == i,
            offset == i * slot,
            forall|k: int| 0 <= k < i ==> v@[k] == slot_offset_spec(k, slot),
            i > 0 ==> (i - 1) * slot <= i32::MAX,
        decreases count - i,
    {
        if offset > i32::MAX as u64 {
            proof {
                assert((count - 1) * slot >= i * slot) by (nonlinear_arith)
                    requires
                        i <= count - 1,
                ;
            }
            return None;
        }
        v.push(offset as i32);
        proof {
            assert((i + 1) * slot == i * slot + slot) by (nonlinear_arith);
        }
        offset = offset + slot as u64;
        i = i + 1;
    }
    proof {
        if count > 0 {
            assert((count - 1) * slot <= i32::MAX);
        }
    }
    Some(v)
}

/// Where the host-to-wasm trampoline takes one argument of the callee.
#[derive(PartialEq, Eq, Structural, Clone, Copy, Debug)]
pub enum ArgSource {
    /// The callee's context pointer, passed through.
    Vmctx,
    /// The caller's context pointer, passed through.
    CallerVmctx,
    /// A load from the slot buffer at this byte offset.
    Slot(i32),
}

/// The source of argument `i` of a callee called from the host.
pub open spec fn arg_source_spec(i: int, slot: u32) -> ArgSource {
    if i == 0 {
        ArgSource::Vmctx
    } else if i == 1 {
        ArgSource::CallerVmctx
    } else {
        ArgSource::Slot(slot_offset_spec(i - 2, slot) as i32)
    }
}

/// The arguments of a callee whose signature has `wasm_params` parameters,
/// the two context pointers first: the context pointers are passed through
/// and every other argument is loaded from its slot.
pub fn host_to_wasm_arguments(wasm_params: usize, slot: u32) -> (r: Option<Vec<ArgSource>>)
    ensures
        r is Some <==> wasm_params <= 2 || (wasm_params - 3) * slot <= i32::MAX,
        r matches Some(v) ==> v@.len() == wasm_params && forall|i: int|
            0 <= i < wasm_params ==> v@[i] == arg_source_spec(i, slot),
{
    let loaded = if wasm_params > 2 {
        wasm_params - 2
    } else {
        0
    };
    let offsets = slot_offsets(loaded, slot)?;
    let mut v: Vec<ArgSource> = Vec::new();
    let mut i: usize = 0;
    while i < wasm_params
        invariant
            i <= wasm_params,
            v@.len() == i,
            offsets@.len() == loaded,
            loaded == if wasm_params > 2 { wasm_params - 2 } else { 0 },
            forall|k: int| 0 <= k < loaded ==> offsets@[k] == slot_offset_spec(k, slot),
            forall|k: int| 0 <= k < i ==> v@[k] == arg_source_spec(k, slot),
        decreases wasm_params - i,
    {
        let source = if i == 0 {
            ArgSource::Vmctx
        } else if i == 1 {
            ArgSource::CallerVmctx
        } else {
            ArgSource::Slot(offsets[i - 2])
        };
        v.push(source);
        i = i + 1;
    }
    Some(v)
}

/// Frame of the host-to-wasm trampoline: where each argument of the callee
/// comes from, and where each of its results is stored back.
pub struct HostToWasmLayout {
    pub args: Vec<ArgSource>,
    pub result_offsets: Vec<i32>,
}

/// Whether `l` is the host-to-wasm frame of a callee with `wasm_params`
/// parameters (the two context pointers first) and `results` results:
/// argument `i` comes from `arg_source_spec(i, slot)`, and result `i` is
/// stored into slot `i`.
pub open spec fn host_to_wasm_frame(l: HostToWasmLayout, wasm_params: usize, results: usize, slot: u32) -> bool {
    &&& l.args@.len() == wasm_params
    &&& l.result_offsets@.len() == results
    &&& forall|i: int| 0 <= i < wasm_params ==> l.args@[i] == arg_source_spec(i, slot)
    &&& forall|i: int| 0 <= i < results ==> l.result_offsets@[i] == slot_offset_spec(i, slot)
}

/// Whether every offset of the host-to-wasm frame fits a load or store.
pub open spec fn host_to_wasm_fits(wasm_params: usize, results: usize, slot: u32) -> bool {
    &&& wasm_params <= 2 || (wasm_params - 3) * slot <= i32::MAX
    &&& results == 0 || (results - 1) * slot <= i32::MAX
}

/// Lays out the host-to-wasm trampoline: the context pointers are passed
/// through, parameter `i` is loaded from slot `i`, and result `i` is stored
/// into slot `i`. `None` when an offset does not fit.
pub fn host_to_wasm_layout(wasm_params: usize, results: usize, pointer_bytes: u32) -> (r: Option<
    HostToWasmLayout,
>)
    ensures
        r is Some <==> host_to_wasm_fits(wasm_params, results, slot_size_spec(pointer_bytes)),
        r matches Some(l) ==> host_to_wasm_frame(l, wasm_params, results, slot_size_spec(pointer_bytes)),
{
    let slot = slot_size(pointer_bytes);
    let args = host_to_wasm_arguments(wasm_params, slot)?;
    let result_offsets = slot_offsets(results, slot)?;
    Some(HostToWasmLayout { args, result_offsets })
}

/// The larger of a pool size and one.
pub open spec fn at_least_one(n: nat) -> nat {
    if n == 0 {
        1
    } else {
        n
    }
}

/// Lays out a host-to-wasm trampoline holding a translator for the code
/// generator: the most recently returned one, or `fresh` when the pool is
/// empty. The translator goes back to the pool afterwards, so the pool
/// ends with at least one. When the frame does not fit the pool is left as
/// it was.
pub fn host_to_wasm_trampoline<T>(
    pool: &mut TranslatorPool<T>,
    fresh: T,
    wasm_params: usize,
    results: usize,
    pointer_bytes: u32,
) -> (r: Option<HostToWasmLayout>)
    ensures
        r is Some <==> host_to_wasm_fits(wasm_params, results, slot_size_spec(pointer_bytes)),
        r matches Some(l) ==> host_to_wasm_frame(l, wasm_params, results, slot_size_spec(pointer_bytes))
            && final(pool)@.len() == at_least_one(old(pool)@.len()),
        r is None ==> final(pool)@ == old(pool)@,
{
    let layout = host_to_wasm_layout(wasm_params, results, pointer_bytes)?;
    let translator = match pool.take_translator() {
        Some(t) => t,
        None => fresh,
    };
    pool.save_translator(translator);
    Some(layout)
}

/// Lays out a wasm-to-host trampoline holding a translator in the same way
/// as `host_to_wasm_trampoline`.
pub fn wasm_to_host_trampoline<T>(
    pool: &mut TranslatorPool<T>,
    fresh: T,
    params: usize,
    results: usize,
    pointer_bytes: u32,
) -> (r: Option<WasmToHostLayout>)
    ensures
        r is Some <==> wasm_to_host_layout_spec_fits(params, results, pointer_bytes),
        r matches Some(l) ==> wasm_to_host_frame(l, params, results, pointer_bytes) && final(pool)@.len()
            == at_least_one(old(pool)@.len()),
        r is None ==> final(pool)@ == old(pool)@,
{
    let layout = wasm_to_host_layout(params, results, pointer_bytes)?;
    let translator = match pool.take_translator() {
        Some(t) => t,
        None => fresh,
    };
    pool.save_translator(translator);
    Some(layout)
}

/// Frame of the wasm-to-host trampoline: the slot buffer's length, where
/// each parameter is spilled and where each result is reloaded.
pub struct WasmToHostLayout {
    pub values_vec_len: u32,
    pub param_offsets: Vec<i32>,
    pub result_offsets: Vec<i32>,
}

/// Whether every length and offset of the wasm-to-host frame fits.
pub open spec fn wasm_to_host_layout_spec_fits(params: usize, results: usize, pointer_bytes: u32) -> bool {
    let slot = slot_size_spec(pointer_bytes);
    &&& max_count(params, results) * slot <= u32::MAX
    &&& params == 0 || (params - 1) * slot <= i32::MAX
    &&& results == 0 || (results - 1) * slot <= i32::MAX
}

/// Whether `l` is the wasm-to-host frame of a function with `params`
/// parameters and `results` results: one slot per parameter or result,
/// whichever are more, and parameter `i` and result `i` both in slot `i`.
pub open spec fn wasm_to_host_frame(l: WasmToHostLayout, params: usize, results: usize, pointer_bytes: u32) -> bool {
    let slot = slot_size_spec(pointer_bytes);
    &&& l.values_vec_len == max_count(params, results) * slot
    &&& l.param_offsets@.len() == params
    &&& l.result_offsets@.len() == results
    &&& forall|i: int| 0 <= i < params ==> l.param_offsets@[i] == slot_offset_spec(i, slot)
    &&& forall|i: int| 0 <= i < results ==> l.result_offsets@[i] == slot_offset_spec(i, slot)
}

/// Lays out the wasm-to-host trampoline of a function with `params`
/// parameters and `results` results: parameter `i` and result `i` both use
/// slot `i`. `None` when the buffer or an offset does not fit.
pub fn wasm_to_host_layout(params: usize, results: usize, pointer_bytes: u32) -> (r: Option<
    WasmToHostLayout,
>)
    ensures
        r is Some <==> wasm_to_host_layout_spec_fits(params, results, pointer_bytes),
        r matches Some(l) ==> wasm_to_host_frame(l, params, results, pointer_bytes),
{
    let slot = slot_size(pointer_bytes);
    let values_vec_len = values_vec_len(params, results, slot)?;
    let param_offsets = slot_offsets(params, slot)?;
    let result_offsets = slot_offsets(results, slot)?;
    Some(WasmToHostLayout { values_vec_len, param_offsets, result_offsets })
}

/// Name of a relocation's target in generated code.
#[derive(PartialEq, Eq, Structural, Clone, Copy, Debug)]
pub enum ExternalName {
    /// A function of the module being compiled.
    User { namespace: u32, index: u32 },
    /// A test case name.
    TestCase,
    /// A runtime library routine, by its number.
    LibCall(u32),
}

/// A relocation that the trampoline object must apply.
#[derive(PartialEq, Eq, Structural, Clone, Copy, Debug)]
pub struct Relocation {
    /// Kind of the relocation, by its number.
    pub reloc: u32,
    /// The library routine the relocation refers to.
    pub libcall: u32,
    /// Byte offset of the relocation in the code.
    pub offset: u32,
    pub addend: i64,
}

/// A relocation that trampoline code must never produce.
#[derive(PartialEq, Eq, Structural, Clone, Copy, Debug)]
pub enum RelocError {
    ConstantRelocation,
    JumpTableRelocation,
}

/// Collects the relocations of one trampoline body. Only library-call
/// relocations are accepted.
pub struct TrampolineRelocSink {
    pub relocs: Vec<Relocation>,
}

impl TrampolineRelocSink {
    pub fn new() -> (r: TrampolineRelocSink)
        ensures
            r.relocs@.len() == 0,
    {
        TrampolineRelocSink { relocs: Vec::new() }
    }

    /// Records a relocation against a library routine. Trampoline code
    /// refers to nothing else, so any other external name is a programmer
    /// error that callers must rule out.
    pub fn reloc_external(&mut self, offset: u32, reloc: u32, name: &ExternalName, addend: i64)
        requires
            *name is LibCall,
        ensures
            final(self).relocs@ == old(self).relocs@.push(
                Relocation { reloc, libcall: name->LibCall_0, offset, addend },
            ),
    {
        if let ExternalName::LibCall(libcall) = name {
            self.relocs.push(Relocation { reloc, libcall: *libcall, offset, addend });
        }
    }

    /// Constant-pool relocations are refused.
    pub fn reloc_constant(&mut self, code_offset: u32, reloc: u32, constant_offset: u32) -> (r: Result<
        (),
        RelocError,
    >)
        ensures
            r == Err::<(), RelocError>(RelocError::ConstantRelocation),
            final(self).relocs@ == old(self).relocs@,
    {
        Err(RelocError::ConstantRelocation)
    }

    /// Jump-table relocations are refused.
    pub fn reloc_jt(&mut self, offset: u32, reloc: u32, jt: u32) -> (r: Result<(), RelocError>)
        ensures
            r == Err::<(), RelocError>(RelocError::JumpTableRelocation),
            final(self).relocs@ == old(self).relocs@,
    {
        Err(RelocError::JumpTableRelocation)
    }
}

/// A free list of reusable translator scratch objects.
pub struct TranslatorPool<T> {
    free: Vec<T>,
}

impl<T> View for TranslatorPool<T> {
    type V = Seq<T>;

    closed spec fn view(&self) -> Seq<T> {
        self.free@
    }
}

impl<T> TranslatorPool<T> {
    pub fn new() -> (r: TranslatorPool<T>)
        ensures
            r@.len() == 0,
    {
        TranslatorPool { free: Vec::new() }
    }

    /// Takes the most recently returned object, if any.
    pub fn take_translator(&mut self) -> (r: Option<T>)
        ensures
            old(self)@.len() == 0 ==> r is None && final(self)@ == old(self)@,
            old(self)@.len() > 0 ==> r == Some(old(self)@.last()) && final(self)@ == old(
                self,
            )@.drop_last(),
    {
        self.free.pop()
    }

    /// Returns an object to the pool.
    pub fn save_translator(&mut self, translator: T)
        ensures
            final(self)@ == old(self)@.push(translator),
    {
        self.free.push(translator);
    }
}

} // verus!
