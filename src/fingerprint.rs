//! The bytes that identify one compilation for the artifact cache: the
//! compiler's target, its shared and target-specific flag maps, the
//! tunables, the feature set, a version tag and the module. The encoding is
//! canonical and unambiguous, so different inputs never share it.

use crate::compile_env::{CompileEnv, Tunables, WasmFeatures};
use crate::convert::{
    arch_to_wire, binary_format_to_wire, environment_to_wire, lemma_arch_round_trip,
    lemma_binary_format_round_trip, lemma_environment_round_trip, lemma_os_round_trip,
    lemma_vendor_round_trip, os_from_wire, os_survives_wire, os_to_wire, triple_to_wire,
    vendor_to_wire,
};
use crate::convert::internal2rpc;
use crate::flags::{flags_view, Flag, FlagMap, FlagValue, FlagValueView};
use crate::target;
use vstd::prelude::*;
use vstd::string::StrSliceExecFns;

verus! {

/// The release tag mixed into every fingerprint, so that artifacts of
/// another release are not reused.
pub const VERSION_TAG: &'static str = "0.1.0";

/// A 16-bit number, low byte first.
pub open spec fn u16_le(n: u16) -> Seq<u8> {
    seq![n as u8, (n >> 8u16) as u8]
}

/// A 32-bit number, low byte first.
pub open spec fn u32_le(n: u32) -> Seq<u8> {
    seq![n as u8, (n >> 8u32) as u8, (n >> 16u32) as u8, (n >> 24u32) as u8]
}

/// A 64-bit number, low byte first.
pub open spec fn u64_le(n: u64) -> Seq<u8> {
    seq![
        n as u8,
        (n >> 8u64) as u8,
        (n >> 16u64) as u8,
        (n >> 24u64) as u8,
        (n >> 32u64) as u8,
        (n >> 40u64) as u8,
        (n >> 48u64) as u8,
        (n >> 56u64) as u8,
    ]
}

pub open spec fn bool_byte(b: bool) -> u8 {
    if b {
        1
    } else {
        0
    }
}

/// Characters, each as its 32-bit code point.
pub open spec fn chars_bytes(s: Seq<char>) -> Seq<u8>
    decreases s.len(),
{
    if s.len() == 0 {
        Seq::empty()
    } else {
        chars_bytes(s.drop_last()) + u32_le(s.last() as u32)
    }
}

/// A string: its length, then its characters.
pub open spec fn str_bytes(s: Seq<char>) -> Seq<u8> {
    u64_le(s.len() as u64) + chars_bytes(s)
}

/// A byte string: its length, then its bytes.
pub open spec fn bytes_field(b: Seq<u8>) -> Seq<u8> {
    u64_le(b.len() as u64) + b
}

/// A flag value: a kind byte, then the value.
pub open spec fn value_bytes(v: FlagValueView) -> Seq<u8> {
    match v {
        FlagValueView::Enum(s) => seq![0u8] + str_bytes(s),
        FlagValueView::Num(n) => seq![1u8, n],
        FlagValueView::Bool(b) => seq![2u8, bool_byte(b)],
    }
}

/// One flag: its name, then its value.
pub open spec fn flag_bytes(f: (Seq<char>, FlagValueView)) -> Seq<u8> {
    str_bytes(f.0) + value_bytes(f.1)
}

/// Flags one after the other.
pub open spec fn flags_concat(fs: Seq<(Seq<char>, FlagValueView)>) -> Seq<u8>
    decreases fs.len(),
{
    if fs.len() == 0 {
        Seq::empty()
    } else {
        flags_concat(fs.drop_last()) + flag_bytes(fs.last())
    }
}

/// A flag map: the number of flags, then the flags in order.
#[verifier::opaque]
pub open spec fn flag_map_bytes(fs: Seq<(Seq<char>, FlagValueView)>) -> Seq<u8> {
    u64_le(fs.len() as u64) + flags_concat(fs)
}

/// The macOS version of an operating system value, zero for the others.
pub open spec fn os_version(o: target::OperatingSystem) -> (u16, u16, u16) {
    match o {
        target::OperatingSystem::MacOSX { major, minor, patch } => (major, minor, patch),
        _ => (0, 0, 0),
    }
}

/// A triple: the wire tag of each field, then the macOS version.
#[verifier::opaque]
pub open spec fn triple_bytes(t: target::Triple) -> Seq<u8> {
    let w = triple_to_wire(t);
    let v = os_version(t.operating_system);
    seq![
        w.architecture as u8,
        w.vendor as u8,
        w.operating_system as u8,
        w.environment as u8,
        w.binary_format as u8,
    ] + u16_le(v.0) + u16_le(v.1) + u16_le(v.2)
}

#[verifier::opaque]
pub open spec fn tunables_bytes(t: Tunables) -> Seq<u8> {
    u64_le(t.static_memory_bound) + u64_le(t.static_memory_offset_guard_size) + u64_le(
        t.dynamic_memory_offset_guard_size,
    ) + seq![
        bool_byte(t.generate_native_debuginfo),
        bool_byte(t.parse_wasm_debuginfo),
        bool_byte(t.interruptable),
        bool_byte(t.consume_fuel),
        bool_byte(t.static_memory_bound_is_maximum),
        bool_byte(t.guard_before_linear_memory),
    ]
}

#[verifier::opaque]
pub open spec fn features_bytes(f: WasmFeatures) -> Seq<u8> {
    seq![
        bool_byte(f.reference_types),
        bool_byte(f.multi_value),
        bool_byte(f.bulk_memory),
        bool_byte(f.module_linking),
        bool_byte(f.simd),
        bool_byte(f.threads),
        bool_byte(f.tail_call),
        bool_byte(f.deterministic_only),
        bool_byte(f.multi_memory),
        bool_byte(f.exceptions),
        bool_byte(f.memory64),
    ]
}

/// The identifying bytes of one compilation.
pub open spec fn fingerprint_spec(
    triple: target::Triple,
    flags: Seq<(Seq<char>, FlagValueView)>,
    isa_flags: Seq<(Seq<char>, FlagValueView)>,
    tunables: Tunables,
    features: WasmFeatures,
    version: Seq<char>,
    wasm: Seq<u8>,
) -> Seq<u8> {
    triple_bytes(triple) + (flag_map_bytes(flags) + (flag_map_bytes(isa_flags) + (tunables_bytes(
        tunables,
    ) + (features_bytes(features) + (str_bytes(version) + bytes_field(wasm))))))
}

fn push_u16(out: &mut Vec<u8>, n: u16)
    ensures
        final(out)@ == old(out)@ + u16_le(n),
{
    out.push(n as u8);
    out.push((n >> 8u16) as u8);
    assert(out@ =~= old(out)@ + u16_le(n));
}

fn push_u32(out: &mut Vec<u8>, n: u32)
    ensures
        final(out)@ == old(out)@ + u32_le(n),
{
    out.push(n as u8);
    out.push((n >> 8u32) as u8);
    out.push((n >> 16u32) as u8);
    out.push((n >> 24u32) as u8);
    assert(out@ =~= old(out)@ + u32_le(n));
}

fn push_u64(out: &mut Vec<u8>, n: u64)
    ensures
        final(out)@ == old(out)@ + u64_le(n),
{
    out.push(n as u8);
    out.push((n >> 8u64) as u8);
    out.push((n >> 16u64) as u8);
    out.push((n >> 24u64) as u8);
    out.push((n >> 32u64) as u8);
    out.push((n >> 40u64) as u8);
    out.push((n >> 48u64) as u8);
    out.push((n >> 56u64) as u8);
    assert(out@ =~= old(out)@ + u64_le(n));
}

fn push_str(out: &mut Vec<u8>, s: &str)
    ensures
        final(out)@ == old(out)@ + str_bytes(s@),
{
    let n = s.unicode_len();
    push_u64(out, n as u64);
    let ghost start = out@;
    let mut i: usize = 0;
    while i < n
        invariant
            n == s@.len(),
            i <= n,
            out@ == start + chars_bytes(s@.take(i as int)),
            start == old(out)@ + u64_le(n as u64),
        decreases n - i,
    {
        let c = s.get_char(i);
        proof {
            assert(s@.take(i + 1).drop_last() =~= s@.take(i as int));
        }
        push_u32(out, c as u32);
        assert(out@ =~= start + chars_bytes(s@.take(i + 1)));
        i = i + 1;
    }
    assert(s@.take(n as int) =~= s@);
    assert(out@ =~= old(out)@ + str_bytes(s@));
}

fn push_value(out: &mut Vec<u8>, v: &FlagValue)
    ensures
        final(out)@ == old(out)@ + value_bytes(v@),
{
    match v {
        FlagValue::Enum(s) => {
            out.push(0u8);
            push_str(out, s.as_str());
        },
        FlagValue::Num(n) => {
            out.push(1u8);
            out.push(*n);
        },
        FlagValue::Bool(b) => {
            out.push(2u8);
            out.push(if *b { 1u8 } else { 0u8 });
        },
    }
    assert(out@ =~= old(out)@ + value_bytes(v@));
}

fn push_flags(out: &mut Vec<u8>, flags: &Vec<Flag>)
    ensures
        final(out)@ == old(out)@ + flag_map_bytes(flags_view(flags@)),
{
    let ghost fs = flags_view(flags@);
    push_u64(out, flags.len() as u64);
    let ghost start = out@;
    let mut i: usize = 0;
    while i < flags.len()
        invariant
            fs == flags_view(flags@),
            i <= flags@.len(),
            out@ == start + flags_concat(fs.take(i as int)),
            start == old(out)@ + u64_le(flags@.len() as u64),
        decreases flags@.len() - i,
    {
        push_str(out, flags[i].name.as_str());
        push_value(out, &flags[i].value);
        proof {
            assert(fs.take(i + 1).drop_last() =~= fs.take(i as int));
            assert(fs[i as int] == (flags@[i as int].name@, flags@[i as int].value@));
        }
        assert(out@ =~= start + flags_concat(fs.take(i + 1)));
        i = i + 1;
    }
    assert(fs.take(flags@.len() as int) =~= fs);
    reveal(flag_map_bytes);
    assert(out@ =~= old(out)@ + flag_map_bytes(fs));
}

fn push_triple(out: &mut Vec<u8>, t: &target::Triple)
    ensures
        final(out)@ == old(out)@ + triple_bytes(*t),
{
    let w = internal2rpc::from_triple(t);
    out.push(w.architecture as u8);
    out.push(w.vendor as u8);
    out.push(w.operating_system as u8);
    out.push(w.environment as u8);
    out.push(w.binary_format as u8);
    let (major, minor, patch) = match t.operating_system {
        target::OperatingSystem::MacOSX { major, minor, patch } => (major, minor, patch),
        _ => (0u16, 0u16, 0u16),
    };
    push_u16(out, major);
    push_u16(out, minor);
    push_u16(out, patch);
    reveal(triple_bytes);
    assert(out@ =~= old(out)@ + triple_bytes(*t));
}

fn push_tunables(out: &mut Vec<u8>, t: &Tunables)
    ensures
        final(out)@ == old(out)@ + tunables_bytes(*t),
{
    push_u64(out, t.static_memory_bound);
    push_u64(out, t.static_memory_offset_guard_size);
    push_u64(out, t.dynamic_memory_offset_guard_size);
    out.push(if t.generate_native_debuginfo { 1u8 } else { 0u8 });
    out.push(if t.parse_wasm_debuginfo { 1u8 } else { 0u8 });
    out.push(if t.interruptable { 1u8 } else { 0u8 });
    out.push(if t.consume_fuel { 1u8 } else { 0u8 });
    out.push(if t.static_memory_bound_is_maximum { 1u8 } else { 0u8 });
    out.push(if t.guard_before_linear_memory { 1u8 } else { 0u8 });
    reveal(tunables_bytes);
    assert(out@ =~= old(out)@ + tunables_bytes(*t));
}

fn push_features(out: &mut Vec<u8>, f: &WasmFeatures)
    ensures
        final(out)@ == old(out)@ + features_bytes(*f),
{
    let mut bytes = vec![
        byte_of(f.reference_types),
        byte_of(f.multi_value),
        byte_of(f.bulk_memory),
        byte_of(f.module_linking),
        byte_of(f.simd),
        byte_of(f.threads),
        byte_of(f.tail_call),
        byte_of(f.deterministic_only),
        byte_of(f.multi_memory),
        byte_of(f.exceptions),
        byte_of(f.memory64),
    ];
    reveal(features_bytes);
    assert(bytes@ =~= features_bytes(*f));
    out.append(&mut bytes);
}

fn push_bytes_field(out: &mut Vec<u8>, b: &[u8])
    ensures
        final(out)@ == old(out)@ + bytes_field(b@),
{
    push_u64(out, b.len() as u64);
    let ghost start = out@;
    let mut i: usize = 0;
    while i < b.len()
        invariant
            i <= b@.len(),
            out@ == start + b@.take(i as int),
            start == old(out)@ + u64_le(b@.len() as u64),
        decreases b@.len() - i,
    {
        out.push(b[i]);
        assert(out@ =~= start + b@.take(i + 1));
        i = i + 1;
    }
    assert(b@.take(b@.len() as int) =~= b@);
    assert(out@ =~= old(out)@ + bytes_field(b@));
}

proof fn lemma_concat_assoc(
    a: Seq<u8>,
    b: Seq<u8>,
    c: Seq<u8>,
    d: Seq<u8>,
    e: Seq<u8>,
    f: Seq<u8>,
    g: Seq<u8>,
)
    ensures
        a + b + c + d + e + f + g == a + (b + (c + (d + (e + (f + g))))),
{
    assert(a + b + c + d + e + f + g =~= a + (b + (c + (d + (e + (f + g))))));
}

fn byte_of(b: bool) -> (r: u8)
    ensures
        r == bool_byte(b),
{
    if b {
        1
    } else {
        0
    }
}

/// The identifying bytes of compiling `wasm` with a compiler of this
/// target and these flag maps (listed in name order, so equal maps give
/// equal bytes), in this environment. The memory initialisation
/// mode is not part of them.
pub fn fingerprint_input(
    triple: &target::Triple,
    flags: &FlagMap,
    isa_flags: &FlagMap,
    env: &CompileEnv,
    version: &str,
    wasm: &[u8],
) -> (r: Vec<u8>)
    ensures
        r@ == fingerprint_spec(
            *triple,
            flags@,
            isa_flags@,
            env.tunables,
            env.features,
            version@,
            wasm@,
        ),
{
    let mut out: Vec<u8> = Vec::new();
    push_triple(&mut out, triple);
    push_flags(&mut out, flags.entries());
    push_flags(&mut out, isa_flags.entries());
    push_tunables(&mut out, &env.tunables);
    push_features(&mut out, &env.features);
    push_str(&mut out, version);
    push_bytes_field(&mut out, wasm);
    proof {
        lemma_concat_assoc(
            triple_bytes(*triple),
            flag_map_bytes(flags@),
            flag_map_bytes(isa_flags@),
            tunables_bytes(env.tunables),
            features_bytes(env.features),
            str_bytes(version@),
            bytes_field(wasm@),
        );
    }
    out
}

/// Every length in a flag map fits its 64-bit length field.
pub open spec fn flag_fits(f: (Seq<char>, FlagValueView)) -> bool {
    &&& f.0.len() <= u64::MAX
    &&& f.1 matches FlagValueView::Enum(s) ==> s.len() <= u64::MAX
}

/// Every length in a flag map fits its 64-bit length field.
pub open spec fn flags_fit(fs: Seq<(Seq<char>, FlagValueView)>) -> bool {
    fs.len() <= u64::MAX && forall|i: int| 0 <= i < fs.len() ==> flag_fits(#[trigger] fs[i])
}

proof fn lemma_split(a1: Seq<u8>, r1: Seq<u8>, a2: Seq<u8>, r2: Seq<u8>)
    requires
        a1.len() == a2.len(),
        a1 + r1 == a2 + r2,
    ensures
        a1 == a2,
        r1 == r2,
{
    assert(a1 =~= (a1 + r1).subrange(0, a1.len() as int));
    assert(a2 =~= (a2 + r2).subrange(0, a2.len() as int));
    assert(r1 =~= (a1 + r1).subrange(a1.len() as int, (a1 + r1).len() as int));
    assert(r2 =~= (a2 + r2).subrange(a2.len() as int, (a2 + r2).len() as int));
}

proof fn lemma_u16_le_injective(x: u16, y: u16)
    requires
        u16_le(x) == u16_le(y),
    ensures
        x == y,
{
    assert(u16_le(x)[0] == u16_le(y)[0]);
    assert(u16_le(x)[1] == u16_le(y)[1]);
    assert(x == y) by (bit_vector)
        requires
            x as u8 == y as u8,
            (x >> 8u16) as u8 == (y >> 8u16) as u8,
    ;
}

proof fn lemma_u32_le_injective(x: u32, y: u32)
    requires
        u32_le(x) == u32_le(y),
    ensures
        x == y,
{
    assert(u32_le(x)[0] == u32_le(y)[0]);
    assert(u32_le(x)[1] == u32_le(y)[1]);
    assert(u32_le(x)[2] == u32_le(y)[2]);
    assert(u32_le(x)[3] == u32_le(y)[3]);
    assert(x == y) by (bit_vector)
        requires
            x as u8 == y as u8,
            (x >> 8u32) as u8 == (y >> 8u32) as u8,
            (x >> 16u32) as u8 == (y >> 16u32) as u8,
            (x >> 24u32) as u8 == (y >> 24u32) as u8,
    ;
}

proof fn lemma_u64_le_injective(x: u64, y: u64)
    requires
        u64_le(x) == u64_le(y),
    ensures
        x == y,
{
    assert(u64_le(x)[0] == u64_le(y)[0]);
    assert(u64_le(x)[1] == u64_le(y)[1]);
    assert(u64_le(x)[2] == u64_le(y)[2]);
    assert(u64_le(x)[3] == u64_le(y)[3]);
    assert(u64_le(x)[4] == u64_le(y)[4]);
    assert(u64_le(x)[5] == u64_le(y)[5]);
    assert(u64_le(x)[6] == u64_le(y)[6]);
    assert(u64_le(x)[7] == u64_le(y)[7]);
    assert(x == y) by (bit_vector)
        requires
            x as u8 == y as u8,
            (x >> 8u64) as u8 == (y >> 8u64) as u8,
            (x >> 16u64) as u8 == (y >> 16u64) as u8,
            (x >> 24u64) as u8 == (y >> 24u64) as u8,
            (x >> 32u64) as u8 == (y >> 32u64) as u8,
            (x >> 40u64) as u8 == (y >> 40u64) as u8,
            (x >> 48u64) as u8 == (y >> 48u64) as u8,
            (x >> 56u64) as u8 == (y >> 56u64) as u8,
    ;
}

proof fn lemma_chars_prefix(a: Seq<char>, r1: Seq<u8>, b: Seq<char>, r2: Seq<u8>)
    requires
        a.len() == b.len(),
        chars_bytes(a) + r1 == chars_bytes(b) + r2,
    ensures
        a == b,
        r1 == r2,
    decreases a.len(),
{
    if a.len() == 0 {
        assert(chars_bytes(a) + r1 =~= r1);
        assert(chars_bytes(b) + r2 =~= r2);
        assert(a =~= b);
    } else {
        let la = u32_le(a.last() as u32);
        let lb = u32_le(b.last() as u32);
        assert(chars_bytes(a) + r1 =~= chars_bytes(a.drop_last()) + (la + r1));
        assert(chars_bytes(b) + r2 =~= chars_bytes(b.drop_last()) + (lb + r2));
        lemma_chars_prefix(a.drop_last(), la + r1, b.drop_last(), lb + r2);
        lemma_split(la, r1, lb, r2);
        lemma_u32_le_injective(a.last() as u32, b.last() as u32);
        lemma_char_code_injective(a.last(), b.last());
        assert(a =~= a.drop_last().push(a.last()));
        assert(b =~= b.drop_last().push(b.last()));
    }
}

proof fn lemma_char_code_injective(a: char, b: char)
    requires
        a as u32 == b as u32,
    ensures
        a == b,
{
    assert((a as u32) as char == a);
    assert((b as u32) as char == b);
}

proof fn lemma_str_prefix(a: Seq<char>, r1: Seq<u8>, b: Seq<char>, r2: Seq<u8>)
    requires
        a.len() <= u64::MAX,
        b.len() <= u64::MAX,
        str_bytes(a) + r1 == str_bytes(b) + r2,
    ensures
        a == b,
        r1 == r2,
{
    assert(str_bytes(a) + r1 =~= u64_le(a.len() as u64) + (chars_bytes(a) + r1));
    assert(str_bytes(b) + r2 =~= u64_le(b.len() as u64) + (chars_bytes(b) + r2));
    lemma_split(u64_le(a.len() as u64), chars_bytes(a) + r1, u64_le(b.len() as u64), chars_bytes(b) + r2);
    lemma_u64_le_injective(a.len() as u64, b.len() as u64);
    lemma_chars_prefix(a, r1, b, r2);
}

proof fn lemma_value_prefix(a: FlagValueView, r1: Seq<u8>, b: FlagValueView, r2: Seq<u8>)
    requires
        a matches FlagValueView::Enum(s) ==> s.len() <= u64::MAX,
        b matches FlagValueView::Enum(s) ==> s.len() <= u64::MAX,
        value_bytes(a) + r1 == value_bytes(b) + r2,
    ensures
        a == b,
        r1 == r2,
{
    let x = value_bytes(a) + r1;
    let y = value_bytes(b) + r2;
    assert(value_bytes(a).len() >= 2 && value_bytes(b).len() >= 2);
    assert(x[0] == value_bytes(a)[0] && y[0] == value_bytes(b)[0]);
    assert(x[1] == value_bytes(a)[1] && y[1] == value_bytes(b)[1]);
    match a {
        FlagValueView::Enum(s) => {
            let t = b->Enum_0;
            assert(x =~= seq![0u8] + (str_bytes(s) + r1));
            assert(y =~= seq![0u8] + (str_bytes(t) + r2));
            lemma_split(seq![0u8], str_bytes(s) + r1, seq![0u8], str_bytes(t) + r2);
            lemma_str_prefix(s, r1, t, r2);
        },
        FlagValueView::Num(n) => {
            assert(b is Num);
            lemma_split(value_bytes(a), r1, value_bytes(b), r2);
        },
        FlagValueView::Bool(v) => {
            assert(b is Bool);
            lemma_split(value_bytes(a), r1, value_bytes(b), r2);
        },
    }
}

proof fn lemma_flag_prefix(
    a: (Seq<char>, FlagValueView),
    r1: Seq<u8>,
    b: (Seq<char>, FlagValueView),
    r2: Seq<u8>,
)
    requires
        flag_fits(a),
        flag_fits(b),
        flag_bytes(a) + r1 == flag_bytes(b) + r2,
    ensures
        a == b,
        r1 == r2,
{
    assert(flag_bytes(a) + r1 =~= str_bytes(a.0) + (value_bytes(a.1) + r1));
    assert(flag_bytes(b) + r2 =~= str_bytes(b.0) + (value_bytes(b.1) + r2));
    lemma_str_prefix(a.0, value_bytes(a.1) + r1, b.0, value_bytes(b.1) + r2);
    lemma_value_prefix(a.1, r1, b.1, r2);
}

proof fn lemma_flags_concat_prefix(
    a: Seq<(Seq<char>, FlagValueView)>,
    r1: Seq<u8>,
    b: Seq<(Seq<char>, FlagValueView)>,
    r2: Seq<u8>,
)
    requires
        a.len() == b.len(),
        flags_fit(a),
        flags_fit(b),
        flags_concat(a) + r1 == flags_concat(b) + r2,
    ensures
        a == b,
        r1 == r2,
    decreases a.len(),
{
    if a.len() == 0 {
        assert(flags_concat(a) + r1 =~= r1);
        assert(flags_concat(b) + r2 =~= r2);
        assert(a =~= b);
    } else {
        let la = flag_bytes(a.last());
        let lb = flag_bytes(b.last());
        assert(flags_concat(a) + r1 =~= flags_concat(a.drop_last()) + (la + r1));
        assert(flags_concat(b) + r2 =~= flags_concat(b.drop_last()) + (lb + r2));
        assert(flags_fit(a.drop_last()));
        assert(flags_fit(b.drop_last()));
        lemma_flags_concat_prefix(a.drop_last(), la + r1, b.drop_last(), lb + r2);
        assert(flag_fits(a[a.len() - 1]));
        assert(flag_fits(b[b.len() - 1]));
        lemma_flag_prefix(a.last(), r1, b.last(), r2);
        assert(a =~= a.drop_last().push(a.last()));
        assert(b =~= b.drop_last().push(b.last()));
    }
}

proof fn lemma_flag_map_prefix(
    a: Seq<(Seq<char>, FlagValueView)>,
    r1: Seq<u8>,
    b: Seq<(Seq<char>, FlagValueView)>,
    r2: Seq<u8>,
)
    requires
        flags_fit(a),
        flags_fit(b),
        flag_map_bytes(a) + r1 == flag_map_bytes(b) + r2,
    ensures
        a == b,
        r1 == r2,
{
    reveal(flag_map_bytes);
    assert(flag_map_bytes(a) + r1 =~= u64_le(a.len() as u64) + (flags_concat(a) + r1));
    assert(flag_map_bytes(b) + r2 =~= u64_le(b.len() as u64) + (flags_concat(b) + r2));
    lemma_split(u64_le(a.len() as u64), flags_concat(a) + r1, u64_le(b.len() as u64), flags_concat(b) + r2);
    lemma_u64_le_injective(a.len() as u64, b.len() as u64);
    lemma_flags_concat_prefix(a, r1, b, r2);
}

proof fn lemma_triple_bytes_injective(a: target::Triple, b: target::Triple)
    requires
        triple_bytes(a) == triple_bytes(b),
    ensures
        a == b,
        triple_bytes(a).len() == 11,
{
    reveal(triple_bytes);
    let x = triple_bytes(a);
    let y = triple_bytes(b);
    assert(x[0] == y[0] && x[1] == y[1] && x[2] == y[2] && x[3] == y[3] && x[4] == y[4]);
    arch_to_wire(a.architecture).lemma_tag_round_trip();
    arch_to_wire(b.architecture).lemma_tag_round_trip();
    vendor_to_wire(a.vendor).lemma_tag_round_trip();
    vendor_to_wire(b.vendor).lemma_tag_round_trip();
    os_to_wire(a.operating_system).lemma_tag_round_trip();
    os_to_wire(b.operating_system).lemma_tag_round_trip();
    environment_to_wire(a.environment).lemma_tag_round_trip();
    environment_to_wire(b.environment).lemma_tag_round_trip();
    binary_format_to_wire(a.binary_format).lemma_tag_round_trip();
    binary_format_to_wire(b.binary_format).lemma_tag_round_trip();
    assert(arch_to_wire(a.architecture) == arch_to_wire(b.architecture));
    assert(vendor_to_wire(a.vendor) == vendor_to_wire(b.vendor));
    assert(os_to_wire(a.operating_system) == os_to_wire(b.operating_system));
    assert(environment_to_wire(a.environment) == environment_to_wire(b.environment));
    assert(binary_format_to_wire(a.binary_format) == binary_format_to_wire(b.binary_format));
    lemma_arch_round_trip(a.architecture);
    lemma_arch_round_trip(b.architecture);
    lemma_vendor_round_trip(a.vendor);
    lemma_vendor_round_trip(b.vendor);
    lemma_environment_round_trip(a.environment);
    lemma_environment_round_trip(b.environment);
    lemma_binary_format_round_trip(a.binary_format);
    lemma_binary_format_round_trip(b.binary_format);
    let va = os_version(a.operating_system);
    let vb = os_version(b.operating_system);
    assert(x.subrange(5, 7) =~= u16_le(va.0) && y.subrange(5, 7) =~= u16_le(vb.0));
    assert(x.subrange(7, 9) =~= u16_le(va.1) && y.subrange(7, 9) =~= u16_le(vb.1));
    assert(x.subrange(9, 11) =~= u16_le(va.2) && y.subrange(9, 11) =~= u16_le(vb.2));
    lemma_u16_le_injective(va.0, vb.0);
    lemma_u16_le_injective(va.1, vb.1);
    lemma_u16_le_injective(va.2, vb.2);
    lemma_os_bytes_injective(a.operating_system, b.operating_system);
}

proof fn lemma_triple_bytes_len(t: target::Triple)
    ensures
        triple_bytes(t).len() == 11,
{
    reveal(triple_bytes);
}

proof fn lemma_fixed_lens(t: Tunables, f: WasmFeatures)
    ensures
        tunables_bytes(t).len() == 30,
        features_bytes(f).len() == 11,
{
    reveal(tunables_bytes);
    reveal(features_bytes);
}

proof fn lemma_os_bytes_injective(a: target::OperatingSystem, b: target::OperatingSystem)
    requires
        os_to_wire(a) == os_to_wire(b),
        os_version(a) == os_version(b),
    ensures
        a == b,
{
    if a is MacOSX || b is MacOSX {
        assert(a is MacOSX && b is MacOSX) by {
            if !(a is MacOSX) {
                lemma_os_round_trip(a);
                assert(os_from_wire(os_to_wire(b)) is MacOSX);
            }
            if !(b is MacOSX) {
                lemma_os_round_trip(b);
                assert(os_from_wire(os_to_wire(a)) is MacOSX);
            }
        }
    } else {
        lemma_os_round_trip(a);
        lemma_os_round_trip(b);
    }
}

proof fn lemma_tunables_bytes_injective(a: Tunables, b: Tunables)
    requires
        tunables_bytes(a) == tunables_bytes(b),
    ensures
        a == b,
{
    reveal(tunables_bytes);
    let x = tunables_bytes(a);
    let y = tunables_bytes(b);
    assert(x.subrange(0, 8) =~= u64_le(a.static_memory_bound));
    assert(y.subrange(0, 8) =~= u64_le(b.static_memory_bound));
    assert(x.subrange(8, 16) =~= u64_le(a.static_memory_offset_guard_size));
    assert(y.subrange(8, 16) =~= u64_le(b.static_memory_offset_guard_size));
    assert(x.subrange(16, 24) =~= u64_le(a.dynamic_memory_offset_guard_size));
    assert(y.subrange(16, 24) =~= u64_le(b.dynamic_memory_offset_guard_size));
    lemma_u64_le_injective(a.static_memory_bound, b.static_memory_bound);
    lemma_u64_le_injective(a.static_memory_offset_guard_size, b.static_memory_offset_guard_size);
    lemma_u64_le_injective(a.dynamic_memory_offset_guard_size, b.dynamic_memory_offset_guard_size);
    assert(x[24] == y[24] && x[25] == y[25] && x[26] == y[26] && x[27] == y[27] && x[28] == y[28]
        && x[29] == y[29]);
}

proof fn lemma_features_bytes_injective(a: WasmFeatures, b: WasmFeatures)
    requires
        features_bytes(a) == features_bytes(b),
    ensures
        a == b,
{
    reveal(features_bytes);
    let x = features_bytes(a);
    let y = features_bytes(b);
    assert(x[0] == y[0] && x[1] == y[1] && x[2] == y[2] && x[3] == y[3] && x[4] == y[4] && x[5]
        == y[5] && x[6] == y[6] && x[7] == y[7] && x[8] == y[8] && x[9] == y[9] && x[10] == y[10]);
}

/// Different compilations never share identifying bytes: equal bytes mean
/// the same target, flag maps, tunables, feature set, version tag and
/// module, so two such compilations are distinct cache entries.
pub proof fn lemma_fingerprint_injective(
    triple1: target::Triple,
    flags1: Seq<(Seq<char>, FlagValueView)>,
    isa_flags1: Seq<(Seq<char>, FlagValueView)>,
    tunables1: Tunables,
    features1: WasmFeatures,
    version1: Seq<char>,
    wasm1: Seq<u8>,
    triple2: target::Triple,
    flags2: Seq<(Seq<char>, FlagValueView)>,
    isa_flags2: Seq<(Seq<char>, FlagValueView)>,
    tunables2: Tunables,
    features2: WasmFeatures,
    version2: Seq<char>,
    wasm2: Seq<u8>,
)
    requires
        flags_fit(flags1),
        flags_fit(isa_flags1),
        flags_fit(flags2),
        flags_fit(isa_flags2),
        version1.len() <= u64::MAX,
        version2.len() <= u64::MAX,
        wasm1.len() <= u64::MAX,
        wasm2.len() <= u64::MAX,
        fingerprint_spec(triple1, flags1, isa_flags1, tunables1, features1, version1, wasm1)
            == fingerprint_spec(triple2, flags2, isa_flags2, tunables2, features2, version2, wasm2),
    ensures
        triple1 == triple2,
        flags1 == flags2,
        isa_flags1 == isa_flags2,
        tunables1 == tunables2,
        features1 == features2,
        version1 == version2,
        wasm1 == wasm2,
{
    lemma_triple_bytes_len(triple1);
    lemma_triple_bytes_len(triple2);
    lemma_fixed_lens(tunables1, features1);
    lemma_fixed_lens(tunables2, features2);
    let w1 = bytes_field(wasm1);
    let w2 = bytes_field(wasm2);
    let s1 = str_bytes(version1) + w1;
    let s2 = str_bytes(version2) + w2;
    let e1 = features_bytes(features1) + s1;
    let e2 = features_bytes(features2) + s2;
    let t1 = tunables_bytes(tunables1) + e1;
    let t2 = tunables_bytes(tunables2) + e2;
    let i1 = flag_map_bytes(isa_flags1) + t1;
    let i2 = flag_map_bytes(isa_flags2) + t2;
    let f1 = flag_map_bytes(flags1) + i1;
    let f2 = flag_map_bytes(flags2) + i2;
    lemma_split(triple_bytes(triple1), f1, triple_bytes(triple2), f2);
    lemma_triple_bytes_injective(triple1, triple2);
    lemma_flag_map_prefix(flags1, i1, flags2, i2);
    lemma_flag_map_prefix(isa_flags1, t1, isa_flags2, t2);
    lemma_split(tunables_bytes(tunables1), e1, tunables_bytes(tunables2), e2);
    lemma_tunables_bytes_injective(tunables1, tunables2);
    lemma_split(features_bytes(features1), s1, features_bytes(features2), s2);
    lemma_features_bytes_injective(features1, features2);
    lemma_str_prefix(version1, w1, version2, w2);
    lemma_split(u64_le(wasm1.len() as u64), wasm1, u64_le(wasm2.len() as u64), wasm2);
    lemma_u64_le_injective(wasm1.len() as u64, wasm2.len() as u64);
}

/// A cache entry: the fingerprint it was stored for, with its length, then
/// the artifact. A lookup whose key collides with another fingerprint's is
/// told apart by the stored fingerprint.
pub open spec fn cache_entry_spec(fingerprint: Seq<u8>, artifact: Seq<u8>) -> Seq<u8> {
    bytes_field(fingerprint) + artifact
}

/// Builds the cache entry of an artifact computed for `fingerprint`.
pub fn cache_entry(fingerprint: &[u8], artifact: &[u8]) -> (r: Vec<u8>)
    ensures
        r@ == cache_entry_spec(fingerprint@, artifact@),
{
    let mut out: Vec<u8> = Vec::new();
    push_bytes_field(&mut out, fingerprint);
    let ghost start = out@;
    let mut i: usize = 0;
    while i < artifact.len()
        invariant
            i <= artifact@.len(),
            start == bytes_field(fingerprint@),
            out@ == start + artifact@.take(i as int),
        decreases artifact@.len() - i,
    {
        out.push(artifact[i]);
        assert(out@ =~= start + artifact@.take(i + 1));
        i = i + 1;
    }
    assert(artifact@.take(artifact@.len() as int) =~= artifact@);
    out
}

/// The artifact of a cache entry, when the entry was stored for
/// `fingerprint`; `None` for an entry of another fingerprint or a malformed
/// one.
pub fn cached_artifact(entry: &[u8], fingerprint: &[u8]) -> (r: Option<Vec<u8>>)
    ensures
        r matches Some(a) ==> entry@ == cache_entry_spec(fingerprint@, a@),
        r is None ==> forall|a: Seq<u8>| entry@ != cache_entry_spec(fingerprint@, a),
{
    let ghost fl = fingerprint@.len() as u64;
    if entry.len() < 8 {
        assert forall|a: Seq<u8>| entry@ != cache_entry_spec(fingerprint@, a) by {
            assert(cache_entry_spec(fingerprint@, a).len() >= 8);
        }
        return None;
    }
    let b0 = entry[0];
    let b1 = entry[1];
    let b2 = entry[2];
    let b3 = entry[3];
    let b4 = entry[4];
    let b5 = entry[5];
    let b6 = entry[6];
    let b7 = entry[7];
    let n: u64 = (b0 as u64) | ((b1 as u64) << 8u64) | ((b2 as u64) << 16u64) | ((b3 as u64) << 24u64)
        | ((b4 as u64) << 32u64) | ((b5 as u64) << 40u64) | ((b6 as u64) << 48u64) | ((b7 as u64)
        << 56u64);
    assert(n as u8 == b0 && (n >> 8u64) as u8 == b1 && (n >> 16u64) as u8 == b2 && (n >> 24u64) as u8
        == b3 && (n >> 32u64) as u8 == b4 && (n >> 40u64) as u8 == b5 && (n >> 48u64) as u8 == b6
        && (n >> 56u64) as u8 == b7) by (bit_vector)
        requires
            n == (b0 as u64) | ((b1 as u64) << 8u64) | ((b2 as u64) << 16u64) | ((b3 as u64) << 24u64)
                | ((b4 as u64) << 32u64) | ((b5 as u64) << 40u64) | ((b6 as u64) << 48u64) | ((
            b7 as u64) << 56u64),
    ;
    assert(entry@.subrange(0, 8) =~= u64_le(n));
    proof {
        assert forall|a: Seq<u8>| entry@ == cache_entry_spec(fingerprint@, a) implies n == fl
            && entry@.len() >= 8 + fingerprint@.len() && entry@.subrange(8, 8 + fingerprint@.len()
            as int) == fingerprint@ by {
            let c = cache_entry_spec(fingerprint@, a);
            assert(c.subrange(0, 8) =~= u64_le(fl));
            lemma_u64_le_injective(n, fl);
            assert(c.subrange(8, 8 + fingerprint@.len() as int) =~= fingerprint@);
        }
    }
    if fingerprint.len() as u64 != n || entry.len() - 8 < fingerprint.len() {
        return None;
    }
    let fl_exec = fingerprint.len();
    let mut j: usize = 0;
    while j < fl_exec
        invariant
            fl_exec == fingerprint@.len(),
            entry@.len() >= 8 + fl_exec,
            entry@.len() == entry.len(),
            j <= fl_exec,
            forall|k: int| 0 <= k < j ==> entry@[8 + k] == fingerprint@[k],
        decreases fl_exec - j,
    {
        if entry[8 + j] != fingerprint[j] {
            proof {
                assert forall|a: Seq<u8>| entry@ != cache_entry_spec(fingerprint@, a) by {
                    if entry@ == cache_entry_spec(fingerprint@, a) {
                        assert(entry@.subrange(8, 8 + fl_exec as int)[j as int] == entry@[8 + j]);
                    }
                }
            }
            return None;
        }
        j = j + 1;
    }
    let mut artifact: Vec<u8> = Vec::new();
    let mut k: usize = 8 + fl_exec;
    while k < entry.len()
        invariant
            8 + fl_exec <= k <= entry@.len(),
            artifact@ == entry@.subrange(8 + fl_exec as int, k as int),
        decreases entry@.len() - k,
    {
        artifact.push(entry[k]);
        assert(artifact@ =~= entry@.subrange(8 + fl_exec as int, k + 1));
        k = k + 1;
    }
    assert(entry@.subrange(8, 8 + fl_exec as int) =~= fingerprint@);
    assert(entry@ =~= cache_entry_spec(fingerprint@, artifact@));
    Some(artifact)
}

} // verus!
