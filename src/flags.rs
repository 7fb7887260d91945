//! Code generator flag maps as exchanged with the client, and the check that
//! a client's local flags agree with the server's.

use vstd::prelude::*;
use vstd::string::StrSliceExecFns;

verus! {

/// The value of one code generator setting.
#[derive(Clone, Debug)]
pub enum FlagValue {
    Enum(String),
    Num(u8),
    Bool(bool),
}

/// A flag value as plain data.
pub enum FlagValueView {
    Enum(Seq<char>),
    Num(u8),
    Bool(bool),
}

impl View for FlagValue {
    type V = FlagValueView;

    open spec fn view(&self) -> FlagValueView {
        match self {
            FlagValue::Enum(s) => FlagValueView::Enum(s@),
            FlagValue::Num(n) => FlagValueView::Num(*n),
            FlagValue::Bool(b) => FlagValueView::Bool(*b),
        }
    }
}

/// One named setting.
#[derive(Clone, Debug)]
pub struct Flag {
    pub name: String,
    pub value: FlagValue,
}

/// A flag map as a sequence of names and values, in name order.
pub open spec fn flags_view(flags: Seq<Flag>) -> Seq<(Seq<char>, FlagValueView)> {
    flags.map_values(|f: Flag| (f.name@, f.value@))
}

/// Name order: code point by code point, a proper prefix first.
pub open spec fn name_lt(a: Seq<char>, b: Seq<char>) -> bool
    decreases a.len(),
{
    if a.len() == 0 {
        b.len() > 0
    } else if b.len() == 0 {
        false
    } else if a[0] != b[0] {
        (a[0] as u32) < (b[0] as u32)
    } else {
        name_lt(a.drop_first(), b.drop_first())
    }
}

/// Whether the names of a flag sequence strictly increase, so that each
/// name occurs once.
pub open spec fn names_sorted(fs: Seq<(Seq<char>, FlagValueView)>) -> bool {
    forall|i: int, j: int| 0 <= i < j < fs.len() ==> name_lt(fs[i].0, fs[j].0)
}

proof fn lemma_char_code(a: char, b: char)
    requires
        a != b,
    ensures
        (a as u32) != (b as u32),
{
    assert((a as u32) as char == a);
    assert((b as u32) as char == b);
}

/// No name precedes itself.
pub proof fn lemma_name_lt_irreflexive(a: Seq<char>)
    ensures
        !name_lt(a, a),
    decreases a.len(),
{
    if a.len() > 0 {
        lemma_name_lt_irreflexive(a.drop_first());
    }
}

/// Of two different names, one precedes the other.
pub proof fn lemma_name_lt_total(a: Seq<char>, b: Seq<char>)
    requires
        a != b,
    ensures
        name_lt(a, b) || name_lt(b, a),
    decreases a.len(),
{
    if a.len() > 0 && b.len() > 0 {
        if a[0] != b[0] {
            lemma_char_code(a[0], b[0]);
        } else {
            if a.drop_first() == b.drop_first() {
                assert(a =~= seq![a[0]] + a.drop_first());
                assert(b =~= seq![b[0]] + b.drop_first());
            }
            lemma_name_lt_total(a.drop_first(), b.drop_first());
        }
    } else if a.len() == 0 && b.len() == 0 {
        assert(a =~= b);
    }
}

/// Name order is transitive.
pub proof fn lemma_name_lt_transitive(a: Seq<char>, b: Seq<char>, c: Seq<char>)
    requires
        name_lt(a, b),
        name_lt(b, c),
    ensures
        name_lt(a, c),
    decreases a.len(),
{
    if a.len() > 0 && b.len() > 0 && c.len() > 0 {
        if a[0] == b[0] && b[0] == c[0] {
            lemma_name_lt_transitive(a.drop_first(), b.drop_first(), c.drop_first());
        } else if a[0] != c[0] {
        } else {
            lemma_char_code(a[0], b[0]);
        }
    }
}

/// Compares two names: -1 when `a` comes first, 0 when they are the same,
/// 1 when `b` comes first.
pub fn compare_names(a: &str, b: &str) -> (r: i8)
    ensures
        r == -1 <==> name_lt(a@, b@),
        r == 0 <==> a@ == b@,
        r == 1 <==> name_lt(b@, a@),
        -1 <= r <= 1,
{
    let la = a.unicode_len();
    let lb = b.unicode_len();
    let mut i: usize = 0;
    assert(a@.skip(0) =~= a@ && b@.skip(0) =~= b@);
    assert(a@.take(0) =~= b@.take(0));
    while i < la && i < lb
        invariant
            la == a@.len(),
            lb == b@.len(),
            i <= la,
            i <= lb,
            a@.take(i as int) == b@.take(i as int),
            name_lt(a@, b@) == name_lt(a@.skip(i as int), b@.skip(i as int)),
            name_lt(b@, a@) == name_lt(b@.skip(i as int), a@.skip(i as int)),
        decreases la - i,
    {
        let ca = a.get_char(i);
        let cb = b.get_char(i);
        assert(a@.skip(i as int)[0] == ca && b@.skip(i as int)[0] == cb);
        if ca != cb {
            proof {
                lemma_char_code(ca, cb);
                assert(a@[i as int] != b@[i as int]);
            }
            if (ca as u32) < (cb as u32) {
                return -1;
            } else {
                return 1;
            }
        }
        assert(a@.skip(i as int).drop_first() =~= a@.skip(i + 1));
        assert(b@.skip(i as int).drop_first() =~= b@.skip(i + 1));
        assert(a@.take(i + 1) =~= a@.take(i as int).push(ca));
        assert(b@.take(i + 1) =~= b@.take(i as int).push(cb));
        i = i + 1;
    }
    if la == lb {
        assert(a@ =~= a@.take(i as int));
        assert(b@ =~= b@.take(i as int));
        proof {
            lemma_name_lt_irreflexive(a@);
        }
        0
    } else if la < lb {
        assert(a@.skip(i as int).len() == 0);
        assert(a@ != b@);
        -1
    } else {
        assert(b@.skip(i as int).len() == 0);
        assert(a@ != b@);
        1
    }
}

/// A flag map: flags in strictly increasing name order, so each name occurs
/// once and equal maps are listed alike.
pub struct FlagMap {
    entries: Vec<Flag>,
}

impl View for FlagMap {
    type V = Seq<(Seq<char>, FlagValueView)>;

    closed spec fn view(&self) -> Seq<(Seq<char>, FlagValueView)> {
        flags_view(self.entries@)
    }
}

impl FlagMap {
    pub closed spec fn wf(&self) -> bool {
        names_sorted(self@)
    }

    /// An empty map.
    pub fn new() -> (r: FlagMap)
        ensures
            r.wf(),
            r@.len() == 0,
    {
        let r = FlagMap { entries: Vec::new() };
        assert(r@ =~= Seq::<(Seq<char>, FlagValueView)>::empty());
        r
    }

    /// The flags, in name order.
    pub fn entries(&self) -> (r: &Vec<Flag>)
        ensures
            flags_view(r@) == self@,
    {
        &self.entries
    }

    /// Where `name` stands or belongs: every name before the position comes
    /// first, and the name at the position is `name` when `found`, a later
    /// name otherwise.
    fn position_of(&self, name: &str) -> (r: (usize, bool))
        requires
            self.wf(),
        ensures
            r.0 <= self@.len(),
            forall|k: int| 0 <= k < r.0 ==> name_lt(#[trigger] self@[k].0, name@),
            r.1 ==> r.0 < self@.len() && self@[r.0 as int].0 == name@,
            !r.1 && r.0 < self@.len() ==> name_lt(name@, self@[r.0 as int].0),
    {
        let mut i: usize = 0;
        while i < self.entries.len()
            invariant
                i <= self@.len(),
                self@.len() == self.entries@.len(),
                forall|k: int| 0 <= k < i ==> name_lt(#[trigger] self@[k].0, name@),
            decreases self@.len() - i,
        {
            let c = compare_names(self.entries[i].name.as_str(), name);
            assert(self@[i as int].0 == self.entries@[i as int].name@);
            if c == 0 {
                return (i, true);
            }
            if c == 1 {
                return (i, false);
            }
            i = i + 1;
        }
        (i, false)
    }

    /// Sets `name` to `value`, replacing an earlier value of that name.
    pub fn insert(&mut self, name: String, value: FlagValue)
        requires
            old(self).wf(),
        ensures
            final(self).wf(),
            exists|j: int| 0 <= j < final(self)@.len() && final(self)@[j] == (name@, value@),
            forall|i: int|
                0 <= i < old(self)@.len() && old(self)@[i].0 != name@ ==> exists|j: int|
                    0 <= j < final(self)@.len() && final(self)@[j] == old(self)@[i],
            forall|j: int|
                0 <= j < final(self)@.len() && final(self)@[j].0 != name@ ==> exists|i: int|
                    0 <= i < old(self)@.len() && old(self)@[i] == final(self)@[j],
    {
        let ghost old_v = self@;
        let ghost nv = (name@, value@);
        let (i, found) = self.position_of(name.as_str());
        if found {
            self.entries.set(i, Flag { name, value });
            proof {
                assert forall|k: int| 0 <= k < old_v.len() implies #[trigger] self@[k] == (if k == i {
                    nv
                } else {
                    old_v[k]
                }) by {
                    assert(self@[k] == (self.entries@[k].name@, self.entries@[k].value@));
                }
                assert forall|a: int, b: int| 0 <= a < b < self@.len() implies name_lt(
                    self@[a].0,
                    self@[b].0,
                ) by {
                    assert(old_v[a].0 == self@[a].0 && old_v[b].0 == self@[b].0);
                }
                assert(self@[i as int] == nv);
                assert forall|k: int| 0 <= k < old_v.len() && old_v[k].0 != name@ implies exists|
                    j: int,
                | 0 <= j < self@.len() && self@[j] == old_v[k] by {
                    assert(self@[k] == old_v[k]);
                }
                assert forall|j: int| 0 <= j < self@.len() && self@[j].0 != name@ implies exists|
                    k: int,
                | 0 <= k < old_v.len() && old_v[k] == self@[j] by {
                    assert(old_v[j] == self@[j]);
                }
            }
            return;
        }
        self.entries.insert(i, Flag { name, value });
        proof {
            let nw = self@;
            assert forall|k: int| 0 <= k < nw.len() implies #[trigger] nw[k] == old_v.insert(
                i as int,
                nv,
            )[k] by {
                assert(nw[k] == (self.entries@[k].name@, self.entries@[k].value@));
                if k > i {
                    assert(old_v[k - 1] == (old(self).entries@[k - 1].name@, old(self).entries@[k
                        - 1].value@));
                } else if k < i {
                    assert(old_v[k] == (old(self).entries@[k].name@, old(self).entries@[k].value@));
                }
            }
            assert(nw =~= old_v.insert(i as int, nv));
            assert forall|a: int, b: int| 0 <= a < b < nw.len() implies name_lt(nw[a].0, nw[b].0) by {
                if b < i {
                } else if b == i {
                } else if a < i {
                    assert(nw[b] == old_v[b - 1]);
                    lemma_name_lt_transitive(nw[a].0, name@, old_v[i as int].0);
                    if b - 1 > i {
                        lemma_name_lt_transitive(nw[a].0, old_v[i as int].0, old_v[b - 1].0);
                    }
                } else if a == i {
                    if b - 1 > i {
                        lemma_name_lt_transitive(name@, old_v[i as int].0, old_v[b - 1].0);
                    }
                } else {
                    assert(nw[a] == old_v[a - 1] && nw[b] == old_v[b - 1]);
                }
            }
            assert(nw[i as int] == nv);
            assert forall|k: int| 0 <= k < old_v.len() && old_v[k].0 != name@ implies exists|j: int|
                0 <= j < nw.len() && nw[j] == old_v[k] by {
                if k < i {
                    assert(nw[k] == old_v[k]);
                } else {
                    assert(nw[k + 1] == old_v[k]);
                }
            }
            assert forall|j: int| 0 <= j < nw.len() && nw[j].0 != name@ implies exists|k: int|
                0 <= k < old_v.len() && old_v[k] == nw[j] by {
                if j < i {
                    assert(old_v[j] == nw[j]);
                } else {
                    assert(j != i);
                    assert(old_v[j - 1] == nw[j]);
                }
            }
        }
    }
}

/// Whether two flag values are the same.
pub fn flag_value_eq(a: &FlagValue, b: &FlagValue) -> (r: bool)
    ensures
        r == (a@ == b@),
{
    match (a, b) {
        (FlagValue::Enum(x), FlagValue::Enum(y)) => *x == *y,
        (FlagValue::Num(x), FlagValue::Num(y)) => *x == *y,
        (FlagValue::Bool(x), FlagValue::Bool(y)) => *x == *y,
        _ => false,
    }
}

/// Whether two flag maps hold the same names with the same values. Both
/// list their flags in name order, so this is a comparison entry by entry.
pub fn flag_maps_equal(a: &FlagMap, b: &FlagMap) -> (r: bool)
    ensures
        r == (a@ == b@),
{
    let ea = a.entries();
    let eb = b.entries();
    if ea.len() != eb.len() {
        assert(flags_view(ea@).len() != flags_view(eb@).len());
        return false;
    }
    let mut i: usize = 0;
    while i < ea.len()
        invariant
            flags_view(ea@) == a@,
            flags_view(eb@) == b@,
            ea@.len() == eb@.len(),
            i <= ea@.len(),
            forall|k: int| 0 <= k < i ==> flags_view(ea@)[k] == flags_view(eb@)[k],
        decreases ea@.len() - i,
    {
        if !(ea[i].name == eb[i].name) || !flag_value_eq(&ea[i].value, &eb[i].value) {
            assert(flags_view(ea@)[i as int] != flags_view(eb@)[i as int]);
            assert(a@[i as int] != b@[i as int]);
            return false;
        }
        i = i + 1;
    }
    assert(flags_view(ea@) =~= flags_view(eb@));
    true
}

/// How a disagreement between local and remote flags is treated.
#[derive(PartialEq, Eq, Structural, Clone, Copy, Debug)]
pub enum FlagCheck {
    /// A disagreement is an error.
    Strict,
    /// A disagreement is reported and compilation proceeds.
    Lenient,
}

/// Which flag map disagrees.
#[derive(PartialEq, Eq, Structural, Clone, Copy, Debug)]
pub enum FlagMismatch {
    Shared,
    Isa,
}

/// Compares the flags that the server reports for a session's compiler
/// with the client's local ones. `Ok(true)` when both maps agree; on a
/// disagreement, an error naming the first map that differs in strict mode,
/// `Ok(false)` in lenient mode.
pub fn check_remote_flags(
    remote_flags: &FlagMap,
    local_flags: &FlagMap,
    remote_isa_flags: &FlagMap,
    local_isa_flags: &FlagMap,
    mode: FlagCheck,
) -> (r: Result<bool, FlagMismatch>)
    ensures
        ({
            let shared_ok = remote_flags@ == local_flags@;
            let isa_ok = remote_isa_flags@ == local_isa_flags@;
            &&& shared_ok && isa_ok ==> r == Ok::<bool, FlagMismatch>(true)
            &&& !(shared_ok && isa_ok) && mode == FlagCheck::Lenient ==> r == Ok::<
                bool,
                FlagMismatch,
            >(false)
            &&& !shared_ok && mode == FlagCheck::Strict ==> r == Err::<bool, FlagMismatch>(
                FlagMismatch::Shared,
            )
            &&& shared_ok && !isa_ok && mode == FlagCheck::Strict ==> r == Err::<
                bool,
                FlagMismatch,
            >(FlagMismatch::Isa)
        }),
{
    let shared_ok = flag_maps_equal(remote_flags, local_flags);
    let isa_ok = flag_maps_equal(remote_isa_flags, local_isa_flags);
    if shared_ok && isa_ok {
        Ok(true)
    } else {
        match mode {
            FlagCheck::Lenient => Ok(false),
            FlagCheck::Strict => if !shared_ok {
                Err(FlagMismatch::Shared)
            } else {
                Err(FlagMismatch::Isa)
            },
        }
    }
}

} // verus!
