//! The boot-time registry that hands out exclusive register tokens.
//!
//! Each field of the register map is handed out at most once while it is
//! held: a request for a field, or a register, of which some field is already
//! held is refused. Giving a token back makes its fields available again.
use crate::token::{FieldId, FieldSpan, FieldToken, RegToken};
use vstd::prelude::*;

verus! {

/// The register map and the set of fields currently held by exclusive tokens.
pub struct TokenRegistry {
    map: RegisterMap,
    taken: Vec<FieldId>,
}

/// The field spans of each register, by register number.
struct RegisterMap {
    layouts: Vec<Vec<FieldSpan>>,
}

impl RegisterMap {
    #[verifier::type_invariant]
    spec fn inv(&self) -> bool {
        &&& self.layouts@.len() <= u32::MAX
        &&& forall|r: int|
            0 <= r < self.layouts@.len() ==> RegToken::valid_layout((#[trigger] self.layouts@[r])@)
    }
}

fn valid_layout_exec(layout: &Vec<FieldSpan>) -> (r: bool)
    ensures
        r == RegToken::valid_layout(layout@),
{
    let n = layout.len();
    if n == 0 || n > 0xffff_ffffusize {
        return false;
    }
    let mut i: usize = 0;
    while i < n
        invariant
            n == layout@.len(),
            i <= n,
            forall|k: int| 0 <= k < i ==> (#[trigger] layout@[k]).wf(),
        decreases n - i,
    {
        let s = layout[i];
        if !(1 <= s.width && s.width <= 32 && s.offset <= 32 - s.width) {
            return false;
        }
        i = i + 1;
    }
    true
}

/// Whether `f` is one of the fields `lo..hi` of register `reg`.
pub open spec fn in_range(f: FieldId, reg: u32, lo: u32, hi: u32) -> bool {
    f.reg == reg && lo <= f.index && f.index < hi
}

/// The fields `lo..hi` of register `reg`.
pub open spec fn index_range(reg: u32, lo: u32, hi: u32) -> Set<FieldId> {
    Set::new(|f: FieldId| in_range(f, reg, lo, hi))
}

fn seq_holds(s: &Vec<FieldId>, f: FieldId) -> (r: bool)
    ensures
        r == s@.contains(f),
{
    let mut i: usize = 0;
    while i < s.len()
        invariant
            i <= s@.len(),
            forall|k: int| 0 <= k < i ==> s@[k] != f,
        decreases s@.len() - i,
    {
        if s[i] == f {
            return true;
        }
        i = i + 1;
    }
    false
}

impl TokenRegistry {
    /// The spans of each register's fields, by register number.
    pub closed spec fn layouts(&self) -> Seq<Seq<FieldSpan>> {
        self.map.layouts@.map_values(|l: Vec<FieldSpan>| l@)
    }

    /// The fields currently held by exclusive tokens.
    pub closed spec fn held(&self) -> Set<FieldId> {
        Set::new(|f: FieldId| self.taken@.contains(f))
    }

    /// Whether `id` names a field of the register map.
    pub open spec fn is_field(&self, id: FieldId) -> bool {
        id.reg < self.layouts().len() && id.index < self.layouts()[id.reg as int].len()
    }

    /// The fields of register `reg`.
    pub open spec fn fields_of(&self, reg: u32) -> Set<FieldId> {
        Set::new(
            |f: FieldId| f.reg == reg && reg < self.layouts().len() && f.index < self.layouts()[reg as int].len(),
        )
    }

    /// A registry over the register map `layouts`, with nothing held yet.
    /// A map with more than `u32::MAX` registers, or with a register that has
    /// no fields, too many fields, or a field outside its 32 bits, is refused.
    pub fn new(layouts: Vec<Vec<FieldSpan>>) -> (r: Option<Self>)
        ensures
            r is Some <==> layouts@.len() <= u32::MAX && forall|k: int|
                0 <= k < layouts@.len() ==> RegToken::valid_layout((#[trigger] layouts@[k])@),
            r is Some ==> r->Some_0.layouts() == layouts@.map_values(|l: Vec<FieldSpan>| l@)
                && r->Some_0.held() == Set::<FieldId>::empty(),
    {
        if layouts.len() > 0xffff_ffffusize {
            return None;
        }
        let mut i: usize = 0;
        while i < layouts.len()
            invariant
                i <= layouts@.len(),
                forall|k: int| 0 <= k < i ==> RegToken::valid_layout((#[trigger] layouts@[k])@),
            decreases layouts@.len() - i,
        {
            if !valid_layout_exec(&layouts[i]) {
                return None;
            }
            i = i + 1;
        }
        let r = TokenRegistry { map: RegisterMap { layouts }, taken: Vec::new() };
        assert(r.held() =~= Set::<FieldId>::empty());
        Some(r)
    }

    /// Whether field `id` is held by an exclusive token.
    pub fn is_held(&self, id: FieldId) -> (r: bool)
        ensures
            r == self.held().contains(id),
    {
        seq_holds(&self.taken, id)
    }

    /// Hands out the exclusive token of one field, unless that field is held
    /// already or is not in the map.
    pub fn take_field(&mut self, reg: u32, index: u32) -> (r: Option<FieldToken>)
        ensures
            final(self).layouts() == old(self).layouts(),
            r is Some <==> old(self).is_field(FieldId { reg, index }) && !old(self).held().contains(
                FieldId { reg, index },
            ),
            r is Some ==> {
                &&& r->Some_0.id() == (FieldId { reg, index })
                &&& r->Some_0.span() == old(self).layouts()[reg as int][index as int]
                &&& r->Some_0.siblings() == old(self).layouts()[reg as int].len()
                &&& final(self).held() == old(self).held().insert(FieldId { reg, index })
            },
            r is None ==> final(self).held() == old(self).held(),
    {
        proof {
            use_type_invariant(&self.map);
        }
        let id = FieldId { reg, index };
        if reg as usize >= self.map.layouts.len() {
            return None;
        }
        let n = self.map.layouts[reg as usize].len();
        if index as usize >= n || seq_holds(&self.taken, id) {
            return None;
        }
        let span = self.map.layouts[reg as usize][index as usize];
        proof {
            assert(RegToken::valid_layout(self.map.layouts@[reg as int]@));
            assert(self.map.layouts@[reg as int]@[index as int].wf());
        }
        let ghost before = self.taken@;
        self.taken.push(id);
        proof {
            assert forall|f: FieldId| self.taken@.contains(f) <==> before.contains(f) || f == id by {
                if before.contains(f) {
                    let k = choose|k: int| 0 <= k < before.len() && before[k] == f;
                    assert(self.taken@[k] == f);
                }
                if self.taken@.contains(f) && f != id {
                    let k = choose|k: int| 0 <= k < self.taken@.len() && self.taken@[k] == f;
                    assert(before[k] == f);
                }
                if f == id {
                    assert(self.taken@[before.len() as int] == f);
                }
            }
            assert(self.held() =~= old(self).held().insert(id));
        }
        Some(FieldToken::new(id, span, n as u32))
    }

    /// Hands out the exclusive token of a whole register, unless one of its
    /// fields is held already or the register is not in the map.
    pub fn take_register(&mut self, reg: u32) -> (r: Option<RegToken>)
        ensures
            final(self).layouts() == old(self).layouts(),
            r is Some <==> reg < old(self).layouts().len() && old(self).fields_of(reg).disjoint(
                old(self).held(),
            ),
            r is Some ==> {
                &&& r->Some_0.reg() == reg
                &&& r->Some_0.layout() == old(self).layouts()[reg as int]
                &&& r->Some_0.footprint() == old(self).fields_of(reg)
                &&& final(self).held() == old(self).held() + old(self).fields_of(reg)
            },
            r is None ==> final(self).held() == old(self).held(),
    {
        proof {
            use_type_invariant(&self.map);
        }
        if reg as usize >= self.map.layouts.len() {
            return None;
        }
        let n = self.map.layouts[reg as usize].len();
        let mut i: usize = 0;
        while i < self.taken.len()
            invariant
                reg < self.map.layouts@.len(),
                n == self.map.layouts@[reg as int]@.len(),
                i <= self.taken@.len(),
                forall|k: int|
                    0 <= k < i ==> !((#[trigger] self.taken@[k]).reg == reg && self.taken@[k].index < n),
            decreases self.taken@.len() - i,
        {
            let t = self.taken[i];
            if t.reg == reg && (t.index as usize) < n {
                proof {
                    assert(self.held().contains(t));
                    assert(old(self).fields_of(reg).contains(t));
                }
                return None;
            }
            i = i + 1;
        }
        proof {
            assert forall|f: FieldId| old(self).fields_of(reg).contains(f) implies !old(self).held().contains(f) by {
                if old(self).held().contains(f) {
                    let k = choose|k: int| 0 <= k < self.taken@.len() && self.taken@[k] == f;
                    assert(self.taken@[k].reg == reg);
                }
            }
            assert(old(self).fields_of(reg).disjoint(old(self).held()));
        }
        let ghost before = self.taken@;
        let mut layout: Vec<FieldSpan> = Vec::new();
        let mut j: usize = 0;
        while j < n
            invariant
                reg < self.map.layouts@.len(),
                n == self.map.layouts@[reg as int]@.len(),
                RegToken::valid_layout(self.map.layouts@[reg as int]@),
                self.map.layouts == old(self).map.layouts,
                j <= n,
                layout@ == self.map.layouts@[reg as int]@.subrange(0, j as int),
                forall|f: FieldId|
                    #[trigger] self.taken@.contains(f) <==> before.contains(f) || (f.reg == reg
                        && f.index < j),
            decreases n - j,
        {
            let id = FieldId { reg, index: j as u32 };
            assert(id.index == j);
            let ghost prev = self.taken@;
            self.taken.push(id);
            layout.push(self.map.layouts[reg as usize][j]);
            proof {
                assert forall|f: FieldId|
                    #[trigger] self.taken@.contains(f) <==> before.contains(f) || (f.reg == reg
                        && f.index < j + 1) by {
                    if prev.contains(f) {
                        let k = choose|k: int| 0 <= k < prev.len() && prev[k] == f;
                        assert(self.taken@[k] == f);
                    }
                    if self.taken@.contains(f) && f != id {
                        let k = choose|k: int| 0 <= k < self.taken@.len() && self.taken@[k] == f;
                        assert(prev[k] == f);
                    }
                    if f.reg == reg && f.index == j {
                        assert(f == id);
                        assert(self.taken@[prev.len() as int] == f);
                    }
                }
                assert(layout@ =~= self.map.layouts@[reg as int]@.subrange(0, j + 1));
            }
            j = j + 1;
        }
        proof {
            assert(layout@ =~= self.map.layouts@[reg as int]@);
            assert(self.held() =~= old(self).held() + old(self).fields_of(reg));
        }
        let t = RegToken::new(reg, layout);
        proof {
            assert(t.footprint() =~= old(self).fields_of(reg));
        }
        Some(t)
    }

    /// Drops the fields `lo..hi` of register `reg` from the held set.
    fn forget(&mut self, reg: u32, lo: u32, hi: u32)
        ensures
            final(self).layouts() == old(self).layouts(),
            final(self).held() == old(self).held() - index_range(reg, lo, hi),
    {
        let mut kept: Vec<FieldId> = Vec::new();
        let mut i: usize = 0;
        while i < self.taken.len()
            invariant
                self.taken@ == old(self).taken@,
                i <= self.taken@.len(),
                forall|k: int|
                    0 <= k < kept@.len() ==> !in_range(#[trigger] kept@[k], reg, lo, hi)
                        && self.taken@.contains(kept@[k]),
                forall|k: int|
                    0 <= k < i && !in_range(#[trigger] self.taken@[k], reg, lo, hi) ==> kept@.contains(
                        self.taken@[k],
                    ),
            decreases self.taken@.len() - i,
        {
            let t = self.taken[i];
            proof {
                assert(self.taken@[i as int] == t);
            }
            if !(t.reg == reg && lo <= t.index && t.index < hi) {
                let ghost prev = kept@;
                kept.push(t);
                proof {
                    assert(kept@[prev.len() as int] == t);
                    assert forall|k: int|
                        0 <= k < i + 1 && !in_range(#[trigger] self.taken@[k], reg, lo, hi) implies kept@.contains(
                            self.taken@[k],
                        ) by {
                        if k < i {
                            let j = choose|j: int| 0 <= j < prev.len() && prev[j] == self.taken@[k];
                            assert(kept@[j] == self.taken@[k]);
                        }
                    }
                }
            }
            i = i + 1;
        }
        let ghost taken = self.taken@;
        self.taken = kept;
        proof {
            let fp = index_range(reg, lo, hi);
            assert forall|f: FieldId| self.held().contains(f) <==> (old(self).held() - fp).contains(f) by {
                if self.taken@.contains(f) {
                    let j = choose|j: int| 0 <= j < self.taken@.len() && self.taken@[j] == f;
                    assert(!in_range(self.taken@[j], reg, lo, hi));
                }
                if taken.contains(f) && !fp.contains(f) {
                    let k = choose|k: int| 0 <= k < taken.len() && taken[k] == f;
                    assert(!in_range(taken[k], reg, lo, hi));
                }
            }
            assert(self.held() =~= old(self).held() - fp);
        }
    }

    /// Takes back a field token: its field is no longer held.
    pub fn release_field(&mut self, token: FieldToken)
        ensures
            final(self).layouts() == old(self).layouts(),
            final(self).held() == old(self).held().remove(token.id()),
    {
        let id = token.id();
        // A field's index is below its register's field count, so the
        // range end fits.
        let siblings = token.siblings();
        assert(id.index < siblings);
        self.forget(id.reg, id.index, id.index + 1);
        proof {
            let fp = index_range(id.reg, id.index, (id.index + 1) as u32);
            assert(fp =~= set![id]);
            assert(old(self).held() - set![id] =~= old(self).held().remove(id));
        }
    }

    /// Takes back a register token: none of its fields is held any more.
    pub fn release_register(&mut self, token: RegToken)
        ensures
            final(self).layouts() == old(self).layouts(),
            final(self).held() == old(self).held() - token.footprint(),
    {
        let n = token.field_count();
        let reg = token.reg();
        self.forget(reg, 0, n);
        proof {
            let fp = index_range(reg, 0, n);
            assert(fp =~= token.footprint());
        }
    }
}

} // verus!
