//! Register capability tokens.
//!
//! A token proves that its holder may perform a given register operation.
//! `RegToken` and `FieldToken` are exclusive: they are neither `Clone` nor
//! `Copy`, so the only way to pass one on is to move it. `SharedToken` names a
//! single bit and may be duplicated freely, because the operations it permits
//! (bit-band set, clear and read) are atomic and commute at the bus level.
use crate::bus::RegisterFile;
use vstd::prelude::*;

verus! {

/// The identity of one field: the register that holds it and its position
/// among that register's fields.
#[derive(Clone, Copy, Debug, PartialEq, Eq, Structural)]
pub struct FieldId {
    pub reg: u32,
    pub index: u32,
}

/// Where a field sits inside its 32-bit register.
#[derive(Clone, Copy, Debug, PartialEq, Eq, Structural)]
pub struct FieldSpan {
    pub offset: u32,
    pub width: u32,
}

impl FieldSpan {
    /// At least one bit wide, and inside the register.
    pub open spec fn wf(self) -> bool {
        1 <= self.width && self.offset + self.width <= 32
    }
}

/// The `width` lowest bits set.
pub open spec fn low_mask(width: u32) -> u32 {
    if width >= 32 {
        0xffff_ffffu32
    } else {
        ((1u32 << width) - 1u32) as u32
    }
}

/// The bits of `span` in the register value `val`, shifted down to bit 0.
pub open spec fn field_bits(val: u32, span: FieldSpan) -> u32 {
    (val >> span.offset) & low_mask(span.width)
}

/// `val` with the bits of `span` replaced by `bits`.
pub open spec fn with_field(val: u32, span: FieldSpan, bits: u32) -> u32 {
    (val & !(low_mask(span.width) << span.offset)) | ((bits & low_mask(span.width)) << span.offset)
}

/// Whether two spans share no bit.
pub open spec fn apart(a: FieldSpan, b: FieldSpan) -> bool {
    a.offset + a.width <= b.offset || b.offset + b.width <= a.offset
}

/// Whether bit `offset` of `val` is set.
pub open spec fn bit_of(val: u32, offset: u32) -> bool {
    (val >> offset) & 1u32 == 1u32
}

fn low_mask_exec(width: u32) -> (r: u32)
    requires
        width <= 32,
    ensures
        r == low_mask(width),
{
    if width >= 32 {
        0xffff_ffffu32
    } else {
        let p = 1u32 << width;
        assert(p >= 1) by (bit_vector)
            requires
                width < 32,
                p == 1u32 << width,
        ;
        p - 1
    }
}

/// Reading a field back after writing it gives what was written.
pub proof fn lemma_read_after_write(val: u32, span: FieldSpan, bits: u32)
    requires
        span.wf(),
        bits <= low_mask(span.width),
    ensures
        field_bits(with_field(val, span, bits), span) == bits,
{
    let off = span.offset;
    let w = span.width;
    if w >= 32 {
        assert(off == 0);
        assert(((val & !(0xffff_ffffu32 << off)) | ((bits & 0xffff_ffffu32) << off)) >> off
            & 0xffff_ffffu32 == bits) by (bit_vector)
            requires
                off == 0u32,
        ;
    } else {
        let m = ((1u32 << w) - 1u32) as u32;
        assert(((val & !(m << off)) | ((bits & m) << off)) >> off & m == bits) by (bit_vector)
            requires
                1u32 <= w < 32u32,
                off + w <= 32,
                m == ((1u32 << w) - 1u32) as u32,
                bits <= m,
        ;
    }
}

/// Writing a field leaves every field of the register that does not overlap
/// it as it was.
pub proof fn lemma_write_keeps_others(val: u32, span: FieldSpan, bits: u32, other: FieldSpan)
    requires
        span.wf(),
        other.wf(),
        apart(span, other),
    ensures
        field_bits(with_field(val, span, bits), other) == field_bits(val, other),
{
    let (o1, w1, o2, w2) = (span.offset, span.width, other.offset, other.width);
    let m1 = low_mask(w1);
    let m2 = low_mask(w2);
    assert(w1 < 32 && w2 < 32);
    assert(((val & !(m1 << o1)) | ((bits & m1) << o1)) >> o2 & m2 == (val >> o2) & m2)
        by (bit_vector)
        requires
            1u32 <= w1 < 32u32,
            1u32 <= w2 < 32u32,
            o1 + w1 <= 32,
            o2 + w2 <= 32,
            o1 + w1 <= o2 || o2 + w2 <= o1,
            m1 == ((1u32 << w1) - 1u32) as u32,
            m2 == ((1u32 << w2) - 1u32) as u32,
    ;
}

/// Exclusive right over one field of a register.
pub struct FieldToken {
    id: FieldId,
    span: FieldSpan,
    siblings: u32,
}

/// Exclusive right over a whole register, and so over each of its fields.
pub struct RegToken {
    reg: u32,
    layout: Vec<FieldSpan>,
}

/// Shared right over one bit of a register.
#[derive(Clone, Copy)]
pub struct SharedToken {
    id: FieldId,
    offset: u32,
}

impl FieldToken {
    #[verifier::type_invariant]
    spec fn inv(&self) -> bool {
        self.span.wf() && self.id.index < self.siblings
    }

    pub closed spec fn spec_id(&self) -> FieldId {
        self.id
    }

    pub closed spec fn spec_span(&self) -> FieldSpan {
        self.span
    }

    pub closed spec fn spec_siblings(&self) -> u32 {
        self.siblings
    }

    /// The fields this token covers.
    pub open spec fn footprint(&self) -> Set<FieldId> {
        set![self.id()]
    }

    pub(crate) fn new(id: FieldId, span: FieldSpan, siblings: u32) -> (r: Self)
        requires
            span.wf(),
            id.index < siblings,
        ensures
            r.id() == id,
            r.span() == span,
            r.siblings() == siblings,
    {
        FieldToken { id, span, siblings }
    }

    #[verifier::when_used_as_spec(spec_id)]
    pub fn id(&self) -> (r: FieldId)
        ensures
            r == self.id(),
    {
        self.id
    }

    #[verifier::when_used_as_spec(spec_span)]
    pub fn span(&self) -> (r: FieldSpan)
        ensures
            r == self.span(),
            r.wf(),
    {
        proof {
            use_type_invariant(self);
        }
        self.span
    }

    /// Number of fields in the register this field belongs to.
    #[verifier::when_used_as_spec(spec_siblings)]
    pub fn siblings(&self) -> (r: u32)
        ensures
            r == self.siblings(),
            self.id().index < r,
    {
        proof {
            use_type_invariant(self);
        }
        self.siblings
    }

    /// The value of this field in the register value `val`.
    pub fn read(&self, val: u32) -> (r: u32)
        ensures
            r == field_bits(val, self.span()),
    {
        proof {
            use_type_invariant(self);
        }
        (val >> self.span.offset) & low_mask_exec(self.span.width)
    }

    /// Replaces this field of the register value `*val` with `bits`. The
    /// field then reads `bits`, if they fit, and every field that does not
    /// overlap this one reads as before.
    pub fn write(&self, val: &mut u32, bits: u32)
        ensures
            *final(val) == with_field(*old(val), self.span(), bits),
            bits <= low_mask(self.span().width) ==> field_bits(*final(val), self.span()) == bits,
            forall|other: FieldSpan|
                #![trigger field_bits(*final(val), other)]
                other.wf() && apart(self.span(), other) ==> field_bits(*final(val), other)
                    == field_bits(*old(val), other),
    {
        proof {
            use_type_invariant(self);
        }
        let m = low_mask_exec(self.span.width);
        let ghost before = *val;
        *val = (*val & !(m << self.span.offset)) | ((bits & m) << self.span.offset);
        proof {
            if bits <= low_mask(self.span.width) {
                lemma_read_after_write(before, self.span, bits);
            }
            assert forall|other: FieldSpan|
                other.wf() && apart(self.span, other) implies field_bits(*val, other) == field_bits(
                before,
                other,
            ) by {
                lemma_write_keeps_others(before, self.span, bits, other);
            }
        }
    }

    /// Sets every bit of this field in the register value `*val`.
    pub fn set(&self, val: &mut u32)
        ensures
            *final(val) == with_field(*old(val), self.span(), low_mask(self.span().width)),
    {
        proof {
            use_type_invariant(self);
        }
        let m = low_mask_exec(self.span.width);
        self.write(val, m);
    }

    /// Clears every bit of this field in the register value `*val`.
    pub fn clear(&self, val: &mut u32)
        ensures
            *final(val) == with_field(*old(val), self.span(), 0),
    {
        self.write(val, 0);
    }

    /// Gives up exclusivity for a shared right over the same bit. Only a
    /// one-bit field can be shared; any other is handed back unchanged.
    pub fn into_shared(self) -> (r: Result<SharedToken, FieldToken>)
        ensures
            self.span().width == 1 <==> r is Ok,
            r is Ok ==> r->Ok_0.id() == self.id() && r->Ok_0.offset() == self.span().offset,
            r is Err ==> r->Err_0 == self,
    {
        proof {
            use_type_invariant(&self);
        }
        if self.span.width == 1 {
            Ok(SharedToken { id: self.id, offset: self.span.offset })
        } else {
            Err(self)
        }
    }
}

impl RegToken {
    #[verifier::type_invariant]
    spec fn inv(&self) -> bool {
        &&& 1 <= self.layout@.len() <= u32::MAX
        &&& forall|i: int| 0 <= i < self.layout@.len() ==> (#[trigger] self.layout@[i]).wf()
    }

    pub closed spec fn spec_reg(&self) -> u32 {
        self.reg
    }

    /// The spans of the register's fields, by position.
    pub closed spec fn layout(&self) -> Seq<FieldSpan> {
        self.layout@
    }

    /// The fields this token covers: every field of its register.
    pub open spec fn footprint(&self) -> Set<FieldId> {
        Set::new(|f: FieldId| f.reg == self.reg() && f.index < self.layout().len())
    }

    /// What a layout must be for a register to be built on it.
    pub open spec fn valid_layout(layout: Seq<FieldSpan>) -> bool {
        &&& 1 <= layout.len() <= u32::MAX
        &&& forall|i: int| 0 <= i < layout.len() ==> (#[trigger] layout[i]).wf()
    }

    pub(crate) fn new(reg: u32, layout: Vec<FieldSpan>) -> (r: Self)
        requires
            Self::valid_layout(layout@),
        ensures
            r.reg() == reg,
            r.layout() == layout@,
    {
        RegToken { reg, layout }
    }

    #[verifier::when_used_as_spec(spec_reg)]
    pub fn reg(&self) -> (r: u32)
        ensures
            r == self.reg(),
    {
        self.reg
    }

    /// Number of fields in the register.
    pub fn field_count(&self) -> (r: u32)
        ensures
            r == self.layout().len(),
            Self::valid_layout(self.layout()),
    {
        proof {
            use_type_invariant(self);
        }
        self.layout.len() as u32
    }

    /// Reads the whole register.
    pub fn read_val(&self, bus: &RegisterFile) -> (r: u32)
        requires
            self.reg() < bus@.len(),
        ensures
            r == bus@[self.reg() as int],
    {
        bus.load(self.reg)
    }

    /// Writes the whole register.
    pub fn store_val(&self, bus: &mut RegisterFile, value: u32)
        requires
            self.reg() < old(bus)@.len(),
        ensures
            final(bus)@ == old(bus)@.update(self.reg() as int, value),
    {
        bus.store(self.reg, value);
    }

    /// Splits the register token into one token per field, in field order.
    pub fn fork(self) -> (r: Vec<FieldToken>)
        ensures
            r@.len() == self.layout().len(),
            forall|i: int|
                0 <= i < r@.len() ==> {
                    &&& (#[trigger] r@[i]).id() == (FieldId { reg: self.reg(), index: i as u32 })
                    &&& r@[i].span() == self.layout()[i]
                    &&& r@[i].siblings() == self.layout().len()
                },
    {
        proof {
            use_type_invariant(&self);
        }
        let n = self.layout.len();
        let mut out: Vec<FieldToken> = Vec::new();
        let mut i: usize = 0;
        while i < n
            invariant
                n == self.layout@.len(),
                1 <= n <= u32::MAX,
                forall|k: int| 0 <= k < n ==> (#[trigger] self.layout@[k]).wf(),
                i <= n,
                out@.len() == i,
                forall|k: int|
                    0 <= k < i ==> {
                        &&& (#[trigger] out@[k]).id() == (FieldId { reg: self.reg, index: k as u32 })
                        &&& out@[k].span() == self.layout@[k]
                        &&& out@[k].siblings() == n
                    },
            decreases n - i,
        {
            let t = FieldToken::new(
                FieldId { reg: self.reg, index: i as u32 },
                self.layout[i],
                n as u32,
            );
            out.push(t);
            i = i + 1;
        }
        out
    }

    /// Whether `fields` is exactly the set of field tokens of one register,
    /// in field order.
    pub open spec fn forms_register(fields: Seq<FieldToken>) -> bool {
        &&& fields.len() >= 1
        &&& forall|i: int|
            0 <= i < fields.len() ==> {
                &&& (#[trigger] fields[i]).id() == (FieldId { reg: fields[0].id().reg, index: i as u32 })
                &&& fields[i].siblings() == fields.len()
            }
    }

    /// Rebuilds the register token from its field tokens. Anything other
    /// than the complete, ordered set of one register's fields is handed back
    /// unchanged.
    pub fn join(fields: Vec<FieldToken>) -> (r: Result<RegToken, Vec<FieldToken>>)
        ensures
            Self::forms_register(fields@) <==> r is Ok,
            r is Ok ==> r->Ok_0.reg() == fields@[0].id().reg && r->Ok_0.layout() == fields@.map_values(
                |t: FieldToken| t.span(),
            ),
            r is Err ==> r->Err_0 == fields,
    {
        let n = fields.len();
        if n == 0 {
            return Err(fields);
        }
        let reg = fields[0].id().reg;
        let mut i: usize = 0;
        let mut ok = true;
        let mut layout: Vec<FieldSpan> = Vec::new();
        while i < n
            invariant
                n == fields@.len(),
                n >= 1,
                reg == fields@[0].id().reg,
                i <= n,
                layout@.len() == i,
                forall|k: int| 0 <= k < i ==> (#[trigger] layout@[k]) == fields@[k].span(),
                forall|k: int| 0 <= k < i ==> (#[trigger] layout@[k]).wf(),
                ok ==> forall|k: int|
                    0 <= k < i ==> {
                        &&& (#[trigger] fields@[k]).id() == (FieldId { reg, index: k as u32 })
                        &&& fields@[k].siblings() == n
                    },
                !ok ==> !Self::forms_register(fields@),
            decreases n - i,
        {
            let t = &fields[i];
            let s = t.span();
            let id = t.id();
            let sib = t.siblings();
            if !(id.reg == reg && id.index as usize == i && sib as usize == n) {
                ok = false;
            }
            layout.push(s);
            i = i + 1;
        }
        if ok {
            proof {
                assert(fields@[0].siblings() == n);
                assert(layout@ =~= fields@.map_values(|t: FieldToken| t.span()));
            }
            Ok(RegToken { reg, layout })
        } else {
            Err(fields)
        }
    }
}

impl SharedToken {
    #[verifier::type_invariant]
    spec fn inv(&self) -> bool {
        self.offset < 32
    }

    pub closed spec fn spec_id(&self) -> FieldId {
        self.id
    }

    pub closed spec fn spec_offset(&self) -> u32 {
        self.offset
    }

    #[verifier::when_used_as_spec(spec_id)]
    pub fn id(&self) -> (r: FieldId)
        ensures
            r == self.id(),
    {
        self.id
    }

    /// Position of the bit in its register.
    #[verifier::when_used_as_spec(spec_offset)]
    pub fn offset(&self) -> (r: u32)
        ensures
            r == self.offset(),
            r < 32,
    {
        proof {
            use_type_invariant(self);
        }
        self.offset
    }

    /// Another holder of the same right.
    pub fn duplicate(&self) -> (r: SharedToken)
        ensures
            r.id() == self.id(),
            r.offset() == self.offset(),
    {
        proof {
            use_type_invariant(self);
        }
        SharedToken { id: self.id, offset: self.offset }
    }

    /// Whether the bit is set in the register value `val`.
    pub fn read(&self, val: u32) -> (r: bool)
        ensures
            r == bit_of(val, self.offset()),
    {
        proof {
            use_type_invariant(self);
        }
        (val >> self.offset) & 1 == 1
    }

    /// Sets the bit in the register value `*val`.
    pub fn set(&self, val: &mut u32)
        ensures
            *final(val) == *old(val) | (1u32 << self.offset()),
    {
        proof {
            use_type_invariant(self);
        }
        *val = *val | (1u32 << self.offset);
    }

    /// Clears the bit in the register value `*val`.
    pub fn clear(&self, val: &mut u32)
        ensures
            *final(val) == *old(val) & !(1u32 << self.offset()),
    {
        proof {
            use_type_invariant(self);
        }
        *val = *val & !(1u32 << self.offset);
    }

    /// Reads the bit in the register itself, as one bit-band load.
    pub fn read_bit_band(&self, bus: &RegisterFile) -> (r: bool)
        requires
            self.id().reg < bus@.len(),
        ensures
            r == bit_of(bus@[self.id().reg as int], self.offset()),
    {
        let v = bus.load(self.id.reg);
        self.read(v)
    }

    /// Sets the bit in the register itself, as one bit-band store.
    pub fn set_bit_band(&self, bus: &mut RegisterFile)
        requires
            self.id().reg < old(bus)@.len(),
        ensures
            final(bus)@ == old(bus)@.update(
                self.id().reg as int,
                old(bus)@[self.id().reg as int] | (1u32 << self.offset()),
            ),
    {
        let mut v = bus.load(self.id.reg);
        self.set(&mut v);
        bus.store(self.id.reg, v);
    }

    /// Clears the bit in the register itself, as one bit-band store.
    pub fn clear_bit_band(&self, bus: &mut RegisterFile)
        requires
            self.id().reg < old(bus)@.len(),
        ensures
            final(bus)@ == old(bus)@.update(
                self.id().reg as int,
                old(bus)@[self.id().reg as int] & !(1u32 << self.offset()),
            ),
    {
        let mut v = bus.load(self.id.reg);
        self.clear(&mut v);
        bus.store(self.id.reg, v);
    }
}

} // verus!
