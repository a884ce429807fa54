//! Bit fields of 32-bit registers: reading, writing and read-modify-write
//! updates that touch only the bits of the fields they name.
use vstd::prelude::*;

verus! {

/// A run of `width` adjacent bits starting at bit `offset` of a 32-bit word.
#[derive(Clone, Copy, PartialEq, Eq, Structural, Debug)]
pub struct Field {
    pub offset: u32,
    pub width: u32,
}

/// The `width` lowest bits set (all bits for a width of 32 or more).
pub open spec fn low_mask(width: u32) -> u32 {
    if width >= 32 {
        0xffff_ffffu32
    } else {
        !(0xffff_ffffu32 << width)
    }
}

/// Whether bit `i` of `word` is one.
pub open spec fn bit_of(word: u32, i: u32) -> bool {
    (word >> i) & 1u32 == 1u32
}

impl Field {
    /// The field lies inside the word and is at least one bit wide.
    pub open spec fn wf(self) -> bool {
        &&& 1 <= self.width
        &&& self.width <= 32
        &&& self.offset + self.width <= 32
    }

    /// The word with exactly the bits of the field set.
    pub open spec fn mask_spec(self) -> u32 {
        low_mask(self.width) << self.offset
    }

    /// Whether bit `i` belongs to the field.
    pub open spec fn covers(self, i: u32) -> bool {
        self.offset <= i && i < self.offset + self.width
    }

    /// Whether `value` fits in the field.
    pub open spec fn fits(self, value: u32) -> bool {
        value <= low_mask(self.width)
    }

    /// Two fields share no bit.
    pub open spec fn disjoint(self, other: Field) -> bool {
        self.offset + self.width <= other.offset || other.offset + other.width <= self.offset
    }

    /// The field's bits, each set.
    pub fn mask(&self) -> (m: u32)
        requires
            self.wf(),
        ensures
            m == self.mask_spec(),
            forall|i: u32| i < 32 ==> (bit_of(m, i) <==> self.covers(i)),
    {
        let w = self.width;
        let o = self.offset;
        let low: u32 = if w == 32 {
            0xffff_ffffu32
        } else {
            !(0xffff_ffffu32 << w)
        };
        let m = low << o;
        assert(low == low_mask(w));
        assert(forall|i: u32|
            i < 32 ==> (#[trigger] bit_of(m, i) <==> (o <= i && i < o + w))) by (bit_vector)
            requires
                m == low_mask(w) << o,
                1 <= w <= 32,
                o + w <= 32,
        ;
        m
    }
}

/// The value held in field `f` of `word`.
pub open spec fn read_spec(word: u32, f: Field) -> u32 {
    (word >> f.offset) & low_mask(f.width)
}

/// `word` with field `f` replaced by `value` and every other bit kept.
pub open spec fn write_spec(word: u32, f: Field, value: u32) -> u32 {
    (word & !f.mask_spec()) | (value << f.offset)
}

/// Reads field `f` of `word`.
pub fn read_field(word: u32, f: Field) -> (v: u32)
    requires
        f.wf(),
    ensures
        v == read_spec(word, f),
        f.fits(v),
{
    let o = f.offset;
    let w = f.width;
    let low: u32 = if w == 32 {
        0xffff_ffffu32
    } else {
        !(0xffff_ffffu32 << w)
    };
    assert(low == low_mask(w));
    let v = (word >> o) & low;
    assert(v <= low) by (bit_vector)
        requires
            v == (word >> o) & low,
    ;
    v
}

/// Writes `value` into field `f` of `word`, keeping every bit outside it.
pub fn write_field(word: u32, f: Field, value: u32) -> (r: u32)
    requires
        f.wf(),
        f.fits(value),
    ensures
        r == write_spec(word, f, value),
        read_spec(r, f) == value,
        forall|i: u32| i < 32 && !f.covers(i) ==> bit_of(r, i) == bit_of(word, i),
{
    let m = f.mask();
    let r = (word & !m) | (value << f.offset);
    proof {
        lemma_write_read(word, f, value);
        lemma_write_keeps_other_bits(word, f, value);
    }
    r
}

/// Whether bit `i` of `word` is one.
pub fn test_bit(word: u32, i: u32) -> (b: bool)
    requires
        i < 32,
    ensures
        b == bit_of(word, i),
        b == (word & (1u32 << i) != 0),
{
    let b = (word >> i) & 1u32 == 1u32;
    assert(((word >> i) & 1u32 == 1u32) == (word & (1u32 << i) != 0)) by (bit_vector)
        requires
            i < 32,
    ;
    b
}

/// The word with only bit `i` set.
pub fn single_bit(i: u32) -> (m: u32)
    requires
        i < 32,
    ensures
        m == 1u32 << i,
        forall|j: u32| j < 32 ==> (bit_of(m, j) <==> j == i),
{
    let m = 1u32 << i;
    assert(forall|j: u32| j < 32 ==> (#[trigger] bit_of(m, j) <==> j == i)) by (bit_vector)
        requires
            m == 1u32 << i,
            i < 32,
    ;
    m
}

/// A field written and then read gives back what was written.
pub proof fn lemma_write_read(word: u32, f: Field, value: u32)
    requires
        f.wf(),
        f.fits(value),
    ensures
        read_spec(write_spec(word, f, value), f) == value,
{
    let o = f.offset;
    let w = f.width;
    assert(((((word & !(low_mask(w) << o)) | (value << o)) >> o) & low_mask(w)) == value)
        by (bit_vector)
        requires
            1 <= w <= 32,
            o + w <= 32,
            value <= low_mask(w),
    ;
}

/// Writing a field leaves every bit outside it as it was.
pub proof fn lemma_write_keeps_other_bits(word: u32, f: Field, value: u32)
    requires
        f.wf(),
        f.fits(value),
    ensures
        forall|i: u32|
            i < 32 && !f.covers(i) ==> #[trigger] bit_of(write_spec(word, f, value), i) == bit_of(
                word,
                i,
            ),
{
    let o = f.offset;
    let w = f.width;
    assert(forall|i: u32|
        i < 32 && !(o <= i && i < o + w) ==> #[trigger] bit_of(
            (word & !(low_mask(w) << o)) | (value << o),
            i,
        ) == bit_of(word, i)) by (bit_vector)
        requires
            1 <= w <= 32,
            o + w <= 32,
            value <= low_mask(w),
    ;
}

/// Writing a field twice keeps only the second value.
pub proof fn lemma_write_write(word: u32, f: Field, a: u32, b: u32)
    requires
        f.wf(),
        f.fits(a),
        f.fits(b),
    ensures
        write_spec(write_spec(word, f, a), f, b) == write_spec(word, f, b),
{
    let o = f.offset;
    let w = f.width;
    assert(((((word & !(low_mask(w) << o)) | (a << o)) & !(low_mask(w) << o)) | (b << o)) == ((
    word & !(low_mask(w) << o)) | (b << o))) by (bit_vector)
        requires
            1 <= w <= 32,
            o + w <= 32,
            a <= low_mask(w),
    ;
}

/// Writing back the value a field already holds leaves the word unchanged.
pub proof fn lemma_write_own_value(word: u32, f: Field)
    requires
        f.wf(),
    ensures
        write_spec(word, f, read_spec(word, f)) == word,
{
    let o = f.offset;
    let w = f.width;
    assert(((word & !(low_mask(w) << o)) | (((word >> o) & low_mask(w)) << o)) == word)
        by (bit_vector)
        requires
            1 <= w <= 32,
            o + w <= 32,
    ;
}

/// Writing one field leaves what a disjoint field reads unchanged.
pub proof fn lemma_write_keeps_disjoint_field(word: u32, f: Field, g: Field, value: u32)
    requires
        f.wf(),
        g.wf(),
        f.fits(value),
        f.disjoint(g),
    ensures
        read_spec(write_spec(word, f, value), g) == read_spec(word, g),
{
    let o = f.offset;
    let w = f.width;
    let p = g.offset;
    let x = g.width;
    assert(((((word & !(low_mask(w) << o)) | (value << o)) >> p) & low_mask(x)) == ((word >> p)
        & low_mask(x))) by (bit_vector)
        requires
            1 <= w <= 32,
            o + w <= 32,
            1 <= x <= 32,
            p + x <= 32,
            value <= low_mask(w),
            o + w <= p || p + x <= o,
    ;
}

/// Writes to disjoint fields may be done in either order.
pub proof fn lemma_disjoint_writes_commute(word: u32, f: Field, g: Field, a: u32, b: u32)
    requires
        f.wf(),
        g.wf(),
        f.fits(a),
        g.fits(b),
        f.disjoint(g),
    ensures
        write_spec(write_spec(word, f, a), g, b) == write_spec(write_spec(word, g, b), f, a),
{
    let o = f.offset;
    let w = f.width;
    let p = g.offset;
    let x = g.width;
    assert(((((word & !(low_mask(w) << o)) | (a << o)) & !(low_mask(x) << p)) | (b << p)) == ((((
    word & !(low_mask(x) << p)) | (b << p)) & !(low_mask(w) << o)) | (a << o))) by (bit_vector)
        requires
            1 <= w <= 32,
            o + w <= 32,
            1 <= x <= 32,
            p + x <= 32,
            a <= low_mask(w),
            b <= low_mask(x),
            o + w <= p || p + x <= o,
    ;
}

/// The values of the low masks of the widths that register fields have.
pub proof fn lemma_low_masks()
    ensures
        low_mask(1) == 1u32,
        low_mask(2) == 3u32,
        low_mask(3) == 7u32,
        low_mask(6) == 63u32,
        low_mask(8) == 255u32,
        low_mask(9) == 511u32,
        low_mask(18) == 0x3ffffu32,
        low_mask(32) == 0xffff_ffffu32,
{
    assert(!(0xffff_ffffu32 << 1u32) == 1u32) by (bit_vector);
    assert(!(0xffff_ffffu32 << 2u32) == 3u32) by (bit_vector);
    assert(!(0xffff_ffffu32 << 3u32) == 7u32) by (bit_vector);
    assert(!(0xffff_ffffu32 << 6u32) == 63u32) by (bit_vector);
    assert(!(0xffff_ffffu32 << 8u32) == 255u32) by (bit_vector);
    assert(!(0xffff_ffffu32 << 9u32) == 511u32) by (bit_vector);
    assert(!(0xffff_ffffu32 << 18u32) == 0x3ffffu32) by (bit_vector);
}

/// What a field reads after a write to the same field or to a disjoint one.
pub broadcast proof fn lemma_read_after_write(word: u32, f: Field, value: u32, g: Field)
    requires
        f.wf(),
        g.wf(),
        f.fits(value),
        f == g || f.disjoint(g),
    ensures
        #[trigger] read_spec(write_spec(word, f, value), g) == if f == g {
            value
        } else {
            read_spec(word, g)
        },
{
    if f == g {
        lemma_write_read(word, f, value);
    } else {
        lemma_write_keeps_disjoint_field(word, f, g, value);
    }
}

/// A read-modify-write of a register: the bits of `mask` are replaced by
/// those of `bits`, every other bit is written back as it was read.
#[derive(Clone, Copy, PartialEq, Eq, Structural, Debug)]
pub struct FieldUpdate {
    pub mask: u32,
    pub bits: u32,
}

impl FieldUpdate {
    /// No bit is set outside the mask.
    pub open spec fn wf(self) -> bool {
        self.bits & !self.mask == 0
    }

    /// The word that results from applying the update to `word`.
    pub open spec fn apply_spec(self, word: u32) -> u32 {
        (word & !self.mask) | self.bits
    }

    /// The update that writes `value` into field `f`.
    pub fn of(f: Field, value: u32) -> (u: FieldUpdate)
        requires
            f.wf(),
            f.fits(value),
        ensures
            u.wf(),
            u.mask == f.mask_spec(),
            u.bits == value << f.offset,
            forall|w: u32| #[trigger] u.apply_spec(w) == write_spec(w, f, value),
    {
        let m = f.mask();
        let o = f.offset;
        let wd = f.width;
        let u = FieldUpdate { mask: m, bits: value << o };
        assert((value << o) & !m == 0) by (bit_vector)
            requires
                m == low_mask(wd) << o,
                value <= low_mask(wd),
                1 <= wd <= 32,
                o + wd <= 32,
        ;
        u
    }

    /// The update that sets the one-bit field `f` to `on`.
    pub fn of_flag(f: Field, on: bool) -> (u: FieldUpdate)
        requires
            f.wf(),
            f.width == 1,
        ensures
            u.wf(),
            u.mask == f.mask_spec(),
            forall|w: u32| #[trigger]
                u.apply_spec(w) == write_spec(w, f, if on { 1u32 } else { 0u32 }),
    {
        assert(low_mask(1) == 1u32) by (bit_vector);
        FieldUpdate::of(f, if on { 1 } else { 0 })
    }

    /// This update followed by writing `value` into field `f`.
    pub fn with(self, f: Field, value: u32) -> (r: FieldUpdate)
        requires
            self.wf(),
            f.wf(),
            f.fits(value),
        ensures
            r.wf(),
            r.mask == self.mask | f.mask_spec(),
            r.bits == (self.bits & !f.mask_spec()) | (value << f.offset),
            forall|w: u32| #[trigger] r.apply_spec(w) == write_spec(self.apply_spec(w), f, value),
    {
        let fm = f.mask();
        let o = f.offset;
        let m = self.mask;
        let b = self.bits;
        let r = FieldUpdate { mask: m | fm, bits: (b & !fm) | (value << o) };
        let wd = f.width;
        assert(((b & !fm) | (value << o)) & !(m | fm) == 0) by (bit_vector)
            requires
                b & !m == 0,
                fm == low_mask(wd) << o,
                value <= low_mask(wd),
                1 <= wd <= 32,
                o + wd <= 32,
        ;
        assert(forall|w: u32|
            #[trigger] ((w & !(m | fm)) | ((b & !fm) | (value << o))) == ((((w & !m) | b) & !fm)
                | (value << o))) by (bit_vector);
        r
    }

    /// This update followed by setting the one-bit field `f` to `on`.
    pub fn with_flag(self, f: Field, on: bool) -> (r: FieldUpdate)
        requires
            self.wf(),
            f.wf(),
            f.width == 1,
        ensures
            r.wf(),
            r.mask == self.mask | f.mask_spec(),
            forall|w: u32| #[trigger]
                r.apply_spec(w) == write_spec(self.apply_spec(w), f, if on { 1u32 } else { 0u32 }),
    {
        assert(low_mask(1) == 1u32) by (bit_vector);
        self.with(f, if on { 1 } else { 0 })
    }

    /// Applies the update to a word read from a register.
    pub fn apply(&self, word: u32) -> (r: u32)
        ensures
            r == self.apply_spec(word),
    {
        (word & !self.mask) | self.bits
    }
}

} // verus!
