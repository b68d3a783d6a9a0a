use vstd::prelude::*;

verus! {

/// The value (0 or 1) of bit `pos` of an 8-bit value, counted from the least
/// significant bit.
pub open spec fn bit8(x: u8, pos: u8) -> u8 {
    (x >> pos) & 1
}

/// The value (0 or 1) of bit `pos` of a 16-bit value.
pub open spec fn bit16(x: u16, pos: u8) -> u16 {
    (x >> pos) & 1
}

/// `target` with bit `pos` set to `value` (0 or 1).
pub open spec fn with_bit8(target: u8, pos: u8, value: u8) -> u8 {
    if value == 0 {
        target & !(1u8 << pos)
    } else {
        target | (1u8 << pos)
    }
}

/// `target` with bit `pos` set to `value` (0 or 1).
pub open spec fn with_bit16(target: u16, pos: u8, value: u8) -> u16 {
    if value == 0 {
        target & !(1u16 << pos)
    } else {
        target | (1u16 << pos)
    }
}

/// Returns bit `bit_pos` of `source` (counted from the least significant
/// bit) as 0 or 1.
pub fn get_bit(source: u8, bit_pos: u8) -> (r: u8)
    requires
        bit_pos < 8,
    ensures
        r == bit8(source, bit_pos),
        r <= 1,
{
    let r = (source & (1u8 << bit_pos) != 0) as u8;
    assert(r == bit8(source, bit_pos) && r <= 1) by (bit_vector)
        requires
            bit_pos < 8,
            r == (if source & (1u8 << bit_pos) != 0 { 1u8 } else { 0u8 }),
    ;
    r
}


/// Returns bit `bit_pos` of a 16-bit `source` as 0 or 1.
pub fn get_bit_16(source: u16, bit_pos: u8) -> (r: u8)
    requires
        bit_pos < 16,
    ensures
        r as u16 == bit16(source, bit_pos),
        r <= 1,
{
    let r = (source & (1u16 << bit_pos) != 0) as u8;
    assert(r as u16 == bit16(source, bit_pos) && r <= 1) by (bit_vector)
        requires
            bit_pos < 16,
            r == (if source & (1u16 << bit_pos) != 0 { 1u8 } else { 0u8 }),
    ;
    r
}

/// Sets bit `bit_pos` of `target` to `new_value`, which must be 0 or 1.
pub fn set_bit(target: &mut u8, bit_pos: u8, new_value: u8)
    requires
        bit_pos < 8,
        new_value <= 1,
    ensures
        *final(target) == with_bit8(*old(target), bit_pos, new_value),
{
    if new_value == 0 {
        *target = *target & !(1u8 << bit_pos);
    } else {
        *target = *target | (1u8 << bit_pos);
    }
}

/// Sets bit `bit_pos` of a 16-bit `target` to `new_value`, which must be 0 or 1.
pub fn set_bit_16(target: &mut u16, bit_pos: u8, new_value: u8)
    requires
        bit_pos < 16,
        new_value <= 1,
    ensures
        *final(target) == with_bit16(*old(target), bit_pos, new_value),
{
    if new_value == 0 {
        *target = *target & !(1u16 << bit_pos);
    } else {
        *target = *target | (1u16 << bit_pos);
    }
}

/// Setting a bit and reading it back gives the value written, and every other
/// bit keeps its value.
pub proof fn lemma_set_bit_get_bit(target: u8, pos: u8, value: u8, other: u8)
    requires
        pos < 8,
        other < 8,
        value <= 1,
    ensures
        bit8(with_bit8(target, pos, value), pos) == value,
        other != pos ==> bit8(with_bit8(target, pos, value), other) == bit8(target, other),
{
    assert(bit8(with_bit8(target, pos, value), pos) == value) by (bit_vector)
        requires
            pos < 8,
            value <= 1,
    ;
    assert(other != pos ==> bit8(with_bit8(target, pos, value), other) == bit8(target, other))
        by (bit_vector)
        requires
            pos < 8,
            other < 8,
    ;
}

/// The 16-bit form of `lemma_set_bit_get_bit`.
pub proof fn lemma_set_bit_16_get_bit_16(target: u16, pos: u8, value: u8, other: u8)
    requires
        pos < 16,
        other < 16,
        value <= 1,
    ensures
        bit16(with_bit16(target, pos, value), pos) == value as u16,
        other != pos ==> bit16(with_bit16(target, pos, value), other) == bit16(target, other),
{
    assert(bit16(with_bit16(target, pos, value), pos) == value as u16) by (bit_vector)
        requires
            pos < 16,
            value <= 1,
    ;
    assert(other != pos ==> bit16(with_bit16(target, pos, value), other) == bit16(target, other))
        by (bit_vector)
        requires
            pos < 16,
            other < 16,
    ;
}


/// The 16-bit mask whose bits `start` to `end` (both inclusive) are set; 0 when
/// `start > end`.
pub open spec fn range_mask16(start: u8, end: u8) -> u16 {
    if start <= end {
        ((1u32 << (end as u32 + 1)) - (1u32 << start as u32)) as u16
    } else {
        0
    }
}

/// Bits `start` to `end` (both inclusive) of `source`, shifted down to bit 0.
pub open spec fn bits16(source: u16, start: u8, end: u8) -> u16 {
    (source & range_mask16(start, end)) >> start
}

/// `target` with bits `start` to `end` replaced by the low bits of `value`.
pub open spec fn with_bits16(target: u16, start: u8, end: u8, value: u16) -> u16 {
    (target & !range_mask16(start, end)) | ((value << start) & range_mask16(start, end))
}

/// Returns bits `start_bit_pos` to `end_bit_pos` (both inclusive) of `source`,
/// shifted down so that bit `start_bit_pos` becomes bit 0.
pub fn get_bits_16(source: u16, start_bit_pos: u8, end_bit_pos: u8) -> (r: u16)
    requires
        start_bit_pos < 16,
        end_bit_pos < 16,
    ensures
        r == bits16(source, start_bit_pos, end_bit_pos),
{
    let mut mask: u16 = 0;
    let mut i: u8 = start_bit_pos;
    while i < end_bit_pos + 1
        invariant
            start_bit_pos < 16,
            end_bit_pos < 16,
            start_bit_pos <= i,
            start_bit_pos <= end_bit_pos ==> i <= end_bit_pos + 1,
            start_bit_pos > end_bit_pos ==> mask == 0,
            start_bit_pos <= end_bit_pos ==> mask == ((1u32 << i as u32) - (1u32
                << start_bit_pos as u32)) as u16,
        decreases end_bit_pos + 1 - i,
    {
        let ghost m0 = mask;
        mask = mask | (1u16 << i);
        proof {
            let s = start_bit_pos;
            let e = end_bit_pos;
            let j = i;
            assert(mask == ((1u32 << (j as u32 + 1)) - (1u32 << s as u32)) as u16) by (bit_vector)
                requires
                    s <= j,
                    j < 16,
                    m0 == ((1u32 << j as u32) - (1u32 << s as u32)) as u16,
                    mask == m0 | (1u16 << j),
            ;
        }
        i = i + 1;
    }
    proof {
        if start_bit_pos <= end_bit_pos {
            assert(i == end_bit_pos + 1);
        }
    }
    (source & mask) >> start_bit_pos
}

/// Replaces bits `start_bit_pos` to `end_bit_pos` (both inclusive) of `target`
/// with the low bits of `new_value`; the other bits of `target` are kept.
pub fn set_bits_16(target: &mut u16, start_bit_pos: u8, end_bit_pos: u8, new_value: u16)
    requires
        start_bit_pos < 16,
        end_bit_pos < 16,
    ensures
        *final(target) == with_bits16(*old(target), start_bit_pos, end_bit_pos, new_value),
{
    let ghost t0 = *target;
    let mut i: u8 = start_bit_pos;
    proof {
        let s = start_bit_pos;
        assert(t0 == (t0 & !(((1u32 << s as u32) - (1u32 << s as u32)) as u16)) | ((new_value
            << s) & (((1u32 << s as u32) - (1u32 << s as u32)) as u16))) by (bit_vector)
            requires
                s < 16,
        ;
    }
    while i < end_bit_pos + 1
        invariant
            start_bit_pos < 16,
            end_bit_pos < 16,
            start_bit_pos <= i,
            start_bit_pos <= end_bit_pos ==> i <= end_bit_pos + 1,
            start_bit_pos > end_bit_pos ==> *target == t0,
            start_bit_pos <= end_bit_pos ==> *target == (t0 & !(((1u32 << i as u32) - (1u32
                << start_bit_pos as u32)) as u16)) | ((new_value << start_bit_pos) & (((1u32
                << i as u32) - (1u32 << start_bit_pos as u32)) as u16)),
        decreases end_bit_pos + 1 - i,
    {
        let b = get_bit_16(new_value, i - start_bit_pos);
        let ghost before = *target;
        set_bit_16(target, i, b);
        proof {
            let s = start_bit_pos;
            let j = i;
            let v = new_value;
            let after = *target;
            assert(after == (t0 & !(((1u32 << (j as u32 + 1)) - (1u32 << s as u32)) as u16)) | ((v
                << s) & (((1u32 << (j as u32 + 1)) - (1u32 << s as u32)) as u16))) by (bit_vector)
                requires
                    s <= j,
                    j < 16,
                    before == (t0 & !(((1u32 << j as u32) - (1u32 << s as u32)) as u16)) | ((v
                        << s) & (((1u32 << j as u32) - (1u32 << s as u32)) as u16)),
                    b as u16 == (v >> ((j - s) as u8)) & 1,
                    b <= 1,
                    after == (if b == 0 {
                        before & !(1u16 << j)
                    } else {
                        before | (1u16 << j)
                    }),
            ;
        }
        i = i + 1;
    }
    proof {
        let s = start_bit_pos;
        let e = end_bit_pos;
        if s <= e {
            assert(i == e + 1);
        } else {
            assert(t0 == (t0 & !0u16) | ((new_value << s) & 0u16)) by (bit_vector);
        }
    }
}

/// Writing a bit field and reading the same field back gives the written value,
/// cut to the field's width; bits outside the field keep their value.
pub proof fn lemma_set_bits_16_get_bits_16(target: u16, start: u8, end: u8, value: u16, other: u8)
    requires
        start <= end < 16,
        other < 16,
    ensures
        bits16(with_bits16(target, start, end, value), start, end) == value & (((1u32 << (end
            - start + 1) as u32) - 1) as u16),
        (other < start || other > end) ==> bit16(with_bits16(target, start, end, value), other)
            == bit16(target, other),
{
    let d = (end - start) as u8;
    assert(bits16(with_bits16(target, start, end, value), start, end) == value & (((1u32 << (d
        as u32 + 1)) - 1) as u16)) by (bit_vector)
        requires
            start <= end < 16,
            d == end - start,
    ;
    assert((other < start || other > end) ==> bit16(with_bits16(target, start, end, value), other)
        == bit16(target, other)) by (bit_vector)
        requires
            start <= end < 16,
            other < 16,
    ;
}

/// Bits 7 and 6 of a byte as arithmetic, two bits put together as a number,
/// and the bit of a 16-bit shifter
/// that a one-bit mask at distance `k` from the top selects.
pub proof fn lemma_selected_bits(v: u8, w: u16, k: u16, b1: u8, b0: u8)
    by (bit_vector)
    requires
        k < 16,
        b1 <= 1,
        b0 <= 1,
    ensures
        (b1 << 1u8) | b0 == 2 * b1 + b0,
        (v & 0x80 != 0) == (v >= 128),
        (v & 0x40 != 0) == ((v / 64) % 2 == 1),
        ((w & (0x8000u16 >> k)) > 0) == ((w >> ((15 - k) as u8)) & 1 == 1),
        (w >> ((15 - k) as u8)) & 1 <= 1,
{
}

} // verus!
