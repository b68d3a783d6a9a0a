use vstd::prelude::*;
use crate::ben6502::{flag_bit, signed8, signed_overflow, AddressingMode, CpuView, Instruction, Registers};
use crate::utils::bitwise_utils::{bit8, lemma_selected_bits, lemma_set_bit_get_bit};

verus! {

/// Setting the carry, zero, negative and overflow flags leaves them reading
/// back what was set.
proof fn lemma_four_flags(s: CpuView, c: bool, z: bool, n: bool, v: bool)
    ensures
        bit8(s.set_flag(0, c).set_flag(1, z).set_flag(7, n).set_flag(6, v).flags, 0) == flag_bit(c),
        bit8(s.set_flag(0, c).set_flag(1, z).set_flag(7, n).set_flag(6, v).flags, 1) == flag_bit(z),
        bit8(s.set_flag(0, c).set_flag(1, z).set_flag(7, n).set_flag(6, v).flags, 7) == flag_bit(n),
{
    let s2 = s.set_flag(0, c).set_flag(1, z).set_flag(7, n);
    lemma_three_flags(s, c, z, n);
    lemma_set_bit_get_bit(s2.flags, 6, flag_bit(v), 0);
    lemma_set_bit_get_bit(s2.flags, 6, flag_bit(v), 1);
    lemma_set_bit_get_bit(s2.flags, 6, flag_bit(v), 7);
}

/// Setting the carry, zero and negative flags (or the last two) leaves them
/// reading back what was set.
proof fn lemma_three_flags(s: CpuView, c: bool, z: bool, n: bool)
    ensures
        bit8(s.set_flag(0, c).set_flag(1, z).set_flag(7, n).flags, 0) == flag_bit(c),
        bit8(s.set_flag(0, c).set_flag(1, z).set_flag(7, n).flags, 1) == flag_bit(z),
        bit8(s.set_flag(0, c).set_flag(1, z).set_flag(7, n).flags, 7) == flag_bit(n),
        bit8(s.set_flag(1, z).set_flag(7, n).flags, 1) == flag_bit(z),
        bit8(s.set_flag(1, z).set_flag(7, n).flags, 7) == flag_bit(n),
{
    let s0 = s.set_flag(0, c);
    let s1 = s0.set_flag(1, z);
    lemma_set_bit_get_bit(s.flags, 0, flag_bit(c), 0);
    lemma_set_bit_get_bit(s0.flags, 1, flag_bit(z), 0);
    lemma_set_bit_get_bit(s0.flags, 1, flag_bit(z), 1);
    lemma_set_bit_get_bit(s1.flags, 7, flag_bit(n), 0);
    lemma_set_bit_get_bit(s1.flags, 7, flag_bit(n), 1);
    lemma_set_bit_get_bit(s1.flags, 7, flag_bit(n), 7);
    let u1 = s.set_flag(1, z);
    lemma_set_bit_get_bit(s.flags, 1, flag_bit(z), 1);
    lemma_set_bit_get_bit(u1.flags, 7, flag_bit(n), 1);
    lemma_set_bit_get_bit(u1.flags, 7, flag_bit(n), 7);
}

/// The low byte of the 16-bit difference of two bytes is zero exactly when
/// they are equal, and its bit 7 is bit 7 of their difference modulo 256.
proof fn lemma_byte_difference(reg: u8, m: u8, d: u16)
    by (bit_vector)
    requires
        d == (if reg >= m {
            reg - m
        } else {
            reg + 65536 - m
        }),
    ensures
        (d & 0x00FF == 0) == (reg == m),
        (d & 0x80 != 0) == ((reg + 256 - m) % 256 >= 128),
{
}

/// A compare (CMP, CPX, CPY) of register value `reg` with the operand byte
/// compares them as unsigned numbers: the carry is set exactly when the
/// register is at least the operand, zero exactly when they are equal,
/// negative from bit 7 of their difference modulo 256. No register changes.
#[verifier::spinoff_prover]
#[verifier::rlimit(50)]
pub proof fn lemma_compare(s: CpuView, reg: u8)
    ensures
        ({
            let (m, t) = s.read_byte(s.abs);
            let r = s.op_compare(reg);
            &&& (bit8(r.flags, 0) == 1) == (reg >= m)
            &&& (bit8(r.flags, 1) == 1) == (reg == m)
            &&& (bit8(r.flags, 7) == 1) == ((reg + 256 - m) % 256 >= 128)
            &&& r.regs == s.regs
            &&& r.bus == t.bus
        }),
{
    let (m, t) = s.read_byte(s.abs);
    let d = vstd::wrapping::u16_specs::wrapping_sub(reg as u16, m as u16);
    lemma_byte_difference(reg, m, d);
    lemma_three_flags(t, reg >= m, d & 0x00FF == 0, d & 0x80 != 0);
}

/// AND, ORA and EOR leave in the accumulator the bitwise and, or and
/// exclusive or of the accumulator and the operand byte, with the zero flag
/// set exactly when that result is zero and the negative flag its bit 7. No
/// other register changes.
#[verifier::spinoff_prover]
#[verifier::rlimit(50)]
pub proof fn lemma_logic(s: CpuView)
    ensures
        ({
            let (m, t) = s.read_byte(s.abs);
            let and = s.op_and();
            let ora = s.op_ora();
            let eor = s.op_eor();
            &&& and.regs.a == s.regs.a & m
            &&& ora.regs.a == s.regs.a | m
            &&& eor.regs.a == s.regs.a ^ m
            &&& (bit8(and.flags, 1) == 1) == (and.regs.a == 0)
            &&& (bit8(ora.flags, 1) == 1) == (ora.regs.a == 0)
            &&& (bit8(eor.flags, 1) == 1) == (eor.regs.a == 0)
            &&& (bit8(and.flags, 7) == 1) == (and.regs.a & 0x80 != 0)
            &&& (bit8(ora.flags, 7) == 1) == (ora.regs.a & 0x80 != 0)
            &&& (bit8(eor.flags, 7) == 1) == (eor.regs.a & 0x80 != 0)
            &&& and.regs.x == s.regs.x && and.regs.y == s.regs.y && and.regs.pc == s.regs.pc
            &&& ora.regs.x == s.regs.x && ora.regs.y == s.regs.y && ora.regs.pc == s.regs.pc
            &&& eor.regs.x == s.regs.x && eor.regs.y == s.regs.y && eor.regs.pc == s.regs.pc
            &&& and.bus == t.bus && ora.bus == t.bus && eor.bus == t.bus
        }),
{
    let (m, t) = s.read_byte(s.abs);
    lemma_three_flags(t.set_a(s.regs.a & m), false, (s.regs.a & m) == 0, (s.regs.a & m) & 0x80 != 0);
    lemma_three_flags(t.set_a(s.regs.a | m), false, (s.regs.a | m) == 0, (s.regs.a | m) & 0x80 != 0);
    lemma_three_flags(t.set_a(s.regs.a ^ m), false, (s.regs.a ^ m) == 0, (s.regs.a ^ m) & 0x80 != 0);
}

/// The shifts of a byte as arithmetic: a shift left doubles it, the bit
/// pushed out being worth 256; a shift right halves it, the bit pushed out
/// being its remainder; a rotation takes in the carry at the other end.
proof fn lemma_shift_arithmetic(a: u8, c: u8)
    by (bit_vector)
    requires
        c <= 1,
    ensures
        (a >> 0u8) & 1u8 <= 1,
        ({
            let r = ((a as u16) << 1u16) as u16;
            &&& r & 0xFF < 256
            &&& (r & 0xFF) + 256 * (if r & 0xFF00 != 0 { 1int } else { 0int }) == 2 * a
            &&& (r & 0x80 != 0) == ((r & 0xFF) >= 128)
        }),
        ({
            let r = ((a as u16) >> 1u16) as u16;
            &&& 2 * (r & 0xFF) + (if a & 0x01 != 0 { 1int } else { 0int }) == a
            &&& (r & 0x80 != 0) == ((r & 0xFF) >= 128)
        }),
        ({
            let r = (((a as u16) << 1u16) | (c as u16)) as u16;
            &&& r & 0xFF < 256
            &&& (r & 0xFF) + 256 * (if r & 0xFF00 != 0 { 1int } else { 0int }) == 2 * a + c
            &&& (r & 0x80 != 0) == ((r & 0xFF) >= 128)
        }),
        ({
            let r = (((c as u16) << 7u16) | ((a as u16) >> 1u16)) as u16;
            &&& 2 * (r & 0xFF) + (if a & 0x01 != 0 { 1int } else { 0int }) == a + 256 * c
            &&& (r & 0x80 != 0) == ((r & 0xFF) >= 128)
        }),
{
}

/// The flag bit of a status byte is 0 or 1.
proof fn lemma_flag_bound(flags: u8)
    ensures
        bit8(flags, 0) <= 1,
{
    lemma_shift_arithmetic(flags, 0);
}

/// On the accumulator, ASL, LSR, ROL and ROR are arithmetic on the byte and
/// the carry: ASL doubles A (the carry takes what passes 255), LSR halves it
/// (the carry takes the remainder), ROL doubles it and adds the old carry,
/// ROR halves A plus 256 times the old carry. Zero and negative come from the
/// new A; no other register changes.
#[verifier::spinoff_prover]
#[verifier::rlimit(50)]
pub proof fn lemma_shifts_on_accumulator(s: CpuView)
    ensures
        ({
            let a = s.regs.a as int;
            let c = bit8(s.flags, 0) as int;
            let asl = s.op_asl(AddressingMode::ACC);
            let lsr = s.op_lsr(AddressingMode::ACC);
            let rol = s.op_rol(AddressingMode::ACC);
            let ror = s.op_ror(AddressingMode::ACC);
            &&& asl.regs.a + 256 * bit8(asl.flags, 0) == 2 * a
            &&& 2 * lsr.regs.a + bit8(lsr.flags, 0) == a
            &&& rol.regs.a + 256 * bit8(rol.flags, 0) == 2 * a + c
            &&& 2 * ror.regs.a + bit8(ror.flags, 0) == a + 256 * c
            &&& (bit8(asl.flags, 1) == 1) == (asl.regs.a == 0) && (bit8(asl.flags, 7) == 1) == (
            asl.regs.a >= 128)
            &&& (bit8(lsr.flags, 1) == 1) == (lsr.regs.a == 0) && (bit8(lsr.flags, 7) == 1) == (
            lsr.regs.a >= 128)
            &&& (bit8(rol.flags, 1) == 1) == (rol.regs.a == 0) && (bit8(rol.flags, 7) == 1) == (
            rol.regs.a >= 128)
            &&& (bit8(ror.flags, 1) == 1) == (ror.regs.a == 0) && (bit8(ror.flags, 7) == 1) == (
            ror.regs.a >= 128)
            &&& asl.regs.x == s.regs.x && lsr.regs.x == s.regs.x && rol.regs.x == s.regs.x
                && ror.regs.x == s.regs.x
            &&& asl.bus == s.bus && lsr.bus == s.bus && rol.bus == s.bus && ror.bus == s.bus
        }),
{
    let a = s.regs.a;
    lemma_flag_bound(s.flags);
    let c = bit8(s.flags, 0);
    lemma_shift_arithmetic(a, c);
    let r1 = ((a as u16) << 1u16) as u16;
    lemma_three_flags(s, r1 & 0xFF00 != 0, r1 & 0xFF == 0, r1 & 0x80 != 0);
    let r2 = ((a as u16) >> 1u16) as u16;
    lemma_three_flags(s, a & 0x01 != 0, r2 & 0xFF == 0, r2 & 0x80 != 0);
    let r3 = (((a as u16) << 1u16) | (c as u16)) as u16;
    lemma_three_flags(s, r3 & 0xFF00 != 0, r3 & 0xFF == 0, r3 & 0x80 != 0);
    let r4 = (((c as u16) << 7u16) | ((a as u16) >> 1u16)) as u16;
    lemma_three_flags(s, a & 0x01 != 0, r4 & 0xFF == 0, r4 & 0x80 != 0);
}

/// ADC adds the operand byte and the carry to A: the new A plus 256 times
/// the new carry is that sum. Zero and negative come from the new A.
#[verifier::spinoff_prover]
pub proof fn lemma_add_with_carry(s: CpuView)
    ensures
        ({
            let (m, t) = s.read_byte(s.abs);
            let adc = s.op_adc();
            &&& adc.regs.a + 256 * bit8(adc.flags, 0) == s.regs.a + m + bit8(s.flags, 0)
            &&& (bit8(adc.flags, 1) == 1) == (adc.regs.a == 0)
            &&& (bit8(adc.flags, 7) == 1) == (adc.regs.a >= 128)
            &&& adc.regs.x == s.regs.x && adc.regs.y == s.regs.y && adc.bus == t.bus
        }),
{
    let (m, t) = s.read_byte(s.abs);
    lemma_flag_bound(s.flags);
    let c = bit8(s.flags, 0) as int;
    let sum = s.regs.a + m + c;
    let ra = (sum % 256) as u8;
    lemma_four_flags(t, sum > 255, ra == 0, ra >= 128, signed_overflow(
        signed8(s.regs.a) + signed8(m) + c,
    ));
}

/// SBC subtracts the operand byte and the borrow (a clear carry) from A: the
/// new A less 256 times the borrow out (a clear new carry) is that
/// difference. Zero and negative come from the new A.
#[verifier::spinoff_prover]
pub proof fn lemma_subtract_with_borrow(s: CpuView)
    ensures
        ({
            let (m, t) = s.read_byte(s.abs);
            let sbc = s.op_sbc();
            &&& sbc.regs.a - 256 * (1 - bit8(sbc.flags, 0)) == s.regs.a - m - (1 - bit8(s.flags, 0))
            &&& (bit8(sbc.flags, 1) == 1) == (sbc.regs.a == 0)
            &&& (bit8(sbc.flags, 7) == 1) == (sbc.regs.a >= 128)
            &&& sbc.regs.x == s.regs.x && sbc.regs.y == s.regs.y && sbc.bus == t.bus
        }),
{
    let (m, t) = s.read_byte(s.abs);
    lemma_flag_bound(s.flags);
    let c = bit8(s.flags, 0) as int;
    let diff = s.regs.a - m - (1 - c);
    let rs = (diff % 256) as u8;
    lemma_four_flags(t, diff >= 0, rs == 0, rs >= 128, signed_overflow(
        signed8(s.regs.a) - signed8(m) - (1 - c),
    ));
}

/// Absolute addressing indexed by X or Y leaves as the operand address the
/// word after the opcode plus that register, modulo 0x10000, whatever the
/// other register holds; the program counter moves past the word.
pub proof fn lemma_absolute_indexed(s: CpuView)
    ensures
        s.addressing(AddressingMode::ABX).abs as int == (s.read_word(s.regs.pc).0 + s.regs.x)
            % 0x10000,
        s.addressing(AddressingMode::ABY).abs as int == (s.read_word(s.regs.pc).0 + s.regs.y)
            % 0x10000,
        s.addressing(AddressingMode::ABX).regs.pc as int == (s.regs.pc + 2) % 0x10000,
        s.addressing(AddressingMode::ABY).regs.pc as int == (s.regs.pc + 2) % 0x10000,
{
    let (w, t) = s.fetch_word();
    assert(s.addressing(AddressingMode::ABX).abs == vstd::wrapping::u16_specs::wrapping_add(
        w,
        s.regs.x as u16,
    ) && s.addressing(AddressingMode::ABX).regs.pc == t.regs.pc) by {
        reveal(CpuView::addressing);
    }
    assert(s.addressing(AddressingMode::ABY).abs == vstd::wrapping::u16_specs::wrapping_add(
        w,
        s.regs.y as u16,
    ) && s.addressing(AddressingMode::ABY).regs.pc == t.regs.pc) by {
        reveal(CpuView::addressing);
    }
}

/// Zero-page addressing indexed by X or Y leaves as the operand address the
/// byte after the opcode plus that register, modulo 0x100.
pub proof fn lemma_zero_page_indexed(s: CpuView)
    ensures
        s.addressing(AddressingMode::ZPX).abs as int == (s.read_byte(s.regs.pc).0 + s.regs.x)
            % 0x100,
        s.addressing(AddressingMode::ZPY).abs as int == (s.read_byte(s.regs.pc).0 + s.regs.y)
            % 0x100,
        s.addressing(AddressingMode::ZP0).abs == s.read_byte(s.regs.pc).0 as u16,
        s.addressing(AddressingMode::ABS).abs == s.read_word(s.regs.pc).0,
{
    assert(s.addressing(AddressingMode::ZPX).abs == vstd::wrapping::u8_specs::wrapping_add(
        s.fetch_byte().0,
        s.regs.x,
    ) as u16) by {
        reveal(CpuView::addressing);
    }
    assert(s.addressing(AddressingMode::ZPY).abs == vstd::wrapping::u8_specs::wrapping_add(
        s.fetch_byte().0,
        s.regs.y,
    ) as u16) by {
        reveal(CpuView::addressing);
    }
    assert(s.addressing(AddressingMode::ZP0).abs == s.fetch_byte().0 as u16) by {
        reveal(CpuView::addressing);
    }
    assert(s.addressing(AddressingMode::ABS).abs == s.fetch_word().0) by {
        reveal(CpuView::addressing);
    }
}


/// Two words lie on the same page exactly when their quotients by 256 agree,
/// and a word's page and low byte are its quotient and remainder by 256;
/// a signed offset taken as a 16-bit word is the offset modulo 0x10000.
proof fn lemma_page_and_offset(a: u16, w: u16, rel: i8, r: u16, n: u16)
    by (bit_vector)
    requires
        r == rel as i16 as u16,
        n == (0i16 - rel as i16) as u16,
    ensures
        ((a & 0xFF00) == (w & 0xFF00)) == (a / 256 == w / 256),
        ((w & 0x00FF) == 0x00FF) == (w % 256 == 255),
        (w & 0xFF00) as int == w - w % 256,
        rel >= 0 ==> r == n * 0 + (rel as u16),
        rel < 0 ==> r + n == 65536,
{
}

/// A pointer in the zero page is little-endian: its low byte at `p`, its
/// high byte at the next zero-page address, 0x00 after 0xFF.
pub proof fn lemma_zero_page_pointer(s: CpuView, p: u8)
    ensures
        ({
            let (lo, t) = s.read_byte(p as u16);
            let (hi, u) = t.read_byte(((p + 1) % 0x100) as u16);
            &&& s.read_zp_word(p).0 == hi * 256 + lo
            &&& s.read_zp_word(p).1 == u
        }),
{
}

/// (zp,X) addressing uses as the operand address the zero-page pointer at
/// the operand byte plus X, modulo 0x100; it costs no extra cycle.
#[verifier::spinoff_prover]
pub proof fn lemma_indirect_x(s: CpuView)
    ensures
        ({
            let (z, t) = s.fetch_byte();
            let r = s.addressing(AddressingMode::INX);
            &&& r.abs == t.read_zp_word(((z + s.regs.x) % 0x100) as u8).0
            &&& r.remaining == s.remaining
            &&& r.regs.pc == t.regs.pc
        }),
{
    let (z, t) = s.fetch_byte();
    let v = t.read_zp_word(vstd::wrapping::u8_specs::wrapping_add(z, s.regs.x));
    assert(s.addressing(AddressingMode::INX).abs == v.0 && s.addressing(AddressingMode::INX).remaining
        == v.1.remaining && s.addressing(AddressingMode::INX).regs.pc == v.1.regs.pc) by {
        reveal(CpuView::addressing);
    }
    assert(vstd::wrapping::u8_specs::wrapping_add(z, s.regs.x) == ((z + s.regs.x) % 0x100) as u8);
}

/// (zp),Y addressing reads the zero-page pointer at the operand byte and adds
/// Y to it, modulo 0x10000, costing one more cycle exactly when that changes
/// the page.
#[verifier::spinoff_prover]
pub proof fn lemma_indirect_y(s: CpuView)
    requires
        s.remaining < 255,
    ensures
        ({
            let (z, t) = s.fetch_byte();
            let w = t.read_zp_word(z).0;
            let a = (w + s.regs.y) % 0x10000;
            let r = s.addressing(AddressingMode::INY);
            &&& r.abs == a
            &&& r.remaining == s.remaining + if a / 256 == w / 256 {
                0int
            } else {
                1int
            }
            &&& r.regs.pc == t.regs.pc
        }),
{
    let (z, t) = s.fetch_byte();
    let w = t.read_zp_word(z).0;
    let a = vstd::wrapping::u16_specs::wrapping_add(w, s.regs.y as u16);
    lemma_page_and_offset(a, w, 0, 0, 0);
    reveal(CpuView::addressing);
}

/// A branch whose condition fails changes nothing. One whose condition
/// holds moves the program counter by the signed offset, modulo 0x10000, and
/// costs one cycle, two when the target lies on another page.
pub proof fn lemma_branch(s: CpuView, cond: bool)
    requires
        s.remaining <= 253,
    ensures
        !cond ==> s.branch(cond).regs == s.regs && s.branch(cond).remaining == s.remaining,
        cond ==> {
            let target = (s.regs.pc + s.rel + 0x10000) % 0x10000;
            &&& s.branch(cond).regs.pc == target
            &&& s.branch(cond).remaining == s.remaining + if target / 256 == s.regs.pc / 256 {
                1int
            } else {
                2int
            }
            &&& s.branch(cond).regs.a == s.regs.a && s.branch(cond).flags == s.flags
        },
{
    let r = s.rel as i16 as u16;
    let target = vstd::wrapping::u16_specs::wrapping_add(s.regs.pc, r);
    lemma_page_and_offset(target, s.regs.pc, s.rel, r, (0i16 - s.rel as i16) as u16);
}

/// INC and DEC of memory write back the operand byte plus or minus one,
/// modulo 256, with zero and negative from that value; no register changes.
pub proof fn lemma_step_memory(s: CpuView, up: bool)
    ensures
        ({
            let (m, t) = s.read_byte(s.abs);
            let v = (if up {
                (m + 1) % 256
            } else {
                (m + 255) % 256
            }) as u8;
            let r = s.op_step_memory(up);
            &&& r.bus == t.write_unchecked(s.abs, v).bus
            &&& (bit8(r.flags, 1) == 1) == (v == 0)
            &&& (bit8(r.flags, 7) == 1) == (v >= 128)
            &&& r.regs == s.regs
        }),
{
    let (m, t) = s.read_byte(s.abs);
    let v = if up {
        vstd::wrapping::u8_specs::wrapping_add(m, 1)
    } else {
        vstd::wrapping::u8_specs::wrapping_sub(m, 1)
    };
    lemma_selected_bits(v, 0, 0, 0, 0);
    lemma_three_flags(t.write_unchecked(s.abs, v), false, v == 0, v & 0x80 != 0);
}

/// BIT sets zero exactly when A and the operand byte share no set bit, and
/// copies bit 7 of the operand to negative and bit 6 to overflow; no register
/// changes.
pub proof fn lemma_bit_test(s: CpuView)
    ensures
        ({
            let (m, t) = s.read_byte(s.abs);
            let r = s.op_bit();
            &&& (bit8(r.flags, 1) == 1) == (s.regs.a & m == 0)
            &&& (bit8(r.flags, 7) == 1) == (m >= 128)
            &&& (bit8(r.flags, 6) == 1) == ((m / 64) % 2 == 1)
            &&& r.regs == s.regs
            &&& r.bus == t.bus
        }),
{
    let (m, t) = s.read_byte(s.abs);
    lemma_selected_bits(m, 0, 0, 0, 0);
    let s1 = t.set_flag(1, (s.regs.a & m) == 0);
    let s2 = s1.set_flag(7, m & 0x80 != 0);
    lemma_set_bit_get_bit(t.flags, 1, flag_bit((s.regs.a & m) == 0), 1);
    lemma_set_bit_get_bit(s1.flags, 7, flag_bit(m & 0x80 != 0), 1);
    lemma_set_bit_get_bit(s1.flags, 7, flag_bit(m & 0x80 != 0), 7);
    lemma_set_bit_get_bit(s2.flags, 6, flag_bit(m & 0x40 != 0), 1);
    lemma_set_bit_get_bit(s2.flags, 6, flag_bit(m & 0x40 != 0), 7);
    lemma_set_bit_get_bit(s2.flags, 6, flag_bit(m & 0x40 != 0), 6);
}

/// Setting zero and negative from a value leaves them reading whether the
/// value is 0 and whether it is at least 128.
proof fn lemma_zn(s: CpuView, v: u8)
    ensures
        (bit8(s.set_zn(v).flags, 1) == 1) == (v == 0),
        (bit8(s.set_zn(v).flags, 7) == 1) == (v >= 128),
        s.set_zn(v).regs == s.regs,
        s.set_zn(v).bus == s.bus,
{
    lemma_selected_bits(v, 0, 0, 0, 0);
    lemma_three_flags(s, false, v == 0, v & 0x80 != 0);
}

/// LDA, LDX and LDY load the operand byte into their register, with zero and
/// negative from it; no other register changes.
pub proof fn lemma_loads(s: CpuView)
    ensures
        ({
            let (m, t) = s.read_byte(s.abs);
            let lda = s.register_op(Instruction::LDA);
            let ldx = s.register_op(Instruction::LDX);
            let ldy = s.register_op(Instruction::LDY);
            &&& lda.regs == (Registers { a: m, ..s.regs })
            &&& ldx.regs == (Registers { x: m, ..s.regs })
            &&& ldy.regs == (Registers { y: m, ..s.regs })
            &&& (bit8(lda.flags, 1) == 1) == (m == 0) && (bit8(lda.flags, 7) == 1) == (m >= 128)
            &&& (bit8(ldx.flags, 1) == 1) == (m == 0) && (bit8(ldx.flags, 7) == 1) == (m >= 128)
            &&& (bit8(ldy.flags, 1) == 1) == (m == 0) && (bit8(ldy.flags, 7) == 1) == (m >= 128)
            &&& lda.bus == t.bus && ldx.bus == t.bus && ldy.bus == t.bus
        }),
{
    let (m, t) = s.read_byte(s.abs);
    lemma_zn(t.set_a(m), m);
    lemma_zn(t.set_x(m), m);
    lemma_zn(t.set_y(m), m);
}

/// The transfers copy one register into another: TAX and TAY copy A, TXA
/// and TYA copy X and Y into A, TSX copies the stack pointer into X, with
/// zero and negative from the value copied; TXS copies X into the stack
/// pointer and leaves the flags. No other register changes.
pub proof fn lemma_transfers(s: CpuView)
    ensures
        ({
            let r = s.regs;
            let tax = s.register_op(Instruction::TAX);
            let tay = s.register_op(Instruction::TAY);
            let tsx = s.register_op(Instruction::TSX);
            let txa = s.register_op(Instruction::TXA);
            let tya = s.register_op(Instruction::TYA);
            let txs = s.register_op(Instruction::TXS);
            &&& tax.regs == (Registers { x: r.a, ..r })
            &&& tay.regs == (Registers { y: r.a, ..r })
            &&& tsx.regs == (Registers { x: r.sp, ..r })
            &&& txa.regs == (Registers { a: r.x, ..r })
            &&& tya.regs == (Registers { a: r.y, ..r })
            &&& txs.regs == (Registers { sp: r.x, ..r })
            &&& txs.flags == s.flags
            &&& (bit8(tax.flags, 1) == 1) == (r.a == 0) && (bit8(tax.flags, 7) == 1) == (r.a >= 128)
            &&& (bit8(tay.flags, 1) == 1) == (r.a == 0) && (bit8(tay.flags, 7) == 1) == (r.a >= 128)
            &&& (bit8(tsx.flags, 1) == 1) == (r.sp == 0) && (bit8(tsx.flags, 7) == 1) == (r.sp
                >= 128)
            &&& (bit8(txa.flags, 1) == 1) == (r.x == 0) && (bit8(txa.flags, 7) == 1) == (r.x >= 128)
            &&& (bit8(tya.flags, 1) == 1) == (r.y == 0) && (bit8(tya.flags, 7) == 1) == (r.y >= 128)
        }),
{
    lemma_zn(s.set_x(s.regs.a), s.regs.a);
    lemma_zn(s.set_y(s.regs.a), s.regs.a);
    lemma_zn(s.set_x(s.regs.sp), s.regs.sp);
    lemma_zn(s.set_a(s.regs.x), s.regs.x);
    lemma_zn(s.set_a(s.regs.y), s.regs.y);
}

/// INX and INY add one to X or Y, DEX and DEY take one away, modulo 256,
/// with zero and negative from the new value; no other register changes.
pub proof fn lemma_register_steps(s: CpuView)
    ensures
        ({
            let r = s.regs;
            let inx = s.register_op(Instruction::INX);
            let iny = s.register_op(Instruction::INY);
            let dex = s.register_op(Instruction::DEX);
            let dey = s.register_op(Instruction::DEY);
            &&& inx.regs == (Registers { x: ((r.x + 1) % 256) as u8, ..r })
            &&& iny.regs == (Registers { y: ((r.y + 1) % 256) as u8, ..r })
            &&& dex.regs == (Registers { x: ((r.x + 255) % 256) as u8, ..r })
            &&& dey.regs == (Registers { y: ((r.y + 255) % 256) as u8, ..r })
            &&& (bit8(inx.flags, 1) == 1) == (inx.regs.x == 0) && (bit8(inx.flags, 7) == 1) == (
            inx.regs.x >= 128)
            &&& (bit8(iny.flags, 1) == 1) == (iny.regs.y == 0) && (bit8(iny.flags, 7) == 1) == (
            iny.regs.y >= 128)
            &&& (bit8(dex.flags, 1) == 1) == (dex.regs.x == 0) && (bit8(dex.flags, 7) == 1) == (
            dex.regs.x >= 128)
            &&& (bit8(dey.flags, 1) == 1) == (dey.regs.y == 0) && (bit8(dey.flags, 7) == 1) == (
            dey.regs.y >= 128)
        }),
{
    let r = s.regs;
    let xi = vstd::wrapping::u8_specs::wrapping_add(r.x, 1);
    let yi = vstd::wrapping::u8_specs::wrapping_add(r.y, 1);
    let xd = vstd::wrapping::u8_specs::wrapping_sub(r.x, 1);
    let yd = vstd::wrapping::u8_specs::wrapping_sub(r.y, 1);
    lemma_zn(s.set_x(xi), xi);
    lemma_zn(s.set_y(yi), yi);
    lemma_zn(s.set_x(xd), xd);
    lemma_zn(s.set_y(yd), yd);
}

/// Each conditional branch tests one status flag: BCC and BCS the carry
/// (bit 0), BNE and BEQ zero (bit 1), BVC and BVS overflow (bit 6), BPL and
/// BMI negative (bit 7); the first of each pair is taken when the flag is
/// clear, the second when it is set.
pub proof fn lemma_branch_conditions(s: CpuView)
    ensures
        s.branch_taken(Instruction::BCC) == (bit8(s.flags, 0) == 0),
        s.branch_taken(Instruction::BCS) == (bit8(s.flags, 0) == 1),
        s.branch_taken(Instruction::BNE) == (bit8(s.flags, 1) == 0),
        s.branch_taken(Instruction::BEQ) == (bit8(s.flags, 1) == 1),
        s.branch_taken(Instruction::BVC) == (bit8(s.flags, 6) == 0),
        s.branch_taken(Instruction::BVS) == (bit8(s.flags, 6) == 1),
        s.branch_taken(Instruction::BPL) == (bit8(s.flags, 7) == 0),
        s.branch_taken(Instruction::BMI) == (bit8(s.flags, 7) == 1),
{
}

/// Immediate addressing takes the operand at the program counter, which moves
/// past it. Indirect addressing (JMP) reads a little-endian pointer after the
/// opcode and jumps through it; a pointer whose low byte is 0xFF takes its
/// high byte from the start of the same page, not the next one.
pub proof fn lemma_immediate_and_indirect(s: CpuView)
    ensures
        s.addressing(AddressingMode::IMM).abs == s.regs.pc,
        s.addressing(AddressingMode::IMM).regs.pc as int == (s.regs.pc + 1) % 0x10000,
        ({
            let (p, t) = s.fetch_word();
            let (lo, t1) = t.read_byte(p);
            let high_at = if p % 256 == 255 {
                p - 255
            } else {
                p + 1
            };
            let (hi, t2) = t1.read_byte(high_at as u16);
            s.addressing(AddressingMode::IND).abs == hi * 256 + lo
        }),
{
    let (p, t) = s.fetch_word();
    lemma_page_and_offset(0, p, 0, 0, 0);
    let (lo, t1) = t.read_byte(p);
    let (hi, t2) = if p & 0x00FF == 0x00FF {
        t1.read_byte(p & 0xFF00)
    } else {
        t1.read_byte((p + 1) as u16)
    };
    assert(s.addressing(AddressingMode::IND).abs == (hi as int * 256 + lo as int) as u16) by {
        reveal(CpuView::addressing);
    }
    assert(s.addressing(AddressingMode::IMM).abs == s.regs.pc && s.addressing(
        AddressingMode::IMM,
    ).regs.pc == vstd::wrapping::u16_specs::wrapping_add(s.regs.pc, 1)) by {
        reveal(CpuView::addressing);
    }
}

/// On a byte in memory (any mode but accumulator and implied), ASL, LSR, ROL
/// and ROR read the operand byte at the operand address and write back its
/// shift: ASL doubles it modulo 256 and carries out bit 7, LSR halves it and
/// carries out bit 0, ROL doubles it plus the old carry, ROR halves it plus
/// 128 times the old carry. Zero and negative come from the byte written; no
/// register changes.
#[verifier::spinoff_prover]
#[verifier::rlimit(50)]
pub proof fn lemma_shifts_on_memory(s: CpuView, mode: AddressingMode)
    requires
        mode != AddressingMode::ACC,
        mode != AddressingMode::IMP,
    ensures
        ({
            let (m, t) = s.read_byte(s.abs);
            let c = bit8(s.flags, 0) as int;
            let asl_v = ((2 * m) % 256) as u8;
            let lsr_v = (m / 2) as u8;
            let rol_v = ((2 * m + c) % 256) as u8;
            let ror_v = (m / 2 + 128 * c) as u8;
            let asl = s.op_asl(mode);
            let lsr = s.op_lsr(mode);
            let rol = s.op_rol(mode);
            let ror = s.op_ror(mode);
            &&& asl.bus == t.write_checked(s.abs, asl_v).bus
            &&& lsr.bus == t.write_checked(s.abs, lsr_v).bus
            &&& rol.bus == t.write_checked(s.abs, rol_v).bus
            &&& ror.bus == t.write_checked(s.abs, ror_v).bus
            &&& (bit8(asl.flags, 0) == 1) == (m >= 128) && (bit8(rol.flags, 0) == 1) == (m >= 128)
            &&& (bit8(lsr.flags, 0) == 1) == (m % 2 == 1) && (bit8(ror.flags, 0) == 1) == (m % 2
                == 1)
            &&& (bit8(asl.flags, 1) == 1) == (asl_v == 0) && (bit8(asl.flags, 7) == 1) == (asl_v
                >= 128)
            &&& (bit8(lsr.flags, 1) == 1) == (lsr_v == 0) && (bit8(lsr.flags, 7) == 1) == (lsr_v
                >= 128)
            &&& (bit8(rol.flags, 1) == 1) == (rol_v == 0) && (bit8(rol.flags, 7) == 1) == (rol_v
                >= 128)
            &&& (bit8(ror.flags, 1) == 1) == (ror_v == 0) && (bit8(ror.flags, 7) == 1) == (ror_v
                >= 128)
            &&& asl.regs == s.regs && lsr.regs == s.regs && rol.regs == s.regs && ror.regs == s.regs
        }),
{
    let (m, t) = s.read_byte(s.abs);
    lemma_flag_bound(s.flags);
    let c = bit8(s.flags, 0);
    lemma_shift_arithmetic(m, c);
    let r1 = ((m as u16) << 1u16) as u16;
    lemma_three_flags(t, r1 & 0xFF00 != 0, r1 & 0xFF == 0, r1 & 0x80 != 0);
    let r2 = ((m as u16) >> 1u16) as u16;
    lemma_three_flags(t, m & 0x01 != 0, r2 & 0xFF == 0, r2 & 0x80 != 0);
    let r3 = (((m as u16) << 1u16) | (c as u16)) as u16;
    lemma_three_flags(t, r3 & 0xFF00 != 0, r3 & 0xFF == 0, r3 & 0x80 != 0);
    let r4 = (((c as u16) << 7u16) | ((m as u16) >> 1u16)) as u16;
    lemma_three_flags(t, m & 0x01 != 0, r4 & 0xFF == 0, r4 & 0x80 != 0);
}

} // verus!
