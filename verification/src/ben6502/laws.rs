use vstd::prelude::*;
use crate::ben6502::{opcode_table, AddressingMode, CpuView, Instruction, PROGRAM_START_POINTER_ADDR, SP_RESET_ADDR};
use crate::utils::bitwise_utils::bit8;
use crate::bus::lemma_bus_ram_read_after_write;
use crate::utils::bitwise_utils::with_bit8;
use vstd::wrapping::u8_specs;
use vstd::wrapping::u16_specs;

verus! {

/// PHA (a push of the accumulator) followed by PLA (`op_pla`) gives back the
/// accumulator and the stack pointer, and neither access fails: the stack
/// page is RAM.
pub proof fn lemma_pha_then_pla(s: CpuView)
    requires
        s.bus.wf(),
    ensures
        ({
            let t = s.push(s.regs.a).op_pla();
            &&& t.regs.a == s.regs.a
            &&& t.regs.sp == s.regs.sp
            &&& t.fault == s.fault
        }),
{
    let addr = (0x100 + s.regs.sp) as u16;
    lemma_bus_ram_read_after_write(s.bus, addr, s.regs.a, addr);
}

/// JSR (`op_jsr`) followed by RTS (`op_rts`) comes back to the instruction
/// after the JSR, with the stack pointer where it was before the JSR.
pub proof fn lemma_jsr_then_rts(s: CpuView)
    requires
        s.bus.wf(),
        s.regs.sp != 0,
    ensures
        ({
            let t = s.op_jsr().op_rts();
            &&& t.regs.pc == s.regs.pc
            &&& t.regs.sp == s.regs.sp
        }),
{
    let pc = u16_specs::wrapping_sub(s.regs.pc, 1);
    let hi_addr = (0x100 + s.regs.sp) as u16;
    let lo_addr = (0x100 + u8_specs::wrapping_sub(s.regs.sp, 1)) as u16;
    let b1 = s.bus.write(hi_addr, (pc >> 8u16) as u8);
    lemma_bus_ram_read_after_write(s.bus, hi_addr, (pc >> 8u16) as u8, hi_addr);
    assert(b1.wf());
    lemma_bus_ram_read_after_write(b1, lo_addr, (pc & 0xFF) as u8, lo_addr);
    lemma_bus_ram_read_after_write(b1, lo_addr, (pc & 0xFF) as u8, hi_addr);
    assert(u16_specs::wrapping_add(lo_addr, 1) == hi_addr);
    assert((((pc >> 8u16) as u8) as int * 256 + ((pc & 0xFF) as u8) as int) as u16 == pc)
        by (bit_vector);
}

/// An NMI followed by RTI (`op_rti`) gives back the program counter and the
/// stack pointer; the status comes back with interrupts disabled (bit 2), the
/// break bit (4) clear and the unused bit (5) set.
pub proof fn lemma_nmi_then_rti(s: CpuView)
    requires
        s.bus.wf(),
        s.regs.sp != 0,
    ensures
        ({
            let t = s.nmi().op_rti();
            &&& t.regs.pc == s.regs.pc
            &&& t.regs.sp == s.regs.sp
            &&& t.flags == with_bit8(with_bit8(with_bit8(s.flags, 2, 1), 4, 0), 5, 1)
        }),
{
    let sp = s.regs.sp;
    let pc = s.regs.pc;
    let a_hi = (0x100 + sp) as u16;
    let a_lo = (0x100 + u8_specs::wrapping_sub(sp, 1)) as u16;
    let a_fl = (0x100 + u8_specs::wrapping_sub(u8_specs::wrapping_sub(sp, 1), 1)) as u16;
    let hi = ((pc >> 8u16) & 0xFF) as u8;
    let lo = (pc & 0xFF) as u8;
    let s1 = s.push(hi);
    let s2 = s1.push(lo);
    let s3 = s2.set_flag(4, false).set_flag(5, true).set_flag(2, true);
    let f = s3.flags;
    let s4 = s3.push(f);
    assert(s1.bus.wf());
    assert(s2.bus.wf());
    assert(s4.bus.wf());
    lemma_bus_ram_read_after_write(s2.bus, a_fl, f, a_fl);
    lemma_bus_ram_read_after_write(s2.bus, a_fl, f, a_lo);
    lemma_bus_ram_read_after_write(s2.bus, a_fl, f, a_hi);
    lemma_bus_ram_read_after_write(s1.bus, a_lo, lo, a_lo);
    lemma_bus_ram_read_after_write(s1.bus, a_lo, lo, a_hi);
    lemma_bus_ram_read_after_write(s.bus, a_hi, hi, a_hi);
    assert(u16_specs::wrapping_add(a_lo, 1) == a_hi);
    assert(((hi as int * 256 + lo as int) as u16) == pc) by (bit_vector)
        requires
            hi == ((pc >> 8u16) & 0xFF) as u8,
            lo == (pc & 0xFF) as u8,
    ;
    let x = s.flags;
    assert(with_bit8(with_bit8(with_bit8(with_bit8(with_bit8(x, 4, 0), 5, 1), 2, 1), 4, 0), 5, 1)
        == with_bit8(with_bit8(with_bit8(x, 2, 1), 4, 0), 5, 1)) by (bit_vector);
}

/// A reset clears A, X and Y, puts the stack pointer at 0xFD and the status at
/// 0x20 (only the unused bit), loads the program counter from the reset
/// vector at 0xFFFC and waits 8 cycles.
pub proof fn lemma_reset_state(s: CpuView)
    ensures
        ({
            let t = s.reset();
            &&& t.regs.a == 0 && t.regs.x == 0 && t.regs.y == 0
            &&& t.regs.sp == SP_RESET_ADDR
            &&& t.flags == 0x20
            &&& t.regs.pc == s.read_word(PROGRAM_START_POINTER_ADDR).0
            &&& t.remaining == 8
        }),
{
}

/// An interrupt request while interrupts are disabled (status bit 2) changes
/// nothing.
pub proof fn lemma_irq_masked(s: CpuView)
    requires
        bit8(s.flags, 2) == 1,
    ensures
        s.irq() == s,
{
}

/// The branch instructions, which take extra cycles when taken.
pub open spec fn is_branch(i: Instruction) -> bool {
    i == Instruction::BCC || i == Instruction::BCS || i == Instruction::BEQ || i
        == Instruction::BMI || i == Instruction::BNE || i == Instruction::BPL || i
        == Instruction::BVC || i == Instruction::BVS
}

/// Every branch opcode uses relative addressing.
proof fn lemma_branches_are_relative(opcode: u8)
    ensures
        is_branch(opcode_table(opcode).instruction) ==> opcode_table(opcode).addressing_mode
            == AddressingMode::REL,
{
}

/// Only the modes indexed after their address (absolute X and Y, indirect Y)
/// can add a cycle.
proof fn lemma_addressing_extra(s: CpuView, mode: AddressingMode)
    ensures
        mode != AddressingMode::ABX && mode != AddressingMode::ABY && mode != AddressingMode::INY
            ==> s.addressing(mode).remaining == s.remaining,
{
    reveal(CpuView::addressing);
}

/// Only a branch can add cycles at execution.
proof fn lemma_execute_extra(s: CpuView, instruction: Instruction, mode: AddressingMode)
    ensures
        !is_branch(instruction) ==> s.execute(instruction, mode).remaining == s.remaining,
{
    reveal(CpuView::execute);
    match instruction {
        Instruction::ADC => {},
        Instruction::AND => {},
        Instruction::ASL => {},
        Instruction::BCC => {},
        Instruction::BCS => {},
        Instruction::BEQ => {},
        Instruction::BIT => {},
        Instruction::BMI => {},
        Instruction::BNE => {},
        Instruction::BPL => {},
        Instruction::BRK => {},
        Instruction::BVC => {},
        Instruction::BVS => {},
        Instruction::CLC => {},
        Instruction::CLD => {},
        Instruction::CLI => {},
        Instruction::CLV => {},
        Instruction::CMP => {},
        Instruction::CPX => {},
        Instruction::CPY => {},
        Instruction::DEC => {},
        Instruction::DEX => {},
        Instruction::DEY => {},
        Instruction::EOR => {},
        Instruction::INC => {},
        Instruction::INX => {},
        Instruction::INY => {},
        Instruction::JMP => {},
        Instruction::JSR => {},
        Instruction::LDA => {},
        Instruction::LDX => {},
        Instruction::LDY => {},
        Instruction::LSR => {},
        Instruction::NOP => {},
        Instruction::ORA => {},
        Instruction::PHA => {},
        Instruction::PHP => {},
        Instruction::PLA => {},
        Instruction::PLP => {},
        Instruction::ROL => {},
        Instruction::ROR => {},
        Instruction::RTI => {},
        Instruction::RTS => {},
        Instruction::SBC => {},
        Instruction::SEC => {},
        Instruction::SED => {},
        Instruction::SEI => {},
        Instruction::STA => {},
        Instruction::STX => {},
        Instruction::STY => {},
        Instruction::TAX => {},
        Instruction::TAY => {},
        Instruction::TSX => {},
        Instruction::TXA => {},
        Instruction::TXS => {},
        Instruction::TYA => {},
        Instruction::XXX => {},
    }
}

/// A CPU cycle with cycles left of the current instruction only counts one
/// down. With none left, it runs the instruction whose opcode is at PC and
/// loads its cycle count from the opcode table, plus 0 to 2 extra cycles (a
/// page crossed by indexed addressing, a taken branch, a branch to another
/// page), less the cycle now spent.
pub proof fn lemma_cycle_count(s: CpuView)
    ensures
        s.remaining > 0 ==> s.clock_cycle() == (CpuView { remaining: (s.remaining - 1) as u8, ..s }),
        s.remaining == 0 ==> {
            let n = opcode_table(s.read_byte(s.regs.pc).0).cycles;
            n - 1 <= s.clock_cycle().remaining <= n + 1
        },
{
    if s.remaining == 0 {
        let (op, s1) = s.fetch_byte();
        let d = opcode_table(op);
        let s2 = CpuView { remaining: d.cycles, ..s1 };
        crate::ben6502::lemma_opcode_cycles(op);
        lemma_branches_are_relative(op);
        crate::ben6502::lemma_addressing_remaining(s2, d.addressing_mode);
        lemma_addressing_extra(s2, d.addressing_mode);
        let s3 = s2.addressing(d.addressing_mode);
        crate::ben6502::lemma_execute_remaining(s3, d.instruction, d.addressing_mode);
        lemma_execute_extra(s3, d.instruction, d.addressing_mode);
    }
}

/// Setting a status flag other than bit 5 leaves bit 5 alone; setting bit 5
/// to true sets it.
pub broadcast proof fn lemma_set_flag_bit5(s: CpuView, bit: u8, b: bool)
    ensures
        bit < 8 && bit != 5 ==> bit8(#[trigger] s.set_flag(bit, b).flags, 5) == bit8(s.flags, 5),
        bit == 5 && b ==> bit8(s.set_flag(bit, b).flags, 5) == 1,
{
    let x = s.flags;
    let v = crate::ben6502::flag_bit(b);
    assert(v <= 1 ==> (bit < 8 && bit != 5 ==> bit8(with_bit8(x, bit, v), 5) == bit8(x, 5))
        && (bit == 5 && v == 1 ==> bit8(with_bit8(x, bit, v), 5) == 1)) by (bit_vector);
}

/// The unused status bit (5) stays set through every instruction.
#[verifier::spinoff_prover]
#[verifier::rlimit(60)]
proof fn lemma_execute_keeps_unused_bit(s: CpuView, instruction: Instruction, mode: AddressingMode)
    requires
        bit8(s.flags, 5) == 1,
    ensures
        bit8(s.execute(instruction, mode).flags, 5) == 1,
{
    broadcast use lemma_set_flag_bit5;

    reveal(CpuView::execute);
    match instruction {
        Instruction::ADC => {},
        Instruction::AND => {},
        Instruction::ASL => {},
        Instruction::BCC => {},
        Instruction::BCS => {},
        Instruction::BEQ => {},
        Instruction::BIT => {},
        Instruction::BMI => {},
        Instruction::BNE => {},
        Instruction::BPL => {},
        Instruction::BRK => {},
        Instruction::BVC => {},
        Instruction::BVS => {},
        Instruction::CLC => {},
        Instruction::CLD => {},
        Instruction::CLI => {},
        Instruction::CLV => {},
        Instruction::CMP => {},
        Instruction::CPX => {},
        Instruction::CPY => {},
        Instruction::DEC => {},
        Instruction::DEX => {},
        Instruction::DEY => {},
        Instruction::EOR => {},
        Instruction::INC => {},
        Instruction::INX => {},
        Instruction::INY => {},
        Instruction::JMP => {},
        Instruction::JSR => {},
        Instruction::LDA => {},
        Instruction::LDX => {},
        Instruction::LDY => {},
        Instruction::LSR => {},
        Instruction::NOP => {},
        Instruction::ORA => {},
        Instruction::PHA => {},
        Instruction::PHP => {},
        Instruction::PLA => {},
        Instruction::PLP => {},
        Instruction::ROL => {},
        Instruction::ROR => {},
        Instruction::RTI => {},
        Instruction::RTS => {},
        Instruction::SBC => {},
        Instruction::SEC => {},
        Instruction::SED => {},
        Instruction::SEI => {},
        Instruction::STA => {},
        Instruction::STX => {},
        Instruction::STY => {},
        Instruction::TAX => {},
        Instruction::TAY => {},
        Instruction::TSX => {},
        Instruction::TXA => {},
        Instruction::TXS => {},
        Instruction::TYA => {},
        Instruction::XXX => {},
    }
}

/// Addressing does not touch the status.
proof fn lemma_addressing_keeps_flags(s: CpuView, mode: AddressingMode)
    ensures
        s.addressing(mode).flags == s.flags,
{
    reveal(CpuView::addressing);
}

/// The unused status bit (5) is set after a reset and stays set through
/// every CPU cycle.
pub proof fn lemma_unused_bit_stays_set(s: CpuView)
    ensures
        bit8(s.reset().flags, 5) == 1,
        bit8(s.flags, 5) == 1 ==> bit8(s.clock_cycle().flags, 5) == 1,
{
    assert(bit8(0x20u8, 5) == 1) by (bit_vector);
    if s.remaining == 0 && bit8(s.flags, 5) == 1 {
        let (op, s1) = s.fetch_byte();
        let d = opcode_table(op);
        let s2 = CpuView { remaining: d.cycles, ..s1 };
        lemma_addressing_keeps_flags(s2, d.addressing_mode);
        let s3 = s2.addressing(d.addressing_mode);
        lemma_execute_keeps_unused_bit(s3, d.instruction, d.addressing_mode);
    }
}

/// The unused status bit (5) stays set through an IRQ and an NMI.
pub proof fn lemma_interrupts_keep_unused_bit(s: CpuView)
    requires
        bit8(s.flags, 5) == 1,
    ensures
        bit8(s.irq().flags, 5) == 1,
        bit8(s.nmi().flags, 5) == 1,
{
    broadcast use lemma_set_flag_bit5;

}

} // verus!
