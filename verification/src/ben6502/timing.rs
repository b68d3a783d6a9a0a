use vstd::prelude::*;
use crate::ben6502::{AddressingMode, CpuView, Instruction};
use crate::bus::BusView;

verus! {

/// Where the PPU stands in its frame: scanline, cycle, whether the frame has
/// been completed, and whether it asks for an interrupt.
pub open spec fn ppu_timing(b: BusView) -> (i16, i16, bool, bool) {
    (b.ppu.scan_line, b.ppu.cycle, b.ppu.frame_render_complete, b.ppu.trigger_cpu_nmi)
}

/// A read of the CPU bus does not move the PPU in its frame.
pub broadcast proof fn lemma_read_keeps_timing(b: BusView, addr: u16)
    ensures
        ppu_timing(#[trigger] b.read(addr).1) == ppu_timing(b),
{
}

/// A write of the CPU bus does not move the PPU in its frame.
pub broadcast proof fn lemma_write_keeps_timing(b: BusView, addr: u16, data: u8)
    ensures
        ppu_timing(#[trigger] b.write(addr, data)) == ppu_timing(b),
{
}

/// No addressing mode moves the PPU in its frame.
pub proof fn lemma_addressing_keeps_timing(s: CpuView, mode: AddressingMode)
    ensures
        ppu_timing(s.addressing(mode).bus) == ppu_timing(s.bus),
{
    broadcast use {lemma_read_keeps_timing, lemma_write_keeps_timing};

    reveal(CpuView::addressing);
    match mode {
        AddressingMode::ACC => {},
        AddressingMode::IMM => {},
        AddressingMode::ABS => {},
        AddressingMode::ZP0 => {},
        AddressingMode::ZPX => {},
        AddressingMode::ZPY => {},
        AddressingMode::ABX => {},
        AddressingMode::ABY => {},
        AddressingMode::IMP => {},
        AddressingMode::REL => {},
        AddressingMode::INX => {},
        AddressingMode::INY => {},
        AddressingMode::IND => {},
    }
}

/// No instruction moves the PPU in its frame.
pub proof fn lemma_execute_keeps_timing(s: CpuView, instruction: Instruction, mode: AddressingMode)
    ensures
        ppu_timing(s.execute(instruction, mode).bus) == ppu_timing(s.bus),
{
    broadcast use {lemma_read_keeps_timing, lemma_write_keeps_timing};

    reveal(CpuView::execute);
    match instruction {
        Instruction::ADC => {},
        Instruction::AND => {},
        Instruction::ASL => {},
        Instruction::BCC => {},
        Instruction::BCS => {},
        Instruction::BEQ => {},
        Instruction::BIT => {},
        Instruction::BMI => {},
        Instruction::BNE => {},
        Instruction::BPL => {},
        Instruction::BRK => {},
        Instruction::BVC => {},
        Instruction::BVS => {},
        Instruction::CLC => {},
        Instruction::CLD => {},
        Instruction::CLI => {},
        Instruction::CLV => {},
        Instruction::CMP => {},
        Instruction::CPX => {},
        Instruction::CPY => {},
        Instruction::DEC => {},
        Instruction::DEX => {},
        Instruction::DEY => {},
        Instruction::EOR => {},
        Instruction::INC => {},
        Instruction::INX => {},
        Instruction::INY => {},
        Instruction::JMP => {},
        Instruction::JSR => {},
        Instruction::LDA => {},
        Instruction::LDX => {},
        Instruction::LDY => {},
        Instruction::LSR => {},
        Instruction::NOP => {},
        Instruction::ORA => {},
        Instruction::PHA => {},
        Instruction::PHP => {},
        Instruction::PLA => {},
        Instruction::PLP => {},
        Instruction::ROL => {},
        Instruction::ROR => {},
        Instruction::RTI => {},
        Instruction::RTS => {},
        Instruction::SBC => {},
        Instruction::SEC => {},
        Instruction::SED => {},
        Instruction::SEI => {},
        Instruction::STA => {},
        Instruction::STX => {},
        Instruction::STY => {},
        Instruction::TAX => {},
        Instruction::TAY => {},
        Instruction::TSX => {},
        Instruction::TXA => {},
        Instruction::TXS => {},
        Instruction::TYA => {},
        Instruction::XXX => {},
    }
}

/// A CPU cycle does not move the PPU in its frame.
pub proof fn lemma_cpu_cycle_keeps_timing(s: CpuView)
    ensures
        ppu_timing(s.clock_cycle().bus) == ppu_timing(s.bus),
{
    broadcast use {lemma_read_keeps_timing, lemma_write_keeps_timing};

    if s.remaining == 0 {
        let (op, s1) = s.fetch_byte();
        let d = crate::ben6502::opcode_table(op);
        let s2 = CpuView { remaining: d.cycles, ..s1 };
        lemma_addressing_keeps_timing(s2, d.addressing_mode);
        lemma_execute_keeps_timing(s2.addressing(d.addressing_mode), d.instruction, d.addressing_mode);
    }
}

/// A non-maskable interrupt does not move the PPU in its frame.
pub proof fn lemma_nmi_keeps_timing(s: CpuView)
    ensures
        ppu_timing(s.nmi().bus) == ppu_timing(s.bus),
{
    broadcast use {lemma_read_keeps_timing, lemma_write_keeps_timing};

}

} // verus!
