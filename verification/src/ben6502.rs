pub mod laws;
pub mod timing;
pub mod instruction_laws;

use vstd::prelude::*;
use crate::bus::{Bus16Bit, BusView, DMA_ADDR};
use crate::utils::bitwise_utils;
use crate::utils::bitwise_utils::{bit8, with_bit8};
use vstd::wrapping::u8_specs;
use vstd::wrapping::u16_specs;

verus! {

/// The 6502 processor status register, from bit 0: carry, zero, IRQ disable, decimal mode, break command, unused (set on reset), overflow, negative.
#[derive(Clone, Copy, Debug, PartialEq, Eq, Structural)]
pub struct Status {
    pub flags: u8,
}
impl Status {
    pub fn new() -> (r: Status)
        ensures
            r.flags == 0b00100000,
    {
        Status { flags: 0b00100000 }
    }

    /// Clears every flag but the unused bit, which stays set.
    pub fn reset(&mut self)
        ensures
            final(self).flags == 0b00100000,
    {
        self.flags = 0b00100000;
    }

    pub fn get_carry(&self) -> (r: u8)
        ensures
            r == bit8(self.flags, 0),
            r <= 1,
    {
        bitwise_utils::get_bit(self.flags, 0)
    }

    pub fn set_carry(&mut self, value: u8)
        requires
            value <= 1,
        ensures
            final(self).flags == with_bit8(old(self).flags, 0, value),
    {
        bitwise_utils::set_bit(&mut self.flags, 0, value);
    }

    pub fn get_zero(&self) -> (r: u8)
        ensures
            r == bit8(self.flags, 1),
            r <= 1,
    {
        bitwise_utils::get_bit(self.flags, 1)
    }

    pub fn set_zero(&mut self, value: u8)
        requires
            value <= 1,
        ensures
            final(self).flags == with_bit8(old(self).flags, 1, value),
    {
        bitwise_utils::set_bit(&mut self.flags, 1, value);
    }

    pub fn get_irq_disable(&self) -> (r: u8)
        ensures
            r == bit8(self.flags, 2),
            r <= 1,
    {
        bitwise_utils::get_bit(self.flags, 2)
    }

    pub fn set_irq_disable(&mut self, value: u8)
        requires
            value <= 1,
        ensures
            final(self).flags == with_bit8(old(self).flags, 2, value),
    {
        bitwise_utils::set_bit(&mut self.flags, 2, value);
    }

    pub fn get_decimal_mode(&self) -> (r: u8)
        ensures
            r == bit8(self.flags, 3),
            r <= 1,
    {
        bitwise_utils::get_bit(self.flags, 3)
    }

    pub fn set_decimal_mode(&mut self, value: u8)
        requires
            value <= 1,
        ensures
            final(self).flags == with_bit8(old(self).flags, 3, value),
    {
        bitwise_utils::set_bit(&mut self.flags, 3, value);
    }

    pub fn get_brk_command(&self) -> (r: u8)
        ensures
            r == bit8(self.flags, 4),
            r <= 1,
    {
        bitwise_utils::get_bit(self.flags, 4)
    }

    pub fn set_brk_command(&mut self, value: u8)
        requires
            value <= 1,
        ensures
            final(self).flags == with_bit8(old(self).flags, 4, value),
    {
        bitwise_utils::set_bit(&mut self.flags, 4, value);
    }

    pub fn get_unused_bit(&self) -> (r: u8)
        ensures
            r == bit8(self.flags, 5),
            r <= 1,
    {
        bitwise_utils::get_bit(self.flags, 5)
    }

    pub fn set_unused_bit(&mut self, value: u8)
        requires
            value <= 1,
        ensures
            final(self).flags == with_bit8(old(self).flags, 5, value),
    {
        bitwise_utils::set_bit(&mut self.flags, 5, value);
    }

    pub fn get_overflow(&self) -> (r: u8)
        ensures
            r == bit8(self.flags, 6),
            r <= 1,
    {
        bitwise_utils::get_bit(self.flags, 6)
    }

    pub fn set_overflow(&mut self, value: u8)
        requires
            value <= 1,
        ensures
            final(self).flags == with_bit8(old(self).flags, 6, value),
    {
        bitwise_utils::set_bit(&mut self.flags, 6, value);
    }

    pub fn get_negative(&self) -> (r: u8)
        ensures
            r == bit8(self.flags, 7),
            r <= 1,
    {
        bitwise_utils::get_bit(self.flags, 7)
    }

    pub fn set_negative(&mut self, value: u8)
        requires
            value <= 1,
        ensures
            final(self).flags == with_bit8(old(self).flags, 7, value),
    {
        bitwise_utils::set_bit(&mut self.flags, 7, value);
    }
}


/// The registers of the 6502: accumulator, X and Y indexes, stack pointer and
/// program counter.
#[derive(Clone, Copy, Debug, PartialEq, Eq, Structural)]
pub struct Registers {
    pub a: u8,
    pub x: u8,
    pub y: u8,
    pub sp: u8,
    pub pc: u16,
}

/// How an instruction finds its operand.
#[derive(Clone, Copy, Debug, PartialEq, Eq, Structural)]
pub enum AddressingMode {
    /// Accumulator
    ACC,
    /// Immediate
    IMM,
    /// Absolute
    ABS,
    /// Zero page
    ZP0,
    /// Zero page, indexed by X
    ZPX,
    /// Zero page, indexed by Y
    ZPY,
    /// Absolute, indexed by X
    ABX,
    /// Absolute, indexed by Y
    ABY,
    /// Implied
    IMP,
    /// Relative
    REL,
    /// Indirect, indexed by X
    INX,
    /// Indirect, indexed by Y
    INY,
    /// Indirect
    IND,
}

/// The 56 instructions of the 6502, and `XXX` for the illegal opcodes.
#[derive(Clone, Copy, Debug, PartialEq, Eq, Structural)]
pub enum Instruction {
    ADC,
    AND,
    ASL,
    BCC,
    BCS,
    BEQ,
    BIT,
    BMI,
    BNE,
    BPL,
    BRK,
    BVC,
    BVS,
    CLC,
    CLD,
    CLI,
    CLV,
    CMP,
    CPX,
    CPY,
    DEC,
    DEX,
    DEY,
    EOR,
    INC,
    INX,
    INY,
    JMP,
    JSR,
    LDA,
    LDX,
    LDY,
    LSR,
    NOP,
    ORA,
    PHA,
    PHP,
    PLA,
    PLP,
    ROL,
    ROR,
    RTI,
    RTS,
    SBC,
    SEC,
    SED,
    SEI,
    STA,
    STX,
    STY,
    TAX,
    TAY,
    TSX,
    TXA,
    TXS,
    TYA,
    XXX,
}

/// What an opcode decodes to: the instruction, its addressing mode and its
/// base number of clock cycles.
#[derive(Clone, Copy, Debug, PartialEq, Eq, Structural)]
pub struct InstructionData {
    pub instruction: Instruction,
    pub addressing_mode: AddressingMode,
    pub cycles: u8,
}

/// The decoding table of the 6502, after the olcNES emulator of David Barr
/// (javidx9).
pub open spec fn opcode_table(opcode: u8) -> InstructionData {
    match opcode {
        0 => InstructionData { instruction: Instruction::BRK, addressing_mode: AddressingMode::IMM, cycles: 7 },
        1 => InstructionData { instruction: Instruction::ORA, addressing_mode: AddressingMode::INX, cycles: 6 },
        2 => InstructionData { instruction: Instruction::XXX, addressing_mode: AddressingMode::IMP, cycles: 2 },
        3 => InstructionData { instruction: Instruction::XXX, addressing_mode: AddressingMode::IMP, cycles: 8 },
        4 => InstructionData { instruction: Instruction::XXX, addressing_mode: AddressingMode::IMP, cycles: 3 },
        5 => InstructionData { instruction: Instruction::ORA, addressing_mode: AddressingMode::ZP0, cycles: 3 },
        6 => InstructionData { instruction: Instruction::ASL, addressing_mode: AddressingMode::ZP0, cycles: 5 },
        7 => InstructionData { instruction: Instruction::XXX, addressing_mode: AddressingMode::IMP, cycles: 5 },
        8 => InstructionData { instruction: Instruction::PHP, addressing_mode: AddressingMode::IMP, cycles: 3 },
        9 => InstructionData { instruction: Instruction::ORA, addressing_mode: AddressingMode::IMM, cycles: 2 },
        10 => InstructionData { instruction: Instruction::ASL, addressing_mode: AddressingMode::ACC, cycles: 2 },
        11 => InstructionData { instruction: Instruction::XXX, addressing_mode: AddressingMode::IMP, cycles: 2 },
        12 => InstructionData { instruction: Instruction::XXX, addressing_mode: AddressingMode::IMP, cycles: 4 },
        13 => InstructionData { instruction: Instruction::ORA, addressing_mode: AddressingMode::ABS, cycles: 4 },
        14 => InstructionData { instruction: Instruction::ASL, addressing_mode: AddressingMode::ABS, cycles: 6 },
        15 => InstructionData { instruction: Instruction::XXX, addressing_mode: AddressingMode::IMP, cycles: 6 },
        16 => InstructionData { instruction: Instruction::BPL, addressing_mode: AddressingMode::REL, cycles: 2 },
        17 => InstructionData { instruction: Instruction::ORA, addressing_mode: AddressingMode::INY, cycles: 5 },
        18 => InstructionData { instruction: Instruction::XXX, addressing_mode: AddressingMode::IMP, cycles: 2 },
        19 => InstructionData { instruction: Instruction::XXX, addressing_mode: AddressingMode::IMP, cycles: 8 },
        20 => InstructionData { instruction: Instruction::XXX, addressing_mode: AddressingMode::IMP, cycles: 4 },
        21 => InstructionData { instruction: Instruction::ORA, addressing_mode: AddressingMode::ZPX, cycles: 4 },
        22 => InstructionData { instruction: Instruction::ASL, addressing_mode: AddressingMode::ZPX, cycles: 6 },
        23 => InstructionData { instruction: Instruction::XXX, addressing_mode: AddressingMode::IMP, cycles: 6 },
        24 => InstructionData { instruction: Instruction::CLC, addressing_mode: AddressingMode::IMP, cycles: 2 },
        25 => InstructionData { instruction: Instruction::ORA, addressing_mode: AddressingMode::ABY, cycles: 4 },
        26 => InstructionData { instruction: Instruction::XXX, addressing_mode: AddressingMode::IMP, cycles: 2 },
        27 => InstructionData { instruction: Instruction::XXX, addressing_mode: AddressingMode::IMP, cycles: 7 },
        28 => InstructionData { instruction: Instruction::XXX, addressing_mode: AddressingMode::IMP, cycles: 4 },
        29 => InstructionData { instruction: Instruction::ORA, addressing_mode: AddressingMode::ABX, cycles: 4 },
        30 => InstructionData { instruction: Instruction::ASL, addressing_mode: AddressingMode::ABX, cycles: 7 },
        31 => InstructionData { instruction: Instruction::XXX, addressing_mode: AddressingMode::IMP, cycles: 7 },
        32 => InstructionData { instruction: Instruction::JSR, addressing_mode: AddressingMode::ABS, cycles: 6 },
        33 => InstructionData { instruction: Instruction::AND, addressing_mode: AddressingMode::INX, cycles: 6 },
        34 => InstructionData { instruction: Instruction::XXX, addressing_mode: AddressingMode::IMP, cycles: 2 },
        35 => InstructionData { instruction: Instruction::XXX, addressing_mode: AddressingMode::IMP, cycles: 8 },
        36 => InstructionData { instruction: Instruction::BIT, addressing_mode: AddressingMode::ZP0, cycles: 3 },
        37 => InstructionData { instruction: Instruction::AND, addressing_mode: AddressingMode::ZP0, cycles: 3 },
        38 => InstructionData { instruction: Instruction::ROL, addressing_mode: AddressingMode::ZP0, cycles: 5 },
        39 => InstructionData { instruction: Instruction::XXX, addressing_mode: AddressingMode::IMP, cycles: 5 },
        40 => InstructionData { instruction: Instruction::PLP, addressing_mode: AddressingMode::IMP, cycles: 4 },
        41 => InstructionData { instruction: Instruction::AND, addressing_mode: AddressingMode::IMM, cycles: 2 },
        42 => InstructionData { instruction: Instruction::ROL, addressing_mode: AddressingMode::ACC, cycles: 2 },
        43 => InstructionData { instruction: Instruction::XXX, addressing_mode: AddressingMode::IMP, cycles: 2 },
        44 => InstructionData { instruction: Instruction::BIT, addressing_mode: AddressingMode::ABS, cycles: 4 },
        45 => InstructionData { instruction: Instruction::AND, addressing_mode: AddressingMode::ABS, cycles: 4 },
        46 => InstructionData { instruction: Instruction::ROL, addressing_mode: AddressingMode::ABS, cycles: 6 },
        47 => InstructionData { instruction: Instruction::XXX, addressing_mode: AddressingMode::IMP, cycles: 6 },
        48 => InstructionData { instruction: Instruction::BMI, addressing_mode: AddressingMode::REL, cycles: 2 },
        49 => InstructionData { instruction: Instruction::AND, addressing_mode: AddressingMode::INY, cycles: 5 },
        50 => InstructionData { instruction: Instruction::XXX, addressing_mode: AddressingMode::IMP, cycles: 2 },
        51 => InstructionData { instruction: Instruction::XXX, addressing_mode: AddressingMode::IMP, cycles: 8 },
        52 => InstructionData { instruction: Instruction::XXX, addressing_mode: AddressingMode::IMP, cycles: 4 },
        53 => InstructionData { instruction: Instruction::AND, addressing_mode: AddressingMode::ZPX, cycles: 4 },
        54 => InstructionData { instruction: Instruction::ROL, addressing_mode: AddressingMode::ZPX, cycles: 6 },
        55 => InstructionData { instruction: Instruction::XXX, addressing_mode: AddressingMode::IMP, cycles: 6 },
        56 => InstructionData { instruction: Instruction::SEC, addressing_mode: AddressingMode::IMP, cycles: 2 },
        57 => InstructionData { instruction: Instruction::AND, addressing_mode: AddressingMode::ABY, cycles: 4 },
        58 => InstructionData { instruction: Instruction::XXX, addressing_mode: AddressingMode::IMP, cycles: 2 },
        59 => InstructionData { instruction: Instruction::XXX, addressing_mode: AddressingMode::IMP, cycles: 7 },
        60 => InstructionData { instruction: Instruction::XXX, addressing_mode: AddressingMode::IMP, cycles: 4 },
        61 => InstructionData { instruction: Instruction::AND, addressing_mode: AddressingMode::ABX, cycles: 4 },
        62 => InstructionData { instruction: Instruction::ROL, addressing_mode: AddressingMode::ABX, cycles: 7 },
        63 => InstructionData { instruction: Instruction::XXX, addressing_mode: AddressingMode::IMP, cycles: 7 },
        64 => InstructionData { instruction: Instruction::RTI, addressing_mode: AddressingMode::IMP, cycles: 6 },
        65 => InstructionData { instruction: Instruction::EOR, addressing_mode: AddressingMode::INX, cycles: 6 },
        66 => InstructionData { instruction: Instruction::XXX, addressing_mode: AddressingMode::IMP, cycles: 2 },
        67 => InstructionData { instruction: Instruction::XXX, addressing_mode: AddressingMode::IMP, cycles: 8 },
        68 => InstructionData { instruction: Instruction::XXX, addressing_mode: AddressingMode::IMP, cycles: 3 },
        69 => InstructionData { instruction: Instruction::EOR, addressing_mode: AddressingMode::ZP0, cycles: 3 },
        70 => InstructionData { instruction: Instruction::LSR, addressing_mode: AddressingMode::ZP0, cycles: 5 },
        71 => InstructionData { instruction: Instruction::XXX, addressing_mode: AddressingMode::IMP, cycles: 5 },
        72 => InstructionData { instruction: Instruction::PHA, addressing_mode: AddressingMode::IMP, cycles: 3 },
        73 => InstructionData { instruction: Instruction::EOR, addressing_mode: AddressingMode::IMM, cycles: 2 },
        74 => InstructionData { instruction: Instruction::LSR, addressing_mode: AddressingMode::ACC, cycles: 2 },
        75 => InstructionData { instruction: Instruction::XXX, addressing_mode: AddressingMode::IMP, cycles: 2 },
        76 => InstructionData { instruction: Instruction::JMP, addressing_mode: AddressingMode::ABS, cycles: 3 },
        77 => InstructionData { instruction: Instruction::EOR, addressing_mode: AddressingMode::ABS, cycles: 4 },
        78 => InstructionData { instruction: Instruction::LSR, addressing_mode: AddressingMode::ABS, cycles: 6 },
        79 => InstructionData { instruction: Instruction::XXX, addressing_mode: AddressingMode::IMP, cycles: 6 },
        80 => InstructionData { instruction: Instruction::BVC, addressing_mode: AddressingMode::REL, cycles: 2 },
        81 => InstructionData { instruction: Instruction::EOR, addressing_mode: AddressingMode::INY, cycles: 5 },
        82 => InstructionData { instruction: Instruction::XXX, addressing_mode: AddressingMode::IMP, cycles: 2 },
        83 => InstructionData { instruction: Instruction::XXX, addressing_mode: AddressingMode::IMP, cycles: 8 },
        84 => InstructionData { instruction: Instruction::XXX, addressing_mode: AddressingMode::IMP, cycles: 4 },
        85 => InstructionData { instruction: Instruction::EOR, addressing_mode: AddressingMode::ZPX, cycles: 4 },
        86 => InstructionData { instruction: Instruction::LSR, addressing_mode: AddressingMode::ZPX, cycles: 6 },
        87 => InstructionData { instruction: Instruction::XXX, addressing_mode: AddressingMode::IMP, cycles: 6 },
        88 => InstructionData { instruction: Instruction::CLI, addressing_mode: AddressingMode::IMP, cycles: 2 },
        89 => InstructionData { instruction: Instruction::EOR, addressing_mode: AddressingMode::ABY, cycles: 4 },
        90 => InstructionData { instruction: Instruction::XXX, addressing_mode: AddressingMode::IMP, cycles: 2 },
        91 => InstructionData { instruction: Instruction::XXX, addressing_mode: AddressingMode::IMP, cycles: 7 },
        92 => InstructionData { instruction: Instruction::XXX, addressing_mode: AddressingMode::IMP, cycles: 4 },
        93 => InstructionData { instruction: Instruction::EOR, addressing_mode: AddressingMode::ABX, cycles: 4 },
        94 => InstructionData { instruction: Instruction::LSR, addressing_mode: AddressingMode::ABX, cycles: 7 },
        95 => InstructionData { instruction: Instruction::XXX, addressing_mode: AddressingMode::IMP, cycles: 7 },
        96 => InstructionData { instruction: Instruction::RTS, addressing_mode: AddressingMode::IMP, cycles: 6 },
        97 => InstructionData { instruction: Instruction::ADC, addressing_mode: AddressingMode::INX, cycles: 6 },
        98 => InstructionData { instruction: Instruction::XXX, addressing_mode: AddressingMode::IMP, cycles: 2 },
        99 => InstructionData { instruction: Instruction::XXX, addressing_mode: AddressingMode::IMP, cycles: 8 },
        100 => InstructionData { instruction: Instruction::XXX, addressing_mode: AddressingMode::IMP, cycles: 3 },
        101 => InstructionData { instruction: Instruction::ADC, addressing_mode: AddressingMode::ZP0, cycles: 3 },
        102 => InstructionData { instruction: Instruction::ROR, addressing_mode: AddressingMode::ZP0, cycles: 5 },
        103 => InstructionData { instruction: Instruction::XXX, addressing_mode: AddressingMode::IMP, cycles: 5 },
        104 => InstructionData { instruction: Instruction::PLA, addressing_mode: AddressingMode::IMP, cycles: 4 },
        105 => InstructionData { instruction: Instruction::ADC, addressing_mode: AddressingMode::IMM, cycles: 2 },
        106 => InstructionData { instruction: Instruction::ROR, addressing_mode: AddressingMode::ACC, cycles: 2 },
        107 => InstructionData { instruction: Instruction::XXX, addressing_mode: AddressingMode::IMP, cycles: 2 },
        108 => InstructionData { instruction: Instruction::JMP, addressing_mode: AddressingMode::IND, cycles: 5 },
        109 => InstructionData { instruction: Instruction::ADC, addressing_mode: AddressingMode::ABS, cycles: 4 },
        110 => InstructionData { instruction: Instruction::ROR, addressing_mode: AddressingMode::ABS, cycles: 6 },
        111 => InstructionData { instruction: Instruction::XXX, addressing_mode: AddressingMode::IMP, cycles: 6 },
        112 => InstructionData { instruction: Instruction::BVS, addressing_mode: AddressingMode::REL, cycles: 2 },
        113 => InstructionData { instruction: Instruction::ADC, addressing_mode: AddressingMode::INY, cycles: 5 },
        114 => InstructionData { instruction: Instruction::XXX, addressing_mode: AddressingMode::IMP, cycles: 2 },
        115 => InstructionData { instruction: Instruction::XXX, addressing_mode: AddressingMode::IMP, cycles: 8 },
        116 => InstructionData { instruction: Instruction::XXX, addressing_mode: AddressingMode::IMP, cycles: 4 },
        117 => InstructionData { instruction: Instruction::ADC, addressing_mode: AddressingMode::ZPX, cycles: 4 },
        118 => InstructionData { instruction: Instruction::ROR, addressing_mode: AddressingMode::ZPX, cycles: 6 },
        119 => InstructionData { instruction: Instruction::XXX, addressing_mode: AddressingMode::IMP, cycles: 6 },
        120 => InstructionData { instruction: Instruction::SEI, addressing_mode: AddressingMode::IMP, cycles: 2 },
        121 => InstructionData { instruction: Instruction::ADC, addressing_mode: AddressingMode::ABY, cycles: 4 },
        122 => InstructionData { instruction: Instruction::XXX, addressing_mode: AddressingMode::IMP, cycles: 2 },
        123 => InstructionData { instruction: Instruction::XXX, addressing_mode: AddressingMode::IMP, cycles: 7 },
        124 => InstructionData { instruction: Instruction::XXX, addressing_mode: AddressingMode::IMP, cycles: 4 },
        125 => InstructionData { instruction: Instruction::ADC, addressing_mode: AddressingMode::ABX, cycles: 4 },
        126 => InstructionData { instruction: Instruction::ROR, addressing_mode: AddressingMode::ABX, cycles: 7 },
        127 => InstructionData { instruction: Instruction::XXX, addressing_mode: AddressingMode::IMP, cycles: 7 },
        128 => InstructionData { instruction: Instruction::XXX, addressing_mode: AddressingMode::IMP, cycles: 2 },
        129 => InstructionData { instruction: Instruction::STA, addressing_mode: AddressingMode::INX, cycles: 6 },
        130 => InstructionData { instruction: Instruction::XXX, addressing_mode: AddressingMode::IMP, cycles: 2 },
        131 => InstructionData { instruction: Instruction::XXX, addressing_mode: AddressingMode::IMP, cycles: 6 },
        132 => InstructionData { instruction: Instruction::STY, addressing_mode: AddressingMode::ZP0, cycles: 3 },
        133 => InstructionData { instruction: Instruction::STA, addressing_mode: AddressingMode::ZP0, cycles: 3 },
        134 => InstructionData { instruction: Instruction::STX, addressing_mode: AddressingMode::ZP0, cycles: 3 },
        135 => InstructionData { instruction: Instruction::XXX, addressing_mode: AddressingMode::IMP, cycles: 3 },
        136 => InstructionData { instruction: Instruction::DEY, addressing_mode: AddressingMode::IMP, cycles: 2 },
        137 => InstructionData { instruction: Instruction::XXX, addressing_mode: AddressingMode::IMP, cycles: 2 },
        138 => InstructionData { instruction: Instruction::TXA, addressing_mode: AddressingMode::IMP, cycles: 2 },
        139 => InstructionData { instruction: Instruction::XXX, addressing_mode: AddressingMode::IMP, cycles: 2 },
        140 => InstructionData { instruction: Instruction::STY, addressing_mode: AddressingMode::ABS, cycles: 4 },
        141 => InstructionData { instruction: Instruction::STA, addressing_mode: AddressingMode::ABS, cycles: 4 },
        142 => InstructionData { instruction: Instruction::STX, addressing_mode: AddressingMode::ABS, cycles: 4 },
        143 => InstructionData { instruction: Instruction::XXX, addressing_mode: AddressingMode::IMP, cycles: 4 },
        144 => InstructionData { instruction: Instruction::BCC, addressing_mode: AddressingMode::REL, cycles: 2 },
        145 => InstructionData { instruction: Instruction::STA, addressing_mode: AddressingMode::INY, cycles: 6 },
        146 => InstructionData { instruction: Instruction::XXX, addressing_mode: AddressingMode::IMP, cycles: 2 },
        147 => InstructionData { instruction: Instruction::XXX, addressing_mode: AddressingMode::IMP, cycles: 6 },
        148 => InstructionData { instruction: Instruction::STY, addressing_mode: AddressingMode::ZPX, cycles: 4 },
        149 => InstructionData { instruction: Instruction::STA, addressing_mode: AddressingMode::ZPX, cycles: 4 },
        150 => InstructionData { instruction: Instruction::STX, addressing_mode: AddressingMode::ZPY, cycles: 4 },
        151 => InstructionData { instruction: Instruction::XXX, addressing_mode: AddressingMode::IMP, cycles: 4 },
        152 => InstructionData { instruction: Instruction::TYA, addressing_mode: AddressingMode::IMP, cycles: 2 },
        153 => InstructionData { instruction: Instruction::STA, addressing_mode: AddressingMode::ABY, cycles: 5 },
        154 => InstructionData { instruction: Instruction::TXS, addressing_mode: AddressingMode::IMP, cycles: 2 },
        155 => InstructionData { instruction: Instruction::XXX, addressing_mode: AddressingMode::IMP, cycles: 5 },
        156 => InstructionData { instruction: Instruction::XXX, addressing_mode: AddressingMode::IMP, cycles: 5 },
        157 => InstructionData { instruction: Instruction::STA, addressing_mode: AddressingMode::ABX, cycles: 5 },
        158 => InstructionData { instruction: Instruction::XXX, addressing_mode: AddressingMode::IMP, cycles: 5 },
        159 => InstructionData { instruction: Instruction::XXX, addressing_mode: AddressingMode::IMP, cycles: 5 },
        160 => InstructionData { instruction: Instruction::LDY, addressing_mode: AddressingMode::IMM, cycles: 2 },
        161 => InstructionData { instruction: Instruction::LDA, addressing_mode: AddressingMode::INX, cycles: 6 },
        162 => InstructionData { instruction: Instruction::LDX, addressing_mode: AddressingMode::IMM, cycles: 2 },
        163 => InstructionData { instruction: Instruction::XXX, addressing_mode: AddressingMode::IMP, cycles: 6 },
        164 => InstructionData { instruction: Instruction::LDY, addressing_mode: AddressingMode::ZP0, cycles: 3 },
        165 => InstructionData { instruction: Instruction::LDA, addressing_mode: AddressingMode::ZP0, cycles: 3 },
        166 => InstructionData { instruction: Instruction::LDX, addressing_mode: AddressingMode::ZP0, cycles: 3 },
        167 => InstructionData { instruction: Instruction::XXX, addressing_mode: AddressingMode::IMP, cycles: 3 },
        168 => InstructionData { instruction: Instruction::TAY, addressing_mode: AddressingMode::IMP, cycles: 2 },
        169 => InstructionData { instruction: Instruction::LDA, addressing_mode: AddressingMode::IMM, cycles: 2 },
        170 => InstructionData { instruction: Instruction::TAX, addressing_mode: AddressingMode::IMP, cycles: 2 },
        171 => InstructionData { instruction: Instruction::XXX, addressing_mode: AddressingMode::IMP, cycles: 2 },
        172 => InstructionData { instruction: Instruction::LDY, addressing_mode: AddressingMode::ABS, cycles: 4 },
        173 => InstructionData { instruction: Instruction::LDA, addressing_mode: AddressingMode::ABS, cycles: 4 },
        174 => InstructionData { instruction: Instruction::LDX, addressing_mode: AddressingMode::ABS, cycles: 4 },
        175 => InstructionData { instruction: Instruction::XXX, addressing_mode: AddressingMode::IMP, cycles: 4 },
        176 => InstructionData { instruction: Instruction::BCS, addressing_mode: AddressingMode::REL, cycles: 2 },
        177 => InstructionData { instruction: Instruction::LDA, addressing_mode: AddressingMode::INY, cycles: 5 },
        178 => InstructionData { instruction: Instruction::XXX, addressing_mode: AddressingMode::IMP, cycles: 2 },
        179 => InstructionData { instruction: Instruction::XXX, addressing_mode: AddressingMode::IMP, cycles: 5 },
        180 => InstructionData { instruction: Instruction::LDY, addressing_mode: AddressingMode::ZPX, cycles: 4 },
        181 => InstructionData { instruction: Instruction::LDA, addressing_mode: AddressingMode::ZPX, cycles: 4 },
        182 => InstructionData { instruction: Instruction::LDX, addressing_mode: AddressingMode::ZPY, cycles: 4 },
        183 => InstructionData { instruction: Instruction::XXX, addressing_mode: AddressingMode::IMP, cycles: 4 },
        184 => InstructionData { instruction: Instruction::CLV, addressing_mode: AddressingMode::IMP, cycles: 2 },
        185 => InstructionData { instruction: Instruction::LDA, addressing_mode: AddressingMode::ABY, cycles: 4 },
        186 => InstructionData { instruction: Instruction::TSX, addressing_mode: AddressingMode::IMP, cycles: 2 },
        187 => InstructionData { instruction: Instruction::XXX, addressing_mode: AddressingMode::IMP, cycles: 4 },
        188 => InstructionData { instruction: Instruction::LDY, addressing_mode: AddressingMode::ABX, cycles: 4 },
        189 => InstructionData { instruction: Instruction::LDA, addressing_mode: AddressingMode::ABX, cycles: 4 },
        190 => InstructionData { instruction: Instruction::LDX, addressing_mode: AddressingMode::ABY, cycles: 4 },
        191 => InstructionData { instruction: Instruction::XXX, addressing_mode: AddressingMode::IMP, cycles: 4 },
        192 => InstructionData { instruction: Instruction::CPY, addressing_mode: AddressingMode::IMM, cycles: 2 },
        193 => InstructionData { instruction: Instruction::CMP, addressing_mode: AddressingMode::INX, cycles: 6 },
        194 => InstructionData { instruction: Instruction::XXX, addressing_mode: AddressingMode::IMP, cycles: 2 },
        195 => InstructionData { instruction: Instruction::XXX, addressing_mode: AddressingMode::IMP, cycles: 8 },
        196 => InstructionData { instruction: Instruction::CPY, addressing_mode: AddressingMode::ZP0, cycles: 3 },
        197 => InstructionData { instruction: Instruction::CMP, addressing_mode: AddressingMode::ZP0, cycles: 3 },
        198 => InstructionData { instruction: Instruction::DEC, addressing_mode: AddressingMode::ZP0, cycles: 5 },
        199 => InstructionData { instruction: Instruction::XXX, addressing_mode: AddressingMode::IMP, cycles: 5 },
        200 => InstructionData { instruction: Instruction::INY, addressing_mode: AddressingMode::IMP, cycles: 2 },
        201 => InstructionData { instruction: Instruction::CMP, addressing_mode: AddressingMode::IMM, cycles: 2 },
        202 => InstructionData { instruction: Instruction::DEX, addressing_mode: AddressingMode::IMP, cycles: 2 },
        203 => InstructionData { instruction: Instruction::XXX, addressing_mode: AddressingMode::IMP, cycles: 2 },
        204 => InstructionData { instruction: Instruction::CPY, addressing_mode: AddressingMode::ABS, cycles: 4 },
        205 => InstructionData { instruction: Instruction::CMP, addressing_mode: AddressingMode::ABS, cycles: 4 },
        206 => InstructionData { instruction: Instruction::DEC, addressing_mode: AddressingMode::ABS, cycles: 6 },
        207 => InstructionData { instruction: Instruction::XXX, addressing_mode: AddressingMode::IMP, cycles: 6 },
        208 => InstructionData { instruction: Instruction::BNE, addressing_mode: AddressingMode::REL, cycles: 2 },
        209 => InstructionData { instruction: Instruction::CMP, addressing_mode: AddressingMode::INY, cycles: 5 },
        210 => InstructionData { instruction: Instruction::XXX, addressing_mode: AddressingMode::IMP, cycles: 2 },
        211 => InstructionData { instruction: Instruction::XXX, addressing_mode: AddressingMode::IMP, cycles: 8 },
        212 => InstructionData { instruction: Instruction::XXX, addressing_mode: AddressingMode::IMP, cycles: 4 },
        213 => InstructionData { instruction: Instruction::CMP, addressing_mode: AddressingMode::ZPX, cycles: 4 },
        214 => InstructionData { instruction: Instruction::DEC, addressing_mode: AddressingMode::ZPX, cycles: 6 },
        215 => InstructionData { instruction: Instruction::XXX, addressing_mode: AddressingMode::IMP, cycles: 6 },
        216 => InstructionData { instruction: Instruction::CLD, addressing_mode: AddressingMode::IMP, cycles: 2 },
        217 => InstructionData { instruction: Instruction::CMP, addressing_mode: AddressingMode::ABY, cycles: 4 },
        218 => InstructionData { instruction: Instruction::NOP, addressing_mode: AddressingMode::IMP, cycles: 2 },
        219 => InstructionData { instruction: Instruction::XXX, addressing_mode: AddressingMode::IMP, cycles: 7 },
        220 => InstructionData { instruction: Instruction::XXX, addressing_mode: AddressingMode::IMP, cycles: 4 },
        221 => InstructionData { instruction: Instruction::CMP, addressing_mode: AddressingMode::ABX, cycles: 4 },
        222 => InstructionData { instruction: Instruction::DEC, addressing_mode: AddressingMode::ABX, cycles: 7 },
        223 => InstructionData { instruction: Instruction::XXX, addressing_mode: AddressingMode::IMP, cycles: 7 },
        224 => InstructionData { instruction: Instruction::CPX, addressing_mode: AddressingMode::IMM, cycles: 2 },
        225 => InstructionData { instruction: Instruction::SBC, addressing_mode: AddressingMode::INX, cycles: 6 },
        226 => InstructionData { instruction: Instruction::XXX, addressing_mode: AddressingMode::IMP, cycles: 2 },
        227 => InstructionData { instruction: Instruction::XXX, addressing_mode: AddressingMode::IMP, cycles: 8 },
        228 => InstructionData { instruction: Instruction::CPX, addressing_mode: AddressingMode::ZP0, cycles: 3 },
        229 => InstructionData { instruction: Instruction::SBC, addressing_mode: AddressingMode::ZP0, cycles: 3 },
        230 => InstructionData { instruction: Instruction::INC, addressing_mode: AddressingMode::ZP0, cycles: 5 },
        231 => InstructionData { instruction: Instruction::XXX, addressing_mode: AddressingMode::IMP, cycles: 5 },
        232 => InstructionData { instruction: Instruction::INX, addressing_mode: AddressingMode::IMP, cycles: 2 },
        233 => InstructionData { instruction: Instruction::SBC, addressing_mode: AddressingMode::IMM, cycles: 2 },
        234 => InstructionData { instruction: Instruction::NOP, addressing_mode: AddressingMode::IMP, cycles: 2 },
        235 => InstructionData { instruction: Instruction::XXX, addressing_mode: AddressingMode::IMP, cycles: 2 },
        236 => InstructionData { instruction: Instruction::CPX, addressing_mode: AddressingMode::ABS, cycles: 4 },
        237 => InstructionData { instruction: Instruction::SBC, addressing_mode: AddressingMode::ABS, cycles: 4 },
        238 => InstructionData { instruction: Instruction::INC, addressing_mode: AddressingMode::ABS, cycles: 6 },
        239 => InstructionData { instruction: Instruction::XXX, addressing_mode: AddressingMode::IMP, cycles: 6 },
        240 => InstructionData { instruction: Instruction::BEQ, addressing_mode: AddressingMode::REL, cycles: 2 },
        241 => InstructionData { instruction: Instruction::SBC, addressing_mode: AddressingMode::INY, cycles: 5 },
        242 => InstructionData { instruction: Instruction::XXX, addressing_mode: AddressingMode::IMP, cycles: 2 },
        243 => InstructionData { instruction: Instruction::XXX, addressing_mode: AddressingMode::IMP, cycles: 8 },
        244 => InstructionData { instruction: Instruction::XXX, addressing_mode: AddressingMode::IMP, cycles: 4 },
        245 => InstructionData { instruction: Instruction::SBC, addressing_mode: AddressingMode::ZPX, cycles: 4 },
        246 => InstructionData { instruction: Instruction::INC, addressing_mode: AddressingMode::ZPX, cycles: 6 },
        247 => InstructionData { instruction: Instruction::XXX, addressing_mode: AddressingMode::IMP, cycles: 6 },
        248 => InstructionData { instruction: Instruction::SED, addressing_mode: AddressingMode::IMP, cycles: 2 },
        249 => InstructionData { instruction: Instruction::SBC, addressing_mode: AddressingMode::ABY, cycles: 4 },
        250 => InstructionData { instruction: Instruction::NOP, addressing_mode: AddressingMode::IMP, cycles: 2 },
        251 => InstructionData { instruction: Instruction::XXX, addressing_mode: AddressingMode::IMP, cycles: 7 },
        252 => InstructionData { instruction: Instruction::XXX, addressing_mode: AddressingMode::IMP, cycles: 4 },
        253 => InstructionData { instruction: Instruction::SBC, addressing_mode: AddressingMode::ABX, cycles: 4 },
        254 => InstructionData { instruction: Instruction::INC, addressing_mode: AddressingMode::ABX, cycles: 7 },
        _ => InstructionData { instruction: Instruction::XXX, addressing_mode: AddressingMode::IMP, cycles: 7 },
    }
}

/// Every opcode takes from 2 to 8 cycles.
pub proof fn lemma_opcode_cycles(opcode: u8)
    ensures
        2 <= opcode_table(opcode).cycles <= 8,
{
}

/// Decodes an opcode.
pub fn decode_opcode(opcode: u8) -> (d: InstructionData)
    ensures
        d == opcode_table(opcode),
{
    match opcode {
        0 => InstructionData { instruction: Instruction::BRK, addressing_mode: AddressingMode::IMM, cycles: 7 },
        1 => InstructionData { instruction: Instruction::ORA, addressing_mode: AddressingMode::INX, cycles: 6 },
        2 => InstructionData { instruction: Instruction::XXX, addressing_mode: AddressingMode::IMP, cycles: 2 },
        3 => InstructionData { instruction: Instruction::XXX, addressing_mode: AddressingMode::IMP, cycles: 8 },
        4 => InstructionData { instruction: Instruction::XXX, addressing_mode: AddressingMode::IMP, cycles: 3 },
        5 => InstructionData { instruction: Instruction::ORA, addressing_mode: AddressingMode::ZP0, cycles: 3 },
        6 => InstructionData { instruction: Instruction::ASL, addressing_mode: AddressingMode::ZP0, cycles: 5 },
        7 => InstructionData { instruction: Instruction::XXX, addressing_mode: AddressingMode::IMP, cycles: 5 },
        8 => InstructionData { instruction: Instruction::PHP, addressing_mode: AddressingMode::IMP, cycles: 3 },
        9 => InstructionData { instruction: Instruction::ORA, addressing_mode: AddressingMode::IMM, cycles: 2 },
        10 => InstructionData { instruction: Instruction::ASL, addressing_mode: AddressingMode::ACC, cycles: 2 },
        11 => InstructionData { instruction: Instruction::XXX, addressing_mode: AddressingMode::IMP, cycles: 2 },
        12 => InstructionData { instruction: Instruction::XXX, addressing_mode: AddressingMode::IMP, cycles: 4 },
        13 => InstructionData { instruction: Instruction::ORA, addressing_mode: AddressingMode::ABS, cycles: 4 },
        14 => InstructionData { instruction: Instruction::ASL, addressing_mode: AddressingMode::ABS, cycles: 6 },
        15 => InstructionData { instruction: Instruction::XXX, addressing_mode: AddressingMode::IMP, cycles: 6 },
        16 => InstructionData { instruction: Instruction::BPL, addressing_mode: AddressingMode::REL, cycles: 2 },
        17 => InstructionData { instruction: Instruction::ORA, addressing_mode: AddressingMode::INY, cycles: 5 },
        18 => InstructionData { instruction: Instruction::XXX, addressing_mode: AddressingMode::IMP, cycles: 2 },
        19 => InstructionData { instruction: Instruction::XXX, addressing_mode: AddressingMode::IMP, cycles: 8 },
        20 => InstructionData { instruction: Instruction::XXX, addressing_mode: AddressingMode::IMP, cycles: 4 },
        21 => InstructionData { instruction: Instruction::ORA, addressing_mode: AddressingMode::ZPX, cycles: 4 },
        22 => InstructionData { instruction: Instruction::ASL, addressing_mode: AddressingMode::ZPX, cycles: 6 },
        23 => InstructionData { instruction: Instruction::XXX, addressing_mode: AddressingMode::IMP, cycles: 6 },
        24 => InstructionData { instruction: Instruction::CLC, addressing_mode: AddressingMode::IMP, cycles: 2 },
        25 => InstructionData { instruction: Instruction::ORA, addressing_mode: AddressingMode::ABY, cycles: 4 },
        26 => InstructionData { instruction: Instruction::XXX, addressing_mode: AddressingMode::IMP, cycles: 2 },
        27 => InstructionData { instruction: Instruction::XXX, addressing_mode: AddressingMode::IMP, cycles: 7 },
        28 => InstructionData { instruction: Instruction::XXX, addressing_mode: AddressingMode::IMP, cycles: 4 },
        29 => InstructionData { instruction: Instruction::ORA, addressing_mode: AddressingMode::ABX, cycles: 4 },
        30 => InstructionData { instruction: Instruction::ASL, addressing_mode: AddressingMode::ABX, cycles: 7 },
        31 => InstructionData { instruction: Instruction::XXX, addressing_mode: AddressingMode::IMP, cycles: 7 },
        32 => InstructionData { instruction: Instruction::JSR, addressing_mode: AddressingMode::ABS, cycles: 6 },
        33 => InstructionData { instruction: Instruction::AND, addressing_mode: AddressingMode::INX, cycles: 6 },
        34 => InstructionData { instruction: Instruction::XXX, addressing_mode: AddressingMode::IMP, cycles: 2 },
        35 => InstructionData { instruction: Instruction::XXX, addressing_mode: AddressingMode::IMP, cycles: 8 },
        36 => InstructionData { instruction: Instruction::BIT, addressing_mode: AddressingMode::ZP0, cycles: 3 },
        37 => InstructionData { instruction: Instruction::AND, addressing_mode: AddressingMode::ZP0, cycles: 3 },
        38 => InstructionData { instruction: Instruction::ROL, addressing_mode: AddressingMode::ZP0, cycles: 5 },
        39 => InstructionData { instruction: Instruction::XXX, addressing_mode: AddressingMode::IMP, cycles: 5 },
        40 => InstructionData { instruction: Instruction::PLP, addressing_mode: AddressingMode::IMP, cycles: 4 },
        41 => InstructionData { instruction: Instruction::AND, addressing_mode: AddressingMode::IMM, cycles: 2 },
        42 => InstructionData { instruction: Instruction::ROL, addressing_mode: AddressingMode::ACC, cycles: 2 },
        43 => InstructionData { instruction: Instruction::XXX, addressing_mode: AddressingMode::IMP, cycles: 2 },
        44 => InstructionData { instruction: Instruction::BIT, addressing_mode: AddressingMode::ABS, cycles: 4 },
        45 => InstructionData { instruction: Instruction::AND, addressing_mode: AddressingMode::ABS, cycles: 4 },
        46 => InstructionData { instruction: Instruction::ROL, addressing_mode: AddressingMode::ABS, cycles: 6 },
        47 => InstructionData { instruction: Instruction::XXX, addressing_mode: AddressingMode::IMP, cycles: 6 },
        48 => InstructionData { instruction: Instruction::BMI, addressing_mode: AddressingMode::REL, cycles: 2 },
        49 => InstructionData { instruction: Instruction::AND, addressing_mode: AddressingMode::INY, cycles: 5 },
        50 => InstructionData { instruction: Instruction::XXX, addressing_mode: AddressingMode::IMP, cycles: 2 },
        51 => InstructionData { instruction: Instruction::XXX, addressing_mode: AddressingMode::IMP, cycles: 8 },
        52 => InstructionData { instruction: Instruction::XXX, addressing_mode: AddressingMode::IMP, cycles: 4 },
        53 => InstructionData { instruction: Instruction::AND, addressing_mode: AddressingMode::ZPX, cycles: 4 },
        54 => InstructionData { instruction: Instruction::ROL, addressing_mode: AddressingMode::ZPX, cycles: 6 },
        55 => InstructionData { instruction: Instruction::XXX, addressing_mode: AddressingMode::IMP, cycles: 6 },
        56 => InstructionData { instruction: Instruction::SEC, addressing_mode: AddressingMode::IMP, cycles: 2 },
        57 => InstructionData { instruction: Instruction::AND, addressing_mode: AddressingMode::ABY, cycles: 4 },
        58 => InstructionData { instruction: Instruction::XXX, addressing_mode: AddressingMode::IMP, cycles: 2 },
        59 => InstructionData { instruction: Instruction::XXX, addressing_mode: AddressingMode::IMP, cycles: 7 },
        60 => InstructionData { instruction: Instruction::XXX, addressing_mode: AddressingMode::IMP, cycles: 4 },
        61 => InstructionData { instruction: Instruction::AND, addressing_mode: AddressingMode::ABX, cycles: 4 },
        62 => InstructionData { instruction: Instruction::ROL, addressing_mode: AddressingMode::ABX, cycles: 7 },
        63 => InstructionData { instruction: Instruction::XXX, addressing_mode: AddressingMode::IMP, cycles: 7 },
        64 => InstructionData { instruction: Instruction::RTI, addressing_mode: AddressingMode::IMP, cycles: 6 },
        65 => InstructionData { instruction: Instruction::EOR, addressing_mode: AddressingMode::INX, cycles: 6 },
        66 => InstructionData { instruction: Instruction::XXX, addressing_mode: AddressingMode::IMP, cycles: 2 },
        67 => InstructionData { instruction: Instruction::XXX, addressing_mode: AddressingMode::IMP, cycles: 8 },
        68 => InstructionData { instruction: Instruction::XXX, addressing_mode: AddressingMode::IMP, cycles: 3 },
        69 => InstructionData { instruction: Instruction::EOR, addressing_mode: AddressingMode::ZP0, cycles: 3 },
        70 => InstructionData { instruction: Instruction::LSR, addressing_mode: AddressingMode::ZP0, cycles: 5 },
        71 => InstructionData { instruction: Instruction::XXX, addressing_mode: AddressingMode::IMP, cycles: 5 },
        72 => InstructionData { instruction: Instruction::PHA, addressing_mode: AddressingMode::IMP, cycles: 3 },
        73 => InstructionData { instruction: Instruction::EOR, addressing_mode: AddressingMode::IMM, cycles: 2 },
        74 => InstructionData { instruction: Instruction::LSR, addressing_mode: AddressingMode::ACC, cycles: 2 },
        75 => InstructionData { instruction: Instruction::XXX, addressing_mode: AddressingMode::IMP, cycles: 2 },
        76 => InstructionData { instruction: Instruction::JMP, addressing_mode: AddressingMode::ABS, cycles: 3 },
        77 => InstructionData { instruction: Instruction::EOR, addressing_mode: AddressingMode::ABS, cycles: 4 },
        78 => InstructionData { instruction: Instruction::LSR, addressing_mode: AddressingMode::ABS, cycles: 6 },
        79 => InstructionData { instruction: Instruction::XXX, addressing_mode: AddressingMode::IMP, cycles: 6 },
        80 => InstructionData { instruction: Instruction::BVC, addressing_mode: AddressingMode::REL, cycles: 2 },
        81 => InstructionData { instruction: Instruction::EOR, addressing_mode: AddressingMode::INY, cycles: 5 },
        82 => InstructionData { instruction: Instruction::XXX, addressing_mode: AddressingMode::IMP, cycles: 2 },
        83 => InstructionData { instruction: Instruction::XXX, addressing_mode: AddressingMode::IMP, cycles: 8 },
        84 => InstructionData { instruction: Instruction::XXX, addressing_mode: AddressingMode::IMP, cycles: 4 },
        85 => InstructionData { instruction: Instruction::EOR, addressing_mode: AddressingMode::ZPX, cycles: 4 },
        86 => InstructionData { instruction: Instruction::LSR, addressing_mode: AddressingMode::ZPX, cycles: 6 },
        87 => InstructionData { instruction: Instruction::XXX, addressing_mode: AddressingMode::IMP, cycles: 6 },
        88 => InstructionData { instruction: Instruction::CLI, addressing_mode: AddressingMode::IMP, cycles: 2 },
        89 => InstructionData { instruction: Instruction::EOR, addressing_mode: AddressingMode::ABY, cycles: 4 },
        90 => InstructionData { instruction: Instruction::XXX, addressing_mode: AddressingMode::IMP, cycles: 2 },
        91 => InstructionData { instruction: Instruction::XXX, addressing_mode: AddressingMode::IMP, cycles: 7 },
        92 => InstructionData { instruction: Instruction::XXX, addressing_mode: AddressingMode::IMP, cycles: 4 },
        93 => InstructionData { instruction: Instruction::EOR, addressing_mode: AddressingMode::ABX, cycles: 4 },
        94 => InstructionData { instruction: Instruction::LSR, addressing_mode: AddressingMode::ABX, cycles: 7 },
        95 => InstructionData { instruction: Instruction::XXX, addressing_mode: AddressingMode::IMP, cycles: 7 },
        96 => InstructionData { instruction: Instruction::RTS, addressing_mode: AddressingMode::IMP, cycles: 6 },
        97 => InstructionData { instruction: Instruction::ADC, addressing_mode: AddressingMode::INX, cycles: 6 },
        98 => InstructionData { instruction: Instruction::XXX, addressing_mode: AddressingMode::IMP, cycles: 2 },
        99 => InstructionData { instruction: Instruction::XXX, addressing_mode: AddressingMode::IMP, cycles: 8 },
        100 => InstructionData { instruction: Instruction::XXX, addressing_mode: AddressingMode::IMP, cycles: 3 },
        101 => InstructionData { instruction: Instruction::ADC, addressing_mode: AddressingMode::ZP0, cycles: 3 },
        102 => InstructionData { instruction: Instruction::ROR, addressing_mode: AddressingMode::ZP0, cycles: 5 },
        103 => InstructionData { instruction: Instruction::XXX, addressing_mode: AddressingMode::IMP, cycles: 5 },
        104 => InstructionData { instruction: Instruction::PLA, addressing_mode: AddressingMode::IMP, cycles: 4 },
        105 => InstructionData { instruction: Instruction::ADC, addressing_mode: AddressingMode::IMM, cycles: 2 },
        106 => InstructionData { instruction: Instruction::ROR, addressing_mode: AddressingMode::ACC, cycles: 2 },
        107 => InstructionData { instruction: Instruction::XXX, addressing_mode: AddressingMode::IMP, cycles: 2 },
        108 => InstructionData { instruction: Instruction::JMP, addressing_mode: AddressingMode::IND, cycles: 5 },
        109 => InstructionData { instruction: Instruction::ADC, addressing_mode: AddressingMode::ABS, cycles: 4 },
        110 => InstructionData { instruction: Instruction::ROR, addressing_mode: AddressingMode::ABS, cycles: 6 },
        111 => InstructionData { instruction: Instruction::XXX, addressing_mode: AddressingMode::IMP, cycles: 6 },
        112 => InstructionData { instruction: Instruction::BVS, addressing_mode: AddressingMode::REL, cycles: 2 },
        113 => InstructionData { instruction: Instruction::ADC, addressing_mode: AddressingMode::INY, cycles: 5 },
        114 => InstructionData { instruction: Instruction::XXX, addressing_mode: AddressingMode::IMP, cycles: 2 },
        115 => InstructionData { instruction: Instruction::XXX, addressing_mode: AddressingMode::IMP, cycles: 8 },
        116 => InstructionData { instruction: Instruction::XXX, addressing_mode: AddressingMode::IMP, cycles: 4 },
        117 => InstructionData { instruction: Instruction::ADC, addressing_mode: AddressingMode::ZPX, cycles: 4 },
        118 => InstructionData { instruction: Instruction::ROR, addressing_mode: AddressingMode::ZPX, cycles: 6 },
        119 => InstructionData { instruction: Instruction::XXX, addressing_mode: AddressingMode::IMP, cycles: 6 },
        120 => InstructionData { instruction: Instruction::SEI, addressing_mode: AddressingMode::IMP, cycles: 2 },
        121 => InstructionData { instruction: Instruction::ADC, addressing_mode: AddressingMode::ABY, cycles: 4 },
        122 => InstructionData { instruction: Instruction::XXX, addressing_mode: AddressingMode::IMP, cycles: 2 },
        123 => InstructionData { instruction: Instruction::XXX, addressing_mode: AddressingMode::IMP, cycles: 7 },
        124 => InstructionData { instruction: Instruction::XXX, addressing_mode: AddressingMode::IMP, cycles: 4 },
        125 => InstructionData { instruction: Instruction::ADC, addressing_mode: AddressingMode::ABX, cycles: 4 },
        126 => InstructionData { instruction: Instruction::ROR, addressing_mode: AddressingMode::ABX, cycles: 7 },
        127 => InstructionData { instruction: Instruction::XXX, addressing_mode: AddressingMode::IMP, cycles: 7 },
        128 => InstructionData { instruction: Instruction::XXX, addressing_mode: AddressingMode::IMP, cycles: 2 },
        129 => InstructionData { instruction: Instruction::STA, addressing_mode: AddressingMode::INX, cycles: 6 },
        130 => InstructionData { instruction: Instruction::XXX, addressing_mode: AddressingMode::IMP, cycles: 2 },
        131 => InstructionData { instruction: Instruction::XXX, addressing_mode: AddressingMode::IMP, cycles: 6 },
        132 => InstructionData { instruction: Instruction::STY, addressing_mode: AddressingMode::ZP0, cycles: 3 },
        133 => InstructionData { instruction: Instruction::STA, addressing_mode: AddressingMode::ZP0, cycles: 3 },
        134 => InstructionData { instruction: Instruction::STX, addressing_mode: AddressingMode::ZP0, cycles: 3 },
        135 => InstructionData { instruction: Instruction::XXX, addressing_mode: AddressingMode::IMP, cycles: 3 },
        136 => InstructionData { instruction: Instruction::DEY, addressing_mode: AddressingMode::IMP, cycles: 2 },
        137 => InstructionData { instruction: Instruction::XXX, addressing_mode: AddressingMode::IMP, cycles: 2 },
        138 => InstructionData { instruction: Instruction::TXA, addressing_mode: AddressingMode::IMP, cycles: 2 },
        139 => InstructionData { instruction: Instruction::XXX, addressing_mode: AddressingMode::IMP, cycles: 2 },
        140 => InstructionData { instruction: Instruction::STY, addressing_mode: AddressingMode::ABS, cycles: 4 },
        141 => InstructionData { instruction: Instruction::STA, addressing_mode: AddressingMode::ABS, cycles: 4 },
        142 => InstructionData { instruction: Instruction::STX, addressing_mode: AddressingMode::ABS, cycles: 4 },
        143 => InstructionData { instruction: Instruction::XXX, addressing_mode: AddressingMode::IMP, cycles: 4 },
        144 => InstructionData { instruction: Instruction::BCC, addressing_mode: AddressingMode::REL, cycles: 2 },
        145 => InstructionData { instruction: Instruction::STA, addressing_mode: AddressingMode::INY, cycles: 6 },
        146 => InstructionData { instruction: Instruction::XXX, addressing_mode: AddressingMode::IMP, cycles: 2 },
        147 => InstructionData { instruction: Instruction::XXX, addressing_mode: AddressingMode::IMP, cycles: 6 },
        148 => InstructionData { instruction: Instruction::STY, addressing_mode: AddressingMode::ZPX, cycles: 4 },
        149 => InstructionData { instruction: Instruction::STA, addressing_mode: AddressingMode::ZPX, cycles: 4 },
        150 => InstructionData { instruction: Instruction::STX, addressing_mode: AddressingMode::ZPY, cycles: 4 },
        151 => InstructionData { instruction: Instruction::XXX, addressing_mode: AddressingMode::IMP, cycles: 4 },
        152 => InstructionData { instruction: Instruction::TYA, addressing_mode: AddressingMode::IMP, cycles: 2 },
        153 => InstructionData { instruction: Instruction::STA, addressing_mode: AddressingMode::ABY, cycles: 5 },
        154 => InstructionData { instruction: Instruction::TXS, addressing_mode: AddressingMode::IMP, cycles: 2 },
        155 => InstructionData { instruction: Instruction::XXX, addressing_mode: AddressingMode::IMP, cycles: 5 },
        156 => InstructionData { instruction: Instruction::XXX, addressing_mode: AddressingMode::IMP, cycles: 5 },
        157 => InstructionData { instruction: Instruction::STA, addressing_mode: AddressingMode::ABX, cycles: 5 },
        158 => InstructionData { instruction: Instruction::XXX, addressing_mode: AddressingMode::IMP, cycles: 5 },
        159 => InstructionData { instruction: Instruction::XXX, addressing_mode: AddressingMode::IMP, cycles: 5 },
        160 => InstructionData { instruction: Instruction::LDY, addressing_mode: AddressingMode::IMM, cycles: 2 },
        161 => InstructionData { instruction: Instruction::LDA, addressing_mode: AddressingMode::INX, cycles: 6 },
        162 => InstructionData { instruction: Instruction::LDX, addressing_mode: AddressingMode::IMM, cycles: 2 },
        163 => InstructionData { instruction: Instruction::XXX, addressing_mode: AddressingMode::IMP, cycles: 6 },
        164 => InstructionData { instruction: Instruction::LDY, addressing_mode: AddressingMode::ZP0, cycles: 3 },
        165 => InstructionData { instruction: Instruction::LDA, addressing_mode: AddressingMode::ZP0, cycles: 3 },
        166 => InstructionData { instruction: Instruction::LDX, addressing_mode: AddressingMode::ZP0, cycles: 3 },
        167 => InstructionData { instruction: Instruction::XXX, addressing_mode: AddressingMode::IMP, cycles: 3 },
        168 => InstructionData { instruction: Instruction::TAY, addressing_mode: AddressingMode::IMP, cycles: 2 },
        169 => InstructionData { instruction: Instruction::LDA, addressing_mode: AddressingMode::IMM, cycles: 2 },
        170 => InstructionData { instruction: Instruction::TAX, addressing_mode: AddressingMode::IMP, cycles: 2 },
        171 => InstructionData { instruction: Instruction::XXX, addressing_mode: AddressingMode::IMP, cycles: 2 },
        172 => InstructionData { instruction: Instruction::LDY, addressing_mode: AddressingMode::ABS, cycles: 4 },
        173 => InstructionData { instruction: Instruction::LDA, addressing_mode: AddressingMode::ABS, cycles: 4 },
        174 => InstructionData { instruction: Instruction::LDX, addressing_mode: AddressingMode::ABS, cycles: 4 },
        175 => InstructionData { instruction: Instruction::XXX, addressing_mode: AddressingMode::IMP, cycles: 4 },
        176 => InstructionData { instruction: Instruction::BCS, addressing_mode: AddressingMode::REL, cycles: 2 },
        177 => InstructionData { instruction: Instruction::LDA, addressing_mode: AddressingMode::INY, cycles: 5 },
        178 => InstructionData { instruction: Instruction::XXX, addressing_mode: AddressingMode::IMP, cycles: 2 },
        179 => InstructionData { instruction: Instruction::XXX, addressing_mode: AddressingMode::IMP, cycles: 5 },
        180 => InstructionData { instruction: Instruction::LDY, addressing_mode: AddressingMode::ZPX, cycles: 4 },
        181 => InstructionData { instruction: Instruction::LDA, addressing_mode: AddressingMode::ZPX, cycles: 4 },
        182 => InstructionData { instruction: Instruction::LDX, addressing_mode: AddressingMode::ZPY, cycles: 4 },
        183 => InstructionData { instruction: Instruction::XXX, addressing_mode: AddressingMode::IMP, cycles: 4 },
        184 => InstructionData { instruction: Instruction::CLV, addressing_mode: AddressingMode::IMP, cycles: 2 },
        185 => InstructionData { instruction: Instruction::LDA, addressing_mode: AddressingMode::ABY, cycles: 4 },
        186 => InstructionData { instruction: Instruction::TSX, addressing_mode: AddressingMode::IMP, cycles: 2 },
        187 => InstructionData { instruction: Instruction::XXX, addressing_mode: AddressingMode::IMP, cycles: 4 },
        188 => InstructionData { instruction: Instruction::LDY, addressing_mode: AddressingMode::ABX, cycles: 4 },
        189 => InstructionData { instruction: Instruction::LDA, addressing_mode: AddressingMode::ABX, cycles: 4 },
        190 => InstructionData { instruction: Instruction::LDX, addressing_mode: AddressingMode::ABY, cycles: 4 },
        191 => InstructionData { instruction: Instruction::XXX, addressing_mode: AddressingMode::IMP, cycles: 4 },
        192 => InstructionData { instruction: Instruction::CPY, addressing_mode: AddressingMode::IMM, cycles: 2 },
        193 => InstructionData { instruction: Instruction::CMP, addressing_mode: AddressingMode::INX, cycles: 6 },
        194 => InstructionData { instruction: Instruction::XXX, addressing_mode: AddressingMode::IMP, cycles: 2 },
        195 => InstructionData { instruction: Instruction::XXX, addressing_mode: AddressingMode::IMP, cycles: 8 },
        196 => InstructionData { instruction: Instruction::CPY, addressing_mode: AddressingMode::ZP0, cycles: 3 },
        197 => InstructionData { instruction: Instruction::CMP, addressing_mode: AddressingMode::ZP0, cycles: 3 },
        198 => InstructionData { instruction: Instruction::DEC, addressing_mode: AddressingMode::ZP0, cycles: 5 },
        199 => InstructionData { instruction: Instruction::XXX, addressing_mode: AddressingMode::IMP, cycles: 5 },
        200 => InstructionData { instruction: Instruction::INY, addressing_mode: AddressingMode::IMP, cycles: 2 },
        201 => InstructionData { instruction: Instruction::CMP, addressing_mode: AddressingMode::IMM, cycles: 2 },
        202 => InstructionData { instruction: Instruction::DEX, addressing_mode: AddressingMode::IMP, cycles: 2 },
        203 => InstructionData { instruction: Instruction::XXX, addressing_mode: AddressingMode::IMP, cycles: 2 },
        204 => InstructionData { instruction: Instruction::CPY, addressing_mode: AddressingMode::ABS, cycles: 4 },
        205 => InstructionData { instruction: Instruction::CMP, addressing_mode: AddressingMode::ABS, cycles: 4 },
        206 => InstructionData { instruction: Instruction::DEC, addressing_mode: AddressingMode::ABS, cycles: 6 },
        207 => InstructionData { instruction: Instruction::XXX, addressing_mode: AddressingMode::IMP, cycles: 6 },
        208 => InstructionData { instruction: Instruction::BNE, addressing_mode: AddressingMode::REL, cycles: 2 },
        209 => InstructionData { instruction: Instruction::CMP, addressing_mode: AddressingMode::INY, cycles: 5 },
        210 => InstructionData { instruction: Instruction::XXX, addressing_mode: AddressingMode::IMP, cycles: 2 },
        211 => InstructionData { instruction: Instruction::XXX, addressing_mode: AddressingMode::IMP, cycles: 8 },
        212 => InstructionData { instruction: Instruction::XXX, addressing_mode: AddressingMode::IMP, cycles: 4 },
        213 => InstructionData { instruction: Instruction::CMP, addressing_mode: AddressingMode::ZPX, cycles: 4 },
        214 => InstructionData { instruction: Instruction::DEC, addressing_mode: AddressingMode::ZPX, cycles: 6 },
        215 => InstructionData { instruction: Instruction::XXX, addressing_mode: AddressingMode::IMP, cycles: 6 },
        216 => InstructionData { instruction: Instruction::CLD, addressing_mode: AddressingMode::IMP, cycles: 2 },
        217 => InstructionData { instruction: Instruction::CMP, addressing_mode: AddressingMode::ABY, cycles: 4 },
        218 => InstructionData { instruction: Instruction::NOP, addressing_mode: AddressingMode::IMP, cycles: 2 },
        219 => InstructionData { instruction: Instruction::XXX, addressing_mode: AddressingMode::IMP, cycles: 7 },
        220 => InstructionData { instruction: Instruction::XXX, addressing_mode: AddressingMode::IMP, cycles: 4 },
        221 => InstructionData { instruction: Instruction::CMP, addressing_mode: AddressingMode::ABX, cycles: 4 },
        222 => InstructionData { instruction: Instruction::DEC, addressing_mode: AddressingMode::ABX, cycles: 7 },
        223 => InstructionData { instruction: Instruction::XXX, addressing_mode: AddressingMode::IMP, cycles: 7 },
        224 => InstructionData { instruction: Instruction::CPX, addressing_mode: AddressingMode::IMM, cycles: 2 },
        225 => InstructionData { instruction: Instruction::SBC, addressing_mode: AddressingMode::INX, cycles: 6 },
        226 => InstructionData { instruction: Instruction::XXX, addressing_mode: AddressingMode::IMP, cycles: 2 },
        227 => InstructionData { instruction: Instruction::XXX, addressing_mode: AddressingMode::IMP, cycles: 8 },
        228 => InstructionData { instruction: Instruction::CPX, addressing_mode: AddressingMode::ZP0, cycles: 3 },
        229 => InstructionData { instruction: Instruction::SBC, addressing_mode: AddressingMode::ZP0, cycles: 3 },
        230 => InstructionData { instruction: Instruction::INC, addressing_mode: AddressingMode::ZP0, cycles: 5 },
        231 => InstructionData { instruction: Instruction::XXX, addressing_mode: AddressingMode::IMP, cycles: 5 },
        232 => InstructionData { instruction: Instruction::INX, addressing_mode: AddressingMode::IMP, cycles: 2 },
        233 => InstructionData { instruction: Instruction::SBC, addressing_mode: AddressingMode::IMM, cycles: 2 },
        234 => InstructionData { instruction: Instruction::NOP, addressing_mode: AddressingMode::IMP, cycles: 2 },
        235 => InstructionData { instruction: Instruction::XXX, addressing_mode: AddressingMode::IMP, cycles: 2 },
        236 => InstructionData { instruction: Instruction::CPX, addressing_mode: AddressingMode::ABS, cycles: 4 },
        237 => InstructionData { instruction: Instruction::SBC, addressing_mode: AddressingMode::ABS, cycles: 4 },
        238 => InstructionData { instruction: Instruction::INC, addressing_mode: AddressingMode::ABS, cycles: 6 },
        239 => InstructionData { instruction: Instruction::XXX, addressing_mode: AddressingMode::IMP, cycles: 6 },
        240 => InstructionData { instruction: Instruction::BEQ, addressing_mode: AddressingMode::REL, cycles: 2 },
        241 => InstructionData { instruction: Instruction::SBC, addressing_mode: AddressingMode::INY, cycles: 5 },
        242 => InstructionData { instruction: Instruction::XXX, addressing_mode: AddressingMode::IMP, cycles: 2 },
        243 => InstructionData { instruction: Instruction::XXX, addressing_mode: AddressingMode::IMP, cycles: 8 },
        244 => InstructionData { instruction: Instruction::XXX, addressing_mode: AddressingMode::IMP, cycles: 4 },
        245 => InstructionData { instruction: Instruction::SBC, addressing_mode: AddressingMode::ZPX, cycles: 4 },
        246 => InstructionData { instruction: Instruction::INC, addressing_mode: AddressingMode::ZPX, cycles: 6 },
        247 => InstructionData { instruction: Instruction::XXX, addressing_mode: AddressingMode::IMP, cycles: 6 },
        248 => InstructionData { instruction: Instruction::SED, addressing_mode: AddressingMode::IMP, cycles: 2 },
        249 => InstructionData { instruction: Instruction::SBC, addressing_mode: AddressingMode::ABY, cycles: 4 },
        250 => InstructionData { instruction: Instruction::NOP, addressing_mode: AddressingMode::IMP, cycles: 2 },
        251 => InstructionData { instruction: Instruction::XXX, addressing_mode: AddressingMode::IMP, cycles: 7 },
        252 => InstructionData { instruction: Instruction::XXX, addressing_mode: AddressingMode::IMP, cycles: 4 },
        253 => InstructionData { instruction: Instruction::SBC, addressing_mode: AddressingMode::ABX, cycles: 4 },
        254 => InstructionData { instruction: Instruction::INC, addressing_mode: AddressingMode::ABX, cycles: 7 },
        _ => InstructionData { instruction: Instruction::XXX, addressing_mode: AddressingMode::IMP, cycles: 7 },
    }
}


/// The value (0 or 1) that a flag takes for a condition.
pub open spec fn flag_bit(b: bool) -> u8 {
    if b {
        1
    } else {
        0
    }
}

/// A byte read as a two's-complement number.
pub open spec fn signed8(v: u8) -> int {
    if v < 128 {
        v as int
    } else {
        v - 256
    }
}

/// Whether a number lies outside the range of a signed byte.
pub open spec fn signed_overflow(v: int) -> bool {
    v < -128 || 127 < v
}

/// The abstract state of the CPU and its bus. `fault` records that an access
/// was made that the hardware model does not define (a read of a write-only
/// PPU register, a write nowhere, or a missing program byte); the CPU's
/// operations are only ever run where no fault arises.
#[verifier::ext_equal]
pub struct CpuView {
    pub bus: BusView,
    pub flags: u8,
    pub regs: Registers,
    pub remaining: u8,
    pub needs_additional_cycle: bool,
    pub abs: u16,
    pub rel: i8,
    pub fault: bool,
}

impl CpuView {
    pub open spec fn set_regs(self, regs: Registers) -> CpuView {
        CpuView { regs, ..self }
    }

    pub open spec fn set_a(self, v: u8) -> CpuView {
        self.set_regs(Registers { a: v, ..self.regs })
    }

    pub open spec fn set_x(self, v: u8) -> CpuView {
        self.set_regs(Registers { x: v, ..self.regs })
    }

    pub open spec fn set_y(self, v: u8) -> CpuView {
        self.set_regs(Registers { y: v, ..self.regs })
    }

    pub open spec fn set_sp(self, v: u8) -> CpuView {
        self.set_regs(Registers { sp: v, ..self.regs })
    }

    pub open spec fn set_pc(self, v: u16) -> CpuView {
        self.set_regs(Registers { pc: v, ..self.regs })
    }

    /// Sets status bit `bit` to the value of `b`.
    pub open spec fn set_flag(self, bit: u8, b: bool) -> CpuView {
        CpuView { flags: with_bit8(self.flags, bit, flag_bit(b)), ..self }
    }

    /// Sets the zero flag (bit 1) and the negative flag (bit 7) from `v`.
    pub open spec fn set_zn(self, v: u8) -> CpuView {
        self.set_flag(1, v == 0).set_flag(7, v & 0x80 != 0)
    }

    pub open spec fn carry(self) -> u8 {
        bit8(self.flags, 0)
    }

    /// A read of the bus.
    pub open spec fn read_byte(self, addr: u16) -> (u8, CpuView) {
        (
            self.bus.read(addr).0,
            CpuView {
                bus: self.bus.read(addr).1,
                fault: self.fault || !self.bus.readable(addr),
                ..self
            },
        )
    }

    /// A little-endian read of two bytes at `addr` and `addr + 1`.
    pub open spec fn read_word(self, addr: u16) -> (u16, CpuView) {
        let (lo, s1) = self.read_byte(addr);
        let (hi, s2) = s1.read_byte(u16_specs::wrapping_add(addr, 1));
        ((hi as int * 256 + lo as int) as u16, s2)
    }

    /// A little-endian pointer read from the zero page: its high byte comes
    /// from the next zero-page byte, 0x00 after 0xFF.
    pub open spec fn read_zp_word(self, ptr: u8) -> (u16, CpuView) {
        let (lo, s1) = self.read_byte(ptr as u16);
        let (hi, s2) = s1.read_byte(u8_specs::wrapping_add(ptr, 1) as u16);
        ((hi as int * 256 + lo as int) as u16, s2)
    }

    /// A write of the bus whose result the CPU insists on: it must reach a
    /// device.
    pub open spec fn write_checked(self, addr: u16, data: u8) -> CpuView {
        CpuView {
            bus: self.bus.write(addr, data),
            fault: self.fault || !(self.bus.writable(addr) && (addr == DMA_ADDR || self.bus.mapped(
                addr,
            ))),
            ..self
        }
    }

    /// A write of the bus whose result the CPU ignores.
    pub open spec fn write_unchecked(self, addr: u16, data: u8) -> CpuView {
        CpuView {
            bus: self.bus.write(addr, data),
            fault: self.fault || !self.bus.writable(addr),
            ..self
        }
    }

    /// Pushes a byte at 0x100 + SP; SP moves down.
    pub open spec fn push(self, data: u8) -> CpuView {
        let s = self.write_checked((0x100 + self.regs.sp) as u16, data);
        s.set_sp(u8_specs::wrapping_sub(s.regs.sp, 1))
    }

    /// The byte at the program counter; the counter moves on.
    pub open spec fn fetch_byte(self) -> (u8, CpuView) {
        let (v, s) = self.read_byte(self.regs.pc);
        (v, s.set_pc(u16_specs::wrapping_add(s.regs.pc, 1)))
    }

    /// The little-endian word at the program counter; the counter moves on by
    /// two.
    pub open spec fn fetch_word(self) -> (u16, CpuView) {
        let (v, s) = self.read_word(self.regs.pc);
        (v, s.set_pc(u16_specs::wrapping_add(s.regs.pc, 2)))
    }

    /// The effect of an addressing mode: it reads its operand bytes after the
    /// opcode and leaves the operand's address in `abs` (or the branch offset
    /// in `rel`). Indexing by X or Y after an absolute address or a zero-page
    /// pointer adds a cycle when it crosses a page.
    #[verifier::opaque]
    pub open spec fn addressing(self, mode: AddressingMode) -> CpuView {
        match mode {
            AddressingMode::ACC => self,
            AddressingMode::IMP => self,
            AddressingMode::IMM => CpuView { abs: self.regs.pc, ..self }.set_pc(
                u16_specs::wrapping_add(self.regs.pc, 1),
            ),
            AddressingMode::ABS => {
                let (w, s) = self.fetch_word();
                CpuView { abs: w, ..s }
            },
            AddressingMode::ZP0 => {
                let (lo, s) = self.fetch_byte();
                CpuView { abs: lo as u16, ..s }
            },
            AddressingMode::ZPX => {
                let (lo, s) = self.fetch_byte();
                CpuView { abs: u8_specs::wrapping_add(lo, self.regs.x) as u16, ..s }
            },
            AddressingMode::ZPY => {
                let (lo, s) = self.fetch_byte();
                CpuView { abs: u8_specs::wrapping_add(lo, self.regs.y) as u16, ..s }
            },
            AddressingMode::ABX => {
                let (w, s) = self.fetch_word();
                let a = u16_specs::wrapping_add(w, self.regs.x as u16);
                CpuView {
                    abs: a,
                    remaining: if (a & 0xFF00) != (w & 0xFF00) {
                        (s.remaining + 1) as u8
                    } else {
                        s.remaining
                    },
                    ..s
                }
            },
            AddressingMode::ABY => {
                let (w, s) = self.fetch_word();
                let a = u16_specs::wrapping_add(w, self.regs.y as u16);
                CpuView {
                    abs: a,
                    remaining: if (a & 0xFF00) != (w & 0xFF00) {
                        (s.remaining + 1) as u8
                    } else {
                        s.remaining
                    },
                    ..s
                }
            },
            AddressingMode::REL => {
                let (r, s) = self.fetch_byte();
                CpuView { rel: r as i8, ..s }
            },
            AddressingMode::INX => {
                let (z, s) = self.fetch_byte();
                let (w, s2) = s.read_zp_word(u8_specs::wrapping_add(z, self.regs.x));
                CpuView { abs: w, ..s2 }
            },
            AddressingMode::INY => {
                let (z, s) = self.fetch_byte();
                let (w, s2) = s.read_zp_word(z);
                let a = u16_specs::wrapping_add(w, self.regs.y as u16);
                CpuView {
                    abs: a,
                    remaining: if (a & 0xFF00) != (w & 0xFF00) {
                        (s2.remaining + 1) as u8
                    } else {
                        s2.remaining
                    },
                    ..s2
                }
            },
            AddressingMode::IND => {
                // The page-wrap bug of the 6502: a pointer at xxFF takes its
                // high byte from xx00.
                let (p, s) = self.fetch_word();
                let (lo, s2) = s.read_byte(p);
                let (hi, s3) = if p & 0x00FF == 0x00FF {
                    s2.read_byte(p & 0xFF00)
                } else {
                    s2.read_byte((p + 1) as u16)
                };
                CpuView { abs: (hi as int * 256 + lo as int) as u16, ..s3 }
            },
        }
    }

    /// The operand of a read-modify-write instruction: the accumulator in
    /// accumulator (or implied) mode, the byte at `abs` otherwise.
    pub open spec fn rmw_operand(self, mode: AddressingMode) -> (u8, CpuView) {
        if mode == AddressingMode::ACC || mode == AddressingMode::IMP {
            (self.regs.a, self)
        } else {
            self.read_byte(self.abs)
        }
    }

    /// Stores the result of a read-modify-write instruction where its operand
    /// came from.
    pub open spec fn rmw_store(self, mode: AddressingMode, v: u8) -> CpuView {
        if mode == AddressingMode::ACC || mode == AddressingMode::IMP {
            self.set_a(v)
        } else {
            self.write_checked(self.abs, v)
        }
    }

    /// A taken branch costs a cycle, and another when the target lies on
    /// another page than the program counter.
    pub open spec fn branch(self, cond: bool) -> CpuView {
        if cond {
            let target = u16_specs::wrapping_add(self.regs.pc, self.rel as i16 as u16);
            let extra: int = if (target & 0xFF00) != (self.regs.pc & 0xFF00) {
                2
            } else {
                1
            };
            CpuView { remaining: (self.remaining + extra) as u8, abs: target, ..self }.set_pc(
                target,
            )
        } else {
            self
        }
    }

    /// Addition with carry: the carry flag is set when the unsigned sum passes
    /// 0xFF, the overflow flag when the signed sum leaves -128..127.
    pub open spec fn op_adc(self) -> CpuView {
        let (m, s) = self.read_byte(self.abs);
        let c = self.carry() as int;
        let sum = self.regs.a + m + c;
        let r = (sum % 256) as u8;
        s.set_flag(0, sum > 255).set_flag(1, r == 0).set_flag(7, r >= 128).set_flag(
            6,
            signed_overflow(signed8(self.regs.a) + signed8(m) + c),
        ).set_a(r)
    }

    /// Subtraction with borrow, the borrow being a clear carry: the carry
    /// flag is set when the difference needs no borrow, the overflow flag
    /// when the signed difference leaves -128..127.
    pub open spec fn op_sbc(self) -> CpuView {
        let (m, s) = self.read_byte(self.abs);
        let b = 1 - self.carry() as int;
        let diff = self.regs.a - m - b;
        let r = (diff % 256) as u8;
        s.set_flag(0, diff >= 0).set_flag(1, r == 0).set_flag(7, r >= 128).set_flag(
            6,
            signed_overflow(signed8(self.regs.a) - signed8(m) - b),
        ).set_a(r)
    }

    /// AND with the accumulator; zero and negative flags from the result.
    pub open spec fn op_and(self) -> CpuView {
        let (m, s) = self.read_byte(self.abs);
        let v = self.regs.a & m;
        s.set_a(v).set_zn(v)
    }

    pub open spec fn op_eor(self) -> CpuView {
        let (m, s) = self.read_byte(self.abs);
        let v = self.regs.a ^ m;
        s.set_a(v).set_zn(v)
    }

    pub open spec fn op_ora(self) -> CpuView {
        let (m, s) = self.read_byte(self.abs);
        let v = self.regs.a | m;
        s.set_a(v).set_zn(v)
    }

    /// Shift left; bit 7 goes to the carry.
    pub open spec fn op_asl(self, mode: AddressingMode) -> CpuView {
        let (m, s) = self.rmw_operand(mode);
        let r = ((m as u16) << 1u16) as u16;
        s.set_flag(0, r & 0xFF00 != 0).set_flag(1, r & 0xFF == 0).set_flag(7, r & 0x80 != 0).rmw_store(
            mode,
            (r & 0xFF) as u8,
        )
    }

    /// Shift right; bit 0 goes to the carry.
    pub open spec fn op_lsr(self, mode: AddressingMode) -> CpuView {
        let (m, s) = self.rmw_operand(mode);
        let r = ((m as u16) >> 1u16) as u16;
        s.set_flag(0, m & 0x01 != 0).set_flag(1, r & 0xFF == 0).set_flag(7, r & 0x80 != 0).rmw_store(
            mode,
            (r & 0xFF) as u8,
        )
    }

    /// Rotate left through the carry.
    pub open spec fn op_rol(self, mode: AddressingMode) -> CpuView {
        let (m, s) = self.rmw_operand(mode);
        let r = (((m as u16) << 1u16) | (self.carry() as u16)) as u16;
        s.set_flag(0, r & 0xFF00 != 0).set_flag(1, r & 0xFF == 0).set_flag(7, r & 0x80 != 0).rmw_store(
            mode,
            (r & 0xFF) as u8,
        )
    }

    /// Rotate right through the carry: the carry goes to bit 7, bit 0 to the
    /// carry.
    pub open spec fn op_ror(self, mode: AddressingMode) -> CpuView {
        let (m, s) = self.rmw_operand(mode);
        let r = (((self.carry() as u16) << 7u16) | ((m as u16) >> 1u16)) as u16;
        s.set_flag(0, m & 0x01 != 0).set_flag(1, r & 0xFF == 0).set_flag(7, r & 0x80 != 0).rmw_store(
            mode,
            (r & 0xFF) as u8,
        )
    }

    /// BIT: zero from A AND the operand, negative and overflow from bits 7
    /// and 6 of the operand.
    pub open spec fn op_bit(self) -> CpuView {
        let (m, s) = self.read_byte(self.abs);
        s.set_flag(1, (self.regs.a & m) == 0).set_flag(7, m & 0x80 != 0).set_flag(6, m & 0x40 != 0)
    }

    /// Comparison of a register with the operand.
    pub open spec fn op_compare(self, reg: u8) -> CpuView {
        let (m, s) = self.read_byte(self.abs);
        let r = u16_specs::wrapping_sub(reg as u16, m as u16);
        s.set_flag(0, reg >= m).set_flag(1, r & 0x00FF == 0).set_flag(7, r & 0x80 != 0)
    }

    /// Decrement (`up` false) or increment of the byte at `abs`; the write's
    /// result is ignored.
    pub open spec fn op_step_memory(self, up: bool) -> CpuView {
        let (m, s) = self.read_byte(self.abs);
        let r = if up {
            u8_specs::wrapping_add(m, 1)
        } else {
            u8_specs::wrapping_sub(m, 1)
        };
        s.write_unchecked(self.abs, r).set_zn(r)
    }

    /// BRK: pushes the program counter past the padding byte and the status
    /// with the break flag set, disables interrupts and jumps through 0xFFFE.
    pub open spec fn op_brk(self) -> CpuView {
        let pc = u16_specs::wrapping_add(self.regs.pc, 1);
        let s1 = self.set_pc(pc).set_flag(2, true);
        let s2 = s1.push(((pc >> 8u16) & 0xFF) as u8).push((pc & 0xFF) as u8).set_flag(4, true);
        let s3 = s2.push(s2.flags).set_flag(4, false);
        let (target, s4) = s3.read_word(INTERRUPT_START_POINTER_ADDR);
        s4.set_pc(target)
    }

    /// JSR: pushes the address of its last byte and jumps.
    pub open spec fn op_jsr(self) -> CpuView {
        let pc = u16_specs::wrapping_sub(self.regs.pc, 1);
        let s1 = self.set_pc(pc).write_unchecked((0x100 + self.regs.sp) as u16, (pc >> 8u16) as u8);
        let s2 = s1.set_sp(u8_specs::wrapping_sub(s1.regs.sp, 1));
        let s3 = s2.write_unchecked((0x100 + s2.regs.sp) as u16, (pc & 0xFF) as u8);
        let s4 = s3.set_sp(u8_specs::wrapping_sub(s3.regs.sp, 1));
        s4.set_pc(self.abs)
    }

    /// RTI: pulls the status (break clear, the unused bit kept set) and the
    /// program counter.
    pub open spec fn op_rti(self) -> CpuView {
        let s1 = self.set_sp(u8_specs::wrapping_add(self.regs.sp, 1));
        let (f, s2) = s1.read_byte((0x100 + s1.regs.sp) as u16);
        let s3 = CpuView { flags: f, ..s2 }.set_flag(4, false).set_flag(5, true);
        let s4 = s3.set_sp(u8_specs::wrapping_add(s3.regs.sp, 1));
        let (pc, s5) = s4.read_word((0x100 + s4.regs.sp) as u16);
        s5.set_pc(pc).set_sp(u8_specs::wrapping_add(s5.regs.sp, 1))
    }

    /// RTS: pulls the two bytes of the program counter (SP moves up by two)
    /// and steps past the JSR.
    pub open spec fn op_rts(self) -> CpuView {
        let s1 = self.set_sp(u8_specs::wrapping_add(self.regs.sp, 1));
        let (pc, s2) = s1.read_word((0x100 + s1.regs.sp) as u16);
        s2.set_pc(u16_specs::wrapping_add(pc, 1)).set_sp(u8_specs::wrapping_add(s2.regs.sp, 1))
    }

    /// PLA: pulls the accumulator.
    pub open spec fn op_pla(self) -> CpuView {
        let s1 = self.set_sp(u8_specs::wrapping_add(self.regs.sp, 1));
        let (v, s2) = s1.read_byte((0x100 + s1.regs.sp) as u16);
        s2.set_a(v).set_zn(v)
    }

    /// PLP: moves SP up and pulls the status; the unused bit stays set.
    pub open spec fn op_plp(self) -> CpuView {
        let s1 = self.set_sp(u8_specs::wrapping_add(self.regs.sp, 1));
        let (f, s2) = s1.read_byte((0x100 + s1.regs.sp) as u16);
        CpuView { flags: f, ..s2 }.set_flag(5, true)
    }

    /// The loads, transfers, increments and decrements of the registers.
    pub open spec fn register_op(self, instruction: Instruction) -> CpuView {
        match instruction {
            Instruction::LDA => {
                let (m, s) = self.read_byte(self.abs);
                s.set_a(m).set_zn(m)
            },
            Instruction::LDX => {
                let (m, s) = self.read_byte(self.abs);
                s.set_x(m).set_zn(m)
            },
            Instruction::LDY => {
                let (m, s) = self.read_byte(self.abs);
                s.set_y(m).set_zn(m)
            },
            Instruction::TAX => self.set_x(self.regs.a).set_zn(self.regs.a),
            Instruction::TAY => self.set_y(self.regs.a).set_zn(self.regs.a),
            Instruction::TSX => self.set_x(self.regs.sp).set_zn(self.regs.sp),
            Instruction::TXA => self.set_a(self.regs.x).set_zn(self.regs.x),
            Instruction::TXS => self.set_sp(self.regs.x),
            Instruction::TYA => self.set_a(self.regs.y).set_zn(self.regs.y),
            Instruction::INX => {
                let v = u8_specs::wrapping_add(self.regs.x, 1);
                self.set_x(v).set_zn(v)
            },
            Instruction::INY => {
                let v = u8_specs::wrapping_add(self.regs.y, 1);
                self.set_y(v).set_zn(v)
            },
            Instruction::DEX => {
                let v = u8_specs::wrapping_sub(self.regs.x, 1);
                self.set_x(v).set_zn(v)
            },
            Instruction::DEY => {
                let v = u8_specs::wrapping_sub(self.regs.y, 1);
                self.set_y(v).set_zn(v)
            },
            _ => self,
        }
    }

    /// Whether a branch instruction's condition holds: BCC/BCS on the carry
    /// (bit 0), BNE/BEQ on zero (bit 1), BVC/BVS on overflow (bit 6), BPL/BMI
    /// on negative (bit 7), clear and set respectively.
    pub open spec fn branch_taken(self, instruction: Instruction) -> bool {
        match instruction {
            Instruction::BCC => bit8(self.flags, 0) == 0,
            Instruction::BCS => bit8(self.flags, 0) == 1,
            Instruction::BNE => bit8(self.flags, 1) == 0,
            Instruction::BEQ => bit8(self.flags, 1) == 1,
            Instruction::BVC => bit8(self.flags, 6) == 0,
            Instruction::BVS => bit8(self.flags, 6) == 1,
            Instruction::BPL => bit8(self.flags, 7) == 0,
            Instruction::BMI => bit8(self.flags, 7) == 1,
            _ => false,
        }
    }

    /// The effect of executing an instruction whose operand address (or
    /// branch offset) the addressing mode has set.
    #[verifier::opaque]
    pub open spec fn execute(self, instruction: Instruction, mode: AddressingMode) -> CpuView {
        match instruction {
            Instruction::ADC => self.op_adc(),
            Instruction::AND => self.op_and(),
            Instruction::ASL => self.op_asl(mode),
            Instruction::BCC => self.branch(self.branch_taken(instruction)),
            Instruction::BCS => self.branch(self.branch_taken(instruction)),
            Instruction::BEQ => self.branch(self.branch_taken(instruction)),
            Instruction::BIT => self.op_bit(),
            Instruction::BMI => self.branch(self.branch_taken(instruction)),
            Instruction::BNE => self.branch(self.branch_taken(instruction)),
            Instruction::BPL => self.branch(self.branch_taken(instruction)),
            Instruction::BRK => self.op_brk(),
            Instruction::BVC => self.branch(self.branch_taken(instruction)),
            Instruction::BVS => self.branch(self.branch_taken(instruction)),
            Instruction::CLC => self.set_flag(0, false),
            Instruction::CLD => self.set_flag(3, false),
            Instruction::CLI => self.set_flag(2, false),
            Instruction::CLV => self.set_flag(6, false),
            Instruction::CMP => self.op_compare(self.regs.a),
            Instruction::CPX => self.op_compare(self.regs.x),
            Instruction::CPY => self.op_compare(self.regs.y),
            Instruction::DEC => self.op_step_memory(false),
            Instruction::DEX => self.register_op(instruction),
            Instruction::DEY => self.register_op(instruction),
            Instruction::EOR => self.op_eor(),
            Instruction::INC => self.op_step_memory(true),
            Instruction::INX => self.register_op(instruction),
            Instruction::INY => self.register_op(instruction),
            Instruction::JMP => self.set_pc(self.abs),
            Instruction::JSR => self.op_jsr(),
            Instruction::LDA => self.register_op(instruction),
            Instruction::LDX => self.register_op(instruction),
            Instruction::LDY => self.register_op(instruction),
            Instruction::LSR => self.op_lsr(mode),
            Instruction::NOP => self,
            Instruction::ORA => self.op_ora(),
            Instruction::PHA => self.push(self.regs.a),
            Instruction::PHP => self.push(self.flags),
            Instruction::PLA => self.op_pla(),
            Instruction::PLP => self.op_plp(),
            Instruction::ROL => self.op_rol(mode),
            Instruction::ROR => self.op_ror(mode),
            Instruction::RTI => self.op_rti(),
            Instruction::RTS => self.op_rts(),
            Instruction::SBC => self.op_sbc(),
            Instruction::SEC => self.set_flag(0, true),
            Instruction::SED => self.set_flag(3, true),
            Instruction::SEI => self.set_flag(2, true),
            Instruction::STA => self.write_checked(self.abs, self.regs.a),
            Instruction::STX => self.write_checked(self.abs, self.regs.x),
            Instruction::STY => self.write_checked(self.abs, self.regs.y),
            Instruction::TAX => self.register_op(instruction),
            Instruction::TAY => self.register_op(instruction),
            Instruction::TSX => self.register_op(instruction),
            Instruction::TXA => self.register_op(instruction),
            Instruction::TXS => self.register_op(instruction),
            Instruction::TYA => self.register_op(instruction),
            Instruction::XXX => self,
        }
    }

    /// One clock cycle: with no cycles left of the current instruction, the
    /// next opcode is fetched, decoded, addressed and executed at once, and its
    /// cycle count is loaded; every cycle then counts one down.
    pub open spec fn clock_cycle(self) -> CpuView {
        if self.remaining == 0 {
            let (op, s1) = self.fetch_byte();
            let d = opcode_table(op);
            let s2 = CpuView { remaining: d.cycles, ..s1 };
            let s3 = s2.addressing(d.addressing_mode);
            let s4 = s3.execute(d.instruction, d.addressing_mode);
            CpuView { remaining: (s4.remaining - 1) as u8, ..s4 }
        } else {
            CpuView { remaining: (self.remaining - 1) as u8, ..self }
        }
    }

    /// Pushes the program counter and the status (break clear, unused set,
    /// interrupts then disabled) and jumps through `vector`.
    pub open spec fn interrupt(self, vector: u16, cycles: u8) -> CpuView {
        let s1 = self.push(((self.regs.pc >> 8u16) & 0xFF) as u8).push((self.regs.pc & 0xFF) as u8);
        let s2 = s1.set_flag(4, false).set_flag(5, true).set_flag(2, true);
        let s3 = s2.push(s2.flags);
        let (target, s4) = s3.read_word(vector);
        CpuView { remaining: cycles, ..s4.set_pc(target) }
    }

    /// An interrupt request: ignored while interrupts are disabled.
    pub open spec fn irq(self) -> CpuView {
        if bit8(self.flags, 2) == 1 {
            self
        } else {
            self.interrupt(INTERRUPT_START_POINTER_ADDR, 7)
        }
    }

    /// A non-maskable interrupt.
    pub open spec fn nmi(self) -> CpuView {
        self.interrupt(NMI_START_POINTER_ADDR, 8)
    }

    /// A reset: registers cleared, SP at 0xFD, status 0x20, the program counter
    /// read from 0xFFFC, and 8 cycles to wait.
    pub open spec fn reset(self) -> CpuView {
        let s1 = CpuView {
            regs: Registers { a: 0, x: 0, y: 0, sp: SP_RESET_ADDR, ..self.regs },
            flags: 0x20,
            ..self
        };
        let (pc, s2) = s1.read_word(PROGRAM_START_POINTER_ADDR);
        CpuView { abs: 0, rel: 0, remaining: 8, ..s2.set_pc(pc) }
    }
}

pub const STACK_START_ADDR: u16 = 0x100;

pub const SP_RESET_ADDR: u8 = 0xFD;

pub const PROGRAM_START_POINTER_ADDR: u16 = 0xFFFC;

pub const INTERRUPT_START_POINTER_ADDR: u16 = 0xFFFE;

pub const NMI_START_POINTER_ADDR: u16 = 0xFFFA;

/// The 6502 CPU with the bus it drives.
pub struct Ben6502 {
    pub bus: Bus16Bit,
    pub status: Status,
    pub registers: Registers,
    pub current_instruction_remaining_cycles: u8,
    pub needs_additional_cycle: bool,
    pub absolute_mem_address: u16,
    pub relative_mem_address: i8,
}

impl View for Ben6502 {
    type V = CpuView;

    open spec fn view(&self) -> CpuView {
        CpuView {
            bus: self.bus@,
            flags: self.status.flags,
            regs: self.registers,
            remaining: self.current_instruction_remaining_cycles,
            needs_additional_cycle: self.needs_additional_cycle,
            abs: self.absolute_mem_address,
            rel: self.relative_mem_address,
            fault: false,
        }
    }
}

impl Ben6502 {
    pub open spec fn wf(&self) -> bool {
        self.bus.wf()
    }

    fn read_byte(&mut self, addr: u16) -> (v: u8)
        requires
            old(self).wf(),
            old(self)@.bus.readable(addr),
        ensures
            final(self).wf(),
            v == old(self)@.read_byte(addr).0,
            final(self)@ == old(self)@.read_byte(addr).1,
    {
        let r = self.bus.read(addr, false);
        match r {
            Ok(v) => v,
            Err(_) => 0,
        }
    }

    fn read_word(&mut self, addr: u16) -> (v: u16)
        requires
            old(self).wf(),
            !old(self)@.read_word(addr).1.fault,
        ensures
            final(self).wf(),
            v == old(self)@.read_word(addr).0,
            final(self)@ == old(self)@.read_word(addr).1,
    {
        let r = self.bus.read_word_little_endian(addr, false);
        match r {
            Ok(v) => v,
            Err(_) => 0,
        }
    }

    fn read_zp_word(&mut self, ptr: u8) -> (v: u16)
        requires
            old(self).wf(),
            !old(self)@.read_zp_word(ptr).1.fault,
        ensures
            final(self).wf(),
            v == old(self)@.read_zp_word(ptr).0,
            final(self)@ == old(self)@.read_zp_word(ptr).1,
    {
        let low_byte = self.read_byte(ptr as u16);
        let high_byte = self.read_byte(ptr.wrapping_add(1) as u16);
        let hs = (high_byte as u16) << 8;
        assert(hs <= 0xFF00 && hs + low_byte as u16 == (high_byte as int * 256
            + low_byte as int) as u16) by (bit_vector)
            requires
                hs == (high_byte as u16) << 8u16,
        ;
        hs + (low_byte as u16)
    }

    fn write_checked(&mut self, addr: u16, data: u8)
        requires
            old(self).wf(),
            !old(self)@.write_checked(addr, data).fault,
        ensures
            final(self).wf(),
            final(self)@ == old(self)@.write_checked(addr, data),
    {
        let _ = self.bus.write(addr, data);
    }

    fn write_unchecked(&mut self, addr: u16, data: u8)
        requires
            old(self).wf(),
            !old(self)@.write_unchecked(addr, data).fault,
        ensures
            final(self).wf(),
            final(self)@ == old(self)@.write_unchecked(addr, data),
    {
        let _ = self.bus.write(addr, data);
    }

    fn push(&mut self, data: u8)
        requires
            old(self).wf(),
            !old(self)@.push(data).fault,
        ensures
            final(self).wf(),
            final(self)@ == old(self)@.push(data),
    {
        let addr = STACK_START_ADDR + self.registers.sp as u16;
        self.write_checked(addr, data);
        self.registers.sp = self.registers.sp.wrapping_sub(1);
    }

    fn fetch_byte(&mut self) -> (v: u8)
        requires
            old(self).wf(),
            !old(self)@.fetch_byte().1.fault,
        ensures
            final(self).wf(),
            v == old(self)@.fetch_byte().0,
            final(self)@ == old(self)@.fetch_byte().1,
    {
        let v = self.read_byte(self.registers.pc);
        self.registers.pc = self.registers.pc.wrapping_add(1);
        v
    }

    fn fetch_word(&mut self) -> (v: u16)
        requires
            old(self).wf(),
            !old(self)@.fetch_word().1.fault,
        ensures
            final(self).wf(),
            v == old(self)@.fetch_word().0,
            final(self)@ == old(self)@.fetch_word().1,
    {
        let v = self.read_word(self.registers.pc);
        self.registers.pc = self.registers.pc.wrapping_add(2);
        v
    }

    fn set_zn(&mut self, v: u8)
        ensures
            final(self)@ == old(self)@.set_zn(v),
            final(self).bus == old(self).bus,
    {
        self.status.set_zero((v == 0) as u8);
        self.status.set_negative((v & 0x80 != 0) as u8);
    }
}

impl Ben6502 {
    /// Runs an addressing mode: reads the operand bytes after the opcode and
    /// leaves the operand's address in `absolute_mem_address` (or the branch
    /// offset in `relative_mem_address`).
    pub fn set_addressing_mode(&mut self, mode: &AddressingMode)
        requires
            old(self).wf(),
            !old(self)@.addressing(*mode).fault,
            old(self).current_instruction_remaining_cycles < 255,
        ensures
            final(self).wf(),
            final(self)@ == old(self)@.addressing(*mode),
    {
        reveal(CpuView::addressing);
        match mode {
            AddressingMode::ACC => {
                // The operand is the accumulator: no address needed.
            },
            AddressingMode::IMM => {
                self.absolute_mem_address = self.registers.pc;
                self.registers.pc = self.registers.pc.wrapping_add(1);
            },
            AddressingMode::ABS => {
                self.absolute_mem_address = self.fetch_word();
            },
            AddressingMode::ZP0 => {
                let addr_low = self.fetch_byte();
                self.absolute_mem_address = addr_low as u16;
            },
            AddressingMode::ZPX => {
                let x = self.registers.x;
                let instruction_addr = self.fetch_byte();
                self.absolute_mem_address = instruction_addr.wrapping_add(x) as u16;
            },
            AddressingMode::ZPY => {
                let y = self.registers.y;
                let instruction_addr = self.fetch_byte();
                self.absolute_mem_address = instruction_addr.wrapping_add(y) as u16;
            },
            AddressingMode::ABX => {
                let mem_addr = self.fetch_word();
                self.absolute_mem_address = mem_addr.wrapping_add(self.registers.x as u16);
                if (self.absolute_mem_address & 0xFF00) != (mem_addr & 0xFF00) {
                    self.current_instruction_remaining_cycles += 1;
                }
            },
            AddressingMode::ABY => {
                let mem_addr = self.fetch_word();
                self.absolute_mem_address = mem_addr.wrapping_add(self.registers.y as u16);
                if (self.absolute_mem_address & 0xFF00) != (mem_addr & 0xFF00) {
                    self.current_instruction_remaining_cycles += 1;
                }
            },
            AddressingMode::IMP => {
                // No operand.
            },
            AddressingMode::REL => {
                let r = self.fetch_byte();
                self.relative_mem_address = r as i8;
            },
            AddressingMode::INX => {
                let x = self.registers.x;
                let instruction_addr = self.fetch_byte();
                self.absolute_mem_address = self.read_zp_word(instruction_addr.wrapping_add(x));
            },
            AddressingMode::INY => {
                let y = self.registers.y;
                let instruction_addr = self.fetch_byte();
                let pointer = self.read_zp_word(instruction_addr);
                self.absolute_mem_address = pointer.wrapping_add(y as u16);
                if (self.absolute_mem_address & 0xFF00) != (pointer & 0xFF00) {
                    // Adding Y crossed a page.
                    self.current_instruction_remaining_cycles += 1;
                }
            },
            AddressingMode::IND => {
                let abs_address_of_low_byte = self.fetch_word();
                let low_byte = self.read_byte(abs_address_of_low_byte);
                let high_byte: u8;
                // The 6502 does not carry into the high byte of the pointer:
                // a pointer at xxFF reads its high byte from xx00.
                if (abs_address_of_low_byte & 0xFF) == 0x00FF {
                    high_byte = self.read_byte(abs_address_of_low_byte & 0xFF00);
                } else {
                    assert(abs_address_of_low_byte < 0xFFFF) by (bit_vector)
                        requires
                            abs_address_of_low_byte & 0xFF != 0x00FF,
                    ;
                    high_byte = self.read_byte(abs_address_of_low_byte + 1);
                }
                let hs = (high_byte as u16) << 8;
                assert(hs <= 0xFF00 && hs + low_byte as u16 == (high_byte as int * 256
                    + low_byte as int) as u16) by (bit_vector)
                    requires
                        hs == (high_byte as u16) << 8u16,
                ;
                self.absolute_mem_address = hs + (low_byte as u16);
            },
        }
        assert(self@ =~= old(self)@.addressing(*mode));
    }
}

impl Ben6502 {
    fn branch(&mut self, cond: bool)
        requires
            old(self).wf(),
            old(self).current_instruction_remaining_cycles <= 253,
        ensures
            final(self).wf(),
            final(self)@ == old(self)@.branch(cond),
    {
        if cond {
            self.current_instruction_remaining_cycles += 1;
            self.absolute_mem_address = self.registers.pc.wrapping_add(
                self.relative_mem_address as i16 as u16,
            );
            if (self.absolute_mem_address & 0xFF00) != (self.registers.pc & 0xFF00) {
                // The target lies on another page.
                self.current_instruction_remaining_cycles += 1;
            }
            self.registers.pc = self.absolute_mem_address;
        }
        assert(self@ =~= old(self)@.branch(cond));
    }

    fn op_adc(&mut self)
        requires
            old(self).wf(),
            !old(self)@.op_adc().fault,
        ensures
            final(self).wf(),
            final(self)@ == old(self)@.op_adc(),
    {
        let carry = self.status.get_carry();
        let operand = self.read_byte(self.absolute_mem_address);
        let a = self.registers.a;
        let sum = a as u16 + operand as u16 + carry as u16;
        let result = (sum % 256) as u8;
        self.status.set_carry((sum > 0xFF) as u8);
        self.status.set_zero((result == 0) as u8);
        self.status.set_negative((result >= 0x80) as u8);
        // Overflow: both operands of one sign and the result of the other.
        let overflow = (a < 0x80) == (operand < 0x80) && (a < 0x80) != (result < 0x80);
        self.status.set_overflow(overflow as u8);
        self.registers.a = result;
        assert(self@ =~= old(self)@.op_adc());
    }

    fn op_sbc(&mut self)
        requires
            old(self).wf(),
            !old(self)@.op_sbc().fault,
        ensures
            final(self).wf(),
            final(self)@ == old(self)@.op_sbc(),
    {
        let carry = self.status.get_carry();
        let operand = self.read_byte(self.absolute_mem_address);
        let a = self.registers.a;
        let taken = operand as u16 + (1 - carry) as u16;
        let no_borrow = a as u16 >= taken;
        let result = if no_borrow {
            (a as u16 - taken) as u8
        } else {
            (a as u16 + 256 - taken) as u8
        };
        self.status.set_carry(no_borrow as u8);
        self.status.set_zero((result == 0) as u8);
        self.status.set_negative((result >= 0x80) as u8);
        // Overflow: operands of different signs and a result of the sign of
        // the subtrahend.
        let overflow = (a < 0x80) != (operand < 0x80) && (a < 0x80) != (result < 0x80);
        self.status.set_overflow(overflow as u8);
        self.registers.a = result;
        assert(self@ =~= old(self)@.op_sbc());
    }

    fn op_and(&mut self)
        requires
            old(self).wf(),
            !old(self)@.op_and().fault,
        ensures
            final(self).wf(),
            final(self)@ == old(self)@.op_and(),
    {
        let operand = self.read_byte(self.absolute_mem_address);
        self.registers.a = self.registers.a & operand;
        let v = self.registers.a;
        self.set_zn(v);
        assert(self@ =~= old(self)@.op_and());
    }

    fn op_eor(&mut self)
        requires
            old(self).wf(),
            !old(self)@.op_eor().fault,
        ensures
            final(self).wf(),
            final(self)@ == old(self)@.op_eor(),
    {
        let operand = self.read_byte(self.absolute_mem_address);
        self.registers.a = self.registers.a ^ operand;
        let v = self.registers.a;
        self.set_zn(v);
        assert(self@ =~= old(self)@.op_eor());
    }

    fn op_ora(&mut self)
        requires
            old(self).wf(),
            !old(self)@.op_ora().fault,
        ensures
            final(self).wf(),
            final(self)@ == old(self)@.op_ora(),
    {
        let operand = self.read_byte(self.absolute_mem_address);
        self.registers.a = self.registers.a | operand;
        let v = self.registers.a;
        self.set_zn(v);
        assert(self@ =~= old(self)@.op_ora());
    }

    fn rmw_operand(&mut self, addr_mode: &AddressingMode) -> (v: u8)
        requires
            old(self).wf(),
            !old(self)@.rmw_operand(*addr_mode).1.fault,
        ensures
            final(self).wf(),
            v == old(self)@.rmw_operand(*addr_mode).0,
            final(self)@ == old(self)@.rmw_operand(*addr_mode).1,
    {
        if matches!(addr_mode, AddressingMode::ACC | AddressingMode::IMP) {
            self.registers.a
        } else {
            self.read_byte(self.absolute_mem_address)
        }
    }

    fn rmw_store(&mut self, addr_mode: &AddressingMode, v: u8)
        requires
            old(self).wf(),
            !old(self)@.rmw_store(*addr_mode, v).fault,
        ensures
            final(self).wf(),
            final(self)@ == old(self)@.rmw_store(*addr_mode, v),
    {
        if matches!(addr_mode, AddressingMode::ACC | AddressingMode::IMP) {
            self.registers.a = v;
            assert(self@ =~= old(self)@.rmw_store(*addr_mode, v));
        } else {
            self.write_checked(self.absolute_mem_address, v);
        }
    }

    fn op_asl(&mut self, addr_mode: &AddressingMode)
        requires
            old(self).wf(),
            !old(self)@.op_asl(*addr_mode).fault,
        ensures
            final(self).wf(),
            final(self)@ == old(self)@.op_asl(*addr_mode),
    {
        let operand = self.rmw_operand(addr_mode);
        let result: u16 = (operand as u16) << 1;
        self.status.set_carry((result & 0xFF00 != 0) as u8);
        self.status.set_zero((result & 0xFF == 0) as u8);
        self.status.set_negative(((result & 0x80) != 0) as u8);
        self.rmw_store(addr_mode, (result & 0xFF) as u8);
    }

    fn op_lsr(&mut self, addr_mode: &AddressingMode)
        requires
            old(self).wf(),
            !old(self)@.op_lsr(*addr_mode).fault,
        ensures
            final(self).wf(),
            final(self)@ == old(self)@.op_lsr(*addr_mode),
    {
        let operand = self.rmw_operand(addr_mode);
        self.status.set_carry((operand & 0x01 != 0) as u8);
        let result: u16 = (operand as u16) >> 1;
        self.status.set_zero(((result & 0xFF) == 0) as u8);
        self.status.set_negative(((result & 0x80) != 0) as u8);
        self.rmw_store(addr_mode, (result & 0xFF) as u8);
    }

    fn op_rol(&mut self, addr_mode: &AddressingMode)
        requires
            old(self).wf(),
            !old(self)@.op_rol(*addr_mode).fault,
        ensures
            final(self).wf(),
            final(self)@ == old(self)@.op_rol(*addr_mode),
    {
        let carry = self.status.get_carry();
        let operand = self.rmw_operand(addr_mode);
        let result = ((operand as u16) << 1) | (carry as u16);
        self.status.set_carry(((result & 0xFF00) != 0) as u8);
        self.status.set_zero(((result & 0xFF) == 0) as u8);
        self.status.set_negative(((result & 0x80) != 0) as u8);
        self.rmw_store(addr_mode, (result & 0xFF) as u8);
    }

    fn op_ror(&mut self, addr_mode: &AddressingMode)
        requires
            old(self).wf(),
            !old(self)@.op_ror(*addr_mode).fault,
        ensures
            final(self).wf(),
            final(self)@ == old(self)@.op_ror(*addr_mode),
    {
        let carry = self.status.get_carry();
        let operand = self.rmw_operand(addr_mode);
        let result = ((carry as u16) << 7) | ((operand as u16) >> 1);
        self.status.set_carry(((operand & 0x01) != 0) as u8);
        self.status.set_zero(((result & 0xFF) == 0) as u8);
        self.status.set_negative(((result & 0x80) != 0) as u8);
        self.rmw_store(addr_mode, (result & 0xFF) as u8);
    }

    fn op_bit(&mut self)
        requires
            old(self).wf(),
            !old(self)@.op_bit().fault,
        ensures
            final(self).wf(),
            final(self)@ == old(self)@.op_bit(),
    {
        let operand = self.read_byte(self.absolute_mem_address);
        let result = self.registers.a & operand;
        self.status.set_zero((result == 0) as u8);
        self.status.set_negative(((operand & 0x80) != 0) as u8);
        self.status.set_overflow(((operand & 0x40) != 0) as u8);
        assert(self@ =~= old(self)@.op_bit());
    }

    fn op_compare(&mut self, reg: u8)
        requires
            old(self).wf(),
            !old(self)@.op_compare(reg).fault,
        ensures
            final(self).wf(),
            final(self)@ == old(self)@.op_compare(reg),
    {
        let operand = self.read_byte(self.absolute_mem_address);
        let result = (reg as u16).wrapping_sub(operand as u16);
        self.status.set_carry((reg >= operand) as u8);
        self.status.set_zero(((result & 0x00FF) == 0) as u8);
        self.status.set_negative((result & 0x80 != 0) as u8);
        assert(self@ =~= old(self)@.op_compare(reg));
    }

    fn op_step_memory(&mut self, up: bool)
        requires
            old(self).wf(),
            !old(self)@.op_step_memory(up).fault,
        ensures
            final(self).wf(),
            final(self)@ == old(self)@.op_step_memory(up),
    {
        let addr = self.absolute_mem_address;
        let operand = self.read_byte(addr);
        let result = if up {
            operand.wrapping_add(1)
        } else {
            operand.wrapping_sub(1)
        };
        self.write_unchecked(addr, result);
        self.set_zn(result);
    }

    fn op_brk(&mut self)
        requires
            old(self).wf(),
            !old(self)@.op_brk().fault,
        ensures
            final(self).wf(),
            final(self)@ == old(self)@.op_brk(),
    {
        self.registers.pc = self.registers.pc.wrapping_add(1);
        self.status.set_irq_disable(1);
        let pc = self.registers.pc;
        self.push(((pc >> 8) & 0xFF) as u8);
        self.push((pc & 0xFF) as u8);
        self.status.set_brk_command(1);
        let f = self.status.flags;
        self.push(f);
        self.status.set_brk_command(0);
        self.registers.pc = self.read_word(INTERRUPT_START_POINTER_ADDR);
    }

    fn op_jsr(&mut self)
        requires
            old(self).wf(),
            !old(self)@.op_jsr().fault,
        ensures
            final(self).wf(),
            final(self)@ == old(self)@.op_jsr(),
    {
        self.registers.pc = self.registers.pc.wrapping_sub(1);
        let pc = self.registers.pc;
        self.write_unchecked(STACK_START_ADDR + self.registers.sp as u16, (pc >> 8) as u8);
        self.registers.sp = self.registers.sp.wrapping_sub(1);
        self.write_unchecked(STACK_START_ADDR + self.registers.sp as u16, (pc & 0xFF) as u8);
        self.registers.sp = self.registers.sp.wrapping_sub(1);
        self.registers.pc = self.absolute_mem_address;
    }

    fn op_rti(&mut self)
        requires
            old(self).wf(),
            !old(self)@.op_rti().fault,
        ensures
            final(self).wf(),
            final(self)@ == old(self)@.op_rti(),
    {
        self.registers.sp = self.registers.sp.wrapping_add(1);
        self.status.flags = self.read_byte(STACK_START_ADDR + self.registers.sp as u16);
        self.status.set_brk_command(0);
        self.status.set_unused_bit(1);
        self.registers.sp = self.registers.sp.wrapping_add(1);
        self.registers.pc = self.read_word(STACK_START_ADDR + self.registers.sp as u16);
        self.registers.sp = self.registers.sp.wrapping_add(1);
    }

    fn op_rts(&mut self)
        requires
            old(self).wf(),
            !old(self)@.op_rts().fault,
        ensures
            final(self).wf(),
            final(self)@ == old(self)@.op_rts(),
    {
        self.registers.sp = self.registers.sp.wrapping_add(1);
        self.registers.pc = self.read_word(STACK_START_ADDR + self.registers.sp as u16);
        self.registers.pc = self.registers.pc.wrapping_add(1);
        self.registers.sp = self.registers.sp.wrapping_add(1);
    }

    fn op_pla(&mut self)
        requires
            old(self).wf(),
            !old(self)@.op_pla().fault,
        ensures
            final(self).wf(),
            final(self)@ == old(self)@.op_pla(),
    {
        self.registers.sp = self.registers.sp.wrapping_add(1);
        self.registers.a = self.read_byte(STACK_START_ADDR + self.registers.sp as u16);
        let v = self.registers.a;
        self.set_zn(v);
    }

    fn op_plp(&mut self)
        requires
            old(self).wf(),
            !old(self)@.op_plp().fault,
        ensures
            final(self).wf(),
            final(self)@ == old(self)@.op_plp(),
    {
        self.registers.sp = self.registers.sp.wrapping_add(1);
        self.status.flags = self.read_byte(STACK_START_ADDR + self.registers.sp as u16);
        self.status.set_unused_bit(1);
    }
}

impl Ben6502 {
    /// Executes a decoded instruction on the operand that the addressing mode
    /// found.
    #[verifier::spinoff_prover]
    #[verifier::rlimit(60)]
    pub fn execute_instruction(&mut self, instruction: &Instruction, addr_mode: &AddressingMode)
        requires
            old(self).wf(),
            !old(self)@.execute(*instruction, *addr_mode).fault,
            old(self).current_instruction_remaining_cycles <= 253,
        ensures
            final(self).wf(),
            final(self)@ == old(self)@.execute(*instruction, *addr_mode),
    {
        reveal(CpuView::execute);
        match instruction {
            Instruction::ADC => self.op_adc(),
            Instruction::AND => self.op_and(),
            Instruction::ASL => self.op_asl(addr_mode),
            Instruction::BCC => {
                let c = self.status.get_carry() == 0;
                self.branch(c);
            },
            Instruction::BCS => {
                let c = self.status.get_carry() == 1;
                self.branch(c);
            },
            Instruction::BEQ => {
                let c = self.status.get_zero() == 1;
                self.branch(c);
            },
            Instruction::BIT => self.op_bit(),
            Instruction::BMI => {
                let c = self.status.get_negative() == 1;
                self.branch(c);
            },
            Instruction::BNE => {
                let c = self.status.get_zero() == 0;
                self.branch(c);
            },
            Instruction::BPL => {
                let c = self.status.get_negative() == 0;
                self.branch(c);
            },
            Instruction::BRK => self.op_brk(),
            Instruction::BVC => {
                let c = self.status.get_overflow() == 0;
                self.branch(c);
            },
            Instruction::BVS => {
                let c = self.status.get_overflow() == 1;
                self.branch(c);
            },
            Instruction::CLC => self.status.set_carry(0),
            Instruction::CLD => self.status.set_decimal_mode(0),
            Instruction::CLI => self.status.set_irq_disable(0),
            Instruction::CLV => self.status.set_overflow(0),
            Instruction::CMP => {
                let r = self.registers.a;
                self.op_compare(r);
            },
            Instruction::CPX => {
                let r = self.registers.x;
                self.op_compare(r);
            },
            Instruction::CPY => {
                let r = self.registers.y;
                self.op_compare(r);
            },
            Instruction::DEC => self.op_step_memory(false),
            Instruction::DEX => {
                self.registers.x = self.registers.x.wrapping_sub(1);
                let v = self.registers.x;
                self.set_zn(v);
            },
            Instruction::DEY => {
                self.registers.y = self.registers.y.wrapping_sub(1);
                let v = self.registers.y;
                self.set_zn(v);
            },
            Instruction::EOR => self.op_eor(),
            Instruction::INC => self.op_step_memory(true),
            Instruction::INX => {
                self.registers.x = self.registers.x.wrapping_add(1);
                let v = self.registers.x;
                self.set_zn(v);
            },
            Instruction::INY => {
                self.registers.y = self.registers.y.wrapping_add(1);
                let v = self.registers.y;
                self.set_zn(v);
            },
            Instruction::JMP => {
                self.registers.pc = self.absolute_mem_address;
            },
            Instruction::JSR => self.op_jsr(),
            Instruction::LDA => {
                let operand = self.read_byte(self.absolute_mem_address);
                self.registers.a = operand;
                self.set_zn(operand);
            },
            Instruction::LDX => {
                let operand = self.read_byte(self.absolute_mem_address);
                self.registers.x = operand;
                self.set_zn(operand);
            },
            Instruction::LDY => {
                let operand = self.read_byte(self.absolute_mem_address);
                self.registers.y = operand;
                self.set_zn(operand);
            },
            Instruction::LSR => self.op_lsr(addr_mode),
            Instruction::NOP => {
                // No operation. The unofficial opcodes that some games use as
                // NOPs with operands are not emulated.
            },
            Instruction::ORA => self.op_ora(),
            Instruction::PHA => {
                let a = self.registers.a;
                self.push(a);
            },
            Instruction::PHP => {
                let f = self.status.flags;
                self.push(f);
            },
            Instruction::PLA => self.op_pla(),
            Instruction::PLP => self.op_plp(),
            Instruction::ROL => self.op_rol(addr_mode),
            Instruction::ROR => self.op_ror(addr_mode),
            Instruction::RTI => self.op_rti(),
            Instruction::RTS => self.op_rts(),
            Instruction::SBC => self.op_sbc(),
            Instruction::SEC => self.status.set_carry(1),
            Instruction::SED => self.status.set_decimal_mode(1),
            Instruction::SEI => self.status.set_irq_disable(1),
            Instruction::STA => {
                let a = self.registers.a;
                self.write_checked(self.absolute_mem_address, a);
            },
            Instruction::STX => {
                let x = self.registers.x;
                self.write_checked(self.absolute_mem_address, x);
            },
            Instruction::STY => {
                let y = self.registers.y;
                self.write_checked(self.absolute_mem_address, y);
            },
            Instruction::TAX => {
                self.registers.x = self.registers.a;
                let v = self.registers.x;
                self.set_zn(v);
            },
            Instruction::TAY => {
                self.registers.y = self.registers.a;
                let v = self.registers.y;
                self.set_zn(v);
            },
            Instruction::TSX => {
                self.registers.x = self.registers.sp;
                let v = self.registers.x;
                self.set_zn(v);
            },
            Instruction::TXA => {
                self.registers.a = self.registers.x;
                let v = self.registers.a;
                self.set_zn(v);
            },
            Instruction::TXS => {
                self.registers.sp = self.registers.x;
            },
            Instruction::TYA => {
                self.registers.a = self.registers.y;
                let v = self.registers.a;
                self.set_zn(v);
            },
            Instruction::XXX => {
                // Illegal opcode: no action.
            },
        }
        assert(self@ =~= old(self)@.execute(*instruction, *addr_mode));
    }
}

/// Addressing adds at most one cycle.
pub(crate) proof fn lemma_addressing_remaining(s: CpuView, mode: AddressingMode)
    requires
        s.remaining < 255,
    ensures
        s.remaining <= s.addressing(mode).remaining <= s.remaining + 1,
{
    reveal(CpuView::addressing);
}

/// Execution adds at most two cycles (a taken branch across pages), and a
/// fault, once recorded, stays.
pub(crate) proof fn lemma_execute_remaining(s: CpuView, instruction: Instruction, mode: AddressingMode)
    requires
        s.remaining <= 253,
    ensures
        s.remaining <= s.execute(instruction, mode).remaining <= s.remaining + 2,
        s.fault ==> s.execute(instruction, mode).fault,
{
    reveal(CpuView::execute);
    match instruction {
        Instruction::ADC => {},
        Instruction::AND => {},
        Instruction::ASL => {},
        Instruction::BCC => {},
        Instruction::BCS => {},
        Instruction::BEQ => {},
        Instruction::BIT => {},
        Instruction::BMI => {},
        Instruction::BNE => {},
        Instruction::BPL => {},
        Instruction::BRK => {},
        Instruction::BVC => {},
        Instruction::BVS => {},
        Instruction::CLC => {},
        Instruction::CLD => {},
        Instruction::CLI => {},
        Instruction::CLV => {},
        Instruction::CMP => {},
        Instruction::CPX => {},
        Instruction::CPY => {},
        Instruction::DEC => {},
        Instruction::DEX => {},
        Instruction::DEY => {},
        Instruction::EOR => {},
        Instruction::INC => {},
        Instruction::INX => {},
        Instruction::INY => {},
        Instruction::JMP => {},
        Instruction::JSR => {},
        Instruction::LDA => {},
        Instruction::LDX => {},
        Instruction::LDY => {},
        Instruction::LSR => {},
        Instruction::NOP => {},
        Instruction::ORA => {},
        Instruction::PHA => {},
        Instruction::PHP => {},
        Instruction::PLA => {},
        Instruction::PLP => {},
        Instruction::ROL => {},
        Instruction::ROR => {},
        Instruction::RTI => {},
        Instruction::RTS => {},
        Instruction::SBC => {},
        Instruction::SEC => {},
        Instruction::SED => {},
        Instruction::SEI => {},
        Instruction::STA => {},
        Instruction::STX => {},
        Instruction::STY => {},
        Instruction::TAX => {},
        Instruction::TAY => {},
        Instruction::TSX => {},
        Instruction::TXA => {},
        Instruction::TXS => {},
        Instruction::TYA => {},
        Instruction::XXX => {},
    }
}

/// A fault, once recorded, stays through addressing.
proof fn lemma_addressing_fault(s: CpuView, mode: AddressingMode)
    ensures
        s.fault ==> s.addressing(mode).fault,
{
    reveal(CpuView::addressing);
}

/// The CPU state that `Ben6502::new` resets: registers cleared, status 0x20,
/// no cycles pending.
pub open spec fn power_on_state(bus: BusView) -> CpuView {
    CpuView {
        bus,
        flags: 0x20,
        regs: Registers { a: 0, x: 0, y: 0, sp: 0, pc: 0 },
        remaining: 0,
        needs_additional_cycle: false,
        abs: 0,
        rel: 0,
        fault: false,
    }
}

impl Ben6502 {
    /// A CPU on `mem_bus`, reset: its program counter is read from the reset
    /// vector at 0xFFFC.
    pub fn new(mem_bus: Bus16Bit) -> (cpu: Ben6502)
        requires
            mem_bus.wf(),
            !power_on_state(mem_bus@).reset().fault,
        ensures
            cpu.wf(),
            cpu@ == power_on_state(mem_bus@).reset(),
    {
        let mut result = Ben6502 {
            bus: mem_bus,
            status: Status::new(),
            registers: Registers { a: 0, x: 0, y: 0, sp: 0, pc: 0 },
            current_instruction_remaining_cycles: 0,
            needs_additional_cycle: false,
            absolute_mem_address: 0,
            relative_mem_address: 0,
        };
        result.reset();
        result
    }

    /// Reset: registers cleared, SP at 0xFD, status 0x20, program counter from
    /// the reset vector at 0xFFFC, and 8 cycles before the first instruction.
    pub fn reset(&mut self)
        requires
            old(self).wf(),
            !old(self)@.reset().fault,
        ensures
            final(self).wf(),
            final(self)@ == old(self)@.reset(),
    {
        self.registers.a = 0;
        self.registers.x = 0;
        self.registers.y = 0;
        self.registers.sp = SP_RESET_ADDR;
        self.status.reset();
        // The CPU takes its start address from a fixed pointer.
        self.registers.pc = self.read_word(PROGRAM_START_POINTER_ADDR);
        self.absolute_mem_address = 0x0;
        self.relative_mem_address = 0x0;
        self.current_instruction_remaining_cycles = 8;
        assert(self@ =~= old(self)@.reset());
    }

    fn interrupt(&mut self, vector: u16, cycles: u8)
        requires
            old(self).wf(),
            !old(self)@.interrupt(vector, cycles).fault,
        ensures
            final(self).wf(),
            final(self)@ == old(self)@.interrupt(vector, cycles),
    {
        let pc = self.registers.pc;
        self.push(((pc >> 8) & 0xFF) as u8);
        self.push((pc & 0xFF) as u8);
        self.status.set_brk_command(0);
        self.status.set_unused_bit(1);
        self.status.set_irq_disable(1);
        let f = self.status.flags;
        self.push(f);
        // Like on reset, the CPU takes its new address from a fixed pointer.
        self.registers.pc = self.read_word(vector);
        self.current_instruction_remaining_cycles = cycles;
        assert(self@ =~= old(self)@.interrupt(vector, cycles));
    }

    /// An interrupt request: unless interrupts are disabled, pushes the program
    /// counter and the status and jumps through the vector at 0xFFFE.
    pub fn irq(&mut self)
        requires
            old(self).wf(),
            !old(self)@.irq().fault,
        ensures
            final(self).wf(),
            final(self)@ == old(self)@.irq(),
    {
        if self.status.get_irq_disable() == 1 {
            return ;
        }
        self.interrupt(INTERRUPT_START_POINTER_ADDR, 7);
    }

    /// A non-maskable interrupt: pushes the program counter and the status and
    /// jumps through the vector at 0xFFFA.
    pub fn nmi(&mut self)
        requires
            old(self).wf(),
            !old(self)@.nmi().fault,
        ensures
            final(self).wf(),
            final(self)@ == old(self)@.nmi(),
    {
        self.interrupt(NMI_START_POINTER_ADDR, 8);
    }

    /// One clock cycle of the CPU. When the current instruction has used up
    /// its cycles, the next one is fetched, decoded and executed at once and
    /// its cycle count loaded; each cycle counts one down.
    #[verifier::rlimit(40)]
    pub fn clock_cycle(&mut self)
        requires
            old(self).wf(),
            !old(self)@.clock_cycle().fault,
        ensures
            final(self).wf(),
            final(self)@ == old(self)@.clock_cycle(),
    {
        proof {
            if old(self)@.remaining == 0 {
                let (op, s1) = old(self)@.fetch_byte();
                let d = opcode_table(op);
                let s2 = CpuView { remaining: d.cycles, ..s1 };
                lemma_opcode_cycles(op);
                lemma_addressing_fault(s2, d.addressing_mode);
                lemma_addressing_remaining(s2, d.addressing_mode);
                lemma_execute_remaining(
                    s2.addressing(d.addressing_mode),
                    d.instruction,
                    d.addressing_mode,
                );
            }
        }
        if self.current_instruction_remaining_cycles == 0 {
            let next_instruction_code = self.fetch_byte();
            let next_instruction_data = decode_opcode(next_instruction_code);
            proof {
                lemma_opcode_cycles(next_instruction_code);
            }
            self.current_instruction_remaining_cycles = next_instruction_data.cycles;
            let ghost s2 = self@;
            let ghost s3 = s2.addressing(next_instruction_data.addressing_mode);
            proof {
                lemma_addressing_remaining(s2, next_instruction_data.addressing_mode);
                lemma_addressing_fault(s2, next_instruction_data.addressing_mode);
                lemma_execute_remaining(
                    s3,
                    next_instruction_data.instruction,
                    next_instruction_data.addressing_mode,
                );
                assert(!s3.execute(next_instruction_data.instruction, next_instruction_data.addressing_mode).fault);
            }
            self.set_addressing_mode(&next_instruction_data.addressing_mode);
            self.execute_instruction(
                &next_instruction_data.instruction,
                &next_instruction_data.addressing_mode,
            );
            proof {
                lemma_execute_remaining(
                    s3,
                    next_instruction_data.instruction,
                    next_instruction_data.addressing_mode,
                );
            }
        }
        self.current_instruction_remaining_cycles -= 1;
        assert(self@ =~= old(self)@.clock_cycle());
    }
}

} // verus!
