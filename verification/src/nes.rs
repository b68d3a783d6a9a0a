use vstd::prelude::*;
use crate::ben2C02::{PpuView, PPU_MEMORY_BOUNDS};
use crate::ben6502::{Ben6502, CpuView, Registers, STACK_START_ADDR};
use crate::bus::{hex_dump, span, BusView, lemma_range_clear_of_ppu_readable};
use crate::controller::Controller;
use crate::ben6502::timing::{ppu_timing, lemma_cpu_cycle_keeps_timing, lemma_nmi_keeps_timing};
use crate::ben2C02::rendering::{lemma_clock_moves_on, lemma_clock_nears_vblank};
use vstd::string::StringExecFns;
use vstd::wrapping::u64_specs;

verus! {

/// A button of the NES joypad.
#[derive(Clone, Copy, Debug, PartialEq, Eq, Structural)]
pub enum NesButton {
    A,
    B,
    Select,
    Start,
    Up,
    Down,
    Left,
    Right,
}

/// The keyboard key that stands for each joypad button: W, A, S, D for the
/// directions, N for A, M for B, J for Start, H for Select.
pub open spec fn key_button(key: char) -> Option<NesButton> {
    if key == 'W' {
        Some(NesButton::Up)
    } else if key == 'A' {
        Some(NesButton::Left)
    } else if key == 'S' {
        Some(NesButton::Down)
    } else if key == 'D' {
        Some(NesButton::Right)
    } else if key == 'M' {
        Some(NesButton::B)
    } else if key == 'N' {
        Some(NesButton::A)
    } else if key == 'J' {
        Some(NesButton::Start)
    } else if key == 'H' {
        Some(NesButton::Select)
    } else {
        None
    }
}

/// The joypad buttons held down on the keyboard.
#[derive(Clone, Copy, Debug, PartialEq, Eq, Structural)]
pub struct NESInputHandler {
    pub a_pressed: bool,
    pub b_pressed: bool,
    pub start_pressed: bool,
    pub select_pressed: bool,
    pub up_pressed: bool,
    pub down_pressed: bool,
    pub left_pressed: bool,
    pub right_pressed: bool,
}

/// 1 for a held button, 0 otherwise.
pub open spec fn held(b: bool) -> int {
    if b {
        1
    } else {
        0
    }
}

/// The handler after a key event: `pressed` true for a key going down.
pub open spec fn after_key(h: NESInputHandler, key: char, pressed: bool) -> NESInputHandler {
    match key_button(key) {
        Some(b) => h.with_button(b, pressed),
        None => h,
    }
}

/// The handler after a sequence of key events, in order.
pub open spec fn after_keys(h: NESInputHandler, events: Seq<(char, bool)>) -> NESInputHandler
    decreases events.len(),
{
    if events.len() == 0 {
        h
    } else {
        let e = events.last();
        after_key(after_keys(h, events.drop_last()), e.0, e.1)
    }
}

/// Whether the last of `events` for a key of `button` was a press; `held`
/// where there is none.
pub open spec fn last_event_press(events: Seq<(char, bool)>, button: NesButton, held: bool) -> bool
    decreases events.len(),
{
    if events.len() == 0 {
        held
    } else if key_button(events.last().0) == Some(button) {
        events.last().1
    } else {
        last_event_press(events.drop_last(), button, held)
    }
}

/// Holding or releasing one button leaves the others as they were.
proof fn lemma_with_button(h: NESInputHandler, b: NesButton, pressed: bool, other: NesButton)
    ensures
        h.with_button(b, pressed).is_held(other) == if b == other {
            pressed
        } else {
            h.is_held(other)
        },
{
    match b {
        NesButton::A => {},
        NesButton::B => {},
        NesButton::Select => {},
        NesButton::Start => {},
        NesButton::Up => {},
        NesButton::Down => {},
        NesButton::Left => {},
        NesButton::Right => {},
    }
}

/// Over any sequence of key events, a button is held exactly when the last
/// event of its key was a press (or, with none, when it was held before).
pub proof fn lemma_keys_decide_buttons(h: NESInputHandler, events: Seq<(char, bool)>, b: NesButton)
    ensures
        after_keys(h, events).is_held(b) == last_event_press(events, b, h.is_held(b)),
    decreases events.len(),
{
    if events.len() > 0 {
        lemma_keys_decide_buttons(h, events.drop_last(), b);
        let e = events.last();
        let g = after_keys(h, events.drop_last());
        match key_button(e.0) {
            Some(k) => {
                lemma_with_button(g, k, e.1, b);
            },
            None => {},
        }
    }
}

/// Over any sequence of key events, the input byte is the sum, that is the
/// OR, of the bits of the buttons whose key's last event was a press (or,
/// with none, that were held before).
pub proof fn lemma_keys_decide_input(h: NESInputHandler, events: Seq<(char, bool)>)
    ensures
        after_keys(h, events).input_byte() == 128 * held(
            last_event_press(events, NesButton::A, h.a_pressed),
        ) + 64 * held(last_event_press(events, NesButton::B, h.b_pressed)) + 32 * held(
            last_event_press(events, NesButton::Select, h.select_pressed),
        ) + 16 * held(last_event_press(events, NesButton::Start, h.start_pressed)) + 8 * held(
            last_event_press(events, NesButton::Up, h.up_pressed),
        ) + 4 * held(last_event_press(events, NesButton::Down, h.down_pressed)) + 2 * held(
            last_event_press(events, NesButton::Left, h.left_pressed),
        ) + held(last_event_press(events, NesButton::Right, h.right_pressed)),
{
    lemma_keys_decide_buttons(h, events, NesButton::A);
    lemma_keys_decide_buttons(h, events, NesButton::B);
    lemma_keys_decide_buttons(h, events, NesButton::Select);
    lemma_keys_decide_buttons(h, events, NesButton::Start);
    lemma_keys_decide_buttons(h, events, NesButton::Up);
    lemma_keys_decide_buttons(h, events, NesButton::Down);
    lemma_keys_decide_buttons(h, events, NesButton::Left);
    lemma_keys_decide_buttons(h, events, NesButton::Right);
}

/// Setting bit `m` (a power of two) of a byte whose bits from `m` down are
/// clear adds `m`, and leaves the bits below `m` clear.
proof fn lemma_or_fresh_bit(x: u8, m: u8)
    by (bit_vector)
    requires
        m == 0x80 || m == 0x40 || m == 0x20 || m == 0x10 || m == 0x08 || m == 0x04 || m == 0x02
            || m == 0x01,
        m == 0x80 ==> x == 0,
        m != 0x80 ==> x & (m * 2 - 1) as u8 == 0,
    ensures
        x | m == x + m,
        (x | m) & (m - 1) as u8 == 0,
        x & (m - 1) as u8 == 0,
{
}

impl NESInputHandler {
    /// Whether `button` is held.
    pub open spec fn is_held(self, button: NesButton) -> bool {
        match button {
            NesButton::A => self.a_pressed,
            NesButton::B => self.b_pressed,
            NesButton::Select => self.select_pressed,
            NesButton::Start => self.start_pressed,
            NesButton::Up => self.up_pressed,
            NesButton::Down => self.down_pressed,
            NesButton::Left => self.left_pressed,
            NesButton::Right => self.right_pressed,
        }
    }

    /// The handler with `button` held or released and the others as they
    /// were.
    pub open spec fn with_button(self, button: NesButton, pressed: bool) -> NESInputHandler {
        match button {
            NesButton::A => NESInputHandler { a_pressed: pressed, ..self },
            NesButton::B => NESInputHandler { b_pressed: pressed, ..self },
            NesButton::Select => NESInputHandler { select_pressed: pressed, ..self },
            NesButton::Start => NESInputHandler { start_pressed: pressed, ..self },
            NesButton::Up => NESInputHandler { up_pressed: pressed, ..self },
            NesButton::Down => NESInputHandler { down_pressed: pressed, ..self },
            NesButton::Left => NESInputHandler { left_pressed: pressed, ..self },
            NesButton::Right => NESInputHandler { right_pressed: pressed, ..self },
        }
    }

    /// The byte that the joypad shifts out, from bit 7 to bit 0: A, B,
    /// Select, Start, Up, Down, Left, Right.
    pub open spec fn input_byte(self) -> int {
        128 * held(self.a_pressed) + 64 * held(self.b_pressed) + 32 * held(self.select_pressed) + 16
            * held(self.start_pressed) + 8 * held(self.up_pressed) + 4 * held(self.down_pressed)
            + 2 * held(self.left_pressed) + held(self.right_pressed)
    }

    /// No button held.
    pub fn new() -> (r: NESInputHandler)
        ensures
            forall|b: NesButton| !r.is_held(b),
    {
        NESInputHandler {
            a_pressed: false,
            b_pressed: false,
            start_pressed: false,
            select_pressed: false,
            up_pressed: false,
            down_pressed: false,
            left_pressed: false,
            right_pressed: false,
        }
    }

    /// A key went down (`pressed`) or up: the button it stands for follows
    /// it; other keys change nothing.
    pub fn handle_keyboard_input(&mut self, key: char, pressed: bool)
        ensures
            *final(self) == match key_button(key) {
                Some(b) => old(self).with_button(b, pressed),
                None => *old(self),
            },
    {
        if key == 'W' {
            self.up_pressed = pressed;
        } else if key == 'A' {
            self.left_pressed = pressed;
        } else if key == 'S' {
            self.down_pressed = pressed;
        } else if key == 'D' {
            self.right_pressed = pressed;
        } else if key == 'M' {
            self.b_pressed = pressed;
        } else if key == 'N' {
            self.a_pressed = pressed;
        } else if key == 'J' {
            self.start_pressed = pressed;
        } else if key == 'H' {
            self.select_pressed = pressed;
        }
    }

    /// The state of the joypad as the controller port shifts it out.
    pub fn get_input_byte(&self) -> (r: u8)
        ensures
            r == self.input_byte(),
    {
        let mut result: u8 = 0;
        proof {
            lemma_or_fresh_bit(0, 0x80);
        }
        if self.a_pressed {
            result = result | 0b10000000;
        }
        proof {
            lemma_or_fresh_bit(result, 0x40);
        }
        if self.b_pressed {
            result = result | 0b01000000;
        }
        proof {
            lemma_or_fresh_bit(result, 0x20);
        }
        if self.select_pressed {
            result = result | 0b00100000;
        }
        proof {
            lemma_or_fresh_bit(result, 0x10);
        }
        if self.start_pressed {
            result = result | 0b00010000;
        }
        proof {
            lemma_or_fresh_bit(result, 0x08);
        }
        if self.up_pressed {
            result = result | 0b00001000;
        }
        proof {
            lemma_or_fresh_bit(result, 0x04);
        }
        if self.down_pressed {
            result = result | 0b00000100;
        }
        proof {
            lemma_or_fresh_bit(result, 0x02);
        }
        if self.left_pressed {
            result = result | 0b00000010;
        }
        proof {
            lemma_or_fresh_bit(result, 0x01);
        }
        if self.right_pressed {
            result = result | 0b00000001;
        }
        result
    }
}

/// The abstract state of the console: the CPU with everything on its bus,
/// and the count of CPU cycles run.
pub struct NesView {
    pub cpu: CpuView,
    pub current_cycle: u64,
}

/// The CPU with one PPU cycle run on its bus.
pub open spec fn ppu_ran(c: CpuView) -> CpuView {
    CpuView { bus: BusView { ppu: c.bus.ppu.clock(), ..c.bus }, ..c }
}

/// The CPU with the PPU's interrupt request acknowledged.
pub open spec fn nmi_acknowledged(c: CpuView) -> CpuView {
    CpuView { bus: BusView { ppu: PpuView { trigger_cpu_nmi: false, ..c.bus.ppu }, ..c.bus }, ..c }
}

/// A PPU cycle, after which a pending NMI request of the PPU is acknowledged
/// and taken by the CPU.
pub open spec fn ppu_cycle_of(c: CpuView) -> CpuView {
    let p = ppu_ran(c);
    if p.bus.ppu.trigger_cpu_nmi {
        nmi_acknowledged(p).nmi()
    } else {
        p
    }
}

/// The PPU cycle is defined and the interrupt it may ask for reads its
/// vector and pushes its state without a failed bus access.
pub open spec fn ppu_cycle_ok(c: CpuView) -> bool {
    &&& c.bus.ppu.clock_defined()
    &&& ppu_ran(c).bus.ppu.trigger_cpu_nmi ==> !nmi_acknowledged(ppu_ran(c)).nmi().fault
}

/// Three PPU cycles, each with the interrupt it may ask for.
pub open spec fn three_ppu_cycles(c: CpuView) -> CpuView {
    ppu_cycle_of(ppu_cycle_of(ppu_cycle_of(c)))
}

/// The three PPU cycles are defined and run without a failed bus access.
pub open spec fn three_ppu_cycles_ok(c: CpuView) -> bool {
    &&& ppu_cycle_ok(c)
    &&& ppu_cycle_ok(ppu_cycle_of(c))
    &&& ppu_cycle_ok(ppu_cycle_of(ppu_cycle_of(c)))
}

impl NesView {
    /// One cycle of the console: a CPU cycle, then three PPU cycles (the PPU
    /// runs three times as fast as the CPU), each with the interrupt it may
    /// ask for.
    #[verifier::opaque]
    pub open spec fn clock(self) -> NesView {
        NesView {
            cpu: three_ppu_cycles(self.cpu.clock_cycle()),
            current_cycle: u64_specs::wrapping_add(self.current_cycle, 1),
        }
    }

    /// The cycle runs without a failed bus access, and its PPU cycles are
    /// defined.
    #[verifier::opaque]
    pub open spec fn clock_ok(self) -> bool {
        &&& !self.cpu.clock_cycle().fault
        &&& three_ppu_cycles_ok(self.cpu.clock_cycle())
    }
}

impl NesView {
    /// The PPU stands within its frame: scanline -1 to 260, cycle 0 to 340.
    pub open spec fn in_frame(self) -> bool {
        -1 <= self.cpu.bus.ppu.scan_line <= 260 && 0 <= self.cpu.bus.ppu.cycle <= 340
    }

    /// The PPU cycles left until the frame is completed; none once it is.
    pub open spec fn cycles_to_frame_end(self) -> int {
        self.cpu.bus.ppu.cycles_to_frame_end()
    }

    /// The console run cycle by cycle until the PPU has completed its frame.
    pub open spec fn frame_run(self) -> NesView
        decreases self.cycles_to_frame_end(),
        when self.settled()
    {
        if self.cpu.bus.ppu.frame_render_complete {
            self
        } else {
            proof {
                lemma_console_clock_moves_on(self);
            }
            self.clock().frame_run()
        }
    }

    /// Every cycle of `frame_run` runs without a failed bus access.
    pub open spec fn frame_run_ok(self) -> bool
        decreases self.cycles_to_frame_end(),
        when self.settled()
    {
        if self.cpu.bus.ppu.frame_render_complete {
            true
        } else {
            proof {
                lemma_console_clock_moves_on(self);
            }
            self.clock_ok() && self.clock().frame_run_ok()
        }
    }
}

impl NesView {
    /// The console with `input` as the buttons held on the first joypad.
    pub open spec fn with_input(self, input: u8) -> NesView {
        NesView {
            cpu: CpuView {
                bus: BusView {
                    controller: Controller {
                        emulator_input: vstd::array::spec_array_update(
                            self.cpu.bus.controller.emulator_input,
                            0,
                            input,
                        ),
                        ..self.cpu.bus.controller
                    },
                    ..self.cpu.bus
                },
                ..self.cpu
            },
            ..self
        }
    }

    /// A frame of the emulator: the joypad's buttons latched, the console run
    /// until the PPU completes the frame, and the frame flag cleared for the
    /// next one.
    pub open spec fn next_frame(self, input: u8) -> NesView {
        let r = self.with_input(input).clock().frame_run();
        NesView {
            cpu: CpuView {
                bus: BusView {
                    ppu: PpuView { frame_render_complete: false, ..r.cpu.bus.ppu },
                    ..r.cpu.bus
                },
                ..r.cpu
            },
            ..r
        }
    }

    /// The frame runs without a failed bus access.
    pub open spec fn next_frame_ok(self, input: u8) -> bool {
        let s = self.with_input(input);
        s.clock_ok() && s.clock().frame_run_ok()
    }
}

/// The palette in which the pattern tables are drawn next: the following one
/// of the eight, back to the first after the last.
pub fn next_pattern_table_palette(palette_id: u8) -> (r: u8)
    ensures
        r == if palette_id >= 7 {
            0
        } else {
            palette_id + 1
        },
{
    let next = palette_id.wrapping_add(1);
    if next > 7 {
        0
    } else {
        next
    }
}

impl NesView {
    /// The PPU cycles before the one that starts vertical blank.
    pub open spec fn cycles_to_vblank_start(self) -> int {
        self.cpu.bus.ppu.cycles_to_vblank_start()
    }

    /// What is left of the current instruction: its cycles, and nine more
    /// while an NMI may come before they run out (an NMI loads eight).
    pub open spec fn instruction_measure(self) -> int {
        let r = self.cpu.remaining as int;
        r + if self.cycles_to_vblank_start() <= 6 * r {
            9int
        } else {
            0int
        }
    }

    /// Between console cycles the PPU has no NMI request pending: the cycle
    /// that raises one hands it to the CPU.
    pub open spec fn settled(self) -> bool {
        self.in_frame() && !self.cpu.bus.ppu.trigger_cpu_nmi
    }

    /// The console run cycle by cycle until the CPU has no cycles left of
    /// its current instruction.
    pub open spec fn instruction_run(self) -> NesView
        decreases self.instruction_measure(),
        when self.settled()
    {
        if self.cpu.remaining == 0 {
            self
        } else {
            proof {
                lemma_console_clock_nears_instruction_end(self);
            }
            self.clock().instruction_run()
        }
    }

    /// Every cycle of `instruction_run` runs without a failed bus access.
    pub open spec fn instruction_run_ok(self) -> bool
        decreases self.instruction_measure(),
        when self.settled()
    {
        if self.cpu.remaining == 0 {
            true
        } else {
            proof {
                lemma_console_clock_nears_instruction_end(self);
            }
            self.clock_ok() && self.clock().instruction_run_ok()
        }
    }

    /// One whole instruction: a cycle, then the cycles that the instruction
    /// still has.
    pub open spec fn next_instruction(self) -> NesView {
        self.clock().instruction_run()
    }

    /// `next_instruction` runs without a failed bus access.
    pub open spec fn next_instruction_ok(self) -> bool {
        self.clock_ok() && self.clock().instruction_run_ok()
    }

    /// `count` whole instructions, one after the other.
    pub open spec fn instructions(self, count: nat) -> NesView
        decreases count,
    {
        if count == 0 {
            self
        } else {
            self.next_instruction().instructions((count - 1) as nat)
        }
    }

    /// Every one of `count` instructions runs without a failed bus access.
    pub open spec fn instructions_ok(self, count: nat) -> bool
        decreases count,
    {
        if count == 0 {
            true
        } else {
            self.next_instruction_ok() && self.next_instruction().instructions_ok((count - 1) as nat)
        }
    }
}

/// A frame run from within a frame ends in the console cycle in which the
/// PPU completes it: on the pre-render scanline (-1), within its first three
/// cycles.
pub proof fn lemma_frame_run_ends_at_frame_start(s: NesView)
    requires
        s.settled(),
        !s.cpu.bus.ppu.frame_render_complete,
    ensures
        s.frame_run().cpu.bus.ppu.frame_render_complete,
        s.frame_run().cpu.bus.ppu.scan_line == -1,
        0 <= s.frame_run().cpu.bus.ppu.cycle <= 2,
    decreases s.cycles_to_frame_end(),
{
    lemma_console_clock_moves_on(s);
    assert(s.frame_run() == s.clock().frame_run());
    if !s.clock().cpu.bus.ppu.frame_render_complete {
        lemma_frame_run_ends_at_frame_start(s.clock());
    } else {
        assert(s.clock().frame_run() == s.clock());
    }
}

/// One PPU cycle with its interrupt hand-over, seen from the CPU, keeps the
/// PPU within its frame and with no request pending; it either completes the
/// frame or brings its end nearer, and a completed frame stays completed.
pub proof fn lemma_ppu_cycle_of_frame(c: CpuView)
    requires
        -1 <= c.bus.ppu.scan_line <= 260,
        0 <= c.bus.ppu.cycle <= 340,
        !c.bus.ppu.trigger_cpu_nmi,
    ensures
        ({
            let p = c.bus.ppu;
            let q = ppu_cycle_of(c).bus.ppu;
            &&& -1 <= q.scan_line <= 260
            &&& 0 <= q.cycle <= 340
            &&& !q.trigger_cpu_nmi
            &&& p.frame_render_complete ==> q.frame_render_complete
            &&& !p.frame_render_complete ==> q.frame_render_complete || q.cycles_to_frame_end()
                < p.cycles_to_frame_end()
            &&& !p.frame_render_complete && q.frame_render_complete ==> q.scan_line == -1
                && q.cycle == 0
            &&& p.scan_line == -1 && p.cycle < 340 ==> q.scan_line == -1 && q.cycle == p.cycle + 1
        }),
{
    let p = ppu_ran(c);
    lemma_clock_moves_on(c.bus.ppu);
    if p.bus.ppu.trigger_cpu_nmi {
        lemma_nmi_keeps_timing(nmi_acknowledged(p));
    }
}

/// One PPU cycle with its interrupt hand-over brings the start of vertical
/// blank one or two cycles nearer and leaves the CPU's cycle count alone,
/// except in the cycle that starts vertical blank: after it the next start
/// is a frame away and the count may be the eight of an NMI.
pub proof fn lemma_ppu_cycle_of_vblank(c: CpuView)
    requires
        -1 <= c.bus.ppu.scan_line <= 260,
        0 <= c.bus.ppu.cycle <= 340,
        !c.bus.ppu.trigger_cpu_nmi,
    ensures
        ({
            let d = ppu_cycle_of(c);
            let p = c.bus.ppu;
            let q = d.bus.ppu;
            &&& p.cycles_to_vblank_start() > 0 ==> p.cycles_to_vblank_start() - 2
                <= q.cycles_to_vblank_start() < p.cycles_to_vblank_start() && d.remaining
                == c.remaining
            &&& p.cycles_to_vblank_start() == 0 ==> q.cycles_to_vblank_start() == 262 * 341 - 1
                && (d.remaining == c.remaining || d.remaining == 8)
        }),
{
    let p = ppu_ran(c);
    lemma_clock_nears_vblank(c.bus.ppu);
    if p.bus.ppu.trigger_cpu_nmi {
        lemma_nmi_keeps_timing(nmi_acknowledged(p));
    }
}

/// A console cycle keeps the console settled, and while the CPU's current
/// instruction has cycles left, it brings the instruction's end nearer: a
/// cycle is used up, and an NMI, which loads eight cycles, can come only
/// once before the end.
pub proof fn lemma_console_clock_nears_instruction_end(s: NesView)
    requires
        s.settled(),
    ensures
        s.clock().settled(),
        s.cpu.remaining > 0 ==> s.clock().instruction_measure() < s.instruction_measure(),
{
    reveal(NesView::clock);
    let c0 = s.cpu.clock_cycle();
    lemma_cpu_cycle_keeps_timing(s.cpu);
    let c1 = ppu_cycle_of(c0);
    let c2 = ppu_cycle_of(c1);
    lemma_ppu_cycle_of_frame(c0);
    lemma_ppu_cycle_of_frame(c1);
    lemma_ppu_cycle_of_frame(c2);
    lemma_ppu_cycle_of_vblank(c0);
    lemma_ppu_cycle_of_vblank(c1);
    lemma_ppu_cycle_of_vblank(c2);
}

/// A console cycle keeps the PPU within its frame, and either completes the
/// frame or brings its end nearer.
#[verifier::spinoff_prover]
#[verifier::rlimit(40)]
pub proof fn lemma_console_clock_moves_on(s: NesView)
    requires
        s.settled(),
    ensures
        s.clock().settled(),
        s.cpu.bus.ppu.frame_render_complete ==> s.clock().cpu.bus.ppu.frame_render_complete,
        !s.cpu.bus.ppu.frame_render_complete ==> s.clock().cycles_to_frame_end()
            < s.cycles_to_frame_end(),
        !s.cpu.bus.ppu.frame_render_complete && s.clock().cpu.bus.ppu.frame_render_complete
            ==> s.clock().cpu.bus.ppu.scan_line == -1 && 0 <= s.clock().cpu.bus.ppu.cycle <= 2,
{
    reveal(NesView::clock);
    let c0 = s.cpu.clock_cycle();
    lemma_cpu_cycle_keeps_timing(s.cpu);
    let c1 = ppu_cycle_of(c0);
    let c2 = ppu_cycle_of(c1);
    assert(c0.bus.ppu.cycles_to_frame_end() == s.cpu.bus.ppu.cycles_to_frame_end());
    lemma_ppu_cycle_of_frame(c0);
    lemma_ppu_cycle_of_frame(c1);
    lemma_ppu_cycle_of_frame(c2);
    assert(s.clock().cpu == ppu_cycle_of(c2));
}

/// The emulated console: the CPU, which owns the bus and through it the PPU,
/// the cartridge and the controllers, and the count of cycles run.
pub struct RustNESs {
    pub cpu: Ben6502,
    pub current_cycle: u64,
}

impl View for RustNESs {
    type V = NesView;

    open spec fn view(&self) -> NesView {
        NesView { cpu: self.cpu@, current_cycle: self.current_cycle }
    }
}

impl RustNESs {
    pub open spec fn wf(&self) -> bool {
        self.cpu.wf()
    }

    /// A console around `cpu`, at cycle 0.
    pub fn new(cpu: Ben6502) -> (r: RustNESs)
        ensures
            r@.cpu == cpu@,
            r@.current_cycle == 0,
    {
        RustNESs { cpu, current_cycle: 0 }
    }

    /// The PPU's cycle, and the interrupt that it may ask for.
    #[verifier::spinoff_prover]
    #[verifier::rlimit(40)]
    fn ppu_cycle(&mut self)
        requires
            old(self).wf(),
            ppu_cycle_ok(old(self).cpu@),
        ensures
            final(self).wf(),
            final(self).current_cycle == old(self).current_cycle,
            final(self).cpu@ == ppu_cycle_of(old(self).cpu@),
    {
        self.cpu.bus.PPU.clock_cycle();
        assert(self.cpu@ == ppu_ran(old(self).cpu@));
        if self.cpu.bus.PPU.trigger_cpu_nmi {
            self.cpu.bus.PPU.trigger_cpu_nmi = false;
            assert(self.cpu@ == nmi_acknowledged(ppu_ran(old(self).cpu@)));
            self.cpu.nmi();
        }
    }

    /// Runs one cycle of the console.
    pub fn clock_cycle(&mut self)
        requires
            old(self).wf(),
            old(self)@.clock_ok(),
        ensures
            final(self).wf(),
            final(self)@ == old(self)@.clock(),
    {
        proof {
            reveal(NesView::clock);
            reveal(NesView::clock_ok);
        }
        self.cpu.clock_cycle();
        self.ppu_cycle();
        self.ppu_cycle();
        self.ppu_cycle();
        self.current_cycle = self.current_cycle.wrapping_add(1);
    }
}

/// Whether `addr` is one of the PPU's registers on the CPU bus, where a read
/// changes the PPU's state.
pub open spec fn in_ppu_registers(addr: u16) -> bool {
    PPU_MEMORY_BOUNDS.0 <= addr <= PPU_MEMORY_BOUNDS.1
}

/// The end of the 16-byte window at the program counter; an empty window
/// where it would pass 0xFFFF.
pub open spec fn program_window_end(pc: u16) -> u16 {
    if pc + 16 <= 0xFFFF {
        (pc + 16) as u16
    } else {
        pc
    }
}

/// The shown contents of memory.
pub struct MemoryVisualizerView {
    pub ram_start_addr: u16,
    pub ram_end_addr: u16,
    pub pc_start_addr: u16,
    pub pc_end_addr: u16,
    pub stack_start_addr: u16,
    pub stack_end_addr: u16,
    pub ram_content: Seq<char>,
    pub program_content_text: Seq<char>,
    pub program_content: Seq<u8>,
    pub stack_content: Seq<char>,
}

impl MemoryVisualizerView {
    /// The windows after an update for the registers `regs`: the program
    /// window at PC, the stack window from 40 bytes below SP to 4 above.
    pub open spec fn windows(self, regs: Registers) -> MemoryVisualizerView {
        MemoryVisualizerView {
            pc_start_addr: regs.pc,
            pc_end_addr: program_window_end(regs.pc),
            stack_start_addr: (0x100 + regs.sp - 40) as u16,
            stack_end_addr: (0x100 + regs.sp + 4) as u16,
            ..self
        }
    }

    /// Whether a window's bound falls on the PPU's registers.
    pub open spec fn touches_ppu(self) -> bool {
        ||| in_ppu_registers(self.pc_start_addr)
        ||| in_ppu_registers(self.pc_end_addr)
        ||| in_ppu_registers(self.stack_start_addr)
        ||| in_ppu_registers(self.stack_end_addr)
        ||| in_ppu_registers(self.ram_start_addr)
        ||| in_ppu_registers(self.ram_end_addr)
    }

    /// The four dumps of an update, one after the other on the bus: RAM,
    /// the program window as text and as bytes, the stack; and the bus after
    /// them.
    pub open spec fn dumps(self, b0: BusView) -> (MemoryVisualizerView, BusView) {
        let (ram, b1) = b0.read_range(self.ram_start_addr, span(self.ram_start_addr, self.ram_end_addr));
        let (prog, b2) = b1.read_range(self.pc_start_addr, span(self.pc_start_addr, self.pc_end_addr));
        let (prog2, b3) = b2.read_range(self.pc_start_addr, span(self.pc_start_addr, self.pc_end_addr));
        let (stack, b4) = b3.read_range(
            self.stack_start_addr,
            span(self.stack_start_addr, self.stack_end_addr),
        );
        (
            MemoryVisualizerView {
                ram_content: hex_dump(ram),
                program_content_text: hex_dump(prog),
                program_content: prog2,
                stack_content: hex_dump(stack),
                ..self
            },
            b4,
        )
    }

    /// Every read of the four dumps is defined.
    pub open spec fn dumps_readable(self, b0: BusView) -> bool {
        let b1 = b0.read_range(self.ram_start_addr, span(self.ram_start_addr, self.ram_end_addr)).1;
        let b2 = b1.read_range(self.pc_start_addr, span(self.pc_start_addr, self.pc_end_addr)).1;
        let b3 = b2.read_range(self.pc_start_addr, span(self.pc_start_addr, self.pc_end_addr)).1;
        &&& b0.range_readable(self.ram_start_addr, span(self.ram_start_addr, self.ram_end_addr))
        &&& b1.range_readable(self.pc_start_addr, span(self.pc_start_addr, self.pc_end_addr))
        &&& b2.range_readable(self.pc_start_addr, span(self.pc_start_addr, self.pc_end_addr))
        &&& b3.range_readable(self.stack_start_addr, span(self.stack_start_addr, self.stack_end_addr))
    }
}

/// The memory windows shown beside the emulator: a RAM window, 16 bytes at the
/// program counter, and the stack around the stack pointer.
pub struct MemoryVisualizer {
    pub ram_start_addr: u16,
    pub ram_end_addr: u16,
    pub pc_start_addr: u16,
    pub pc_end_addr: u16,
    pub stack_start_addr: u16,
    pub stack_end_addr: u16,
    pub ram_content_str: String,
    pub program_content_str: String,
    pub program_content: Vec<u8>,
    pub stack_content_str: String,
}

impl View for MemoryVisualizer {
    type V = MemoryVisualizerView;

    open spec fn view(&self) -> MemoryVisualizerView {
        MemoryVisualizerView {
            ram_start_addr: self.ram_start_addr,
            ram_end_addr: self.ram_end_addr,
            pc_start_addr: self.pc_start_addr,
            pc_end_addr: self.pc_end_addr,
            stack_start_addr: self.stack_start_addr,
            stack_end_addr: self.stack_end_addr,
            ram_content: self.ram_content_str@,
            program_content_text: self.program_content_str@,
            program_content: self.program_content@,
            stack_content: self.stack_content_str@,
        }
    }
}

impl MemoryVisualizer {
    /// Moves the program and stack windows to the CPU's registers and dumps
    /// the four windows. A window bound on the PPU's registers, whose reads
    /// would change the emulation, is refused: nothing is read then.
    pub fn update(&mut self, cpu: &mut Ben6502) -> (r: Result<(), String>)
        requires
            old(cpu).wf(),
            !old(self)@.windows(old(cpu)@.regs).touches_ppu() ==> old(self)@.windows(
                old(cpu)@.regs,
            ).dumps_readable(old(cpu)@.bus),
        ensures
            final(cpu).wf(),
            r is Err <==> old(self)@.windows(old(cpu)@.regs).touches_ppu(),
            r is Ok ==> final(self)@ == old(self)@.windows(old(cpu)@.regs).dumps(old(cpu)@.bus).0,
            r is Ok ==> final(cpu)@ == (CpuView {
                bus: old(self)@.windows(old(cpu)@.regs).dumps(old(cpu)@.bus).1,
                ..old(cpu)@
            }),
            r is Err ==> final(self)@ == old(self)@.windows(old(cpu)@.regs),
            r is Err ==> *final(cpu) == *old(cpu),
    {
        self.pc_start_addr = cpu.registers.pc;
        if (cpu.registers.pc as u32 + 16) <= 0xFFFF {
            self.pc_end_addr = cpu.registers.pc + 16;
        } else {
            self.pc_end_addr = self.pc_start_addr;
        }
        self.stack_start_addr = STACK_START_ADDR + cpu.registers.sp as u16 - 40;
        self.stack_end_addr = STACK_START_ADDR + cpu.registers.sp as u16 + 4;
        let lo = PPU_MEMORY_BOUNDS.0;
        let hi = PPU_MEMORY_BOUNDS.1;
        if (self.pc_start_addr >= lo && self.pc_start_addr <= hi) || (self.pc_end_addr >= lo
            && self.pc_end_addr <= hi) || (self.stack_start_addr >= lo && self.stack_start_addr
            <= hi) || (self.stack_end_addr >= lo && self.stack_end_addr <= hi) || (
        self.ram_start_addr >= lo && self.ram_start_addr <= hi) || (self.ram_end_addr >= lo
            && self.ram_end_addr <= hi) {
            return Err(
                String::from_str(
                    "Memory visualizer is reading from PPU memory bounds, which might alter the state of the emulation!",
                ),
            );
        }
        self.ram_content_str = cpu.bus.get_memory_content_as_string(
            self.ram_start_addr,
            self.ram_end_addr,
        );
        self.program_content_str = cpu.bus.get_memory_content_as_string(
            self.pc_start_addr,
            self.pc_end_addr,
        );
        self.program_content = cpu.bus.get_memory_content_as_vec(
            self.pc_start_addr,
            self.pc_end_addr,
        );
        self.stack_content_str = cpu.bus.get_memory_content_as_string(
            self.stack_start_addr,
            self.stack_end_addr,
        );
        Ok(())
    }
}

/// Whether the reads from `start` up to `end` stay clear of the PPU's
/// registers.
pub open spec fn range_clear_of_ppu(start: u16, end: u16) -> bool {
    span(start, end) == 0 || end <= 0x2000 || 0x3FFF < start
}

fn is_range_clear_of_ppu(start: u16, end: u16) -> (r: bool)
    ensures
        r == range_clear_of_ppu(start, end),
{
    start >= end || end <= 0x2000 || start > 0x3FFF
}

impl MemoryVisualizer {
    /// Whether the reads of the four dumps that `update` takes on `cpu` are
    /// all defined, for a caller to test before the update: the cartridge
    /// holds its program banks and no window reaches into the PPU's registers
    /// (a window that spans them reads the scroll register, which cannot be
    /// read).
    pub fn dumps_defined(&self, cpu: &Ben6502) -> (r: bool)
        requires
            cpu.wf(),
        ensures
            r ==> self@.windows(cpu@.regs).dumps_readable(cpu@.bus),
            r <==> {
                let w = self@.windows(cpu@.regs);
                &&& cpu@.bus.ppu.cartridge.prg_covers_window()
                &&& range_clear_of_ppu(w.ram_start_addr, w.ram_end_addr)
                &&& range_clear_of_ppu(w.pc_start_addr, w.pc_end_addr)
                &&& range_clear_of_ppu(w.stack_start_addr, w.stack_end_addr)
            },
    {
        let pc_start = cpu.registers.pc;
        let pc_end = if (pc_start as u32 + 16) <= 0xFFFF {
            pc_start + 16
        } else {
            pc_start
        };
        let stack_start = STACK_START_ADDR + cpu.registers.sp as u16 - 40;
        let stack_end = STACK_START_ADDR + cpu.registers.sp as u16 + 4;
        let cart = &cpu.bus.PPU.cartridge;
        let covered = if cart.mapper.num_PRG_banks > 1 {
            cart.PRG_data.len() >= 0x8000
        } else {
            cart.PRG_data.len() >= 0x4000
        };
        let r = covered && is_range_clear_of_ppu(self.ram_start_addr, self.ram_end_addr)
            && is_range_clear_of_ppu(pc_start, pc_end) && is_range_clear_of_ppu(
            stack_start,
            stack_end,
        );
        proof {
            if r {
                let w = self@.windows(cpu@.regs);
                let b0 = cpu@.bus;
                let n_ram = span(w.ram_start_addr, w.ram_end_addr);
                let n_pc = span(w.pc_start_addr, w.pc_end_addr);
                let n_stack = span(w.stack_start_addr, w.stack_end_addr);
                lemma_range_clear_of_ppu_readable(b0, w.ram_start_addr, n_ram);
                let b1 = b0.read_range(w.ram_start_addr, n_ram).1;
                lemma_range_clear_of_ppu_readable(b1, w.pc_start_addr, n_pc);
                let b2 = b1.read_range(w.pc_start_addr, n_pc).1;
                lemma_range_clear_of_ppu_readable(b2, w.pc_start_addr, n_pc);
                let b3 = b2.read_range(w.pc_start_addr, n_pc).1;
                lemma_range_clear_of_ppu_readable(b3, w.stack_start_addr, n_stack);
            }
        }
        r
    }
}

impl RustNESs {
    /// Runs cycles until the PPU has completed its frame: one cycle, then as
    /// many as the frame still needs.
    pub fn run_frame(&mut self)
        requires
            old(self).wf(),
            !old(self)@.cpu.bus.ppu.trigger_cpu_nmi,
            old(self)@.clock_ok(),
            old(self)@.clock().frame_run_ok(),
        ensures
            final(self).wf(),
            !final(self)@.cpu.bus.ppu.trigger_cpu_nmi,
            final(self)@ == old(self)@.clock().frame_run(),
            final(self)@.cpu.bus.ppu.frame_render_complete,
    {
        proof {
            lemma_console_clock_moves_on(old(self)@);
        }
        self.clock_cycle();
        while !self.cpu.bus.PPU.frame_render_complete
            invariant
                self.wf(),
                self@.settled(),
                self@.frame_run_ok(),
                self@.frame_run() == old(self)@.clock().frame_run(),
            decreases self@.cycles_to_frame_end(),
        {
            proof {
                lemma_console_clock_moves_on(self@);
            }
            self.clock_cycle();
        }
    }
}

impl RustNESs {
    /// Emulates one frame with `input` held on the first joypad.
    pub fn next_frame(&mut self, input: u8)
        requires
            old(self).wf(),
            !old(self)@.cpu.bus.ppu.trigger_cpu_nmi,
            old(self)@.next_frame_ok(input),
        ensures
            final(self).wf(),
            !final(self)@.cpu.bus.ppu.trigger_cpu_nmi,
            final(self)@ == old(self)@.next_frame(input),
    {
        self.cpu.bus.controller.emulator_input[0] = input;
        assert(self.cpu.bus.controller.emulator_input =~= old(self)@.with_input(
            input,
        ).cpu.bus.controller.emulator_input);
        assert(self@ == old(self)@.with_input(input));
        self.run_frame();
        let ghost r = self@;
        self.cpu.bus.PPU.frame_render_complete = false;
        assert(self@.cpu.bus.ppu == (PpuView { frame_render_complete: false, ..r.cpu.bus.ppu }));
        assert(self@.cpu.bus == (BusView {
            ppu: PpuView { frame_render_complete: false, ..r.cpu.bus.ppu },
            ..r.cpu.bus
        }));
    }
}

impl RustNESs {
    /// Runs the console through one whole instruction of the CPU.
    pub fn next_cpu_instruction(&mut self)
        requires
            old(self).wf(),
            !old(self)@.cpu.bus.ppu.trigger_cpu_nmi,
            old(self)@.next_instruction_ok(),
        ensures
            final(self).wf(),
            !final(self)@.cpu.bus.ppu.trigger_cpu_nmi,
            final(self)@ == old(self)@.next_instruction(),
    {
        proof {
            lemma_console_clock_nears_instruction_end(old(self)@);
        }
        self.clock_cycle();
        while self.cpu.current_instruction_remaining_cycles > 0
            invariant
                self.wf(),
                self@.settled(),
                self@.instruction_run_ok(),
                self@.instruction_run() == old(self)@.next_instruction(),
            decreases self@.instruction_measure(),
        {
            proof {
                lemma_console_clock_nears_instruction_end(self@);
            }
            self.clock_cycle();
        }
    }

    /// Runs the console through `count` whole instructions of the CPU.
    pub fn next_cpu_instructions(&mut self, count: u32)
        requires
            old(self).wf(),
            !old(self)@.cpu.bus.ppu.trigger_cpu_nmi,
            old(self)@.instructions_ok(count as nat),
        ensures
            final(self).wf(),
            !final(self)@.cpu.bus.ppu.trigger_cpu_nmi,
            final(self)@ == old(self)@.instructions(count as nat),
    {
        let mut i: u32 = 0;
        while i < count
            invariant
                0 <= i <= count,
                self.wf(),
                !self@.cpu.bus.ppu.trigger_cpu_nmi,
                self@.instructions_ok((count - i) as nat),
                self@.instructions((count - i) as nat) == old(self)@.instructions(count as nat),
            decreases count - i,
        {
            self.next_cpu_instruction();
            i = i + 1;
        }
    }
}

} // verus!
