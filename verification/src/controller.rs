use vstd::prelude::*;
use vstd::string::StringExecFns;
use crate::device::Device;
use crate::utils::bitwise_utils::bit8;

verus! {

/// The two NES controller ports at 0x4016 and 0x4017.
///
/// The emulator keeps the buttons held on each pad in `emulator_input` (one bit
/// per button). A write to a port latches that byte into the port's shift
/// register; each read then answers the register's most significant bit and
/// shifts the register left by one.
pub struct Controller {
    pub data: [u8; 2],
    pub emulator_input: [u8; 2],
}

/// The port (0 or 1) that answers `addr`.
pub open spec fn controller_port(addr: u16) -> int {
    if addr == 0x4016 {
        0
    } else {
        1
    }
}

pub open spec fn controller_address(addr: u16) -> bool {
    addr == 0x4016 || addr == 0x4017
}

impl Controller {
    /// The shift register of port `port`.
    pub open spec fn shift_register(&self, port: int) -> u8 {
        self.data[port]
    }

    /// The controller after a read of `addr`: that port's shift register moves
    /// left by one.
    pub open spec fn after_read(&self, addr: u16) -> Controller {
        let port = controller_port(addr);
        Controller {
            data: vstd::array::spec_array_update(self.data, port, self.data[port] << 1u8),
            ..*self
        }
    }

    /// The controller after a write of `addr`: that port latches the held
    /// buttons.
    pub open spec fn after_write(&self, addr: u16) -> Controller {
        let port = controller_port(addr);
        Controller {
            data: vstd::array::spec_array_update(self.data, port, self.emulator_input[port]),
            ..*self
        }
    }

    /// The byte that a read of `addr` answers.
    pub open spec fn read_value(&self, addr: u16) -> u8 {
        bit8(self.shift_register(controller_port(addr)), 7)
    }

    pub fn new() -> (c: Self)
        ensures
            c.shift_register(0) == 0,
            c.shift_register(1) == 0,
            c.emulator_input[0] == 0,
            c.emulator_input[1] == 0,
    {
        Controller { data: [0; 2], emulator_input: [0; 2] }
    }

}

/// The shift register of a port that was loaded with `held` and then read `k`
/// times (each read shifts it left by one).
pub open spec fn shift_after_reads(held: u8, k: nat) -> u8
    decreases k,
{
    if k == 0 {
        held
    } else {
        shift_after_reads(held, (k - 1) as nat) << 1u8
    }
}

/// After a port latches the held buttons, its eight following reads answer the
/// buttons from bit 7 down to bit 0: read number `k` (from 0) answers bit `7 - k`.
pub proof fn lemma_latch_then_read_eight(held: u8, k: u8)
    requires
        k < 8,
    ensures
        bit8(shift_after_reads(held, k as nat), 7) == bit8(held, (7 - k) as u8),
    decreases k,
{
    lemma_shift_after_reads(held, k);
    assert(bit8(held << k, 7) == bit8(held, (7 - k) as u8)) by (bit_vector)
        requires
            k < 8,
    ;
}

proof fn lemma_shift_after_reads(held: u8, k: u8)
    requires
        k <= 8,
    ensures
        shift_after_reads(held, k as nat) == held << k,
    decreases k,
{
    if k == 0 {
        assert(held << 0u8 == held) by (bit_vector);
    } else {
        let j = (k - 1) as u8;
        lemma_shift_after_reads(held, j);
        assert((held << j) << 1u8 == held << k) by (bit_vector)
            requires
                j < 8,
                k == j + 1,
        ;
    }
}

impl Device for Controller {
    open spec fn inv(&self) -> bool {
        true
    }

    open spec fn readable(&self, addr: u16) -> bool {
        true
    }

    open spec fn writable(&self, addr: u16) -> bool {
        true
    }

    fn in_memory_bounds(&self, addr: u16) -> (r: bool)
        ensures
            r == controller_address(addr),
    {
        addr == 0x4016 || addr == 0x4017
    }

    fn write(&mut self, addr: u16, data: u8) -> (r: Result<(), String>)
        ensures
            r is Ok <==> controller_address(addr),
            final(self).emulator_input == old(self).emulator_input,
            controller_address(addr) ==> final(self).shift_register(controller_port(addr))
                == old(self).emulator_input[controller_port(addr)],
            controller_address(addr) ==> final(self).shift_register(1 - controller_port(addr))
                == old(self).shift_register(1 - controller_port(addr)),
            !controller_address(addr) ==> *final(self) == *old(self),
            controller_address(addr) ==> *final(self) == old(self).after_write(addr),
    {
        if addr == 0x4016 {
            self.data[0] = self.emulator_input[0];
            assert(self.data =~= old(self).after_write(addr).data);
            Ok(())
        } else if addr == 0x4017 {
            self.data[1] = self.emulator_input[1];
            assert(self.data =~= old(self).after_write(addr).data);
            Ok(())
        } else {
            Err(String::from_str("Read from controller but not from addresses 0x4016 or 0x4017"))
        }
    }

    fn read(&mut self, addr: u16) -> (r: Result<u8, String>)
        ensures
            r is Ok <==> controller_address(addr),
            final(self).emulator_input == old(self).emulator_input,
            controller_address(addr) ==> r == Ok::<u8, String>(old(self).read_value(addr)),
            controller_address(addr) ==> final(self).shift_register(controller_port(addr))
                == old(self).shift_register(controller_port(addr)) << 1u8,
            controller_address(addr) ==> final(self).shift_register(1 - controller_port(addr))
                == old(self).shift_register(1 - controller_port(addr)),
            !controller_address(addr) ==> *final(self) == *old(self),
            controller_address(addr) ==> *final(self) == old(self).after_read(addr),
    {
        if addr == 0x4016 {
            let d = self.data[0];
            let return_value = (d & 0x80 > 0) as u8;
            assert(return_value == bit8(d, 7)) by (bit_vector)
                requires
                    return_value == (if d & 0x80 > 0 { 1u8 } else { 0u8 }),
            ;
            let shifted = d << 1u8;
            self.data[0] = shifted;
            assert(self.data =~= old(self).after_read(addr).data);
            Ok(return_value)
        } else if addr == 0x4017 {
            let d = self.data[1];
            let return_value = (d & 0x80 > 0) as u8;
            assert(return_value == bit8(d, 7)) by (bit_vector)
                requires
                    return_value == (if d & 0x80 > 0 { 1u8 } else { 0u8 }),
            ;
            let shifted = d << 1u8;
            self.data[1] = shifted;
            assert(self.data =~= old(self).after_read(addr).data);
            Ok(return_value)
        } else {
            Err(String::from_str("Read from controller but not from addresses 0x4016 or 0x4017"))
        }
    }
}

} // verus!
