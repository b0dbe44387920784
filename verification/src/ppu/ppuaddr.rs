//! The video memory address register. The processor loads a 16-bit address
//! into it one byte at a time, upper byte first; whether the next write is
//! the first or the second is tracked by an internal latch. Valid addresses
//! are $0000-$3FFF; anything higher is mirrored down.

use vstd::prelude::*;

verus! {

/// The two-byte address register and its write latch. The first element of
/// `value` is the high byte, the second the low byte; `hi_ptr` is true when
/// the next write supplies the high byte.
#[derive(Debug, Clone, Copy, PartialEq, Eq)]
pub struct PpuAddrRegister {
    /// high byte, then low byte
    pub value: (u8, u8),
    /// whether the next write supplies the high byte
    pub hi_ptr: bool,
}

/// The 16-bit address the register currently holds.
pub open spec fn spec_ppuaddr_get(s: PpuAddrRegister) -> int {
    s.value.0 * 256 + s.value.1
}

/// The register holding a given 16-bit address, with the latch unchanged.
pub open spec fn spec_ppuaddr_set(s: PpuAddrRegister, data: u16) -> PpuAddrRegister {
    PpuAddrRegister {
        value: ((data as int / 256) as u8, (data as int % 256) as u8),
        ..s
    }
}

/// The register after addresses above $3FFF are mirrored down into range.
pub open spec fn spec_ppuaddr_mirrored(s: PpuAddrRegister) -> PpuAddrRegister {
    if spec_ppuaddr_get(s) > 0x3FFF {
        spec_ppuaddr_set(s, (spec_ppuaddr_get(s) % 0x4000) as u16)
    } else {
        s
    }
}

/// The register after one processor write: the byte lands in the half the
/// latch designates, the address is mirrored down, and the latch flips.
pub open spec fn spec_ppuaddr_write(s: PpuAddrRegister, data: u8) -> PpuAddrRegister {
    let written = if s.hi_ptr {
        PpuAddrRegister { value: (data, s.value.1), ..s }
    } else {
        PpuAddrRegister { value: (s.value.0, data), ..s }
    };
    let mirrored = spec_ppuaddr_mirrored(written);
    PpuAddrRegister { hi_ptr: !s.hi_ptr, ..mirrored }
}

/// The register after an increment of the low byte with carry into the high
/// byte, mirrored down.
pub open spec fn spec_ppuaddr_increment(s: PpuAddrRegister, inc: u8) -> PpuAddrRegister {
    let lo = ((s.value.1 + inc) % 256) as u8;
    let hi = if s.value.1 > lo {
        ((s.value.0 + 1) % 256) as u8
    } else {
        s.value.0
    };
    spec_ppuaddr_mirrored(PpuAddrRegister { value: (hi, lo), ..s })
}

impl PpuAddrRegister {
    /// A fresh register: address zero, latch expecting the high byte.
    pub fn new() -> (r: PpuAddrRegister)
        ensures
            r.value == (0u8, 0u8),
            r.hi_ptr,
    {
        PpuAddrRegister { value: (0, 0), hi_ptr: true }
    }

    /// Loads a 16-bit address, high byte into the first element.
    fn set(&mut self, data: u16)
        ensures
            *final(self) == spec_ppuaddr_set(*old(self), data),
    {
        self.value.0 = (data >> 8) as u8;
        self.value.1 = (data & 0xff) as u8;
        proof {
            assert(data >> 8 == data / 256 && data & 0xff == data % 256) by (bit_vector);
        }
    }

    /// The 16-bit address the register holds.
    pub fn get(&self) -> (r: u16)
        ensures
            r == spec_ppuaddr_get(*self),
    {
        (self.value.0 as u16) * 256 + (self.value.1 as u16)
    }

    /// Mirrors addresses above $3FFF down into the valid range.
    fn mirror_down(&mut self)
        ensures
            *final(self) == spec_ppuaddr_mirrored(*old(self)),
    {
        if self.get() > 0x3fff {
            let masked = self.get() % 0x4000;
            self.set(masked);
        }
    }

    /// One processor write: the byte lands in the half the latch
    /// designates, the address mirrors down, and the latch flips.
    pub fn write(&mut self, data: u8)
        ensures
            *final(self) == spec_ppuaddr_write(*old(self), data),
    {
        if self.hi_ptr {
            self.value.0 = data;
        } else {
            self.value.1 = data;
        }
        self.mirror_down();
        self.hi_ptr = !self.hi_ptr;
    }

    /// Increments the address by `inc`, carrying from the low byte into the
    /// high byte, and mirrors it down.
    pub fn increment(&mut self, inc: u8)
        ensures
            *final(self) == spec_ppuaddr_increment(*old(self), inc),
    {
        let lo = self.value.1;
        self.value.1 = self.value.1.wrapping_add(inc);
        if lo > self.value.1 {
            self.value.0 = self.value.0.wrapping_add(1);
        }
        self.mirror_down();
    }

    /// Resets the write latch so the next write supplies the high byte.
    pub fn reset_latch(&mut self)
        ensures
            *final(self) == (PpuAddrRegister { hi_ptr: true, ..*old(self) }),
    {
        self.hi_ptr = true;
    }
}

} // verus!
