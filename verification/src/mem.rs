//! Flat 64 KiB byte-addressable memory and 16-bit word composition.
//!
//! Every address is valid: 16-bit address arithmetic wraps modulo 65536 and
//! 8-bit arithmetic wraps modulo 256, so no access can fail.  Words are
//! stored little-endian: low byte first, high byte at the next (wrapped)
//! address.

use vstd::prelude::*;

verus! {

/// Number of addressable bytes.
pub const MEMSIZE: usize = 65536;

/// Address of the low byte of the reset vector.
pub const RESET_VECTOR_LOBYTE: u16 = 0xfffc;
/// Address of the high byte of the reset vector.
pub const RESET_VECTOR_HIBYTE: u16 = 0xfffd;
/// Address of the low byte of the break/interrupt vector.
pub const BREAK_VECTOR_LOBYTE: u16 = 0xfffe;
/// Address of the high byte of the break/interrupt vector.
pub const BREAK_VECTOR_HIBYTE: u16 = 0xffff;

/// 16-bit wrap-around: the mathematical value reduced modulo 65536.
pub open spec fn wrap16(a: int) -> u16 {
    (a % 0x10000) as u16
}

/// 8-bit wrap-around: the mathematical value reduced modulo 256.
pub open spec fn wrap8(a: int) -> u8 {
    (a % 0x100) as u8
}

/// The word with the given low and high bytes (little-endian composition).
pub open spec fn word_of(lobyte: u8, hibyte: u8) -> u16 {
    (lobyte + hibyte * 0x100) as u16
}

/// Low byte of a word.
pub open spec fn lo_byte(w: u16) -> u8 {
    (w % 0x100) as u8
}

/// High byte of a word.
pub open spec fn hi_byte(w: u16) -> u8 {
    (w / 0x100) as u8
}

/// The little-endian word stored at `a`: low byte at `a`, high byte at
/// `a + 1`, each address wrapped independently.
pub open spec fn mem_word(m: Seq<u8>, a: u16) -> u16 {
    word_of(m[a as int], m[wrap16(a + 1) as int])
}

/// Byte-addressable memory of exactly 65536 locations, with an
/// optional registered device window.
///
/// The window marks an address range whose contents belong to an
/// external peripheral (a keyboard input port, say).  Reads and writes
/// keep their plain storage semantics — CPU-visible behavior is
/// unchanged — and the driver that owns the peripheral synchronizes the
/// window's bytes with the device between instruction steps, the only
/// suspension points.
pub struct Memory {
    pub mem: Vec<u8>,
    pub device_lo: u16,
    pub device_hi: u16,
    pub device_registered: bool,
}

impl Memory {
    /// The memory as a sequence of exactly 65536 bytes.
    pub open spec fn view(self) -> Seq<u8> {
        self.mem@
    }

    /// Well-formed memory holds exactly 65536 bytes, so every 16-bit
    /// address is in bounds.
    pub open spec fn wf(self) -> bool {
        self.view().len() == MEMSIZE
    }

    /// Whether an address falls in the registered device window.
    pub open spec fn in_device_window(self, a: u16) -> bool {
        self.device_registered && self.device_lo <= a <= self.device_hi
    }

    /// A fresh memory with every location zeroed and no device window.
    pub fn new() -> (r: Memory)
        ensures
            r.wf(),
            forall|a: int| 0 <= a < MEMSIZE ==> r@[a] == 0u8,
            forall|a: u16| !r.in_device_window(a),
    {
        let mut v: Vec<u8> = Vec::new();
        let mut i: usize = 0;
        while i < MEMSIZE
            invariant
                i <= MEMSIZE,
                v@.len() == i,
                forall|a: int| 0 <= a < i ==> v@[a] == 0u8,
            decreases MEMSIZE - i,
        {
            v.push(0);
            i += 1;
        }
        Memory { mem: v, device_lo: 0, device_hi: 0, device_registered: false }
    }

    /// Registers the address range `lo..=hi` as a device window.  The
    /// stored bytes are untouched; only the window marking changes.
    pub fn register_device_window(&mut self, lo: u16, hi: u16)
        requires
            old(self).wf(),
            lo <= hi,
        ensures
            final(self).wf(),
            final(self)@ == old(self)@,
            forall|a: u16| final(self).in_device_window(a) == (lo <= a <= hi),
    {
        self.device_lo = lo;
        self.device_hi = hi;
        self.device_registered = true;
    }

    /// Whether an address falls in the registered device window, so
    /// that a driver can forward its bytes to the peripheral.
    pub fn is_device_address(&self, a: u16) -> (r: bool)
        ensures
            r == self.in_device_window(a),
    {
        self.device_registered && self.device_lo <= a && a <= self.device_hi
    }

    /// The byte stored at `address`.  No failure path: every address is
    /// in range by the well-formedness invariant.
    pub fn read(&self, address: u16) -> (b: u8)
        requires
            self.wf(),
        ensures
            b == self@[address as int],
    {
        self.mem[address as usize]
    }

    /// Stores `value` at `address`; all other locations are unchanged.
    pub fn write(&mut self, address: u16, value: u8)
        requires
            old(self).wf(),
        ensures
            final(self).wf(),
            final(self)@ == old(self)@.update(address as int, value),
            forall|a: u16| final(self).in_device_window(a) == old(self).in_device_window(a),
    {
        self.mem[address as usize] = value;
    }

    /// The little-endian word at `address`: low byte there, high byte at
    /// the next address (wrapped modulo 65536).
    pub fn read_word(&self, address: u16) -> (w: u16)
        requires
            self.wf(),
        ensures
            w == mem_word(self@, address),
    {
        let lo = self.read(address);
        let hi = self.read(((address as u32 + 1) % 0x10000) as u16);
        byte_to_word(lo, hi)
    }
}

/// Composes two bytes into a word, little-endian: `lobyte` is the low
/// byte, `hibyte` the high byte.
pub fn byte_to_word(lobyte: u8, hibyte: u8) -> (w: u16)
    ensures
        w == word_of(lobyte, hibyte),
{
    (hibyte as u16) * 0x100 + (lobyte as u16)
}

/// Overwrites every memory location with zero.
pub fn init_memory(mem: &mut Memory)
    requires
        old(mem).wf(),
    ensures
        final(mem).wf(),
        forall|a: int| 0 <= a < MEMSIZE ==> final(mem)@[a] == 0u8,
{
    let mut i: usize = 0;
    while i < MEMSIZE
        invariant
            old(mem).wf(),
            i <= MEMSIZE,
            mem.wf(),
            forall|a: int| 0 <= a < i ==> mem@[a] == 0u8,
        decreases MEMSIZE - i,
    {
        mem.write(i as u16, 0x00);
        i += 1;
    }
}

} // verus!
