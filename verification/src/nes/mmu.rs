//! The memory bus: a flat 64 KiB byte-addressable image with little-endian
//! word access and the indexed/indirect addressing helpers, including the
//! hardware wraparound quirks (zero-page adds wrap within the zero page;
//! 16-bit address arithmetic wraps modulo 65536, per byte for word reads).

use vstd::prelude::*;

verus! {

/// Number of addressable bytes: the full 16-bit address space.
pub const MEMORY_SIZE: usize = 0x10000;

/// The byte at `addr` of a memory image.
pub open spec fn spec_read(mem: Seq<u8>, addr: u16) -> u8 {
    mem[addr as int]
}

/// Little-endian word read: low byte at `addr`, high byte at `addr + 1`,
/// each index computed with 16-bit wraparound independently.
pub open spec fn spec_read16(mem: Seq<u8>, addr: u16) -> u16 {
    (spec_read(mem, addr.wrapping_add(1)) * 0x100 + spec_read(mem, addr)) as u16
}

/// The zero-page pointer cell for indexed-indirect addressing: `zp + x` with
/// 8-bit wraparound, so the pointer never leaves the zero page.
pub open spec fn spec_pre_index_pointer(zp: u8, x: u8) -> u16 {
    zp.wrapping_add(x) as u16
}

/// The target of an indexed-indirect access: the zero-page pointer at
/// `zp + x` (8-bit wrap), dereferenced as a 16-bit address.
pub open spec fn spec_pre_index_target(mem: Seq<u8>, zp: u8, x: u8) -> u16 {
    spec_read16(mem, spec_pre_index_pointer(zp, x))
}

/// The 16-bit pointer a zero-page cell dereferences to for indirect-indexed
/// addressing.
pub open spec fn spec_post_index_pointer(mem: Seq<u8>, zp: u8) -> u16 {
    spec_read16(mem, zp as u16)
}

/// The target of an indirect-indexed access: the dereferenced pointer plus
/// the index, with 16-bit wraparound.
pub open spec fn spec_post_index_target(mem: Seq<u8>, zp: u8, y: u8) -> u16 {
    spec_post_index_pointer(mem, zp).wrapping_add(y as u16)
}

/// Whether adding the index to the dereferenced pointer's low byte overflows
/// past 0xFF; this drives the one-cycle page-cross penalty in the caller.
pub open spec fn spec_post_index_crossed(mem: Seq<u8>, zp: u8, y: u8) -> bool {
    spec_post_index_pointer(mem, zp) % 0x100 + y > 0xFF
}

/// The memory bus. The image is always the full 64 KiB, so every 16-bit
/// address is in range and no access can fail.
pub struct Mmu {
    pub memory: Vec<u8>,
}

impl View for Mmu {
    type V = Seq<u8>;

    open spec fn view(&self) -> Seq<u8> {
        self.memory@
    }
}

impl Mmu {
    /// Well-formed when the image spans the whole 16-bit address space.
    pub open spec fn wf(&self) -> bool {
        self.memory@.len() == MEMORY_SIZE
    }

    /// A bus whose every cell is zero.
    pub fn new() -> (r: Mmu)
        ensures
            r.wf(),
            forall|a: u16| spec_read(r@, a) == 0u8,
    {
        let m = Mmu { memory: vec![0u8; MEMORY_SIZE] };
        assert(forall|a: u16| m.memory@[a as int] == 0u8);
        m
    }

    /// Direct byte read; cannot fail since every 16-bit address is in range.
    pub fn read(&self, address: u16) -> (r: u8)
        requires
            self.wf(),
        ensures
            r == spec_read(self@, address),
    {
        self.memory[address as usize]
    }

    /// Direct byte write.
    pub fn write(&mut self, address: u16, value: u8)
        requires
            old(self).wf(),
        ensures
            final(self).wf(),
            final(self)@ == old(self)@.update(address as int, value),
    {
        self.memory[address as usize] = value;
    }

    /// Read the byte at `*address` and advance `*address` by one, with 16-bit
    /// wraparound: the fetch primitive of the instruction engine.
    pub fn chomp(&self, address: &mut u16) -> (byte: u8)
        requires
            self.wf(),
        ensures
            byte == spec_read(self@, *old(address)),
            *final(address) == old(address).wrapping_add(1),
    {
        let byte: u8 = self.memory[*address as usize];
        *address = address.wrapping_add(1);
        byte
    }

    /// Little-endian word read, each byte fetched independently so a word
    /// straddling the top of memory wraps per byte.
    pub fn read_u16(&self, address: u16) -> (r: u16)
        requires
            self.wf(),
        ensures
            r == spec_read16(self@, address),
    {
        let lo: u8 = self.memory[address as usize];
        let hi: u8 = self.memory[address.wrapping_add(1) as usize];
        (hi as u16) * 0x100 + (lo as u16)
    }

    /// Little-endian word write: low byte at `address`, high byte at
    /// `address + 1`, mirroring `read_u16`.
    pub fn write_u16(&mut self, address: u16, value: u16)
        requires
            old(self).wf(),
        ensures
            final(self).wf(),
            final(self)@ == old(self)@
                .update(address as int, (value % 0x100) as u8)
                .update(address.wrapping_add(1) as int, (value / 0x100) as u8),
    {
        self.write(address, (value % 0x100) as u8);
        self.write(address.wrapping_add(1), (value / 0x100) as u8);
    }

    /// Indexed-indirect read: add `x` to the zero-page operand with 8-bit
    /// wraparound, dereference the resulting zero-page pointer, read there.
    /// Fixed cost, so no page-cross flag.
    pub fn read_indirect_pre_index(&self, address: u8, x: u8) -> (r: u8)
        requires
            self.wf(),
        ensures
            r == spec_read(self@, spec_pre_index_target(self@, address, x)),
    {
        let indirect_addr: u16 = self.read_u16(address.wrapping_add(x) as u16);
        self.read(indirect_addr)
    }

    /// Indirect-indexed read: dereference the zero-page operand as a 16-bit
    /// pointer, add `y` to that pointer, read there. The second component is
    /// true when adding `y` to the pointer's low byte overflows past 0xFF.
    pub fn read_indirect_post_index(&self, address: u8, y: u8) -> (r: (u8, bool))
        requires
            self.wf(),
        ensures
            r.0 == spec_read(self@, spec_post_index_target(self@, address, y)),
            r.1 == spec_post_index_crossed(self@, address, y),
    {
        let indirect_addr: u16 = self.read_u16(address as u16);
        let value: u8 = self.read(indirect_addr.wrapping_add(y as u16));
        (value, indirect_addr % 0x100 + y as u16 > 0xFF)
    }

    /// Indexed-indirect write, with the same address resolution as
    /// `read_indirect_pre_index`.
    pub fn write_indirect_pre_index(&mut self, address: u8, x: u8, value: u8)
        requires
            old(self).wf(),
        ensures
            final(self).wf(),
            final(self)@ == old(self)@
                .update(spec_pre_index_target(old(self)@, address, x) as int, value),
    {
        let indirect_addr: u16 = self.read_u16(address.wrapping_add(x) as u16);
        self.write(indirect_addr, value);
    }

    /// Indirect-indexed write, with the same address resolution and
    /// page-cross flag as `read_indirect_post_index`.
    pub fn write_indirect_post_index(&mut self, address: u8, y: u8, value: u8) -> (crossed: bool)
        requires
            old(self).wf(),
        ensures
            final(self).wf(),
            final(self)@ == old(self)@
                .update(spec_post_index_target(old(self)@, address, y) as int, value),
            crossed == spec_post_index_crossed(old(self)@, address, y),
    {
        let indirect_addr: u16 = self.read_u16(address as u16);
        self.write(indirect_addr.wrapping_add(y as u16), value);
        indirect_addr % 0x100 + y as u16 > 0xFF
    }
}

} // verus!
