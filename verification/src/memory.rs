//! The memory bus: a total partition of the 64 KiB address space into ten
//! device regions, with one bus-level side effect (OAM DMA).
//!
//! The bus is modelled by its view, a sequence of 0x10000 bytes giving the
//! value a read returns at every address. The mirror region aliases work
//! RAM in the view, and the unusable gap reads as a fixed sentinel.

use vstd::prelude::*;
use crate::error::GbError;
use crate::memory::cartridge::Cartridge;
use crate::memory::external_ram::ExternalRam;
use crate::memory::high_ram::HighRam;
use crate::memory::interrupt_enable_register::InterruptEnableRegister;
use crate::memory::io_registers::IORegisters;
use crate::memory::not_usable::NotUsable;
use crate::memory::object_attribute_memory::ObjectAttributeMemory;
use crate::memory::ram::Ram;
use crate::memory::video_ram::VideoRam;

pub mod cartridge;
pub mod external_ram;
pub mod high_ram;
pub mod interrupt_enable_register;
pub mod io_registers;
pub mod not_usable;
pub mod object_attribute_memory;
pub mod ram;
pub mod video_ram;

verus! {

// Memory-mapped register addresses.
pub const SB: u16 = 0xFF01;

pub const SC: u16 = 0xFF02;

pub const DIV: u16 = 0xFF04;

pub const TIMA: u16 = 0xFF05;

pub const TMA: u16 = 0xFF06;

pub const TAC: u16 = 0xFF07;

pub const IF: u16 = 0xFF0F;

pub const LCDC: u16 = 0xFF40;

pub const STAT: u16 = 0xFF41;

pub const SCY: u16 = 0xFF42;

pub const SCX: u16 = 0xFF43;

pub const LY: u16 = 0xFF44;

pub const LYC: u16 = 0xFF45;

pub const DMA_REGISTER: u16 = 0xFF46;

pub const BGP: u16 = 0xFF47;

pub const OBP0: u16 = 0xFF48;

pub const OBP1: u16 = 0xFF49;

pub const WY: u16 = 0xFF4A;

pub const WX: u16 = 0xFF4B;

pub const IE: u16 = 0xFFFF;

pub const OBJ_TILES_BASE: u16 = 0x8000;

pub const OBJ_ATTRIBUTES_BASE: u16 = 0xFE00;

/// A vector of `n` zero bytes, the power-on content of every RAM region.
pub fn zeroed(n: usize) -> (r: Vec<u8>)
    ensures
        r@.len() == n,
        forall|i: int| 0 <= i < n ==> r@[i] == 0u8,
{
    let mut v: Vec<u8> = Vec::new();
    let mut i: usize = 0;
    while i < n
        invariant
            i <= n,
            v@.len() == i,
            forall|j: int| 0 <= j < i ==> v@[j] == 0u8,
        decreases n - i,
    {
        v.push(0);
        i = i + 1;
    }
    v
}

/// The mirror of work RAM, whose writes are rejected.
pub open spec fn is_mirror_addr(addr: u16) -> bool {
    0xE000 <= addr < 0xFE00
}

/// Addresses whose writes are defined no-ops: cartridge ROM and the
/// unusable gap.
pub open spec fn is_ignored_write_addr(addr: u16) -> bool {
    addr < 0x8000 || (0xFEA0 <= addr < 0xFF00)
}

/// The bus view after an ordinary (non-DMA, non-mirror) write.
pub open spec fn write_view(m: Seq<u8>, addr: u16, val: u8) -> Seq<u8> {
    if is_ignored_write_addr(addr) {
        m
    } else if 0xC000 <= addr < 0xDE00 {
        // Work RAM below 0xDE00 is also visible through the mirror.
        m.update(addr as int, val).update(addr + 0x2000, val)
    } else {
        m.update(addr as int, val)
    }
}

/// The bus view after an OAM DMA transfer: the 160 OAM bytes are replaced
/// by the bytes read from `val * 0x100` upward, everything else is kept.
pub open spec fn dma_view(m: Seq<u8>, val: u8) -> Seq<u8> {
    Seq::new(
        0x10000,
        |i: int|
            if 0xFE00 <= i < 0xFEA0 {
                m[val * 0x100 + (i - 0xFE00)]
            } else {
                m[i]
            },
    )
}

/// The bus view after any accepted write: the DMA trigger starts the OAM
/// copy, every other address stores through the partition.
pub open spec fn bus_write_ok(m: Seq<u8>, addr: u16, val: u8) -> Seq<u8> {
    if addr == DMA_REGISTER {
        dma_view(m, val)
    } else {
        write_view(m, addr, val)
    }
}

/// The 64 KiB address space, statically partitioned into its ten device
/// regions.
pub struct Memory {
    pub cartridge: Cartridge,
    pub video_ram: VideoRam,
    pub external_ram: ExternalRam,
    pub ram: Ram,
    pub object_attribute_memory: ObjectAttributeMemory,
    pub not_usable: NotUsable,
    pub io_registers: IORegisters,
    pub high_ram: HighRam,
    pub interrupt_enable_register: InterruptEnableRegister,
}

impl Memory {
    pub open spec fn wf(self) -> bool {
        &&& self.cartridge.wf()
        &&& self.video_ram.wf()
        &&& self.external_ram.wf()
        &&& self.ram.wf()
        &&& self.object_attribute_memory.wf()
        &&& self.io_registers.wf()
        &&& self.high_ram.wf()
    }

    /// The byte a bus read returns at `addr`, by the static partition.
    pub open spec fn spec_read(self, addr: u16) -> u8 {
        if addr < 0x8000 {
            self.cartridge.rom@[addr as int]
        } else if addr < 0xA000 {
            self.video_ram.ram@[addr - 0x8000]
        } else if addr < 0xC000 {
            self.external_ram.ram@[addr - 0xA000]
        } else if addr < 0xE000 {
            self.ram.mirror_ram.work_ram.ram@[addr - 0xC000]
        } else if addr < 0xFE00 {
            self.ram.mirror_ram.work_ram.ram@[addr - 0xE000]
        } else if addr < 0xFEA0 {
            self.object_attribute_memory.ram@[addr - 0xFE00]
        } else if addr < 0xFF00 {
            0xFFu8
        } else if addr < 0xFF80 {
            self.io_registers.ram@[addr - 0xFF00]
        } else if addr < 0xFFFF {
            self.high_ram.ram@[addr - 0xFF80]
        } else {
            self.interrupt_enable_register.byte
        }
    }

    /// A fresh bus over the given ROM image, with every RAM region zeroed.
    pub fn new(rom: Vec<u8>) -> (r: Memory)
        requires
            rom@.len() >= 0x8000,
        ensures
            r.wf(),
            forall|a: u16| a < 0x8000 ==> r@[a as int] == rom@[a as int],
            forall|a: u16| 0xFEA0 <= a < 0xFF00 ==> r@[a as int] == 0xFFu8,
            forall|a: u16|
                (0x8000 <= a < 0xFEA0 || 0xFF00 <= a <= 0xFFFF) ==> r@[a as int] == 0u8,
    {
        let r = Memory {
            cartridge: Cartridge::new(rom),
            video_ram: VideoRam::new(),
            external_ram: ExternalRam::new(),
            ram: Ram::new(),
            object_attribute_memory: ObjectAttributeMemory::new(),
            not_usable: NotUsable {},
            io_registers: IORegisters::new(),
            high_ram: HighRam::new(),
            interrupt_enable_register: InterruptEnableRegister::new(),
        };
        r
    }

    /// Routes a read to the owning region; reads are total.
    pub fn read(&self, addr: u16) -> (r: u8)
        requires
            self.wf(),
        ensures
            r == self@[addr as int],
    {
        if addr < 0x8000 {
            self.cartridge.read(addr)
        } else if addr < 0xA000 {
            self.video_ram.read(addr - 0x8000)
        } else if addr < 0xC000 {
            self.external_ram.read(addr - 0xA000)
        } else if addr < 0xE000 {
            self.ram.mirror_ram.work_ram.read(addr - 0xC000)
        } else if addr < 0xFE00 {
            self.ram.mirror_ram.read(addr - 0xE000)
        } else if addr < 0xFEA0 {
            self.object_attribute_memory.read(addr - 0xFE00)
        } else if addr < 0xFF00 {
            self.not_usable.read(addr - 0xFEA0)
        } else if addr < 0xFF80 {
            self.io_registers.read(addr - 0xFF00)
        } else if addr < 0xFFFF {
            self.high_ram.read(addr - 0xFF80)
        } else {
            self.interrupt_enable_register.read()
        }
    }

    /// Routes a write to the owning region. Writing the DMA trigger
    /// register copies 160 bytes from `val * 0x100` into OAM instead.
    /// Writing the work-RAM mirror is the one rejected access.
    pub fn write(&mut self, addr: u16, val: u8) -> (r: Result<(), GbError>)
        requires
            old(self).wf(),
        ensures
            final(self).wf(),
            r is Err <==> is_mirror_addr(addr),
            is_mirror_addr(addr) ==> *final(self) == *old(self) && r == Result::<
                (),
                GbError,
            >::Err(GbError::MirrorRamWrite { addr }),
            !is_mirror_addr(addr) ==> final(self)@ == bus_write_ok(old(self)@, addr, val),
    {
        if addr == DMA_REGISTER {
            self.dma_copy(val);
            Ok(())
        } else if addr < 0x8000 {
            self.cartridge.write(addr, val);
            proof {
                assert(self@ =~= write_view(old(self)@, addr, val));
            }
            Ok(())
        } else if addr < 0xA000 {
            self.video_ram.write(addr - 0x8000, val);
            proof {
                assert(self@ =~= write_view(old(self)@, addr, val));
            }
            Ok(())
        } else if addr < 0xC000 {
            self.external_ram.write(addr - 0xA000, val);
            proof {
                assert(self@ =~= write_view(old(self)@, addr, val));
            }
            Ok(())
        } else if addr < 0xE000 {
            self.ram.work_ram().write(addr - 0xC000, val);
            proof {
                assert(self.ram.mirror_ram.work_ram.ram@ == old(
                    self,
                ).ram.mirror_ram.work_ram.ram@.update(addr - 0xC000, val));
                assert forall|i: int| 0 <= i < 0x10000 implies self@[i] == write_view(
                    old(self)@,
                    addr,
                    val,
                )[i] by {
                    assert(self@[i] == self.spec_read(i as u16));
                    assert(old(self)@[i] == old(self).spec_read(i as u16));
                }
                assert(self@ =~= write_view(old(self)@, addr, val));
            }
            Ok(())
        } else if addr < 0xFE00 {
            self.ram.mirror_ram().write(addr, val)?;
            Ok(())
        } else if addr < 0xFEA0 {
            self.object_attribute_memory.write(addr - 0xFE00, val);
            proof {
                assert(self@ =~= write_view(old(self)@, addr, val));
            }
            Ok(())
        } else if addr < 0xFF00 {
            self.not_usable.write(addr - 0xFEA0, val);
            proof {
                assert(self@ =~= write_view(old(self)@, addr, val));
            }
            Ok(())
        } else if addr < 0xFF80 {
            self.io_registers.write(addr - 0xFF00, val);
            proof {
                assert(self@ =~= write_view(old(self)@, addr, val));
            }
            Ok(())
        } else if addr < 0xFFFF {
            self.high_ram.write(addr - 0xFF80, val);
            proof {
                assert(self@ =~= write_view(old(self)@, addr, val));
            }
            Ok(())
        } else {
            self.interrupt_enable_register.write(val);
            proof {
                assert(self@ =~= write_view(old(self)@, addr, val));
            }
            Ok(())
        }
    }

    /// Stores a 16-bit value little-endian through two bus writes.
    pub fn write_16(&mut self, addr: u16, val: u16) -> (r: Result<(), GbError>)
        requires
            old(self).wf(),
        ensures
            final(self).wf(),
            r is Err <==> is_mirror_addr(addr) || is_mirror_addr(addr.wrapping_add(1)),
            (r is Err ==> r matches Err(GbError::MirrorRamWrite { .. })),
            r is Ok ==> final(self)@ == bus_write_ok(
                bus_write_ok(old(self)@, addr, (val % 0x100) as u8),
                addr.wrapping_add(1),
                (val / 0x100) as u8,
            ),
    {
        self.write(addr, (val % 0x100) as u8)?;
        self.write(addr.wrapping_add(1), (val / 0x100) as u8)?;
        Ok(())
    }

    /// A write to an address known not to be rejected; used by the clock
    /// and video units, whose register writes never touch the mirror.
    pub(crate) fn poke(&mut self, addr: u16, val: u8)
        requires
            old(self).wf(),
            !is_mirror_addr(addr),
            addr != DMA_REGISTER,
        ensures
            final(self).wf(),
            final(self)@ == write_view(old(self)@, addr, val),
    {
        let _r = self.write(addr, val);
    }

    /// The OAM DMA copy: snapshot 160 source bytes through the bus, then
    /// replace the OAM contents with them.
    fn dma_copy(&mut self, val: u8)
        requires
            old(self).wf(),
        ensures
            final(self).wf(),
            final(self)@ == dma_view(old(self)@, val),
    {
        let src: u16 = (val as u16) << 8;
        proof {
            assert((val as u16) << 8 == val * 0x100 && (val as u16) << 8 <= 0xFF00) by (bit_vector);
        }
        let mut buf: Vec<u8> = Vec::new();
        let mut i: u16 = 0;
        while i < 0xA0
            invariant
                self == old(self),
                self.wf(),
                i <= 0xA0,
                src == val * 0x100,
                src <= 0xFF00,
                buf@.len() == i,
                forall|j: int| 0 <= j < i ==> buf@[j] == self@[src + j],
            decreases 0xA0 - i,
        {
            let b = self.read(src + i);
            buf.push(b);
            i = i + 1;
        }
        self.object_attribute_memory = ObjectAttributeMemory { ram: buf };
        proof {
            assert(self@ =~= dma_view(old(self)@, val));
        }
    }
}

impl View for Memory {
    type V = Seq<u8>;

    /// The byte each of the 0x10000 addresses reads as.
    open spec fn view(&self) -> Seq<u8> {
        Seq::new(0x10000, |i: int| self.spec_read(i as u16))
    }
}

} // verus!
