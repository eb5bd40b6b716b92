//! The segmented bus: boot overlay, cartridge image, video RAM, external
//! RAM, two banks of work RAM, the I/O register bank, zero-page RAM and the
//! interrupt-enable register.

use vstd::prelude::*;
use crate::mmu::{load16, next_addr, store16, BusError, MMU};
use crate::registers::{high_byte, low_byte};

verus! {

pub const ROMX_BEG: u16 = 0x4000;
pub const VRAM_BEG: u16 = 0x8000;
pub const ERAM_BEG: u16 = 0xA000;
pub const WRAM0_BEG: u16 = 0xC000;
pub const WRAMX_BEG: u16 = 0xD000;
pub const IO_BEG: u16 = 0xFF00;
pub const ZRAM_BEG: u16 = 0xFF80;
/// Bit 0 of this I/O register keeps the boot overlay mapped; any write to it
/// clears the bit.
pub const FLAG_BOOT: u16 = 0xFF50;
pub const FLAG_INTERRUPT: u16 = 0xFFFF;

/// The contents of every range of the bus.
pub struct BusState {
    pub boot: Seq<u8>,
    pub cartridge: Seq<u8>,
    pub vram: Seq<u8>,
    pub eram: Seq<u8>,
    pub wram0: Seq<u8>,
    pub wramx: Seq<u8>,
    pub io: Seq<u8>,
    pub zram: Seq<u8>,
    pub ie: u8,
}

impl BusState {
    /// Each RAM range has its fixed size.
    pub open spec fn wf(self) -> bool {
        self.vram.len() == 0x2000 && self.eram.len() == 0x2000 && self.wram0.len() == 0x1000
            && self.wramx.len() == 0x1000 && self.io.len() == 0x80 && self.zram.len() == 0x7F
    }

    pub open spec fn boot_active(self) -> bool {
        self.io.len() > 0x50 && self.io[0x50] & 1u8 != 0
    }
}

/// Byte `i` of a range, refused past its end.
pub open spec fn slot(s: Seq<u8>, i: int, addr: u16) -> Result<u8, BusError> {
    if 0 <= i < s.len() {
        Ok(s[i])
    } else {
        Err(BusError::OutOfRangeAddress(addr))
    }
}

/// A range with byte `i` replaced, refused past its end.
pub open spec fn put(s: Seq<u8>, i: int, value: u8, addr: u16) -> Result<Seq<u8>, BusError> {
    if 0 <= i < s.len() {
        Ok(s.update(i, value))
    } else {
        Err(BusError::OutOfRangeAddress(addr))
    }
}

pub open spec fn bus_load(s: BusState, a: u16) -> Result<u8, BusError> {
    if a <= 0x00FF && s.boot_active() {
        slot(s.boot, a as int, a)
    } else if a <= 0x3FFF {
        slot(s.cartridge, cart_index(a), a)
    } else if a <= 0x7FFF {
        slot(s.cartridge, cart_index(a), a)
    } else if a <= 0x9FFF {
        slot(s.vram, a - 0x8000, a)
    } else if a <= 0xBFFF {
        slot(s.eram, a - 0xA000, a)
    } else if a <= 0xCFFF {
        slot(s.wram0, a - 0xC000, a)
    } else if a <= 0xDFFF {
        slot(s.wramx, a - 0xD000, a)
    } else if a <= 0xFEFF {
        Err(BusError::OutOfRangeAddress(a))
    } else if a <= 0xFF7F {
        slot(s.io, a - 0xFF00, a)
    } else if a <= 0xFFFE {
        slot(s.zram, a - 0xFF80, a)
    } else {
        Ok(s.ie)
    }
}

pub open spec fn bus_store(s: BusState, a: u16, v: u8) -> Result<BusState, BusError> {
    if a <= 0x7FFF {
        Err(BusError::IllegalWrite(a))
    } else if a <= 0x9FFF {
        match put(s.vram, a - 0x8000, v, a) {
            Ok(r) => Ok(BusState { vram: r, ..s }),
            Err(e) => Err(e),
        }
    } else if a <= 0xBFFF {
        match put(s.eram, a - 0xA000, v, a) {
            Ok(r) => Ok(BusState { eram: r, ..s }),
            Err(e) => Err(e),
        }
    } else if a <= 0xCFFF {
        match put(s.wram0, a - 0xC000, v, a) {
            Ok(r) => Ok(BusState { wram0: r, ..s }),
            Err(e) => Err(e),
        }
    } else if a <= 0xDFFF {
        match put(s.wramx, a - 0xD000, v, a) {
            Ok(r) => Ok(BusState { wramx: r, ..s }),
            Err(e) => Err(e),
        }
    } else if a <= 0xFEFF {
        Err(BusError::OutOfRangeAddress(a))
    } else if a == FLAG_BOOT {
        match slot(s.io, 0x50, a) {
            Ok(old) => Ok(BusState { io: s.io.update(0x50, old & 0xFEu8), ..s }),
            Err(e) => Err(e),
        }
    } else if a <= 0xFF7F {
        match put(s.io, a - 0xFF00, v, a) {
            Ok(r) => Ok(BusState { io: r, ..s }),
            Err(e) => Err(e),
        }
    } else if a <= 0xFFFE {
        match put(s.zram, a - 0xFF80, v, a) {
            Ok(r) => Ok(BusState { zram: r, ..s }),
            Err(e) => Err(e),
        }
    } else {
        Ok(BusState { ie: v, ..s })
    }
}

/// Where a cartridge address falls in the image: both ROM ranges index it
/// from its start.
pub open spec fn cart_index(a: u16) -> int {
    if a <= 0x3FFF {
        a as int
    } else {
        a - 0x4000
    }
}

/// Whether `a` is plain RAM: a write there stores the byte and nothing else.
pub open spec fn plain_ram(a: u16) -> bool {
    0x8000 <= a <= 0xDFFF || (0xFF00 <= a && a != FLAG_BOOT)
}

pub struct RealMMU {
    boot: Vec<u8>,
    cartridge: Vec<u8>,
    vram: Vec<u8>,
    eram: Vec<u8>,
    wram0: Vec<u8>,
    wramx: Vec<u8>,
    io: Vec<u8>,
    zram: Vec<u8>,
    flag_interrupt: u8,
}

fn read_slot(s: &Vec<u8>, i: u16, addr: u16) -> (r: Result<u8, BusError>)
    ensures
        r == slot(s@, i as int, addr),
{
    if (i as usize) < s.len() {
        Ok(s[i as usize])
    } else {
        Err(BusError::OutOfRangeAddress(addr))
    }
}

fn write_slot(s: &mut Vec<u8>, i: u16, value: u8, addr: u16) -> (r: Result<(), BusError>)
    ensures
        match put(old(s)@, i as int, value, addr) {
            Ok(n) => r is Ok && final(s)@ == n,
            Err(e) => r == Err::<(), BusError>(e) && final(s)@ == old(s)@,
        },
{
    if (i as usize) < s.len() {
        s.set(i as usize, value);
        Ok(())
    } else {
        Err(BusError::OutOfRangeAddress(addr))
    }
}

impl RealMMU {
    pub closed spec fn state(&self) -> BusState {
        BusState {
            boot: self.boot@,
            cartridge: self.cartridge@,
            vram: self.vram@,
            eram: self.eram@,
            wram0: self.wram0@,
            wramx: self.wramx@,
            io: self.io@,
            zram: self.zram@,
            ie: self.flag_interrupt,
        }
    }

    /// A bus over `cartridge`, its RAM zeroed; with a boot image the overlay
    /// is mapped, without one it is not.
    pub fn new(boot_rom: Option<Vec<u8>>, cartridge: Vec<u8>) -> (r: RealMMU)
        ensures
            r.mem().wf(),
            r.mem().cartridge == cartridge@,
            r.mem().boot == (match boot_rom {
                Some(b) => b@,
                None => Seq::empty(),
            }),
            r.mem().boot_active() == boot_rom is Some,
            r.mem().vram == Seq::new(0x2000, |i: int| 0u8),
            r.mem().eram == Seq::new(0x2000, |i: int| 0u8),
            r.mem().wram0 == Seq::new(0x1000, |i: int| 0u8),
            r.mem().wramx == Seq::new(0x1000, |i: int| 0u8),
            r.mem().zram == Seq::new(0x7F, |i: int| 0u8),
            r.mem().ie == 0,
            forall|i: int| 0 <= i < 0x80 && i != 0x50 ==> r.mem().io[i] == 0,
    {
        let active = boot_rom.is_some();
        let boot = match boot_rom {
            Some(b) => b,
            None => Vec::new(),
        };
        let mut mmu = RealMMU {
            boot,
            cartridge,
            vram: vec![0u8; 0x2000],
            eram: vec![0u8; 0x2000],
            wram0: vec![0u8; 0x1000],
            wramx: vec![0u8; 0x1000],
            io: vec![0u8; 0x80],
            zram: vec![0u8; 0x7F],
            flag_interrupt: 0,
        };
        if active {
            mmu.set_flag(FLAG_BOOT, 0b0000_0001);
            assert((0u8 | 1u8) & 1u8 != 0) by (bit_vector);
        } else {
            assert(0u8 & 1u8 == 0) by (bit_vector);
        }
        assert(mmu.mem().vram =~= Seq::new(0x2000, |i: int| 0u8));
        assert(mmu.mem().eram =~= Seq::new(0x2000, |i: int| 0u8));
        assert(mmu.mem().wram0 =~= Seq::new(0x1000, |i: int| 0u8));
        assert(mmu.mem().wramx =~= Seq::new(0x1000, |i: int| 0u8));
        assert(mmu.mem().zram =~= Seq::new(0x7F, |i: int| 0u8));
        mmu
    }

    /// Unmaps the boot overlay.
    pub fn disable_boot_rom(&mut self)
        requires
            old(self).mem().wf(),
        ensures
            final(self).mem() == (BusState {
                io: old(self).mem().io.update(0x50, old(self).mem().io[0x50] & 0xFEu8),
                ..old(self).mem()
            }),
            !final(self).mem().boot_active(),
    {
        let v = self.io[0x50];
        self.io.set(0x50, v & 0xFE);
        assert((v & 0xFEu8) & 1u8 == 0) by (bit_vector);
    }

    /// Sets the bits of `mask` in the I/O register at `addr`.
    pub fn set_flag(&mut self, addr: u16, mask: u8)
        requires
            IO_BEG <= addr <= 0xFF7F,
            old(self).mem().io.len() == 0x80,
        ensures
            final(self).mem() == (BusState {
                io: old(self).mem().io.update(addr - IO_BEG, old(self).mem().io[addr - IO_BEG] | mask),
                ..old(self).mem()
            }),
    {
        let i = (addr - IO_BEG) as usize;
        let v = self.io[i];
        self.io.set(i, v | mask);
    }

    /// Clears the bits of `mask` in the I/O register at `addr`.
    pub fn unset_flag(&mut self, addr: u16, mask: u8)
        requires
            IO_BEG <= addr <= 0xFF7F,
            old(self).mem().wf(),
        ensures
            final(self).mem() == (BusState {
                io: old(self).mem().io.update(addr - IO_BEG, old(self).mem().io[addr - IO_BEG] & !mask),
                ..old(self).mem()
            }),
    {
        let i = (addr - IO_BEG) as usize;
        let v = self.io[i];
        self.io.set(i, v & !mask);
    }

    /// Whether any bit of `mask` is set in the I/O register at `addr`.
    pub fn get_flag(&self, addr: u16, mask: u8) -> (r: bool)
        requires
            IO_BEG <= addr <= 0xFF7F,
            self.mem().wf(),
        ensures
            r == (self.mem().io[addr - IO_BEG] & mask != 0),
    {
        self.io[(addr - IO_BEG) as usize] & mask != 0
    }

    /// Seeds a byte of the cartridge image, bypassing the read-only rule.
    pub fn _load8(&mut self, addr: u16, value: u8) -> (r: Result<(), BusError>)
        ensures
            addr <= 0x7FFF ==> match put(old(self).mem().cartridge, cart_index(addr), value, addr) {
                Ok(c) => r is Ok && final(self).mem() == (BusState { cartridge: c, ..old(self).mem() }),
                Err(e) => r == Err::<(), BusError>(e) && final(self).mem() == old(self).mem(),
            },
            addr > 0x7FFF ==> r == Err::<(), BusError>(BusError::OutOfRangeAddress(addr))
                && final(self).mem() == old(self).mem(),
    {
        if addr <= 0x3FFF {
            write_slot(&mut self.cartridge, addr, value, addr)
        } else if addr <= 0x7FFF {
            write_slot(&mut self.cartridge, addr - ROMX_BEG, value, addr)
        } else {
            Err(BusError::OutOfRangeAddress(addr))
        }
    }
}

impl RealMMU {
    /// Seeds a little-endian word of the cartridge image, the low byte first.
    pub fn _load16(&mut self, addr: u16, value: u16) -> (r: Result<(), BusError>)
        requires
            addr < 0x7FFF,
            cart_index(addr) < old(self).mem().cartridge.len(),
            cart_index((addr + 1) as u16) < old(self).mem().cartridge.len(),
        ensures
            r is Ok,
            final(self).mem() == (BusState {
                cartridge: old(self).mem().cartridge.update(cart_index(addr), low_byte(value)).update(
                    cart_index((addr + 1) as u16),
                    high_byte(value),
                ),
                ..old(self).mem()
            }),
    {
        let lo = self._load8(addr, (value % 256) as u8);
        let hi = self._load8(addr + 1, (value / 256) as u8);
        match lo {
            Ok(()) => hi,
            Err(e) => Err(e),
        }
    }
}

impl MMU for RealMMU {
    type Mem = BusState;

    closed spec fn mem(&self) -> BusState {
        self.state()
    }

    open spec fn load(m: BusState, addr: u16) -> Result<u8, BusError> {
        bus_load(m, addr)
    }

    open spec fn store(m: BusState, addr: u16, value: u8) -> Result<BusState, BusError> {
        bus_store(m, addr, value)
    }

    fn read8(&self, addr: u16) -> (r: Result<u8, BusError>) {
        let a = addr;
        if a <= 0x00FF && self.io.len() > 0x50 && self.io[0x50] & 1 != 0 {
            read_slot(&self.boot, a, a)
        } else if a <= 0x3FFF {
            read_slot(&self.cartridge, a, a)
        } else if a <= 0x7FFF {
            read_slot(&self.cartridge, a - ROMX_BEG, a)
        } else if a <= 0x9FFF {
            read_slot(&self.vram, a - VRAM_BEG, a)
        } else if a <= 0xBFFF {
            read_slot(&self.eram, a - ERAM_BEG, a)
        } else if a <= 0xCFFF {
            read_slot(&self.wram0, a - WRAM0_BEG, a)
        } else if a <= 0xDFFF {
            read_slot(&self.wramx, a - WRAMX_BEG, a)
        } else if a <= 0xFEFF {
            Err(BusError::OutOfRangeAddress(a))
        } else if a <= 0xFF7F {
            read_slot(&self.io, a - IO_BEG, a)
        } else if a <= 0xFFFE {
            read_slot(&self.zram, a - ZRAM_BEG, a)
        } else {
            Ok(self.flag_interrupt)
        }
    }

    fn write8(&mut self, addr: u16, value: u8) -> (r: Result<(), BusError>) {
        let a = addr;
        if a <= 0x7FFF {
            Err(BusError::IllegalWrite(a))
        } else if a <= 0x9FFF {
            write_slot(&mut self.vram, a - VRAM_BEG, value, a)
        } else if a <= 0xBFFF {
            write_slot(&mut self.eram, a - ERAM_BEG, value, a)
        } else if a <= 0xCFFF {
            write_slot(&mut self.wram0, a - WRAM0_BEG, value, a)
        } else if a <= 0xDFFF {
            write_slot(&mut self.wramx, a - WRAMX_BEG, value, a)
        } else if a <= 0xFEFF {
            Err(BusError::OutOfRangeAddress(a))
        } else if a == FLAG_BOOT {
            if self.io.len() > 0x50 {
                let v = self.io[0x50];
                self.io.set(0x50, v & 0xFE);
                Ok(())
            } else {
                Err(BusError::OutOfRangeAddress(a))
            }
        } else if a <= 0xFF7F {
            write_slot(&mut self.io, a - IO_BEG, value, a)
        } else if a <= 0xFFFE {
            write_slot(&mut self.zram, a - ZRAM_BEG, value, a)
        } else {
            self.flag_interrupt = value;
            Ok(())
        }
    }
}

/// A word written over two bytes of plain RAM reads back whole, its low
/// byte at the address and its high byte at the next one.
pub proof fn law_word_round_trip(s: BusState, a: u16, v: u16)
    requires
        s.wf(),
        plain_ram(a),
        plain_ram(next_addr(a)),
    ensures
        store16::<RealMMU>(s, a, v) is Ok,
        load16::<RealMMU>(store16::<RealMMU>(s, a, v)->Ok_0, a) == Ok::<u16, BusError>(v),
        RealMMU::load(store16::<RealMMU>(s, a, v)->Ok_0, a) == Ok::<u8, BusError>(low_byte(v)),
        RealMMU::load(store16::<RealMMU>(s, a, v)->Ok_0, next_addr(a)) == Ok::<u8, BusError>(
            high_byte(v),
        ),
{
    assert(v == (v / 256) * 256 + v % 256);
}

} // verus!
