//! Named I/O registers of the pixel-processing unit and the bits of its
//! control register.

use vstd::prelude::*;

verus! {

#[derive(Debug, PartialEq, Eq, Structural, Copy, Clone)]
pub enum Addr {
    LCDControl,
    ScrollY,
    ScrollX,
    CurrentScanLine,
    BGPalette,
}

pub open spec fn addr_spec(a: Addr) -> u16 {
    match a {
        Addr::LCDControl => 0xFF40,
        Addr::ScrollY => 0xFF42,
        Addr::ScrollX => 0xFF43,
        Addr::CurrentScanLine => 0xFF44,
        Addr::BGPalette => 0xFF47,
    }
}

impl Addr {
    /// The bus address of the register.
    pub fn address(self) -> (r: u16)
        ensures
            r == addr_spec(self),
    {
        match self {
            Addr::LCDControl => 0xFF40,
            Addr::ScrollY => 0xFF42,
            Addr::ScrollX => 0xFF43,
            Addr::CurrentScanLine => 0xFF44,
            Addr::BGPalette => 0xFF47,
        }
    }
}

#[derive(Debug, PartialEq, Eq, Structural, Copy, Clone)]
pub enum LCDControlReg {
    BackgroundEnabled,
    SpritesEnabled,
    SpriteSize,
    BGTileMap,
    BGTileSet,
    WindowEnabled,
    WindowTileMap,
    LCDEnabled,
}

pub open spec fn lcd_mask_spec(r: LCDControlReg) -> u8 {
    match r {
        LCDControlReg::BackgroundEnabled => 0x01,
        LCDControlReg::SpritesEnabled => 0x02,
        LCDControlReg::SpriteSize => 0x04,
        LCDControlReg::BGTileMap => 0x08,
        LCDControlReg::BGTileSet => 0x10,
        LCDControlReg::WindowEnabled => 0x20,
        LCDControlReg::WindowTileMap => 0x40,
        LCDControlReg::LCDEnabled => 0x80,
    }
}

impl LCDControlReg {
    /// The bit of the control register.
    pub fn mask(self) -> (r: u8)
        ensures
            r == lcd_mask_spec(self),
    {
        match self {
            LCDControlReg::BackgroundEnabled => 0x01,
            LCDControlReg::SpritesEnabled => 0x02,
            LCDControlReg::SpriteSize => 0x04,
            LCDControlReg::BGTileMap => 0x08,
            LCDControlReg::BGTileSet => 0x10,
            LCDControlReg::WindowEnabled => 0x20,
            LCDControlReg::WindowTileMap => 0x40,
            LCDControlReg::LCDEnabled => 0x80,
        }
    }
}

} // verus!
