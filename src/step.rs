//! The pixel-processing unit's timing state machine: OAM search, pixel
//! transfer and horizontal blank for each of the 144 visible lines, then ten
//! lines of vertical blank.

use vstd::prelude::*;
use crate::mmu::{BusError, MMU};

verus! {

/// The bus address that mirrors the current scanline.
pub const CURRENT_SCAN_LINE: u16 = 0xFF44;

#[derive(Debug, PartialEq, Eq, Structural, Copy, Clone)]
pub enum Mode {
    ScanlineOAM,
    ScanlineVRAM,
    HBlank,
    VBlank,
}

/// What a step reports: a visible line is ready to be drawn, or nothing.
#[derive(Debug, PartialEq, Eq, Structural, Copy, Clone)]
pub enum Result {
    Renderscan,
    Noop,
}

pub struct Step {
    pub mode: Mode,
    /// Cycles spent in the current mode.
    pub mode_clock: u32,
    /// The current scanline, 0 to 153.
    pub line: u8,
}

/// Cycles each mode lasts.
pub open spec fn threshold(m: Mode) -> int {
    match m {
        Mode::ScanlineOAM => 80,
        Mode::ScanlineVRAM => 172,
        Mode::HBlank => 204,
        Mode::VBlank => 456,
    }
}

impl Step {
    /// The clock stays below its mode's length, the line within 0..=153, and
    /// the machine is in vertical blank exactly on lines 144 to 153.
    pub open spec fn wf(self) -> bool {
        self.mode_clock < threshold(self.mode) && self.line <= 153 && (self.mode == Mode::VBlank
            <==> self.line >= 144)
    }
}

/// The state after `cycles` more cycles, and what it reports. A mode ends
/// once its clock reaches its length; the clock then starts again from zero
/// and no remainder is carried.
pub open spec fn calc_spec(s: Step, cycles: u8) -> (Step, Result) {
    let clock = s.mode_clock + cycles;
    if clock < threshold(s.mode) {
        (Step { mode_clock: clock as u32, ..s }, Result::Noop)
    } else {
        match s.mode {
            Mode::ScanlineOAM => (Step { mode: Mode::ScanlineVRAM, mode_clock: 0, ..s }, Result::Noop),
            Mode::ScanlineVRAM => (Step { mode: Mode::HBlank, mode_clock: 0, ..s }, Result::Renderscan),
            Mode::HBlank => (
                Step {
                    mode: if s.line == 143 { Mode::VBlank } else { Mode::ScanlineOAM },
                    mode_clock: 0,
                    line: (s.line + 1) as u8,
                },
                Result::Noop,
            ),
            Mode::VBlank => (
                if s.line >= 153 {
                    Step { mode: Mode::ScanlineOAM, mode_clock: 0, line: 0 }
                } else {
                    Step { mode: Mode::VBlank, mode_clock: 0, line: (s.line + 1) as u8 }
                },
                Result::Noop,
            ),
        }
    }
}

impl Step {
    pub fn new() -> (r: Step)
        ensures
            r == (Step { mode: Mode::ScanlineOAM, mode_clock: 0, line: 0 }),
            r.wf(),
    {
        Step { mode: Mode::ScanlineOAM, mode_clock: 0, line: 0 }
    }

    /// Advances by `cycles`. When the line changes, the new line is written
    /// to the current-scanline register of the bus.
    pub fn calc<M: MMU>(&mut self, cycles: u8, mmu: &mut M) -> (r: core::result::Result<Result, BusError>)
        requires
            old(self).wf(),
        ensures
            ({
                let (s, ev) = calc_spec(*old(self), cycles);
                if s.line == old(self).line {
                    r == core::result::Result::<Result, BusError>::Ok(ev) && *final(self) == s
                        && final(mmu).mem() == old(mmu).mem()
                } else {
                    *final(self) == s && match M::store(old(mmu).mem(), CURRENT_SCAN_LINE, s.line) {
                        Ok(m) => r == core::result::Result::<Result, BusError>::Ok(ev)
                            && final(mmu).mem() == m,
                        Err(e) => r == core::result::Result::<Result, BusError>::Err(e),
                    }
                }
            }),
            final(self).wf(),
    {
        self.mode_clock = self.mode_clock + cycles as u32;
        match self.mode {
            Mode::ScanlineOAM => {
                if self.mode_clock >= 80 {
                    self.mode_clock = 0;
                    self.mode = Mode::ScanlineVRAM;
                }
                Ok(Result::Noop)
            },
            Mode::ScanlineVRAM => {
                if self.mode_clock >= 172 {
                    self.mode_clock = 0;
                    self.mode = Mode::HBlank;
                    Ok(Result::Renderscan)
                } else {
                    Ok(Result::Noop)
                }
            },
            Mode::HBlank => {
                if self.mode_clock >= 204 {
                    self.mode_clock = 0;
                    self.mode = if self.line == 143 { Mode::VBlank } else { Mode::ScanlineOAM };
                    self.line = self.line + 1;
                    match mmu.write8(CURRENT_SCAN_LINE, self.line) {
                        Ok(()) => Ok(Result::Noop),
                        Err(e) => Err(e),
                    }
                } else {
                    Ok(Result::Noop)
                }
            },
            Mode::VBlank => {
                if self.mode_clock >= 456 {
                    self.mode_clock = 0;
                    if self.line >= 153 {
                        self.mode = Mode::ScanlineOAM;
                        self.line = 0;
                    } else {
                        self.line = self.line + 1;
                    }
                    match mmu.write8(CURRENT_SCAN_LINE, self.line) {
                        Ok(()) => Ok(Result::Noop),
                        Err(e) => Err(e),
                    }
                } else {
                    Ok(Result::Noop)
                }
            },
        }
    }
}

/// One visible line: 80, 172 and 204 cycles fed in turn.
pub open spec fn one_line(s: Step) -> Step {
    calc_spec(calc_spec(calc_spec(s, 80).0, 172).0, 204).0
}

/// One line of vertical blank, 456 cycles fed as two halves.
pub open spec fn blank_line(s: Step) -> Step {
    calc_spec(calc_spec(s, 228).0, 228).0
}

pub open spec fn visible_lines(s: Step, k: nat) -> Step
    decreases k,
{
    if k == 0 {
        s
    } else {
        one_line(visible_lines(s, (k - 1) as nat))
    }
}

pub open spec fn blank_lines(s: Step, k: nat) -> Step
    decreases k,
{
    if k == 0 {
        s
    } else {
        blank_line(blank_lines(s, (k - 1) as nat))
    }
}

/// From the start of a visible line, 80 + 172 + 204 cycles pass through
/// pixel transfer (reporting the line ready exactly there) and horizontal
/// blank, and end at the start of the next line with the clock at zero; after
/// line 143 that is vertical blank.
pub proof fn law_one_line(s: Step)
    requires
        s.wf(),
        s.mode == Mode::ScanlineOAM,
        s.mode_clock == 0,
    ensures
        calc_spec(s, 80).0.mode == Mode::ScanlineVRAM,
        calc_spec(s, 80).1 == Result::Noop,
        calc_spec(calc_spec(s, 80).0, 172).0.mode == Mode::HBlank,
        calc_spec(calc_spec(s, 80).0, 172).1 == Result::Renderscan,
        calc_spec(calc_spec(calc_spec(s, 80).0, 172).0, 204).1 == Result::Noop,
        one_line(s) == (Step {
            mode: if s.line == 143 { Mode::VBlank } else { Mode::ScanlineOAM },
            mode_clock: 0,
            line: (s.line + 1) as u8,
        }),
{
}

/// From the initial state, 144 visible lines end in vertical blank on line
/// 144, and each count of lines before that at the start of that line.
pub proof fn law_visible_frame(k: nat)
    requires
        k <= 144,
    ensures
        visible_lines(Step { mode: Mode::ScanlineOAM, mode_clock: 0, line: 0 }, k) == (Step {
            mode: if k < 144 { Mode::ScanlineOAM } else { Mode::VBlank },
            mode_clock: 0,
            line: k as u8,
        }),
    decreases k,
{
    if k > 0 {
        law_visible_frame((k - 1) as nat);
        law_one_line(visible_lines(Step { mode: Mode::ScanlineOAM, mode_clock: 0, line: 0 }, (k - 1) as nat));
    }
}

/// After the 144 visible lines, ten lines of vertical blank bring the
/// machine back to the start of line 0: 154 lines in all.
pub proof fn law_full_frame(j: nat)
    requires
        j <= 10,
    ensures
        blank_lines(visible_lines(Step { mode: Mode::ScanlineOAM, mode_clock: 0, line: 0 }, 144), j)
            == (if j < 10 {
            Step { mode: Mode::VBlank, mode_clock: 0, line: (144 + j) as u8 }
        } else {
            Step { mode: Mode::ScanlineOAM, mode_clock: 0, line: 0 }
        }),
    decreases j,
{
    law_visible_frame(144);
    if j > 0 {
        law_full_frame((j - 1) as nat);
    }
}

} // verus!
