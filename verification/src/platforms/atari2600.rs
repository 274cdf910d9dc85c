//! Atari 2600: a 6502-family CPU with a flat hardware map, the TIA video
//! and audio chip, the RIOT RAM-I/O-timer chip, and a bank-switching
//! cartridge.

use vstd::prelude::*;

use crate::cpu::{Cpu, CpuFactory, CpuV};
use crate::error::{EmuliteError, EmuliteResult};
use crate::input::PadState;
use crate::memory::{DeviceEntryV, DeviceKind, DeviceV, MemoryAccess, MemoryDevice, MemoryMapper, RamDevice, RegionV, RomDevice};
use crate::platforms::PlatformInfo;
use vstd::wrapping::u16_specs;
use vstd::wrapping::u64_specs;
use vstd::wrapping::u8_specs;

verus! {

broadcast use vstd::string::group_string_axioms;

/// The TIA (Television Interface Adaptor) chip: a byte-addressed register
/// file, a beam position counter and the indexed frame it renders.
#[derive(Debug)]
pub struct TiaChip {
    pub vsync: u8,
    pub vblank: u8,
    pub wsync: u8,
    pub rsync: u8,
    pub nusiz0: u8,
    pub nusiz1: u8,
    pub colup0: u8,
    pub colup1: u8,
    pub colupf: u8,
    pub colubk: u8,
    pub ctrlpf: u8,
    pub refp0: u8,
    pub refp1: u8,
    pub pf0: u8,
    pub pf1: u8,
    pub pf2: u8,
    pub resp0: u8,
    pub resp1: u8,
    pub resm0: u8,
    pub resm1: u8,
    pub resbl: u8,
    pub audc0: u8,
    pub audc1: u8,
    pub audf0: u8,
    pub audf1: u8,
    pub audv0: u8,
    pub audv1: u8,
    pub grp0: u8,
    pub grp1: u8,
    pub enam0: u8,
    pub enam1: u8,
    pub enabl: u8,
    pub hmp0: u8,
    pub hmp1: u8,
    pub hmm0: u8,
    pub hmm1: u8,
    pub hmbl: u8,
    pub vdelp0: u8,
    pub vdelp1: u8,
    pub vdelbl: u8,
    pub resmp0: u8,
    pub resmp1: u8,
    pub hmove: u8,
    pub hmclr: u8,
    pub cxclr: u8,
    pub scanline: u16,
    pub cycle: u8,
    pub frame_buffer: Vec<u8>,
}

/// The playfield pattern byte selecting column `idx` (0 to 3).
pub open spec fn pf_pattern(t: TiaChip, idx: int) -> u8 {
    if idx == 0 {
        (t.pf0 & 0xF0) >> 4u8
    } else if idx == 1 {
        (t.pf0 & 0x0F) << 4u8
    } else if idx == 2 {
        t.pf1
    } else {
        t.pf2
    }
}

/// Whether the playfield bit covering column `x` is set; the right half
/// mirrors the left.
pub open spec fn pf_bit(t: TiaChip, x: int) -> bool {
    if x < 80 {
        (pf_pattern(t, x / 20) >> ((7 - (x % 8)) as u8)) & 1 != 0
    } else {
        let rx = 159 - x;
        (pf_pattern(t, rx / 20) >> ((7 - (rx % 8)) as u8)) & 1 != 0
    }
}

/// Whether bit `dx` (0 to 7, left to right) of a sprite graphic is set.
pub open spec fn grp_bit(g: u8, dx: int) -> bool {
    (g >> ((7 - dx) as u8)) & 1 != 0
}

/// The indexed colour the TIA renders at `(x, y)`: vertical blank shows
/// black; otherwise the ball, player 1, player 0, the playfield and the
/// background, in that priority order.
pub open spec fn tia_pixel(t: TiaChip, x: int, y: int) -> u8 {
    if t.vblank != 0 {
        0
    } else if t.enabl != 0 && 80 <= x < 84 && 100 <= y < 104 {
        t.colupf
    } else if t.enam1 != 0 && 60 <= x < 68 && 50 <= y < 58 && grp_bit(t.grp1, x - 60) {
        t.colup1
    } else if t.enam0 != 0 && 20 <= x < 28 && 50 <= y < 58 && grp_bit(t.grp0, x - 20) {
        t.colup0
    } else if pf_bit(t, x) {
        t.colupf
    } else {
        t.colubk
    }
}

/// The full indexed frame the TIA renders, row-major, 160 by 192.
pub open spec fn tia_render(t: TiaChip) -> Seq<u8> {
    Seq::new(160 * 192, |i: int| tia_pixel(t, i % 160, i / 160))
}

impl TiaChip {
    /// The power-on register image over a given frame buffer.
    pub open spec fn cleared_with(fb: Vec<u8>) -> TiaChip {
        TiaChip {
            vsync: 0,
            vblank: 0,
            wsync: 0,
            rsync: 0,
            nusiz0: 0,
            nusiz1: 0,
            colup0: 0,
            colup1: 0,
            colupf: 0,
            colubk: 0,
            ctrlpf: 0,
            refp0: 0,
            refp1: 0,
            pf0: 0,
            pf1: 0,
            pf2: 0,
            resp0: 0,
            resp1: 0,
            resm0: 0,
            resm1: 0,
            resbl: 0,
            audc0: 0,
            audc1: 0,
            audf0: 0,
            audf1: 0,
            audv0: 0,
            audv1: 0,
            grp0: 0,
            grp1: 0,
            enam0: 0,
            enam1: 0,
            enabl: 0,
            hmp0: 0,
            hmp1: 0,
            hmm0: 0,
            hmm1: 0,
            hmbl: 0,
            vdelp0: 0,
            vdelp1: 0,
            vdelbl: 0,
            resmp0: 0,
            resmp1: 0,
            hmove: 0,
            hmclr: 0,
            cxclr: 0,
            scanline: 0,
            cycle: 0,
            frame_buffer: fb,
        }
    }

    /// A TIA at power-on: registers cleared, beam at the origin, a black
    /// frame.
    pub fn new() -> (r: TiaChip)
        ensures
            r == TiaChip::cleared_with(r.frame_buffer),
            r.frame_buffer@ =~= Seq::new(160 * 192, |i: int| 0u8),
    {
        TiaChip {
            vsync: 0,
            vblank: 0,
            wsync: 0,
            rsync: 0,
            nusiz0: 0,
            nusiz1: 0,
            colup0: 0,
            colup1: 0,
            colupf: 0,
            colubk: 0,
            ctrlpf: 0,
            refp0: 0,
            refp1: 0,
            pf0: 0,
            pf1: 0,
            pf2: 0,
            resp0: 0,
            resp1: 0,
            resm0: 0,
            resm1: 0,
            resbl: 0,
            audc0: 0,
            audc1: 0,
            audf0: 0,
            audf1: 0,
            audv0: 0,
            audv1: 0,
            grp0: 0,
            grp1: 0,
            enam0: 0,
            enam1: 0,
            enabl: 0,
            hmp0: 0,
            hmp1: 0,
            hmm0: 0,
            hmm1: 0,
            hmbl: 0,
            vdelp0: 0,
            vdelp1: 0,
            vdelbl: 0,
            resmp0: 0,
            resmp1: 0,
            hmove: 0,
            hmclr: 0,
            cxclr: 0,
            scanline: 0,
            cycle: 0,
            frame_buffer: crate::memory::zero_bytes(160 * 192),
        }
    }

    /// The beam position after one colour clock: 228 clocks to a
    /// scanline, 262 scanlines to a frame.
    pub open spec fn stepped_beam(self) -> (u8, u16) {
        let c = u8_specs::wrapping_add(self.cycle, 1);
        if c >= 228 {
            let sl = u16_specs::wrapping_add(self.scanline, 1);
            if sl >= 262 {
                (0u8, 0u16)
            } else {
                (0u8, sl)
            }
        } else {
            (c, self.scanline)
        }
    }

    /// One colour clock: the beam advances and the frame is re-rendered
    /// from the current registers.
    pub fn step(&mut self) -> (r: EmuliteResult<()>)
        ensures
            r is Ok,
            *final(self) == (TiaChip {
                cycle: old(self).stepped_beam().0,
                scanline: old(self).stepped_beam().1,
                frame_buffer: final(self).frame_buffer,
                ..*old(self)
            }),
            final(self).frame_buffer@ == tia_render(*final(self)),
    {
        self.cycle = self.cycle.wrapping_add(1);
        if self.cycle >= 228 {
            self.cycle = 0;
            self.scanline = self.scanline.wrapping_add(1);
            if self.scanline >= 262 {
                self.scanline = 0;
            }
        }
        self.update_frame_buffer();
        Ok(())
    }

    /// Renders one pixel from the current registers.
    fn pixel_at(&self, x: usize, y: usize) -> (r: u8)
        requires
            x < 160,
            y < 192,
        ensures
            r == tia_pixel(*self, x as int, y as int),
    {
        if self.vblank != 0 {
            0
        } else if self.enabl != 0 && 80 <= x && x < 84 && 100 <= y && y < 104 {
            self.colupf
        } else if self.enam1 != 0 && 60 <= x && x < 68 && 50 <= y && y < 58 && (self.grp1 >> ((7 - (
        x - 60)) as u8)) & 1 != 0 {
            self.colup1
        } else if self.enam0 != 0 && 20 <= x && x < 28 && 50 <= y && y < 58 && (self.grp0 >> ((7 - (
        x - 20)) as u8)) & 1 != 0 {
            self.colup0
        } else {
            let pf = if x < 80 {
                ((self.pf_pattern_at(x / 20)) >> ((7 - (x % 8)) as u8)) & 1 != 0
            } else {
                let rx = 159 - x;
                ((self.pf_pattern_at(rx / 20)) >> ((7 - (rx % 8)) as u8)) & 1 != 0
            };
            if pf {
                self.colupf
            } else {
                self.colubk
            }
        }
    }

    /// The playfield pattern byte for column group `idx`.
    fn pf_pattern_at(&self, idx: usize) -> (r: u8)
        ensures
            r == pf_pattern(*self, idx as int),
    {
        if idx == 0 {
            (self.pf0 & 0xF0) >> 4
        } else if idx == 1 {
            (self.pf0 & 0x0F) << 4
        } else if idx == 2 {
            self.pf1
        } else {
            self.pf2
        }
    }

    /// Re-renders the whole indexed frame from the current registers.
    fn update_frame_buffer(&mut self)
        ensures
            *final(self) == (TiaChip { frame_buffer: final(self).frame_buffer, ..*old(self) }),
            final(self).frame_buffer@ == tia_render(*old(self)),
    {
        let mut fb: Vec<u8> = Vec::new();
        let mut y: usize = 0;
        while y < 192
            invariant
                y <= 192,
                *self == *old(self),
                fb@.len() == y * 160,
                forall|i: int|
                    0 <= i < fb@.len() ==> fb@[i] == tia_pixel(*old(self), i % 160, i / 160),
            decreases 192 - y,
        {
            let mut x: usize = 0;
            while x < 160
                invariant
                    x <= 160,
                    y < 192,
                    *self == *old(self),
                    fb@.len() == y * 160 + x,
                    forall|i: int|
                        0 <= i < fb@.len() ==> fb@[i] == tia_pixel(*old(self), i % 160, i / 160),
                decreases 160 - x,
            {
                let px = self.pixel_at(x, y);
                fb.push(px);
                proof {
                    assert((y * 160 + x) as int % 160 == x as int) by (nonlinear_arith)
                        requires
                            x < 160 && y < 192,
                    ;
                    assert((y * 160 + x) as int / 160 == y as int) by (nonlinear_arith)
                        requires
                            x < 160 && y < 192,
                    ;
                }
                x = x + 1;
            }
            y = y + 1;
        }
        self.frame_buffer = fb;
        proof {
            assert(self.frame_buffer@ =~= tia_render(*old(self)));
        }
    }

    /// Power-on reset: back to the power-on state.
    pub fn reset(&mut self)
        ensures
            *final(self) == TiaChip::cleared_with(final(self).frame_buffer),
            final(self).frame_buffer@ =~= Seq::new(160 * 192, |i: int| 0u8),
    {
        *self = TiaChip::new();
    }

    /// The register value at a TIA register index; unknown indices read 0.
    pub fn read_register(&self, address: u8) -> (r: u8)
        ensures
            r == tia_reg_read(*self, address),
    {
        match address {
            0x00 => self.vsync,
            0x01 => self.vblank,
            0x02 => self.wsync,
            0x03 => self.rsync,
            0x04 => self.nusiz0,
            0x05 => self.nusiz1,
            0x06 => self.colup0,
            0x07 => self.colup1,
            0x08 => self.colupf,
            0x09 => self.colubk,
            0x0A => self.ctrlpf,
            0x0B => self.refp0,
            0x0C => self.refp1,
            0x0D => self.pf0,
            0x0E => self.pf1,
            0x0F => self.pf2,
            0x10 => self.resp0,
            0x11 => self.resp1,
            0x12 => self.resm0,
            0x13 => self.resm1,
            0x14 => self.resbl,
            0x15 => self.audc0,
            0x16 => self.audc1,
            0x17 => self.audf0,
            0x18 => self.audf1,
            0x19 => self.audv0,
            0x1A => self.audv1,
            0x1B => self.grp0,
            0x1C => self.grp1,
            0x1D => self.enam0,
            0x1E => self.enam1,
            0x1F => self.enabl,
            0x20 => self.hmp0,
            0x21 => self.hmp1,
            0x22 => self.hmm0,
            0x23 => self.hmm1,
            0x24 => self.hmbl,
            0x25 => self.vdelp0,
            0x26 => self.vdelp1,
            0x27 => self.vdelbl,
            0x28 => self.resmp0,
            0x29 => self.resmp1,
            0x2A => self.hmove,
            0x2B => self.hmclr,
            0x2C => self.cxclr,
            _ => 0,
        }
    }

    /// Writes the register at a TIA register index; unknown indices are
    /// ignored.
    pub fn write_register(&mut self, address: u8, value: u8)
        ensures
            *final(self) == tia_reg_write(*old(self), address, value),
    {
        match address {
            0x00 => self.vsync = value,
            0x01 => self.vblank = value,
            0x02 => self.wsync = value,
            0x03 => self.rsync = value,
            0x04 => self.nusiz0 = value,
            0x05 => self.nusiz1 = value,
            0x06 => self.colup0 = value,
            0x07 => self.colup1 = value,
            0x08 => self.colupf = value,
            0x09 => self.colubk = value,
            0x0A => self.ctrlpf = value,
            0x0B => self.refp0 = value,
            0x0C => self.refp1 = value,
            0x0D => self.pf0 = value,
            0x0E => self.pf1 = value,
            0x0F => self.pf2 = value,
            0x10 => self.resp0 = value,
            0x11 => self.resp1 = value,
            0x12 => self.resm0 = value,
            0x13 => self.resm1 = value,
            0x14 => self.resbl = value,
            0x15 => self.audc0 = value,
            0x16 => self.audc1 = value,
            0x17 => self.audf0 = value,
            0x18 => self.audf1 = value,
            0x19 => self.audv0 = value,
            0x1A => self.audv1 = value,
            0x1B => self.grp0 = value,
            0x1C => self.grp1 = value,
            0x1D => self.enam0 = value,
            0x1E => self.enam1 = value,
            0x1F => self.enabl = value,
            0x20 => self.hmp0 = value,
            0x21 => self.hmp1 = value,
            0x22 => self.hmm0 = value,
            0x23 => self.hmm1 = value,
            0x24 => self.hmbl = value,
            0x25 => self.vdelp0 = value,
            0x26 => self.vdelp1 = value,
            0x27 => self.vdelbl = value,
            0x28 => self.resmp0 = value,
            0x29 => self.resmp1 = value,
            0x2A => self.hmove = value,
            0x2B => self.hmclr = value,
            0x2C => self.cxclr = value,
            _ => {},
        }
    }
}

/// The value a TIA register read yields.
pub open spec fn tia_reg_read(t: TiaChip, address: u8) -> u8 {
    match address {
        0x00u8 => t.vsync,
        0x01u8 => t.vblank,
        0x02u8 => t.wsync,
        0x03u8 => t.rsync,
        0x04u8 => t.nusiz0,
        0x05u8 => t.nusiz1,
        0x06u8 => t.colup0,
        0x07u8 => t.colup1,
        0x08u8 => t.colupf,
        0x09u8 => t.colubk,
        0x0Au8 => t.ctrlpf,
        0x0Bu8 => t.refp0,
        0x0Cu8 => t.refp1,
        0x0Du8 => t.pf0,
        0x0Eu8 => t.pf1,
        0x0Fu8 => t.pf2,
        0x10u8 => t.resp0,
        0x11u8 => t.resp1,
        0x12u8 => t.resm0,
        0x13u8 => t.resm1,
        0x14u8 => t.resbl,
        0x15u8 => t.audc0,
        0x16u8 => t.audc1,
        0x17u8 => t.audf0,
        0x18u8 => t.audf1,
        0x19u8 => t.audv0,
        0x1Au8 => t.audv1,
        0x1Bu8 => t.grp0,
        0x1Cu8 => t.grp1,
        0x1Du8 => t.enam0,
        0x1Eu8 => t.enam1,
        0x1Fu8 => t.enabl,
        0x20u8 => t.hmp0,
        0x21u8 => t.hmp1,
        0x22u8 => t.hmm0,
        0x23u8 => t.hmm1,
        0x24u8 => t.hmbl,
        0x25u8 => t.vdelp0,
        0x26u8 => t.vdelp1,
        0x27u8 => t.vdelbl,
        0x28u8 => t.resmp0,
        0x29u8 => t.resmp1,
        0x2Au8 => t.hmove,
        0x2Bu8 => t.hmclr,
        0x2Cu8 => t.cxclr,
        _ => 0,
    }
}

/// The state a TIA register write leaves.
pub open spec fn tia_reg_write(t: TiaChip, address: u8, value: u8) -> TiaChip {
    match address {
        0x00u8 => TiaChip { vsync: value, ..t },
        0x01u8 => TiaChip { vblank: value, ..t },
        0x02u8 => TiaChip { wsync: value, ..t },
        0x03u8 => TiaChip { rsync: value, ..t },
        0x04u8 => TiaChip { nusiz0: value, ..t },
        0x05u8 => TiaChip { nusiz1: value, ..t },
        0x06u8 => TiaChip { colup0: value, ..t },
        0x07u8 => TiaChip { colup1: value, ..t },
        0x08u8 => TiaChip { colupf: value, ..t },
        0x09u8 => TiaChip { colubk: value, ..t },
        0x0Au8 => TiaChip { ctrlpf: value, ..t },
        0x0Bu8 => TiaChip { refp0: value, ..t },
        0x0Cu8 => TiaChip { refp1: value, ..t },
        0x0Du8 => TiaChip { pf0: value, ..t },
        0x0Eu8 => TiaChip { pf1: value, ..t },
        0x0Fu8 => TiaChip { pf2: value, ..t },
        0x10u8 => TiaChip { resp0: value, ..t },
        0x11u8 => TiaChip { resp1: value, ..t },
        0x12u8 => TiaChip { resm0: value, ..t },
        0x13u8 => TiaChip { resm1: value, ..t },
        0x14u8 => TiaChip { resbl: value, ..t },
        0x15u8 => TiaChip { audc0: value, ..t },
        0x16u8 => TiaChip { audc1: value, ..t },
        0x17u8 => TiaChip { audf0: value, ..t },
        0x18u8 => TiaChip { audf1: value, ..t },
        0x19u8 => TiaChip { audv0: value, ..t },
        0x1Au8 => TiaChip { audv1: value, ..t },
        0x1Bu8 => TiaChip { grp0: value, ..t },
        0x1Cu8 => TiaChip { grp1: value, ..t },
        0x1Du8 => TiaChip { enam0: value, ..t },
        0x1Eu8 => TiaChip { enam1: value, ..t },
        0x1Fu8 => TiaChip { enabl: value, ..t },
        0x20u8 => TiaChip { hmp0: value, ..t },
        0x21u8 => TiaChip { hmp1: value, ..t },
        0x22u8 => TiaChip { hmm0: value, ..t },
        0x23u8 => TiaChip { hmm1: value, ..t },
        0x24u8 => TiaChip { hmbl: value, ..t },
        0x25u8 => TiaChip { vdelp0: value, ..t },
        0x26u8 => TiaChip { vdelp1: value, ..t },
        0x27u8 => TiaChip { vdelbl: value, ..t },
        0x28u8 => TiaChip { resmp0: value, ..t },
        0x29u8 => TiaChip { resmp1: value, ..t },
        0x2Au8 => TiaChip { hmove: value, ..t },
        0x2Bu8 => TiaChip { hmclr: value, ..t },
        0x2Cu8 => TiaChip { cxclr: value, ..t },
        _ => t,
    }
}

/// One joystick's direction and fire state.
#[derive(Debug, Clone, Copy, PartialEq, Eq, Structural)]
pub struct JoystickState {
    pub up: bool,
    pub down: bool,
    pub left: bool,
    pub right: bool,
    pub fire: bool,
}

/// The console's physical switches.
#[derive(Debug, Clone, Copy, PartialEq, Eq, Structural)]
pub struct ConsoleSwitches {
    pub tv_type: bool,
    pub left_difficulty: bool,
    pub right_difficulty: bool,
    pub game_select: bool,
    pub game_reset: bool,
}

/// The RIOT (RAM, I/O, Timer) chip.
#[derive(Debug)]
pub struct RiaChip {
    pub ram: [u8; 128],
    pub timer: u8,
    pub timer_interval: u8,
    pub timer_enabled: bool,
    pub swcha: u8,
    pub swchb: u8,
    pub swacnt: u8,
    pub swbcnt: u8,
    pub joystick0: JoystickState,
    pub joystick1: JoystickState,
    pub console_switches: ConsoleSwitches,
}

/// The SWCHA byte for a pair of joysticks: a cleared bit means pressed.
pub open spec fn swcha_of(j0: JoystickState) -> u8 {
    let b: u8 = 0;
    let b: u8 = if !j0.right { b | 0x80 } else { b };
    let b: u8 = if !j0.left { b | 0x40 } else { b };
    let b: u8 = if !j0.down { b | 0x20 } else { b };
    let b: u8 = if !j0.up { b | 0x10 } else { b };
    b
}

/// The SWCHB byte for the second joystick, the fire buttons and the
/// console switches.
pub open spec fn swchb_of(j0: JoystickState, j1: JoystickState, sw: ConsoleSwitches) -> u8 {
    let b: u8 = 0;
    let b: u8 = if !j1.right { b | 0x80 } else { b };
    let b: u8 = if !j1.left { b | 0x40 } else { b };
    let b: u8 = if !j1.down { b | 0x20 } else { b };
    let b: u8 = if !j1.up { b | 0x10 } else { b };
    let b: u8 = if !j0.fire { b | 0x08 } else { b };
    let b: u8 = if !j1.fire { b | 0x04 } else { b };
    let b: u8 = if sw.game_select { b | 0x02 } else { b };
    let b: u8 = if sw.game_reset { b | 0x01 } else { b };
    b
}

impl RiaChip {
    /// A RIOT at power-on: RAM cleared, timer idle, colour TV, both
    /// difficulty switches at their first position.
    /// The power-on RIOT image over a given RAM array.
    pub open spec fn initial_with(ram: [u8; 128]) -> RiaChip {
        RiaChip {
            ram,
            timer: 0,
            timer_interval: 0,
            timer_enabled: false,
            swcha: 0,
            swchb: 0,
            swacnt: 0,
            swbcnt: 0,
            joystick0: JoystickState {
                up: false,
                down: false,
                left: false,
                right: false,
                fire: false,
            },
            joystick1: JoystickState {
                up: false,
                down: false,
                left: false,
                right: false,
                fire: false,
            },
            console_switches: ConsoleSwitches {
                tv_type: true,
                left_difficulty: false,
                right_difficulty: false,
                game_select: false,
                game_reset: false,
            },
        }
    }

    pub fn new() -> (r: RiaChip)
        ensures
            r == RiaChip::initial_with(r.ram),
            r.ram@ =~= Seq::new(128, |i: int| 0u8),
    {
        RiaChip {
            ram: [0; 128],
            timer: 0,
            timer_interval: 0,
            timer_enabled: false,
            swcha: 0,
            swchb: 0,
            swacnt: 0,
            swbcnt: 0,
            joystick0: JoystickState {
                up: false,
                down: false,
                left: false,
                right: false,
                fire: false,
            },
            joystick1: JoystickState {
                up: false,
                down: false,
                left: false,
                right: false,
                fire: false,
            },
            console_switches: ConsoleSwitches {
                tv_type: true,
                left_difficulty: false,
                right_difficulty: false,
                game_select: false,
                game_reset: false,
            },
        }
    }

    /// One timer tick: an enabled timer counts down and reloads from its
    /// interval at zero.
    pub fn step(&mut self) -> (r: EmuliteResult<()>)
        ensures
            r is Ok,
            *final(self) == (RiaChip {
                timer: if old(self).timer_enabled {
                    if old(self).timer > 0 {
                        (old(self).timer - 1) as u8
                    } else {
                        old(self).timer_interval
                    }
                } else {
                    old(self).timer
                },
                ..*old(self)
            }),
    {
        if self.timer_enabled {
            if self.timer > 0 {
                self.timer = self.timer - 1;
            } else {
                self.timer = self.timer_interval;
            }
        }
        Ok(())
    }

    /// Power-on reset: back to the power-on state.
    pub fn reset(&mut self)
        ensures
            *final(self) == RiaChip::initial_with(final(self).ram),
            final(self).ram@ =~= Seq::new(128, |i: int| 0u8),
    {
        *self = RiaChip::new();
    }

    /// The RIOT RAM byte a register index maps to; indices below the RAM
    /// window read 0.
    pub fn read_register(&self, address: u8) -> (r: u8)
        ensures
            address >= 0x80 ==> r == self.ram@[address - 0x80],
            address < 0x80 ==> r == 0,
    {
        if address >= 0x80 {
            self.ram[(address - 0x80) as usize]
        } else {
            0
        }
    }

    /// Writes the RIOT RAM byte a register index maps to; indices below
    /// the RAM window are ignored.
    pub fn write_register(&mut self, address: u8, value: u8)
        ensures
            address >= 0x80 ==> *final(self) == (RiaChip {
                ram: final(self).ram,
                ..*old(self)
            }) && final(self).ram@ == old(self).ram@.update(address - 0x80, value),
            address < 0x80 ==> *final(self) == *old(self),
    {
        if address >= 0x80 {
            self.ram[(address - 0x80) as usize] = value;
        }
    }

    /// Latches the current pad state into the joystick fields and the
    /// SWCHA and SWCHB port bytes; a cleared direction bit means pressed.
    #[verifier::rlimit(100)]
    pub fn update_input(&mut self, pad0: PadState, pad1: PadState)
        ensures
            *final(self) == (RiaChip {
                joystick0: joystick_of(pad0),
                joystick1: joystick_of(pad1),
                console_switches: ConsoleSwitches {
                    game_select: pad0.select,
                    game_reset: pad0.start,
                    ..old(self).console_switches
                },
                swcha: swcha_of(joystick_of(pad0)),
                swchb: swchb_of(
                    joystick_of(pad0),
                    joystick_of(pad1),
                    ConsoleSwitches {
                        game_select: pad0.select,
                        game_reset: pad0.start,
                        ..old(self).console_switches
                    },
                ),
                ..*old(self)
            }),
    {
        self.joystick0 = JoystickState {
            up: pad0.up,
            down: pad0.down,
            left: pad0.left,
            right: pad0.right,
            fire: pad0.fire,
        };
        self.joystick1 = JoystickState {
            up: pad1.up,
            down: pad1.down,
            left: pad1.left,
            right: pad1.right,
            fire: pad1.fire,
        };
        self.console_switches.game_select = pad0.select;
        self.console_switches.game_reset = pad0.start;
        let mut a: u8 = 0;
        if !self.joystick0.right {
            a |= 0x80;
        }
        if !self.joystick0.left {
            a |= 0x40;
        }
        if !self.joystick0.down {
            a |= 0x20;
        }
        if !self.joystick0.up {
            a |= 0x10;
        }
        self.swcha = a;
        let mut b: u8 = 0;
        if !self.joystick1.right {
            b |= 0x80;
        }
        if !self.joystick1.left {
            b |= 0x40;
        }
        if !self.joystick1.down {
            b |= 0x20;
        }
        if !self.joystick1.up {
            b |= 0x10;
        }
        if !self.joystick0.fire {
            b |= 0x08;
        }
        if !self.joystick1.fire {
            b |= 0x04;
        }
        if self.console_switches.game_select {
            b |= 0x02;
        }
        if self.console_switches.game_reset {
            b |= 0x01;
        }
        self.swchb = b;
    }
}

/// The joystick image of a pad snapshot.
pub open spec fn joystick_of(p: PadState) -> JoystickState {
    JoystickState { up: p.up, down: p.down, left: p.left, right: p.right, fire: p.fire }
}

/// The bank-switching scheme a cartridge image uses, detected from its
/// size.
#[derive(Debug, Clone, Copy, PartialEq, Eq, Structural)]
pub enum MapperType {
    Unbanked,
    Atari8K,
    Atari16K,
    Atari32K,
}

/// A cartridge: its raw image, its bank geometry and the selected bank.
#[derive(Debug)]
pub struct Cartridge {
    pub data: Vec<u8>,
    pub bank_count: usize,
    pub current_bank: usize,
    pub mapper_type: MapperType,
}

impl Cartridge {
    /// An empty cartridge slot.
    pub fn new() -> (r: Cartridge)
        ensures
            r.data@.len() == 0,
            r.bank_count == 0,
            r.current_bank == 0,
            r.mapper_type == MapperType::Unbanked,
    {
        Cartridge { data: Vec::new(), bank_count: 0, current_bank: 0, mapper_type: MapperType::Unbanked }
    }

    /// The image byte a cartridge-window read yields: direct for an
    /// unbanked image, offset by the selected 2 KiB bank otherwise; an
    /// empty or out-of-range image reads 0.
    pub open spec fn read_spec(self, address: u16) -> u8 {
        if self.mapper_type == MapperType::Unbanked {
            if (address as int) < self.data@.len() {
                self.data@[address as int]
            } else {
                0
            }
        } else if self.data@.len() == 0 {
            0
        } else {
            let rom_address = (address + self.current_bank * 2048) % self.data@.len() as int;
            self.data@[rom_address]
        }
    }

    /// Reads the cartridge window at `address` through the selected bank.
    pub fn read(&self, address: u16) -> (r: u8)
        requires
            self.current_bank * 2048 + 0x10000 <= usize::MAX,
        ensures
            r == self.read_spec(address),
    {
        if self.mapper_type == MapperType::Unbanked {
            if (address as usize) < self.data.len() {
                self.data[address as usize]
            } else {
                0
            }
        } else if self.data.len() == 0 {
            0
        } else {
            let rom_address = (address as usize + self.current_bank * 2048) % self.data.len();
            self.data[rom_address]
        }
    }

    /// The state a cartridge-window write leaves: a write into the
    /// bank-switch trigger window `0x1FF8..=0x1FFF` selects bank
    /// `value mod bank_count`; everything else is ignored.
    pub open spec fn write_spec(self, address: u16, value: u8) -> Cartridge {
        if self.mapper_type != MapperType::Unbanked && 0x1FF8 <= address && address <= 0x1FFF
            && self.bank_count > 0 {
            Cartridge { current_bank: (value as int % self.bank_count as int) as usize, ..self }
        } else {
            self
        }
    }

    /// Writes the cartridge window: a write into `0x1FF8..=0x1FFF` on a
    /// banked cartridge switches the selected bank.
    pub fn write(&mut self, address: u16, value: u8)
        ensures
            *final(self) == old(self).write_spec(address, value),
    {
        match self.mapper_type {
            MapperType::Unbanked => {},
            _ => {
                if 0x1FF8 <= address && address <= 0x1FFF && self.bank_count > 0 {
                    self.current_bank = (value as usize) % self.bank_count;
                }
            },
        }
    }
}

/// The mapper a cartridge image of the given size uses.
pub open spec fn mapper_for_size(rom_size: int) -> MapperType {
    if rom_size == 2048 {
        MapperType::Unbanked
    } else if rom_size == 4096 {
        MapperType::Atari8K
    } else if rom_size == 8192 {
        MapperType::Atari16K
    } else if rom_size == 16384 {
        MapperType::Atari32K
    } else {
        MapperType::Unbanked
    }
}

/// Detects the bank-switching scheme from the image size.
pub fn detect_mapper_type(rom_size: usize) -> (r: MapperType)
    ensures
        r == mapper_for_size(rom_size as int),
{
    if rom_size == 2048 {
        MapperType::Unbanked
    } else if rom_size == 4096 {
        MapperType::Atari8K
    } else if rom_size == 8192 {
        MapperType::Atari16K
    } else if rom_size == 16384 {
        MapperType::Atari32K
    } else {
        MapperType::Unbanked
    }
}

/// The Atari 2600: a 6502 with the hardware map, a bus mirroring the
/// visible regions, the TIA and RIOT chips and the cartridge slot.
#[derive(Debug)]
pub struct Atari2600 {
    /// The platform's CPU.
    pub cpu: Cpu,
    /// The bus mirroring the visible regions.
    pub memory: MemoryMapper,
    /// The loaded image, if any.
    pub rom: Option<Vec<u8>>,
    /// The TIA video and audio chip.
    pub tia: TiaChip,
    /// The RIOT RAM, I/O and timer chip.
    pub ria: RiaChip,
    /// The cartridge slot.
    pub cart: Cartridge,
    /// The cycle counter.
    pub cycles: u64,
}

impl Atari2600 {
    /// Whether the platform is in a consistent state: the CPU is the
    /// 6502 the platform was built with.
    pub open spec fn wf(self) -> bool {
        self.cpu_view() is Mos6502
    }

    /// The CPU's mathematical image.
    pub open spec fn cpu_view(self) -> CpuV {
        self.cpu@
    }

    /// The cycle counter, as a spec value.
    pub open spec fn cycles_spec(self) -> u64 {
        self.cycles
    }

    /// The power-on state: the 6502 at its initial state over a zeroed
    /// 64 KiB space, the bus holding exactly the 128-byte RAM at `0x0080`,
    /// cleared TIA and RIOT chips, an empty cartridge slot, no image and a
    /// zero cycle counter.
    pub open spec fn powered_on(self) -> bool {
        &&& self.cpu@ == CpuV::Mos6502(
            crate::cpu::mos6502::Mos6502V::initial(Seq::new(0x10000, |i: int| 0u8)),
        )
        &&& self.memory@.size == 0x10000
        &&& self.memory@.devices =~= seq![
            DeviceEntryV {
                name: "RAM"@,
                device: DeviceV {
                    kind: DeviceKind::Ram,
                    data: Seq::new(128, |i: int| 0u8),
                    start: 0x80,
                    name: "RAM"@,
                },
            },
        ]
        &&& self.memory@.regions =~= seq![
            RegionV {
                start: 0x80,
                end: 0xFF,
                access: MemoryAccess::ReadWrite,
                name: "RAM"@,
                device: Some("RAM"@),
            },
        ]
        &&& self.memory@.wf()
        &&& self.rom is None
        &&& self.tia == TiaChip::cleared_with(self.tia.frame_buffer)
        &&& self.tia.frame_buffer@ =~= Seq::new(160 * 192, |i: int| 0u8)
        &&& self.ria == RiaChip::initial_with(self.ria.ram)
        &&& self.ria.ram@ =~= Seq::new(128, |i: int| 0u8)
        &&& self.cart.data@.len() == 0
        &&& self.cart.bank_count == 0
        &&& self.cart.current_bank == 0
        &&& self.cart.mapper_type == MapperType::Unbanked
        &&& self.cycles == 0
    }

    /// An Atari 2600 at power-on: a 6502, a bus with the 128-byte RAM at
    /// `0x0080`, cleared chips and an empty cartridge slot.
    pub fn new() -> (r: EmuliteResult<Atari2600>)
        ensures
            r matches Ok(p) && p.wf() && p.cycles_spec() == 0 && p.powered_on(),
    {
        proof {
            reveal_strlit("6502");
            assert("6502"@.len() == 4);
            assert(crate::text::ascii_lower_seq("6502"@) =~= "6502"@);
        }
        let cpu = match CpuFactory::create("6502") {
            Ok(c) => c,
            Err(e) => {
                return Err(e);
            },
        };
        let mut memory = MemoryMapper::new(0x10000);
        let ram = RamDevice::new(128, 0x80, String::from_str("RAM"));
        match memory.add_device(String::from_str("RAM"), MemoryDevice::Ram(ram)) {
            Ok(_) => {},
            Err(e) => {
                return Err(e);
            },
        }
        proof {
            assert(memory@.devices =~= Seq::<DeviceEntryV>::empty().push(
                DeviceEntryV {
                    name: "RAM"@,
                    device: DeviceV {
                        kind: DeviceKind::Ram,
                        data: Seq::new(128, |i: int| 0u8),
                        start: 0x80,
                        name: "RAM"@,
                    },
                },
            ));
            assert(memory@.regions =~= crate::memory::insert_sorted(
                Seq::<RegionV>::empty(),
                RegionV {
                    start: 0x80,
                    end: 0xFF,
                    access: MemoryAccess::ReadWrite,
                    name: "RAM"@,
                    device: Some("RAM"@),
                },
            ));
        }
        let tia = TiaChip::new();
        let ria = RiaChip::new();
        Ok(
            Atari2600 {
                cpu,
                memory,
                rom: None,
                tia,
                ria,
                cart: Cartridge::new(),
                cycles: 0,
            },
        )
    }

    /// Loads a cartridge image: the size is validated (2 KiB to 32 KiB),
    /// the mapper detected, the image registered on the bus and copied
    /// into the CPU's cartridge windows, and the CPU reset.
    pub fn load_rom(&mut self, rom_data: Vec<u8>) -> (r: EmuliteResult<()>)
        ensures
            Atari2600::load_relation(*old(self), *final(self), rom_data@, r),
    {
        if rom_data.len() < 2048 || rom_data.len() > 32768 {
            let mut msg = String::from_str("Invalid ROM size: ");
            msg.append(crate::utils::format_u64(rom_data.len() as u64).as_str());
            msg.append(" bytes");
            return Err(EmuliteError::InvalidRom(msg));
        }
        let bank_count = rom_data.len() / 2048;
        let mapper_type = detect_mapper_type(rom_data.len());
        let rom_for_device = clone_bytes(&rom_data);
        let rom_for_cpu = clone_bytes(&rom_data);
        self.cart = Cartridge { data: rom_data, bank_count, current_bank: 0, mapper_type };
        let rom_device = RomDevice::new(rom_for_device, 0x1000, String::from_str("ROM"));
        match self.memory.add_device(String::from_str("ROM"), MemoryDevice::Rom(rom_device)) {
            Ok(_) => {},
            Err(e) => {
                return Err(e);
            },
        }
        self.load_rom_into_cpu_memory(&rom_for_cpu);
        match self.cpu.reset() {
            Ok(_) => {},
            Err(e) => {
                return Err(e);
            },
        }
        self.cycles = 0;
        self.rom = Some(rom_for_cpu);
        Ok(())
    }

    /// Copies the first 4 KiB of the image into the cartridge window at
    /// `0x1000` and its mirror at `0xF000`, and points the program counter
    /// at the reset vector stored in the image's last bank.
    fn load_rom_into_cpu_memory(&mut self, rom_data: &Vec<u8>)
        requires
            2048 <= rom_data@.len() <= 32768,
        ensures
            old(self).wf() ==> final(self).wf(),
            *final(self) == (Atari2600 {
                cpu: final(self).cpu_field(),
                ..*old(self)
            }),
    {
        let window: usize = if rom_data.len() < 0x1000 {
            rom_data.len()
        } else {
            0x1000
        };
        let mut prefix: Vec<u8> = Vec::new();
        let mut i: usize = 0;
        while i < window
            invariant
                i <= window,
                window <= rom_data@.len(),
                prefix@ =~= rom_data@.subrange(0, i as int),
            decreases window - i,
        {
            prefix.push(rom_data[i]);
            proof {
                assert(prefix@ =~= rom_data@.subrange(0, i + 1));
            }
            i = i + 1;
        }
        let _ = self.cpu.load_bytes(0x1000, &prefix);
        let _ = self.cpu.load_bytes(0xF000, &prefix);
        let reset_vector: u16 = (rom_data[rom_data.len() - 4] as u16) | ((rom_data[rom_data.len()
            - 3] as u16) << 8);
        let _ = self.cpu.set_pc(reset_vector as u32);
    }

    /// The CPU field, named so contracts can say the rest is unchanged.
    pub open spec fn cpu_field(self) -> Cpu {
        self.cpu
    }

    /// What one platform step leaves: on a CPU fault, the fault's error
    /// with only the CPU changed (per its step); otherwise the CPU stepped,
    /// the cycle counter up by one, the TIA advanced one colour clock, the
    /// RIOT ticked on every 64th cycle, and everything else unchanged.
    pub open spec fn step_relation(pre: Atari2600, post: Atari2600, r: EmuliteResult<()>) -> bool {
        let (cpu_post, fault) = pre.cpu@.step_spec();
        match fault {
            Some(f) => r matches Err(e) && crate::cpu::fault_matches(e, f) && post == (Atari2600 {
                cpu: post.cpu,
                ..pre
            }) && post.cpu@ == cpu_post,
            None => {
                let cyc = u64_specs::wrapping_add(pre.cycles, 1);
                &&& r is Ok
                &&& post == (Atari2600 {
                    cpu: post.cpu,
                    tia: post.tia,
                    ria: post.ria,
                    cycles: cyc,
                    ..pre
                })
                &&& post.cpu@ == cpu_post
                &&& post.tia == (TiaChip {
                    cycle: pre.tia.stepped_beam().0,
                    scanline: pre.tia.stepped_beam().1,
                    frame_buffer: post.tia.frame_buffer,
                    ..pre.tia
                })
                &&& post.tia.frame_buffer@ == tia_render(post.tia)
                &&& post.ria == (RiaChip {
                    timer: if cyc % 64 == 0 && pre.ria.timer_enabled {
                        if pre.ria.timer > 0 {
                            (pre.ria.timer - 1) as u8
                        } else {
                            pre.ria.timer_interval
                        }
                    } else {
                        pre.ria.timer
                    },
                    ..pre.ria
                })
            },
        }
    }

    /// What a platform reset leaves: the CPU at its power-on reset, the
    /// TIA and RIOT at power-on, the cycle counter cleared, everything
    /// else unchanged.
    pub open spec fn reset_relation(pre: Atari2600, post: Atari2600, r: EmuliteResult<()>) -> bool {
        &&& r is Ok
        &&& post == (Atari2600 { cpu: post.cpu, tia: post.tia, ria: post.ria, cycles: 0, ..pre })
        &&& post.cpu@ == pre.cpu@.reset_spec()
        &&& post.tia == TiaChip::cleared_with(post.tia.frame_buffer)
        &&& post.tia.frame_buffer@ == Seq::new(160 * 192, |i: int| 0u8)
        &&& post.ria == RiaChip::initial_with(post.ria.ram)
        &&& post.ria.ram@ == Seq::new(128, |i: int| 0u8)
    }

    /// Whether a cartridge image must load on this platform: a documented
    /// size and the cartridge window on the bus still free.
    pub open spec fn loadable(pre: Atari2600, d: Seq<u8>) -> bool {
        &&& 2048 <= d.len() <= 32768
        &&& !crate::memory::has_overlap(
            pre.memory@.regions,
            0x1000,
            (0x1000 + d.len() - 1) as u32,
        )
    }

    /// Whether the platform holds `data` as its loaded image.
    pub open spec fn holds_image(self, data: Seq<u8>) -> bool {
        self.cart.data@ == data
    }

    /// What loading an image leaves: an undocumented size fails without a
    /// change; success builds the cartridge state from the image; an image
    /// that must load does.
    pub open spec fn load_relation(
        pre: Atari2600,
        post: Atari2600,
        rom_data: Seq<u8>,
        r: EmuliteResult<()>,
    ) -> bool {
        &&& ((rom_data.len() < 2048 || rom_data.len() > 32768) ==> (r matches Err(e) && e
            matches EmuliteError::InvalidRom(m) && post == pre))
        &&& (r is Ok ==> post.cart.data@ == rom_data && post.cart.current_bank == 0
            && post.cart.bank_count == rom_data.len() / 2048 && post.cart.mapper_type
            == mapper_for_size(rom_data.len() as int))
        &&& (pre.wf() && r is Ok ==> post.wf())
        &&& (Atari2600::loadable(pre, rom_data) ==> r is Ok)
    }

    /// Whether a frame result is the platform's current video frame:
    /// 160 by 192 RGBA bytes, each pinned by `frame_byte`.
    pub open spec fn frame_relation(self, r: EmuliteResult<Vec<u8>>) -> bool {
        r matches Ok(f) && f@.len() == 160 * 192 * 4 && forall|i: int|
            0 <= i < f@.len() ==> f@[i] == self.frame_byte(i)
    }

    /// One platform step: the CPU advances one instruction, the cycle
    /// counter advances, the TIA advances every step and the RIOT every
    /// 64th.
    pub fn step(&mut self) -> (r: EmuliteResult<()>)
        ensures
            Atari2600::step_relation(*old(self), *final(self), r),
    {
        match self.cpu.step() {
            Ok(_) => {},
            Err(e) => {
                return Err(e);
            },
        }
        self.cycles = self.cycles.wrapping_add(1);
        let _ = self.tia.step();
        if self.cycles % 64 == 0 {
            let _ = self.ria.step();
        }
        Ok(())
    }

    /// Resets the CPU and both chips and clears the cycle counter.
    pub fn reset(&mut self) -> (r: EmuliteResult<()>)
        ensures
            Atari2600::reset_relation(*old(self), *final(self), r),
            old(self).wf() ==> final(self).wf(),
    {
        let _ = self.cpu.reset();
        self.tia.reset();
        self.ria.reset();
        self.cycles = 0;
        Ok(())
    }

    /// The platform's display name.
    pub fn name(&self) -> (r: &'static str)
        ensures
            r@ == "Atari 2600"@,
    {
        "Atari 2600"
    }

    /// The platform's version string.
    pub fn version(&self) -> (r: &'static str)
        ensures
            r@ == "1.0.0"@,
    {
        "1.0.0"
    }

    /// The platform's static description.
    pub fn info(&self) -> (r: PlatformInfo)
        ensures
            r.name@ == "Atari 2600"@,
            r.cpu_type@ == "MOS 6507"@,
            r.memory_size == 128,
            r.video_resolution == (160u32, 192u32),
            r.audio_channels == 2,
            r.supported_formats@.len() == 2,
            r.supported_formats@[0]@ == "a26"@,
            r.supported_formats@[1]@ == "bin"@,
    {
        let mut formats: Vec<String> = Vec::new();
        formats.push(String::from_str("a26"));
        formats.push(String::from_str("bin"));
        PlatformInfo {
            name: String::from_str("Atari 2600"),
            version: String::from_str("1.0.0"),
            cpu_type: String::from_str("MOS 6507"),
            memory_size: 128,
            video_resolution: (160, 192),
            audio_channels: 2,
            supported_formats: formats,
        }
    }

    /// A read view of the platform's CPU.
    pub fn get_cpu(&self) -> (r: &Cpu)
        ensures
            r@ == self.cpu_view(),
    {
        &self.cpu
    }

    /// Saving state is not implemented.
    pub fn save_state(&self, _path: &str) -> (r: EmuliteResult<()>)
        ensures
            r matches Err(e) && e matches EmuliteError::UnsupportedPlatform(m) && m@
                == "Save state not implemented"@,
    {
        Err(EmuliteError::UnsupportedPlatform(String::from_str("Save state not implemented")))
    }

    /// Loading state is not implemented.
    pub fn load_state(&mut self, _path: &str) -> (r: EmuliteResult<()>)
        ensures
            r matches Err(e) && e matches EmuliteError::UnsupportedPlatform(m) && m@
                == "Load state not implemented"@,
    {
        Err(EmuliteError::UnsupportedPlatform(String::from_str("Load state not implemented")))
    }

    /// What handing the pad state over leaves: the RIOT latched the pads
    /// into its joystick fields, console switches and port bytes, and
    /// everything else is unchanged.
    pub open spec fn input_relation(
        pre: Atari2600,
        post: Atari2600,
        pad0: PadState,
        pad1: PadState,
        r: EmuliteResult<()>,
    ) -> bool {
        let switches = ConsoleSwitches {
            game_select: pad0.select,
            game_reset: pad0.start,
            ..pre.ria.console_switches
        };
        &&& r is Ok
        &&& post == (Atari2600 { ria: post.ria, ..pre })
        &&& post.ria == (RiaChip {
            joystick0: joystick_of(pad0),
            joystick1: joystick_of(pad1),
            console_switches: switches,
            swcha: swcha_of(joystick_of(pad0)),
            swchb: swchb_of(joystick_of(pad0), joystick_of(pad1), switches),
            ..pre.ria
        })
    }

    /// Hands the RIOT the current pad state.
    pub fn update_input(&mut self, joystick0: PadState, joystick1: PadState) -> (r: EmuliteResult<
        (),
    >)
        ensures
            Atari2600::input_relation(*old(self), *final(self), joystick0, joystick1, r),
    {
        self.ria.update_input(joystick0, joystick1);
        Ok(())
    }

    /// The colour index the frame maps at pixel `p`: the rendered frame
    /// where it covers the pixel, an animated diagnostic pattern otherwise.
    pub open spec fn frame_color_index(self, p: int) -> int {
        let x = p % 160;
        let y = p / 160;
        if y < self.tia.frame_buffer@.len() / 160 {
            if y * 160 + x < self.tia.frame_buffer@.len() {
                self.tia.frame_buffer@[y * 160 + x] as int
            } else {
                0
            }
        } else {
            let time_factor = (self.cycles / 1000) as usize;
            ((vstd::wrapping::usize_specs::wrapping_add(
                vstd::wrapping::usize_specs::wrapping_add(x as usize, y as usize),
                time_factor,
            ) / 8) % 16) as int
        }
    }

    /// One colour channel of the frame at pixel `p` (channel 0, 1 or 2),
    /// after the vertical-sync, blanking, background and beam effects.
    pub open spec fn frame_channel(self, p: int, channel: int) -> u8 {
        let color = atari_color_spec(self.frame_color_index(p) % 16);
        let base: u8 = if channel == 0 {
            color[0]
        } else if channel == 1 {
            color[1]
        } else {
            color[2]
        };
        let v: u8 = if channel == 0 && self.tia.vsync != 0 {
            sat_add(base, 64)
        } else {
            base
        };
        let v: u8 = if channel == 2 && self.tia.vblank != 0 {
            sat_add(v, 64)
        } else {
            v
        };
        let v: u8 = if self.tia.colubk != 0 {
            sat_add(v, ((self.tia.colubk as u32) * 128 / 255) as u8)
        } else {
            v
        };
        let effect: u8 = (vstd::wrapping::u64_specs::wrapping_add(
            self.tia.scanline as u64,
            self.cycles,
        ) % 100) as u8;
        if channel == 0 {
            sat_add(v, effect / 4)
        } else if channel == 1 {
            sat_add(v, effect / 6)
        } else {
            sat_add(v, effect / 8)
        }
    }

    /// The RGBA byte of the frame at index `i`.
    pub open spec fn frame_byte(self, i: int) -> u8 {
        let p = i / 4;
        let channel = i % 4;
        if channel == 3 {
            255u8
        } else {
            self.frame_channel(p, channel)
        }
    }

    /// The current video frame as RGBA bytes, 160 by 192: each pixel is
    /// the TIA's indexed colour mapped through the stock 16-colour table,
    /// with the vertical-sync, blanking, background and beam effects
    /// applied.
    pub fn get_frame_data(&self) -> (r: EmuliteResult<Vec<u8>>)
        ensures
            self.frame_relation(r),
    {
        let mut frame: Vec<u8> = Vec::new();
        let mut p: usize = 0;
        while p < 160 * 192
            invariant
                p <= 160 * 192,
                frame@.len() == p * 4,
                forall|i: int| 0 <= i < frame@.len() ==> frame@[i] == self.frame_byte(i),
            decreases 160 * 192 - p,
        {
            let x = p % 160;
            let y = p / 160;
            let color_index: usize = if y < self.tia.frame_buffer.len() / 160 {
                let buffer_index = y * 160 + x;
                if buffer_index < self.tia.frame_buffer.len() {
                    proof {
                        assert(y * 160 + x < self.tia.frame_buffer@.len());
                    }
                    self.tia.frame_buffer[buffer_index] as usize
                } else {
                    0
                }
            } else {
                let time_factor = (self.cycles / 1000) as usize;
                (x.wrapping_add(y).wrapping_add(time_factor) / 8) % 16
            };
            proof {
                assert(color_index as int == self.frame_color_index(p as int));
            }
            let color = atari_color(color_index % 16);
            let mut r0: u8 = color[0];
            let mut g0: u8 = color[1];
            let mut b0: u8 = color[2];
            if self.tia.vsync != 0 {
                r0 = saturating_add_u8(r0, 64);
            }
            if self.tia.vblank != 0 {
                b0 = saturating_add_u8(b0, 64);
            }
            if self.tia.colubk != 0 {
                let bg_intensity = ((self.tia.colubk as u32) * 128 / 255) as u8;
                r0 = saturating_add_u8(r0, bg_intensity);
                g0 = saturating_add_u8(g0, bg_intensity);
                b0 = saturating_add_u8(b0, bg_intensity);
            }
            let scanline_effect = ((self.tia.scanline as u64).wrapping_add(self.cycles) % 100)
                as u8;
            r0 = saturating_add_u8(r0, scanline_effect / 4);
            g0 = saturating_add_u8(g0, scanline_effect / 6);
            b0 = saturating_add_u8(b0, scanline_effect / 8);
            proof {
                assert(r0 == self.frame_channel(p as int, 0));
                assert(g0 == self.frame_channel(p as int, 1));
                assert(b0 == self.frame_channel(p as int, 2));
            }
            frame.push(r0);
            frame.push(g0);
            frame.push(b0);
            frame.push(255);
            proof {
                assert forall|i: int| 0 <= i < frame@.len() implies frame@[i] == self.frame_byte(
                    i,
                ) by {
                    if i >= p * 4 {
                        assert(i / 4 == p);
                    }
                }
            }
            p = p + 1;
        }
        Ok(frame)
    }
}

/// The byte sum, saturated at the byte maximum.
pub open spec fn sat_add(a: u8, b: u8) -> u8 {
    if a + b > 255 {
        255u8
    } else {
        (a + b) as u8
    }
}

/// Adds with saturation at the byte maximum.
fn saturating_add_u8(a: u8, b: u8) -> (r: u8)
    ensures
        r == sat_add(a, b),
{
    if a as u16 + b as u16 > 255 {
        255
    } else {
        a + b
    }
}

/// The 16-entry diagnostic colour table, as a spec value.
pub open spec fn atari_color_spec(index: int) -> [u8; 4] {
    if index == 0 {
        [0x00u8, 0x00u8, 0x00u8, 0xFFu8]
    } else if index == 1 {
        [0x40u8, 0x40u8, 0x40u8, 0xFFu8]
    } else if index == 2 {
        [0x6Cu8, 0x6Cu8, 0x6Cu8, 0xFFu8]
    } else if index == 3 {
        [0x90u8, 0x90u8, 0x90u8, 0xFFu8]
    } else if index == 4 {
        [0xB0u8, 0xB0u8, 0xB0u8, 0xFFu8]
    } else if index == 5 {
        [0xC8u8, 0xC8u8, 0xC8u8, 0xFFu8]
    } else if index == 6 {
        [0xDCu8, 0xDCu8, 0xDCu8, 0xFFu8]
    } else if index == 7 {
        [0x48u8, 0x48u8, 0x48u8, 0xFFu8]
    } else if index == 8 {
        [0x68u8, 0x68u8, 0x90u8, 0xFFu8]
    } else if index == 9 {
        [0x48u8, 0x68u8, 0xD8u8, 0xFFu8]
    } else if index == 10 {
        [0x48u8, 0x48u8, 0x48u8, 0xFFu8]
    } else if index == 11 {
        [0x68u8, 0x90u8, 0x68u8, 0xFFu8]
    } else if index == 12 {
        [0x68u8, 0xD8u8, 0x68u8, 0xFFu8]
    } else if index == 13 {
        [0x90u8, 0x48u8, 0x48u8, 0xFFu8]
    } else if index == 14 {
        [0x90u8, 0x68u8, 0x68u8, 0xFFu8]
    } else {
        [0xD8u8, 0x68u8, 0x68u8, 0xFFu8]
    }
}

/// The 16-entry diagnostic colour table frames are mapped through.
fn atari_color(index: usize) -> (r: [u8; 4])
    requires
        index < 16,
    ensures
        r == atari_color_spec(index as int),
{
    let colors: [[u8; 4]; 16] = [
        [0x00, 0x00, 0x00, 0xFF],
        [0x40, 0x40, 0x40, 0xFF],
        [0x6C, 0x6C, 0x6C, 0xFF],
        [0x90, 0x90, 0x90, 0xFF],
        [0xB0, 0xB0, 0xB0, 0xFF],
        [0xC8, 0xC8, 0xC8, 0xFF],
        [0xDC, 0xDC, 0xDC, 0xFF],
        [0x48, 0x48, 0x48, 0xFF],
        [0x68, 0x68, 0x90, 0xFF],
        [0x48, 0x68, 0xD8, 0xFF],
        [0x48, 0x48, 0x48, 0xFF],
        [0x68, 0x90, 0x68, 0xFF],
        [0x68, 0xD8, 0x68, 0xFF],
        [0x90, 0x48, 0x48, 0xFF],
        [0x90, 0x68, 0x68, 0xFF],
        [0xD8, 0x68, 0x68, 0xFF],
    ];
    let r = colors[index];
    proof {
        assert(r == atari_color_spec(index as int));
    }
    r
}

/// Copies a byte vector.
fn clone_bytes(data: &Vec<u8>) -> (r: Vec<u8>)
    ensures
        r@ == data@,
{
    let mut out: Vec<u8> = Vec::new();
    let n = data.len();
    let mut i: usize = 0;
    while i < n
        invariant
            i <= n,
            n == data@.len(),
            out@ =~= data@.subrange(0, i as int),
        decreases n - i,
    {
        out.push(data[i]);
        proof {
            assert(out@ =~= data@.subrange(0, i + 1));
        }
        i = i + 1;
    }
    proof {
        assert(out@ =~= data@);
    }
    out
}

} // verus!
