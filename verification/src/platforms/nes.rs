//! Nintendo Entertainment System: a 6502-family CPU, the PPU and APU
//! chips, and an iNES cartridge parser.

use vstd::prelude::*;

use crate::cpu::{Cpu, CpuFactory, CpuV};
use crate::error::{EmuliteError, EmuliteResult};
use crate::memory::{DeviceEntryV, DeviceKind, DeviceV, MemoryAccess, MemoryDevice, MemoryMapper, RamDevice, RegionV, RomDevice};
use crate::platforms::{test_pattern_frame, pattern_byte, PlatformInfo};
use vstd::wrapping::u16_specs;
use vstd::wrapping::u64_specs;

verus! {

broadcast use vstd::string::group_string_axioms;

/// Nametable mirroring arrangements an iNES header can select.
#[derive(Debug, Clone, Copy, PartialEq, Eq, Structural)]
pub enum Mirroring {
    Horizontal,
    Vertical,
    FourScreen,
    SingleScreen,
}

/// The PPU (Picture Processing Unit): its register file and beam counters.
#[derive(Debug)]
pub struct Ppu {
    pub ctrl: u8,
    pub mask: u8,
    pub status: u8,
    pub oam_addr: u8,
    pub oam_data: u8,
    pub scroll: u8,
    pub addr: u8,
    pub data: u8,
    pub oam_dma: u8,
    pub vram: Vec<u8>,
    pub palette: Vec<u8>,
    pub oam: Vec<u8>,
    pub scanline: u16,
    pub cycle: u16,
    pub frame: u64,
    pub nmi_occurred: bool,
    pub nmi_output: bool,
}

impl Ppu {
    /// The power-on register image over the given memories.
    pub open spec fn powered_with(vram: Vec<u8>, palette: Vec<u8>, oam: Vec<u8>) -> Ppu {
        Ppu {
            ctrl: 0,
            mask: 0,
            status: 0,
            oam_addr: 0,
            oam_data: 0,
            scroll: 0,
            addr: 0,
            data: 0,
            oam_dma: 0,
            vram,
            palette,
            oam,
            scanline: 0,
            cycle: 0,
            frame: 0,
            nmi_occurred: false,
            nmi_output: false,
        }
    }

    /// Whether the PPU is at its power-on state: every register and
    /// counter cleared and the memories zeroed.
    pub open spec fn powered_on(self) -> bool {
        &&& self == Ppu::powered_with(self.vram, self.palette, self.oam)
        &&& self.vram@ == Seq::new(2048, |i: int| 0u8)
        &&& self.palette@ == Seq::new(32, |i: int| 0u8)
        &&& self.oam@ == Seq::new(256, |i: int| 0u8)
    }

    /// A PPU at power-on.
    pub fn new() -> (r: Ppu)
        ensures
            r.powered_on(),
    {
        let r = Ppu {
            ctrl: 0,
            mask: 0,
            status: 0,
            oam_addr: 0,
            oam_data: 0,
            scroll: 0,
            addr: 0,
            data: 0,
            oam_dma: 0,
            vram: crate::memory::zero_bytes(2048),
            palette: crate::memory::zero_bytes(32),
            oam: crate::memory::zero_bytes(256),
            scanline: 0,
            cycle: 0,
            frame: 0,
            nmi_occurred: false,
            nmi_output: false,
        };
        proof {
            assert(r.vram@ =~= Seq::new(2048, |i: int| 0u8));
            assert(r.palette@ =~= Seq::new(32, |i: int| 0u8));
            assert(r.oam@ =~= Seq::new(256, |i: int| 0u8));
        }
        r
    }

    /// The beam and frame state after one PPU cycle: 341 cycles to a
    /// scanline, 262 scanlines to a frame; end of frame raises the NMI
    /// occurred latch, which raises the NMI output while enabled in CTRL.
    pub open spec fn stepped(self) -> (u16, u16, u64, bool, bool) {
        let c = u16_specs::wrapping_add(self.cycle, 1);
        let (c2, sl, fr, nmi) = if c >= 341 {
            let sl = u16_specs::wrapping_add(self.scanline, 1);
            if sl >= 262 {
                (0u16, 0u16, u64_specs::wrapping_add(self.frame, 1), true)
            } else {
                (0u16, sl, self.frame, self.nmi_occurred)
            }
        } else {
            (c, self.scanline, self.frame, self.nmi_occurred)
        };
        let out = if nmi && self.ctrl & 0x80 != 0 {
            true
        } else {
            self.nmi_output
        };
        (c2, sl, fr, nmi, out)
    }

    /// The whole PPU state after one cycle.
    pub open spec fn stepped_ppu(self) -> Ppu {
        Ppu {
            cycle: self.stepped().0,
            scanline: self.stepped().1,
            frame: self.stepped().2,
            nmi_occurred: self.stepped().3,
            nmi_output: self.stepped().4,
            ..self
        }
    }

    /// One PPU cycle.
    pub fn step(&mut self) -> (r: EmuliteResult<()>)
        ensures
            r is Ok,
            *final(self) == old(self).stepped_ppu(),
    {
        self.cycle = self.cycle.wrapping_add(1);
        if self.cycle >= 341 {
            self.cycle = 0;
            self.scanline = self.scanline.wrapping_add(1);
            if self.scanline >= 262 {
                self.scanline = 0;
                self.frame = self.frame.wrapping_add(1);
                self.nmi_occurred = true;
            }
        }
        if self.nmi_occurred && (self.ctrl & 0x80) != 0 {
            self.nmi_output = true;
        }
        Ok(())
    }

    /// Power-on reset.
    pub fn reset(&mut self)
        ensures
            final(self).powered_on(),
    {
        *self = Ppu::new();
    }

    /// The register at a PPU register index; unknown indices read 0.
    pub fn read_register(&self, address: u8) -> (r: u8)
        ensures
            r == ppu_reg_read(*self, address),
    {
        match address {
            0x00 => self.ctrl,
            0x01 => self.mask,
            0x02 => self.status,
            0x03 => self.oam_addr,
            0x04 => self.oam_data,
            0x05 => self.scroll,
            0x06 => self.addr,
            0x07 => self.data,
            _ => 0,
        }
    }

    /// Writes the register at a PPU register index; unknown indices are
    /// ignored.
    pub fn write_register(&mut self, address: u8, value: u8)
        ensures
            *final(self) == ppu_reg_write(*old(self), address, value),
    {
        match address {
            0x00 => self.ctrl = value,
            0x01 => self.mask = value,
            0x02 => self.status = value,
            0x03 => self.oam_addr = value,
            0x04 => self.oam_data = value,
            0x05 => self.scroll = value,
            0x06 => self.addr = value,
            0x07 => self.data = value,
            _ => {},
        }
    }
}

/// The value a PPU register read yields.
pub open spec fn ppu_reg_read(p: Ppu, address: u8) -> u8 {
    match address {
        0x00u8 => p.ctrl,
        0x01u8 => p.mask,
        0x02u8 => p.status,
        0x03u8 => p.oam_addr,
        0x04u8 => p.oam_data,
        0x05u8 => p.scroll,
        0x06u8 => p.addr,
        0x07u8 => p.data,
        _ => 0,
    }
}

/// The state a PPU register write leaves.
pub open spec fn ppu_reg_write(p: Ppu, address: u8, value: u8) -> Ppu {
    match address {
        0x00u8 => Ppu { ctrl: value, ..p },
        0x01u8 => Ppu { mask: value, ..p },
        0x02u8 => Ppu { status: value, ..p },
        0x03u8 => Ppu { oam_addr: value, ..p },
        0x04u8 => Ppu { oam_data: value, ..p },
        0x05u8 => Ppu { scroll: value, ..p },
        0x06u8 => Ppu { addr: value, ..p },
        0x07u8 => Ppu { data: value, ..p },
        _ => p,
    }
}

/// One APU channel's countdown timer.
#[derive(Debug, Clone, Copy, PartialEq, Eq, Structural)]
pub struct ApuChannel {
    pub enabled: bool,
    pub timer: u16,
}

impl ApuChannel {
    /// A silent channel.
    pub fn new() -> (r: ApuChannel)
        ensures
            r == (ApuChannel { enabled: false, timer: 0 }),
    {
        ApuChannel { enabled: false, timer: 0 }
    }

    /// The channel after one tick.
    pub open spec fn ticked(self) -> ApuChannel {
        ApuChannel {
            timer: if self.timer > 0 {
                (self.timer - 1) as u16
            } else {
                0u16
            },
            ..self
        }
    }

    /// One tick: the timer counts down to zero and stays there.
    pub fn step(&mut self)
        ensures
            *final(self) == old(self).ticked(),
    {
        if self.timer > 0 {
            self.timer = self.timer - 1;
        } else {
            self.timer = 0;
        }
    }
}

/// The APU (Audio Processing Unit): five channels and a frame counter.
#[derive(Debug)]
pub struct Apu {
    pub pulse1: ApuChannel,
    pub pulse2: ApuChannel,
    pub triangle: ApuChannel,
    pub noise: ApuChannel,
    pub dmc: ApuChannel,
    pub frame_counter: u16,
}

impl Apu {
    /// The power-on APU: every channel silent, the frame counter cleared.
    pub open spec fn initial_spec() -> Apu {
        Apu {
            pulse1: ApuChannel::new_spec(),
            pulse2: ApuChannel::new_spec(),
            triangle: ApuChannel::new_spec(),
            noise: ApuChannel::new_spec(),
            dmc: ApuChannel::new_spec(),
            frame_counter: 0,
        }
    }

    /// The whole APU state after one tick.
    pub open spec fn stepped_apu(self) -> Apu {
        Apu {
            pulse1: self.pulse1.ticked(),
            pulse2: self.pulse2.ticked(),
            triangle: self.triangle.ticked(),
            noise: self.noise.ticked(),
            dmc: self.dmc.ticked(),
            frame_counter: u16_specs::wrapping_add(self.frame_counter, 1),
        }
    }

    /// An APU at power-on.
    pub fn new() -> (r: Apu)
        ensures
            r == Apu::initial_spec(),
    {
        Apu {
            pulse1: ApuChannel::new(),
            pulse2: ApuChannel::new(),
            triangle: ApuChannel::new(),
            noise: ApuChannel::new(),
            dmc: ApuChannel::new(),
            frame_counter: 0,
        }
    }

    /// One APU tick: the frame counter advances and every channel ticks.
    pub fn step(&mut self) -> (r: EmuliteResult<()>)
        ensures
            r is Ok,
            *final(self) == old(self).stepped_apu(),
    {
        self.frame_counter = self.frame_counter.wrapping_add(1);
        self.pulse1.step();
        self.pulse2.step();
        self.triangle.step();
        self.noise.step();
        self.dmc.step();
        Ok(())
    }

    /// Power-on reset.
    pub fn reset(&mut self)
        ensures
            *final(self) == Apu::initial_spec(),
    {
        *self = Apu::new();
    }
}

impl ApuChannel {
    /// The silent channel, as a value.
    pub open spec fn new_spec() -> ApuChannel {
        ApuChannel { enabled: false, timer: 0 }
    }
}

/// A parsed iNES cartridge.
#[derive(Debug)]
pub struct Cartridge {
    pub data: Vec<u8>,
    pub prg_rom: Vec<u8>,
    pub chr_rom: Vec<u8>,
    pub mapper: u8,
    pub mirroring: Mirroring,
    pub battery: bool,
    pub trainer: bool,
    pub four_screen: bool,
}

impl Cartridge {
    /// An empty cartridge slot.
    pub fn new() -> (r: Cartridge)
        ensures
            r.data@.len() == 0 && r.prg_rom@.len() == 0 && r.chr_rom@.len() == 0,
            r.mapper == 0 && r.mirroring == Mirroring::Horizontal,
            !r.battery && !r.trainer && !r.four_screen,
    {
        Cartridge {
            data: Vec::new(),
            prg_rom: Vec::new(),
            chr_rom: Vec::new(),
            mapper: 0,
            mirroring: Mirroring::Horizontal,
            battery: false,
            trainer: false,
            four_screen: false,
        }
    }
}

/// Whether a byte sequence begins with the iNES magic `NES\x1A`.
pub open spec fn has_ines_magic(d: Seq<u8>) -> bool {
    d.len() >= 16 && d[0] == 0x4E && d[1] == 0x45 && d[2] == 0x53 && d[3] == 0x1A
}

/// The mirroring an iNES flags byte selects.
pub open spec fn mirroring_of(flags6: u8) -> Mirroring {
    if flags6 & 0x08 != 0 {
        Mirroring::FourScreen
    } else if flags6 & 0x01 != 0 {
        Mirroring::Vertical
    } else {
        Mirroring::Horizontal
    }
}

/// The NES: a 6502-family CPU, a bus with the 2 KiB work RAM, the PPU and
/// APU chips, and the cartridge slot.
#[derive(Debug)]
pub struct Nes {
    /// The platform's CPU.
    pub cpu: Cpu,
    /// The bus carrying the work RAM and device windows.
    pub memory: MemoryMapper,
    /// The loaded image, if any.
    pub rom: Option<Vec<u8>>,
    /// The picture processing unit.
    pub ppu: Ppu,
    /// The audio processing unit.
    pub apu: Apu,
    /// The cartridge slot.
    pub cart: Cartridge,
    /// The cycle counter.
    pub cycles: u64,
}

impl Nes {
    /// Whether the platform is in a consistent state: the CPU is the
    /// 6502 the platform was built with.
    pub open spec fn wf(self) -> bool {
        self.cpu_view() is Mos6502
    }

    /// The CPU's mathematical image.
    pub open spec fn cpu_view(self) -> CpuV {
        self.cpu@
    }

    /// The cycle counter, as a spec value.
    pub open spec fn cycles_spec(self) -> u64 {
        self.cycles
    }

    /// The power-on state: the 6502 at its initial state over a zeroed
    /// 64 KiB space, the bus holding exactly the 2 KiB work RAM at
    /// `0x0000`, the PPU and APU at power-on, an empty cartridge slot, no
    /// image and a zero cycle counter.
    pub open spec fn powered_on(self) -> bool {
        &&& self.cpu@ == CpuV::Mos6502(
            crate::cpu::mos6502::Mos6502V::initial(Seq::new(0x10000, |i: int| 0u8)),
        )
        &&& self.memory@.size == 0x10000
        &&& self.memory@.devices =~= seq![
            DeviceEntryV {
                name: "RAM"@,
                device: DeviceV {
                    kind: DeviceKind::Ram,
                    data: Seq::new(2048, |i: int| 0u8),
                    start: 0,
                    name: "RAM"@,
                },
            },
        ]
        &&& self.memory@.regions =~= seq![
            RegionV {
                start: 0,
                end: 2047,
                access: MemoryAccess::ReadWrite,
                name: "RAM"@,
                device: Some("RAM"@),
            },
        ]
        &&& self.memory@.wf()
        &&& self.rom is None
        &&& self.ppu.powered_on()
        &&& self.apu == Apu::initial_spec()
        &&& self.cart.data@.len() == 0
        &&& self.cart.prg_rom@.len() == 0
        &&& self.cart.chr_rom@.len() == 0
        &&& self.cart.mapper == 0
        &&& self.cart.mirroring == Mirroring::Horizontal
        &&& !self.cart.battery
        &&& !self.cart.trainer
        &&& !self.cart.four_screen
        &&& self.cycles == 0
    }

    /// What one platform step leaves: on a CPU fault, the fault's error
    /// with only the CPU changed (per its step); otherwise the CPU stepped,
    /// the PPU advanced three cycles, the APU one, the cycle counter up by
    /// one, and everything else unchanged.
    pub open spec fn step_relation(pre: Nes, post: Nes, r: EmuliteResult<()>) -> bool {
        let (cpu_post, fault) = pre.cpu@.step_spec();
        match fault {
            Some(f) => r matches Err(e) && crate::cpu::fault_matches(e, f) && post == (Nes {
                cpu: post.cpu,
                ..pre
            }) && post.cpu@ == cpu_post,
            None => {
                &&& r is Ok
                &&& post == (Nes {
                    cpu: post.cpu,
                    ppu: post.ppu,
                    apu: post.apu,
                    cycles: u64_specs::wrapping_add(pre.cycles, 1),
                    ..pre
                })
                &&& post.cpu@ == cpu_post
                &&& post.ppu == pre.ppu.stepped_ppu().stepped_ppu().stepped_ppu()
                &&& post.apu == pre.apu.stepped_apu()
            },
        }
    }

    /// What a platform reset leaves: the CPU at its power-on reset, both
    /// chips at power-on, the cycle counter cleared, everything else
    /// unchanged.
    pub open spec fn reset_relation(pre: Nes, post: Nes, r: EmuliteResult<()>) -> bool {
        &&& r is Ok
        &&& post == (Nes { cpu: post.cpu, ppu: post.ppu, apu: post.apu, cycles: 0, ..pre })
        &&& post.cpu@ == pre.cpu@.reset_spec()
        &&& post.ppu.powered_on()
        &&& post.apu == Apu::initial_spec()
    }

    /// Whether an iNES image must load on this platform: the magic holds,
    /// there are one or two PRG banks, the image holds them (and the CHR
    /// banks), and the cartridge window on the bus is still free.
    pub open spec fn loadable(pre: Nes, d: Seq<u8>) -> bool {
        let prg = d[4] as int * 16384;
        let chr = d[5] as int * 8192;
        let offset: int = if d[6] & 0x04 != 0 {
            528
        } else {
            16
        };
        &&& has_ines_magic(d)
        &&& d[4] != 0
        &&& d[4] <= 2
        &&& offset + prg + chr <= d.len()
        &&& !crate::memory::has_overlap(pre.memory@.regions, 0x8000, (0x8000 + prg - 1) as u32)
    }

    /// Whether the platform holds `data` as its loaded image.
    pub open spec fn holds_image(self, data: Seq<u8>) -> bool {
        self.cart.data@ == data
    }

    /// What loading an image leaves: an image short of one header or
    /// without the magic fails without a change; success decodes the
    /// header fields and extracts the banks; an image that must load
    /// does.
    pub open spec fn load_relation(
        pre: Nes,
        post: Nes,
        rom_data: Seq<u8>,
        r: EmuliteResult<()>,
    ) -> bool {
        &&& (rom_data.len() < 16 ==> (r matches Err(e) && e matches EmuliteError::InvalidRom(m)
            && m@ == "ROM too small"@ && post == pre))
        &&& (rom_data.len() >= 16 && !has_ines_magic(rom_data) ==> (r matches Err(e) && e
            matches EmuliteError::InvalidRom(m) && m@ == "Invalid iNES header"@ && post == pre))
        &&& (r is Ok ==> ({
            let prg_size = rom_data[4] as int * 16384;
            let offset = if rom_data[6] & 0x04 != 0 {
                16 + 512int
            } else {
                16int
            };
            &&& has_ines_magic(rom_data)
            &&& post.cart.mapper == (rom_data[7] & 0xF0) | (rom_data[6] >> 4u8)
            &&& post.cart.mirroring == mirroring_of(rom_data[6])
            &&& post.cart.battery == (rom_data[6] & 0x02 != 0)
            &&& post.cart.trainer == (rom_data[6] & 0x04 != 0)
            &&& post.cart.four_screen == (rom_data[6] & 0x08 != 0)
            &&& post.cart.prg_rom@ == rom_data.subrange(offset, offset + prg_size)
            &&& post.cart.data@ == rom_data
            &&& (pre.wf() ==> post.wf())
        }))
        &&& (Nes::loadable(pre, rom_data) ==> r is Ok)
    }

    /// An NES at power-on: a 6502, the 2 KiB work RAM on the bus, cleared
    /// chips and an empty cartridge slot.
    pub fn new() -> (r: EmuliteResult<Nes>)
        ensures
            r matches Ok(p) && p.wf() && p.cycles_spec() == 0 && p.powered_on(),
    {
        proof {
            reveal_strlit("6502");
            assert("6502"@.len() == 4);
            assert(crate::text::ascii_lower_seq("6502"@) =~= "6502"@);
        }
        let cpu = match CpuFactory::create("6502") {
            Ok(c) => c,
            Err(e) => {
                return Err(e);
            },
        };
        let mut memory = MemoryMapper::new(0x10000);
        let ram = RamDevice::new(2048, 0x0000, String::from_str("RAM"));
        match memory.add_device(String::from_str("RAM"), MemoryDevice::Ram(ram)) {
            Ok(_) => {},
            Err(e) => {
                return Err(e);
            },
        }
        proof {
            assert(memory@.devices =~= Seq::<DeviceEntryV>::empty().push(
                DeviceEntryV {
                    name: "RAM"@,
                    device: DeviceV {
                        kind: DeviceKind::Ram,
                        data: Seq::new(2048, |i: int| 0u8),
                        start: 0,
                        name: "RAM"@,
                    },
                },
            ));
            assert(memory@.regions =~= crate::memory::insert_sorted(
                Seq::<RegionV>::empty(),
                RegionV {
                    start: 0,
                    end: 2047,
                    access: MemoryAccess::ReadWrite,
                    name: "RAM"@,
                    device: Some("RAM"@),
                },
            ));
        }
        Ok(
            Nes {
                cpu,
                memory,
                rom: None,
                ppu: Ppu::new(),
                apu: Apu::new(),
                cart: Cartridge::new(),
                cycles: 0,
            },
        )
    }

    /// Loads an iNES image: the magic and size are validated, the header
    /// fields decoded, the PRG and CHR banks extracted, the PRG bank
    /// registered on the bus at `0x8000`, and the CPU reset.
    pub fn load_rom(&mut self, rom_data: Vec<u8>) -> (r: EmuliteResult<()>)
        ensures
            Nes::load_relation(*old(self), *final(self), rom_data@, r),
    {
        if rom_data.len() < 16 {
            return Err(EmuliteError::InvalidRom(String::from_str("ROM too small")));
        }
        if !(rom_data[0] == 0x4E && rom_data[1] == 0x45 && rom_data[2] == 0x53 && rom_data[3]
            == 0x1A) {
            return Err(EmuliteError::InvalidRom(String::from_str("Invalid iNES header")));
        }
        let prg_rom_size = (rom_data[4] as usize) * 16384;
        let chr_rom_size = (rom_data[5] as usize) * 8192;
        let flags6 = rom_data[6];
        let flags7 = rom_data[7];
        let mapper = (flags7 & 0xF0) | (flags6 >> 4);
        let mirroring = if flags6 & 0x08 != 0 {
            Mirroring::FourScreen
        } else if flags6 & 0x01 != 0 {
            Mirroring::Vertical
        } else {
            Mirroring::Horizontal
        };
        let battery = (flags6 & 0x02) != 0;
        let trainer = (flags6 & 0x04) != 0;
        let mut offset: usize = 16;
        if trainer {
            offset = offset + 512;
        }
        if prg_rom_size == 0 {
            return Err(EmuliteError::InvalidRom(String::from_str("Invalid iNES header")));
        }
        if offset + prg_rom_size > rom_data.len() {
            return Err(EmuliteError::InvalidRom(String::from_str("ROM too small")));
        }
        let prg_rom = copy_range(&rom_data, offset, offset + prg_rom_size);
        let after_prg = offset + prg_rom_size;
        let chr_rom: Vec<u8> = if chr_rom_size > 0 {
            if after_prg + chr_rom_size > rom_data.len() {
                return Err(EmuliteError::InvalidRom(String::from_str("ROM too small")));
            }
            copy_range(&rom_data, after_prg, after_prg + chr_rom_size)
        } else {
            crate::memory::zero_bytes(8192)
        };
        let prg_for_device = copy_range(&prg_rom, 0, prg_rom.len());
        if prg_rom.len() > 0x8000 {
            return Err(EmuliteError::InvalidRom(String::from_str("Invalid iNES header")));
        }
        let rom_device = RomDevice::new(prg_for_device, 0x8000, String::from_str("PRG_ROM"));
        match self.memory.add_device(String::from_str("PRG_ROM"), MemoryDevice::Rom(rom_device)) {
            Ok(_) => {},
            Err(e) => {
                return Err(e);
            },
        }
        self.cart = Cartridge {
            data: rom_data,
            prg_rom,
            chr_rom,
            mapper,
            mirroring,
            battery,
            trainer,
            four_screen: (flags6 & 0x08) != 0,
        };
        match self.cpu.reset() {
            Ok(_) => {},
            Err(e) => {
                return Err(e);
            },
        }
        self.cycles = 0;
        Ok(())
    }

    /// One platform step: the CPU advances one instruction, the PPU three
    /// cycles, the APU one.
    pub fn step(&mut self) -> (r: EmuliteResult<()>)
        ensures
            Nes::step_relation(*old(self), *final(self), r),
    {
        match self.cpu.step() {
            Ok(_) => {},
            Err(e) => {
                return Err(e);
            },
        }
        self.cycles = self.cycles.wrapping_add(1);
        let _ = self.ppu.step();
        let _ = self.ppu.step();
        let _ = self.ppu.step();
        let _ = self.apu.step();
        Ok(())
    }

    /// Resets the CPU and both chips and clears the cycle counter.
    pub fn reset(&mut self) -> (r: EmuliteResult<()>)
        ensures
            Nes::reset_relation(*old(self), *final(self), r),
            old(self).wf() ==> final(self).wf(),
    {
        let _ = self.cpu.reset();
        self.ppu.reset();
        self.apu.reset();
        self.cycles = 0;
        Ok(())
    }

    /// The platform's display name.
    pub fn name(&self) -> (r: &'static str)
        ensures
            r@ == "Nintendo Entertainment System"@,
    {
        "Nintendo Entertainment System"
    }

    /// The platform's version string.
    pub fn version(&self) -> (r: &'static str)
        ensures
            r@ == "1.0.0"@,
    {
        "1.0.0"
    }

    /// The platform's static description.
    pub fn info(&self) -> (r: PlatformInfo)
        ensures
            r.name@ == "Nintendo Entertainment System"@,
            r.cpu_type@ == "Ricoh 2A03 (6502)"@,
            r.memory_size == 2048,
            r.video_resolution == (256u32, 240u32),
            r.audio_channels == 5,
            r.supported_formats@.len() == 1,
            r.supported_formats@[0]@ == "nes"@,
    {
        let mut formats: Vec<String> = Vec::new();
        formats.push(String::from_str("nes"));
        PlatformInfo {
            name: String::from_str("Nintendo Entertainment System"),
            version: String::from_str("1.0.0"),
            cpu_type: String::from_str("Ricoh 2A03 (6502)"),
            memory_size: 2048,
            video_resolution: (256, 240),
            audio_channels: 5,
            supported_formats: formats,
        }
    }

    /// A read view of the platform's CPU.
    pub fn get_cpu(&self) -> (r: &Cpu)
        ensures
            r@ == self.cpu_view(),
    {
        &self.cpu
    }

    /// Saving state is not implemented.
    pub fn save_state(&self, _path: &str) -> (r: EmuliteResult<()>)
        ensures
            r matches Err(e) && e matches EmuliteError::UnsupportedPlatform(m) && m@
                == "Save state not implemented"@,
    {
        Err(EmuliteError::UnsupportedPlatform(String::from_str("Save state not implemented")))
    }

    /// Loading state is not implemented.
    pub fn load_state(&mut self, _path: &str) -> (r: EmuliteResult<()>)
        ensures
            r matches Err(e) && e matches EmuliteError::UnsupportedPlatform(m) && m@
                == "Load state not implemented"@,
    {
        Err(EmuliteError::UnsupportedPlatform(String::from_str("Load state not implemented")))
    }

    /// A diagnostic test pattern at the NES resolution.
    pub fn get_frame_data(&self) -> (r: EmuliteResult<Vec<u8>>)
        ensures
            r matches Ok(f) && f@.len() == 256 * 240 * 4 && forall|i: int|
                0 <= i < f@.len() ==> f@[i] == pattern_byte(256, 240, i),
    {
        Ok(test_pattern_frame(256, 240))
    }
}

/// Copies the byte range `[from, to)` of a vector.
pub fn copy_range(data: &Vec<u8>, from: usize, to: usize) -> (r: Vec<u8>)
    requires
        from <= to <= data@.len(),
    ensures
        r@ == data@.subrange(from as int, to as int),
{
    let mut out: Vec<u8> = Vec::new();
    let mut i: usize = from;
    while i < to
        invariant
            from <= i <= to,
            to <= data@.len(),
            out@ =~= data@.subrange(from as int, i as int),
        decreases to - i,
    {
        out.push(data[i]);
        proof {
            assert(out@ =~= data@.subrange(from as int, i + 1));
        }
        i = i + 1;
    }
    proof {
        assert(out@ =~= data@.subrange(from as int, to as int));
    }
    out
}

} // verus!
