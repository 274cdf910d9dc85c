//! Super Nintendo Entertainment System: the 65816 is stood in for by the
//! generic fallback interpreter; the PPU and APU advance as counters, and
//! the cartridge header is decoded from its fixed offset.

use vstd::prelude::*;

use crate::cpu::generic::GenericCpu;
use crate::cpu::{Cpu, CpuV};
use crate::error::{EmuliteError, EmuliteResult};
use crate::memory::{DeviceEntryV, DeviceKind, DeviceV, MemoryAccess, MemoryDevice, MemoryMapper, RamDevice, RegionV, RomDevice};
use crate::platforms::nes::copy_range;
use crate::platforms::{pattern_byte, test_pattern_frame, PlatformInfo};
use vstd::wrapping::u16_specs;
use vstd::wrapping::u64_specs;

verus! {

broadcast use vstd::string::group_string_axioms;

/// The SNES PPU: its beam counters and frame latch (the register file and
/// video memories are carried but not yet interpreted).
#[derive(Debug)]
pub struct SnesPpu {
    pub vram: Vec<u8>,
    pub cgram: Vec<u8>,
    pub oam: Vec<u8>,
    pub scanline: u16,
    pub cycle: u16,
    pub frame: u64,
    pub nmi_enabled: bool,
    pub nmi_occurred: bool,
}

impl SnesPpu {
    /// The power-on image over the given memories.
    pub open spec fn powered_with(vram: Vec<u8>, cgram: Vec<u8>, oam: Vec<u8>) -> SnesPpu {
        SnesPpu {
            vram,
            cgram,
            oam,
            scanline: 0,
            cycle: 0,
            frame: 0,
            nmi_enabled: false,
            nmi_occurred: false,
        }
    }

    /// Whether the PPU is at its power-on state: counters cleared and the
    /// memories zeroed.
    pub open spec fn powered_on(self) -> bool {
        &&& self == SnesPpu::powered_with(self.vram, self.cgram, self.oam)
        &&& self.vram@ == Seq::new(65536, |i: int| 0u8)
        &&& self.cgram@ == Seq::new(512, |i: int| 0u8)
        &&& self.oam@ == Seq::new(544, |i: int| 0u8)
    }

    /// The whole PPU state after one cycle.
    pub open spec fn stepped_ppu(self) -> SnesPpu {
        let c = u16_specs::wrapping_add(self.cycle, 1);
        if c >= 1364 {
            let sl = u16_specs::wrapping_add(self.scanline, 1);
            if sl >= 262 {
                SnesPpu {
                    cycle: 0,
                    scanline: 0,
                    frame: u64_specs::wrapping_add(self.frame, 1),
                    nmi_occurred: true,
                    ..self
                }
            } else {
                SnesPpu { cycle: 0, scanline: sl, ..self }
            }
        } else {
            SnesPpu { cycle: c, ..self }
        }
    }

    /// A PPU at power-on.
    pub fn new() -> (r: SnesPpu)
        ensures
            r.powered_on(),
    {
        let r = SnesPpu {
            vram: crate::memory::zero_bytes(65536),
            cgram: crate::memory::zero_bytes(512),
            oam: crate::memory::zero_bytes(544),
            scanline: 0,
            cycle: 0,
            frame: 0,
            nmi_enabled: false,
            nmi_occurred: false,
        };
        proof {
            assert(r.vram@ =~= Seq::new(65536, |i: int| 0u8));
            assert(r.cgram@ =~= Seq::new(512, |i: int| 0u8));
            assert(r.oam@ =~= Seq::new(544, |i: int| 0u8));
        }
        r
    }

    /// One PPU cycle: 1364 cycles to a scanline, 262 scanlines to a frame;
    /// end of frame raises the NMI latch.
    pub fn step(&mut self) -> (r: EmuliteResult<()>)
        ensures
            r is Ok,
            *final(self) == old(self).stepped_ppu(),
    {
        self.cycle = self.cycle.wrapping_add(1);
        if self.cycle >= 1364 {
            self.cycle = 0;
            self.scanline = self.scanline.wrapping_add(1);
            if self.scanline >= 262 {
                self.scanline = 0;
                self.frame = self.frame.wrapping_add(1);
                self.nmi_occurred = true;
            }
        }
        Ok(())
    }

    /// Power-on reset.
    pub fn reset(&mut self)
        ensures
            final(self).powered_on(),
    {
        *self = SnesPpu::new();
    }
}

/// The SPC700 audio CPU, advanced as a cycle counter.
#[derive(Debug, Clone, Copy, PartialEq, Eq, Structural)]
pub struct Spc700 {
    pub a: u8,
    pub x: u8,
    pub y: u8,
    pub sp: u8,
    pub pc: u16,
    pub flags: u8,
    pub cycles: u64,
}

impl Spc700 {
    /// The power-on SPC700, its program counter at the reset vector.
    pub open spec fn initial_spec() -> Spc700 {
        Spc700 { a: 0, x: 0, y: 0, sp: 0xFF, pc: 0xFFC0, flags: 0, cycles: 0 }
    }

    /// An SPC700 at power-on, its program counter at the reset vector.
    pub fn new() -> (r: Spc700)
        ensures
            r == Spc700::initial_spec(),
    {
        Spc700 { a: 0, x: 0, y: 0, sp: 0xFF, pc: 0xFFC0, flags: 0, cycles: 0 }
    }

    /// One cycle.
    pub fn step(&mut self) -> (r: EmuliteResult<()>)
        ensures
            r is Ok,
            *final(self) == (Spc700 {
                cycles: u64_specs::wrapping_add(old(self).cycles, 1),
                ..*old(self)
            }),
    {
        self.cycles = self.cycles.wrapping_add(1);
        Ok(())
    }
}

/// One APU timer.
#[derive(Debug, Clone, Copy, PartialEq, Eq, Structural)]
pub struct ApuTimer {
    pub counter: u8,
    pub period: u8,
    pub enabled: bool,
}

impl ApuTimer {
    /// A disabled timer.
    pub fn new() -> (r: ApuTimer)
        ensures
            r == (ApuTimer { counter: 0, period: 0, enabled: false }),
    {
        ApuTimer { counter: 0, period: 0, enabled: false }
    }

    /// The timer after one tick.
    pub open spec fn ticked(self) -> ApuTimer {
        ApuTimer {
            counter: if self.enabled {
                let c = vstd::wrapping::u8_specs::wrapping_add(self.counter, 1);
                if c >= self.period {
                    0u8
                } else {
                    c
                }
            } else {
                self.counter
            },
            ..self
        }
    }

    /// One tick: an enabled timer counts up and wraps at its period.
    pub fn step(&mut self)
        ensures
            *final(self) == old(self).ticked(),
    {
        if self.enabled {
            let c = self.counter.wrapping_add(1);
            if c >= self.period {
                self.counter = 0;
            } else {
                self.counter = c;
            }
        }
    }
}

/// The SNES APU: the SPC700, three timers and the sample RAM.
#[derive(Debug)]
pub struct SnesApu {
    pub spc700: Spc700,
    pub timer0: ApuTimer,
    pub timer1: ApuTimer,
    pub timer2: ApuTimer,
    pub sample_ram: Vec<u8>,
}

impl SnesApu {
    /// Whether the APU is at its power-on state: the SPC700 and timers at
    /// power-on and the sample RAM zeroed.
    pub open spec fn powered_on(self) -> bool {
        &&& self.spc700 == Spc700::initial_spec()
        &&& self.timer0 == (ApuTimer { counter: 0, period: 0, enabled: false })
        &&& self.timer1 == (ApuTimer { counter: 0, period: 0, enabled: false })
        &&& self.timer2 == (ApuTimer { counter: 0, period: 0, enabled: false })
        &&& self.sample_ram@ == Seq::new(65536, |i: int| 0u8)
    }

    /// The whole APU state after one tick.
    pub open spec fn stepped_apu(self) -> SnesApu {
        SnesApu {
            spc700: Spc700 {
                cycles: u64_specs::wrapping_add(self.spc700.cycles, 1),
                ..self.spc700
            },
            timer0: self.timer0.ticked(),
            timer1: self.timer1.ticked(),
            timer2: self.timer2.ticked(),
            sample_ram: self.sample_ram,
        }
    }

    /// An APU at power-on.
    pub fn new() -> (r: SnesApu)
        ensures
            r.powered_on(),
    {
        let r = SnesApu {
            spc700: Spc700::new(),
            timer0: ApuTimer::new(),
            timer1: ApuTimer::new(),
            timer2: ApuTimer::new(),
            sample_ram: crate::memory::zero_bytes(65536),
        };
        proof {
            assert(r.sample_ram@ =~= Seq::new(65536, |i: int| 0u8));
        }
        r
    }

    /// One APU tick: the SPC700 and every timer advance.
    pub fn step(&mut self) -> (r: EmuliteResult<()>)
        ensures
            r is Ok,
            *final(self) == old(self).stepped_apu(),
    {
        let _ = self.spc700.step();
        self.timer0.step();
        self.timer1.step();
        self.timer2.step();
        Ok(())
    }

    /// Power-on reset.
    pub fn reset(&mut self)
        ensures
            final(self).powered_on(),
    {
        *self = SnesApu::new();
    }
}

/// The memory arrangements a SNES cartridge can use.
#[derive(Debug, Clone, Copy, PartialEq, Eq, Structural)]
pub enum SnesMapper {
    LoRom,
    HiRom,
    ExLoRom,
    ExHiRom,
    Other,
}

/// The header fields read from the fixed offset near the end of the first
/// 32 KiB block; the title is kept as its raw bytes.
#[derive(Debug)]
pub struct SnesHeader {
    pub title: Vec<u8>,
    pub rom_type: u8,
    pub rom_size: u8,
    pub sram_size: u8,
    pub country: u8,
    pub license: u8,
    pub version: u8,
    pub checksum: u16,
    pub checksum_complement: u16,
}

/// The mapper a ROM-type byte selects.
pub open spec fn snes_mapper_of(rom_type: u8) -> SnesMapper {
    if rom_type == 0x20 || rom_type == 0x30 {
        SnesMapper::LoRom
    } else if rom_type == 0x21 || rom_type == 0x31 {
        SnesMapper::HiRom
    } else if rom_type == 0x22 || rom_type == 0x32 {
        SnesMapper::ExLoRom
    } else if rom_type == 0x25 || rom_type == 0x35 {
        SnesMapper::ExHiRom
    } else {
        SnesMapper::LoRom
    }
}

/// A SNES cartridge: the image, its decoded header and its mapper.
#[derive(Debug)]
pub struct SnesCartridge {
    pub data: Vec<u8>,
    pub header: SnesHeader,
    pub mapper: SnesMapper,
}

/// The SNES platform.
#[derive(Debug)]
pub struct Snes {
    /// The platform's CPU.
    pub cpu: Cpu,
    /// The bus carrying the work RAM and device windows.
    pub memory: MemoryMapper,
    /// The loaded image, if any.
    pub rom: Option<Vec<u8>>,
    /// The picture processing unit.
    pub ppu: SnesPpu,
    /// The audio processing unit.
    pub apu: SnesApu,
    /// The cartridge slot.
    pub cart: SnesCartridge,
    /// The cycle counter.
    pub cycles: u64,
}

impl Snes {
    /// Whether the platform is in a consistent state: the stand-in CPU is
    /// the generic fallback it was built with.
    pub open spec fn wf(self) -> bool {
        self.cpu_view() is Generic
    }

    /// The CPU's mathematical image.
    pub open spec fn cpu_view(self) -> CpuV {
        self.cpu@
    }

    /// The cycle counter, as a spec value.
    pub open spec fn cycles_spec(self) -> u64 {
        self.cycles
    }

    /// The power-on state: the generic CPU at its initial state over a
    /// zeroed 64 KiB space, the bus holding exactly the 128 KiB work RAM
    /// at `0x7E0000`, the PPU and APU at power-on, an empty cartridge with
    /// a blank header and the LoROM mapper, no image and a zero cycle
    /// counter.
    pub open spec fn powered_on(self) -> bool {
        &&& self.cpu@ == CpuV::Generic(
            crate::cpu::generic::GenericV::initial(Seq::new(0x10000, |i: int| 0u8)),
        )
        &&& self.memory@.size == 0x1000000
        &&& self.memory@.devices =~= seq![
            DeviceEntryV {
                name: "RAM"@,
                device: DeviceV {
                    kind: DeviceKind::Ram,
                    data: Seq::new(131072, |i: int| 0u8),
                    start: 0x7E0000,
                    name: "RAM"@,
                },
            },
        ]
        &&& self.memory@.regions =~= seq![
            RegionV {
                start: 0x7E0000,
                end: 0x7FFFFF,
                access: MemoryAccess::ReadWrite,
                name: "RAM"@,
                device: Some("RAM"@),
            },
        ]
        &&& self.memory@.wf()
        &&& self.rom is None
        &&& self.ppu.powered_on()
        &&& self.apu.powered_on()
        &&& self.cart.data@.len() == 0
        &&& self.cart.header.title@.len() == 0
        &&& self.cart.header.rom_type == 0
        &&& self.cart.header.rom_size == 0
        &&& self.cart.header.sram_size == 0
        &&& self.cart.header.country == 0
        &&& self.cart.header.license == 0
        &&& self.cart.header.version == 0
        &&& self.cart.header.checksum == 0
        &&& self.cart.header.checksum_complement == 0
        &&& self.cart.mapper == SnesMapper::LoRom
        &&& self.cycles == 0
    }

    /// What one platform step leaves: on a CPU fault, the fault's error
    /// with only the CPU changed (per its step); otherwise the CPU, the
    /// PPU and the APU each advanced once, the cycle counter up by one,
    /// and everything else unchanged.
    pub open spec fn step_relation(pre: Snes, post: Snes, r: EmuliteResult<()>) -> bool {
        let (cpu_post, fault) = pre.cpu@.step_spec();
        match fault {
            Some(f) => r matches Err(e) && crate::cpu::fault_matches(e, f) && post == (Snes {
                cpu: post.cpu,
                ..pre
            }) && post.cpu@ == cpu_post,
            None => {
                &&& r is Ok
                &&& post == (Snes {
                    cpu: post.cpu,
                    ppu: post.ppu,
                    apu: post.apu,
                    cycles: u64_specs::wrapping_add(pre.cycles, 1),
                    ..pre
                })
                &&& post.cpu@ == cpu_post
                &&& post.ppu == pre.ppu.stepped_ppu()
                &&& post.apu == pre.apu.stepped_apu()
            },
        }
    }

    /// What a platform reset leaves: the CPU at its power-on reset, both
    /// chips at power-on, the cycle counter cleared, everything else
    /// unchanged.
    pub open spec fn reset_relation(pre: Snes, post: Snes, r: EmuliteResult<()>) -> bool {
        &&& r is Ok
        &&& post == (Snes { cpu: post.cpu, ppu: post.ppu, apu: post.apu, cycles: 0, ..pre })
        &&& post.cpu@ == pre.cpu@.reset_spec()
        &&& post.ppu.powered_on()
        &&& post.apu.powered_on()
    }

    /// Whether an image must load on this platform: it reaches the header
    /// window, its ROM type selects an implemented mapper, and the
    /// mapper's window on the bus is still free.
    pub open spec fn loadable(pre: Snes, d: Seq<u8>) -> bool {
        let mapper = snes_mapper_of(d[0x7FD5]);
        let base: u32 = if mapper == SnesMapper::HiRom {
            0xC00000
        } else {
            0x8000
        };
        &&& 0x7FE0 <= d.len() <= 0x0800_0000
        &&& (mapper == SnesMapper::LoRom || mapper == SnesMapper::HiRom)
        &&& !crate::memory::has_overlap(pre.memory@.regions, base, (base + d.len() - 1) as u32)
    }

    /// Whether the platform holds `data` as its loaded image.
    pub open spec fn holds_image(self, data: Seq<u8>) -> bool {
        self.cart.data@ == data
    }

    /// What loading an image leaves: an image short of the header window
    /// fails without a change; success decodes the header and stores the
    /// image; an image that must load does.
    pub open spec fn load_relation(
        pre: Snes,
        post: Snes,
        rom_data: Seq<u8>,
        r: EmuliteResult<()>,
    ) -> bool {
        &&& (rom_data.len() < 512 ==> (r matches Err(e) && e matches EmuliteError::InvalidRom(m)
            && m@ == "ROM too small"@ && post == pre))
        &&& (512 <= rom_data.len() < 0x7FE0 ==> (r matches Err(e) && e
            matches EmuliteError::InvalidRom(m) && m@ == "ROM too small for header"@ && post
            == pre))
        &&& (r is Ok ==> ({
            &&& rom_data.len() >= 0x7FE0
            &&& post.cart.header.rom_type == rom_data[0x7FD5]
            &&& post.cart.header.title@ == rom_data.subrange(0x7FC0, 0x7FD5)
            &&& post.cart.mapper == snes_mapper_of(rom_data[0x7FD5])
            &&& post.cart.data@ == rom_data
            &&& (pre.wf() ==> post.wf())
        }))
        &&& (Snes::loadable(pre, rom_data) ==> r is Ok)
    }

    /// A SNES at power-on: the generic fallback CPU stands in for the
    /// 65816, the 128 KiB work RAM sits on the bus, the chips are cleared
    /// and the cartridge slot empty.
    pub fn new() -> (r: EmuliteResult<Snes>)
        ensures
            r matches Ok(p) && p.wf() && p.cycles_spec() == 0 && p.powered_on(),
    {
        let cpu = Cpu::Generic(GenericCpu::new(0x10000));
        let mut memory = MemoryMapper::new(0x1000000);
        let ram = RamDevice::new(131072, 0x7E0000, String::from_str("RAM"));
        match memory.add_device(String::from_str("RAM"), MemoryDevice::Ram(ram)) {
            Ok(_) => {},
            Err(e) => {
                return Err(e);
            },
        }
        proof {
            assert(memory@.devices =~= Seq::<DeviceEntryV>::empty().push(
                DeviceEntryV {
                    name: "RAM"@,
                    device: DeviceV {
                        kind: DeviceKind::Ram,
                        data: Seq::new(131072, |i: int| 0u8),
                        start: 0x7E0000,
                        name: "RAM"@,
                    },
                },
            ));
            assert(memory@.regions =~= crate::memory::insert_sorted(
                Seq::<RegionV>::empty(),
                RegionV {
                    start: 0x7E0000,
                    end: 0x7FFFFF,
                    access: MemoryAccess::ReadWrite,
                    name: "RAM"@,
                    device: Some("RAM"@),
                },
            ));
        }
        Ok(
            Snes {
                cpu,
                memory,
                rom: None,
                ppu: SnesPpu::new(),
                apu: SnesApu::new(),
                cart: SnesCartridge {
                    data: Vec::new(),
                    header: SnesHeader {
                        title: Vec::new(),
                        rom_type: 0,
                        rom_size: 0,
                        sram_size: 0,
                        country: 0,
                        license: 0,
                        version: 0,
                        checksum: 0,
                        checksum_complement: 0,
                    },
                    mapper: SnesMapper::LoRom,
                },
                cycles: 0,
            },
        )
    }

    /// Loads a SNES image: the size is validated, the header decoded from
    /// its fixed offset, the mapper detected, the image registered on the
    /// bus at the mapper's base, and the CPU reset.
    pub fn load_rom(&mut self, rom_data: Vec<u8>) -> (r: EmuliteResult<()>)
        requires
            rom_data@.len() <= 0x0800_0000,
        ensures
            Snes::load_relation(*old(self), *final(self), rom_data@, r),
    {
        if rom_data.len() < 512 {
            return Err(EmuliteError::InvalidRom(String::from_str("ROM too small")));
        }
        if rom_data.len() < 0x7FE0 {
            return Err(EmuliteError::InvalidRom(String::from_str("ROM too small for header")));
        }
        let title = copy_range(&rom_data, 0x7FC0, 0x7FD5);
        let rom_type = rom_data[0x7FD5];
        let header = SnesHeader {
            title,
            rom_type,
            rom_size: rom_data[0x7FD7],
            sram_size: rom_data[0x7FD8],
            country: rom_data[0x7FD9],
            license: rom_data[0x7FDA],
            version: rom_data[0x7FDB],
            checksum: (rom_data[0x7FDE] as u16) | ((rom_data[0x7FDF] as u16) << 8),
            checksum_complement: (rom_data[0x7FDC] as u16) | ((rom_data[0x7FDD] as u16) << 8),
        };
        let mapper = if rom_type == 0x20 || rom_type == 0x30 {
            SnesMapper::LoRom
        } else if rom_type == 0x21 || rom_type == 0x31 {
            SnesMapper::HiRom
        } else if rom_type == 0x22 || rom_type == 0x32 {
            SnesMapper::ExLoRom
        } else if rom_type == 0x25 || rom_type == 0x35 {
            SnesMapper::ExHiRom
        } else {
            SnesMapper::LoRom
        };
        let base: u32 = match mapper {
            SnesMapper::LoRom => 0x8000,
            SnesMapper::HiRom => 0xC00000,
            _ => {
                return Err(
                    EmuliteError::UnsupportedPlatform(
                        String::from_str("Mapper not implemented"),
                    ),
                );
            },
        };
        let device_copy = copy_range(&rom_data, 0, rom_data.len());
        let rom_device = RomDevice::new(device_copy, base, String::from_str("ROM"));
        match self.memory.add_device(String::from_str("ROM"), MemoryDevice::Rom(rom_device)) {
            Ok(_) => {},
            Err(e) => {
                return Err(e);
            },
        }
        self.cart = SnesCartridge { data: rom_data, header, mapper };
        match self.cpu.reset() {
            Ok(_) => {},
            Err(e) => {
                return Err(e);
            },
        }
        self.cycles = 0;
        Ok(())
    }

    /// One platform step: the CPU, the PPU and the APU each advance once.
    pub fn step(&mut self) -> (r: EmuliteResult<()>)
        ensures
            Snes::step_relation(*old(self), *final(self), r),
    {
        match self.cpu.step() {
            Ok(_) => {},
            Err(e) => {
                return Err(e);
            },
        }
        self.cycles = self.cycles.wrapping_add(1);
        let _ = self.ppu.step();
        let _ = self.apu.step();
        Ok(())
    }

    /// Resets the CPU and both chips and clears the cycle counter.
    pub fn reset(&mut self) -> (r: EmuliteResult<()>)
        ensures
            Snes::reset_relation(*old(self), *final(self), r),
            old(self).wf() ==> final(self).wf(),
    {
        let _ = self.cpu.reset();
        self.ppu.reset();
        self.apu.reset();
        self.cycles = 0;
        Ok(())
    }

    /// The platform's display name.
    pub fn name(&self) -> (r: &'static str)
        ensures
            r@ == "Super Nintendo Entertainment System"@,
    {
        "Super Nintendo Entertainment System"
    }

    /// The platform's version string.
    pub fn version(&self) -> (r: &'static str)
        ensures
            r@ == "1.0.0"@,
    {
        "1.0.0"
    }

    /// The platform's static description.
    pub fn info(&self) -> (r: PlatformInfo)
        ensures
            r.name@ == "Super Nintendo Entertainment System"@,
            r.cpu_type@ == "Ricoh 5A22 (65816)"@,
            r.memory_size == 131072,
            r.video_resolution == (256u32, 224u32),
            r.audio_channels == 8,
            r.supported_formats@.len() == 2,
            r.supported_formats@[0]@ == "smc"@,
            r.supported_formats@[1]@ == "sfc"@,
    {
        let mut formats: Vec<String> = Vec::new();
        formats.push(String::from_str("smc"));
        formats.push(String::from_str("sfc"));
        PlatformInfo {
            name: String::from_str("Super Nintendo Entertainment System"),
            version: String::from_str("1.0.0"),
            cpu_type: String::from_str("Ricoh 5A22 (65816)"),
            memory_size: 131072,
            video_resolution: (256, 224),
            audio_channels: 8,
            supported_formats: formats,
        }
    }

    /// A read view of the platform's CPU.
    pub fn get_cpu(&self) -> (r: &Cpu)
        ensures
            r@ == self.cpu_view(),
    {
        &self.cpu
    }

    /// Saving state is not implemented.
    pub fn save_state(&self, _path: &str) -> (r: EmuliteResult<()>)
        ensures
            r matches Err(e) && e matches EmuliteError::UnsupportedPlatform(m) && m@
                == "Save state not implemented"@,
    {
        Err(EmuliteError::UnsupportedPlatform(String::from_str("Save state not implemented")))
    }

    /// Loading state is not implemented.
    pub fn load_state(&mut self, _path: &str) -> (r: EmuliteResult<()>)
        ensures
            r matches Err(e) && e matches EmuliteError::UnsupportedPlatform(m) && m@
                == "Load state not implemented"@,
    {
        Err(EmuliteError::UnsupportedPlatform(String::from_str("Load state not implemented")))
    }

    /// A diagnostic test pattern at the SNES resolution.
    pub fn get_frame_data(&self) -> (r: EmuliteResult<Vec<u8>>)
        ensures
            r matches Ok(f) && f@.len() == 256 * 224 * 4 && forall|i: int|
                0 <= i < f@.len() ==> f@[i] == pattern_byte(256, 224, i),
    {
        Ok(test_pattern_frame(256, 224))
    }
}

} // verus!
