//! PlayStation 3: the generic fallback interpreter stands in for the
//! Cell processor; the RSX and the SPU cores advance as counters, and the
//! disc header decoder is shared with the other PlayStation platforms.

use vstd::prelude::*;

use crate::cpu::generic::GenericCpu;
use crate::cpu::{Cpu, CpuV};
use crate::error::{EmuliteError, EmuliteResult};
use crate::memory::{DeviceEntryV, DeviceKind, DeviceV, MemoryAccess, MemoryDevice, MemoryMapper, RamDevice, RegionV};
use crate::platforms::ps1::{region_from_byte, region_of, DriveState, PsHeader, PsRegion};
use crate::platforms::{pattern_byte, test_pattern_frame, PlatformInfo};
use vstd::wrapping::u16_specs;
use vstd::wrapping::u32_specs;
use vstd::wrapping::u64_specs;

verus! {

broadcast use vstd::string::group_string_axioms;

/// The RSX graphics processor: its beam counters and video memory.
#[derive(Debug)]
pub struct Ps3Rsx {
    pub vram: Vec<u8>,
    pub scanline: u16,
    pub cycle: u16,
    pub frame: u64,
    pub display_enabled: bool,
}

impl Ps3Rsx {
    /// Whether the RSX is at its power-on state: counters cleared, the
    /// display enabled and the video memory zeroed.
    pub open spec fn powered_on(self) -> bool {
        &&& self == (Ps3Rsx {
            vram: self.vram,
            scanline: 0,
            cycle: 0,
            frame: 0,
            display_enabled: true,
        })
        &&& self.vram@ == Seq::new(0x10000000, |i: int| 0u8)
    }

    /// The whole RSX state after one cycle.
    pub open spec fn stepped_rsx(self) -> Ps3Rsx {
        let c = u16_specs::wrapping_add(self.cycle, 1);
        if c >= 2200 {
            let sl = u16_specs::wrapping_add(self.scanline, 1);
            if sl >= 1125 {
                Ps3Rsx {
                    cycle: 0,
                    scanline: 0,
                    frame: u64_specs::wrapping_add(self.frame, 1),
                    ..self
                }
            } else {
                Ps3Rsx { cycle: 0, scanline: sl, ..self }
            }
        } else {
            Ps3Rsx { cycle: c, ..self }
        }
    }

    /// An RSX at power-on.
    pub fn new() -> (r: Ps3Rsx)
        ensures
            r.powered_on(),
    {
        let r = Ps3Rsx {
            vram: crate::memory::zero_bytes(0x10000000),
            scanline: 0,
            cycle: 0,
            frame: 0,
            display_enabled: true,
        };
        proof {
            assert(r.vram@ =~= Seq::new(0x10000000, |i: int| 0u8));
        }
        r
    }

    /// One RSX cycle: 2200 cycles to a scanline, 1125 scanlines to a
    /// frame.
    pub fn step(&mut self) -> (r: EmuliteResult<()>)
        ensures
            r is Ok,
            *final(self) == old(self).stepped_rsx(),
    {
        self.cycle = self.cycle.wrapping_add(1);
        if self.cycle >= 2200 {
            self.cycle = 0;
            self.scanline = self.scanline.wrapping_add(1);
            if self.scanline >= 1125 {
                self.scanline = 0;
                self.frame = self.frame.wrapping_add(1);
            }
        }
        Ok(())
    }

    /// Power-on reset.
    pub fn reset(&mut self)
        ensures
            final(self).powered_on(),
    {
        *self = Ps3Rsx::new();
    }
}

/// One synergistic processing core, advanced as a program counter.
#[derive(Debug, Clone, Copy, PartialEq, Eq, Structural)]
pub struct SpuCore {
    pub pc: u32,
    pub running: bool,
}

impl SpuCore {
    /// A stopped core.
    pub fn new() -> (r: SpuCore)
        ensures
            r == (SpuCore { pc: 0, running: false }),
    {
        SpuCore { pc: 0, running: false }
    }

    /// The core after one tick.
    pub open spec fn ticked(self) -> SpuCore {
        SpuCore {
            pc: if self.running {
                u32_specs::wrapping_add(self.pc, 4)
            } else {
                self.pc
            },
            ..self
        }
    }

    /// One tick: a running core advances one instruction slot.
    pub fn step(&mut self)
        ensures
            *final(self) == old(self).ticked(),
    {
        if self.running {
            self.pc = self.pc.wrapping_add(4);
        }
    }
}

/// The SPU complex: eight synergistic cores.
#[derive(Debug)]
pub struct Ps3Spu {
    pub cores: [SpuCore; 8],
}

impl Ps3Spu {
    /// An SPU complex at power-on: every core stopped.
    pub fn new() -> (r: Ps3Spu)
        ensures
            forall|i: int| 0 <= i < 8 ==> r.cores@[i] == (SpuCore { pc: 0, running: false }),
    {
        Ps3Spu { cores: [SpuCore::new(); 8] }
    }

    /// One tick: every core advances.
    pub fn step(&mut self) -> (r: EmuliteResult<()>)
        ensures
            r is Ok,
            forall|i: int|
                0 <= i < 8 ==> final(self).cores@[i] == (#[trigger] old(self).cores@[i]).ticked(),
    {
        let mut i: usize = 0;
        while i < 8
            invariant
                i <= 8,
                forall|k: int|
                    0 <= k < i ==> self.cores@[k] == (#[trigger] old(self).cores@[k]).ticked(),
                forall|k: int| i <= k < 8 ==> self.cores@[k] == old(self).cores@[k],
            decreases 8 - i,
        {
            let mut c = self.cores[i];
            c.step();
            self.cores[i] = c;
            i = i + 1;
        }
        Ok(())
    }

    /// Power-on reset.
    pub fn reset(&mut self)
        ensures
            forall|i: int| 0 <= i < 8 ==> final(self).cores@[i] == (SpuCore {
                pc: 0,
                running: false,
            }),
    {
        *self = Ps3Spu::new();
    }
}

/// The Blu-ray drive: its state and sector position.
#[derive(Debug, Clone, Copy, PartialEq, Eq, Structural)]
pub struct Ps3Bdvd {
    pub drive_state: DriveState,
    pub current_sector: u64,
    pub total_sectors: u64,
}

impl Ps3Bdvd {
    /// An idle drive.
    pub fn new() -> (r: Ps3Bdvd)
        ensures
            r == (Ps3Bdvd { drive_state: DriveState::Idle, current_sector: 0, total_sectors: 0 }),
    {
        Ps3Bdvd { drive_state: DriveState::Idle, current_sector: 0, total_sectors: 0 }
    }

    /// The whole drive state after one tick.
    pub open spec fn stepped_drive(self) -> Ps3Bdvd {
        if self.drive_state == DriveState::Reading {
            let sec = u64_specs::wrapping_add(self.current_sector, 1);
            Ps3Bdvd {
                current_sector: sec,
                drive_state: if sec >= self.total_sectors {
                    DriveState::Idle
                } else {
                    DriveState::Reading
                },
                ..self
            }
        } else {
            self
        }
    }

    /// One drive tick: a reading drive advances a sector and idles at the
    /// end of the disc.
    pub fn step(&mut self) -> (r: EmuliteResult<()>)
        ensures
            r is Ok,
            *final(self) == old(self).stepped_drive(),
    {
        match self.drive_state {
            DriveState::Reading => {
                self.current_sector = self.current_sector.wrapping_add(1);
                if self.current_sector >= self.total_sectors {
                    self.drive_state = DriveState::Idle;
                }
            },
            _ => {},
        }
        Ok(())
    }

    /// Power-on reset.
    pub fn reset(&mut self)
        ensures
            *final(self) == (Ps3Bdvd {
                drive_state: DriveState::Idle,
                current_sector: 0,
                total_sectors: 0,
            }),
    {
        *self = Ps3Bdvd::new();
    }
}

/// The PlayStation 3 platform.
#[derive(Debug)]
pub struct Ps3 {
    /// The platform's CPU.
    pub cpu: Cpu,
    /// The bus carrying the work RAM and device windows.
    pub memory: MemoryMapper,
    /// The loaded image, if any.
    pub rom: Option<Vec<u8>>,
    /// The RSX graphics processor.
    pub rsx: Ps3Rsx,
    /// The synergistic core complex.
    pub spu: Ps3Spu,
    /// The Blu-ray drive.
    pub bdvd: Ps3Bdvd,
    /// The decoded disc header.
    pub header: PsHeader,
    /// The decoded disc region.
    pub region: PsRegion,
    /// The cycle counter.
    pub cycles: u64,
}

impl Ps3 {
    /// Whether the platform is in a consistent state: the stand-in CPU is
    /// the generic fallback it was built with.
    pub open spec fn wf(self) -> bool {
        self.cpu_view() is Generic
    }

    /// The CPU's mathematical image.
    pub open spec fn cpu_view(self) -> CpuV {
        self.cpu@
    }

    /// The cycle counter, as a spec value.
    pub open spec fn cycles_spec(self) -> u64 {
        self.cycles
    }

    /// The power-on state: the generic CPU at its initial state over a
    /// zeroed 64 KiB space, the bus holding exactly the 256 MiB RAM at
    /// `0x0` and the 16 MiB BIOS window at `0x1FC00000`, the RSX, the
    /// synergistic cores and the drive at power-on, a blank header, the
    /// NTSC region, no image and a zero cycle counter.
    pub open spec fn powered_on(self) -> bool {
        &&& self.cpu@ == CpuV::Generic(
            crate::cpu::generic::GenericV::initial(Seq::new(0x10000, |i: int| 0u8)),
        )
        &&& self.memory@.size == 0xFFFFFFFF
        &&& self.memory@.devices =~= seq![
            DeviceEntryV {
                name: "RAM"@,
                device: DeviceV {
                    kind: DeviceKind::Ram,
                    data: Seq::new(0x10000000, |i: int| 0u8),
                    start: 0,
                    name: "RAM"@,
                },
            },
            DeviceEntryV {
                name: "BIOS"@,
                device: DeviceV {
                    kind: DeviceKind::Ram,
                    data: Seq::new(0x1000000, |i: int| 0u8),
                    start: 0x1FC00000,
                    name: "BIOS"@,
                },
            },
        ]
        &&& self.memory@.regions =~= seq![
            RegionV {
                start: 0,
                end: 0xFFFFFFF,
                access: MemoryAccess::ReadWrite,
                name: "RAM"@,
                device: Some("RAM"@),
            },
            RegionV {
                start: 0x1FC00000,
                end: 0x20BFFFFF,
                access: MemoryAccess::ReadWrite,
                name: "BIOS"@,
                device: Some("BIOS"@),
            },
        ]
        &&& self.memory@.wf()
        &&& self.rom is None
        &&& self.rsx.powered_on()
        &&& (forall|i: int| 0 <= i < 8 ==> self.spu.cores@[i] == (SpuCore { pc: 0, running: false }))
        &&& self.bdvd == (Ps3Bdvd {
            drive_state: DriveState::Idle,
            current_sector: 0,
            total_sectors: 0,
        })
        &&& self.header.system_id@.len() == 0
        &&& self.header.title@.len() == 0
        &&& self.header.publisher@.len() == 0
        &&& self.header.disc_id@.len() == 0
        &&& self.header.disc_type == 0
        &&& self.header.region == 0
        &&& self.header.version == 0
        &&& self.region == PsRegion::Ntsc
        &&& self.cycles == 0
    }

    /// What one platform step leaves: on a CPU fault, the fault's error
    /// with only the CPU changed (per its step); otherwise the CPU, RSX,
    /// core complex and drive each advanced once, the cycle counter up by
    /// one, and everything else unchanged.
    pub open spec fn step_relation(pre: Ps3, post: Ps3, r: EmuliteResult<()>) -> bool {
        let (cpu_post, fault) = pre.cpu@.step_spec();
        match fault {
            Some(f) => r matches Err(e) && crate::cpu::fault_matches(e, f) && post == (Ps3 {
                cpu: post.cpu,
                ..pre
            }) && post.cpu@ == cpu_post,
            None => {
                &&& r is Ok
                &&& post == (Ps3 {
                    cpu: post.cpu,
                    rsx: post.rsx,
                    spu: post.spu,
                    bdvd: post.bdvd,
                    cycles: u64_specs::wrapping_add(pre.cycles, 1),
                    ..pre
                })
                &&& post.cpu@ == cpu_post
                &&& post.rsx == pre.rsx.stepped_rsx()
                &&& (forall|i: int|
                    0 <= i < 8 ==> post.spu.cores@[i] == (#[trigger] pre.spu.cores@[i]).ticked())
                &&& post.bdvd == pre.bdvd.stepped_drive()
            },
        }
    }

    /// What a platform reset leaves: the CPU at its power-on reset, every
    /// chip at power-on, the cycle counter cleared, everything else
    /// unchanged.
    pub open spec fn reset_relation(pre: Ps3, post: Ps3, r: EmuliteResult<()>) -> bool {
        &&& r is Ok
        &&& post == (Ps3 {
            cpu: post.cpu,
            rsx: post.rsx,
            spu: post.spu,
            bdvd: post.bdvd,
            cycles: 0,
            ..pre
        })
        &&& post.cpu@ == pre.cpu@.reset_spec()
        &&& post.rsx.powered_on()
        &&& (forall|i: int| 0 <= i < 8 ==> post.spu.cores@[i] == (SpuCore {
            pc: 0,
            running: false,
        }))
        &&& post.bdvd == (Ps3Bdvd {
            drive_state: DriveState::Idle,
            current_sector: 0,
            total_sectors: 0,
        })
    }

    /// Whether a disc image must load on this platform: at least one
    /// sector with a documented region byte.
    pub open spec fn loadable(pre: Ps3, d: Seq<u8>) -> bool {
        d.len() >= 2048 && region_of(d[0x0E]) is Some
    }

    /// Whether the platform holds `data` as its loaded image.
    pub open spec fn holds_image(self, data: Seq<u8>) -> bool {
        self.rom matches Some(v) && v@ == data
    }

    /// What loading a disc image leaves: an image short of one sector or
    /// with an unknown region byte fails without a change; success decodes
    /// the header and stores the image; an image that must load does.
    pub open spec fn load_relation(
        pre: Ps3,
        post: Ps3,
        rom_data: Seq<u8>,
        r: EmuliteResult<()>,
    ) -> bool {
        &&& (rom_data.len() < 2048 ==> (r matches Err(e) && e matches EmuliteError::InvalidRom(m)
            && m@ == "ROM too small"@ && post == pre))
        &&& (rom_data.len() >= 2048 && region_of(rom_data[0x0E]) is None ==> (r matches Err(e)
            && e matches EmuliteError::InvalidRom(m) && post == pre))
        &&& (r is Ok ==> ({
            &&& rom_data.len() >= 2048
            &&& (region_of(rom_data[0x0E]) matches Some(reg) && post.region == reg)
            &&& post.header.system_id@ == rom_data.subrange(0x00, 0x0A)
            &&& (post.rom matches Some(v) && v@ == rom_data)
            &&& (pre.wf() ==> post.wf())
        }))
        &&& (Ps3::loadable(pre, rom_data) ==> r is Ok)
    }

    /// A PlayStation 3 at power-on: the generic fallback stands in for
    /// the Cell processor, the 256 MiB work RAM and 16 MiB BIOS window
    /// sit on the bus.
    pub fn new() -> (r: EmuliteResult<Ps3>)
        ensures
            r matches Ok(p) && p.wf() && p.cycles_spec() == 0 && p.powered_on(),
    {
        let cpu = Cpu::Generic(GenericCpu::new(0x10000));
        let mut memory = MemoryMapper::new(0xFFFFFFFF);
        let ram = RamDevice::new(0x10000000, 0x00000000, String::from_str("RAM"));
        match memory.add_device(String::from_str("RAM"), MemoryDevice::Ram(ram)) {
            Ok(_) => {},
            Err(e) => {
                return Err(e);
            },
        }
        let bios = RamDevice::new(0x1000000, 0x1FC00000, String::from_str("BIOS"));
        match memory.add_device(String::from_str("BIOS"), MemoryDevice::Ram(bios)) {
            Ok(_) => {},
            Err(e) => {
                return Err(e);
            },
        }
        proof {
            let ram_entry = DeviceEntryV {
                name: "RAM"@,
                device: DeviceV {
                    kind: DeviceKind::Ram,
                    data: Seq::new(0x10000000, |i: int| 0u8),
                    start: 0,
                    name: "RAM"@,
                },
            };
            let bios_entry = DeviceEntryV {
                name: "BIOS"@,
                device: DeviceV {
                    kind: DeviceKind::Ram,
                    data: Seq::new(0x1000000, |i: int| 0u8),
                    start: 0x1FC00000,
                    name: "BIOS"@,
                },
            };
            let ram_region = RegionV {
                start: 0,
                end: 0xFFFFFFF,
                access: MemoryAccess::ReadWrite,
                name: "RAM"@,
                device: Some("RAM"@),
            };
            let bios_region = RegionV {
                start: 0x1FC00000,
                end: 0x20BFFFFF,
                access: MemoryAccess::ReadWrite,
                name: "BIOS"@,
                device: Some("BIOS"@),
            };
            assert(memory@.devices =~= Seq::<DeviceEntryV>::empty().push(ram_entry).push(
                bios_entry,
            ));
            let first = crate::memory::insert_sorted(Seq::<RegionV>::empty(), ram_region);
            assert(first =~= seq![ram_region]);
            assert(first.drop_first() =~= Seq::<RegionV>::empty());
            assert(crate::memory::insert_sorted(first.drop_first(), bios_region) =~= seq![
                bios_region,
            ]);
            assert(crate::memory::insert_sorted(first, bios_region) =~= seq![
                ram_region,
                bios_region,
            ]);
            assert(memory@.regions =~= seq![ram_region, bios_region]);
        }
        Ok(
            Ps3 {
                cpu,
                memory,
                rom: None,
                rsx: Ps3Rsx::new(),
                spu: Ps3Spu::new(),
                bdvd: Ps3Bdvd::new(),
                header: PsHeader::new(),
                region: PsRegion::Ntsc,
                cycles: 0,
            },
        )
    }

    /// Loads a disc image: the size is validated, the header decoded, the
    /// region checked, and the CPU reset.
    pub fn load_rom(&mut self, rom_data: Vec<u8>) -> (r: EmuliteResult<()>)
        ensures
            Ps3::load_relation(*old(self), *final(self), rom_data@, r),
    {
        if rom_data.len() < 2048 {
            return Err(EmuliteError::InvalidRom(String::from_str("ROM too small")));
        }
        let header = PsHeader::parse(&rom_data);
        let region = match region_from_byte(header.region) {
            Ok(reg) => reg,
            Err(e) => {
                return Err(e);
            },
        };
        self.header = header;
        self.region = region;
        match self.cpu.reset() {
            Ok(_) => {},
            Err(e) => {
                return Err(e);
            },
        }
        self.cycles = 0;
        self.rom = Some(rom_data);
        Ok(())
    }

    /// One platform step: the CPU, RSX, SPU complex and drive each
    /// advance once.
    pub fn step(&mut self) -> (r: EmuliteResult<()>)
        ensures
            Ps3::step_relation(*old(self), *final(self), r),
    {
        match self.cpu.step() {
            Ok(_) => {},
            Err(e) => {
                return Err(e);
            },
        }
        self.cycles = self.cycles.wrapping_add(1);
        let _ = self.rsx.step();
        let _ = self.spu.step();
        let _ = self.bdvd.step();
        Ok(())
    }

    /// Resets the CPU and every chip and clears the cycle counter.
    pub fn reset(&mut self) -> (r: EmuliteResult<()>)
        ensures
            Ps3::reset_relation(*old(self), *final(self), r),
            old(self).wf() ==> final(self).wf(),
    {
        let _ = self.cpu.reset();
        self.rsx.reset();
        self.spu.reset();
        self.bdvd.reset();
        self.cycles = 0;
        Ok(())
    }

    /// The platform's display name.
    pub fn name(&self) -> (r: &'static str)
        ensures
            r@ == "PlayStation 3"@,
    {
        "PlayStation 3"
    }

    /// The platform's version string.
    pub fn version(&self) -> (r: &'static str)
        ensures
            r@ == "1.0.0"@,
    {
        "1.0.0"
    }

    /// The platform's static description.
    pub fn info(&self) -> (r: PlatformInfo)
        ensures
            r.name@ == "PlayStation 3"@,
            r.cpu_type@ == "PowerPC Cell (PPE + 6 SPEs)"@,
            r.memory_size == 0x10000000,
            r.video_resolution == (1920u32, 1080u32),
            r.audio_channels == 64,
            r.supported_formats@.len() == 3,
    {
        let mut formats: Vec<String> = Vec::new();
        formats.push(String::from_str("iso"));
        formats.push(String::from_str("bin"));
        formats.push(String::from_str("img"));
        PlatformInfo {
            name: String::from_str("PlayStation 3"),
            version: String::from_str("1.0.0"),
            cpu_type: String::from_str("PowerPC Cell (PPE + 6 SPEs)"),
            memory_size: 0x10000000,
            video_resolution: (1920, 1080),
            audio_channels: 64,
            supported_formats: formats,
        }
    }

    /// A read view of the platform's CPU.
    pub fn get_cpu(&self) -> (r: &Cpu)
        ensures
            r@ == self.cpu_view(),
    {
        &self.cpu
    }

    /// Saving state is not implemented.
    pub fn save_state(&self, _path: &str) -> (r: EmuliteResult<()>)
        ensures
            r matches Err(e) && e matches EmuliteError::UnsupportedPlatform(m) && m@
                == "Save state not implemented"@,
    {
        Err(EmuliteError::UnsupportedPlatform(String::from_str("Save state not implemented")))
    }

    /// Loading state is not implemented.
    pub fn load_state(&mut self, _path: &str) -> (r: EmuliteResult<()>)
        ensures
            r matches Err(e) && e matches EmuliteError::UnsupportedPlatform(m) && m@
                == "Load state not implemented"@,
    {
        Err(EmuliteError::UnsupportedPlatform(String::from_str("Load state not implemented")))
    }

    /// A diagnostic test pattern at the RSX output resolution.
    pub fn get_frame_data(&self) -> (r: EmuliteResult<Vec<u8>>)
        ensures
            r matches Ok(f) && f@.len() == 1920 * 1080 * 4 && forall|i: int|
                0 <= i < f@.len() ==> f@[i] == pattern_byte(1920, 1080, i),
    {
        Ok(test_pattern_frame(1920, 1080))
    }
}

} // verus!
