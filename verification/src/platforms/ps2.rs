//! PlayStation 2: a MIPS interpreter standing in for the Emotion Engine,
//! the Graphics Synthesizer and SPU2 chips as counters, and the disc
//! header decoder shared with the first PlayStation.

use vstd::prelude::*;

use crate::cpu::{Cpu, CpuFactory, CpuV};
use crate::error::{EmuliteError, EmuliteResult};
use crate::memory::{DeviceEntryV, DeviceKind, DeviceV, MemoryAccess, MemoryDevice, MemoryMapper, RamDevice, RegionV};
use crate::platforms::ps1::{region_from_byte, region_of, PsHeader, PsRegion};
use crate::platforms::{pattern_byte, test_pattern_frame, PlatformInfo};
use vstd::wrapping::u16_specs;
use vstd::wrapping::u64_specs;

verus! {

broadcast use vstd::string::group_string_axioms;

/// The Graphics Synthesizer: its beam counters and video memory.
#[derive(Debug)]
pub struct Ps2Gs {
    pub vram: Vec<u8>,
    pub scanline: u16,
    pub cycle: u16,
    pub frame: u64,
    pub display_enabled: bool,
}

impl Ps2Gs {
    /// Whether the GS is at its power-on state: counters cleared, the
    /// display enabled and the video memory zeroed.
    pub open spec fn powered_on(self) -> bool {
        &&& self == (Ps2Gs {
            vram: self.vram,
            scanline: 0,
            cycle: 0,
            frame: 0,
            display_enabled: true,
        })
        &&& self.vram@ == Seq::new(0x400000, |i: int| 0u8)
    }

    /// The whole GS state after one cycle.
    pub open spec fn stepped_gs(self) -> Ps2Gs {
        let c = u16_specs::wrapping_add(self.cycle, 1);
        if c >= 1365 {
            let sl = u16_specs::wrapping_add(self.scanline, 1);
            if sl >= 263 {
                Ps2Gs {
                    cycle: 0,
                    scanline: 0,
                    frame: u64_specs::wrapping_add(self.frame, 1),
                    ..self
                }
            } else {
                Ps2Gs { cycle: 0, scanline: sl, ..self }
            }
        } else {
            Ps2Gs { cycle: c, ..self }
        }
    }

    /// A GS at power-on.
    pub fn new() -> (r: Ps2Gs)
        ensures
            r.powered_on(),
    {
        let r = Ps2Gs {
            vram: crate::memory::zero_bytes(0x400000),
            scanline: 0,
            cycle: 0,
            frame: 0,
            display_enabled: true,
        };
        proof {
            assert(r.vram@ =~= Seq::new(0x400000, |i: int| 0u8));
        }
        r
    }

    /// One GS cycle: 1365 cycles to a scanline, 263 scanlines to a frame.
    pub fn step(&mut self) -> (r: EmuliteResult<()>)
        ensures
            r is Ok,
            *final(self) == old(self).stepped_gs(),
    {
        self.cycle = self.cycle.wrapping_add(1);
        if self.cycle >= 1365 {
            self.cycle = 0;
            self.scanline = self.scanline.wrapping_add(1);
            if self.scanline >= 263 {
                self.scanline = 0;
                self.frame = self.frame.wrapping_add(1);
            }
        }
        Ok(())
    }

    /// Power-on reset.
    pub fn reset(&mut self)
        ensures
            final(self).powered_on(),
    {
        *self = Ps2Gs::new();
    }
}

/// One SPU2 voice: its ADSR envelope state against the SPU2 thresholds.
#[derive(Debug, Clone, Copy, PartialEq, Eq, Structural)]
pub struct Spu2Voice {
    pub adsr_phase: crate::platforms::ps1::AdsrPhase,
    pub adsr_volume: u16,
    pub key_on: bool,
    pub key_off: bool,
}

/// The envelope state one SPU2 voice tick leaves: key-on restarts the
/// attack, key-off starts the release, attack hands over at 0x7FFF and
/// decay at 0x1000.
pub open spec fn spu2_voice_stepped(v: Spu2Voice) -> Spu2Voice {
    let v1 = if v.key_on {
        Spu2Voice { adsr_phase: crate::platforms::ps1::AdsrPhase::Attack, key_on: false, ..v }
    } else {
        v
    };
    let v2 = if v1.key_off {
        Spu2Voice { adsr_phase: crate::platforms::ps1::AdsrPhase::Release, key_off: false, ..v1 }
    } else {
        v1
    };
    match v2.adsr_phase {
        crate::platforms::ps1::AdsrPhase::Attack => if v2.adsr_volume >= 0x7FFF {
            Spu2Voice { adsr_phase: crate::platforms::ps1::AdsrPhase::Decay, ..v2 }
        } else {
            v2
        },
        crate::platforms::ps1::AdsrPhase::Decay => if v2.adsr_volume <= 0x1000 {
            Spu2Voice { adsr_phase: crate::platforms::ps1::AdsrPhase::Sustain, ..v2 }
        } else {
            v2
        },
        crate::platforms::ps1::AdsrPhase::Sustain => v2,
        crate::platforms::ps1::AdsrPhase::Release => if v2.adsr_volume <= 0 {
            Spu2Voice { adsr_phase: crate::platforms::ps1::AdsrPhase::Off, ..v2 }
        } else {
            v2
        },
        crate::platforms::ps1::AdsrPhase::Off => v2,
    }
}

impl Spu2Voice {
    /// The silent voice, as a value.
    pub open spec fn silent() -> Spu2Voice {
        Spu2Voice {
            adsr_phase: crate::platforms::ps1::AdsrPhase::Off,
            adsr_volume: 0,
            key_on: false,
            key_off: false,
        }
    }

    /// A silent voice.
    pub fn new() -> (r: Spu2Voice)
        ensures
            r == (Spu2Voice {
                adsr_phase: crate::platforms::ps1::AdsrPhase::Off,
                adsr_volume: 0,
                key_on: false,
                key_off: false,
            }),
    {
        Spu2Voice {
            adsr_phase: crate::platforms::ps1::AdsrPhase::Off,
            adsr_volume: 0,
            key_on: false,
            key_off: false,
        }
    }

    /// One envelope tick.
    pub fn step(&mut self)
        ensures
            *final(self) == spu2_voice_stepped(*old(self)),
    {
        if self.key_on {
            self.adsr_phase = crate::platforms::ps1::AdsrPhase::Attack;
            self.key_on = false;
        }
        if self.key_off {
            self.adsr_phase = crate::platforms::ps1::AdsrPhase::Release;
            self.key_off = false;
        }
        match self.adsr_phase {
            crate::platforms::ps1::AdsrPhase::Attack => {
                if self.adsr_volume >= 0x7FFF {
                    self.adsr_phase = crate::platforms::ps1::AdsrPhase::Decay;
                }
            },
            crate::platforms::ps1::AdsrPhase::Decay => {
                if self.adsr_volume <= 0x1000 {
                    self.adsr_phase = crate::platforms::ps1::AdsrPhase::Sustain;
                }
            },
            crate::platforms::ps1::AdsrPhase::Sustain => {},
            crate::platforms::ps1::AdsrPhase::Release => {
                if self.adsr_volume == 0 {
                    self.adsr_phase = crate::platforms::ps1::AdsrPhase::Off;
                }
            },
            crate::platforms::ps1::AdsrPhase::Off => {},
        }
    }
}

/// One SPU2 core: twenty-four voices.
#[derive(Debug)]
pub struct Spu2Core {
    pub voices: [Spu2Voice; 24],
}

impl Spu2Core {
    /// A core at power-on: every voice silent.
    pub fn new() -> (r: Spu2Core)
        ensures
            forall|i: int| 0 <= i < 24 ==> r.voices@[i] == (Spu2Voice {
                adsr_phase: crate::platforms::ps1::AdsrPhase::Off,
                adsr_volume: 0,
                key_on: false,
                key_off: false,
            }),
    {
        Spu2Core { voices: [Spu2Voice::new(); 24] }
    }

    /// One core tick: every voice's envelope advances.
    pub fn step(&mut self)
        ensures
            forall|i: int|
                0 <= i < 24 ==> final(self).voices@[i] == spu2_voice_stepped(
                    #[trigger] old(self).voices@[i],
                ),
    {
        let mut i: usize = 0;
        while i < 24
            invariant
                i <= 24,
                forall|k: int|
                    0 <= k < i ==> self.voices@[k] == spu2_voice_stepped(
                        #[trigger] old(self).voices@[k],
                    ),
                forall|k: int| i <= k < 24 ==> self.voices@[k] == old(self).voices@[k],
            decreases 24 - i,
        {
            let mut v = self.voices[i];
            v.step();
            self.voices[i] = v;
            i = i + 1;
        }
    }
}

/// The SPU2: two cores.
#[derive(Debug)]
pub struct Ps2Spu2 {
    pub core0: Spu2Core,
    pub core1: Spu2Core,
}

impl Ps2Spu2 {
    /// An SPU2 at power-on.
    pub fn new() -> (r: Ps2Spu2)
        ensures
            forall|i: int| 0 <= i < 24 ==> r.core0.voices@[i] == Spu2Voice::silent(),
            forall|i: int| 0 <= i < 24 ==> r.core1.voices@[i] == Spu2Voice::silent(),
    {
        Ps2Spu2 { core0: Spu2Core::new(), core1: Spu2Core::new() }
    }

    /// One SPU2 tick: both cores advance.
    pub fn step(&mut self) -> (r: EmuliteResult<()>)
        ensures
            r is Ok,
            forall|i: int|
                0 <= i < 24 ==> final(self).core0.voices@[i] == spu2_voice_stepped(
                    #[trigger] old(self).core0.voices@[i],
                ),
            forall|i: int|
                0 <= i < 24 ==> final(self).core1.voices@[i] == spu2_voice_stepped(
                    #[trigger] old(self).core1.voices@[i],
                ),
    {
        self.core0.step();
        self.core1.step();
        Ok(())
    }

    /// Power-on reset.
    pub fn reset(&mut self)
        ensures
            forall|i: int| 0 <= i < 24 ==> final(self).core0.voices@[i] == Spu2Voice::silent(),
            forall|i: int| 0 <= i < 24 ==> final(self).core1.voices@[i] == Spu2Voice::silent(),
    {
        *self = Ps2Spu2::new();
    }
}

/// The CDVD drive: its state and sector position.
#[derive(Debug, Clone, Copy, PartialEq, Eq, Structural)]
pub struct Ps2Cdvd {
    pub drive_state: crate::platforms::ps1::DriveState,
    pub current_sector: u64,
    pub total_sectors: u64,
}

impl Ps2Cdvd {
    /// An idle drive.
    pub fn new() -> (r: Ps2Cdvd)
        ensures
            r == (Ps2Cdvd {
                drive_state: crate::platforms::ps1::DriveState::Idle,
                current_sector: 0,
                total_sectors: 0,
            }),
    {
        Ps2Cdvd {
            drive_state: crate::platforms::ps1::DriveState::Idle,
            current_sector: 0,
            total_sectors: 0,
        }
    }

    /// The whole drive state after one tick.
    pub open spec fn stepped_drive(self) -> Ps2Cdvd {
        if self.drive_state == crate::platforms::ps1::DriveState::Reading {
            let sec = u64_specs::wrapping_add(self.current_sector, 1);
            Ps2Cdvd {
                current_sector: sec,
                drive_state: if sec >= self.total_sectors {
                    crate::platforms::ps1::DriveState::Idle
                } else {
                    crate::platforms::ps1::DriveState::Reading
                },
                ..self
            }
        } else {
            self
        }
    }

    /// One drive tick: a reading drive advances a sector and idles at the
    /// end of the disc.
    pub fn step(&mut self) -> (r: EmuliteResult<()>)
        ensures
            r is Ok,
            *final(self) == old(self).stepped_drive(),
    {
        match self.drive_state {
            crate::platforms::ps1::DriveState::Reading => {
                self.current_sector = self.current_sector.wrapping_add(1);
                if self.current_sector >= self.total_sectors {
                    self.drive_state = crate::platforms::ps1::DriveState::Idle;
                }
            },
            _ => {},
        }
        Ok(())
    }

    /// Power-on reset.
    pub fn reset(&mut self)
        ensures
            *final(self) == (Ps2Cdvd {
                drive_state: crate::platforms::ps1::DriveState::Idle,
                current_sector: 0,
                total_sectors: 0,
            }),
    {
        *self = Ps2Cdvd::new();
    }
}

/// The PlayStation 2 platform.
#[derive(Debug)]
pub struct Ps2 {
    /// The platform's CPU.
    pub cpu: Cpu,
    /// The bus carrying the work RAM and device windows.
    pub memory: MemoryMapper,
    /// The loaded image, if any.
    pub rom: Option<Vec<u8>>,
    /// The graphics synthesizer.
    pub gs: Ps2Gs,
    /// The sound processing unit.
    pub spu2: Ps2Spu2,
    /// The CDVD drive.
    pub cdvd: Ps2Cdvd,
    /// The decoded disc header.
    pub header: PsHeader,
    /// The decoded disc region.
    pub region: PsRegion,
    /// The cycle counter.
    pub cycles: u64,
}

impl Ps2 {
    /// Whether the platform is in a consistent state: the CPU is the MIPS
    /// it was built with.
    pub open spec fn wf(self) -> bool {
        self.cpu_view() is Mips
    }

    /// The CPU's mathematical image.
    pub open spec fn cpu_view(self) -> CpuV {
        self.cpu@
    }

    /// The cycle counter, as a spec value.
    pub open spec fn cycles_spec(self) -> u64 {
        self.cycles
    }

    /// The power-on state: the MIPS CPU at its initial state over a zeroed
    /// 256 MiB space, the bus holding exactly the 32 MiB RAM at `0x0` and
    /// the 4 MiB BIOS window at `0x1FC00000`, the GS, both SPU2 cores and
    /// the drive at power-on, a blank header, the NTSC region, no image
    /// and a zero cycle counter.
    pub open spec fn powered_on(self) -> bool {
        &&& self.cpu@ == CpuV::Mips(
            crate::cpu::mips::MipsV::initial(Seq::new(0x10000000, |i: int| 0u8)),
        )
        &&& self.memory@.size == 0x20000000
        &&& self.memory@.devices =~= seq![
            DeviceEntryV {
                name: "RAM"@,
                device: DeviceV {
                    kind: DeviceKind::Ram,
                    data: Seq::new(0x2000000, |i: int| 0u8),
                    start: 0,
                    name: "RAM"@,
                },
            },
            DeviceEntryV {
                name: "BIOS"@,
                device: DeviceV {
                    kind: DeviceKind::Ram,
                    data: Seq::new(0x400000, |i: int| 0u8),
                    start: 0x1FC00000,
                    name: "BIOS"@,
                },
            },
        ]
        &&& self.memory@.regions =~= seq![
            RegionV {
                start: 0,
                end: 0x1FFFFFF,
                access: MemoryAccess::ReadWrite,
                name: "RAM"@,
                device: Some("RAM"@),
            },
            RegionV {
                start: 0x1FC00000,
                end: 0x1FFFFFFF,
                access: MemoryAccess::ReadWrite,
                name: "BIOS"@,
                device: Some("BIOS"@),
            },
        ]
        &&& self.memory@.wf()
        &&& self.rom is None
        &&& self.gs.powered_on()
        &&& (forall|i: int| 0 <= i < 24 ==> self.spu2.core0.voices@[i] == Spu2Voice::silent())
        &&& (forall|i: int| 0 <= i < 24 ==> self.spu2.core1.voices@[i] == Spu2Voice::silent())
        &&& self.cdvd == (Ps2Cdvd {
            drive_state: crate::platforms::ps1::DriveState::Idle,
            current_sector: 0,
            total_sectors: 0,
        })
        &&& self.header.system_id@.len() == 0
        &&& self.header.title@.len() == 0
        &&& self.header.publisher@.len() == 0
        &&& self.header.disc_id@.len() == 0
        &&& self.header.disc_type == 0
        &&& self.header.region == 0
        &&& self.header.version == 0
        &&& self.region == PsRegion::Ntsc
        &&& self.cycles == 0
    }

    /// What one platform step leaves: on a CPU fault, the fault's error
    /// with only the CPU changed (per its step); otherwise the CPU, GS,
    /// SPU2 and drive each advanced once, the cycle counter up by one, and
    /// everything else unchanged.
    pub open spec fn step_relation(pre: Ps2, post: Ps2, r: EmuliteResult<()>) -> bool {
        let (cpu_post, fault) = pre.cpu@.step_spec();
        match fault {
            Some(f) => r matches Err(e) && crate::cpu::fault_matches(e, f) && post == (Ps2 {
                cpu: post.cpu,
                ..pre
            }) && post.cpu@ == cpu_post,
            None => {
                &&& r is Ok
                &&& post == (Ps2 {
                    cpu: post.cpu,
                    gs: post.gs,
                    spu2: post.spu2,
                    cdvd: post.cdvd,
                    cycles: u64_specs::wrapping_add(pre.cycles, 1),
                    ..pre
                })
                &&& post.cpu@ == cpu_post
                &&& post.gs == pre.gs.stepped_gs()
                &&& (forall|i: int|
                    0 <= i < 24 ==> post.spu2.core0.voices@[i] == spu2_voice_stepped(
                        #[trigger] pre.spu2.core0.voices@[i],
                    ))
                &&& (forall|i: int|
                    0 <= i < 24 ==> post.spu2.core1.voices@[i] == spu2_voice_stepped(
                        #[trigger] pre.spu2.core1.voices@[i],
                    ))
                &&& post.cdvd == pre.cdvd.stepped_drive()
            },
        }
    }

    /// What a platform reset leaves: the CPU at its power-on reset, every
    /// chip at power-on, the cycle counter cleared, everything else
    /// unchanged.
    pub open spec fn reset_relation(pre: Ps2, post: Ps2, r: EmuliteResult<()>) -> bool {
        &&& r is Ok
        &&& post == (Ps2 {
            cpu: post.cpu,
            gs: post.gs,
            spu2: post.spu2,
            cdvd: post.cdvd,
            cycles: 0,
            ..pre
        })
        &&& post.cpu@ == pre.cpu@.reset_spec()
        &&& post.gs.powered_on()
        &&& (forall|i: int| 0 <= i < 24 ==> post.spu2.core0.voices@[i] == Spu2Voice::silent())
        &&& (forall|i: int| 0 <= i < 24 ==> post.spu2.core1.voices@[i] == Spu2Voice::silent())
        &&& post.cdvd == (Ps2Cdvd {
            drive_state: crate::platforms::ps1::DriveState::Idle,
            current_sector: 0,
            total_sectors: 0,
        })
    }

    /// Whether a disc image must load on this platform: at least one
    /// sector with a documented region byte.
    pub open spec fn loadable(pre: Ps2, d: Seq<u8>) -> bool {
        d.len() >= 2048 && region_of(d[0x0E]) is Some
    }

    /// Whether the platform holds `data` as its loaded image.
    pub open spec fn holds_image(self, data: Seq<u8>) -> bool {
        self.rom matches Some(v) && v@ == data
    }

    /// What loading a disc image leaves: an image short of one sector or
    /// with an unknown region byte fails without a change; success decodes
    /// the header and stores the image; an image that must load does.
    pub open spec fn load_relation(
        pre: Ps2,
        post: Ps2,
        rom_data: Seq<u8>,
        r: EmuliteResult<()>,
    ) -> bool {
        &&& (rom_data.len() < 2048 ==> (r matches Err(e) && e matches EmuliteError::InvalidRom(m)
            && m@ == "ROM too small"@ && post == pre))
        &&& (rom_data.len() >= 2048 && region_of(rom_data[0x0E]) is None ==> (r matches Err(e)
            && e matches EmuliteError::InvalidRom(m) && post == pre))
        &&& (r is Ok ==> ({
            &&& rom_data.len() >= 2048
            &&& (region_of(rom_data[0x0E]) matches Some(reg) && post.region == reg)
            &&& post.header.system_id@ == rom_data.subrange(0x00, 0x0A)
            &&& (post.rom matches Some(v) && v@ == rom_data)
            &&& (pre.wf() ==> post.wf())
        }))
        &&& (Ps2::loadable(pre, rom_data) ==> r is Ok)
    }

    /// A PlayStation 2 at power-on: a MIPS interpreter stands in for the
    /// Emotion Engine, the 32 MiB work RAM and 4 MiB BIOS window sit on
    /// the bus.
    pub fn new() -> (r: EmuliteResult<Ps2>)
        ensures
            r matches Ok(p) && p.wf() && p.cycles_spec() == 0 && p.powered_on(),
    {
        proof {
            reveal_strlit("mips");
            reveal_strlit("6502");
            reveal_strlit("mos6502");
            reveal_strlit("68000");
            reveal_strlit("m68k");
            assert("mips"@.len() == 4 && "6502"@.len() == 4 && "mos6502"@.len() == 7 && "68000"@.len()
                == 5 && "m68k"@.len() == 4);
            assert("mips"@[0] == 'm' && "6502"@[0] == '6' && "m68k"@[0] == 'm' && "m68k"@[1] == '6');
            assert("mips"@[1] == 'i');
            assert(crate::text::ascii_lower_seq("mips"@) =~= "mips"@);
        }
        let cpu = match CpuFactory::create("mips") {
            Ok(c) => c,
            Err(e) => {
                return Err(e);
            },
        };
        let mut memory = MemoryMapper::new(0x20000000);
        let ram = RamDevice::new(0x2000000, 0x00000000, String::from_str("RAM"));
        match memory.add_device(String::from_str("RAM"), MemoryDevice::Ram(ram)) {
            Ok(_) => {},
            Err(e) => {
                return Err(e);
            },
        }
        let bios = RamDevice::new(0x400000, 0x1FC00000, String::from_str("BIOS"));
        match memory.add_device(String::from_str("BIOS"), MemoryDevice::Ram(bios)) {
            Ok(_) => {},
            Err(e) => {
                return Err(e);
            },
        }
        proof {
            let ram_entry = DeviceEntryV {
                name: "RAM"@,
                device: DeviceV {
                    kind: DeviceKind::Ram,
                    data: Seq::new(0x2000000, |i: int| 0u8),
                    start: 0,
                    name: "RAM"@,
                },
            };
            let bios_entry = DeviceEntryV {
                name: "BIOS"@,
                device: DeviceV {
                    kind: DeviceKind::Ram,
                    data: Seq::new(0x400000, |i: int| 0u8),
                    start: 0x1FC00000,
                    name: "BIOS"@,
                },
            };
            let ram_region = RegionV {
                start: 0,
                end: 0x1FFFFFF,
                access: MemoryAccess::ReadWrite,
                name: "RAM"@,
                device: Some("RAM"@),
            };
            let bios_region = RegionV {
                start: 0x1FC00000,
                end: 0x1FFFFFFF,
                access: MemoryAccess::ReadWrite,
                name: "BIOS"@,
                device: Some("BIOS"@),
            };
            assert(memory@.devices =~= Seq::<DeviceEntryV>::empty().push(ram_entry).push(
                bios_entry,
            ));
            let first = crate::memory::insert_sorted(Seq::<RegionV>::empty(), ram_region);
            assert(first =~= seq![ram_region]);
            assert(first.drop_first() =~= Seq::<RegionV>::empty());
            assert(crate::memory::insert_sorted(first.drop_first(), bios_region) =~= seq![
                bios_region,
            ]);
            assert(crate::memory::insert_sorted(first, bios_region) =~= seq![
                ram_region,
                bios_region,
            ]);
            assert(memory@.regions =~= seq![ram_region, bios_region]);
        }
        Ok(
            Ps2 {
                cpu,
                memory,
                rom: None,
                gs: Ps2Gs::new(),
                spu2: Ps2Spu2::new(),
                cdvd: Ps2Cdvd::new(),
                header: PsHeader::new(),
                region: PsRegion::Ntsc,
                cycles: 0,
            },
        )
    }

    /// Loads a disc image: the size is validated, the header decoded, the
    /// region checked, and the CPU reset.
    pub fn load_rom(&mut self, rom_data: Vec<u8>) -> (r: EmuliteResult<()>)
        ensures
            Ps2::load_relation(*old(self), *final(self), rom_data@, r),
    {
        if rom_data.len() < 2048 {
            return Err(EmuliteError::InvalidRom(String::from_str("ROM too small")));
        }
        let header = PsHeader::parse(&rom_data);
        let region = match region_from_byte(header.region) {
            Ok(reg) => reg,
            Err(e) => {
                return Err(e);
            },
        };
        self.header = header;
        self.region = region;
        match self.cpu.reset() {
            Ok(_) => {},
            Err(e) => {
                return Err(e);
            },
        }
        self.cycles = 0;
        self.rom = Some(rom_data);
        Ok(())
    }

    /// One platform step: the CPU, GS, SPU2 and CDVD each advance once.
    pub fn step(&mut self) -> (r: EmuliteResult<()>)
        ensures
            Ps2::step_relation(*old(self), *final(self), r),
    {
        match self.cpu.step() {
            Ok(_) => {},
            Err(e) => {
                return Err(e);
            },
        }
        self.cycles = self.cycles.wrapping_add(1);
        let _ = self.gs.step();
        let _ = self.spu2.step();
        let _ = self.cdvd.step();
        Ok(())
    }

    /// Resets the CPU and every chip and clears the cycle counter.
    pub fn reset(&mut self) -> (r: EmuliteResult<()>)
        ensures
            Ps2::reset_relation(*old(self), *final(self), r),
            old(self).wf() ==> final(self).wf(),
    {
        let _ = self.cpu.reset();
        self.gs.reset();
        self.spu2.reset();
        self.cdvd.reset();
        self.cycles = 0;
        Ok(())
    }

    /// The platform's display name.
    pub fn name(&self) -> (r: &'static str)
        ensures
            r@ == "PlayStation 2"@,
    {
        "PlayStation 2"
    }

    /// The platform's version string.
    pub fn version(&self) -> (r: &'static str)
        ensures
            r@ == "1.0.0"@,
    {
        "1.0.0"
    }

    /// The platform's static description.
    pub fn info(&self) -> (r: PlatformInfo)
        ensures
            r.name@ == "PlayStation 2"@,
            r.cpu_type@ == "MIPS R5900 (Emotion Engine)"@,
            r.memory_size == 0x2000000,
            r.video_resolution == (640u32, 480u32),
            r.audio_channels == 48,
            r.supported_formats@.len() == 3,
    {
        let mut formats: Vec<String> = Vec::new();
        formats.push(String::from_str("iso"));
        formats.push(String::from_str("bin"));
        formats.push(String::from_str("img"));
        PlatformInfo {
            name: String::from_str("PlayStation 2"),
            version: String::from_str("1.0.0"),
            cpu_type: String::from_str("MIPS R5900 (Emotion Engine)"),
            memory_size: 0x2000000,
            video_resolution: (640, 480),
            audio_channels: 48,
            supported_formats: formats,
        }
    }

    /// A read view of the platform's CPU.
    pub fn get_cpu(&self) -> (r: &Cpu)
        ensures
            r@ == self.cpu_view(),
    {
        &self.cpu
    }

    /// Saving state is not implemented.
    pub fn save_state(&self, _path: &str) -> (r: EmuliteResult<()>)
        ensures
            r matches Err(e) && e matches EmuliteError::UnsupportedPlatform(m) && m@
                == "Save state not implemented"@,
    {
        Err(EmuliteError::UnsupportedPlatform(String::from_str("Save state not implemented")))
    }

    /// Loading state is not implemented.
    pub fn load_state(&mut self, _path: &str) -> (r: EmuliteResult<()>)
        ensures
            r matches Err(e) && e matches EmuliteError::UnsupportedPlatform(m) && m@
                == "Load state not implemented"@,
    {
        Err(EmuliteError::UnsupportedPlatform(String::from_str("Load state not implemented")))
    }

    /// A diagnostic test pattern at the PlayStation 2 resolution.
    pub fn get_frame_data(&self) -> (r: EmuliteResult<Vec<u8>>)
        ensures
            r matches Ok(f) && f@.len() == 640 * 480 * 4 && forall|i: int|
                0 <= i < f@.len() ==> f@[i] == pattern_byte(640, 480, i),
    {
        Ok(test_pattern_frame(640, 480))
    }
}

} // verus!
