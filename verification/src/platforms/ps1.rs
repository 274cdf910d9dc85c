//! PlayStation: a MIPS R3000A, the GPU and SPU chips, the CD-ROM drive
//! state, and the disc header decoder.

use vstd::prelude::*;

use crate::cpu::{Cpu, CpuFactory, CpuV};
use crate::error::{EmuliteError, EmuliteResult};
use crate::memory::{DeviceEntryV, DeviceKind, DeviceV, MemoryAccess, MemoryDevice, MemoryMapper, RamDevice, RegionV};
use crate::platforms::nes::copy_range;
use crate::platforms::{pattern_byte, test_pattern_frame, PlatformInfo};
use vstd::wrapping::u16_specs;
use vstd::wrapping::u64_specs;

verus! {

broadcast use vstd::string::group_string_axioms;

/// The envelope phase of one SPU voice.
#[derive(Debug, Clone, Copy, PartialEq, Eq, Structural)]
pub enum AdsrPhase {
    Attack,
    Decay,
    Sustain,
    Release,
    Off,
}

/// The region byte decodings a PlayStation-family header can carry.
#[derive(Debug, Clone, Copy, PartialEq, Eq, Structural)]
pub enum PsRegion {
    Ntsc,
    Pal,
    NtscJ,
}

/// The region a header region byte selects, if it is one of the three
/// documented values.
pub open spec fn region_of(byte: u8) -> Option<PsRegion> {
    if byte == 0x41 {
        Some(PsRegion::Ntsc)
    } else if byte == 0x44 {
        Some(PsRegion::Pal)
    } else if byte == 0x49 {
        Some(PsRegion::NtscJ)
    } else {
        None
    }
}

/// Decodes a region byte; an unknown byte fails, naming it in hex.
pub fn region_from_byte(byte: u8) -> (r: EmuliteResult<PsRegion>)
    ensures
        match region_of(byte) {
            Some(v) => r == Ok::<PsRegion, EmuliteError>(v),
            None => r matches Err(e) && e matches EmuliteError::InvalidRom(m) && m@
                == "Unknown region: 0x"@ + crate::error::hex8(byte),
        },
{
    if byte == 0x41 {
        Ok(PsRegion::Ntsc)
    } else if byte == 0x44 {
        Ok(PsRegion::Pal)
    } else if byte == 0x49 {
        Ok(PsRegion::NtscJ)
    } else {
        Err(
            EmuliteError::InvalidRom(
                String::from_str("Unknown region: 0x").concat(
                    crate::error::format_hex8(byte).as_str(),
                ),
            ),
        )
    }
}

/// The header fields at the fixed offsets of the first 2048-byte sector;
/// the identifying strings are kept as their raw bytes.
#[derive(Debug)]
pub struct PsHeader {
    pub system_id: Vec<u8>,
    pub disc_type: u8,
    pub region: u8,
    pub version: u8,
    pub title: Vec<u8>,
    pub publisher: Vec<u8>,
    pub disc_id: Vec<u8>,
}

impl PsHeader {
    /// An empty header.
    pub fn new() -> (r: PsHeader)
        ensures
            r.system_id@.len() == 0 && r.title@.len() == 0,
            r.publisher@.len() == 0 && r.disc_id@.len() == 0,
            r.disc_type == 0 && r.region == 0 && r.version == 0,
    {
        PsHeader {
            system_id: Vec::new(),
            disc_type: 0,
            region: 0,
            version: 0,
            title: Vec::new(),
            publisher: Vec::new(),
            disc_id: Vec::new(),
        }
    }

    /// Decodes the header of an image of at least one sector.
    pub fn parse(data: &Vec<u8>) -> (r: PsHeader)
        requires
            data@.len() >= 2048,
        ensures
            r.system_id@ == data@.subrange(0x00, 0x0A),
            r.disc_type == data@[0x0F],
            r.region == data@[0x0E],
            r.version == data@[0x0D],
            r.title@ == data@.subrange(0x10, 0x20),
            r.publisher@ == data@.subrange(0x20, 0x30),
            r.disc_id@ == data@.subrange(0x30, 0x40),
    {
        PsHeader {
            system_id: copy_range(data, 0x00, 0x0A),
            disc_type: data[0x0F],
            region: data[0x0E],
            version: data[0x0D],
            title: copy_range(data, 0x10, 0x20),
            publisher: copy_range(data, 0x20, 0x30),
            disc_id: copy_range(data, 0x30, 0x40),
        }
    }
}

/// One SPU voice: its levels and the ADSR envelope state.
#[derive(Debug, Clone, Copy, PartialEq, Eq, Structural)]
pub struct SpuVoice {
    pub attack_level: u8,
    pub decay_level: u8,
    pub sustain_level: u8,
    pub adsr_phase: AdsrPhase,
    pub adsr_volume: u16,
    pub key_on: bool,
    pub key_off: bool,
}

/// The envelope state one voice tick leaves: key-on restarts the attack,
/// key-off starts the release, and each phase hands over at its level.
pub open spec fn voice_stepped(v: SpuVoice) -> SpuVoice {
    let v1 = if v.key_on {
        SpuVoice { adsr_phase: AdsrPhase::Attack, key_on: false, ..v }
    } else {
        v
    };
    let v2 = if v1.key_off {
        SpuVoice { adsr_phase: AdsrPhase::Release, key_off: false, ..v1 }
    } else {
        v1
    };
    match v2.adsr_phase {
        AdsrPhase::Attack => if v2.adsr_volume >= v2.attack_level as u16 {
            SpuVoice { adsr_phase: AdsrPhase::Decay, ..v2 }
        } else {
            v2
        },
        AdsrPhase::Decay => if v2.adsr_volume <= v2.decay_level as u16 {
            SpuVoice { adsr_phase: AdsrPhase::Sustain, ..v2 }
        } else {
            v2
        },
        AdsrPhase::Sustain => v2,
        AdsrPhase::Release => if v2.adsr_volume <= 0 {
            SpuVoice { adsr_phase: AdsrPhase::Off, ..v2 }
        } else {
            v2
        },
        AdsrPhase::Off => v2,
    }
}

impl SpuVoice {
    /// The silent voice, as a value.
    pub open spec fn silent() -> SpuVoice {
        SpuVoice {
            attack_level: 0,
            decay_level: 0,
            sustain_level: 0,
            adsr_phase: AdsrPhase::Off,
            adsr_volume: 0,
            key_on: false,
            key_off: false,
        }
    }

    /// A silent voice.
    pub fn new() -> (r: SpuVoice)
        ensures
            r == (SpuVoice {
                attack_level: 0,
                decay_level: 0,
                sustain_level: 0,
                adsr_phase: AdsrPhase::Off,
                adsr_volume: 0,
                key_on: false,
                key_off: false,
            }),
    {
        SpuVoice {
            attack_level: 0,
            decay_level: 0,
            sustain_level: 0,
            adsr_phase: AdsrPhase::Off,
            adsr_volume: 0,
            key_on: false,
            key_off: false,
        }
    }

    /// One envelope tick.
    pub fn step(&mut self)
        ensures
            *final(self) == voice_stepped(*old(self)),
    {
        if self.key_on {
            self.adsr_phase = AdsrPhase::Attack;
            self.key_on = false;
        }
        if self.key_off {
            self.adsr_phase = AdsrPhase::Release;
            self.key_off = false;
        }
        match self.adsr_phase {
            AdsrPhase::Attack => {
                if self.adsr_volume >= self.attack_level as u16 {
                    self.adsr_phase = AdsrPhase::Decay;
                }
            },
            AdsrPhase::Decay => {
                if self.adsr_volume <= self.decay_level as u16 {
                    self.adsr_phase = AdsrPhase::Sustain;
                }
            },
            AdsrPhase::Sustain => {},
            AdsrPhase::Release => {
                if self.adsr_volume == 0 {
                    self.adsr_phase = AdsrPhase::Off;
                }
            },
            AdsrPhase::Off => {},
        }
    }
}

/// The GPU: its beam counters and video memory.
#[derive(Debug)]
pub struct Ps1Gpu {
    pub vram: Vec<u8>,
    pub scanline: u16,
    pub cycle: u16,
    pub frame: u64,
    pub display_enabled: bool,
}

impl Ps1Gpu {
    /// Whether the GPU is at its power-on state: counters cleared, the
    /// display enabled and the video memory zeroed.
    pub open spec fn powered_on(self) -> bool {
        &&& self == (Ps1Gpu {
            vram: self.vram,
            scanline: 0,
            cycle: 0,
            frame: 0,
            display_enabled: true,
        })
        &&& self.vram@ == Seq::new(0x100000, |i: int| 0u8)
    }

    /// The whole GPU state after one cycle.
    pub open spec fn stepped_gpu(self) -> Ps1Gpu {
        let c = u16_specs::wrapping_add(self.cycle, 1);
        if c >= 3413 {
            let sl = u16_specs::wrapping_add(self.scanline, 1);
            if sl >= 263 {
                Ps1Gpu {
                    cycle: 0,
                    scanline: 0,
                    frame: u64_specs::wrapping_add(self.frame, 1),
                    ..self
                }
            } else {
                Ps1Gpu { cycle: 0, scanline: sl, ..self }
            }
        } else {
            Ps1Gpu { cycle: c, ..self }
        }
    }

    /// A GPU at power-on.
    pub fn new() -> (r: Ps1Gpu)
        ensures
            r.powered_on(),
    {
        let r = Ps1Gpu {
            vram: crate::memory::zero_bytes(0x100000),
            scanline: 0,
            cycle: 0,
            frame: 0,
            display_enabled: true,
        };
        proof {
            assert(r.vram@ =~= Seq::new(0x100000, |i: int| 0u8));
        }
        r
    }

    /// One GPU cycle: 3413 cycles to a scanline, 263 scanlines to a frame.
    pub fn step(&mut self) -> (r: EmuliteResult<()>)
        ensures
            r is Ok,
            *final(self) == old(self).stepped_gpu(),
    {
        self.cycle = self.cycle.wrapping_add(1);
        if self.cycle >= 3413 {
            self.cycle = 0;
            self.scanline = self.scanline.wrapping_add(1);
            if self.scanline >= 263 {
                self.scanline = 0;
                self.frame = self.frame.wrapping_add(1);
            }
        }
        Ok(())
    }

    /// Power-on reset.
    pub fn reset(&mut self)
        ensures
            final(self).powered_on(),
    {
        *self = Ps1Gpu::new();
    }
}

/// The SPU: twenty-four voices.
#[derive(Debug)]
pub struct Ps1Spu {
    pub voices: [SpuVoice; 24],
}

impl Ps1Spu {
    /// An SPU at power-on: every voice silent.
    pub fn new() -> (r: Ps1Spu)
        ensures
            forall|i: int| 0 <= i < 24 ==> r.voices@[i] == (SpuVoice {
                attack_level: 0,
                decay_level: 0,
                sustain_level: 0,
                adsr_phase: AdsrPhase::Off,
                adsr_volume: 0,
                key_on: false,
                key_off: false,
            }),
    {
        let r = Ps1Spu { voices: [SpuVoice::new(); 24] };
        r
    }

    /// One SPU tick: every voice's envelope advances.
    pub fn step(&mut self) -> (r: EmuliteResult<()>)
        ensures
            r is Ok,
            forall|i: int|
                0 <= i < 24 ==> final(self).voices@[i] == voice_stepped(
                    #[trigger] old(self).voices@[i],
                ),
    {
        let mut i: usize = 0;
        while i < 24
            invariant
                i <= 24,
                forall|k: int|
                    0 <= k < i ==> self.voices@[k] == voice_stepped(#[trigger] old(self).voices@[k]),
                forall|k: int| i <= k < 24 ==> self.voices@[k] == old(self).voices@[k],
            decreases 24 - i,
        {
            let mut v = self.voices[i];
            v.step();
            self.voices[i] = v;
            i = i + 1;
        }
        Ok(())
    }

    /// Power-on reset.
    pub fn reset(&mut self)
        ensures
            forall|i: int| 0 <= i < 24 ==> final(self).voices@[i] == SpuVoice::silent(),
    {
        *self = Ps1Spu::new();
    }
}

/// The CD-ROM drive's coarse state.
#[derive(Debug, Clone, Copy, PartialEq, Eq, Structural)]
pub enum DriveState {
    Idle,
    Reading,
    Seeking,
    Spinning,
    Fault,
}

/// The CD-ROM drive: its state and sector position.
#[derive(Debug, Clone, Copy, PartialEq, Eq, Structural)]
pub struct Ps1Cdrom {
    pub drive_state: DriveState,
    pub current_sector: u32,
    pub total_sectors: u32,
}

impl Ps1Cdrom {
    /// An idle drive.
    pub fn new() -> (r: Ps1Cdrom)
        ensures
            r == (Ps1Cdrom { drive_state: DriveState::Idle, current_sector: 0, total_sectors: 0 }),
    {
        Ps1Cdrom { drive_state: DriveState::Idle, current_sector: 0, total_sectors: 0 }
    }

    /// The whole drive state after one tick.
    pub open spec fn stepped_drive(self) -> Ps1Cdrom {
        if self.drive_state == DriveState::Reading {
            let sec = vstd::wrapping::u32_specs::wrapping_add(self.current_sector, 1);
            Ps1Cdrom {
                current_sector: sec,
                drive_state: if sec >= self.total_sectors {
                    DriveState::Idle
                } else {
                    DriveState::Reading
                },
                ..self
            }
        } else {
            self
        }
    }

    /// One drive tick: a reading drive advances a sector and idles at the
    /// end of the disc.
    pub fn step(&mut self) -> (r: EmuliteResult<()>)
        ensures
            r is Ok,
            *final(self) == old(self).stepped_drive(),
    {
        match self.drive_state {
            DriveState::Reading => {
                self.current_sector = self.current_sector.wrapping_add(1);
                if self.current_sector >= self.total_sectors {
                    self.drive_state = DriveState::Idle;
                }
            },
            _ => {},
        }
        Ok(())
    }

    /// Power-on reset.
    pub fn reset(&mut self)
        ensures
            *final(self) == (Ps1Cdrom {
                drive_state: DriveState::Idle,
                current_sector: 0,
                total_sectors: 0,
            }),
    {
        *self = Ps1Cdrom::new();
    }
}

/// The PlayStation platform.
#[derive(Debug)]
pub struct Ps1 {
    /// The platform's CPU.
    pub cpu: Cpu,
    /// The bus carrying the work RAM and device windows.
    pub memory: MemoryMapper,
    /// The loaded image, if any.
    pub rom: Option<Vec<u8>>,
    /// The graphics processing unit.
    pub gpu: Ps1Gpu,
    /// The sound processing unit.
    pub spu: Ps1Spu,
    /// The CD-ROM drive.
    pub cdrom: Ps1Cdrom,
    /// The decoded disc header.
    pub header: PsHeader,
    /// The decoded disc region.
    pub region: PsRegion,
    /// The cycle counter.
    pub cycles: u64,
}

impl Ps1 {
    /// Whether the platform is in a consistent state: the CPU is the MIPS
    /// it was built with.
    pub open spec fn wf(self) -> bool {
        self.cpu_view() is Mips
    }

    /// The CPU's mathematical image.
    pub open spec fn cpu_view(self) -> CpuV {
        self.cpu@
    }

    /// The cycle counter, as a spec value.
    pub open spec fn cycles_spec(self) -> u64 {
        self.cycles
    }

    /// The power-on state: the MIPS CPU at its initial state over a zeroed
    /// 256 MiB space, the bus holding exactly the 2 MiB RAM at `0x0` and
    /// the 512 KiB BIOS window at `0x1FC00000`, the GPU, SPU and drive at
    /// power-on, a blank header, the NTSC region, no image and a zero
    /// cycle counter.
    pub open spec fn powered_on(self) -> bool {
        &&& self.cpu@ == CpuV::Mips(
            crate::cpu::mips::MipsV::initial(Seq::new(0x10000000, |i: int| 0u8)),
        )
        &&& self.memory@.size == 0x20000000
        &&& self.memory@.devices =~= seq![
            DeviceEntryV {
                name: "RAM"@,
                device: DeviceV {
                    kind: DeviceKind::Ram,
                    data: Seq::new(0x200000, |i: int| 0u8),
                    start: 0,
                    name: "RAM"@,
                },
            },
            DeviceEntryV {
                name: "BIOS"@,
                device: DeviceV {
                    kind: DeviceKind::Ram,
                    data: Seq::new(0x80000, |i: int| 0u8),
                    start: 0x1FC00000,
                    name: "BIOS"@,
                },
            },
        ]
        &&& self.memory@.regions =~= seq![
            RegionV {
                start: 0,
                end: 0x1FFFFF,
                access: MemoryAccess::ReadWrite,
                name: "RAM"@,
                device: Some("RAM"@),
            },
            RegionV {
                start: 0x1FC00000,
                end: 0x1FC7FFFF,
                access: MemoryAccess::ReadWrite,
                name: "BIOS"@,
                device: Some("BIOS"@),
            },
        ]
        &&& self.memory@.wf()
        &&& self.rom is None
        &&& self.gpu.powered_on()
        &&& (forall|i: int| 0 <= i < 24 ==> self.spu.voices@[i] == SpuVoice::silent())
        &&& self.cdrom == (Ps1Cdrom {
            drive_state: DriveState::Idle,
            current_sector: 0,
            total_sectors: 0,
        })
        &&& self.header.system_id@.len() == 0
        &&& self.header.title@.len() == 0
        &&& self.header.publisher@.len() == 0
        &&& self.header.disc_id@.len() == 0
        &&& self.header.disc_type == 0
        &&& self.header.region == 0
        &&& self.header.version == 0
        &&& self.region == PsRegion::Ntsc
        &&& self.cycles == 0
    }

    /// What one platform step leaves: on a CPU fault, the fault's error
    /// with only the CPU changed (per its step); otherwise the CPU, GPU,
    /// SPU and drive each advanced once, the cycle counter up by one, and
    /// everything else unchanged.
    pub open spec fn step_relation(pre: Ps1, post: Ps1, r: EmuliteResult<()>) -> bool {
        let (cpu_post, fault) = pre.cpu@.step_spec();
        match fault {
            Some(f) => r matches Err(e) && crate::cpu::fault_matches(e, f) && post == (Ps1 {
                cpu: post.cpu,
                ..pre
            }) && post.cpu@ == cpu_post,
            None => {
                &&& r is Ok
                &&& post == (Ps1 {
                    cpu: post.cpu,
                    gpu: post.gpu,
                    spu: post.spu,
                    cdrom: post.cdrom,
                    cycles: u64_specs::wrapping_add(pre.cycles, 1),
                    ..pre
                })
                &&& post.cpu@ == cpu_post
                &&& post.gpu == pre.gpu.stepped_gpu()
                &&& (forall|i: int|
                    0 <= i < 24 ==> post.spu.voices@[i] == voice_stepped(
                        #[trigger] pre.spu.voices@[i],
                    ))
                &&& post.cdrom == pre.cdrom.stepped_drive()
            },
        }
    }

    /// What a platform reset leaves: the CPU at its power-on reset, every
    /// chip at power-on, the cycle counter cleared, everything else
    /// unchanged.
    pub open spec fn reset_relation(pre: Ps1, post: Ps1, r: EmuliteResult<()>) -> bool {
        &&& r is Ok
        &&& post == (Ps1 {
            cpu: post.cpu,
            gpu: post.gpu,
            spu: post.spu,
            cdrom: post.cdrom,
            cycles: 0,
            ..pre
        })
        &&& post.cpu@ == pre.cpu@.reset_spec()
        &&& post.gpu.powered_on()
        &&& (forall|i: int| 0 <= i < 24 ==> post.spu.voices@[i] == SpuVoice::silent())
        &&& post.cdrom == (Ps1Cdrom {
            drive_state: DriveState::Idle,
            current_sector: 0,
            total_sectors: 0,
        })
    }

    /// Whether a disc image must load on this platform: at least one
    /// sector with a documented region byte.
    pub open spec fn loadable(pre: Ps1, d: Seq<u8>) -> bool {
        d.len() >= 2048 && region_of(d[0x0E]) is Some
    }

    /// Whether the platform holds `data` as its loaded image.
    pub open spec fn holds_image(self, data: Seq<u8>) -> bool {
        self.rom matches Some(v) && v@ == data
    }

    /// What loading a disc image leaves: an image short of one sector or
    /// with an unknown region byte fails without a change; success decodes
    /// the header and stores the image; an image that must load does.
    pub open spec fn load_relation(
        pre: Ps1,
        post: Ps1,
        rom_data: Seq<u8>,
        r: EmuliteResult<()>,
    ) -> bool {
        &&& (rom_data.len() < 2048 ==> (r matches Err(e) && e matches EmuliteError::InvalidRom(m)
            && m@ == "ROM too small"@ && post == pre))
        &&& (rom_data.len() >= 2048 && region_of(rom_data[0x0E]) is None ==> (r matches Err(e)
            && e matches EmuliteError::InvalidRom(m) && post == pre))
        &&& (r is Ok ==> ({
            &&& rom_data.len() >= 2048
            &&& (region_of(rom_data[0x0E]) matches Some(reg) && post.region == reg)
            &&& post.header.system_id@ == rom_data.subrange(0x00, 0x0A)
            &&& post.header.title@ == rom_data.subrange(0x10, 0x20)
            &&& (post.rom matches Some(v) && v@ == rom_data)
            &&& (pre.wf() ==> post.wf())
        }))
        &&& (Ps1::loadable(pre, rom_data) ==> r is Ok)
    }

    /// A PlayStation at power-on: a MIPS R3000A, the 2 MiB work RAM and
    /// the 512 KiB BIOS window on the bus, cleared chips and no disc.
    pub fn new() -> (r: EmuliteResult<Ps1>)
        ensures
            r matches Ok(p) && p.wf() && p.cycles_spec() == 0 && p.powered_on(),
    {
        proof {
            reveal_strlit("mips");
            reveal_strlit("6502");
            reveal_strlit("mos6502");
            reveal_strlit("68000");
            reveal_strlit("m68k");
            assert("mips"@.len() == 4 && "6502"@.len() == 4 && "mos6502"@.len() == 7 && "68000"@.len()
                == 5 && "m68k"@.len() == 4);
            assert("mips"@[0] == 'm' && "6502"@[0] == '6' && "m68k"@[0] == 'm' && "m68k"@[1] == '6');
            assert("mips"@[1] == 'i');
            assert(crate::text::ascii_lower_seq("mips"@) =~= "mips"@);
        }
        let cpu = match CpuFactory::create("mips") {
            Ok(c) => c,
            Err(e) => {
                return Err(e);
            },
        };
        let mut memory = MemoryMapper::new(0x20000000);
        let ram = RamDevice::new(0x200000, 0x00000000, String::from_str("RAM"));
        match memory.add_device(String::from_str("RAM"), MemoryDevice::Ram(ram)) {
            Ok(_) => {},
            Err(e) => {
                return Err(e);
            },
        }
        let bios = RamDevice::new(0x80000, 0x1FC00000, String::from_str("BIOS"));
        match memory.add_device(String::from_str("BIOS"), MemoryDevice::Ram(bios)) {
            Ok(_) => {},
            Err(e) => {
                return Err(e);
            },
        }
        proof {
            let ram_entry = DeviceEntryV {
                name: "RAM"@,
                device: DeviceV {
                    kind: DeviceKind::Ram,
                    data: Seq::new(0x200000, |i: int| 0u8),
                    start: 0,
                    name: "RAM"@,
                },
            };
            let bios_entry = DeviceEntryV {
                name: "BIOS"@,
                device: DeviceV {
                    kind: DeviceKind::Ram,
                    data: Seq::new(0x80000, |i: int| 0u8),
                    start: 0x1FC00000,
                    name: "BIOS"@,
                },
            };
            let ram_region = RegionV {
                start: 0,
                end: 0x1FFFFF,
                access: MemoryAccess::ReadWrite,
                name: "RAM"@,
                device: Some("RAM"@),
            };
            let bios_region = RegionV {
                start: 0x1FC00000,
                end: 0x1FC7FFFF,
                access: MemoryAccess::ReadWrite,
                name: "BIOS"@,
                device: Some("BIOS"@),
            };
            assert(memory@.devices =~= Seq::<DeviceEntryV>::empty().push(ram_entry).push(
                bios_entry,
            ));
            let first = crate::memory::insert_sorted(Seq::<RegionV>::empty(), ram_region);
            assert(first =~= seq![ram_region]);
            assert(first.drop_first() =~= Seq::<RegionV>::empty());
            assert(crate::memory::insert_sorted(first.drop_first(), bios_region) =~= seq![
                bios_region,
            ]);
            assert(crate::memory::insert_sorted(first, bios_region) =~= seq![
                ram_region,
                bios_region,
            ]);
            assert(memory@.regions =~= seq![ram_region, bios_region]);
        }
        Ok(
            Ps1 {
                cpu,
                memory,
                rom: None,
                gpu: Ps1Gpu::new(),
                spu: Ps1Spu::new(),
                cdrom: Ps1Cdrom::new(),
                header: PsHeader::new(),
                region: PsRegion::Ntsc,
                cycles: 0,
            },
        )
    }

    /// Loads a disc image: the size is validated, the header decoded, the
    /// region checked, and the CPU reset.
    pub fn load_rom(&mut self, rom_data: Vec<u8>) -> (r: EmuliteResult<()>)
        ensures
            Ps1::load_relation(*old(self), *final(self), rom_data@, r),
    {
        if rom_data.len() < 2048 {
            return Err(EmuliteError::InvalidRom(String::from_str("ROM too small")));
        }
        let header = PsHeader::parse(&rom_data);
        let region = match region_from_byte(header.region) {
            Ok(reg) => reg,
            Err(e) => {
                return Err(e);
            },
        };
        self.header = header;
        self.region = region;
        match self.cpu.reset() {
            Ok(_) => {},
            Err(e) => {
                return Err(e);
            },
        }
        self.cycles = 0;
        self.rom = Some(rom_data);
        Ok(())
    }

    /// One platform step: the CPU, GPU, SPU and CD-ROM each advance once.
    pub fn step(&mut self) -> (r: EmuliteResult<()>)
        ensures
            Ps1::step_relation(*old(self), *final(self), r),
    {
        match self.cpu.step() {
            Ok(_) => {},
            Err(e) => {
                return Err(e);
            },
        }
        self.cycles = self.cycles.wrapping_add(1);
        let _ = self.gpu.step();
        let _ = self.spu.step();
        let _ = self.cdrom.step();
        Ok(())
    }

    /// Resets the CPU and every chip and clears the cycle counter.
    pub fn reset(&mut self) -> (r: EmuliteResult<()>)
        ensures
            Ps1::reset_relation(*old(self), *final(self), r),
            old(self).wf() ==> final(self).wf(),
    {
        let _ = self.cpu.reset();
        self.gpu.reset();
        self.spu.reset();
        self.cdrom.reset();
        self.cycles = 0;
        Ok(())
    }

    /// The platform's display name.
    pub fn name(&self) -> (r: &'static str)
        ensures
            r@ == "PlayStation"@,
    {
        "PlayStation"
    }

    /// The platform's version string.
    pub fn version(&self) -> (r: &'static str)
        ensures
            r@ == "1.0.0"@,
    {
        "1.0.0"
    }

    /// The platform's static description.
    pub fn info(&self) -> (r: PlatformInfo)
        ensures
            r.name@ == "PlayStation"@,
            r.cpu_type@ == "MIPS R3000A"@,
            r.memory_size == 0x200000,
            r.video_resolution == (320u32, 240u32),
            r.audio_channels == 24,
            r.supported_formats@.len() == 3,
            r.supported_formats@[0]@ == "iso"@,
            r.supported_formats@[1]@ == "bin"@,
            r.supported_formats@[2]@ == "img"@,
    {
        let mut formats: Vec<String> = Vec::new();
        formats.push(String::from_str("iso"));
        formats.push(String::from_str("bin"));
        formats.push(String::from_str("img"));
        PlatformInfo {
            name: String::from_str("PlayStation"),
            version: String::from_str("1.0.0"),
            cpu_type: String::from_str("MIPS R3000A"),
            memory_size: 0x200000,
            video_resolution: (320, 240),
            audio_channels: 24,
            supported_formats: formats,
        }
    }

    /// A read view of the platform's CPU.
    pub fn get_cpu(&self) -> (r: &Cpu)
        ensures
            r@ == self.cpu_view(),
    {
        &self.cpu
    }

    /// Saving state is not implemented.
    pub fn save_state(&self, _path: &str) -> (r: EmuliteResult<()>)
        ensures
            r matches Err(e) && e matches EmuliteError::UnsupportedPlatform(m) && m@
                == "Save state not implemented"@,
    {
        Err(EmuliteError::UnsupportedPlatform(String::from_str("Save state not implemented")))
    }

    /// Loading state is not implemented.
    pub fn load_state(&mut self, _path: &str) -> (r: EmuliteResult<()>)
        ensures
            r matches Err(e) && e matches EmuliteError::UnsupportedPlatform(m) && m@
                == "Load state not implemented"@,
    {
        Err(EmuliteError::UnsupportedPlatform(String::from_str("Load state not implemented")))
    }

    /// A diagnostic test pattern at the PlayStation resolution.
    pub fn get_frame_data(&self) -> (r: EmuliteResult<Vec<u8>>)
        ensures
            r matches Ok(f) && f@.len() == 320 * 240 * 4 && forall|i: int|
                0 <= i < f@.len() ==> f@[i] == pattern_byte(320, 240, i),
    {
        Ok(test_pattern_frame(320, 240))
    }
}

} // verus!
