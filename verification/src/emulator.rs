//! The orchestrator: platform detection from image bytes, and the
//! emulator shell that owns the selected platform and drives it.

use vstd::prelude::*;

use crate::error::{EmuliteError, EmuliteResult};
use crate::platforms::{
    is_platform_kind, platform_kind_for, platform_load_relation, platform_reset_relation,
    platform_step_relation, Platform, PlatformFactory,
};

verus! {

broadcast use vstd::string::group_string_axioms;

/// A snapshot of the emulator for debuggers and front-ends.
#[derive(Debug)]
pub struct EmulatorState {
    pub running: bool,
    pub platform_name: String,
    pub cpu_registers: Vec<u32>,
    pub memory_dump: Vec<u8>,
    pub current_instruction: String,
}

/// A breakpoint a front-end can hold.
#[derive(Debug)]
pub struct Breakpoint {
    pub address: u32,
    pub enabled: bool,
    pub description: String,
}

/// Whether a byte sequence begins with the iNES magic `NES\x1A` and is at
/// least one header long.
pub open spec fn has_nes_magic(d: Seq<u8>) -> bool {
    d.len() >= 16 && d[0] == 0x4E && d[1] == 0x45 && d[2] == 0x53 && d[3] == 0x1A
}

/// The offset of the SNES title bank the size-based probe looks at.
pub open spec fn snes_probe_offset(len: int) -> int {
    if len >= 0x8000 {
        0x7FC0
    } else {
        0x7FB0
    }
}

/// Whether the 21 title bytes at the probe offset hold any non-zero byte.
pub open spec fn snes_title_nonzero(d: Seq<u8>) -> bool {
    exists|i: int|
        snes_probe_offset(d.len() as int) <= i < snes_probe_offset(d.len() as int) + 21
            && 0 <= i < d.len() && d[i] != 0
}

/// Whether the size-based SNES probe applies and fires: the image reaches
/// the probe window and some title byte is non-zero.
pub open spec fn snes_probe_hits(d: Seq<u8>) -> bool {
    d.len() >= 0x7FC0 && snes_probe_offset(d.len() as int) + 21 <= d.len() && snes_title_nonzero(d)
}

/// The platform name the header-and-extension detector yields: the iNES
/// magic wins, then the SNES title probe, then the PlayStation executable
/// marker, then the extension map, with `.bin` classified by size (at most
/// 1 MiB reads as a cartridge image); anything else is unrecognised.
pub open spec fn detect_spec(ext: Seq<char>, d: Seq<u8>) -> Option<Seq<char>> {
    if has_nes_magic(d) {
        Some("nes"@)
    } else if snes_probe_hits(d) {
        Some("snes"@)
    } else if has_psx_marker(d) {
        Some("ps1"@)
    } else if ext == "a26"@ {
        Some("atari2600"@)
    } else if ext == "nes"@ {
        Some("nes"@)
    } else if ext == "smc"@ || ext == "sfc"@ {
        Some("snes"@)
    } else if ext == "iso"@ || ext == "img"@ {
        Some("ps1"@)
    } else if ext == "bin"@ {
        if d.len() <= 1048576 {
            Some("atari2600"@)
        } else {
            Some("ps1"@)
        }
    } else {
        None
    }
}

/// Detects the platform from an image and its (already lower-cased) file
/// extension, per the decision table in `detect_spec`; an unrecognised
/// image fails.
pub fn detect_platform(extension: &str, rom_data: &Vec<u8>) -> (r: EmuliteResult<String>)
    ensures
        match detect_spec(extension@, rom_data@) {
            Some(name) => r matches Ok(s) && s@ == name,
            None => r matches Err(e) && e matches EmuliteError::UnsupportedPlatform(m) && m@
                == "Cannot detect platform for file: "@ + extension@,
        },
{
    if rom_data.len() >= 16 && rom_data[0] == 0x4E && rom_data[1] == 0x45 && rom_data[2] == 0x53
        && rom_data[3] == 0x1A {
        return Ok(String::from_str("nes"));
    }
    if rom_data.len() >= 0x7FC0 {
        let header_offset: usize = if rom_data.len() >= 0x8000 {
            0x7FC0
        } else {
            0x7FB0
        };
        if header_offset + 21 <= rom_data.len() {
            let mut i: usize = header_offset;
            let mut nonzero = false;
            while i < header_offset + 21
                invariant
                    header_offset <= i <= header_offset + 21,
                    header_offset + 21 <= rom_data@.len(),
                    header_offset == snes_probe_offset(rom_data@.len() as int),
                    nonzero == (exists|k: int|
                        header_offset <= k < i && 0 <= k < rom_data@.len() && rom_data@[k] != 0),
                decreases header_offset + 21 - i,
            {
                if rom_data[i] != 0 {
                    proof {
                        assert(header_offset as int <= i as int && rom_data@[i as int] != 0);
                    }
                    nonzero = true;
                }
                i = i + 1;
            }
            if nonzero {
                proof {
                    assert(snes_probe_hits(rom_data@));
                }
                return Ok(String::from_str("snes"));
            }
            proof {
                assert(!snes_title_nonzero(rom_data@));
            }
        }
    }
    if rom_data.len() >= 0x808 && rom_data[0x800] == 0x50 && rom_data[0x801] == 0x53
        && rom_data[0x802] == 0x2D && rom_data[0x803] == 0x58 && rom_data[0x804] == 0x20
        && rom_data[0x805] == 0x45 && rom_data[0x806] == 0x58 && rom_data[0x807] == 0x45 {
        return Ok(String::from_str("ps1"));
    }
    if eq_str(extension, "a26") {
        Ok(String::from_str("atari2600"))
    } else if eq_str(extension, "nes") {
        Ok(String::from_str("nes"))
    } else if eq_str(extension, "smc") || eq_str(extension, "sfc") {
        Ok(String::from_str("snes"))
    } else if eq_str(extension, "iso") || eq_str(extension, "img") {
        Ok(String::from_str("ps1"))
    } else if eq_str(extension, "bin") {
        if rom_data.len() <= 1048576 {
            Ok(String::from_str("atari2600"))
        } else {
            Ok(String::from_str("ps1"))
        }
    } else {
        Err(
            EmuliteError::UnsupportedPlatform(
                String::from_str("Cannot detect platform for file: ").concat(extension),
            ),
        )
    }
}

/// Character-for-character equality of two string slices.
fn eq_str(a: &str, b: &str) -> (r: bool)
    ensures
        r == (a@ == b@),
{
    crate::text::str_eq(a, b)
}

/// Whether the eight bytes at `0x800` spell the PlayStation executable
/// marker `PS-X EXE`.
pub open spec fn has_psx_marker(d: Seq<u8>) -> bool {
    d.len() >= 0x808 && d[0x800] == 0x50 && d[0x801] == 0x53 && d[0x802] == 0x2D && d[0x803]
        == 0x58 && d[0x804] == 0x20 && d[0x805] == 0x45 && d[0x806] == 0x58 && d[0x807] == 0x45
}

/// The platform name the header-only detector yields: the iNES magic,
/// then a SNES ROM-type probe, then the PlayStation executable marker,
/// and a cartridge-sized fallback; an image below one header fails.
pub open spec fn detect_header_spec(d: Seq<u8>) -> Option<Seq<char>> {
    if d.len() < 16 {
        None
    } else if has_nes_magic(d) {
        Some("nes"@)
    } else if d.len() >= 0x8000 && d[0x7FD5] & 0xF0 == 0x20 {
        Some("snes"@)
    } else if has_psx_marker(d) {
        Some("ps1"@)
    } else {
        Some("atari2600"@)
    }
}

/// Detects the platform from the image bytes alone, per the decision table
/// in `detect_header_spec`.
pub fn detect_platform_from_header(rom_data: &Vec<u8>) -> (r: EmuliteResult<String>)
    ensures
        match detect_header_spec(rom_data@) {
            Some(name) => r matches Ok(s) && s@ == name,
            None => r matches Err(e) && e matches EmuliteError::InvalidRom(m) && m@
                == "ROM too small"@,
        },
{
    if rom_data.len() < 16 {
        return Err(EmuliteError::InvalidRom(String::from_str("ROM too small")));
    }
    if rom_data[0] == 0x4E && rom_data[1] == 0x45 && rom_data[2] == 0x53 && rom_data[3] == 0x1A {
        return Ok(String::from_str("nes"));
    }
    if rom_data.len() >= 0x8000 && rom_data[0x7FD5] & 0xF0 == 0x20 {
        return Ok(String::from_str("snes"));
    }
    if rom_data.len() >= 0x808 && rom_data[0x800] == 0x50 && rom_data[0x801] == 0x53
        && rom_data[0x802] == 0x2D && rom_data[0x803] == 0x58 && rom_data[0x804] == 0x20
        && rom_data[0x805] == 0x45 && rom_data[0x806] == 0x58 && rom_data[0x807] == 0x45 {
        return Ok(String::from_str("ps1"));
    }
    Ok(String::from_str("atari2600"))
}

/// The emulator shell: the selected platform and the run flag.
#[derive(Debug)]
pub struct Emulator {
    /// The platform a loaded ROM selected; a placeholder before that.
    pub platform: Platform,
    /// Whether the emulator is running.
    pub running: bool,
}

impl Emulator {
    /// Whether the emulator is running, as a spec value.
    pub open spec fn running_spec(self) -> bool {
        self.running
    }

    /// An emulator with no platform selected, stopped.
    pub fn new() -> (r: EmuliteResult<Emulator>)
        ensures
            r matches Ok(e) && !e.running_spec() && e.platform is Placeholder,
    {
        Ok(Emulator { platform: PlatformFactory::create_placeholder(), running: false })
    }

    /// Loads a ROM image: the platform is detected from the image and its
    /// lower-cased extension when the hint asks for automatic detection,
    /// built by name, and handed the image.  On success the emulator holds
    /// a platform of the selected family carrying the image; a failed
    /// detection or an unknown name leaves the emulator unchanged.
    pub fn load_rom(&mut self, rom_data: Vec<u8>, extension: &str, platform_hint: &str) -> (r:
        EmuliteResult<()>)
        requires
            rom_data@.len() <= 0x0800_0000,
        ensures
            ({
                let chosen = if platform_hint@ == "auto"@ {
                    detect_spec(extension@, rom_data@)
                } else {
                    Some(platform_hint@)
                };
                match chosen {
                    None => r matches Err(e) && e matches EmuliteError::UnsupportedPlatform(m)
                        && m@ == "Cannot detect platform for file: "@ + extension@ && *final(self)
                        == *old(self),
                    Some(name) => match platform_kind_for(name) {
                        None => (r matches Err(e) && e
                            matches EmuliteError::UnsupportedPlatform(m) && m@ == "Platform '"@
                            + name + "' is not supported"@) && *final(self) == *old(self),
                        Some(k) => {
                            &&& final(self).running == old(self).running
                            &&& is_platform_kind(&final(self).platform, k)
                            &&& (r is Ok ==> final(self).platform.holds_image(rom_data@))
                        },
                    },
                }
            }),
    {
        let platform_name: String = if eq_str(platform_hint, "auto") {
            match detect_platform(extension, &rom_data) {
                Ok(name) => name,
                Err(e) => {
                    return Err(e);
                },
            }
        } else {
            String::from_str(platform_hint)
        };
        let platform = match PlatformFactory::create(platform_name.as_str()) {
            Ok(p) => p,
            Err(e) => {
                return Err(e);
            },
        };
        self.platform = platform;
        self.platform.load_rom(rom_data)
    }

    /// Starts the emulator.
    pub fn start(&mut self) -> (r: EmuliteResult<()>)
        ensures
            r is Ok,
            final(self).running_spec(),
            final(self).platform == old(self).platform,
    {
        self.running = true;
        Ok(())
    }

    /// Stops the emulator.
    pub fn stop(&mut self)
        ensures
            !final(self).running_spec(),
            final(self).platform == old(self).platform,
    {
        self.running = false;
    }

    /// Pauses the emulator.
    pub fn pause(&mut self) -> (r: EmuliteResult<()>)
        ensures
            r is Ok,
            !final(self).running_spec(),
            final(self).platform == old(self).platform,
    {
        self.running = false;
        Ok(())
    }

    /// Resumes the emulator.
    pub fn resume(&mut self) -> (r: EmuliteResult<()>)
        ensures
            r is Ok,
            final(self).running_spec(),
            final(self).platform == old(self).platform,
    {
        self.running = true;
        Ok(())
    }

    /// Resets the platform, per its own reset relation.
    pub fn reset(&mut self) -> (r: EmuliteResult<()>)
        ensures
            platform_reset_relation(&old(self).platform, &final(self).platform, r),
            final(self).running == old(self).running,
    {
        self.platform.reset()
    }

    /// One emulation step: a no-op while stopped, one platform step (per
    /// its own step relation) otherwise.
    pub fn step(&mut self) -> (r: EmuliteResult<()>)
        ensures
            !old(self).running_spec() ==> r is Ok && *final(self) == *old(self),
            old(self).running_spec() ==> platform_step_relation(
                &old(self).platform,
                &final(self).platform,
                r,
            ) && final(self).running == old(self).running,
    {
        if !self.running {
            return Ok(());
        }
        self.platform.step()
    }

    /// A read view of the platform.
    pub fn platform_info(&self) -> (r: &Platform)
        ensures
            r == &self.platform,
    {
        &self.platform
    }

    /// A mutable view of the platform, for debugging.
    pub fn platform_mut(&mut self) -> (r: &mut Platform) {
        &mut self.platform
    }

    /// A snapshot of the emulator for front-ends.
    pub fn get_state(&self) -> (r: EmulatorState)
        ensures
            r.running == self.running_spec(),
    {
        EmulatorState {
            running: self.running,
            platform_name: self.platform.info().name,
            cpu_registers: Vec::new(),
            memory_dump: Vec::new(),
            current_instruction: String::from_str("NOP"),
        }
    }

    /// The current video frame from the platform.
    pub fn get_frame_data(&self) -> (r: EmuliteResult<Vec<u8>>) {
        self.platform.get_frame_data()
    }

    /// Whether the emulator is running.
    pub fn is_running(&self) -> (r: bool)
        ensures
            r == self.running_spec(),
    {
        self.running
    }

    /// Whether the emulator is paused.
    pub fn is_paused(&self) -> (r: bool)
        ensures
            r == !self.running_spec(),
    {
        !self.running
    }
}

} // verus!
