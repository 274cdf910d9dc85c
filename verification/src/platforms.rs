//! Per-platform orchestration: each platform composes one CPU, its memory
//! and its peripheral chips, and drives them in lock step.

use vstd::prelude::*;

use crate::cpu::Cpu;
use crate::error::{EmuliteError, EmuliteResult};
use crate::input::PadState;

pub mod atari2600;
pub mod nes;
pub mod ps1;
pub mod ps2;
pub mod ps3;
pub mod snes;

verus! {

broadcast use vstd::string::group_string_axioms;

/// Static description of a platform: names, memory size, video resolution,
/// audio channel count and accepted file extensions.  Descriptive only.
#[derive(Debug)]
pub struct PlatformInfo {
    pub name: String,
    pub version: String,
    pub cpu_type: String,
    pub memory_size: usize,
    pub video_resolution: (u32, u32),
    pub audio_channels: u8,
    pub supported_formats: Vec<String>,
}

/// One RGBA component of the diagnostic test pattern: a red ramp along x, a
/// green ramp along y, constant blue, opaque alpha.
pub open spec fn pattern_byte(width: int, height: int, i: int) -> u8 {
    let pixel = i / 4;
    let channel = i % 4;
    let x = pixel % width;
    let y = pixel / width;
    if channel == 0 {
        ((x * 255) / width) as u8
    } else if channel == 1 {
        ((y * 255) / height) as u8
    } else if channel == 2 {
        128
    } else {
        255
    }
}

/// Whether a frame result is the diagnostic RGBA test pattern at the
/// given resolution, every byte pinned.
pub open spec fn pattern_frame_ok(width: int, height: int, r: EmuliteResult<Vec<u8>>) -> bool {
    r matches Ok(f) && f@.len() == width * height * 4 && forall|i: int|
        0 <= i < f@.len() ==> f@[i] == pattern_byte(width, height, i)
}

/// Builds the diagnostic RGBA test pattern for the given resolution.
pub fn test_pattern_frame(width: usize, height: usize) -> (r: Vec<u8>)
    requires
        1 <= width <= 4096,
        1 <= height <= 4096,
    ensures
        r@.len() == width * height * 4,
        forall|i: int|
            0 <= i < r@.len() ==> r@[i] == pattern_byte(width as int, height as int, i),
{
    proof {
        assert(width * height <= 0x1000000) by (nonlinear_arith)
            requires
                1 <= width <= 4096 && 1 <= height <= 4096,
        ;
    }
    let mut frame: Vec<u8> = Vec::new();
    let total = width * height;
    let mut p: usize = 0;
    while p < total
        invariant
            p <= total,
            total == width * height,
            1 <= width <= 4096,
            1 <= height <= 4096,
            frame@.len() == p * 4,
            forall|i: int|
                0 <= i < frame@.len() ==> frame@[i] == pattern_byte(
                    width as int,
                    height as int,
                    i,
                ),
        decreases total - p,
    {
        let x = p % width;
        let y = p / width;
        proof {
            assert(p / width < height) by (nonlinear_arith)
                requires
                    p < width * height && 1 <= width,
            ;
        }
        frame.push(((x * 255) / width) as u8);
        frame.push(((y * 255) / height) as u8);
        frame.push(128);
        frame.push(255);
        proof {
            assert forall|i: int| 0 <= i < frame@.len() implies frame@[i] == pattern_byte(
                width as int,
                height as int,
                i,
            ) by {
                if i >= p * 4 {
                    assert(i / 4 == p);
                }
            }
        }
        p = p + 1;
    }
    frame
}

/// The stand-in platform held before a ROM selects a real one.
#[derive(Debug)]
pub struct PlaceholderPlatform;

impl PlaceholderPlatform {
    /// No ROM can be loaded before a platform is selected.
    pub fn load_rom(&mut self, _rom_data: Vec<u8>) -> (r: EmuliteResult<()>)
        ensures
            r matches Err(e) && e matches EmuliteError::UnsupportedPlatform(m) && m@
                == "No platform loaded"@,
    {
        Err(EmuliteError::UnsupportedPlatform(String::from_str("No platform loaded")))
    }

    /// Stepping the placeholder does nothing.
    pub fn step(&mut self) -> (r: EmuliteResult<()>)
        ensures
            r is Ok,
    {
        Ok(())
    }

    /// Resetting the placeholder does nothing.
    pub fn reset(&mut self) -> (r: EmuliteResult<()>)
        ensures
            r is Ok,
    {
        Ok(())
    }

    /// The placeholder's name.
    pub fn name(&self) -> (r: &'static str)
        ensures
            r@ == "placeholder"@,
    {
        "placeholder"
    }

    /// The placeholder's version.
    pub fn version(&self) -> (r: &'static str)
        ensures
            r@ == "0.0.0"@,
    {
        "0.0.0"
    }

    /// The placeholder's description: no CPU, no memory, no video.
    pub fn info(&self) -> (r: PlatformInfo)
        ensures
            r.name@ == "placeholder"@,
            r.version@ == "0.0.0"@,
            r.cpu_type@ == "none"@,
            r.memory_size == 0,
            r.video_resolution == (0u32, 0u32),
            r.audio_channels == 0,
            r.supported_formats@.len() == 0,
    {
        PlatformInfo {
            name: String::from_str("placeholder"),
            version: String::from_str("0.0.0"),
            cpu_type: String::from_str("none"),
            memory_size: 0,
            video_resolution: (0, 0),
            audio_channels: 0,
            supported_formats: Vec::new(),
        }
    }

    /// The placeholder has no CPU to expose.
    pub fn get_cpu(&self) -> (r: Option<&Cpu>)
        ensures
            r is None,
    {
        None
    }

    /// A diagnostic test pattern at the placeholder resolution.
    pub fn get_frame_data(&self) -> (r: EmuliteResult<Vec<u8>>)
        ensures
            r matches Ok(f) && f@.len() == 256 * 240 * 4 && forall|i: int|
                0 <= i < f@.len() ==> f@[i] == pattern_byte(256, 240, i),
    {
        Ok(test_pattern_frame(256, 240))
    }
}

/// Any of the platforms, selected by name.
#[derive(Debug)]
pub enum Platform {
    Atari2600(atari2600::Atari2600),
    Nes(nes::Nes),
    Snes(snes::Snes),
    Ps1(ps1::Ps1),
    Ps2(ps2::Ps2),
    Ps3(ps3::Ps3),
    Placeholder(PlaceholderPlatform),
}


/// The platform families the factory can build.
pub ghost enum PlatformKind {
    Atari2600,
    Nes,
    Snes,
    Ps1,
    Ps2,
    Ps3,
}

/// The platform family a (case-insensitive) name selects, if any.
pub open spec fn platform_kind_for(name: Seq<char>) -> Option<PlatformKind> {
    let n = crate::text::ascii_lower_seq(name);
    if n == "atari2600"@ || n == "atari"@ {
        Some(PlatformKind::Atari2600)
    } else if n == "nes"@ || n == "nintendo"@ {
        Some(PlatformKind::Nes)
    } else if n == "snes"@ || n == "super nintendo"@ {
        Some(PlatformKind::Snes)
    } else if n == "ps1"@ || n == "playstation"@ {
        Some(PlatformKind::Ps1)
    } else if n == "ps2"@ || n == "playstation2"@ {
        Some(PlatformKind::Ps2)
    } else if n == "ps3"@ || n == "playstation3"@ {
        Some(PlatformKind::Ps3)
    } else {
        None
    }
}

/// Whether a platform value belongs to a family.
pub open spec fn is_platform_kind(p: &Platform, k: PlatformKind) -> bool {
    match k {
        PlatformKind::Atari2600 => p is Atari2600,
        PlatformKind::Nes => p is Nes,
        PlatformKind::Snes => p is Snes,
        PlatformKind::Ps1 => p is Ps1,
        PlatformKind::Ps2 => p is Ps2,
        PlatformKind::Ps3 => p is Ps3,
    }
}

/// What one step of whichever platform this is leaves, per that
/// platform's own step relation; stepping the placeholder does nothing.
pub open spec fn platform_step_relation(pre: &Platform, post: &Platform, r: EmuliteResult<()>) -> bool {
    match pre {
        Platform::Atari2600(p) => post matches Platform::Atari2600(q)
            && atari2600::Atari2600::step_relation(*p, *q, r),
        Platform::Nes(p) => post matches Platform::Nes(q) && nes::Nes::step_relation(*p, *q, r),
        Platform::Snes(p) => post matches Platform::Snes(q) && snes::Snes::step_relation(
            *p,
            *q,
            r,
        ),
        Platform::Ps1(p) => post matches Platform::Ps1(q) && ps1::Ps1::step_relation(*p, *q, r),
        Platform::Ps2(p) => post matches Platform::Ps2(q) && ps2::Ps2::step_relation(*p, *q, r),
        Platform::Ps3(p) => post matches Platform::Ps3(q) && ps3::Ps3::step_relation(*p, *q, r),
        Platform::Placeholder(_) => post is Placeholder && r is Ok,
    }
}

/// What a reset of whichever platform this is leaves, per that platform's
/// own reset relation; resetting the placeholder does nothing.
pub open spec fn platform_reset_relation(pre: &Platform, post: &Platform, r: EmuliteResult<()>) -> bool {
    match pre {
        Platform::Atari2600(p) => post matches Platform::Atari2600(q)
            && atari2600::Atari2600::reset_relation(*p, *q, r),
        Platform::Nes(p) => post matches Platform::Nes(q) && nes::Nes::reset_relation(*p, *q, r),
        Platform::Snes(p) => post matches Platform::Snes(q) && snes::Snes::reset_relation(
            *p,
            *q,
            r,
        ),
        Platform::Ps1(p) => post matches Platform::Ps1(q) && ps1::Ps1::reset_relation(*p, *q, r),
        Platform::Ps2(p) => post matches Platform::Ps2(q) && ps2::Ps2::reset_relation(*p, *q, r),
        Platform::Ps3(p) => post matches Platform::Ps3(q) && ps3::Ps3::reset_relation(*p, *q, r),
        Platform::Placeholder(_) => post is Placeholder && r is Ok,
    }
}

/// What loading an image into whichever platform this is leaves, per that
/// platform's own load relation; the placeholder refuses every image.
pub open spec fn platform_load_relation(
    pre: &Platform,
    post: &Platform,
    rom_data: Seq<u8>,
    r: EmuliteResult<()>,
) -> bool {
    match pre {
        Platform::Atari2600(p) => post matches Platform::Atari2600(q)
            && atari2600::Atari2600::load_relation(*p, *q, rom_data, r),
        Platform::Nes(p) => post matches Platform::Nes(q) && nes::Nes::load_relation(
            *p,
            *q,
            rom_data,
            r,
        ),
        Platform::Snes(p) => post matches Platform::Snes(q) && snes::Snes::load_relation(
            *p,
            *q,
            rom_data,
            r,
        ),
        Platform::Ps1(p) => post matches Platform::Ps1(q) && ps1::Ps1::load_relation(
            *p,
            *q,
            rom_data,
            r,
        ),
        Platform::Ps2(p) => post matches Platform::Ps2(q) && ps2::Ps2::load_relation(
            *p,
            *q,
            rom_data,
            r,
        ),
        Platform::Ps3(p) => post matches Platform::Ps3(q) && ps3::Ps3::load_relation(
            *p,
            *q,
            rom_data,
            r,
        ),
        Platform::Placeholder(_) => post is Placeholder && (r matches Err(e) && e
            matches EmuliteError::UnsupportedPlatform(m) && m@ == "No platform loaded"@),
    }
}

impl Platform {
    /// Loads a ROM image into whichever platform this is; the image is
    /// validated and the platform reset.
    pub fn load_rom(&mut self, rom_data: Vec<u8>) -> (r: EmuliteResult<()>)
        requires
            rom_data@.len() <= 0x0800_0000,
        ensures
            platform_load_relation(old(self), final(self), rom_data@, r),
    {
        match self {
            Platform::Atari2600(p) => p.load_rom(rom_data),
            Platform::Nes(p) => p.load_rom(rom_data),
            Platform::Snes(p) => p.load_rom(rom_data),
            Platform::Ps1(p) => p.load_rom(rom_data),
            Platform::Ps2(p) => p.load_rom(rom_data),
            Platform::Ps3(p) => p.load_rom(rom_data),
            Platform::Placeholder(p) => p.load_rom(rom_data),
        }
    }

    /// Advances the CPU by one instruction and every peripheral chip by its
    /// cycle ratio.
    pub fn step(&mut self) -> (r: EmuliteResult<()>)
        ensures
            platform_step_relation(old(self), final(self), r),
    {
        match self {
            Platform::Atari2600(p) => p.step(),
            Platform::Nes(p) => p.step(),
            Platform::Snes(p) => p.step(),
            Platform::Ps1(p) => p.step(),
            Platform::Ps2(p) => p.step(),
            Platform::Ps3(p) => p.step(),
            Platform::Placeholder(p) => p.step(),
        }
    }

    /// Resets the CPU and every peripheral chip.
    pub fn reset(&mut self) -> (r: EmuliteResult<()>)
        ensures
            platform_reset_relation(old(self), final(self), r),
    {
        match self {
            Platform::Atari2600(p) => p.reset(),
            Platform::Nes(p) => p.reset(),
            Platform::Snes(p) => p.reset(),
            Platform::Ps1(p) => p.reset(),
            Platform::Ps2(p) => p.reset(),
            Platform::Ps3(p) => p.reset(),
            Platform::Placeholder(p) => p.reset(),
        }
    }

    /// The platform's display name.
    pub fn name(&self) -> (r: &str) {
        match self {
            Platform::Atari2600(p) => p.name(),
            Platform::Nes(p) => p.name(),
            Platform::Snes(p) => p.name(),
            Platform::Ps1(p) => p.name(),
            Platform::Ps2(p) => p.name(),
            Platform::Ps3(p) => p.name(),
            Platform::Placeholder(p) => p.name(),
        }
    }

    /// The platform's version string.
    pub fn version(&self) -> (r: &str) {
        match self {
            Platform::Atari2600(p) => p.version(),
            Platform::Nes(p) => p.version(),
            Platform::Snes(p) => p.version(),
            Platform::Ps1(p) => p.version(),
            Platform::Ps2(p) => p.version(),
            Platform::Ps3(p) => p.version(),
            Platform::Placeholder(p) => p.version(),
        }
    }

    /// The platform's static description.
    pub fn info(&self) -> (r: PlatformInfo) {
        match self {
            Platform::Atari2600(p) => p.info(),
            Platform::Nes(p) => p.info(),
            Platform::Snes(p) => p.info(),
            Platform::Ps1(p) => p.info(),
            Platform::Ps2(p) => p.info(),
            Platform::Ps3(p) => p.info(),
            Platform::Placeholder(p) => p.info(),
        }
    }

    /// Whether the platform holds `data` as its loaded image; the
    /// placeholder holds none.
    pub open spec fn holds_image(&self, data: Seq<u8>) -> bool {
        match self {
            Platform::Atari2600(p) => p.holds_image(data),
            Platform::Nes(p) => p.holds_image(data),
            Platform::Snes(p) => p.holds_image(data),
            Platform::Ps1(p) => p.holds_image(data),
            Platform::Ps2(p) => p.holds_image(data),
            Platform::Ps3(p) => p.holds_image(data),
            Platform::Placeholder(_) => false,
        }
    }

    /// Whether the platform is at its power-on state: the CPU, the bus
    /// and every chip exactly as the platform's constructor builds them;
    /// the placeholder has no such state.
    pub open spec fn powered_on(&self) -> bool {
        match self {
            Platform::Atari2600(p) => p.powered_on(),
            Platform::Nes(p) => p.powered_on(),
            Platform::Snes(p) => p.powered_on(),
            Platform::Ps1(p) => p.powered_on(),
            Platform::Ps2(p) => p.powered_on(),
            Platform::Ps3(p) => p.powered_on(),
            Platform::Placeholder(_) => false,
        }
    }

    /// A read view of the platform's CPU; the placeholder has none.
    pub fn get_cpu(&self) -> (r: Option<&Cpu>)
        ensures
            match self {
                Platform::Atari2600(p) => r matches Some(c) && c@ == p.cpu@,
                Platform::Nes(p) => r matches Some(c) && c@ == p.cpu@,
                Platform::Snes(p) => r matches Some(c) && c@ == p.cpu@,
                Platform::Ps1(p) => r matches Some(c) && c@ == p.cpu@,
                Platform::Ps2(p) => r matches Some(c) && c@ == p.cpu@,
                Platform::Ps3(p) => r matches Some(c) && c@ == p.cpu@,
                Platform::Placeholder(_) => r is None,
            },
    {
        match self {
            Platform::Atari2600(p) => Some(p.get_cpu()),
            Platform::Nes(p) => Some(p.get_cpu()),
            Platform::Snes(p) => Some(p.get_cpu()),
            Platform::Ps1(p) => Some(p.get_cpu()),
            Platform::Ps2(p) => Some(p.get_cpu()),
            Platform::Ps3(p) => Some(p.get_cpu()),
            Platform::Placeholder(p) => p.get_cpu(),
        }
    }

    /// The current video frame as RGBA bytes at the platform's resolution.
    pub fn get_frame_data(&self) -> (r: EmuliteResult<Vec<u8>>)
        ensures
            match self {
                Platform::Atari2600(p) => p.frame_relation(r),
                Platform::Nes(_) => pattern_frame_ok(256, 240, r),
                Platform::Snes(_) => pattern_frame_ok(256, 224, r),
                Platform::Ps1(_) => pattern_frame_ok(320, 240, r),
                Platform::Ps2(_) => pattern_frame_ok(640, 480, r),
                Platform::Ps3(_) => pattern_frame_ok(1920, 1080, r),
                Platform::Placeholder(_) => pattern_frame_ok(256, 240, r),
            },
    {
        match self {
            Platform::Atari2600(p) => p.get_frame_data(),
            Platform::Nes(p) => p.get_frame_data(),
            Platform::Snes(p) => p.get_frame_data(),
            Platform::Ps1(p) => p.get_frame_data(),
            Platform::Ps2(p) => p.get_frame_data(),
            Platform::Ps3(p) => p.get_frame_data(),
            Platform::Placeholder(p) => p.get_frame_data(),
        }
    }

    /// Hands the platform the current controller state; platforms without
    /// controller registers ignore it.
    pub fn update_input(&mut self, joystick0: PadState, joystick1: PadState) -> (r: EmuliteResult<
        (),
    >)
        ensures
            r is Ok,
            match *old(self) {
                Platform::Atari2600(p) => *final(self) matches Platform::Atari2600(q)
                    && atari2600::Atari2600::input_relation(p, q, joystick0, joystick1, r),
                _ => *final(self) == *old(self),
            },
    {
        match self {
            Platform::Atari2600(p) => p.update_input(joystick0, joystick1),
            _ => Ok(()),
        }
    }
}

/// Constructs platforms by name.
pub struct PlatformFactory;

impl PlatformFactory {
    /// Builds the platform for a case-insensitive name; an unknown name
    /// fails, naming the platform asked for.
    pub fn create(platform_name: &str) -> (r: EmuliteResult<Platform>)
        ensures
            match platform_kind_for(platform_name@) {
                Some(k) => r matches Ok(p) && is_platform_kind(&p, k) && p.powered_on(),
                None => r matches Err(e) && e matches EmuliteError::UnsupportedPlatform(m) && m@
                    == "Platform '"@ + platform_name@ + "' is not supported"@,
            },
    {
        if crate::text::eq_lowered(platform_name, "atari2600") || crate::text::eq_lowered(
            platform_name,
            "atari",
        ) {
            match atari2600::Atari2600::new() {
                Ok(p) => Ok(Platform::Atari2600(p)),
                Err(e) => Err(e),
            }
        } else if crate::text::eq_lowered(platform_name, "nes") || crate::text::eq_lowered(
            platform_name,
            "nintendo",
        ) {
            match nes::Nes::new() {
                Ok(p) => Ok(Platform::Nes(p)),
                Err(e) => Err(e),
            }
        } else if crate::text::eq_lowered(platform_name, "snes") || crate::text::eq_lowered(
            platform_name,
            "super nintendo",
        ) {
            match snes::Snes::new() {
                Ok(p) => Ok(Platform::Snes(p)),
                Err(e) => Err(e),
            }
        } else if crate::text::eq_lowered(platform_name, "ps1") || crate::text::eq_lowered(
            platform_name,
            "playstation",
        ) {
            match ps1::Ps1::new() {
                Ok(p) => Ok(Platform::Ps1(p)),
                Err(e) => Err(e),
            }
        } else if crate::text::eq_lowered(platform_name, "ps2") || crate::text::eq_lowered(
            platform_name,
            "playstation2",
        ) {
            match ps2::Ps2::new() {
                Ok(p) => Ok(Platform::Ps2(p)),
                Err(e) => Err(e),
            }
        } else if crate::text::eq_lowered(platform_name, "ps3") || crate::text::eq_lowered(
            platform_name,
            "playstation3",
        ) {
            match ps3::Ps3::new() {
                Ok(p) => Ok(Platform::Ps3(p)),
                Err(e) => Err(e),
            }
        } else {
            Err(
                EmuliteError::UnsupportedPlatform(
                    String::from_str("Platform '").concat(platform_name).concat(
                        "' is not supported",
                    ),
                ),
            )
        }
    }

    /// The stand-in platform held before a ROM selects a real one.
    pub fn create_placeholder() -> (r: Platform)
        ensures
            r is Placeholder,
    {
        Platform::Placeholder(PlaceholderPlatform)
    }

    /// The platform names the factory recognises, in a fixed order.
    pub fn supported_platforms() -> (r: Vec<&'static str>)
        ensures
            r@.len() == 6,
            r@[0]@ == "atari2600"@,
            r@[1]@ == "nes"@,
            r@[2]@ == "snes"@,
            r@[3]@ == "ps1"@,
            r@[4]@ == "ps2"@,
            r@[5]@ == "ps3"@,
    {
        let mut v: Vec<&'static str> = Vec::new();
        v.push("atari2600");
        v.push("nes");
        v.push("snes");
        v.push("ps1");
        v.push("ps2");
        v.push("ps3");
        v
    }
}

} // verus!
