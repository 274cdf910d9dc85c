//! The error taxonomy shared by every component of the emulator core.

use vstd::prelude::*;

verus! {

/// Errors reported by the emulator core.
///
/// Construction-time failures (overlapping bus regions, bad bank sizes,
/// malformed ROM headers) and per-instruction failures (unknown registers,
/// unimplemented opcodes, memory violations) all surface through this type.
#[derive(Debug, Clone)]
pub enum EmuliteError {
    /// An architecture or platform name that no factory recognises.
    UnsupportedPlatform(String),
    /// A ROM image that is malformed or has an impossible size.
    InvalidRom(String),
    /// An address not covered by any region, or a permission mismatch,
    /// carrying the offending address.
    MemoryAccessViolation(u32),
    /// An unknown register name, an unimplemented opcode, or a division by
    /// zero in the generic ALU.
    CpuError(String),
    /// A failure in the audio subsystem.
    AudioError(String),
    /// A failure in the video subsystem.
    VideoError(String),
    /// A failure in the input subsystem.
    InputError(String),
    /// An invalid configuration value.
    ConfigError(String),
    /// A failure of the underlying file read, carried as its message text.
    IoError(String),
}

/// Result type for emulator operations.
pub type EmuliteResult<T> = Result<T, EmuliteError>;

/// The hexadecimal digit (upper case) for a nibble value.
pub open spec fn hex_char(n: int) -> char {
    if n == 0 {
        '0'
    } else if n == 1 {
        '1'
    } else if n == 2 {
        '2'
    } else if n == 3 {
        '3'
    } else if n == 4 {
        '4'
    } else if n == 5 {
        '5'
    } else if n == 6 {
        '6'
    } else if n == 7 {
        '7'
    } else if n == 8 {
        '8'
    } else if n == 9 {
        '9'
    } else if n == 10 {
        'A'
    } else if n == 11 {
        'B'
    } else if n == 12 {
        'C'
    } else if n == 13 {
        'D'
    } else if n == 14 {
        'E'
    } else {
        'F'
    }
}

/// The eight upper-case hexadecimal digits of a 32-bit value, most
/// significant first.
pub open spec fn hex32(v: u32) -> Seq<char> {
    Seq::new(8, |i: int| hex_char(((v >> (28 - 4 * i) as u32) & 0xF) as int))
}

fn hex_digit_str(n: u32) -> (r: &'static str)
    requires
        n < 16,
    ensures
        r@ =~= seq![hex_char(n as int)],
{
    let r: &'static str = match n {
        0 => "0",
        1 => "1",
        2 => "2",
        3 => "3",
        4 => "4",
        5 => "5",
        6 => "6",
        7 => "7",
        8 => "8",
        9 => "9",
        10 => "A",
        11 => "B",
        12 => "C",
        13 => "D",
        14 => "E",
        _ => "F",
    };
    proof {
        reveal_strlit("0");
        reveal_strlit("1");
        reveal_strlit("2");
        reveal_strlit("3");
        reveal_strlit("4");
        reveal_strlit("5");
        reveal_strlit("6");
        reveal_strlit("7");
        reveal_strlit("8");
        reveal_strlit("9");
        reveal_strlit("A");
        reveal_strlit("B");
        reveal_strlit("C");
        reveal_strlit("D");
        reveal_strlit("E");
        reveal_strlit("F");
    }
    r
}

/// Formats a 32-bit value as eight upper-case hexadecimal digits.
pub fn format_hex32(v: u32) -> (r: String)
    ensures
        r@ == hex32(v),
{
    let mut out = String::new();
    let mut i: usize = 0;
    while i < 8
        invariant
            i <= 8,
            out@ =~= hex32(v).subrange(0, i as int),
        decreases 8 - i,
    {
        let shift: u32 = 28 - 4 * (i as u32);
        let nibble: u32 = (v >> shift) & 0xF;
        assert((v >> shift) & 0xF < 16) by (bit_vector);
        out.append(hex_digit_str(nibble));
        assert(out@ =~= hex32(v).subrange(0, i + 1));
        i = i + 1;
    }
    assert(out@ =~= hex32(v));
    out
}

/// The two upper-case hexadecimal digits of a byte, most significant first.
pub open spec fn hex8(v: u8) -> Seq<char> {
    seq![hex_char(((v >> 4) & 0xF) as int), hex_char((v & 0xF) as int)]
}

/// The four upper-case hexadecimal digits of a 16-bit value, most
/// significant first.
pub open spec fn hex16(v: u16) -> Seq<char> {
    seq![
        hex_char(((v >> 12) & 0xF) as int),
        hex_char(((v >> 8) & 0xF) as int),
        hex_char(((v >> 4) & 0xF) as int),
        hex_char((v & 0xF) as int),
    ]
}

/// Formats a byte as two upper-case hexadecimal digits.
pub fn format_hex8(v: u8) -> (r: String)
    ensures
        r@ == hex8(v),
{
    assert((v >> 4) & 0xF < 16 && v & 0xF < 16) by (bit_vector);
    let mut out = String::from_str(hex_digit_str(((v >> 4) & 0xF) as u32));
    out.append(hex_digit_str((v & 0xF) as u32));
    proof {
        assert(out@ =~= hex8(v));
    }
    out
}

/// Formats a 16-bit value as four upper-case hexadecimal digits.
pub fn format_hex16(v: u16) -> (r: String)
    ensures
        r@ == hex16(v),
{
    assert((v >> 12) & 0xF < 16 && (v >> 8) & 0xF < 16 && (v >> 4) & 0xF < 16 && v & 0xF < 16)
        by (bit_vector);
    let mut out = String::from_str(hex_digit_str(((v >> 12) & 0xF) as u32));
    out.append(hex_digit_str(((v >> 8) & 0xF) as u32));
    out.append(hex_digit_str(((v >> 4) & 0xF) as u32));
    out.append(hex_digit_str((v & 0xF) as u32));
    proof {
        assert(out@ =~= hex16(v));
    }
    out
}

impl EmuliteError {
    /// The human-readable text of the error, as shown to a user.
    pub fn message(&self) -> (r: String)
        ensures
            r@ == self.message_spec(),
    {
        match self {
            EmuliteError::UnsupportedPlatform(s) => {
                String::from_str("Platform not supported: ").concat(s.as_str())
            },
            EmuliteError::InvalidRom(s) => {
                String::from_str("Invalid ROM file: ").concat(s.as_str())
            },
            EmuliteError::MemoryAccessViolation(addr) => {
                String::from_str("Memory access violation at address: 0x").concat(
                    format_hex32(*addr).as_str(),
                )
            },
            EmuliteError::CpuError(s) => String::from_str("CPU error: ").concat(s.as_str()),
            EmuliteError::AudioError(s) => String::from_str("Audio error: ").concat(s.as_str()),
            EmuliteError::VideoError(s) => String::from_str("Video error: ").concat(s.as_str()),
            EmuliteError::InputError(s) => String::from_str("Input error: ").concat(s.as_str()),
            EmuliteError::ConfigError(s) => {
                String::from_str("Configuration error: ").concat(s.as_str())
            },
            EmuliteError::IoError(s) => String::from_str("IO error: ").concat(s.as_str()),
        }
    }

    /// The text `message` returns, stated over sequences of characters.
    pub open spec fn message_spec(&self) -> Seq<char> {
        match self {
            EmuliteError::UnsupportedPlatform(s) => "Platform not supported: "@ + s@,
            EmuliteError::InvalidRom(s) => "Invalid ROM file: "@ + s@,
            EmuliteError::MemoryAccessViolation(addr) => {
                "Memory access violation at address: 0x"@ + hex32(*addr)
            },
            EmuliteError::CpuError(s) => "CPU error: "@ + s@,
            EmuliteError::AudioError(s) => "Audio error: "@ + s@,
            EmuliteError::VideoError(s) => "Video error: "@ + s@,
            EmuliteError::InputError(s) => "Input error: "@ + s@,
            EmuliteError::ConfigError(s) => "Configuration error: "@ + s@,
            EmuliteError::IoError(s) => "IO error: "@ + s@,
        }
    }
}

#[verifier::external_type_specification]
#[verifier::external_body]
pub struct ExIoError(std::io::Error);

/// Relies on std::io::Error's Display implementation for the message text of
/// a file error.  Nothing is claimed about the text.
#[verifier::external_body]
fn io_error_text(e: &std::io::Error) -> String {
    e.to_string()
}

impl From<std::io::Error> for EmuliteError {
    /// Wraps a file error, keeping its message text.
    fn from(e: std::io::Error) -> (r: EmuliteError)
        ensures
            r is IoError,
    {
        EmuliteError::IoError(io_error_text(&e))
    }
}

impl vstd::std_specs::convert::FromSpecImpl<std::io::Error> for EmuliteError {
    open spec fn obeys_from_spec() -> bool {
        false
    }

    open spec fn from_spec(v: std::io::Error) -> EmuliteError {
        vstd::pervasive::arbitrary()
    }
}

} // verus!
