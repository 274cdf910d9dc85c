//! CPU interpreters: one module per architecture, plus the shared register
//! flag model and the flat-memory access model they are specified against.
//!
//! Each interpreter keeps its own flat byte memory.  During instruction
//! execution and reset, a byte beyond the allocated memory reads as zero and
//! a write to it is ignored, as open bus; the byte-granular debug interface
//! `read_memory`/`write_memory` instead reports a violation for such an
//! address, except where an architecture's own hardware map says otherwise.

use vstd::prelude::*;

use crate::error::{hex8, EmuliteError, EmuliteResult};
use crate::text::{ascii_lower_seq, eq_lowered};

pub mod arm;
pub mod generic;
pub mod m68k;
pub mod mips;
pub mod mos6502;
pub mod x86;

verus! {

/// The flag union shared by every architecture.  Only the subset an
/// architecture defines is meaningful: its other bits read as false and are
/// ignored on write.
#[derive(Debug, Clone, Copy, PartialEq, Eq, Structural)]
pub struct CpuFlags {
    pub carry: bool,
    pub zero: bool,
    pub interrupt_disable: bool,
    pub decimal: bool,
    pub break_command: bool,
    pub overflow: bool,
    pub negative: bool,
    pub sign: bool,
    pub parity: bool,
    pub auxiliary_carry: bool,
    pub extend: bool,
}

/// The flag value with every bit cleared.
pub open spec fn flags_cleared() -> CpuFlags {
    CpuFlags {
        carry: false,
        zero: false,
        interrupt_disable: false,
        decimal: false,
        break_command: false,
        overflow: false,
        negative: false,
        sign: false,
        parity: false,
        auxiliary_carry: false,
        extend: false,
    }
}

impl Default for CpuFlags {
    /// Every flag starts cleared.
    fn default() -> (r: CpuFlags)
        ensures
            r == flags_cleared(),
    {
        CpuFlags {
            carry: false,
            zero: false,
            interrupt_disable: false,
            decimal: false,
            break_command: false,
            overflow: false,
            negative: false,
            sign: false,
            parity: false,
            auxiliary_carry: false,
            extend: false,
        }
    }
}

/// Byte order of an architecture.
#[derive(Debug, Clone, Copy, PartialEq, Eq, Structural)]
pub enum Endianness {
    Little,
    Big,
}

/// Static description of a CPU: its name, width, byte order, register and
/// instruction counts and nominal clock rate.  Computed per instance and
/// never mutated.
#[derive(Debug, Clone)]
pub struct CpuInfo {
    pub name: String,
    pub architecture: String,
    pub bits: u8,
    pub endianness: Endianness,
    pub register_count: usize,
    pub instruction_count: usize,
    pub clock_speed_hz: u64,
}

/// The byte a flat memory yields at `addr`: its content inside the
/// allocated range, zero beyond it (open bus).
pub open spec fn byte_at(mem: Seq<u8>, addr: int) -> u8 {
    if 0 <= addr < mem.len() {
        mem[addr]
    } else {
        0
    }
}

/// Writing a byte to a flat memory: the update inside the allocated range,
/// no change beyond it.
pub open spec fn mem_write(mem: Seq<u8>, addr: int, value: u8) -> Seq<u8> {
    if 0 <= addr < mem.len() {
        mem.update(addr, value)
    } else {
        mem
    }
}

/// The little-endian 16-bit word at `addr`.
pub open spec fn word16_le(mem: Seq<u8>, addr: int) -> u16 {
    (byte_at(mem, addr) as u16) | ((byte_at(mem, addr + 1) as u16) << 8)
}

/// The little-endian 32-bit word at `addr`.
pub open spec fn word32_le(mem: Seq<u8>, addr: int) -> u32 {
    (byte_at(mem, addr) as u32) | ((byte_at(mem, addr + 1) as u32) << 8) | ((byte_at(
        mem,
        addr + 2,
    ) as u32) << 16) | ((byte_at(mem, addr + 3) as u32) << 24)
}

/// The big-endian 16-bit word at `addr`.
pub open spec fn word16_be(mem: Seq<u8>, addr: int) -> u16 {
    ((byte_at(mem, addr) as u16) << 8) | (byte_at(mem, addr + 1) as u16)
}

/// The big-endian 32-bit word at `addr`.
pub open spec fn word32_be(mem: Seq<u8>, addr: int) -> u32 {
    ((byte_at(mem, addr) as u32) << 24) | ((byte_at(mem, addr + 1) as u32) << 16) | ((byte_at(
        mem,
        addr + 2,
    ) as u32) << 8) | (byte_at(mem, addr + 3) as u32)
}

/// Writing a little-endian 16-bit word, byte by byte.
pub open spec fn mem_write16_le(mem: Seq<u8>, addr: int, value: u16) -> Seq<u8> {
    mem_write(mem_write(mem, addr, value as u8), addr + 1, (value >> 8) as u8)
}

/// Writing a little-endian 32-bit word, byte by byte.
pub open spec fn mem_write32_le(mem: Seq<u8>, addr: int, value: u32) -> Seq<u8> {
    mem_write(
        mem_write(
            mem_write(mem_write(mem, addr, value as u8), addr + 1, (value >> 8) as u8),
            addr + 2,
            (value >> 16) as u8,
        ),
        addr + 3,
        (value >> 24) as u8,
    )
}

/// Writing a big-endian 16-bit word, byte by byte.
pub open spec fn mem_write16_be(mem: Seq<u8>, addr: int, value: u16) -> Seq<u8> {
    mem_write(mem_write(mem, addr, (value >> 8) as u8), addr + 1, value as u8)
}

/// Writing a big-endian 32-bit word, byte by byte.
pub open spec fn mem_write32_be(mem: Seq<u8>, addr: int, value: u32) -> Seq<u8> {
    mem_write(
        mem_write(
            mem_write(mem_write(mem, addr, (value >> 24) as u8), addr + 1, (value >> 16) as u8),
            addr + 2,
            (value >> 8) as u8,
        ),
        addr + 3,
        value as u8,
    )
}

/// Reads one byte of a flat memory, zero beyond the allocated range.
pub fn mem_byte(mem: &Vec<u8>, addr: u64) -> (r: u8)
    ensures
        r == byte_at(mem@, addr as int),
{
    if addr < mem.len() as u64 {
        mem[addr as usize]
    } else {
        0
    }
}

/// Writes one byte of a flat memory, ignored beyond the allocated range.
pub fn mem_set_byte(mem: &mut Vec<u8>, addr: u64, value: u8)
    ensures
        final(mem)@ == mem_write(old(mem)@, addr as int, value),
{
    if addr < mem.len() as u64 {
        mem.set(addr as usize, value);
    }
}

/// Reads a little-endian 16-bit word of a flat memory.
pub fn mem_word16_le(mem: &Vec<u8>, addr: u32) -> (r: u16)
    ensures
        r == word16_le(mem@, addr as int),
{
    let lo = mem_byte(mem, addr as u64);
    let hi = mem_byte(mem, addr as u64 + 1);
    (lo as u16) | ((hi as u16) << 8)
}

/// Reads a little-endian 32-bit word of a flat memory.
pub fn mem_word32_le(mem: &Vec<u8>, addr: u32) -> (r: u32)
    ensures
        r == word32_le(mem@, addr as int),
{
    let b0 = mem_byte(mem, addr as u64);
    let b1 = mem_byte(mem, addr as u64 + 1);
    let b2 = mem_byte(mem, addr as u64 + 2);
    let b3 = mem_byte(mem, addr as u64 + 3);
    (b0 as u32) | ((b1 as u32) << 8) | ((b2 as u32) << 16) | ((b3 as u32) << 24)
}

/// Reads a big-endian 16-bit word of a flat memory.
pub fn mem_word16_be(mem: &Vec<u8>, addr: u32) -> (r: u16)
    ensures
        r == word16_be(mem@, addr as int),
{
    let hi = mem_byte(mem, addr as u64);
    let lo = mem_byte(mem, addr as u64 + 1);
    ((hi as u16) << 8) | (lo as u16)
}

/// Reads a big-endian 32-bit word of a flat memory.
pub fn mem_word32_be(mem: &Vec<u8>, addr: u32) -> (r: u32)
    ensures
        r == word32_be(mem@, addr as int),
{
    let b0 = mem_byte(mem, addr as u64);
    let b1 = mem_byte(mem, addr as u64 + 1);
    let b2 = mem_byte(mem, addr as u64 + 2);
    let b3 = mem_byte(mem, addr as u64 + 3);
    ((b0 as u32) << 24) | ((b1 as u32) << 16) | ((b2 as u32) << 8) | (b3 as u32)
}

/// Writes a little-endian 16-bit word of a flat memory.
pub fn mem_set_word16_le(mem: &mut Vec<u8>, addr: u32, value: u16)
    ensures
        final(mem)@ == mem_write16_le(old(mem)@, addr as int, value),
{
    mem_set_byte(mem, addr as u64, value as u8);
    mem_set_byte(mem, addr as u64 + 1, (value >> 8) as u8);
}

/// Writes a little-endian 32-bit word of a flat memory.
pub fn mem_set_word32_le(mem: &mut Vec<u8>, addr: u32, value: u32)
    ensures
        final(mem)@ == mem_write32_le(old(mem)@, addr as int, value),
{
    mem_set_byte(mem, addr as u64, value as u8);
    mem_set_byte(mem, addr as u64 + 1, (value >> 8) as u8);
    mem_set_byte(mem, addr as u64 + 2, (value >> 16) as u8);
    mem_set_byte(mem, addr as u64 + 3, (value >> 24) as u8);
}

/// Writes a big-endian 16-bit word of a flat memory.
pub fn mem_set_word16_be(mem: &mut Vec<u8>, addr: u32, value: u16)
    ensures
        final(mem)@ == mem_write16_be(old(mem)@, addr as int, value),
{
    mem_set_byte(mem, addr as u64, (value >> 8) as u8);
    mem_set_byte(mem, addr as u64 + 1, value as u8);
}

/// Writes a big-endian 32-bit word of a flat memory.
pub fn mem_set_word32_be(mem: &mut Vec<u8>, addr: u32, value: u32)
    ensures
        final(mem)@ == mem_write32_be(old(mem)@, addr as int, value),
{
    mem_set_byte(mem, addr as u64, (value >> 24) as u8);
    mem_set_byte(mem, addr as u64 + 1, (value >> 16) as u8);
    mem_set_byte(mem, addr as u64 + 2, (value >> 8) as u8);
    mem_set_byte(mem, addr as u64 + 3, value as u8);
}

/// A flat memory with `data` copied in at `addr`; bytes that would fall
/// beyond the memory end are ignored.
pub open spec fn mem_loaded(mem: Seq<u8>, addr: int, data: Seq<u8>) -> Seq<u8> {
    Seq::new(
        mem.len(),
        |i: int|
            if addr <= i < addr + data.len() {
                data[i - addr]
            } else {
                mem[i]
            },
    )
}

/// Copies `data` into a flat memory at `addr`; bytes beyond the memory end
/// are ignored.
pub fn mem_load(mem: &mut Vec<u8>, addr: u32, data: &Vec<u8>)
    requires
        data@.len() <= 0xFFFF_FFFF,
    ensures
        final(mem)@ == mem_loaded(old(mem)@, addr as int, data@),
{
    let n = data.len();
    let mut i: usize = 0;
    while i < n
        invariant
            i <= n,
            n == data@.len(),
            n <= 0xFFFF_FFFF,
            mem@ =~= mem_loaded(old(mem)@, addr as int, data@.subrange(0, i as int)),
        decreases n - i,
    {
        mem_set_byte(mem, addr as u64 + i as u64, data[i]);
        proof {
            assert(mem@ =~= mem_loaded(old(mem)@, addr as int, data@.subrange(0, i + 1)));
        }
        i = i + 1;
    }
    proof {
        assert(data@.subrange(0, n as int) =~= data@);
        assert(mem@ =~= mem_loaded(old(mem)@, addr as int, data@));
    }
}

/// The message text of an unimplemented-opcode error over a byte opcode.
pub open spec fn unimplemented_opcode_msg(op: u8) -> Seq<char> {
    "Unimplemented opcode: 0x"@ + hex8(op)
}

/// Builds the unimplemented-opcode error for a byte opcode.
pub fn unimplemented_opcode_error(op: u8) -> (r: EmuliteError)
    ensures
        r matches EmuliteError::CpuError(m) && m@ == unimplemented_opcode_msg(op),
{
    EmuliteError::CpuError(
        String::from_str("Unimplemented opcode: 0x").concat(
            crate::error::format_hex8(op).as_str(),
        ),
    )
}

/// The message text of an unknown-register error.
pub open spec fn unknown_register_msg(reg: Seq<char>) -> Seq<char> {
    "Unknown register: "@ + reg
}

/// Builds the unknown-register error for a register name.
pub fn unknown_register_error(reg: &str) -> (r: EmuliteError)
    ensures
        r matches EmuliteError::CpuError(m) && m@ == unknown_register_msg(reg@),
{
    EmuliteError::CpuError(String::from_str("Unknown register: ").concat(reg))
}

/// The faults any interpreter's step can report, unified across
/// architectures.
pub ghost enum CpuFault {
    /// An unimplemented byte opcode.
    Opcode8(u8),
    /// An unimplemented 16-bit opcode.
    Opcode16(u16),
    /// An unimplemented R-type function field.
    Funct(u8),
    /// A memory access past the allocated memory.
    Mav(u32),
    /// A division or modulo by zero.
    DivZero,
}

/// Whether an error value is the one a fault stands for.
pub open spec fn fault_matches(e: EmuliteError, f: CpuFault) -> bool {
    match f {
        CpuFault::Opcode8(op) => e matches EmuliteError::CpuError(m) && m@
            == unimplemented_opcode_msg(op),
        CpuFault::Opcode16(op) => e matches EmuliteError::CpuError(m) && m@
            == m68k::unimplemented_opcode16_msg(op),
        CpuFault::Funct(x) => e matches EmuliteError::CpuError(m) && m@
            == mips::unimplemented_funct_msg(x),
        CpuFault::Mav(a) => e == EmuliteError::MemoryAccessViolation(a),
        CpuFault::DivZero => e matches EmuliteError::CpuError(m) && m@ == generic::div_zero_msg(),
    }
}

/// Any of the interpreters, selected per architecture.  A platform holds
/// the concrete interpreter its hardware uses; this sum type is what the
/// factory hands out and what introspection dispatches over.
#[derive(Debug)]
pub enum Cpu {
    Mos6502(mos6502::Mos6502),
    M68k(m68k::M68k),
    Mips(mips::Mips),
    X86(x86::X86),
    Arm(arm::Arm),
    Generic(generic::GenericCpu),
}

/// Mathematical image of any interpreter's state.
pub ghost enum CpuV {
    Mos6502(mos6502::Mos6502V),
    M68k(m68k::M68kV),
    Mips(mips::MipsV),
    X86(x86::X86V),
    Arm(arm::ArmV),
    Generic(generic::GenericV),
}

impl View for Cpu {
    type V = CpuV;

    open spec fn view(&self) -> CpuV {
        match self {
            Cpu::Mos6502(c) => CpuV::Mos6502(c@),
            Cpu::M68k(c) => CpuV::M68k(c@),
            Cpu::Mips(c) => CpuV::Mips(c@),
            Cpu::X86(c) => CpuV::X86(c@),
            Cpu::Arm(c) => CpuV::Arm(c@),
            Cpu::Generic(c) => CpuV::Generic(c@),
        }
    }
}

impl CpuV {
    /// One step of whichever interpreter this is.
    pub open spec fn step_spec(self) -> (CpuV, Option<CpuFault>) {
        match self {
            CpuV::Mos6502(s) => {
                let (p, f) = s.step_spec();
                (
                    CpuV::Mos6502(p),
                    match f {
                        None => None,
                        Some(op) => Some(CpuFault::Opcode8(op)),
                    },
                )
            },
            CpuV::M68k(s) => {
                let (p, f) = s.step_spec();
                (
                    CpuV::M68k(p),
                    match f {
                        None => None,
                        Some(op) => Some(CpuFault::Opcode16(op)),
                    },
                )
            },
            CpuV::Mips(s) => {
                let (p, f) = s.step_spec();
                (
                    CpuV::Mips(p),
                    match f {
                        None => None,
                        Some(mips::MipsFault::Funct(x)) => Some(CpuFault::Funct(x)),
                        Some(mips::MipsFault::Opcode(op)) => Some(CpuFault::Opcode8(op)),
                    },
                )
            },
            CpuV::X86(s) => {
                let (p, f) = s.step_spec();
                (
                    CpuV::X86(p),
                    match f {
                        None => None,
                        Some(op) => Some(CpuFault::Opcode8(op)),
                    },
                )
            },
            CpuV::Arm(s) => {
                let (p, f) = s.step_spec();
                (
                    CpuV::Arm(p),
                    match f {
                        None => None,
                        Some(op) => Some(CpuFault::Opcode8(op)),
                    },
                )
            },
            CpuV::Generic(s) => {
                let (p, f) = s.step_spec();
                (
                    CpuV::Generic(p),
                    match f {
                        None => None,
                        Some(generic::GenericFault::Opcode(op)) => Some(CpuFault::Opcode8(op)),
                        Some(generic::GenericFault::Mav(a)) => Some(CpuFault::Mav(a)),
                        Some(generic::GenericFault::DivZero) => Some(CpuFault::DivZero),
                    },
                )
            },
        }
    }

    /// The power-on reset of whichever interpreter this is.
    pub open spec fn reset_spec(self) -> CpuV {
        match self {
            CpuV::Mos6502(s) => CpuV::Mos6502(s.reset_spec()),
            CpuV::M68k(s) => CpuV::M68k(s.reset_spec()),
            CpuV::Mips(s) => CpuV::Mips(s.reset_spec()),
            CpuV::X86(s) => CpuV::X86(s.reset_spec()),
            CpuV::Arm(s) => CpuV::Arm(s.reset_spec()),
            CpuV::Generic(s) => CpuV::Generic(s.reset_spec()),
        }
    }

    /// The current program counter.
    pub open spec fn pc_spec(self) -> u32 {
        match self {
            CpuV::Mos6502(s) => s.pc as u32,
            CpuV::M68k(s) => s.pc,
            CpuV::Mips(s) => s.pc,
            CpuV::X86(s) => s.eip,
            CpuV::Arm(s) => s.pc,
            CpuV::Generic(s) => s.pc,
        }
    }

    /// Whether the interpreter has halted.
    pub open spec fn halted_spec(self) -> bool {
        match self {
            CpuV::Mos6502(s) => s.halted,
            CpuV::M68k(s) => s.halted,
            CpuV::Mips(s) => s.halted,
            CpuV::X86(s) => s.halted,
            CpuV::Arm(s) => s.halted,
            CpuV::Generic(s) => s.halted,
        }
    }

    /// The architecture's factory name.
    pub open spec fn name_spec(self) -> Seq<char> {
        match self {
            CpuV::Mos6502(s) => "6502"@,
            CpuV::M68k(s) => "68000"@,
            CpuV::Mips(s) => "mips"@,
            CpuV::X86(s) => "x86"@,
            CpuV::Arm(s) => "arm"@,
            CpuV::Generic(s) => "Generic"@,
        }
    }

    /// The flags whichever architecture this is defines.
    pub open spec fn get_flags_spec(self) -> CpuFlags {
        match self {
            CpuV::Mos6502(s) => s.flags,
            CpuV::M68k(s) => s.get_flags_spec(),
            CpuV::Mips(s) => flags_cleared(),
            CpuV::X86(s) => s.get_flags_spec(),
            CpuV::Arm(s) => s.get_flags_spec(),
            CpuV::Generic(s) => s.flags,
        }
    }

    /// The state a flags write leaves: defined bits taken, others ignored.
    pub open spec fn set_flags_spec(self, flags: CpuFlags) -> CpuV {
        match self {
            CpuV::Mos6502(s) => CpuV::Mos6502(s.set_flags_spec(flags)),
            CpuV::M68k(s) => CpuV::M68k(s.set_flags_spec(flags)),
            CpuV::Mips(s) => CpuV::Mips(s),
            CpuV::X86(s) => CpuV::X86(s.set_flags_spec(flags)),
            CpuV::Arm(s) => CpuV::Arm(s.set_flags_spec(flags)),
            CpuV::Generic(s) => CpuV::Generic(s.set_flags_spec(flags)),
        }
    }

    /// The value a register read yields for a name.
    pub open spec fn get_register_spec(self, name: Seq<char>) -> Option<u32> {
        match self {
            CpuV::Mos6502(s) => s.get_register_spec(name),
            CpuV::M68k(s) => s.get_register_spec(name),
            CpuV::Mips(s) => s.get_register_spec(name),
            CpuV::X86(s) => s.get_register_spec(name),
            CpuV::Arm(s) => s.get_register_spec(name),
            CpuV::Generic(s) => generic::assoc_get(s.regs, name),
        }
    }

    /// Whether the register-not-found message for a name matches the
    /// architecture's wording.
    pub open spec fn unknown_register_matches(self, e: EmuliteError, name: Seq<char>) -> bool {
        match self {
            CpuV::Generic(s) => e matches EmuliteError::CpuError(m) && m@
                == generic::register_not_found_msg(name),
            _ => e matches EmuliteError::CpuError(m) && m@ == unknown_register_msg(name),
        }
    }

    /// The state a register write leaves for a name.
    pub open spec fn set_register_spec(self, name: Seq<char>, value: u32) -> Option<CpuV> {
        match self {
            CpuV::Mos6502(s) => match s.set_register_spec(name, value) {
                Some(p) => Some(CpuV::Mos6502(p)),
                None => None,
            },
            CpuV::M68k(s) => match s.set_register_spec(name, value) {
                Some(p) => Some(CpuV::M68k(p)),
                None => None,
            },
            CpuV::Mips(s) => match s.set_register_spec(name, value) {
                Some(p) => Some(CpuV::Mips(p)),
                None => None,
            },
            CpuV::X86(s) => match s.set_register_spec(name, value) {
                Some(p) => Some(CpuV::X86(p)),
                None => None,
            },
            CpuV::Arm(s) => match s.set_register_spec(name, value) {
                Some(p) => Some(CpuV::Arm(p)),
                None => None,
            },
            CpuV::Generic(s) => Some(
                CpuV::Generic(
                    generic::GenericV { regs: generic::assoc_set(s.regs, name, value), ..s },
                ),
            ),
        }
    }

    /// What a byte-granular read yields: the byte, or the violating
    /// address; the 6502's hardware map never fails.
    pub open spec fn read_memory_spec(self, address: u32) -> Result<u8, u32> {
        match self {
            CpuV::Mos6502(s) => Ok(mos6502::read_mapped(s.mem, address)),
            CpuV::M68k(s) => if (address as int) < s.mem.len() {
                Ok(s.mem[address as int])
            } else {
                Err(address)
            },
            CpuV::Mips(s) => if (address as int) < s.mem.len() {
                Ok(s.mem[address as int])
            } else {
                Err(address)
            },
            CpuV::X86(s) => if (address as int) < s.mem.len() {
                Ok(s.mem[address as int])
            } else {
                Err(address)
            },
            CpuV::Arm(s) => if (address as int) < s.mem.len() {
                Ok(s.mem[address as int])
            } else {
                Err(address)
            },
            CpuV::Generic(s) => if (address as int) < s.mem.len() {
                Ok(s.mem[address as int])
            } else {
                Err(address)
            },
        }
    }

    /// What a byte-granular write does: the new state, or the violating
    /// address; the 6502's hardware map never fails.
    pub open spec fn write_memory_spec(self, address: u32, value: u8) -> Result<CpuV, u32> {
        match self {
            CpuV::Mos6502(s) => Ok(
                CpuV::Mos6502(
                    mos6502::Mos6502V { mem: mos6502::write_mapped(s.mem, address, value), ..s },
                ),
            ),
            CpuV::M68k(s) => if (address as int) < s.mem.len() {
                Ok(CpuV::M68k(m68k::M68kV { mem: s.mem.update(address as int, value), ..s }))
            } else {
                Err(address)
            },
            CpuV::Mips(s) => if (address as int) < s.mem.len() {
                Ok(CpuV::Mips(mips::MipsV { mem: s.mem.update(address as int, value), ..s }))
            } else {
                Err(address)
            },
            CpuV::X86(s) => if (address as int) < s.mem.len() {
                Ok(CpuV::X86(x86::X86V { mem: s.mem.update(address as int, value), ..s }))
            } else {
                Err(address)
            },
            CpuV::Arm(s) => if (address as int) < s.mem.len() {
                Ok(CpuV::Arm(arm::ArmV { mem: s.mem.update(address as int, value), ..s }))
            } else {
                Err(address)
            },
            CpuV::Generic(s) => if (address as int) < s.mem.len() {
                Ok(
                    CpuV::Generic(
                        generic::GenericV { mem: s.mem.update(address as int, value), ..s },
                    ),
                )
            } else {
                Err(address)
            },
        }
    }

    /// The state a program-counter write leaves, truncated to the
    /// architecture's width.
    pub open spec fn set_pc_spec(self, pc: u32) -> CpuV {
        match self {
            CpuV::Mos6502(s) => CpuV::Mos6502(mos6502::Mos6502V { pc: pc as u16, ..s }),
            CpuV::M68k(s) => CpuV::M68k(m68k::M68kV { pc, ..s }),
            CpuV::Mips(s) => CpuV::Mips(mips::MipsV { pc, ..s }),
            CpuV::X86(s) => CpuV::X86(x86::X86V { eip: pc, ..s }),
            CpuV::Arm(s) => CpuV::Arm(arm::ArmV { pc, ..s }),
            CpuV::Generic(s) => CpuV::Generic(generic::GenericV { pc, ..s }),
        }
    }

    /// The state after copying bytes straight into the flat memory.
    pub open spec fn load_bytes_spec(self, address: u32, data: Seq<u8>) -> CpuV {
        match self {
            CpuV::Mos6502(s) => CpuV::Mos6502(
                mos6502::Mos6502V { mem: mem_loaded(s.mem, address as int, data), ..s },
            ),
            CpuV::M68k(s) => CpuV::M68k(
                m68k::M68kV { mem: mem_loaded(s.mem, address as int, data), ..s },
            ),
            CpuV::Mips(s) => CpuV::Mips(
                mips::MipsV { mem: mem_loaded(s.mem, address as int, data), ..s },
            ),
            CpuV::X86(s) => CpuV::X86(
                x86::X86V { mem: mem_loaded(s.mem, address as int, data), ..s },
            ),
            CpuV::Arm(s) => CpuV::Arm(
                arm::ArmV { mem: mem_loaded(s.mem, address as int, data), ..s },
            ),
            CpuV::Generic(s) => CpuV::Generic(
                generic::GenericV { mem: mem_loaded(s.mem, address as int, data), ..s },
            ),
        }
    }
}

impl Cpu {
    /// One fetch-decode-execute step of whichever interpreter this is.
    pub fn step(&mut self) -> (r: EmuliteResult<()>)
        ensures
            ({
                let (post, fault) = old(self)@.step_spec();
                final(self)@ == post && match fault {
                    None => r is Ok,
                    Some(f) => r matches Err(e) && fault_matches(e, f),
                }
            }),
    {
        match self {
            Cpu::Mos6502(c) => c.step(),
            Cpu::M68k(c) => c.step(),
            Cpu::Mips(c) => c.step(),
            Cpu::X86(c) => c.step(),
            Cpu::Arm(c) => c.step(),
            Cpu::Generic(c) => c.step(),
        }
    }

    /// Power-on reset of whichever interpreter this is.
    pub fn reset(&mut self) -> (r: EmuliteResult<()>)
        ensures
            r is Ok,
            final(self)@ == old(self)@.reset_spec(),
    {
        match self {
            Cpu::Mos6502(c) => c.reset(),
            Cpu::M68k(c) => c.reset(),
            Cpu::Mips(c) => c.reset(),
            Cpu::X86(c) => c.reset(),
            Cpu::Arm(c) => c.reset(),
            Cpu::Generic(c) => c.reset(),
        }
    }

    /// The architecture's factory name.
    pub fn name(&self) -> (r: &str)
        ensures
            r@ == self@.name_spec(),
    {
        match self {
            Cpu::Mos6502(c) => c.name(),
            Cpu::M68k(c) => c.name(),
            Cpu::Mips(c) => c.name(),
            Cpu::X86(c) => c.name(),
            Cpu::Arm(c) => c.name(),
            Cpu::Generic(c) => c.name(),
        }
    }

    /// The current program counter.
    pub fn pc(&self) -> (r: u32)
        ensures
            r == self@.pc_spec(),
    {
        match self {
            Cpu::Mos6502(c) => c.pc(),
            Cpu::M68k(c) => c.pc(),
            Cpu::Mips(c) => c.pc(),
            Cpu::X86(c) => c.pc(),
            Cpu::Arm(c) => c.pc(),
            Cpu::Generic(c) => c.pc(),
        }
    }

    /// Sets the program counter, truncated to the architecture's width.
    pub fn set_pc(&mut self, pc: u32) -> (r: EmuliteResult<()>)
        ensures
            r is Ok,
            final(self)@ == old(self)@.set_pc_spec(pc),
    {
        match self {
            Cpu::Mos6502(c) => c.set_pc(pc),
            Cpu::M68k(c) => c.set_pc(pc),
            Cpu::Mips(c) => c.set_pc(pc),
            Cpu::X86(c) => c.set_pc(pc),
            Cpu::Arm(c) => c.set_pc(pc),
            Cpu::Generic(c) => c.set_pc(pc),
        }
    }

    /// Reads one byte through the architecture's hardware map.
    pub fn read_memory(&self, address: u32) -> (r: EmuliteResult<u8>)
        ensures
            match self@.read_memory_spec(address) {
                Ok(b) => r == Ok::<u8, EmuliteError>(b),
                Err(a) => r == Err::<u8, EmuliteError>(EmuliteError::MemoryAccessViolation(a)),
            },
    {
        match self {
            Cpu::Mos6502(c) => c.read_memory(address),
            Cpu::M68k(c) => c.read_memory(address),
            Cpu::Mips(c) => c.read_memory(address),
            Cpu::X86(c) => c.read_memory(address),
            Cpu::Arm(c) => c.read_memory(address),
            Cpu::Generic(c) => c.read_memory(address),
        }
    }

    /// Writes one byte through the architecture's hardware map.
    pub fn write_memory(&mut self, address: u32, value: u8) -> (r: EmuliteResult<()>)
        ensures
            match old(self)@.write_memory_spec(address, value) {
                Ok(p) => r is Ok && final(self)@ == p,
                Err(a) => r == Err::<(), EmuliteError>(EmuliteError::MemoryAccessViolation(a))
                    && final(self)@ == old(self)@,
            },
    {
        match self {
            Cpu::Mos6502(c) => c.write_memory(address, value),
            Cpu::M68k(c) => c.write_memory(address, value),
            Cpu::Mips(c) => c.write_memory(address, value),
            Cpu::X86(c) => c.write_memory(address, value),
            Cpu::Arm(c) => c.write_memory(address, value),
            Cpu::Generic(c) => c.write_memory(address, value),
        }
    }

    /// Copies bytes straight into the flat memory, bypassing the hardware
    /// map; bytes beyond the memory end are ignored.
    pub fn load_bytes(&mut self, address: u32, data: &Vec<u8>) -> (r: EmuliteResult<()>)
        requires
            data@.len() <= 0xFFFF_FFFF,
        ensures
            r is Ok,
            final(self)@ == old(self)@.load_bytes_spec(address, data@),
    {
        match self {
            Cpu::Mos6502(c) => c.load_bytes(address, data),
            Cpu::M68k(c) => c.load_bytes(address, data),
            Cpu::Mips(c) => c.load_bytes(address, data),
            Cpu::X86(c) => c.load_bytes(address, data),
            Cpu::Arm(c) => c.load_bytes(address, data),
            Cpu::Generic(c) => c.load_bytes(address, data),
        }
    }

    /// Reads a register by name; an unknown name fails, naming the
    /// register.
    pub fn get_register(&self, reg: &str) -> (r: EmuliteResult<u32>)
        ensures
            match self@.get_register_spec(reg@) {
                Some(v) => r == Ok::<u32, EmuliteError>(v),
                None => r matches Err(e) && self@.unknown_register_matches(e, reg@),
            },
    {
        match self {
            Cpu::Mos6502(c) => c.get_register(reg),
            Cpu::M68k(c) => c.get_register(reg),
            Cpu::Mips(c) => c.get_register(reg),
            Cpu::X86(c) => c.get_register(reg),
            Cpu::Arm(c) => c.get_register(reg),
            Cpu::Generic(c) => c.get_register(reg),
        }
    }

    /// Writes a register by name; an unknown name fails, naming the
    /// register.
    pub fn set_register(&mut self, reg: &str, value: u32) -> (r: EmuliteResult<()>)
        ensures
            match old(self)@.set_register_spec(reg@, value) {
                Some(p) => r is Ok && final(self)@ == p,
                None => r matches Err(e) && old(self)@.unknown_register_matches(e, reg@)
                    && final(self)@ == old(self)@,
            },
    {
        match self {
            Cpu::Mos6502(c) => c.set_register(reg, value),
            Cpu::M68k(c) => c.set_register(reg, value),
            Cpu::Mips(c) => c.set_register(reg, value),
            Cpu::X86(c) => c.set_register(reg, value),
            Cpu::Arm(c) => c.set_register(reg, value),
            Cpu::Generic(c) => c.set_register(reg, value),
        }
    }

    /// Every register of the architecture with its value.
    pub fn get_registers(&self) -> (r: Vec<(String, u32)>)
    {
        match self {
            Cpu::Mos6502(c) => c.get_registers(),
            Cpu::M68k(c) => c.get_registers(),
            Cpu::Mips(c) => c.get_registers(),
            Cpu::X86(c) => c.get_registers(),
            Cpu::Arm(c) => c.get_registers(),
            Cpu::Generic(c) => c.get_registers(),
        }
    }

    /// Whether the interpreter has halted.
    pub fn is_halted(&self) -> (r: bool)
        ensures
            r == self@.halted_spec(),
    {
        match self {
            Cpu::Mos6502(c) => c.is_halted(),
            Cpu::M68k(c) => c.is_halted(),
            Cpu::Mips(c) => c.is_halted(),
            Cpu::X86(c) => c.is_halted(),
            Cpu::Arm(c) => c.is_halted(),
            Cpu::Generic(c) => c.is_halted(),
        }
    }

    /// The flags the architecture defines; its other bits read false.
    pub fn get_flags(&self) -> (r: CpuFlags)
        ensures
            r == self@.get_flags_spec(),
    {
        match self {
            Cpu::Mos6502(c) => c.get_flags(),
            Cpu::M68k(c) => c.get_flags(),
            Cpu::Mips(c) => c.get_flags(),
            Cpu::X86(c) => c.get_flags(),
            Cpu::Arm(c) => c.get_flags(),
            Cpu::Generic(c) => c.get_flags(),
        }
    }

    /// Writes the flags the architecture defines; its other bits are
    /// accepted and ignored.
    pub fn set_flags(&mut self, flags: CpuFlags) -> (r: EmuliteResult<()>)
        ensures
            r is Ok,
            final(self)@ == old(self)@.set_flags_spec(flags),
    {
        match self {
            Cpu::Mos6502(c) => c.set_flags(flags),
            Cpu::M68k(c) => c.set_flags(flags),
            Cpu::Mips(c) => c.set_flags(flags),
            Cpu::X86(c) => c.set_flags(flags),
            Cpu::Arm(c) => c.set_flags(flags),
            Cpu::Generic(c) => c.set_flags(flags),
        }
    }

    /// The static description of this CPU.
    pub fn info(&self) -> (r: CpuInfo)
    {
        match self {
            Cpu::Mos6502(c) => c.info(),
            Cpu::M68k(c) => c.info(),
            Cpu::Mips(c) => c.info(),
            Cpu::X86(c) => c.info(),
            Cpu::Arm(c) => c.info(),
            Cpu::Generic(c) => c.info(),
        }
    }
}

/// Setting the flags that were just read is a no-op for every architecture,
/// on every state whose undefined flag bits are false (which every
/// reachable state satisfies).
pub proof fn lemma_cpu_flags_round_trip(s: CpuV)
    requires
        match s {
            CpuV::Mos6502(c) => c.wf(),
            _ => true,
        },
    ensures
        s.set_flags_spec(s.get_flags_spec()) == s,
{
    match s {
        CpuV::Mos6502(c) => {
            mos6502::lemma_mos6502_flags_round_trip(c);
        },
        CpuV::M68k(c) => {
            m68k::lemma_m68k_flags_round_trip(c);
        },
        CpuV::Mips(c) => {
            mips::lemma_mips_flags_round_trip(c);
        },
        CpuV::X86(c) => {
            x86::lemma_x86_flags_round_trip(c);
        },
        CpuV::Arm(c) => {
            arm::lemma_arm_flags_round_trip(c);
        },
        CpuV::Generic(c) => {
            generic::lemma_generic_flags_round_trip(c);
        },
    }
}

/// After a reset, the program counter equals the architecture's documented
/// reset-vector dereference over the pre-reset memory.
pub proof fn lemma_cpu_reset_vector(s: CpuV)
    ensures
        s.reset_spec().pc_spec() == match s {
            CpuV::Mos6502(c) => word16_le(c.mem, 0xFFFC) as u32,
            CpuV::M68k(c) => word32_be(c.mem, 0),
            CpuV::Mips(c) => word32_le(c.mem, 0xBFC00000),
            CpuV::X86(c) => word32_le(c.mem, 0xFFFFFFF0),
            CpuV::Arm(c) => word32_le(c.mem, 0),
            CpuV::Generic(c) => 0u32,
        },
{
}

/// Constructs interpreters by architecture name.
pub struct CpuFactory;

/// The interpreter the factory yields for a (lower-cased) name, at
/// power-on.
pub open spec fn factory_spec(name: Seq<char>) -> Option<CpuV> {
    let n = ascii_lower_seq(name);
    if n == "6502"@ || n == "mos6502"@ {
        Some(CpuV::Mos6502(mos6502::Mos6502V::initial(Seq::new(0x10000, |i: int| 0u8))))
    } else if n == "68000"@ || n == "m68k"@ {
        Some(CpuV::M68k(m68k::M68kV::initial(Seq::new(0x1000000, |i: int| 0u8))))
    } else if n == "mips"@ {
        Some(CpuV::Mips(mips::MipsV::initial(Seq::new(0x10000000, |i: int| 0u8))))
    } else if n == "x86"@ || n == "i386"@ {
        Some(CpuV::X86(x86::X86V::initial(Seq::new(0x10000000, |i: int| 0u8))))
    } else if n == "arm"@ {
        Some(CpuV::Arm(arm::ArmV::initial(Seq::new(0x10000000, |i: int| 0u8))))
    } else {
        None
    }
}

/// The message text of the unsupported-CPU error.
pub open spec fn unsupported_cpu_msg(name: Seq<char>) -> Seq<char> {
    "Unsupported CPU type: "@ + name
}

impl CpuFactory {
    /// Builds the interpreter for a case-insensitive architecture name; an
    /// unknown name fails, naming the type asked for.
    pub fn create(cpu_type: &str) -> (r: EmuliteResult<Cpu>)
        ensures
            match factory_spec(cpu_type@) {
                Some(v) => r matches Ok(c) && c@ == v,
                None => r matches Err(e) && e matches EmuliteError::CpuError(m) && m@
                    == unsupported_cpu_msg(cpu_type@),
            },
    {
        if eq_lowered(cpu_type, "6502") || eq_lowered(cpu_type, "mos6502") {
            match mos6502::Mos6502::new() {
                Ok(c) => Ok(Cpu::Mos6502(c)),
                Err(e) => Err(e),
            }
        } else if eq_lowered(cpu_type, "68000") || eq_lowered(cpu_type, "m68k") {
            match m68k::M68k::new() {
                Ok(c) => Ok(Cpu::M68k(c)),
                Err(e) => Err(e),
            }
        } else if eq_lowered(cpu_type, "mips") {
            match mips::Mips::new() {
                Ok(c) => Ok(Cpu::Mips(c)),
                Err(e) => Err(e),
            }
        } else if eq_lowered(cpu_type, "x86") || eq_lowered(cpu_type, "i386") {
            match x86::X86::new() {
                Ok(c) => Ok(Cpu::X86(c)),
                Err(e) => Err(e),
            }
        } else if eq_lowered(cpu_type, "arm") {
            match arm::Arm::new() {
                Ok(c) => Ok(Cpu::Arm(c)),
                Err(e) => Err(e),
            }
        } else {
            Err(
                EmuliteError::CpuError(
                    String::from_str("Unsupported CPU type: ").concat(cpu_type),
                ),
            )
        }
    }

    /// The architecture names the factory recognises, in a fixed order.
    pub fn supported_cpus() -> (r: Vec<&'static str>)
        ensures
            r@.len() == 5,
            r@[0]@ == "6502"@,
            r@[1]@ == "68000"@,
            r@[2]@ == "mips"@,
            r@[3]@ == "x86"@,
            r@[4]@ == "arm"@,
    {
        let mut v: Vec<&'static str> = Vec::new();
        v.push("6502");
        v.push("68000");
        v.push("mips");
        v.push("x86");
        v.push("arm");
        v
    }
}

} // verus!
