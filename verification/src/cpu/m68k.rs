//! Motorola 68000 interpreter.
//!
//! The CPU owns a 16 MiB flat memory and is big-endian: multi-byte values
//! are composed most significant byte first.  During execution and reset a
//! byte beyond the memory reads zero and writes to it are ignored, as open
//! bus; the byte-granular debug interface reports a violation instead.

use vstd::prelude::*;

use crate::cpu::{
    byte_at, mem_byte, mem_load, mem_loaded, mem_set_byte, mem_set_word16_be, mem_set_word32_be,
    mem_word16_be, mem_word32_be, mem_write, mem_write16_be, mem_write32_be, unknown_register_error,
    unknown_register_msg, word16_be, word32_be, CpuFlags, CpuInfo, Endianness,
};
use crate::error::{hex16, EmuliteError, EmuliteResult};
use crate::memory::zero_bytes;
use crate::text::{ascii_lower_seq, eq_lowered};
use vstd::wrapping::u32_specs;
use vstd::wrapping::u64_specs;
use vstd::wrapping::u8_specs;

verus! {

broadcast use vstd::string::group_string_axioms, vstd::array::group_array_axioms;

/// The addressing modes of the 68000 instruction set.
#[derive(Debug, Clone, Copy, PartialEq, Eq, Structural)]
pub enum AddressingMode {
    DataRegister,
    AddressRegister,
    AddressRegisterIndirect,
    AddressRegisterPostIncrement,
    AddressRegisterPreDecrement,
    AddressRegisterDisplacement,
    AddressRegisterIndexed,
    AbsoluteShort,
    AbsoluteLong,
    ProgramCounterDisplacement,
    ProgramCounterIndexed,
    Immediate,
    Quick,
}

/// The Motorola 68000 interpreter.
#[derive(Debug)]
pub struct M68k {
    /// Data registers D0 to D7.
    pub d: [u32; 8],
    /// Address registers A0 to A7.
    pub a: [u32; 8],
    /// Program counter.
    pub pc: u32,
    /// Status register.
    pub sr: u16,
    memory: Vec<u8>,
    cycles: u64,
    halted: bool,
    opcode: u16,
    operand: u32,
    addressing_mode: AddressingMode,
}

/// Mathematical image of the CPU state.
pub ghost struct M68kV {
    pub d: Seq<u32>,
    pub a: Seq<u32>,
    pub pc: u32,
    pub sr: u16,
    pub mem: Seq<u8>,
    pub cycles: u64,
    pub halted: bool,
    pub opcode: u16,
    pub operand: u32,
    pub mode: AddressingMode,
}

impl View for M68k {
    type V = M68kV;

    closed spec fn view(&self) -> M68kV {
        M68kV {
            d: self.d@,
            a: self.a@,
            pc: self.pc,
            sr: self.sr,
            mem: self.memory@,
            cycles: self.cycles,
            halted: self.halted,
            opcode: self.opcode,
            operand: self.operand,
            mode: self.addressing_mode,
        }
    }
}

/// A register file with index `i` set to `v`; indices outside the file
/// leave it unchanged.
pub open spec fn regs_w(regs: Seq<u32>, i: int, v: u32) -> Seq<u32> {
    if 0 <= i < regs.len() {
        regs.update(i, v)
    } else {
        regs
    }
}

/// The status register with bit `bit` set to `value`.
pub open spec fn sr_with_bit(sr: u16, bit: u8, value: bool) -> u16 {
    if value {
        sr | (1u16 << bit)
    } else {
        sr & !(1u16 << bit)
    }
}

/// The message text of an unimplemented 16-bit opcode error.
pub open spec fn unimplemented_opcode16_msg(op: u16) -> Seq<char> {
    "Unimplemented opcode: 0x"@ + hex16(op)
}

/// Builds the unimplemented 16-bit opcode error.
pub fn unimplemented_opcode16_error(op: u16) -> (r: EmuliteError)
    ensures
        r matches EmuliteError::CpuError(m) && m@ == unimplemented_opcode16_msg(op),
{
    EmuliteError::CpuError(
        String::from_str("Unimplemented opcode: 0x").concat(
            crate::error::format_hex16(op).as_str(),
        ),
    )
}

impl M68kV {
    /// The status register with the zero and negative flags set from a
    /// result of the given size.
    pub open spec fn sr_nz(sr: u16, value: u32, size: u8) -> u16 {
        let mask: u32 = if size == 8 {
            0x80
        } else if size == 16 {
            0x8000
        } else {
            0x80000000
        };
        sr_with_bit(sr_with_bit(sr, 1, value == 0), 3, value & mask != 0)
    }

    /// The effective address the current addressing mode resolves to, and
    /// the state it leaves (post-increment and pre-decrement move A0).
    pub open spec fn effective_address_spec(self) -> (u32, M68kV) {
        let s = self;
        match s.mode {
            AddressingMode::DataRegister => (s.d[0], s),
            AddressingMode::AddressRegister => (s.a[0], s),
            AddressingMode::AddressRegisterIndirect => (s.a[0], s),
            AddressingMode::AddressRegisterPostIncrement => (
                s.a[0],
                M68kV { a: regs_w(s.a, 0, u32_specs::wrapping_add(s.a[0], 1)), ..s },
            ),
            AddressingMode::AddressRegisterPreDecrement => (
                u32_specs::wrapping_sub(s.a[0], 1),
                M68kV { a: regs_w(s.a, 0, u32_specs::wrapping_sub(s.a[0], 1)), ..s },
            ),
            AddressingMode::AddressRegisterDisplacement => (
                u32_specs::wrapping_add(s.a[0], s.operand),
                s,
            ),
            AddressingMode::AddressRegisterIndexed => (
                u32_specs::wrapping_add(s.a[0], s.operand),
                s,
            ),
            AddressingMode::AbsoluteShort => ((s.operand as u16) as u32, s),
            AddressingMode::AbsoluteLong => (s.operand, s),
            AddressingMode::ProgramCounterDisplacement => (
                u32_specs::wrapping_add(s.pc, s.operand),
                s,
            ),
            AddressingMode::ProgramCounterIndexed => (
                u32_specs::wrapping_add(s.pc, s.operand),
                s,
            ),
            AddressingMode::Immediate => (s.operand, s),
            AddressingMode::Quick => (s.operand, s),
        }
    }

    /// What the already-decoded instruction does: the next state, and the
    /// opcode if it is not implemented.
    pub open spec fn exec_spec(self) -> (M68kV, Option<u16>) {
        let s = self;
        let op = s.opcode;
        if 0x2000 <= op && op <= 0x2FFF {
            let (source, s1) = s.effective_address_spec();
            let (dest, s2) = s1.effective_address_spec();
            let value = byte_at(s2.mem, source as int);
            let s3 = M68kV { mem: mem_write(s2.mem, dest as int, value), ..s2 };
            (M68kV { sr: Self::sr_nz(s3.sr, value as u32, 8), ..s3 }, None)
        } else if 0x3000 <= op && op <= 0x3FFF {
            let (source, s1) = s.effective_address_spec();
            let (dest, s2) = s1.effective_address_spec();
            let value = word16_be(s2.mem, source as int);
            let s3 = M68kV { mem: mem_write16_be(s2.mem, dest as int, value), ..s2 };
            (M68kV { sr: Self::sr_nz(s3.sr, value as u32, 16), ..s3 }, None)
        } else if 0xD000 <= op && op <= 0xDFFF {
            let (source, s1) = s.effective_address_spec();
            let (dest, s2) = s1.effective_address_spec();
            let src_value = byte_at(s2.mem, source as int);
            let dest_value = byte_at(s2.mem, dest as int);
            let result = u8_specs::wrapping_add(src_value, dest_value);
            let s3 = M68kV { mem: mem_write(s2.mem, dest as int, result), ..s2 };
            (M68kV { sr: Self::sr_nz(s3.sr, result as u32, 8), ..s3 }, None)
        } else if 0x9000 <= op && op <= 0x9FFF {
            let (source, s1) = s.effective_address_spec();
            let (dest, s2) = s1.effective_address_spec();
            let src_value = byte_at(s2.mem, source as int);
            let dest_value = byte_at(s2.mem, dest as int);
            let result = u8_specs::wrapping_sub(dest_value, src_value);
            let s3 = M68kV { mem: mem_write(s2.mem, dest as int, result), ..s2 };
            (M68kV { sr: Self::sr_nz(s3.sr, result as u32, 8), ..s3 }, None)
        } else if 0x4EC0 <= op && op <= 0x4EFF {
            let (address, s1) = s.effective_address_spec();
            (M68kV { pc: address, ..s1 }, None)
        } else if 0x4E80 <= op && op <= 0x4EBF {
            let (address, s1) = s.effective_address_spec();
            let sp = u32_specs::wrapping_sub(s1.a[7], 4);
            let s2 = M68kV {
                a: regs_w(s1.a, 7, sp),
                mem: mem_write32_be(s1.mem, sp as int, s1.pc),
                ..s1
            };
            (M68kV { pc: address, ..s2 }, None)
        } else if op == 0x4E75 {
            (
                M68kV {
                    pc: word32_be(s.mem, s.a[7] as int),
                    a: regs_w(s.a, 7, u32_specs::wrapping_add(s.a[7], 4)),
                    ..s
                },
                None,
            )
        } else if op == 0x4E71 {
            (s, None)
        } else if op == 0x4E73 {
            let sr2 = word16_be(s.mem, s.a[7] as int);
            let a7b = u32_specs::wrapping_add(s.a[7], 2);
            let pc2 = word32_be(s.mem, a7b as int);
            (
                M68kV {
                    sr: sr2,
                    pc: pc2,
                    a: regs_w(s.a, 7, u32_specs::wrapping_add(a7b, 4)),
                    ..s
                },
                None,
            )
        } else {
            (s, Some(op))
        }
    }

    /// One fetch-decode-execute step: a no-op while halted, otherwise the
    /// big-endian word at the program counter is fetched, the addressing
    /// mode and operand are decoded, the program counter advances and the
    /// instruction executes; the cycle counter advances on success.
    pub open spec fn step_spec(self) -> (M68kV, Option<u16>) {
        if self.halted {
            (self, None)
        } else {
            let op = word16_be(self.mem, self.pc as int);
            let s1 = M68kV { opcode: op, pc: u32_specs::wrapping_add(self.pc, 2), ..self };
            let s2 = if (0x2000 <= op && op <= 0x3FFF) || (0xD000 <= op && op <= 0xDFFF) || (0x9000
                <= op && op <= 0x9FFF) {
                M68kV { mode: AddressingMode::DataRegister, operand: 0, ..s1 }
            } else if 0x4E80 <= op && op <= 0x4EFF {
                M68kV {
                    mode: AddressingMode::AbsoluteLong,
                    operand: word32_be(s1.mem, s1.pc as int),
                    pc: u32_specs::wrapping_add(s1.pc, 4),
                    ..s1
                }
            } else {
                M68kV { mode: AddressingMode::DataRegister, operand: 0, ..s1 }
            };
            let (s3, fault) = s2.exec_spec();
            match fault {
                None => (M68kV { cycles: u64_specs::wrapping_add(s3.cycles, 1), ..s3 }, None),
                Some(f) => (s3, Some(f)),
            }
        }
    }

    /// The flags the architecture defines, read from status register bits;
    /// `sign` aliases the negative bit.
    pub open spec fn get_flags_spec(self) -> CpuFlags {
        CpuFlags {
            carry: self.sr & 0x0001 != 0,
            zero: self.sr & 0x0002 != 0,
            overflow: self.sr & 0x0004 != 0,
            negative: self.sr & 0x0008 != 0,
            extend: self.sr & 0x0010 != 0,
            interrupt_disable: self.sr & 0x0100 != 0,
            decimal: false,
            break_command: false,
            sign: self.sr & 0x0008 != 0,
            parity: false,
            auxiliary_carry: false,
        }
    }

    /// The status register after a `set_flags` write of the defined bits.
    pub open spec fn sr_with(sr: u16, flags: CpuFlags) -> u16 {
        let e: u16 = if flags.carry { sr | 0x0001 } else { sr & !0x0001u16 };
        let e: u16 = if flags.zero { e | 0x0002 } else { e & !0x0002u16 };
        let e: u16 = if flags.overflow { e | 0x0004 } else { e & !0x0004u16 };
        let e: u16 = if flags.negative { e | 0x0008 } else { e & !0x0008u16 };
        let e: u16 = if flags.extend { e | 0x0010 } else { e & !0x0010u16 };
        let e: u16 = if flags.interrupt_disable { e | 0x0100 } else { e & !0x0100u16 };
        e
    }

    /// The state a `set_flags` write leaves.
    pub open spec fn set_flags_spec(self, flags: CpuFlags) -> M68kV {
        M68kV { sr: Self::sr_with(self.sr, flags), ..self }
    }

    /// The value `get_register` yields for a (lower-cased) register name.
    pub open spec fn get_register_spec(self, name: Seq<char>) -> Option<u32> {
        let n = ascii_lower_seq(name);
        if n == "pc"@ {
            Some(self.pc)
        } else if n == "sr"@ {
            Some(self.sr as u32)
        } else {
            match Self::data_index(n) {
                Some(i) => Some(self.d[i]),
                None => match Self::address_index(n) {
                    Some(i) => Some(self.a[i]),
                    None => None,
                },
            }
        }
    }

    /// The data register index a name denotes.
    pub open spec fn data_index(n: Seq<char>) -> Option<int> {
        if n == "d0"@ {
            Some(0int)
        } else if n == "d1"@ {
            Some(1int)
        } else if n == "d2"@ {
            Some(2int)
        } else if n == "d3"@ {
            Some(3int)
        } else if n == "d4"@ {
            Some(4int)
        } else if n == "d5"@ {
            Some(5int)
        } else if n == "d6"@ {
            Some(6int)
        } else if n == "d7"@ {
            Some(7int)
        } else {
            None
        }
    }

    /// The address register index a name denotes.
    pub open spec fn address_index(n: Seq<char>) -> Option<int> {
        if n == "a0"@ {
            Some(0int)
        } else if n == "a1"@ {
            Some(1int)
        } else if n == "a2"@ {
            Some(2int)
        } else if n == "a3"@ {
            Some(3int)
        } else if n == "a4"@ {
            Some(4int)
        } else if n == "a5"@ {
            Some(5int)
        } else if n == "a6"@ {
            Some(6int)
        } else if n == "a7"@ {
            Some(7int)
        } else {
            None
        }
    }

    /// The state `set_register` leaves for a (lower-cased) register name.
    pub open spec fn set_register_spec(self, name: Seq<char>, value: u32) -> Option<M68kV> {
        let n = ascii_lower_seq(name);
        if n == "pc"@ {
            Some(M68kV { pc: value, ..self })
        } else if n == "sr"@ {
            Some(M68kV { sr: value as u16, ..self })
        } else {
            match Self::data_index(n) {
                Some(i) => Some(M68kV { d: regs_w(self.d, i, value), ..self }),
                None => match Self::address_index(n) {
                    Some(i) => Some(M68kV { a: regs_w(self.a, i, value), ..self }),
                    None => None,
                },
            }
        }
    }

    /// Whether `value` fits the named register's width.
    pub open spec fn register_fits(name: Seq<char>, value: u32) -> bool {
        let n = ascii_lower_seq(name);
        if n == "sr"@ {
            value <= 0xFFFF
        } else {
            true
        }
    }

    /// The power-on reset state: registers cleared, program counter loaded
    /// from the big-endian dword at address 0 of the pre-reset memory, the
    /// status register at its supervisor power-on value, then the memory
    /// cleared.
    pub open spec fn reset_spec(self) -> M68kV {
        M68kV {
            d: Seq::new(8, |i: int| 0u32),
            a: Seq::new(8, |i: int| 0u32),
            pc: word32_be(self.mem, 0),
            sr: 0x2000,
            mem: Seq::new(self.mem.len(), |i: int| 0u8),
            cycles: 0,
            halted: false,
            ..self
        }
    }

    /// The power-on state over a given memory image.
    pub open spec fn initial(mem: Seq<u8>) -> M68kV {
        M68kV {
            d: Seq::new(8, |i: int| 0u32),
            a: Seq::new(8, |i: int| 0u32),
            pc: 0,
            sr: 0x2000,
            mem,
            cycles: 0,
            halted: false,
            opcode: 0,
            operand: 0,
            mode: AddressingMode::DataRegister,
        }
    }
}

/// Setting the flags that were just read changes nothing: every defined
/// status register bit is rewritten with its own value.
pub proof fn lemma_m68k_flags_round_trip(s: M68kV)
    ensures
        s.set_flags_spec(s.get_flags_spec()) == s,
{
    let e = s.sr;
    assert(({
        let x: u16 = if e & 0x0001 != 0 { e | 0x0001 } else { e & !0x0001u16 };
        let x: u16 = if e & 0x0002 != 0 { x | 0x0002 } else { x & !0x0002u16 };
        let x: u16 = if e & 0x0004 != 0 { x | 0x0004 } else { x & !0x0004u16 };
        let x: u16 = if e & 0x0008 != 0 { x | 0x0008 } else { x & !0x0008u16 };
        let x: u16 = if e & 0x0010 != 0 { x | 0x0010 } else { x & !0x0010u16 };
        let x: u16 = if e & 0x0100 != 0 { x | 0x0100 } else { x & !0x0100u16 };
        x
    }) == e) by (bit_vector);
}

/// Writing a register and reading it back yields the value written, for
/// every register the architecture documents and every value that fits its
/// width.
pub proof fn lemma_m68k_register_round_trip(s: M68kV, name: Seq<char>, value: u32)
    requires
        s.set_register_spec(name, value) is Some,
        M68kV::register_fits(name, value),
        s.d.len() == 8,
        s.a.len() == 8,
    ensures
        match s.set_register_spec(name, value) {
            Some(s2) => s2.get_register_spec(name) == Some(value),
            None => false,
        },
{
    reveal_strlit("pc");
    reveal_strlit("sr");
    assert("pc"@.len() == 2 && "sr"@.len() == 2);
    assert("pc"@[0] == 'p' && "sr"@[0] == 's');
    let n = ascii_lower_seq(name);
    if n == "sr"@ {
        assert(value <= 0xFFFF);
        assert((value as u16) as u32 == value);
    } else if n != "pc"@ {
        match M68kV::data_index(n) {
            Some(i) => {
                assert(0 <= i < 8);
            },
            None => {
                match M68kV::address_index(n) {
                    Some(i) => {
                        assert(0 <= i < 8);
                    },
                    None => {
                        assert(false);
                    },
                }
            },
        }
    }
}

impl M68k {
    /// A 68000 at power-on over a zeroed 16 MiB memory.
    pub fn new() -> (r: EmuliteResult<M68k>)
        ensures
            r matches Ok(c) && c@ == M68kV::initial(Seq::new(0x1000000, |i: int| 0u8)),
    {
        let r = M68k {
            d: [0; 8],
            a: [0; 8],
            pc: 0,
            sr: 0x2000,
            memory: zero_bytes(0x1000000),
            cycles: 0,
            halted: false,
            opcode: 0,
            operand: 0,
            addressing_mode: AddressingMode::DataRegister,
        };
        proof {
            assert(r@.d =~= Seq::new(8, |i: int| 0u32));
            assert(r@.a =~= Seq::new(8, |i: int| 0u32));
        }
        Ok(r)
    }

    /// Raw big-endian word read of the flat memory.
    fn read_memory_16(&self, address: u32) -> (r: u16)
        ensures
            r == word16_be(self@.mem, address as int),
    {
        mem_word16_be(&self.memory, address)
    }

    /// Raw big-endian word write of the flat memory.
    fn write_memory_16(&mut self, address: u32, value: u16)
        ensures
            final(self)@ == (M68kV {
                mem: mem_write16_be(old(self)@.mem, address as int, value),
                ..old(self)@
            }),
    {
        mem_set_word16_be(&mut self.memory, address, value);
    }

    /// Raw big-endian dword read of the flat memory.
    fn read_memory_32(&self, address: u32) -> (r: u32)
        ensures
            r == word32_be(self@.mem, address as int),
    {
        mem_word32_be(&self.memory, address)
    }

    /// Raw big-endian dword write of the flat memory.
    fn write_memory_32(&mut self, address: u32, value: u32)
        ensures
            final(self)@ == (M68kV {
                mem: mem_write32_be(old(self)@.mem, address as int, value),
                ..old(self)@
            }),
    {
        mem_set_word32_be(&mut self.memory, address, value);
    }

    /// Resolves the current addressing mode to an effective address;
    /// post-increment and pre-decrement move A0.
    fn get_effective_address(&mut self) -> (r: u32)
        ensures
            ({
                let (addr, post) = old(self)@.effective_address_spec();
                r == addr && final(self)@ == post
            }),
    {
        match self.addressing_mode {
            AddressingMode::DataRegister => self.d[0],
            AddressingMode::AddressRegister => self.a[0],
            AddressingMode::AddressRegisterIndirect => self.a[0],
            AddressingMode::AddressRegisterPostIncrement => {
                let addr = self.a[0];
                self.a[0] = self.a[0].wrapping_add(1);
                addr
            },
            AddressingMode::AddressRegisterPreDecrement => {
                self.a[0] = self.a[0].wrapping_sub(1);
                self.a[0]
            },
            AddressingMode::AddressRegisterDisplacement => self.a[0].wrapping_add(self.operand),
            AddressingMode::AddressRegisterIndexed => self.a[0].wrapping_add(self.operand),
            AddressingMode::AbsoluteShort => (self.operand as u16) as u32,
            AddressingMode::AbsoluteLong => self.operand,
            AddressingMode::ProgramCounterDisplacement => self.pc.wrapping_add(self.operand),
            AddressingMode::ProgramCounterIndexed => self.pc.wrapping_add(self.operand),
            AddressingMode::Immediate => self.operand,
            AddressingMode::Quick => self.operand,
        }
    }

    /// Sets the status register bit `bit` to `value`.
    fn set_flag(&mut self, bit: u8, value: bool)
        requires
            bit < 16,
        ensures
            final(self)@ == (M68kV { sr: sr_with_bit(old(self)@.sr, bit, value), ..old(self)@ }),
    {
        if value {
            self.sr |= 1u16 << bit;
        } else {
            self.sr &= !(1u16 << bit);
        }
    }

    /// Whether the status register bit `bit` is set.
    fn get_flag(&self, bit: u8) -> (r: bool)
        requires
            bit < 16,
        ensures
            r == (self@.sr & (1u16 << bit) != 0),
    {
        (self.sr & (1u16 << bit)) != 0
    }

    /// Sets the zero and negative flags from a result of the given size.
    fn update_flags_nz(&mut self, value: u32, size: u8)
        ensures
            final(self)@ == (M68kV { sr: M68kV::sr_nz(old(self)@.sr, value, size), ..old(self)@ }),
    {
        let mask: u32 = if size == 8 {
            0x80
        } else if size == 16 {
            0x8000
        } else {
            0x80000000
        };
        self.set_flag(1, value == 0);
        self.set_flag(3, (value & mask) != 0);
    }

    /// Executes the already-fetched opcode.
    #[verifier::rlimit(100)]
    fn execute_instruction(&mut self) -> (r: EmuliteResult<()>)
        ensures
            ({
                let (post, fault) = old(self)@.exec_spec();
                final(self)@ == post && match fault {
                    None => r is Ok,
                    Some(op) => r matches Err(e) && e matches EmuliteError::CpuError(m) && m@
                        == unimplemented_opcode16_msg(op),
                }
            }),
    {
        let op = self.opcode;
        if 0x2000 <= op && op <= 0x2FFF {
            let source = self.get_effective_address();
            let dest = self.get_effective_address();
            let value = mem_byte(&self.memory, source as u64);
            mem_set_byte(&mut self.memory, dest as u64, value);
            self.update_flags_nz(value as u32, 8);
            proof { assert(self@.a =~= old(self)@.exec_spec().0.a); }
            Ok(())
        } else if 0x3000 <= op && op <= 0x3FFF {
            let source = self.get_effective_address();
            let dest = self.get_effective_address();
            let value = self.read_memory_16(source);
            self.write_memory_16(dest, value);
            self.update_flags_nz(value as u32, 16);
            proof { assert(self@.a =~= old(self)@.exec_spec().0.a); }
            Ok(())
        } else if 0xD000 <= op && op <= 0xDFFF {
            let source = self.get_effective_address();
            let dest = self.get_effective_address();
            let src_value = mem_byte(&self.memory, source as u64);
            let dest_value = mem_byte(&self.memory, dest as u64);
            let result = src_value.wrapping_add(dest_value);
            mem_set_byte(&mut self.memory, dest as u64, result);
            self.update_flags_nz(result as u32, 8);
            proof { assert(self@.a =~= old(self)@.exec_spec().0.a); }
            Ok(())
        } else if 0x9000 <= op && op <= 0x9FFF {
            let source = self.get_effective_address();
            let dest = self.get_effective_address();
            let src_value = mem_byte(&self.memory, source as u64);
            let dest_value = mem_byte(&self.memory, dest as u64);
            let result = dest_value.wrapping_sub(src_value);
            mem_set_byte(&mut self.memory, dest as u64, result);
            self.update_flags_nz(result as u32, 8);
            proof { assert(self@.a =~= old(self)@.exec_spec().0.a); }
            Ok(())
        } else if 0x4EC0 <= op && op <= 0x4EFF {
            let address = self.get_effective_address();
            self.pc = address;
            proof { assert(self@.a =~= old(self)@.exec_spec().0.a); }
            Ok(())
        } else if 0x4E80 <= op && op <= 0x4EBF {
            let address = self.get_effective_address();
            self.a[7] = self.a[7].wrapping_sub(4);
            let sp = self.a[7];
            let pc = self.pc;
            self.write_memory_32(sp, pc);
            self.pc = address;
            proof { assert(self@.a =~= old(self)@.exec_spec().0.a); }
            Ok(())
        } else if op == 0x4E75 {
            self.pc = self.read_memory_32(self.a[7]);
            self.a[7] = self.a[7].wrapping_add(4);
            proof { assert(self@.a =~= old(self)@.exec_spec().0.a); }
            Ok(())
        } else if op == 0x4E71 {
            proof { assert(self@.a =~= old(self)@.exec_spec().0.a); }
            Ok(())
        } else if op == 0x4E73 {
            self.sr = self.read_memory_16(self.a[7]);
            self.a[7] = self.a[7].wrapping_add(2);
            self.pc = self.read_memory_32(self.a[7]);
            self.a[7] = self.a[7].wrapping_add(4);
            proof { assert(self@.a =~= old(self)@.exec_spec().0.a); }
            Ok(())
        } else {
            Err(unimplemented_opcode16_error(op))
        }
    }

    /// One fetch-decode-execute step; a no-op while halted.  An
    /// unimplemented opcode is reported as a CPU error with the program
    /// counter already advanced past the instruction word.
    #[verifier::rlimit(100)]
    pub fn step(&mut self) -> (r: EmuliteResult<()>)
        ensures
            ({
                let (post, fault) = old(self)@.step_spec();
                final(self)@ == post && match fault {
                    None => r is Ok,
                    Some(op) => r matches Err(e) && e matches EmuliteError::CpuError(m) && m@
                        == unimplemented_opcode16_msg(op),
                }
            }),
    {
        if self.halted {
            return Ok(());
        }
        let op = self.read_memory_16(self.pc);
        self.opcode = op;
        self.pc = self.pc.wrapping_add(2);
        if (0x2000 <= op && op <= 0x3FFF) || (0xD000 <= op && op <= 0xDFFF) || (0x9000 <= op && op
            <= 0x9FFF) {
            self.addressing_mode = AddressingMode::DataRegister;
            self.operand = 0;
        } else if 0x4E80 <= op && op <= 0x4EFF {
            self.addressing_mode = AddressingMode::AbsoluteLong;
            self.operand = self.read_memory_32(self.pc);
            self.pc = self.pc.wrapping_add(4);
        } else {
            self.addressing_mode = AddressingMode::DataRegister;
            self.operand = 0;
        }
        match self.execute_instruction() {
            Ok(_) => {
                self.cycles = self.cycles.wrapping_add(1);
                Ok(())
            },
            Err(e) => Err(e),
        }
    }

    /// Power-on reset: registers cleared, program counter loaded from the
    /// big-endian dword at address 0 of the pre-reset memory, the status
    /// register at its supervisor power-on value, then the memory cleared.
    pub fn reset(&mut self) -> (r: EmuliteResult<()>)
        ensures
            r is Ok,
            final(self)@ == old(self)@.reset_spec(),
            final(self)@.pc == word32_be(old(self)@.mem, 0),
    {
        self.d = [0; 8];
        self.a = [0; 8];
        self.pc = self.read_memory_32(0);
        self.sr = 0x2000;
        let len = self.memory.len();
        self.memory = zero_bytes(len);
        self.cycles = 0;
        self.halted = false;
        proof {
            assert(self@.d =~= Seq::new(8, |i: int| 0u32));
            assert(self@.a =~= Seq::new(8, |i: int| 0u32));
        }
        Ok(())
    }

    /// The architecture's factory name.
    pub fn name(&self) -> (r: &'static str)
        ensures
            r@ == "68000"@,
    {
        "68000"
    }

    /// The current program counter.
    pub fn pc(&self) -> (r: u32)
        ensures
            r == self@.pc,
    {
        self.pc
    }

    /// Sets the program counter.
    pub fn set_pc(&mut self, pc: u32) -> (r: EmuliteResult<()>)
        ensures
            r is Ok,
            final(self)@ == (M68kV { pc, ..old(self)@ }),
    {
        self.pc = pc;
        Ok(())
    }

    /// Reads one byte; an address beyond the allocated memory fails with a
    /// violation carrying the address.
    pub fn read_memory(&self, address: u32) -> (r: EmuliteResult<u8>)
        ensures
            (address as int) < self@.mem.len() ==> r == Ok::<u8, EmuliteError>(
                self@.mem[address as int],
            ),
            (address as int) >= self@.mem.len() ==> r == Err::<u8, EmuliteError>(
                EmuliteError::MemoryAccessViolation(address),
            ),
    {
        if (address as usize) < self.memory.len() {
            Ok(self.memory[address as usize])
        } else {
            Err(EmuliteError::MemoryAccessViolation(address))
        }
    }

    /// Writes one byte; an address beyond the allocated memory fails with a
    /// violation carrying the address.
    pub fn write_memory(&mut self, address: u32, value: u8) -> (r: EmuliteResult<()>)
        ensures
            (address as int) < old(self)@.mem.len() ==> r is Ok && final(self)@ == (M68kV {
                mem: old(self)@.mem.update(address as int, value),
                ..old(self)@
            }),
            (address as int) >= old(self)@.mem.len() ==> r == Err::<(), EmuliteError>(
                EmuliteError::MemoryAccessViolation(address),
            ) && final(self)@ == old(self)@,
    {
        if (address as usize) < self.memory.len() {
            self.memory.set(address as usize, value);
            Ok(())
        } else {
            Err(EmuliteError::MemoryAccessViolation(address))
        }
    }

    /// Copies bytes straight into the flat memory at `address`; bytes
    /// beyond the memory end are ignored.
    pub fn load_bytes(&mut self, address: u32, data: &Vec<u8>) -> (r: EmuliteResult<()>)
        requires
            data@.len() <= 0xFFFF_FFFF,
        ensures
            r is Ok,
            final(self)@ == (M68kV {
                mem: mem_loaded(old(self)@.mem, address as int, data@),
                ..old(self)@
            }),
    {
        mem_load(&mut self.memory, address, data);
        Ok(())
    }

    /// Looks up a data register index for a (case-insensitive) name.
    fn data_index_exec(&self, reg: &str) -> (r: Option<usize>)
        ensures
            match M68kV::data_index(ascii_lower_seq(reg@)) {
                Some(i) => r matches Some(u) && u as int == i && i < 8,
                None => r is None,
            },
    {
        if eq_lowered(reg, "d0") {
            Some(0)
        } else if eq_lowered(reg, "d1") {
            Some(1)
        } else if eq_lowered(reg, "d2") {
            Some(2)
        } else if eq_lowered(reg, "d3") {
            Some(3)
        } else if eq_lowered(reg, "d4") {
            Some(4)
        } else if eq_lowered(reg, "d5") {
            Some(5)
        } else if eq_lowered(reg, "d6") {
            Some(6)
        } else if eq_lowered(reg, "d7") {
            Some(7)
        } else {
            None
        }
    }

    /// Looks up an address register index for a (case-insensitive) name.
    fn address_index_exec(&self, reg: &str) -> (r: Option<usize>)
        ensures
            match M68kV::address_index(ascii_lower_seq(reg@)) {
                Some(i) => r matches Some(u) && u as int == i && i < 8,
                None => r is None,
            },
    {
        if eq_lowered(reg, "a0") {
            Some(0)
        } else if eq_lowered(reg, "a1") {
            Some(1)
        } else if eq_lowered(reg, "a2") {
            Some(2)
        } else if eq_lowered(reg, "a3") {
            Some(3)
        } else if eq_lowered(reg, "a4") {
            Some(4)
        } else if eq_lowered(reg, "a5") {
            Some(5)
        } else if eq_lowered(reg, "a6") {
            Some(6)
        } else if eq_lowered(reg, "a7") {
            Some(7)
        } else {
            None
        }
    }

    /// Reads a register by case-insensitive name; an unknown name fails,
    /// naming the register.
    pub fn get_register(&self, reg: &str) -> (r: EmuliteResult<u32>)
        ensures
            match self@.get_register_spec(reg@) {
                Some(v) => r == Ok::<u32, EmuliteError>(v),
                None => r matches Err(e) && e matches EmuliteError::CpuError(m) && m@
                    == unknown_register_msg(reg@),
            },
    {
        if eq_lowered(reg, "pc") {
            return Ok(self.pc);
        }
        if eq_lowered(reg, "sr") {
            return Ok(self.sr as u32);
        }
        match self.data_index_exec(reg) {
            Some(i) => Ok(self.d[i]),
            None => match self.address_index_exec(reg) {
                Some(i) => Ok(self.a[i]),
                None => Err(unknown_register_error(reg)),
            },
        }
    }

    /// Writes a register by case-insensitive name, truncating the value to
    /// the status register's width; an unknown name fails, naming the
    /// register.
    pub fn set_register(&mut self, reg: &str, value: u32) -> (r: EmuliteResult<()>)
        ensures
            match old(self)@.set_register_spec(reg@, value) {
                Some(s) => r is Ok && final(self)@ == s,
                None => r matches Err(e) && e matches EmuliteError::CpuError(m) && m@
                    == unknown_register_msg(reg@) && final(self)@ == old(self)@,
            },
    {
        if eq_lowered(reg, "pc") {
            self.pc = value;
            return Ok(());
        }
        if eq_lowered(reg, "sr") {
            self.sr = value as u16;
            return Ok(());
        }
        match self.data_index_exec(reg) {
            Some(i) => {
                self.d[i] = value;
                Ok(())
            },
            None => match self.address_index_exec(reg) {
                Some(i) => {
                    self.a[i] = value;
                    Ok(())
                },
                None => Err(unknown_register_error(reg)),
            },
        }
    }

    /// Every data and address register with its value, then the program
    /// counter and the status register.
    pub fn get_registers(&self) -> (r: Vec<(String, u32)>)
        ensures
            r@.len() == 18,
            forall|i: int| 0 <= i < 8 ==> (#[trigger] r@[i]).1 == self@.d[i],
            forall|i: int| 8 <= i < 16 ==> (#[trigger] r@[i]).1 == self@.a[i - 8],
            r@[16].0@ == "pc"@ && r@[16].1 == self@.pc,
            r@[17].0@ == "sr"@ && r@[17].1 == self@.sr as u32,
    {
        let mut registers: Vec<(String, u32)> = Vec::new();
        let dnames: [&str; 8] = ["d0", "d1", "d2", "d3", "d4", "d5", "d6", "d7"];
        let anames: [&str; 8] = ["a0", "a1", "a2", "a3", "a4", "a5", "a6", "a7"];
        let mut i: usize = 0;
        while i < 8
            invariant
                i <= 8,
                registers@.len() == i,
                forall|j: int| 0 <= j < i ==> (#[trigger] registers@[j]).1 == self@.d[j],
            decreases 8 - i,
        {
            registers.push((String::from_str(dnames[i]), self.d[i]));
            i = i + 1;
        }
        let mut k: usize = 0;
        while k < 8
            invariant
                k <= 8,
                registers@.len() == 8 + k,
                forall|j: int| 0 <= j < 8 ==> (#[trigger] registers@[j]).1 == self@.d[j],
                forall|j: int| 8 <= j < 8 + k ==> (#[trigger] registers@[j]).1 == self@.a[j - 8],
            decreases 8 - k,
        {
            registers.push((String::from_str(anames[k]), self.a[k]));
            k = k + 1;
        }
        registers.push((String::from_str("pc"), self.pc));
        registers.push((String::from_str("sr"), self.sr as u32));
        registers
    }

    /// Whether the CPU has halted.
    pub fn is_halted(&self) -> (r: bool)
        ensures
            r == self@.halted,
    {
        self.halted
    }

    /// The flags the architecture defines, read from status register bits.
    pub fn get_flags(&self) -> (r: CpuFlags)
        ensures
            r == self@.get_flags_spec(),
    {
        CpuFlags {
            carry: (self.sr & 0x0001) != 0,
            zero: (self.sr & 0x0002) != 0,
            overflow: (self.sr & 0x0004) != 0,
            negative: (self.sr & 0x0008) != 0,
            extend: (self.sr & 0x0010) != 0,
            interrupt_disable: (self.sr & 0x0100) != 0,
            decimal: false,
            break_command: false,
            sign: (self.sr & 0x0008) != 0,
            parity: false,
            auxiliary_carry: false,
        }
    }

    /// Writes the defined status register bits; flags the architecture does
    /// not define are accepted and ignored.
    pub fn set_flags(&mut self, flags: CpuFlags) -> (r: EmuliteResult<()>)
        ensures
            r is Ok,
            final(self)@ == old(self)@.set_flags_spec(flags),
    {
        if flags.carry {
            self.sr |= 0x0001;
        } else {
            self.sr &= !0x0001;
        }
        if flags.zero {
            self.sr |= 0x0002;
        } else {
            self.sr &= !0x0002;
        }
        if flags.overflow {
            self.sr |= 0x0004;
        } else {
            self.sr &= !0x0004;
        }
        if flags.negative {
            self.sr |= 0x0008;
        } else {
            self.sr &= !0x0008;
        }
        if flags.extend {
            self.sr |= 0x0010;
        } else {
            self.sr &= !0x0010;
        }
        if flags.interrupt_disable {
            self.sr |= 0x0100;
        } else {
            self.sr &= !0x0100;
        }
        Ok(())
    }

    /// The static description of this CPU.
    pub fn info(&self) -> (r: CpuInfo)
        ensures
            r.name@ == "Motorola 68000"@,
            r.architecture@ == "68000"@,
            r.bits == 32,
            r.endianness == Endianness::Big,
            r.register_count == 18,
            r.instruction_count == 56,
            r.clock_speed_hz == 7_670_000,
    {
        CpuInfo {
            name: String::from_str("Motorola 68000"),
            architecture: String::from_str("68000"),
            bits: 32,
            endianness: Endianness::Big,
            register_count: 18,
            instruction_count: 56,
            clock_speed_hz: 7_670_000,
        }
    }
}

} // verus!
