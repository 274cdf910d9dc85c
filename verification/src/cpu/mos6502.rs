//! MOS 6502 interpreter, as used by the Atari 2600 and NES platforms.
//!
//! The CPU owns a 64 KiB flat memory.  Its byte-granular interface follows
//! the Atari 2600 hardware map: the write-only peripheral window at
//! `0x0000..=0x007F` always reads zero, `0x0080..=0x00FF` is RAM,
//! `0x0100..=0x01FF` mirrors that RAM, `0x1000..=0x1FFF` and
//! `0xF000..=0xFFFF` are cartridge ROM, and every other address reads zero
//! and ignores writes.

use vstd::prelude::*;

use crate::cpu::{
    byte_at, mem_byte, mem_load, mem_loaded, mem_set_byte, mem_write, mem_write16_le,
    mem_word16_le, unimplemented_opcode_error, unimplemented_opcode_msg, unknown_register_error,
    unknown_register_msg, word16_le, CpuFlags, CpuInfo, Endianness, flags_cleared,
};
use crate::error::{EmuliteError, EmuliteResult};
use crate::memory::zero_bytes;
use crate::text::{ascii_lower_seq, eq_lowered};
use vstd::wrapping::u16_specs;
use vstd::wrapping::u8_specs;

verus! {

broadcast use vstd::string::group_string_axioms;

/// The addressing modes of the 6502 instruction set.
#[derive(Debug, Clone, Copy, PartialEq, Eq, Structural)]
pub enum AddressingMode {
    Implied,
    Immediate,
    ZeroPage,
    ZeroPageX,
    ZeroPageY,
    Absolute,
    AbsoluteX,
    AbsoluteY,
    Indirect,
    IndirectX,
    IndirectY,
    Relative,
}

/// The MOS 6502 interpreter.
#[derive(Debug)]
pub struct Mos6502 {
    /// Accumulator.
    pub a: u8,
    /// X index register.
    pub x: u8,
    /// Y index register.
    pub y: u8,
    /// Stack pointer.
    pub sp: u8,
    /// Program counter.
    pub pc: u16,
    /// Status flags.
    pub flags: CpuFlags,
    memory: Vec<u8>,
    cycles: u64,
    halted: bool,
    opcode: u8,
    operand: u16,
    addressing_mode: AddressingMode,
}

/// Mathematical image of the CPU state.
pub ghost struct Mos6502V {
    pub a: u8,
    pub x: u8,
    pub y: u8,
    pub sp: u8,
    pub pc: u16,
    pub flags: CpuFlags,
    pub mem: Seq<u8>,
    pub cycles: u64,
    pub halted: bool,
    pub opcode: u8,
    pub operand: u16,
    pub mode: AddressingMode,
}

impl View for Mos6502 {
    type V = Mos6502V;

    closed spec fn view(&self) -> Mos6502V {
        Mos6502V {
            a: self.a,
            x: self.x,
            y: self.y,
            sp: self.sp,
            pc: self.pc,
            flags: self.flags,
            mem: self.memory@,
            cycles: self.cycles,
            halted: self.halted,
            opcode: self.opcode,
            operand: self.operand,
            mode: self.addressing_mode,
        }
    }
}

/// The flags the 6502 defines; every other flag bit stays false.
pub open spec fn normalize_flags_6502(f: CpuFlags) -> CpuFlags {
    CpuFlags {
        carry: f.carry,
        zero: f.zero,
        interrupt_disable: f.interrupt_disable,
        decimal: f.decimal,
        break_command: f.break_command,
        overflow: f.overflow,
        negative: f.negative,
        sign: false,
        parity: false,
        auxiliary_carry: false,
        extend: false,
    }
}

/// Zero and negative flags updated from a result byte.
pub open spec fn flags_nz(f: CpuFlags, value: u8) -> CpuFlags {
    CpuFlags { zero: value == 0, negative: value & 0x80 != 0, ..f }
}

/// What the byte-granular interface reads at `address` under the hardware
/// map: zero for the write-only window, RAM and its stack mirror, ROM and
/// its mirror, zero everywhere else.
pub open spec fn read_mapped(mem: Seq<u8>, address: u32) -> u8 {
    if address <= 0x7F {
        0
    } else if address <= 0xFF {
        byte_at(mem, address as int)
    } else if address <= 0x1FF {
        byte_at(mem, address - 0x100)
    } else if address <= 0x2FF {
        0
    } else if 0x1000 <= address && address <= 0x1FFF {
        byte_at(mem, address as int)
    } else if 0xF000 <= address && address <= 0xFFFF {
        byte_at(mem, address as int)
    } else {
        0
    }
}

/// What the byte-granular interface writes at `address` under the hardware
/// map: RAM and its stack mirror take the byte, every other address ignores
/// it.
pub open spec fn write_mapped(mem: Seq<u8>, address: u32, value: u8) -> Seq<u8> {
    if address <= 0x7F {
        mem
    } else if address <= 0xFF {
        mem_write(mem, address as int, value)
    } else if address <= 0x1FF {
        mem_write(mem, address - 0x100, value)
    } else {
        mem
    }
}

impl Mos6502V {
    /// Flags the architecture does not define stay false, and the memory
    /// keeps its 64 KiB size.
    pub open spec fn wf(self) -> bool {
        self.flags == normalize_flags_6502(self.flags) && self.mem.len() == 0x10000
    }

    /// The power-on state over a given memory image.
    pub open spec fn initial(mem: Seq<u8>) -> Mos6502V {
        Mos6502V {
            a: 0,
            x: 0,
            y: 0,
            sp: 0xFF,
            pc: 0xFFFC,
            flags: flags_cleared(),
            mem,
            cycles: 0,
            halted: false,
            opcode: 0,
            operand: 0,
            mode: AddressingMode::Implied,
        }
    }

    /// What one instruction does once fetched: the next state, and the
    /// opcode of an unimplemented instruction if one was hit.
    pub open spec fn exec_spec(self, op: u8) -> (Mos6502V, Option<u8>) {
        let s = self;
        match op {
            0xA9 => {
                let value = read_mapped(s.mem, s.pc as u32);
                let s2 = Mos6502V { pc: u16_specs::wrapping_add(s.pc, 1), a: value, ..s };
                (Mos6502V { flags: flags_nz(s2.flags, value), ..s2 }, None)
            },
            0xA5 => {
                let addr = read_mapped(s.mem, s.pc as u32) as u16;
                let value = read_mapped(s.mem, addr as u32);
                let s2 = Mos6502V { pc: u16_specs::wrapping_add(s.pc, 1), a: value, ..s };
                (Mos6502V { flags: flags_nz(s2.flags, value), ..s2 }, None)
            },
            0xAD => {
                let addr = word16_le(s.mem, s.pc as int);
                let value = read_mapped(s.mem, addr as u32);
                let s2 = Mos6502V { pc: u16_specs::wrapping_add(s.pc, 2), a: value, ..s };
                (Mos6502V { flags: flags_nz(s2.flags, value), ..s2 }, None)
            },
            0x85 => {
                let addr = read_mapped(s.mem, s.pc as u32) as u16;
                let s2 = Mos6502V { pc: u16_specs::wrapping_add(s.pc, 1), ..s };
                (Mos6502V { mem: write_mapped(s2.mem, addr as u32, s2.a), ..s2 }, None)
            },
            0x8D => {
                let addr = word16_le(s.mem, s.pc as int);
                let s2 = Mos6502V { pc: u16_specs::wrapping_add(s.pc, 2), ..s };
                (Mos6502V { mem: write_mapped(s2.mem, addr as u32, s2.a), ..s2 }, None)
            },
            0x4C => {
                let addr = word16_le(s.mem, s.pc as int);
                (Mos6502V { pc: addr, ..s }, None)
            },
            0xEA => (s, None),
            0x00 => (Mos6502V { halted: true, ..s }, None),
            _ => (s, Some(op)),
        }
    }

    /// One fetch-decode-execute step: a no-op while halted, otherwise the
    /// opcode is fetched through the hardware map, the program counter
    /// advances past it and the instruction executes; the cycle counter
    /// advances on success.
    pub open spec fn step_spec(self) -> (Mos6502V, Option<u8>) {
        if self.halted {
            (self, None)
        } else {
            let op = read_mapped(self.mem, self.pc as u32);
            let s1 = Mos6502V { opcode: op, pc: u16_specs::wrapping_add(self.pc, 1), ..self };
            let (s2, fault) = s1.exec_spec(op);
            match fault {
                None => (
                    Mos6502V { cycles: vstd::wrapping::u64_specs::wrapping_add(s2.cycles, 1), ..s2 },
                    None,
                ),
                Some(f) => (s2, Some(f)),
            }
        }
    }

    /// The effective address each addressing mode resolves to.
    pub open spec fn effective_address_spec(self) -> u16 {
        match self.mode {
            AddressingMode::Immediate => self.pc,
            AddressingMode::ZeroPage => self.operand,
            AddressingMode::ZeroPageX => u8_specs::wrapping_add(self.operand as u8, self.x) as u16,
            AddressingMode::ZeroPageY => u8_specs::wrapping_add(self.operand as u8, self.y) as u16,
            AddressingMode::Absolute => self.operand,
            AddressingMode::AbsoluteX => u16_specs::wrapping_add(self.operand, self.x as u16),
            AddressingMode::AbsoluteY => u16_specs::wrapping_add(self.operand, self.y as u16),
            AddressingMode::Indirect => word16_le(self.mem, self.operand as int),
            AddressingMode::IndirectX => word16_le(
                self.mem,
                u8_specs::wrapping_add(self.operand as u8, self.x) as int,
            ),
            AddressingMode::IndirectY => u16_specs::wrapping_add(
                word16_le(self.mem, self.operand as int),
                self.y as u16,
            ),
            AddressingMode::Relative => u16_specs::wrapping_add(self.pc, self.operand),
            AddressingMode::Implied => 0,
        }
    }

    /// The status byte built from the flags, with bit 5 always set.
    pub open spec fn flags_byte_spec(self) -> u8 {
        let b: u8 = 0;
        let b: u8 = if self.flags.carry { b | 0x01 } else { b };
        let b: u8 = if self.flags.zero { b | 0x02 } else { b };
        let b: u8 = if self.flags.interrupt_disable { b | 0x04 } else { b };
        let b: u8 = if self.flags.decimal { b | 0x08 } else { b };
        let b: u8 = if self.flags.break_command { b | 0x10 } else { b };
        let b: u8 = b | 0x20;
        let b: u8 = if self.flags.overflow { b | 0x40 } else { b };
        let b: u8 = if self.flags.negative { b | 0x80 } else { b };
        b
    }

    /// The value `get_register` yields for a (lower-cased) register name.
    pub open spec fn get_register_spec(self, name: Seq<char>) -> Option<u32> {
        let n = ascii_lower_seq(name);
        if n == "a"@ {
            Some(self.a as u32)
        } else if n == "x"@ {
            Some(self.x as u32)
        } else if n == "y"@ {
            Some(self.y as u32)
        } else if n == "sp"@ {
            Some(self.sp as u32)
        } else if n == "pc"@ {
            Some(self.pc as u32)
        } else {
            None
        }
    }

    /// The state `set_register` leaves for a (lower-cased) register name.
    pub open spec fn set_register_spec(self, name: Seq<char>, value: u32) -> Option<Mos6502V> {
        let n = ascii_lower_seq(name);
        if n == "a"@ {
            Some(Mos6502V { a: value as u8, ..self })
        } else if n == "x"@ {
            Some(Mos6502V { x: value as u8, ..self })
        } else if n == "y"@ {
            Some(Mos6502V { y: value as u8, ..self })
        } else if n == "sp"@ {
            Some(Mos6502V { sp: value as u8, ..self })
        } else if n == "pc"@ {
            Some(Mos6502V { pc: value as u16, ..self })
        } else {
            None
        }
    }

    /// Whether `value` fits the named register's width.
    pub open spec fn register_fits(name: Seq<char>, value: u32) -> bool {
        let n = ascii_lower_seq(name);
        if n == "pc"@ {
            value <= 0xFFFF
        } else {
            value <= 0xFF
        }
    }

    /// The state `set_flags` leaves: defined bits taken, others cleared.
    pub open spec fn set_flags_spec(self, flags: CpuFlags) -> Mos6502V {
        Mos6502V { flags: normalize_flags_6502(flags), ..self }
    }

    /// The power-on reset state: registers cleared, stack pointer at the
    /// top, interrupts disabled, and the program counter loaded from the
    /// little-endian reset vector at `0xFFFC`.
    pub open spec fn reset_spec(self) -> Mos6502V {
        Mos6502V {
            a: 0,
            x: 0,
            y: 0,
            sp: 0xFF,
            pc: word16_le(self.mem, 0xFFFC),
            flags: CpuFlags { interrupt_disable: true, ..flags_cleared() },
            cycles: 0,
            halted: false,
            ..self
        }
    }
}

/// Setting the flags that were just read changes nothing: bits the
/// architecture does not define are false in every well-formed state.
pub proof fn lemma_mos6502_flags_round_trip(s: Mos6502V)
    requires
        s.wf(),
    ensures
        s.set_flags_spec(s.flags) == s,
{
}

/// Writing a register and reading it back yields the value written, for
/// every register the architecture documents and every value that fits its
/// width.
pub proof fn lemma_mos6502_register_round_trip(s: Mos6502V, name: Seq<char>, value: u32)
    requires
        s.set_register_spec(name, value) is Some,
        Mos6502V::register_fits(name, value),
    ensures
        match s.set_register_spec(name, value) {
            Some(s2) => s2.get_register_spec(name) == Some(value),
            None => false,
        },
{
    reveal_strlit("a");
    reveal_strlit("x");
    reveal_strlit("y");
    reveal_strlit("sp");
    reveal_strlit("pc");
    assert("a"@.len() == 1 && "x"@.len() == 1 && "y"@.len() == 1 && "sp"@.len() == 2 && "pc"@.len()
        == 2);
    assert("sp"@[0] == 's' && "pc"@[0] == 'p');
}

impl Mos6502 {
    /// A 6502 at power-on over a zeroed 64 KiB memory.
    pub fn new() -> (r: EmuliteResult<Mos6502>)
        ensures
            r matches Ok(c) && c@ == Mos6502V::initial(Seq::new(0x10000, |i: int| 0u8)) && c@.wf(),
    {
        Ok(
            Mos6502 {
                a: 0,
                x: 0,
                y: 0,
                sp: 0xFF,
                pc: 0xFFFC,
                flags: CpuFlags::default(),
                memory: zero_bytes(0x10000),
                cycles: 0,
                halted: false,
                opcode: 0,
                operand: 0,
                addressing_mode: AddressingMode::Implied,
            },
        )
    }

    /// Raw little-endian word read of the flat memory, as used for vectors
    /// and absolute operands.
    fn read_memory_16(&self, address: u16) -> (r: u16)
        ensures
            r == word16_le(self@.mem, address as int),
    {
        mem_word16_le(&self.memory, address as u32)
    }

    /// Raw little-endian word write of the flat memory.
    fn write_memory_16(&mut self, address: u16, value: u16)
        ensures
            final(self)@ == (Mos6502V {
                mem: mem_write16_le(old(self)@.mem, address as int, value),
                ..old(self)@
            }),
    {
        crate::cpu::mem_set_word16_le(&mut self.memory, address as u32, value);
    }

    /// Pushes a byte onto the stack page and moves the stack pointer down.
    fn push_stack(&mut self, value: u8)
        ensures
            final(self)@ == (Mos6502V {
                mem: mem_write(old(self)@.mem, 0x100 + old(self)@.sp as int, value),
                sp: u8_specs::wrapping_sub(old(self)@.sp, 1),
                ..old(self)@
            }),
    {
        mem_set_byte(&mut self.memory, 0x100 + self.sp as u64, value);
        self.sp = self.sp.wrapping_sub(1);
    }

    /// Moves the stack pointer up and pops the byte it then points to.
    fn pop_stack(&mut self) -> (r: u8)
        ensures
            final(self)@ == (Mos6502V {
                sp: u8_specs::wrapping_add(old(self)@.sp, 1),
                ..old(self)@
            }),
            r == byte_at(old(self)@.mem, 0x100 + u8_specs::wrapping_add(old(self)@.sp, 1) as int),
    {
        self.sp = self.sp.wrapping_add(1);
        mem_byte(&self.memory, 0x100 + self.sp as u64)
    }

    /// Pushes a 16-bit value, high byte first.
    fn push_stack_16(&mut self, value: u16)
        ensures
            final(self)@ == (Mos6502V {
                mem: mem_write(
                    mem_write(
                        old(self)@.mem,
                        0x100 + old(self)@.sp as int,
                        (value >> 8) as u8,
                    ),
                    0x100 + u8_specs::wrapping_sub(old(self)@.sp, 1) as int,
                    value as u8,
                ),
                sp: u8_specs::wrapping_sub(u8_specs::wrapping_sub(old(self)@.sp, 1), 1),
                ..old(self)@
            }),
    {
        self.push_stack((value >> 8) as u8);
        self.push_stack(value as u8);
    }

    /// Pops a 16-bit value, low byte first.
    fn pop_stack_16(&mut self) -> (r: u16)
        ensures
            final(self)@ == (Mos6502V {
                sp: u8_specs::wrapping_add(u8_specs::wrapping_add(old(self)@.sp, 1), 1),
                ..old(self)@
            }),
            r == ((byte_at(
                old(self)@.mem,
                0x100 + u8_specs::wrapping_add(old(self)@.sp, 1) as int,
            ) as u16) | ((byte_at(
                old(self)@.mem,
                0x100 + u8_specs::wrapping_add(u8_specs::wrapping_add(old(self)@.sp, 1), 1) as int,
            ) as u16) << 8)),
    {
        let low = self.pop_stack();
        let high = self.pop_stack();
        (low as u16) | ((high as u16) << 8)
    }

    /// Resolves the current addressing mode to an effective address.
    fn get_effective_address(&mut self) -> (r: u16)
        ensures
            *final(self) == *old(self),
            r == old(self)@.effective_address_spec(),
    {
        match self.addressing_mode {
            AddressingMode::Immediate => self.pc,
            AddressingMode::ZeroPage => self.operand,
            AddressingMode::ZeroPageX => (self.operand as u8).wrapping_add(self.x) as u16,
            AddressingMode::ZeroPageY => (self.operand as u8).wrapping_add(self.y) as u16,
            AddressingMode::Absolute => self.operand,
            AddressingMode::AbsoluteX => self.operand.wrapping_add(self.x as u16),
            AddressingMode::AbsoluteY => self.operand.wrapping_add(self.y as u16),
            AddressingMode::Indirect => self.read_memory_16(self.operand),
            AddressingMode::IndirectX => {
                let addr = (self.operand as u8).wrapping_add(self.x) as u16;
                self.read_memory_16(addr)
            },
            AddressingMode::IndirectY => {
                let addr = self.read_memory_16(self.operand);
                addr.wrapping_add(self.y as u16)
            },
            AddressingMode::Relative => self.pc.wrapping_add(self.operand),
            AddressingMode::Implied => 0,
        }
    }

    /// Sets the zero and negative flags from a result byte.
    fn update_flags_nz(&mut self, value: u8)
        ensures
            final(self)@ == (Mos6502V {
                flags: flags_nz(old(self)@.flags, value),
                ..old(self)@
            }),
    {
        self.flags.zero = value == 0;
        self.flags.negative = (value & 0x80) != 0;
    }

    /// The status byte built from the flags, with bit 5 always set.
    fn flags_to_byte(&self) -> (r: u8)
        ensures
            r == self@.flags_byte_spec(),
    {
        let mut flags_byte: u8 = 0;
        if self.flags.carry {
            flags_byte |= 0x01;
        }
        if self.flags.zero {
            flags_byte |= 0x02;
        }
        if self.flags.interrupt_disable {
            flags_byte |= 0x04;
        }
        if self.flags.decimal {
            flags_byte |= 0x08;
        }
        if self.flags.break_command {
            flags_byte |= 0x10;
        }
        flags_byte |= 0x20;
        if self.flags.overflow {
            flags_byte |= 0x40;
        }
        if self.flags.negative {
            flags_byte |= 0x80;
        }
        flags_byte
    }

    /// Loads the seven defined flags from a status byte; other flag bits
    /// keep their value.
    fn byte_to_flags(&mut self, flags_byte: u8)
        ensures
            final(self)@ == (Mos6502V {
                flags: CpuFlags {
                    carry: flags_byte & 0x01 != 0,
                    zero: flags_byte & 0x02 != 0,
                    interrupt_disable: flags_byte & 0x04 != 0,
                    decimal: flags_byte & 0x08 != 0,
                    break_command: flags_byte & 0x10 != 0,
                    overflow: flags_byte & 0x40 != 0,
                    negative: flags_byte & 0x80 != 0,
                    ..old(self)@.flags
                },
                ..old(self)@
            }),
    {
        self.flags.carry = (flags_byte & 0x01) != 0;
        self.flags.zero = (flags_byte & 0x02) != 0;
        self.flags.interrupt_disable = (flags_byte & 0x04) != 0;
        self.flags.decimal = (flags_byte & 0x08) != 0;
        self.flags.break_command = (flags_byte & 0x10) != 0;
        self.flags.overflow = (flags_byte & 0x40) != 0;
        self.flags.negative = (flags_byte & 0x80) != 0;
    }

    /// Reads one byte through the hardware map.
    fn read_mapped_byte(&self, address: u32) -> (r: u8)
        ensures
            r == read_mapped(self@.mem, address),
    {
        if address <= 0x7F {
            0
        } else if address <= 0xFF {
            mem_byte(&self.memory, address as u64)
        } else if address <= 0x1FF {
            mem_byte(&self.memory, (address - 0x100) as u64)
        } else if address <= 0x2FF {
            0
        } else if 0x1000 <= address && address <= 0x1FFF {
            mem_byte(&self.memory, address as u64)
        } else if 0xF000 <= address && address <= 0xFFFF {
            mem_byte(&self.memory, address as u64)
        } else {
            0
        }
    }

    /// Writes one byte through the hardware map.
    fn write_mapped_byte(&mut self, address: u32, value: u8)
        ensures
            final(self)@ == (Mos6502V {
                mem: write_mapped(old(self)@.mem, address, value),
                ..old(self)@
            }),
    {
        if address <= 0x7F {
        } else if address <= 0xFF {
            mem_set_byte(&mut self.memory, address as u64, value);
        } else if address <= 0x1FF {
            mem_set_byte(&mut self.memory, (address - 0x100) as u64, value);
        }
    }

    /// Executes the already-fetched opcode.
    #[verifier::rlimit(60)]
    fn execute_instruction(&mut self) -> (r: EmuliteResult<()>)
        ensures
            ({
                let (post, fault) = old(self)@.exec_spec(old(self)@.opcode);
                final(self)@ == post && match fault {
                    None => r is Ok,
                    Some(op) => r matches Err(e) && e matches EmuliteError::CpuError(m) && m@
                        == unimplemented_opcode_msg(op),
                }
            }),
    {
        match self.opcode {
            0xA9 => {
                let value = self.read_mapped_byte(self.pc as u32);
                self.pc = self.pc.wrapping_add(1);
                self.a = value;
                self.update_flags_nz(value);
                Ok(())
            },
            0xA5 => {
                let addr = self.read_mapped_byte(self.pc as u32) as u16;
                self.pc = self.pc.wrapping_add(1);
                let value = self.read_mapped_byte(addr as u32);
                self.a = value;
                self.update_flags_nz(value);
                Ok(())
            },
            0xAD => {
                let addr = self.read_memory_16(self.pc);
                self.pc = self.pc.wrapping_add(2);
                let value = self.read_mapped_byte(addr as u32);
                self.a = value;
                self.update_flags_nz(value);
                Ok(())
            },
            0x85 => {
                let addr = self.read_mapped_byte(self.pc as u32) as u16;
                self.pc = self.pc.wrapping_add(1);
                let a = self.a;
                self.write_mapped_byte(addr as u32, a);
                Ok(())
            },
            0x8D => {
                let addr = self.read_memory_16(self.pc);
                self.pc = self.pc.wrapping_add(2);
                let a = self.a;
                self.write_mapped_byte(addr as u32, a);
                Ok(())
            },
            0x4C => {
                let addr = self.read_memory_16(self.pc);
                self.pc = addr;
                Ok(())
            },
            0xEA => Ok(()),
            0x00 => {
                self.halted = true;
                Ok(())
            },
            _ => Err(unimplemented_opcode_error(self.opcode)),
        }
    }

    /// One fetch-decode-execute step; a no-op while halted.  An
    /// unimplemented opcode is reported as a CPU error with the program
    /// counter already advanced past the opcode byte.
    #[verifier::rlimit(60)]
    pub fn step(&mut self) -> (r: EmuliteResult<()>)
        ensures
            ({
                let (post, fault) = old(self)@.step_spec();
                final(self)@ == post && match fault {
                    None => r is Ok,
                    Some(op) => r matches Err(e) && e matches EmuliteError::CpuError(m) && m@
                        == unimplemented_opcode_msg(op),
                }
            }),
    {
        if self.halted {
            return Ok(());
        }
        let op = self.read_mapped_byte(self.pc as u32);
        self.opcode = op;
        self.pc = self.pc.wrapping_add(1);
        match self.execute_instruction() {
            Ok(_) => {
                self.cycles = self.cycles.wrapping_add(1);
                Ok(())
            },
            Err(e) => Err(e),
        }
    }

    /// Power-on reset: registers cleared, stack pointer at the top,
    /// interrupts disabled, program counter loaded from the little-endian
    /// word at `0xFFFC`.  Memory is preserved.
    pub fn reset(&mut self) -> (r: EmuliteResult<()>)
        ensures
            r is Ok,
            final(self)@ == old(self)@.reset_spec(),
            final(self)@.pc == word16_le(old(self)@.mem, 0xFFFC),
    {
        self.a = 0;
        self.x = 0;
        self.y = 0;
        self.sp = 0xFF;
        self.pc = self.read_memory_16(0xFFFC);
        self.flags = CpuFlags::default();
        self.flags.interrupt_disable = true;
        self.cycles = 0;
        self.halted = false;
        Ok(())
    }

    /// The architecture's factory name.
    pub fn name(&self) -> (r: &'static str)
        ensures
            r@ == "6502"@,
    {
        "6502"
    }

    /// The current program counter.
    pub fn pc(&self) -> (r: u32)
        ensures
            r == self@.pc as u32,
    {
        self.pc as u32
    }

    /// Sets the program counter, truncated to the 16-bit width.
    pub fn set_pc(&mut self, pc: u32) -> (r: EmuliteResult<()>)
        ensures
            r is Ok,
            final(self)@ == (Mos6502V { pc: pc as u16, ..old(self)@ }),
    {
        self.pc = pc as u16;
        Ok(())
    }

    /// Reads one byte through the hardware map; this never fails, the
    /// unmapped and write-only windows read zero.
    pub fn read_memory(&self, address: u32) -> (r: EmuliteResult<u8>)
        ensures
            r == Ok::<u8, EmuliteError>(read_mapped(self@.mem, address)),
            address <= 0x7F ==> r == Ok::<u8, EmuliteError>(0u8),
    {
        Ok(self.read_mapped_byte(address))
    }

    /// Writes one byte through the hardware map; this never fails, writes
    /// outside RAM and its mirror are ignored.
    pub fn write_memory(&mut self, address: u32, value: u8) -> (r: EmuliteResult<()>)
        ensures
            r is Ok,
            final(self)@ == (Mos6502V {
                mem: write_mapped(old(self)@.mem, address, value),
                ..old(self)@
            }),
    {
        self.write_mapped_byte(address, value);
        Ok(())
    }

    /// Copies bytes straight into the flat memory at `address`, bypassing
    /// the hardware map; bytes beyond the memory end are ignored.  This is
    /// how a platform places cartridge data.
    pub fn load_bytes(&mut self, address: u32, data: &Vec<u8>) -> (r: EmuliteResult<()>)
        requires
            data@.len() <= 0xFFFF_FFFF,
        ensures
            r is Ok,
            final(self)@ == (Mos6502V {
                mem: mem_loaded(old(self)@.mem, address as int, data@),
                ..old(self)@
            }),
    {
        mem_load(&mut self.memory, address, data);
        Ok(())
    }

    /// Reads a register by case-insensitive name; an unknown name fails,
    /// naming the register.
    pub fn get_register(&self, reg: &str) -> (r: EmuliteResult<u32>)
        ensures
            match self@.get_register_spec(reg@) {
                Some(v) => r == Ok::<u32, EmuliteError>(v),
                None => r matches Err(e) && e matches EmuliteError::CpuError(m) && m@
                    == unknown_register_msg(reg@),
            },
    {
        if eq_lowered(reg, "a") {
            Ok(self.a as u32)
        } else if eq_lowered(reg, "x") {
            Ok(self.x as u32)
        } else if eq_lowered(reg, "y") {
            Ok(self.y as u32)
        } else if eq_lowered(reg, "sp") {
            Ok(self.sp as u32)
        } else if eq_lowered(reg, "pc") {
            Ok(self.pc as u32)
        } else {
            Err(unknown_register_error(reg))
        }
    }

    /// Writes a register by case-insensitive name, truncating the value to
    /// the register's width; an unknown name fails, naming the register.
    #[verifier::rlimit(60)]
    pub fn set_register(&mut self, reg: &str, value: u32) -> (r: EmuliteResult<()>)
        ensures
            match old(self)@.set_register_spec(reg@, value) {
                Some(s) => r is Ok && final(self)@ == s,
                None => r matches Err(e) && e matches EmuliteError::CpuError(m) && m@
                    == unknown_register_msg(reg@) && final(self)@ == old(self)@,
            },
    {
        if eq_lowered(reg, "a") {
            self.a = value as u8;
            Ok(())
        } else if eq_lowered(reg, "x") {
            self.x = value as u8;
            Ok(())
        } else if eq_lowered(reg, "y") {
            self.y = value as u8;
            Ok(())
        } else if eq_lowered(reg, "sp") {
            self.sp = value as u8;
            Ok(())
        } else if eq_lowered(reg, "pc") {
            self.pc = value as u16;
            Ok(())
        } else {
            Err(unknown_register_error(reg))
        }
    }

    /// Every register with its value, in a fixed order.
    pub fn get_registers(&self) -> (r: Vec<(String, u32)>)
        ensures
            r@.len() == 5,
            r@[0].0@ == "a"@ && r@[0].1 == self@.a as u32,
            r@[1].0@ == "x"@ && r@[1].1 == self@.x as u32,
            r@[2].0@ == "y"@ && r@[2].1 == self@.y as u32,
            r@[3].0@ == "sp"@ && r@[3].1 == self@.sp as u32,
            r@[4].0@ == "pc"@ && r@[4].1 == self@.pc as u32,
    {
        let mut registers: Vec<(String, u32)> = Vec::new();
        registers.push((String::from_str("a"), self.a as u32));
        registers.push((String::from_str("x"), self.x as u32));
        registers.push((String::from_str("y"), self.y as u32));
        registers.push((String::from_str("sp"), self.sp as u32));
        registers.push((String::from_str("pc"), self.pc as u32));
        registers
    }

    /// Whether the CPU has halted on a BRK.
    pub fn is_halted(&self) -> (r: bool)
        ensures
            r == self@.halted,
    {
        self.halted
    }

    /// The current flags.
    pub fn get_flags(&self) -> (r: CpuFlags)
        ensures
            r == self@.flags,
    {
        self.flags
    }

    /// Sets the defined flags; bits the architecture does not define are
    /// accepted and ignored, staying false.
    pub fn set_flags(&mut self, flags: CpuFlags) -> (r: EmuliteResult<()>)
        ensures
            r is Ok,
            final(self)@ == old(self)@.set_flags_spec(flags),
            final(self)@.wf() == (old(self)@.mem.len() == 0x10000),
    {
        self.flags = CpuFlags {
            carry: flags.carry,
            zero: flags.zero,
            interrupt_disable: flags.interrupt_disable,
            decimal: flags.decimal,
            break_command: flags.break_command,
            overflow: flags.overflow,
            negative: flags.negative,
            sign: false,
            parity: false,
            auxiliary_carry: false,
            extend: false,
        };
        Ok(())
    }

    /// The static description of this CPU.
    pub fn info(&self) -> (r: CpuInfo)
        ensures
            r.name@ == "MOS 6502"@,
            r.architecture@ == "6502"@,
            r.bits == 8,
            r.endianness == Endianness::Little,
            r.register_count == 5,
            r.instruction_count == 56,
            r.clock_speed_hz == 1_789_773,
    {
        CpuInfo {
            name: String::from_str("MOS 6502"),
            architecture: String::from_str("6502"),
            bits: 8,
            endianness: Endianness::Little,
            register_count: 5,
            instruction_count: 56,
            clock_speed_hz: 1_789_773,
        }
    }
}

} // verus!
