//! MIPS R3000A interpreter, as used by the PlayStation platforms.
//!
//! The CPU owns a 256 MiB flat memory.  During execution and reset a byte
//! beyond that memory reads zero and writes to it are ignored, as open bus;
//! the byte-granular debug interface reports a violation instead.

use vstd::prelude::*;

use crate::cpu::{
    byte_at, mem_byte, mem_load, mem_loaded, mem_set_byte, mem_set_word16_le, mem_set_word32_le,
    mem_word16_le, mem_word32_le, mem_write, mem_write16_le, mem_write32_le,
    unimplemented_opcode_error, unimplemented_opcode_msg, unknown_register_error,
    unknown_register_msg, word16_le, word32_le, CpuFlags, CpuInfo, Endianness, flags_cleared,
};
use crate::error::{hex8, EmuliteError, EmuliteResult};
use crate::memory::zero_bytes;
use crate::text::{ascii_lower_seq, eq_lowered};
use vstd::wrapping::u32_specs;
use vstd::wrapping::u64_specs;

verus! {

broadcast use vstd::string::group_string_axioms, vstd::array::group_array_axioms;

/// The MIPS R3000A interpreter.
#[derive(Debug)]
pub struct Mips {
    /// General purpose registers R0 to R31.
    pub registers: [u32; 32],
    /// Program counter.
    pub pc: u32,
    /// Coprocessor 0 registers.
    pub cp0_registers: [u32; 32],
    memory: Vec<u8>,
    cycles: u64,
    halted: bool,
    opcode: u32,
    rs: u8,
    rt: u8,
    rd: u8,
    shamt: u8,
    funct: u8,
    immediate: u16,
    address: u32,
}

/// Mathematical image of the CPU state.
pub ghost struct MipsV {
    pub regs: Seq<u32>,
    pub pc: u32,
    pub cp0: Seq<u32>,
    pub mem: Seq<u8>,
    pub cycles: u64,
    pub halted: bool,
    pub opcode: u32,
    pub rs: u8,
    pub rt: u8,
    pub rd: u8,
    pub shamt: u8,
    pub funct: u8,
    pub immediate: u16,
    pub address: u32,
}

impl View for Mips {
    type V = MipsV;

    closed spec fn view(&self) -> MipsV {
        MipsV {
            regs: self.registers@,
            pc: self.pc,
            cp0: self.cp0_registers@,
            mem: self.memory@,
            cycles: self.cycles,
            halted: self.halted,
            opcode: self.opcode,
            rs: self.rs,
            rt: self.rt,
            rd: self.rd,
            shamt: self.shamt,
            funct: self.funct,
            immediate: self.immediate,
            address: self.address,
        }
    }
}

/// A register file with index `i` set to `v`; indices outside the file
/// leave it unchanged.
pub open spec fn regs_w(regs: Seq<u32>, i: int, v: u32) -> Seq<u32> {
    if 0 <= i < regs.len() {
        regs.update(i, v)
    } else {
        regs
    }
}

/// The faults a MIPS step can report.
pub ghost enum MipsFault {
    /// An R-type instruction whose function field is not implemented.
    Funct(u8),
    /// An opcode that is not implemented.
    Opcode(u8),
}

/// The message text of an unimplemented R-type function error.
pub open spec fn unimplemented_funct_msg(funct: u8) -> Seq<char> {
    "Unimplemented R-type function: 0x"@ + hex8(funct)
}

/// Builds the unimplemented R-type function error.
pub fn unimplemented_funct_error(funct: u8) -> (r: EmuliteError)
    ensures
        r matches EmuliteError::CpuError(m) && m@ == unimplemented_funct_msg(funct),
{
    EmuliteError::CpuError(
        String::from_str("Unimplemented R-type function: 0x").concat(
            crate::error::format_hex8(funct).as_str(),
        ),
    )
}

impl MipsV {
    /// The power-on state over a given memory image.
    pub open spec fn initial(mem: Seq<u8>) -> MipsV {
        MipsV {
            regs: Seq::new(32, |i: int| 0u32),
            pc: 0,
            cp0: Seq::new(32, |i: int| 0u32),
            mem,
            cycles: 0,
            halted: false,
            opcode: 0,
            rs: 0,
            rt: 0,
            rd: 0,
            shamt: 0,
            funct: 0,
            immediate: 0,
            address: 0,
        }
    }

    /// What the already-decoded instruction does: the next state, and the
    /// fault if the instruction is not implemented.
    pub open spec fn exec_spec(self) -> (MipsV, Option<MipsFault>) {
        let s = self;
        let a = s.regs[s.rs as int];
        let b = s.regs[s.rt as int];
        match s.opcode {
            0x00u32 => match s.funct {
                0x20u8 => (MipsV { regs: regs_w(s.regs, s.rd as int, u32_specs::wrapping_add(a, b)), ..s }, None),
                0x22u8 => (MipsV { regs: regs_w(s.regs, s.rd as int, u32_specs::wrapping_sub(a, b)), ..s }, None),
                0x24u8 => (MipsV { regs: regs_w(s.regs, s.rd as int, a & b), ..s }, None),
                0x25u8 => (MipsV { regs: regs_w(s.regs, s.rd as int, a | b), ..s }, None),
                0x26u8 => (MipsV { regs: regs_w(s.regs, s.rd as int, a ^ b), ..s }, None),
                0x27u8 => (MipsV { regs: regs_w(s.regs, s.rd as int, !(a | b)), ..s }, None),
                0x2Au8 => (
                    MipsV {
                        regs: regs_w(s.regs, s.rd as int, if (a as i32) < (b as i32) { 1u32 } else { 0u32 }),
                        ..s
                    },
                    None,
                ),
                0x00u8 => (MipsV { regs: regs_w(s.regs, s.rd as int, b << s.shamt), ..s }, None),
                0x02u8 => (MipsV { regs: regs_w(s.regs, s.rd as int, b >> s.shamt), ..s }, None),
                0x03u8 => (
                    MipsV { regs: regs_w(s.regs, s.rd as int, ((b as i32) >> s.shamt) as u32), ..s },
                    None,
                ),
                0x08u8 => (MipsV { pc: a, ..s }, None),
                0x09u8 => (
                    MipsV {
                        regs: regs_w(s.regs, s.rd as int, u32_specs::wrapping_add(s.pc, 4)),
                        pc: regs_w(s.regs, s.rd as int, u32_specs::wrapping_add(s.pc, 4))[s.rs as int],
                        ..s
                    },
                    None,
                ),
                _ => (s, Some(MipsFault::Funct(s.funct))),
            },
            0x02u32 => (MipsV { pc: (s.pc & 0xF0000000) | (s.address << 2), ..s }, None),
            0x03u32 => (
                MipsV {
                    regs: regs_w(s.regs, 31, u32_specs::wrapping_add(s.pc, 4)),
                    pc: (s.pc & 0xF0000000) | (s.address << 2),
                    ..s
                },
                None,
            ),
            0x08u32 => (
                MipsV {
                    regs: regs_w(s.regs, s.rt as int, u32_specs::wrapping_add(a, s.immediate as i16 as u32)),
                    ..s
                },
                None,
            ),
            0x09u32 => (
                MipsV {
                    regs: regs_w(s.regs, s.rt as int, u32_specs::wrapping_add(a, s.immediate as u32)),
                    ..s
                },
                None,
            ),
            0x0Au32 => (
                MipsV {
                    regs: regs_w(
                        s.regs,
                        s.rt as int,
                        if (a as i32) < (s.immediate as i16 as i32) { 1u32 } else { 0u32 },
                    ),
                    ..s
                },
                None,
            ),
            0x0Cu32 => (MipsV { regs: regs_w(s.regs, s.rt as int, a & (s.immediate as u32)), ..s }, None),
            0x0Du32 => (MipsV { regs: regs_w(s.regs, s.rt as int, a | (s.immediate as u32)), ..s }, None),
            0x0Eu32 => (MipsV { regs: regs_w(s.regs, s.rt as int, a ^ (s.immediate as u32)), ..s }, None),
            0x0Fu32 => (MipsV { regs: regs_w(s.regs, s.rt as int, (s.immediate as u32) << 16), ..s }, None),
            0x20u32 => {
                let addr = u32_specs::wrapping_add(a, s.immediate as i16 as u32);
                (
                    MipsV {
                        regs: regs_w(s.regs, s.rt as int, byte_at(s.mem, addr as int) as i8 as u32),
                        ..s
                    },
                    None,
                )
            },
            0x21u32 => {
                let addr = u32_specs::wrapping_add(a, s.immediate as i16 as u32);
                (
                    MipsV {
                        regs: regs_w(s.regs, s.rt as int, word16_le(s.mem, addr as int) as i16 as u32),
                        ..s
                    },
                    None,
                )
            },
            0x23u32 => {
                let addr = u32_specs::wrapping_add(a, s.immediate as i16 as u32);
                (MipsV { regs: regs_w(s.regs, s.rt as int, word32_le(s.mem, addr as int)), ..s }, None)
            },
            0x24u32 => {
                let addr = u32_specs::wrapping_add(a, s.immediate as i16 as u32);
                (
                    MipsV { regs: regs_w(s.regs, s.rt as int, byte_at(s.mem, addr as int) as u32), ..s },
                    None,
                )
            },
            0x25u32 => {
                let addr = u32_specs::wrapping_add(a, s.immediate as i16 as u32);
                (
                    MipsV {
                        regs: regs_w(s.regs, s.rt as int, word16_le(s.mem, addr as int) as u32),
                        ..s
                    },
                    None,
                )
            },
            0x28u32 => {
                let addr = u32_specs::wrapping_add(a, s.immediate as i16 as u32);
                (MipsV { mem: mem_write(s.mem, addr as int, b as u8), ..s }, None)
            },
            0x29u32 => {
                let addr = u32_specs::wrapping_add(a, s.immediate as i16 as u32);
                (MipsV { mem: mem_write16_le(s.mem, addr as int, b as u16), ..s }, None)
            },
            0x2Bu32 => {
                let addr = u32_specs::wrapping_add(a, s.immediate as i16 as u32);
                (MipsV { mem: mem_write32_le(s.mem, addr as int, b), ..s }, None)
            },
            0x04u32 => (
                if a == b {
                    MipsV { pc: u32_specs::wrapping_add(s.pc, (s.immediate as i16 as u32) << 2), ..s }
                } else {
                    s
                },
                None,
            ),
            0x05u32 => (
                if a != b {
                    MipsV { pc: u32_specs::wrapping_add(s.pc, (s.immediate as i16 as u32) << 2), ..s }
                } else {
                    s
                },
                None,
            ),
            0x06u32 => (
                if (a as i32) <= 0 {
                    MipsV { pc: u32_specs::wrapping_add(s.pc, (s.immediate as i16 as u32) << 2), ..s }
                } else {
                    s
                },
                None,
            ),
            0x07u32 => (
                if (a as i32) > 0 {
                    MipsV { pc: u32_specs::wrapping_add(s.pc, (s.immediate as i16 as u32) << 2), ..s }
                } else {
                    s
                },
                None,
            ),
            _ => (s, Some(MipsFault::Opcode(s.opcode as u8))),
        }
    }

    /// One fetch-decode-execute step: a no-op while halted, otherwise the
    /// word at the program counter is fetched and decoded, the program
    /// counter advances past it and the instruction executes; the cycle
    /// counter advances on success.
    pub open spec fn step_spec(self) -> (MipsV, Option<MipsFault>) {
        if self.halted {
            (self, None)
        } else {
            let instruction = word32_le(self.mem, self.pc as int);
            let s1 = MipsV {
                pc: u32_specs::wrapping_add(self.pc, 4),
                opcode: (instruction >> 26) & 0x3F,
                rs: ((instruction >> 21) & 0x1F) as u8,
                rt: ((instruction >> 16) & 0x1F) as u8,
                rd: ((instruction >> 11) & 0x1F) as u8,
                shamt: ((instruction >> 6) & 0x1F) as u8,
                funct: (instruction & 0x3F) as u8,
                immediate: (instruction & 0xFFFF) as u16,
                address: instruction & 0x3FFFFFF,
                ..self
            };
            let (s2, fault) = s1.exec_spec();
            match fault {
                None => (MipsV { cycles: u64_specs::wrapping_add(s2.cycles, 1), ..s2 }, None),
                Some(f) => (s2, Some(f)),
            }
        }
    }

    /// The register file index a (lower-cased) register name denotes, by
    /// number or by its conventional alias.
    pub open spec fn register_index(n: Seq<char>) -> Option<int> {
        if n == "r0"@ || n == "zero"@ {
            Some(0int)
        } else if n == "r1"@ || n == "at"@ {
            Some(1int)
        } else if n == "r2"@ || n == "v0"@ {
            Some(2int)
        } else if n == "r3"@ || n == "v1"@ {
            Some(3int)
        } else if n == "r4"@ || n == "a0"@ {
            Some(4int)
        } else if n == "r5"@ || n == "a1"@ {
            Some(5int)
        } else if n == "r6"@ || n == "a2"@ {
            Some(6int)
        } else if n == "r7"@ || n == "a3"@ {
            Some(7int)
        } else if n == "r8"@ || n == "t0"@ {
            Some(8int)
        } else if n == "r9"@ || n == "t1"@ {
            Some(9int)
        } else if n == "r10"@ || n == "t2"@ {
            Some(10int)
        } else if n == "r11"@ || n == "t3"@ {
            Some(11int)
        } else if n == "r12"@ || n == "t4"@ {
            Some(12int)
        } else if n == "r13"@ || n == "t5"@ {
            Some(13int)
        } else if n == "r14"@ || n == "t6"@ {
            Some(14int)
        } else if n == "r15"@ || n == "t7"@ {
            Some(15int)
        } else if n == "r16"@ || n == "s0"@ {
            Some(16int)
        } else if n == "r17"@ || n == "s1"@ {
            Some(17int)
        } else if n == "r18"@ || n == "s2"@ {
            Some(18int)
        } else if n == "r19"@ || n == "s3"@ {
            Some(19int)
        } else if n == "r20"@ || n == "s4"@ {
            Some(20int)
        } else if n == "r21"@ || n == "s5"@ {
            Some(21int)
        } else if n == "r22"@ || n == "s6"@ {
            Some(22int)
        } else if n == "r23"@ || n == "s7"@ {
            Some(23int)
        } else if n == "r24"@ || n == "t8"@ {
            Some(24int)
        } else if n == "r25"@ || n == "t9"@ {
            Some(25int)
        } else if n == "r26"@ || n == "k0"@ {
            Some(26int)
        } else if n == "r27"@ || n == "k1"@ {
            Some(27int)
        } else if n == "r28"@ || n == "gp"@ {
            Some(28int)
        } else if n == "r29"@ || n == "sp"@ {
            Some(29int)
        } else if n == "r30"@ || n == "fp"@ {
            Some(30int)
        } else if n == "r31"@ || n == "ra"@ {
            Some(31int)
        } else {
            None
        }
    }

    /// The value `get_register` yields for a register name.
    pub open spec fn get_register_spec(self, name: Seq<char>) -> Option<u32> {
        let n = ascii_lower_seq(name);
        if n == "pc"@ {
            Some(self.pc)
        } else {
            match Self::register_index(n) {
                Some(i) => Some(self.regs[i]),
                None => None,
            }
        }
    }

    /// The state `set_register` leaves for a register name.
    pub open spec fn set_register_spec(self, name: Seq<char>, value: u32) -> Option<MipsV> {
        let n = ascii_lower_seq(name);
        if n == "pc"@ {
            Some(MipsV { pc: value, ..self })
        } else {
            match Self::register_index(n) {
                Some(i) => Some(MipsV { regs: regs_w(self.regs, i, value), ..self }),
                None => None,
            }
        }
    }

    /// MIPS defines no flag bits: every flag reads false and writes are
    /// accepted and ignored.
    pub open spec fn set_flags_spec(self, flags: CpuFlags) -> MipsV {
        self
    }

    /// The power-on reset state: registers cleared, program counter loaded
    /// from the little-endian word at the reset vector `0xBFC00000` of the
    /// pre-reset memory, then the memory cleared.
    pub open spec fn reset_spec(self) -> MipsV {
        MipsV {
            regs: Seq::new(32, |i: int| 0u32),
            pc: word32_le(self.mem, 0xBFC00000),
            cp0: Seq::new(32, |i: int| 0u32),
            mem: Seq::new(self.mem.len(), |i: int| 0u8),
            cycles: 0,
            halted: false,
            ..self
        }
    }
}

/// Setting the flags that were just read changes nothing: MIPS defines no
/// flag bits, so reads yield all-false and writes are ignored.
pub proof fn lemma_mips_flags_round_trip(s: MipsV)
    ensures
        s.set_flags_spec(flags_cleared()) == s,
{
}

/// Writing a register and reading it back yields the value written, for
/// every register name the architecture documents, numeric or alias.
pub proof fn lemma_mips_register_round_trip(s: MipsV, name: Seq<char>, value: u32)
    requires
        s.set_register_spec(name, value) is Some,
        s.regs.len() == 32,
    ensures
        match s.set_register_spec(name, value) {
            Some(s2) => s2.get_register_spec(name) == Some(value),
            None => false,
        },
{
    reveal_strlit("pc");
    reveal_strlit("r2");
    reveal_strlit("v0");
    assert("pc"@.len() == 2 && "pc"@[0] == 'p');
    let n = ascii_lower_seq(name);
    if n != "pc"@ {
        match MipsV::register_index(n) {
            Some(i) => {
                assert(0 <= i < 32);
            },
            None => {
                assert(false);
            },
        }
    }
}

impl Mips {
    /// A MIPS CPU at power-on over a zeroed 256 MiB memory.
    pub fn new() -> (r: EmuliteResult<Mips>)
        ensures
            r matches Ok(c) && c@ == MipsV::initial(Seq::new(0x10000000, |i: int| 0u8)),
    {
        let r = Mips {
            registers: [0; 32],
            pc: 0,
            cp0_registers: [0; 32],
            memory: zero_bytes(0x10000000),
            cycles: 0,
            halted: false,
            opcode: 0,
            rs: 0,
            rt: 0,
            rd: 0,
            shamt: 0,
            funct: 0,
            immediate: 0,
            address: 0,
        };
        proof {
            assert(r@.regs =~= Seq::new(32, |i: int| 0u32));
            assert(r@.cp0 =~= Seq::new(32, |i: int| 0u32));
        }
        Ok(r)
    }

    /// Raw little-endian word read of the flat memory.
    fn read_memory_32(&self, address: u32) -> (r: u32)
        ensures
            r == word32_le(self@.mem, address as int),
    {
        mem_word32_le(&self.memory, address)
    }

    /// Raw little-endian word write of the flat memory.
    fn write_memory_32(&mut self, address: u32, value: u32)
        ensures
            final(self)@ == (MipsV {
                mem: mem_write32_le(old(self)@.mem, address as int, value),
                ..old(self)@
            }),
    {
        mem_set_word32_le(&mut self.memory, address, value);
    }

    /// Raw little-endian halfword read of the flat memory.
    fn read_memory_16(&self, address: u32) -> (r: u16)
        ensures
            r == word16_le(self@.mem, address as int),
    {
        mem_word16_le(&self.memory, address)
    }

    /// Raw little-endian halfword write of the flat memory.
    fn write_memory_16(&mut self, address: u32, value: u16)
        ensures
            final(self)@ == (MipsV {
                mem: mem_write16_le(old(self)@.mem, address as int, value),
                ..old(self)@
            }),
    {
        mem_set_word16_le(&mut self.memory, address, value);
    }

    /// Executes the already-decoded instruction.
    #[verifier::rlimit(100)]
    fn execute_instruction(&mut self) -> (r: EmuliteResult<()>)
        requires
            old(self)@.rs < 32,
            old(self)@.rt < 32,
            old(self)@.rd < 32,
            old(self)@.shamt < 32,
        ensures
            ({
                let (post, fault) = old(self)@.exec_spec();
                final(self)@ == post && match fault {
                    None => r is Ok,
                    Some(MipsFault::Funct(f)) => r matches Err(e) && e matches EmuliteError::CpuError(m)
                        && m@ == unimplemented_funct_msg(f),
                    Some(MipsFault::Opcode(op)) => r matches Err(e) && e matches EmuliteError::CpuError(
                        m,
                    ) && m@ == unimplemented_opcode_msg(op),
                }
            }),
    {
        let rs = self.rs as usize;
        let rt = self.rt as usize;
        let rd = self.rd as usize;
        match self.opcode {
            0x00 => {
                match self.funct {
                    0x20 => {
                        let result = self.registers[rs].wrapping_add(self.registers[rt]);
                        self.registers[rd] = result;
                    },
                    0x22 => {
                        let result = self.registers[rs].wrapping_sub(self.registers[rt]);
                        self.registers[rd] = result;
                    },
                    0x24 => {
                        self.registers[rd] = self.registers[rs] & self.registers[rt];
                    },
                    0x25 => {
                        self.registers[rd] = self.registers[rs] | self.registers[rt];
                    },
                    0x26 => {
                        self.registers[rd] = self.registers[rs] ^ self.registers[rt];
                    },
                    0x27 => {
                        self.registers[rd] = !(self.registers[rs] | self.registers[rt]);
                    },
                    0x2A => {
                        let result: u32 = if (self.registers[rs] as i32) < (self.registers[rt]
                            as i32) {
                            1
                        } else {
                            0
                        };
                        self.registers[rd] = result;
                    },
                    0x00 => {
                        self.registers[rd] = self.registers[rt] << self.shamt;
                    },
                    0x02 => {
                        self.registers[rd] = self.registers[rt] >> self.shamt;
                    },
                    0x03 => {
                        self.registers[rd] = ((self.registers[rt] as i32) >> self.shamt) as u32;
                    },
                    0x08 => {
                        self.pc = self.registers[rs];
                    },
                    0x09 => {
                        self.registers[rd] = self.pc.wrapping_add(4);
                        self.pc = self.registers[rs];
                    },
                    _ => {
                        return Err(unimplemented_funct_error(self.funct));
                    },
                }
            },
            0x02 => {
                self.pc = (self.pc & 0xF0000000) | (self.address << 2);
            },
            0x03 => {
                self.registers[31] = self.pc.wrapping_add(4);
                self.pc = (self.pc & 0xF0000000) | (self.address << 2);
            },
            0x08 => {
                let result = self.registers[rs].wrapping_add(self.immediate as i16 as u32);
                self.registers[rt] = result;
            },
            0x09 => {
                let result = self.registers[rs].wrapping_add(self.immediate as u32);
                self.registers[rt] = result;
            },
            0x0A => {
                let result: u32 = if (self.registers[rs] as i32) < (self.immediate as i16 as i32) {
                    1
                } else {
                    0
                };
                self.registers[rt] = result;
            },
            0x0C => {
                self.registers[rt] = self.registers[rs] & (self.immediate as u32);
            },
            0x0D => {
                self.registers[rt] = self.registers[rs] | (self.immediate as u32);
            },
            0x0E => {
                self.registers[rt] = self.registers[rs] ^ (self.immediate as u32);
            },
            0x0F => {
                self.registers[rt] = (self.immediate as u32) << 16;
            },
            0x20 => {
                let address = self.registers[rs].wrapping_add(self.immediate as i16 as u32);
                let value = mem_byte(&self.memory, address as u64) as i8 as u32;
                self.registers[rt] = value;
            },
            0x21 => {
                let address = self.registers[rs].wrapping_add(self.immediate as i16 as u32);
                let value = self.read_memory_16(address) as i16 as u32;
                self.registers[rt] = value;
            },
            0x23 => {
                let address = self.registers[rs].wrapping_add(self.immediate as i16 as u32);
                let value = self.read_memory_32(address);
                self.registers[rt] = value;
            },
            0x24 => {
                let address = self.registers[rs].wrapping_add(self.immediate as i16 as u32);
                let value = mem_byte(&self.memory, address as u64) as u32;
                self.registers[rt] = value;
            },
            0x25 => {
                let address = self.registers[rs].wrapping_add(self.immediate as i16 as u32);
                let value = self.read_memory_16(address) as u32;
                self.registers[rt] = value;
            },
            0x28 => {
                let address = self.registers[rs].wrapping_add(self.immediate as i16 as u32);
                let value = self.registers[rt] as u8;
                mem_set_byte(&mut self.memory, address as u64, value);
            },
            0x29 => {
                let address = self.registers[rs].wrapping_add(self.immediate as i16 as u32);
                let value = self.registers[rt] as u16;
                self.write_memory_16(address, value);
            },
            0x2B => {
                let address = self.registers[rs].wrapping_add(self.immediate as i16 as u32);
                let value = self.registers[rt];
                self.write_memory_32(address, value);
            },
            0x04 => {
                if self.registers[rs] == self.registers[rt] {
                    self.pc = self.pc.wrapping_add((self.immediate as i16 as u32) << 2);
                }
            },
            0x05 => {
                if self.registers[rs] != self.registers[rt] {
                    self.pc = self.pc.wrapping_add((self.immediate as i16 as u32) << 2);
                }
            },
            0x06 => {
                if (self.registers[rs] as i32) <= 0 {
                    self.pc = self.pc.wrapping_add((self.immediate as i16 as u32) << 2);
                }
            },
            0x07 => {
                if (self.registers[rs] as i32) > 0 {
                    self.pc = self.pc.wrapping_add((self.immediate as i16 as u32) << 2);
                }
            },
            _ => {
                return Err(unimplemented_opcode_error(self.opcode as u8));
            },
        }
        Ok(())
    }

    /// One fetch-decode-execute step; a no-op while halted.  An
    /// unimplemented instruction is reported as a CPU error with the
    /// program counter already advanced past the instruction word.
    #[verifier::rlimit(100)]
    pub fn step(&mut self) -> (r: EmuliteResult<()>)
        ensures
            ({
                let (post, fault) = old(self)@.step_spec();
                final(self)@ == post && match fault {
                    None => r is Ok,
                    Some(MipsFault::Funct(f)) => r matches Err(e) && e matches EmuliteError::CpuError(m)
                        && m@ == unimplemented_funct_msg(f),
                    Some(MipsFault::Opcode(op)) => r matches Err(e) && e matches EmuliteError::CpuError(
                        m,
                    ) && m@ == unimplemented_opcode_msg(op),
                }
            }),
    {
        if self.halted {
            return Ok(());
        }
        let instruction = self.read_memory_32(self.pc);
        self.pc = self.pc.wrapping_add(4);
        self.opcode = (instruction >> 26) & 0x3F;
        self.rs = ((instruction >> 21) & 0x1F) as u8;
        self.rt = ((instruction >> 16) & 0x1F) as u8;
        self.rd = ((instruction >> 11) & 0x1F) as u8;
        self.shamt = ((instruction >> 6) & 0x1F) as u8;
        self.funct = (instruction & 0x3F) as u8;
        self.immediate = (instruction & 0xFFFF) as u16;
        self.address = instruction & 0x3FFFFFF;
        proof {
            assert((instruction >> 21) & 0x1F < 32 && (instruction >> 16) & 0x1F < 32 && (
            instruction >> 11) & 0x1F < 32 && (instruction >> 6) & 0x1F < 32) by (bit_vector);
        }
        match self.execute_instruction() {
            Ok(_) => {
                self.cycles = self.cycles.wrapping_add(1);
                Ok(())
            },
            Err(e) => Err(e),
        }
    }

    /// Power-on reset: registers cleared, program counter loaded from the
    /// word at the reset vector `0xBFC00000` of the pre-reset memory, then
    /// the memory cleared.
    pub fn reset(&mut self) -> (r: EmuliteResult<()>)
        ensures
            r is Ok,
            final(self)@ == old(self)@.reset_spec(),
            final(self)@.pc == word32_le(old(self)@.mem, 0xBFC00000),
    {
        self.registers = [0; 32];
        self.pc = self.read_memory_32(0xBFC00000);
        self.cp0_registers = [0; 32];
        let len = self.memory.len();
        self.memory = zero_bytes(len);
        self.cycles = 0;
        self.halted = false;
        proof {
            assert(self@.regs =~= Seq::new(32, |i: int| 0u32));
            assert(self@.cp0 =~= Seq::new(32, |i: int| 0u32));
        }
        Ok(())
    }

    /// The architecture's factory name.
    pub fn name(&self) -> (r: &'static str)
        ensures
            r@ == "mips"@,
    {
        "mips"
    }

    /// The current program counter.
    pub fn pc(&self) -> (r: u32)
        ensures
            r == self@.pc,
    {
        self.pc
    }

    /// Sets the program counter.
    pub fn set_pc(&mut self, pc: u32) -> (r: EmuliteResult<()>)
        ensures
            r is Ok,
            final(self)@ == (MipsV { pc, ..old(self)@ }),
    {
        self.pc = pc;
        Ok(())
    }

    /// Reads one byte; an address beyond the allocated memory fails with a
    /// violation carrying the address.
    pub fn read_memory(&self, address: u32) -> (r: EmuliteResult<u8>)
        ensures
            (address as int) < self@.mem.len() ==> r == Ok::<u8, EmuliteError>(
                self@.mem[address as int],
            ),
            (address as int) >= self@.mem.len() ==> r == Err::<u8, EmuliteError>(
                EmuliteError::MemoryAccessViolation(address),
            ),
    {
        if (address as usize) < self.memory.len() {
            Ok(self.memory[address as usize])
        } else {
            Err(EmuliteError::MemoryAccessViolation(address))
        }
    }

    /// Writes one byte; an address beyond the allocated memory fails with a
    /// violation carrying the address.
    pub fn write_memory(&mut self, address: u32, value: u8) -> (r: EmuliteResult<()>)
        ensures
            (address as int) < old(self)@.mem.len() ==> r is Ok && final(self)@ == (MipsV {
                mem: old(self)@.mem.update(address as int, value),
                ..old(self)@
            }),
            (address as int) >= old(self)@.mem.len() ==> r == Err::<(), EmuliteError>(
                EmuliteError::MemoryAccessViolation(address),
            ) && final(self)@ == old(self)@,
    {
        if (address as usize) < self.memory.len() {
            self.memory.set(address as usize, value);
            Ok(())
        } else {
            Err(EmuliteError::MemoryAccessViolation(address))
        }
    }

    /// Copies bytes straight into the flat memory at `address`; bytes
    /// beyond the memory end are ignored.
    pub fn load_bytes(&mut self, address: u32, data: &Vec<u8>) -> (r: EmuliteResult<()>)
        requires
            data@.len() <= 0xFFFF_FFFF,
        ensures
            r is Ok,
            final(self)@ == (MipsV {
                mem: mem_loaded(old(self)@.mem, address as int, data@),
                ..old(self)@
            }),
    {
        mem_load(&mut self.memory, address, data);
        Ok(())
    }

    /// Looks up the register file index for a (case-insensitive) name.
    fn register_index_exec(&self, reg: &str) -> (r: Option<usize>)
        ensures
            match MipsV::register_index(ascii_lower_seq(reg@)) {
                Some(i) => r matches Some(u) && u as int == i && i < 32,
                None => r is None,
            },
    {
        let names: [&str; 32] = [
            "zero", "at", "v0", "v1", "a0", "a1", "a2", "a3", "t0", "t1", "t2", "t3", "t4", "t5",
            "t6", "t7", "s0", "s1", "s2", "s3", "s4", "s5", "s6", "s7", "t8", "t9", "k0", "k1",
            "gp", "sp", "fp", "ra",
        ];
        if eq_lowered(reg, "r0") || eq_lowered(reg, names[0]) {
            Some(0)
        } else if eq_lowered(reg, "r1") || eq_lowered(reg, names[1]) {
            Some(1)
        } else if eq_lowered(reg, "r2") || eq_lowered(reg, names[2]) {
            Some(2)
        } else if eq_lowered(reg, "r3") || eq_lowered(reg, names[3]) {
            Some(3)
        } else if eq_lowered(reg, "r4") || eq_lowered(reg, names[4]) {
            Some(4)
        } else if eq_lowered(reg, "r5") || eq_lowered(reg, names[5]) {
            Some(5)
        } else if eq_lowered(reg, "r6") || eq_lowered(reg, names[6]) {
            Some(6)
        } else if eq_lowered(reg, "r7") || eq_lowered(reg, names[7]) {
            Some(7)
        } else if eq_lowered(reg, "r8") || eq_lowered(reg, names[8]) {
            Some(8)
        } else if eq_lowered(reg, "r9") || eq_lowered(reg, names[9]) {
            Some(9)
        } else if eq_lowered(reg, "r10") || eq_lowered(reg, names[10]) {
            Some(10)
        } else if eq_lowered(reg, "r11") || eq_lowered(reg, names[11]) {
            Some(11)
        } else if eq_lowered(reg, "r12") || eq_lowered(reg, names[12]) {
            Some(12)
        } else if eq_lowered(reg, "r13") || eq_lowered(reg, names[13]) {
            Some(13)
        } else if eq_lowered(reg, "r14") || eq_lowered(reg, names[14]) {
            Some(14)
        } else if eq_lowered(reg, "r15") || eq_lowered(reg, names[15]) {
            Some(15)
        } else if eq_lowered(reg, "r16") || eq_lowered(reg, names[16]) {
            Some(16)
        } else if eq_lowered(reg, "r17") || eq_lowered(reg, names[17]) {
            Some(17)
        } else if eq_lowered(reg, "r18") || eq_lowered(reg, names[18]) {
            Some(18)
        } else if eq_lowered(reg, "r19") || eq_lowered(reg, names[19]) {
            Some(19)
        } else if eq_lowered(reg, "r20") || eq_lowered(reg, names[20]) {
            Some(20)
        } else if eq_lowered(reg, "r21") || eq_lowered(reg, names[21]) {
            Some(21)
        } else if eq_lowered(reg, "r22") || eq_lowered(reg, names[22]) {
            Some(22)
        } else if eq_lowered(reg, "r23") || eq_lowered(reg, names[23]) {
            Some(23)
        } else if eq_lowered(reg, "r24") || eq_lowered(reg, names[24]) {
            Some(24)
        } else if eq_lowered(reg, "r25") || eq_lowered(reg, names[25]) {
            Some(25)
        } else if eq_lowered(reg, "r26") || eq_lowered(reg, names[26]) {
            Some(26)
        } else if eq_lowered(reg, "r27") || eq_lowered(reg, names[27]) {
            Some(27)
        } else if eq_lowered(reg, "r28") || eq_lowered(reg, names[28]) {
            Some(28)
        } else if eq_lowered(reg, "r29") || eq_lowered(reg, names[29]) {
            Some(29)
        } else if eq_lowered(reg, "r30") || eq_lowered(reg, names[30]) {
            Some(30)
        } else if eq_lowered(reg, "r31") || eq_lowered(reg, names[31]) {
            Some(31)
        } else {
            None
        }
    }

    /// Reads a register by case-insensitive name or alias; an unknown name
    /// fails, naming the register.
    pub fn get_register(&self, reg: &str) -> (r: EmuliteResult<u32>)
        ensures
            match self@.get_register_spec(reg@) {
                Some(v) => r == Ok::<u32, EmuliteError>(v),
                None => r matches Err(e) && e matches EmuliteError::CpuError(m) && m@
                    == unknown_register_msg(reg@),
            },
    {
        if eq_lowered(reg, "pc") {
            return Ok(self.pc);
        }
        match self.register_index_exec(reg) {
            Some(i) => Ok(self.registers[i]),
            None => Err(unknown_register_error(reg)),
        }
    }

    /// Writes a register by case-insensitive name or alias; an unknown name
    /// fails, naming the register.
    pub fn set_register(&mut self, reg: &str, value: u32) -> (r: EmuliteResult<()>)
        ensures
            match old(self)@.set_register_spec(reg@, value) {
                Some(s) => r is Ok && final(self)@ == s,
                None => r matches Err(e) && e matches EmuliteError::CpuError(m) && m@
                    == unknown_register_msg(reg@) && final(self)@ == old(self)@,
            },
    {
        if eq_lowered(reg, "pc") {
            self.pc = value;
            return Ok(());
        }
        match self.register_index_exec(reg) {
            Some(i) => {
                self.registers[i] = value;
                Ok(())
            },
            None => Err(unknown_register_error(reg)),
        }
    }

    /// Every numbered register with its value, then the program counter.
    pub fn get_registers(&self) -> (r: Vec<(String, u32)>)
        ensures
            r@.len() == 33,
            forall|i: int| 0 <= i < 32 ==> (#[trigger] r@[i]).1 == self@.regs[i],
            r@[32].0@ == "pc"@ && r@[32].1 == self@.pc,
    {
        let mut registers: Vec<(String, u32)> = Vec::new();
        let names: [&str; 32] = [
            "r0", "r1", "r2", "r3", "r4", "r5", "r6", "r7", "r8", "r9", "r10", "r11", "r12", "r13",
            "r14", "r15", "r16", "r17", "r18", "r19", "r20", "r21", "r22", "r23", "r24", "r25",
            "r26", "r27", "r28", "r29", "r30", "r31",
        ];
        let mut i: usize = 0;
        while i < 32
            invariant
                i <= 32,
                registers@.len() == i,
                forall|j: int| 0 <= j < i ==> (#[trigger] registers@[j]).1 == self@.regs[j],
            decreases 32 - i,
        {
            registers.push((String::from_str(names[i]), self.registers[i]));
            i = i + 1;
        }
        registers.push((String::from_str("pc"), self.pc));
        registers
    }

    /// Whether the CPU has halted.
    pub fn is_halted(&self) -> (r: bool)
        ensures
            r == self@.halted,
    {
        self.halted
    }

    /// MIPS defines no flag bits: every flag reads false.
    pub fn get_flags(&self) -> (r: CpuFlags)
        ensures
            r == flags_cleared(),
    {
        CpuFlags::default()
    }

    /// MIPS defines no flag bits: the write is accepted and ignored.
    pub fn set_flags(&mut self, _flags: CpuFlags) -> (r: EmuliteResult<()>)
        ensures
            r is Ok,
            final(self)@ == old(self)@,
    {
        Ok(())
    }

    /// The static description of this CPU.
    pub fn info(&self) -> (r: CpuInfo)
        ensures
            r.name@ == "MIPS R3000A"@,
            r.architecture@ == "MIPS"@,
            r.bits == 32,
            r.endianness == Endianness::Little,
            r.register_count == 32,
            r.instruction_count == 64,
            r.clock_speed_hz == 33_868_800,
    {
        CpuInfo {
            name: String::from_str("MIPS R3000A"),
            architecture: String::from_str("MIPS"),
            bits: 32,
            endianness: Endianness::Little,
            register_count: 32,
            instruction_count: 64,
            clock_speed_hz: 33_868_800,
        }
    }
}

} // verus!
