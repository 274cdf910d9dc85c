//! ARM interpreter (32-bit data-processing subset).
//!
//! The CPU owns a 256 MiB flat memory.  During execution and reset a byte
//! beyond that memory reads zero and writes to it are ignored, as open bus;
//! the byte-granular debug interface reports a violation instead.

use vstd::prelude::*;

use crate::cpu::{
    byte_at, mem_byte, mem_load, mem_loaded, mem_set_byte, mem_set_word16_le, mem_set_word32_le,
    mem_word16_le, mem_word32_le, mem_write, mem_write16_le, mem_write32_le,
    unimplemented_opcode_error, unimplemented_opcode_msg, unknown_register_error,
    unknown_register_msg, word16_le, word32_le, CpuFlags, CpuInfo, Endianness,
};
use crate::error::{EmuliteError, EmuliteResult};
use crate::memory::zero_bytes;
use crate::text::{ascii_lower_seq, eq_lowered};
use vstd::wrapping::u32_specs;
use vstd::wrapping::u64_specs;

verus! {

broadcast use vstd::string::group_string_axioms, vstd::array::group_array_axioms;

/// The ARM interpreter.
#[derive(Debug)]
pub struct Arm {
    /// General purpose registers R0 to R15.
    pub registers: [u32; 16],
    /// Program counter.
    pub pc: u32,
    /// Current program status register.
    pub cpsr: u32,
    /// Saved program status registers.
    pub spsr: [u32; 5],
    memory: Vec<u8>,
    cycles: u64,
    halted: bool,
    instruction: u32,
    opcode: u8,
    condition: u8,
    rn: u8,
    rd: u8,
    rm: u8,
    rs: u8,
    immediate: u32,
    shift_amount: u8,
    shift_type: u8,
}

/// Mathematical image of the CPU state.
pub ghost struct ArmV {
    pub regs: Seq<u32>,
    pub pc: u32,
    pub cpsr: u32,
    pub spsr: Seq<u32>,
    pub mem: Seq<u8>,
    pub cycles: u64,
    pub halted: bool,
    pub instruction: u32,
    pub opcode: u8,
    pub condition: u8,
    pub rn: u8,
    pub rd: u8,
    pub rm: u8,
    pub rs: u8,
    pub immediate: u32,
    pub shift_amount: u8,
    pub shift_type: u8,
}

impl View for Arm {
    type V = ArmV;

    closed spec fn view(&self) -> ArmV {
        ArmV {
            regs: self.registers@,
            pc: self.pc,
            cpsr: self.cpsr,
            spsr: self.spsr@,
            mem: self.memory@,
            cycles: self.cycles,
            halted: self.halted,
            instruction: self.instruction,
            opcode: self.opcode,
            condition: self.condition,
            rn: self.rn,
            rd: self.rd,
            rm: self.rm,
            rs: self.rs,
            immediate: self.immediate,
            shift_amount: self.shift_amount,
            shift_type: self.shift_type,
        }
    }
}

/// A register file with index `i` set to `v`; indices outside the file
/// leave it unchanged.
pub open spec fn regs_w(regs: Seq<u32>, i: int, v: u32) -> Seq<u32> {
    if 0 <= i < regs.len() {
        regs.update(i, v)
    } else {
        regs
    }
}

/// Whether the condition field passes against the status register.
pub open spec fn condition_passes(cpsr: u32, condition: u8) -> bool {
    match condition {
        0x0u8 => cpsr & 0x40000000 != 0,
        0x1u8 => cpsr & 0x40000000 == 0,
        0x2u8 => cpsr & 0x20000000 != 0,
        0x3u8 => cpsr & 0x20000000 == 0,
        0x4u8 => cpsr & 0x80000000 != 0,
        0x5u8 => cpsr & 0x80000000 == 0,
        0x6u8 => cpsr & 0x10000000 != 0,
        0x7u8 => cpsr & 0x10000000 == 0,
        0x8u8 => cpsr & 0x20000000 != 0 && cpsr & 0x40000000 == 0,
        0x9u8 => cpsr & 0x20000000 == 0 || cpsr & 0x40000000 != 0,
        0xAu8 => cpsr & 0x80000000 == cpsr & 0x10000000,
        0xBu8 => cpsr & 0x80000000 != cpsr & 0x10000000,
        0xCu8 => cpsr & 0x40000000 == 0 && cpsr & 0x80000000 == cpsr & 0x10000000,
        0xDu8 => cpsr & 0x40000000 != 0 || cpsr & 0x80000000 != cpsr & 0x10000000,
        0xEu8 => true,
        _ => false,
    }
}

impl ArmV {
    /// The CPSR value after updating zero, negative, carry and overflow
    /// from a result.
    pub open spec fn flags_after(cpsr: u32, result: u32, carry: bool, overflow: bool) -> u32 {
        let e: u32 = if result == 0 { cpsr | 0x40000000 } else { cpsr & !0x40000000u32 };
        let e: u32 = if result & 0x80000000 != 0 { e | 0x80000000 } else { e & !0x80000000u32 };
        let e: u32 = if carry { e | 0x20000000 } else { e & !0x20000000u32 };
        let e: u32 = if overflow { e | 0x10000000 } else { e & !0x10000000u32 };
        e
    }

    /// What the already-decoded instruction does once its condition has
    /// passed: the next state, and the opcode if it is not implemented.
    pub open spec fn exec_passed_spec(self) -> (ArmV, Option<u8>) {
        let s = self;
        let a = s.regs[s.rn as int];
        let b = s.regs[s.rm as int];
        match s.opcode {
            0x0u8 => {
                let result = a & b;
                (
                    ArmV {
                        regs: regs_w(s.regs, s.rd as int, result),
                        cpsr: Self::flags_after(s.cpsr, result, false, false),
                        ..s
                    },
                    None,
                )
            },
            0x1u8 => {
                let result = a ^ b;
                (
                    ArmV {
                        regs: regs_w(s.regs, s.rd as int, result),
                        cpsr: Self::flags_after(s.cpsr, result, false, false),
                        ..s
                    },
                    None,
                )
            },
            0x2u8 => {
                let result = u32_specs::wrapping_sub(a, b);
                let carry = a >= b;
                let overflow = (a ^ result) & (b ^ result) & 0x80000000 != 0;
                (
                    ArmV {
                        regs: regs_w(s.regs, s.rd as int, result),
                        cpsr: Self::flags_after(s.cpsr, result, carry, overflow),
                        ..s
                    },
                    None,
                )
            },
            0x3u8 => {
                let result = u32_specs::wrapping_sub(b, a);
                let carry = b >= a;
                let overflow = (b ^ result) & (a ^ result) & 0x80000000 != 0;
                (
                    ArmV {
                        regs: regs_w(s.regs, s.rd as int, result),
                        cpsr: Self::flags_after(s.cpsr, result, carry, overflow),
                        ..s
                    },
                    None,
                )
            },
            0x4u8 => {
                let result = u32_specs::wrapping_add(a, b);
                let carry = result < a;
                let overflow = (a ^ result) & (b ^ result) & 0x80000000 != 0;
                (
                    ArmV {
                        regs: regs_w(s.regs, s.rd as int, result),
                        cpsr: Self::flags_after(s.cpsr, result, carry, overflow),
                        ..s
                    },
                    None,
                )
            },
            0x5u8 => {
                let carry_in: u32 = if s.cpsr & 0x20000000 != 0 { 1 } else { 0 };
                let result = u32_specs::wrapping_add(u32_specs::wrapping_add(a, b), carry_in);
                let carry = result < a || (carry_in != 0 && result == a);
                let overflow = (a ^ result) & (b ^ result) & 0x80000000 != 0;
                (
                    ArmV {
                        regs: regs_w(s.regs, s.rd as int, result),
                        cpsr: Self::flags_after(s.cpsr, result, carry, overflow),
                        ..s
                    },
                    None,
                )
            },
            0x6u8 => {
                let carry_in: u32 = if s.cpsr & 0x20000000 != 0 { 1 } else { 0 };
                let result = u32_specs::wrapping_sub(
                    u32_specs::wrapping_sub(a, b),
                    (1 - carry_in) as u32,
                );
                let carry = a >= b && (carry_in != 0 || a > b);
                let overflow = (a ^ result) & (b ^ result) & 0x80000000 != 0;
                (
                    ArmV {
                        regs: regs_w(s.regs, s.rd as int, result),
                        cpsr: Self::flags_after(s.cpsr, result, carry, overflow),
                        ..s
                    },
                    None,
                )
            },
            0x7u8 => {
                let carry_in: u32 = if s.cpsr & 0x20000000 != 0 { 1 } else { 0 };
                let result = u32_specs::wrapping_sub(
                    u32_specs::wrapping_sub(b, a),
                    (1 - carry_in) as u32,
                );
                let carry = b >= a && (carry_in != 0 || b > a);
                let overflow = (b ^ result) & (a ^ result) & 0x80000000 != 0;
                (
                    ArmV {
                        regs: regs_w(s.regs, s.rd as int, result),
                        cpsr: Self::flags_after(s.cpsr, result, carry, overflow),
                        ..s
                    },
                    None,
                )
            },
            0x8u8 => {
                let result = a & b;
                (ArmV { cpsr: Self::flags_after(s.cpsr, result, false, false), ..s }, None)
            },
            0x9u8 => {
                let result = a ^ b;
                (ArmV { cpsr: Self::flags_after(s.cpsr, result, false, false), ..s }, None)
            },
            0xAu8 => {
                let result = u32_specs::wrapping_sub(a, b);
                let carry = a >= b;
                let overflow = (a ^ result) & (b ^ result) & 0x80000000 != 0;
                (ArmV { cpsr: Self::flags_after(s.cpsr, result, carry, overflow), ..s }, None)
            },
            0xBu8 => {
                let result = u32_specs::wrapping_add(a, b);
                let carry = result < a;
                let overflow = (a ^ result) & (b ^ result) & 0x80000000 != 0;
                (ArmV { cpsr: Self::flags_after(s.cpsr, result, carry, overflow), ..s }, None)
            },
            0xCu8 => {
                let result = a | b;
                (
                    ArmV {
                        regs: regs_w(s.regs, s.rd as int, result),
                        cpsr: Self::flags_after(s.cpsr, result, false, false),
                        ..s
                    },
                    None,
                )
            },
            0xDu8 => {
                let result = b;
                (
                    ArmV {
                        regs: regs_w(s.regs, s.rd as int, result),
                        cpsr: Self::flags_after(s.cpsr, result, false, false),
                        ..s
                    },
                    None,
                )
            },
            0xEu8 => {
                let result = a & !b;
                (
                    ArmV {
                        regs: regs_w(s.regs, s.rd as int, result),
                        cpsr: Self::flags_after(s.cpsr, result, false, false),
                        ..s
                    },
                    None,
                )
            },
            0xFu8 => {
                let result = !b;
                (
                    ArmV {
                        regs: regs_w(s.regs, s.rd as int, result),
                        cpsr: Self::flags_after(s.cpsr, result, false, false),
                        ..s
                    },
                    None,
                )
            },
            0x40u8 => {
                let address = u32_specs::wrapping_add(a, b);
                (ArmV { regs: regs_w(s.regs, s.rd as int, word32_le(s.mem, address as int)), ..s }, None)
            },
            0x41u8 => {
                let address = u32_specs::wrapping_add(a, b);
                (
                    ArmV {
                        regs: regs_w(s.regs, s.rd as int, byte_at(s.mem, address as int) as u32),
                        ..s
                    },
                    None,
                )
            },
            0x42u8 => {
                let address = u32_specs::wrapping_add(a, b);
                (
                    ArmV {
                        regs: regs_w(s.regs, s.rd as int, word16_le(s.mem, address as int) as u32),
                        ..s
                    },
                    None,
                )
            },
            0x44u8 => {
                let address = u32_specs::wrapping_add(a, b);
                (ArmV { mem: mem_write32_le(s.mem, address as int, s.regs[s.rd as int]), ..s }, None)
            },
            0x45u8 => {
                let address = u32_specs::wrapping_add(a, b);
                (
                    ArmV {
                        mem: mem_write(s.mem, address as int, s.regs[s.rd as int] as u8),
                        ..s
                    },
                    None,
                )
            },
            0x46u8 => {
                let address = u32_specs::wrapping_add(a, b);
                (
                    ArmV {
                        mem: mem_write16_le(s.mem, address as int, s.regs[s.rd as int] as u16),
                        ..s
                    },
                    None,
                )
            },
            0x50u8 => {
                let offset = s.immediate;
                let target = if offset & 0x800000 != 0 {
                    u32_specs::wrapping_add(s.pc, offset | 0xFF000000)
                } else {
                    u32_specs::wrapping_add(s.pc, offset)
                };
                (ArmV { pc: target, ..s }, None)
            },
            0x51u8 => {
                let offset = s.immediate;
                let target = if offset & 0x800000 != 0 {
                    u32_specs::wrapping_add(s.pc, offset | 0xFF000000)
                } else {
                    u32_specs::wrapping_add(s.pc, offset)
                };
                (ArmV { regs: regs_w(s.regs, 14, s.pc), pc: target, ..s }, None)
            },
            _ => (s, Some(s.opcode)),
        }
    }

    /// What the already-decoded instruction does: nothing when its
    /// condition fails, its effect otherwise.
    pub open spec fn exec_spec(self) -> (ArmV, Option<u8>) {
        if !condition_passes(self.cpsr, self.condition) {
            (self, None)
        } else {
            self.exec_passed_spec()
        }
    }

    /// One fetch-decode-execute step: a no-op while halted, otherwise the
    /// word at the program counter is fetched and decoded, the program
    /// counter advances past it and the instruction executes; the cycle
    /// counter advances on success.
    pub open spec fn step_spec(self) -> (ArmV, Option<u8>) {
        if self.halted {
            (self, None)
        } else {
            let instruction = word32_le(self.mem, self.pc as int);
            let s1 = ArmV {
                instruction,
                pc: u32_specs::wrapping_add(self.pc, 4),
                condition: ((instruction >> 28) & 0xF) as u8,
                opcode: ((instruction >> 21) & 0xF) as u8,
                rn: ((instruction >> 16) & 0xF) as u8,
                rd: ((instruction >> 12) & 0xF) as u8,
                rm: (instruction & 0xF) as u8,
                rs: ((instruction >> 8) & 0xF) as u8,
                immediate: instruction & 0xFFF,
                shift_amount: ((instruction >> 7) & 0x1F) as u8,
                shift_type: ((instruction >> 5) & 0x3) as u8,
                ..self
            };
            let (s2, fault) = s1.exec_spec();
            match fault {
                None => (ArmV { cycles: u64_specs::wrapping_add(s2.cycles, 1), ..s2 }, None),
                Some(f) => (s2, Some(f)),
            }
        }
    }

    /// The flags the architecture defines, read from CPSR bits.
    pub open spec fn get_flags_spec(self) -> CpuFlags {
        CpuFlags {
            carry: self.cpsr & 0x20000000 != 0,
            zero: self.cpsr & 0x40000000 != 0,
            overflow: self.cpsr & 0x10000000 != 0,
            negative: self.cpsr & 0x80000000 != 0,
            extend: false,
            interrupt_disable: self.cpsr & 0x00000080 != 0,
            decimal: false,
            break_command: false,
            sign: self.cpsr & 0x80000000 != 0,
            parity: false,
            auxiliary_carry: false,
        }
    }

    /// The CPSR value after a `set_flags` write of the defined bits.
    pub open spec fn cpsr_with(cpsr: u32, flags: CpuFlags) -> u32 {
        let e: u32 = if flags.carry { cpsr | 0x20000000 } else { cpsr & !0x20000000u32 };
        let e: u32 = if flags.zero { e | 0x40000000 } else { e & !0x40000000u32 };
        let e: u32 = if flags.overflow { e | 0x10000000 } else { e & !0x10000000u32 };
        let e: u32 = if flags.negative { e | 0x80000000 } else { e & !0x80000000u32 };
        let e: u32 = if flags.interrupt_disable { e | 0x00000080 } else { e & !0x00000080u32 };
        e
    }

    /// The state a `set_flags` write leaves.
    pub open spec fn set_flags_spec(self, flags: CpuFlags) -> ArmV {
        ArmV { cpsr: Self::cpsr_with(self.cpsr, flags), ..self }
    }

    /// The register file index a (lower-cased) register name denotes;
    /// `sp`, `lr` and `pc` alias R13 to R15.
    pub open spec fn register_index(n: Seq<char>) -> Option<int> {
        if n == "r0"@ {
            Some(0int)
        } else if n == "r1"@ {
            Some(1int)
        } else if n == "r2"@ {
            Some(2int)
        } else if n == "r3"@ {
            Some(3int)
        } else if n == "r4"@ {
            Some(4int)
        } else if n == "r5"@ {
            Some(5int)
        } else if n == "r6"@ {
            Some(6int)
        } else if n == "r7"@ {
            Some(7int)
        } else if n == "r8"@ {
            Some(8int)
        } else if n == "r9"@ {
            Some(9int)
        } else if n == "r10"@ {
            Some(10int)
        } else if n == "r11"@ {
            Some(11int)
        } else if n == "r12"@ {
            Some(12int)
        } else if n == "r13"@ || n == "sp"@ {
            Some(13int)
        } else if n == "r14"@ || n == "lr"@ {
            Some(14int)
        } else if n == "r15"@ || n == "pc"@ {
            Some(15int)
        } else {
            None
        }
    }

    /// The value `get_register` yields for a register name.
    pub open spec fn get_register_spec(self, name: Seq<char>) -> Option<u32> {
        let n = ascii_lower_seq(name);
        if n == "cpsr"@ {
            Some(self.cpsr)
        } else {
            match Self::register_index(n) {
                Some(i) => Some(self.regs[i]),
                None => None,
            }
        }
    }

    /// The state `set_register` leaves for a register name.
    pub open spec fn set_register_spec(self, name: Seq<char>, value: u32) -> Option<ArmV> {
        let n = ascii_lower_seq(name);
        if n == "cpsr"@ {
            Some(ArmV { cpsr: value, ..self })
        } else {
            match Self::register_index(n) {
                Some(i) => Some(ArmV { regs: regs_w(self.regs, i, value), ..self }),
                None => None,
            }
        }
    }

    /// The power-on reset state: registers cleared, program counter loaded
    /// from the word at address 0 of the pre-reset memory, CPSR at its
    /// supervisor power-on value, then the memory cleared.
    pub open spec fn reset_spec(self) -> ArmV {
        ArmV {
            regs: Seq::new(16, |i: int| 0u32),
            pc: word32_le(self.mem, 0),
            cpsr: 0x000000D3,
            spsr: Seq::new(5, |i: int| 0u32),
            mem: Seq::new(self.mem.len(), |i: int| 0u8),
            cycles: 0,
            halted: false,
            ..self
        }
    }

    /// The power-on state over a given memory image.
    pub open spec fn initial(mem: Seq<u8>) -> ArmV {
        ArmV {
            regs: Seq::new(16, |i: int| 0u32),
            pc: 0,
            cpsr: 0x000000D3,
            spsr: Seq::new(5, |i: int| 0u32),
            mem,
            cycles: 0,
            halted: false,
            instruction: 0,
            opcode: 0,
            condition: 0,
            rn: 0,
            rd: 0,
            rm: 0,
            rs: 0,
            immediate: 0,
            shift_amount: 0,
            shift_type: 0,
        }
    }
}

/// Setting the flags that were just read changes nothing: every defined
/// CPSR bit is rewritten with its own value.
pub proof fn lemma_arm_flags_round_trip(s: ArmV)
    ensures
        s.set_flags_spec(s.get_flags_spec()) == s,
{
    let e = s.cpsr;
    assert(({
        let x: u32 = if e & 0x20000000 != 0 { e | 0x20000000 } else { e & !0x20000000u32 };
        let x: u32 = if e & 0x40000000 != 0 { x | 0x40000000 } else { x & !0x40000000u32 };
        let x: u32 = if e & 0x10000000 != 0 { x | 0x10000000 } else { x & !0x10000000u32 };
        let x: u32 = if e & 0x80000000 != 0 { x | 0x80000000 } else { x & !0x80000000u32 };
        let x: u32 = if e & 0x00000080 != 0 { x | 0x00000080 } else { x & !0x00000080u32 };
        x
    }) == e) by (bit_vector);
}

/// Writing a register and reading it back yields the value written, for
/// every register name the architecture documents, numeric or alias.
pub proof fn lemma_arm_register_round_trip(s: ArmV, name: Seq<char>, value: u32)
    requires
        s.set_register_spec(name, value) is Some,
        s.regs.len() == 16,
    ensures
        match s.set_register_spec(name, value) {
            Some(s2) => s2.get_register_spec(name) == Some(value),
            None => false,
        },
{
    reveal_strlit("cpsr");
    let n = ascii_lower_seq(name);
    if n != "cpsr"@ {
        match ArmV::register_index(n) {
            Some(i) => {
                assert(0 <= i < 16);
            },
            None => {
                assert(false);
            },
        }
    }
}

impl Arm {
    /// An ARM CPU at power-on over a zeroed 256 MiB memory.
    pub fn new() -> (r: EmuliteResult<Arm>)
        ensures
            r matches Ok(c) && c@ == ArmV::initial(Seq::new(0x10000000, |i: int| 0u8)),
    {
        let r = Arm {
            registers: [0; 16],
            pc: 0,
            cpsr: 0x000000D3,
            spsr: [0; 5],
            memory: zero_bytes(0x10000000),
            cycles: 0,
            halted: false,
            instruction: 0,
            opcode: 0,
            condition: 0,
            rn: 0,
            rd: 0,
            rm: 0,
            rs: 0,
            immediate: 0,
            shift_amount: 0,
            shift_type: 0,
        };
        proof {
            assert(r@.regs =~= Seq::new(16, |i: int| 0u32));
            assert(r@.spsr =~= Seq::new(5, |i: int| 0u32));
        }
        Ok(r)
    }

    /// Raw little-endian word read of the flat memory.
    fn read_memory_32(&self, address: u32) -> (r: u32)
        ensures
            r == word32_le(self@.mem, address as int),
    {
        mem_word32_le(&self.memory, address)
    }

    /// Raw little-endian word write of the flat memory.
    fn write_memory_32(&mut self, address: u32, value: u32)
        ensures
            final(self)@ == (ArmV {
                mem: mem_write32_le(old(self)@.mem, address as int, value),
                ..old(self)@
            }),
    {
        mem_set_word32_le(&mut self.memory, address, value);
    }

    /// Raw little-endian halfword read of the flat memory.
    fn read_memory_16(&self, address: u32) -> (r: u16)
        ensures
            r == word16_le(self@.mem, address as int),
    {
        mem_word16_le(&self.memory, address)
    }

    /// Raw little-endian halfword write of the flat memory.
    fn write_memory_16(&mut self, address: u32, value: u16)
        ensures
            final(self)@ == (ArmV {
                mem: mem_write16_le(old(self)@.mem, address as int, value),
                ..old(self)@
            }),
    {
        mem_set_word16_le(&mut self.memory, address, value);
    }

    /// Whether the condition field passes against the status register.
    fn check_condition(&self, condition: u8) -> (r: bool)
        ensures
            r == condition_passes(self@.cpsr, condition),
    {
        match condition {
            0x0 => (self.cpsr & 0x40000000) != 0,
            0x1 => (self.cpsr & 0x40000000) == 0,
            0x2 => (self.cpsr & 0x20000000) != 0,
            0x3 => (self.cpsr & 0x20000000) == 0,
            0x4 => (self.cpsr & 0x80000000) != 0,
            0x5 => (self.cpsr & 0x80000000) == 0,
            0x6 => (self.cpsr & 0x10000000) != 0,
            0x7 => (self.cpsr & 0x10000000) == 0,
            0x8 => (self.cpsr & 0x20000000) != 0 && (self.cpsr & 0x40000000) == 0,
            0x9 => (self.cpsr & 0x20000000) == 0 || (self.cpsr & 0x40000000) != 0,
            0xA => (self.cpsr & 0x80000000) == (self.cpsr & 0x10000000),
            0xB => (self.cpsr & 0x80000000) != (self.cpsr & 0x10000000),
            0xC => (self.cpsr & 0x40000000) == 0 && (self.cpsr & 0x80000000) == (self.cpsr
                & 0x10000000),
            0xD => (self.cpsr & 0x40000000) != 0 || (self.cpsr & 0x80000000) != (self.cpsr
                & 0x10000000),
            0xE => true,
            _ => false,
        }
    }

    /// Sets zero, negative, carry and overflow from a result.
    fn update_flags(&mut self, result: u32, carry: bool, overflow: bool)
        ensures
            final(self)@ == (ArmV {
                cpsr: ArmV::flags_after(old(self)@.cpsr, result, carry, overflow),
                ..old(self)@
            }),
    {
        if result == 0 {
            self.cpsr |= 0x40000000;
        } else {
            self.cpsr &= !0x40000000;
        }
        if (result & 0x80000000) != 0 {
            self.cpsr |= 0x80000000;
        } else {
            self.cpsr &= !0x80000000;
        }
        if carry {
            self.cpsr |= 0x20000000;
        } else {
            self.cpsr &= !0x20000000;
        }
        if overflow {
            self.cpsr |= 0x10000000;
        } else {
            self.cpsr &= !0x10000000;
        }
    }

    /// Executes the already-decoded instruction.
    #[verifier::rlimit(100)]
    fn execute_instruction(&mut self) -> (r: EmuliteResult<()>)
        requires
            old(self)@.rn < 16,
            old(self)@.rd < 16,
            old(self)@.rm < 16,
        ensures
            ({
                let (post, fault) = old(self)@.exec_spec();
                final(self)@ == post && match fault {
                    None => r is Ok,
                    Some(op) => r matches Err(e) && e matches EmuliteError::CpuError(m) && m@
                        == unimplemented_opcode_msg(op),
                }
            }),
    {
        if !self.check_condition(self.condition) {
            return Ok(());
        }
        let rn = self.rn as usize;
        let rd = self.rd as usize;
        let rm = self.rm as usize;
        match self.opcode {
            0x0 => {
                let result = self.registers[rn] & self.registers[rm];
                self.registers[rd] = result;
                self.update_flags(result, false, false);
            },
            0x1 => {
                let result = self.registers[rn] ^ self.registers[rm];
                self.registers[rd] = result;
                self.update_flags(result, false, false);
            },
            0x2 => {
                let result = self.registers[rn].wrapping_sub(self.registers[rm]);
                let carry = self.registers[rn] >= self.registers[rm];
                let overflow = ((self.registers[rn] ^ result) & (self.registers[rm] ^ result)
                    & 0x80000000) != 0;
                self.registers[rd] = result;
                self.update_flags(result, carry, overflow);
            },
            0x3 => {
                let result = self.registers[rm].wrapping_sub(self.registers[rn]);
                let carry = self.registers[rm] >= self.registers[rn];
                let overflow = ((self.registers[rm] ^ result) & (self.registers[rn] ^ result)
                    & 0x80000000) != 0;
                self.registers[rd] = result;
                self.update_flags(result, carry, overflow);
            },
            0x4 => {
                let result = self.registers[rn].wrapping_add(self.registers[rm]);
                let carry = result < self.registers[rn];
                let overflow = ((self.registers[rn] ^ result) & (self.registers[rm] ^ result)
                    & 0x80000000) != 0;
                self.registers[rd] = result;
                self.update_flags(result, carry, overflow);
            },
            0x5 => {
                let carry_in: u32 = if (self.cpsr & 0x20000000) != 0 {
                    1
                } else {
                    0
                };
                let result = self.registers[rn].wrapping_add(self.registers[rm]).wrapping_add(
                    carry_in,
                );
                let carry = result < self.registers[rn] || (carry_in != 0 && result
                    == self.registers[rn]);
                let overflow = ((self.registers[rn] ^ result) & (self.registers[rm] ^ result)
                    & 0x80000000) != 0;
                self.registers[rd] = result;
                self.update_flags(result, carry, overflow);
            },
            0x6 => {
                let carry_in: u32 = if (self.cpsr & 0x20000000) != 0 {
                    1
                } else {
                    0
                };
                let result = self.registers[rn].wrapping_sub(self.registers[rm]).wrapping_sub(
                    1 - carry_in,
                );
                let carry = self.registers[rn] >= self.registers[rm] && (carry_in != 0
                    || self.registers[rn] > self.registers[rm]);
                let overflow = ((self.registers[rn] ^ result) & (self.registers[rm] ^ result)
                    & 0x80000000) != 0;
                self.registers[rd] = result;
                self.update_flags(result, carry, overflow);
            },
            0x7 => {
                let carry_in: u32 = if (self.cpsr & 0x20000000) != 0 {
                    1
                } else {
                    0
                };
                let result = self.registers[rm].wrapping_sub(self.registers[rn]).wrapping_sub(
                    1 - carry_in,
                );
                let carry = self.registers[rm] >= self.registers[rn] && (carry_in != 0
                    || self.registers[rm] > self.registers[rn]);
                let overflow = ((self.registers[rm] ^ result) & (self.registers[rn] ^ result)
                    & 0x80000000) != 0;
                self.registers[rd] = result;
                self.update_flags(result, carry, overflow);
            },
            0x8 => {
                let result = self.registers[rn] & self.registers[rm];
                self.update_flags(result, false, false);
            },
            0x9 => {
                let result = self.registers[rn] ^ self.registers[rm];
                self.update_flags(result, false, false);
            },
            0xA => {
                let result = self.registers[rn].wrapping_sub(self.registers[rm]);
                let carry = self.registers[rn] >= self.registers[rm];
                let overflow = ((self.registers[rn] ^ result) & (self.registers[rm] ^ result)
                    & 0x80000000) != 0;
                self.update_flags(result, carry, overflow);
            },
            0xB => {
                let result = self.registers[rn].wrapping_add(self.registers[rm]);
                let carry = result < self.registers[rn];
                let overflow = ((self.registers[rn] ^ result) & (self.registers[rm] ^ result)
                    & 0x80000000) != 0;
                self.update_flags(result, carry, overflow);
            },
            0xC => {
                let result = self.registers[rn] | self.registers[rm];
                self.registers[rd] = result;
                self.update_flags(result, false, false);
            },
            0xD => {
                let result = self.registers[rm];
                self.registers[rd] = result;
                self.update_flags(result, false, false);
            },
            0xE => {
                let result = self.registers[rn] & !self.registers[rm];
                self.registers[rd] = result;
                self.update_flags(result, false, false);
            },
            0xF => {
                let result = !self.registers[rm];
                self.registers[rd] = result;
                self.update_flags(result, false, false);
            },
            0x40 => {
                let address = self.registers[rn].wrapping_add(self.registers[rm]);
                let value = self.read_memory_32(address);
                self.registers[rd] = value;
            },
            0x41 => {
                let address = self.registers[rn].wrapping_add(self.registers[rm]);
                let value = mem_byte(&self.memory, address as u64) as u32;
                self.registers[rd] = value;
            },
            0x42 => {
                let address = self.registers[rn].wrapping_add(self.registers[rm]);
                let value = self.read_memory_16(address) as u32;
                self.registers[rd] = value;
            },
            0x44 => {
                let address = self.registers[rn].wrapping_add(self.registers[rm]);
                let value = self.registers[rd];
                self.write_memory_32(address, value);
            },
            0x45 => {
                let address = self.registers[rn].wrapping_add(self.registers[rm]);
                let value = self.registers[rd] as u8;
                mem_set_byte(&mut self.memory, address as u64, value);
            },
            0x46 => {
                let address = self.registers[rn].wrapping_add(self.registers[rm]);
                let value = self.registers[rd] as u16;
                self.write_memory_16(address, value);
            },
            0x50 => {
                let offset = self.immediate;
                if (offset & 0x800000) != 0 {
                    self.pc = self.pc.wrapping_add(offset | 0xFF000000);
                } else {
                    self.pc = self.pc.wrapping_add(offset);
                }
            },
            0x51 => {
                let offset = self.immediate;
                self.registers[14] = self.pc;
                if (offset & 0x800000) != 0 {
                    self.pc = self.pc.wrapping_add(offset | 0xFF000000);
                } else {
                    self.pc = self.pc.wrapping_add(offset);
                }
            },
            _ => {
                return Err(unimplemented_opcode_error(self.opcode));
            },
        }
        Ok(())
    }

    /// One fetch-decode-execute step; a no-op while halted.  An
    /// unimplemented opcode is reported as a CPU error with the program
    /// counter already advanced past the instruction word.
    #[verifier::rlimit(100)]
    pub fn step(&mut self) -> (r: EmuliteResult<()>)
        ensures
            ({
                let (post, fault) = old(self)@.step_spec();
                final(self)@ == post && match fault {
                    None => r is Ok,
                    Some(op) => r matches Err(e) && e matches EmuliteError::CpuError(m) && m@
                        == unimplemented_opcode_msg(op),
                }
            }),
    {
        if self.halted {
            return Ok(());
        }
        let instruction = self.read_memory_32(self.pc);
        self.instruction = instruction;
        self.pc = self.pc.wrapping_add(4);
        self.condition = ((instruction >> 28) & 0xF) as u8;
        self.opcode = ((instruction >> 21) & 0xF) as u8;
        self.rn = ((instruction >> 16) & 0xF) as u8;
        self.rd = ((instruction >> 12) & 0xF) as u8;
        self.rm = (instruction & 0xF) as u8;
        self.rs = ((instruction >> 8) & 0xF) as u8;
        self.immediate = instruction & 0xFFF;
        self.shift_amount = ((instruction >> 7) & 0x1F) as u8;
        self.shift_type = ((instruction >> 5) & 0x3) as u8;
        proof {
            assert((instruction >> 16) & 0xF < 16 && (instruction >> 12) & 0xF < 16 && instruction
                & 0xF < 16) by (bit_vector);
        }
        match self.execute_instruction() {
            Ok(_) => {
                self.cycles = self.cycles.wrapping_add(1);
                Ok(())
            },
            Err(e) => Err(e),
        }
    }

    /// Power-on reset: registers cleared, program counter loaded from the
    /// word at address 0 of the pre-reset memory, CPSR at its supervisor
    /// power-on value, then the memory cleared.
    pub fn reset(&mut self) -> (r: EmuliteResult<()>)
        ensures
            r is Ok,
            final(self)@ == old(self)@.reset_spec(),
            final(self)@.pc == word32_le(old(self)@.mem, 0),
    {
        self.registers = [0; 16];
        self.pc = self.read_memory_32(0);
        self.cpsr = 0x000000D3;
        self.spsr = [0; 5];
        let len = self.memory.len();
        self.memory = zero_bytes(len);
        self.cycles = 0;
        self.halted = false;
        proof {
            assert(self@.regs =~= Seq::new(16, |i: int| 0u32));
            assert(self@.spsr =~= Seq::new(5, |i: int| 0u32));
        }
        Ok(())
    }

    /// The architecture's factory name.
    pub fn name(&self) -> (r: &'static str)
        ensures
            r@ == "arm"@,
    {
        "arm"
    }

    /// The current program counter.
    pub fn pc(&self) -> (r: u32)
        ensures
            r == self@.pc,
    {
        self.pc
    }

    /// Sets the program counter.
    pub fn set_pc(&mut self, pc: u32) -> (r: EmuliteResult<()>)
        ensures
            r is Ok,
            final(self)@ == (ArmV { pc, ..old(self)@ }),
    {
        self.pc = pc;
        Ok(())
    }

    /// Reads one byte; an address beyond the allocated memory fails with a
    /// violation carrying the address.
    pub fn read_memory(&self, address: u32) -> (r: EmuliteResult<u8>)
        ensures
            (address as int) < self@.mem.len() ==> r == Ok::<u8, EmuliteError>(
                self@.mem[address as int],
            ),
            (address as int) >= self@.mem.len() ==> r == Err::<u8, EmuliteError>(
                EmuliteError::MemoryAccessViolation(address),
            ),
    {
        if (address as usize) < self.memory.len() {
            Ok(self.memory[address as usize])
        } else {
            Err(EmuliteError::MemoryAccessViolation(address))
        }
    }

    /// Writes one byte; an address beyond the allocated memory fails with a
    /// violation carrying the address.
    pub fn write_memory(&mut self, address: u32, value: u8) -> (r: EmuliteResult<()>)
        ensures
            (address as int) < old(self)@.mem.len() ==> r is Ok && final(self)@ == (ArmV {
                mem: old(self)@.mem.update(address as int, value),
                ..old(self)@
            }),
            (address as int) >= old(self)@.mem.len() ==> r == Err::<(), EmuliteError>(
                EmuliteError::MemoryAccessViolation(address),
            ) && final(self)@ == old(self)@,
    {
        if (address as usize) < self.memory.len() {
            self.memory.set(address as usize, value);
            Ok(())
        } else {
            Err(EmuliteError::MemoryAccessViolation(address))
        }
    }

    /// Copies bytes straight into the flat memory at `address`; bytes
    /// beyond the memory end are ignored.
    pub fn load_bytes(&mut self, address: u32, data: &Vec<u8>) -> (r: EmuliteResult<()>)
        requires
            data@.len() <= 0xFFFF_FFFF,
        ensures
            r is Ok,
            final(self)@ == (ArmV {
                mem: mem_loaded(old(self)@.mem, address as int, data@),
                ..old(self)@
            }),
    {
        mem_load(&mut self.memory, address, data);
        Ok(())
    }

    /// Looks up the register file index for a (case-insensitive) name.
    fn register_index_exec(&self, reg: &str) -> (r: Option<usize>)
        ensures
            match ArmV::register_index(ascii_lower_seq(reg@)) {
                Some(i) => r matches Some(u) && u as int == i && i < 16,
                None => r is None,
            },
    {
        if eq_lowered(reg, "r0") {
            Some(0)
        } else if eq_lowered(reg, "r1") {
            Some(1)
        } else if eq_lowered(reg, "r2") {
            Some(2)
        } else if eq_lowered(reg, "r3") {
            Some(3)
        } else if eq_lowered(reg, "r4") {
            Some(4)
        } else if eq_lowered(reg, "r5") {
            Some(5)
        } else if eq_lowered(reg, "r6") {
            Some(6)
        } else if eq_lowered(reg, "r7") {
            Some(7)
        } else if eq_lowered(reg, "r8") {
            Some(8)
        } else if eq_lowered(reg, "r9") {
            Some(9)
        } else if eq_lowered(reg, "r10") {
            Some(10)
        } else if eq_lowered(reg, "r11") {
            Some(11)
        } else if eq_lowered(reg, "r12") {
            Some(12)
        } else if eq_lowered(reg, "r13") || eq_lowered(reg, "sp") {
            Some(13)
        } else if eq_lowered(reg, "r14") || eq_lowered(reg, "lr") {
            Some(14)
        } else if eq_lowered(reg, "r15") || eq_lowered(reg, "pc") {
            Some(15)
        } else {
            None
        }
    }

    /// Reads a register by case-insensitive name or alias; an unknown name
    /// fails, naming the register.
    pub fn get_register(&self, reg: &str) -> (r: EmuliteResult<u32>)
        ensures
            match self@.get_register_spec(reg@) {
                Some(v) => r == Ok::<u32, EmuliteError>(v),
                None => r matches Err(e) && e matches EmuliteError::CpuError(m) && m@
                    == unknown_register_msg(reg@),
            },
    {
        if eq_lowered(reg, "cpsr") {
            return Ok(self.cpsr);
        }
        match self.register_index_exec(reg) {
            Some(i) => Ok(self.registers[i]),
            None => Err(unknown_register_error(reg)),
        }
    }

    /// Writes a register by case-insensitive name or alias; an unknown name
    /// fails, naming the register.
    pub fn set_register(&mut self, reg: &str, value: u32) -> (r: EmuliteResult<()>)
        ensures
            match old(self)@.set_register_spec(reg@, value) {
                Some(s) => r is Ok && final(self)@ == s,
                None => r matches Err(e) && e matches EmuliteError::CpuError(m) && m@
                    == unknown_register_msg(reg@) && final(self)@ == old(self)@,
            },
    {
        if eq_lowered(reg, "cpsr") {
            self.cpsr = value;
            return Ok(());
        }
        match self.register_index_exec(reg) {
            Some(i) => {
                self.registers[i] = value;
                Ok(())
            },
            None => Err(unknown_register_error(reg)),
        }
    }

    /// Every numbered register with its value, then the program counter and
    /// the status register.
    pub fn get_registers(&self) -> (r: Vec<(String, u32)>)
        ensures
            r@.len() == 18,
            forall|i: int| 0 <= i < 16 ==> (#[trigger] r@[i]).1 == self@.regs[i],
            r@[16].0@ == "pc"@ && r@[16].1 == self@.pc,
            r@[17].0@ == "cpsr"@ && r@[17].1 == self@.cpsr,
    {
        let mut registers: Vec<(String, u32)> = Vec::new();
        let names: [&str; 16] = [
            "r0", "r1", "r2", "r3", "r4", "r5", "r6", "r7", "r8", "r9", "r10", "r11", "r12", "r13",
            "r14", "r15",
        ];
        let mut i: usize = 0;
        while i < 16
            invariant
                i <= 16,
                registers@.len() == i,
                forall|j: int| 0 <= j < i ==> (#[trigger] registers@[j]).1 == self@.regs[j],
            decreases 16 - i,
        {
            registers.push((String::from_str(names[i]), self.registers[i]));
            i = i + 1;
        }
        registers.push((String::from_str("pc"), self.pc));
        registers.push((String::from_str("cpsr"), self.cpsr));
        registers
    }

    /// Whether the CPU has halted.
    pub fn is_halted(&self) -> (r: bool)
        ensures
            r == self@.halted,
    {
        self.halted
    }

    /// The flags the architecture defines, read from CPSR bits.
    pub fn get_flags(&self) -> (r: CpuFlags)
        ensures
            r == self@.get_flags_spec(),
    {
        CpuFlags {
            carry: (self.cpsr & 0x20000000) != 0,
            zero: (self.cpsr & 0x40000000) != 0,
            overflow: (self.cpsr & 0x10000000) != 0,
            negative: (self.cpsr & 0x80000000) != 0,
            extend: false,
            interrupt_disable: (self.cpsr & 0x00000080) != 0,
            decimal: false,
            break_command: false,
            sign: (self.cpsr & 0x80000000) != 0,
            parity: false,
            auxiliary_carry: false,
        }
    }

    /// Writes the defined CPSR bits; flags the architecture does not define
    /// are accepted and ignored.
    pub fn set_flags(&mut self, flags: CpuFlags) -> (r: EmuliteResult<()>)
        ensures
            r is Ok,
            final(self)@ == old(self)@.set_flags_spec(flags),
    {
        if flags.carry {
            self.cpsr |= 0x20000000;
        } else {
            self.cpsr &= !0x20000000;
        }
        if flags.zero {
            self.cpsr |= 0x40000000;
        } else {
            self.cpsr &= !0x40000000;
        }
        if flags.overflow {
            self.cpsr |= 0x10000000;
        } else {
            self.cpsr &= !0x10000000;
        }
        if flags.negative {
            self.cpsr |= 0x80000000;
        } else {
            self.cpsr &= !0x80000000;
        }
        if flags.interrupt_disable {
            self.cpsr |= 0x00000080;
        } else {
            self.cpsr &= !0x00000080;
        }
        Ok(())
    }

    /// The static description of this CPU.
    pub fn info(&self) -> (r: CpuInfo)
        ensures
            r.name@ == "ARM"@,
            r.architecture@ == "ARM"@,
            r.bits == 32,
            r.endianness == Endianness::Little,
            r.register_count == 16,
            r.instruction_count == 64,
            r.clock_speed_hz == 200_000_000,
    {
        CpuInfo {
            name: String::from_str("ARM"),
            architecture: String::from_str("ARM"),
            bits: 32,
            endianness: Endianness::Little,
            register_count: 16,
            instruction_count: 64,
            clock_speed_hz: 200_000_000,
        }
    }
}

} // verus!
