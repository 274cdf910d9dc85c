//! Generic fallback interpreter: a small register-to-register instruction
//! set over named registers, used for architectures without a dedicated
//! interpreter and for testing.
//!
//! Registers form a name-to-value table; the instruction set reads its
//! operands from fixed register names.

use vstd::prelude::*;

use crate::cpu::{
    byte_at, mem_byte, mem_load, mem_loaded, mem_set_byte, mem_write, mem_write32_le,
    unimplemented_opcode_error, unimplemented_opcode_msg, word32_le, CpuFlags, CpuInfo, Endianness,
    flags_cleared,
};
use crate::error::{EmuliteError, EmuliteResult};
use crate::memory::zero_bytes;
use crate::text::str_eq;
use vstd::wrapping::u32_specs;
use vstd::wrapping::u64_specs;

verus! {

broadcast use vstd::string::group_string_axioms;

/// The generic fallback interpreter.
#[derive(Debug)]
pub struct GenericCpu {
    /// Named registers.
    pub registers: Vec<(String, u32)>,
    /// Program counter.
    pub pc: u32,
    /// Status flags.
    pub flags: CpuFlags,
    memory: Vec<u8>,
    cycles: u64,
    halted: bool,
    opcode: u8,
    operand: u32,
}

/// Mathematical image of the CPU state.
pub ghost struct GenericV {
    pub regs: Seq<(Seq<char>, u32)>,
    pub pc: u32,
    pub flags: CpuFlags,
    pub mem: Seq<u8>,
    pub cycles: u64,
    pub halted: bool,
    pub opcode: u8,
    pub operand: u32,
}

impl View for GenericCpu {
    type V = GenericV;

    closed spec fn view(&self) -> GenericV {
        GenericV {
            regs: self.registers@.map(|i: int, e: (String, u32)| (e.0@, e.1)),
            pc: self.pc,
            flags: self.flags,
            mem: self.memory@,
            cycles: self.cycles,
            halted: self.halted,
            opcode: self.opcode,
            operand: self.operand,
        }
    }
}

/// The value of the first register named `name`, if any.
pub open spec fn assoc_get(regs: Seq<(Seq<char>, u32)>, name: Seq<char>) -> Option<u32>
    decreases regs.len(),
{
    if regs.len() == 0 {
        None
    } else if regs[0].0 == name {
        Some(regs[0].1)
    } else {
        assoc_get(regs.drop_first(), name)
    }
}

/// The value of the register named `name`, or zero if it is absent.
pub open spec fn assoc_get_or0(regs: Seq<(Seq<char>, u32)>, name: Seq<char>) -> u32 {
    match assoc_get(regs, name) {
        Some(v) => v,
        None => 0,
    }
}

/// The register table with `name` set to `value`: the first entry under
/// that name is replaced in place, or a new entry is appended.
pub open spec fn assoc_set(regs: Seq<(Seq<char>, u32)>, name: Seq<char>, value: u32) -> Seq<
    (Seq<char>, u32),
>
    decreases regs.len(),
{
    if regs.len() == 0 {
        seq![(name, value)]
    } else if regs[0].0 == name {
        regs.update(0, (regs[0].0, value))
    } else {
        seq![regs[0]] + assoc_set(regs.drop_first(), name, value)
    }
}

/// The faults a generic step can report.
pub ghost enum GenericFault {
    /// An opcode that is not implemented.
    Opcode(u8),
    /// A memory access past the allocated memory, carrying the address.
    Mav(u32),
    /// A division or modulo by zero.
    DivZero,
}

/// The message text of the division-by-zero error.
pub open spec fn div_zero_msg() -> Seq<char> {
    "Division by zero"@
}

impl GenericV {
    /// Zero, negative and (simplified) carry flags updated from a result.
    pub open spec fn flags_updated(f: CpuFlags, result: u32) -> CpuFlags {
        CpuFlags {
            zero: result == 0,
            negative: result & 0x80000000 != 0,
            carry: result < 0xFFFFFFFF,
            overflow: false,
            ..f
        }
    }

    /// What a checked 32-bit little-endian read yields: the word when all
    /// four bytes lie inside the memory, the violating start address
    /// otherwise.
    pub open spec fn read32_spec(self, address: u32) -> Result<u32, u32> {
        if address + 4 > self.mem.len() {
            Err(address)
        } else {
            Ok(word32_le(self.mem, address as int))
        }
    }

    /// What a checked 32-bit little-endian write does.
    pub open spec fn write32_spec(self, address: u32, value: u32) -> Result<Seq<u8>, u32> {
        if address + 4 > self.mem.len() {
            Err(address)
        } else {
            Ok(mem_write32_le(self.mem, address as int, value))
        }
    }

    /// Register `r0` set to `result` with the flags updated from it.
    pub open spec fn with_result(self, result: u32) -> GenericV {
        GenericV {
            regs: assoc_set(self.regs, "r0"@, result),
            flags: Self::flags_updated(self.flags, result),
            ..self
        }
    }

    /// What the already-fetched instruction does: the next state, and the
    /// fault if one was hit.
    pub open spec fn exec_spec(self) -> (GenericV, Option<GenericFault>) {
        let s = self;
        let r1 = assoc_get_or0(s.regs, "r1"@);
        let r2 = assoc_get_or0(s.regs, "r2"@);
        match s.opcode {
            0x00u8 => (s, None),
            0x01u8 => (GenericV { halted: true, ..s }, None),
            0x02u8 => (GenericV { regs: assoc_set(s.regs, "r0"@, r1), ..s }, None),
            0x03u8 => (s.with_result(u32_specs::wrapping_add(r1, r2)), None),
            0x04u8 => (s.with_result(u32_specs::wrapping_sub(r1, r2)), None),
            0x05u8 => (s.with_result(r1 & r2), None),
            0x06u8 => (s.with_result(r1 | r2), None),
            0x07u8 => (s.with_result(r1 ^ r2), None),
            0x08u8 => (s.with_result(!r1), None),
            0x09u8 => (s.with_result(r1 << (r2 & 0x1F)), None),
            0x0Au8 => (s.with_result(r1 >> (r2 & 0x1F)), None),
            0x0Bu8 => (GenericV { pc: r1, ..s }, None),
            0x0Cu8 => (if s.flags.zero { GenericV { pc: r1, ..s } } else { s }, None),
            0x0Du8 => (if !s.flags.zero { GenericV { pc: r1, ..s } } else { s }, None),
            0x0Eu8 => (if s.flags.carry { GenericV { pc: r1, ..s } } else { s }, None),
            0x0Fu8 => (if !s.flags.carry { GenericV { pc: r1, ..s } } else { s }, None),
            0x10u8 => (
                GenericV { regs: assoc_set(s.regs, "r15"@, s.pc), pc: r1, ..s },
                None,
            ),
            0x11u8 => (GenericV { pc: assoc_get_or0(s.regs, "r15"@), ..s }, None),
            0x12u8 => {
                let sp = assoc_get_or0(s.regs, "r13"@);
                match s.write32_spec(sp, r1) {
                    Ok(mem) => (
                        GenericV {
                            mem,
                            regs: assoc_set(s.regs, "r13"@, u32_specs::wrapping_sub(sp, 4)),
                            ..s
                        },
                        None,
                    ),
                    Err(a) => (s, Some(GenericFault::Mav(a))),
                }
            },
            0x13u8 => {
                let sp = assoc_get_or0(s.regs, "r13"@);
                match s.read32_spec(u32_specs::wrapping_add(sp, 4)) {
                    Ok(value) => (
                        GenericV {
                            regs: assoc_set(
                                assoc_set(s.regs, "r0"@, value),
                                "r13"@,
                                u32_specs::wrapping_add(sp, 4),
                            ),
                            ..s
                        },
                        None,
                    ),
                    Err(a) => (s, Some(GenericFault::Mav(a))),
                }
            },
            0x14u8 => {
                match s.read32_spec(r1) {
                    Ok(value) => (GenericV { regs: assoc_set(s.regs, "r0"@, value), ..s }, None),
                    Err(a) => (s, Some(GenericFault::Mav(a))),
                }
            },
            0x15u8 => {
                match s.write32_spec(r1, r2) {
                    Ok(mem) => (GenericV { mem, ..s }, None),
                    Err(a) => (s, Some(GenericFault::Mav(a))),
                }
            },
            0x16u8 => {
                if r1 < s.mem.len() {
                    (
                        GenericV {
                            regs: assoc_set(s.regs, "r0"@, byte_at(s.mem, r1 as int) as u32),
                            ..s
                        },
                        None,
                    )
                } else {
                    (s, Some(GenericFault::Mav(r1)))
                }
            },
            0x17u8 => {
                if r1 < s.mem.len() {
                    (GenericV { mem: mem_write(s.mem, r1 as int, r2 as u8), ..s }, None)
                } else {
                    (s, Some(GenericFault::Mav(r1)))
                }
            },
            0x18u8 => {
                let result = u32_specs::wrapping_sub(r1, r2);
                (GenericV { flags: Self::flags_updated(s.flags, result), ..s }, None)
            },
            0x19u8 => {
                let result = r1 & r2;
                (GenericV { flags: Self::flags_updated(s.flags, result), ..s }, None)
            },
            0x1Au8 => (s.with_result(u32_specs::wrapping_add(r1, 1)), None),
            0x1Bu8 => (s.with_result(u32_specs::wrapping_sub(r1, 1)), None),
            0x1Cu8 => (s.with_result(u32_specs::wrapping_sub(0, r1)), None),
            0x1Du8 => (s.with_result(u32_specs::wrapping_mul(r1, r2)), None),
            0x1Eu8 => {
                if r2 == 0 {
                    (s, Some(GenericFault::DivZero))
                } else {
                    (s.with_result(r1 / r2), None)
                }
            },
            0x1Fu8 => {
                if r2 == 0 {
                    (s, Some(GenericFault::DivZero))
                } else {
                    (s.with_result(r1 % r2), None)
                }
            },
            _ => (s, Some(GenericFault::Opcode(s.opcode))),
        }
    }

    /// Whether the opcode carries a 32-bit operand.
    pub open spec fn needs_operand(op: u8) -> bool {
        op == 0x0B || op == 0x0C || op == 0x0D || op == 0x0E || op == 0x0F || op == 0x10
    }

    /// One fetch-decode-execute step: a no-op while halted, otherwise the
    /// opcode (and its operand, where one is carried) is fetched, the
    /// program counter advances past it and the instruction executes; the
    /// cycle counter advances on success.
    pub open spec fn step_spec(self) -> (GenericV, Option<GenericFault>) {
        if self.halted {
            (self, None)
        } else {
            let op = byte_at(self.mem, self.pc as int);
            let s1 = GenericV { opcode: op, pc: u32_specs::wrapping_add(self.pc, 1), ..self };
            if Self::needs_operand(op) {
                match s1.read32_spec(s1.pc) {
                    Ok(operand) => {
                        let s2 = GenericV {
                            operand,
                            pc: u32_specs::wrapping_add(s1.pc, 4),
                            ..s1
                        };
                        let (s3, fault) = s2.exec_spec();
                        match fault {
                            None => (
                                GenericV {
                                    cycles: u64_specs::wrapping_add(s3.cycles, 1),
                                    ..s3
                                },
                                None,
                            ),
                            Some(f) => (s3, Some(f)),
                        }
                    },
                    Err(a) => (s1, Some(GenericFault::Mav(a))),
                }
            } else {
                let (s3, fault) = s1.exec_spec();
                match fault {
                    None => (
                        GenericV { cycles: u64_specs::wrapping_add(s3.cycles, 1), ..s3 },
                        None,
                    ),
                    Some(f) => (s3, Some(f)),
                }
            }
        }
    }

    /// The register table holding r0 to r15, all zero, in order.
    pub open spec fn initial_regs() -> Seq<(Seq<char>, u32)> {
        seq![
            ("r0"@, 0u32),
            ("r1"@, 0u32),
            ("r2"@, 0u32),
            ("r3"@, 0u32),
            ("r4"@, 0u32),
            ("r5"@, 0u32),
            ("r6"@, 0u32),
            ("r7"@, 0u32),
            ("r8"@, 0u32),
            ("r9"@, 0u32),
            ("r10"@, 0u32),
            ("r11"@, 0u32),
            ("r12"@, 0u32),
            ("r13"@, 0u32),
            ("r14"@, 0u32),
            ("r15"@, 0u32),
        ]
    }

    /// The power-on state over a given memory image.
    pub open spec fn initial(mem: Seq<u8>) -> GenericV {
        GenericV {
            regs: Self::initial_regs(),
            pc: 0,
            flags: flags_cleared(),
            mem,
            cycles: 0,
            halted: false,
            opcode: 0,
            operand: 0,
        }
    }

    /// The generic architecture stores the whole flag set as given.
    pub open spec fn set_flags_spec(self, flags: CpuFlags) -> GenericV {
        GenericV { flags, ..self }
    }

    /// The power-on reset state: the register table rebuilt, everything
    /// else cleared, over a zeroed memory of the same size.
    pub open spec fn reset_spec(self) -> GenericV {
        GenericV {
            regs: Self::initial_regs(),
            pc: 0,
            flags: flags_cleared(),
            mem: Seq::new(self.mem.len(), |i: int| 0u8),
            cycles: 0,
            halted: false,
            ..self
        }
    }
}

/// Setting the flags that were just read changes nothing: the generic
/// architecture defines every flag and stores the set wholesale.
pub proof fn lemma_generic_flags_round_trip(s: GenericV)
    ensures
        s.set_flags_spec(s.flags) == s,
{
}

/// Writing a register and reading it back yields the value written, for
/// every register name: the generic architecture accepts any name.
pub proof fn lemma_generic_register_round_trip(s: GenericV, name: Seq<char>, value: u32)
    ensures
        assoc_get(assoc_set(s.regs, name, value), name) == Some(value),
{
    lemma_assoc_set_get(s.regs, name, value);
}

/// Looking a name up after setting it yields the value set.
proof fn lemma_assoc_set_get(regs: Seq<(Seq<char>, u32)>, name: Seq<char>, value: u32)
    ensures
        assoc_get(assoc_set(regs, name, value), name) == Some(value),
    decreases regs.len(),
{
    if regs.len() == 0 {
        assert(assoc_set(regs, name, value) == seq![(name, value)]);
        assert(assoc_get(seq![(name, value)], name) == Some(value));
    } else if regs[0].0 == name {
        let r2 = regs.update(0, (regs[0].0, value));
        assert(assoc_get(r2, name) == Some(value));
    } else {
        lemma_assoc_set_get(regs.drop_first(), name, value);
        let r2 = seq![regs[0]] + assoc_set(regs.drop_first(), name, value);
        assert(r2[0] == regs[0]);
        assert(r2.drop_first() =~= assoc_set(regs.drop_first(), name, value));
    }
}

impl GenericCpu {
    /// A generic CPU at power-on, with registers r0 to r15 and a zeroed
    /// memory of `memory_size` bytes.
    pub fn new(memory_size: usize) -> (r: GenericCpu)
        ensures
            r@ == GenericV::initial(Seq::new(memory_size as nat, |i: int| 0u8)),
    {
        let r = GenericCpu {
            registers: Self::fresh_registers(),
            pc: 0,
            flags: CpuFlags::default(),
            memory: zero_bytes(memory_size),
            cycles: 0,
            halted: false,
            opcode: 0,
            operand: 0,
        };
        proof {
            assert(r@.regs =~= GenericV::initial_regs());
        }
        r
    }

    /// Builds the register table r0 to r15, all zero.
    fn fresh_registers() -> (r: Vec<(String, u32)>)
        ensures
            r@.map(|i: int, e: (String, u32)| (e.0@, e.1)) =~= GenericV::initial_regs(),
    {
        let mut registers: Vec<(String, u32)> = Vec::new();
        registers.push((String::from_str("r0"), 0));
        registers.push((String::from_str("r1"), 0));
        registers.push((String::from_str("r2"), 0));
        registers.push((String::from_str("r3"), 0));
        registers.push((String::from_str("r4"), 0));
        registers.push((String::from_str("r5"), 0));
        registers.push((String::from_str("r6"), 0));
        registers.push((String::from_str("r7"), 0));
        registers.push((String::from_str("r8"), 0));
        registers.push((String::from_str("r9"), 0));
        registers.push((String::from_str("r10"), 0));
        registers.push((String::from_str("r11"), 0));
        registers.push((String::from_str("r12"), 0));
        registers.push((String::from_str("r13"), 0));
        registers.push((String::from_str("r14"), 0));
        registers.push((String::from_str("r15"), 0));
        registers
    }

    /// The value of the first register named `reg`, if any.
    fn reg_lookup(&self, reg: &str) -> (r: Option<u32>)
        ensures
            r == assoc_get(self@.regs, reg@),
    {
        let n = self.registers.len();
        proof {
            assert(self@.regs.subrange(0, n as int) =~= self@.regs);
        }
        let mut i: usize = 0;
        while i < n
            invariant
                i <= n,
                n == self.registers.len(),
                assoc_get(self@.regs, reg@) == assoc_get(
                    self@.regs.subrange(i as int, n as int),
                    reg@,
                ),
            decreases n - i,
        {
            proof {
                assert(self@.regs.subrange(i as int, n as int).drop_first() =~= self@.regs
                    .subrange(i as int + 1, n as int));
            }
            if str_eq(self.registers[i].0.as_str(), reg) {
                return Some(self.registers[i].1);
            }
            i = i + 1;
        }
        proof {
            assert(self@.regs.subrange(n as int, n as int) =~= Seq::<(Seq<char>, u32)>::empty());
        }
        None
    }

    /// The value of the register named `reg`, or zero if it is absent.
    fn reg_or0(&self, reg: &str) -> (r: u32)
        ensures
            r == assoc_get_or0(self@.regs, reg@),
    {
        match self.reg_lookup(reg) {
            Some(v) => v,
            None => 0,
        }
    }

    /// Sets the first register named `reg`, or appends a new entry.
    fn reg_store(&mut self, reg: &str, value: u32)
        ensures
            final(self)@ == (GenericV {
                regs: assoc_set(old(self)@.regs, reg@, value),
                ..old(self)@
            }),
    {
        let n = self.registers.len();
        let ghost whole = self@.regs;
        proof {
            assert(self@.regs.subrange(0, n as int) =~= self@.regs);
        }
        let mut i: usize = 0;
        while i < n
            invariant
                i <= n,
                n == self.registers.len(),
                *self == *old(self),
                forall|j: int| 0 <= j < i ==> self@.regs[j].0 != reg@,
            decreases n - i,
        {
            if str_eq(self.registers[i].0.as_str(), reg) {
                let ghost curvec = self.registers@;
                let entry = self.registers.remove(i);
                self.registers.insert(i, (entry.0, value));
                proof {
                    assert(self.registers@ =~= curvec.update(i as int, (entry.0, value)));
                    assert(self@.regs =~= old(self)@.regs.update(
                        i as int,
                        (old(self)@.regs[i as int].0, value),
                    ));
                    lemma_assoc_set_at(old(self)@.regs, reg@, value, i as int);
                }
                return ;
            }
            i = i + 1;
        }
        let ghost prev = self@.regs;
        self.registers.push((String::from_str(reg), value));
        proof {
            assert(self@.regs =~= prev.push((reg@, value)));
            lemma_assoc_set_append(old(self)@.regs, reg@, value);
        }
    }

    /// Checked little-endian dword read; fails past the memory end.
    fn read_memory_32(&self, address: u32) -> (r: EmuliteResult<u32>)
        ensures
            match self@.read32_spec(address) {
                Ok(v) => r == Ok::<u32, EmuliteError>(v),
                Err(a) => r == Err::<u32, EmuliteError>(EmuliteError::MemoryAccessViolation(a)),
            },
    {
        if (address as u64) + 4 > self.memory.len() as u64 {
            return Err(EmuliteError::MemoryAccessViolation(address));
        }
        Ok(crate::cpu::mem_word32_le(&self.memory, address))
    }

    /// Checked little-endian dword write; fails past the memory end.
    fn write_memory_32(&mut self, address: u32, value: u32) -> (r: EmuliteResult<()>)
        ensures
            match old(self)@.write32_spec(address, value) {
                Ok(mem) => r is Ok && final(self)@ == (GenericV { mem, ..old(self)@ }),
                Err(a) => r == Err::<(), EmuliteError>(EmuliteError::MemoryAccessViolation(a))
                    && final(self)@ == old(self)@,
            },
    {
        if (address as u64) + 4 > self.memory.len() as u64 {
            return Err(EmuliteError::MemoryAccessViolation(address));
        }
        crate::cpu::mem_set_word32_le(&mut self.memory, address, value);
        Ok(())
    }

    /// Stores `result` in r0 and updates the flags from it.
    fn store_result(&mut self, result: u32)
        ensures
            final(self)@ == old(self)@.with_result(result),
    {
        self.reg_store("r0", result);
        self.flags.zero = result == 0;
        self.flags.negative = (result & 0x80000000) != 0;
        self.flags.carry = result < 0xFFFFFFFF;
        self.flags.overflow = false;
    }

    /// Executes the already-fetched instruction.
    fn execute_instruction(&mut self) -> (r: EmuliteResult<()>)
        ensures
            ({
                let (post, fault) = old(self)@.exec_spec();
                final(self)@ == post && match fault {
                    None => r is Ok,
                    Some(GenericFault::Opcode(op)) => r matches Err(e) && e
                        matches EmuliteError::CpuError(m) && m@ == unimplemented_opcode_msg(op),
                    Some(GenericFault::Mav(a)) => r == Err::<(), EmuliteError>(
                        EmuliteError::MemoryAccessViolation(a),
                    ),
                    Some(GenericFault::DivZero) => r matches Err(e) && e
                        matches EmuliteError::CpuError(m) && m@ == div_zero_msg(),
                }
            }),
    {
        if self.opcode < 0x10 {
            self.execute_register_group()
        } else if self.opcode < 0x18 {
            self.execute_memory_group()
        } else {
            self.execute_arithmetic_group()
        }
    }

    /// Executes the register-to-register and jump instructions.
    #[verifier::rlimit(100)]
    fn execute_register_group(&mut self) -> (r: EmuliteResult<()>)
        requires
            old(self)@.opcode < 0x10,
        ensures
            ({
                let (post, fault) = old(self)@.exec_spec();
                final(self)@ == post && match fault {
                    None => r is Ok,
                    Some(GenericFault::Opcode(op)) => r matches Err(e) && e
                        matches EmuliteError::CpuError(m) && m@ == unimplemented_opcode_msg(op),
                    Some(GenericFault::Mav(a)) => r == Err::<(), EmuliteError>(
                        EmuliteError::MemoryAccessViolation(a),
                    ),
                    Some(GenericFault::DivZero) => r matches Err(e) && e
                        matches EmuliteError::CpuError(m) && m@ == div_zero_msg(),
                }
            }),
    {
        match self.opcode {
            0x00 => Ok(()),
            0x01 => {
                self.halted = true;
                Ok(())
            },
            0x02 => {
                let source = self.reg_or0("r1");
                self.reg_store("r0", source);
                Ok(())
            },
            0x03 => {
                let a = self.reg_or0("r1");
                let b = self.reg_or0("r2");
                self.store_result(a.wrapping_add(b));
                Ok(())
            },
            0x04 => {
                let a = self.reg_or0("r1");
                let b = self.reg_or0("r2");
                self.store_result(a.wrapping_sub(b));
                Ok(())
            },
            0x05 => {
                let a = self.reg_or0("r1");
                let b = self.reg_or0("r2");
                self.store_result(a & b);
                Ok(())
            },
            0x06 => {
                let a = self.reg_or0("r1");
                let b = self.reg_or0("r2");
                self.store_result(a | b);
                Ok(())
            },
            0x07 => {
                let a = self.reg_or0("r1");
                let b = self.reg_or0("r2");
                self.store_result(a ^ b);
                Ok(())
            },
            0x08 => {
                let a = self.reg_or0("r1");
                self.store_result(!a);
                Ok(())
            },
            0x09 => {
                let a = self.reg_or0("r1");
                let b = self.reg_or0("r2");
                proof {
                    assert(b & 0x1F < 32) by (bit_vector);
                }
                self.store_result(a << (b & 0x1F));
                Ok(())
            },
            0x0A => {
                let a = self.reg_or0("r1");
                let b = self.reg_or0("r2");
                proof {
                    assert(b & 0x1F < 32) by (bit_vector);
                }
                self.store_result(a >> (b & 0x1F));
                Ok(())
            },
            0x0B => {
                let address = self.reg_or0("r1");
                self.pc = address;
                Ok(())
            },
            0x0C => {
                if self.flags.zero {
                    let address = self.reg_or0("r1");
                    self.pc = address;
                }
                Ok(())
            },
            0x0D => {
                if !self.flags.zero {
                    let address = self.reg_or0("r1");
                    self.pc = address;
                }
                Ok(())
            },
            0x0E => {
                if self.flags.carry {
                    let address = self.reg_or0("r1");
                    self.pc = address;
                }
                Ok(())
            },
            0x0F => {
                if !self.flags.carry {
                    let address = self.reg_or0("r1");
                    self.pc = address;
                }
                Ok(())
            },
            _ => Err(unimplemented_opcode_error(self.opcode)),
        }
    }

    /// Executes the call, stack and memory instructions.
    #[verifier::rlimit(100)]
    fn execute_memory_group(&mut self) -> (r: EmuliteResult<()>)
        requires
            0x10 <= old(self)@.opcode < 0x18,
        ensures
            ({
                let (post, fault) = old(self)@.exec_spec();
                final(self)@ == post && match fault {
                    None => r is Ok,
                    Some(GenericFault::Opcode(op)) => r matches Err(e) && e
                        matches EmuliteError::CpuError(m) && m@ == unimplemented_opcode_msg(op),
                    Some(GenericFault::Mav(a)) => r == Err::<(), EmuliteError>(
                        EmuliteError::MemoryAccessViolation(a),
                    ),
                    Some(GenericFault::DivZero) => r matches Err(e) && e
                        matches EmuliteError::CpuError(m) && m@ == div_zero_msg(),
                }
            }),
    {
        match self.opcode {
            0x10 => {
                let address = self.reg_or0("r1");
                let pc = self.pc;
                self.reg_store("r15", pc);
                self.pc = address;
                Ok(())
            },
            0x11 => {
                let return_address = self.reg_or0("r15");
                self.pc = return_address;
                Ok(())
            },
            0x12 => {
                let value = self.reg_or0("r1");
                let sp = self.reg_or0("r13");
                match self.write_memory_32(sp, value) {
                    Ok(_) => {},
                    Err(e) => {
                        return Err(e);
                    },
                }
                self.reg_store("r13", sp.wrapping_sub(4));
                Ok(())
            },
            0x13 => {
                let sp = self.reg_or0("r13");
                let value = match self.read_memory_32(sp.wrapping_add(4)) {
                    Ok(v) => v,
                    Err(e) => {
                        return Err(e);
                    },
                };
                self.reg_store("r0", value);
                self.reg_store("r13", sp.wrapping_add(4));
                Ok(())
            },
            0x14 => {
                let address = self.reg_or0("r1");
                let value = match self.read_memory_32(address) {
                    Ok(v) => v,
                    Err(e) => {
                        return Err(e);
                    },
                };
                self.reg_store("r0", value);
                Ok(())
            },
            0x15 => {
                let address = self.reg_or0("r1");
                let value = self.reg_or0("r2");
                match self.write_memory_32(address, value) {
                    Ok(_) => Ok(()),
                    Err(e) => Err(e),
                }
            },
            0x16 => {
                let address = self.reg_or0("r1");
                if (address as usize) < self.memory.len() {
                    let value = mem_byte(&self.memory, address as u64);
                    self.reg_store("r0", value as u32);
                    Ok(())
                } else {
                    Err(EmuliteError::MemoryAccessViolation(address))
                }
            },
            0x17 => {
                let address = self.reg_or0("r1");
                let value = self.reg_or0("r2");
                if (address as usize) < self.memory.len() {
                    mem_set_byte(&mut self.memory, address as u64, value as u8);
                    Ok(())
                } else {
                    Err(EmuliteError::MemoryAccessViolation(address))
                }
            },
            _ => Err(unimplemented_opcode_error(self.opcode)),
        }
    }

    /// Executes the compare and arithmetic instructions.
    #[verifier::rlimit(100)]
    fn execute_arithmetic_group(&mut self) -> (r: EmuliteResult<()>)
        requires
            old(self)@.opcode >= 0x18,
        ensures
            ({
                let (post, fault) = old(self)@.exec_spec();
                final(self)@ == post && match fault {
                    None => r is Ok,
                    Some(GenericFault::Opcode(op)) => r matches Err(e) && e
                        matches EmuliteError::CpuError(m) && m@ == unimplemented_opcode_msg(op),
                    Some(GenericFault::Mav(a)) => r == Err::<(), EmuliteError>(
                        EmuliteError::MemoryAccessViolation(a),
                    ),
                    Some(GenericFault::DivZero) => r matches Err(e) && e
                        matches EmuliteError::CpuError(m) && m@ == div_zero_msg(),
                }
            }),
    {
        match self.opcode {
            0x18 => {
                let a = self.reg_or0("r1");
                let b = self.reg_or0("r2");
                let result = a.wrapping_sub(b);
                self.flags.zero = result == 0;
                self.flags.negative = (result & 0x80000000) != 0;
                self.flags.carry = result < 0xFFFFFFFF;
                self.flags.overflow = false;
                Ok(())
            },
            0x19 => {
                let a = self.reg_or0("r1");
                let b = self.reg_or0("r2");
                let result = a & b;
                self.flags.zero = result == 0;
                self.flags.negative = (result & 0x80000000) != 0;
                self.flags.carry = result < 0xFFFFFFFF;
                self.flags.overflow = false;
                Ok(())
            },
            0x1A => {
                let a = self.reg_or0("r1");
                self.store_result(a.wrapping_add(1));
                Ok(())
            },
            0x1B => {
                let a = self.reg_or0("r1");
                self.store_result(a.wrapping_sub(1));
                Ok(())
            },
            0x1C => {
                let a = self.reg_or0("r1");
                self.store_result(0u32.wrapping_sub(a));
                Ok(())
            },
            0x1D => {
                let a = self.reg_or0("r1");
                let b = self.reg_or0("r2");
                self.store_result(a.wrapping_mul(b));
                Ok(())
            },
            0x1E => {
                let a = self.reg_or0("r1");
                let b = self.reg_or0("r2");
                if b == 0 {
                    return Err(EmuliteError::CpuError(String::from_str("Division by zero")));
                }
                self.store_result(a / b);
                Ok(())
            },
            0x1F => {
                let a = self.reg_or0("r1");
                let b = self.reg_or0("r2");
                if b == 0 {
                    return Err(EmuliteError::CpuError(String::from_str("Division by zero")));
                }
                self.store_result(a % b);
                Ok(())
            },
            _ => Err(unimplemented_opcode_error(self.opcode)),
        }
    }

    /// One fetch-decode-execute step; a no-op while halted.  A fault is
    /// reported as an error with the program counter already advanced past
    /// the bytes that were fetched.
    #[verifier::rlimit(100)]
    pub fn step(&mut self) -> (r: EmuliteResult<()>)
        ensures
            ({
                let (post, fault) = old(self)@.step_spec();
                final(self)@ == post && match fault {
                    None => r is Ok,
                    Some(GenericFault::Opcode(op)) => r matches Err(e) && e
                        matches EmuliteError::CpuError(m) && m@ == unimplemented_opcode_msg(op),
                    Some(GenericFault::Mav(a)) => r == Err::<(), EmuliteError>(
                        EmuliteError::MemoryAccessViolation(a),
                    ),
                    Some(GenericFault::DivZero) => r matches Err(e) && e
                        matches EmuliteError::CpuError(m) && m@ == div_zero_msg(),
                }
            }),
    {
        if self.halted {
            return Ok(());
        }
        let op = mem_byte(&self.memory, self.pc as u64);
        self.opcode = op;
        self.pc = self.pc.wrapping_add(1);
        if op == 0x0B || op == 0x0C || op == 0x0D || op == 0x0E || op == 0x0F || op == 0x10 {
            let operand = match self.read_memory_32(self.pc) {
                Ok(v) => v,
                Err(e) => {
                    return Err(e);
                },
            };
            self.operand = operand;
            self.pc = self.pc.wrapping_add(4);
        }
        match self.execute_instruction() {
            Ok(_) => {
                self.cycles = self.cycles.wrapping_add(1);
                Ok(())
            },
            Err(e) => Err(e),
        }
    }

    /// Power-on reset: the register table rebuilt, everything cleared, the
    /// memory zeroed.
    pub fn reset(&mut self) -> (r: EmuliteResult<()>)
        ensures
            r is Ok,
            final(self)@ == old(self)@.reset_spec(),
            final(self)@.pc == 0,
    {
        self.registers = Self::fresh_registers();
        self.pc = 0;
        self.flags = CpuFlags::default();
        let len = self.memory.len();
        self.memory = zero_bytes(len);
        self.cycles = 0;
        self.halted = false;
        proof {
            assert(self@.regs =~= GenericV::initial_regs());
        }
        Ok(())
    }

    /// The architecture's factory name.
    pub fn name(&self) -> (r: &'static str)
        ensures
            r@ == "Generic"@,
    {
        "Generic"
    }

    /// The current program counter.
    pub fn pc(&self) -> (r: u32)
        ensures
            r == self@.pc,
    {
        self.pc
    }

    /// Sets the program counter.
    pub fn set_pc(&mut self, pc: u32) -> (r: EmuliteResult<()>)
        ensures
            r is Ok,
            final(self)@ == (GenericV { pc, ..old(self)@ }),
    {
        self.pc = pc;
        Ok(())
    }

    /// Reads one byte; an address beyond the allocated memory fails with a
    /// violation carrying the address.
    pub fn read_memory(&self, address: u32) -> (r: EmuliteResult<u8>)
        ensures
            (address as int) < self@.mem.len() ==> r == Ok::<u8, EmuliteError>(
                self@.mem[address as int],
            ),
            (address as int) >= self@.mem.len() ==> r == Err::<u8, EmuliteError>(
                EmuliteError::MemoryAccessViolation(address),
            ),
    {
        if (address as usize) < self.memory.len() {
            Ok(self.memory[address as usize])
        } else {
            Err(EmuliteError::MemoryAccessViolation(address))
        }
    }

    /// Writes one byte; an address beyond the allocated memory fails with a
    /// violation carrying the address.
    pub fn write_memory(&mut self, address: u32, value: u8) -> (r: EmuliteResult<()>)
        ensures
            (address as int) < old(self)@.mem.len() ==> r is Ok && final(self)@ == (GenericV {
                mem: old(self)@.mem.update(address as int, value),
                ..old(self)@
            }),
            (address as int) >= old(self)@.mem.len() ==> r == Err::<(), EmuliteError>(
                EmuliteError::MemoryAccessViolation(address),
            ) && final(self)@ == old(self)@,
    {
        if (address as usize) < self.memory.len() {
            self.memory.set(address as usize, value);
            Ok(())
        } else {
            Err(EmuliteError::MemoryAccessViolation(address))
        }
    }

    /// Copies bytes straight into the flat memory at `address`; bytes
    /// beyond the memory end are ignored.
    pub fn load_bytes(&mut self, address: u32, data: &Vec<u8>) -> (r: EmuliteResult<()>)
        requires
            data@.len() <= 0xFFFF_FFFF,
        ensures
            r is Ok,
            final(self)@ == (GenericV {
                mem: mem_loaded(old(self)@.mem, address as int, data@),
                ..old(self)@
            }),
    {
        mem_load(&mut self.memory, address, data);
        Ok(())
    }

    /// Reads a register by exact name; an unknown name fails, naming the
    /// register.
    pub fn get_register(&self, reg: &str) -> (r: EmuliteResult<u32>)
        ensures
            match assoc_get(self@.regs, reg@) {
                Some(v) => r == Ok::<u32, EmuliteError>(v),
                None => r matches Err(e) && e matches EmuliteError::CpuError(m) && m@
                    == register_not_found_msg(reg@),
            },
    {
        match self.reg_lookup(reg) {
            Some(v) => Ok(v),
            None => Err(
                EmuliteError::CpuError(
                    String::from_str("Register '").concat(reg).concat("' not found"),
                ),
            ),
        }
    }

    /// Writes a register by exact name, creating it if it is absent; this
    /// never fails.
    pub fn set_register(&mut self, reg: &str, value: u32) -> (r: EmuliteResult<()>)
        ensures
            r is Ok,
            final(self)@ == (GenericV {
                regs: assoc_set(old(self)@.regs, reg@, value),
                ..old(self)@
            }),
    {
        self.reg_store(reg, value);
        Ok(())
    }

    /// Every register with its value, in table order.
    pub fn get_registers(&self) -> (r: Vec<(String, u32)>)
        ensures
            r@.map(|i: int, e: (String, u32)| (e.0@, e.1)) == self@.regs,
    {
        let n = self.registers.len();
        let mut out: Vec<(String, u32)> = Vec::new();
        let mut i: usize = 0;
        while i < n
            invariant
                i <= n,
                n == self.registers.len(),
                out@.map(|k: int, e: (String, u32)| (e.0@, e.1)) =~= self@.regs.subrange(
                    0,
                    i as int,
                ),
            decreases n - i,
        {
            let ghost prev = out@.map(|k: int, e: (String, u32)| (e.0@, e.1));
            let name = crate::memory::clone_string(&self.registers[i].0);
            let value = self.registers[i].1;
            out.push((name, value));
            proof {
                assert(out@.map(|k: int, e: (String, u32)| (e.0@, e.1)) =~= prev.push(
                    (self@.regs[i as int].0, self@.regs[i as int].1),
                ));
                assert(out@.map(|k: int, e: (String, u32)| (e.0@, e.1)) =~= self@.regs.subrange(
                    0,
                    i as int + 1,
                ));
            }
            i = i + 1;
        }
        proof {
            assert(self@.regs.subrange(0, n as int) =~= self@.regs);
        }
        out
    }

    /// Whether the CPU has halted.
    pub fn is_halted(&self) -> (r: bool)
        ensures
            r == self@.halted,
    {
        self.halted
    }

    /// The stored flags; the generic architecture defines every flag bit.
    pub fn get_flags(&self) -> (r: CpuFlags)
        ensures
            r == self@.flags,
    {
        self.flags
    }

    /// Stores the whole flag set.
    pub fn set_flags(&mut self, flags: CpuFlags) -> (r: EmuliteResult<()>)
        ensures
            r is Ok,
            final(self)@ == old(self)@.set_flags_spec(flags),
    {
        self.flags = flags;
        Ok(())
    }

    /// The static description of this CPU.
    pub fn info(&self) -> (r: CpuInfo)
        ensures
            r.name@ == "Generic CPU"@,
            r.architecture@ == "Generic"@,
            r.bits == 32,
            r.endianness == Endianness::Little,
            r.register_count == self@.regs.len(),
            r.instruction_count == 32,
            r.clock_speed_hz == 1_000_000,
    {
        CpuInfo {
            name: String::from_str("Generic CPU"),
            architecture: String::from_str("Generic"),
            bits: 32,
            endianness: Endianness::Little,
            register_count: self.registers.len(),
            instruction_count: 32,
            clock_speed_hz: 1_000_000,
        }
    }
}

/// The message text of a register-not-found error.
pub open spec fn register_not_found_msg(reg: Seq<char>) -> Seq<char> {
    "Register '"@ + reg + "' not found"@
}

/// Replacing an existing entry at its index is the in-place update.
proof fn lemma_assoc_set_at(regs: Seq<(Seq<char>, u32)>, name: Seq<char>, value: u32, i: int)
    requires
        0 <= i < regs.len(),
        regs[i].0 == name,
        forall|j: int| 0 <= j < i ==> regs[j].0 != name,
    ensures
        assoc_set(regs, name, value) == regs.update(i, (regs[i].0, value)),
    decreases regs.len(),
{
    if i == 0 {
    } else {
        lemma_assoc_set_at(regs.drop_first(), name, value, i - 1);
        assert(regs.drop_first().update(i - 1, (regs[i].0, value)) =~= regs.update(
            i,
            (regs[i].0, value),
        ).drop_first());
        assert(seq![regs[0]] + regs.update(i, (regs[i].0, value)).drop_first() =~= regs.update(
            i,
            (regs[i].0, value),
        ));
    }
}

/// Appending a fresh entry is the table with that entry pushed.
proof fn lemma_assoc_set_append(regs: Seq<(Seq<char>, u32)>, name: Seq<char>, value: u32)
    requires
        forall|j: int| 0 <= j < regs.len() ==> regs[j].0 != name,
    ensures
        assoc_set(regs, name, value) == regs.push((name, value)),
    decreases regs.len(),
{
    if regs.len() == 0 {
        assert(assoc_set(regs, name, value) =~= regs.push((name, value)));
    } else {
        assert(forall|j: int|
            0 <= j < regs.drop_first().len() ==> regs.drop_first()[j].0 != name);
        lemma_assoc_set_append(regs.drop_first(), name, value);
        assert(seq![regs[0]] + regs.drop_first().push((name, value)) =~= regs.push(
            (name, value),
        ));
    }
}

} // verus!
