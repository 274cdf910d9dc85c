//! x86 interpreter (32-bit subset), for PC-style emulation.
//!
//! The CPU owns a 256 MiB flat memory.  During execution and reset a byte
//! beyond that memory reads zero and writes to it are ignored, as open bus;
//! the byte-granular debug interface reports a violation instead.

use vstd::prelude::*;

use crate::cpu::{
    byte_at, mem_byte, mem_load, mem_loaded, mem_set_byte, mem_set_word32_le, mem_word16_le,
    mem_word32_le, mem_write, mem_write32_le, unimplemented_opcode_error, unimplemented_opcode_msg,
    unknown_register_error, unknown_register_msg, word16_le, word32_le, CpuFlags, CpuInfo,
    Endianness,
};
use crate::error::{EmuliteError, EmuliteResult};
use crate::memory::zero_bytes;
use crate::text::{ascii_lower_seq, eq_lowered};
use vstd::wrapping::u32_specs;
use vstd::wrapping::u64_specs;
use vstd::wrapping::u8_specs;

verus! {

broadcast use vstd::string::group_string_axioms;

/// The x86 interpreter.
#[derive(Debug)]
pub struct X86 {
    pub eax: u32,
    pub ebx: u32,
    pub ecx: u32,
    pub edx: u32,
    pub esi: u32,
    pub edi: u32,
    pub ebp: u32,
    pub esp: u32,
    pub cs: u16,
    pub ds: u16,
    pub es: u16,
    pub fs: u16,
    pub gs: u16,
    pub ss: u16,
    pub eip: u32,
    pub eflags: u32,
    memory: Vec<u8>,
    cycles: u64,
    halted: bool,
    opcode: u8,
    modrm: u8,
    sib: u8,
    displacement: u32,
    immediate: u32,
}

/// Mathematical image of the CPU state.
pub ghost struct X86V {
    pub eax: u32,
    pub ebx: u32,
    pub ecx: u32,
    pub edx: u32,
    pub esi: u32,
    pub edi: u32,
    pub ebp: u32,
    pub esp: u32,
    pub cs: u16,
    pub ds: u16,
    pub es: u16,
    pub fs: u16,
    pub gs: u16,
    pub ss: u16,
    pub eip: u32,
    pub eflags: u32,
    pub mem: Seq<u8>,
    pub cycles: u64,
    pub halted: bool,
    pub opcode: u8,
    pub modrm: u8,
    pub sib: u8,
    pub displacement: u32,
    pub immediate: u32,
}

impl View for X86 {
    type V = X86V;

    closed spec fn view(&self) -> X86V {
        X86V {
            eax: self.eax,
            ebx: self.ebx,
            ecx: self.ecx,
            edx: self.edx,
            esi: self.esi,
            edi: self.edi,
            ebp: self.ebp,
            esp: self.esp,
            cs: self.cs,
            ds: self.ds,
            es: self.es,
            fs: self.fs,
            gs: self.gs,
            ss: self.ss,
            eip: self.eip,
            eflags: self.eflags,
            mem: self.memory@,
            cycles: self.cycles,
            halted: self.halted,
            opcode: self.opcode,
            modrm: self.modrm,
            sib: self.sib,
            displacement: self.displacement,
            immediate: self.immediate,
        }
    }
}

/// Whether the opcode carries a ModR/M byte.
pub open spec fn needs_modrm(op: u8) -> bool {
    (0x00 <= op && op <= 0x03) || (0x08 <= op && op <= 0x0B) || (0x20 <= op && op <= 0x23) || (0x28
        <= op && op <= 0x2B) || (0x80 <= op && op <= 0x83) || (0x88 <= op && op <= 0x8B)
}

/// Whether the opcode carries an immediate operand.
pub open spec fn needs_immediate(op: u8) -> bool {
    op == 0xE8 || op == 0xE9 || op == 0xEB
}

/// Whether the immediate operand is 32 bits wide.
pub open spec fn is_32_bit_immediate(op: u8) -> bool {
    op == 0xE8 || op == 0xE9
}

impl X86V {
    /// The value of general register `r` (0 to 7); other encodings read 0.
    pub open spec fn reg_of(self, r: u8) -> u32 {
        match r {
            0u8 => self.eax,
            1u8 => self.ecx,
            2u8 => self.edx,
            3u8 => self.ebx,
            4u8 => self.esp,
            5u8 => self.ebp,
            6u8 => self.esi,
            7u8 => self.edi,
            _ => 0,
        }
    }

    /// The state with general register `r` set; other encodings change
    /// nothing.
    pub open spec fn reg_set(self, r: u8, value: u32) -> X86V {
        match r {
            0u8 => X86V { eax: value, ..self },
            1u8 => X86V { ecx: value, ..self },
            2u8 => X86V { edx: value, ..self },
            3u8 => X86V { ebx: value, ..self },
            4u8 => X86V { esp: value, ..self },
            5u8 => X86V { ebp: value, ..self },
            6u8 => X86V { esi: value, ..self },
            7u8 => X86V { edi: value, ..self },
            _ => self,
        }
    }

    /// The SIB base register value.
    pub open spec fn sib_base(self) -> u32 {
        self.reg_of(self.sib & 0x07)
    }

    /// The SIB index register value; index encoding 4 means no index.
    pub open spec fn sib_index(self) -> u32 {
        if (self.sib >> 3) & 0x07 == 4 {
            0
        } else {
            self.reg_of((self.sib >> 3) & 0x07)
        }
    }

    /// The SIB scale factor.
    pub open spec fn sib_scale(self) -> u32 {
        1u32 << ((self.sib >> 6) & 0x03)
    }

    /// The scaled-index-plus-base-plus-displacement address of a SIB byte.
    pub open spec fn sib_address(self, disp: u32) -> u32 {
        u32_specs::wrapping_add(
            u32_specs::wrapping_add(
                self.sib_base(),
                u32_specs::wrapping_mul(self.sib_index(), self.sib_scale()),
            ),
            disp,
        )
    }

    /// The effective address the current ModR/M (and SIB) bytes resolve to.
    pub open spec fn effective_address_spec(self) -> u32 {
        let mod_val = (self.modrm >> 6) & 0x03;
        let rm_val = self.modrm & 0x07;
        if mod_val == 0 {
            if rm_val == 4 {
                self.sib_address(self.displacement)
            } else if rm_val == 5 {
                self.displacement
            } else if rm_val == 6 {
                u32_specs::wrapping_add(self.esi, self.displacement)
            } else if rm_val == 7 {
                u32_specs::wrapping_add(self.edi, self.displacement)
            } else {
                u32_specs::wrapping_add(self.reg_of(rm_val), self.displacement)
            }
        } else if mod_val == 1 {
            let disp8 = self.displacement as i8 as u32;
            if rm_val == 4 {
                self.sib_address(disp8)
            } else if rm_val == 5 {
                u32_specs::wrapping_add(self.ebp, disp8)
            } else if rm_val == 6 {
                u32_specs::wrapping_add(self.esi, disp8)
            } else if rm_val == 7 {
                u32_specs::wrapping_add(self.edi, disp8)
            } else {
                u32_specs::wrapping_add(self.reg_of(rm_val), disp8)
            }
        } else if mod_val == 2 {
            if rm_val == 4 {
                self.sib_address(self.displacement)
            } else if rm_val == 5 {
                u32_specs::wrapping_add(self.ebp, self.displacement)
            } else if rm_val == 6 {
                u32_specs::wrapping_add(self.esi, self.displacement)
            } else if rm_val == 7 {
                u32_specs::wrapping_add(self.edi, self.displacement)
            } else {
                u32_specs::wrapping_add(self.reg_of(rm_val), self.displacement)
            }
        } else {
            self.reg_of(rm_val)
        }
    }

    /// The EFLAGS value after updating zero, sign, carry and overflow from
    /// a result.
    pub open spec fn flags_after(eflags: u32, result: u32, carry: bool, overflow: bool) -> u32 {
        let e: u32 = if result == 0 { eflags | 0x40 } else { eflags & !0x40u32 };
        let e: u32 = if result & 0x80000000 != 0 { e | 0x80 } else { e & !0x80u32 };
        let e: u32 = if carry { e | 0x01 } else { e & !0x01u32 };
        let e: u32 = if overflow { e | 0x800 } else { e & !0x800u32 };
        e
    }

    /// What the already-decoded instruction does: the next state, and the
    /// opcode if it is not implemented.
    pub open spec fn exec_spec(self) -> (X86V, Option<u8>) {
        let s = self;
        let reg = (s.modrm >> 3) & 0x07;
        let rm = s.modrm & 0x07;
        let mod_val = (s.modrm >> 6) & 0x03;
        match s.opcode {
            0x88u8 => {
                if mod_val == 3 {
                    let value = (s.reg_of(reg) & 0xFF) as u8;
                    let dest = (s.reg_of(rm) & 0xFFFFFF00) | (value as u32);
                    (s.reg_set(rm, dest), None)
                } else {
                    let addr = s.effective_address_spec();
                    let value = (s.reg_of(reg) & 0xFF) as u8;
                    (X86V { mem: mem_write(s.mem, addr as int, value), ..s }, None)
                }
            },
            0x89u8 => {
                if mod_val == 3 {
                    (s.reg_set(rm, s.reg_of(reg)), None)
                } else {
                    let addr = s.effective_address_spec();
                    (X86V { mem: mem_write32_le(s.mem, addr as int, s.reg_of(reg)), ..s }, None)
                }
            },
            0x8Au8 => {
                let value: u8 = if mod_val == 3 {
                    (s.reg_of(rm) & 0xFF) as u8
                } else {
                    byte_at(s.mem, s.effective_address_spec() as int)
                };
                let dest = (s.reg_of(reg) & 0xFFFFFF00) | (value as u32);
                (s.reg_set(reg, dest), None)
            },
            0x8Bu8 => {
                let value: u32 = if mod_val == 3 {
                    s.reg_of(rm)
                } else {
                    word32_le(s.mem, s.effective_address_spec() as int)
                };
                (s.reg_set(reg, value), None)
            },
            0x00u8 => {
                let reg_value = (s.reg_of(reg) & 0xFF) as u8;
                let rm_value: u8 = if mod_val == 3 {
                    (s.reg_of(rm) & 0xFF) as u8
                } else {
                    byte_at(s.mem, s.effective_address_spec() as int)
                };
                let result = u8_specs::wrapping_add(reg_value, rm_value);
                let carry = (result as u16) < (reg_value as u16);
                let overflow = ((reg_value ^ result) & (rm_value ^ result) & 0x80) != 0;
                let s2 = if mod_val == 3 {
                    let dest = (s.reg_of(rm) & 0xFFFFFF00) | (result as u32);
                    s.reg_set(rm, dest)
                } else {
                    X86V {
                        mem: mem_write(s.mem, s.effective_address_spec() as int, result),
                        ..s
                    }
                };
                (
                    X86V {
                        eflags: Self::flags_after(s2.eflags, result as u32, carry, overflow),
                        ..s2
                    },
                    None,
                )
            },
            0x01u8 => {
                let reg_value = s.reg_of(reg);
                let rm_value: u32 = if mod_val == 3 {
                    s.reg_of(rm)
                } else {
                    word32_le(s.mem, s.effective_address_spec() as int)
                };
                let result = u32_specs::wrapping_add(reg_value, rm_value);
                let carry = result < reg_value;
                let overflow = ((reg_value ^ result) & (rm_value ^ result) & 0x80000000) != 0;
                let s2 = if mod_val == 3 {
                    s.reg_set(rm, result)
                } else {
                    X86V {
                        mem: mem_write32_le(s.mem, s.effective_address_spec() as int, result),
                        ..s
                    }
                };
                (X86V { eflags: Self::flags_after(s2.eflags, result, carry, overflow), ..s2 }, None)
            },
            0x28u8 => {
                let reg_value = (s.reg_of(reg) & 0xFF) as u8;
                let rm_value: u8 = if mod_val == 3 {
                    (s.reg_of(rm) & 0xFF) as u8
                } else {
                    byte_at(s.mem, s.effective_address_spec() as int)
                };
                let result = u8_specs::wrapping_sub(rm_value, reg_value);
                let carry = (rm_value as u16) < (reg_value as u16);
                let overflow = ((rm_value ^ reg_value) & (rm_value ^ result) & 0x80) != 0;
                let s2 = if mod_val == 3 {
                    let dest = (s.reg_of(rm) & 0xFFFFFF00) | (result as u32);
                    s.reg_set(rm, dest)
                } else {
                    X86V {
                        mem: mem_write(s.mem, s.effective_address_spec() as int, result),
                        ..s
                    }
                };
                (
                    X86V {
                        eflags: Self::flags_after(s2.eflags, result as u32, carry, overflow),
                        ..s2
                    },
                    None,
                )
            },
            0x29u8 => {
                let reg_value = s.reg_of(reg);
                let rm_value: u32 = if mod_val == 3 {
                    s.reg_of(rm)
                } else {
                    word32_le(s.mem, s.effective_address_spec() as int)
                };
                let result = u32_specs::wrapping_sub(rm_value, reg_value);
                let carry = rm_value < reg_value;
                let overflow = ((rm_value ^ reg_value) & (rm_value ^ result) & 0x80000000) != 0;
                let s2 = if mod_val == 3 {
                    s.reg_set(rm, result)
                } else {
                    X86V {
                        mem: mem_write32_le(s.mem, s.effective_address_spec() as int, result),
                        ..s
                    }
                };
                (X86V { eflags: Self::flags_after(s2.eflags, result, carry, overflow), ..s2 }, None)
            },
            0xE9u8 => (X86V { eip: u32_specs::wrapping_add(s.eip, s.immediate), ..s }, None),
            0xEBu8 => (
                X86V { eip: u32_specs::wrapping_add(s.eip, s.immediate as i8 as u32), ..s },
                None,
            ),
            0xE8u8 => {
                let esp2 = u32_specs::wrapping_sub(s.esp, 4);
                (
                    X86V {
                        esp: esp2,
                        mem: mem_write32_le(s.mem, esp2 as int, s.eip),
                        eip: u32_specs::wrapping_add(s.eip, s.immediate),
                        ..s
                    },
                    None,
                )
            },
            0xC3u8 => (
                X86V {
                    eip: word32_le(s.mem, s.esp as int),
                    esp: u32_specs::wrapping_add(s.esp, 4),
                    ..s
                },
                None,
            ),
            0x90u8 => (s, None),
            _ => (s, Some(s.opcode)),
        }
    }

    /// One fetch-decode-execute step: a no-op while halted, otherwise the
    /// opcode and its ModR/M, SIB, displacement and immediate bytes are
    /// fetched, the instruction pointer advances past them and the
    /// instruction executes; the cycle counter advances on success.
    pub open spec fn step_spec(self) -> (X86V, Option<u8>) {
        if self.halted {
            (self, None)
        } else {
            let op = byte_at(self.mem, self.eip as int);
            let s1 = X86V { opcode: op, eip: u32_specs::wrapping_add(self.eip, 1), ..self };
            let s2 = if needs_modrm(op) {
                let m = byte_at(s1.mem, s1.eip as int);
                let sa = X86V { modrm: m, eip: u32_specs::wrapping_add(s1.eip, 1), ..s1 };
                let sb = if m & 0x07 == 4 {
                    X86V {
                        sib: byte_at(sa.mem, sa.eip as int),
                        eip: u32_specs::wrapping_add(sa.eip, 1),
                        ..sa
                    }
                } else {
                    sa
                };
                let mod_val = (m >> 6) & 0x03;
                if mod_val == 1 {
                    X86V {
                        displacement: byte_at(sb.mem, sb.eip as int) as u32,
                        eip: u32_specs::wrapping_add(sb.eip, 1),
                        ..sb
                    }
                } else if mod_val == 2 {
                    X86V {
                        displacement: word32_le(sb.mem, sb.eip as int),
                        eip: u32_specs::wrapping_add(sb.eip, 4),
                        ..sb
                    }
                } else {
                    sb
                }
            } else {
                s1
            };
            let s3 = if needs_immediate(op) {
                if is_32_bit_immediate(op) {
                    X86V {
                        immediate: word32_le(s2.mem, s2.eip as int),
                        eip: u32_specs::wrapping_add(s2.eip, 4),
                        ..s2
                    }
                } else {
                    X86V {
                        immediate: word16_le(s2.mem, s2.eip as int) as u32,
                        eip: u32_specs::wrapping_add(s2.eip, 2),
                        ..s2
                    }
                }
            } else {
                s2
            };
            let (s4, fault) = s3.exec_spec();
            match fault {
                None => (X86V { cycles: u64_specs::wrapping_add(s4.cycles, 1), ..s4 }, None),
                Some(f) => (s4, Some(f)),
            }
        }
    }

    /// The flags the architecture defines, read from EFLAGS bits.
    pub open spec fn get_flags_spec(self) -> CpuFlags {
        CpuFlags {
            carry: self.eflags & 0x00000001 != 0,
            zero: self.eflags & 0x00000040 != 0,
            overflow: self.eflags & 0x00000800 != 0,
            negative: self.eflags & 0x00000080 != 0,
            extend: false,
            interrupt_disable: self.eflags & 0x00000200 != 0,
            decimal: false,
            break_command: false,
            sign: self.eflags & 0x00000080 != 0,
            parity: self.eflags & 0x00000004 != 0,
            auxiliary_carry: self.eflags & 0x00000010 != 0,
        }
    }

    /// The EFLAGS value after a `set_flags` write of the defined bits.
    pub open spec fn eflags_with(eflags: u32, flags: CpuFlags) -> u32 {
        let e: u32 = if flags.carry { eflags | 0x00000001 } else { eflags & !0x00000001u32 };
        let e: u32 = if flags.zero { e | 0x00000040 } else { e & !0x00000040u32 };
        let e: u32 = if flags.overflow { e | 0x00000800 } else { e & !0x00000800u32 };
        let e: u32 = if flags.negative { e | 0x00000080 } else { e & !0x00000080u32 };
        let e: u32 = if flags.interrupt_disable { e | 0x00000200 } else { e & !0x00000200u32 };
        let e: u32 = if flags.parity { e | 0x00000004 } else { e & !0x00000004u32 };
        let e: u32 = if flags.auxiliary_carry { e | 0x00000010 } else { e & !0x00000010u32 };
        e
    }

    /// The state a `set_flags` write leaves.
    pub open spec fn set_flags_spec(self, flags: CpuFlags) -> X86V {
        X86V { eflags: Self::eflags_with(self.eflags, flags), ..self }
    }

    /// The value `get_register` yields for a (lower-cased) register name.
    pub open spec fn get_register_spec(self, name: Seq<char>) -> Option<u32> {
        let n = ascii_lower_seq(name);
        if n == "eax"@ {
            Some(self.eax)
        } else if n == "ebx"@ {
            Some(self.ebx)
        } else if n == "ecx"@ {
            Some(self.ecx)
        } else if n == "edx"@ {
            Some(self.edx)
        } else if n == "esi"@ {
            Some(self.esi)
        } else if n == "edi"@ {
            Some(self.edi)
        } else if n == "ebp"@ {
            Some(self.ebp)
        } else if n == "esp"@ {
            Some(self.esp)
        } else if n == "cs"@ {
            Some(self.cs as u32)
        } else if n == "ds"@ {
            Some(self.ds as u32)
        } else if n == "es"@ {
            Some(self.es as u32)
        } else if n == "fs"@ {
            Some(self.fs as u32)
        } else if n == "gs"@ {
            Some(self.gs as u32)
        } else if n == "ss"@ {
            Some(self.ss as u32)
        } else if n == "eip"@ {
            Some(self.eip)
        } else if n == "eflags"@ {
            Some(self.eflags)
        } else {
            None
        }
    }

    /// The state `set_register` leaves for a (lower-cased) register name.
    pub open spec fn set_register_spec(self, name: Seq<char>, value: u32) -> Option<X86V> {
        let n = ascii_lower_seq(name);
        if n == "eax"@ {
            Some(X86V { eax: value, ..self })
        } else if n == "ebx"@ {
            Some(X86V { ebx: value, ..self })
        } else if n == "ecx"@ {
            Some(X86V { ecx: value, ..self })
        } else if n == "edx"@ {
            Some(X86V { edx: value, ..self })
        } else if n == "esi"@ {
            Some(X86V { esi: value, ..self })
        } else if n == "edi"@ {
            Some(X86V { edi: value, ..self })
        } else if n == "ebp"@ {
            Some(X86V { ebp: value, ..self })
        } else if n == "esp"@ {
            Some(X86V { esp: value, ..self })
        } else if n == "cs"@ {
            Some(X86V { cs: value as u16, ..self })
        } else if n == "ds"@ {
            Some(X86V { ds: value as u16, ..self })
        } else if n == "es"@ {
            Some(X86V { es: value as u16, ..self })
        } else if n == "fs"@ {
            Some(X86V { fs: value as u16, ..self })
        } else if n == "gs"@ {
            Some(X86V { gs: value as u16, ..self })
        } else if n == "ss"@ {
            Some(X86V { ss: value as u16, ..self })
        } else if n == "eip"@ {
            Some(X86V { eip: value, ..self })
        } else if n == "eflags"@ {
            Some(X86V { eflags: value, ..self })
        } else {
            None
        }
    }

    /// Whether `value` fits the named register's width.
    pub open spec fn register_fits(name: Seq<char>, value: u32) -> bool {
        let n = ascii_lower_seq(name);
        if n == "cs"@ || n == "ds"@ || n == "es"@ || n == "fs"@ || n == "gs"@ || n == "ss"@ {
            value <= 0xFFFF
        } else {
            true
        }
    }

    /// The power-on reset state: general and segment registers cleared,
    /// the instruction pointer loaded from the dword at the reset vector
    /// `0xFFFFFFF0` of the pre-reset memory, EFLAGS at its power-on value,
    /// then the memory cleared.
    pub open spec fn reset_spec(self) -> X86V {
        X86V {
            eax: 0,
            ebx: 0,
            ecx: 0,
            edx: 0,
            esi: 0,
            edi: 0,
            ebp: 0,
            esp: 0,
            cs: 0,
            ds: 0,
            es: 0,
            fs: 0,
            gs: 0,
            ss: 0,
            eip: word32_le(self.mem, 0xFFFFFFF0),
            eflags: 0x00000002,
            mem: Seq::new(self.mem.len(), |i: int| 0u8),
            cycles: 0,
            halted: false,
            ..self
        }
    }

    /// The power-on state over a given memory image.
    pub open spec fn initial(mem: Seq<u8>) -> X86V {
        X86V {
            eax: 0,
            ebx: 0,
            ecx: 0,
            edx: 0,
            esi: 0,
            edi: 0,
            ebp: 0,
            esp: 0,
            cs: 0,
            ds: 0,
            es: 0,
            fs: 0,
            gs: 0,
            ss: 0,
            eip: 0,
            eflags: 0x00000002,
            mem,
            cycles: 0,
            halted: false,
            opcode: 0,
            modrm: 0,
            sib: 0,
            displacement: 0,
            immediate: 0,
        }
    }
}

/// Setting the flags that were just read changes nothing: every defined
/// EFLAGS bit is rewritten with its own value.
pub proof fn lemma_x86_flags_round_trip(s: X86V)
    ensures
        s.set_flags_spec(s.get_flags_spec()) == s,
{
    let e = s.eflags;
    let e2 = X86V::eflags_with(e, s.get_flags_spec());
    assert(({
        let x: u32 = if e & 0x00000001 != 0 { e | 0x00000001 } else { e & !0x00000001u32 };
        let x: u32 = if e & 0x00000040 != 0 { x | 0x00000040 } else { x & !0x00000040u32 };
        let x: u32 = if e & 0x00000800 != 0 { x | 0x00000800 } else { x & !0x00000800u32 };
        let x: u32 = if e & 0x00000080 != 0 { x | 0x00000080 } else { x & !0x00000080u32 };
        let x: u32 = if e & 0x00000200 != 0 { x | 0x00000200 } else { x & !0x00000200u32 };
        let x: u32 = if e & 0x00000004 != 0 { x | 0x00000004 } else { x & !0x00000004u32 };
        let x: u32 = if e & 0x00000010 != 0 { x | 0x00000010 } else { x & !0x00000010u32 };
        x
    }) == e) by (bit_vector);
    assert(e2 == e);
}

/// Writing a register and reading it back yields the value written, for
/// every register the architecture documents and every value that fits its
/// width.
pub proof fn lemma_x86_register_round_trip(s: X86V, name: Seq<char>, value: u32)
    requires
        s.set_register_spec(name, value) is Some,
        X86V::register_fits(name, value),
    ensures
        match s.set_register_spec(name, value) {
            Some(s2) => s2.get_register_spec(name) == Some(value),
            None => false,
        },
{
    reveal_strlit("eax");
    reveal_strlit("ebx");
    reveal_strlit("ecx");
    reveal_strlit("edx");
    reveal_strlit("esi");
    reveal_strlit("edi");
    reveal_strlit("ebp");
    reveal_strlit("esp");
    reveal_strlit("cs");
    reveal_strlit("ds");
    reveal_strlit("es");
    reveal_strlit("fs");
    reveal_strlit("gs");
    reveal_strlit("ss");
    reveal_strlit("eip");
    reveal_strlit("eflags");
    assert("cs"@.len() == 2 && "ds"@.len() == 2 && "es"@.len() == 2 && "fs"@.len() == 2 && "gs"@.len()
        == 2 && "ss"@.len() == 2);
    assert("cs"@[0] == 'c' && "ds"@[0] == 'd' && "es"@[0] == 'e' && "fs"@[0] == 'f' && "gs"@[0]
        == 'g' && "ss"@[0] == 's');
    assert("eax"@.len() == 3 && "ebx"@.len() == 3 && "ecx"@.len() == 3 && "edx"@.len() == 3
        && "esi"@.len() == 3 && "edi"@.len() == 3 && "ebp"@.len() == 3 && "esp"@.len() == 3
        && "eip"@.len() == 3 && "eflags"@.len() == 6);
    assert("eax"@[1] == 'a' && "ebx"@[1] == 'b' && "ecx"@[1] == 'c' && "edx"@[1] == 'd' && "esi"@[1]
        == 's' && "edi"@[1] == 'd' && "ebp"@[1] == 'b' && "esp"@[1] == 's' && "eip"@[1] == 'i');
    assert("eax"@[2] == 'x' && "ebx"@[2] == 'x' && "ecx"@[2] == 'x' && "edx"@[2] == 'x' && "esi"@[2]
        == 'i' && "edi"@[2] == 'i' && "ebp"@[2] == 'p' && "esp"@[2] == 'p' && "eip"@[2] == 'p');
    let n = ascii_lower_seq(name);
    if n == "cs"@ || n == "ds"@ || n == "es"@ || n == "fs"@ || n == "gs"@ || n == "ss"@ {
        assert(value <= 0xFFFF);
        assert((value as u16) as u32 == value);
    }
}

impl X86 {
    /// An x86 CPU at power-on over a zeroed 256 MiB memory.
    pub fn new() -> (r: EmuliteResult<X86>)
        ensures
            r matches Ok(c) && c@ == X86V::initial(Seq::new(0x10000000, |i: int| 0u8)),
    {
        Ok(
            X86 {
                eax: 0,
                ebx: 0,
                ecx: 0,
                edx: 0,
                esi: 0,
                edi: 0,
                ebp: 0,
                esp: 0,
                cs: 0,
                ds: 0,
                es: 0,
                fs: 0,
                gs: 0,
                ss: 0,
                eip: 0,
                eflags: 0x00000002,
                memory: zero_bytes(0x10000000),
                cycles: 0,
                halted: false,
                opcode: 0,
                modrm: 0,
                sib: 0,
                displacement: 0,
                immediate: 0,
            },
        )
    }

    /// Raw little-endian dword read of the flat memory.
    fn read_memory_32(&self, address: u32) -> (r: u32)
        ensures
            r == word32_le(self@.mem, address as int),
    {
        mem_word32_le(&self.memory, address)
    }

    /// Raw little-endian dword write of the flat memory.
    fn write_memory_32(&mut self, address: u32, value: u32)
        ensures
            final(self)@ == (X86V {
                mem: mem_write32_le(old(self)@.mem, address as int, value),
                ..old(self)@
            }),
    {
        mem_set_word32_le(&mut self.memory, address, value);
    }

    /// Raw little-endian word read of the flat memory.
    fn read_memory_16(&self, address: u32) -> (r: u16)
        ensures
            r == word16_le(self@.mem, address as int),
    {
        mem_word16_le(&self.memory, address)
    }

    /// The value of general register `r` (0 to 7); other encodings read 0.
    fn get_register_by_index(&self, reg: u8) -> (r: u32)
        ensures
            r == self@.reg_of(reg),
    {
        match reg {
            0 => self.eax,
            1 => self.ecx,
            2 => self.edx,
            3 => self.ebx,
            4 => self.esp,
            5 => self.ebp,
            6 => self.esi,
            7 => self.edi,
            _ => 0,
        }
    }

    /// Sets general register `r` (0 to 7); other encodings change nothing.
    fn set_register_by_index(&mut self, reg: u8, value: u32)
        ensures
            final(self)@ == old(self)@.reg_set(reg, value),
    {
        match reg {
            0 => self.eax = value,
            1 => self.ecx = value,
            2 => self.edx = value,
            3 => self.ebx = value,
            4 => self.esp = value,
            5 => self.ebp = value,
            6 => self.esi = value,
            7 => self.edi = value,
            _ => {},
        }
    }

    /// Resolves the current ModR/M and SIB bytes to an effective address.
    fn get_effective_address(&mut self) -> (r: u32)
        ensures
            *final(self) == *old(self),
            r == old(self)@.effective_address_spec(),
    {
        let mod_val = (self.modrm >> 6) & 0x03;
        let rm_val = self.modrm & 0x07;
        if mod_val == 0 {
            if rm_val == 4 {
                self.sib_address(self.displacement)
            } else if rm_val == 5 {
                self.displacement
            } else if rm_val == 6 {
                self.esi.wrapping_add(self.displacement)
            } else if rm_val == 7 {
                self.edi.wrapping_add(self.displacement)
            } else {
                self.get_register_by_index(rm_val).wrapping_add(self.displacement)
            }
        } else if mod_val == 1 {
            let disp8 = self.displacement as i8 as u32;
            if rm_val == 4 {
                self.sib_address(disp8)
            } else if rm_val == 5 {
                self.ebp.wrapping_add(disp8)
            } else if rm_val == 6 {
                self.esi.wrapping_add(disp8)
            } else if rm_val == 7 {
                self.edi.wrapping_add(disp8)
            } else {
                self.get_register_by_index(rm_val).wrapping_add(disp8)
            }
        } else if mod_val == 2 {
            if rm_val == 4 {
                self.sib_address(self.displacement)
            } else if rm_val == 5 {
                self.ebp.wrapping_add(self.displacement)
            } else if rm_val == 6 {
                self.esi.wrapping_add(self.displacement)
            } else if rm_val == 7 {
                self.edi.wrapping_add(self.displacement)
            } else {
                self.get_register_by_index(rm_val).wrapping_add(self.displacement)
            }
        } else {
            self.get_register_by_index(rm_val)
        }
    }

    /// The scaled-index-plus-base-plus-displacement address of the SIB
    /// byte.
    fn sib_address(&self, disp: u32) -> (r: u32)
        ensures
            r == self@.sib_address(disp),
    {
        let sib = self.sib;
        proof {
            assert((sib >> 6) & 0x03 < 32) by (bit_vector);
        }
        let scale: u32 = 1u32 << ((sib >> 6) & 0x03);
        let index = (sib >> 3) & 0x07;
        let base = sib & 0x07;
        let base_addr = self.get_register_by_index(base);
        let index_addr: u32 = if index == 4 {
            0
        } else {
            self.get_register_by_index(index)
        };
        base_addr.wrapping_add(index_addr.wrapping_mul(scale)).wrapping_add(disp)
    }

    /// Sets zero, sign, carry and overflow from a result.
    fn update_flags(&mut self, result: u32, carry: bool, overflow: bool)
        ensures
            final(self)@ == (X86V {
                eflags: X86V::flags_after(old(self)@.eflags, result, carry, overflow),
                ..old(self)@
            }),
    {
        if result == 0 {
            self.eflags |= 0x00000040;
        } else {
            self.eflags &= !0x00000040;
        }
        if (result & 0x80000000) != 0 {
            self.eflags |= 0x00000080;
        } else {
            self.eflags &= !0x00000080;
        }
        if carry {
            self.eflags |= 0x00000001;
        } else {
            self.eflags &= !0x00000001;
        }
        if overflow {
            self.eflags |= 0x00000800;
        } else {
            self.eflags &= !0x00000800;
        }
    }

    /// Executes the already-decoded instruction.
    #[verifier::rlimit(100)]
    fn execute_instruction(&mut self) -> (r: EmuliteResult<()>)
        ensures
            ({
                let (post, fault) = old(self)@.exec_spec();
                final(self)@ == post && match fault {
                    None => r is Ok,
                    Some(op) => r matches Err(e) && e matches EmuliteError::CpuError(m) && m@
                        == unimplemented_opcode_msg(op),
                }
            }),
    {
        match self.opcode {
            0x88 => {
                let reg = (self.modrm >> 3) & 0x07;
                let rm = self.modrm & 0x07;
                let mod_val = (self.modrm >> 6) & 0x03;
                if mod_val == 3 {
                    let value = (self.get_register_by_index(reg) & 0xFF) as u8;
                    let dest = (self.get_register_by_index(rm) & 0xFFFFFF00) | (value as u32);
                    self.set_register_by_index(rm, dest);
                } else {
                    let addr = self.get_effective_address();
                    let value = (self.get_register_by_index(reg) & 0xFF) as u8;
                    mem_set_byte(&mut self.memory, addr as u64, value);
                }
                Ok(())
            },
            0x89 => {
                let reg = (self.modrm >> 3) & 0x07;
                let rm = self.modrm & 0x07;
                let mod_val = (self.modrm >> 6) & 0x03;
                if mod_val == 3 {
                    let value = self.get_register_by_index(reg);
                    self.set_register_by_index(rm, value);
                } else {
                    let addr = self.get_effective_address();
                    let value = self.get_register_by_index(reg);
                    self.write_memory_32(addr, value);
                }
                Ok(())
            },
            0x8A => {
                let reg = (self.modrm >> 3) & 0x07;
                let rm = self.modrm & 0x07;
                let mod_val = (self.modrm >> 6) & 0x03;
                if mod_val == 3 {
                    let value = (self.get_register_by_index(rm) & 0xFF) as u8;
                    let dest = (self.get_register_by_index(reg) & 0xFFFFFF00) | (value as u32);
                    self.set_register_by_index(reg, dest);
                } else {
                    let addr = self.get_effective_address();
                    let value = mem_byte(&self.memory, addr as u64);
                    let dest = (self.get_register_by_index(reg) & 0xFFFFFF00) | (value as u32);
                    self.set_register_by_index(reg, dest);
                }
                Ok(())
            },
            0x8B => {
                let reg = (self.modrm >> 3) & 0x07;
                let rm = self.modrm & 0x07;
                let mod_val = (self.modrm >> 6) & 0x03;
                if mod_val == 3 {
                    let value = self.get_register_by_index(rm);
                    self.set_register_by_index(reg, value);
                } else {
                    let addr = self.get_effective_address();
                    let value = self.read_memory_32(addr);
                    self.set_register_by_index(reg, value);
                }
                Ok(())
            },
            0x00 => {
                let reg = (self.modrm >> 3) & 0x07;
                let rm = self.modrm & 0x07;
                let mod_val = (self.modrm >> 6) & 0x03;
                let reg_value = (self.get_register_by_index(reg) & 0xFF) as u8;
                let rm_value: u8 = if mod_val == 3 {
                    (self.get_register_by_index(rm) & 0xFF) as u8
                } else {
                    let addr = self.get_effective_address();
                    mem_byte(&self.memory, addr as u64)
                };
                let result = reg_value.wrapping_add(rm_value);
                let carry = (result as u16) < (reg_value as u16);
                let overflow = ((reg_value ^ result) & (rm_value ^ result) & 0x80) != 0;
                if mod_val == 3 {
                    let dest = (self.get_register_by_index(rm) & 0xFFFFFF00) | (result as u32);
                    self.set_register_by_index(rm, dest);
                } else {
                    let addr = self.get_effective_address();
                    mem_set_byte(&mut self.memory, addr as u64, result);
                }
                self.update_flags(result as u32, carry, overflow);
                Ok(())
            },
            0x01 => {
                let reg = (self.modrm >> 3) & 0x07;
                let rm = self.modrm & 0x07;
                let mod_val = (self.modrm >> 6) & 0x03;
                let reg_value = self.get_register_by_index(reg);
                let rm_value: u32 = if mod_val == 3 {
                    self.get_register_by_index(rm)
                } else {
                    let addr = self.get_effective_address();
                    self.read_memory_32(addr)
                };
                let result = reg_value.wrapping_add(rm_value);
                let carry = result < reg_value;
                let overflow = ((reg_value ^ result) & (rm_value ^ result) & 0x80000000) != 0;
                if mod_val == 3 {
                    self.set_register_by_index(rm, result);
                } else {
                    let addr = self.get_effective_address();
                    self.write_memory_32(addr, result);
                }
                self.update_flags(result, carry, overflow);
                Ok(())
            },
            0x28 => {
                let reg = (self.modrm >> 3) & 0x07;
                let rm = self.modrm & 0x07;
                let mod_val = (self.modrm >> 6) & 0x03;
                let reg_value = (self.get_register_by_index(reg) & 0xFF) as u8;
                let rm_value: u8 = if mod_val == 3 {
                    (self.get_register_by_index(rm) & 0xFF) as u8
                } else {
                    let addr = self.get_effective_address();
                    mem_byte(&self.memory, addr as u64)
                };
                let result = rm_value.wrapping_sub(reg_value);
                let carry = (rm_value as u16) < (reg_value as u16);
                let overflow = ((rm_value ^ reg_value) & (rm_value ^ result) & 0x80) != 0;
                if mod_val == 3 {
                    let dest = (self.get_register_by_index(rm) & 0xFFFFFF00) | (result as u32);
                    self.set_register_by_index(rm, dest);
                } else {
                    let addr = self.get_effective_address();
                    mem_set_byte(&mut self.memory, addr as u64, result);
                }
                self.update_flags(result as u32, carry, overflow);
                Ok(())
            },
            0x29 => {
                let reg = (self.modrm >> 3) & 0x07;
                let rm = self.modrm & 0x07;
                let mod_val = (self.modrm >> 6) & 0x03;
                let reg_value = self.get_register_by_index(reg);
                let rm_value: u32 = if mod_val == 3 {
                    self.get_register_by_index(rm)
                } else {
                    let addr = self.get_effective_address();
                    self.read_memory_32(addr)
                };
                let result = rm_value.wrapping_sub(reg_value);
                let carry = rm_value < reg_value;
                let overflow = ((rm_value ^ reg_value) & (rm_value ^ result) & 0x80000000) != 0;
                if mod_val == 3 {
                    self.set_register_by_index(rm, result);
                } else {
                    let addr = self.get_effective_address();
                    self.write_memory_32(addr, result);
                }
                self.update_flags(result, carry, overflow);
                Ok(())
            },
            0xE9 => {
                self.eip = self.eip.wrapping_add(self.immediate);
                Ok(())
            },
            0xEB => {
                let offset = self.immediate as i8 as u32;
                self.eip = self.eip.wrapping_add(offset);
                Ok(())
            },
            0xE8 => {
                self.esp = self.esp.wrapping_sub(4);
                let esp = self.esp;
                let eip = self.eip;
                self.write_memory_32(esp, eip);
                self.eip = self.eip.wrapping_add(self.immediate);
                Ok(())
            },
            0xC3 => {
                self.eip = self.read_memory_32(self.esp);
                self.esp = self.esp.wrapping_add(4);
                Ok(())
            },
            0x90 => Ok(()),
            _ => Err(unimplemented_opcode_error(self.opcode)),
        }
    }

    /// One fetch-decode-execute step; a no-op while halted.  An
    /// unimplemented opcode is reported as a CPU error with the instruction
    /// pointer already advanced past the instruction bytes.
    #[verifier::rlimit(100)]
    pub fn step(&mut self) -> (r: EmuliteResult<()>)
        ensures
            ({
                let (post, fault) = old(self)@.step_spec();
                final(self)@ == post && match fault {
                    None => r is Ok,
                    Some(op) => r matches Err(e) && e matches EmuliteError::CpuError(m) && m@
                        == unimplemented_opcode_msg(op),
                }
            }),
    {
        if self.halted {
            return Ok(());
        }
        let op = mem_byte(&self.memory, self.eip as u64);
        self.opcode = op;
        self.eip = self.eip.wrapping_add(1);
        if (0x00 <= op && op <= 0x03) || (0x08 <= op && op <= 0x0B) || (0x20 <= op && op <= 0x23)
            || (0x28 <= op && op <= 0x2B) || (0x80 <= op && op <= 0x83) || (0x88 <= op && op
            <= 0x8B) {
            let m = mem_byte(&self.memory, self.eip as u64);
            self.modrm = m;
            self.eip = self.eip.wrapping_add(1);
            if m & 0x07 == 4 {
                self.sib = mem_byte(&self.memory, self.eip as u64);
                self.eip = self.eip.wrapping_add(1);
            }
            let mod_val = (m >> 6) & 0x03;
            if mod_val == 1 {
                self.displacement = mem_byte(&self.memory, self.eip as u64) as u32;
                self.eip = self.eip.wrapping_add(1);
            } else if mod_val == 2 {
                self.displacement = self.read_memory_32(self.eip);
                self.eip = self.eip.wrapping_add(4);
            }
        }
        if op == 0xE8 || op == 0xE9 || op == 0xEB {
            if op == 0xE8 || op == 0xE9 {
                self.immediate = self.read_memory_32(self.eip);
                self.eip = self.eip.wrapping_add(4);
            } else {
                self.immediate = self.read_memory_16(self.eip) as u32;
                self.eip = self.eip.wrapping_add(2);
            }
        }
        match self.execute_instruction() {
            Ok(_) => {
                self.cycles = self.cycles.wrapping_add(1);
                Ok(())
            },
            Err(e) => Err(e),
        }
    }

    /// Power-on reset: registers cleared, the instruction pointer loaded
    /// from the dword at the reset vector `0xFFFFFFF0` of the pre-reset
    /// memory, EFLAGS at its power-on value, then the memory cleared.
    pub fn reset(&mut self) -> (r: EmuliteResult<()>)
        ensures
            r is Ok,
            final(self)@ == old(self)@.reset_spec(),
            final(self)@.eip == word32_le(old(self)@.mem, 0xFFFFFFF0),
    {
        self.eax = 0;
        self.ebx = 0;
        self.ecx = 0;
        self.edx = 0;
        self.esi = 0;
        self.edi = 0;
        self.ebp = 0;
        self.esp = 0;
        self.cs = 0;
        self.ds = 0;
        self.es = 0;
        self.fs = 0;
        self.gs = 0;
        self.ss = 0;
        self.eip = self.read_memory_32(0xFFFFFFF0);
        self.eflags = 0x00000002;
        let len = self.memory.len();
        self.memory = zero_bytes(len);
        self.cycles = 0;
        self.halted = false;
        Ok(())
    }

    /// The architecture's factory name.
    pub fn name(&self) -> (r: &'static str)
        ensures
            r@ == "x86"@,
    {
        "x86"
    }

    /// The current instruction pointer.
    pub fn pc(&self) -> (r: u32)
        ensures
            r == self@.eip,
    {
        self.eip
    }

    /// Sets the instruction pointer.
    pub fn set_pc(&mut self, pc: u32) -> (r: EmuliteResult<()>)
        ensures
            r is Ok,
            final(self)@ == (X86V { eip: pc, ..old(self)@ }),
    {
        self.eip = pc;
        Ok(())
    }

    /// Reads one byte; an address beyond the allocated memory fails with a
    /// violation carrying the address.
    pub fn read_memory(&self, address: u32) -> (r: EmuliteResult<u8>)
        ensures
            (address as int) < self@.mem.len() ==> r == Ok::<u8, EmuliteError>(
                self@.mem[address as int],
            ),
            (address as int) >= self@.mem.len() ==> r == Err::<u8, EmuliteError>(
                EmuliteError::MemoryAccessViolation(address),
            ),
    {
        if (address as usize) < self.memory.len() {
            Ok(self.memory[address as usize])
        } else {
            Err(EmuliteError::MemoryAccessViolation(address))
        }
    }

    /// Writes one byte; an address beyond the allocated memory fails with a
    /// violation carrying the address.
    pub fn write_memory(&mut self, address: u32, value: u8) -> (r: EmuliteResult<()>)
        ensures
            (address as int) < old(self)@.mem.len() ==> r is Ok && final(self)@ == (X86V {
                mem: old(self)@.mem.update(address as int, value),
                ..old(self)@
            }),
            (address as int) >= old(self)@.mem.len() ==> r == Err::<(), EmuliteError>(
                EmuliteError::MemoryAccessViolation(address),
            ) && final(self)@ == old(self)@,
    {
        if (address as usize) < self.memory.len() {
            self.memory.set(address as usize, value);
            Ok(())
        } else {
            Err(EmuliteError::MemoryAccessViolation(address))
        }
    }

    /// Copies bytes straight into the flat memory at `address`; bytes
    /// beyond the memory end are ignored.
    pub fn load_bytes(&mut self, address: u32, data: &Vec<u8>) -> (r: EmuliteResult<()>)
        requires
            data@.len() <= 0xFFFF_FFFF,
        ensures
            r is Ok,
            final(self)@ == (X86V {
                mem: mem_loaded(old(self)@.mem, address as int, data@),
                ..old(self)@
            }),
    {
        mem_load(&mut self.memory, address, data);
        Ok(())
    }

    /// Reads a register by case-insensitive name; an unknown name fails,
    /// naming the register.
    #[verifier::rlimit(60)]
    pub fn get_register(&self, reg: &str) -> (r: EmuliteResult<u32>)
        ensures
            match self@.get_register_spec(reg@) {
                Some(v) => r == Ok::<u32, EmuliteError>(v),
                None => r matches Err(e) && e matches EmuliteError::CpuError(m) && m@
                    == unknown_register_msg(reg@),
            },
    {
        if eq_lowered(reg, "eax") {
            Ok(self.eax)
        } else if eq_lowered(reg, "ebx") {
            Ok(self.ebx)
        } else if eq_lowered(reg, "ecx") {
            Ok(self.ecx)
        } else if eq_lowered(reg, "edx") {
            Ok(self.edx)
        } else if eq_lowered(reg, "esi") {
            Ok(self.esi)
        } else if eq_lowered(reg, "edi") {
            Ok(self.edi)
        } else if eq_lowered(reg, "ebp") {
            Ok(self.ebp)
        } else if eq_lowered(reg, "esp") {
            Ok(self.esp)
        } else if eq_lowered(reg, "cs") {
            Ok(self.cs as u32)
        } else if eq_lowered(reg, "ds") {
            Ok(self.ds as u32)
        } else if eq_lowered(reg, "es") {
            Ok(self.es as u32)
        } else if eq_lowered(reg, "fs") {
            Ok(self.fs as u32)
        } else if eq_lowered(reg, "gs") {
            Ok(self.gs as u32)
        } else if eq_lowered(reg, "ss") {
            Ok(self.ss as u32)
        } else if eq_lowered(reg, "eip") {
            Ok(self.eip)
        } else if eq_lowered(reg, "eflags") {
            Ok(self.eflags)
        } else {
            Err(unknown_register_error(reg))
        }
    }

    /// Writes a register by case-insensitive name, truncating to a segment
    /// register's width; an unknown name fails, naming the register.
    #[verifier::rlimit(60)]
    pub fn set_register(&mut self, reg: &str, value: u32) -> (r: EmuliteResult<()>)
        ensures
            match old(self)@.set_register_spec(reg@, value) {
                Some(s) => r is Ok && final(self)@ == s,
                None => r matches Err(e) && e matches EmuliteError::CpuError(m) && m@
                    == unknown_register_msg(reg@) && final(self)@ == old(self)@,
            },
    {
        if eq_lowered(reg, "eax") {
            self.eax = value;
            Ok(())
        } else if eq_lowered(reg, "ebx") {
            self.ebx = value;
            Ok(())
        } else if eq_lowered(reg, "ecx") {
            self.ecx = value;
            Ok(())
        } else if eq_lowered(reg, "edx") {
            self.edx = value;
            Ok(())
        } else if eq_lowered(reg, "esi") {
            self.esi = value;
            Ok(())
        } else if eq_lowered(reg, "edi") {
            self.edi = value;
            Ok(())
        } else if eq_lowered(reg, "ebp") {
            self.ebp = value;
            Ok(())
        } else if eq_lowered(reg, "esp") {
            self.esp = value;
            Ok(())
        } else if eq_lowered(reg, "cs") {
            self.cs = value as u16;
            Ok(())
        } else if eq_lowered(reg, "ds") {
            self.ds = value as u16;
            Ok(())
        } else if eq_lowered(reg, "es") {
            self.es = value as u16;
            Ok(())
        } else if eq_lowered(reg, "fs") {
            self.fs = value as u16;
            Ok(())
        } else if eq_lowered(reg, "gs") {
            self.gs = value as u16;
            Ok(())
        } else if eq_lowered(reg, "ss") {
            self.ss = value as u16;
            Ok(())
        } else if eq_lowered(reg, "eip") {
            self.eip = value;
            Ok(())
        } else if eq_lowered(reg, "eflags") {
            self.eflags = value;
            Ok(())
        } else {
            Err(unknown_register_error(reg))
        }
    }

    /// Every register with its value, in a fixed order.
    pub fn get_registers(&self) -> (r: Vec<(String, u32)>)
        ensures
            r@.len() == 16,
            r@[0].0@ == "eax"@ && r@[0].1 == self@.eax,
            r@[1].0@ == "ebx"@ && r@[1].1 == self@.ebx,
            r@[2].0@ == "ecx"@ && r@[2].1 == self@.ecx,
            r@[3].0@ == "edx"@ && r@[3].1 == self@.edx,
            r@[4].0@ == "esi"@ && r@[4].1 == self@.esi,
            r@[5].0@ == "edi"@ && r@[5].1 == self@.edi,
            r@[6].0@ == "ebp"@ && r@[6].1 == self@.ebp,
            r@[7].0@ == "esp"@ && r@[7].1 == self@.esp,
            r@[8].0@ == "cs"@ && r@[8].1 == self@.cs as u32,
            r@[9].0@ == "ds"@ && r@[9].1 == self@.ds as u32,
            r@[10].0@ == "es"@ && r@[10].1 == self@.es as u32,
            r@[11].0@ == "fs"@ && r@[11].1 == self@.fs as u32,
            r@[12].0@ == "gs"@ && r@[12].1 == self@.gs as u32,
            r@[13].0@ == "ss"@ && r@[13].1 == self@.ss as u32,
            r@[14].0@ == "eip"@ && r@[14].1 == self@.eip,
            r@[15].0@ == "eflags"@ && r@[15].1 == self@.eflags,
    {
        let mut registers: Vec<(String, u32)> = Vec::new();
        registers.push((String::from_str("eax"), self.eax));
        registers.push((String::from_str("ebx"), self.ebx));
        registers.push((String::from_str("ecx"), self.ecx));
        registers.push((String::from_str("edx"), self.edx));
        registers.push((String::from_str("esi"), self.esi));
        registers.push((String::from_str("edi"), self.edi));
        registers.push((String::from_str("ebp"), self.ebp));
        registers.push((String::from_str("esp"), self.esp));
        registers.push((String::from_str("cs"), self.cs as u32));
        registers.push((String::from_str("ds"), self.ds as u32));
        registers.push((String::from_str("es"), self.es as u32));
        registers.push((String::from_str("fs"), self.fs as u32));
        registers.push((String::from_str("gs"), self.gs as u32));
        registers.push((String::from_str("ss"), self.ss as u32));
        registers.push((String::from_str("eip"), self.eip));
        registers.push((String::from_str("eflags"), self.eflags));
        registers
    }

    /// Whether the CPU has halted.
    pub fn is_halted(&self) -> (r: bool)
        ensures
            r == self@.halted,
    {
        self.halted
    }

    /// The flags the architecture defines, read from EFLAGS bits.
    pub fn get_flags(&self) -> (r: CpuFlags)
        ensures
            r == self@.get_flags_spec(),
    {
        CpuFlags {
            carry: (self.eflags & 0x00000001) != 0,
            zero: (self.eflags & 0x00000040) != 0,
            overflow: (self.eflags & 0x00000800) != 0,
            negative: (self.eflags & 0x00000080) != 0,
            extend: false,
            interrupt_disable: (self.eflags & 0x00000200) != 0,
            decimal: false,
            break_command: false,
            sign: (self.eflags & 0x00000080) != 0,
            parity: (self.eflags & 0x00000004) != 0,
            auxiliary_carry: (self.eflags & 0x00000010) != 0,
        }
    }

    /// Writes the defined EFLAGS bits; flags the architecture does not
    /// define are accepted and ignored.
    pub fn set_flags(&mut self, flags: CpuFlags) -> (r: EmuliteResult<()>)
        ensures
            r is Ok,
            final(self)@ == old(self)@.set_flags_spec(flags),
    {
        if flags.carry {
            self.eflags |= 0x00000001;
        } else {
            self.eflags &= !0x00000001;
        }
        if flags.zero {
            self.eflags |= 0x00000040;
        } else {
            self.eflags &= !0x00000040;
        }
        if flags.overflow {
            self.eflags |= 0x00000800;
        } else {
            self.eflags &= !0x00000800;
        }
        if flags.negative {
            self.eflags |= 0x00000080;
        } else {
            self.eflags &= !0x00000080;
        }
        if flags.interrupt_disable {
            self.eflags |= 0x00000200;
        } else {
            self.eflags &= !0x00000200;
        }
        if flags.parity {
            self.eflags |= 0x00000004;
        } else {
            self.eflags &= !0x00000004;
        }
        if flags.auxiliary_carry {
            self.eflags |= 0x00000010;
        } else {
            self.eflags &= !0x00000010;
        }
        Ok(())
    }

    /// The static description of this CPU.
    pub fn info(&self) -> (r: CpuInfo)
        ensures
            r.name@ == "x86"@,
            r.architecture@ == "x86"@,
            r.bits == 32,
            r.endianness == Endianness::Little,
            r.register_count == 16,
            r.instruction_count == 256,
            r.clock_speed_hz == 100_000_000,
    {
        CpuInfo {
            name: String::from_str("x86"),
            architecture: String::from_str("x86"),
            bits: 32,
            endianness: Endianness::Little,
            register_count: 16,
            instruction_count: 256,
            clock_speed_hz: 100_000_000,
        }
    }
}

} // verus!
