//! The execution engine: a register file, a program counter, a memory,
//! and the dispatch of every RV32I instruction.
//!
//! The observable behaviour of one executed instruction is written down
//! once, as the spec function [`step`] over a ghost [`CpuView`] of the
//! machine state. [`CPU::interpret`] is proved to realize `step`
//! exactly: it returns whether the program counter was redirected, or
//! the [`Fault`] that `step` assigns to the word, and on a fault it
//! leaves the whole machine state untouched.

use crate::arith::{
    arith_shift_right, asr, sext16, sext8, sign_extend_byte, sign_extend_half, signed_lt,
    to_signed, wadd, wsub,
};
use crate::decode;
use crate::decode::{
    spec_b_imm, spec_funct3, spec_funct7, spec_i_imm, spec_j_imm, spec_opcode, spec_rd, spec_rs1,
    spec_rs2, spec_s_imm, spec_u_imm,
};
use crate::fault::Fault;
use crate::memory::{half_le, store_half_le, store_word_le, word_le, Memory, MEM_SIZE};
use vstd::prelude::*;

verus! {

/// A mathematical view of one hart: the 32 registers, the program
/// counter and the bytes of memory.
pub ghost struct CpuView {
    pub regs: Seq<u32>,
    pub pc: u32,
    pub mem: Seq<u8>,
}

/// The value read from register `r`: register 0 is hardwired to 0, any
/// other index yields the stored word.
pub open spec fn reg_val(regs: Seq<u32>, r: u8) -> u32
    recommends
        regs.len() == 32,
        r < 32,
{
    if r == 0 {
        0
    } else {
        regs[r as int]
    }
}

/// The register file after writing `v` to register `r`: a write to
/// index 0 is silently discarded.
pub open spec fn reg_write(regs: Seq<u32>, r: u8, v: u32) -> Seq<u32>
    recommends
        regs.len() == 32,
        r < 32,
{
    if r == 0 {
        regs
    } else {
        regs.update(r as int, v)
    }
}

/// Writing a value to any register `r` other than 0 and reading `r`
/// back yields that value; register 0 reads as 0 regardless of any
/// prior write.
pub proof fn lemma_reg_round_trip(regs: Seq<u32>, r: u8, v: u32)
    requires
        regs.len() == 32,
        r < 32,
    ensures
        r != 0 ==> reg_val(reg_write(regs, r, v), r) == v,
        reg_val(reg_write(regs, 0, v), 0) == 0,
        reg_val(regs, 0) == 0,
{
}

/// The state with `v` written to register `rd`; pc and memory keep
/// their values.
pub open spec fn sets_reg(s: CpuView, rd: u8, v: u32) -> CpuView {
    CpuView { regs: reg_write(s.regs, rd, v), pc: s.pc, mem: s.mem }
}

/// The outcome of a conditional branch: on a taken branch the offset is
/// added to the program counter (wrapping) and the step reports a
/// redirect; otherwise nothing changes.
pub open spec fn branch_res(s: CpuView, taken: bool, imm: u32) -> (CpuView, bool) {
    if taken {
        (CpuView { regs: s.regs, pc: wadd(s.pc, imm), mem: s.mem }, true)
    } else {
        (s, false)
    }
}

/// The state after `jal`: the return address `pc + 4` lands in `rd`,
/// then the offset is added to the program counter.
pub open spec fn jal_dest(s: CpuView, rd: u8, imm: u32) -> CpuView {
    CpuView { regs: reg_write(s.regs, rd, wadd(s.pc, 4)), pc: wadd(s.pc, imm), mem: s.mem }
}

/// The state after `jalr`: the return address `pc + 4` lands in `rd`,
/// and the program counter becomes `rs1 + imm`, computed from the
/// value `rs1` held before `rd` was written.
pub open spec fn jalr_dest(s: CpuView, rd: u8, rs1: u8, imm: u32) -> CpuView {
    CpuView {
        regs: reg_write(s.regs, rd, wadd(s.pc, 4)),
        pc: wadd(reg_val(s.regs, rs1), imm),
        mem: s.mem,
    }
}

/// One register-register ALU instruction (opcode `0110011`), selected
/// by `funct3`/`funct7`. The `funct7 = 0000001` block is the
/// multiply/divide extension, recognized but not implemented here.
pub open spec fn step_op(s: CpuView, w: u32) -> Result<(CpuView, bool), Fault> {
    let rd = spec_rd(w);
    let a = reg_val(s.regs, spec_rs1(w));
    let b = reg_val(s.regs, spec_rs2(w));
    match (spec_funct3(w), spec_funct7(w)) {
        (0x0, 0x00) => Ok((sets_reg(s, rd, wadd(a, b)), false)),
        (0x0, 0x20) => Ok((sets_reg(s, rd, wsub(a, b)), false)),
        (0x4, 0x00) => Ok((sets_reg(s, rd, a ^ b), false)),
        (0x6, 0x00) => Ok((sets_reg(s, rd, a | b), false)),
        (0x7, 0x00) => Ok((sets_reg(s, rd, a & b), false)),
        (0x1, 0x00) => Ok((sets_reg(s, rd, a << (b % 32)), false)),
        (0x5, 0x00) => Ok((sets_reg(s, rd, a >> (b % 32)), false)),
        (0x5, 0x20) => Ok((sets_reg(s, rd, asr(a, b % 32)), false)),
        (0x2, 0x00) => Ok(
            (
                sets_reg(
                    s,
                    rd,
                    if to_signed(a) < to_signed(b) {
                        1u32
                    } else {
                        0u32
                    },
                ),
                false,
            ),
        ),
        (0x3, 0x00) => Ok(
            (
                sets_reg(
                    s,
                    rd,
                    if a < b {
                        1u32
                    } else {
                        0u32
                    },
                ),
                false,
            ),
        ),
        (_, 0x01) => Err(Fault::Unimplemented),
        (_, _) => Err(Fault::UnknownFunct),
    }
}

/// One immediate ALU instruction (opcode `0010011`). Shift amounts are
/// the immediate's low 5 bits; the immediate's upper bits discriminate
/// the logical and arithmetic right shifts.
pub open spec fn step_op_imm(s: CpuView, w: u32) -> Result<(CpuView, bool), Fault> {
    let rd = spec_rd(w);
    let imm = spec_i_imm(w);
    let a = reg_val(s.regs, spec_rs1(w));
    match spec_funct3(w) {
        0x0 => Ok((sets_reg(s, rd, wadd(a, imm)), false)),
        0x4 => Ok((sets_reg(s, rd, a ^ imm), false)),
        0x6 => Ok((sets_reg(s, rd, a | imm), false)),
        0x7 => Ok((sets_reg(s, rd, a & imm), false)),
        0x2 => Ok(
            (
                sets_reg(
                    s,
                    rd,
                    if to_signed(a) < to_signed(imm) {
                        1u32
                    } else {
                        0u32
                    },
                ),
                false,
            ),
        ),
        0x3 => Ok(
            (
                sets_reg(
                    s,
                    rd,
                    if a < imm {
                        1u32
                    } else {
                        0u32
                    },
                ),
                false,
            ),
        ),
        0x1 => if spec_funct7(w) == 0x00 {
            Ok((sets_reg(s, rd, a << (imm % 32)), false))
        } else {
            Err(Fault::UnknownFunct)
        },
        0x5 => if spec_funct7(w) == 0x00 {
            Ok((sets_reg(s, rd, a >> (imm % 32)), false))
        } else if spec_funct7(w) == 0x20 {
            Ok((sets_reg(s, rd, asr(a, imm % 32)), false))
        } else {
            Err(Fault::UnknownFunct)
        },
        _ => Err(Fault::UnknownFunct),
    }
}

/// A sign-extending byte load: `rd = sign_extend(mem[rs1 + imm])`, or
/// a bounds fault that leaves the state unchanged.
pub open spec fn lb_spec(s: CpuView, rd: u8, rs1: u8, imm: u32) -> Result<(CpuView, bool), Fault> {
    let ea = wadd(reg_val(s.regs, rs1), imm);
    if ea + 1 <= s.mem.len() {
        Ok((sets_reg(s, rd, sext8(s.mem[ea as int])), false))
    } else {
        Err(Fault::MemoryOutOfBounds)
    }
}

/// A sign-extending half-word load.
pub open spec fn lh_spec(s: CpuView, rd: u8, rs1: u8, imm: u32) -> Result<(CpuView, bool), Fault> {
    let ea = wadd(reg_val(s.regs, rs1), imm);
    if ea + 2 <= s.mem.len() {
        Ok((sets_reg(s, rd, sext16(half_le(s.mem, ea as int))), false))
    } else {
        Err(Fault::MemoryOutOfBounds)
    }
}

/// A word load.
pub open spec fn lw_spec(s: CpuView, rd: u8, rs1: u8, imm: u32) -> Result<(CpuView, bool), Fault> {
    let ea = wadd(reg_val(s.regs, rs1), imm);
    if ea + 4 <= s.mem.len() {
        Ok((sets_reg(s, rd, word_le(s.mem, ea as int)), false))
    } else {
        Err(Fault::MemoryOutOfBounds)
    }
}

/// A zero-extending byte load.
pub open spec fn lbu_spec(s: CpuView, rd: u8, rs1: u8, imm: u32) -> Result<
    (CpuView, bool),
    Fault,
> {
    let ea = wadd(reg_val(s.regs, rs1), imm);
    if ea + 1 <= s.mem.len() {
        Ok((sets_reg(s, rd, s.mem[ea as int] as u32), false))
    } else {
        Err(Fault::MemoryOutOfBounds)
    }
}

/// A zero-extending half-word load.
pub open spec fn lhu_spec(s: CpuView, rd: u8, rs1: u8, imm: u32) -> Result<
    (CpuView, bool),
    Fault,
> {
    let ea = wadd(reg_val(s.regs, rs1), imm);
    if ea + 2 <= s.mem.len() {
        Ok((sets_reg(s, rd, half_le(s.mem, ea as int) as u32), false))
    } else {
        Err(Fault::MemoryOutOfBounds)
    }
}

/// One load instruction (opcode `0000011`), selected by `funct3`.
pub open spec fn step_load(s: CpuView, w: u32) -> Result<(CpuView, bool), Fault> {
    match spec_funct3(w) {
        0x0 => lb_spec(s, spec_rd(w), spec_rs1(w), spec_i_imm(w)),
        0x1 => lh_spec(s, spec_rd(w), spec_rs1(w), spec_i_imm(w)),
        0x2 => lw_spec(s, spec_rd(w), spec_rs1(w), spec_i_imm(w)),
        0x4 => lbu_spec(s, spec_rd(w), spec_rs1(w), spec_i_imm(w)),
        0x5 => lhu_spec(s, spec_rd(w), spec_rs1(w), spec_i_imm(w)),
        _ => Err(Fault::UnknownFunct),
    }
}

/// A byte store: the low 8 bits of `rs2` land at `rs1 + imm`, or a
/// bounds fault that leaves the state unchanged.
pub open spec fn sb_spec(s: CpuView, rs1: u8, rs2: u8, imm: u32) -> Result<(CpuView, bool), Fault> {
    let ea = wadd(reg_val(s.regs, rs1), imm);
    if ea + 1 <= s.mem.len() {
        Ok(
            (
                CpuView {
                    regs: s.regs,
                    pc: s.pc,
                    mem: s.mem.update(ea as int, (reg_val(s.regs, rs2) & 0xFF) as u8),
                },
                false,
            ),
        )
    } else {
        Err(Fault::MemoryOutOfBounds)
    }
}

/// A half-word store, little-endian.
pub open spec fn sh_spec(s: CpuView, rs1: u8, rs2: u8, imm: u32) -> Result<(CpuView, bool), Fault> {
    let ea = wadd(reg_val(s.regs, rs1), imm);
    if ea + 2 <= s.mem.len() {
        Ok(
            (
                CpuView {
                    regs: s.regs,
                    pc: s.pc,
                    mem: store_half_le(s.mem, ea as int, (reg_val(s.regs, rs2) & 0xFFFF) as u16),
                },
                false,
            ),
        )
    } else {
        Err(Fault::MemoryOutOfBounds)
    }
}

/// A word store, little-endian.
pub open spec fn sw_spec(s: CpuView, rs1: u8, rs2: u8, imm: u32) -> Result<(CpuView, bool), Fault> {
    let ea = wadd(reg_val(s.regs, rs1), imm);
    if ea + 4 <= s.mem.len() {
        Ok(
            (
                CpuView {
                    regs: s.regs,
                    pc: s.pc,
                    mem: store_word_le(s.mem, ea as int, reg_val(s.regs, rs2)),
                },
                false,
            ),
        )
    } else {
        Err(Fault::MemoryOutOfBounds)
    }
}

/// One store instruction (opcode `0100011`), selected by `funct3`.
pub open spec fn step_store(s: CpuView, w: u32) -> Result<(CpuView, bool), Fault> {
    match spec_funct3(w) {
        0x0 => sb_spec(s, spec_rs1(w), spec_rs2(w), spec_s_imm(w)),
        0x1 => sh_spec(s, spec_rs1(w), spec_rs2(w), spec_s_imm(w)),
        0x2 => sw_spec(s, spec_rs1(w), spec_rs2(w), spec_s_imm(w)),
        _ => Err(Fault::UnknownFunct),
    }
}

/// One conditional branch (opcode `1100011`), selected by `funct3`.
pub open spec fn step_branch(s: CpuView, w: u32) -> Result<(CpuView, bool), Fault> {
    let a = reg_val(s.regs, spec_rs1(w));
    let b = reg_val(s.regs, spec_rs2(w));
    let imm = spec_b_imm(w);
    match spec_funct3(w) {
        0x0 => Ok(branch_res(s, a == b, imm)),
        0x1 => Ok(branch_res(s, a != b, imm)),
        0x4 => Ok(branch_res(s, to_signed(a) < to_signed(b), imm)),
        0x5 => Ok(branch_res(s, to_signed(a) >= to_signed(b), imm)),
        0x6 => Ok(branch_res(s, a < b, imm)),
        0x7 => Ok(branch_res(s, a >= b, imm)),
        _ => Err(Fault::UnknownFunct),
    }
}

/// `jalr` (opcode `1100111`): only `funct3 = 0` is defined.
pub open spec fn step_jalr(s: CpuView, w: u32) -> Result<(CpuView, bool), Fault> {
    if spec_funct3(w) == 0x0 {
        Ok((jalr_dest(s, spec_rd(w), spec_rs1(w), spec_i_imm(w)), true))
    } else {
        Err(Fault::UnknownFunct)
    }
}

/// The system instructions (opcode `1110011`): `ecall` and `ebreak`
/// are recognized but deliberately unimplemented; anything else under
/// this opcode is an unknown function code.
pub open spec fn step_system(s: CpuView, w: u32) -> Result<(CpuView, bool), Fault> {
    if spec_funct3(w) == 0x0 {
        if spec_i_imm(w) == 0x0 || spec_i_imm(w) == 0x1 {
            Err(Fault::Unimplemented)
        } else {
            Err(Fault::UnknownFunct)
        }
    } else {
        Err(Fault::UnknownFunct)
    }
}

/// What one instruction word does to the machine state: the successor
/// state and whether the program counter was redirected, or the fault
/// the word raises. This is the single authoritative statement of the
/// interpreter's behaviour; [`CPU::interpret`] is proved against it.
pub open spec fn step(s: CpuView, w: u32) -> Result<(CpuView, bool), Fault> {
    match spec_opcode(w) {
        0b0110011 => step_op(s, w),
        0b0010011 => step_op_imm(s, w),
        0b0000011 => step_load(s, w),
        0b1100111 => step_jalr(s, w),
        0b1110011 => step_system(s, w),
        0b0100011 => step_store(s, w),
        0b1100011 => step_branch(s, w),
        0b1101111 => Ok((jal_dest(s, spec_rd(w), spec_j_imm(w)), true)),
        0b0110111 => Ok((sets_reg(s, spec_rd(w), spec_u_imm(w)), false)),
        0b0010111 => Ok((sets_reg(s, spec_rd(w), wadd(s.pc, spec_u_imm(w))), false)),
        _ => Err(Fault::UnknownOpcode),
    }
}

/// `r` and the state change from `pre` to `post` are exactly what the
/// step outcome `res` prescribes; a fault leaves the state untouched.
pub open spec fn obeys(
    res: Result<(CpuView, bool), Fault>,
    pre: CpuView,
    post: CpuView,
    r: Result<bool, Fault>,
) -> bool {
    match res {
        Ok(sr) => r == Ok::<bool, Fault>(sr.1) && post == sr.0,
        Err(f) => r == Err::<bool, Fault>(f) && post == pre,
    }
}

/// As [`obeys`], for the handlers that report no redirect flag.
pub open spec fn obeys0(
    res: Result<(CpuView, bool), Fault>,
    pre: CpuView,
    post: CpuView,
    r: Result<(), Fault>,
) -> bool {
    match res {
        Ok(sr) => r == Ok::<(), Fault>(()) && post == sr.0,
        Err(f) => r == Err::<(), Fault>(f) && post == pre,
    }
}

/// One hart: 32 general-purpose registers, the program counter, and
/// its exclusively owned memory. The embedding host may read and write
/// the fields between steps; during [`CPU::interpret`] only the
/// executed instruction's handler touches them.
pub struct CPU {
    pub regs: Vec<u32>,
    pub pc: u32,
    pub mem: Memory,
}

impl View for CPU {
    type V = CpuView;

    open spec fn view(&self) -> CpuView {
        CpuView { regs: self.regs@, pc: self.pc, mem: self.mem@ }
    }
}

impl Default for CPU {
    /// A fresh hart: every register 0, the program counter 0, and
    /// zeroed memory.
    fn default() -> (r: CPU)
        ensures
            r.wf(),
            r@.pc == 0,
            forall|i: int| 0 <= i < 32 ==> r@.regs[i] == 0u32,
            forall|i: int| 0 <= i < MEM_SIZE ==> r@.mem[i] == 0u8,
    {
        let mut regs: Vec<u32> = Vec::new();
        while regs.len() < 32
            invariant
                regs@.len() <= 32,
                forall|i: int| 0 <= i < regs@.len() ==> regs@[i] == 0u32,
            decreases 32 - regs@.len(),
        {
            regs.push(0u32);
        }
        CPU { regs, pc: 0, mem: Memory::default() }
    }
}

impl CPU {
    /// The register file always holds exactly 32 words, and the memory
    /// its full capacity.
    pub open spec fn wf(&self) -> bool {
        self.regs@.len() == 32 && self.mem.wf()
    }

    /// Reads register `reg`; index 0 always yields 0.
    pub fn read_reg(&self, reg: u8) -> (r: u32)
        requires
            self.wf(),
            reg < 32,
        ensures
            r == reg_val(self@.regs, reg),
    {
        if reg == 0 {
            0
        } else {
            self.regs[reg as usize]
        }
    }

    /// Writes `val` to register `reg`; a write to index 0 is silently
    /// discarded. This is the only way any handler mutates the
    /// register file.
    pub fn write_reg(&mut self, reg: u8, val: u32)
        requires
            old(self).wf(),
            reg < 32,
        ensures
            final(self).wf(),
            final(self)@.regs == reg_write(old(self)@.regs, reg, val),
            final(self)@.pc == old(self)@.pc,
            final(self)@.mem == old(self)@.mem,
    {
        if reg != 0 {
            self.regs.set(reg as usize, val);
        }
    }

    /// Executes one 32-bit instruction word against the machine state.
    ///
    /// Returns `Ok(true)` when the instruction redirected the program
    /// counter (a taken branch, `jal`, `jalr`), `Ok(false)` when the
    /// fetch loop must advance it itself (including untaken branches),
    /// and the word's [`Fault`] otherwise, with the state unchanged.
    pub fn interpret(&mut self, instruction: u32) -> (r: Result<bool, Fault>)
        requires
            old(self).wf(),
        ensures
            final(self).wf(),
            obeys(step(old(self)@, instruction), old(self)@, final(self)@, r),
    {
        let op_code = decode::op_code(instruction);
        match op_code {
            0b0110011 => self.interpret_0110011(instruction),
            0b0010011 => self.interpret_0010011(instruction),
            0b0000011 => self.interpret_0000011(instruction),
            0b1100111 => self.interpret_1100111(instruction),
            0b1110011 => self.interpret_1110011(instruction),
            0b0100011 => self.interpret_0100011(instruction),
            0b1100011 => self.interpret_1100011(instruction),
            0b1101111 => self.interpret_1101111(instruction),
            0b0110111 => self.interpret_0110111(instruction),
            0b0010111 => self.interpret_0010111(instruction),
            _ => Err(Fault::UnknownOpcode),
        }
    }

    /// Executes one 16-bit compressed instruction. The compressed
    /// extension is recognized by the fetch loop but deliberately not
    /// implemented here, so every such word reports
    /// [`Fault::Unimplemented`] and changes nothing.
    pub fn interpret_c(&mut self, _instruction: u16) -> (r: Result<bool, Fault>)
        requires
            old(self).wf(),
        ensures
            final(self).wf(),
            final(self)@ == old(self)@,
            r == Err::<bool, Fault>(Fault::Unimplemented),
    {
        Err(Fault::Unimplemented)
    }

    /// Register-register ALU group.
    fn interpret_0110011(&mut self, instruction: u32) -> (r: Result<bool, Fault>)
        requires
            old(self).wf(),
        ensures
            final(self).wf(),
            obeys(step_op(old(self)@, instruction), old(self)@, final(self)@, r),
    {
        let (rd, funct3, rs1, rs2, funct7) = decode::r_type(instruction);
        match (funct3, funct7) {
            (0x0, 0x00) => {
                self.add(rd, rs1, rs2);
                Ok(false)
            },
            (0x0, 0x20) => {
                self.sub(rd, rs1, rs2);
                Ok(false)
            },
            (0x4, 0x00) => {
                self.xor(rd, rs1, rs2);
                Ok(false)
            },
            (0x6, 0x00) => {
                self.or(rd, rs1, rs2);
                Ok(false)
            },
            (0x7, 0x00) => {
                self.and(rd, rs1, rs2);
                Ok(false)
            },
            (0x1, 0x00) => {
                self.sll(rd, rs1, rs2);
                Ok(false)
            },
            (0x5, 0x00) => {
                self.srl(rd, rs1, rs2);
                Ok(false)
            },
            (0x5, 0x20) => {
                self.sra(rd, rs1, rs2);
                Ok(false)
            },
            (0x2, 0x00) => {
                self.slt(rd, rs1, rs2);
                Ok(false)
            },
            (0x3, 0x00) => {
                self.sltu(rd, rs1, rs2);
                Ok(false)
            },
            // the multiply/divide extension
            (_, 0x01) => Err(Fault::Unimplemented),
            (_, _) => Err(Fault::UnknownFunct),
        }
    }

    /// Immediate ALU group.
    fn interpret_0010011(&mut self, instruction: u32) -> (r: Result<bool, Fault>)
        requires
            old(self).wf(),
        ensures
            final(self).wf(),
            obeys(step_op_imm(old(self)@, instruction), old(self)@, final(self)@, r),
    {
        let (rd, funct3, rs1, imm) = decode::i_type(instruction);
        let imm_upper = instruction >> 25;
        match funct3 {
            0x0 => {
                self.addi(rd, rs1, imm);
                Ok(false)
            },
            0x4 => {
                self.xori(rd, rs1, imm);
                Ok(false)
            },
            0x6 => {
                self.ori(rd, rs1, imm);
                Ok(false)
            },
            0x7 => {
                self.andi(rd, rs1, imm);
                Ok(false)
            },
            0x2 => {
                self.slti(rd, rs1, imm);
                Ok(false)
            },
            0x3 => {
                self.sltiu(rd, rs1, imm);
                Ok(false)
            },
            0x1 => match imm_upper {
                0x00 => {
                    self.slli(rd, rs1, imm);
                    Ok(false)
                },
                _ => Err(Fault::UnknownFunct),
            },
            0x5 => match imm_upper {
                0x00 => {
                    self.srli(rd, rs1, imm);
                    Ok(false)
                },
                0x20 => {
                    self.srai(rd, rs1, imm);
                    Ok(false)
                },
                _ => Err(Fault::UnknownFunct),
            },
            _ => Err(Fault::UnknownFunct),
        }
    }

    /// Load group.
    fn interpret_0000011(&mut self, instruction: u32) -> (r: Result<bool, Fault>)
        requires
            old(self).wf(),
        ensures
            final(self).wf(),
            obeys(step_load(old(self)@, instruction), old(self)@, final(self)@, r),
    {
        let (rd, funct3, rs1, imm) = decode::i_type(instruction);
        let res = match funct3 {
            0x0 => self.lb(rd, rs1, imm),
            0x1 => self.lh(rd, rs1, imm),
            0x2 => self.lw(rd, rs1, imm),
            0x4 => self.lbu(rd, rs1, imm),
            0x5 => self.lhu(rd, rs1, imm),
            _ => Err(Fault::UnknownFunct),
        };
        match res {
            Ok(_) => Ok(false),
            Err(f) => Err(f),
        }
    }

    /// `jalr` group.
    fn interpret_1100111(&mut self, instruction: u32) -> (r: Result<bool, Fault>)
        requires
            old(self).wf(),
        ensures
            final(self).wf(),
            obeys(step_jalr(old(self)@, instruction), old(self)@, final(self)@, r),
    {
        let (rd, funct3, rs1, imm) = decode::i_type(instruction);
        match funct3 {
            0x0 => {
                self.jalr(rd, rs1, imm);
                Ok(true)
            },
            _ => Err(Fault::UnknownFunct),
        }
    }

    /// System group: `ecall` and `ebreak`, both deliberately
    /// unimplemented so that the failure mode stays observable.
    fn interpret_1110011(&mut self, instruction: u32) -> (r: Result<bool, Fault>)
        requires
            old(self).wf(),
        ensures
            final(self).wf(),
            obeys(step_system(old(self)@, instruction), old(self)@, final(self)@, r),
    {
        let (_, funct3, _, imm) = decode::i_type(instruction);
        match funct3 {
            0x0 => match imm {
                // ecall
                0x0 => Err(Fault::Unimplemented),
                // ebreak
                0x1 => Err(Fault::Unimplemented),
                _ => Err(Fault::UnknownFunct),
            },
            _ => Err(Fault::UnknownFunct),
        }
    }

    /// Store group.
    fn interpret_0100011(&mut self, instruction: u32) -> (r: Result<bool, Fault>)
        requires
            old(self).wf(),
        ensures
            final(self).wf(),
            obeys(step_store(old(self)@, instruction), old(self)@, final(self)@, r),
    {
        let (funct3, rs1, rs2, imm) = decode::s_type(instruction);
        let res = match funct3 {
            0x0 => self.sb(rs1, rs2, imm),
            0x1 => self.sh(rs1, rs2, imm),
            0x2 => self.sw(rs1, rs2, imm),
            _ => Err(Fault::UnknownFunct),
        };
        match res {
            Ok(_) => Ok(false),
            Err(f) => Err(f),
        }
    }

    /// Conditional-branch group.
    fn interpret_1100011(&mut self, instruction: u32) -> (r: Result<bool, Fault>)
        requires
            old(self).wf(),
        ensures
            final(self).wf(),
            obeys(step_branch(old(self)@, instruction), old(self)@, final(self)@, r),
    {
        let (funct3, rs1, rs2, imm) = decode::b_type(instruction);
        match funct3 {
            0x0 => Ok(self.beq(rs1, rs2, imm)),
            0x1 => Ok(self.bne(rs1, rs2, imm)),
            0x4 => Ok(self.blt(rs1, rs2, imm)),
            0x5 => Ok(self.bge(rs1, rs2, imm)),
            0x6 => Ok(self.bltu(rs1, rs2, imm)),
            0x7 => Ok(self.bgeu(rs1, rs2, imm)),
            _ => Err(Fault::UnknownFunct),
        }
    }

    /// `jal` group.
    fn interpret_1101111(&mut self, instruction: u32) -> (r: Result<bool, Fault>)
        requires
            old(self).wf(),
        ensures
            final(self).wf(),
            obeys(
                Ok((jal_dest(old(self)@, spec_rd(instruction), spec_j_imm(instruction)), true)),
                old(self)@,
                final(self)@,
                r,
            ),
    {
        let (rd, imm) = decode::j_type(instruction);
        self.jal(rd, imm);
        Ok(true)
    }

    /// `lui` group.
    fn interpret_0110111(&mut self, instruction: u32) -> (r: Result<bool, Fault>)
        requires
            old(self).wf(),
        ensures
            final(self).wf(),
            obeys(
                Ok((sets_reg(old(self)@, spec_rd(instruction), spec_u_imm(instruction)), false)),
                old(self)@,
                final(self)@,
                r,
            ),
    {
        let (rd, imm) = decode::u_type(instruction);
        self.lui(rd, imm);
        Ok(false)
    }

    /// `auipc` group.
    fn interpret_0010111(&mut self, instruction: u32) -> (r: Result<bool, Fault>)
        requires
            old(self).wf(),
        ensures
            final(self).wf(),
            obeys(
                Ok(
                    (
                        sets_reg(
                            old(self)@,
                            spec_rd(instruction),
                            wadd(old(self)@.pc, spec_u_imm(instruction)),
                        ),
                        false,
                    ),
                ),
                old(self)@,
                final(self)@,
                r,
            ),
    {
        let (rd, imm) = decode::u_type(instruction);
        self.auipc(rd, imm);
        Ok(false)
    }

    fn add(&mut self, rd: u8, rs1: u8, rs2: u8)
        requires
            old(self).wf(),
            rd < 32,
            rs1 < 32,
            rs2 < 32,
        ensures
            final(self).wf(),
            final(self)@ == sets_reg(
                old(self)@,
                rd,
                wadd(reg_val(old(self)@.regs, rs1), reg_val(old(self)@.regs, rs2)),
            ),
    {
        let v = self.read_reg(rs1).wrapping_add(self.read_reg(rs2));
        self.write_reg(rd, v);
    }

    fn sub(&mut self, rd: u8, rs1: u8, rs2: u8)
        requires
            old(self).wf(),
            rd < 32,
            rs1 < 32,
            rs2 < 32,
        ensures
            final(self).wf(),
            final(self)@ == sets_reg(
                old(self)@,
                rd,
                wsub(reg_val(old(self)@.regs, rs1), reg_val(old(self)@.regs, rs2)),
            ),
    {
        let v = self.read_reg(rs1).wrapping_sub(self.read_reg(rs2));
        self.write_reg(rd, v);
    }

    fn xor(&mut self, rd: u8, rs1: u8, rs2: u8)
        requires
            old(self).wf(),
            rd < 32,
            rs1 < 32,
            rs2 < 32,
        ensures
            final(self).wf(),
            final(self)@ == sets_reg(
                old(self)@,
                rd,
                reg_val(old(self)@.regs, rs1) ^ reg_val(old(self)@.regs, rs2),
            ),
    {
        let v = self.read_reg(rs1) ^ self.read_reg(rs2);
        self.write_reg(rd, v);
    }

    fn or(&mut self, rd: u8, rs1: u8, rs2: u8)
        requires
            old(self).wf(),
            rd < 32,
            rs1 < 32,
            rs2 < 32,
        ensures
            final(self).wf(),
            final(self)@ == sets_reg(
                old(self)@,
                rd,
                reg_val(old(self)@.regs, rs1) | reg_val(old(self)@.regs, rs2),
            ),
    {
        let v = self.read_reg(rs1) | self.read_reg(rs2);
        self.write_reg(rd, v);
    }

    fn and(&mut self, rd: u8, rs1: u8, rs2: u8)
        requires
            old(self).wf(),
            rd < 32,
            rs1 < 32,
            rs2 < 32,
        ensures
            final(self).wf(),
            final(self)@ == sets_reg(
                old(self)@,
                rd,
                reg_val(old(self)@.regs, rs1) & reg_val(old(self)@.regs, rs2),
            ),
    {
        let v = self.read_reg(rs1) & self.read_reg(rs2);
        self.write_reg(rd, v);
    }

    fn sll(&mut self, rd: u8, rs1: u8, rs2: u8)
        requires
            old(self).wf(),
            rd < 32,
            rs1 < 32,
            rs2 < 32,
        ensures
            final(self).wf(),
            final(self)@ == sets_reg(
                old(self)@,
                rd,
                reg_val(old(self)@.regs, rs1) << (reg_val(old(self)@.regs, rs2) % 32),
            ),
    {
        let v = self.read_reg(rs1) << (self.read_reg(rs2) % 32);
        self.write_reg(rd, v);
    }

    fn srl(&mut self, rd: u8, rs1: u8, rs2: u8)
        requires
            old(self).wf(),
            rd < 32,
            rs1 < 32,
            rs2 < 32,
        ensures
            final(self).wf(),
            final(self)@ == sets_reg(
                old(self)@,
                rd,
                reg_val(old(self)@.regs, rs1) >> (reg_val(old(self)@.regs, rs2) % 32),
            ),
    {
        let v = self.read_reg(rs1) >> (self.read_reg(rs2) % 32);
        self.write_reg(rd, v);
    }

    fn sra(&mut self, rd: u8, rs1: u8, rs2: u8)
        requires
            old(self).wf(),
            rd < 32,
            rs1 < 32,
            rs2 < 32,
        ensures
            final(self).wf(),
            final(self)@ == sets_reg(
                old(self)@,
                rd,
                asr(reg_val(old(self)@.regs, rs1), reg_val(old(self)@.regs, rs2) % 32),
            ),
    {
        let v = arith_shift_right(self.read_reg(rs1), self.read_reg(rs2) % 32);
        self.write_reg(rd, v);
    }

    fn slt(&mut self, rd: u8, rs1: u8, rs2: u8)
        requires
            old(self).wf(),
            rd < 32,
            rs1 < 32,
            rs2 < 32,
        ensures
            final(self).wf(),
            final(self)@ == sets_reg(
                old(self)@,
                rd,
                if to_signed(reg_val(old(self)@.regs, rs1)) < to_signed(
                    reg_val(old(self)@.regs, rs2),
                ) {
                    1u32
                } else {
                    0u32
                },
            ),
    {
        let v: u32 = if signed_lt(self.read_reg(rs1), self.read_reg(rs2)) {
            1
        } else {
            0
        };
        self.write_reg(rd, v);
    }

    fn sltu(&mut self, rd: u8, rs1: u8, rs2: u8)
        requires
            old(self).wf(),
            rd < 32,
            rs1 < 32,
            rs2 < 32,
        ensures
            final(self).wf(),
            final(self)@ == sets_reg(
                old(self)@,
                rd,
                if reg_val(old(self)@.regs, rs1) < reg_val(old(self)@.regs, rs2) {
                    1u32
                } else {
                    0u32
                },
            ),
    {
        let v: u32 = if self.read_reg(rs1) < self.read_reg(rs2) {
            1
        } else {
            0
        };
        self.write_reg(rd, v);
    }

    fn addi(&mut self, rd: u8, rs1: u8, imm: u32)
        requires
            old(self).wf(),
            rd < 32,
            rs1 < 32,
        ensures
            final(self).wf(),
            final(self)@ == sets_reg(old(self)@, rd, wadd(reg_val(old(self)@.regs, rs1), imm)),
    {
        let v = self.read_reg(rs1).wrapping_add(imm);
        self.write_reg(rd, v);
    }

    fn xori(&mut self, rd: u8, rs1: u8, imm: u32)
        requires
            old(self).wf(),
            rd < 32,
            rs1 < 32,
        ensures
            final(self).wf(),
            final(self)@ == sets_reg(old(self)@, rd, reg_val(old(self)@.regs, rs1) ^ imm),
    {
        let v = self.read_reg(rs1) ^ imm;
        self.write_reg(rd, v);
    }

    fn ori(&mut self, rd: u8, rs1: u8, imm: u32)
        requires
            old(self).wf(),
            rd < 32,
            rs1 < 32,
        ensures
            final(self).wf(),
            final(self)@ == sets_reg(old(self)@, rd, reg_val(old(self)@.regs, rs1) | imm),
    {
        let v = self.read_reg(rs1) | imm;
        self.write_reg(rd, v);
    }

    fn andi(&mut self, rd: u8, rs1: u8, imm: u32)
        requires
            old(self).wf(),
            rd < 32,
            rs1 < 32,
        ensures
            final(self).wf(),
            final(self)@ == sets_reg(old(self)@, rd, reg_val(old(self)@.regs, rs1) & imm),
    {
        let v = self.read_reg(rs1) & imm;
        self.write_reg(rd, v);
    }

    fn slti(&mut self, rd: u8, rs1: u8, imm: u32)
        requires
            old(self).wf(),
            rd < 32,
            rs1 < 32,
        ensures
            final(self).wf(),
            final(self)@ == sets_reg(
                old(self)@,
                rd,
                if to_signed(reg_val(old(self)@.regs, rs1)) < to_signed(imm) {
                    1u32
                } else {
                    0u32
                },
            ),
    {
        let v: u32 = if signed_lt(self.read_reg(rs1), imm) {
            1
        } else {
            0
        };
        self.write_reg(rd, v);
    }

    fn sltiu(&mut self, rd: u8, rs1: u8, imm: u32)
        requires
            old(self).wf(),
            rd < 32,
            rs1 < 32,
        ensures
            final(self).wf(),
            final(self)@ == sets_reg(
                old(self)@,
                rd,
                if reg_val(old(self)@.regs, rs1) < imm {
                    1u32
                } else {
                    0u32
                },
            ),
    {
        let v: u32 = if self.read_reg(rs1) < imm {
            1
        } else {
            0
        };
        self.write_reg(rd, v);
    }

    fn slli(&mut self, rd: u8, rs1: u8, imm: u32)
        requires
            old(self).wf(),
            rd < 32,
            rs1 < 32,
        ensures
            final(self).wf(),
            final(self)@ == sets_reg(old(self)@, rd, reg_val(old(self)@.regs, rs1) << (imm % 32)),
    {
        let v = self.read_reg(rs1) << (imm % 32);
        self.write_reg(rd, v);
    }

    fn srli(&mut self, rd: u8, rs1: u8, imm: u32)
        requires
            old(self).wf(),
            rd < 32,
            rs1 < 32,
        ensures
            final(self).wf(),
            final(self)@ == sets_reg(old(self)@, rd, reg_val(old(self)@.regs, rs1) >> (imm % 32)),
    {
        let v = self.read_reg(rs1) >> (imm % 32);
        self.write_reg(rd, v);
    }

    fn srai(&mut self, rd: u8, rs1: u8, imm: u32)
        requires
            old(self).wf(),
            rd < 32,
            rs1 < 32,
        ensures
            final(self).wf(),
            final(self)@ == sets_reg(old(self)@, rd, asr(reg_val(old(self)@.regs, rs1), imm % 32)),
    {
        let v = arith_shift_right(self.read_reg(rs1), imm % 32);
        self.write_reg(rd, v);
    }

    fn lb(&mut self, rd: u8, rs1: u8, imm: u32) -> (r: Result<(), Fault>)
        requires
            old(self).wf(),
            rd < 32,
            rs1 < 32,
        ensures
            final(self).wf(),
            obeys0(lb_spec(old(self)@, rd, rs1, imm), old(self)@, final(self)@, r),
    {
        let addr = self.read_reg(rs1).wrapping_add(imm);
        match self.mem.load_byte(addr) {
            Ok(b) => {
                let v = sign_extend_byte(b);
                self.write_reg(rd, v);
                Ok(())
            },
            Err(f) => Err(f),
        }
    }

    fn lh(&mut self, rd: u8, rs1: u8, imm: u32) -> (r: Result<(), Fault>)
        requires
            old(self).wf(),
            rd < 32,
            rs1 < 32,
        ensures
            final(self).wf(),
            obeys0(lh_spec(old(self)@, rd, rs1, imm), old(self)@, final(self)@, r),
    {
        let addr = self.read_reg(rs1).wrapping_add(imm);
        match self.mem.load_half(addr) {
            Ok(h) => {
                let v = sign_extend_half(h);
                self.write_reg(rd, v);
                Ok(())
            },
            Err(f) => Err(f),
        }
    }

    fn lw(&mut self, rd: u8, rs1: u8, imm: u32) -> (r: Result<(), Fault>)
        requires
            old(self).wf(),
            rd < 32,
            rs1 < 32,
        ensures
            final(self).wf(),
            obeys0(lw_spec(old(self)@, rd, rs1, imm), old(self)@, final(self)@, r),
    {
        let addr = self.read_reg(rs1).wrapping_add(imm);
        match self.mem.load_word(addr) {
            Ok(v) => {
                self.write_reg(rd, v);
                Ok(())
            },
            Err(f) => Err(f),
        }
    }

    fn lbu(&mut self, rd: u8, rs1: u8, imm: u32) -> (r: Result<(), Fault>)
        requires
            old(self).wf(),
            rd < 32,
            rs1 < 32,
        ensures
            final(self).wf(),
            obeys0(lbu_spec(old(self)@, rd, rs1, imm), old(self)@, final(self)@, r),
    {
        let addr = self.read_reg(rs1).wrapping_add(imm);
        match self.mem.load_byte(addr) {
            Ok(b) => {
                self.write_reg(rd, b as u32);
                Ok(())
            },
            Err(f) => Err(f),
        }
    }

    fn lhu(&mut self, rd: u8, rs1: u8, imm: u32) -> (r: Result<(), Fault>)
        requires
            old(self).wf(),
            rd < 32,
            rs1 < 32,
        ensures
            final(self).wf(),
            obeys0(lhu_spec(old(self)@, rd, rs1, imm), old(self)@, final(self)@, r),
    {
        let addr = self.read_reg(rs1).wrapping_add(imm);
        match self.mem.load_half(addr) {
            Ok(h) => {
                self.write_reg(rd, h as u32);
                Ok(())
            },
            Err(f) => Err(f),
        }
    }

    fn sb(&mut self, rs1: u8, rs2: u8, imm: u32) -> (r: Result<(), Fault>)
        requires
            old(self).wf(),
            rs1 < 32,
            rs2 < 32,
        ensures
            final(self).wf(),
            obeys0(sb_spec(old(self)@, rs1, rs2, imm), old(self)@, final(self)@, r),
    {
        let addr = self.read_reg(rs1).wrapping_add(imm);
        let v = self.read_reg(rs2);
        proof {
            assert(v & 0xFF < 0x100) by (bit_vector);
        }
        self.mem.store_byte(addr, (v & 0xFF) as u8)
    }

    fn sh(&mut self, rs1: u8, rs2: u8, imm: u32) -> (r: Result<(), Fault>)
        requires
            old(self).wf(),
            rs1 < 32,
            rs2 < 32,
        ensures
            final(self).wf(),
            obeys0(sh_spec(old(self)@, rs1, rs2, imm), old(self)@, final(self)@, r),
    {
        let addr = self.read_reg(rs1).wrapping_add(imm);
        let v = self.read_reg(rs2);
        proof {
            assert(v & 0xFFFF < 0x1_0000) by (bit_vector);
        }
        self.mem.store_half(addr, (v & 0xFFFF) as u16)
    }

    fn sw(&mut self, rs1: u8, rs2: u8, imm: u32) -> (r: Result<(), Fault>)
        requires
            old(self).wf(),
            rs1 < 32,
            rs2 < 32,
        ensures
            final(self).wf(),
            obeys0(sw_spec(old(self)@, rs1, rs2, imm), old(self)@, final(self)@, r),
    {
        let addr = self.read_reg(rs1).wrapping_add(imm);
        let v = self.read_reg(rs2);
        self.mem.store_word(addr, v)
    }

    fn beq(&mut self, rs1: u8, rs2: u8, imm: u32) -> (r: bool)
        requires
            old(self).wf(),
            rs1 < 32,
            rs2 < 32,
        ensures
            final(self).wf(),
            final(self)@ == branch_res(
                old(self)@,
                reg_val(old(self)@.regs, rs1) == reg_val(old(self)@.regs, rs2),
                imm,
            ).0,
            r == branch_res(
                old(self)@,
                reg_val(old(self)@.regs, rs1) == reg_val(old(self)@.regs, rs2),
                imm,
            ).1,
    {
        if self.read_reg(rs1) == self.read_reg(rs2) {
            self.pc = self.pc.wrapping_add(imm);
            true
        } else {
            false
        }
    }

    fn bne(&mut self, rs1: u8, rs2: u8, imm: u32) -> (r: bool)
        requires
            old(self).wf(),
            rs1 < 32,
            rs2 < 32,
        ensures
            final(self).wf(),
            final(self)@ == branch_res(
                old(self)@,
                reg_val(old(self)@.regs, rs1) != reg_val(old(self)@.regs, rs2),
                imm,
            ).0,
            r == branch_res(
                old(self)@,
                reg_val(old(self)@.regs, rs1) != reg_val(old(self)@.regs, rs2),
                imm,
            ).1,
    {
        if self.read_reg(rs1) != self.read_reg(rs2) {
            self.pc = self.pc.wrapping_add(imm);
            true
        } else {
            false
        }
    }

    fn blt(&mut self, rs1: u8, rs2: u8, imm: u32) -> (r: bool)
        requires
            old(self).wf(),
            rs1 < 32,
            rs2 < 32,
        ensures
            final(self).wf(),
            final(self)@ == branch_res(
                old(self)@,
                to_signed(reg_val(old(self)@.regs, rs1)) < to_signed(
                    reg_val(old(self)@.regs, rs2),
                ),
                imm,
            ).0,
            r == branch_res(
                old(self)@,
                to_signed(reg_val(old(self)@.regs, rs1)) < to_signed(
                    reg_val(old(self)@.regs, rs2),
                ),
                imm,
            ).1,
    {
        if signed_lt(self.read_reg(rs1), self.read_reg(rs2)) {
            self.pc = self.pc.wrapping_add(imm);
            true
        } else {
            false
        }
    }

    fn bge(&mut self, rs1: u8, rs2: u8, imm: u32) -> (r: bool)
        requires
            old(self).wf(),
            rs1 < 32,
            rs2 < 32,
        ensures
            final(self).wf(),
            final(self)@ == branch_res(
                old(self)@,
                to_signed(reg_val(old(self)@.regs, rs1)) >= to_signed(
                    reg_val(old(self)@.regs, rs2),
                ),
                imm,
            ).0,
            r == branch_res(
                old(self)@,
                to_signed(reg_val(old(self)@.regs, rs1)) >= to_signed(
                    reg_val(old(self)@.regs, rs2),
                ),
                imm,
            ).1,
    {
        if !signed_lt(self.read_reg(rs1), self.read_reg(rs2)) {
            self.pc = self.pc.wrapping_add(imm);
            true
        } else {
            false
        }
    }

    fn bltu(&mut self, rs1: u8, rs2: u8, imm: u32) -> (r: bool)
        requires
            old(self).wf(),
            rs1 < 32,
            rs2 < 32,
        ensures
            final(self).wf(),
            final(self)@ == branch_res(
                old(self)@,
                reg_val(old(self)@.regs, rs1) < reg_val(old(self)@.regs, rs2),
                imm,
            ).0,
            r == branch_res(
                old(self)@,
                reg_val(old(self)@.regs, rs1) < reg_val(old(self)@.regs, rs2),
                imm,
            ).1,
    {
        if self.read_reg(rs1) < self.read_reg(rs2) {
            self.pc = self.pc.wrapping_add(imm);
            true
        } else {
            false
        }
    }

    fn bgeu(&mut self, rs1: u8, rs2: u8, imm: u32) -> (r: bool)
        requires
            old(self).wf(),
            rs1 < 32,
            rs2 < 32,
        ensures
            final(self).wf(),
            final(self)@ == branch_res(
                old(self)@,
                reg_val(old(self)@.regs, rs1) >= reg_val(old(self)@.regs, rs2),
                imm,
            ).0,
            r == branch_res(
                old(self)@,
                reg_val(old(self)@.regs, rs1) >= reg_val(old(self)@.regs, rs2),
                imm,
            ).1,
    {
        if self.read_reg(rs1) >= self.read_reg(rs2) {
            self.pc = self.pc.wrapping_add(imm);
            true
        } else {
            false
        }
    }

    fn jal(&mut self, rd: u8, imm: u32)
        requires
            old(self).wf(),
            rd < 32,
        ensures
            final(self).wf(),
            final(self)@ == jal_dest(old(self)@, rd, imm),
    {
        let ra = self.pc.wrapping_add(4);
        self.write_reg(rd, ra);
        self.pc = self.pc.wrapping_add(imm);
    }

    fn jalr(&mut self, rd: u8, rs1: u8, imm: u32)
        requires
            old(self).wf(),
            rd < 32,
            rs1 < 32,
        ensures
            final(self).wf(),
            final(self)@ == jalr_dest(old(self)@, rd, rs1, imm),
    {
        // the target comes from rs1 as it stands before rd is written
        let target = self.read_reg(rs1).wrapping_add(imm);
        let ra = self.pc.wrapping_add(4);
        self.write_reg(rd, ra);
        self.pc = target;
    }

    fn lui(&mut self, rd: u8, imm: u32)
        requires
            old(self).wf(),
            rd < 32,
        ensures
            final(self).wf(),
            final(self)@ == sets_reg(old(self)@, rd, imm),
    {
        self.write_reg(rd, imm);
    }

    fn auipc(&mut self, rd: u8, imm: u32)
        requires
            old(self).wf(),
            rd < 32,
        ensures
            final(self).wf(),
            final(self)@ == sets_reg(old(self)@, rd, wadd(old(self)@.pc, imm)),
    {
        let v = self.pc.wrapping_add(imm);
        self.write_reg(rd, v);
    }
}

} // verus!
