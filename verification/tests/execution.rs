use rv32i::cpu::CPU;
use rv32i::fault::Fault;

const OP: u32 = 0b0110011;
const OP_IMM: u32 = 0b0010011;
const LOAD: u32 = 0b0000011;
const STORE: u32 = 0b0100011;
const BRANCH: u32 = 0b1100011;
const JAL: u32 = 0b1101111;
const JALR: u32 = 0b1100111;
const LUI: u32 = 0b0110111;
const AUIPC: u32 = 0b0010111;
const SYSTEM: u32 = 0b1110011;

fn r_instr(funct7: u32, rs2: u32, rs1: u32, funct3: u32, rd: u32) -> u32 {
    (funct7 << 25) | (rs2 << 20) | (rs1 << 15) | (funct3 << 12) | (rd << 7) | OP
}

fn i_instr(opcode: u32, imm: i32, rs1: u32, funct3: u32, rd: u32) -> u32 {
    (((imm as u32) & 0xFFF) << 20) | (rs1 << 15) | (funct3 << 12) | (rd << 7) | opcode
}

fn s_instr(imm: i32, rs2: u32, rs1: u32, funct3: u32) -> u32 {
    let imm = imm as u32;
    (((imm >> 5) & 0x7F) << 25) | (rs2 << 20) | (rs1 << 15) | (funct3 << 12)
        | ((imm & 0x1F) << 7) | STORE
}

fn b_instr(off: i32, rs2: u32, rs1: u32, funct3: u32) -> u32 {
    let off = off as u32;
    (((off >> 12) & 1) << 31) | (((off >> 5) & 0x3F) << 25) | (rs2 << 20) | (rs1 << 15)
        | (funct3 << 12) | (((off >> 1) & 0xF) << 8) | (((off >> 11) & 1) << 7) | BRANCH
}

fn j_instr(off: i32, rd: u32) -> u32 {
    let off = off as u32;
    (((off >> 20) & 1) << 31) | (((off >> 1) & 0x3FF) << 21) | (((off >> 11) & 1) << 20)
        | (((off >> 12) & 0xFF) << 12) | (rd << 7) | JAL
}

fn u_instr(opcode: u32, imm_hi20: u32, rd: u32) -> u32 {
    (imm_hi20 << 12) | (rd << 7) | opcode
}

#[test]
fn add_scenario() {
    let mut cpu = CPU::default();
    cpu.write_reg(1, 5);
    cpu.write_reg(2, 3);
    // add x3, x1, x2
    assert_eq!(cpu.interpret(r_instr(0x00, 2, 1, 0x0, 3)), Ok(false));
    assert_eq!(cpu.read_reg(3), 8);
}

#[test]
fn addi_wraps_around() {
    let mut cpu = CPU::default();
    cpu.write_reg(1, 0xFFFF_FFFF);
    // addi x2, x1, 1
    assert_eq!(cpu.interpret(i_instr(OP_IMM, 1, 1, 0x0, 2)), Ok(false));
    assert_eq!(cpu.read_reg(2), 0);
}

#[test]
fn sub_wraps_around() {
    let mut cpu = CPU::default();
    cpu.write_reg(1, 3);
    cpu.write_reg(2, 5);
    // sub x3, x1, x2
    assert_eq!(cpu.interpret(r_instr(0x20, 2, 1, 0x0, 3)), Ok(false));
    assert_eq!(cpu.read_reg(3), 0xFFFF_FFFE);
}

#[test]
fn logic_ops() {
    let mut cpu = CPU::default();
    cpu.write_reg(1, 0b1100);
    cpu.write_reg(2, 0b1010);
    assert_eq!(cpu.interpret(r_instr(0x00, 2, 1, 0x4, 3)), Ok(false)); // xor
    assert_eq!(cpu.interpret(r_instr(0x00, 2, 1, 0x6, 4)), Ok(false)); // or
    assert_eq!(cpu.interpret(r_instr(0x00, 2, 1, 0x7, 5)), Ok(false)); // and
    assert_eq!(cpu.read_reg(3), 0b0110);
    assert_eq!(cpu.read_reg(4), 0b1110);
    assert_eq!(cpu.read_reg(5), 0b1000);
}

#[test]
fn immediate_logic_ops() {
    let mut cpu = CPU::default();
    cpu.write_reg(1, 0xF0F0);
    assert_eq!(cpu.interpret(i_instr(OP_IMM, 0xFF, 1, 0x4, 2)), Ok(false)); // xori
    assert_eq!(cpu.interpret(i_instr(OP_IMM, 0xFF, 1, 0x6, 3)), Ok(false)); // ori
    assert_eq!(cpu.interpret(i_instr(OP_IMM, 0xFF, 1, 0x7, 4)), Ok(false)); // andi
    assert_eq!(cpu.read_reg(2), 0xF00F);
    assert_eq!(cpu.read_reg(3), 0xF0FF);
    assert_eq!(cpu.read_reg(4), 0x00F0);
}

#[test]
fn signed_and_unsigned_comparisons() {
    let mut cpu = CPU::default();
    cpu.write_reg(1, 0xFFFF_FFFF); // -1 signed, huge unsigned
    cpu.write_reg(2, 1);
    assert_eq!(cpu.interpret(r_instr(0x00, 2, 1, 0x2, 3)), Ok(false)); // slt
    assert_eq!(cpu.read_reg(3), 1); // -1 < 1
    assert_eq!(cpu.interpret(r_instr(0x00, 2, 1, 0x3, 4)), Ok(false)); // sltu
    assert_eq!(cpu.read_reg(4), 0); // 0xFFFFFFFF > 1 unsigned
    assert_eq!(cpu.interpret(i_instr(OP_IMM, 0, 1, 0x2, 5)), Ok(false)); // slti
    assert_eq!(cpu.read_reg(5), 1); // -1 < 0
    assert_eq!(cpu.interpret(i_instr(OP_IMM, 0, 1, 0x3, 6)), Ok(false)); // sltiu
    assert_eq!(cpu.read_reg(6), 0);
}

#[test]
fn shifts_mask_their_amount() {
    let mut cpu = CPU::default();
    cpu.write_reg(1, 1);
    cpu.write_reg(2, 33); // low 5 bits: 1
    assert_eq!(cpu.interpret(r_instr(0x00, 2, 1, 0x1, 3)), Ok(false)); // sll
    assert_eq!(cpu.read_reg(3), 2);
    cpu.write_reg(4, 0x8000_0000);
    assert_eq!(cpu.interpret(r_instr(0x00, 2, 4, 0x5, 5)), Ok(false)); // srl
    assert_eq!(cpu.read_reg(5), 0x4000_0000);
}

#[test]
fn arithmetic_shift_preserves_sign() {
    let mut cpu = CPU::default();
    cpu.write_reg(1, 0x8000_0000);
    cpu.write_reg(2, 4);
    assert_eq!(cpu.interpret(r_instr(0x20, 2, 1, 0x5, 3)), Ok(false)); // sra
    assert_eq!(cpu.read_reg(3), 0xF800_0000);
    // srai x4, x1, 31
    assert_eq!(cpu.interpret(i_instr(OP_IMM, 0x400 | 31, 1, 0x5, 4)), Ok(false));
    assert_eq!(cpu.read_reg(4), 0xFFFF_FFFF);
    // srli x5, x1, 31
    assert_eq!(cpu.interpret(i_instr(OP_IMM, 31, 1, 0x5, 5)), Ok(false));
    assert_eq!(cpu.read_reg(5), 1);
    // slli x6, x2, 3
    assert_eq!(cpu.interpret(i_instr(OP_IMM, 3, 2, 0x1, 6)), Ok(false));
    assert_eq!(cpu.read_reg(6), 32);
}

#[test]
fn beq_taken_and_not_taken() {
    let mut cpu = CPU::default();
    cpu.pc = 100;
    cpu.write_reg(1, 10);
    cpu.write_reg(2, 10);
    // beq x1, x2, 8
    assert_eq!(cpu.interpret(b_instr(8, 2, 1, 0x0)), Ok(true));
    assert_eq!(cpu.pc, 108);
    cpu.pc = 100;
    cpu.write_reg(2, 11);
    assert_eq!(cpu.interpret(b_instr(8, 2, 1, 0x0)), Ok(false));
    assert_eq!(cpu.pc, 100);
}

#[test]
fn branch_comparisons() {
    let mut cpu = CPU::default();
    cpu.pc = 0;
    cpu.write_reg(1, 0xFFFF_FFFF); // -1 signed
    cpu.write_reg(2, 1);
    assert_eq!(cpu.interpret(b_instr(4, 2, 1, 0x1)), Ok(true)); // bne: -1 != 1
    assert_eq!(cpu.pc, 4);
    assert_eq!(cpu.interpret(b_instr(4, 2, 1, 0x4)), Ok(true)); // blt: -1 < 1
    assert_eq!(cpu.pc, 8);
    assert_eq!(cpu.interpret(b_instr(4, 2, 1, 0x5)), Ok(false)); // bge: -1 >= 1 fails
    assert_eq!(cpu.interpret(b_instr(4, 2, 1, 0x6)), Ok(false)); // bltu: huge < 1 fails
    assert_eq!(cpu.interpret(b_instr(4, 2, 1, 0x7)), Ok(true)); // bgeu
    assert_eq!(cpu.pc, 12);
}

#[test]
fn backward_branch() {
    let mut cpu = CPU::default();
    cpu.pc = 100;
    // beq x0, x0, -8
    assert_eq!(cpu.interpret(b_instr(-8, 0, 0, 0x0)), Ok(true));
    assert_eq!(cpu.pc, 92);
}

#[test]
fn jal_links_and_jumps() {
    let mut cpu = CPU::default();
    cpu.pc = 200;
    // jal x1, 16
    assert_eq!(cpu.interpret(j_instr(16, 1)), Ok(true));
    assert_eq!(cpu.read_reg(1), 204);
    assert_eq!(cpu.pc, 216);
}

#[test]
fn jalr_targets_from_pre_update_rs1() {
    let mut cpu = CPU::default();
    cpu.pc = 0;
    cpu.write_reg(1, 100);
    // jalr x1, x1, 12: the target uses the old x1, the link lands in x1
    assert_eq!(cpu.interpret(i_instr(JALR, 12, 1, 0x0, 1)), Ok(true));
    assert_eq!(cpu.pc, 112);
    assert_eq!(cpu.read_reg(1), 4);
}

#[test]
fn lui_writes_positioned_immediate() {
    let mut cpu = CPU::default();
    assert_eq!(cpu.interpret(u_instr(LUI, 0xABCDE, 1)), Ok(false));
    assert_eq!(cpu.read_reg(1), 0xABCD_E000);
}

#[test]
fn auipc_adds_positioned_immediate_to_pc() {
    let mut cpu = CPU::default();
    cpu.pc = 0x100;
    assert_eq!(cpu.interpret(u_instr(AUIPC, 1, 1)), Ok(false));
    assert_eq!(cpu.read_reg(1), 0x1100);
}

#[test]
fn byte_load_sign_and_zero_extend() {
    let mut cpu = CPU::default();
    cpu.mem.store_byte(4, 0xAB).unwrap();
    cpu.write_reg(1, 4);
    // lb x1, 0(x1)
    assert_eq!(cpu.interpret(i_instr(LOAD, 0, 1, 0x0, 1)), Ok(false));
    assert_eq!(cpu.read_reg(1), 0xFFFF_FFAB);
    cpu.write_reg(1, 4);
    // lbu x1, 0(x1)
    assert_eq!(cpu.interpret(i_instr(LOAD, 0, 1, 0x4, 1)), Ok(false));
    assert_eq!(cpu.read_reg(1), 0x0000_00AB);
}

#[test]
fn half_load_sign_and_zero_extend() {
    let mut cpu = CPU::default();
    cpu.mem.store_half(8, 0x8001).unwrap();
    cpu.write_reg(1, 8);
    assert_eq!(cpu.interpret(i_instr(LOAD, 0, 1, 0x1, 2)), Ok(false)); // lh
    assert_eq!(cpu.read_reg(2), 0xFFFF_8001);
    assert_eq!(cpu.interpret(i_instr(LOAD, 0, 1, 0x5, 3)), Ok(false)); // lhu
    assert_eq!(cpu.read_reg(3), 0x0000_8001);
}

#[test]
fn store_then_load_word() {
    let mut cpu = CPU::default();
    cpu.write_reg(1, 64);
    cpu.write_reg(2, 0xDEAD_BEEF);
    // sw x2, 4(x1)
    assert_eq!(cpu.interpret(s_instr(4, 2, 1, 0x2)), Ok(false));
    // lw x3, 4(x1)
    assert_eq!(cpu.interpret(i_instr(LOAD, 4, 1, 0x2, 3)), Ok(false));
    assert_eq!(cpu.read_reg(3), 0xDEAD_BEEF);
}

#[test]
fn store_truncates_to_access_width() {
    let mut cpu = CPU::default();
    cpu.write_reg(1, 32);
    cpu.write_reg(2, 0x1234_56AB);
    assert_eq!(cpu.interpret(s_instr(0, 2, 1, 0x0)), Ok(false)); // sb
    assert_eq!(cpu.interpret(s_instr(4, 2, 1, 0x1)), Ok(false)); // sh
    assert_eq!(cpu.mem.load_byte(32), Ok(0xAB));
    assert_eq!(cpu.mem.load_byte(33), Ok(0));
    assert_eq!(cpu.mem.load_half(36), Ok(0x56AB));
}

#[test]
fn negative_load_offset() {
    let mut cpu = CPU::default();
    cpu.mem.store_word(96, 77).unwrap();
    cpu.write_reg(1, 100);
    // lw x2, -4(x1)
    assert_eq!(cpu.interpret(i_instr(LOAD, -4, 1, 0x2, 2)), Ok(false));
    assert_eq!(cpu.read_reg(2), 77);
}

#[test]
fn store_word_past_capacity_faults() {
    let mut cpu = CPU::default();
    cpu.write_reg(1, 8190);
    cpu.write_reg(2, 0xFFFF_FFFF);
    // sw x2, 0(x1): needs bytes 8190..8193 of an 8192-byte memory
    assert_eq!(cpu.interpret(s_instr(0, 2, 1, 0x2)), Err(Fault::MemoryOutOfBounds));
    // nothing was written, not even the in-range bytes
    assert_eq!(cpu.mem.load_half(8190), Ok(0));
}

#[test]
fn load_past_capacity_faults_and_changes_nothing() {
    let mut cpu = CPU::default();
    cpu.write_reg(1, 8192);
    cpu.write_reg(2, 55);
    cpu.pc = 40;
    assert_eq!(cpu.interpret(i_instr(LOAD, 0, 1, 0x0, 2)), Err(Fault::MemoryOutOfBounds));
    assert_eq!(cpu.read_reg(2), 55);
    assert_eq!(cpu.pc, 40);
}

#[test]
fn writes_to_x0_are_discarded() {
    let mut cpu = CPU::default();
    cpu.write_reg(1, 5);
    cpu.write_reg(2, 3);
    // add x0, x1, x2
    assert_eq!(cpu.interpret(r_instr(0x00, 2, 1, 0x0, 0)), Ok(false));
    assert_eq!(cpu.read_reg(0), 0);
    cpu.write_reg(0, 123);
    assert_eq!(cpu.read_reg(0), 0);
}

#[test]
fn register_write_then_read_returns_value() {
    let mut cpu = CPU::default();
    for r in 1..32u8 {
        cpu.write_reg(r, 0x1000 + r as u32);
    }
    for r in 1..32u8 {
        assert_eq!(cpu.read_reg(r), 0x1000 + r as u32);
    }
}

#[test]
fn unknown_opcode_faults() {
    let mut cpu = CPU::default();
    assert_eq!(cpu.interpret(0), Err(Fault::UnknownOpcode));
    assert_eq!(cpu.interpret(0b0001011), Err(Fault::UnknownOpcode));
}

#[test]
fn unknown_funct_faults() {
    let mut cpu = CPU::default();
    // R-type funct3=0 with an undefined funct7
    assert_eq!(cpu.interpret(r_instr(0x05, 2, 1, 0x0, 3)), Err(Fault::UnknownFunct));
    // branch with funct3=2, which no branch defines
    assert_eq!(cpu.interpret(b_instr(8, 2, 1, 0x2)), Err(Fault::UnknownFunct));
    // load with funct3=3
    assert_eq!(cpu.interpret(i_instr(LOAD, 0, 1, 0x3, 2)), Err(Fault::UnknownFunct));
    // store with funct3=3
    assert_eq!(cpu.interpret(s_instr(0, 2, 1, 0x3)), Err(Fault::UnknownFunct));
    // a shift immediate with undefined upper bits
    assert_eq!(cpu.interpret(i_instr(OP_IMM, 0x100 | 3, 1, 0x1, 2)), Err(Fault::UnknownFunct));
    // jalr with funct3=1
    assert_eq!(cpu.interpret(i_instr(JALR, 0, 1, 0x1, 2)), Err(Fault::UnknownFunct));
}

#[test]
fn multiply_extension_is_unimplemented() {
    let mut cpu = CPU::default();
    // mul x3, x1, x2
    assert_eq!(cpu.interpret(r_instr(0x01, 2, 1, 0x0, 3)), Err(Fault::Unimplemented));
    // divu x3, x1, x2
    assert_eq!(cpu.interpret(r_instr(0x01, 2, 1, 0x5, 3)), Err(Fault::Unimplemented));
}

#[test]
fn system_instructions_are_unimplemented() {
    let mut cpu = CPU::default();
    assert_eq!(cpu.interpret(i_instr(SYSTEM, 0, 0, 0x0, 0)), Err(Fault::Unimplemented)); // ecall
    assert_eq!(cpu.interpret(i_instr(SYSTEM, 1, 0, 0x0, 0)), Err(Fault::Unimplemented)); // ebreak
    assert_eq!(cpu.interpret(i_instr(SYSTEM, 2, 0, 0x0, 0)), Err(Fault::UnknownFunct));
    assert_eq!(cpu.interpret(i_instr(SYSTEM, 0, 0, 0x1, 0)), Err(Fault::UnknownFunct));
}

#[test]
fn compressed_instructions_are_unimplemented() {
    let mut cpu = CPU::default();
    cpu.pc = 12;
    assert_eq!(cpu.interpret_c(0x0001), Err(Fault::Unimplemented));
    assert_eq!(cpu.pc, 12);
}

#[test]
fn fault_leaves_state_unchanged() {
    let mut cpu = CPU::default();
    cpu.pc = 24;
    cpu.write_reg(7, 99);
    assert_eq!(cpu.interpret(r_instr(0x1F, 2, 1, 0x0, 7)), Err(Fault::UnknownFunct));
    assert_eq!(cpu.pc, 24);
    assert_eq!(cpu.read_reg(7), 99);
}
