use mips_sim::effects::CpuError;
use mips_sim::instructions::i_instructions::ITypeInstruction;
use mips_sim::CPU;

#[test]
fn test_addi() {
    let mut cpu = CPU::new();
    let instruction = ITypeInstruction::build(0b001000, 2, 3, 20);

    let value: u32 = 0b1111_1111_1111_1111_1111_1111_1111_0110; // -10
    cpu.registers[instruction.rs as usize].write(value);
    instruction.execute(&mut cpu).unwrap();
    assert_eq!(cpu.registers[instruction.rt as usize].read(), 10);
}

#[test]
fn test_addiu() {
    let mut cpu = CPU::new();
    let instruction = ITypeInstruction::build(0b001001, 2, 3, 1);

    let value: u32 = 0b1111_1111_1111_1111_1111_1111_1111_0110; // 4294967286
    cpu.registers[instruction.rs as usize].write(value);
    instruction.execute(&mut cpu).unwrap();
    assert_eq!(cpu.registers[instruction.rt as usize].read(), 4294967287);
}

#[test]
fn test_andi() {
    let mut cpu = CPU::new();
    let instruction = ITypeInstruction::build(0b001100, 2, 3, 0b1100);

    let value: u32 = 0b0110;
    cpu.registers[instruction.rs as usize].write(value);
    instruction.execute(&mut cpu).unwrap();
    assert_eq!(cpu.registers[instruction.rt as usize].read(), 0b0100);
}

#[test]
fn test_ori() {
    let mut cpu = CPU::new();
    let instruction = ITypeInstruction::build(0b001101, 2, 3, 0b1100);

    let value: u32 = 0b0110;
    cpu.registers[instruction.rs as usize].write(value);
    instruction.execute(&mut cpu).unwrap();
    assert_eq!(cpu.registers[instruction.rt as usize].read(), 0b1110);
}

#[test]
fn test_beq() {
    let mut cpu = CPU::new();
    cpu.pc = 8;

    let instruction = ITypeInstruction::build(0b000100, 2, 3, 2);

    let value: u32 = 0b0110;
    cpu.registers[instruction.rs as usize].write(value);
    cpu.write_register(instruction.rt as usize, value);
    instruction.execute(&mut cpu).unwrap();
    assert_eq!(cpu.pc, 16);
}

#[test]
fn test_bne() {
    let mut cpu = CPU::new();
    cpu.pc = 8;

    let instruction = ITypeInstruction::build(0b000101, 2, 3, 2);

    let value: u32 = 0b0110;
    cpu.registers[instruction.rs as usize].write(value);
    cpu.write_register(instruction.rt as usize, value + 1);
    instruction.execute(&mut cpu).unwrap();
    assert_eq!(cpu.pc, 16);
}

#[test]
fn test_bgez() {
    let mut cpu = CPU::new();
    cpu.pc = 8;

    let instruction = ITypeInstruction::build(0b000001, 2, 3, 2);

    cpu.registers[instruction.rs as usize].write(3 as u32);
    cpu.write_register(instruction.rt as usize, 2 as u32);
    instruction.execute(&mut cpu).unwrap();
    assert_eq!(cpu.pc, 16);
}

#[test]
fn test_bgez_false() {
    let mut cpu = CPU::new();
    cpu.pc = 8;

    let instruction = ITypeInstruction::build(0b000001, 2, 3, 2);

    // -10: a negative source value keeps the branch untaken
    cpu.registers[instruction.rs as usize]
        .write(0b1111_1111_1111_1111_1111_1111_1111_0110 as u32);
    cpu.write_register(instruction.rt as usize, 2 as u32);
    instruction.execute(&mut cpu).unwrap();
    assert_eq!(cpu.pc, 8);
}

#[test]
fn test_blez() {
    let mut cpu = CPU::new();
    cpu.pc = 8;

    let instruction = ITypeInstruction::build(0b000110, 2, 3, 2);

    cpu.registers[instruction.rs as usize].write(0 as u32);
    cpu.write_register(instruction.rt as usize, 2 as u32);
    instruction.execute(&mut cpu).unwrap();
    assert_eq!(cpu.pc, 16);
}

#[test]
fn test_blez_false() {
    let mut cpu = CPU::new();
    cpu.pc = 8;

    let instruction = ITypeInstruction::build(0b000110, 2, 3, 2);

    cpu.registers[instruction.rs as usize].write(3 as u32);
    cpu.write_register(instruction.rt as usize, 2 as u32);
    instruction.execute(&mut cpu).unwrap();
    assert_eq!(cpu.pc, 8);
}

#[test]
fn test_lb() {
    let mut cpu = CPU::new();
    let instruction = ITypeInstruction::build(0b100000, 2, 3, 2);

    let value: u32 = "d".as_bytes()[0] as u32;
    cpu.registers[instruction.rs as usize].write(0);
    // bytes pack least-significant first: byte address 2 is the third
    // byte lane of the word holding it
    cpu.memory.write(2, (value as u32) << 16);
    instruction.execute(&mut cpu).unwrap();
    assert_eq!(cpu.registers[instruction.rt as usize].read(), value);
}

#[test]
fn test_lb_each_offset() {
    let mut cpu = CPU::new();
    cpu.memory.write(8, 0x0403_0201);
    for offset in 0..4 {
        let load = ITypeInstruction::build(0b100000, 0, 3, 8 + offset);
        load.execute(&mut cpu).unwrap();
        assert_eq!(cpu.registers[3].read(), (offset + 1) as u32);
    }
}

#[test]
fn test_slti_signed() {
    let mut cpu = CPU::new();
    let instruction = ITypeInstruction::build(0b001010, 2, 3, 20);
    cpu.registers[instruction.rs as usize].write(10);
    instruction.execute(&mut cpu).unwrap();
    assert_eq!(cpu.registers[instruction.rt as usize].read(), 1);

    let instruction = ITypeInstruction::build(0b001010, 2, 3, 5);
    // -10 compares below 5 as a signed value
    cpu.registers[instruction.rs as usize]
        .write(0b1111_1111_1111_1111_1111_1111_1111_0110 as u32);
    instruction.execute(&mut cpu).unwrap();
    assert_eq!(cpu.registers[instruction.rt as usize].read(), 1);

    let instruction = ITypeInstruction::build(0b001010, 2, 3, 10);
    cpu.registers[instruction.rs as usize].write(20);
    instruction.execute(&mut cpu).unwrap();
    assert_eq!(cpu.registers[instruction.rt as usize].read(), 0);
}

#[test]
fn test_lui() {
    let mut cpu = CPU::new();
    let instruction = ITypeInstruction::build(0b001111, 0, 3, 0x1234);
    instruction.execute(&mut cpu).unwrap();
    assert_eq!(cpu.registers[3].read(), 0x1234_0000);
}

#[test]
fn test_lw_and_sw() {
    let mut cpu = CPU::new();
    cpu.registers[2].write(0x0040_0000);
    cpu.registers[3].write(0xDEAD_BEEF);
    let store = ITypeInstruction::build(0b101011, 2, 3, 8);
    store.execute(&mut cpu).unwrap();
    assert_eq!(cpu.memory.read(0x0040_0008), 0xDEAD_BEEF);

    let load = ITypeInstruction::build(0b100011, 2, 4, 8);
    load.execute(&mut cpu).unwrap();
    assert_eq!(cpu.registers[4].read(), 0xDEAD_BEEF);
}

#[test]
fn test_lh_sign_extends() {
    let mut cpu = CPU::new();
    cpu.memory.write(8, 0x8000);
    let load = ITypeInstruction::build(0b100001, 0, 3, 8);
    load.execute(&mut cpu).unwrap();
    assert_eq!(cpu.registers[3].read(), 0xFFFF_8000);
}

#[test]
fn test_lh_at_offset_crosses_words() {
    let mut cpu = CPU::new();
    // byte address 15 holds 0xAB; byte address 16, in the next word,
    // holds 0xCD
    cpu.memory.write(12, 0xAB00_0000);
    cpu.memory.write(16, 0x0000_00CD);
    let load = ITypeInstruction::build(0b100001, 0, 3, 15);
    load.execute(&mut cpu).unwrap();
    assert_eq!(cpu.registers[3].read(), 0xFFFF_CDAB);
}

#[test]
fn test_lhu_second_byte_out_of_bounds() {
    let mut cpu = CPU::new();
    cpu.registers[2].write(0x7FFF_FFFF);
    let load = ITypeInstruction::build(0b100101, 2, 3, 0);
    let err = load.execute(&mut cpu).unwrap_err();
    assert_eq!(err, CpuError::OutOfBounds(0x8000_0000));
}

#[test]
fn test_lhu_zero_extends() {
    let mut cpu = CPU::new();
    cpu.memory.write(8, 0xABCD_8000);
    let load = ITypeInstruction::build(0b100101, 0, 3, 8);
    load.execute(&mut cpu).unwrap();
    assert_eq!(cpu.registers[3].read(), 0x8000);
}

#[test]
fn test_load_out_of_bounds() {
    let mut cpu = CPU::new();
    cpu.registers[2].write(0xFFFF_0000);
    let load = ITypeInstruction::build(0b100011, 2, 3, 0);
    let err = load.execute(&mut cpu).unwrap_err();
    assert_eq!(err, CpuError::OutOfBounds(0xFFFF_0000));
}

#[test]
fn test_unknown_opcode_is_illegal() {
    let mut cpu = CPU::new();
    let instruction = ITypeInstruction::build(0b111110, 2, 3, 0);
    let err = instruction.execute(&mut cpu).unwrap_err();
    assert_eq!(err, CpuError::Illegal(0b111110));
}
