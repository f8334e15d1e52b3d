use mips_sim::effects::Effect;
use mips_sim::instructions::r_instructions::{get_text, RTypeInstruction};
use mips_sim::CPU;

#[test]
fn test_add() {
    let mut cpu = CPU::new();
    let instruction = RTypeInstruction::build(0, 1, 2, 3, 0, 0x20);

    let value: u32 = 0b1111_1111_1111_1111_1111_1111_1111_0110; // -10
    cpu.registers[instruction.rs as usize].write(value);
    cpu.registers[instruction.rt as usize].write(20);
    instruction.execute(&mut cpu).unwrap();
    assert_eq!(cpu.registers[instruction.rd as usize].read(), 10);
}

#[test]
fn test_sub() {
    let mut cpu = CPU::new();
    let instruction = RTypeInstruction::build(0, 1, 2, 3, 0, 0x22);
    cpu.registers[instruction.rs as usize].write(20);
    cpu.registers[instruction.rt as usize].write(10);
    instruction.execute(&mut cpu).unwrap();
    assert_eq!(cpu.registers[instruction.rd as usize].read(), 10);
}

#[test]
fn test_and() {
    let mut cpu = CPU::new();
    let instruction = RTypeInstruction::build(0, 1, 2, 3, 0, 0x24);
    cpu.registers[instruction.rs as usize].write(0b1010);
    cpu.registers[instruction.rt as usize].write(0b1100);
    instruction.execute(&mut cpu).unwrap();
    assert_eq!(cpu.registers[instruction.rd as usize].read(), 0b1000);
}

#[test]
fn test_or() {
    let mut cpu = CPU::new();
    let instruction = RTypeInstruction::build(0, 1, 2, 3, 0, 0x25);
    cpu.registers[instruction.rs as usize].write(0b1010);
    cpu.registers[instruction.rt as usize].write(0b1100);
    instruction.execute(&mut cpu).unwrap();
    assert_eq!(cpu.registers[instruction.rd as usize].read(), 0b1110);
}

#[test]
fn test_xor() {
    let mut cpu = CPU::new();
    let instruction = RTypeInstruction::build(0, 1, 2, 3, 0, 0x26);
    cpu.registers[instruction.rs as usize].write(0b1010);
    cpu.registers[instruction.rt as usize].write(0b1100);
    instruction.execute(&mut cpu).unwrap();
    assert_eq!(cpu.registers[instruction.rd as usize].read(), 0b0110);
}

#[test]
fn test_nor() {
    let mut cpu = CPU::new();
    let instruction = RTypeInstruction::build(0, 1, 2, 3, 0, 0x27);
    cpu.registers[instruction.rs as usize].write(0b00000);
    cpu.registers[instruction.rt as usize].write(0b00001);
    instruction.execute(&mut cpu).unwrap();
    assert_eq!(
        cpu.registers[instruction.rd as usize].read(),
        0b11111111111111111111111111111110
    );
}

#[test]
fn test_slt() {
    let mut cpu = CPU::new();
    let instruction = RTypeInstruction::build(0, 1, 2, 3, 0, 0x2A);
    cpu.registers[instruction.rs as usize].write(10);
    cpu.registers[instruction.rt as usize].write(20);
    instruction.execute(&mut cpu).unwrap();
    assert_eq!(cpu.registers[instruction.rd as usize].read(), 1);
}

#[test]
fn test_slt_false() {
    let mut cpu = CPU::new();
    let instruction = RTypeInstruction::build(0, 1, 2, 3, 0, 0x2A);
    cpu.registers[instruction.rs as usize].write(20);
    cpu.registers[instruction.rt as usize].write(10);
    instruction.execute(&mut cpu).unwrap();
    assert_eq!(cpu.registers[instruction.rd as usize].read(), 0);
}

#[test]
fn test_sll() {
    let mut cpu = CPU::new();
    let instruction = RTypeInstruction::build(0, 1, 2, 3, 2, 0x00);
    cpu.registers[instruction.rt as usize].write(0b1111);
    instruction.execute(&mut cpu).unwrap();
    assert_eq!(cpu.registers[instruction.rd as usize].read(), 0b111100);
}

#[test]
fn test_srl() {
    let mut cpu = CPU::new();
    let instruction = RTypeInstruction::build(0, 1, 2, 3, 2, 0x02);
    cpu.registers[instruction.rt as usize].write(0b1111);
    instruction.execute(&mut cpu).unwrap();
    assert_eq!(cpu.registers[instruction.rd as usize].read(), 0b11);
}

#[test]
fn test_sra() {
    let mut cpu = CPU::new();
    let instruction = RTypeInstruction::build(0, 1, 2, 3, 2, 0x03);
    let value: u32 = 0b1111_1111_1111_1111_1111_1111_1111_0110; // -10
    cpu.registers[instruction.rt as usize].write(value);
    instruction.execute(&mut cpu).unwrap();
    assert_eq!(
        cpu.registers[instruction.rd as usize].read(),
        0b1111_1111_1111_1111_1111_1111_1111_1101
    );
}

#[test]
fn test_jr() {
    let mut cpu = CPU::new();
    let instruction = RTypeInstruction::build(0, 0, 1, 2, 0, 0x08);
    cpu.registers[instruction.rs as usize].write(0x100);
    instruction.execute(&mut cpu).unwrap();
    assert_eq!(cpu.pc, 0x100);
}

#[test]
fn test_syscall_v0_is_1() {
    let mut cpu = CPU::new();
    let instruction = RTypeInstruction::new(0x0c);
    let v0 = 2;
    let a0 = 4;
    cpu.registers[v0].write(1);
    cpu.registers[a0].write(10);
    instruction.execute(&mut cpu).unwrap();
}

#[test]
fn test_syscall_v0_is_4() {
    let mut cpu = CPU::new();
    let instruction = RTypeInstruction::new(0x0c);
    let v0 = 2;
    let a0 = 4;

    let data_address = 0x00400000;
    cpu.registers[v0].write(4);
    cpu.registers[a0].write(data_address);

    let text = "Hello\0\0\0\0".as_bytes();

    let mut word: u32 = 0;
    let mut store_address = 0x00400000;
    for (i, &byte) in text.iter().enumerate() {
        word = word | (byte as u32) << (i % 4) * 8;
        if (i + 1) % 4 == 0 {
            cpu.memory.write(store_address, word);
            store_address += 4;
            word = 0;
        }
    }
    instruction.execute(&mut cpu).unwrap();

    assert_eq!(get_text(&cpu, data_address).unwrap(), "Hello");
}

#[test]
fn test_jalr() {
    let mut cpu = CPU::new();
    let instruction = RTypeInstruction::build(0, 5, 1, 0, 0, 0x09);
    cpu.pc = 0x0040_0000;
    cpu.registers[1].write(0x0040_0100);
    instruction.execute(&mut cpu).unwrap();
    assert_eq!(cpu.pc, 0x0040_0100);
    assert_eq!(cpu.registers[5].read(), 0x0040_0008);
}

#[test]
fn test_unknown_funct_is_illegal() {
    let mut cpu = CPU::new();
    let instruction = RTypeInstruction::build(0, 1, 2, 3, 0, 0x3F);
    let err = instruction.execute(&mut cpu).unwrap_err();
    assert_eq!(err, mips_sim::effects::CpuError::Illegal(0x3F));
}

#[test]
fn test_branch_in_delay_slot_is_refused() {
    let mut cpu = CPU::new();
    cpu.pc = 0x0040_0000;
    // a branch word in the delay slot of a jump
    cpu.memory.write(0x0040_0004, 0x10220002);
    cpu.registers[1].write(0x0040_0100);
    let instruction = RTypeInstruction::build(0, 0, 1, 0, 0, 0x08);
    let err = instruction.execute(&mut cpu).unwrap_err();
    assert_eq!(err, mips_sim::effects::CpuError::DelaySlotControl);
    assert_eq!(cpu.pc, 0x0040_0000);
}

#[test]
fn test_syscall_read_int() {
    let mut cpu = CPU::new();
    let instruction = RTypeInstruction::new(0x0c);
    cpu.registers[2].write(5);
    let effect = instruction.execute(&mut cpu).unwrap();
    assert!(matches!(effect, Effect::NeedInput));
    assert_eq!(cpu.registers[2].read(), 5);
    let effect = instruction.execute_with_input(&mut cpu, Some(42)).unwrap();
    assert!(matches!(effect, Effect::Nothing));
    assert_eq!(cpu.registers[2].read(), 42);
}

#[test]
fn test_syscall_print_char() {
    let mut cpu = CPU::new();
    let instruction = RTypeInstruction::new(0x0c);
    cpu.registers[2].write(11);
    cpu.registers[4].write(0x48);
    let effect = instruction.execute(&mut cpu).unwrap();
    assert!(matches!(effect, Effect::PrintChar(0x48)));
}

#[test]
fn test_syscall_unknown_selector_is_noop() {
    let mut cpu = CPU::new();
    let instruction = RTypeInstruction::new(0x0c);
    cpu.registers[2].write(77);
    let effect = instruction.execute(&mut cpu).unwrap();
    assert!(matches!(effect, Effect::Nothing));
}

#[test]
fn test_get_text_unaligned() {
    let mut cpu = CPU::new();
    // "AB" in the top two byte lanes of one word, zero terminator in the
    // next word
    let word = (b'A' as u32) << 16 | (b'B' as u32) << 24;
    cpu.memory.write(0x0040_0000, word);
    assert_eq!(get_text(&cpu, 0x0040_0002).unwrap(), "AB");
}

#[test]
fn test_get_text_out_of_bounds() {
    let cpu = CPU::new();
    let err = get_text(&cpu, 0x9000_0000).unwrap_err();
    assert_eq!(err, mips_sim::effects::CpuError::OutOfBounds(0x9000_0000));
}
