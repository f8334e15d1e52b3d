use mips_sim::cpu::{DATA_BASE, GLOBAL_POINTER, STACK_POINTER, TEXT_BASE};
use mips_sim::effects::{CpuError, Effect};
use mips_sim::instructions::get_instruction;
use mips_sim::instructions::r_instructions::RTypeInstruction;
use mips_sim::CPU;

#[test]
fn test_cpu_new_preinitialized() {
    let cpu = CPU::new();
    assert_eq!(cpu.read_register(28), GLOBAL_POINTER);
    assert_eq!(cpu.read_register(29), STACK_POINTER);
    assert_eq!(cpu.read_register(1), 0);
    assert_eq!(cpu.pc, 0);
}

#[test]
fn test_register_zero_is_immutable() {
    let mut cpu = CPU::new();
    cpu.write_register(0, 12345);
    assert_eq!(cpu.read_register(0), 0);
    cpu.write_register(0, 0xFFFF_FFFF);
    assert_eq!(cpu.read_register(0), 0);
}

#[test]
fn test_load_text_and_data() {
    let mut cpu = CPU::new();
    cpu.memory.load_text(vec![1, 2, 3]);
    cpu.memory.load_data(vec![7, 8]);
    assert_eq!(cpu.memory.read(TEXT_BASE), 1);
    assert_eq!(cpu.memory.read(TEXT_BASE + 4), 2);
    assert_eq!(cpu.memory.read(TEXT_BASE + 8), 3);
    assert_eq!(cpu.memory.read(DATA_BASE), 7);
    assert_eq!(cpu.memory.read(DATA_BASE + 4), 8);
}

#[test]
fn test_register_format_round_trip() {
    // ADD r4, r2, r3
    let word: u32 = (2 << 21) | (3 << 16) | (4 << 11) | 0x20;
    let decoded = RTypeInstruction::new(word);
    assert_eq!(decoded.opcode, 0);
    assert_eq!(decoded.rs, 2);
    assert_eq!(decoded.rt, 3);
    assert_eq!(decoded.rd, 4);
    assert_eq!(decoded.shamt, 0);
    assert_eq!(decoded.funct, 0x20);
    let reassembled: u32 = ((decoded.opcode as u32) << 26)
        | ((decoded.rs as u32) << 21)
        | ((decoded.rt as u32) << 16)
        | ((decoded.rd as u32) << 11)
        | ((decoded.shamt as u32) << 6)
        | (decoded.funct as u32);
    assert_eq!(reassembled, word);
}

#[test]
fn test_step_skips_zero_word() {
    let mut cpu = CPU::new();
    cpu.pc = TEXT_BASE;
    let effect = cpu.step(None).unwrap();
    assert!(matches!(effect, Effect::Skip));
    assert_eq!(cpu.pc, TEXT_BASE + 4);
}

#[test]
fn test_step_fetch_out_of_bounds() {
    let mut cpu = CPU::new();
    cpu.pc = 0x9000_0000;
    let err = cpu.step(None).unwrap_err();
    assert_eq!(err, CpuError::OutOfBounds(0x9000_0000));
}

#[test]
fn test_branch_delay_slot_runs_once() {
    let mut cpu = CPU::new();
    cpu.memory.load_text(vec![
        0x10220002, // BEQ r1, r2, +2
        0x20630001, // ADDI r3, r3, 1   (delay slot: always runs)
        0x20630063, // ADDI r3, r3, 99  (skipped by the taken branch)
        0x2002000A, // ADDI r2, r0, 10
        0x0000000C, // SYSCALL: exit
    ]);
    cpu.pc = TEXT_BASE;
    let mut exited = false;
    for _ in 0..10 {
        match cpu.step(None).unwrap() {
            Effect::Exit => {
                exited = true;
                break;
            }
            _ => {}
        }
    }
    assert!(exited);
    assert_eq!(cpu.registers[3].read(), 1);
}

#[test]
fn test_end_to_end_prints_sum_and_exits() {
    let mut cpu = CPU::new();
    cpu.memory.load_text(vec![
        0x20020005, // ADDI r2, r0, 5
        0x20030007, // ADDI r3, r0, 7
        0x00432020, // ADD  r4, r2, r3
        0x20020001, // ADDI r2, r0, 1
        0x0000000C, // SYSCALL: print integer in r4
        0x2002000A, // ADDI r2, r0, 10
        0x0000000C, // SYSCALL: exit
    ]);
    cpu.pc = TEXT_BASE;
    let mut printed: Vec<u32> = Vec::new();
    let mut exited = false;
    for _ in 0..20 {
        match cpu.step(None).unwrap() {
            Effect::PrintInt(v) => printed.push(v),
            Effect::Exit => {
                exited = true;
                break;
            }
            _ => {}
        }
    }
    assert_eq!(printed, vec![12]);
    assert!(exited);
}

#[test]
fn test_step_reads_console_integer() {
    let mut cpu = CPU::new();
    cpu.memory.load_text(vec![
        0x20020005, // ADDI r2, r0, 5
        0x0000000C, // SYSCALL: read integer into r2
    ]);
    cpu.pc = TEXT_BASE;
    cpu.step(None).unwrap();
    let effect = cpu.step(None).unwrap();
    assert!(matches!(effect, Effect::NeedInput));
    assert_eq!(cpu.pc, TEXT_BASE + 4);
    let effect = cpu.step(Some(42)).unwrap();
    assert!(matches!(effect, Effect::Nothing));
    assert_eq!(cpu.registers[2].read(), 42);
    assert_eq!(cpu.pc, TEXT_BASE + 8);
}

#[test]
fn test_syscall_print_string_effect() {
    let mut cpu = CPU::new();
    // "Hi\0" packed least-significant byte first
    let word = (b'H' as u32) | (b'i' as u32) << 8;
    cpu.memory.write(DATA_BASE, word);
    cpu.memory.load_text(vec![
        0x0000000C, // SYSCALL: print string at r4
    ]);
    cpu.pc = TEXT_BASE;
    cpu.write_register(2, 4);
    cpu.write_register(4, DATA_BASE);
    match cpu.step(None).unwrap() {
        Effect::PrintStr(s) => assert_eq!(s, "Hi"),
        other => panic!("expected a print-string effect, got {:?}", other),
    }
}

#[test]
fn test_decoder_selects_format() {
    let add = get_instruction(0x00432020);
    assert!(matches!(
        add,
        mips_sim::instructions::Instruction::RType(_)
    ));
    let jump = get_instruction(0x08000001);
    assert!(matches!(
        jump,
        mips_sim::instructions::Instruction::JType(_)
    ));
    let addi = get_instruction(0x20020005);
    assert!(matches!(
        addi,
        mips_sim::instructions::Instruction::IType(_)
    ));
}

#[test]
fn test_sub_wraps_around() {
    let mut cpu = CPU::new();
    let instruction = RTypeInstruction::build(0, 1, 2, 3, 0, 0x22);
    cpu.registers[2].write(0);
    cpu.registers[3].write(1);
    instruction.execute(&mut cpu).unwrap();
    assert_eq!(cpu.registers[1].read(), 0xFFFF_FFFF);
}
