use chippers::cpu::CPU;
use chippers::decode::{decode, fields, opcode_word, Instruction};
use chippers::machine::{Fault, StepEvent};

const NO_KEYS: [bool; 16] = [false; 16];

fn with_program(words: &[u16]) -> CPU {
    let mut cpu = CPU::new();
    let mut bytes = Vec::new();
    for w in words {
        bytes.push((w >> 8) as u8);
        bytes.push((w & 0xFF) as u8);
    }
    cpu.load_rom(&bytes).unwrap();
    cpu
}

#[test]
fn decoder_fields() {
    let f = fields(0x1ABC);
    assert_eq!(f.addr12, 0xABC);
    assert_eq!(f.family, 0x1);
    let f = fields(0x8127);
    assert_eq!(f.x, 1);
    assert_eq!(f.y, 2);
    assert_eq!(f.nibble4, 7);
    assert_eq!(f.immediate8, 0x27);
    assert_eq!(f.family, 8);
    assert_eq!(decode(0x1ABC), Instruction::Jump { addr: 0xABC });
    assert_eq!(decode(0x8127), Instruction::SubReverse { x: 1, y: 2 });
    assert_eq!(opcode_word(0x12, 0x34), 0x1234);
}

#[test]
fn decoder_families() {
    assert_eq!(decode(0x00E0), Instruction::Clear);
    assert_eq!(decode(0x00EE), Instruction::Return);
    assert_eq!(decode(0x2345), Instruction::Call { addr: 0x345 });
    assert_eq!(decode(0x3A42), Instruction::SkipEqImm { x: 0xA, kk: 0x42 });
    assert_eq!(decode(0x5AB0), Instruction::SkipEqReg { x: 0xA, y: 0xB });
    assert_eq!(decode(0x5AB1), Instruction::Unknown { word: 0x5AB1 });
    assert_eq!(decode(0x8ABE), Instruction::ShiftLeft { x: 0xA });
    assert_eq!(decode(0x8AB8), Instruction::Unknown { word: 0x8AB8 });
    assert_eq!(decode(0xA123), Instruction::LoadAddr { addr: 0x123 });
    assert_eq!(decode(0xD125), Instruction::Draw { x: 1, y: 2, n: 5 });
    assert_eq!(decode(0xE39E), Instruction::SkipKey { x: 3 });
    assert_eq!(decode(0xE3A1), Instruction::SkipNoKey { x: 3 });
    assert_eq!(decode(0xF429), Instruction::FontAddr { x: 4 });
    assert_eq!(decode(0xF465), Instruction::LoadRegs { x: 4 });
    assert_eq!(decode(0xF499), Instruction::Unknown { word: 0xF499 });
    assert_eq!(decode(0x0123), Instruction::Unknown { word: 0x0123 });
}

#[test]
fn add_immediate_wraps_without_flag() {
    let mut cpu = CPU::new();
    cpu.V[0] = 0xFF;
    cpu.V[15] = 0x55;
    cpu.ADD(0, 0x02);
    assert_eq!(cpu.V[0], 0x01);
    assert_eq!(cpu.V[15], 0x55);
    assert_eq!(cpu.PC, 0x202);

    let mut cpu = with_program(&[0x7002]);
    cpu.V[0] = 0xFF;
    cpu.V[15] = 0x55;
    assert_eq!(cpu.evaluate_opcode(&NO_KEYS, 0), Ok(StepEvent::Executed));
    assert_eq!(cpu.V[0], 0x01);
    assert_eq!(cpu.V[15], 0x55);
}

#[test]
fn add_with_carry_sets_flag() {
    let mut cpu = CPU::new();
    cpu.V[0] = 0xFF;
    cpu.ADC(0, 0x01);
    assert_eq!(cpu.V[0], 0x00);
    assert_eq!(cpu.V[15], 1);
    cpu.V[0] = 0x01;
    cpu.ADC(0, 0x01);
    assert_eq!(cpu.V[0], 0x02);
    assert_eq!(cpu.V[15], 0);

    let mut cpu = with_program(&[0x8014]);
    cpu.V[0] = 0xFF;
    cpu.V[1] = 0x01;
    assert_eq!(cpu.evaluate_opcode(&NO_KEYS, 0), Ok(StepEvent::Executed));
    assert_eq!(cpu.V[0], 0x00);
    assert_eq!(cpu.V[15], 1);
}

#[test]
fn subtract_borrow_convention() {
    let mut cpu = CPU::new();
    cpu.V[0] = 5;
    cpu.SUB(0, 3);
    assert_eq!(cpu.V[0], 2);
    assert_eq!(cpu.V[15], 1);
    cpu.V[0] = 3;
    cpu.SUB(0, 5);
    assert_eq!(cpu.V[0], 0xFE);
    assert_eq!(cpu.V[15], 0);

    let mut cpu = with_program(&[0x8017]);
    cpu.V[0] = 3;
    cpu.V[1] = 5;
    assert_eq!(cpu.evaluate_opcode(&NO_KEYS, 0), Ok(StepEvent::Executed));
    assert_eq!(cpu.V[0], 2);
    assert_eq!(cpu.V[15], 1);
}

#[test]
fn flag_register_as_destination_keeps_flag() {
    let mut cpu = CPU::new();
    cpu.V[15] = 0xFF;
    cpu.ADC(15, 0x01);
    assert_eq!(cpu.V[15], 1);
}

#[test]
fn shifts_and_bitwise() {
    let mut cpu = CPU::new();
    cpu.V[1] = 0x05;
    cpu.SHR(1);
    assert_eq!(cpu.V[1], 0x02);
    assert_eq!(cpu.V[15], 1);
    cpu.V[1] = 0x81;
    cpu.SHL(1);
    assert_eq!(cpu.V[1], 0x02);
    assert_eq!(cpu.V[15], 1);
    cpu.V[1] = 0x40;
    cpu.SHL(1);
    assert_eq!(cpu.V[1], 0x80);
    assert_eq!(cpu.V[15], 0);
    cpu.V[2] = 0b1100;
    cpu.OR(2, 0b0011);
    assert_eq!(cpu.V[2], 0b1111);
    cpu.AND(2, 0b0110);
    assert_eq!(cpu.V[2], 0b0110);
    cpu.XOR(2, 0b0101);
    assert_eq!(cpu.V[2], 0b0011);
    cpu.LD(2, 0x77);
    assert_eq!(cpu.V[2], 0x77);
}

#[test]
fn random_is_masked() {
    let mut cpu = with_program(&[0xC30F]);
    assert_eq!(cpu.evaluate_opcode(&NO_KEYS, 0xAB), Ok(StepEvent::Executed));
    assert_eq!(cpu.V[3], 0x0B);
}

#[test]
fn skips() {
    let mut cpu = CPU::new();
    cpu.SE(3, 3);
    assert_eq!(cpu.PC, 0x204);
    cpu.SE(3, 4);
    assert_eq!(cpu.PC, 0x206);
    cpu.SNE(3, 4);
    assert_eq!(cpu.PC, 0x20A);
    cpu.SNE(3, 3);
    assert_eq!(cpu.PC, 0x20C);

    let mut keys = [false; 16];
    keys[5] = true;
    let mut cpu = CPU::new();
    cpu.V[0] = 5;
    cpu.SKP(0, &keys);
    assert_eq!(cpu.PC, 0x204);
    cpu.SKNP(0, &keys);
    assert_eq!(cpu.PC, 0x206);
    cpu.V[0] = 200;
    cpu.SKP(0, &keys);
    assert_eq!(cpu.PC, 0x208);
}

#[test]
fn jump_and_timers_registers() {
    let mut cpu = with_program(&[0x6A2A, 0xFA15, 0xFA18, 0xFB07, 0x1ABC]);
    for _ in 0..5 {
        assert_eq!(cpu.evaluate_opcode(&NO_KEYS, 0), Ok(StepEvent::Executed));
    }
    assert_eq!(cpu.DT, 0x2A);
    assert_eq!(cpu.ST, 0x2A);
    assert_eq!(cpu.V[0xB], 0x2A);
    assert_eq!(cpu.PC, 0xABC);
    assert!(cpu.sound_active());
}

#[test]
fn address_register_arithmetic() {
    let mut cpu = with_program(&[0xAFFF, 0xF01E]);
    cpu.V[0] = 2;
    cpu.evaluate_opcode(&NO_KEYS, 0).unwrap();
    assert_eq!(cpu.I, 0xFFF);
    cpu.evaluate_opcode(&NO_KEYS, 0).unwrap();
    assert_eq!(cpu.I, 0x001);
}

#[test]
fn timer_decay_at_sixty_hertz() {
    let mut cpu = CPU::new();
    cpu.DT = 120;
    cpu.ST = 3;
    for _ in 0..60 {
        cpu.tick();
    }
    assert_eq!(cpu.DT, 60);
    assert_eq!(cpu.ST, 0);
    assert!(!cpu.sound_active());
    for _ in 0..120 {
        cpu.tick();
    }
    assert_eq!(cpu.DT, 0);
}

#[test]
fn call_and_return_at_every_depth() {
    let mut cpu = CPU::new();
    let mut callers = Vec::new();
    for depth in 1..=16u16 {
        let here = cpu.PC;
        callers.push(here);
        let target = 0x200 + depth * 0x80;
        assert_eq!(cpu.CALL(target), Ok(()));
        assert_eq!(cpu.PC, target);
        assert_eq!(cpu.stack.depth(), depth as usize);
    }
    let pc = cpu.PC;
    assert_eq!(cpu.CALL(0x300), Err(Fault::StackOverflow));
    assert_eq!(cpu.PC, pc);
    assert_eq!(cpu.stack.depth(), 16);
    while let Some(caller) = callers.pop() {
        assert_eq!(cpu.RET(), Ok(()));
        assert_eq!(cpu.PC, caller + 2);
    }
    assert_eq!(cpu.RET(), Err(Fault::StackUnderflow));
    assert_eq!(cpu.PC, 0x202);
}

#[test]
fn call_and_return_through_steps() {
    let mut cpu = CPU::new();
    cpu.write_memory(0x200, 0x23);
    cpu.write_memory(0x201, 0x00);
    cpu.write_memory(0x300, 0x00);
    cpu.write_memory(0x301, 0xEE);
    assert_eq!(cpu.evaluate_opcode(&NO_KEYS, 0), Ok(StepEvent::Executed));
    assert_eq!(cpu.PC, 0x300);
    assert_eq!(cpu.evaluate_opcode(&NO_KEYS, 0), Ok(StepEvent::Executed));
    assert_eq!(cpu.PC, 0x202);
    assert_eq!(cpu.stack.depth(), 0);
}

#[test]
fn return_on_empty_stack_faults() {
    let mut cpu = with_program(&[0x00EE]);
    assert_eq!(cpu.evaluate_opcode(&NO_KEYS, 0), Err(Fault::StackUnderflow));
    assert_eq!(cpu.PC, 0x200);
}

#[test]
fn unknown_opcode_is_reported_and_skipped() {
    let mut cpu = with_program(&[0x0123, 0xF0FF]);
    assert_eq!(cpu.evaluate_opcode(&NO_KEYS, 0), Ok(StepEvent::UnknownOpcode { word: 0x0123 }));
    assert_eq!(cpu.PC, 0x202);
    assert_eq!(cpu.evaluate_opcode(&NO_KEYS, 0), Ok(StepEvent::UnknownOpcode { word: 0xF0FF }));
    assert_eq!(cpu.PC, 0x204);
}

#[test]
fn fetch_past_memory_faults() {
    let mut cpu = CPU::new();
    cpu.PC = 0xFFF;
    assert_eq!(cpu.evaluate_opcode(&NO_KEYS, 0), Err(Fault::MemoryOutOfRange));
    assert_eq!(cpu.PC, 0xFFF);
    cpu.JP(0x1000);
    assert_eq!(cpu.evaluate_opcode(&NO_KEYS, 0), Err(Fault::MemoryOutOfRange));
}

#[test]
fn draw_twice_clears_and_collides() {
    let mut cpu = CPU::new();
    cpu.ram[0x300] = 0xC3;
    cpu.I = 0x300;
    cpu.V[0] = 10;
    cpu.V[1] = 5;
    assert_eq!(cpu.DRW(0, 1, 1), Ok(()));
    assert_eq!(cpu.V[15], 0);
    assert!(cpu.display.pixel(10, 5));
    assert!(cpu.display.pixel(11, 5));
    assert!(!cpu.display.pixel(12, 5));
    assert!(cpu.display.pixel(16, 5));
    assert!(cpu.display.pixel(17, 5));
    assert_eq!(cpu.DRW(0, 1, 1), Ok(()));
    assert_eq!(cpu.V[15], 1);
    for y in 0..32 {
        for x in 0..64 {
            assert!(!cpu.display.pixel(x, y));
        }
    }
}

#[test]
fn disjoint_sprites_never_collide() {
    let mut cpu = CPU::new();
    cpu.ram[0x300] = 0xFF;
    cpu.I = 0x300;
    cpu.V[0] = 0;
    cpu.V[1] = 0;
    cpu.V[2] = 8;
    assert_eq!(cpu.DRW(0, 1, 1), Ok(()));
    assert_eq!(cpu.V[15], 0);
    cpu.V[15] = 0;
    assert_eq!(cpu.DRW(2, 1, 1), Ok(()));
    assert_eq!(cpu.V[15], 0);
    for x in 0..16 {
        assert!(cpu.display.pixel(x, 0));
    }
}

#[test]
fn draw_wraps_each_coordinate() {
    let mut cpu = CPU::new();
    cpu.ram[0x300] = 0xF0;
    cpu.ram[0x301] = 0x80;
    cpu.I = 0x300;
    cpu.V[0] = 62 + 64;
    cpu.V[1] = 31;
    assert_eq!(cpu.DRW(0, 1, 2), Ok(()));
    assert!(cpu.display.pixel(62, 31));
    assert!(cpu.display.pixel(63, 31));
    assert!(cpu.display.pixel(0, 31));
    assert!(cpu.display.pixel(1, 31));
    assert!(!cpu.display.pixel(2, 31));
    assert!(cpu.display.pixel(62, 0));
    assert!(!cpu.display.pixel(63, 0));
}

#[test]
fn clear_screen_through_step() {
    let mut cpu = with_program(&[0xA000, 0xD015, 0x00E0]);
    for _ in 0..3 {
        assert_eq!(cpu.evaluate_opcode(&NO_KEYS, 0), Ok(StepEvent::Executed));
    }
    for y in 0..32 {
        for x in 0..64 {
            assert!(!cpu.display.pixel(x, y));
        }
    }
    assert_eq!(cpu.PC, 0x206);
}
