use chip8::graphic_engine::{present, GraphicEngine};
use chip8::keypad::{get_pressed_key, is_key_pressed};
use chip8::machine::{Chip8, Chip8Error, Effect, HaltReason, RunState, MAX_ROM_SIZE};
use chip8::opcode::OpCode;

fn machine_with(rom: &[u8]) -> Chip8 {
    let mut chip = Chip8::new();
    assert_eq!(chip.read(rom), Ok(rom.len()));
    chip
}

fn run(chip: &mut Chip8, word: u16) -> Effect {
    chip.execute_opcode(word, 0, 0).expect("instruction fails")
}

#[test]
fn fresh_machine_is_zeroed() {
    let chip = Chip8::new();
    assert_eq!(chip.pc(), 0x200);
    assert_eq!(chip.index(), 0);
    assert_eq!(chip.stack_depth(), 0);
    assert_eq!(chip.delay_timer(), 0);
    assert_eq!(chip.sound_timer(), 0);
    assert_eq!(chip.state(), RunState::Running);
    for x in 0..16u8 {
        assert_eq!(chip.register(x), 0);
    }
    assert_eq!(chip.memory(0), 0);
    assert_eq!(chip.memory(4095), 0);
}

#[test]
fn load_sets_register() {
    let mut chip = Chip8::new();
    run(&mut chip, 0x6A42);
    assert_eq!(chip.register(0xA), 0x42);
    assert_eq!(chip.pc(), 0x202);
}

#[test]
fn add_immediate_wraps() {
    let mut chip = Chip8::new();
    run(&mut chip, 0x63FE);
    run(&mut chip, 0x7305);
    assert_eq!(chip.register(3), 3);
    run(&mut chip, 0x7310);
    assert_eq!(chip.register(3), 0x13);
    assert_eq!(chip.register(0xF), 0);
}

#[test]
fn add_with_carry_sets_flag() {
    let mut chip = Chip8::new();
    run(&mut chip, 0x61C8);
    run(&mut chip, 0x6264);
    run(&mut chip, 0x8124);
    assert_eq!(chip.register(1), 44);
    assert_eq!(chip.register(0xF), 1);
    run(&mut chip, 0x8124);
    assert_eq!(chip.register(1), 144);
    assert_eq!(chip.register(0xF), 0);
}

#[test]
fn subtract_sets_no_borrow_flag() {
    let mut chip = Chip8::new();
    run(&mut chip, 0x610A);
    run(&mut chip, 0x6214);
    run(&mut chip, 0x8125);
    assert_eq!(chip.register(1), 246);
    assert_eq!(chip.register(0xF), 0);
    run(&mut chip, 0x6332);
    run(&mut chip, 0x6414);
    run(&mut chip, 0x8345);
    assert_eq!(chip.register(3), 30);
    assert_eq!(chip.register(0xF), 1);
}

#[test]
fn reverse_subtract() {
    let mut chip = Chip8::new();
    run(&mut chip, 0x610A);
    run(&mut chip, 0x6214);
    run(&mut chip, 0x8127);
    assert_eq!(chip.register(1), 10);
    assert_eq!(chip.register(0xF), 1);
    run(&mut chip, 0x6550);
    run(&mut chip, 0x6610);
    run(&mut chip, 0x8567);
    assert_eq!(chip.register(5), 0xC0);
    assert_eq!(chip.register(0xF), 0);
}

#[test]
fn shifts_move_evicted_bit_to_flag() {
    let mut chip = Chip8::new();
    run(&mut chip, 0x6181);
    run(&mut chip, 0x8106);
    assert_eq!(chip.register(1), 0x40);
    assert_eq!(chip.register(0xF), 1);
    run(&mut chip, 0x6281);
    run(&mut chip, 0x820E);
    assert_eq!(chip.register(2), 0x02);
    assert_eq!(chip.register(0xF), 1);
    run(&mut chip, 0x6340);
    run(&mut chip, 0x830E);
    assert_eq!(chip.register(3), 0x80);
    assert_eq!(chip.register(0xF), 0);
}

#[test]
fn bitwise_and_assign() {
    let mut chip = Chip8::new();
    run(&mut chip, 0x61F0);
    run(&mut chip, 0x623C);
    run(&mut chip, 0x8310);
    assert_eq!(chip.register(3), 0xF0);
    run(&mut chip, 0x8321);
    assert_eq!(chip.register(3), 0xFC);
    run(&mut chip, 0x8322);
    assert_eq!(chip.register(3), 0x3C);
    run(&mut chip, 0x8313);
    assert_eq!(chip.register(3), 0xCC);
}

#[test]
fn call_then_return() {
    // 0x200: call 0x206; 0x206: return
    let mut chip = machine_with(&[0x22, 0x06, 0x00, 0x00, 0x00, 0x00, 0x00, 0xEE]);
    assert!(chip.step(0, 0).is_ok());
    assert_eq!(chip.pc(), 0x206);
    assert_eq!(chip.stack_depth(), 1);
    assert!(chip.step(0, 0).is_ok());
    assert_eq!(chip.pc(), 0x202);
    assert_eq!(chip.stack_depth(), 0);
    assert!(!chip.is_halted());
}

#[test]
fn skip_if_equal_advances() {
    let mut chip = Chip8::new();
    run(&mut chip, 0x6005);
    run(&mut chip, 0x3005);
    assert_eq!(chip.pc(), 0x206);
    run(&mut chip, 0x3006);
    assert_eq!(chip.pc(), 0x208);
    run(&mut chip, 0x4006);
    assert_eq!(chip.pc(), 0x20C);
    run(&mut chip, 0x6105);
    run(&mut chip, 0x5010);
    assert_eq!(chip.pc(), 0x212);
    run(&mut chip, 0x9010);
    assert_eq!(chip.pc(), 0x214);
}

#[test]
fn decimal_digits() {
    let mut chip = Chip8::new();
    run(&mut chip, 0x679D);
    run(&mut chip, 0xA300);
    run(&mut chip, 0xF733);
    assert_eq!(chip.memory(0x300), 1);
    assert_eq!(chip.memory(0x301), 5);
    assert_eq!(chip.memory(0x302), 7);
    assert_eq!(chip.index(), 0x300);
    for value in [0u8, 9, 10, 99, 100, 255] {
        run(&mut chip, 0x6000 | value as u16);
        run(&mut chip, 0xF033);
        let digits = chip.memory(0x300) as u16 * 100
            + chip.memory(0x301) as u16 * 10
            + chip.memory(0x302) as u16;
        assert_eq!(digits, value as u16);
    }
}

#[test]
fn store_then_load_registers() {
    let mut chip = Chip8::new();
    for x in 0..16u16 {
        run(&mut chip, 0x6000 | (x << 8) | (x * 7 + 1));
    }
    run(&mut chip, 0xA400);
    run(&mut chip, 0xFF55);
    for x in 0..16u16 {
        assert_eq!(chip.memory(0x400 + x), (x * 7 + 1) as u8);
        run(&mut chip, 0x6000 | (x << 8));
    }
    run(&mut chip, 0xFF65);
    for x in 0..16u8 {
        assert_eq!(chip.register(x), x * 7 + 1);
    }
    assert_eq!(chip.index(), 0x400);
}

#[test]
fn store_registers_includes_vx_only() {
    let mut chip = Chip8::new();
    run(&mut chip, 0x6011);
    run(&mut chip, 0x6122);
    run(&mut chip, 0x6233);
    run(&mut chip, 0xA400);
    run(&mut chip, 0xF155);
    assert_eq!(chip.memory(0x400), 0x11);
    assert_eq!(chip.memory(0x401), 0x22);
    assert_eq!(chip.memory(0x402), 0);
}

#[test]
fn self_jump_halts() {
    let mut chip = machine_with(&[0x12, 0x00]);
    assert!(matches!(chip.step(0, 0), Ok(Effect::Nothing)));
    assert_eq!(chip.state(), RunState::Halted { reason: HaltReason::SelfJump });
    assert_eq!(chip.pc(), 0x200);
    assert!(matches!(chip.step(0, 0), Ok(Effect::Nothing)));
    assert_eq!(chip.pc(), 0x200);
}

#[test]
fn empty_stack_return_fails() {
    let mut chip = machine_with(&[0x00, 0xEE]);
    assert_eq!(
        chip.step(0, 0).unwrap_err(),
        Chip8Error::StackUnderflow { address: 0x200 }
    );
    assert_eq!(chip.pc(), 0x200);
}

#[test]
fn unknown_opcode_is_rejected() {
    assert_eq!(OpCode::decode(0x5001), None);
    let mut chip = Chip8::new();
    assert_eq!(
        chip.execute_opcode(0x5001, 0, 0).unwrap_err(),
        Chip8Error::UnknownOpcode { word: 0x5001, address: 0x200 }
    );
    for word in [0x9001u16, 0x8008, 0xE000, 0xF000, 0xFFFF] {
        assert_eq!(OpCode::decode(word), None);
    }
}

#[test]
fn decode_fields() {
    assert_eq!(OpCode::decode(0x00E0), Some(OpCode::ClearScreen));
    assert_eq!(OpCode::decode(0x00EE), Some(OpCode::Return));
    assert_eq!(OpCode::decode(0x0123), Some(OpCode::MachineCall { nnn: 0x123 }));
    assert_eq!(OpCode::decode(0xD2A5), Some(OpCode::Draw { x: 2, y: 0xA, n: 5 }));
    assert_eq!(OpCode::decode(0x8AB6), Some(OpCode::ShiftRight { x: 0xA }));
    assert_eq!(OpCode::decode(0xBABC), Some(OpCode::JumpWithOffset { nnn: 0xABC }));
    assert_eq!(OpCode::decode(0xE3A1), Some(OpCode::SkipIfKeyNotPressed { x: 3 }));
    assert_eq!(OpCode::decode(0xF965), Some(OpCode::LoadRegisters { x: 9 }));
}

#[test]
fn machine_call_shuts_down() {
    let mut chip = machine_with(&[0x01, 0x23]);
    assert!(chip.step(0, 0).is_ok());
    assert_eq!(chip.state(), RunState::Halted { reason: HaltReason::Shutdown });
    assert!(chip.is_halted());
}

#[test]
fn clear_screen_is_requested() {
    let mut chip = machine_with(&[0x00, 0xE0]);
    assert!(matches!(chip.step(0, 0), Ok(Effect::ClearScreen)));
    assert_eq!(chip.pc(), 0x202);
    assert!(!chip.is_halted());
}

#[test]
fn draw_wraps_origin_and_reads_sprite() {
    let mut chip = Chip8::new();
    assert_eq!(chip.read(&[0xF0, 0x90, 0xF0]), Ok(3));
    run(&mut chip, 0x6046);
    run(&mut chip, 0x6125);
    run(&mut chip, 0xA200);
    match run(&mut chip, 0xD013) {
        Effect::DrawSprite { x, y, sprite } => {
            assert_eq!(x, 6);
            assert_eq!(y, 5);
            assert_eq!(sprite, vec![0xF0, 0x90, 0xF0]);
        }
        other => panic!("unexpected effect {:?}", other),
    }
    assert_eq!(chip.index(), 0x200);
}

#[test]
fn memory_out_of_bounds() {
    let mut chip = Chip8::new();
    run(&mut chip, 0xAFFF);
    assert_eq!(
        chip.execute_opcode(0xF233, 0, 0).unwrap_err(),
        Chip8Error::MemoryOutOfBounds { address: 0x202, index: 0xFFF }
    );
    assert_eq!(
        chip.execute_opcode(0xD012, 0, 0).unwrap_err(),
        Chip8Error::MemoryOutOfBounds { address: 0x202, index: 0xFFF }
    );
    assert!(chip.execute_opcode(0xD011, 0, 0).is_ok());
}

#[test]
fn program_counter_out_of_bounds() {
    let mut chip = machine_with(&[0x1F, 0xFF]);
    assert!(chip.step(0, 0).is_ok());
    assert_eq!(chip.pc(), 0xFFF);
    assert_eq!(
        chip.step(0, 0).unwrap_err(),
        Chip8Error::PcOutOfBounds { address: 0xFFF }
    );
}

#[test]
fn stack_overflow() {
    let mut chip = Chip8::new();
    for _ in 0..16 {
        assert!(chip.execute_opcode(0x2300, 0, 0).is_ok());
    }
    assert_eq!(chip.stack_depth(), 16);
    assert_eq!(
        chip.execute_opcode(0x2300, 0, 0).unwrap_err(),
        Chip8Error::StackOverflow { address: 0x300 }
    );
}

#[test]
fn rom_too_large() {
    let mut chip = Chip8::new();
    let rom = vec![0xAAu8; MAX_ROM_SIZE + 1];
    assert_eq!(chip.read(&rom), Err(Chip8Error::RomTooLarge { overflow: 1 }));
    assert_eq!(chip.memory(0x200), 0);
    let rom = vec![0xAAu8; MAX_ROM_SIZE];
    assert_eq!(chip.read(&rom), Ok(MAX_ROM_SIZE));
    assert_eq!(chip.memory(0x200), 0xAA);
    assert_eq!(chip.memory(0xFFF), 0xAA);
    assert_eq!(chip.memory(0x1FF), 0);
}

#[test]
fn timers_count_down_per_tick() {
    // 0x200: V0 = 3; 0x202: delay = V0; 0x204: sound = V0; 0x206: V1 = delay
    let mut chip = machine_with(&[0x60, 0x03, 0xF0, 0x15, 0xF0, 0x18, 0xF1, 0x07]);
    assert!(chip.step(0, 0).is_ok());
    assert!(chip.step(0, 0).is_ok());
    assert_eq!(chip.delay_timer(), 2);
    assert!(chip.step(0, 0).is_ok());
    assert_eq!(chip.delay_timer(), 1);
    assert_eq!(chip.sound_timer(), 2);
    assert!(chip.step(0, 0).is_ok());
    assert_eq!(chip.register(1), 1);
    assert_eq!(chip.delay_timer(), 0);
    assert_eq!(chip.sound_timer(), 1);
}

#[test]
fn wait_for_key_polls() {
    let mut chip = machine_with(&[0xF4, 0x0A]);
    assert!(chip.step(0, 0).is_ok());
    assert_eq!(chip.state(), RunState::WaitingForKey);
    assert_eq!(chip.pc(), 0x200);
    assert!(chip.step(0, 0).is_ok());
    assert_eq!(chip.state(), RunState::WaitingForKey);
    assert!(chip.step((1 << 5) | (1 << 9), 0).is_ok());
    assert_eq!(chip.state(), RunState::Running);
    assert_eq!(chip.register(4), 5);
    assert_eq!(chip.pc(), 0x202);
}

#[test]
fn key_skips() {
    let mut chip = Chip8::new();
    run(&mut chip, 0x6307);
    assert!(chip.execute_opcode(0xE39E, 1 << 7, 0).is_ok());
    assert_eq!(chip.pc(), 0x206);
    assert!(chip.execute_opcode(0xE39E, 1 << 6, 0).is_ok());
    assert_eq!(chip.pc(), 0x208);
    assert!(chip.execute_opcode(0xE3A1, 1 << 6, 0).is_ok());
    assert_eq!(chip.pc(), 0x20C);
    assert!(chip.execute_opcode(0xE3A1, 1 << 7, 0).is_ok());
    assert_eq!(chip.pc(), 0x20E);
}

#[test]
fn keypad_queries() {
    assert!(is_key_pressed(0b1000, 3));
    assert!(!is_key_pressed(0b1000, 2));
    assert!(!is_key_pressed(0xFFFF, 16));
    assert_eq!(get_pressed_key(0), None);
    assert_eq!(get_pressed_key(0b1010_0000), Some(5));
    assert_eq!(get_pressed_key(0x8000), Some(15));
}

#[test]
fn index_instructions() {
    let mut chip = Chip8::new();
    run(&mut chip, 0xA123);
    assert_eq!(chip.index(), 0x123);
    run(&mut chip, 0x6510);
    run(&mut chip, 0xF51E);
    assert_eq!(chip.index(), 0x133);
    run(&mut chip, 0x651A);
    run(&mut chip, 0xF529);
    assert_eq!(chip.index(), 50);
}

#[test]
fn jump_with_offset() {
    let mut chip = Chip8::new();
    run(&mut chip, 0x6010);
    run(&mut chip, 0xB300);
    assert_eq!(chip.pc(), 0x310);
    run(&mut chip, 0x1456);
    assert_eq!(chip.pc(), 0x456);
}

#[test]
fn random_is_masked() {
    let mut chip = Chip8::new();
    assert!(chip.execute_opcode(0xC23C, 0, 0xF0).is_ok());
    assert_eq!(chip.register(2), 0x30);
    assert!(chip.execute_opcode(0xC200, 0, 0xFF).is_ok());
    assert_eq!(chip.register(2), 0);
    let mut chip = machine_with(&[0xC2, 0x0F]);
    assert!(chip.tick(0).is_ok());
    assert!(chip.register(2) <= 0x0F);
    assert_eq!(chip.pc(), 0x202);
}

#[test]
fn frequency_drops_when_halted() {
    let mut chip = machine_with(&[0x12, 0x00]);
    assert_eq!(chip.frequency(), 60);
    assert_eq!(chip.tick_nanos(), 16_666_666);
    assert!(chip.tick(0).is_ok());
    assert_eq!(chip.frequency(), 5);
    assert_eq!(chip.tick_nanos(), 200_000_000);
}

struct Recorder {
    clears: usize,
    draws: Vec<(u8, u8, Vec<u8>)>,
}

impl GraphicEngine for Recorder {
    fn clear_screen(&mut self) {
        self.clears += 1;
    }
    fn draw_sprite(&mut self, x: u8, y: u8, sprite_bytes: &[u8]) -> bool {
        self.draws.push((x, y, sprite_bytes.to_vec()));
        false
    }
    fn flush(&mut self) {}
    fn is_running(&self) -> bool {
        true
    }
    fn init(&mut self) {}
    fn pressed_keys(&self) -> u16 {
        0
    }
}

#[test]
fn present_forwards_requests() {
    let mut engine = Recorder { clears: 0, draws: Vec::new() };
    present(&mut engine, &Effect::Nothing);
    present(&mut engine, &Effect::ClearScreen);
    present(&mut engine, &Effect::DrawSprite { x: 1, y: 2, sprite: vec![0x80] });
    assert_eq!(engine.clears, 1);
    assert_eq!(engine.draws, vec![(1, 2, vec![0x80])]);
}
