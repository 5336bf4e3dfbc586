use intel8085::simulator::{Flag, Microcontroller, Register};

fn run(code: &[u8], setup: impl FnOnce(&mut Microcontroller)) -> Microcontroller {
    let mut sim = Microcontroller::new();
    sim.load_code(code, 0x1000).unwrap();
    setup(&mut sim);
    sim.start();
    sim
}

#[test]
fn byte_register_round_trip() {
    let mut sim = Microcontroller::new();
    for (r, v) in [(Register::A, 1u8), (Register::B, 2), (Register::C, 3), (Register::D, 4), (Register::E, 5), (Register::H, 0x20), (Register::L, 0x30)] {
        sim.set_register(r, v).unwrap();
        assert_eq!(sim.get_register(r), Ok(v));
    }
    sim.set_register(Register::M, 0x99).unwrap();
    assert_eq!(sim.get_register(Register::M), Ok(0x99));
    assert_eq!(sim.get_data_at(Some(0x2030)), 0x99);
    assert_eq!(sim.get_data_at(None), 0x99);
    assert!(sim.get_register(Register::SP).is_err());
    assert!(sim.set_register(Register::PSW, 1).is_err());
}

#[test]
fn register_pair_round_trip() {
    let mut sim = Microcontroller::new();
    for r in [Register::B, Register::D, Register::H, Register::SP] {
        sim.set_register_pair(r, 0xBEEF).unwrap();
        assert_eq!(sim.get_register_pair(r), Ok(0xBEEF));
    }
    sim.set_register_pair(Register::B, 0x1234).unwrap();
    assert_eq!(sim.get_register(Register::B), Ok(0x12));
    assert_eq!(sim.get_register(Register::C), Ok(0x34));
    sim.set_register_pair(Register::PSW, 0x80D5).unwrap();
    assert_eq!(sim.get_register_pair(Register::PSW), Ok(0x80D5));
    assert_eq!(sim.get_register(Register::A), Ok(0x80));
    assert!(sim.check_flag(Flag::Sign));
    assert!(sim.check_flag(Flag::Zero));
    assert!(sim.check_flag(Flag::AuxCarry));
    assert!(sim.check_flag(Flag::Parity));
    assert!(sim.check_flag(Flag::Carry));
    sim.set_register_pair(Register::PSW, 0x00FF).unwrap();
    assert_eq!(sim.get_register_pair(Register::PSW), Ok(0x00D5));
    assert!(sim.get_register_pair(Register::A).is_err());
    assert!(sim.set_register_pair(Register::M, 1).is_err());
}

#[test]
fn pair_write_back_is_identity() {
    let mut sim = Microcontroller::new();
    sim.set_register_pair(Register::D, 0x0A0B).unwrap();
    let v = sim.get_register_pair(Register::D).unwrap();
    let (high, low) = ((v >> 8) as u16, (v & 0xFF) as u16);
    sim.set_register_pair(Register::D, (high << 8) | low).unwrap();
    assert_eq!(sim.get_register(Register::D), Ok(0x0A));
    assert_eq!(sim.get_register(Register::E), Ok(0x0B));
}

#[test]
fn flags_set_and_check() {
    let mut sim = Microcontroller::new();
    sim.set_flag(Flag::Carry, true);
    assert!(sim.check_flag(Flag::Carry));
    assert!(!sim.check_flag(Flag::Zero));
    sim.set_flag(Flag::Carry, false);
    assert!(!sim.check_flag(Flag::Carry));
}

#[test]
fn parity() {
    assert!(Microcontroller::check_parity(0));
    assert!(Microcontroller::check_parity(0b1100_0000));
    assert!(!Microcontroller::check_parity(0b0000_0111));
    assert!(Microcontroller::check_parity_16(0x0101));
    assert!(!Microcontroller::check_parity_16(0x0100));
}

#[test]
fn inr_wraps_and_keeps_carry() {
    // MVI A, FF; STC; INR A; HLT
    let sim = run(&[0x3E, 0xFF, 0x37, 0x3C, 0x76], |_| {});
    assert_eq!(sim.get_register(Register::A), Ok(0x00));
    assert!(sim.check_flag(Flag::Zero));
    assert!(!sim.check_flag(Flag::Sign));
    assert!(sim.check_flag(Flag::Carry));
    assert!(sim.check_flag(Flag::AuxCarry));
}

#[test]
fn add_overflow_sets_carry_and_zero() {
    // MVI A, 80; MVI B, 80; ADD B; HLT
    let sim = run(&[0x3E, 0x80, 0x06, 0x80, 0x80, 0x76], |_| {});
    assert_eq!(sim.get_register(Register::A), Ok(0x00));
    assert!(sim.check_flag(Flag::Carry));
    assert!(sim.check_flag(Flag::Zero));
    assert!(!sim.check_flag(Flag::Sign));
    assert!(sim.check_flag(Flag::Parity));
}

#[test]
fn sub_self_clears_carry_and_sets_zero() {
    // MVI A, 5A; SUB A; HLT
    let sim = run(&[0x3E, 0x5A, 0x97, 0x76], |_| {});
    assert_eq!(sim.get_register(Register::A), Ok(0));
    assert!(!sim.check_flag(Flag::Carry));
    assert!(sim.check_flag(Flag::Zero));
}

#[test]
fn cmp_preserves_accumulator() {
    // MVI A, 10; MVI B, 20; CMP B; HLT
    let sim = run(&[0x3E, 0x10, 0x06, 0x20, 0xB8, 0x76], |_| {});
    assert_eq!(sim.get_register(Register::A), Ok(0x10));
    assert!(sim.check_flag(Flag::Carry));
    assert!(!sim.check_flag(Flag::Zero));
}

#[test]
fn dcx_wraps_without_flags() {
    // LXI B, 0000; DCX B; HLT
    let sim = run(&[0x01, 0x00, 0x00, 0x0B, 0x76], |s| s.set_flag(Flag::Zero, true));
    assert_eq!(sim.get_register_pair(Register::B), Ok(0xFFFF));
    assert!(sim.check_flag(Flag::Zero));
    assert!(!sim.check_flag(Flag::Carry));
}

#[test]
fn flags_follow_accumulator_after_alu() {
    // MVI A, 7F; ADI 01; HLT  -> 0x80: S set, Z clear, P clear (one bit), AC set
    let sim = run(&[0x3E, 0x7F, 0xC6, 0x01, 0x76], |_| {});
    assert_eq!(sim.get_register(Register::A), Ok(0x80));
    assert!(sim.check_flag(Flag::Sign));
    assert!(!sim.check_flag(Flag::Zero));
    assert!(!sim.check_flag(Flag::Parity));
    assert!(sim.check_flag(Flag::AuxCarry));
    // MVI A, F0; ANI 0F; HLT -> 0: Z set, P set, C clear, AC set
    let sim = run(&[0x3E, 0xF0, 0xE6, 0x0F, 0x76], |s| s.set_flag(Flag::Carry, true));
    assert_eq!(sim.get_register(Register::A), Ok(0));
    assert!(sim.check_flag(Flag::Zero));
    assert!(sim.check_flag(Flag::Parity));
    assert!(!sim.check_flag(Flag::Carry));
    assert!(sim.check_flag(Flag::AuxCarry));
}

#[test]
fn daa_adjusts_bcd_sum() {
    // MVI A, 38; ADI 45; DAA; HLT -> 0x83
    let sim = run(&[0x3E, 0x38, 0xC6, 0x45, 0x27, 0x76], |_| {});
    assert_eq!(sim.get_register(Register::A), Ok(0x83));
    // MVI A, 99; ADI 01; DAA -> 0x00 with carry
    let sim = run(&[0x3E, 0x99, 0xC6, 0x01, 0x27, 0x76], |_| {});
    assert_eq!(sim.get_register(Register::A), Ok(0x00));
    assert!(sim.check_flag(Flag::Carry));
}

#[test]
fn rotates() {
    // MVI A, 81; RLC; HLT
    let sim = run(&[0x3E, 0x81, 0x07, 0x76], |_| {});
    assert_eq!(sim.get_register(Register::A), Ok(0x03));
    assert!(sim.check_flag(Flag::Carry));
    // MVI A, 01; RRC
    let sim = run(&[0x3E, 0x01, 0x0F, 0x76], |_| {});
    assert_eq!(sim.get_register(Register::A), Ok(0x80));
    assert!(sim.check_flag(Flag::Carry));
    // MVI A, 80; RAL with carry clear
    let sim = run(&[0x3E, 0x80, 0x17, 0x76], |_| {});
    assert_eq!(sim.get_register(Register::A), Ok(0x00));
    assert!(sim.check_flag(Flag::Carry));
    // STC; MVI A, 00; RAR
    let sim = run(&[0x37, 0x3E, 0x00, 0x1F, 0x76], |_| {});
    assert_eq!(sim.get_register(Register::A), Ok(0x80));
    assert!(!sim.check_flag(Flag::Carry));
}

#[test]
fn push_pop_and_exchanges() {
    // LXI SP, F000; LXI B, 1234; PUSH B; POP D; LXI H, ABCD; XCHG; XTHL; HLT
    let sim = run(
        &[0x31, 0x00, 0xF0, 0x01, 0x34, 0x12, 0xC5, 0xD1, 0x21, 0xCD, 0xAB, 0xEB, 0xE3, 0x76],
        |s| {
            s.set_data_at(Some(0xF000), 0x78);
            s.set_data_at(Some(0xF001), 0x56);
        },
    );
    assert_eq!(sim.get_register_pair(Register::SP), Ok(0xF000));
    assert_eq!(sim.get_register_pair(Register::D), Ok(0xABCD));
    assert_eq!(sim.get_register_pair(Register::H), Ok(0x5678));
    assert_eq!(sim.get_data_at(Some(0xF000)), 0x34);
    assert_eq!(sim.get_data_at(Some(0xF001)), 0x12);
    assert_eq!(sim.get_data_at(Some(0xEFFF)), 0x12);
    assert_eq!(sim.get_data_at(Some(0xEFFE)), 0x34);
}

#[test]
fn rst_calls_vector() {
    let mut sim = Microcontroller::new();
    sim.load_code(&[0x31, 0x00, 0xF0, 0xEF], 0x1000).unwrap();
    sim.set_data_at(Some(0x28), 0x76);
    sim.start();
    assert_eq!(sim.program_counter(), 0x29);
    assert_eq!(sim.get_data_at(Some(0xEFFF)), 0x10);
    assert_eq!(sim.get_data_at(Some(0xEFFE)), 0x04);
}

#[test]
fn io_ports() {
    // MVI A, 42; OUT 07; MVI A, 0; IN 07; HLT
    let sim = run(&[0x3E, 0x42, 0xD3, 0x07, 0x3E, 0x00, 0xDB, 0x07, 0x76], |_| {});
    assert_eq!(sim.read_io(7), 0x42);
    assert_eq!(sim.get_register(Register::A), Ok(0x42));
}

#[test]
fn interrupts_latch() {
    let sim = run(&[0xFB, 0x76], |_| {});
    assert!(sim.interrupts_enabled());
    let sim = run(&[0xFB, 0xF3, 0x76], |_| {});
    assert!(!sim.interrupts_enabled());
}

#[test]
fn load_code_bounds() {
    let mut sim = Microcontroller::new();
    assert!(sim.load_code(&[0x76], 0).is_err());
    assert!(sim.load_code(&[0x76], 1023).is_err());
    assert!(sim.load_code(&[0u8; 10], 63991).is_err());
    assert!(sim.load_code(&[0u8; 10], 63990).is_ok());
    assert!(sim.load_code(&[0xAA, 0xBB], 1024).is_ok());
    assert_eq!(sim.program_counter(), 1024);
    assert_eq!(sim.get_data_at(Some(1024)), 0xAA);
    assert_eq!(sim.get_data_at(Some(1025)), 0xBB);
}

#[test]
fn tick_requires_running() {
    let mut sim = Microcontroller::new();
    assert!(sim.tick().is_err());
    sim.load_code(&[0x3C, 0x76], 2048).unwrap();
    sim.start();
    assert!(!sim.is_running());
    assert_eq!(sim.get_register(Register::A), Ok(1));
    assert!(sim.tick().is_err());
}

#[test]
fn fetch_and_execute() {
    let mut sim = Microcontroller::new();
    sim.load_code(&[0x06, 0x09], 4096).unwrap();
    assert_eq!(sim.fetch(), 0x06);
    assert_eq!(sim.instruction_register(), 0x06);
    sim.execute();
    assert_eq!(sim.get_register(Register::B), Ok(0x09));
    assert_eq!(sim.program_counter(), 4098);
}

#[test]
fn undefined_opcode_is_nop() {
    let sim = run(&[0x08, 0xCB, 0xD9, 0x76], |_| {});
    assert_eq!(sim.program_counter(), 0x1004);
    assert_eq!(sim.get_register(Register::A), Ok(0));
}

#[test]
fn clearing() {
    let mut sim = Microcontroller::new();
    sim.set_data_at(Some(5000), 3);
    sim.set_register(Register::A, 9).unwrap();
    sim.update_flags(true, true);
    assert!(sim.check_flag(Flag::Carry));
    assert!(!sim.check_flag(Flag::Zero));
    sim.update_flags_logical();
    assert!(!sim.check_flag(Flag::Carry));
    sim.clear_memory();
    sim.clear_registers();
    assert_eq!(sim.get_data_at(Some(5000)), 0);
    assert_eq!(sim.get_register(Register::A), Ok(0));
    sim.enable_interrupts();
    assert!(sim.interrupts_enabled());
    sim.disable_interrupts();
    sim.write_io(0x105, 8);
    assert_eq!(sim.read_io(5), 8);
    sim.stop();
    assert!(!sim.is_running());
}
