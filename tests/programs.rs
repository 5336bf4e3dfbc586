use intel8085::assembler::assemble;
use intel8085::simulator::Microcontroller;

/// Label addresses are offsets from the start of the image, so the image runs from address 0.
fn setup_sim(sim: &mut Microcontroller, source: &str) {
    sim.clear_memory();
    sim.clear_registers();
    let code = match assemble(source) {
        Ok(code) => code,
        Err(parse_error) => panic!("{:?}", parse_error),
    };
    for (i, byte) in code.iter().enumerate() {
        sim.set_data_at(Some(i as u16), *byte);
    }
    sim.set_program_counter(0);
}

const ADD: &str = "
    LDA 20H
    MOV B, A
    LDA 21H
    ADD B
    STA 22H
    HLT
";

const ADD_16BIT: &str = "
    LHLD 5000H
    XCHG
    LHLD 5002H
    DAD D
    SHLD 5004H
    HLT
";

const SERIES: &str = "
    LXI H, 30H
    MOV C, M
    MVI A, 0
LOOP: INX H
    ADD M
    DCR C
    JNZ LOOP
    STA 70H
    HLT
";

const SORT_ASC: &str = "
    LDA 5000H
    MOV D, A
OUTER: LXI H, 5001H
    LDA 5000H
    MOV C, A
    DCR C
INNER: MOV A, M
    INX H
    CMP M
    JC SKIP
    JZ SKIP
    MOV B, M
    MOV M, A
    DCX H
    MOV M, B
    INX H
SKIP: DCR C
    JNZ INNER
    DCR D
    JNZ OUTER
    HLT
";

const SORT_DSC: &str = "
    LDA 5000H
    MOV D, A
OUTER: LXI H, 5001H
    LDA 5000H
    MOV C, A
    DCR C
INNER: MOV A, M
    INX H
    CMP M
    JNC SKIP
    MOV B, M
    MOV M, A
    DCX H
    MOV M, B
    INX H
SKIP: DCR C
    JNZ INNER
    DCR D
    JNZ OUTER
    HLT
";

const EVEN_ODD: &str = "
    LDA 5000H
    ANI 01H
    STA 5001H
    HLT
";

const LARGEST: &str = "
    LXI H, 5000H
    MOV C, M
    INX H
    MOV A, M
    DCR C
LOOP: INX H
    CMP M
    JNC NEXT
    MOV A, M
NEXT: DCR C
    JNZ LOOP
    STA 4999H
    HLT
";

const MUL: &str = "
    LDA 5000H
    MOV B, A
    LDA 5001H
    MOV C, A
    MVI A, 0
LOOP: ADD B
    DCR C
    JNZ LOOP
    STA 5003H
    HLT
";

const DIV: &str = "
    LDA 5001H
    MOV B, A
    LDA 5000H
    MVI C, 0
LOOP: CMP B
    JC DONE
    SUB B
    INR C
    JMP LOOP
DONE: STA 5002H
    MOV A, C
    STA 5003H
    HLT
";

const FIB: &str = "
    LDA 3030H
    MOV D, A
    MVI B, 0
    MVI C, 1
LOOP: MOV A, B
    CMP D
    JNC DONE
    MOV A, B
    ADD C
    MOV B, C
    MOV C, A
    JMP LOOP
DONE: MOV A, B
    STA 3031H
    HLT
";

#[test]
fn test_fib() {
    let mut sim = Microcontroller::new();
    setup_sim(&mut sim, FIB);
    sim.set_data_at(Some(0x3030), 0x33);
    sim.start();
    let written = sim.get_data_at(Some(0x3031));
    assert_eq!(written, 0x37)
}

#[test]
fn test_sum() {
    let mut sim = Microcontroller::new();
    setup_sim(&mut sim, ADD);
    sim.set_data_at(Some(0x20), 0x30);
    sim.set_data_at(Some(0x21), 0x31);
    sim.start();
    let written = sim.get_data_at(Some(0x22));
    assert_eq!(written, 0x61)
}

#[test]
fn test_series() {
    let mut sim = Microcontroller::new();
    setup_sim(&mut sim, SERIES);
    sim.set_data_at(Some(0x30), 0x4);
    sim.set_data_at(Some(0x31), 0x1);
    sim.set_data_at(Some(0x32), 0x2);
    sim.set_data_at(Some(0x33), 0x3);
    sim.set_data_at(Some(0x34), 0x4);
    sim.start();
    let written = sim.get_data_at(Some(0x70));
    assert_eq!(written, 0x0A)
}

#[test]
fn test_sum_16bit() {
    let mut sim = Microcontroller::new();
    setup_sim(&mut sim, ADD_16BIT);
    sim.set_data_at(Some(0x5000), 0x34);
    sim.set_data_at(Some(0x5001), 0x12);
    sim.set_data_at(Some(0x5002), 0x78);
    sim.set_data_at(Some(0x5003), 0x56);
    sim.start();
    let written =
        (sim.get_data_at(Some(0x5005)) as u16) << 8 | (sim.get_data_at(Some(0x5004)) as u16);
    assert_eq!(written, 0x68AC)
}

#[test]
fn test_sort_asc() {
    let mut sim = Microcontroller::new();
    setup_sim(&mut sim, SORT_ASC);
    sim.set_data_at(Some(0x5000), 0x05);
    sim.set_data_at(Some(0x5001), 0x04);
    sim.set_data_at(Some(0x5002), 0x02);
    sim.set_data_at(Some(0x5003), 0x05);
    sim.set_data_at(Some(0x5004), 0x03);
    sim.set_data_at(Some(0x5005), 0x01);
    sim.start();
    assert_eq!(sim.get_data_at(Some(0x5001)), 0x01);
    assert_eq!(sim.get_data_at(Some(0x5002)), 0x02);
    assert_eq!(sim.get_data_at(Some(0x5003)), 0x03);
    assert_eq!(sim.get_data_at(Some(0x5004)), 0x04);
    assert_eq!(sim.get_data_at(Some(0x5005)), 0x05)
}

#[test]
fn test_sort_dsc() {
    let mut sim = Microcontroller::new();
    setup_sim(&mut sim, SORT_DSC);
    sim.set_data_at(Some(0x5000), 0x05);
    sim.set_data_at(Some(0x5001), 0x04);
    sim.set_data_at(Some(0x5002), 0x02);
    sim.set_data_at(Some(0x5003), 0x05);
    sim.set_data_at(Some(0x5004), 0x03);
    sim.set_data_at(Some(0x5005), 0x01);
    sim.start();
    assert_eq!(sim.get_data_at(Some(0x5001)), 0x05);
    assert_eq!(sim.get_data_at(Some(0x5002)), 0x04);
    assert_eq!(sim.get_data_at(Some(0x5003)), 0x03);
    assert_eq!(sim.get_data_at(Some(0x5004)), 0x02);
    assert_eq!(sim.get_data_at(Some(0x5005)), 0x01)
}

#[test]
fn test_even_odd() {
    let mut sim = Microcontroller::new();
    setup_sim(&mut sim, EVEN_ODD);
    sim.set_data_at(Some(0x5000), 0x04);
    sim.start();
    assert_eq!(sim.get_data_at(Some(0x5001)), 0x00)
}

#[test]
fn test_largest() {
    let mut sim = Microcontroller::new();
    setup_sim(&mut sim, LARGEST);
    sim.set_data_at(Some(0x5000), 0x05);
    sim.set_data_at(Some(0x5001), 0x04);
    sim.set_data_at(Some(0x5002), 0x02);
    sim.set_data_at(Some(0x5003), 0x05);
    sim.set_data_at(Some(0x5004), 0x03);
    sim.set_data_at(Some(0x5005), 0x01);
    sim.start();
    assert_eq!(sim.get_data_at(Some(0x4999)), 0x5)
}

#[test]
fn test_mul() {
    let mut sim = Microcontroller::new();
    setup_sim(&mut sim, MUL);
    sim.set_data_at(Some(0x5000), 0x0a);
    sim.set_data_at(Some(0x5001), 0x05);
    sim.start();
    assert_eq!(sim.get_data_at(Some(0x5003)), 0x32)
}

#[test]
fn test_div() {
    let mut sim = Microcontroller::new();
    setup_sim(&mut sim, DIV);
    sim.set_data_at(Some(0x5000), 0x10);
    sim.set_data_at(Some(0x5001), 0x05);
    sim.start();
    assert_eq!(sim.get_data_at(Some(0x5003)), 0x03);
    assert_eq!(sim.get_data_at(Some(0x5002)), 0x01)
}

#[test]
fn odd_number_gets_odd_marker() {
    let mut sim = Microcontroller::new();
    setup_sim(&mut sim, EVEN_ODD);
    sim.set_data_at(Some(0x5000), 0x07);
    sim.start();
    assert_eq!(sim.get_data_at(Some(0x5001)), 0x01)
}

#[test]
fn call_and_return_through_the_stack() {
    let mut sim = Microcontroller::new();
    setup_sim(
        &mut sim,
        "LXI SP, 0F000H\nMVI A, 1\nCALL DOUBLE\nCALL DOUBLE\nSTA 6000H\nHLT\nDOUBLE: ADD A\nRET\n",
    );
    sim.start();
    assert_eq!(sim.get_data_at(Some(0x6000)), 4);
    assert_eq!(sim.get_register_pair(intel8085::simulator::Register::SP), Ok(0xF000));
}
