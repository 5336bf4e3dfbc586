//! Instruction decoding and one handler per instruction family.
use vstd::prelude::*;
use crate::alu::{
    AluOut, add8, sub8, and8, or8, xor8, inc8, dec8, daa8, rlc8, rrc8, ral8, rar8, add16,
};
use crate::isa::{
    AluOp, Cond, Instr, alu_code, alu_result, cond_code, cond_holds, decode, execute_spec, imm16,
    imm8, pair_code, push_word, reg_code, stack_pair_code, well_formed,
};
use crate::machine::{Flags, Register, is_byte_register, lemma_word_bytes, wrap16};
use crate::simulator::Microcontroller;

verus! {

fn reg_from_code(n: u8) -> (r: Register)
    requires
        n < 8,
    ensures
        r == reg_code(n as int),
{
    match n {
        0 => Register::B,
        1 => Register::C,
        2 => Register::D,
        3 => Register::E,
        4 => Register::H,
        5 => Register::L,
        6 => Register::M,
        _ => Register::A,
    }
}

fn pair_from_code(n: u8) -> (r: Register)
    requires
        n < 4,
    ensures
        r == pair_code(n as int),
{
    match n {
        0 => Register::B,
        1 => Register::D,
        2 => Register::H,
        _ => Register::SP,
    }
}

fn stack_pair_from_code(n: u8) -> (r: Register)
    requires
        n < 4,
    ensures
        r == stack_pair_code(n as int),
{
    if n == 3 {
        Register::PSW
    } else {
        pair_from_code(n)
    }
}

fn alu_from_code(n: u8) -> (r: AluOp)
    requires
        n < 8,
    ensures
        r == alu_code(n as int),
{
    match n {
        0 => AluOp::Add,
        1 => AluOp::Adc,
        2 => AluOp::Sub,
        3 => AluOp::Sbb,
        4 => AluOp::Ana,
        5 => AluOp::Xra,
        6 => AluOp::Ora,
        _ => AluOp::Cmp,
    }
}

fn cond_from_code(n: u8) -> (r: Cond)
    requires
        n < 8,
    ensures
        r == cond_code(n as int),
{
    match n {
        0 => Cond::NotZero,
        1 => Cond::Zero,
        2 => Cond::NoCarry,
        3 => Cond::Carry,
        4 => Cond::ParityOdd,
        5 => Cond::ParityEven,
        6 => Cond::Plus,
        _ => Cond::Minus,
    }
}

/// Decode an opcode byte.
pub fn decode_op(op: u8) -> (r: Instr)
    ensures
        r == decode(op),
        well_formed(r),
{
    let x = op / 64;
    let y = (op / 8) % 8;
    let z = op % 8;
    let p = y / 2;
    let q = y % 2;
    if x == 0 {
        if z == 0 {
            if op == 0x20 {
                Instr::Rim
            } else if op == 0x30 {
                Instr::Sim
            } else {
                Instr::Nop
            }
        } else if z == 1 {
            if q == 0 {
                Instr::Lxi(pair_from_code(p))
            } else {
                Instr::Dad(pair_from_code(p))
            }
        } else if z == 2 {
            if p < 2 {
                if q == 0 {
                    Instr::Stax(pair_from_code(p))
                } else {
                    Instr::Ldax(pair_from_code(p))
                }
            } else if p == 2 {
                if q == 0 {
                    Instr::Shld
                } else {
                    Instr::Lhld
                }
            } else if q == 0 {
                Instr::Sta
            } else {
                Instr::Lda
            }
        } else if z == 3 {
            if q == 0 {
                Instr::Inx(pair_from_code(p))
            } else {
                Instr::Dcx(pair_from_code(p))
            }
        } else if z == 4 {
            Instr::Inr(reg_from_code(y))
        } else if z == 5 {
            Instr::Dcr(reg_from_code(y))
        } else if z == 6 {
            Instr::Mvi(reg_from_code(y))
        } else {
            match y {
                0 => Instr::Rlc,
                1 => Instr::Rrc,
                2 => Instr::Ral,
                3 => Instr::Rar,
                4 => Instr::Daa,
                5 => Instr::Cma,
                6 => Instr::Stc,
                _ => Instr::Cmc,
            }
        }
    } else if x == 1 {
        if op == 0x76 {
            Instr::Hlt
        } else {
            Instr::Mov(reg_from_code(y), reg_from_code(z))
        }
    } else if x == 2 {
        Instr::Alu(alu_from_code(y), reg_from_code(z))
    } else if z == 0 {
        Instr::RetIf(cond_from_code(y))
    } else if z == 1 {
        if q == 0 {
            Instr::Pop(stack_pair_from_code(p))
        } else if p == 0 {
            Instr::Ret
        } else if p == 2 {
            Instr::Pchl
        } else if p == 3 {
            Instr::Sphl
        } else {
            Instr::Nop
        }
    } else if z == 2 {
        Instr::JumpIf(cond_from_code(y))
    } else if z == 3 {
        match y {
            0 => Instr::Jmp,
            2 => Instr::Out,
            3 => Instr::In,
            4 => Instr::Xthl,
            5 => Instr::Xchg,
            6 => Instr::Di,
            7 => Instr::Ei,
            _ => Instr::Nop,
        }
    } else if z == 4 {
        Instr::CallIf(cond_from_code(y))
    } else if z == 5 {
        if q == 0 {
            Instr::Push(stack_pair_from_code(p))
        } else if p == 0 {
            Instr::Call
        } else {
            Instr::Nop
        }
    } else if z == 6 {
        Instr::AluImm(alu_from_code(y))
    } else {
        Instr::Rst(y)
    }
}

fn condition(f: Flags, c: Cond) -> (r: bool)
    ensures
        r == cond_holds(f, c),
{
    match c {
        Cond::NotZero => !f.zero,
        Cond::Zero => f.zero,
        Cond::NoCarry => !f.carry,
        Cond::Carry => f.carry,
        Cond::ParityOdd => !f.parity,
        Cond::ParityEven => f.parity,
        Cond::Plus => !f.sign,
        Cond::Minus => f.sign,
    }
}

fn wrapping_inc(v: u16) -> (r: u16)
    ensures
        r == wrap16(v + 1),
{
    if v == 65535 {
        0
    } else {
        v + 1
    }
}

fn wrapping_dec(v: u16) -> (r: u16)
    ensures
        r == wrap16(v - 1),
{
    if v == 0 {
        65535
    } else {
        v - 1
    }
}

/// Fetch a little-endian word operand.
fn fetch_word(c: &mut Microcontroller) -> (w: u16)
    requires
        old(c)@.valid(),
    ensures
        w == imm16(old(c)@),
        final(c)@ == old(c)@.fetched().fetched(),
{
    let low = c.fetch();
    let high = c.fetch();
    high as u16 * 256 + low as u16
}

/// Push a word: high byte at SP-1, low byte at SP-2.
fn push_value(c: &mut Microcontroller, v: u16)
    requires
        old(c)@.valid(),
    ensures
        final(c)@ == push_word(old(c)@, v),
{
    let sp = c.pair(Register::SP);
    let s1 = wrapping_dec(sp);
    let s2 = wrapping_dec(s1);
    assert(s2 == wrap16(sp - 2));
    c.set_data_at(Some(s1), (v / 256) as u8);
    c.set_data_at(Some(s2), (v % 256) as u8);
    c.put_pair(Register::SP, s2);
}

/// The word on top of the stack, low byte at SP.
fn top_of_stack(c: &Microcontroller) -> (w: u16)
    requires
        c@.valid(),
    ensures
        w == crate::isa::top_word(c@),
{
    let sp = c.pair(Register::SP);
    let low = c.get_data_at(Some(sp));
    let high = c.get_data_at(Some(wrapping_inc(sp)));
    high as u16 * 256 + low as u16
}

fn drop_word(c: &mut Microcontroller)
    ensures
        final(c)@ == crate::isa::popped(old(c)@),
{
    let sp = c.pair(Register::SP);
    let next = wrapping_inc(wrapping_inc(sp));
    assert(next == wrap16(sp + 2));
    c.put_pair(Register::SP, next);
}

/// Apply an accumulator operation to A and `v`.
fn alu_apply(c: &mut Microcontroller, op: AluOp, v: u8)
    requires
        old(c)@.valid(),
    ensures
        final(c)@ == crate::isa::with_result(
            old(c)@,
            alu_result(op, old(c)@.a, v, old(c)@.flags),
        ),
{
    let a = c.reg(Register::A);
    let f = c.flags();
    let o = match op {
        AluOp::Add => add8(a, v, false),
        AluOp::Adc => add8(a, v, f.carry),
        AluOp::Sub => sub8(a, v, false),
        AluOp::Sbb => sub8(a, v, f.carry),
        AluOp::Ana => and8(a, v),
        AluOp::Xra => xor8(a, v),
        AluOp::Ora => or8(a, v),
        AluOp::Cmp => AluOut { value: a, flags: sub8(a, v, false).flags },
    };
    c.put_result(o);
}

/// ADD, ADC, SUB, SBB, ANA, XRA, ORA, CMP with a register operand.
fn alu_reg(c: &mut Microcontroller, op: AluOp, r: Register)
    requires
        old(c)@.valid(),
        is_byte_register(r),
    ensures
        final(c)@ == execute_spec(old(c)@, Instr::Alu(op, r)),
{
    let v = c.reg(r);
    alu_apply(c, op, v);
}

/// ADI, ACI, SUI, SBI, ANI, XRI, ORI, CPI with an immediate operand.
fn alu_imm(c: &mut Microcontroller, op: AluOp)
    requires
        old(c)@.valid(),
    ensures
        final(c)@ == execute_spec(old(c)@, Instr::AluImm(op)),
{
    let v = c.fetch();
    alu_apply(c, op, v);
}

fn mov(c: &mut Microcontroller, to: Register, from: Register)
    requires
        old(c)@.valid(),
        is_byte_register(to),
        is_byte_register(from),
    ensures
        final(c)@ == execute_spec(old(c)@, Instr::Mov(to, from)),
{
    let v = c.reg(from);
    c.put_reg(to, v);
}

fn mvi(c: &mut Microcontroller, to: Register)
    requires
        old(c)@.valid(),
        is_byte_register(to),
    ensures
        final(c)@ == execute_spec(old(c)@, Instr::Mvi(to)),
{
    let v = c.fetch();
    c.put_reg(to, v);
}

fn inr(c: &mut Microcontroller, r: Register)
    requires
        old(c)@.valid(),
        is_byte_register(r),
    ensures
        final(c)@ == execute_spec(old(c)@, Instr::Inr(r)),
{
    let v = c.reg(r);
    let o = inc8(v, c.flags().carry);
    c.put_reg(r, o.value);
    c.put_flags(o.flags);
}

fn dcr(c: &mut Microcontroller, r: Register)
    requires
        old(c)@.valid(),
        is_byte_register(r),
    ensures
        final(c)@ == execute_spec(old(c)@, Instr::Dcr(r)),
{
    let v = c.reg(r);
    let o = dec8(v, c.flags().carry);
    c.put_reg(r, o.value);
    c.put_flags(o.flags);
}

fn inx(c: &mut Microcontroller, rp: Register)
    requires
        rp is B || rp is D || rp is H || rp is SP,
    ensures
        final(c)@ == execute_spec(old(c)@, Instr::Inx(rp)),
{
    let v = c.pair(rp);
    c.put_pair(rp, wrapping_inc(v));
}

fn dcx(c: &mut Microcontroller, rp: Register)
    requires
        rp is B || rp is D || rp is H || rp is SP,
    ensures
        final(c)@ == execute_spec(old(c)@, Instr::Dcx(rp)),
{
    let v = c.pair(rp);
    c.put_pair(rp, wrapping_dec(v));
}

fn dadd(c: &mut Microcontroller, rp: Register)
    requires
        rp is B || rp is D || rp is H || rp is SP,
    ensures
        final(c)@ == execute_spec(old(c)@, Instr::Dad(rp)),
{
    let hl = c.pair(Register::H);
    let other = c.pair(rp);
    let (sum, carry) = add16(hl, other);
    c.put_pair(Register::H, sum);
    let f = c.flags();
    c.put_flags(Flags { carry, ..f });
}

fn lxi(c: &mut Microcontroller, rp: Register)
    requires
        old(c)@.valid(),
        rp is B || rp is D || rp is H || rp is SP,
    ensures
        final(c)@ == execute_spec(old(c)@, Instr::Lxi(rp)),
{
    let v = fetch_word(c);
    c.put_pair(rp, v);
}

fn stax(c: &mut Microcontroller, rp: Register)
    requires
        old(c)@.valid(),
        rp is B || rp is D,
    ensures
        final(c)@ == execute_spec(old(c)@, Instr::Stax(rp)),
{
    let addr = c.pair(rp);
    let a = c.reg(Register::A);
    c.set_data_at(Some(addr), a);
}

fn ldax(c: &mut Microcontroller, rp: Register)
    requires
        old(c)@.valid(),
        rp is B || rp is D,
    ensures
        final(c)@ == execute_spec(old(c)@, Instr::Ldax(rp)),
{
    let addr = c.pair(rp);
    let v = c.get_data_at(Some(addr));
    c.put_reg(Register::A, v);
}

fn shld(c: &mut Microcontroller)
    requires
        old(c)@.valid(),
    ensures
        final(c)@ == execute_spec(old(c)@, Instr::Shld),
{
    let addr = fetch_word(c);
    let l = c.reg(Register::L);
    let h = c.reg(Register::H);
    c.set_data_at(Some(addr), l);
    c.set_data_at(Some(wrapping_inc(addr)), h);
}

fn lhld(c: &mut Microcontroller)
    requires
        old(c)@.valid(),
    ensures
        final(c)@ == execute_spec(old(c)@, Instr::Lhld),
{
    let addr = fetch_word(c);
    let low = c.get_data_at(Some(addr));
    let high = c.get_data_at(Some(wrapping_inc(addr)));
    c.put_reg(Register::L, low);
    c.put_reg(Register::H, high);
}

fn sta(c: &mut Microcontroller)
    requires
        old(c)@.valid(),
    ensures
        final(c)@ == execute_spec(old(c)@, Instr::Sta),
{
    let addr = fetch_word(c);
    let a = c.reg(Register::A);
    c.set_data_at(Some(addr), a);
}

fn lda(c: &mut Microcontroller)
    requires
        old(c)@.valid(),
    ensures
        final(c)@ == execute_spec(old(c)@, Instr::Lda),
{
    let addr = fetch_word(c);
    let v = c.get_data_at(Some(addr));
    c.put_reg(Register::A, v);
}

/// Rotates, DAA, CMA, STC and CMC: operations on A and the flags alone.
fn accumulator_op(c: &mut Microcontroller, i: Instr)
    requires
        old(c)@.valid(),
        i is Rlc || i is Rrc || i is Ral || i is Rar || i is Daa || i is Cma || i is Stc || i is Cmc,
    ensures
        final(c)@ == execute_spec(old(c)@, i),
{
    let a = c.reg(Register::A);
    let f = c.flags();
    match i {
        Instr::Rlc => c.put_result(rlc8(a, f)),
        Instr::Rrc => c.put_result(rrc8(a, f)),
        Instr::Ral => c.put_result(ral8(a, f)),
        Instr::Rar => c.put_result(rar8(a, f)),
        Instr::Daa => c.put_result(daa8(a, f)),
        Instr::Cma => c.put_reg(Register::A, 255 - a),
        Instr::Stc => c.put_flags(Flags { carry: true, ..f }),
        _ => c.put_flags(Flags { carry: !f.carry, ..f }),
    }
}

/// RET and the conditional returns.
fn ret(c: &mut Microcontroller, taken: bool)
    requires
        old(c)@.valid(),
    ensures
        taken ==> final(c)@ == crate::isa::ret_spec(old(c)@),
        !taken ==> final(c)@ == old(c)@,
{
    if taken {
        let pc = top_of_stack(c);
        drop_word(c);
        c.set_program_counter(pc);
    }
}

fn pop(c: &mut Microcontroller, rp: Register)
    requires
        old(c)@.valid(),
        rp is B || rp is D || rp is H || rp is PSW,
    ensures
        final(c)@ == execute_spec(old(c)@, Instr::Pop(rp)),
{
    let v = top_of_stack(c);
    drop_word(c);
    c.put_pair(rp, v);
}

fn push(c: &mut Microcontroller, rp: Register)
    requires
        old(c)@.valid(),
        rp is B || rp is D || rp is H || rp is PSW,
    ensures
        final(c)@ == execute_spec(old(c)@, Instr::Push(rp)),
{
    let v = c.pair(rp);
    push_value(c, v);
}

/// JMP and the conditional jumps: the address is consumed either way.
fn jmp(c: &mut Microcontroller, taken: bool)
    requires
        old(c)@.valid(),
    ensures
        taken ==> final(c)@ == old(c)@.fetched().fetched().with_pc(imm16(old(c)@)),
        !taken ==> final(c)@ == old(c)@.fetched().fetched(),
{
    let addr = fetch_word(c);
    if taken {
        c.set_program_counter(addr);
    }
}

/// CALL and the conditional calls: the address is consumed either way.
fn call(c: &mut Microcontroller, taken: bool)
    requires
        old(c)@.valid(),
    ensures
        taken ==> final(c)@ == push_word(
            old(c)@.fetched().fetched(),
            old(c)@.fetched().fetched().pc,
        ).with_pc(imm16(old(c)@)),
        !taken ==> final(c)@ == old(c)@.fetched().fetched(),
{
    let addr = fetch_word(c);
    if taken {
        let back = c.program_counter();
        push_value(c, back);
        c.set_program_counter(addr);
    }
}

/// RST n: a call to address 8n.
fn reset(c: &mut Microcontroller, n: u8)
    requires
        old(c)@.valid(),
        n < 8,
    ensures
        final(c)@ == execute_spec(old(c)@, Instr::Rst(n)),
{
    let back = c.program_counter();
    push_value(c, back);
    c.set_program_counter(n as u16 * 8);
}

fn output(c: &mut Microcontroller)
    requires
        old(c)@.valid(),
    ensures
        final(c)@ == execute_spec(old(c)@, Instr::Out),
{
    let port = c.fetch();
    let a = c.reg(Register::A);
    c.write_io(port as u16, a);
}

fn input(c: &mut Microcontroller)
    requires
        old(c)@.valid(),
    ensures
        final(c)@ == execute_spec(old(c)@, Instr::In),
{
    let port = c.fetch();
    let v = c.read_io(port as u16);
    c.put_reg(Register::A, v);
}

/// Exchange H:L with the word on top of the stack.
pub fn xthl(controller: &mut Microcontroller)
    requires
        old(controller)@.valid(),
    ensures
        final(controller)@ == execute_spec(old(controller)@, Instr::Xthl),
{
    let sp = controller.pair(Register::SP);
    let top = top_of_stack(controller);
    let l = controller.reg(Register::L);
    let h = controller.reg(Register::H);
    controller.set_data_at(Some(sp), l);
    controller.set_data_at(Some(wrapping_inc(sp)), h);
    controller.put_pair(Register::H, top);
}

fn xchg(c: &mut Microcontroller)
    ensures
        final(c)@ == execute_spec(old(c)@, Instr::Xchg),
{
    let de = c.pair(Register::D);
    let hl = c.pair(Register::H);
    proof {
        lemma_word_bytes(old(c)@.d, old(c)@.e);
        lemma_word_bytes(old(c)@.h, old(c)@.l);
    }
    c.put_pair(Register::H, de);
    c.put_pair(Register::D, hl);
}

/// Returns, jumps, calls and POP: the instructions that read the stack or move PC.
fn control_transfer(c: &mut Microcontroller, i: Instr)
    requires
        old(c)@.valid(),
        well_formed(i),
        i is RetIf || i is Ret || i is Pop || i is JumpIf || i is Jmp || i is CallIf || i is Call,
    ensures
        final(c)@ == execute_spec(old(c)@, i),
{
    match i {
        Instr::RetIf(cond) => {
            let taken = condition(c.flags(), cond);
            ret(c, taken);
        },
        Instr::Ret => ret(c, true),
        Instr::Pop(rp) => pop(c, rp),
        Instr::JumpIf(cond) => {
            let taken = condition(c.flags(), cond);
            jmp(c, taken);
        },
        Instr::Jmp => jmp(c, true),
        Instr::CallIf(cond) => {
            let taken = condition(c.flags(), cond);
            call(c, taken);
        },
        _ => call(c, true),
    }
}

/// Carry out one decoded instruction.
pub fn dispatch(c: &mut Microcontroller, i: Instr)
    requires
        old(c)@.valid(),
        well_formed(i),
    ensures
        final(c)@ == execute_spec(old(c)@, i),
        final(c)@.valid(),
{
    match i {
        Instr::Nop | Instr::Rim | Instr::Sim => {},
        Instr::Lxi(rp) => lxi(c, rp),
        Instr::Stax(rp) => stax(c, rp),
        Instr::Ldax(rp) => ldax(c, rp),
        Instr::Inx(rp) => inx(c, rp),
        Instr::Dcx(rp) => dcx(c, rp),
        Instr::Dad(rp) => dadd(c, rp),
        Instr::Inr(r) => inr(c, r),
        Instr::Dcr(r) => dcr(c, r),
        Instr::Mvi(r) => mvi(c, r),
        Instr::Rlc | Instr::Rrc | Instr::Ral | Instr::Rar | Instr::Daa | Instr::Cma | Instr::Stc
        | Instr::Cmc => accumulator_op(c, i),
        Instr::Shld => shld(c),
        Instr::Lhld => lhld(c),
        Instr::Sta => sta(c),
        Instr::Lda => lda(c),
        Instr::Mov(to, from) => mov(c, to, from),
        Instr::Hlt => c.stop(),
        Instr::Alu(op, r) => alu_reg(c, op, r),
        Instr::AluImm(op) => alu_imm(c, op),
        Instr::RetIf(_) | Instr::Ret | Instr::Pop(_) | Instr::JumpIf(_) | Instr::Jmp
        | Instr::CallIf(_) | Instr::Call => control_transfer(c, i),
        Instr::Push(rp) => push(c, rp),
        Instr::Rst(n) => reset(c, n),
        Instr::Out => output(c),
        Instr::In => input(c),
        Instr::Xthl => xthl(c),
        Instr::Pchl => {
            let hl = c.pair(Register::H);
            c.set_program_counter(hl);
        },
        Instr::Sphl => {
            let hl = c.pair(Register::H);
            c.put_pair(Register::SP, hl);
        },
        Instr::Xchg => xchg(c),
        Instr::Di => c.disable_interrupts(),
        Instr::Ei => c.enable_interrupts(),
    }
}

} // verus!
