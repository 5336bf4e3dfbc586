//! The instruction set: how an opcode byte decodes, and what each instruction does to the machine.
use vstd::prelude::*;
use crate::alu::{
    AluOut, add_spec, sub_spec, and_spec, or_spec, xor_spec, inc_spec, dec_spec, daa_spec,
    rlc_spec, rrc_spec, ral_spec, rar_spec, add16_spec,
};
use crate::machine::{Flags, Machine, Register, even_parity, is_byte_register, word, high_byte, low_byte, wrap16};

verus! {

/// The eight accumulator operations, in encoding order.
#[derive(Clone, Copy, PartialEq, Eq, Structural, Debug)]
pub enum AluOp {
    Add,
    Adc,
    Sub,
    Sbb,
    Ana,
    Xra,
    Ora,
    Cmp,
}

/// Branch conditions, in encoding order.
#[derive(Clone, Copy, PartialEq, Eq, Structural, Debug)]
pub enum Cond {
    NotZero,
    Zero,
    NoCarry,
    Carry,
    ParityOdd,
    ParityEven,
    Plus,
    Minus,
}

/// A decoded instruction.
#[derive(Clone, Copy, PartialEq, Eq, Structural, Debug)]
pub enum Instr {
    Nop,
    Lxi(Register),
    Stax(Register),
    Ldax(Register),
    Inx(Register),
    Dcx(Register),
    Dad(Register),
    Inr(Register),
    Dcr(Register),
    Mvi(Register),
    Rlc,
    Rrc,
    Ral,
    Rar,
    Daa,
    Cma,
    Stc,
    Cmc,
    Shld,
    Lhld,
    Sta,
    Lda,
    Rim,
    Sim,
    Mov(Register, Register),
    Hlt,
    Alu(AluOp, Register),
    AluImm(AluOp),
    RetIf(Cond),
    Ret,
    Pop(Register),
    JumpIf(Cond),
    Jmp,
    CallIf(Cond),
    Call,
    Push(Register),
    Rst(u8),
    Out,
    In,
    Xthl,
    Pchl,
    Sphl,
    Xchg,
    Di,
    Ei,
}

/// The byte register named by a 3-bit field: B C D E H L M A.
pub open spec fn reg_code(n: int) -> Register {
    if n == 0 {
        Register::B
    } else if n == 1 {
        Register::C
    } else if n == 2 {
        Register::D
    } else if n == 3 {
        Register::E
    } else if n == 4 {
        Register::H
    } else if n == 5 {
        Register::L
    } else if n == 6 {
        Register::M
    } else {
        Register::A
    }
}

/// The pair named by a 2-bit field: B D H SP.
pub open spec fn pair_code(n: int) -> Register {
    if n == 0 {
        Register::B
    } else if n == 1 {
        Register::D
    } else if n == 2 {
        Register::H
    } else {
        Register::SP
    }
}

/// The pair named by a 2-bit field of PUSH and POP: B D H PSW.
pub open spec fn stack_pair_code(n: int) -> Register {
    if n == 3 {
        Register::PSW
    } else {
        pair_code(n)
    }
}

pub open spec fn alu_code(n: int) -> AluOp {
    if n == 0 {
        AluOp::Add
    } else if n == 1 {
        AluOp::Adc
    } else if n == 2 {
        AluOp::Sub
    } else if n == 3 {
        AluOp::Sbb
    } else if n == 4 {
        AluOp::Ana
    } else if n == 5 {
        AluOp::Xra
    } else if n == 6 {
        AluOp::Ora
    } else {
        AluOp::Cmp
    }
}

pub open spec fn cond_code(n: int) -> Cond {
    if n == 0 {
        Cond::NotZero
    } else if n == 1 {
        Cond::Zero
    } else if n == 2 {
        Cond::NoCarry
    } else if n == 3 {
        Cond::Carry
    } else if n == 4 {
        Cond::ParityOdd
    } else if n == 5 {
        Cond::ParityEven
    } else if n == 6 {
        Cond::Plus
    } else {
        Cond::Minus
    }
}

/// The 8085 opcode map, read as fields xx yyy zzz of the opcode byte (yyy = pp q).
/// Undefined opcodes decode as NOP.
pub open spec fn decode(op: u8) -> Instr {
    let x = op as int / 64;
    let y = (op as int / 8) % 8;
    let z = op as int % 8;
    let p = y / 2;
    let q = y % 2;
    if x == 0 {
        if z == 0 {
            if op == 0x20 {
                Instr::Rim
            } else if op == 0x30 {
                Instr::Sim
            } else {
                Instr::Nop
            }
        } else if z == 1 {
            if q == 0 {
                Instr::Lxi(pair_code(p))
            } else {
                Instr::Dad(pair_code(p))
            }
        } else if z == 2 {
            if p < 2 {
                if q == 0 {
                    Instr::Stax(pair_code(p))
                } else {
                    Instr::Ldax(pair_code(p))
                }
            } else if p == 2 {
                if q == 0 {
                    Instr::Shld
                } else {
                    Instr::Lhld
                }
            } else if q == 0 {
                Instr::Sta
            } else {
                Instr::Lda
            }
        } else if z == 3 {
            if q == 0 {
                Instr::Inx(pair_code(p))
            } else {
                Instr::Dcx(pair_code(p))
            }
        } else if z == 4 {
            Instr::Inr(reg_code(y))
        } else if z == 5 {
            Instr::Dcr(reg_code(y))
        } else if z == 6 {
            Instr::Mvi(reg_code(y))
        } else if y == 0 {
            Instr::Rlc
        } else if y == 1 {
            Instr::Rrc
        } else if y == 2 {
            Instr::Ral
        } else if y == 3 {
            Instr::Rar
        } else if y == 4 {
            Instr::Daa
        } else if y == 5 {
            Instr::Cma
        } else if y == 6 {
            Instr::Stc
        } else {
            Instr::Cmc
        }
    } else if x == 1 {
        if op == 0x76 {
            Instr::Hlt
        } else {
            Instr::Mov(reg_code(y), reg_code(z))
        }
    } else if x == 2 {
        Instr::Alu(alu_code(y), reg_code(z))
    } else if z == 0 {
        Instr::RetIf(cond_code(y))
    } else if z == 1 {
        if q == 0 {
            Instr::Pop(stack_pair_code(p))
        } else if p == 0 {
            Instr::Ret
        } else if p == 2 {
            Instr::Pchl
        } else if p == 3 {
            Instr::Sphl
        } else {
            Instr::Nop
        }
    } else if z == 2 {
        Instr::JumpIf(cond_code(y))
    } else if z == 3 {
        if y == 0 {
            Instr::Jmp
        } else if y == 2 {
            Instr::Out
        } else if y == 3 {
            Instr::In
        } else if y == 4 {
            Instr::Xthl
        } else if y == 5 {
            Instr::Xchg
        } else if y == 6 {
            Instr::Di
        } else if y == 7 {
            Instr::Ei
        } else {
            Instr::Nop
        }
    } else if z == 4 {
        Instr::CallIf(cond_code(y))
    } else if z == 5 {
        if q == 0 {
            Instr::Push(stack_pair_code(p))
        } else if p == 0 {
            Instr::Call
        } else {
            Instr::Nop
        }
    } else if z == 6 {
        Instr::AluImm(alu_code(y))
    } else {
        Instr::Rst(y as u8)
    }
}

pub open spec fn cond_holds(f: Flags, c: Cond) -> bool {
    match c {
        Cond::NotZero => !f.zero,
        Cond::Zero => f.zero,
        Cond::NoCarry => !f.carry,
        Cond::Carry => f.carry,
        Cond::ParityOdd => !f.parity,
        Cond::ParityEven => f.parity,
        Cond::Plus => !f.sign,
        Cond::Minus => f.sign,
    }
}

/// The byte operand that follows the opcode.
pub open spec fn imm8(m: Machine) -> u8 {
    m.read(m.pc)
}

/// The little-endian word operand that follows the opcode.
pub open spec fn imm16(m: Machine) -> u16 {
    word(m.read(wrap16(m.pc + 1)), m.read(m.pc))
}

/// The machine with an ALU result in A and its flags.
pub open spec fn with_result(m: Machine, o: AluOut) -> Machine {
    Machine { a: o.value, flags: o.flags, ..m }
}

/// The result of an accumulator operation on A and `v`.
pub open spec fn alu_result(op: AluOp, a: u8, v: u8, f: Flags) -> AluOut {
    match op {
        AluOp::Add => add_spec(a, v, false),
        AluOp::Adc => add_spec(a, v, f.carry),
        AluOp::Sub => sub_spec(a, v, false),
        AluOp::Sbb => sub_spec(a, v, f.carry),
        AluOp::Ana => and_spec(a, v),
        AluOp::Xra => xor_spec(a, v),
        AluOp::Ora => or_spec(a, v),
        AluOp::Cmp => AluOut { value: a, flags: sub_spec(a, v, false).flags },
    }
}

/// Push a word: SP-1 gets the high byte, SP-2 the low byte, SP becomes SP-2.
pub open spec fn push_word(m: Machine, v: u16) -> Machine {
    let m1 = m.write(wrap16(m.sp - 1), high_byte(v)).write(wrap16(m.sp - 2), low_byte(v));
    Machine { sp: wrap16(m.sp - 2), ..m1 }
}

/// The word on top of the stack (low byte at SP).
pub open spec fn top_word(m: Machine) -> u16 {
    word(m.read(wrap16(m.sp + 1)), m.read(m.sp))
}

/// The machine after removing a word from the stack.
pub open spec fn popped(m: Machine) -> Machine {
    Machine { sp: wrap16(m.sp + 2), ..m }
}

pub open spec fn ret_spec(m: Machine) -> Machine {
    popped(m).with_pc(top_word(m))
}

/// What an instruction does, starting from the machine right after its opcode was fetched.
pub open spec fn execute_spec(m: Machine, i: Instr) -> Machine {
    let after8 = m.fetched();
    let after16 = m.fetched().fetched();
    match i {
        Instr::Nop | Instr::Rim | Instr::Sim => m,
        Instr::Lxi(rp) => after16.with_pair(rp, imm16(m)),
        Instr::Stax(rp) => m.write(m.pair(rp), m.a),
        Instr::Ldax(rp) => m.with_reg(Register::A, m.read(m.pair(rp))),
        Instr::Inx(rp) => m.with_pair(rp, wrap16(m.pair(rp) + 1)),
        Instr::Dcx(rp) => m.with_pair(rp, wrap16(m.pair(rp) - 1)),
        Instr::Dad(rp) => {
            let s = add16_spec(m.hl(), m.pair(rp));
            m.with_pair(Register::H, s.0).with_flags(Flags { carry: s.1, ..m.flags })
        },
        Instr::Inr(r) => {
            let o = inc_spec(m.reg(r), m.flags.carry);
            m.with_reg(r, o.value).with_flags(o.flags)
        },
        Instr::Dcr(r) => {
            let o = dec_spec(m.reg(r), m.flags.carry);
            m.with_reg(r, o.value).with_flags(o.flags)
        },
        Instr::Mvi(r) => after8.with_reg(r, imm8(m)),
        Instr::Rlc => with_result(m, rlc_spec(m.a, m.flags)),
        Instr::Rrc => with_result(m, rrc_spec(m.a, m.flags)),
        Instr::Ral => with_result(m, ral_spec(m.a, m.flags)),
        Instr::Rar => with_result(m, rar_spec(m.a, m.flags)),
        Instr::Daa => with_result(m, daa_spec(m.a, m.flags)),
        Instr::Cma => Machine { a: (255 - m.a) as u8, ..m },
        Instr::Stc => m.with_flags(Flags { carry: true, ..m.flags }),
        Instr::Cmc => m.with_flags(Flags { carry: !m.flags.carry, ..m.flags }),
        Instr::Shld => after16.write(imm16(m), m.l).write(wrap16(imm16(m) + 1), m.h),
        Instr::Lhld => after16.with_reg(Register::L, m.read(imm16(m))).with_reg(
            Register::H,
            m.read(wrap16(imm16(m) + 1)),
        ),
        Instr::Sta => after16.write(imm16(m), m.a),
        Instr::Lda => after16.with_reg(Register::A, m.read(imm16(m))),
        Instr::Mov(d, s) => m.with_reg(d, m.reg(s)),
        Instr::Hlt => Machine { running: false, ..m },
        Instr::Alu(op, r) => with_result(m, alu_result(op, m.a, m.reg(r), m.flags)),
        Instr::AluImm(op) => with_result(after8, alu_result(op, m.a, imm8(m), m.flags)),
        Instr::RetIf(c) => if cond_holds(m.flags, c) {
            ret_spec(m)
        } else {
            m
        },
        Instr::Ret => ret_spec(m),
        Instr::Pop(rp) => popped(m).with_pair(rp, top_word(m)),
        Instr::JumpIf(c) => if cond_holds(m.flags, c) {
            after16.with_pc(imm16(m))
        } else {
            after16
        },
        Instr::Jmp => after16.with_pc(imm16(m)),
        Instr::CallIf(c) => if cond_holds(m.flags, c) {
            push_word(after16, after16.pc).with_pc(imm16(m))
        } else {
            after16
        },
        Instr::Call => push_word(after16, after16.pc).with_pc(imm16(m)),
        Instr::Push(rp) => push_word(m, m.pair(rp)),
        Instr::Rst(n) => push_word(m, m.pc).with_pc((n * 8) as u16),
        Instr::Out => Machine { io: after8.io.update(imm8(m) as int, m.a), ..after8 },
        Instr::In => after8.with_reg(Register::A, m.io[imm8(m) as int]),
        Instr::Xthl => m.write(m.sp, m.l).write(wrap16(m.sp + 1), m.h).with_pair(
            Register::H,
            top_word(m),
        ),
        Instr::Pchl => m.with_pc(m.hl()),
        Instr::Sphl => Machine { sp: m.hl(), ..m },
        Instr::Xchg => Machine { d: m.h, e: m.l, h: m.d, l: m.e, ..m },
        Instr::Di => Machine { interrupts: false, ..m },
        Instr::Ei => Machine { interrupts: true, ..m },
    }
}

/// One fetch-decode-execute cycle; a machine that is not running stays as it is.
pub open spec fn step(m: Machine) -> Machine {
    if m.running {
        execute_spec(m.fetched(), decode(m.read(m.pc)))
    } else {
        m
    }
}

/// `n` cycles.
pub open spec fn steps(m: Machine, n: nat) -> Machine
    decreases n,
{
    if n == 0 {
        m
    } else {
        steps(step(m), (n - 1) as nat)
    }
}

/// Running `n + 1` cycles is running `n` and then one more.
pub proof fn lemma_steps_last(m: Machine, n: nat)
    ensures
        steps(m, n + 1) == step(steps(m, n)),
    decreases n,
{
    if n == 0 {
        assert(steps(step(m), 0) == step(m));
    } else {
        lemma_steps_last(step(m), (n - 1) as nat);
        assert(steps(m, n) == steps(step(m), (n - 1) as nat));
    }
}

/// The instructions that `decode` produces: each names registers of the class it works on.
pub open spec fn well_formed(i: Instr) -> bool {
    match i {
        Instr::Lxi(rp) | Instr::Inx(rp) | Instr::Dcx(rp) | Instr::Dad(rp) => rp is B || rp is D
            || rp is H || rp is SP,
        Instr::Stax(rp) | Instr::Ldax(rp) => rp is B || rp is D,
        Instr::Inr(r) | Instr::Dcr(r) | Instr::Mvi(r) | Instr::Alu(_, r) => is_byte_register(r),
        Instr::Mov(d, s) => is_byte_register(d) && is_byte_register(s),
        Instr::Pop(rp) | Instr::Push(rp) => rp is B || rp is D || rp is H || rp is PSW,
        Instr::Rst(n) => n < 8,
        _ => true,
    }
}
/// Instructions that leave an ALU result in A: arithmetic and logic other than compare,
/// increment and decrement of A, and decimal adjust.
pub open spec fn writes_accumulator_result(i: Instr) -> bool {
    match i {
        Instr::Alu(op, _) | Instr::AluImm(op) => !(op is Cmp),
        Instr::Inr(r) | Instr::Dcr(r) => r is A,
        Instr::Daa => true,
        _ => false,
    }
}

/// After an instruction that leaves an ALU result in A, Z is set iff A is 0, S iff A is at
/// least 128, and P iff A has even parity.
pub proof fn lemma_flags_describe_accumulator(m: Machine, i: Instr)
    requires
        writes_accumulator_result(i),
    ensures
        execute_spec(m, i).flags.zero == (execute_spec(m, i).a == 0),
        execute_spec(m, i).flags.sign == (execute_spec(m, i).a >= 128),
        execute_spec(m, i).flags.parity == even_parity(execute_spec(m, i).a as nat),
{
}
} // verus!
