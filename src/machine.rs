//! The mathematical model of the 8085's architectural state.
use vstd::prelude::*;

verus! {

/// Size of the address space in bytes.
pub const MEMORY_SIZE: usize = 65536;

/// Number of I/O ports.
pub const IO_SIZE: usize = 256;

/// Registers as named by the simulator's typed accessors.
#[derive(Clone, Copy, PartialEq, Eq, Structural, Debug)]
pub enum Register {
    A,
    B,
    C,
    D,
    E,
    H,
    L,
    M,
    SP,
    PSW,
}

/// The five condition flags of the status byte.
#[derive(Clone, Copy, PartialEq, Eq, Structural, Debug)]
pub enum Flag {
    Parity,
    Sign,
    Zero,
    Carry,
    AuxCarry,
}

/// The condition flags, one field per flag.
#[derive(Clone, Copy, PartialEq, Eq, Structural, Debug)]
pub struct Flags {
    pub sign: bool,
    pub zero: bool,
    pub aux_carry: bool,
    pub parity: bool,
    pub carry: bool,
}

/// The complete architectural state of the machine.
pub struct Machine {
    pub a: u8,
    pub b: u8,
    pub c: u8,
    pub d: u8,
    pub e: u8,
    pub h: u8,
    pub l: u8,
    pub sp: u16,
    pub pc: u16,
    pub ir: u8,
    pub flags: Flags,
    pub mem: Seq<u8>,
    pub io: Seq<u8>,
    pub interrupts: bool,
    pub running: bool,
}

/// The 16-bit value with the given high and low bytes.
pub open spec fn word(high: u8, low: u8) -> u16 {
    (high as int * 256 + low as int) as u16
}

pub open spec fn high_byte(v: u16) -> u8 {
    (v / 256) as u8
}

pub open spec fn low_byte(v: u16) -> u8 {
    (v % 256) as u8
}

/// `x` reduced modulo 2^8.
pub open spec fn wrap8(x: int) -> u8 {
    (x % 256) as u8
}

/// `x` reduced modulo 2^16.
pub open spec fn wrap16(x: int) -> u16 {
    (x % 65536) as u16
}

pub open spec fn bit_value(b: bool, weight: int) -> int {
    if b {
        weight
    } else {
        0
    }
}

/// The status byte: S in bit 7, Z in bit 6, AC in bit 4, P in bit 2, C in bit 0; the other bits are 0.
pub open spec fn flag_byte(f: Flags) -> u8 {
    (bit_value(f.sign, 128) + bit_value(f.zero, 64) + bit_value(f.aux_carry, 16) + bit_value(
        f.parity,
        4,
    ) + bit_value(f.carry, 1)) as u8
}

/// The flags held by a status byte.
pub open spec fn flags_from_byte(v: u8) -> Flags {
    Flags {
        sign: (v / 128) % 2 == 1,
        zero: (v / 64) % 2 == 1,
        aux_carry: (v / 16) % 2 == 1,
        parity: (v / 4) % 2 == 1,
        carry: v % 2 == 1,
    }
}

/// A byte whose unused status bits (1, 3 and 5) are clear.
pub open spec fn is_status_byte(v: u8) -> bool {
    (v / 2) % 2 == 0 && (v / 8) % 2 == 0 && (v / 32) % 2 == 0
}

/// Number of set bits of `x`.
pub open spec fn ones(x: nat) -> nat
    decreases x,
{
    if x == 0 {
        0
    } else {
        x % 2 + ones(x / 2)
    }
}

/// True iff `v` has an even number of set bits.
pub open spec fn even_parity(v: nat) -> bool {
    ones(v) % 2 == 0
}

/// Registers that name a single byte: A, B, C, D, E, H, L and M.
pub open spec fn is_byte_register(r: Register) -> bool {
    !(r is SP || r is PSW)
}

/// Registers that name a pair: B, D, H, SP and PSW.
pub open spec fn is_pair_register(r: Register) -> bool {
    r is B || r is D || r is H || r is SP || r is PSW
}

/// The machine right after construction: everything zero, halted.
pub open spec fn initial_machine() -> Machine {
    Machine {
        a: 0,
        b: 0,
        c: 0,
        d: 0,
        e: 0,
        h: 0,
        l: 0,
        sp: 0,
        pc: 0,
        ir: 0,
        flags: Flags { sign: false, zero: false, aux_carry: false, parity: false, carry: false },
        mem: Seq::new(MEMORY_SIZE as nat, |i: int| 0u8),
        io: Seq::new(IO_SIZE as nat, |i: int| 0u8),
        interrupts: false,
        running: false,
    }
}

/// A word splits back into the bytes it was made of.
pub proof fn lemma_word_bytes(high: u8, low: u8)
    ensures
        high_byte(word(high, low)) == high,
        low_byte(word(high, low)) == low,
{
}

/// A word is made of its two bytes.
pub proof fn lemma_bytes_word(v: u16)
    ensures
        word(high_byte(v), low_byte(v)) == v,
{
}

impl Machine {
    /// Memory and I/O space have their fixed sizes.
    pub open spec fn valid(self) -> bool {
        self.mem.len() == MEMORY_SIZE && self.io.len() == IO_SIZE
    }

    pub open spec fn hl(self) -> u16 {
        word(self.h, self.l)
    }

    pub open spec fn read(self, addr: u16) -> u8 {
        self.mem[addr as int]
    }

    pub open spec fn write(self, addr: u16, v: u8) -> Machine {
        Machine { mem: self.mem.update(addr as int, v), ..self }
    }

    /// The byte held by a byte register; M is the byte at H:L.
    pub open spec fn reg(self, r: Register) -> u8 {
        match r {
            Register::A => self.a,
            Register::B => self.b,
            Register::C => self.c,
            Register::D => self.d,
            Register::E => self.e,
            Register::H => self.h,
            Register::L => self.l,
            Register::M => self.read(self.hl()),
            _ => 0,
        }
    }

    /// The machine after writing `v` to a byte register; writing M writes memory at H:L.
    pub open spec fn with_reg(self, r: Register, v: u8) -> Machine {
        match r {
            Register::A => Machine { a: v, ..self },
            Register::B => Machine { b: v, ..self },
            Register::C => Machine { c: v, ..self },
            Register::D => Machine { d: v, ..self },
            Register::E => Machine { e: v, ..self },
            Register::H => Machine { h: v, ..self },
            Register::L => Machine { l: v, ..self },
            Register::M => self.write(self.hl(), v),
            _ => self,
        }
    }

    /// The word held by a register pair; PSW is A above the status byte.
    pub open spec fn pair(self, r: Register) -> u16 {
        match r {
            Register::B => word(self.b, self.c),
            Register::D => word(self.d, self.e),
            Register::H => word(self.h, self.l),
            Register::SP => self.sp,
            Register::PSW => word(self.a, flag_byte(self.flags)),
            _ => 0,
        }
    }

    /// The machine after writing `v` to a register pair.
    pub open spec fn with_pair(self, r: Register, v: u16) -> Machine {
        match r {
            Register::B => Machine { b: high_byte(v), c: low_byte(v), ..self },
            Register::D => Machine { d: high_byte(v), e: low_byte(v), ..self },
            Register::H => Machine { h: high_byte(v), l: low_byte(v), ..self },
            Register::SP => Machine { sp: v, ..self },
            Register::PSW => Machine { a: high_byte(v), flags: flags_from_byte(low_byte(v)), ..self },
            _ => self,
        }
    }

    pub open spec fn flag(self, f: Flag) -> bool {
        match f {
            Flag::Sign => self.flags.sign,
            Flag::Zero => self.flags.zero,
            Flag::AuxCarry => self.flags.aux_carry,
            Flag::Parity => self.flags.parity,
            Flag::Carry => self.flags.carry,
        }
    }

    pub open spec fn with_flag(self, f: Flag, v: bool) -> Machine {
        Machine {
            flags: match f {
                Flag::Sign => Flags { sign: v, ..self.flags },
                Flag::Zero => Flags { zero: v, ..self.flags },
                Flag::AuxCarry => Flags { aux_carry: v, ..self.flags },
                Flag::Parity => Flags { parity: v, ..self.flags },
                Flag::Carry => Flags { carry: v, ..self.flags },
            },
            ..self
        }
    }

    pub open spec fn with_flags(self, f: Flags) -> Machine {
        Machine { flags: f, ..self }
    }

    /// The machine with its running latch set.
    pub open spec fn started(self) -> Machine {
        Machine { running: true, ..self }
    }

    pub open spec fn with_pc(self, pc: u16) -> Machine {
        Machine { pc, ..self }
    }

    /// One fetch: the byte at PC goes to the instruction register and PC advances.
    pub open spec fn fetched(self) -> Machine {
        Machine { ir: self.read(self.pc), pc: wrap16(self.pc + 1), ..self }
    }
}

/// Reading a byte register right after writing it gives back the byte written.
pub proof fn lemma_register_round_trip(m: Machine, r: Register, v: u8)
    requires
        m.valid(),
        is_byte_register(r),
    ensures
        m.with_reg(r, v).reg(r) == v,
{
}

/// Reading a register pair right after writing it gives back the word written. For PSW the
/// low byte must be a status byte, since the unused flag bits always read as 0.
pub proof fn lemma_pair_round_trip(m: Machine, r: Register, v: u16)
    requires
        is_pair_register(r),
        r is PSW ==> is_status_byte(low_byte(v)),
    ensures
        m.with_pair(r, v).pair(r) == v,
{
    lemma_bytes_word(v);
    if r is PSW {
        let b = low_byte(v);
        assert(flag_byte(flags_from_byte(b)) == b) by {
            assert(b == 128 * ((b / 128) % 2) + 64 * ((b / 64) % 2) + 32 * ((b / 32) % 2) + 16 * ((b
                / 16) % 2) + 8 * ((b / 8) % 2) + 4 * ((b / 4) % 2) + 2 * ((b / 2) % 2) + b % 2);
        }
    }
}

/// Writing a register pair's own value back leaves the machine as it was.
pub proof fn lemma_pair_write_back(m: Machine, r: Register)
    requires
        is_pair_register(r),
    ensures
        m.with_pair(r, m.pair(r)) == m,
{
    lemma_word_bytes(m.b, m.c);
    lemma_word_bytes(m.d, m.e);
    lemma_word_bytes(m.h, m.l);
    lemma_word_bytes(m.a, flag_byte(m.flags));
    assert(flags_from_byte(flag_byte(m.flags)) == m.flags);
}

} // verus!
