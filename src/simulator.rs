//! The simulated microcontroller: registers, flags, memory, I/O ports and the fetch-execute loop.
use vstd::prelude::*;
use crate::alu::{AluOut, parity8, parity16, result_flags};
use crate::instructions;
pub use crate::machine::{Flag, Register};
use crate::isa::{decode, execute_spec, step, steps};
use crate::machine::{
    Flags, Machine, IO_SIZE, MEMORY_SIZE, even_parity, flag_byte, flags_from_byte,
    initial_machine, is_byte_register, is_pair_register, word, wrap16,
};

verus! {

/// Addresses below this are reserved and never receive loaded code.
pub const MEMORY_LOWER_LIMIT: usize = 1024;

/// Loaded code must end at or below this address.
pub const MEMORY_UPPER_LIMIT: usize = 64000;

pub struct Microcontroller {
    reg_a: u8,
    reg_b: u8,
    reg_c: u8,
    reg_d: u8,
    reg_e: u8,
    reg_h: u8,
    reg_l: u8,
    stack_pointer: u16,
    flags: Flags,
    program_counter: u16,
    instruction_register: u8,
    memory: Vec<u8>,
    io: Vec<u8>,
    interrupts: bool,
    running: bool,
}

impl View for Microcontroller {
    type V = Machine;

    closed spec fn view(&self) -> Machine {
        Machine {
            a: self.reg_a,
            b: self.reg_b,
            c: self.reg_c,
            d: self.reg_d,
            e: self.reg_e,
            h: self.reg_h,
            l: self.reg_l,
            sp: self.stack_pointer,
            pc: self.program_counter,
            ir: self.instruction_register,
            flags: self.flags,
            mem: self.memory@,
            io: self.io@,
            interrupts: self.interrupts,
            running: self.running,
        }
    }
}

/// `code` copied into `mem` from address `at` on.
pub open spec fn loaded(mem: Seq<u8>, code: Seq<u8>, at: int) -> Seq<u8> {
    Seq::new(
        mem.len(),
        |i: int|
            if at <= i < at + code.len() {
                code[i - at]
            } else {
                mem[i]
            },
    )
}

/// The status byte of a set of flags.
pub fn flags_to_byte(f: Flags) -> (r: u8)
    ensures
        r == flag_byte(f),
{
    let s: u8 = if f.sign {
        128
    } else {
        0
    };
    let z: u8 = if f.zero {
        64
    } else {
        0
    };
    let ac: u8 = if f.aux_carry {
        16
    } else {
        0
    };
    let p: u8 = if f.parity {
        4
    } else {
        0
    };
    let c: u8 = if f.carry {
        1
    } else {
        0
    };
    s + z + ac + p + c
}

/// The flags held by a status byte.
pub fn byte_to_flags(v: u8) -> (r: Flags)
    ensures
        r == flags_from_byte(v),
{
    Flags {
        sign: (v / 128) % 2 == 1,
        zero: (v / 64) % 2 == 1,
        aux_carry: (v / 16) % 2 == 1,
        parity: (v / 4) % 2 == 1,
        carry: v % 2 == 1,
    }
}

fn next_address(v: u16) -> (r: u16)
    ensures
        r == wrap16(v + 1),
{
    if v == 65535 {
        0
    } else {
        v + 1
    }
}

impl Microcontroller {
    /// A machine with every register, flag, memory byte and port zero, not running.
    pub fn new() -> (r: Microcontroller)
        ensures
            r@ == initial_machine(),
            r@.valid(),
    {
        let r = Microcontroller {
            reg_a: 0,
            reg_b: 0,
            reg_c: 0,
            reg_d: 0,
            reg_e: 0,
            reg_h: 0,
            reg_l: 0,
            stack_pointer: 0,
            flags: Flags { sign: false, zero: false, aux_carry: false, parity: false, carry: false },
            program_counter: 0,
            instruction_register: 0,
            memory: vec![0u8; MEMORY_SIZE],
            io: vec![0u8; IO_SIZE],
            interrupts: false,
            running: false,
        };
        assert(r.memory@ =~= initial_machine().mem);
        assert(r.io@ =~= initial_machine().io);
        r
    }

    pub fn program_counter(&self) -> (r: u16)
        ensures
            r == self@.pc,
    {
        self.program_counter
    }

    pub fn set_program_counter(&mut self, pc: u16)
        ensures
            final(self)@ == old(self)@.with_pc(pc),
    {
        self.program_counter = pc;
    }

    pub fn instruction_register(&self) -> (r: u8)
        ensures
            r == self@.ir,
    {
        self.instruction_register
    }

    pub fn is_running(&self) -> (r: bool)
        ensures
            r == self@.running,
    {
        self.running
    }

    pub fn interrupts_enabled(&self) -> (r: bool)
        ensures
            r == self@.interrupts,
    {
        self.interrupts
    }

    fn hl(&self) -> (r: u16)
        ensures
            r == self@.hl(),
    {
        self.reg_h as u16 * 256 + self.reg_l as u16
    }

    /// The byte in a byte register (M: the byte at H:L).
    pub(crate) fn reg(&self, r: Register) -> (v: u8)
        requires
            self@.valid(),
            is_byte_register(r),
        ensures
            v == self@.reg(r),
    {
        match r {
            Register::A => self.reg_a,
            Register::B => self.reg_b,
            Register::C => self.reg_c,
            Register::D => self.reg_d,
            Register::E => self.reg_e,
            Register::H => self.reg_h,
            Register::L => self.reg_l,
            _ => self.get_data_at(None),
        }
    }

    /// Write a byte register (M: the byte at H:L).
    pub(crate) fn put_reg(&mut self, r: Register, v: u8)
        requires
            old(self)@.valid(),
            is_byte_register(r),
        ensures
            final(self)@ == old(self)@.with_reg(r, v),
    {
        match r {
            Register::A => self.reg_a = v,
            Register::B => self.reg_b = v,
            Register::C => self.reg_c = v,
            Register::D => self.reg_d = v,
            Register::E => self.reg_e = v,
            Register::H => self.reg_h = v,
            Register::L => self.reg_l = v,
            _ => self.set_data_at(None, v),
        }
    }

    /// The word in a register pair.
    pub(crate) fn pair(&self, r: Register) -> (v: u16)
        requires
            is_pair_register(r),
        ensures
            v == self@.pair(r),
    {
        match r {
            Register::B => self.reg_b as u16 * 256 + self.reg_c as u16,
            Register::D => self.reg_d as u16 * 256 + self.reg_e as u16,
            Register::H => self.reg_h as u16 * 256 + self.reg_l as u16,
            Register::SP => self.stack_pointer,
            _ => self.reg_a as u16 * 256 + flags_to_byte(self.flags) as u16,
        }
    }

    /// Write a register pair.
    pub(crate) fn put_pair(&mut self, r: Register, v: u16)
        requires
            is_pair_register(r),
        ensures
            final(self)@ == old(self)@.with_pair(r, v),
    {
        let high = (v / 256) as u8;
        let low = (v % 256) as u8;
        match r {
            Register::B => {
                self.reg_b = high;
                self.reg_c = low;
            },
            Register::D => {
                self.reg_d = high;
                self.reg_e = low;
            },
            Register::H => {
                self.reg_h = high;
                self.reg_l = low;
            },
            Register::SP => self.stack_pointer = v,
            _ => {
                self.reg_a = high;
                self.flags = byte_to_flags(low);
            },
        }
    }

    pub(crate) fn flags(&self) -> (f: Flags)
        ensures
            f == self@.flags,
    {
        self.flags
    }

    pub(crate) fn put_flags(&mut self, f: Flags)
        ensures
            final(self)@ == old(self)@.with_flags(f),
    {
        self.flags = f;
    }

    /// Store an ALU result in A and its flags in the flag register.
    pub(crate) fn put_result(&mut self, o: AluOut)
        ensures
            final(self)@ == (Machine { a: o.value, flags: o.flags, ..old(self)@ }),
    {
        self.reg_a = o.value;
        self.flags = o.flags;
    }

    /// The byte of an 8-bit register; SP and PSW are refused.
    pub fn get_register(&self, reg: Register) -> (r: Result<u8, &'static str>)
        requires
            self@.valid(),
        ensures
            is_byte_register(reg) ==> r == Ok::<u8, &'static str>(self@.reg(reg)),
            !is_byte_register(reg) ==> r is Err,
    {
        if is_byte(reg) {
            Ok(self.reg(reg))
        } else {
            Err("Cannot get single byte data from special registers")
        }
    }

    /// The word of a register pair (B, D, H, SP or PSW); other registers are refused.
    pub fn get_register_pair(&self, reg: Register) -> (r: Result<u16, &'static str>)
        ensures
            is_pair_register(reg) ==> r == Ok::<u16, &'static str>(self@.pair(reg)),
            !is_pair_register(reg) ==> r is Err,
    {
        if is_pair(reg) {
            Ok(self.pair(reg))
        } else {
            Err("Not a register pair")
        }
    }

    /// The byte at `location`, or at H:L when no location is given.
    pub fn get_data_at(&self, location: Option<u16>) -> (r: u8)
        requires
            self@.valid(),
        ensures
            r == self@.read(
                match location {
                    Some(addr) => addr,
                    None => self@.hl(),
                },
            ),
    {
        let addr = match location {
            Some(addr) => addr,
            None => self.hl(),
        };
        self.memory[addr as usize]
    }

    /// Write the byte at `location`, or at H:L when no location is given.
    pub fn set_data_at(&mut self, location: Option<u16>, data: u8)
        requires
            old(self)@.valid(),
        ensures
            final(self)@ == old(self)@.write(
                match location {
                    Some(addr) => addr,
                    None => old(self)@.hl(),
                },
                data,
            ),
    {
        let addr = match location {
            Some(addr) => addr,
            None => self.hl(),
        };
        self.memory.set(addr as usize, data);
    }

    /// Write an 8-bit register; SP and PSW are refused and nothing changes.
    pub fn set_register(&mut self, register: Register, data: u8) -> (r: Result<(), &'static str>)
        requires
            old(self)@.valid(),
        ensures
            is_byte_register(register) ==> r is Ok && final(self)@ == old(self)@.with_reg(
                register,
                data,
            ),
            !is_byte_register(register) ==> r is Err && final(self)@ == old(self)@,
    {
        if is_byte(register) {
            self.put_reg(register, data);
            Ok(())
        } else {
            Err("not an 8bit register")
        }
    }

    /// Write a register pair (B, D, H, SP or PSW); other registers are refused and nothing changes.
    pub fn set_register_pair(&mut self, register: Register, data: u16) -> (r: Result<(), &'static str>)
        ensures
            is_pair_register(register) ==> r is Ok && final(self)@ == old(self)@.with_pair(
                register,
                data,
            ),
            !is_pair_register(register) ==> r is Err && final(self)@ == old(self)@,
    {
        if is_pair(register) {
            self.put_pair(register, data);
            Ok(())
        } else {
            Err("not a register pair")
        }
    }

    pub fn set_flag(&mut self, flag: Flag, value: bool)
        ensures
            final(self)@ == old(self)@.with_flag(flag, value),
    {
        match flag {
            Flag::Sign => self.flags.sign = value,
            Flag::Zero => self.flags.zero = value,
            Flag::AuxCarry => self.flags.aux_carry = value,
            Flag::Parity => self.flags.parity = value,
            Flag::Carry => self.flags.carry = value,
        }
    }

    pub fn check_flag(&self, flag: Flag) -> (r: bool)
        ensures
            r == self@.flag(flag),
    {
        match flag {
            Flag::Sign => self.flags.sign,
            Flag::Zero => self.flags.zero,
            Flag::AuxCarry => self.flags.aux_carry,
            Flag::Parity => self.flags.parity,
            Flag::Carry => self.flags.carry,
        }
    }

    /// Copy `code` into memory from `load_point` on and point PC at it. Refused, with nothing
    /// changed, when `load_point` lies in the reserved low region or the code would end above
    /// the upper limit.
    pub fn load_code(&mut self, code: &[u8], load_point: u16) -> (r: Result<(), String>)
        requires
            old(self)@.valid(),
        ensures
            (load_point < MEMORY_LOWER_LIMIT || code@.len() + load_point > MEMORY_UPPER_LIMIT)
                ==> r is Err && final(self)@ == old(self)@,
            !(load_point < MEMORY_LOWER_LIMIT || code@.len() + load_point > MEMORY_UPPER_LIMIT)
                ==> r is Ok && final(self)@ == (Machine {
                pc: load_point,
                mem: loaded(old(self)@.mem, code@, load_point as int),
                ..old(self)@
            }),
    {
        let start = load_point as usize;
        if start < MEMORY_LOWER_LIMIT {
            return Err("the load point lies in the reserved low memory".to_owned());
        }
        if start > MEMORY_UPPER_LIMIT || code.len() > MEMORY_UPPER_LIMIT - start {
            return Err("the code does not fit below the upper memory limit".to_owned());
        }
        self.program_counter = load_point;
        let mut i: usize = 0;
        while i < code.len()
            invariant
                start + code@.len() <= MEMORY_UPPER_LIMIT,
                i <= code@.len(),
                self.memory@.len() == MEMORY_SIZE,
                self@ == (Machine {
                    pc: load_point,
                    mem: self@.mem,
                    ..old(self)@
                }),
                forall|j: int|
                    0 <= j < MEMORY_SIZE ==> #[trigger] self.memory@[j] == if start <= j < start + i {
                        code@[j - start]
                    } else {
                        old(self)@.mem[j]
                    },
            decreases code.len() - i,
        {
            self.memory.set(start + i, code[i]);
            i = i + 1;
        }
        assert(self.memory@ =~= loaded(old(self)@.mem, code@, load_point as int));
        Ok(())
    }

    /// Run one instruction. Refused, with nothing changed, when the machine is not running.
    pub fn tick(&mut self) -> (r: Result<(), &'static str>)
        requires
            old(self)@.valid(),
        ensures
            old(self)@.running ==> r is Ok && final(self)@ == step(old(self)@),
            !old(self)@.running ==> r is Err && final(self)@ == old(self)@,
            final(self)@.valid(),
    {
        if self.running {
            self.fetch();
            self.execute();
            Ok(())
        } else {
            Err("Microcontroller not started!")
        }
    }

    /// Run at most `max_steps` instructions, stopping early once the machine halts.
    /// Returns how many ran.
    pub fn run(&mut self, max_steps: u64) -> (n: u64)
        requires
            old(self)@.valid(),
        ensures
            n <= max_steps,
            final(self)@ == steps(old(self)@, n as nat),
            final(self)@.running ==> n == max_steps,
            final(self)@.valid(),
    {
        let mut n: u64 = 0;
        while n < max_steps && self.running
            invariant
                n <= max_steps,
                self@ == steps(old(self)@, n as nat),
                self@.valid(),
            decreases max_steps - n,
        {
            proof {
                crate::isa::lemma_steps_last(old(self)@, n as nat);
            }
            let _ = self.tick();
            n = n + 1;
        }
        n
    }

    /// Set the machine running and execute until it halts. The loop gives up after
    /// `u64::MAX` instructions, which no program reaches in practice.
    pub fn start(&mut self)
        requires
            old(self)@.valid(),
        ensures
            exists|n: nat|
                n <= u64::MAX && final(self)@ == #[trigger] steps(old(self)@.started(), n) && (final(self)@.running ==> n == u64::MAX),
            final(self)@.valid(),
    {
        self.running = true;
        let n = self.run(u64::MAX);
        assert(self@ == steps(old(self)@.started(), n as nat));
    }

    /// Read the byte at PC into the instruction register and advance PC.
    pub fn fetch(&mut self) -> (r: u8)
        requires
            old(self)@.valid(),
        ensures
            r == old(self)@.read(old(self)@.pc),
            final(self)@ == old(self)@.fetched(),
    {
        self.instruction_register = self.memory[self.program_counter as usize];
        self.program_counter = next_address(self.program_counter);
        self.instruction_register
    }

    /// Execute the instruction whose opcode is in the instruction register.
    pub fn execute(&mut self)
        requires
            old(self)@.valid(),
        ensures
            final(self)@ == execute_spec(old(self)@, decode(old(self)@.ir)),
            final(self)@.valid(),
    {
        let op = self.instruction_register;
        let ins = instructions::decode_op(op);
        instructions::dispatch(self, ins);
    }

    /// True iff `x` has an even number of set bits.
    pub fn check_parity(x: u8) -> (r: bool)
        ensures
            r == even_parity(x as nat),
    {
        parity8(x)
    }

    /// True iff `x` has an even number of set bits.
    pub fn check_parity_16(x: u16) -> (r: bool)
        ensures
            r == even_parity(x as nat),
    {
        parity16(x)
    }

    /// Set C and AC as given, and Z, S and P from A.
    pub fn update_flags(&mut self, ac: bool, c: bool)
        ensures
            final(self)@ == old(self)@.with_flags(result_flags(old(self)@.a, ac, c)),
    {
        self.flags = Flags {
            sign: self.reg_a >= 128,
            zero: self.reg_a == 0,
            aux_carry: ac,
            parity: parity8(self.reg_a),
            carry: c,
        };
    }

    /// Flags after OR and XOR: C and AC cleared, Z, S and P from A.
    pub fn update_flags_logical(&mut self)
        ensures
            final(self)@ == old(self)@.with_flags(result_flags(old(self)@.a, false, false)),
    {
        self.update_flags(false, false);
    }

    pub fn stop(&mut self)
        ensures
            final(self)@ == (Machine { running: false, ..old(self)@ }),
    {
        self.running = false;
    }

    /// Zero all of memory.
    pub fn clear_memory(&mut self)
        requires
            old(self)@.valid(),
        ensures
            final(self)@ == (Machine { mem: initial_machine().mem, ..old(self)@ }),
    {
        let mut i: usize = 0;
        while i < MEMORY_SIZE
            invariant
                i <= MEMORY_SIZE,
                self.memory@.len() == MEMORY_SIZE,
                self@ == (Machine { mem: self@.mem, ..old(self)@ }),
                forall|j: int| 0 <= j < i ==> #[trigger] self.memory@[j] == 0,
            decreases MEMORY_SIZE - i,
        {
            self.memory.set(i, 0);
            i = i + 1;
        }
        assert(self.memory@ =~= initial_machine().mem);
    }

    /// Zero the registers, the stack pointer, the flags and the instruction register.
    pub fn clear_registers(&mut self)
        ensures
            final(self)@ == (Machine {
                a: 0,
                b: 0,
                c: 0,
                d: 0,
                e: 0,
                h: 0,
                l: 0,
                sp: 0,
                ir: 0,
                flags: initial_machine().flags,
                ..old(self)@
            }),
    {
        self.reg_a = 0;
        self.reg_b = 0;
        self.reg_c = 0;
        self.reg_d = 0;
        self.reg_e = 0;
        self.reg_h = 0;
        self.reg_l = 0;
        self.stack_pointer = 0;
        self.flags = Flags { sign: false, zero: false, aux_carry: false, parity: false, carry: false };
        self.instruction_register = 0;
    }

    pub fn enable_interrupts(&mut self)
        ensures
            final(self)@ == (Machine { interrupts: true, ..old(self)@ }),
    {
        self.interrupts = true;
    }

    pub fn disable_interrupts(&mut self)
        ensures
            final(self)@ == (Machine { interrupts: false, ..old(self)@ }),
    {
        self.interrupts = false;
    }

    /// Write an output port; the port number is taken modulo 256.
    pub fn write_io(&mut self, addr: u16, byte: u8)
        requires
            old(self)@.valid(),
        ensures
            final(self)@ == (Machine { io: old(self)@.io.update((addr % 256) as int, byte), ..old(self)@ }),
    {
        self.io.set((addr % 256) as usize, byte);
    }

    /// Read an input port; the port number is taken modulo 256.
    pub fn read_io(&self, addr: u16) -> (r: u8)
        requires
            self@.valid(),
        ensures
            r == self@.io[(addr % 256) as int],
    {
        self.io[(addr % 256) as usize]
    }
}

/// True for the byte registers A, B, C, D, E, H, L and M.
pub fn is_byte(r: Register) -> (b: bool)
    ensures
        b == is_byte_register(r),
{
    match r {
        Register::SP | Register::PSW => false,
        _ => true,
    }
}

/// True for the register pairs B, D, H, SP and PSW.
pub fn is_pair(r: Register) -> (b: bool)
    ensures
        b == is_pair_register(r),
{
    match r {
        Register::B | Register::D | Register::H | Register::SP | Register::PSW => true,
        _ => false,
    }
}

} // verus!
