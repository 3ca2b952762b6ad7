use vstd::prelude::*;
use crate::font::fontset;
use crate::model::{
    self, initial_state, Fault, MachineState, FLAG_REGISTER, KEY_COUNT, MAX_PROGRAM_LEN, MEMORY_SIZE, REGISTER_COUNT,
    SCREEN_HEIGHT, SCREEN_WIDTH,
    PROGRAM_START, STACK_DEPTH,
};
use crate::random::random_byte;
use vstd::arithmetic::div_mod::{lemma_fundamental_div_mod, lemma_fundamental_div_mod_converse};

verus! {

/// A CHIP-8 machine: memory, registers, call stack, timers, framebuffer and keypad.
pub struct CHIP8 {
    memory: Vec<u8>,
    opcode: u16,
    stack: Vec<u16>,
    v: Vec<u8>,
    i: u16,
    pc: u16,
    sp: u16,
    delay_timer: u8,
    sound_timer: u8,
    gfx: Vec<u8>,
    key: Vec<bool>,
    fault: Option<Fault>,
}

impl View for CHIP8 {
    type V = MachineState;

    closed spec fn view(&self) -> MachineState {
        MachineState {
            memory: self.memory@,
            v: self.v@,
            i: self.i,
            pc: self.pc,
            stack: self.stack@,
            sp: self.sp,
            delay_timer: self.delay_timer,
            sound_timer: self.sound_timer,
            gfx: self.gfx@,
            keys: self.key@,
            opcode: self.opcode,
            fault: self.fault,
        }
    }
}

/// Cell `c` is flipped by one of the sprite pixels drawn so far: all rows
/// before `row`, and the columns before `col` of row `row`.
spec fn flipped_so_far(s: MachineState, x: int, y: int, row: int, col: int, c: int) -> bool {
    let d = c - model::draw_base(s, x, y);
    &&& d >= 0
    &&& d % 64 < 8
    &&& (d / 64 < row || (d / 64 == row && d % 64 < col))
    &&& model::sprite_pixel(s, d / 64, d % 64)
}

/// One of the sprite pixels drawn so far landed on a lit cell.
spec fn collided_so_far(s: MachineState, x: int, y: int, row: int, col: int) -> bool {
    exists|r: int, c: int|
        0 <= r && 0 <= c < 8 && (r < row || (r == row && c < col)) && #[trigger] model::sprite_pixel(
            s,
            r,
            c,
        ) && s.gfx[model::draw_base(s, x, y) + c + r * 64] == 1
}

impl CHIP8 {
    /// The machine's invariant.
    pub open spec fn wf(&self) -> bool {
        self@.wf()
    }

    /// A fresh machine with the font loaded and the program counter at the program start.
    pub fn init() -> (r: CHIP8)
        ensures
            r.wf(),
            r@ == initial_state(),
    {
        let mut memory: Vec<u8> = fontset();
        while memory.len() < MEMORY_SIZE
            invariant
                80 <= memory.len() <= MEMORY_SIZE,
                forall|a: int| 0 <= a < 80 ==> memory@[a] == crate::font::font_bytes()[a],
                forall|a: int| 80 <= a < memory.len() ==> memory@[a] == 0,
            decreases MEMORY_SIZE - memory.len(),
        {
            memory.push(0);
        }
        let chip8 = CHIP8 {
            memory,
            opcode: 0,
            stack: vec![0u16; 16],
            v: vec![0u8; 16],
            i: 0,
            pc: PROGRAM_START,
            sp: 0,
            delay_timer: 0,
            sound_timer: 0,
            gfx: vec![0u8; 2048],
            key: vec![false; 16],
            fault: None,
        };
        assert(chip8@.memory =~= initial_state().memory);
        assert(chip8@.v =~= initial_state().v);
        assert(chip8@.stack =~= initial_state().stack);
        assert(chip8@.gfx =~= initial_state().gfx);
        assert(chip8@.keys =~= initial_state().keys);
        chip8
    }

    /// Copies a program image into memory from `PROGRAM_START` on.
    pub fn inject(&mut self, injection: Vec<u8>)
        requires
            old(self).wf(),
            injection.len() <= MAX_PROGRAM_LEN,
        ensures
            final(self).wf(),
            final(self)@ == model::with_program(old(self)@, injection@),
    {
        let ghost s = self@;
        let mut k: usize = 0;
        while k < injection.len()
            invariant
                k <= injection.len() <= MAX_PROGRAM_LEN,
                self@ == (MachineState { memory: self.memory@, ..s }),
                self.memory@.len() == MEMORY_SIZE,
                forall|a: int|
                    0 <= a < MEMORY_SIZE ==> #[trigger] self.memory@[a] == if PROGRAM_START <= a
                        < PROGRAM_START + k {
                        injection@[a - PROGRAM_START]
                    } else {
                        s.memory[a]
                    },
            decreases injection.len() - k,
        {
            self.memory.set(0x200 + k, injection[k]);
            k += 1;
        }
        assert(self.memory@ =~= model::with_program(s, injection@).memory);
    }

    /// Executes one instruction; `random` is the byte that CXNN masks. A
    /// machine that has faulted reports its fault again and changes nothing.
    pub fn cycle_with_random(&mut self, random: u8) -> (r: Result<(), Fault>)
        requires
            old(self).wf(),
        ensures
            final(self).wf(),
            (final(self)@, r) == model::step(old(self)@, random),
    {
        if let Some(f) = self.fault {
            return Err(f);
        }
        if self.pc as usize + 1 >= MEMORY_SIZE {
            self.fault = Some(Fault::OutOfRange);
            return Err(Fault::OutOfRange);
        }
        let pc = self.pc as usize;
        self.opcode = self.memory[pc] as u16 * 256 + self.memory[pc + 1] as u16;
        let ghost s1 = self@;
        let op1: u8 = (self.opcode / 4096) as u8;
        let op2: u8 = ((self.opcode / 256) % 16) as u8;
        let op3: u8 = ((self.opcode / 16) % 16) as u8;
        let op4: u8 = (self.opcode % 16) as u8;
        assert(model::nibbles(s1.opcode) == (op1, op2, op3, op4));
        let r = match (op1, op2, op3, op4) {
            (0x0, 0x0, 0xE, 0x0) => {
                self.op_00e0();
                Ok(())
            },
            (0x0, 0x0, 0xE, 0xE) => self.op_00ee(),
            (0x1, _, _, _) => {
                self.op_1nnn();
                Ok(())
            },
            (0x2, _, _, _) => self.op_2nnn(),
            (0x3, _, _, _) => {
                self.op_3xnn(op2);
                Ok(())
            },
            (0x4, _, _, _) => {
                self.op_4xnn(op2);
                Ok(())
            },
            (0x5, _, _, 0x0) => {
                self.op_5xy0(op2, op3);
                Ok(())
            },
            (0x6, _, _, _) => {
                self.op_6xnn(op2);
                Ok(())
            },
            (0x7, _, _, _) => {
                self.op_7xnn(op2);
                Ok(())
            },
            (0x8, _, _, 0x0) => {
                self.op_8xy0(op2, op3);
                Ok(())
            },
            (0x8, _, _, 0x1) => {
                self.op_8xy1(op2, op3);
                Ok(())
            },
            (0x8, _, _, 0x2) => {
                self.op_8xy2(op2, op3);
                Ok(())
            },
            (0x8, _, _, 0x3) => {
                self.op_8xy3(op2, op3);
                Ok(())
            },
            (0x8, _, _, 0x4) => {
                self.op_8xy4(op2, op3);
                Ok(())
            },
            (0x8, _, _, 0x5) => {
                self.op_8xy5(op2, op3);
                Ok(())
            },
            (0x9, _, _, 0x0) => {
                self.op_9xy0(op2, op3);
                Ok(())
            },
            (0xA, _, _, _) => {
                self.op_annn();
                Ok(())
            },
            (0xB, _, _, _) => {
                self.op_bnnn();
                Ok(())
            },
            (0xC, _, _, _) => {
                self.op_cxnn(op2, random);
                Ok(())
            },
            (0xD, _, _, _) => self.op_dxyn(op2, op3),
            (0xE, _, 0x9, 0xE) => self.op_ex9e(op2),
            (0xE, _, 0xA, 0x1) => self.op_exa1(op2),
            (0xF, _, 0x0, 0x7) => {
                self.op_fx07(op2);
                Ok(())
            },
            (0xF, _, 0x1, 0x5) => {
                self.op_fx15(op2);
                Ok(())
            },
            (0xF, _, 0x1, 0x8) => {
                self.op_fx18(op2);
                Ok(())
            },
            (0xF, _, 0x1, 0xE) => {
                self.op_fx1e(op2);
                Ok(())
            },
            (0xF, _, 0x2, 0x9) => {
                self.op_fx29(op2);
                Ok(())
            },
            (0xF, _, 0x3, 0x3) => self.op_fx33(op2),
            (0xF, _, 0x5, 0x5) => self.op_fx55(op2),
            (0xF, _, 0x6, 0x5) => self.op_fx65(op2),
            _ => Err(Fault::UndefinedOpcode { opcode: self.opcode, pc: self.pc }),
        };
        match r {
            Err(f) => {
                self.fault = Some(f);
            },
            Ok(()) => {},
        }
        r
    }

    /// Executes one instruction, drawing a random byte for CXNN. The outcome
    /// is that of `cycle_with_random` for some byte.
    pub fn cycle(&mut self) -> (r: Result<(), Fault>)
        requires
            old(self).wf(),
        ensures
            final(self).wf(),
            exists|b: u8| (final(self)@, r) == model::step(old(self)@, b),
    {
        let b = random_byte();
        self.cycle_with_random(b)
    }

    /// Records the state of key `k`, as the input device reports it.
    pub fn set_key(&mut self, k: usize, pressed: bool)
        requires
            old(self).wf(),
            k < KEY_COUNT,
        ensures
            final(self).wf(),
            final(self)@ == (MachineState { keys: old(self)@.keys.update(k as int, pressed), ..old(self)@ }),
    {
        self.key.set(k, pressed);
    }

    /// Whether key `k` is recorded as pressed.
    pub fn key_pressed(&self, k: usize) -> (r: bool)
        requires
            self.wf(),
            k < KEY_COUNT,
        ensures
            r == self@.keys[k as int],
    {
        self.key[k]
    }

    /// Register V`x`.
    pub fn register(&self, x: usize) -> (r: u8)
        requires
            self.wf(),
            x < REGISTER_COUNT,
        ensures
            r == self@.v[x as int],
    {
        self.v[x]
    }

    /// The memory cell at `addr`.
    pub fn memory_at(&self, addr: usize) -> (r: u8)
        requires
            self.wf(),
            addr < MEMORY_SIZE,
        ensures
            r == self@.memory[addr as int],
    {
        self.memory[addr]
    }

    /// The framebuffer: 64 by 32 cells, row-major, each 0 or 1.
    pub fn framebuffer(&self) -> (r: &Vec<u8>)
        ensures
            r@ == self@.gfx,
    {
        &self.gfx
    }

    /// The pixel at column `col` and row `row`.
    pub fn pixel(&self, col: usize, row: usize) -> (r: u8)
        requires
            self.wf(),
            col < SCREEN_WIDTH,
            row < SCREEN_HEIGHT,
        ensures
            r == self@.gfx[col + row * 64],
    {
        self.gfx[col + row * SCREEN_WIDTH]
    }

    /// The index register `I`.
    pub fn index_register(&self) -> (r: u16)
        ensures
            r == self@.i,
    {
        self.i
    }

    /// The address of the next instruction.
    pub fn program_counter(&self) -> (r: u16)
        ensures
            r == self@.pc,
    {
        self.pc
    }

    /// The number of return addresses on the stack.
    pub fn stack_pointer(&self) -> (r: u16)
        ensures
            r == self@.sp,
    {
        self.sp
    }

    /// The delay timer.
    pub fn delay_timer(&self) -> (r: u8)
        ensures
            r == self@.delay_timer,
    {
        self.delay_timer
    }

    /// The sound timer.
    pub fn sound_timer(&self) -> (r: u8)
        ensures
            r == self@.sound_timer,
    {
        self.sound_timer
    }

    /// Whether a tone should be playing: the sound timer is non-zero.
    pub fn sound_on(&self) -> (r: bool)
        ensures
            r == (self@.sound_timer != 0),
    {
        self.sound_timer != 0
    }

    /// The instruction word fetched last.
    pub fn current_opcode(&self) -> (r: u16)
        ensures
            r == self@.opcode,
    {
        self.opcode
    }

    /// The fault that stopped the machine, if any.
    pub fn fault(&self) -> (r: Option<Fault>)
        ensures
            r == self@.fault,
    {
        self.fault
    }

    /// One tick of the 60 Hz clock: each non-zero timer goes down by one.
    pub fn tick_timers(&mut self)
        requires
            old(self).wf(),
        ensures
            final(self).wf(),
            final(self)@ == model::tick(old(self)@),
    {
        if self.delay_timer > 0 {
            self.delay_timer = self.delay_timer - 1;
        }
        if self.sound_timer > 0 {
            self.sound_timer = self.sound_timer - 1;
        }
    }

    // 00E0: clears the screen
    fn op_00e0(&mut self)
        requires
            old(self).wf(),
            old(self).pc + 1 < MEMORY_SIZE,
        ensures
            final(self).wf(),
            final(self)@ == model::clear_screen(old(self)@),
    {
        let ghost s = self@;
        let mut c: usize = 0;
        while c < self.gfx.len()
            invariant
                self@ == (MachineState { gfx: self.gfx@, ..s }),
                s.wf(),
                self.gfx@.len() == 2048,
                c <= 2048,
                forall|d: int| 0 <= d < c ==> self.gfx@[d] == 0,
            decreases self.gfx.len() - c,
        {
            self.gfx.set(c, 0);
            c += 1;
        }
        assert(self.gfx@ =~= model::clear_screen(s).gfx);
        self.pc = self.pc + 2;
    }

    // 00EE: returns from a subroutine
    fn op_00ee(&mut self) -> (r: Result<(), Fault>)
        requires
            old(self).wf(),
        ensures
            final(self).wf(),
            match model::return_from(old(self)@) {
                Ok(t) => r == Ok::<(), Fault>(()) && final(self)@ == t,
                Err(f) => r == Err::<(), Fault>(f) && final(self)@ == old(self)@,
            },
    {
        if self.sp == 0 {
            return Err(Fault::StackUnderflow);
        }
        self.sp = self.sp - 1;
        self.pc = self.stack[self.sp as usize] + 2;
        Ok(())
    }

    // 1NNN: jumps to address NNN
    fn op_1nnn(&mut self)
        requires
            old(self).wf(),
        ensures
            final(self).wf(),
            final(self)@ == model::jump(old(self)@),
    {
        self.pc = self.opcode % 4096;
    }

    // 2NNN: calls the subroutine at NNN
    fn op_2nnn(&mut self) -> (r: Result<(), Fault>)
        requires
            old(self).wf(),
            old(self).pc + 1 < MEMORY_SIZE,
        ensures
            final(self).wf(),
            match model::call(old(self)@) {
                Ok(t) => r == Ok::<(), Fault>(()) && final(self)@ == t,
                Err(f) => r == Err::<(), Fault>(f) && final(self)@ == old(self)@,
            },
    {
        if self.sp >= STACK_DEPTH {
            return Err(Fault::StackOverflow);
        }
        self.stack.set(self.sp as usize, self.pc);
        self.sp = self.sp + 1;
        self.pc = self.opcode % 4096;
        Ok(())
    }

    /// Moves the program counter on by four when `cond` holds, else by two.
    fn skip_if(&mut self, cond: bool)
        requires
            old(self).wf(),
            old(self).pc + 1 < MEMORY_SIZE,
        ensures
            final(self).wf(),
            final(self)@ == old(self)@.skip_if(cond),
    {
        if cond {
            self.pc = self.pc + 4;
        } else {
            self.pc = self.pc + 2;
        }
    }

    // 3XNN: skips the next instruction if VX equals NN
    fn op_3xnn(&mut self, x: u8)
        requires
            old(self).wf(),
            old(self).pc + 1 < MEMORY_SIZE,
            x < 16,
        ensures
            final(self).wf(),
            final(self)@ == old(self)@.skip_if(old(self)@.v[x as int] == old(self)@.nn()),
    {
        let cond = self.v[x as usize] == (self.opcode % 256) as u8;
        self.skip_if(cond);
    }

    // 4XNN: skips the next instruction if VX does not equal NN
    fn op_4xnn(&mut self, x: u8)
        requires
            old(self).wf(),
            old(self).pc + 1 < MEMORY_SIZE,
            x < 16,
        ensures
            final(self).wf(),
            final(self)@ == old(self)@.skip_if(old(self)@.v[x as int] != old(self)@.nn()),
    {
        let cond = self.v[x as usize] != (self.opcode % 256) as u8;
        self.skip_if(cond);
    }

    // 5XY0: skips the next instruction if VX equals VY
    fn op_5xy0(&mut self, x: u8, y: u8)
        requires
            old(self).wf(),
            old(self).pc + 1 < MEMORY_SIZE,
            x < 16,
            y < 16,
        ensures
            final(self).wf(),
            final(self)@ == old(self)@.skip_if(old(self)@.v[x as int] == old(self)@.v[y as int]),
    {
        let cond = self.v[x as usize] == self.v[y as usize];
        self.skip_if(cond);
    }

    /// Sets register `x` to `val` and moves on to the next instruction.
    fn set_reg_and_advance(&mut self, x: u8, val: u8)
        requires
            old(self).wf(),
            old(self).pc + 1 < MEMORY_SIZE,
            x < 16,
        ensures
            final(self).wf(),
            final(self)@ == old(self)@.with_reg(x as int, val).advance(2),
    {
        self.v.set(x as usize, val);
        self.pc = self.pc + 2;
    }

    // 6XNN: sets VX to NN
    fn op_6xnn(&mut self, x: u8)
        requires
            old(self).wf(),
            old(self).pc + 1 < MEMORY_SIZE,
            x < 16,
        ensures
            final(self).wf(),
            final(self)@ == old(self)@.with_reg(x as int, old(self)@.nn()).advance(2),
    {
        let val = (self.opcode % 256) as u8;
        self.set_reg_and_advance(x, val);
    }

    // 7XNN: adds NN to VX, wrapping, flags untouched
    fn op_7xnn(&mut self, x: u8)
        requires
            old(self).wf(),
            old(self).pc + 1 < MEMORY_SIZE,
            x < 16,
        ensures
            final(self).wf(),
            final(self)@ == old(self)@.with_reg(
                x as int,
                ((old(self)@.v[x as int] + old(self)@.nn()) % 256) as u8,
            ).advance(2),
    {
        let val = ((self.v[x as usize] as u16 + self.opcode % 256) % 256) as u8;
        self.set_reg_and_advance(x, val);
    }

    // 8XY0: sets VX to VY
    fn op_8xy0(&mut self, x: u8, y: u8)
        requires
            old(self).wf(),
            old(self).pc + 1 < MEMORY_SIZE,
            x < 16,
            y < 16,
        ensures
            final(self).wf(),
            final(self)@ == old(self)@.with_reg(x as int, old(self)@.v[y as int]).advance(2),
    {
        let val = self.v[y as usize];
        self.set_reg_and_advance(x, val);
    }

    // 8XY1: sets VX to VX or VY
    fn op_8xy1(&mut self, x: u8, y: u8)
        requires
            old(self).wf(),
            old(self).pc + 1 < MEMORY_SIZE,
            x < 16,
            y < 16,
        ensures
            final(self).wf(),
            final(self)@ == old(self)@.with_reg(
                x as int,
                old(self)@.v[x as int] | old(self)@.v[y as int],
            ).advance(2),
    {
        let val = self.v[x as usize] | self.v[y as usize];
        self.set_reg_and_advance(x, val);
    }

    // 8XY2: sets VX to VX and VY
    fn op_8xy2(&mut self, x: u8, y: u8)
        requires
            old(self).wf(),
            old(self).pc + 1 < MEMORY_SIZE,
            x < 16,
            y < 16,
        ensures
            final(self).wf(),
            final(self)@ == old(self)@.with_reg(
                x as int,
                old(self)@.v[x as int] & old(self)@.v[y as int],
            ).advance(2),
    {
        let val = self.v[x as usize] & self.v[y as usize];
        self.set_reg_and_advance(x, val);
    }

    // 8XY3: sets VX to VX xor VY
    fn op_8xy3(&mut self, x: u8, y: u8)
        requires
            old(self).wf(),
            old(self).pc + 1 < MEMORY_SIZE,
            x < 16,
            y < 16,
        ensures
            final(self).wf(),
            final(self)@ == old(self)@.with_reg(
                x as int,
                old(self)@.v[x as int] ^ old(self)@.v[y as int],
            ).advance(2),
    {
        let val = self.v[x as usize] ^ self.v[y as usize];
        self.set_reg_and_advance(x, val);
    }

    // 8XY4: adds VY to VX; VF is 1 on a carry and 0 otherwise
    fn op_8xy4(&mut self, x: u8, y: u8)
        requires
            old(self).wf(),
            old(self).pc + 1 < MEMORY_SIZE,
            x < 16,
            y < 16,
        ensures
            final(self).wf(),
            final(self)@ == model::add_with_carry(old(self)@, x as int, y as int),
    {
        let sum: u16 = self.v[x as usize] as u16 + self.v[y as usize] as u16;
        self.v.set(x as usize, (sum % 256) as u8);
        let flag: u8 = if sum > 255 { 1 } else { 0 };
        self.set_reg_and_advance(15, flag);
    }

    // 8XY5: subtracts VY from VX; VF is 0 on a borrow and 1 otherwise
    fn op_8xy5(&mut self, x: u8, y: u8)
        requires
            old(self).wf(),
            old(self).pc + 1 < MEMORY_SIZE,
            x < 16,
            y < 16,
        ensures
            final(self).wf(),
            final(self)@ == model::sub_with_borrow(old(self)@, x as int, y as int),
    {
        let a = self.v[x as usize];
        let b = self.v[y as usize];
        let diff: u8 = if a >= b { a - b } else { (256u16 + a as u16 - b as u16) as u8 };
        self.v.set(x as usize, diff);
        let flag: u8 = if a >= b { 1 } else { 0 };
        self.set_reg_and_advance(15, flag);
    }

    // 9XY0: skips the next instruction if VX does not equal VY
    fn op_9xy0(&mut self, x: u8, y: u8)
        requires
            old(self).wf(),
            old(self).pc + 1 < MEMORY_SIZE,
            x < 16,
            y < 16,
        ensures
            final(self).wf(),
            final(self)@ == old(self)@.skip_if(old(self)@.v[x as int] != old(self)@.v[y as int]),
    {
        let cond = self.v[x as usize] != self.v[y as usize];
        self.skip_if(cond);
    }

    // ANNN: sets I to NNN
    fn op_annn(&mut self)
        requires
            old(self).wf(),
            old(self).pc + 1 < MEMORY_SIZE,
        ensures
            final(self).wf(),
            final(self)@ == (MachineState { i: old(self)@.nnn(), ..old(self)@ }).advance(2),
    {
        self.i = self.opcode % 4096;
        self.pc = self.pc + 2;
    }

    // BNNN: jumps to NNN plus V0
    fn op_bnnn(&mut self)
        requires
            old(self).wf(),
        ensures
            final(self).wf(),
            final(self)@ == (MachineState {
                pc: (old(self)@.nnn() + old(self)@.v[0]) as u16,
                ..old(self)@
            }),
    {
        self.pc = self.opcode % 4096 + self.v[0] as u16;
    }

    // CXNN: sets VX to a random byte masked with NN
    fn op_cxnn(&mut self, x: u8, random: u8)
        requires
            old(self).wf(),
            old(self).pc + 1 < MEMORY_SIZE,
            x < 16,
        ensures
            final(self).wf(),
            final(self)@ == old(self)@.with_reg(x as int, random & old(self)@.nn()).advance(2),
    {
        let val = random & (self.opcode % 256) as u8;
        self.set_reg_and_advance(x, val);
    }

    /// EX9E and EXA1: skips the next instruction when the key named by VX is
    /// in the state `pressed`.
    fn skip_on_key(&mut self, x: u8, pressed: bool) -> (r: Result<(), Fault>)
        requires
            old(self).wf(),
            old(self).pc + 1 < MEMORY_SIZE,
            x < 16,
        ensures
            final(self).wf(),
            match model::skip_key(old(self)@, x as int, pressed) {
                Ok(t) => r == Ok::<(), Fault>(()) && final(self)@ == t,
                Err(f) => r == Err::<(), Fault>(f) && final(self)@ == old(self)@,
            },
    {
        let k = self.v[x as usize];
        if k as usize >= KEY_COUNT {
            return Err(Fault::OutOfRange);
        }
        let cond = self.key[k as usize] == pressed;
        self.skip_if(cond);
        Ok(())
    }

    /// Whether the sprite of the current DXYN instruction lies in memory and
    /// lands every set pixel inside the framebuffer.
    fn sprite_fits(&self, x: u8, y: u8) -> (r: bool)
        requires
            self.wf(),
            x < 16,
            y < 16,
        ensures
            r == model::draw_fits(self@, x as int, y as int, (self@.opcode % 16) as int),
    {
        let ghost s = self@;
        let x_coord: usize = self.v[x as usize] as usize;
        let y_coord: usize = self.v[y as usize] as usize;
        let h: usize = (self.opcode % 16) as usize;
        let i: usize = self.i as usize;
        let base: usize = x_coord + y_coord * 64;
        if i + h > MEMORY_SIZE {
            return false;
        }
        // Every set pixel must land inside the framebuffer before anything is drawn.
        let mut row: usize = 0;
        while row < h
            invariant
                self@ == s,
                s.wf(),
                row <= h,
                h < 16,
                h == s.opcode % 16,
                i == s.i,
                i + h <= MEMORY_SIZE,
                base == model::draw_base(s, x as int, y as int),
                base <= 255 + 255 * 64,
                forall|r: int, c: int|
                    0 <= r < row && 0 <= c < 8 && #[trigger] model::sprite_pixel(s, r, c) ==> base
                        + c + r * 64 < 2048,
            decreases h - row,
        {
            let pixel: u8 = self.memory[i + row];
            let mut col: usize = 0;
            while col < 8
                invariant
                    self@ == s,
                    s.wf(),
                    row < h,
                    h < 16,
                    h == s.opcode % 16,
                    i == s.i,
                    i + h <= MEMORY_SIZE,
                    pixel == s.memory[i + row],
                    base == model::draw_base(s, x as int, y as int),
                    base <= 255 + 255 * 64,
                    col <= 8,
                    forall|r: int, c: int|
                        0 <= r < row && 0 <= c < 8 && #[trigger] model::sprite_pixel(s, r, c)
                            ==> base + c + r * 64 < 2048,
                    forall|c: int|
                        0 <= c < col && #[trigger] model::sprite_pixel(s, row as int, c) ==> base + c
                            + row * 64 < 2048,
                decreases 8 - col,
            {
                if (pixel >> (7 - col as u8)) & 1 == 1 && base + col + row * 64 >= 2048 {
                    assert(model::sprite_pixel(s, row as int, col as int));
                    return false;
                }
                col += 1;
            }
            row += 1;
        }
        true
    }

    // DXYN: XORs the 8-by-N sprite at I onto the screen at (VX, VY); VF tells a collision
    fn op_dxyn(&mut self, x: u8, y: u8) -> (r: Result<(), Fault>)
        requires
            old(self).wf(),
            old(self).pc + 1 < MEMORY_SIZE,
            x < 16,
            y < 16,
        ensures
            final(self).wf(),
            match model::draw(old(self)@, x as int, y as int, (old(self)@.opcode % 16) as int) {
                Ok(t) => r == Ok::<(), Fault>(()) && final(self)@ == t,
                Err(f) => r == Err::<(), Fault>(f) && final(self)@ == old(self)@,
            },
    {
        let ghost s = self@;
        let x_coord: usize = self.v[x as usize] as usize;
        let y_coord: usize = self.v[y as usize] as usize;
        let h: usize = (self.opcode % 16) as usize;
        let i: usize = self.i as usize;
        let base: usize = x_coord + y_coord * 64;
        if !self.sprite_fits(x, y) {
            return Err(Fault::OutOfRange);
        }
        let mut collided: bool = false;
        let mut row: usize = 0;
        while row < h
            invariant
                self@ == (MachineState { gfx: self.gfx@, ..s }),
                s.wf(),
                row <= h,
                h < 16,
                h == s.opcode % 16,
                i == s.i,
                i + h <= MEMORY_SIZE,
                base == model::draw_base(s, x as int, y as int),
                base <= 255 + 255 * 64,
                model::draw_fits(s, x as int, y as int, h as int),
                self.gfx@.len() == 2048,
                forall|c: int|
                    0 <= c < 2048 ==> #[trigger] self.gfx@[c] == if flipped_so_far(
                        s,
                        x as int,
                        y as int,
                        row as int,
                        0,
                        c,
                    ) {
                        (1 - s.gfx[c]) as u8
                    } else {
                        s.gfx[c]
                    },
                collided == collided_so_far(s, x as int, y as int, row as int, 0),
            decreases h - row,
        {
            let pixel: u8 = self.memory[i + row];
            let mut col: usize = 0;
            while col < 8
                invariant
                    self@ == (MachineState { gfx: self.gfx@, ..s }),
                    s.wf(),
                    row < h,
                    h < 16,
                    h == s.opcode % 16,
                    i == s.i,
                    i + h <= MEMORY_SIZE,
                    pixel == s.memory[i + row],
                    base == model::draw_base(s, x as int, y as int),
                    base <= 255 + 255 * 64,
                    model::draw_fits(s, x as int, y as int, h as int),
                    col <= 8,
                    self.gfx@.len() == 2048,
                    forall|c: int|
                        0 <= c < 2048 ==> #[trigger] self.gfx@[c] == if flipped_so_far(
                            s,
                            x as int,
                            y as int,
                            row as int,
                            col as int,
                            c,
                        ) {
                            (1 - s.gfx[c]) as u8
                        } else {
                            s.gfx[c]
                        },
                    collided == collided_so_far(s, x as int, y as int, row as int, col as int),
                decreases 8 - col,
            {
                let ghost g = self.gfx@;
                if (pixel >> (7 - col as u8)) & 1 == 1 {
                    let idx: usize = base + col + row * 64;
                    assert(model::sprite_pixel(s, row as int, col as int));
                    proof {
                        lemma_fundamental_div_mod_converse(
                            idx - base,
                            64,
                            row as int,
                            col as int,
                        );
                    }
                    let cur: u8 = self.gfx[idx];
                    if cur == 1 {
                        collided = true;
                    }
                    self.gfx.set(idx, 1 - cur);
                    assert forall|c: int| 0 <= c < 2048 implies #[trigger] self.gfx@[c] == if flipped_so_far(
                        s,
                        x as int,
                        y as int,
                        row as int,
                        col + 1,
                        c,
                    ) {
                        (1 - s.gfx[c]) as u8
                    } else {
                        s.gfx[c]
                    } by {
                        if c - base >= 0 {
                            lemma_fundamental_div_mod(c - base, 64);
                        }
                    }
                } else {
                    assert forall|c: int| 0 <= c < 2048 implies #[trigger] self.gfx@[c] == if flipped_so_far(
                        s,
                        x as int,
                        y as int,
                        row as int,
                        col + 1,
                        c,
                    ) {
                        (1 - s.gfx[c]) as u8
                    } else {
                        s.gfx[c]
                    } by {
                        if c - base >= 0 {
                            lemma_fundamental_div_mod(c - base, 64);
                        }
                    }
                }
                col += 1;
            }
            row += 1;
        }
        assert(self.gfx@ =~= model::draw(s, x as int, y as int, h as int)->Ok_0.gfx);
        let flag: u8 = if collided { 1 } else { 0 };
        self.set_reg_and_advance(15, flag);
        Ok(())
    }

    // EX9E: skips the next instruction if the key in VX is pressed
    fn op_ex9e(&mut self, x: u8) -> (r: Result<(), Fault>)
        requires
            old(self).wf(),
            old(self).pc + 1 < MEMORY_SIZE,
            x < 16,
        ensures
            final(self).wf(),
            match model::skip_key(old(self)@, x as int, true) {
                Ok(t) => r == Ok::<(), Fault>(()) && final(self)@ == t,
                Err(f) => r == Err::<(), Fault>(f) && final(self)@ == old(self)@,
            },
    {
        self.skip_on_key(x, true)
    }

    // EXA1: skips the next instruction if the key in VX is not pressed
    fn op_exa1(&mut self, x: u8) -> (r: Result<(), Fault>)
        requires
            old(self).wf(),
            old(self).pc + 1 < MEMORY_SIZE,
            x < 16,
        ensures
            final(self).wf(),
            match model::skip_key(old(self)@, x as int, false) {
                Ok(t) => r == Ok::<(), Fault>(()) && final(self)@ == t,
                Err(f) => r == Err::<(), Fault>(f) && final(self)@ == old(self)@,
            },
    {
        self.skip_on_key(x, false)
    }

    // FX07: sets VX to the delay timer
    fn op_fx07(&mut self, x: u8)
        requires
            old(self).wf(),
            old(self).pc + 1 < MEMORY_SIZE,
            x < 16,
        ensures
            final(self).wf(),
            final(self)@ == old(self)@.with_reg(x as int, old(self)@.delay_timer).advance(2),
    {
        let val = self.delay_timer;
        self.set_reg_and_advance(x, val);
    }

    // FX15: sets the delay timer to VX
    fn op_fx15(&mut self, x: u8)
        requires
            old(self).wf(),
            old(self).pc + 1 < MEMORY_SIZE,
            x < 16,
        ensures
            final(self).wf(),
            final(self)@ == (MachineState {
                delay_timer: old(self)@.v[x as int],
                ..old(self)@
            }).advance(2),
    {
        self.delay_timer = self.v[x as usize];
        self.pc = self.pc + 2;
    }

    // FX18: sets the sound timer to VX
    fn op_fx18(&mut self, x: u8)
        requires
            old(self).wf(),
            old(self).pc + 1 < MEMORY_SIZE,
            x < 16,
        ensures
            final(self).wf(),
            final(self)@ == (MachineState {
                sound_timer: old(self)@.v[x as int],
                ..old(self)@
            }).advance(2),
    {
        self.sound_timer = self.v[x as usize];
        self.pc = self.pc + 2;
    }

    // FX1E: adds VX to I, wrapping at sixteen bits, VF untouched
    fn op_fx1e(&mut self, x: u8)
        requires
            old(self).wf(),
            old(self).pc + 1 < MEMORY_SIZE,
            x < 16,
        ensures
            final(self).wf(),
            final(self)@ == (MachineState {
                i: ((old(self)@.i + old(self)@.v[x as int]) % 65536) as u16,
                ..old(self)@
            }).advance(2),
    {
        self.i = ((self.i as u32 + self.v[x as usize] as u32) % 65536) as u16;
        self.pc = self.pc + 2;
    }

    // FX29: sets I to the font glyph of the digit in VX
    fn op_fx29(&mut self, x: u8)
        requires
            old(self).wf(),
            old(self).pc + 1 < MEMORY_SIZE,
            x < 16,
        ensures
            final(self).wf(),
            final(self)@ == (MachineState {
                i: (old(self)@.v[x as int] * 5) as u16,
                ..old(self)@
            }).advance(2),
    {
        self.i = self.v[x as usize] as u16 * crate::font::GLYPH_BYTES;
        self.pc = self.pc + 2;
    }

    // FX33: stores the decimal digits of VX at I, I+1 and I+2
    fn op_fx33(&mut self, x: u8) -> (r: Result<(), Fault>)
        requires
            old(self).wf(),
            old(self).pc + 1 < MEMORY_SIZE,
            x < 16,
        ensures
            final(self).wf(),
            match model::store_bcd(old(self)@, x as int) {
                Ok(t) => r == Ok::<(), Fault>(()) && final(self)@ == t,
                Err(f) => r == Err::<(), Fault>(f) && final(self)@ == old(self)@,
            },
    {
        let i = self.i as usize;
        if i + 2 >= MEMORY_SIZE {
            return Err(Fault::OutOfRange);
        }
        let val = self.v[x as usize];
        self.memory.set(i, val / 100);
        self.memory.set(i + 1, (val / 10) % 10);
        self.memory.set(i + 2, val % 10);
        self.pc = self.pc + 2;
        Ok(())
    }

    // FX55: stores V0 to VX in memory from I on
    fn op_fx55(&mut self, x: u8) -> (r: Result<(), Fault>)
        requires
            old(self).wf(),
            old(self).pc + 1 < MEMORY_SIZE,
            x < 16,
        ensures
            final(self).wf(),
            match model::dump_registers(old(self)@, x as int) {
                Ok(t) => r == Ok::<(), Fault>(()) && final(self)@ == t,
                Err(f) => r == Err::<(), Fault>(f) && final(self)@ == old(self)@,
            },
    {
        let ghost s = self@;
        let i = self.i as usize;
        if i + x as usize >= MEMORY_SIZE {
            return Err(Fault::OutOfRange);
        }
        let mut index: usize = 0;
        while index <= x as usize
            invariant
                s.wf(),
                i == s.i,
                x < 16,
                i + x < MEMORY_SIZE,
                index <= x + 1,
                self@ == (MachineState { memory: self.memory@, ..s }),
                self.memory@.len() == MEMORY_SIZE,
                forall|a: int|
                    0 <= a < MEMORY_SIZE ==> #[trigger] self.memory@[a] == if i <= a < i + index {
                        s.v[a - i]
                    } else {
                        s.memory[a]
                    },
            decreases x + 1 - index,
        {
            self.memory.set(i + index, self.v[index]);
            index += 1;
        }
        assert(self.memory@ =~= model::dump_registers(s, x as int)->Ok_0.memory);
        self.pc = self.pc + 2;
        Ok(())
    }

    // FX65: fills V0 to VX from memory at I on
    fn op_fx65(&mut self, x: u8) -> (r: Result<(), Fault>)
        requires
            old(self).wf(),
            old(self).pc + 1 < MEMORY_SIZE,
            x < 16,
        ensures
            final(self).wf(),
            match model::load_registers(old(self)@, x as int) {
                Ok(t) => r == Ok::<(), Fault>(()) && final(self)@ == t,
                Err(f) => r == Err::<(), Fault>(f) && final(self)@ == old(self)@,
            },
    {
        let ghost s = self@;
        let i = self.i as usize;
        if i + x as usize >= MEMORY_SIZE {
            return Err(Fault::OutOfRange);
        }
        let mut index: usize = 0;
        while index <= x as usize
            invariant
                s.wf(),
                i == s.i,
                x < 16,
                i + x < MEMORY_SIZE,
                index <= x + 1,
                self@ == (MachineState { v: self.v@, ..s }),
                self.v@.len() == 16,
                forall|k: int|
                    0 <= k < 16 ==> #[trigger] self.v@[k] == if k < index {
                        s.memory[i + k]
                    } else {
                        s.v[k]
                    },
            decreases x + 1 - index,
        {
            let b = self.memory[i + index];
            self.v.set(index, b);
            index += 1;
        }
        assert(self.v@ =~= model::load_registers(s, x as int)->Ok_0.v);
        self.pc = self.pc + 2;
        Ok(())
    }
}

} // verus!
