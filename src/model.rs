use vstd::prelude::*;

verus! {

/// Number of addressable memory cells.
pub const MEMORY_SIZE: usize = 4096;
/// Address at which a program image is loaded and execution starts.
pub const PROGRAM_START: u16 = 0x200;
/// Largest program image that fits between `PROGRAM_START` and the end of memory.
pub const MAX_PROGRAM_LEN: usize = 3584;
/// Width of the screen in pixels.
pub const SCREEN_WIDTH: usize = 64;
/// Height of the screen in pixels.
pub const SCREEN_HEIGHT: usize = 32;
/// Number of framebuffer cells, one per pixel, row-major.
pub const FRAME_SIZE: usize = 2048;
/// Number of general-purpose registers V0..VF.
pub const REGISTER_COUNT: usize = 16;
/// Index of VF, the register that doubles as carry, borrow and collision flag.
pub const FLAG_REGISTER: usize = 15;
/// Maximum depth of the call stack.
pub const STACK_DEPTH: u16 = 16;
/// Number of keys on the keypad.
pub const KEY_COUNT: usize = 16;

/// A fatal fault that stops the machine.
#[derive(Clone, Copy, Debug, PartialEq, Eq, Structural)]
pub enum Fault {
    /// The fetched word is no instruction; carries the word and the address it was fetched from.
    UndefinedOpcode { opcode: u16, pc: u16 },
    /// A call was made with sixteen return addresses already on the stack.
    StackOverflow,
    /// A return was made with an empty stack.
    StackUnderflow,
    /// An instruction addressed memory, the framebuffer or the keypad out of bounds.
    OutOfRange,
}

/// The state of a machine, as mathematical values.
pub ghost struct MachineState {
    pub memory: Seq<u8>,
    pub v: Seq<u8>,
    pub i: u16,
    pub pc: u16,
    pub stack: Seq<u16>,
    pub sp: u16,
    pub delay_timer: u8,
    pub sound_timer: u8,
    pub gfx: Seq<u8>,
    pub keys: Seq<bool>,
    pub opcode: u16,
    pub fault: Option<Fault>,
}

impl MachineState {
    /// Sizes of the parts, stack depth at most sixteen, saved return addresses
    /// inside memory, and every pixel 0 or 1.
    pub open spec fn wf(self) -> bool {
        &&& self.memory.len() == MEMORY_SIZE
        &&& self.v.len() == REGISTER_COUNT
        &&& self.stack.len() == STACK_DEPTH
        &&& self.gfx.len() == FRAME_SIZE
        &&& self.keys.len() == KEY_COUNT
        &&& self.sp <= STACK_DEPTH
        &&& forall|k: int| 0 <= k < STACK_DEPTH ==> #[trigger] self.stack[k] < MEMORY_SIZE
        &&& forall|c: int| 0 <= c < FRAME_SIZE ==> #[trigger] self.gfx[c] <= 1
    }

    /// The low byte of the current opcode.
    pub open spec fn nn(self) -> u8 {
        (self.opcode % 256) as u8
    }

    /// The low twelve bits of the current opcode.
    pub open spec fn nnn(self) -> u16 {
        self.opcode % 4096
    }

    /// The program counter moved on by `k` bytes.
    pub open spec fn advance(self, k: int) -> MachineState {
        MachineState { pc: (self.pc + k) as u16, ..self }
    }

    /// Register `x` set to `val`.
    pub open spec fn with_reg(self, x: int, val: u8) -> MachineState {
        MachineState { v: self.v.update(x, val), ..self }
    }

    /// Skips the next instruction when `cond` holds.
    pub open spec fn skip_if(self, cond: bool) -> MachineState {
        self.advance(if cond { 4 } else { 2 })
    }
}

/// The four nibbles of an opcode, most significant first.
pub open spec fn nibbles(op: u16) -> (u8, u8, u8, u8) {
    ((op / 4096) as u8, ((op / 256) % 16) as u8, ((op / 16) % 16) as u8, (op % 16) as u8)
}

/// 00E0: every pixel off.
pub open spec fn clear_screen(s: MachineState) -> MachineState {
    MachineState { gfx: Seq::new(FRAME_SIZE as nat, |c: int| 0u8), ..s }.advance(2)
}

/// 00EE: pop the call-site address and resume after it.
pub open spec fn return_from(s: MachineState) -> Result<MachineState, Fault> {
    if s.sp == 0 {
        Err(Fault::StackUnderflow)
    } else {
        Ok(MachineState { sp: (s.sp - 1) as u16, pc: (s.stack[s.sp - 1] + 2) as u16, ..s })
    }
}

/// 1NNN: jump to NNN.
pub open spec fn jump(s: MachineState) -> MachineState {
    MachineState { pc: s.nnn(), ..s }
}

/// 2NNN: push the call-site address and jump to NNN.
pub open spec fn call(s: MachineState) -> Result<MachineState, Fault> {
    if s.sp >= STACK_DEPTH {
        Err(Fault::StackOverflow)
    } else {
        Ok(
            MachineState {
                stack: s.stack.update(s.sp as int, s.pc),
                sp: (s.sp + 1) as u16,
                pc: s.nnn(),
                ..s
            },
        )
    }
}

/// 8XY4: VX + VY modulo 256, VF is 1 exactly when the sum exceeds 255.
pub open spec fn add_with_carry(s: MachineState, x: int, y: int) -> MachineState {
    let sum = s.v[x] + s.v[y];
    s.with_reg(x, (sum % 256) as u8).with_reg(FLAG_REGISTER as int, if sum > 255 { 1 } else { 0 }).advance(2)
}

/// 8XY5: VX - VY modulo 256, VF is 1 exactly when no borrow occurs.
pub open spec fn sub_with_borrow(s: MachineState, x: int, y: int) -> MachineState {
    let diff = s.v[x] - s.v[y];
    s.with_reg(x, (diff % 256) as u8).with_reg(
        FLAG_REGISTER as int,
        if s.v[x] >= s.v[y] { 1 } else { 0 },
    ).advance(2)
}

/// Whether bit `col` of a sprite row is set, column 0 being the most significant bit.
pub open spec fn sprite_bit(byte: u8, col: int) -> bool {
    (byte >> ((7 - col) as u8)) & 1u8 == 1u8
}

/// Framebuffer cell of the sprite's top-left pixel; may lie beyond the screen.
pub open spec fn draw_base(s: MachineState, x: int, y: int) -> int {
    s.v[x] + s.v[y] * 64
}

/// Whether the sprite at `I` has its pixel at (`row`, `col`) set.
pub open spec fn sprite_pixel(s: MachineState, row: int, col: int) -> bool {
    sprite_bit(s.memory[s.i + row], col)
}

/// Every sprite row lies in memory and every set pixel lands inside the framebuffer.
pub open spec fn draw_fits(s: MachineState, x: int, y: int, n: int) -> bool {
    &&& s.i + n <= MEMORY_SIZE
    &&& forall|row: int, col: int|
        0 <= row < n && 0 <= col < 8 && #[trigger] sprite_pixel(s, row, col) ==> draw_base(
            s,
            x,
            y,
        ) + col + row * 64 < FRAME_SIZE
}

/// Whether cell `c` is flipped by the sprite of height `n`.
pub open spec fn flipped(s: MachineState, x: int, y: int, n: int, c: int) -> bool {
    let d = c - draw_base(s, x, y);
    &&& d >= 0
    &&& d / 64 < n
    &&& d % 64 < 8
    &&& sprite_pixel(s, d / 64, d % 64)
}

/// Whether some set sprite pixel lands on a lit cell.
pub open spec fn collides(s: MachineState, x: int, y: int, n: int) -> bool {
    exists|row: int, col: int|
        0 <= row < n && 0 <= col < 8 && #[trigger] sprite_pixel(s, row, col) && s.gfx[draw_base(
            s,
            x,
            y,
        ) + col + row * 64] == 1
}

/// DXYN: XOR an 8-by-N sprite from `I` onto the screen at (VX, VY); VF records a collision.
pub open spec fn draw(s: MachineState, x: int, y: int, n: int) -> Result<MachineState, Fault> {
    if !draw_fits(s, x, y, n) {
        Err(Fault::OutOfRange)
    } else {
        Ok(
            MachineState {
                gfx: Seq::new(
                    FRAME_SIZE as nat,
                    |c: int|
                        if flipped(s, x, y, n, c) {
                            (1 - s.gfx[c]) as u8
                        } else {
                            s.gfx[c]
                        },
                ),
                ..s
            }.with_reg(FLAG_REGISTER as int, if collides(s, x, y, n) { 1 } else { 0 }).advance(2),
        )
    }
}

/// EX9E and EXA1: skip when the key named by VX is pressed (or, with `pressed` false, released).
pub open spec fn skip_key(s: MachineState, x: int, pressed: bool) -> Result<MachineState, Fault> {
    if s.v[x] >= KEY_COUNT {
        Err(Fault::OutOfRange)
    } else {
        Ok(s.skip_if(s.keys[s.v[x] as int] == pressed))
    }
}

/// FX33: the decimal digits of VX at `I`, `I`+1, `I`+2.
pub open spec fn store_bcd(s: MachineState, x: int) -> Result<MachineState, Fault> {
    let val = s.v[x];
    if s.i + 2 >= MEMORY_SIZE {
        Err(Fault::OutOfRange)
    } else {
        Ok(
            MachineState {
                memory: s.memory.update(s.i as int, (val / 100) as u8).update(
                    s.i + 1,
                    ((val / 10) % 10) as u8,
                ).update(s.i + 2, (val % 10) as u8),
                ..s
            }.advance(2),
        )
    }
}

/// FX55: V0..VX into memory from `I` on.
pub open spec fn dump_registers(s: MachineState, x: int) -> Result<MachineState, Fault> {
    if s.i + x >= MEMORY_SIZE {
        Err(Fault::OutOfRange)
    } else {
        Ok(
            MachineState {
                memory: Seq::new(
                    MEMORY_SIZE as nat,
                    |a: int|
                        if s.i <= a <= s.i + x {
                            s.v[a - s.i]
                        } else {
                            s.memory[a]
                        },
                ),
                ..s
            }.advance(2),
        )
    }
}

/// FX65: memory from `I` on into V0..VX.
pub open spec fn load_registers(s: MachineState, x: int) -> Result<MachineState, Fault> {
    if s.i + x >= MEMORY_SIZE {
        Err(Fault::OutOfRange)
    } else {
        Ok(
            MachineState {
                v: Seq::new(
                    REGISTER_COUNT as nat,
                    |k: int|
                        if k <= x {
                            s.memory[s.i + k]
                        } else {
                            s.v[k]
                        },
                ),
                ..s
            }.advance(2),
        )
    }
}

/// The effect of the instruction in `s.opcode`, or the fault it raises.
/// `random` is the byte that CXNN masks.
pub open spec fn execute(s: MachineState, random: u8) -> Result<MachineState, Fault> {
    let (a, b, c, d) = nibbles(s.opcode);
    let x = b as int;
    let y = c as int;
    if a == 0x0 && b == 0x0 && c == 0xE && d == 0x0 {
        Ok(clear_screen(s))
    } else if a == 0x0 && b == 0x0 && c == 0xE && d == 0xE {
        return_from(s)
    } else if a == 0x1 {
        Ok(jump(s))
    } else if a == 0x2 {
        call(s)
    } else if a == 0x3 {
        Ok(s.skip_if(s.v[x] == s.nn()))
    } else if a == 0x4 {
        Ok(s.skip_if(s.v[x] != s.nn()))
    } else if a == 0x5 && d == 0x0 {
        Ok(s.skip_if(s.v[x] == s.v[y]))
    } else if a == 0x6 {
        Ok(s.with_reg(x, s.nn()).advance(2))
    } else if a == 0x7 {
        Ok(s.with_reg(x, ((s.v[x] + s.nn()) % 256) as u8).advance(2))
    } else if a == 0x8 && d == 0x0 {
        Ok(s.with_reg(x, s.v[y]).advance(2))
    } else if a == 0x8 && d == 0x1 {
        Ok(s.with_reg(x, s.v[x] | s.v[y]).advance(2))
    } else if a == 0x8 && d == 0x2 {
        Ok(s.with_reg(x, s.v[x] & s.v[y]).advance(2))
    } else if a == 0x8 && d == 0x3 {
        Ok(s.with_reg(x, s.v[x] ^ s.v[y]).advance(2))
    } else if a == 0x8 && d == 0x4 {
        Ok(add_with_carry(s, x, y))
    } else if a == 0x8 && d == 0x5 {
        Ok(sub_with_borrow(s, x, y))
    } else if a == 0x9 && d == 0x0 {
        Ok(s.skip_if(s.v[x] != s.v[y]))
    } else if a == 0xA {
        Ok(MachineState { i: s.nnn(), ..s }.advance(2))
    } else if a == 0xB {
        Ok(MachineState { pc: (s.nnn() + s.v[0]) as u16, ..s })
    } else if a == 0xC {
        Ok(s.with_reg(x, random & s.nn()).advance(2))
    } else if a == 0xD {
        draw(s, x, y, d as int)
    } else if a == 0xE && c == 0x9 && d == 0xE {
        skip_key(s, x, true)
    } else if a == 0xE && c == 0xA && d == 0x1 {
        skip_key(s, x, false)
    } else if a == 0xF && c == 0x0 && d == 0x7 {
        Ok(s.with_reg(x, s.delay_timer).advance(2))
    } else if a == 0xF && c == 0x1 && d == 0x5 {
        Ok(MachineState { delay_timer: s.v[x], ..s }.advance(2))
    } else if a == 0xF && c == 0x1 && d == 0x8 {
        Ok(MachineState { sound_timer: s.v[x], ..s }.advance(2))
    } else if a == 0xF && c == 0x1 && d == 0xE {
        Ok(MachineState { i: ((s.i + s.v[x]) % 65536) as u16, ..s }.advance(2))
    } else if a == 0xF && c == 0x2 && d == 0x9 {
        Ok(MachineState { i: (s.v[x] * 5) as u16, ..s }.advance(2))
    } else if a == 0xF && c == 0x3 && d == 0x3 {
        store_bcd(s, x)
    } else if a == 0xF && c == 0x5 && d == 0x5 {
        dump_registers(s, x)
    } else if a == 0xF && c == 0x6 && d == 0x5 {
        load_registers(s, x)
    } else {
        Err(Fault::UndefinedOpcode { opcode: s.opcode, pc: s.pc })
    }
}

/// Whether `op` is one of the instructions the machine knows.
pub open spec fn is_defined(op: u16) -> bool {
    let (a, b, c, d) = nibbles(op);
    ||| (a == 0x0 && b == 0x0 && c == 0xE && (d == 0x0 || d == 0xE))
    ||| (0x1 <= a <= 0x4) || (0x6 <= a <= 0x7) || (0xA <= a <= 0xD)
    ||| ((a == 0x5 || a == 0x9) && d == 0x0)
    ||| (a == 0x8 && d <= 0x5)
    ||| (a == 0xE && ((c == 0x9 && d == 0xE) || (c == 0xA && d == 0x1)))
    ||| (a == 0xF && ((c == 0x0 && d == 0x7) || (c == 0x1 && (d == 0x5 || d == 0x8 || d == 0xE))
        || (c == 0x2 && d == 0x9) || (c == 0x3 && d == 0x3) || (c == 0x5 && d == 0x5) || (c == 0x6
        && d == 0x5)))
}

/// Whether both bytes of the instruction at the program counter lie in memory.
pub open spec fn fetch_in_range(s: MachineState) -> bool {
    s.pc + 1 < MEMORY_SIZE
}

/// The big-endian word at the program counter.
pub open spec fn fetched(s: MachineState) -> u16 {
    (s.memory[s.pc as int] * 256 + s.memory[s.pc + 1]) as u16
}

/// One fetch-decode-execute step: the next state and its outcome. A machine
/// that has faulted stays as it is and reports its fault again; a step that
/// faults records the fault and the fetched opcode and changes nothing else.
pub open spec fn step(s: MachineState, random: u8) -> (MachineState, Result<(), Fault>) {
    match s.fault {
        Some(f) => (s, Err(f)),
        None => if !fetch_in_range(s) {
            (MachineState { fault: Some(Fault::OutOfRange), ..s }, Err(Fault::OutOfRange))
        } else {
            let s1 = MachineState { opcode: fetched(s), ..s };
            match execute(s1, random) {
                Ok(s2) => (s2, Ok(())),
                Err(f) => (MachineState { fault: Some(f), ..s1 }, Err(f)),
            }
        },
    }
}

/// A fresh machine: the font at address 0, everything else zero, and the
/// program counter at `PROGRAM_START`.
pub open spec fn initial_state() -> MachineState {
    MachineState {
        memory: crate::font::font_bytes() + Seq::new((MEMORY_SIZE - 80) as nat, |a: int| 0u8),
        v: Seq::new(REGISTER_COUNT as nat, |k: int| 0u8),
        i: 0,
        pc: PROGRAM_START,
        stack: Seq::new(STACK_DEPTH as nat, |k: int| 0u16),
        sp: 0,
        delay_timer: 0,
        sound_timer: 0,
        gfx: Seq::new(FRAME_SIZE as nat, |c: int| 0u8),
        keys: Seq::new(KEY_COUNT as nat, |k: int| false),
        opcode: 0,
        fault: None,
    }
}

/// `program` copied into memory from `PROGRAM_START` on.
pub open spec fn with_program(s: MachineState, program: Seq<u8>) -> MachineState {
    MachineState {
        memory: Seq::new(
            MEMORY_SIZE as nat,
            |a: int|
                if PROGRAM_START <= a < PROGRAM_START + program.len() {
                    program[a - PROGRAM_START]
                } else {
                    s.memory[a]
                },
        ),
        ..s
    }
}

/// Both timers one tick further down, stopping at zero.
pub open spec fn tick(s: MachineState) -> MachineState {
    MachineState {
        delay_timer: if s.delay_timer > 0 { (s.delay_timer - 1) as u8 } else { 0 },
        sound_timer: if s.sound_timer > 0 { (s.sound_timer - 1) as u8 } else { 0 },
        ..s
    }
}

} // verus!
