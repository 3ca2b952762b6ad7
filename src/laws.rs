use vstd::prelude::*;
use crate::model::{
    draw, draw_base, fetch_in_range, fetched, is_defined, nibbles, sprite_pixel, step, Fault,
    MachineState, FLAG_REGISTER,
};

verus! {

/// The state a step starts from: well formed, not faulted, and with the
/// next instruction inside memory.
pub open spec fn ready(s: MachineState) -> bool {
    s.wf() && s.fault is None && fetch_in_range(s)
}

/// Adding VY to VX with carry leaves (VX + VY) mod 256 in VX and sets VF to 1
/// exactly when the sum exceeds 255 (VX other than VF, which the flag overwrites).
pub proof fn add_with_carry_law(s: MachineState, random: u8, x: u8, y: u8)
    requires
        ready(s),
        nibbles(fetched(s)) == (0x8u8, x, y, 0x4u8),
        x != FLAG_REGISTER,
    ensures
        step(s, random).1 == Ok::<(), Fault>(()),
        step(s, random).0.v[x as int] == (s.v[x as int] + s.v[y as int]) % 256,
        step(s, random).0.v[FLAG_REGISTER as int] == 1 <==> s.v[x as int] + s.v[y as int] > 255,
        step(s, random).0.v[FLAG_REGISTER as int] == 0 <==> s.v[x as int] + s.v[y as int] <= 255,
{
}

/// Subtracting VY from VX leaves (VX - VY) mod 256 in VX and sets VF to 1
/// exactly when VX >= VY, that is when no borrow occurs (VX other than VF).
pub proof fn sub_with_borrow_law(s: MachineState, random: u8, x: u8, y: u8)
    requires
        ready(s),
        nibbles(fetched(s)) == (0x8u8, x, y, 0x5u8),
        x != FLAG_REGISTER,
    ensures
        step(s, random).1 == Ok::<(), Fault>(()),
        step(s, random).0.v[x as int] == (s.v[x as int] - s.v[y as int]) % 256,
        step(s, random).0.v[FLAG_REGISTER as int] == 1 <==> s.v[x as int] >= s.v[y as int],
        step(s, random).0.v[FLAG_REGISTER as int] == 0 <==> s.v[x as int] < s.v[y as int],
{
}

/// Clearing the display leaves every pixel off, whatever was drawn before.
pub proof fn clear_display_law(s: MachineState, random: u8)
    requires
        ready(s),
        fetched(s) == 0x00E0,
    ensures
        step(s, random).1 == Ok::<(), Fault>(()),
        forall|c: int| 0 <= c < 2048 ==> #[trigger] step(s, random).0.gfx[c] == 0,
{
    assert(nibbles(fetched(s)) == (0u8, 0u8, 0xEu8, 0u8));
}

/// Drawing the same sprite twice at the same place restores the framebuffer,
/// and the second draw reports a collision exactly when the first lit a
/// pixel that had been off (VX and VY other than VF, so the flag written by
/// the first draw does not move the sprite).
pub proof fn draw_twice_law(s: MachineState, x: int, y: int, n: int)
    requires
        s.wf(),
        0 <= x < 16,
        0 <= y < 16,
        0 <= n < 16,
        x != FLAG_REGISTER,
        y != FLAG_REGISTER,
        draw(s, x, y, n) is Ok,
    ensures
        draw(draw(s, x, y, n)->Ok_0, x, y, n) is Ok,
        draw(draw(s, x, y, n)->Ok_0, x, y, n)->Ok_0.gfx == s.gfx,
        draw(draw(s, x, y, n)->Ok_0, x, y, n)->Ok_0.v[FLAG_REGISTER as int] == 1 <==> exists|
            row: int,
            col: int,
        |
            0 <= row < n && 0 <= col < 8 && #[trigger] sprite_pixel(s, row, col) && s.gfx[draw_base(
                s,
                x,
                y,
            ) + col + row * 64] == 0,
{
    let t = draw(s, x, y, n)->Ok_0;
    assert(t.memory == s.memory);
    assert(t.i == s.i);
    assert(t.v[x] == s.v[x] && t.v[y] == s.v[y]);
    assert forall|row: int, col: int| sprite_pixel(t, row, col) == sprite_pixel(s, row, col) by {}
    assert(draw_base(t, x, y) == draw_base(s, x, y));
    let u = draw(t, x, y, n)->Ok_0;
    assert(u.gfx =~= s.gfx);
    assert forall|row: int, col: int|
        0 <= row < n && 0 <= col < 8 && #[trigger] sprite_pixel(s, row, col) implies t.gfx[draw_base(
            s,
            x,
            y,
        ) + col + row * 64] == 1 - s.gfx[draw_base(s, x, y) + col + row * 64] by {
        let d = col + row * 64;
        vstd::arithmetic::div_mod::lemma_fundamental_div_mod_converse(d, 64, row, col);
    }
}

/// A call followed by a return resumes right after the call instruction,
/// with the stack as deep as before.
pub proof fn call_return_law(s: MachineState, r1: u8, r2: u8)
    requires
        ready(s),
        nibbles(fetched(s)).0 == 0x2,
        s.sp < 16,
        fetch_in_range(step(s, r1).0),
        fetched(step(s, r1).0) == 0x00EE,
    ensures
        step(s, r1).1 == Ok::<(), Fault>(()),
        step(step(s, r1).0, r2).1 == Ok::<(), Fault>(()),
        step(step(s, r1).0, r2).0.pc == s.pc + 2,
        step(step(s, r1).0, r2).0.sp == s.sp,
{
    let t = step(s, r1).0;
    assert(nibbles(fetched(t)) == (0u8, 0u8, 0xEu8, 0xEu8));
}

/// A word that is no instruction raises the undefined-opcode fault with that
/// word and the program counter, and leaves registers, memory and framebuffer
/// as they were.
pub proof fn undefined_opcode_law(s: MachineState, random: u8)
    requires
        ready(s),
        !is_defined(fetched(s)),
    ensures
        step(s, random).1 == Err::<(), Fault>(
            Fault::UndefinedOpcode { opcode: fetched(s), pc: s.pc },
        ),
        step(s, random).0 == (MachineState {
            opcode: fetched(s),
            fault: Some(Fault::UndefinedOpcode { opcode: fetched(s), pc: s.pc }),
            ..s
        }),
{
}

} // verus!
