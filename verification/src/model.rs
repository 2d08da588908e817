//! The mathematical model of the machine.
//!
//! [`State`] is a ghost snapshot of every component of the machine, and
//! [`exec_spec`] gives the exact meaning of each instruction word as a
//! function from one snapshot to the next (or to a fatal error).

use vstd::prelude::*;

use crate::EmuError;

verus! {

/// A snapshot of the whole machine: the view of [`crate::Emu`].
#[verifier::ext_equal]
pub ghost struct State {
    /// Program counter: offset into memory of the next instruction word.
    pub pc: u16,
    /// Memory, 4096 bytes; the first 80 hold the built-in sprite font.
    pub ram: Seq<u8>,
    /// Framebuffer, 64x32 pixels, row-major: pixel (x, y) is at `x + 64 * y`.
    pub screen: Seq<bool>,
    /// The sixteen general purpose registers; index 0xF doubles as the flag
    /// register.
    pub v_reg: Seq<u8>,
    /// Index register, used as a memory pointer by several opcodes.
    pub i_reg: u16,
    /// Number of call-stack slots in use.
    pub sp: u16,
    /// Call stack: return addresses live at indices below `sp`.
    pub stack: Seq<u16>,
    /// Keypad: `keys[k]` is true while key `k` is held down.
    pub keys: Seq<bool>,
    /// Delay timer, decremented towards zero by timer ticks.
    pub dt: u8,
    /// Sound timer; a tone is due while it is nonzero.
    pub st: u8,
}

impl State {
    /// Every component has its fixed size and the stack pointer stays within
    /// the stack.
    pub open spec fn wf(self) -> bool {
        &&& self.ram.len() == 4096
        &&& self.screen.len() == 2048
        &&& self.v_reg.len() == 16
        &&& self.stack.len() == 16
        &&& self.keys.len() == 16
        &&& self.sp <= 16
    }
}

/// The five rows of the built-in sprite glyph for hexadecimal digit `g`.
pub open spec fn glyph_rows(g: int) -> Seq<u8> {
    if g == 0x0 { seq![0xF0u8, 0x90, 0x90, 0x90, 0xF0] }
    else if g == 0x1 { seq![0x20u8, 0x60, 0x20, 0x20, 0x70] }
    else if g == 0x2 { seq![0xF0u8, 0x10, 0xF0, 0x80, 0xF0] }
    else if g == 0x3 { seq![0xF0u8, 0x10, 0xF0, 0x10, 0xF0] }
    else if g == 0x4 { seq![0x90u8, 0x90, 0xF0, 0x10, 0x10] }
    else if g == 0x5 { seq![0xF0u8, 0x80, 0xF0, 0x10, 0xF0] }
    else if g == 0x6 { seq![0xF0u8, 0x80, 0xF0, 0x90, 0xF0] }
    else if g == 0x7 { seq![0xF0u8, 0x10, 0x20, 0x40, 0x40] }
    else if g == 0x8 { seq![0xF0u8, 0x90, 0xF0, 0x90, 0xF0] }
    else if g == 0x9 { seq![0xF0u8, 0x90, 0xF0, 0x10, 0xF0] }
    else if g == 0xA { seq![0xF0u8, 0x90, 0xF0, 0x90, 0x90] }
    else if g == 0xB { seq![0xE0u8, 0x90, 0xE0, 0x90, 0xE0] }
    else if g == 0xC { seq![0xF0u8, 0x80, 0x80, 0x80, 0xF0] }
    else if g == 0xD { seq![0xE0u8, 0x90, 0x90, 0x90, 0xE0] }
    else if g == 0xE { seq![0xF0u8, 0x80, 0xF0, 0x80, 0xF0] }
    else if g == 0xF { seq![0xF0u8, 0x80, 0xF0, 0x80, 0x80] }
    else { seq![] }
}

/// Byte `i` of the 80-byte font block at the bottom of memory.
pub open spec fn font_byte(i: int) -> u8 {
    glyph_rows(i / 5)[i % 5]
}

/// Memory as fresh construction and reset leave it: the font in the first 80
/// bytes, zero everywhere else.
pub open spec fn init_ram() -> Seq<u8> {
    Seq::new(4096, |i: int| if i < 80 { font_byte(i) } else { 0u8 })
}

/// The machine state established by fresh construction and by reset.
pub open spec fn init_state() -> State {
    State {
        pc: 0x200,
        ram: init_ram(),
        screen: Seq::new(2048, |i: int| false),
        v_reg: Seq::new(16, |i: int| 0u8),
        i_reg: 0,
        sp: 0,
        stack: Seq::new(16, |i: int| 0u16),
        keys: Seq::new(16, |i: int| false),
        dt: 0,
        st: 0,
    }
}

/// The big-endian instruction word held at `pc`.
pub open spec fn word_at(ram: Seq<u8>, pc: int) -> u16 {
    (ram[pc] * 256 + ram[pc + 1]) as u16
}

/// Highest nibble of an instruction word: the primary dispatch digit.
pub open spec fn nib_a(op: u16) -> int {
    op as int / 0x1000
}

/// Second nibble: the register index `x`.
pub open spec fn nib_x(op: u16) -> int {
    (op as int / 0x100) % 16
}

/// Third nibble: the register index `y`.
pub open spec fn nib_y(op: u16) -> int {
    (op as int / 0x10) % 16
}

/// Lowest nibble of an instruction word.
pub open spec fn nib_d(op: u16) -> int {
    op as int % 16
}

/// Low 12 bits of an instruction word: an absolute address.
pub open spec fn addr_nnn(op: u16) -> u16 {
    (op as int % 0x1000) as u16
}

/// Low byte of an instruction word: an immediate operand.
pub open spec fn imm_nn(op: u16) -> u8 {
    (op as int % 0x100) as u8
}

/// Memory after a program image `data` is copied in at the load address.
pub open spec fn load_spec(ram: Seq<u8>, data: Seq<u8>) -> Seq<u8> {
    Seq::new(
        4096,
        |i: int|
            if 0x200 <= i < 0x200 + data.len() {
                data[i - 0x200]
            } else {
                ram[i]
            },
    )
}

/// One timer tick: each timer is decremented only while nonzero, so a timer
/// at zero stays at zero.
pub open spec fn timers_spec(s: State) -> State {
    State {
        dt: if s.dt > 0 { (s.dt - 1) as u8 } else { 0 },
        st: if s.st > 0 { (s.st - 1) as u8 } else { 0 },
        ..s
    }
}

/// 8-bit addition with wraparound.
pub open spec fn wrap_add8(a: u8, b: u8) -> u8 {
    if a + b > 255 { (a + b - 256) as u8 } else { (a + b) as u8 }
}

/// 8-bit subtraction with wraparound.
pub open spec fn wrap_sub8(a: u8, b: u8) -> u8 {
    if a >= b { (a - b) as u8 } else { (a - b + 256) as u8 }
}

/// 16-bit addition with wraparound.
pub open spec fn wrap_add16(a: u16, b: u16) -> u16 {
    if a + b > 0xFFFF { (a + b - 0x10000) as u16 } else { (a + b) as u16 }
}

/// Whether column `c` (0 is leftmost) of a sprite row byte is set.
pub open spec fn sprite_bit(byte: u8, c: u8) -> bool {
    byte & (0x80u8 >> c) != 0
}

/// Blits the bits of one sprite row from column `c` on onto the framebuffer
/// by XOR, the row's left edge at column `x0` of row `y`, wrapping at the
/// right screen edge. Returns the new framebuffer and whether some pixel was
/// unset by the blit.
pub open spec fn draw_row(screen: Seq<bool>, byte: u8, x0: int, y: int, c: int) -> (Seq<
    bool,
>, bool)
    decreases 8 - c,
{
    if c < 0 || c >= 8 {
        (screen, false)
    } else {
        let idx = (x0 + c) % 64 + 64 * y;
        if sprite_bit(byte, c as u8) {
            let rest = draw_row(screen.update(idx, !screen[idx]), byte, x0, y, c + 1);
            (rest.0, screen[idx] || rest.1)
        } else {
            draw_row(screen, byte, x0, y, c + 1)
        }
    }
}

/// Blits sprite rows `r` to `n - 1`, read from memory at `base`, onto the
/// framebuffer, wrapping at the bottom screen edge. Returns the new
/// framebuffer and whether some pixel was unset.
pub open spec fn draw_rows(
    screen: Seq<bool>,
    ram: Seq<u8>,
    base: int,
    x0: int,
    y0: int,
    r: int,
    n: int,
) -> (Seq<bool>, bool)
    decreases n - r,
{
    if r < 0 || r >= n {
        (screen, false)
    } else {
        let row = draw_row(screen, ram[base + r], x0, (y0 + r) % 32, 0);
        let rest = draw_rows(row.0, ram, base, x0, y0, r + 1, n);
        (rest.0, row.1 || rest.1)
    }
}

/// Memory after registers 0 through `k` are stored at `base`.
pub open spec fn block_store(ram: Seq<u8>, v: Seq<u8>, base: int, k: int) -> Seq<u8>
    decreases k + 1,
{
    if k < 0 {
        ram
    } else {
        block_store(ram, v, base, k - 1).update(base + k, v[k])
    }
}

/// Registers after registers 0 through `k` are loaded from memory at `base`.
pub open spec fn block_load(v: Seq<u8>, ram: Seq<u8>, base: int, k: int) -> Seq<u8>
    decreases k + 1,
{
    if k < 0 {
        v
    } else {
        block_load(v, ram, base, k - 1).update(k, ram[base + k])
    }
}

/// The lowest-numbered pressed key at or above index `k`, if any.
pub open spec fn first_key_from(keys: Seq<bool>, k: int) -> Option<int>
    decreases 16 - k,
{
    if k < 0 || k >= 16 {
        None
    } else if keys[k] {
        Some(k)
    } else {
        first_key_from(keys, k + 1)
    }
}

/// Scanning for the first pressed key may start anywhere inside a prefix of
/// released keys without changing what it finds.
pub proof fn lemma_first_key_skip(keys: Seq<bool>, k: int, i: int)
    requires
        0 <= k <= i <= 16,
        forall|j: int| k <= j < i ==> !keys[j],
    ensures
        first_key_from(keys, k) == first_key_from(keys, i),
    decreases i - k,
{
    if k < i {
        assert(!keys[k]);
        lemma_first_key_skip(keys, k + 1, i);
    }
}

/// Whether one interpreter step from `pre` with random byte `b` yields
/// outcome `r`, the machine left in `post`.
pub open spec fn step_outcome(pre: State, post: State, r: Result<(), EmuError>, b: u8) -> bool {
    match r {
        Ok(()) => step_spec(pre, b) == Ok::<State, EmuError>(post),
        Err(e) => step_spec(pre, b) == Err::<State, EmuError>(e),
    }
}

/// The effect of the instruction word `op` on machine state `s`, `s.pc`
/// already advanced past the word. `rnd` is the random byte consumed by the
/// `Cxnn` opcode and ignored by every other. An error leaves no effect at
/// all; the table of opcodes is:
///
/// ```text
/// 00E0 clear screen        00EE return              1nnn jump
/// 2nnn call                3xnn skip if vx == nn    4xnn skip if vx != nn
/// 5xy0 skip if vx == vy    6xnn vx = nn             7xnn vx += nn (wrap)
/// 8xy0 vx = vy             8xy1 vx |= vy            8xy2 vx &= vy
/// 8xy3 vx ^= vy            8xy4 add, carry to vF    8xy5 sub, borrow to vF
/// 8xy6 shift right, vF     8xy7 vx = vy - vx        8xyE shift left, vF
/// 9xy0 skip if vx != vy    Annn i = nnn             Bnnn jump nnn + v0
/// Cxnn vx = random & nn    Dxyn draw sprite         Ex9E skip if key vx down
/// ExA1 skip if key vx up   Fx07 vx = delay          Fx0A wait for key
/// Fx15 delay = vx          Fx18 sound = vx          Fx1E i += vx (wrap)
/// Fx29 i = font glyph vx   Fx33 store vx as BCD     Fx55 store v0..=vx
/// Fx65 load v0..=vx
/// ```
pub open spec fn exec_spec(s: State, op: u16, rnd: u8) -> Result<State, EmuError> {
    let a = nib_a(op);
    let x = nib_x(op);
    let y = nib_y(op);
    let d = nib_d(op);
    let nnn = addr_nnn(op);
    let nn = imm_nn(op);
    if op == 0x00E0 {
        Ok(State { screen: Seq::new(2048, |i: int| false), ..s })
    } else if op == 0x00EE {
        if s.sp == 0 {
            Err(EmuError::StackUnderflow)
        } else {
            Ok(State { sp: (s.sp - 1) as u16, pc: s.stack[s.sp - 1], ..s })
        }
    } else if a == 0x1 {
        Ok(State { pc: nnn, ..s })
    } else if a == 0x2 {
        if s.sp >= 16 {
            Err(EmuError::StackOverflow)
        } else {
            Ok(
                State {
                    stack: s.stack.update(s.sp as int, s.pc),
                    sp: (s.sp + 1) as u16,
                    pc: nnn,
                    ..s
                },
            )
        }
    } else if a == 0x3 {
        Ok(State { pc: if s.v_reg[x] == nn { (s.pc + 2) as u16 } else { s.pc }, ..s })
    } else if a == 0x4 {
        Ok(State { pc: if s.v_reg[x] != nn { (s.pc + 2) as u16 } else { s.pc }, ..s })
    } else if a == 0x5 && d == 0x0 {
        Ok(State { pc: if s.v_reg[x] == s.v_reg[y] { (s.pc + 2) as u16 } else { s.pc }, ..s })
    } else if a == 0x6 {
        Ok(State { v_reg: s.v_reg.update(x, nn), ..s })
    } else if a == 0x7 {
        Ok(State { v_reg: s.v_reg.update(x, wrap_add8(s.v_reg[x], nn)), ..s })
    } else if a == 0x8 && d == 0x0 {
        Ok(State { v_reg: s.v_reg.update(x, s.v_reg[y]), ..s })
    } else if a == 0x8 && d == 0x1 {
        Ok(State { v_reg: s.v_reg.update(x, s.v_reg[x] | s.v_reg[y]), ..s })
    } else if a == 0x8 && d == 0x2 {
        Ok(State { v_reg: s.v_reg.update(x, s.v_reg[x] & s.v_reg[y]), ..s })
    } else if a == 0x8 && d == 0x3 {
        Ok(State { v_reg: s.v_reg.update(x, s.v_reg[x] ^ s.v_reg[y]), ..s })
    } else if a == 0x8 && d == 0x4 {
        let carry: u8 = if s.v_reg[x] + s.v_reg[y] > 255 { 1 } else { 0 };
        Ok(
            State {
                v_reg: s.v_reg.update(x, wrap_add8(s.v_reg[x], s.v_reg[y])).update(0xF, carry),
                ..s
            },
        )
    } else if a == 0x8 && d == 0x5 {
        let no_borrow: u8 = if s.v_reg[x] >= s.v_reg[y] { 1 } else { 0 };
        Ok(
            State {
                v_reg: s.v_reg.update(x, wrap_sub8(s.v_reg[x], s.v_reg[y])).update(0xF, no_borrow),
                ..s
            },
        )
    } else if a == 0x8 && d == 0x6 {
        let lsb: u8 = (s.v_reg[x] % 2) as u8;
        Ok(State { v_reg: s.v_reg.update(x, (s.v_reg[x] / 2) as u8).update(0xF, lsb), ..s })
    } else if a == 0x8 && d == 0x7 {
        let no_borrow: u8 = if s.v_reg[y] >= s.v_reg[x] { 1 } else { 0 };
        Ok(
            State {
                v_reg: s.v_reg.update(x, wrap_sub8(s.v_reg[y], s.v_reg[x])).update(0xF, no_borrow),
                ..s
            },
        )
    } else if a == 0x8 && d == 0xE {
        let msb: u8 = (s.v_reg[x] / 128) as u8;
        Ok(
            State {
                v_reg: s.v_reg.update(x, wrap_add8(s.v_reg[x], s.v_reg[x])).update(0xF, msb),
                ..s
            },
        )
    } else if a == 0x9 && d == 0x0 {
        Ok(State { pc: if s.v_reg[x] != s.v_reg[y] { (s.pc + 2) as u16 } else { s.pc }, ..s })
    } else if a == 0xA {
        Ok(State { i_reg: nnn, ..s })
    } else if a == 0xB {
        Ok(State { pc: (s.v_reg[0] + nnn) as u16, ..s })
    } else if a == 0xC {
        Ok(State { v_reg: s.v_reg.update(x, rnd & nn), ..s })
    } else if a == 0xD {
        if d > 0 && s.i_reg + d > 4096 {
            Err(EmuError::AddressOutOfBounds)
        } else {
            let blit = draw_rows(
                s.screen,
                s.ram,
                s.i_reg as int,
                s.v_reg[x] as int,
                s.v_reg[y] as int,
                0,
                d,
            );
            Ok(
                State {
                    screen: blit.0,
                    v_reg: s.v_reg.update(0xF, if blit.1 { 1u8 } else { 0u8 }),
                    ..s
                },
            )
        }
    } else if a == 0xE && nn == 0x9E {
        if s.v_reg[x] >= 16 {
            Err(EmuError::KeyOutOfRange)
        } else {
            Ok(State { pc: if s.keys[s.v_reg[x] as int] { (s.pc + 2) as u16 } else { s.pc }, ..s })
        }
    } else if a == 0xE && nn == 0xA1 {
        if s.v_reg[x] >= 16 {
            Err(EmuError::KeyOutOfRange)
        } else {
            Ok(State { pc: if !s.keys[s.v_reg[x] as int] { (s.pc + 2) as u16 } else { s.pc }, ..s })
        }
    } else if a == 0xF && nn == 0x07 {
        Ok(State { v_reg: s.v_reg.update(x, s.dt), ..s })
    } else if a == 0xF && nn == 0x0A {
        match first_key_from(s.keys, 0) {
            Some(k) => Ok(State { v_reg: s.v_reg.update(x, k as u8), ..s }),
            None => Ok(State { pc: (s.pc - 2) as u16, ..s }),
        }
    } else if a == 0xF && nn == 0x15 {
        Ok(State { dt: s.v_reg[x], ..s })
    } else if a == 0xF && nn == 0x18 {
        Ok(State { st: s.v_reg[x], ..s })
    } else if a == 0xF && nn == 0x1E {
        Ok(State { i_reg: wrap_add16(s.i_reg, s.v_reg[x] as u16), ..s })
    } else if a == 0xF && nn == 0x29 {
        Ok(State { i_reg: (5 * s.v_reg[x]) as u16, ..s })
    } else if a == 0xF && nn == 0x33 {
        if s.i_reg + 3 > 4096 {
            Err(EmuError::AddressOutOfBounds)
        } else {
            let vx = s.v_reg[x];
            Ok(
                State {
                    ram: s.ram.update(s.i_reg as int, (vx / 100) as u8).update(
                        s.i_reg + 1,
                        ((vx / 10) % 10) as u8,
                    ).update(s.i_reg + 2, (vx % 10) as u8),
                    ..s
                },
            )
        }
    } else if a == 0xF && nn == 0x55 {
        if s.i_reg + x + 1 > 4096 {
            Err(EmuError::AddressOutOfBounds)
        } else {
            Ok(State { ram: block_store(s.ram, s.v_reg, s.i_reg as int, x), ..s })
        }
    } else if a == 0xF && nn == 0x65 {
        if s.i_reg + x + 1 > 4096 {
            Err(EmuError::AddressOutOfBounds)
        } else {
            Ok(State { v_reg: block_load(s.v_reg, s.ram, s.i_reg as int, x), ..s })
        }
    } else {
        Err(EmuError::UnknownOpcode(op))
    }
}

/// One whole interpreter step on state `s`: fetch the big-endian word at the
/// program counter, advance the counter by 2, then execute the word with
/// `rnd` as the random byte. An error leaves no effect at all.
pub open spec fn step_spec(s: State, rnd: u8) -> Result<State, EmuError> {
    if s.pc + 2 > 4096 {
        Err(EmuError::AddressOutOfBounds)
    } else {
        exec_spec(
            State { pc: (s.pc + 2) as u16, ..s },
            word_at(s.ram, s.pc as int),
            rnd,
        )
    }
}

} // verus!
