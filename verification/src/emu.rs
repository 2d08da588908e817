//! The executable machine and its operations.

use vstd::prelude::*;

use crate::model::{
    block_load, block_store, draw_row, draw_rows, exec_spec, first_key_from, font_byte,
    glyph_rows, init_ram, init_state, lemma_first_key_skip, load_spec, step_outcome, step_spec,
    timers_spec, word_at, State,
};
use crate::EmuError;

verus! {

/// The CHIP-8 machine: the whole interpreter state, owned by one value.
pub struct Emu {
    pc: u16,
    ram: Vec<u8>,
    screen: Vec<bool>,
    v_reg: Vec<u8>,
    i_reg: u16,
    sp: u16,
    stack: Vec<u16>,
    keys: Vec<bool>,
    dt: u8,
    st: u8,
}

impl View for Emu {
    type V = State;

    closed spec fn view(&self) -> State {
        State {
            pc: self.pc,
            ram: self.ram@,
            screen: self.screen@,
            v_reg: self.v_reg@,
            i_reg: self.i_reg,
            sp: self.sp,
            stack: self.stack@,
            keys: self.keys@,
            dt: self.dt,
            st: self.st,
        }
    }
}

/// Relies on rand::random: draws one byte from the thread-local generator.
/// Nothing is assumed of its value.
#[verifier::external_body]
fn random_byte() -> u8 {
    rand::random()
}

/// A vector of `n` copies of `val`.
fn filled<T: Copy>(n: usize, val: T) -> (v: Vec<T>)
    ensures
        v@ == Seq::new(n as nat, |i: int| val),
{
    let mut v: Vec<T> = Vec::new();
    let mut k: usize = 0;
    while k < n
        invariant
            k <= n,
            v@ == Seq::new(k as nat, |i: int| val),
        decreases n - k,
    {
        v.push(val);
        proof {
            assert(v@ =~= Seq::new((k + 1) as nat, |i: int| val));
        }
        k = k + 1;
    }
    v
}

/// Writes the five rows of one font glyph at `base`.
fn set_glyph(ram: &mut Vec<u8>, base: usize, b0: u8, b1: u8, b2: u8, b3: u8, b4: u8)
    requires
        base + 5 <= old(ram).len(),
    ensures
        final(ram)@.len() == old(ram)@.len(),
        forall|i: int|
            0 <= i < old(ram)@.len() ==> final(ram)@[i] == if base <= i < base + 5 {
                seq![b0, b1, b2, b3, b4][i - base]
            } else {
                old(ram)@[i]
            },
{
    ram[base] = b0;
    ram[base + 1] = b1;
    ram[base + 2] = b2;
    ram[base + 3] = b3;
    ram[base + 4] = b4;
}

/// Builds memory as construction and reset leave it: the sprite font in the
/// first 80 bytes, zero everywhere else.
fn build_ram() -> (ram: Vec<u8>)
    ensures
        ram@ == init_ram(),
{
    let mut ram = filled(4096, 0u8);
    set_glyph(&mut ram, 0, 0xF0, 0x90, 0x90, 0x90, 0xF0);
    set_glyph(&mut ram, 5, 0x20, 0x60, 0x20, 0x20, 0x70);
    set_glyph(&mut ram, 10, 0xF0, 0x10, 0xF0, 0x80, 0xF0);
    set_glyph(&mut ram, 15, 0xF0, 0x10, 0xF0, 0x10, 0xF0);
    set_glyph(&mut ram, 20, 0x90, 0x90, 0xF0, 0x10, 0x10);
    set_glyph(&mut ram, 25, 0xF0, 0x80, 0xF0, 0x10, 0xF0);
    set_glyph(&mut ram, 30, 0xF0, 0x80, 0xF0, 0x90, 0xF0);
    set_glyph(&mut ram, 35, 0xF0, 0x10, 0x20, 0x40, 0x40);
    set_glyph(&mut ram, 40, 0xF0, 0x90, 0xF0, 0x90, 0xF0);
    set_glyph(&mut ram, 45, 0xF0, 0x90, 0xF0, 0x10, 0xF0);
    set_glyph(&mut ram, 50, 0xF0, 0x90, 0xF0, 0x90, 0x90);
    set_glyph(&mut ram, 55, 0xE0, 0x90, 0xE0, 0x90, 0xE0);
    set_glyph(&mut ram, 60, 0xF0, 0x80, 0x80, 0x80, 0xF0);
    set_glyph(&mut ram, 65, 0xE0, 0x90, 0x90, 0x90, 0xE0);
    set_glyph(&mut ram, 70, 0xF0, 0x80, 0xF0, 0x80, 0xF0);
    set_glyph(&mut ram, 75, 0xF0, 0x80, 0xF0, 0x80, 0x80);
    proof {
        assert forall|i: int| 0 <= i < 80 implies ram@[i] == font_byte(i) by {
            let g = i / 5;
            let r = i % 5;
            assert(glyph_rows(g)[r] == ram@[i]);
        }
        assert(ram@ =~= init_ram());
    }
    ram
}

impl Default for Emu {
    /// A fresh machine, indistinguishable from one that was just reset.
    fn default() -> (e: Emu)
        ensures
            e@ == init_state(),
            e@.wf(),
    {
        let e = Emu {
            pc: 0x200,
            ram: build_ram(),
            screen: filled(2048, false),
            v_reg: filled(16, 0u8),
            i_reg: 0,
            sp: 0,
            stack: filled(16, 0u16),
            keys: filled(16, false),
            dt: 0,
            st: 0,
        };
        proof {
            assert(e@ =~= init_state());
        }
        e
    }
}

impl Emu {
    /// Re-initializes every component of the machine; the result is the same
    /// state that fresh construction yields, whatever the machine held
    /// before, however often it is repeated.
    pub fn reset(&mut self)
        ensures
            final(self)@ == init_state(),
            final(self)@.wf(),
    {
        self.pc = 0x200;
        self.ram = build_ram();
        self.screen = filled(2048, false);
        self.v_reg = filled(16, 0u8);
        self.i_reg = 0;
        self.sp = 0;
        self.stack = filled(16, 0u16);
        self.keys = filled(16, false);
        self.dt = 0;
        self.st = 0;
        proof {
            assert(self@ =~= init_state());
        }
    }

    /// Copies a program image verbatim into memory at the load address, or
    /// rejects it untouched when it would run past the end of memory.
    pub fn load(&mut self, data: &Vec<u8>) -> (r: Result<(), EmuError>)
        requires
            old(self)@.wf(),
        ensures
            final(self)@.wf(),
            data@.len() <= 3584 ==> r == Ok::<(), EmuError>(()) && final(self)@ == (State {
                ram: load_spec(old(self)@.ram, data@),
                ..old(self)@
            }),
            data@.len() > 3584 ==> r == Err::<(), EmuError>(EmuError::ImageTooLarge)
                && final(self)@ == old(self)@,
    {
        if data.len() > 3584 {
            return Err(EmuError::ImageTooLarge);
        }
        let mut k: usize = 0;
        while k < data.len()
            invariant
                old(self)@.wf(),
                k <= data@.len() <= 3584,
                self@ == (State { ram: self@.ram, ..old(self)@ }),
                self@.ram.len() == 4096,
                forall|i: int|
                    0 <= i < 4096 ==> self@.ram[i] == if 0x200 <= i < 0x200 + k {
                        data@[i - 0x200]
                    } else {
                        old(self)@.ram[i]
                    },
            decreases data@.len() - k,
        {
            self.ram[0x200 + k] = data[k];
            k = k + 1;
        }
        proof {
            assert(self@.ram =~= load_spec(old(self)@.ram, data@));
            assert(self@ =~= (State { ram: load_spec(old(self)@.ram, data@), ..old(self)@ }));
        }
        Ok(())
    }

    /// Sets or clears the pressed flag of one key; nothing else moves.
    pub fn keypress(&mut self, idx: usize, pressed: bool)
        requires
            old(self)@.wf(),
            idx < 16,
        ensures
            final(self)@.wf(),
            final(self)@ == (State {
                keys: old(self)@.keys.update(idx as int, pressed),
                ..old(self)@
            }),
    {
        self.keys[idx] = pressed;
    }

    /// One timer tick: decrements each timer that is nonzero and never moves
    /// a timer that is already at zero.
    pub fn tick_timers(&mut self)
        ensures
            final(self)@ == timers_spec(old(self)@),
    {
        if self.dt > 0 {
            self.dt = self.dt - 1;
        }
        if self.st > 0 {
            self.st = self.st - 1;
        }
        proof {
            assert(self@ =~= timers_spec(old(self)@));
        }
    }

    /// Reads the two bytes at the program counter as one big-endian
    /// instruction word and advances the counter by 2.
    pub fn fetch(&mut self) -> (op: u16)
        requires
            old(self)@.wf(),
            old(self)@.pc + 2 <= 4096,
        ensures
            final(self)@.wf(),
            op == word_at(old(self)@.ram, old(self)@.pc as int),
            final(self)@ == (State { pc: (old(self)@.pc + 2) as u16, ..old(self)@ }),
    {
        let hi = self.ram[self.pc as usize];
        let lo = self.ram[self.pc as usize + 1];
        self.pc = self.pc + 2;
        (hi as u16) * 256 + (lo as u16)
    }

    /// Pushes a return address onto the call stack.
    fn push(&mut self, val: u16)
        requires
            old(self)@.wf(),
            old(self)@.sp < 16,
        ensures
            final(self)@.wf(),
            final(self)@ == (State {
                stack: old(self)@.stack.update(old(self)@.sp as int, val),
                sp: (old(self)@.sp + 1) as u16,
                ..old(self)@
            }),
    {
        self.stack[self.sp as usize] = val;
        self.sp = self.sp + 1;
    }

    /// Pops the most recent return address off the call stack.
    fn pop(&mut self) -> (r: u16)
        requires
            old(self)@.wf(),
            old(self)@.sp > 0,
        ensures
            final(self)@.wf(),
            r == old(self)@.stack[old(self)@.sp - 1],
            final(self)@ == (State { sp: (old(self)@.sp - 1) as u16, ..old(self)@ }),
    {
        self.sp = self.sp - 1;
        self.stack[self.sp as usize]
    }

    /// The framebuffer as a flat row-major vector of 2048 pixel flags.
    pub fn get_display(&self) -> (r: &Vec<bool>)
        ensures
            r@ == self@.screen,
    {
        &self.screen
    }

    /// The program counter.
    pub fn pc(&self) -> (r: u16)
        ensures
            r == self@.pc,
    {
        self.pc
    }

    /// The index register.
    pub fn i_reg(&self) -> (r: u16)
        ensures
            r == self@.i_reg,
    {
        self.i_reg
    }

    /// General register `x`.
    pub fn reg(&self, x: usize) -> (r: u8)
        requires
            self@.wf(),
            x < 16,
        ensures
            r == self@.v_reg[x as int],
    {
        self.v_reg[x]
    }

    /// The byte of memory at `addr`.
    pub fn read_byte(&self, addr: usize) -> (r: u8)
        requires
            self@.wf(),
            addr < 4096,
        ensures
            r == self@.ram[addr as int],
    {
        self.ram[addr]
    }

    /// The delay timer.
    pub fn delay_timer(&self) -> (r: u8)
        ensures
            r == self@.dt,
    {
        self.dt
    }

    /// The sound timer.
    pub fn sound_timer(&self) -> (r: u8)
        ensures
            r == self@.st,
    {
        self.st
    }

    /// The lowest-numbered currently pressed key, if any.
    fn find_key(&self) -> (r: Option<u8>)
        requires
            self@.wf(),
        ensures
            (match r {
                Some(k) => k < 16 && first_key_from(self@.keys, 0) == Some(k as int),
                None => first_key_from(self@.keys, 0) is None,
            }),
    {
        let mut i: usize = 0;
        while i < 16
            invariant
                self@.wf(),
                i <= 16,
                forall|j: int| 0 <= j < i ==> !self@.keys[j],
            decreases 16 - i,
        {
            if self.keys[i] {
                proof {
                    lemma_first_key_skip(self@.keys, 0, i as int);
                }
                return Some(i as u8);
            }
            i = i + 1;
        }
        proof {
            lemma_first_key_skip(self@.keys, 0, 16);
        }
        None
    }

    /// Stores registers 0 through `x` into memory at the index register.
    fn op_block_store(&mut self, x: usize)
        requires
            old(self)@.wf(),
            x < 16,
            old(self)@.i_reg + x + 1 <= 4096,
        ensures
            final(self)@.wf(),
            final(self)@ == (State {
                ram: block_store(
                    old(self)@.ram,
                    old(self)@.v_reg,
                    old(self)@.i_reg as int,
                    x as int,
                ),
                ..old(self)@
            }),
    {
        let base = self.i_reg as usize;
        let mut k: usize = 0;
        while k <= x
            invariant
                self@.wf(),
                x < 16,
                k <= x + 1,
                base == old(self)@.i_reg,
                base + x + 1 <= 4096,
                self@ == (State { ram: self@.ram, ..old(self)@ }),
                self@.ram == block_store(
                    old(self)@.ram,
                    old(self)@.v_reg,
                    base as int,
                    k - 1,
                ),
            decreases x + 1 - k,
        {
            self.ram[base + k] = self.v_reg[k];
            k = k + 1;
        }
    }

    /// Loads registers 0 through `x` from memory at the index register.
    fn op_block_load(&mut self, x: usize)
        requires
            old(self)@.wf(),
            x < 16,
            old(self)@.i_reg + x + 1 <= 4096,
        ensures
            final(self)@.wf(),
            final(self)@ == (State {
                v_reg: block_load(
                    old(self)@.v_reg,
                    old(self)@.ram,
                    old(self)@.i_reg as int,
                    x as int,
                ),
                ..old(self)@
            }),
    {
        let base = self.i_reg as usize;
        let mut k: usize = 0;
        while k <= x
            invariant
                self@.wf(),
                x < 16,
                k <= x + 1,
                base == old(self)@.i_reg,
                base + x + 1 <= 4096,
                self@ == (State { v_reg: self@.v_reg, ..old(self)@ }),
                self@.v_reg == block_load(
                    old(self)@.v_reg,
                    old(self)@.ram,
                    base as int,
                    k - 1,
                ),
            decreases x + 1 - k,
        {
            self.v_reg[k] = self.ram[base + k];
            k = k + 1;
        }
    }

    /// Blits an `n`-row sprite read from memory at the index register onto
    /// the framebuffer at the position held by registers `x` and `y`,
    /// returning whether some pixel was unset by the blit.
    fn op_draw(&mut self, x: usize, y: usize, n: usize) -> (flipped: bool)
        requires
            old(self)@.wf(),
            x < 16,
            y < 16,
            n <= 15,
            n > 0 ==> old(self)@.i_reg + n <= 4096,
        ensures
            final(self)@.wf(),
            ({
                let blit = draw_rows(
                    old(self)@.screen,
                    old(self)@.ram,
                    old(self)@.i_reg as int,
                    old(self)@.v_reg[x as int] as int,
                    old(self)@.v_reg[y as int] as int,
                    0,
                    n as int,
                );
                final(self)@ == (State { screen: blit.0, ..old(self)@ }) && flipped == blit.1
            }),
    {
        let x0 = self.v_reg[x] as usize;
        let y0 = self.v_reg[y] as usize;
        let base = self.i_reg as usize;
        let ghost s0 = self@;
        let ghost target = draw_rows(
            s0.screen,
            s0.ram,
            base as int,
            x0 as int,
            y0 as int,
            0,
            n as int,
        );
        let mut flipped = false;
        let mut r: usize = 0;
        while r < n
            invariant
                self@.wf(),
                s0.wf(),
                x0 < 256,
                y0 < 256,
                n <= 15,
                r <= n,
                n > 0 ==> base + n <= 4096,
                self@ == (State { screen: self@.screen, ..s0 }),
                target == draw_rows(
                    s0.screen,
                    s0.ram,
                    base as int,
                    x0 as int,
                    y0 as int,
                    0,
                    n as int,
                ),
                ({
                    let rest = draw_rows(
                        self@.screen,
                        s0.ram,
                        base as int,
                        x0 as int,
                        y0 as int,
                        r as int,
                        n as int,
                    );
                    rest.0 == target.0 && (flipped || rest.1) == target.1
                }),
            decreases n - r,
        {
            let byte = self.ram[base + r];
            let yy = (y0 + r) % 32;
            let ghost row_start = self@.screen;
            let ghost row_target = draw_row(row_start, byte, x0 as int, yy as int, 0);
            let ghost flip_start = flipped;
            let mut c: usize = 0;
            while c < 8
                invariant
                    self@.wf(),
                    s0.wf(),
                    x0 < 256,
                    yy < 32,
                    c <= 8,
                    self@ == (State { screen: self@.screen, ..s0 }),
                    row_target == draw_row(row_start, byte, x0 as int, yy as int, 0),
                    ({
                        let rest = draw_row(self@.screen, byte, x0 as int, yy as int, c as int);
                        rest.0 == row_target.0 && (flipped || rest.1) == (flip_start
                            || row_target.1)
                    }),
                decreases 8 - c,
            {
                if byte & (0x80u8 >> (c as u8)) != 0 {
                    let px = (x0 + c) % 64;
                    let idx = px + 64 * yy;
                    if self.screen[idx] {
                        flipped = true;
                        self.screen[idx] = false;
                    } else {
                        self.screen[idx] = true;
                    }
                }
                c = c + 1;
            }
            proof {
                assert(self@.screen == row_target.0);
                assert(flipped == (flip_start || row_target.1));
            }
            r = r + 1;
        }
        flipped
    }

    /// Decodes and executes one instruction word, `rnd` being the random
    /// byte the `Cxnn` opcode consumes. On an error nothing is changed; the
    /// program counter is expected to have been advanced past the word
    /// already.
    fn execute(&mut self, op: u16, rnd: u8) -> (r: Result<(), EmuError>)
        requires
            old(self)@.wf(),
            2 <= old(self)@.pc,
            old(self)@.pc <= 4096,
        ensures
            final(self)@.wf(),
            (match r {
                Ok(()) => exec_spec(old(self)@, op, rnd) == Ok::<State, EmuError>(final(self)@),
                Err(e) => exec_spec(old(self)@, op, rnd) == Err::<State, EmuError>(e)
                    && final(self)@ == old(self)@,
            }),
    {
        let a = op / 0x1000;
        let x = ((op / 0x100) % 16) as usize;
        let y = ((op / 0x10) % 16) as usize;
        let d = (op % 16) as usize;
        let nnn = op % 0x1000;
        let nn = (op % 0x100) as u8;
        if op == 0x00E0 {
            // clear the framebuffer
            self.screen = filled(2048, false);
            Ok(())
        } else if op == 0x00EE {
            // return from a call
            if self.sp == 0 {
                return Err(EmuError::StackUnderflow);
            }
            let addr = self.pop();
            self.pc = addr;
            Ok(())
        } else if a == 0x1 {
            // absolute jump
            self.pc = nnn;
            Ok(())
        } else if a == 0x2 {
            // call: push the return address, then jump
            if self.sp >= 16 {
                return Err(EmuError::StackOverflow);
            }
            let ret = self.pc;
            self.push(ret);
            self.pc = nnn;
            Ok(())
        } else if a == 0x3 {
            // skip next instruction if vx == nn
            if self.v_reg[x] == nn {
                self.pc = self.pc + 2;
            }
            Ok(())
        } else if a == 0x4 {
            // skip next instruction if vx != nn
            if self.v_reg[x] != nn {
                self.pc = self.pc + 2;
            }
            Ok(())
        } else if a == 0x5 && d == 0x0 {
            // skip next instruction if vx == vy
            if self.v_reg[x] == self.v_reg[y] {
                self.pc = self.pc + 2;
            }
            Ok(())
        } else if a == 0x6 {
            self.v_reg[x] = nn;
            Ok(())
        } else if a == 0x7 {
            // add immediate, wrapping, no flag
            let sum = self.v_reg[x] as u16 + nn as u16;
            self.v_reg[x] = if sum > 255 {
                (sum - 256) as u8
            } else {
                sum as u8
            };
            Ok(())
        } else if a == 0x8 && d == 0x0 {
            self.v_reg[x] = self.v_reg[y];
            Ok(())
        } else if a == 0x8 && d == 0x1 {
            self.v_reg[x] = self.v_reg[x] | self.v_reg[y];
            Ok(())
        } else if a == 0x8 && d == 0x2 {
            self.v_reg[x] = self.v_reg[x] & self.v_reg[y];
            Ok(())
        } else if a == 0x8 && d == 0x3 {
            self.v_reg[x] = self.v_reg[x] ^ self.v_reg[y];
            Ok(())
        } else if a == 0x8 && d == 0x4 {
            // add vy, carry to the flag register
            let sum = self.v_reg[x] as u16 + self.v_reg[y] as u16;
            self.v_reg[x] = if sum > 255 {
                (sum - 256) as u8
            } else {
                sum as u8
            };
            self.v_reg[0xF] = if sum > 255 {
                1
            } else {
                0
            };
            Ok(())
        } else if a == 0x8 && d == 0x5 {
            // subtract vy, absence of borrow to the flag register
            let vx = self.v_reg[x];
            let vy = self.v_reg[y];
            self.v_reg[x] = if vx >= vy {
                vx - vy
            } else {
                ((vx as u16 + 256) - vy as u16) as u8
            };
            self.v_reg[0xF] = if vx >= vy {
                1
            } else {
                0
            };
            Ok(())
        } else if a == 0x8 && d == 0x6 {
            // shift right, dropped bit to the flag register
            let lsb = self.v_reg[x] % 2;
            self.v_reg[x] = self.v_reg[x] / 2;
            self.v_reg[0xF] = lsb;
            Ok(())
        } else if a == 0x8 && d == 0x7 {
            // vx = vy - vx, absence of borrow to the flag register
            let vx = self.v_reg[x];
            let vy = self.v_reg[y];
            self.v_reg[x] = if vy >= vx {
                vy - vx
            } else {
                ((vy as u16 + 256) - vx as u16) as u8
            };
            self.v_reg[0xF] = if vy >= vx {
                1
            } else {
                0
            };
            Ok(())
        } else if a == 0x8 && d == 0xE {
            // shift left, dropped bit to the flag register
            let vx = self.v_reg[x];
            let msb = vx / 128;
            let doubled = vx as u16 + vx as u16;
            self.v_reg[x] = if doubled > 255 {
                (doubled - 256) as u8
            } else {
                doubled as u8
            };
            self.v_reg[0xF] = msb;
            Ok(())
        } else if a == 0x9 && d == 0x0 {
            // skip next instruction if vx != vy
            if self.v_reg[x] != self.v_reg[y] {
                self.pc = self.pc + 2;
            }
            Ok(())
        } else if a == 0xA {
            self.i_reg = nnn;
            Ok(())
        } else if a == 0xB {
            // jump to nnn offset by v0
            self.pc = self.v_reg[0] as u16 + nnn;
            Ok(())
        } else if a == 0xC {
            // random byte masked by nn
            self.v_reg[x] = rnd & nn;
            Ok(())
        } else if a == 0xD {
            // draw an n-row sprite, collision to the flag register
            if d > 0 && self.i_reg as usize + d > 4096 {
                return Err(EmuError::AddressOutOfBounds);
            }
            let flipped = self.op_draw(x, y, d);
            self.v_reg[0xF] = if flipped {
                1
            } else {
                0
            };
            Ok(())
        } else if a == 0xE && nn == 0x9E {
            // skip next instruction if the key numbered by vx is pressed
            let vx = self.v_reg[x];
            if vx >= 16 {
                return Err(EmuError::KeyOutOfRange);
            }
            if self.keys[vx as usize] {
                self.pc = self.pc + 2;
            }
            Ok(())
        } else if a == 0xE && nn == 0xA1 {
            // skip next instruction if that key is released
            let vx = self.v_reg[x];
            if vx >= 16 {
                return Err(EmuError::KeyOutOfRange);
            }
            if !self.keys[vx as usize] {
                self.pc = self.pc + 2;
            }
            Ok(())
        } else if a == 0xF && nn == 0x07 {
            self.v_reg[x] = self.dt;
            Ok(())
        } else if a == 0xF && nn == 0x0A {
            // wait for a key: rewind the program counter while none is
            // pressed, so the same instruction re-executes next step
            match self.find_key() {
                Some(k) => {
                    self.v_reg[x] = k;
                },
                None => {
                    self.pc = self.pc - 2;
                },
            }
            Ok(())
        } else if a == 0xF && nn == 0x15 {
            self.dt = self.v_reg[x];
            Ok(())
        } else if a == 0xF && nn == 0x18 {
            self.st = self.v_reg[x];
            Ok(())
        } else if a == 0xF && nn == 0x1E {
            // add vx into the index register, wrapping
            let sum = self.i_reg as u32 + self.v_reg[x] as u32;
            self.i_reg = if sum > 0xFFFF {
                (sum - 0x10000) as u16
            } else {
                sum as u16
            };
            Ok(())
        } else if a == 0xF && nn == 0x29 {
            // point the index register at the font glyph for vx
            self.i_reg = self.v_reg[x] as u16 * 5;
            Ok(())
        } else if a == 0xF && nn == 0x33 {
            // store vx as three decimal digits
            if self.i_reg as usize + 3 > 4096 {
                return Err(EmuError::AddressOutOfBounds);
            }
            let vx = self.v_reg[x];
            let i = self.i_reg as usize;
            self.ram[i] = vx / 100;
            self.ram[i + 1] = (vx / 10) % 10;
            self.ram[i + 2] = vx % 10;
            Ok(())
        } else if a == 0xF && nn == 0x55 {
            if self.i_reg as usize + x + 1 > 4096 {
                return Err(EmuError::AddressOutOfBounds);
            }
            self.op_block_store(x);
            Ok(())
        } else if a == 0xF && nn == 0x65 {
            if self.i_reg as usize + x + 1 > 4096 {
                return Err(EmuError::AddressOutOfBounds);
            }
            self.op_block_load(x);
            Ok(())
        } else {
            Err(EmuError::UnknownOpcode(op))
        }
    }

    /// One whole interpreter step, the random byte supplied by the caller:
    /// fetch the word at the program counter, advance the counter, execute.
    /// On an error the machine is left exactly as it was.
    pub fn tick_with(&mut self, rnd: u8) -> (r: Result<(), EmuError>)
        requires
            old(self)@.wf(),
        ensures
            final(self)@.wf(),
            (match r {
                Ok(()) => step_spec(old(self)@, rnd) == Ok::<State, EmuError>(final(self)@),
                Err(e) => step_spec(old(self)@, rnd) == Err::<State, EmuError>(e)
                    && final(self)@ == old(self)@,
            }),
    {
        if self.pc > 4094 {
            return Err(EmuError::AddressOutOfBounds);
        }
        let saved_pc = self.pc;
        let op = self.fetch();
        let r = self.execute(op, rnd);
        match r {
            Ok(()) => Ok(()),
            Err(e) => {
                self.pc = saved_pc;
                proof {
                    assert(self@ =~= old(self)@);
                }
                Err(e)
            },
        }
    }

    /// One whole interpreter step with a freshly drawn random byte. On an
    /// error the machine is left exactly as it was.
    pub fn tick(&mut self) -> (r: Result<(), EmuError>)
        requires
            old(self)@.wf(),
        ensures
            final(self)@.wf(),
            exists|b: u8| #[trigger] step_outcome(old(self)@, final(self)@, r, b),
            r is Err ==> final(self)@ == old(self)@,
    {
        let rnd = random_byte();
        let r = self.tick_with(rnd);
        proof {
            assert(step_outcome(old(self)@, self@, r, rnd));
        }
        r
    }

    /// True while a tone is due from the sound timer.
    pub fn sound_active(&self) -> (r: bool)
        ensures
            r == (self@.st != 0),
    {
        self.st != 0
    }
}

} // verus!
