//! The interpreter: the machine's state in arrays, and the operations that
//! the host drives it with.

use crate::instruction::{decode, Instruction};
use crate::laws::law_random_matters_to_rnd_only;
use crate::machine::{
    blank_display, counted_down, memory_with_rom, power_on, Machine, FONT_SET, FONT_SIZE,
    MAX_ROM_SIZE, MEMORY_SIZE, PROGRAM_START, SCREEN_HEIGHT, SCREEN_WIDTH,
};
use crate::random::random_byte;
use crate::semantics::{
    advanced, draws_random, drawn, executed, execution_fault, fault, first_change, flag_of,
    key_awaited, memory_with_bcd, memory_with_registers, opcode_at, registers_from_memory, skip_if,
    sprite_bit, sprite_covers, sprite_left, sprite_rows, sprite_top, tick_result, ticked,
    with_flagged, Fault,
};
use vstd::prelude::*;

verus! {

/// A CHIP-8 virtual machine. The host loads a program, then calls
/// [`Chip8::tick`] at the instruction rate and [`Chip8::update_timers`] at
/// 60 Hz, reports key transitions, and reads the display when it has changed.
pub struct Chip8 {
    memory: [u8; MEMORY_SIZE],
    video: [[bool; SCREEN_WIDTH]; SCREEN_HEIGHT],
    registers: [u8; 16],
    i_reg: u16,
    delay_timer: u8,
    sound_timer: u8,
    pc: u16,
    sp: u8,
    stack: [u16; 16],
    keyboard: [bool; 16],
    keyboard_prev: [bool; 16],
    keypress_wait: bool,
    update_screen: bool,
}

/// A display buffer as rows of cells.
pub open spec fn grid(video: [[bool; SCREEN_WIDTH]; SCREEN_HEIGHT]) -> Seq<Seq<bool>> {
    Seq::new(SCREEN_HEIGHT as nat, |r: int| video@[r]@)
}

impl View for Chip8 {
    type V = Machine;

    closed spec fn view(&self) -> Machine {
        Machine {
            memory: self.memory@,
            display: grid(self.video),
            v: self.registers@,
            i: self.i_reg,
            delay: self.delay_timer,
            sound: self.sound_timer,
            pc: self.pc,
            sp: self.sp,
            stack: self.stack@,
            keys: self.keyboard@,
            keys_prev: self.keyboard_prev@,
            awaiting_release: self.keypress_wait,
            changed: self.update_screen,
        }
    }
}

impl Chip8 {
    #[verifier::type_invariant]
    spec fn stack_pointer_in_range(self) -> bool {
        self.sp < 16
    }

    /// A machine at power-on: memory, registers, display, keypad and stack are
    /// zero, the font table is at address 0 and the program counter at
    /// `0x200`.
    pub fn init() -> (chip: Self)
        ensures
            chip@ == power_on(),
            chip@.wf(),
    {
        let mut chip = Chip8 {
            memory: [0; MEMORY_SIZE],
            video: [[false; SCREEN_WIDTH]; SCREEN_HEIGHT],
            registers: [0; 16],
            i_reg: 0,
            delay_timer: 0,
            sound_timer: 0,
            pc: PROGRAM_START,
            sp: 0,
            stack: [0; 16],
            keyboard: [false; 16],
            keyboard_prev: [false; 16],
            keypress_wait: false,
            update_screen: false,
        };
        assert(chip@ =~~= (Machine {
            memory: Seq::new(MEMORY_SIZE as nat, |a: int| 0u8),
            ..power_on()
        }));

        for i in 0..FONT_SIZE
            invariant
                chip@ == (Machine {
                    memory: Seq::new(
                        MEMORY_SIZE as nat,
                        |a: int|
                            if a < i {
                                FONT_SET@[a]
                            } else {
                                0u8
                            },
                    ),
                    ..power_on()
                }),
        {
            chip.memory[i] = FONT_SET[i];
        }

        chip
    }

    /// Puts the machine back to power-on. The loaded program is gone with the
    /// rest of memory: the host loads it again.
    pub fn reset(&mut self)
        ensures
            final(self)@ == power_on(),
            final(self)@.wf(),
    {
        *self = Chip8::init();
    }

    /// Reports that key `key` went down. A `key` of 16 or more is ignored.
    pub fn key_down(&mut self, key: usize)
        ensures
            key < 16 ==> final(self)@ == (Machine {
                keys: old(self)@.keys.update(key as int, true),
                ..old(self)@
            }),
            key >= 16 ==> final(self)@ == old(self)@,
            final(self)@.wf(),
    {
        proof {
            use_type_invariant(&*self);
        }
        if key < 16 {
            self.keyboard[key] = true;
        }
    }

    /// Reports that key `key` went up. A `key` of 16 or more is ignored.
    pub fn key_up(&mut self, key: usize)
        ensures
            key < 16 ==> final(self)@ == (Machine {
                keys: old(self)@.keys.update(key as int, false),
                ..old(self)@
            }),
            key >= 16 ==> final(self)@ == old(self)@,
            final(self)@.wf(),
    {
        proof {
            use_type_invariant(&*self);
        }
        if key < 16 {
            self.keyboard[key] = false;
        }
    }

    /// One tick of the 60 Hz clock: each timer that is above 0 goes down by 1.
    pub fn update_timers(&mut self)
        ensures
            final(self)@ == (Machine {
                delay: counted_down(old(self)@.delay),
                sound: counted_down(old(self)@.sound),
                ..old(self)@
            }),
            final(self)@.wf(),
    {
        proof {
            use_type_invariant(&*self);
        }
        if self.delay_timer > 0 {
            self.delay_timer -= 1;
        }
        if self.sound_timer > 0 {
            self.sound_timer -= 1;
        }
    }

    /// Whether the host should sound the tone: the sound timer is above 0.
    pub fn should_beep(&mut self) -> (beep: bool)
        ensures
            beep == (old(self)@.sound > 0),
            final(self)@ == old(self)@,
            final(self)@.wf(),
    {
        proof {
            use_type_invariant(&*self);
        }
        self.sound_timer > 0
    }

    /// Whether the display changed since this was last asked. Asking clears
    /// the flag.
    pub fn get_screen_update_status(&mut self) -> (changed: bool)
        ensures
            changed == old(self)@.changed,
            final(self)@ == (Machine { changed: false, ..old(self)@ }),
            final(self)@.wf(),
    {
        proof {
            use_type_invariant(&*self);
        }
        let val = self.update_screen;
        self.update_screen = false;
        val
    }

    /// The display: 32 rows of 64 cells, `true` where a cell is on.
    pub fn get_video_memory(&self) -> (video: &[[bool; SCREEN_WIDTH]; SCREEN_HEIGHT])
        ensures
            grid(*video) == self@.display,
            self@.wf(),
    {
        proof {
            use_type_invariant(self);
        }
        &self.video
    }

    /// Copies a program to address `0x200`. It must fit below the end of
    /// memory: at most `0xE00` bytes.
    pub fn load_rom(&mut self, buf: &Vec<u8>)
        requires
            buf.len() <= MAX_ROM_SIZE,
        ensures
            final(self)@ == (Machine {
                memory: memory_with_rom(old(self)@.memory, buf@),
                ..old(self)@
            }),
            final(self)@.wf(),
    {
        proof {
            use_type_invariant(&*self);
        }
        let start: usize = PROGRAM_START as usize;
        for k in 0..buf.len()
            invariant
                start == PROGRAM_START,
                buf.len() <= MAX_ROM_SIZE,
                self@ == (Machine {
                    memory: memory_with_rom(old(self)@.memory, buf@.take(k as int)),
                    ..old(self)@
                }),
        {
            proof {
                use_type_invariant(&*self);
            }
            self.memory[start + k] = buf[k];
        }
        assert(buf@.take(buf.len() as int) =~= buf@);
    }

    /// The program counter.
    pub fn pc(&self) -> (pc: u16)
        ensures
            pc == self@.pc,
            self@.wf(),
    {
        proof {
            use_type_invariant(self);
        }
        self.pc
    }

    /// The stack pointer: the number of return addresses on the stack.
    pub fn sp(&self) -> (sp: u8)
        ensures
            sp == self@.sp,
            self@.wf(),
    {
        proof {
            use_type_invariant(self);
        }
        self.sp
    }

    /// The index register `I`.
    pub fn index_register(&self) -> (i: u16)
        ensures
            i == self@.i,
            self@.wf(),
    {
        proof {
            use_type_invariant(self);
        }
        self.i_reg
    }

    /// The delay timer.
    pub fn delay_timer(&self) -> (delay: u8)
        ensures
            delay == self@.delay,
            self@.wf(),
    {
        proof {
            use_type_invariant(self);
        }
        self.delay_timer
    }

    /// The sound timer.
    pub fn sound_timer(&self) -> (sound: u8)
        ensures
            sound == self@.sound,
            self@.wf(),
    {
        proof {
            use_type_invariant(self);
        }
        self.sound_timer
    }

    /// The general registers `V0` to `VF`.
    pub fn registers(&self) -> (v: &[u8; 16])
        ensures
            v@ == self@.v,
            self@.wf(),
    {
        proof {
            use_type_invariant(self);
        }
        &self.registers
    }

    /// The return addresses of the call stack. The entry at the stack pointer
    /// is the newest; entry 0 is never used.
    pub fn stack(&self) -> (stack: &[u16; 16])
        ensures
            stack@ == self@.stack,
            self@.wf(),
    {
        proof {
            use_type_invariant(self);
        }
        &self.stack
    }

    /// The 4096 bytes of memory.
    pub fn memory(&self) -> (memory: &[u8; MEMORY_SIZE])
        ensures
            memory@ == self@.memory,
            self@.wf(),
    {
        proof {
            use_type_invariant(self);
        }
        &self.memory
    }

    /// Whether the key-wait instruction has seen a press and waits for the
    /// release.
    pub fn is_awaiting_release(&self) -> (armed: bool)
        ensures
            armed == self@.awaiting_release,
            self@.wf(),
    {
        proof {
            use_type_invariant(self);
        }
        self.keypress_wait
    }

    /// The fault that the next tick would raise, if any. A host that wants to
    /// stop before a fault asks this first.
    pub fn pending_fault(&self) -> (f: Option<Fault>)
        ensures
            f == fault(self@),
    {
        if self.pc as usize + 1 >= MEMORY_SIZE {
            return Some(Fault::MemoryOutOfBounds);
        }
        let op: u16 = self.peek();
        match decode(op) {
            None => Some(Fault::UnknownOpcode(op)),
            Some(inst) => self.fault_of(inst),
        }
    }

    /// The fault that executing `inst` now would raise, if any.
    fn fault_of(&self, inst: Instruction) -> (f: Option<Fault>)
        requires
            inst.wf(),
        ensures
            f == execution_fault(self@, inst),
    {
        match inst {
            Instruction::Return => {
                if self.sp == 0 {
                    Some(Fault::StackUnderflow)
                } else {
                    None
                }
            },
            Instruction::Call { .. } => {
                if self.sp >= 15 {
                    Some(Fault::StackOverflow)
                } else {
                    None
                }
            },
            Instruction::SkipKeyDown { x } | Instruction::SkipKeyUp { x } => {
                if self.registers[x] >= 16 {
                    Some(Fault::InvalidKey)
                } else {
                    None
                }
            },
            Instruction::AddIndex { x } => {
                if self.registers[x] as u16 > 0xFFFF - self.i_reg {
                    Some(Fault::MemoryOutOfBounds)
                } else {
                    None
                }
            },
            Instruction::StoreBcd { .. } => {
                if self.i_reg as usize + 2 >= MEMORY_SIZE {
                    Some(Fault::MemoryOutOfBounds)
                } else {
                    None
                }
            },
            Instruction::StoreRegs { x } | Instruction::LoadRegs { x } => {
                if self.i_reg as usize + x >= MEMORY_SIZE {
                    Some(Fault::MemoryOutOfBounds)
                } else {
                    None
                }
            },
            Instruction::Draw { y, n, .. } => {
                // the row is read after `VF` was reset
                let vy: u8 = if y == 0xF {
                    0
                } else {
                    self.registers[y]
                };
                let top: usize = vy as usize % SCREEN_HEIGHT;
                let rows: usize = if n as usize <= SCREEN_HEIGHT - top {
                    n as usize
                } else {
                    SCREEN_HEIGHT - top
                };
                if n > 0 && self.i_reg as usize + rows > MEMORY_SIZE {
                    Some(Fault::MemoryOutOfBounds)
                } else {
                    None
                }
            },
            _ => None,
        }
    }

    /// The opcode at the program counter.
    fn peek(&self) -> (op: u16)
        requires
            self@.pc + 1 < MEMORY_SIZE,
        ensures
            op == opcode_at(self@),
    {
        let high: u16 = self.memory[self.pc as usize] as u16;
        let low: u16 = self.memory[self.pc as usize + 1] as u16;
        assert((high << 8) | low == high * 0x100 + low) by (bit_vector)
            requires
                high < 0x100,
                low < 0x100,
        ;
        (high << 8) | low
    }

    /// Reads the opcode at the program counter and moves the program counter
    /// past it.
    fn fetch(&mut self) -> (op: u16)
        requires
            old(self)@.pc + 1 < MEMORY_SIZE,
        ensures
            op == opcode_at(old(self)@),
            final(self)@ == advanced(old(self)@),
    {
        proof {
            use_type_invariant(&*self);
        }
        let op: u16 = self.peek();
        self.pc += 2;
        op
    }

    /// Moves the program counter past the next instruction if `cond` holds.
    fn skip_if(&mut self, cond: bool)
        requires
            old(self)@.pc <= MEMORY_SIZE,
        ensures
            final(self)@ == skip_if(old(self)@, cond),
    {
        proof {
            use_type_invariant(&*self);
        }
        if cond {
            self.pc += 2;
        }
    }

    /// Writes `value` to register `x`, and after it `flag` to `VF`.
    fn set_flagged(&mut self, x: usize, value: u8, flag: u8)
        requires
            x < 16,
        ensures
            final(self)@ == with_flagged(old(self)@, x, value, flag),
    {
        proof {
            use_type_invariant(&*self);
        }
        self.registers[x] = value;
        self.registers[0xF] = flag;
    }

    /// `8xy1` to `8xyE`: arithmetic and logic between `Vx` and `Vy`, with its
    /// flag in `VF`.
    fn execute_alu(&mut self, inst: Instruction)
        requires
            inst.wf(),
            inst is Or || inst is And || inst is Xor || inst is Add || inst is Sub
                || inst is ShiftRight || inst is SubFrom || inst is ShiftLeft,
        ensures
            forall|random: u8| final(self)@ == #[trigger] executed(old(self)@, inst, random),
    {
        match inst {
            Instruction::Or { x, y } => {
                let value: u8 = self.registers[x] | self.registers[y];
                self.set_flagged(x, value, 0);
            },
            Instruction::And { x, y } => {
                let value: u8 = self.registers[x] & self.registers[y];
                self.set_flagged(x, value, 0);
            },
            Instruction::Xor { x, y } => {
                let value: u8 = self.registers[x] ^ self.registers[y];
                self.set_flagged(x, value, 0);
            },
            Instruction::Add { x, y } => {
                let sum: u16 = self.registers[x] as u16 + self.registers[y] as u16;
                let carry: u8 = if sum > 0xFF {
                    1
                } else {
                    0
                };
                self.set_flagged(x, (sum % 0x100) as u8, carry);
            },
            Instruction::Sub { x, y } => {
                let vx: u8 = self.registers[x];
                let vy: u8 = self.registers[y];
                let flag: u8 = if vx > vy {
                    1
                } else {
                    0
                };
                self.set_flagged(x, vx.wrapping_sub(vy), flag);
            },
            Instruction::SubFrom { x, y } => {
                let vx: u8 = self.registers[x];
                let vy: u8 = self.registers[y];
                let flag: u8 = if vy > vx {
                    1
                } else {
                    0
                };
                self.set_flagged(x, vy.wrapping_sub(vx), flag);
            },
            Instruction::ShiftRight { x, y } => {
                let vy: u8 = self.registers[y];
                assert(vy >> 1 == vy / 2 && vy & 1 == vy % 2) by (bit_vector);
                self.set_flagged(x, vy >> 1, vy & 1);
            },
            Instruction::ShiftLeft { x, y } => {
                let vy: u8 = self.registers[y];
                assert(vy << 1 == (vy * 2) % 0x100 && (vy >> 7) & 1 == vy / 0x80) by (bit_vector);
                self.set_flagged(x, vy << 1, (vy >> 7) & 1);
            },
            _ => {},
        }
    }

    /// `Dxyn`: draws the sprite of `n` rows at `I` with its corner at
    /// (`Vx`, `Vy`), flipping the cells under its set bits.
    fn draw_sprite(&mut self, x: usize, y: usize, n: u8)
        requires
            x < 16,
            y < 16,
            n < 16,
            execution_fault(old(self)@, Instruction::Draw { x, y, n }) is None,
        ensures
            final(self)@ == drawn(old(self)@, x, y, n),
    {
        proof {
            use_type_invariant(&*self);
        }
        let ghost m = self@;
        assert(m.wf());
        self.registers[0xF] = 0;
        let left: usize = self.registers[x] as usize % SCREEN_WIDTH;
        let top: usize = self.registers[y] as usize % SCREEN_HEIGHT;
        let height: usize = n as usize;
        let base: usize = self.i_reg as usize;
        assert(left == sprite_left(m, x) && top == sprite_top(m, y));

        let mut row: usize = 0;
        while row < height && top + row < SCREEN_HEIGHT
            invariant
                m.wf(),
                row <= height,
                height == n,
                top + row <= SCREEN_HEIGHT,
                left < SCREEN_WIDTH,
                base == m.i,
                height > 0 ==> base + sprite_rows(top as int, height as int) <= MEMORY_SIZE,
                self.sp < 16,
                self@ == (Machine { display: grid(self.video), v: self.registers@, ..m }),
                self.registers@ == m.v.update(
                    0xF,
                    flag_of(hit_before(m, left as int, top as int, height as int, top + row, 0)),
                ),
                forall|r: int, c: int|
                    0 <= r < SCREEN_HEIGHT && 0 <= c < SCREEN_WIDTH
                        ==> #[trigger] self.video@[r]@[c] == (m.display[r][c] != (r < top + row
                        && sprite_covers(m, left as int, top as int, height as int, r, c))),
            decreases height - row,
        {
            let sprite: u8 = self.memory[base + row];
            let mut col: usize = 0;
            while col < 8 && left + col < SCREEN_WIDTH
                invariant
                    m.wf(),
                    col <= 8,
                    row < height,
                    height == n,
                    top + row < SCREEN_HEIGHT,
                    left + col <= SCREEN_WIDTH,
                    base == m.i,
                    sprite == m.memory[base + row],
                    self.sp < 16,
                    self@ == (Machine { display: grid(self.video), v: self.registers@, ..m }),
                    self.registers@ == m.v.update(
                        0xF,
                        flag_of(
                            hit_before(
                                m,
                                left as int,
                                top as int,
                                height as int,
                                top + row,
                                left + col,
                            ),
                        ),
                    ),
                    forall|r: int, c: int|
                        0 <= r < SCREEN_HEIGHT && 0 <= c < SCREEN_WIDTH
                            ==> #[trigger] self.video@[r]@[c] == (m.display[r][c] != ((r < top
                            + row || (r == top + row && c < left + col)) && sprite_covers(
                            m,
                            left as int,
                            top as int,
                            height as int,
                            r,
                            c,
                        ))),
                decreases 8 - col,
            {
                let pixel: bool = ((sprite >> (7 - col as u8)) & 1) == 1;
                let lit: bool = self.video[top + row][left + col];
                proof {
                    assert(pixel == sprite_bit(sprite, col as int));
                    assert(lit == m.display[top + row][left + col]);
                    assert(pixel == sprite_covers(
                        m,
                        left as int,
                        top as int,
                        height as int,
                        top + row,
                        left + col,
                    ));
                    lemma_hit_next(
                        m,
                        left as int,
                        top as int,
                        height as int,
                        top + row,
                        left + col,
                    );
                }
                if lit && pixel {
                    self.registers[0xF] = 1;
                }
                self.video[top + row][left + col] = lit != pixel;
                col += 1;
            }
            row += 1;
        }
        self.update_screen = true;
        assert(self@.display =~~= drawn(m, x, y, n).display);
    }

    /// `Fx0A`: looks for the first key that changed since the last tick. Unless
    /// it was released, the program counter goes back to this instruction.
    fn await_key(&mut self, x: usize)
        requires
            x < 16,
            old(self)@.pc >= 2,
        ensures
            final(self)@ == key_awaited(old(self)@, x),
    {
        proof {
            use_type_invariant(&*self);
        }
        let mut k: usize = 0;
        while k < 16 && self.keyboard_prev[k] == self.keyboard[k]
            invariant
                k <= 16,
                first_change(self.keyboard_prev@, self.keyboard@, 0) == first_change(
                    self.keyboard_prev@,
                    self.keyboard@,
                    k as int,
                ),
            decreases 16 - k,
        {
            k += 1;
        }
        if k == 16 {
            self.pc -= 2;
        } else if self.keyboard_prev[k] {
            self.keypress_wait = false;
            self.registers[x] = k as u8;
        } else {
            self.keypress_wait = true;
            self.pc -= 2;
        }
    }

    /// `Fx33`: writes the hundreds, tens and ones of `Vx` to `I`, `I + 1` and
    /// `I + 2`.
    fn store_bcd(&mut self, x: usize)
        requires
            x < 16,
            old(self)@.i + 2 < MEMORY_SIZE,
        ensures
            final(self)@ == (Machine {
                memory: memory_with_bcd(old(self)@, old(self)@.v[x as int]),
                ..old(self)@
            }),
    {
        proof {
            use_type_invariant(&*self);
        }
        let value: u8 = self.registers[x];
        let at: usize = self.i_reg as usize;
        self.memory[at] = value / 100;
        self.memory[at + 1] = (value / 10) % 10;
        self.memory[at + 2] = value % 10;
    }

    /// `Fx55`: copies `V0` to `Vx` to memory at `I`, and leaves `I` behind the
    /// last byte written.
    fn store_registers(&mut self, x: usize)
        requires
            x < 16,
            old(self)@.i + x < MEMORY_SIZE,
        ensures
            final(self)@ == (Machine {
                memory: memory_with_registers(old(self)@, x),
                i: (old(self)@.i + x + 1) as u16,
                ..old(self)@
            }),
    {
        proof {
            use_type_invariant(&*self);
        }
        let ghost m = self@;
        let mut k: usize = 0;
        while k <= x
            invariant
                k <= x + 1,
                x < 16,
                m.i + x < MEMORY_SIZE,
                self.sp < 16,
                self@ == (Machine {
                    memory: Seq::new(
                        MEMORY_SIZE as nat,
                        |a: int|
                            if m.i <= a < m.i + k {
                                m.v[a - m.i]
                            } else {
                                m.memory[a]
                            },
                    ),
                    i: (m.i + k) as u16,
                    ..m
                }),
            decreases x + 1 - k,
        {
            self.memory[self.i_reg as usize] = self.registers[k];
            self.i_reg += 1;
            k += 1;
        }
    }

    /// `Fx65`: fills `V0` to `Vx` from memory at `I`, and leaves `I` behind
    /// the last byte read.
    fn load_registers(&mut self, x: usize)
        requires
            x < 16,
            old(self)@.i + x < MEMORY_SIZE,
        ensures
            final(self)@ == (Machine {
                v: registers_from_memory(old(self)@, x),
                i: (old(self)@.i + x + 1) as u16,
                ..old(self)@
            }),
    {
        proof {
            use_type_invariant(&*self);
        }
        let ghost m = self@;
        let mut k: usize = 0;
        while k <= x
            invariant
                k <= x + 1,
                x < 16,
                m.i + x < MEMORY_SIZE,
                self.sp < 16,
                self@ == (Machine {
                    v: Seq::new(
                        16,
                        |j: int|
                            if j < k {
                                m.memory[m.i + j]
                            } else {
                                m.v[j]
                            },
                    ),
                    i: (m.i + k) as u16,
                    ..m
                }),
            decreases x + 1 - k,
        {
            self.registers[k] = self.memory[self.i_reg as usize];
            self.i_reg += 1;
            k += 1;
        }
    }

    /// Executes one decoded instruction. The program counter is already past
    /// it, and `random` is the byte that `RND` uses.
    fn execute(&mut self, inst: Instruction, random: u8)
        requires
            inst.wf(),
            execution_fault(old(self)@, inst) is None,
            2 <= old(self)@.pc <= MEMORY_SIZE,
        ensures
            final(self)@ == executed(old(self)@, inst, random),
    {
        proof {
            use_type_invariant(&*self);
        }
        match inst {
            Instruction::ClearScreen => {
                self.video = [[false; SCREEN_WIDTH]; SCREEN_HEIGHT];
                self.update_screen = true;
                assert(self@.display =~~= blank_display());
            },
            Instruction::Return => {
                self.pc = self.stack[self.sp as usize];
                self.sp -= 1;
            },
            Instruction::Jump { addr } => {
                self.pc = addr;
            },
            Instruction::Call { addr } => {
                self.sp += 1;
                self.stack[self.sp as usize] = self.pc;
                self.pc = addr;
            },
            Instruction::SkipEqImm { x, kk } => {
                self.skip_if(self.registers[x] == kk);
            },
            Instruction::SkipNeImm { x, kk } => {
                self.skip_if(self.registers[x] != kk);
            },
            Instruction::SkipEqReg { x, y } => {
                self.skip_if(self.registers[x] == self.registers[y]);
            },
            Instruction::SkipNeReg { x, y } => {
                self.skip_if(self.registers[x] != self.registers[y]);
            },
            Instruction::LoadImm { x, kk } => {
                self.registers[x] = kk;
            },
            Instruction::AddImm { x, kk } => {
                self.registers[x] = self.registers[x].wrapping_add(kk);
            },
            Instruction::Move { x, y } => {
                self.registers[x] = self.registers[y];
            },
            Instruction::Or { .. }
            | Instruction::And { .. }
            | Instruction::Xor { .. }
            | Instruction::Add { .. }
            | Instruction::Sub { .. }
            | Instruction::ShiftRight { .. }
            | Instruction::SubFrom { .. }
            | Instruction::ShiftLeft { .. } => {
                self.execute_alu(inst);
            },
            Instruction::LoadIndex { addr } => {
                self.i_reg = addr;
            },
            Instruction::JumpOffset { addr } => {
                self.pc = addr + self.registers[0x0] as u16;
            },
            Instruction::Random { x, kk } => {
                self.registers[x] = random & kk;
            },
            Instruction::Draw { x, y, n } => {
                self.draw_sprite(x, y, n);
            },
            Instruction::SkipKeyDown { x } => {
                self.skip_if(self.keyboard[self.registers[x] as usize]);
            },
            Instruction::SkipKeyUp { x } => {
                self.skip_if(!self.keyboard[self.registers[x] as usize]);
            },
            Instruction::LoadDelay { x } => {
                self.registers[x] = self.delay_timer;
            },
            Instruction::WaitKey { x } => {
                self.await_key(x);
            },
            Instruction::SetDelay { x } => {
                self.delay_timer = self.registers[x];
            },
            Instruction::SetSound { x } => {
                self.sound_timer = self.registers[x];
            },
            Instruction::AddIndex { x } => {
                self.i_reg += self.registers[x] as u16;
            },
            Instruction::LoadGlyph { x } => {
                self.i_reg = self.registers[x] as u16 * 5;
            },
            Instruction::StoreBcd { x } => {
                self.store_bcd(x);
            },
            Instruction::StoreRegs { x } => {
                self.store_registers(x);
            },
            Instruction::LoadRegs { x } => {
                self.load_registers(x);
            },
        }
    }

    /// One fetch-decode-execute step with `random` as the byte that `RND`
    /// draws, after which the keys that are down are remembered for the next
    /// tick. A tick that meets a fault returns it and leaves the machine as it
    /// was.
    pub fn tick_with(&mut self, random: u8) -> (res: Result<(), Fault>)
        ensures
            ticked(old(self)@, random, res, final(self)@),
            final(self)@.wf(),
    {
        proof {
            use_type_invariant(&*self);
        }
        if let Some(f) = self.pending_fault() {
            return Err(f);
        }
        let op: u16 = self.fetch();
        let inst: Instruction = decode(op).unwrap();
        self.execute(inst, random);
        self.keyboard_prev = self.keyboard;
        proof {
            use_type_invariant(&*self);
        }
        Ok(())
    }

    /// Whether the instruction at the program counter is `RND`.
    fn wants_random(&self) -> (wants: bool)
        ensures
            wants == draws_random(self@),
    {
        if self.pc as usize + 1 >= MEMORY_SIZE {
            return false;
        }
        let op: u16 = self.peek();
        assert((op & 0xF000) >> 12 == op / 0x1000) by (bit_vector);
        (op & 0xF000) >> 12 == 0xC
    }

    /// One fetch-decode-execute step; see [`Chip8::tick_with`]. `RND` draws
    /// its byte from the thread's random number generator, so all that is
    /// known of its outcome is that some byte leads to it. Every other
    /// instruction has the outcome that [`tick_result`] gives for any byte.
    pub fn tick(&mut self) -> (res: Result<(), Fault>)
        ensures
            exists|random: u8| ticked(old(self)@, random, res, final(self)@),
            !draws_random(old(self)@) ==> forall|random: u8|
                ticked(old(self)@, random, res, final(self)@),
            final(self)@.wf(),
    {
        proof {
            if !draws_random(self@) {
                assert forall|random: u8| #[trigger]
                    tick_result(self@, random) == tick_result(self@, 0) by {
                    law_random_matters_to_rnd_only(self@, random, 0);
                }
            }
        }
        let random: u8 = if self.wants_random() {
            random_byte()
        } else {
            0
        };
        self.tick_with(random)
    }
}

/// Whether the sprite has a set bit over a cell that is on and that comes, row
/// by row, before the cell in row `r_end` and column `c_end`.
spec fn hit_before(m: Machine, left: int, top: int, n: int, r_end: int, c_end: int) -> bool {
    exists|r: int, c: int|
        0 <= r < SCREEN_HEIGHT && 0 <= c < SCREEN_WIDTH && (r < r_end || (r == r_end && c < c_end))
            && m.display[r][c] && #[trigger] sprite_covers(m, left, top, n, r, c)
}

/// Going one cell on adds that cell to the cells that were looked at.
proof fn lemma_hit_next(m: Machine, left: int, top: int, n: int, r: int, c: int)
    requires
        0 <= r < SCREEN_HEIGHT,
        0 <= c < SCREEN_WIDTH,
    ensures
        hit_before(m, left, top, n, r, c + 1) == (hit_before(m, left, top, n, r, c) || (
        m.display[r][c] && sprite_covers(m, left, top, n, r, c))),
{
    if hit_before(m, left, top, n, r, c) {
        let (r0, c0) = choose|r0: int, c0: int|
            0 <= r0 < SCREEN_HEIGHT && 0 <= c0 < SCREEN_WIDTH && (r0 < r || (r0 == r && c0 < c))
                && m.display[r0][c0] && #[trigger] sprite_covers(m, left, top, n, r0, c0);
        assert(sprite_covers(m, left, top, n, r0, c0));
    }
    if m.display[r][c] && sprite_covers(m, left, top, n, r, c) {
        assert(hit_before(m, left, top, n, r, c + 1));
    }
}

} // verus!
