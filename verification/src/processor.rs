//! The executable machine: its state, the instruction set that runs on it,
//! and the processor that fetches, executes and counts down the timers.
//!
//! Every function here is proved to compute the matching function of
//! [`crate::instructions`] on the state's view.
//!
//! Two behaviours are fixed here by choice. An instruction that would leave
//! the machine's limits (an empty or full call stack, an address past the
//! end of memory, a key index above 15) is excluded by the precondition of
//! the function that runs it; [`Processor::ready`] tests that precondition.
//! The left shift stores the top bit in the flag register in place, as 0x80
//! or 0.

use vstd::prelude::*;
use rand::Rng;
use crate::machine::Machine;
use crate::machine::SCREEN_WIDTH;
use crate::machine::SCREEN_HEIGHT;
use crate::machine::START_ADDRESS;
use crate::machine::FONTSET_START_ADDRESS;
use crate::machine::FONTSET_SPRITE_SIZE;
use crate::machine::FONTSET_SIZE;
use crate::machine::PROGRAM_CAPACITY;
use crate::machine::RAM;
use crate::machine::FONT_DATA;
use crate::machine::initial;
use crate::machine::grid;
use crate::machine::fetch;
use crate::machine::advance;
use crate::machine::nibble0;
use crate::machine::nibble1;
use crate::machine::nibble2;
use crate::machine::nibble3;
use crate::machine::with_keypad;
use crate::machine::consume_stale;
use crate::instructions::count_down;
use crate::instructions::set_register;
use crate::instructions::clear_screen;
use crate::instructions::ret;
use crate::instructions::jump;
use crate::instructions::call;
use crate::instructions::add_immediate;
use crate::instructions::or_registers;
use crate::instructions::and_registers;
use crate::instructions::xor_registers;
use crate::instructions::add_registers;
use crate::instructions::sub_registers;
use crate::instructions::sub_reversed;
use crate::instructions::shift_right;
use crate::instructions::shift_left;
use crate::instructions::set_index;
use crate::instructions::jump_offset;
use crate::instructions::random_mask;
use crate::instructions::get_delay;
use crate::instructions::set_delay;
use crate::instructions::set_sound;
use crate::instructions::add_index;
use crate::instructions::wait_key;
use crate::instructions::lowest_pressed;
use crate::instructions::lemma_wait_key_found;
use crate::instructions::glyph_address;
use crate::instructions::store_bcd;
use crate::instructions::dump_registers;
use crate::instructions::load_registers;
use crate::instructions::skip_if;
use crate::instructions::set_flag;
use crate::instructions::plot;
use crate::instructions::plot_columns;
use crate::instructions::plot_rows;
use crate::instructions::draw;

verus! {

/// The state of the machine: registers, memory, call stack, timers, keypad
/// and framebuffer.
#[derive(Debug)]
pub struct ProcessorState {
    v_reg: [u8; 16],
    ram: [u8; 4096],
    i_reg: u16,
    pc: u16,
    stack: [u16; 16],
    sp: u16,
    delay_timer: u8,
    sound_timer: u8,
    pub keypad: [bool; 16],
    pub screen: [[bool; SCREEN_WIDTH]; SCREEN_HEIGHT],
    display_stale: bool,
}

impl View for ProcessorState {
    type V = Machine;

    closed spec fn view(&self) -> Machine {
        Machine {
            registers: self.v_reg@,
            memory: self.ram@,
            index: self.i_reg,
            pc: self.pc,
            stack: self.stack@,
            sp: self.sp,
            delay: self.delay_timer,
            sound: self.sound_timer,
            keypad: self.keypad@,
            screen: grid(self.screen),
            stale: self.display_stale,
        }
    }
}

impl ProcessorState {
    /// The state invariant: the stack pointer lies within the call stack.
    pub open spec fn wf(&self) -> bool {
        self@.valid()
    }

    /// The value of register `x`.
    pub fn register(&self, x: usize) -> (value: u8)
        requires
            x < 16,
        ensures
            value == self@.registers[x as int],
    {
        self.v_reg[x]
    }

    /// The byte of memory at `address`.
    pub fn memory(&self, address: usize) -> (value: u8)
        requires
            address < 4096,
        ensures
            value == self@.memory[address as int],
    {
        self.ram[address]
    }

    /// The index register.
    pub fn index(&self) -> (value: u16)
        ensures
            value == self@.index,
    {
        self.i_reg
    }

    /// The program counter.
    pub fn program_counter(&self) -> (value: u16)
        ensures
            value == self@.pc,
    {
        self.pc
    }

    /// The number of return addresses on the call stack.
    pub fn stack_pointer(&self) -> (value: u16)
        ensures
            value == self@.sp,
    {
        self.sp
    }

    /// The return address in slot `slot` of the call stack.
    pub fn stack_entry(&self, slot: usize) -> (value: u16)
        requires
            slot < 16,
        ensures
            value == self@.stack[slot as int],
    {
        self.stack[slot]
    }

    /// The delay timer.
    pub fn delay(&self) -> (value: u8)
        ensures
            value == self@.delay,
    {
        self.delay_timer
    }

    /// The sound timer.
    pub fn sound(&self) -> (value: u8)
        ensures
            value == self@.sound,
    {
        self.sound_timer
    }

    /// Whether the framebuffer changed since the stale flag was last
    /// consumed. Reading it here does not consume it.
    pub fn is_stale(&self) -> (value: bool)
        ensures
            value == self@.stale,
    {
        self.display_stale
    }
}

/// The base instruction set.
#[derive(Debug)]
pub struct SuperChip {}

impl SuperChip {
    /// `00E0`: clear the screen.
    pub fn op_00e0(&self, cpu: &mut ProcessorState)
        requires
            old(cpu).wf(),
        ensures
            final(cpu)@ == clear_screen(old(cpu)@),
            final(cpu).wf(),
    {
        let ghost before = cpu@;
        let mut i: usize = 0;
        while i < SCREEN_HEIGHT
            invariant
                i <= 32,
                cpu.wf(),
                cpu@ == (Machine { screen: cpu@.screen, ..before }),
                forall|r: int, c: int| 0 <= r < i && 0 <= c < 64 ==> !(#[trigger] cpu@.screen[r][c]),
            decreases 32 - i,
        {
            let mut j: usize = 0;
            while j < SCREEN_WIDTH
                invariant
                    i < 32,
                    j <= 64,
                    cpu.wf(),
                    cpu@ == (Machine { screen: cpu@.screen, ..before }),
                    forall|r: int, c: int|
                        0 <= r < i && 0 <= c < 64 ==> !(#[trigger] cpu@.screen[r][c]),
                    forall|c: int| 0 <= c < j ==> !(#[trigger] cpu@.screen[i as int][c]),
                decreases 64 - j,
            {
                let ghost prev = cpu@;
                cpu.screen[i][j] = false;
                assert(cpu@.screen =~~= prev.screen.update(
                    i as int,
                    prev.screen[i as int].update(j as int, false),
                ));
                j += 1;
            }
            i += 1;
        }
        cpu.display_stale = true;
        assert(cpu@ =~~= clear_screen(before));
    }

    /// `00EE`: return from a subroutine.
    pub fn op_00ee(&self, cpu: &mut ProcessorState)
        requires
            old(cpu).wf(),
            old(cpu)@.sp >= 1,
        ensures
            final(cpu)@ == ret(old(cpu)@),
            final(cpu).wf(),
    {
        cpu.sp -= 1;
        cpu.pc = cpu.stack[cpu.sp as usize];
    }

    /// `1nnn`: jump to `nnn`.
    pub fn op_1nnn(&self, cpu: &mut ProcessorState, nnn: usize)
        requires
            old(cpu).wf(),
            nnn <= 0xFFF,
        ensures
            final(cpu)@ == jump(old(cpu)@, nnn as int),
            final(cpu).wf(),
    {
        cpu.pc = nnn as u16;
    }

    /// `2nnn`: call the subroutine at `nnn`.
    pub fn op_2nnn(&self, cpu: &mut ProcessorState, nnn: usize)
        requires
            old(cpu).wf(),
            old(cpu)@.sp < 16,
            nnn <= 0xFFF,
        ensures
            final(cpu)@ == call(old(cpu)@, nnn as int),
            final(cpu).wf(),
    {
        cpu.stack[cpu.sp as usize] = cpu.pc;
        cpu.sp += 1;
        cpu.pc = nnn as u16;
    }

    /// `3xkk`: skip the next instruction if register `x` equals `kk`.
    pub fn op_3xkk(&self, cpu: &mut ProcessorState, x: usize, kk: u8)
        requires
            old(cpu).wf(),
            x < 16,
            old(cpu)@.pc + 2 <= 0xFFFF,
        ensures
            final(cpu)@ == skip_if(old(cpu)@, old(cpu)@.registers[x as int] == kk),
            final(cpu).wf(),
    {
        if cpu.v_reg[x] == kk {
            cpu.pc += 2;
        }
    }

    /// `4xkk`: skip the next instruction if register `x` differs from `kk`.
    pub fn op_4xkk(&self, cpu: &mut ProcessorState, x: usize, kk: u8)
        requires
            old(cpu).wf(),
            x < 16,
            old(cpu)@.pc + 2 <= 0xFFFF,
        ensures
            final(cpu)@ == skip_if(old(cpu)@, old(cpu)@.registers[x as int] != kk),
            final(cpu).wf(),
    {
        if cpu.v_reg[x] != kk {
            cpu.pc += 2;
        }
    }

    /// `5xy0`: skip the next instruction if registers `x` and `y` are equal.
    pub fn op_5xy0(&self, cpu: &mut ProcessorState, x: usize, y: usize)
        requires
            old(cpu).wf(),
            x < 16,
            y < 16,
            old(cpu)@.pc + 2 <= 0xFFFF,
        ensures
            final(cpu)@ == skip_if(
                old(cpu)@,
                old(cpu)@.registers[x as int] == old(cpu)@.registers[y as int],
            ),
            final(cpu).wf(),
    {
        if cpu.v_reg[x] == cpu.v_reg[y] {
            cpu.pc += 2;
        }
    }

    /// `6xkk`: load the immediate `kk` into register `x`.
    pub fn op_6xkk(&self, cpu: &mut ProcessorState, x: usize, kk: u8)
        requires
            old(cpu).wf(),
            x < 16,
        ensures
            final(cpu)@ == set_register(old(cpu)@, x as int, kk),
            final(cpu).wf(),
    {
        cpu.v_reg[x] = kk;
    }

    /// `7xkk`: add the immediate `kk` to register `x`, wrapping.
    pub fn op_7xkk(&self, cpu: &mut ProcessorState, x: usize, kk: u8)
        requires
            old(cpu).wf(),
            x < 16,
        ensures
            final(cpu)@ == add_immediate(old(cpu)@, x as int, kk),
            final(cpu).wf(),
    {
        cpu.v_reg[x] = cpu.v_reg[x].wrapping_add(kk);
    }

    /// `8xy0`: copy register `y` into register `x`.
    pub fn op_8xy0(&self, cpu: &mut ProcessorState, x: usize, y: usize)
        requires
            old(cpu).wf(),
            x < 16,
            y < 16,
        ensures
            final(cpu)@ == set_register(old(cpu)@, x as int, old(cpu)@.registers[y as int]),
            final(cpu).wf(),
    {
        cpu.v_reg[x] = cpu.v_reg[y];
    }

    /// `8xy1`: OR register `y` into register `x`.
    pub fn op_8xy1(&self, cpu: &mut ProcessorState, x: usize, y: usize)
        requires
            old(cpu).wf(),
            x < 16,
            y < 16,
        ensures
            final(cpu)@ == or_registers(old(cpu)@, x as int, y as int),
            final(cpu).wf(),
    {
        cpu.v_reg[x] = cpu.v_reg[x] | cpu.v_reg[y];
    }

    /// `8xy2`: AND register `y` into register `x`.
    pub fn op_8xy2(&self, cpu: &mut ProcessorState, x: usize, y: usize)
        requires
            old(cpu).wf(),
            x < 16,
            y < 16,
        ensures
            final(cpu)@ == and_registers(old(cpu)@, x as int, y as int),
            final(cpu).wf(),
    {
        cpu.v_reg[x] = cpu.v_reg[x] & cpu.v_reg[y];
    }

    /// `8xy3`: XOR register `y` into register `x`.
    pub fn op_8xy3(&self, cpu: &mut ProcessorState, x: usize, y: usize)
        requires
            old(cpu).wf(),
            x < 16,
            y < 16,
        ensures
            final(cpu)@ == xor_registers(old(cpu)@, x as int, y as int),
            final(cpu).wf(),
    {
        cpu.v_reg[x] = cpu.v_reg[x] ^ cpu.v_reg[y];
    }

    /// `8xy4`: add register `y` to register `x`; the flag is the carry.
    pub fn op_8xy4(&self, cpu: &mut ProcessorState, x: usize, y: usize)
        requires
            old(cpu).wf(),
            x < 16,
            y < 16,
        ensures
            final(cpu)@ == add_registers(old(cpu)@, x as int, y as int),
            final(cpu).wf(),
    {
        let v_x = cpu.v_reg[x] as u16;
        let v_y = cpu.v_reg[y] as u16;
        let sum: u16 = v_x + v_y;
        cpu.v_reg[x] = (sum % 256) as u8;
        cpu.v_reg[0x0F] = if sum > 0xFF {
            1
        } else {
            0
        };
    }

    /// `8xy5`: subtract register `y` from register `x`; the flag is 1 when
    /// no borrow is needed.
    pub fn op_8xy5(&self, cpu: &mut ProcessorState, x: usize, y: usize)
        requires
            old(cpu).wf(),
            x < 16,
            y < 16,
        ensures
            final(cpu)@ == sub_registers(old(cpu)@, x as int, y as int),
            final(cpu).wf(),
    {
        let v_x = cpu.v_reg[x];
        let v_y = cpu.v_reg[y];
        cpu.v_reg[x] = v_x.wrapping_sub(v_y);
        cpu.v_reg[0x0F] = if v_x >= v_y {
            1
        } else {
            0
        };
    }

    /// `8xy7`: set register `x` to register `y` minus register `x`; the
    /// flag is 1 when no borrow is needed.
    pub fn op_8xy7(&self, cpu: &mut ProcessorState, x: usize, y: usize)
        requires
            old(cpu).wf(),
            x < 16,
            y < 16,
        ensures
            final(cpu)@ == sub_reversed(old(cpu)@, x as int, y as int),
            final(cpu).wf(),
    {
        let v_x = cpu.v_reg[x];
        let v_y = cpu.v_reg[y];
        cpu.v_reg[x] = v_y.wrapping_sub(v_x);
        cpu.v_reg[0x0F] = if v_y >= v_x {
            1
        } else {
            0
        };
    }

    /// `8xy6`: shift register `x` right by one; the flag is the bit
    /// shifted out. Register `y` is not read.
    pub fn op_8xy6(&self, cpu: &mut ProcessorState, x: usize, _y: usize)
        requires
            old(cpu).wf(),
            x < 16,
        ensures
            final(cpu)@ == shift_right(old(cpu)@, x as int),
            final(cpu).wf(),
    {
        let low: u8 = cpu.v_reg[x];
        assert(low & 0x01 == low % 2) by (bit_vector);
        cpu.v_reg[0x0F] = low & 0x01;
        let value: u8 = cpu.v_reg[x];
        assert(value >> 1 == value / 2) by (bit_vector);
        cpu.v_reg[x] = value >> 1;
    }

    /// `8xyE`: shift register `x` left by one; the flag is the top bit, in
    /// place. Register `y` is not read.
    pub fn op_8xye(&self, cpu: &mut ProcessorState, x: usize, _y: usize)
        requires
            old(cpu).wf(),
            x < 16,
        ensures
            final(cpu)@ == shift_left(old(cpu)@, x as int),
            final(cpu).wf(),
    {
        let top: u8 = cpu.v_reg[x];
        assert(top & 0x80 == if top >= 128 { 0x80u8 } else { 0u8 }) by (bit_vector);
        cpu.v_reg[0x0F] = top & 0x80;
        let value: u8 = cpu.v_reg[x];
        assert(value << 1 == (value * 2) % 256) by (bit_vector);
        cpu.v_reg[x] = value << 1;
    }

    /// `9xy0`: skip the next instruction if registers `x` and `y` differ.
    pub fn op_9xy0(&self, cpu: &mut ProcessorState, x: usize, y: usize)
        requires
            old(cpu).wf(),
            x < 16,
            y < 16,
            old(cpu)@.pc + 2 <= 0xFFFF,
        ensures
            final(cpu)@ == skip_if(
                old(cpu)@,
                old(cpu)@.registers[x as int] != old(cpu)@.registers[y as int],
            ),
            final(cpu).wf(),
    {
        if cpu.v_reg[x] != cpu.v_reg[y] {
            cpu.pc += 2;
        }
    }

    /// `Annn`: set the index register to `nnn`.
    pub fn op_annn(&self, cpu: &mut ProcessorState, nnn: usize)
        requires
            old(cpu).wf(),
            nnn <= 0xFFF,
        ensures
            final(cpu)@ == set_index(old(cpu)@, nnn as int),
            final(cpu).wf(),
    {
        cpu.i_reg = nnn as u16;
    }

    /// `Bnnn`: jump to `nnn` plus register 0.
    pub fn op_bnnn(&self, cpu: &mut ProcessorState, nnn: usize)
        requires
            old(cpu).wf(),
            nnn <= 0xFFF,
        ensures
            final(cpu)@ == jump_offset(old(cpu)@, nnn as int),
            final(cpu).wf(),
    {
        cpu.pc = (nnn + cpu.v_reg[0] as usize) as u16;
    }

    /// `Cxkk`: set register `x` to a random byte masked by `kk`. Which byte
    /// is drawn is not determined; whatever it is, the register receives it
    /// masked.
    pub fn op_cxkk(&self, cpu: &mut ProcessorState, x: usize, kk: u8)
        requires
            old(cpu).wf(),
            x < 16,
        ensures
            exists|r: u8| final(cpu)@ == #[trigger] random_mask(old(cpu)@, x as int, kk, r),
            final(cpu).wf(),
    {
        let random = random_byte();
        self.mask_random(cpu, x, kk, random);
    }

    /// The deterministic part of `Cxkk`: set register `x` to the drawn byte
    /// `random` masked by `kk`.
    pub fn mask_random(&self, cpu: &mut ProcessorState, x: usize, kk: u8, random: u8)
        requires
            old(cpu).wf(),
            x < 16,
        ensures
            final(cpu)@ == random_mask(old(cpu)@, x as int, kk, random),
            final(cpu).wf(),
    {
        cpu.v_reg[x] = random & kk;
    }

    /// `Dxyn`: draw the `n`-row sprite at the index register, at the
    /// position held in registers `x` and `y`.
    pub fn op_dxyn(&self, cpu: &mut ProcessorState, x: usize, y: usize, n: usize)
        requires
            old(cpu).wf(),
            x < 16,
            y < 16,
            n < 16,
            n == 0 || old(cpu)@.index + n <= 4096,
        ensures
            final(cpu)@ == draw(old(cpu)@, x as int, y as int, n as int),
            final(cpu).wf(),
    {
        cpu.v_reg[0x0F] = 0;
        let ghost cleared = cpu@;
        assert(cleared == set_flag(old(cpu)@, 0));
        let mut row: usize = 0;
        while row < n
            invariant
                row <= n < 16,
                x < 16,
                y < 16,
                n == 0 || cleared.index + n <= 4096,
                cleared.shaped(),
                cpu.wf(),
                cpu@ == plot_rows(cleared, x as int, y as int, row as nat),
                cpu@.memory == cleared.memory,
                cpu@.index == cleared.index,
                cpu@.stale == old(cpu)@.stale,
            decreases n - row,
        {
            let ghost before_row = cpu@;
            let y_coord = (cpu.v_reg[y] as usize + row) % SCREEN_HEIGHT;
            let sprite = cpu.ram[cpu.i_reg as usize + row];
            let mut shift: u8 = 0;
            while shift < 8
                invariant
                    shift <= 8,
                    x < 16,
                    y_coord < 32,
                    before_row.shaped(),
                    cpu.wf(),
                    cpu@ == plot_columns(before_row, x as int, y_coord as int, sprite, shift as nat),
                    cpu@.memory == before_row.memory,
                    cpu@.index == before_row.index,
                    cpu@.stale == before_row.stale,
                decreases 8 - shift,
            {
                let ghost before = cpu@;
                let lit = sprite & (0x80u8 >> shift) != 0;
                let x_coord = (cpu.v_reg[x] as usize + shift as usize) % SCREEN_WIDTH;
                let was = cpu.screen[y_coord][x_coord];
                if lit && was {
                    cpu.v_reg[0x0F] = 1;
                }
                cpu.screen[y_coord][x_coord] = was != lit;
                assert(cpu@ =~~= plot(before, x as int, y_coord as int, sprite, shift as int));
                shift += 1;
            }
            row += 1;
        }
        cpu.display_stale = true;
    }

    /// `Ex9E`: skip the next instruction if the key in register `x` is
    /// pressed.
    pub fn op_ex9e(&self, cpu: &mut ProcessorState, x: usize)
        requires
            old(cpu).wf(),
            x < 16,
            old(cpu)@.registers[x as int] < 16,
            old(cpu)@.pc + 2 <= 0xFFFF,
        ensures
            final(cpu)@ == skip_if(
                old(cpu)@,
                old(cpu)@.keypad[old(cpu)@.registers[x as int] as int],
            ),
            final(cpu).wf(),
    {
        if cpu.keypad[cpu.v_reg[x] as usize] {
            cpu.pc += 2;
        }
    }

    /// `ExA1`: skip the next instruction if the key in register `x` is not
    /// pressed.
    pub fn op_exa1(&self, cpu: &mut ProcessorState, x: usize)
        requires
            old(cpu).wf(),
            x < 16,
            old(cpu)@.registers[x as int] < 16,
            old(cpu)@.pc + 2 <= 0xFFFF,
        ensures
            final(cpu)@ == skip_if(
                old(cpu)@,
                !old(cpu)@.keypad[old(cpu)@.registers[x as int] as int],
            ),
            final(cpu).wf(),
    {
        if !cpu.keypad[cpu.v_reg[x] as usize] {
            cpu.pc += 2;
        }
    }

    /// `Fx07`: copy the delay timer into register `x`.
    pub fn op_fx07(&self, cpu: &mut ProcessorState, x: usize)
        requires
            old(cpu).wf(),
            x < 16,
        ensures
            final(cpu)@ == get_delay(old(cpu)@, x as int),
            final(cpu).wf(),
    {
        cpu.v_reg[x] = cpu.delay_timer;
    }

    /// `Fx15`: set the delay timer from register `x`.
    pub fn op_fx15(&self, cpu: &mut ProcessorState, x: usize)
        requires
            old(cpu).wf(),
            x < 16,
        ensures
            final(cpu)@ == set_delay(old(cpu)@, x as int),
            final(cpu).wf(),
    {
        cpu.delay_timer = cpu.v_reg[x];
    }

    /// `Fx18`: set the sound timer from register `x`.
    pub fn op_fx18(&self, cpu: &mut ProcessorState, x: usize)
        requires
            old(cpu).wf(),
            x < 16,
        ensures
            final(cpu)@ == set_sound(old(cpu)@, x as int),
            final(cpu).wf(),
    {
        cpu.sound_timer = cpu.v_reg[x];
    }

    /// `Fx1E`: add register `x` to the index register, wrapping.
    pub fn op_fx1e(&self, cpu: &mut ProcessorState, x: usize)
        requires
            old(cpu).wf(),
            x < 16,
        ensures
            final(cpu)@ == add_index(old(cpu)@, x as int),
            final(cpu).wf(),
    {
        cpu.i_reg = cpu.i_reg.wrapping_add(cpu.v_reg[x] as u16);
    }

    /// `Fx0A`: wait for a key. The lowest pressed key goes to register `x`;
    /// with no key pressed the program counter steps back, so that this
    /// instruction runs again in the next cycle.
    pub fn op_fx0a(&self, cpu: &mut ProcessorState, x: usize)
        requires
            old(cpu).wf(),
            x < 16,
            old(cpu)@.pc >= 2,
        ensures
            final(cpu)@ == wait_key(old(cpu)@, x as int),
            final(cpu).wf(),
    {
        let mut i: usize = 0;
        while i < 16
            invariant
                i <= 16,
                x < 16,
                cpu.wf(),
                cpu@ == old(cpu)@,
                cpu@.pc >= 2,
                forall|j: int| 0 <= j < i ==> !cpu@.keypad[j],
            decreases 16 - i,
        {
            if cpu.keypad[i] {
                proof {
                    assert(lowest_pressed(cpu@.keypad, i as int));
                    lemma_wait_key_found(cpu@, x as int, i as int);
                }
                cpu.v_reg[x] = i as u8;
                return ;
            }
            i += 1;
        }
        cpu.pc -= 2;
    }

    /// `Fx29`: point the index register at the glyph of the digit in
    /// register `x`.
    pub fn op_fx29(&self, cpu: &mut ProcessorState, x: usize)
        requires
            old(cpu).wf(),
            x < 16,
        ensures
            final(cpu)@ == glyph_address(old(cpu)@, x as int),
            final(cpu).wf(),
    {
        cpu.i_reg = FONTSET_START_ADDRESS + (FONTSET_SPRITE_SIZE * cpu.v_reg[x] as u16);
    }

    /// `Fx33`: store the decimal digits of register `x` at the index
    /// register.
    pub fn op_fx33(&self, cpu: &mut ProcessorState, x: usize)
        requires
            old(cpu).wf(),
            x < 16,
            old(cpu)@.index + 2 < 4096,
        ensures
            final(cpu)@ == store_bcd(old(cpu)@, x as int),
            final(cpu).wf(),
    {
        cpu.ram[cpu.i_reg as usize] = cpu.v_reg[x] / 100;
        cpu.ram[cpu.i_reg as usize + 1] = (cpu.v_reg[x] / 10) % 10;
        cpu.ram[cpu.i_reg as usize + 2] = cpu.v_reg[x] % 10;
    }

    /// `Fx55`: copy registers 0 to `x` into memory at the index register.
    pub fn op_fx55(&self, cpu: &mut ProcessorState, x: usize)
        requires
            old(cpu).wf(),
            x < 16,
            old(cpu)@.index + x < 4096,
        ensures
            final(cpu)@ == dump_registers(old(cpu)@, x as int),
            final(cpu).wf(),
    {
        let ghost before = cpu@;
        let mut i: usize = 0;
        while i <= x
            invariant
                i <= x + 1,
                x < 16,
                before.index + x < 4096,
                before.valid(),
                cpu.wf(),
                cpu@ == dump_registers(before, i as int - 1),
            decreases x + 1 - i,
        {
            cpu.ram[cpu.i_reg as usize + i] = cpu.v_reg[i];
            i += 1;
        }
    }

    /// `Fx65`: fill registers 0 to `x` from memory at the index register.
    pub fn op_fx65(&self, cpu: &mut ProcessorState, x: usize)
        requires
            old(cpu).wf(),
            x < 16,
            old(cpu)@.index + x < 4096,
        ensures
            final(cpu)@ == load_registers(old(cpu)@, x as int),
            final(cpu).wf(),
    {
        let ghost before = cpu@;
        let mut i: usize = 0;
        while i <= x
            invariant
                i <= x + 1,
                x < 16,
                before.index + x < 4096,
                before.valid(),
                cpu.wf(),
                cpu@ == load_registers(before, i as int - 1),
            decreases x + 1 - i,
        {
            cpu.v_reg[i] = cpu.ram[cpu.i_reg as usize + i];
            i += 1;
        }
    }
}

/// Draws one byte from `rand`'s thread-local generator, by
/// `rand::thread_rng()` and `Rng::gen::<u8>()`. Nothing is claimed of the
/// byte: every value of `u8` may come back, and two calls may differ.
#[verifier::external_body]
fn random_byte() -> (byte: u8) {
    rand::thread_rng().gen::<u8>()
}

/// The four nibbles of an instruction word, most significant first.
pub fn decode(opcode: u16) -> (parts: (u16, u16, u16, u16))
    ensures
        parts.0 == nibble0(opcode),
        parts.1 == nibble1(opcode),
        parts.2 == nibble2(opcode),
        parts.3 == nibble3(opcode),
{
    assert((opcode & 0xF000) >> 12 == opcode / 4096) by (bit_vector);
    assert((opcode & 0x0F00) >> 8 == (opcode / 256) % 16) by (bit_vector);
    assert((opcode & 0x00F0) >> 4 == (opcode / 16) % 16) by (bit_vector);
    assert(opcode & 0x000F == opcode % 16) by (bit_vector);
    ((opcode & 0xF000) >> 12, (opcode & 0x0F00) >> 8, (opcode & 0x00F0) >> 4, opcode & 0x000F)
}

/// An instruction-set variant: which instruction words it can run on a
/// state, what each does, and the code that does it. A variant holds no
/// data of its own; it acts on the state it is handed.
pub trait InstructionSet {
    /// Whether the variant can run `opcode` on `m`.
    spec fn defined(m: Machine, opcode: u16) -> bool;

    /// The machine after `opcode` ran on `m`, where `random` is the byte
    /// drawn if the instruction draws one.
    spec fn step(m: Machine, opcode: u16, random: u8) -> Machine;

    /// Tests whether `opcode` can run on `cpu`.
    fn admits(&self, cpu: &ProcessorState, opcode: u16) -> (ok: bool)
        requires
            cpu.wf(),
        ensures
            ok == Self::defined(cpu@, opcode),
    ;

    /// Runs `opcode` on `cpu`.
    fn execute(&self, cpu: &mut ProcessorState, opcode: u16)
        requires
            old(cpu).wf(),
            Self::defined(old(cpu)@, opcode),
        ensures
            final(cpu).wf(),
            exists|random: u8| final(cpu)@ == #[trigger] Self::step(old(cpu)@, opcode, random),
    ;
}

impl InstructionSet for SuperChip {
    open spec fn defined(m: Machine, opcode: u16) -> bool {
        crate::instructions::defined(m, opcode)
    }

    open spec fn step(m: Machine, opcode: u16, random: u8) -> Machine {
        crate::instructions::step(m, opcode, random)
    }

    fn admits(&self, cpu: &ProcessorState, opcode: u16) -> (ok: bool) {
        let (b0, b1, b2, b3) = decode(opcode);
        let x = b1 as usize;
        let n = b3 as usize;
        match (b0, b1, b2, b3) {
            (0x00, 0, 0xE, 0xE) => cpu.sp >= 1,
            (0x02, _, _, _) => cpu.sp < 16,
            (0x03, _, _, _) => cpu.pc <= 0xFFFF - 2,
            (0x04, _, _, _) => cpu.pc <= 0xFFFF - 2,
            (0x05, _, _, 0x00) => cpu.pc <= 0xFFFF - 2,
            (0x09, _, _, _) => cpu.pc <= 0xFFFF - 2,
            (0x0D, _, _, _) => n == 0 || cpu.i_reg as usize + n <= RAM,
            (0x0E, _, 0x09, 0x0E) => cpu.v_reg[x] < 16 && cpu.pc <= 0xFFFF - 2,
            (0x0E, _, 0x0A, 0x01) => cpu.v_reg[x] < 16 && cpu.pc <= 0xFFFF - 2,
            (0x0F, _, 0x00, 0x0A) => cpu.pc >= 2,
            (0x0F, _, 0x03, 0x03) => (cpu.i_reg as usize) + 2 < RAM,
            (0x0F, _, 0x05, 0x05) => cpu.i_reg as usize + x < RAM,
            (0x0F, _, 0x06, 0x05) => cpu.i_reg as usize + x < RAM,
            (_, _, _, _) => true,
        }
    }

    /// Decodes `opcode` and runs the instruction it names. A word that
    /// names none changes nothing. Only the random instruction draws a
    /// byte; every other result is the same for every `random`.
    fn execute(&self, cpu: &mut ProcessorState, opcode: u16)
        ensures
            nibble0(opcode) != 0xC ==> final(cpu)@ == crate::instructions::step(
                old(cpu)@,
                opcode,
                0,
            ),
    {
        let (b0, b1, b2, b3) = decode(opcode);

        let x = b1 as usize;
        let y = b2 as usize;
        let n = b3 as usize;
        assert(opcode & 0x0FFF == opcode % 4096) by (bit_vector);
        assert(opcode & 0x00FF == opcode % 256) by (bit_vector);
        let nnn = (opcode & 0x0FFF) as usize;
        let kk = (opcode & 0x00FF) as u8;
        let ghost before = cpu@;

        match (b0, b1, b2, b3) {
            (0x00, 0, 0xE, 0) => self.op_00e0(cpu),
            (0x00, 0, 0xE, 0xE) => self.op_00ee(cpu),
            (0x01, _, _, _) => self.op_1nnn(cpu, nnn),
            (0x02, _, _, _) => self.op_2nnn(cpu, nnn),
            (0x03, _, _, _) => self.op_3xkk(cpu, x, kk),
            (0x04, _, _, _) => self.op_4xkk(cpu, x, kk),
            (0x05, _, _, 0x00) => self.op_5xy0(cpu, x, y),
            (0x06, _, _, _) => self.op_6xkk(cpu, x, kk),
            (0x07, _, _, _) => self.op_7xkk(cpu, x, kk),
            (0x08, _, _, 0x00) => self.op_8xy0(cpu, x, y),
            (0x08, _, _, 0x01) => self.op_8xy1(cpu, x, y),
            (0x08, _, _, 0x02) => self.op_8xy2(cpu, x, y),
            (0x08, _, _, 0x03) => self.op_8xy3(cpu, x, y),
            (0x08, _, _, 0x04) => self.op_8xy4(cpu, x, y),
            (0x08, _, _, 0x05) => self.op_8xy5(cpu, x, y),
            (0x08, _, _, 0x06) => self.op_8xy6(cpu, x, y),
            (0x08, _, _, 0x0E) => self.op_8xye(cpu, x, y),
            (0x08, _, _, 0x07) => self.op_8xy7(cpu, x, y),
            (0x09, _, _, _) => self.op_9xy0(cpu, x, y),
            (0x0A, _, _, _) => self.op_annn(cpu, nnn),
            (0x0B, _, _, _) => self.op_bnnn(cpu, nnn),
            (0x0C, _, _, _) => self.op_cxkk(cpu, x, kk),
            (0x0D, _, _, _) => self.op_dxyn(cpu, x, y, n),
            (0x0E, _, 0x09, 0x0E) => self.op_ex9e(cpu, x),
            (0x0E, _, 0x0A, 0x01) => self.op_exa1(cpu, x),
            (0x0F, _, 0x00, 0x07) => self.op_fx07(cpu, x),
            (0x0F, _, 0x00, 0x0A) => self.op_fx0a(cpu, x),
            (0x0F, _, 0x01, 0x05) => self.op_fx15(cpu, x),
            (0x0F, _, 0x01, 0x08) => self.op_fx18(cpu, x),
            (0x0F, _, 0x01, 0x0E) => self.op_fx1e(cpu, x),
            (0x0F, _, 0x02, 0x09) => self.op_fx29(cpu, x),
            (0x0F, _, 0x03, 0x03) => self.op_fx33(cpu, x),
            (0x0F, _, 0x05, 0x05) => self.op_fx55(cpu, x),
            (0x0F, _, 0x06, 0x05) => self.op_fx65(cpu, x),
            (_, _, _, _) => {},
        }
        proof {
            if b0 == 0xC {
                let r = choose|r: u8| cpu@ == #[trigger] random_mask(before, x as int, kk, r);
                assert(cpu@ == Self::step(before, opcode, r));
            } else {
                assert(cpu@ == Self::step(before, opcode, 0));
            }
        }
    }
}

/// The processor: a machine state and the instruction set that runs on it.
#[derive(Debug)]
pub struct Processor<T: InstructionSet> {
    /// The machine state.
    pub state: ProcessorState,
    /// The instruction-set variant that runs on it.
    pub isa: T,
}

impl<T: InstructionSet> Processor<T> {
    /// Whether a cycle can run: the state is well formed, both bytes of the
    /// next instruction lie in memory, and the instruction set can run the
    /// instruction found there.
    pub open spec fn can_tick(&self) -> bool {
        &&& self.state.wf()
        &&& self.state@.pc + 1 < 4096
        &&& T::defined(advance(self.state@), fetch(self.state@))
    }

    /// The machine after one cycle on `m`: fetch, advance the program
    /// counter, run the instruction, count the timers down. `random` is the
    /// byte drawn if the instruction draws one.
    pub open spec fn cycle(m: Machine, random: u8) -> Machine {
        count_down(T::step(advance(m), fetch(m), random))
    }

    /// A processor in its initial state: everything zero, but for the glyph
    /// table in memory and the program counter at the load address.
    pub fn new(isa_variant: T) -> (chip_8: Self)
        ensures
            chip_8.state@ == initial(),
            chip_8.state.wf(),
    {
        let state = ProcessorState {
            v_reg: [0;16],
            ram: [0;RAM],
            i_reg: 0,
            pc: START_ADDRESS,
            stack: [0;16],
            sp: 0,
            delay_timer: 0,
            sound_timer: 0,
            keypad: [false;16],
            screen: [[false;SCREEN_WIDTH];SCREEN_HEIGHT],
            display_stale: false,
        };

        let mut chip_8 = Self { state, isa: isa_variant };
        assert(chip_8.state@ =~~= (Machine { memory: chip_8.state@.memory, ..initial() }));

        let mut i: usize = 0;
        while i < FONTSET_SIZE
            invariant
                i <= 80,
                chip_8.state@ == (Machine { memory: chip_8.state@.memory, ..initial() }),
                forall|a: int|
                    0 <= a < 4096 ==> chip_8.state@.memory[a] == if 0x50 <= a < 0x50 + i {
                        FONT_DATA@[a - 0x50]
                    } else {
                        0u8
                    },
            decreases 80 - i,
        {
            chip_8.state.ram[FONTSET_START_ADDRESS as usize + i] = FONT_DATA[i];
            i += 1;
        }
        chip_8
    }

    /// Copies `program` into memory from the load address on. Bytes that
    /// would lie past the end of memory are dropped.
    pub fn load(&mut self, program: &[u8])
        requires
            old(self).state.wf(),
        ensures
            final(self).state@ == crate::machine::load(old(self).state@, program@),
            final(self).state.wf(),
    {
        let ghost before = self.state@;
        let mut i: usize = 0;
        while i < program.len() && i < PROGRAM_CAPACITY
            invariant
                i <= 3584,
                i <= program@.len(),
                self.state.wf(),
                before.valid(),
                self.state@ == crate::machine::load(before, program@.take(i as int)),
            decreases 3584 - i,
        {
            self.state.ram[START_ADDRESS as usize + i] = program[i];
            i += 1;
        }
        assert(self.state@ == crate::machine::load(before, program@));
    }

    /// Replaces the keypad: `keypad[k]` says whether key `k` is pressed.
    pub fn set_keypad(&mut self, keypad: &[bool; 16])
        requires
            old(self).state.wf(),
        ensures
            final(self).state@ == with_keypad(old(self).state@, keypad@),
            final(self).state.wf(),
    {
        self.state.keypad = *keypad;
    }

    /// The framebuffer, row by row.
    pub fn get_screen(&self) -> (screen: &[[bool; SCREEN_WIDTH]; SCREEN_HEIGHT])
        ensures
            grid(*screen) == self.state@.screen,
    {
        &self.state.screen
    }

    /// Tests whether a cycle can run.
    pub fn ready(&self) -> (ok: bool)
        requires
            self.state.wf(),
        ensures
            ok == self.can_tick(),
    {
        if self.state.pc as usize + 1 >= RAM {
            return false;
        }
        let high_byte = self.state.ram[self.state.pc as usize] as u16;
        let low_byte = self.state.ram[(self.state.pc + 1) as usize] as u16;
        assert((high_byte << 8) | low_byte == high_byte * 256 + low_byte) by (bit_vector)
            requires
                high_byte < 256,
                low_byte < 256,
        ;
        let opcode = (high_byte << 8) | low_byte;
        let next = ProcessorState {
            v_reg: self.state.v_reg,
            ram: self.state.ram,
            i_reg: self.state.i_reg,
            pc: self.state.pc + 2,
            stack: self.state.stack,
            sp: self.state.sp,
            delay_timer: self.state.delay_timer,
            sound_timer: self.state.sound_timer,
            keypad: self.state.keypad,
            screen: self.state.screen,
            display_stale: self.state.display_stale,
        };
        self.isa.admits(&next, opcode)
    }

    /// One cycle: fetch the instruction at the program counter, advance the
    /// program counter past it, run it, and count both timers down by one
    /// where they are not 0.
    pub fn tick(&mut self)
        requires
            old(self).can_tick(),
        ensures
            final(self).state.wf(),
            exists|random: u8| final(self).state@ == #[trigger] Self::cycle(old(self).state@, random),
    {
        let ghost before = self.state@;
        let opcode = self.get_opcode();
        self.state.pc += 2;
        self.isa.execute(&mut self.state, opcode);
        let ghost random = choose|random: u8|
            self.state@ == #[trigger] T::step(advance(before), opcode, random);
        if self.state.delay_timer > 0 {
            self.state.delay_timer -= 1
        }
        if self.state.sound_timer > 0 {
            self.state.sound_timer -= 1
        }
        assert(self.state@ == Self::cycle(before, random));
    }

    /// The instruction word at the program counter: the byte there is the
    /// high byte, the next one the low byte.
    pub fn get_opcode(&mut self) -> (opcode: u16)
        requires
            old(self).state@.pc + 1 < 4096,
        ensures
            opcode == fetch(old(self).state@),
            *final(self) == *old(self),
    {
        let high_byte = self.state.ram[self.state.pc as usize] as u16;
        let low_byte = self.state.ram[(self.state.pc + 1) as usize] as u16;
        assert((high_byte << 8) | low_byte == high_byte * 256 + low_byte) by (bit_vector)
            requires
                high_byte < 256,
                low_byte < 256,
        ;
        let opcode = (high_byte << 8) | low_byte;
        opcode
    }

    /// Reads the stale flag and clears it: `true` once after the
    /// framebuffer changed, `false` until it changes again.
    pub fn display_stale(&mut self) -> (is_stale: bool)
        ensures
            is_stale == old(self).state@.stale,
            final(self).state@ == consume_stale(old(self).state@),
            old(self).state.wf() ==> final(self).state.wf(),
    {
        let is_stale = self.state.display_stale;
        self.state.display_stale = false;
        return is_stale;
    }
}

} // verus!
