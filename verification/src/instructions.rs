//! What each instruction does, as functions on [`Machine`].
//!
//! Register 15 is both a general register and the target of every carry,
//! borrow and collision flag. Where an instruction writes its result and a
//! flag, the result is written first and the flag second, so with destination
//! register 15 the flag is what remains.

use vstd::prelude::*;
use crate::machine::Machine;
use crate::machine::blank_screen;
use crate::machine::nibble0;
use crate::machine::nibble1;
use crate::machine::nibble2;
use crate::machine::nibble3;
use crate::machine::address;
use crate::machine::low_byte;

verus! {

/// The machine with register `x` set to `v`.
pub open spec fn set_register(m: Machine, x: int, v: u8) -> Machine {
    Machine { registers: m.registers.update(x, v), ..m }
}

/// The machine with the flag register set to `v`.
pub open spec fn set_flag(m: Machine, v: u8) -> Machine {
    set_register(m, 15, v)
}

/// The machine with the program counter moved over one more instruction
/// where `taken` holds.
pub open spec fn skip_if(m: Machine, taken: bool) -> Machine {
    Machine {
        pc: if taken {
            (m.pc + 2) as u16
        } else {
            m.pc
        },
        ..m
    }
}

/// Clear the screen: every pixel off, and the framebuffer marked stale.
pub open spec fn clear_screen(m: Machine) -> Machine {
    Machine { screen: blank_screen(), stale: true, ..m }
}

/// Return from a subroutine: pop the topmost return address into the
/// program counter.
pub open spec fn ret(m: Machine) -> Machine
    recommends
        1 <= m.sp <= 16,
{
    Machine { sp: (m.sp - 1) as u16, pc: m.stack[m.sp - 1], ..m }
}

/// Jump: the program counter becomes `target`.
pub open spec fn jump(m: Machine, target: int) -> Machine {
    Machine { pc: target as u16, ..m }
}

/// Call a subroutine: push the program counter, then jump to `target`.
pub open spec fn call(m: Machine, target: int) -> Machine
    recommends
        m.sp < 16,
{
    Machine {
        stack: m.stack.update(m.sp as int, m.pc),
        sp: (m.sp + 1) as u16,
        pc: target as u16,
        ..m
    }
}

/// Add an immediate byte to register `x`, wrapping at 256; no flag.
pub open spec fn add_immediate(m: Machine, x: int, kk: u8) -> Machine {
    set_register(m, x, ((m.registers[x] + kk) % 256) as u8)
}

/// Bitwise OR of registers `x` and `y` into `x`; no flag.
pub open spec fn or_registers(m: Machine, x: int, y: int) -> Machine {
    set_register(m, x, m.registers[x] | m.registers[y])
}

/// Bitwise AND of registers `x` and `y` into `x`; no flag.
pub open spec fn and_registers(m: Machine, x: int, y: int) -> Machine {
    set_register(m, x, m.registers[x] & m.registers[y])
}

/// Bitwise XOR of registers `x` and `y` into `x`; no flag.
pub open spec fn xor_registers(m: Machine, x: int, y: int) -> Machine {
    set_register(m, x, m.registers[x] ^ m.registers[y])
}

/// Add register `y` to register `x`: the low eight bits of the sum go to
/// `x`, and the flag is 1 exactly when the sum exceeds 255.
pub open spec fn add_registers(m: Machine, x: int, y: int) -> Machine {
    let sum = m.registers[x] + m.registers[y];
    set_flag(
        set_register(m, x, (sum % 256) as u8),
        if sum > 255 {
            1u8
        } else {
            0u8
        },
    )
}

/// The difference `a - b` wrapped into a byte, with the flag that goes with
/// it: 1 when no borrow is needed, that is when `a >= b`.
pub open spec fn difference(m: Machine, x: int, a: u8, b: u8) -> Machine {
    set_flag(
        set_register(m, x, ((a - b) % 256) as u8),
        if a >= b {
            1u8
        } else {
            0u8
        },
    )
}

/// Subtract register `y` from register `x`, into `x`.
pub open spec fn sub_registers(m: Machine, x: int, y: int) -> Machine {
    difference(m, x, m.registers[x], m.registers[y])
}

/// Subtract register `x` from register `y`, into `x`.
pub open spec fn sub_reversed(m: Machine, x: int, y: int) -> Machine {
    difference(m, x, m.registers[y], m.registers[x])
}

/// Shift register `x` right by one bit. The flag receives the bit shifted
/// out, and is written before the shift.
pub open spec fn shift_right(m: Machine, x: int) -> Machine {
    let flagged = set_flag(m, (m.registers[x] % 2) as u8);
    set_register(flagged, x, (flagged.registers[x] / 2) as u8)
}

/// Shift register `x` left by one bit. The flag receives the top bit in
/// place, so it is 0x80 or 0 rather than 1 or 0, and is written before the
/// shift.
pub open spec fn shift_left(m: Machine, x: int) -> Machine {
    let flagged = set_flag(
        m,
        if m.registers[x] >= 128 {
            0x80u8
        } else {
            0u8
        },
    );
    set_register(flagged, x, ((flagged.registers[x] * 2) % 256) as u8)
}

/// Set the index register.
pub open spec fn set_index(m: Machine, target: int) -> Machine {
    Machine { index: target as u16, ..m }
}

/// Jump to `target` plus the value of register 0.
pub open spec fn jump_offset(m: Machine, target: int) -> Machine {
    Machine { pc: (target + m.registers[0]) as u16, ..m }
}

/// Store a random byte, masked by `kk`, in register `x`.
pub open spec fn random_mask(m: Machine, x: int, kk: u8, random: u8) -> Machine {
    set_register(m, x, random & kk)
}

/// Copy the delay timer into register `x`.
pub open spec fn get_delay(m: Machine, x: int) -> Machine {
    set_register(m, x, m.delay)
}

/// Set the delay timer from register `x`.
pub open spec fn set_delay(m: Machine, x: int) -> Machine {
    Machine { delay: m.registers[x], ..m }
}

/// Set the sound timer from register `x`.
pub open spec fn set_sound(m: Machine, x: int) -> Machine {
    Machine { sound: m.registers[x], ..m }
}

/// Add register `x` to the index register, wrapping at 65536; no flag.
pub open spec fn add_index(m: Machine, x: int) -> Machine {
    Machine { index: ((m.index + m.registers[x]) % 65536) as u16, ..m }
}

/// Key `k` is pressed and no key below it is.
pub open spec fn lowest_pressed(keys: Seq<bool>, k: int) -> bool {
    &&& 0 <= k < keys.len()
    &&& keys[k]
    &&& forall|j: int| 0 <= j < k ==> !keys[j]
}

/// Some key is pressed.
pub open spec fn any_pressed(keys: Seq<bool>) -> bool {
    exists|k: int| 0 <= k < keys.len() && keys[k]
}

/// Wait for a key. With a key pressed, register `x` receives the lowest
/// pressed key. With none pressed, the program counter steps back by one
/// instruction, so that the same instruction runs again.
pub open spec fn wait_key(m: Machine, x: int) -> Machine
    recommends
        m.pc >= 2,
{
    if any_pressed(m.keypad) {
        set_register(m, x, (choose|k: int| lowest_pressed(m.keypad, k)) as u8)
    } else {
        Machine { pc: (m.pc - 2) as u16, ..m }
    }
}

/// At most one key is the lowest pressed key.
pub proof fn lemma_lowest_pressed_unique(keys: Seq<bool>, a: int, b: int)
    requires
        lowest_pressed(keys, a),
        lowest_pressed(keys, b),
    ensures
        a == b,
{
}

/// With `k` the lowest pressed key, waiting for a key stores `k`.
pub proof fn lemma_wait_key_found(m: Machine, x: int, k: int)
    requires
        lowest_pressed(m.keypad, k),
    ensures
        any_pressed(m.keypad),
        wait_key(m, x) == set_register(m, x, k as u8),
{
    let chosen = choose|c: int| lowest_pressed(m.keypad, c);
    lemma_lowest_pressed_unique(m.keypad, chosen, k);
}

/// Point the index register at the glyph of the digit in register `x`.
pub open spec fn glyph_address(m: Machine, x: int) -> Machine {
    Machine { index: (0x50 + 5 * m.registers[x]) as u16, ..m }
}

/// Store the three decimal digits of register `x` at the index register:
/// hundreds, tens, ones.
pub open spec fn store_bcd(m: Machine, x: int) -> Machine
    recommends
        m.index + 2 < 4096,
{
    let v = m.registers[x] as int;
    let i = m.index as int;
    Machine {
        memory: m.memory.update(i, (v / 100) as u8).update(i + 1, ((v / 10) % 10) as u8).update(
            i + 2,
            (v % 10) as u8,
        ),
        ..m
    }
}

/// Copy registers 0 to `x` inclusive into memory at the index register.
/// The index register stays as it is.
pub open spec fn dump_registers(m: Machine, x: int) -> Machine
    recommends
        m.index + x < 4096,
{
    Machine {
        memory: Seq::new(
            4096,
            |a: int|
                if m.index <= a <= m.index + x {
                    m.registers[a - m.index]
                } else {
                    m.memory[a]
                },
        ),
        ..m
    }
}

/// Fill registers 0 to `x` inclusive from memory at the index register.
/// The index register stays as it is.
pub open spec fn load_registers(m: Machine, x: int) -> Machine
    recommends
        m.index + x < 4096,
{
    Machine {
        registers: Seq::new(
            16,
            |i: int|
                if i <= x {
                    m.memory[m.index + i]
                } else {
                    m.registers[i]
                },
        ),
        ..m
    }
}

// ---------------------------------------------------------------------------
// Drawing
// ---------------------------------------------------------------------------

/// Whether column `col` of a sprite row is set; column 0 is the top bit.
pub open spec fn sprite_bit(row: u8, col: u8) -> bool {
    row & (0x80u8 >> col) != 0
}

/// Plot one sprite pixel in screen row `py`. The target column is register
/// `x` plus `col`, wrapped to the screen. A set sprite bit flips the target;
/// a set bit on a lit target raises the flag.
pub open spec fn plot(m: Machine, x: int, py: int, sprite: u8, col: int) -> Machine {
    let px = (m.registers[x] + col) % 64;
    let lit = sprite_bit(sprite, col as u8);
    let was = m.screen[py][px];
    Machine {
        registers: if lit && was {
            m.registers.update(15, 1u8)
        } else {
            m.registers
        },
        screen: m.screen.update(py, m.screen[py].update(px, was != lit)),
        ..m
    }
}

/// Plot the first `cols` pixels of the sprite row `sprite`, left to right.
pub open spec fn plot_columns(m: Machine, x: int, py: int, sprite: u8, cols: nat) -> Machine
    decreases cols,
{
    if cols == 0 {
        m
    } else {
        plot(plot_columns(m, x, py, sprite, (cols - 1) as nat), x, py, sprite, cols - 1)
    }
}

/// Plot one whole sprite row. The screen row is register `y` plus `row`,
/// wrapped to the screen, with the register read before the row is plotted.
pub open spec fn plot_row(m: Machine, x: int, y: int, row: int) -> Machine {
    plot_columns(m, x, (m.registers[y] + row) % 32, m.memory[m.index + row], 8)
}

/// Plot the first `rows` rows of the sprite, top to bottom.
pub open spec fn plot_rows(m: Machine, x: int, y: int, rows: nat) -> Machine
    decreases rows,
{
    if rows == 0 {
        m
    } else {
        plot_row(plot_rows(m, x, y, (rows - 1) as nat), x, y, rows - 1)
    }
}

/// Draw the `n`-row sprite at the index register. The flag is cleared, then
/// every pixel is plotted in turn, rows top to bottom and columns left to
/// right, so the flag ends as 1 exactly when some set bit met a lit pixel.
/// The registers are read as they are when each row and pixel is reached,
/// which matters only where `x` or `y` is the flag register. The framebuffer
/// is marked stale even when `n` is 0.
pub open spec fn draw(m: Machine, x: int, y: int, n: int) -> Machine
    recommends
        0 <= n < 16,
        n == 0 || m.index + n <= 4096,
{
    Machine { stale: true, ..plot_rows(set_flag(m, 0), x, y, n as nat) }
}

// ---------------------------------------------------------------------------
// Dispatch
// ---------------------------------------------------------------------------

/// Whether `opcode` is an instruction of the base set. The first nibble
/// names the family; the families 0, 5, 8, E and F also fix later nibbles.
pub open spec fn recognized(opcode: u16) -> bool {
    let b0 = nibble0(opcode);
    let b1 = nibble1(opcode);
    let b2 = nibble2(opcode);
    let b3 = nibble3(opcode);
    ||| b0 == 0 && b1 == 0 && b2 == 0xE && (b3 == 0 || b3 == 0xE)
    ||| 1 <= b0 <= 4
    ||| b0 == 5 && b3 == 0
    ||| b0 == 6
    ||| b0 == 7
    ||| b0 == 8 && (b3 <= 7 || b3 == 0xE)
    ||| 9 <= b0 <= 0xD
    ||| b0 == 0xE && ((b2 == 9 && b3 == 0xE) || (b2 == 0xA && b3 == 1))
    ||| b0 == 0xF && b2 == 0 && (b3 == 7 || b3 == 0xA)
    ||| b0 == 0xF && b2 == 1 && (b3 == 5 || b3 == 8 || b3 == 0xE)
    ||| b0 == 0xF && b2 == 2 && b3 == 9
    ||| b0 == 0xF && b2 == 3 && b3 == 3
    ||| b0 == 0xF && (b2 == 5 || b2 == 6) && b3 == 5
}

/// Whether the instruction `opcode` can run on `m`. It cannot where it would
/// pop an empty call stack, push onto a full one, touch memory past the last
/// address, look up a key that does not exist, or move the program counter
/// out of its 16 bits.
pub open spec fn defined(m: Machine, opcode: u16) -> bool {
    let b0 = nibble0(opcode);
    let b1 = nibble1(opcode);
    let b2 = nibble2(opcode);
    let b3 = nibble3(opcode);
    let x = b1;
    if b0 == 0 && b1 == 0 && b2 == 0xE && b3 == 0xE {
        m.sp >= 1
    } else if b0 == 2 {
        m.sp < 16
    } else if b0 == 3 || b0 == 4 || (b0 == 5 && b3 == 0) || b0 == 9 {
        m.pc + 2 <= 0xFFFF
    } else if b0 == 0xD {
        b3 == 0 || m.index + b3 <= 4096
    } else if b0 == 0xE && ((b2 == 9 && b3 == 0xE) || (b2 == 0xA && b3 == 1)) {
        m.registers[x] < 16 && m.pc + 2 <= 0xFFFF
    } else if b0 == 0xF && b2 == 0 && b3 == 0xA {
        m.pc >= 2
    } else if b0 == 0xF && b2 == 3 && b3 == 3 {
        m.index + 2 < 4096
    } else if b0 == 0xF && ((b2 == 5 && b3 == 5) || (b2 == 6 && b3 == 5)) {
        m.index + x < 4096
    } else {
        true
    }
}

/// The machine after the instruction `opcode` ran on `m`. `random` is the
/// byte that the random instruction draws; no other instruction reads it.
/// A word that is no instruction leaves the machine as it is.
pub open spec fn step(m: Machine, opcode: u16, random: u8) -> Machine {
    let b0 = nibble0(opcode);
    let b1 = nibble1(opcode);
    let b2 = nibble2(opcode);
    let b3 = nibble3(opcode);
    let x = b1;
    let y = b2;
    let n = b3;
    let nnn = address(opcode);
    let kk = low_byte(opcode);
    if b0 == 0 {
        if b1 == 0 && b2 == 0xE && b3 == 0 {
            clear_screen(m)
        } else if b1 == 0 && b2 == 0xE && b3 == 0xE {
            ret(m)
        } else {
            m
        }
    } else if b0 == 1 {
        jump(m, nnn)
    } else if b0 == 2 {
        call(m, nnn)
    } else if b0 == 3 {
        skip_if(m, m.registers[x] == kk)
    } else if b0 == 4 {
        skip_if(m, m.registers[x] != kk)
    } else if b0 == 5 {
        if b3 == 0 {
            skip_if(m, m.registers[x] == m.registers[y])
        } else {
            m
        }
    } else if b0 == 6 {
        set_register(m, x, kk)
    } else if b0 == 7 {
        add_immediate(m, x, kk)
    } else if b0 == 8 {
        if b3 == 0 {
            set_register(m, x, m.registers[y])
        } else if b3 == 1 {
            or_registers(m, x, y)
        } else if b3 == 2 {
            and_registers(m, x, y)
        } else if b3 == 3 {
            xor_registers(m, x, y)
        } else if b3 == 4 {
            add_registers(m, x, y)
        } else if b3 == 5 {
            sub_registers(m, x, y)
        } else if b3 == 6 {
            shift_right(m, x)
        } else if b3 == 7 {
            sub_reversed(m, x, y)
        } else if b3 == 0xE {
            shift_left(m, x)
        } else {
            m
        }
    } else if b0 == 9 {
        skip_if(m, m.registers[x] != m.registers[y])
    } else if b0 == 0xA {
        set_index(m, nnn)
    } else if b0 == 0xB {
        jump_offset(m, nnn)
    } else if b0 == 0xC {
        random_mask(m, x, kk, random)
    } else if b0 == 0xD {
        draw(m, x, y, n)
    } else if b0 == 0xE {
        if b2 == 9 && b3 == 0xE {
            skip_if(m, m.keypad[m.registers[x] as int])
        } else if b2 == 0xA && b3 == 1 {
            skip_if(m, !m.keypad[m.registers[x] as int])
        } else {
            m
        }
    } else if b0 == 0xF {
        if b2 == 0 && b3 == 7 {
            get_delay(m, x)
        } else if b2 == 0 && b3 == 0xA {
            wait_key(m, x)
        } else if b2 == 1 && b3 == 5 {
            set_delay(m, x)
        } else if b2 == 1 && b3 == 8 {
            set_sound(m, x)
        } else if b2 == 1 && b3 == 0xE {
            add_index(m, x)
        } else if b2 == 2 && b3 == 9 {
            glyph_address(m, x)
        } else if b2 == 3 && b3 == 3 {
            store_bcd(m, x)
        } else if b2 == 5 && b3 == 5 {
            dump_registers(m, x)
        } else if b2 == 6 && b3 == 5 {
            load_registers(m, x)
        } else {
            m
        }
    } else {
        m
    }
}

/// The machine after both timers counted down by one, each stopping at 0.
pub open spec fn count_down(m: Machine) -> Machine {
    Machine {
        delay: if m.delay > 0 {
            (m.delay - 1) as u8
        } else {
            0u8
        },
        sound: if m.sound > 0 {
            (m.sound - 1) as u8
        } else {
            0u8
        },
        ..m
    }
}

} // verus!
