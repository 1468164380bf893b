//! Properties of the base instruction set, proved from the model.
//!
//! Each is stated over one full cycle or one instruction on an arbitrary
//! valid machine.

use vstd::prelude::*;
use crate::machine::Machine;
use crate::machine::fetch;
use crate::machine::nibble0;
use crate::machine::nibble1;
use crate::machine::nibble2;
use crate::machine::nibble3;
use crate::machine::address;
use crate::machine::consume_stale;
use crate::machine::initial_memory;
use crate::machine::glyph_byte;
use crate::instructions::step;
use crate::instructions::defined;
use crate::instructions::recognized;
use crate::machine::advance;
use crate::drawing::draw_changes_flag_and_screen_only;
use crate::instructions::any_pressed;
use crate::instructions::lowest_pressed;
use crate::instructions::lemma_wait_key_found;
use crate::instructions::count_down;
use crate::processor::Processor;
use crate::processor::SuperChip;

verus! {

/// One cycle of the base instruction set.
pub open spec fn cycle(m: Machine, random: u8) -> Machine {
    Processor::<SuperChip>::cycle(m, random)
}

/// `n` cycles in a row, each drawing the byte `random` where it draws one.
pub open spec fn cycles(m: Machine, random: u8, n: nat) -> Machine
    decreases n,
{
    if n == 0 {
        m
    } else {
        cycle(cycles(m, random, (n - 1) as nat), random)
    }
}

/// An instruction that can run on a valid machine leaves a valid machine:
/// every component keeps its size and the stack pointer stays within the
/// call stack.
pub proof fn step_keeps_valid(m: Machine, opcode: u16, random: u8)
    requires
        m.valid(),
        defined(m, opcode),
    ensures
        step(m, opcode, random).valid(),
{
    if nibble0(opcode) == 0xD {
        draw_changes_flag_and_screen_only(m, nibble1(opcode), nibble2(opcode), nibble3(opcode));
    }
}

/// A cycle that can run on a valid machine leaves a valid machine.
pub proof fn cycle_keeps_valid(m: Machine, random: u8)
    requires
        m.valid(),
        m.pc + 1 < 4096,
        defined(advance(m), fetch(m)),
    ensures
        cycle(m, random).valid(),
{
    step_keeps_valid(advance(m), fetch(m), random);
}

/// Only the random instruction reads the drawn byte: every other
/// instruction has one result.
pub proof fn only_random_reads_the_byte(m: Machine, opcode: u16, one: u8, other: u8)
    requires
        nibble0(opcode) != 0xC,
    ensures
        step(m, opcode, one) == step(m, opcode, other),
{
}

/// A word that is no instruction can always run and changes nothing, so
/// its cycle only moves the program counter on and counts the timers down.
pub proof fn unrecognized_word_does_nothing(m: Machine, opcode: u16, random: u8)
    requires
        !recognized(opcode),
    ensures
        defined(m, opcode),
        step(m, opcode, random) == m,
{
}

/// Each timer counts down by one in every cycle and stops at 0, unless the
/// instruction of that cycle is the one that sets it.
pub proof fn timers_count_down(m: Machine, random: u8)
    requires
        m.valid(),
        m.pc + 1 < 4096,
    ensures
        !(nibble0(fetch(m)) == 0xF && nibble2(fetch(m)) == 1 && nibble3(fetch(m)) == 5)
            ==> cycle(m, random).delay == if m.delay > 0 {
            m.delay - 1
        } else {
            0
        },
        !(nibble0(fetch(m)) == 0xF && nibble2(fetch(m)) == 1 && nibble3(fetch(m)) == 8)
            ==> cycle(m, random).sound == if m.sound > 0 {
            m.sound - 1
        } else {
            0
        },
{
    let opcode = fetch(m);
    if nibble0(opcode) == 0xD {
        draw_changes_flag_and_screen_only(
            advance(m),
            nibble1(opcode),
            nibble2(opcode),
            nibble3(opcode),
        );
    }
}

/// Adding register `y` to register `x` leaves the sum modulo 256 in `x` and
/// sets the flag register to 1 if the sum exceeds 255, to 0 otherwise.
/// Register 15 is left out as the destination: it is the flag register, so
/// there the flag replaces the sum.
pub proof fn add_registers_wraps_and_carries(m: Machine, opcode: u16, random: u8)
    requires
        m.valid(),
        nibble0(opcode) == 8,
        nibble3(opcode) == 4,
        nibble1(opcode) != 15,
    ensures
        ({
            let sum = m.registers[nibble1(opcode)] + m.registers[nibble2(opcode)];
            let after = step(m, opcode, random);
            &&& after.registers[nibble1(opcode)] == sum % 256
            &&& after.registers[15] == if sum > 255 {
                1int
            } else {
                0int
            }
        }),
{
}

/// Clearing the screen leaves every pixel off; the stale flag then reads
/// true once, and false when read again.
pub proof fn clear_screen_then_read(m: Machine, random: u8)
    requires
        m.valid(),
    ensures
        ({
            let cleared = step(m, 0x00E0, random);
            let read_once = consume_stale(cleared);
            &&& forall|r: int, c: int| 0 <= r < 32 && 0 <= c < 64 ==> !cleared.screen[r][c]
            &&& cleared.stale
            &&& !read_once.stale
            &&& read_once.screen == cleared.screen
            &&& consume_stale(read_once) == read_once
        }),
{
}

/// A cycle that runs a jump leaves the program counter at the jump's
/// address operand, wherever the jump was fetched from.
pub proof fn jump_is_absolute(m: Machine, random: u8)
    requires
        m.valid(),
        m.pc + 1 < 4096,
        nibble0(fetch(m)) == 1,
    ensures
        cycle(m, random).pc == address(fetch(m)),
{
}

/// A call followed by a return resumes right after the call: with a call
/// at the program counter and a return at the call's target, two cycles
/// leave the program counter two bytes further and the call stack as deep
/// as it was.
pub proof fn call_then_return(m: Machine, random: u8)
    requires
        m.valid(),
        m.sp < 16,
        m.pc + 1 < 4096,
        nibble0(fetch(m)) == 2,
        address(fetch(m)) + 1 < 4096,
        m.memory[address(fetch(m))] == 0x00,
        m.memory[address(fetch(m)) + 1] == 0xEE,
    ensures
        cycle(cycle(m, random), random).pc == m.pc + 2,
        cycle(cycle(m, random), random).sp == m.sp,
{
    let called = cycle(m, random);
    assert(called.pc == address(fetch(m)));
    assert(called.memory == m.memory);
    assert(fetch(called) == 0x00EE);
}

/// With the glyph table in place, the glyph instruction points the index
/// register at the five bytes of the digit held in register `x`.
pub proof fn glyph_address_finds_glyph(m: Machine, opcode: u16, random: u8)
    requires
        m.valid(),
        nibble0(opcode) == 0xF,
        nibble2(opcode) == 2,
        nibble3(opcode) == 9,
        m.registers[nibble1(opcode)] < 16,
        forall|a: int| 0x50 <= a < 0x50 + 80 ==> m.memory[a] == initial_memory()[a],
    ensures
        ({
            let digit = m.registers[nibble1(opcode)] as int;
            let after = step(m, opcode, random);
            &&& after.index == 0x50 + 5 * digit
            &&& forall|k: int|
                0 <= k < 5 ==> after.memory[after.index + k] == glyph_byte(digit, k)
        }),
{
}

/// The word at the program counter is the wait-for-key instruction.
pub open spec fn at_wait_key(m: Machine) -> bool {
    &&& m.pc + 1 < 4096
    &&& nibble0(fetch(m)) == 0xF
    &&& nibble2(fetch(m)) == 0
    &&& nibble3(fetch(m)) == 0xA
}

/// Waiting for a key with none pressed makes no progress: after the cycle
/// the machine is as before, but for the timers, so the program counter
/// again points at the wait instruction.
pub proof fn wait_key_holds(m: Machine, random: u8)
    requires
        m.valid(),
        at_wait_key(m),
        !any_pressed(m.keypad),
    ensures
        cycle(m, random) == count_down(m),
        cycle(m, random).pc == m.pc,
        at_wait_key(cycle(m, random)),
{
    assert(cycle(m, random) =~= count_down(m));
}

/// Waiting for a key with none pressed makes no progress however many
/// cycles run.
pub proof fn wait_key_holds_forever(m: Machine, random: u8, n: nat)
    requires
        m.valid(),
        at_wait_key(m),
        !any_pressed(m.keypad),
    ensures
        cycles(m, random, n).pc == m.pc,
        cycles(m, random, n).registers == m.registers,
        cycles(m, random, n).memory == m.memory,
        cycles(m, random, n).keypad == m.keypad,
        cycles(m, random, n).valid(),
        at_wait_key(cycles(m, random, n)),
    decreases n,
{
    if n > 0 {
        wait_key_holds_forever(m, random, (n - 1) as nat);
        wait_key_holds(cycles(m, random, (n - 1) as nat), random);
    }
}

/// Waiting for a key with one pressed goes on: the program counter moves
/// past the instruction and the destination register holds the lowest
/// pressed key.
pub proof fn wait_key_resumes(m: Machine, random: u8, k: int)
    requires
        m.valid(),
        at_wait_key(m),
        lowest_pressed(m.keypad, k),
    ensures
        cycle(m, random).pc == m.pc + 2,
        cycle(m, random).registers[nibble1(fetch(m))] == k,
{
    let advanced = crate::machine::advance(m);
    lemma_wait_key_found(advanced, nibble1(fetch(m)), k);
}

} // verus!
