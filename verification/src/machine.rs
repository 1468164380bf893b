//! The mathematical model of the virtual machine.
//!
//! A [`Machine`] is the whole state of the CPU as plain mathematical values.
//! Every instruction is a spec function from one `Machine` to the next; the
//! executable interpreter is proved to compute exactly these functions.

use vstd::prelude::*;

verus! {

/// Width of the framebuffer in pixels.
pub const SCREEN_WIDTH: usize = 64;

/// Height of the framebuffer in pixels.
pub const SCREEN_HEIGHT: usize = 32;

/// Address at which programs are loaded and at which execution starts.
pub const START_ADDRESS: u16 = 0x200;

/// Address of the first byte of the built-in glyph table.
pub const FONTSET_START_ADDRESS: u16 = 0x50;

/// Number of bytes in one glyph.
pub const FONTSET_SPRITE_SIZE: u16 = 5;

/// Number of addressable bytes.
pub const RAM: usize = 4096;

/// Number of bytes in the glyph table.
pub const FONTSET_SIZE: usize = 80;

/// Number of bytes a program may occupy: everything from the load address up.
pub const PROGRAM_CAPACITY: usize = 3584;

/// Depth of the call stack.
pub const STACK_DEPTH: u16 = 16;

/// The sprites of the sixteen hexadecimal digits, five bytes each, in digit order.
pub const FONT_DATA: [u8; 80] = [
    0xF0, 0x90, 0x90, 0x90, 0xF0,
    0x20, 0x60, 0x20, 0x20, 0x70,
    0xF0, 0x10, 0xF0, 0x80, 0xF0,
    0xF0, 0x10, 0xF0, 0x10, 0xF0,
    0x90, 0x90, 0xF0, 0x10, 0x10,
    0xF0, 0x80, 0xF0, 0x10, 0xF0,
    0xF0, 0x80, 0xF0, 0x90, 0xF0,
    0xF0, 0x10, 0x20, 0x40, 0x40,
    0xF0, 0x90, 0xF0, 0x90, 0xF0,
    0xF0, 0x90, 0xF0, 0x10, 0xF0,
    0xF0, 0x90, 0xF0, 0x90, 0x90,
    0xE0, 0x90, 0xE0, 0x90, 0xE0,
    0xF0, 0x80, 0x80, 0x80, 0xF0,
    0xE0, 0x90, 0x90, 0x90, 0xE0,
    0xF0, 0x80, 0xF0, 0x80, 0xF0,
    0xF0, 0x80, 0xF0, 0x80, 0x80,
];

/// The state of the machine as mathematical values.
#[verifier::ext_equal]
pub struct Machine {
    /// The sixteen general registers; register 15 doubles as the flag register.
    pub registers: Seq<u8>,
    /// The 4096 bytes of memory.
    pub memory: Seq<u8>,
    /// The index register.
    pub index: u16,
    /// The program counter.
    pub pc: u16,
    /// The sixteen slots of the call stack.
    pub stack: Seq<u16>,
    /// The number of return addresses on the call stack.
    pub sp: u16,
    /// The delay timer.
    pub delay: u8,
    /// The sound timer.
    pub sound: u8,
    /// Which of the sixteen keys are pressed.
    pub keypad: Seq<bool>,
    /// The framebuffer: 32 rows of 64 pixels, top row first.
    pub screen: Seq<Seq<bool>>,
    /// Whether the framebuffer changed since the flag was last consumed.
    pub stale: bool,
}

impl Machine {
    /// Every component has the size the machine fixes for it.
    pub open spec fn shaped(self) -> bool {
        &&& self.registers.len() == 16
        &&& self.memory.len() == 4096
        &&& self.stack.len() == 16
        &&& self.keypad.len() == 16
        &&& self.screen.len() == 32
        &&& forall|r: int| 0 <= r < 32 ==> (#[trigger] self.screen[r]).len() == 64
    }

    /// The state invariant: the right shape, and a stack pointer within the stack.
    pub open spec fn valid(self) -> bool {
        self.shaped() && self.sp <= 16
    }
}

/// A framebuffer as rows of pixels.
pub open spec fn grid(screen: [[bool; SCREEN_WIDTH]; SCREEN_HEIGHT]) -> Seq<Seq<bool>> {
    Seq::new(32, |r: int| screen@[r]@)
}

/// A framebuffer with every pixel off.
pub open spec fn blank_screen() -> Seq<Seq<bool>> {
    Seq::new(32, |r: int| Seq::new(64, |c: int| false))
}

/// Byte `k` of the glyph of hexadecimal digit `digit`.
pub open spec fn glyph_byte(digit: int, k: int) -> u8
    recommends
        0 <= digit < 16,
        0 <= k < 5,
{
    FONT_DATA@[5 * digit + k]
}

/// Memory as it is when the machine is created: the glyph table at its
/// reserved address, zero everywhere else.
pub open spec fn initial_memory() -> Seq<u8> {
    Seq::new(
        4096,
        |a: int|
            if 0x50 <= a < 0x50 + 80 {
                FONT_DATA@[a - 0x50]
            } else {
                0u8
            },
    )
}

/// The machine as it is created.
pub open spec fn initial() -> Machine {
    Machine {
        registers: Seq::new(16, |i: int| 0u8),
        memory: initial_memory(),
        index: 0,
        pc: 0x200,
        stack: Seq::new(16, |i: int| 0u16),
        sp: 0,
        delay: 0,
        sound: 0,
        keypad: Seq::new(16, |i: int| false),
        screen: blank_screen(),
        stale: false,
    }
}

/// Memory after a program was copied to the load address. Bytes that do not
/// fit below the end of memory are dropped; bytes outside the copied range
/// keep their value.
pub open spec fn loaded_memory(memory: Seq<u8>, program: Seq<u8>) -> Seq<u8> {
    Seq::new(
        4096,
        |a: int|
            if 0x200 <= a < 0x200 + program.len() {
                program[a - 0x200]
            } else {
                memory[a]
            },
    )
}

/// The machine after a program was copied into its memory.
pub open spec fn load(m: Machine, program: Seq<u8>) -> Machine {
    Machine { memory: loaded_memory(m.memory, program), ..m }
}

/// The machine after its keypad was replaced.
pub open spec fn with_keypad(m: Machine, keys: Seq<bool>) -> Machine {
    Machine { keypad: keys, ..m }
}

/// The machine after the stale flag was consumed.
pub open spec fn consume_stale(m: Machine) -> Machine {
    Machine { stale: false, ..m }
}

// ---------------------------------------------------------------------------
// Fetch and decode
// ---------------------------------------------------------------------------

/// The instruction word at the program counter: two bytes, high byte first.
pub open spec fn fetch(m: Machine) -> u16
    recommends
        m.shaped(),
        m.pc + 1 < 4096,
{
    (m.memory[m.pc as int] * 256 + m.memory[m.pc + 1]) as u16
}

/// The machine with the program counter moved past the fetched instruction.
pub open spec fn advance(m: Machine) -> Machine {
    Machine { pc: (m.pc + 2) as u16, ..m }
}

/// The most significant nibble of an instruction word.
pub open spec fn nibble0(opcode: u16) -> int {
    (opcode as int) / 4096
}

/// The second nibble: the register operand `x`.
pub open spec fn nibble1(opcode: u16) -> int {
    ((opcode as int) / 256) % 16
}

/// The third nibble: the register operand `y`.
pub open spec fn nibble2(opcode: u16) -> int {
    ((opcode as int) / 16) % 16
}

/// The least significant nibble: the immediate `n`.
pub open spec fn nibble3(opcode: u16) -> int {
    (opcode as int) % 16
}

/// The low twelve bits: the address operand `nnn`.
pub open spec fn address(opcode: u16) -> int {
    (opcode as int) % 4096
}

/// The low byte: the immediate `kk`.
pub open spec fn low_byte(opcode: u16) -> u8 {
    (opcode % 256) as u8
}

} // verus!
