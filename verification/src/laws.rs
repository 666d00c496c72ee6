//! Properties of the instruction set, proved from the model of the machine.

use vstd::prelude::*;
use crate::display::{collides, drawn, flips};
use crate::error::{Chip8Error, Fault};
use crate::instruction::{decoded, field_n, field_nn, Instruction};
use crate::machine::cycle_outcome;
use crate::state::{opcode_at, MachineState, FLAG, LAST_FETCH};
use crate::stack::STACK_DEPTH;

verus! {

/// An instruction that succeeds on a valid state leaves a valid state: the
/// font is still in place, `I` is still an address, and the stack holds at
/// most sixteen return addresses.
pub proof fn law_execute_keeps_validity(s: MachineState, i: Instruction, random: u8)
    requires
        s.wf(),
        i.wf(),
    ensures
        s.execute(i, random) matches Ok(next) ==> next.wf(),
{
    match i {
        Instruction::Move { .. }
        | Instruction::Or { .. }
        | Instruction::And { .. }
        | Instruction::Xor { .. }
        | Instruction::Add { .. }
        | Instruction::Subtract { .. }
        | Instruction::SubtractFrom { .. }
        | Instruction::ShiftRight { .. }
        | Instruction::ShiftLeft { .. } => {
            assert(s.execute_arithmetic(i).wf());
        },
        _ => {},
    }
}

/// One cycle of a valid state leaves a valid state, whatever the random
/// source gave.
pub proof fn law_step_keeps_validity(s: MachineState, random: u8)
    requires
        s.wf(),
    ensures
        s.step(random) matches Ok(next) ==> next.wf(),
{
    if s.pc <= LAST_FETCH {
        let word = opcode_at(s.memory, s.pc);
        crate::instruction::lemma_decoded_wf(word);
        if let Some(i) = decoded(word) {
            law_execute_keeps_validity(s, i, random);
        }
    }
}

/// From an even address, every instruction but a jump, a call and a return
/// goes on to an even address: the program counter moves by two bytes, by
/// four on a skip, or not at all while a key is waited for. Jumps and calls
/// go where their operand says.
pub proof fn law_alignment_is_kept(s: MachineState, i: Instruction, random: u8)
    requires
        s.wf(),
        i.wf(),
        s.pc <= LAST_FETCH,
        s.pc % 2 == 0,
        !(i is Jump || i is Call || i is JumpOffset || i is Return),
    ensures
        s.execute(i, random) matches Ok(next) ==> next.pc % 2 == 0 && s.pc <= next.pc <= s.pc + 4,
{
}

/// `1NNN` goes to `NNN` and `BNNN` to `V0 + NNN`, aligned or not, and change
/// nothing else.
pub proof fn law_jumps_go_where_told(s: MachineState, address: u16, random: u8)
    requires
        s.wf(),
        address < 0x1000,
    ensures
        s.execute(Instruction::Jump { address }, random) == Ok::<MachineState, Chip8Error>(
            s.with_pc(address),
        ),
        s.execute(Instruction::JumpOffset { address }, random) matches Ok(next) && next.pc == s.v(0)
            + address && next == s.with_pc(next.pc),
{
}

/// `6XNN` puts `NN` into `Vx`, and `7XNN` adds `NN` to `Vx` modulo 256.
/// Neither changes any other register: `7XNN` sets no carry flag.
pub proof fn law_immediates_wrap(s: MachineState, x: u8, value: u8, random: u8)
    requires
        s.wf(),
        x < 16,
    ensures
        s.execute(Instruction::LoadImmediate { x, value }, random) matches Ok(next) && next.v(x)
            == value && (forall|r: u8| r < 16 && r != x ==> next.v(r) == s.v(r)),
        s.execute(Instruction::AddImmediate { x, value }, random) matches Ok(next) && next.v(x) == (
        s.v(x) + value) % 256 && (forall|r: u8| r < 16 && r != x ==> next.v(r) == s.v(r)),
{
}

/// `8XY4` leaves in `Vx` the sum of `Vx` and `Vy` modulo 256 and in `VF`
/// whether the sum was above 255; `8XY5` leaves in `Vx` the difference
/// modulo 256 and in `VF` whether `Vx` was at least `Vy`. Where `x` is
/// `0xF` the flag is what stays in `VF`.
pub proof fn law_add_and_subtract_flags(s: MachineState, x: u8, y: u8, random: u8)
    requires
        s.wf(),
        x < 16,
        y < 16,
    ensures
        s.execute(Instruction::Add { x, y }, random) matches Ok(next) && next.v(FLAG) == (if s.v(x)
            + s.v(y) > 255 {
            1u8
        } else {
            0u8
        }) && (x != FLAG ==> next.v(x) == (s.v(x) + s.v(y)) % 256),
        s.execute(Instruction::Subtract { x, y }, random) matches Ok(next) && next.v(FLAG) == (
        if s.v(x) >= s.v(y) {
            1u8
        } else {
            0u8
        }) && (x != FLAG ==> next.v(x) == (s.v(x) - s.v(y)) % 256),
{
}

/// Drawing the same sprite at the same place twice gives back the screen
/// as it was. The second drawing reports a collision exactly when the
/// sprite has a set bit on a pixel that the first drawing lit, that is, on
/// a pixel that was off at the start.
pub proof fn law_draw_twice(pixels: Seq<bool>, sprite: Seq<u8>, x: int, y: int)
    ensures
        drawn(drawn(pixels, sprite, x, y), sprite, x, y) == pixels,
        collides(drawn(pixels, sprite, x, y), sprite, x, y) <==> exists|p: int|
            0 <= p < pixels.len() && !#[trigger] pixels[p] && flips(sprite, x, y, p),
{
    let once = drawn(pixels, sprite, x, y);
    assert(drawn(once, sprite, x, y) =~= pixels);
    if collides(once, sprite, x, y) {
        let p = choose|p: int| 0 <= p < once.len() && #[trigger] once[p] && flips(sprite, x, y, p);
        assert(!pixels[p] && flips(sprite, x, y, p));
    }
    if exists|p: int| 0 <= p < pixels.len() && !#[trigger] pixels[p] && flips(sprite, x, y, p) {
        let p = choose|p: int|
            0 <= p < pixels.len() && !#[trigger] pixels[p] && flips(sprite, x, y, p);
        assert(once[p] && flips(sprite, x, y, p));
    }
}

/// Two `DXYN` in a row, with neither coordinate taken from the flag
/// register, put the screen back as it was before the first. The second
/// sets `VF` to 1 exactly when the sprite has a set bit on a pixel that was
/// off before the first.
pub proof fn law_draw_instruction_twice(s: MachineState, x: u8, y: u8, rows: u8, random: u8)
    requires
        s.wf(),
        x < 16,
        y < 16,
        rows < 16,
        x != FLAG,
        y != FLAG,
        s.execute(Instruction::Draw { x, y, rows }, random) is Ok,
    ensures
        ({
            let once = s.execute(Instruction::Draw { x, y, rows }, random)->Ok_0;
            &&& once.execute(Instruction::Draw { x, y, rows }, random) matches Ok(twice)
            &&& twice.pixels == s.pixels
            &&& twice.v(FLAG) == 1 <==> exists|p: int|
                0 <= p < s.pixels.len() && !#[trigger] s.pixels[p] && flips(
                    s.sprite(rows),
                    s.v(x) as int,
                    s.v(y) as int,
                    p,
                )
        }),
{
    law_draw_twice(s.pixels, s.sprite(rows), s.v(x) as int, s.v(y) as int);
}

/// `FX55` followed by `FX65` with the same `X` leaves every register as it
/// was, and leaves `I` where it was.
pub proof fn law_store_then_load(s: MachineState, x: u8, random: u8)
    requires
        s.wf(),
        x < 16,
        s.execute(Instruction::StoreRegisters { x }, random) is Ok,
    ensures
        ({
            let stored = s.execute(Instruction::StoreRegisters { x }, random)->Ok_0;
            &&& stored.execute(Instruction::LoadRegisters { x }, random) matches Ok(loaded)
            &&& loaded.registers == s.registers
            &&& loaded.index == s.index
        }),
{
    let stored = s.execute(Instruction::StoreRegisters { x }, random)->Ok_0;
    let loaded = stored.execute(Instruction::LoadRegisters { x }, random)->Ok_0;
    assert(loaded.registers =~= s.registers);
}

/// `2NNN` followed by `00EE` arrives at the instruction after the call, with
/// the stack as it was before the call.
pub proof fn law_call_then_return(s: MachineState, address: u16, random: u8)
    requires
        s.wf(),
        s.pc <= LAST_FETCH,
        address < 0x1000,
        s.stack.len() < STACK_DEPTH,
    ensures
        ({
            &&& s.execute(Instruction::Call { address }, random) matches Ok(called)
            &&& called.pc == address
            &&& called.execute(Instruction::Return, random) matches Ok(returned)
            &&& returned.pc == s.pc + 2
            &&& returned == s.advanced(2)
        }),
{
    let called = s.execute(Instruction::Call { address }, random)->Ok_0;
    let returned = called.execute(Instruction::Return, random)->Ok_0;
    assert(returned.stack =~= s.stack);
}

/// The words that stand for no instruction: `5XYN` and `9XYN` with `N` not
/// 0, `8XYN` with `N` from 8 to `0xD` or `0xF`, `EXNN` with `NN` neither
/// `0x9E` nor `0xA1`, and `FXNN` with `NN` none of the nine known codes.
pub proof fn law_unsupported_words(word: u16)
    ensures
        decoded(word) is None <==> {
            let family = word / 0x1000;
            let n = field_n(word);
            let nn = field_nn(word);
            ||| (family == 0x5 || family == 0x9) && n != 0
            ||| family == 0x8 && (8 <= n <= 0xD || n == 0xF)
            ||| family == 0xE && nn != 0x9E && nn != 0xA1
            ||| family == 0xF && nn != 0x07 && nn != 0x0A && nn != 0x15 && nn != 0x18 && nn != 0x1E
                && nn != 0x29 && nn != 0x33 && nn != 0x55 && nn != 0x65
        },
{
}

/// A cycle that fetches a word that stands for no instruction fails with
/// `UnsupportedOpcode`, naming the address and the word, and leaves the
/// whole state as it was.
pub proof fn law_unsupported_opcode(
    s: MachineState,
    random: u8,
    r: Result<(), Fault>,
    after: MachineState,
)
    requires
        s.pc <= LAST_FETCH,
        decoded(opcode_at(s.memory, s.pc)) is None,
        cycle_outcome(s, random, r, after),
    ensures
        r == Err::<(), Fault>(
            Fault {
                error: Chip8Error::UnsupportedOpcode,
                address: s.pc,
                opcode: Some(opcode_at(s.memory, s.pc)),
            },
        ),
        after == s,
{
    reveal(cycle_outcome);
}

/// Whatever the fault, a cycle that fails leaves the whole state as it
/// was.
pub proof fn law_fault_changes_nothing(
    s: MachineState,
    random: u8,
    r: Result<(), Fault>,
    after: MachineState,
)
    requires
        cycle_outcome(s, random, r, after),
    ensures
        r is Err ==> after == s,
        r is Err <==> s.step(random) is Err,
{
    reveal(cycle_outcome);
}

/// Only `CXNN` reads the random byte: a cycle on any other instruction
/// comes out the same for every byte.
pub proof fn law_random_only_matters_to_random(s: MachineState, a: u8, b: u8)
    requires
        s.pc > LAST_FETCH || !(decoded(opcode_at(s.memory, s.pc)) matches Some(
            Instruction::Random { .. },
        )),
    ensures
        s.step(a) == s.step(b),
{
}

} // verus!
