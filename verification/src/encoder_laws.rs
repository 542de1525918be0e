//! What holds of the encoder's state under every instruction.

use vstd::prelude::*;
use crate::domain::UnderlineMode;
use crate::encoder::instruction::{rejection, state_after, EncoderState, Instruction};

verus! {

/// Switching bold and switching it back leaves the state as it was.
pub proof fn bold_round_trip(state: EncoderState, on: bool)
    ensures
        rejection(Instruction::Bold(on), state) is None,
        state_after(Instruction::Bold(state.bold), state_after(Instruction::Bold(on), state))
            == state,
{
}

/// Selecting an underline and selecting the former one again leaves the
/// state as it was.
pub proof fn underline_round_trip(state: EncoderState, mode: UnderlineMode)
    ensures
        rejection(Instruction::Underline(mode), state) is None,
        state_after(
            Instruction::Underline(state.underline),
            state_after(Instruction::Underline(mode), state),
        ) == state,
{
}

/// Switching white on black and switching it back leaves the state as it
/// was.
pub proof fn reverse_round_trip(state: EncoderState, on: bool)
    ensures
        rejection(Instruction::Reverse(on), state) is None,
        state_after(Instruction::Reverse(state.reverse), state_after(Instruction::Reverse(on), state))
            == state,
{
}

/// Switching double strike and switching it back leaves the state as it
/// was.
pub proof fn double_strike_round_trip(state: EncoderState, on: bool)
    ensures
        rejection(Instruction::DoubleStrike(on), state) is None,
        state_after(
            Instruction::DoubleStrike(state.double_strike),
            state_after(Instruction::DoubleStrike(on), state),
        ) == state,
{
}

/// A switch set to the value it already has changes nothing.
pub proof fn repeated_switch_changes_nothing(state: EncoderState)
    ensures
        state_after(Instruction::Bold(state.bold), state) == state,
        state_after(Instruction::Underline(state.underline), state) == state,
        state_after(Instruction::Reverse(state.reverse), state) == state,
        state_after(Instruction::DoubleStrike(state.double_strike), state) == state,
{
}

/// Initialising brings every style back to the device's defaults, whatever
/// the state was, and keeps the debug mode.
pub proof fn init_restores_defaults(state: EncoderState)
    ensures
        rejection(Instruction::Init, state) is None,
        state_after(Instruction::Init, state) == EncoderState::defaults(state.debug_mode),
{
}

/// No instruction touches the debug mode.
pub proof fn debug_mode_is_kept(instruction: Instruction, state: EncoderState)
    ensures
        state_after(instruction, state).debug_mode == state.debug_mode,
{
}

/// Only the instructions that select a character table change which table
/// is in force, so text is encoded under the table selected last.
pub proof fn page_code_changes_only_when_selected(instruction: Instruction, state: EncoderState)
    requires
        !(instruction is PageCode),
        !(instruction is Init),
        !(instruction is Reset),
        !(instruction matches Instruction::Custom(_, Some(_))),
    ensures
        state_after(instruction, state).page_code == state.page_code,
{
}

} // verus!
