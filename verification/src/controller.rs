//! The controller ports: where on the bus they are read, and which bit of
//! the byte read stands for which button.

use vstd::prelude::*;

verus! {

pub const JOY_RIGHT: u8 = 0b10000000;

pub const JOY_LEFT: u8 = 0b01000000;

pub const JOY_DOWN: u8 = 0b00100000;

pub const JOY_UP: u8 = 0b00010000;

pub const JOY_START: u8 = 0b00001000;

pub const JOY_SELECT: u8 = 0b00000100;

pub const JOY_BUTTON_B: u8 = 0b00000010;

pub const JOY_BUTTON_A: u8 = 0b00000001;

pub const CONTROLLER_1_ADDRESS: u16 = 0x4016;

pub const CONTROLLER_2_ADDRESS: u16 = 0x4017;

/// What the user did, as far as the driving loop tells events apart.
#[derive(Clone, Copy, Debug, PartialEq, Eq, Structural)]
pub enum UserInput {
    /// The window was closed.
    Quit,
    /// The escape key was pressed.
    Escape,
    /// The key for button A was pressed.
    ButtonA,
    /// The key for button B was pressed.
    ButtonB,
    /// The key for START was pressed.
    Start,
    /// The key for SELECT was pressed.
    Select,
    /// The key for UP was pressed.
    Up,
    /// The key for DOWN was pressed.
    Down,
    /// The key for LEFT was pressed.
    Left,
    /// The key for RIGHT was pressed.
    Right,
    /// Anything else.
    Other,
}

/// What the driving loop does about an input.
#[derive(Clone, Copy, Debug, PartialEq, Eq, Structural)]
pub enum Reaction {
    /// End the program.
    Exit,
    /// Go on with the loop.
    Continue,
}

/// Closing the window and the escape key end the program; no other input
/// has an effect.
pub fn reaction_to(input: UserInput) -> (reaction: Reaction)
    ensures
        reaction == Reaction::Exit <==> (input == UserInput::Quit || input == UserInput::Escape),
        reaction == Reaction::Continue <==> !(input == UserInput::Quit || input
            == UserInput::Escape),
{
    match input {
        UserInput::Quit | UserInput::Escape => Reaction::Exit,
        _ => Reaction::Continue,
    }
}

} // verus!
