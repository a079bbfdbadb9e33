//! What the machine asks of its host after an instruction.

use vstd::prelude::*;
use crate::error::VmError;

verus! {

/// Whether the machine goes on after an instruction.
#[derive(Clone, Copy, Debug, PartialEq, Eq, Structural)]
pub enum RunState {
    Running,
    Halted,
}

/// What an instruction asks of the host once it is done, as plain values.
pub struct Effect {
    /// Whether to go on.
    pub state: RunState,
    /// The bytes to send to the display, in order.
    pub output: Seq<u8>,
    /// Whether the display is to be flushed after them.
    pub flush: bool,
}

/// What the host is to do after an instruction.
#[derive(Debug, PartialEq, Eq)]
pub struct Outcome {
    /// Whether to go on.
    pub state: RunState,
    /// The bytes to send to the display, in order.
    pub output: Vec<u8>,
    /// Whether the display is to be flushed after them.
    pub flush: bool,
}

impl View for Outcome {
    type V = Effect;

    open spec fn view(&self) -> Effect {
        Effect { state: self.state, output: self.output@, flush: self.flush }
    }
}

/// An effect that shows nothing and goes on.
pub open spec fn silent() -> Effect {
    Effect { state: RunState::Running, output: Seq::empty(), flush: false }
}

/// An effect that shows `bytes`, flushes, and goes on.
pub open spec fn shows(bytes: Seq<u8>) -> Effect {
    Effect { state: RunState::Running, output: bytes, flush: true }
}

/// An effect that stops the machine.
pub open spec fn halts() -> Effect {
    Effect { state: RunState::Halted, output: Seq::empty(), flush: false }
}

/// What a step returned, as plain values.
pub open spec fn result_view(r: Result<Outcome, VmError>) -> Result<Effect, VmError> {
    match r {
        Ok(outcome) => Ok(outcome@),
        Err(e) => Err(e),
    }
}

impl Outcome {
    /// Go on, with nothing to show.
    pub fn silent() -> (r: Outcome)
        ensures
            r@ == silent(),
    {
        Outcome { state: RunState::Running, output: Vec::new(), flush: false }
    }

    /// Go on, after showing `output` and flushing.
    pub fn shows(output: Vec<u8>) -> (r: Outcome)
        ensures
            r@ == shows(output@),
    {
        Outcome { state: RunState::Running, output, flush: true }
    }

    /// Go on, after showing `byte` and flushing.
    pub fn shows_byte(byte: u8) -> (r: Outcome)
        ensures
            r@ == shows(seq![byte]),
    {
        let mut output: Vec<u8> = Vec::new();
        output.push(byte);
        assert(output@ =~= seq![byte]);
        Outcome { state: RunState::Running, output, flush: true }
    }

    /// Stop.
    pub fn halts() -> (r: Outcome)
        ensures
            r@ == halts(),
    {
        Outcome { state: RunState::Halted, output: Vec::new(), flush: false }
    }
}

} // verus!
