use vstd::prelude::*;

verus! {

/// How the program counter moves at the end of a cycle
#[derive(Clone, Copy, Debug, PartialEq, Eq, Structural)]
pub enum ProgramCountState {
    /// Advance to the following instruction
    Next,
    /// Go to the given address
    Jump(u16),
    /// Step over the following instruction
    Skip,
}

impl Default for ProgramCountState {
    fn default() -> (r: Self)
        ensures
            r == ProgramCountState::Next,
    {
        ProgramCountState::Next
    }
}

/// Size of an operation code
pub const OPCODE_SIZE: u16 = 2;

/// Size of the address space that the program counter ranges over
pub const ADDRESS_SPACE: u16 = 0x1000;

/// Where a counter at `pc` lands under transition `t`. Addresses live in
/// 12 bits: moving past the end of memory wraps around to its start.
pub open spec fn advance(pc: u16, t: ProgramCountState) -> u16 {
    match t {
        ProgramCountState::Next => ((pc + OPCODE_SIZE) % (ADDRESS_SPACE as int)) as u16,
        ProgramCountState::Skip => ((pc + 2 * OPCODE_SIZE) % (ADDRESS_SPACE as int)) as u16,
        ProgramCountState::Jump(addr) => (addr % ADDRESS_SPACE) as u16,
    }
}

/// Program Count
#[derive(Clone, Copy, Debug, PartialEq, Eq, Structural)]
pub struct ProgramCount {
    /// Count
    pub value: u16,
    /// State
    pub state: ProgramCountState,
}

impl ProgramCount {
    /// Reset the state
    pub fn reset_state(&mut self)
        ensures
            final(self).value == old(self).value,
            final(self).state == ProgramCountState::Next,
    {
        self.state = ProgramCountState::default();
    }

    /// Set the state
    pub fn set_state(&mut self, state: ProgramCountState)
        ensures
            final(self).value == old(self).value,
            final(self).state == state,
    {
        self.state = state;
    }

    /// Move the counter as its state says
    pub fn step(&mut self)
        ensures
            final(self).value == advance(old(self).value, old(self).state),
            final(self).value < ADDRESS_SPACE,
            final(self).state == old(self).state,
    {
        match self.state {
            ProgramCountState::Next => {
                self.value = ((self.value as u32 + OPCODE_SIZE as u32) % ADDRESS_SPACE as u32) as u16;
            },
            ProgramCountState::Jump(addr) => {
                self.value = addr % ADDRESS_SPACE;
            },
            ProgramCountState::Skip => {
                self.value = ((self.value as u32 + 2 * OPCODE_SIZE as u32) % ADDRESS_SPACE as u32) as u16;
            },
        }
    }
}

impl From<u16> for ProgramCount {
    fn from(value: u16) -> (r: Self) {
        Self { value, state: ProgramCountState::Next }
    }
}

impl vstd::std_specs::convert::FromSpecImpl<u16> for ProgramCount {
    open spec fn obeys_from_spec() -> bool {
        true
    }

    open spec fn from_spec(value: u16) -> Self {
        ProgramCount { value, state: ProgramCountState::Next }
    }
}

} // verus!
