use vstd::prelude::*;

verus! {

/// What can go wrong around the interpreter
#[derive(Debug, Clone)]
pub enum ChipError {
    /// A program file could not be read; the system's message
    ReadFile(String),
    /// A program could not be loaded
    LoadProgram,
    /// An unknown graphical api was asked for
    UseApi,
    /// An unknown interpreter was asked for
    UseIntepreter,
    /// Anything else
    Unknown,
}

} // verus!
