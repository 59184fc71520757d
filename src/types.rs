use vstd::prelude::*;

use std::str::FromStr;

use crate::error::ChipError;
use crate::interpreter::ChipInterpreter;
use crate::machine::initial_model;

verus! {

/// Intepreter type
#[derive(Debug, Clone, Copy, PartialEq, Eq, Structural)]
pub enum InterpreterType {
    Original,
}

impl Default for InterpreterType {
    fn default() -> (r: Self)
        ensures
            r == InterpreterType::Original,
    {
        Self::Original
    }
}

impl InterpreterType {
    /// The interpreter of this name: "original"
    pub fn parse(s: &str) -> (r: Result<Self, ChipError>)
        ensures
            s@ == "original"@ ==> r == Ok::<Self, ChipError>(InterpreterType::Original),
            s@ != "original"@ ==> r == Err::<Self, ChipError>(ChipError::UseIntepreter),
    {
        if s.to_owned() == "original".to_owned() {
            Ok(Self::Original)
        } else {
            Err(ChipError::UseIntepreter)
        }
    }

    /// A fresh interpreter of this type
    pub fn build(self) -> (r: ChipInterpreter)
        ensures
            r.wf(),
            r@ == initial_model(),
    {
        match self {
            InterpreterType::Original => ChipInterpreter::new(),
        }
    }
}

impl FromStr for InterpreterType {
    type Err = ChipError;

    fn from_str(s: &str) -> Result<Self, Self::Err> {
        Self::parse(s)
    }
}

} // verus!
