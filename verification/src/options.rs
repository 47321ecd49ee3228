//! The option types: what a command declares it accepts, and what an
//! incoming interaction resolved for it.
use vstd::prelude::*;

verus! {

/// The kind of value a command option accepts.
#[derive(PartialEq, Eq, Structural, Clone, Copy, Debug)]
pub enum OptionKind {
    Text,
    Int,
}

/// A value the user supplied for one option of a command invocation.
#[derive(Clone, Debug)]
pub enum OptionValue {
    Int(i64),
    Text(String),
}

impl OptionValue {
    /// The integer this value holds, if it is an integer.
    pub open spec fn spec_as_i64(self) -> Option<i64> {
        match self {
            OptionValue::Int(n) => Some(n),
            OptionValue::Text(_) => None,
        }
    }

    /// Returns the integer this value holds, or `None` for a non-integer value.
    pub fn as_i64(&self) -> (r: Option<i64>)
        ensures
            r == self.spec_as_i64(),
    {
        match self {
            OptionValue::Int(n) => Some(*n),
            OptionValue::Text(_) => None,
        }
    }
}

/// One resolved argument of an incoming command interaction.
#[derive(Clone, Debug)]
pub struct ResolvedOption {
    pub name: String,
    pub value: OptionValue,
}

/// The declaration of one option in a command descriptor.
#[derive(Clone, Debug)]
pub struct OptionSpec {
    pub kind: OptionKind,
    pub name: String,
    pub description: String,
    pub required: bool,
    pub min_int: Option<i64>,
    pub max_int: Option<i64>,
}

} // verus!
