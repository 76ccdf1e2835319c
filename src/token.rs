//! The solve language as the library reads it: a flat sequence of tokens,
//! where a bracketed group stands as one token, and what is parsed from it.
use vstd::prelude::*;
use crate::kind::{fresh_name, ParameterType};

verus! {

/// The brackets around a group.
#[derive(Debug, Clone, Copy, PartialEq, Eq, Structural)]
pub enum Delimiter {
    Parenthesis,
    Brace,
    Bracket,
    /// No visible brackets.
    Invisible,
}

/// One token of the solve language.
#[derive(Debug)]
pub enum Token {
    /// A word: an identifier or a keyword.
    Ident(String),
    /// A punctuation character, and whether the next token is a punctuation joined to it.
    Punct(char, bool),
    /// A literal, as written.
    Literal(String),
    /// A bracketed group, whose content the library hands on unread.
    Group(Delimiter),
}

/// The failures of the solve language; each holds the position of the offending token.
#[derive(Debug, Clone, Copy, PartialEq, Eq, Structural)]
pub enum SolveError {
    /// The tokens end at this position where more was expected.
    Missing(usize),
    /// This word names no parameter kind.
    UnknownKind(usize),
    /// This token is not what the statement allows here.
    Unexpected(usize),
    /// A `=>` was expected at this token.
    MissingArrow(usize),
    /// Only `,`, `as` or the end of the statement may follow an output.
    ExtraToken(usize),
    /// This kind repeats another one of the statement: no identity applies.
    InvalidCombination(usize),
    /// This word names no numeric type.
    UnknownType(usize),
}

/// The width of the floating-point numbers that a statement computes with.
#[derive(Debug, Clone, Copy, PartialEq, Eq, Structural)]
pub enum Width {
    Bits32,
    Bits64,
}

/// The preamble `use [const] TYPE;`: the numeric type, and whether the bindings are constants.
#[derive(Debug, Clone, Copy, PartialEq, Eq, Structural)]
pub struct FloatType {
    pub is_const: bool,
    pub width: Width,
}

/// Where the value of an input comes from.
#[derive(Debug, Clone, Copy, PartialEq, Eq, Structural)]
pub enum Operand {
    /// The identifier at this position, used as it stands.
    Ident(usize),
    /// The literal or group at this position, evaluated once beforehand.
    Value(usize),
}

/// An input of a statement.
#[derive(Debug, Clone, Copy, PartialEq, Eq, Structural)]
pub struct ParameterInput {
    pub parameter_type: ParameterType,
    pub operand: Operand,
    /// The position of the word that gives the kind.
    pub kind_at: usize,
}

/// An output of a statement.
#[derive(Debug, Clone, Copy, PartialEq, Eq, Structural)]
pub struct ParameterOutput {
    pub parameter_type: ParameterType,
    /// The position of the identifier that receives the value, if it is named.
    pub name: Option<usize>,
    /// The position of the word that gives the kind.
    pub kind_at: usize,
}

/// `input, input => output [, output] [as TYPE]`
#[derive(Debug, Clone, Copy, PartialEq, Eq, Structural)]
pub struct Statement {
    pub input1: ParameterInput,
    pub input2: ParameterInput,
    pub output1: ParameterOutput,
    pub output2: Option<ParameterOutput>,
    pub width: Option<Width>,
}

impl ParameterInput {
    /// The kind of this input.
    pub fn get_type(&self) -> (r: ParameterType)
        ensures
            r == self.parameter_type,
    {
        self.parameter_type
    }

    /// The name of the fresh binding that holds this input once evaluated.
    pub fn get_ident(&self) -> (r: &'static str)
        ensures
            r@ == fresh_name(self.parameter_type),
    {
        self.parameter_type.get_ident()
    }
}

impl ParameterOutput {
    /// The kind of this output.
    pub fn get_type(&self) -> (r: ParameterType)
        ensures
            r == self.parameter_type,
    {
        self.parameter_type
    }
}

} // verus!
