//! The four kinds of jump parameter and their total order.
use vstd::prelude::*;

verus! {

/// Parameter type
#[derive(Debug, Clone, Copy, PartialEq, Eq, Structural)]
pub enum ParameterType {
    /// Peak height
    Height,
    /// Time to reach the peak
    Time,
    /// Initial vertical impulse
    Impulse,
    /// Gravity force
    Gravity,
}

/// The place of a kind in the order Height < Time < Impulse < Gravity.
pub open spec fn rank(k: ParameterType) -> nat {
    match k {
        ParameterType::Height => 0,
        ParameterType::Time => 1,
        ParameterType::Impulse => 2,
        ParameterType::Gravity => 3,
    }
}

/// The kind that a word of the solve language names, if any.
pub open spec fn kind_of_word(w: Seq<char>) -> Option<ParameterType> {
    if w == "H"@ || w == "Height"@ {
        Some(ParameterType::Height)
    } else if w == "T"@ || w == "Time"@ {
        Some(ParameterType::Time)
    } else if w == "I"@ || w == "Impulse"@ {
        Some(ParameterType::Impulse)
    } else if w == "G"@ || w == "Gravity"@ {
        Some(ParameterType::Gravity)
    } else {
        None
    }
}

/// The name of the fresh binding that holds an evaluated input of a kind.
pub open spec fn fresh_name(k: ParameterType) -> Seq<char> {
    match k {
        ParameterType::Height => "__height"@,
        ParameterType::Time => "__time"@,
        ParameterType::Impulse => "__impulse"@,
        ParameterType::Gravity => "__gravity"@,
    }
}

/// Whether `w` holds exactly the characters of `text`.
pub fn word_is(w: &String, text: &str) -> (r: bool)
    ensures
        r == (w@ == text@),
{
    let t = text.to_owned();
    w.eq(&t)
}

impl ParameterType {
    /// The place of this kind in the order Height < Time < Impulse < Gravity.
    pub fn rank(&self) -> (r: u8)
        ensures
            r == rank(*self),
    {
        match self {
            ParameterType::Height => 0,
            ParameterType::Time => 1,
            ParameterType::Impulse => 2,
            ParameterType::Gravity => 3,
        }
    }

    /// Identify the parameter that a word names: `H` or `Height`, `T` or `Time`,
    /// `I` or `Impulse`, `G` or `Gravity`.
    pub fn try_from(name: &String) -> (r: Option<ParameterType>)
        ensures
            r == kind_of_word(name@),
    {
        if word_is(name, "H") || word_is(name, "Height") {
            Some(ParameterType::Height)
        } else if word_is(name, "T") || word_is(name, "Time") {
            Some(ParameterType::Time)
        } else if word_is(name, "I") || word_is(name, "Impulse") {
            Some(ParameterType::Impulse)
        } else if word_is(name, "G") || word_is(name, "Gravity") {
            Some(ParameterType::Gravity)
        } else {
            None
        }
    }

    /// The name of the fresh binding that holds an evaluated input of this kind.
    pub fn get_ident(&self) -> (r: &'static str)
        ensures
            r@ == fresh_name(*self),
    {
        match self {
            ParameterType::Height => "__height",
            ParameterType::Time => "__time",
            ParameterType::Impulse => "__impulse",
            ParameterType::Gravity => "__gravity",
        }
    }

    /// Order two kinds: the lower first.
    pub fn reorder(&self, other: &ParameterType) -> (r: (ParameterType, ParameterType))
        ensures
            rank(r.0) <= rank(r.1),
            (r.0 == *self && r.1 == *other) || (r.0 == *other && r.1 == *self),
    {
        if self.rank() < other.rank() {
            (*self, *other)
        } else {
            (*other, *self)
        }
    }
}

} // verus!
