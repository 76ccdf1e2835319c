//! Parameters of an arcade jump: peak height `H`, time to the peak `T`, vertical
//! impulse `V` and gravity `G`. Any two give the other two by closed-form identities:
//! `V = 2H/T`, `G = −V/T`, `H = −V²/(2G)`, and their rearrangements.
//!
//! - `resolver`, `nofailure`: the twelve identities over any scalar type with the
//!   operators of std; an identity that divides reports the null input.
//! - `trajectory`: all four parameters built from any pair of them.
//! - `solve`, `horizontal`, `jump`: pairs of results with zero for undefined values,
//!   the time budget from horizontal range and speed, and a jump with height control.
//! - `kind`, `select`: the four kinds of parameter, and the dispatcher that picks the
//!   identity for two input kinds and an output kind.
//! - `token`, `parse`, `lower`: the solve language `H(h), T(t) => I, G`, parsed from
//!   tokens and lowered to the calls that compute each statement.
use vstd::prelude::*;

pub mod arith;
pub mod error;
pub mod horizontal;
pub mod jump;
pub mod kind;
pub mod lower;
pub mod nofailure;
pub mod parse;
pub mod resolver;
pub mod select;
pub mod solve;
pub mod token;
pub mod trajectory;

pub use error::{Error, ErrorTime};

verus! {

} // verus!
