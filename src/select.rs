//! The dispatcher: which identity gives an output kind from two input kinds.
use vstd::prelude::*;
use crate::kind::{rank, ParameterType};
use crate::kind::ParameterType::{Gravity as G, Height as H, Impulse as I, Time as T};

verus! {

/// One of the twelve closed-form identities, named after the function that computes it.
#[derive(Debug, Clone, Copy, PartialEq, Eq, Structural)]
pub enum Identity {
    ImpulseFromHeightAndTime,
    GravityFromHeightAndTime,
    TimeFromHeightAndImpulse,
    GravityFromHeightAndImpulse,
    TimeFromHeightAndGravity,
    ImpulseFromHeightAndGravity,
    HeightFromTimeAndImpulse,
    GravityFromTimeAndImpulse,
    HeightFromTimeAndGravity,
    ImpulseFromTimeAndGravity,
    HeightFromImpulseAndGravity,
    TimeFromImpulseAndGravity,
}

/// The kinds that an identity takes, in order, and the kind that it gives.
pub open spec fn signature(id: Identity) -> (ParameterType, ParameterType, ParameterType) {
    match id {
        Identity::ImpulseFromHeightAndTime => (H, T, I),
        Identity::GravityFromHeightAndTime => (H, T, G),
        Identity::TimeFromHeightAndImpulse => (H, I, T),
        Identity::GravityFromHeightAndImpulse => (H, I, G),
        Identity::TimeFromHeightAndGravity => (H, G, T),
        Identity::ImpulseFromHeightAndGravity => (H, G, I),
        Identity::HeightFromTimeAndImpulse => (T, I, H),
        Identity::GravityFromTimeAndImpulse => (T, I, G),
        Identity::HeightFromTimeAndGravity => (T, G, H),
        Identity::ImpulseFromTimeAndGravity => (T, G, I),
        Identity::HeightFromImpulseAndGravity => (I, G, H),
        Identity::TimeFromImpulseAndGravity => (I, G, T),
    }
}

/// The identity that gives `out` from the inputs `a` and `b`, taken in either order:
/// none where two of the three kinds are equal.
pub open spec fn select_spec(a: ParameterType, b: ParameterType, out: ParameterType) -> Option<
    Identity,
> {
    if exists|id: Identity| #[trigger] signature(id) == (a, b, out) || signature(id) == (b, a, out) {
        Some(choose|id: Identity| #[trigger] signature(id) == (a, b, out) || signature(id) == (b, a, out))
    } else {
        None
    }
}

/// The name of the function that computes an identity.
pub open spec fn identity_name(id: Identity) -> Seq<char> {
    match id {
        Identity::ImpulseFromHeightAndTime => "impulse_from_height_and_time"@,
        Identity::GravityFromHeightAndTime => "gravity_from_height_and_time"@,
        Identity::TimeFromHeightAndImpulse => "time_from_height_and_impulse"@,
        Identity::GravityFromHeightAndImpulse => "gravity_from_height_and_impulse"@,
        Identity::TimeFromHeightAndGravity => "time_from_height_and_gravity"@,
        Identity::ImpulseFromHeightAndGravity => "impulse_from_height_and_gravity"@,
        Identity::HeightFromTimeAndImpulse => "height_from_time_and_impulse"@,
        Identity::GravityFromTimeAndImpulse => "gravity_from_time_and_impulse"@,
        Identity::HeightFromTimeAndGravity => "height_from_time_and_gravity"@,
        Identity::ImpulseFromTimeAndGravity => "impulse_from_time_and_gravity"@,
        Identity::HeightFromImpulseAndGravity => "height_from_impulse_and_gravity"@,
        Identity::TimeFromImpulseAndGravity => "time_from_impulse_and_gravity"@,
    }
}

impl Identity {
    /// The name of the function that computes this identity.
    pub fn name(&self) -> (r: &'static str)
        ensures
            r@ == identity_name(*self),
    {
        match self {
            Identity::ImpulseFromHeightAndTime => "impulse_from_height_and_time",
            Identity::GravityFromHeightAndTime => "gravity_from_height_and_time",
            Identity::TimeFromHeightAndImpulse => "time_from_height_and_impulse",
            Identity::GravityFromHeightAndImpulse => "gravity_from_height_and_impulse",
            Identity::TimeFromHeightAndGravity => "time_from_height_and_gravity",
            Identity::ImpulseFromHeightAndGravity => "impulse_from_height_and_gravity",
            Identity::HeightFromTimeAndImpulse => "height_from_time_and_impulse",
            Identity::GravityFromTimeAndImpulse => "gravity_from_time_and_impulse",
            Identity::HeightFromTimeAndGravity => "height_from_time_and_gravity",
            Identity::ImpulseFromTimeAndGravity => "impulse_from_time_and_gravity",
            Identity::HeightFromImpulseAndGravity => "height_from_impulse_and_gravity",
            Identity::TimeFromImpulseAndGravity => "time_from_impulse_and_gravity",
        }
    }
}

/// Select the identity that gives `output` from the inputs `param1` and `param2`,
/// in either order; `None` for an invalid combination.
pub fn select_function(param1: ParameterType, param2: ParameterType, output: ParameterType) -> (r:
    Option<Identity>)
    ensures
        r == select_spec(param1, param2, output),
{
    let (ord1, ord2) = param1.reorder(&param2);
    let r = match (ord1, ord2, output) {
        (H, T, I) => Some(Identity::ImpulseFromHeightAndTime),
        (H, T, G) => Some(Identity::GravityFromHeightAndTime),
        (H, I, T) => Some(Identity::TimeFromHeightAndImpulse),
        (H, I, G) => Some(Identity::GravityFromHeightAndImpulse),
        (H, G, T) => Some(Identity::TimeFromHeightAndGravity),
        (H, G, I) => Some(Identity::ImpulseFromHeightAndGravity),
        (T, I, H) => Some(Identity::HeightFromTimeAndImpulse),
        (T, I, G) => Some(Identity::GravityFromTimeAndImpulse),
        (T, G, H) => Some(Identity::HeightFromTimeAndGravity),
        (T, G, I) => Some(Identity::ImpulseFromTimeAndGravity),
        (I, G, H) => Some(Identity::HeightFromImpulseAndGravity),
        (I, G, T) => Some(Identity::TimeFromImpulseAndGravity),
        _ => None,
    };
    proof {
        if let Some(id) = r {
            assert(signature(id) == (param1, param2, output) || signature(id) == (param2, param1, output));
            let c = choose|c: Identity| #[trigger] signature(c) == (param1, param2, output) || signature(c) == (param2, param1, output);
            lemma_answer_unique(param1, param2, output, id, c);
        } else {
            assert forall|id: Identity| !(#[trigger] signature(id) == (param1, param2, output)
                || signature(id) == (param2, param1, output)) by {
                lemma_signature_canonical(id);
            }
        }
    }
    r
}

/// Each identity takes two distinct kinds in increasing order and gives a third.
pub proof fn lemma_signature_canonical(id: Identity)
    ensures
        rank(signature(id).0) < rank(signature(id).1),
        signature(id).2 != signature(id).0,
        signature(id).2 != signature(id).1,
{
}

/// Two identities with the same signature are the same identity.
pub proof fn lemma_signature_unique(x: Identity, y: Identity)
    ensures
        signature(x) == signature(y) ==> x == y,
{
}

/// The identity, if any, that takes `a` and `b` in either order and gives `out`.
proof fn lemma_answer_unique(a: ParameterType, b: ParameterType, out: ParameterType, x: Identity, y: Identity)
    requires
        signature(x) == (a, b, out) || signature(x) == (b, a, out),
        signature(y) == (a, b, out) || signature(y) == (b, a, out),
    ensures
        x == y,
{
    lemma_signature_canonical(x);
    lemma_signature_canonical(y);
    lemma_signature_unique(x, y);
}

/// The dispatcher is total: for three distinct kinds it gives the identity that
/// takes the two inputs and gives the output; where a kind repeats it gives none.
pub proof fn lemma_select_total(a: ParameterType, b: ParameterType, out: ParameterType)
    ensures
        (a != b && a != out && b != out) ==> (select_spec(a, b, out) matches Some(id) && signature(
            id,
        ).2 == out && ((signature(id).0 == a && signature(id).1 == b) || (signature(id).0 == b
            && signature(id).1 == a))),
        (a == b || a == out || b == out) ==> select_spec(a, b, out) is None,
{
    if a != b && a != out && b != out {
        let id = match (a, b, out) {
            (H, T, I) | (T, H, I) => Identity::ImpulseFromHeightAndTime,
            (H, T, G) | (T, H, G) => Identity::GravityFromHeightAndTime,
            (H, I, T) | (I, H, T) => Identity::TimeFromHeightAndImpulse,
            (H, I, G) | (I, H, G) => Identity::GravityFromHeightAndImpulse,
            (H, G, T) | (G, H, T) => Identity::TimeFromHeightAndGravity,
            (H, G, I) | (G, H, I) => Identity::ImpulseFromHeightAndGravity,
            (T, I, H) | (I, T, H) => Identity::HeightFromTimeAndImpulse,
            (T, I, G) | (I, T, G) => Identity::GravityFromTimeAndImpulse,
            (T, G, H) | (G, T, H) => Identity::HeightFromTimeAndGravity,
            (T, G, I) | (G, T, I) => Identity::ImpulseFromTimeAndGravity,
            (I, G, H) | (G, I, H) => Identity::HeightFromImpulseAndGravity,
            _ => Identity::TimeFromImpulseAndGravity,
        };
        assert(signature(id) == (a, b, out) || signature(id) == (b, a, out));
    } else {
        assert forall|id: Identity| !(#[trigger] signature(id) == (a, b, out) || signature(id) == (
            b,
            a,
            out,
        )) by {
            lemma_signature_canonical(id);
        }
    }
}

/// The order of the two inputs does not change the identity selected.
pub proof fn lemma_select_symmetric(a: ParameterType, b: ParameterType, out: ParameterType)
    ensures
        select_spec(a, b, out) == select_spec(b, a, out),
{
    assert forall|id: Identity| #[trigger] signature(id) == (a, b, out) || signature(id) == (b, a, out)
        <==> signature(id) == (b, a, out) || signature(id) == (a, b, out) by {}
    assert((|id: Identity| signature(id) == (a, b, out) || signature(id) == (b, a, out)) == (|
        id: Identity,
    | signature(id) == (b, a, out) || signature(id) == (a, b, out)));
}

} // verus!
