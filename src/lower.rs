//! Lowering a statement to the bindings that compute it: each input that is not an
//! identifier is evaluated once into a fresh binding, then each output is one call
//! of the identity that the dispatcher selects, with the inputs in canonical order.
use vstd::prelude::*;
use crate::arith::{double_spec, pow2_spec, Scalar};
use crate::kind::{rank, ParameterType};
use crate::nofailure::{height_tg, height_ti, impulse_tg};
use crate::parse::{parse_block, parse_block_spec, statement_valid};
use crate::resolver::{
    gravity_hi, gravity_ht, gravity_ti, height_ig, impulse_ht, time_hi, time_ig,
};
use crate::select::{identity_name, select_function, select_spec, signature, Identity};
use crate::token::{
    FloatType, Operand, ParameterInput, ParameterOutput, SolveError, Statement, Token, Width,
};
use vstd::std_specs::ops::{DivSpec, NegSpec};

verus! {

/// An argument of a call.
#[derive(Debug, Clone, Copy, PartialEq, Eq, Structural)]
pub enum Arg {
    /// The identifier at this position of the tokens.
    Ident(usize),
    /// The fresh binding that holds the evaluated input of this kind.
    Fresh(ParameterType),
}

/// Evaluate the operand at a position once, into the fresh binding of a kind.
#[derive(Debug, Clone, Copy, PartialEq, Eq, Structural)]
pub struct Evaluation {
    pub parameter_type: ParameterType,
    pub operand: usize,
}

/// One call of an identity; its result is bound to the identifier at `target`,
/// or is a value of the statement where there is none.
#[derive(Debug, Clone, Copy, PartialEq, Eq, Structural)]
pub struct Call {
    pub identity: Identity,
    pub first: Arg,
    pub second: Arg,
    pub target: Option<usize>,
}

/// The bindings that compute one statement, in order.
#[derive(Debug)]
pub struct Lowered {
    pub evaluations: Vec<Evaluation>,
    pub calls: Vec<Call>,
    /// The numeric type that the statement asks for, if it names one.
    pub width: Option<Width>,
}

pub open spec fn arg_of(input: ParameterInput) -> Arg {
    match input.operand {
        Operand::Ident(p) => Arg::Ident(p),
        Operand::Value(_) => Arg::Fresh(input.parameter_type),
    }
}

pub open spec fn evaluation_of(input: ParameterInput) -> Seq<Evaluation> {
    match input.operand {
        Operand::Ident(_) => seq![],
        Operand::Value(p) => seq![Evaluation { parameter_type: input.parameter_type, operand: p }],
    }
}

/// The two inputs, the lower kind first.
pub open spec fn ordered(st: Statement) -> (ParameterInput, ParameterInput) {
    if rank(st.input1.parameter_type) < rank(st.input2.parameter_type) {
        (st.input1, st.input2)
    } else {
        (st.input2, st.input1)
    }
}

pub open spec fn call_for(st: Statement, o: ParameterOutput) -> Call {
    Call {
        identity: select_spec(
            st.input1.parameter_type,
            st.input2.parameter_type,
            o.parameter_type,
        )->Some_0,
        first: arg_of(ordered(st).0),
        second: arg_of(ordered(st).1),
        target: o.name,
    }
}

pub open spec fn calls_of(st: Statement) -> Seq<Call> {
    match st.output2 {
        Some(o) => seq![call_for(st, st.output1), call_for(st, o)],
        None => seq![call_for(st, st.output1)],
    }
}

/// What an identity computes from its two arguments, for the identities that
/// need no square root.
pub open spec fn identity_value<N: Scalar>(id: Identity, a: N, b: N) -> Option<N> {
    match id {
        Identity::ImpulseFromHeightAndTime => Some(impulse_ht(a, b)),
        Identity::GravityFromHeightAndTime => Some(gravity_ht(a, b)),
        Identity::TimeFromHeightAndImpulse => Some(time_hi(a, b)),
        Identity::GravityFromHeightAndImpulse => Some(gravity_hi(a, b)),
        Identity::HeightFromTimeAndImpulse => Some(height_ti(a, b)),
        Identity::GravityFromTimeAndImpulse => Some(gravity_ti(a, b)),
        Identity::HeightFromTimeAndGravity => Some(height_tg(a, b)),
        Identity::ImpulseFromTimeAndGravity => Some(impulse_tg(a, b)),
        Identity::HeightFromImpulseAndGravity => Some(height_ig(a, b)),
        Identity::TimeFromImpulseAndGravity => Some(time_ig(a, b)),
        _ => None,
    }
}

fn arg_from(input: &ParameterInput) -> (r: Arg)
    ensures
        r == arg_of(*input),
{
    match input.operand {
        Operand::Ident(p) => Arg::Ident(p),
        Operand::Value(_) => Arg::Fresh(input.parameter_type),
    }
}

fn push_evaluation(evaluations: &mut Vec<Evaluation>, input: &ParameterInput)
    ensures
        final(evaluations)@ == old(evaluations)@ + evaluation_of(*input),
{
    match input.operand {
        Operand::Ident(_) => {
            assert(old(evaluations)@ + seq![] =~= old(evaluations)@);
        },
        Operand::Value(p) => {
            evaluations.push(Evaluation { parameter_type: input.parameter_type, operand: p });
        },
    }
}

impl Statement {
    /// The call that computes one output of this statement.
    fn call(&self, output: &ParameterOutput) -> (r: Call)
        requires
            self.input1.parameter_type != self.input2.parameter_type,
            !crate::parse::repeats_input(*output, self.input1, self.input2),
        ensures
            r == call_for(*self, *output),
    {
        let identity = select_function(
            self.input1.parameter_type,
            self.input2.parameter_type,
            output.parameter_type,
        );
        proof {
            crate::select::lemma_select_total(
                self.input1.parameter_type,
                self.input2.parameter_type,
                output.parameter_type,
            );
        }
        let (first, second) = if self.input1.parameter_type.rank()
            < self.input2.parameter_type.rank() {
            (arg_from(&self.input1), arg_from(&self.input2))
        } else {
            (arg_from(&self.input2), arg_from(&self.input1))
        };
        Call { identity: identity.unwrap(), first, second, target: output.name }
    }

    /// Lower the statement: evaluate the inputs that are not identifiers, in the order
    /// written, then one call per output.
    pub fn lower(&self) -> (r: Lowered)
        requires
            statement_valid(*self),
        ensures
            r.evaluations@ == evaluation_of(self.input1) + evaluation_of(self.input2),
            r.calls@ == calls_of(*self),
            r.width == self.width,
    {
        let mut evaluations: Vec<Evaluation> = Vec::new();
        push_evaluation(&mut evaluations, &self.input1);
        push_evaluation(&mut evaluations, &self.input2);
        assert(evaluations@ =~= seq![] + evaluation_of(self.input1) + evaluation_of(self.input2));
        let mut calls: Vec<Call> = Vec::new();
        calls.push(self.call(&self.output1));
        if let Some(o) = &self.output2 {
            calls.push(self.call(o));
        }
        assert(calls@ =~= calls_of(*self));
        Lowered { evaluations, calls, width: self.width }
    }
}

/// Parse a block and lower each of its statements: the preamble, if any, and the
/// bindings of each statement in order; or the first failure.
pub fn expand(tokens: &Vec<Token>) -> (r: Result<(Option<FloatType>, Vec<Lowered>), SolveError>)
    requires
        tokens@.len() < usize::MAX,
    ensures
        match r {
            Ok((p, lowered)) => parse_block_spec(tokens@) matches Ok((q, sts)) && p == q
                && lowered@.len() == sts.len() && forall|k: int|
                0 <= k < sts.len() ==> (#[trigger] lowered@[k]).calls@ == calls_of(sts[k])
                && lowered@[k].width == sts[k].width && lowered@[k].evaluations@ == evaluation_of(sts[k].input1) + evaluation_of(
                sts[k].input2,
            ),
            Err(e) => parse_block_spec(tokens@) == Err::<(Option<FloatType>, Seq<Statement>), _>(e),
        },
{
    let (preamble, statements) = parse_block(tokens)?;
    let mut lowered: Vec<Lowered> = Vec::new();
    let mut k: usize = 0;
    while k < statements.len()
        invariant
            parse_block_spec(tokens@) == Ok::<_, SolveError>((preamble, statements@)),
            k <= statements@.len(),
            lowered@.len() == k,
            forall|m: int|
                0 <= m < k ==> (#[trigger] lowered@[m]).calls@ == calls_of(statements@[m])
                    && lowered@[m].width == statements@[m].width && lowered@[m].evaluations@ == evaluation_of(statements@[m].input1)
                    + evaluation_of(statements@[m].input2),
        decreases statements@.len() - k,
    {
        proof {
            lemma_parsed_statements_valid(tokens@, k as int);
        }
        lowered.push(statements[k].lower());
        k = k + 1;
    }
    Ok((preamble, lowered))
}

/// Every statement of a block that parses is valid.
proof fn lemma_parsed_statements_valid(s: Seq<Token>, k: int)
    requires
        parse_block_spec(s) is Ok,
        0 <= k < parse_block_spec(s)->Ok_0.1.len(),
    ensures
        statement_valid(parse_block_spec(s)->Ok_0.1[k]),
{
    let i = crate::parse::parse_preamble(s, 0)->Ok_0.1;
    lemma_statements_valid(s, i, k);
}

proof fn lemma_statements_valid(s: Seq<Token>, i: int, k: int)
    requires
        crate::parse::parse_statements(s, i) is Ok,
        0 <= k < crate::parse::parse_statements(s, i)->Ok_0.len(),
    ensures
        statement_valid(crate::parse::parse_statements(s, i)->Ok_0[k]),
    decreases s.len() - i,
{
    crate::parse::lemma_statement_kinds_distinct(s, i);
    if 0 <= i < s.len() {
        let (st, j) = crate::parse::parse_statement(s, i)->Ok_0;
        if k > 0 && j > i {
            lemma_statements_valid(s, j, k - 1);
        }
    }
}

/// A statement `H(h), T(t) => I, G` (inputs in either order) lowers to two calls:
/// `impulse_from_height_and_time(h, t)` computing `2h / t`, then
/// `gravity_from_height_and_time(h, t)` computing `−2h / t²`.
pub proof fn lemma_height_time_expansion<N: Scalar>(st: Statement, h: N, t: N)
    requires
        (st.input1.parameter_type == ParameterType::Height && st.input2.parameter_type
            == ParameterType::Time) || (st.input1.parameter_type == ParameterType::Time
            && st.input2.parameter_type == ParameterType::Height),
        st.output1.parameter_type == ParameterType::Impulse,
        st.output2 matches Some(o) && o.parameter_type == ParameterType::Gravity,
    ensures
        statement_valid(st),
        calls_of(st).len() == 2,
        calls_of(st)[0].identity == Identity::ImpulseFromHeightAndTime,
        calls_of(st)[1].identity == Identity::GravityFromHeightAndTime,
        identity_name(calls_of(st)[0].identity) == "impulse_from_height_and_time"@,
        identity_name(calls_of(st)[1].identity) == "gravity_from_height_and_time"@,
        forall|c: int|
            0 <= c < 2 ==> (#[trigger] calls_of(st)[c]).first == arg_of(
                if st.input1.parameter_type == ParameterType::Height {
                    st.input1
                } else {
                    st.input2
                },
            ) && calls_of(st)[c].second == arg_of(
                if st.input1.parameter_type == ParameterType::Time {
                    st.input1
                } else {
                    st.input2
                },
            ),
        identity_value(calls_of(st)[0].identity, h, t) == Some(double_spec(h).div_spec(t)),
        identity_value(calls_of(st)[1].identity, h, t) == Some(
            double_spec(h).neg_spec().div_spec(pow2_spec(t)),
        ),
{
    let a = st.input1.parameter_type;
    let b = st.input2.parameter_type;
    crate::select::lemma_select_total(a, b, ParameterType::Impulse);
    crate::select::lemma_select_total(a, b, ParameterType::Gravity);
    let x = select_spec(a, b, ParameterType::Impulse)->Some_0;
    let y = select_spec(a, b, ParameterType::Gravity)->Some_0;
    crate::select::lemma_signature_unique(x, Identity::ImpulseFromHeightAndTime);
    crate::select::lemma_signature_unique(y, Identity::GravityFromHeightAndTime);
    assert(signature(x) == signature(Identity::ImpulseFromHeightAndTime)) by {
        crate::select::lemma_signature_canonical(x);
    }
    assert(signature(y) == signature(Identity::GravityFromHeightAndTime)) by {
        crate::select::lemma_signature_canonical(y);
    }
}

} // verus!
