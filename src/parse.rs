//! The grammar of the solve language, over the positions of a token sequence.
//!
//! ```text
//! block     := [ 'use' ['const'] TYPE ';' ] statement*
//! statement := input ',' input '=>' output [',' output] [ 'as' TYPE ] [';']
//! input     := KIND GROUP | operand ':' KIND        operand := IDENT | LITERAL | GROUP
//! output    := IDENT ':' KIND | KIND
//! KIND      := H | Height | T | Time | I | Impulse | G | Gravity
//! TYPE      := f32 | f64
//! ```
use vstd::prelude::*;
use crate::kind::{kind_of_word, word_is, ParameterType};
use crate::token::{
    FloatType, Operand, ParameterInput, ParameterOutput, SolveError, Statement, Token, Width,
};

verus! {

/// The exec result `r` stands for the spec result `s`, positions as integers.
pub open spec fn answers<T>(r: Result<(T, usize), SolveError>, s: Result<(T, int), SolveError>) -> bool {
    match r {
        Ok((x, j)) => s == Ok::<(T, int), SolveError>((x, j as int)),
        Err(e) => s == Err::<(T, int), SolveError>(e),
    }
}

pub open spec fn is_punct(s: Seq<Token>, i: int, c: char) -> bool {
    0 <= i < s.len() && (s[i] matches Token::Punct(p, _) && p == c)
}

pub open spec fn is_word(s: Seq<Token>, i: int, w: Seq<char>) -> bool {
    0 <= i < s.len() && (s[i] matches Token::Ident(x) && x@ == w)
}

/// The kind that the word at `i` names, if the token there is such a word.
pub open spec fn word_kind(s: Seq<Token>, i: int) -> Option<ParameterType> {
    if 0 <= i < s.len() && s[i] is Ident {
        kind_of_word(s[i]->Ident_0@)
    } else {
        None
    }
}

/// `KIND`
pub open spec fn parse_kind(s: Seq<Token>, i: int) -> Result<(ParameterType, int), SolveError> {
    if i >= s.len() {
        Err(SolveError::Missing(i as usize))
    } else if word_kind(s, i) is Some {
        Ok((word_kind(s, i)->Some_0, i + 1))
    } else {
        Err(SolveError::UnknownKind(i as usize))
    }
}

/// `KIND GROUP` or `operand ':' KIND`
pub open spec fn parse_input(s: Seq<Token>, i: int) -> Result<(ParameterInput, int), SolveError> {
    if i >= s.len() {
        Err(SolveError::Missing(i as usize))
    } else if s[i] is Punct {
        Err(SolveError::Unexpected(i as usize))
    } else if i + 1 >= s.len() {
        Err(SolveError::Missing((i + 1) as usize))
    } else if word_kind(s, i) is Some && s[i + 1] is Group {
        Ok(
            (
                ParameterInput {
                    parameter_type: word_kind(s, i)->Some_0,
                    operand: Operand::Value((i + 1) as usize),
                    kind_at: i as usize,
                },
                i + 2,
            ),
        )
    } else if is_punct(s, i + 1, ':') {
        match parse_kind(s, i + 2) {
            Ok((k, j)) => Ok(
                (
                    ParameterInput {
                        parameter_type: k,
                        operand: if s[i] is Ident {
                            Operand::Ident(i as usize)
                        } else {
                            Operand::Value(i as usize)
                        },
                        kind_at: (i + 2) as usize,
                    },
                    j,
                ),
            ),
            Err(e) => Err(e),
        }
    } else {
        Err(SolveError::Unexpected((i + 1) as usize))
    }
}

/// `IDENT ':' KIND` or `KIND`
pub open spec fn parse_output(s: Seq<Token>, i: int) -> Result<(ParameterOutput, int), SolveError> {
    if i >= s.len() {
        Err(SolveError::Missing(i as usize))
    } else if s[i] is Ident && is_punct(s, i + 1, ':') {
        match parse_kind(s, i + 2) {
            Ok((k, j)) => Ok(
                (
                    ParameterOutput {
                        parameter_type: k,
                        name: Some(i as usize),
                        kind_at: (i + 2) as usize,
                    },
                    j,
                ),
            ),
            Err(e) => Err(e),
        }
    } else {
        match parse_kind(s, i) {
            Ok((k, j)) => Ok(
                (ParameterOutput { parameter_type: k, name: None, kind_at: i as usize }, j),
            ),
            Err(e) => Err(e),
        }
    }
}

/// `=>`: an `=` joined to a `>`
pub open spec fn parse_arrow(s: Seq<Token>, i: int) -> Result<((), int), SolveError> {
    if i >= s.len() {
        Err(SolveError::Missing(i as usize))
    } else if (s[i] matches Token::Punct(c, joint) && c == '=' && joint) && is_punct(s, i + 1, '>') {
        Ok(((), i + 2))
    } else {
        Err(SolveError::MissingArrow(i as usize))
    }
}

/// `TYPE`
pub open spec fn parse_width(s: Seq<Token>, i: int) -> Result<(Width, int), SolveError> {
    if i >= s.len() {
        Err(SolveError::Missing(i as usize))
    } else if is_word(s, i, "f32"@) {
        Ok((Width::Bits32, i + 1))
    } else if is_word(s, i, "f64"@) {
        Ok((Width::Bits64, i + 1))
    } else {
        Err(SolveError::UnknownType(i as usize))
    }
}

/// What closes a statement after its outputs: `[as TYPE]`, then `;` or the end of the tokens.
pub open spec fn parse_end(s: Seq<Token>, i: int) -> Result<(Option<Width>, int), SolveError> {
    if i >= s.len() {
        Ok((None, i))
    } else if is_punct(s, i, ';') {
        Ok((None, i + 1))
    } else if is_word(s, i, "as"@) {
        match parse_width(s, i + 1) {
            Ok((w, j)) => if j >= s.len() {
                Ok((Some(w), j))
            } else if is_punct(s, j, ';') {
                Ok((Some(w), j + 1))
            } else {
                Err(SolveError::ExtraToken(j as usize))
            },
            Err(e) => Err(e),
        }
    } else {
        Err(SolveError::ExtraToken(i as usize))
    }
}

/// The outputs of a statement and what closes it.
pub open spec fn parse_outputs(s: Seq<Token>, i: int) -> Result<
    ((ParameterOutput, Option<ParameterOutput>, Option<Width>), int),
    SolveError,
> {
    match parse_output(s, i) {
        Err(e) => Err(e),
        Ok((o1, j)) => if is_punct(s, j, ',') {
            match parse_output(s, j + 1) {
                Err(e) => Err(e),
                Ok((o2, k)) => match parse_end(s, k) {
                    Err(e) => Err(e),
                    Ok((w, m)) => Ok(((o1, Some(o2), w), m)),
                },
            }
        } else {
            match parse_end(s, j) {
                Err(e) => Err(e),
                Ok((w, m)) => Ok(((o1, None, w), m)),
            }
        },
    }
}

/// The inputs have distinct kinds, and no output asks for the kind of an input.
pub open spec fn statement_valid(st: Statement) -> bool {
    &&& st.input1.parameter_type != st.input2.parameter_type
    &&& !repeats_input(st.output1, st.input1, st.input2)
    &&& st.output2 matches Some(o) ==> !repeats_input(o, st.input1, st.input2)
}

/// The output asks for the kind of one of the inputs.
pub open spec fn repeats_input(o: ParameterOutput, in1: ParameterInput, in2: ParameterInput) -> bool {
    o.parameter_type == in1.parameter_type || o.parameter_type == in2.parameter_type
}

/// `input ',' input '=>' outputs`, where the three kinds of each output are distinct;
/// a repeated kind is reported at the later of its two places.
pub open spec fn parse_statement(s: Seq<Token>, i: int) -> Result<(Statement, int), SolveError> {
    match parse_input(s, i) {
        Err(e) => Err(e),
        Ok((in1, j)) => if j >= s.len() {
            Err(SolveError::Missing(j as usize))
        } else if !is_punct(s, j, ',') {
            Err(SolveError::Unexpected(j as usize))
        } else {
            match parse_input(s, j + 1) {
                Err(e) => Err(e),
                Ok((in2, k)) => if in2.parameter_type == in1.parameter_type {
                    Err(SolveError::InvalidCombination(in2.kind_at))
                } else { match parse_arrow(s, k) {
                    Err(e) => Err(e),
                    Ok((_, m)) => match parse_outputs(s, m) {
                        Err(e) => Err(e),
                        Ok(((o1, o2, w), n)) => if repeats_input(o1, in1, in2) {
                            Err(SolveError::InvalidCombination(o1.kind_at))
                        } else if o2 matches Some(o) && repeats_input(o, in1, in2) {
                            Err(SolveError::InvalidCombination(o2->Some_0.kind_at))
                        } else { Ok(
                            (
                                Statement {
                                    input1: in1,
                                    input2: in2,
                                    output1: o1,
                                    output2: o2,
                                    width: w,
                                },
                                n,
                            ),
                        ) },
                    },
                } },
            }
        },
    }
}

/// `[ 'use' ['const'] TYPE ';' ]`
pub open spec fn parse_preamble(s: Seq<Token>, i: int) -> Result<(Option<FloatType>, int), SolveError> {
    if !is_word(s, i, "use"@) {
        Ok((None, i))
    } else {
        let c = is_word(s, i + 1, "const"@);
        match parse_width(s, if c { i + 2 } else { i + 1 }) {
            Err(e) => Err(e),
            Ok((w, j)) => if j >= s.len() {
                Err(SolveError::Missing(j as usize))
            } else if is_punct(s, j, ';') {
                Ok((Some(FloatType { is_const: c, width: w }), j + 1))
            } else {
                Err(SolveError::Unexpected(j as usize))
            },
        }
    }
}

/// The statements from position `i` to the end, or the first failure.
pub open spec fn parse_statements(s: Seq<Token>, i: int) -> Result<Seq<Statement>, SolveError>
    decreases s.len() - i,
{
    if i < 0 || i >= s.len() {
        Ok(seq![])
    } else {
        match parse_statement(s, i) {
            Err(e) => Err(e),
            Ok((st, j)) => if j <= i {
                Ok(seq![st])
            } else {
                match parse_statements(s, j) {
                    Err(e) => Err(e),
                    Ok(rest) => Ok(seq![st] + rest),
                }
            },
        }
    }
}

/// A whole block: the preamble, if any, and the statements.
pub open spec fn parse_block_spec(s: Seq<Token>) -> Result<(Option<FloatType>, Seq<Statement>), SolveError> {
    match parse_preamble(s, 0) {
        Err(e) => Err(e),
        Ok((p, i)) => match parse_statements(s, i) {
            Err(e) => Err(e),
            Ok(sts) => Ok((p, sts)),
        },
    }
}

fn punct_at(tokens: &Vec<Token>, i: usize, c: char) -> (r: bool)
    ensures
        r == is_punct(tokens@, i as int, c),
{
    if i < tokens.len() {
        match &tokens[i] {
            Token::Punct(p, _) => *p == c,
            _ => false,
        }
    } else {
        false
    }
}

fn word_at(tokens: &Vec<Token>, i: usize, w: &str) -> (r: bool)
    ensures
        r == is_word(tokens@, i as int, w@),
{
    if i < tokens.len() {
        match &tokens[i] {
            Token::Ident(x) => word_is(x, w),
            _ => false,
        }
    } else {
        false
    }
}

fn kind_word_at(tokens: &Vec<Token>, i: usize) -> (r: Option<ParameterType>)
    ensures
        r == word_kind(tokens@, i as int),
{
    if i < tokens.len() {
        match &tokens[i] {
            Token::Ident(x) => ParameterType::try_from(x),
            _ => None,
        }
    } else {
        None
    }
}

/// Parse a kind at position `i`.
pub fn parse_kind_at(tokens: &Vec<Token>, i: usize) -> (r: Result<(ParameterType, usize), SolveError>)
    requires
        tokens@.len() < usize::MAX,
        i <= tokens@.len() + 1,
    ensures
        answers(r, parse_kind(tokens@, i as int)),
{
    if i >= tokens.len() {
        Err(SolveError::Missing(i))
    } else {
        match kind_word_at(tokens, i) {
            Some(k) => Ok((k, i + 1)),
            None => Err(SolveError::UnknownKind(i)),
        }
    }
}

impl ParameterType {
    /// Parse a kind at position `i`.
    pub fn parse(tokens: &Vec<Token>, i: usize) -> (r: Result<(ParameterType, usize), SolveError>)
        requires
            tokens@.len() < usize::MAX,
            i <= tokens@.len() + 1,
        ensures
            answers(r, parse_kind(tokens@, i as int)),
    {
        parse_kind_at(tokens, i)
    }
}

impl ParameterInput {
    /// Parse an input at position `i`: `KIND GROUP` or `operand ':' KIND`.
    pub fn parse(tokens: &Vec<Token>, i: usize) -> (r: Result<(ParameterInput, usize), SolveError>)
        requires
            tokens@.len() < usize::MAX,
            i <= tokens@.len(),
        ensures
            answers(r, parse_input(tokens@, i as int)),
    {
        if i >= tokens.len() {
            return Err(SolveError::Missing(i));
        }
        let is_ident = match &tokens[i] {
            Token::Punct(_, _) => {
                return Err(SolveError::Unexpected(i));
            },
            Token::Ident(_) => true,
            _ => false,
        };
        if i + 1 >= tokens.len() {
            return Err(SolveError::Missing(i + 1));
        }
        let is_group = match &tokens[i + 1] {
            Token::Group(_) => true,
            _ => false,
        };
        let kind = kind_word_at(tokens, i);
        if kind.is_some() && is_group {
            Ok(
                (
                    ParameterInput {
                        parameter_type: kind.unwrap(),
                        operand: Operand::Value(i + 1),
                        kind_at: i,
                    },
                    i + 2,
                ),
            )
        } else if punct_at(tokens, i + 1, ':') {
            let (k, j) = parse_kind_at(tokens, i + 2)?;
            let operand = if is_ident {
                Operand::Ident(i)
            } else {
                Operand::Value(i)
            };
            Ok((ParameterInput { parameter_type: k, operand, kind_at: i + 2 }, j))
        } else {
            Err(SolveError::Unexpected(i + 1))
        }
    }
}

impl ParameterOutput {
    /// Parse an output at position `i`: `IDENT ':' KIND` or `KIND`.
    pub fn parse(tokens: &Vec<Token>, i: usize) -> (r: Result<(ParameterOutput, usize), SolveError>)
        requires
            tokens@.len() < usize::MAX,
            i <= tokens@.len(),
        ensures
            answers(r, parse_output(tokens@, i as int)),
    {
        if i >= tokens.len() {
            return Err(SolveError::Missing(i));
        }
        let is_ident = match &tokens[i] {
            Token::Ident(_) => true,
            _ => false,
        };
        if is_ident && punct_at(tokens, i + 1, ':') {
            let (k, j) = parse_kind_at(tokens, i + 2)?;
            Ok((ParameterOutput { parameter_type: k, name: Some(i), kind_at: i + 2 }, j))
        } else {
            let (k, j) = parse_kind_at(tokens, i)?;
            Ok((ParameterOutput { parameter_type: k, name: None, kind_at: i }, j))
        }
    }
}

fn parse_arrow_at(tokens: &Vec<Token>, i: usize) -> (r: Result<((), usize), SolveError>)
    requires
        tokens@.len() < usize::MAX,
        i <= tokens@.len(),
    ensures
        answers(r, parse_arrow(tokens@, i as int)),
{
    if i >= tokens.len() {
        return Err(SolveError::Missing(i));
    }
    let joined_equal = match &tokens[i] {
        Token::Punct(c, joint) => *c == '=' && *joint,
        _ => false,
    };
    if joined_equal && punct_at(tokens, i + 1, '>') {
        Ok(((), i + 2))
    } else {
        Err(SolveError::MissingArrow(i))
    }
}

fn parse_width_at(tokens: &Vec<Token>, i: usize) -> (r: Result<(Width, usize), SolveError>)
    requires
        tokens@.len() < usize::MAX,
        i <= tokens@.len() + 1,
    ensures
        answers(r, parse_width(tokens@, i as int)),
{
    if i >= tokens.len() {
        Err(SolveError::Missing(i))
    } else if word_at(tokens, i, "f32") {
        Ok((Width::Bits32, i + 1))
    } else if word_at(tokens, i, "f64") {
        Ok((Width::Bits64, i + 1))
    } else {
        Err(SolveError::UnknownType(i))
    }
}

fn parse_end_at(tokens: &Vec<Token>, i: usize) -> (r: Result<(Option<Width>, usize), SolveError>)
    requires
        tokens@.len() < usize::MAX,
        i <= tokens@.len(),
    ensures
        answers(r, parse_end(tokens@, i as int)),
{
    if i >= tokens.len() {
        Ok((None, i))
    } else if punct_at(tokens, i, ';') {
        Ok((None, i + 1))
    } else if word_at(tokens, i, "as") {
        let (w, j) = parse_width_at(tokens, i + 1)?;
        if j >= tokens.len() {
            Ok((Some(w), j))
        } else if punct_at(tokens, j, ';') {
            Ok((Some(w), j + 1))
        } else {
            Err(SolveError::ExtraToken(j))
        }
    } else {
        Err(SolveError::ExtraToken(i))
    }
}

proof fn lemma_output_bound(s: Seq<Token>, i: int)
    ensures
        parse_output(s, i) matches Ok((_, j)) ==> j <= s.len() && j > i,
{
}

proof fn lemma_input_bound(s: Seq<Token>, i: int)
    ensures
        parse_input(s, i) matches Ok((_, j)) ==> j <= s.len() && j > i,
{
}

proof fn lemma_end_bound(s: Seq<Token>, i: int)
    requires
        i <= s.len(),
    ensures
        parse_end(s, i) matches Ok((_, j)) ==> j <= s.len() && j >= i,
{
}

proof fn lemma_width_bound(s: Seq<Token>, i: int)
    ensures
        parse_width(s, i) matches Ok((_, j)) ==> j <= s.len() && j > i,
{
}

fn parse_outputs_at(tokens: &Vec<Token>, i: usize) -> (r: Result<
    ((ParameterOutput, Option<ParameterOutput>, Option<Width>), usize),
    SolveError,
>)
    requires
        tokens@.len() < usize::MAX,
        i <= tokens@.len(),
    ensures
        answers(r, parse_outputs(tokens@, i as int)),
{
    proof {
        lemma_output_bound(tokens@, i as int);
    }
    let (o1, j) = ParameterOutput::parse(tokens, i)?;
    if punct_at(tokens, j, ',') {
        proof {
            lemma_output_bound(tokens@, j + 1);
        }
        let (o2, k) = ParameterOutput::parse(tokens, j + 1)?;
        let (w, m) = parse_end_at(tokens, k)?;
        Ok(((o1, Some(o2), w), m))
    } else {
        let (w, m) = parse_end_at(tokens, j)?;
        Ok(((o1, None, w), m))
    }
}

impl Statement {
    /// Parse a statement at position `i`: `input, input => output [, output] [as TYPE] [;]`.
    pub fn parse(tokens: &Vec<Token>, i: usize) -> (r: Result<(Statement, usize), SolveError>)
        requires
            tokens@.len() < usize::MAX,
            i <= tokens@.len(),
        ensures
            answers(r, parse_statement(tokens@, i as int)),
    {
        proof {
            lemma_input_bound(tokens@, i as int);
        }
        let (input1, j) = ParameterInput::parse(tokens, i)?;
        if j >= tokens.len() {
            return Err(SolveError::Missing(j));
        }
        if !punct_at(tokens, j, ',') {
            return Err(SolveError::Unexpected(j));
        }
        proof {
            lemma_input_bound(tokens@, j + 1);
        }
        let (input2, k) = ParameterInput::parse(tokens, j + 1)?;
        if input2.parameter_type == input1.parameter_type {
            return Err(SolveError::InvalidCombination(input2.kind_at));
        }
        let (_, m) = parse_arrow_at(tokens, k)?;
        let ((output1, output2, width), n) = parse_outputs_at(tokens, m)?;
        if output1.parameter_type == input1.parameter_type || output1.parameter_type
            == input2.parameter_type {
            return Err(SolveError::InvalidCombination(output1.kind_at));
        }
        if let Some(o) = output2 {
            if o.parameter_type == input1.parameter_type || o.parameter_type == input2.parameter_type {
                return Err(SolveError::InvalidCombination(o.kind_at));
            }
        }
        Ok((Statement { input1, input2, output1, output2, width }, n))
    }
}

proof fn lemma_outputs_bound(s: Seq<Token>, i: int)
    requires
        i <= s.len(),
    ensures
        parse_outputs(s, i) matches Ok((_, j)) ==> j <= s.len() && j > i,
{
    lemma_output_bound(s, i);
    if let Ok((_, j)) = parse_output(s, i) {
        lemma_output_bound(s, j + 1);
        lemma_end_bound(s, j);
        if let Ok((_, k)) = parse_output(s, j + 1) {
            lemma_end_bound(s, k);
        }
    }
}

/// A statement that parses takes at least one token and ends within the tokens.
pub proof fn lemma_statement_advances(s: Seq<Token>, i: int)
    requires
        0 <= i <= s.len(),
    ensures
        parse_statement(s, i) matches Ok((_, j)) ==> i < j <= s.len(),
{
    lemma_input_bound(s, i);
    if let Ok((_, j)) = parse_input(s, i) {
        lemma_input_bound(s, j + 1);
        if let Ok((_, k)) = parse_input(s, j + 1) {
            if let Ok((_, m)) = parse_arrow(s, k) {
                lemma_outputs_bound(s, m);
            }
        }
    }
}

impl FloatType {
    /// Parse the preamble `use [const] TYPE;` at position `i`, if the tokens there begin with `use`.
    pub fn parse(tokens: &Vec<Token>, i: usize) -> (r: Result<(Option<FloatType>, usize), SolveError>)
        requires
            tokens@.len() < usize::MAX,
            i <= tokens@.len(),
        ensures
            answers(r, parse_preamble(tokens@, i as int)),
    {
        if !word_at(tokens, i, "use") {
            return Ok((None, i));
        }
        let is_const = word_at(tokens, i + 1, "const");
        let at = if is_const {
            i + 2
        } else {
            i + 1
        };
        proof {
            lemma_width_bound(tokens@, at as int);
        }
        let (width, j) = parse_width_at(tokens, at)?;
        if j >= tokens.len() {
            Err(SolveError::Missing(j))
        } else if punct_at(tokens, j, ';') {
            Ok((Some(FloatType { is_const, width }), j + 1))
        } else {
            Err(SolveError::Unexpected(j))
        }
    }
}

/// Parse a whole block: the preamble, if any, then every statement to the end of the tokens.
pub fn parse_block(tokens: &Vec<Token>) -> (r: Result<(Option<FloatType>, Vec<Statement>), SolveError>)
    requires
        tokens@.len() < usize::MAX,
    ensures
        match r {
            Ok((p, sts)) => parse_block_spec(tokens@) == Ok::<_, SolveError>((p, sts@)),
            Err(e) => parse_block_spec(tokens@) == Err::<(Option<FloatType>, Seq<Statement>), _>(e),
        },
{
    let ghost s = tokens@;
    let (preamble, start) = match FloatType::parse(tokens, 0) {
        Ok(p) => p,
        Err(e) => {
            return Err(e);
        },
    };
    assert(parse_preamble(s, 0) == Ok::<(Option<FloatType>, int), SolveError>((preamble, start as int)));
    proof {
        if is_word(s, 0, "use"@) {
            let c = is_word(s, 1, "const"@);
            lemma_width_bound(s, if c { 2 } else { 1 });
        }
    }
    let mut statements: Vec<Statement> = Vec::new();
    let mut i: usize = start;
    while i < tokens.len()
        invariant
            s == tokens@,
            s.len() < usize::MAX,
            start <= i <= s.len(),
            parse_preamble(s, 0) == Ok::<(Option<FloatType>, int), SolveError>((preamble, start as int)),
            parse_statements(s, start as int) == match parse_statements(s, i as int) {
                Ok(rest) => Ok::<Seq<Statement>, SolveError>(statements@ + rest),
                Err(e) => Err(e),
            },
        decreases s.len() - i,
    {
        proof {
            lemma_statement_advances(s, i as int);
        }
        let (st, j) = match Statement::parse(tokens, i) {
            Ok(p) => p,
            Err(e) => {
                proof {
                    assert(parse_statements(s, i as int) == Err::<Seq<Statement>, SolveError>(e));
                }
                return Err(e);
            },
        };
        proof {
            match parse_statements(s, j as int) {
                Ok(rest) => {
                    assert(statements@.push(st) + rest =~= statements@ + (seq![st] + rest));
                },
                Err(_) => {},
            }
        }
        statements.push(st);
        i = j;
    }
    proof {
        assert(statements@ + seq![] =~= statements@);
    }
    Ok((preamble, statements))
}

/// A statement whose two inputs have the same kind is rejected, at the kind of the second
/// input, before anything after it is read.
pub proof fn lemma_repeated_input_rejected(s: Seq<Token>, i: int)
    requires
        parse_input(s, i) is Ok,
        is_punct(s, parse_input(s, i)->Ok_0.1, ','),
        parse_input(s, parse_input(s, i)->Ok_0.1 + 1) is Ok,
        parse_input(s, parse_input(s, i)->Ok_0.1 + 1)->Ok_0.0.parameter_type == parse_input(
            s,
            i,
        )->Ok_0.0.parameter_type,
    ensures
        parse_statement(s, i) == Err::<(Statement, int), SolveError>(
            SolveError::InvalidCombination(
                parse_input(s, parse_input(s, i)->Ok_0.1 + 1)->Ok_0.0.kind_at,
            ),
        ),
{
}

/// Every statement that parses has three distinct kinds for each of its outputs.
pub proof fn lemma_statement_kinds_distinct(s: Seq<Token>, i: int)
    ensures
        parse_statement(s, i) matches Ok((st, _)) ==> statement_valid(st),
{
}

} // verus!
