use arcade_jump::kind::ParameterType;
use arcade_jump::lower::{expand, Arg, Call, Evaluation};
use arcade_jump::parse::parse_block;
use arcade_jump::resolver;
use arcade_jump::select::{select_function, Identity};
use arcade_jump::token::{
    Delimiter, FloatType, Operand, ParameterInput, ParameterOutput, SolveError, Statement, Token,
    Width,
};

fn word(w: &str) -> Token {
    Token::Ident(w.to_string())
}

fn group() -> Token {
    Token::Group(Delimiter::Parenthesis)
}

fn punct(c: char) -> Token {
    Token::Punct(c, false)
}

fn arrow() -> Vec<Token> {
    vec![Token::Punct('=', true), Token::Punct('>', false)]
}

/// `A(..), B(..) => `
fn head(a: &str, b: &str) -> Vec<Token> {
    let mut t = vec![word(a), group(), punct(','), word(b), group()];
    t.extend(arrow());
    t
}

const KINDS: [ParameterType; 4] = [
    ParameterType::Height,
    ParameterType::Time,
    ParameterType::Impulse,
    ParameterType::Gravity,
];

#[test]
fn parameter_test_parse_input() {
    let tokens1 = vec![word("Height"), group()];
    let tokens2 = vec![word("Time"), group()];
    let tokens3 = vec![word("Impulse"), group()];
    let tokens4 = vec![word("Gravity"), group()];

    let (my_height, _) = ParameterInput::parse(&tokens1, 0).unwrap();
    let (my_time, _) = ParameterInput::parse(&tokens2, 0).unwrap();
    let (my_impulse, _) = ParameterInput::parse(&tokens3, 0).unwrap();
    let (my_gravity, _) = ParameterInput::parse(&tokens4, 0).unwrap();

    assert_eq!(my_height.get_ident(), "__height");
    assert_eq!(my_time.get_ident(), "__time");
    assert_eq!(my_impulse.get_ident(), "__impulse");
    assert_eq!(my_gravity.get_ident(), "__gravity");
}

#[test]
fn select_test_func_select() {
    // Height(my_height), Time(0.5) => I(3 + 5)
    let tokens1 = vec![word("Height"), group()];
    let tokens2 = vec![word("Time"), group()];
    let tokens3 = vec![word("I"), group()];

    let (my_height, _) = ParameterInput::parse(&tokens1, 0).unwrap();
    let (my_time, _) = ParameterInput::parse(&tokens2, 0).unwrap();
    let (my_impulse, _) = ParameterOutput::parse(&tokens3, 0).unwrap();

    let id = select_function(my_height.get_type(), my_time.get_type(), my_impulse.get_type())
        .unwrap();
    let (first, second) = my_height.get_type().reorder(&my_time.get_type());
    assert_eq!(id.name(), "impulse_from_height_and_time");
    assert_eq!(first.get_ident(), "__height");
    assert_eq!(second.get_ident(), "__time");
}

#[test]
fn dispatcher_is_total_on_distinct_kinds() {
    let mut found = 0;
    for a in KINDS {
        for b in KINDS {
            for c in KINDS {
                let r = select_function(a, b, c);
                if a != b && a != c && b != c {
                    assert!(r.is_some());
                    found += 1;
                } else {
                    assert_eq!(r, None);
                }
            }
        }
    }
    assert_eq!(found, 24);
}

#[test]
fn dispatcher_ignores_input_order() {
    for a in KINDS {
        for b in KINDS {
            for c in KINDS {
                assert_eq!(select_function(a, b, c), select_function(b, a, c));
            }
        }
    }
    assert_eq!(
        select_function(ParameterType::Gravity, ParameterType::Impulse, ParameterType::Time),
        Some(Identity::TimeFromImpulseAndGravity)
    );
}

#[test]
fn kind_words_and_aliases() {
    for (w, k) in [
        ("H", ParameterType::Height),
        ("Height", ParameterType::Height),
        ("T", ParameterType::Time),
        ("Time", ParameterType::Time),
        ("I", ParameterType::Impulse),
        ("Impulse", ParameterType::Impulse),
        ("G", ParameterType::Gravity),
        ("Gravity", ParameterType::Gravity),
    ] {
        assert_eq!(ParameterType::try_from(&w.to_string()), Some(k));
    }
    assert_eq!(ParameterType::try_from(&"V".to_string()), None);
    assert_eq!(ParameterType::try_from(&"height".to_string()), None);
}

#[test]
fn height_time_statement_computes_impulse_and_gravity() {
    // H(h), T(t) => I, G
    let mut tokens = head("H", "T");
    tokens.extend(vec![word("I"), punct(','), word("G")]);
    let (preamble, lowered) = expand(&tokens).unwrap();
    assert_eq!(preamble, None);
    assert_eq!(lowered.len(), 1);
    let plan = &lowered[0];
    assert_eq!(
        plan.evaluations,
        vec![
            Evaluation { parameter_type: ParameterType::Height, operand: 1 },
            Evaluation { parameter_type: ParameterType::Time, operand: 4 },
        ]
    );
    let h = Arg::Fresh(ParameterType::Height);
    let t = Arg::Fresh(ParameterType::Time);
    assert_eq!(
        plan.calls,
        vec![
            Call { identity: Identity::ImpulseFromHeightAndTime, first: h, second: t, target: None },
            Call { identity: Identity::GravityFromHeightAndTime, first: h, second: t, target: None },
        ]
    );
    for (hv, tv) in [(20.0f64, 10.0f64), (3.0, 1.5), (-8.0, 2.0)] {
        let v = resolver::impulse_from_height_and_time(hv, tv).unwrap();
        let g = resolver::gravity_from_height_and_time(hv, tv).unwrap();
        assert_eq!(v, 2.0 * hv / tv);
        assert_eq!(g, -2.0 * hv / (tv * tv));
    }
}

#[test]
fn inputs_are_put_in_canonical_order() {
    // T(t), H(h) => G as f64
    let mut tokens = head("T", "H");
    tokens.extend(vec![word("G"), word("as"), word("f64")]);
    let (_, lowered) = expand(&tokens).unwrap();
    assert_eq!(
        lowered[0].calls,
        vec![Call {
            identity: Identity::GravityFromHeightAndTime,
            first: Arg::Fresh(ParameterType::Height),
            second: Arg::Fresh(ParameterType::Time),
            target: None,
        }]
    );
    let (_, statements) = parse_block(&tokens).unwrap();
    assert_eq!(statements[0].width, Some(Width::Bits64));
}

#[test]
fn repeated_input_kind_is_reported_at_the_second() {
    // H(h), H(h) => V
    let mut tokens = head("H", "H");
    tokens.push(word("V"));
    assert_eq!(expand(&tokens).err(), Some(SolveError::InvalidCombination(3)));
}

#[test]
fn output_repeating_an_input_is_rejected() {
    let mut tokens = head("H", "T");
    tokens.push(word("H"));
    assert_eq!(expand(&tokens).err(), Some(SolveError::InvalidCombination(7)));
    let mut tokens = head("H", "T");
    tokens.extend(vec![word("I"), punct(','), word("T")]);
    assert_eq!(expand(&tokens).err(), Some(SolveError::InvalidCombination(9)));
}

#[test]
fn block_with_preamble_and_named_bindings() {
    // use const f32; my_h: H, 2.0: T => my_v: I; my_v: I, my_h: H => my_g: Gravity;
    let tokens = vec![
        word("use"),
        word("const"),
        word("f32"),
        punct(';'),
        word("my_h"),
        punct(':'),
        word("H"),
        punct(','),
        Token::Literal("2.0".to_string()),
        punct(':'),
        word("T"),
        Token::Punct('=', true),
        punct('>'),
        word("my_v"),
        punct(':'),
        word("I"),
        punct(';'),
        word("my_v"),
        punct(':'),
        word("I"),
        punct(','),
        word("my_h"),
        punct(':'),
        word("H"),
        Token::Punct('=', true),
        punct('>'),
        word("my_g"),
        punct(':'),
        word("Gravity"),
        punct(';'),
    ];
    let (preamble, statements) = parse_block(&tokens).unwrap();
    assert_eq!(preamble, Some(FloatType { is_const: true, width: Width::Bits32 }));
    assert_eq!(statements.len(), 2);
    assert_eq!(
        statements[0],
        Statement {
            input1: ParameterInput {
                parameter_type: ParameterType::Height,
                operand: Operand::Ident(4),
                kind_at: 6,
            },
            input2: ParameterInput {
                parameter_type: ParameterType::Time,
                operand: Operand::Value(8),
                kind_at: 10,
            },
            output1: ParameterOutput {
                parameter_type: ParameterType::Impulse,
                name: Some(13),
                kind_at: 15,
            },
            output2: None,
            width: None,
        }
    );
    let (_, lowered) = expand(&tokens).unwrap();
    assert_eq!(
        lowered[0].evaluations,
        vec![Evaluation { parameter_type: ParameterType::Time, operand: 8 }]
    );
    assert_eq!(
        lowered[1].calls,
        vec![Call {
            identity: Identity::GravityFromHeightAndImpulse,
            first: Arg::Ident(21),
            second: Arg::Ident(17),
            target: Some(26),
        }]
    );
    assert!(lowered[1].evaluations.is_empty());
}

#[test]
fn each_syntax_error_points_at_its_token() {
    // missing output
    assert_eq!(expand(&head("H", "T")).err(), Some(SolveError::Missing(7)));
    // unknown kind
    let mut t = head("H", "T");
    t.push(word("X"));
    assert_eq!(expand(&t).err(), Some(SolveError::UnknownKind(7)));
    // missing comma between inputs
    let t = vec![word("H"), group(), word("T"), group()];
    assert_eq!(expand(&t).err(), Some(SolveError::Unexpected(2)));
    // `=` not joined to `>`
    let t = vec![word("H"), group(), punct(','), word("T"), group(), punct('='), punct('>'), word("I")];
    assert_eq!(expand(&t).err(), Some(SolveError::MissingArrow(5)));
    // extra token after the outputs
    let mut t = head("H", "T");
    t.extend(vec![word("I"), word("G")]);
    assert_eq!(expand(&t).err(), Some(SolveError::ExtraToken(8)));
    // unknown numeric type
    let mut t = head("H", "T");
    t.extend(vec![word("I"), word("as"), word("f16")]);
    assert_eq!(expand(&t).err(), Some(SolveError::UnknownType(9)));
    // a kind that is followed by neither a group nor `:`
    let t = vec![word("H"), punct(',')];
    assert_eq!(expand(&t).err(), Some(SolveError::Unexpected(1)));
}

#[test]
fn later_statements_are_not_read_after_a_failure() {
    let mut t = head("H", "H");
    t.extend(vec![word("I"), punct(';')]);
    t.extend(head("H", "T"));
    t.push(word("Q"));
    assert_eq!(expand(&t).err(), Some(SolveError::InvalidCombination(3)));
}
