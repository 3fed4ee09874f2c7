use stir::blocks::BasicBlock;
use stir::blocks::Block;
use stir::blocks::Boolean;
use stir::blocks::Call;
use stir::blocks::Critical;
use stir::blocks::Function;
use stir::blocks::IfElse;
use stir::blocks::Loop;
use stir::blocks::Number;
use stir::blocks::Primitive;
use stir::blocks::Str;
use stir::label::LabelRegistry;

#[test]
fn boolean_init() {
    let mut reg = LabelRegistry::new();
    let b = Boolean::new(&mut reg, false);

    assert!(!b.get());
}

#[test]
fn test_mut() {
    let mut reg = LabelRegistry::new();
    let mut b = Boolean::new(&mut reg, false);

    assert_eq!(b.get(), false);

    b.set(true);

    assert!(b.get());
}

#[test]
fn boolean_output_literals() {
    let mut reg = LabelRegistry::new();
    let t = Boolean::new(&mut reg, true);
    let f = Boolean::new(&mut reg, false);

    assert_eq!(t.output(), "true");
    assert_eq!(f.output(), "false");
    assert!(t.interpret());
    assert!(!f.interpret());
}

#[test]
fn cond_true() {
    let mut reg = LabelRegistry::new();
    let c = Boolean::new(&mut reg, true);
    let t = Boolean::new(&mut reg, true);
    let f = Boolean::new(&mut reg, false);
    let ie = IfElse::new(
        &mut reg,
        Block::Boolean(c),
        Block::Boolean(t),
        Some(Block::Boolean(f)),
    );

    assert!(ie.interpret());
}

#[test]
fn cond_false() {
    let mut reg = LabelRegistry::new();
    let c = Boolean::new(&mut reg, true);
    let t = Boolean::new(&mut reg, true);
    let f = Boolean::new(&mut reg, false);
    let ie = IfElse::new(
        &mut reg,
        Block::Boolean(c),
        Block::Boolean(t),
        Some(Block::Boolean(f)),
    );

    assert!(ie.interpret());
}

#[test]
fn false_condition_selects_else() {
    let mut reg = LabelRegistry::new();
    let c = Boolean::new(&mut reg, false);
    let t = Boolean::new(&mut reg, false);
    let f = Boolean::new(&mut reg, true);
    let ie = IfElse::new(
        &mut reg,
        Block::Boolean(c),
        Block::Boolean(t),
        Some(Block::Boolean(f)),
    );

    assert!(ie.interpret());
}

#[test]
fn no_else() {
    let mut reg = LabelRegistry::new();
    let c = Boolean::new(&mut reg, true);
    let t = Boolean::new(&mut reg, false);
    let ie = IfElse::new(&mut reg, Block::Boolean(c), Block::Boolean(t), None);

    assert!(!ie.interpret());
}

#[test]
fn false_condition_without_else_is_false() {
    let mut reg = LabelRegistry::new();
    let c = Boolean::new(&mut reg, false);
    let t = Boolean::new(&mut reg, true);
    let ie = IfElse::new(&mut reg, Block::Boolean(c), Block::Boolean(t), None);

    assert!(!ie.interpret());
}

#[test]
fn output_complete() {
    let ie_str = "IF true {\ntrue\n} ELSE {\nfalse\n}\n";

    let mut reg = LabelRegistry::new();
    let c = Boolean::new(&mut reg, true);
    let t = Boolean::new(&mut reg, true);
    let f = Boolean::new(&mut reg, false);
    let ie = IfElse::new(
        &mut reg,
        Block::Boolean(c),
        Block::Boolean(t),
        Some(Block::Boolean(f)),
    );

    assert_eq!(ie_str, ie.output());
}

#[test]
fn output_no_else() {
    let ie_str = "IF true {\nfalse\n}\n";

    let mut reg = LabelRegistry::new();
    let c = Boolean::new(&mut reg, true);
    let t = Boolean::new(&mut reg, false);
    let ie = IfElse::new(&mut reg, Block::Boolean(c), Block::Boolean(t), None);

    assert_eq!(ie_str, ie.output());
}

#[test]
fn test_single_stmt() {
    let mut reg = LabelRegistry::new();
    let b = Boolean::new(&mut reg, false);

    let stmts = vec![Block::Boolean(b)];

    let f = Function::new(&mut reg, None, stmts);

    assert_eq!(f.interpret(), false);
}

#[test]
fn test_multi_stmt() {
    let mut reg = LabelRegistry::new();
    let c = Boolean::new(&mut reg, true);
    let t = Boolean::new(&mut reg, false);
    let f = Boolean::new(&mut reg, true);
    let ie = IfElse::new(
        &mut reg,
        Block::Boolean(c),
        Block::Boolean(t),
        Some(Block::Boolean(f)),
    );

    let other_stmt = Boolean::new(&mut reg, true);

    let stmts = vec![Block::IfElse(Box::new(ie)), Block::Boolean(other_stmt)];

    let f = Function::new(&mut reg, None, stmts);

    assert_eq!(f.interpret(), false);
}

#[test]
fn test_true_stmt() {
    let mut reg = LabelRegistry::new();
    let t = Boolean::new(&mut reg, true);

    let stmts = vec![Block::Boolean(t)];

    let f = Function::new(&mut reg, None, stmts);

    assert!(!f.interpret());
}

#[test]
fn test_args() {
    let mut reg = LabelRegistry::new();
    let arg0 = Boolean::new(&mut reg, false);
    let arg1 = Boolean::new(&mut reg, true);
    let arg2 = Boolean::new(&mut reg, true);

    let l0 = arg0.label().clone();
    let l1 = arg1.label().clone();
    let l2 = arg2.label().clone();

    let args = vec![
        Block::Boolean(arg0),
        Block::Boolean(arg1),
        Block::Boolean(arg2),
    ];

    let no_body: Vec<Block> = vec![];
    let f = Function::new(&mut reg, Some(args), no_body);

    assert_eq!(f.get_arg(0).unwrap().label(), &l0);
    assert_eq!(f.get_arg(1).unwrap().label(), &l1);
    assert_eq!(f.get_arg(2).unwrap().label(), &l2);
}

#[test]
fn get_arg_without_args_is_none() {
    let mut reg = LabelRegistry::new();
    let no_body: Vec<Block> = vec![];
    let f = Function::new(&mut reg, None, no_body);

    assert!(f.get_arg(0).is_none());
}

#[test]
fn test_retval() {
    let mut reg = LabelRegistry::new();
    let true_retval = Boolean::new(&mut reg, true);

    let no_body: Vec<Block> = vec![];

    let mut f = Function::new(&mut reg, None, no_body);
    f.set_retval(Block::Boolean(true_retval));

    assert!(f.interpret());
}

#[test]
fn function_output_names_label() {
    let mut reg = LabelRegistry::new();
    let no_body: Vec<Block> = vec![];
    let f = Function::new(&mut reg, None, no_body);

    assert_eq!(f.output(), format!("FUNCTION {}", f.label()));
    assert_eq!(f.output(), "FUNCTION __function_1");
}

#[test]
fn call_delegates_to_function() {
    let mut reg = LabelRegistry::new();
    let retval = Boolean::new(&mut reg, true);
    let no_body: Vec<Block> = vec![];
    let mut f = Function::new(&mut reg, None, no_body);
    f.set_retval(Block::Boolean(retval));

    let arg = Boolean::new(&mut reg, false);
    let call = Call::new(&mut reg, f, Some(vec![Block::Boolean(arg)]));

    assert!(call.interpret());
}

#[test]
fn call_output_names_function_label() {
    let mut reg = LabelRegistry::new();
    let no_body: Vec<Block> = vec![];
    let f = Function::new(&mut reg, None, no_body);
    let fname = f.label().clone();

    let call = Call::new(&mut reg, f, None);

    assert_eq!(call.output(), format!("CALL {}", fname));
    assert_eq!(call.interpret(), false);
}

#[test]
fn number_nan_is_invalid() {
    let mut reg = LabelRegistry::new();
    let n = Number::new(&mut reg, f64::NAN.to_bits());

    assert_eq!(n.interpret(), false);
}

#[test]
fn number_finite_values_are_valid() {
    let mut reg = LabelRegistry::new();
    for v in [0.0f64, -0.0, 1.0, -1.5, 12.0, f64::MIN, f64::MAX, f64::EPSILON] {
        let n = Number::new(&mut reg, v.to_bits());
        assert!(n.interpret());
    }
}

#[test]
fn number_infinity_is_not_nan() {
    let mut reg = LabelRegistry::new();
    let n = Number::new(&mut reg, f64::INFINITY.to_bits());

    assert!(n.interpret());
}

#[test]
fn number_round_trip() {
    let mut reg = LabelRegistry::new();
    let mut n = Number::new(&mut reg, 12f64.to_bits());

    assert_eq!(f64::from_bits(n.get()), 12f64);

    n.set(13f64.to_bits());
    assert_eq!(f64::from_bits(n.get()), 13f64);
}

#[test]
fn number_output_is_bit_exact_hex() {
    let mut reg = LabelRegistry::new();
    let n = Number::new(&mut reg, 1.0f64.to_bits());

    assert_eq!(n.output(), "0x3FF0000000000000");

    let z = Number::new(&mut reg, 0.0f64.to_bits());
    assert_eq!(z.output(), "0x0000000000000000");
}

#[test]
fn str_empty_is_false() {
    let mut reg = LabelRegistry::new();
    let s = Str::new(&mut reg, String::new());

    assert!(!s.interpret());
}

#[test]
fn str_non_empty_is_true() {
    let mut reg = LabelRegistry::new();
    let s = Str::new(&mut reg, String::from("Clackotte best bot"));

    assert!(s.interpret());
    assert_eq!(s.output(), "Clackotte best bot");
}

#[test]
fn str_round_trip() {
    let mut reg = LabelRegistry::new();
    let mut s = Str::new(&mut reg, String::from("before"));

    assert_eq!(s.get(), "before");

    s.set(String::from("after"));
    assert_eq!(s.get(), "after");
}

#[test]
fn critical_transparency() {
    let mut reg = LabelRegistry::new();
    let b = Boolean::new(&mut reg, true);
    let expected_output = b.output();
    let expected_interpret = b.interpret();
    let expected_label = b.label().clone();

    let crit = Critical::new(&mut reg, Block::Boolean(b));

    assert_eq!(crit.interpret(), expected_interpret);
    assert_eq!(crit.output(), expected_output);
    assert_eq!(crit.label(), &expected_label);
    assert!(crit.is_critical());
}

#[test]
fn non_critical_blocks_stay_non_critical() {
    let mut reg = LabelRegistry::new();
    let non_crit_b = Boolean::new(&mut reg, false);

    let critical_boolean_block = Boolean::new(&mut reg, true);
    let critical_b = Critical::new(&mut reg, Block::Boolean(critical_boolean_block));

    assert!(critical_b.is_critical());
    assert!(!non_crit_b.is_critical());
}

#[test]
fn nested_critical_is_still_transparent() {
    let mut reg = LabelRegistry::new();
    let s = Str::new(&mut reg, String::from("x"));
    let inner = Critical::new(&mut reg, Block::Str(s));
    let outer = Critical::new(&mut reg, Block::Critical(Box::new(inner)));

    assert!(outer.interpret());
    assert_eq!(outer.output(), "x");
    assert!(outer.is_critical());
}

#[test]
fn loop_interprets_successfully() {
    let mut reg = LabelRegistry::new();
    let l = Loop::new(&mut reg, None, None, None);

    assert!(l.interpret());
    assert_eq!(l.output(), "LOOP\n");
}

#[test]
fn loop_renders_bounds_and_body() {
    let mut reg = LabelRegistry::new();
    let lo = Number::new(&mut reg, 0f64.to_bits());
    let hi = Number::new(&mut reg, 1f64.to_bits());
    let body = Boolean::new(&mut reg, true);
    let l = Loop::new(
        &mut reg,
        Some(Block::Number(lo)),
        Some(Block::Number(hi)),
        Some(Block::Boolean(body)),
    );

    assert!(l.interpret());
    assert_eq!(
        l.output(),
        "LOOP FROM 0x0000000000000000 TO 0x3FF0000000000000 {\ntrue\n}\n"
    );
}

#[test]
fn debug_emits_without_panicking() {
    let mut reg = LabelRegistry::new();
    let b = Boolean::new(&mut reg, true);
    b.debug();

    let inner = Boolean::new(&mut reg, false);
    let c = Critical::new(&mut reg, Block::Boolean(inner));
    c.debug();
}
