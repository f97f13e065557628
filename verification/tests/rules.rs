use weblab_interpreter::ast::{
    ArrowBody, AssignOp, BinaryOp, Class, ClassMember, Expr, ImportSpecifier, Lit, Program,
    PropName, Stmt, UnaryOp, UpdateOp,
};
use weblab_interpreter::builtin::iterator::get_iterator;
use weblab_interpreter::ast::{arrow_func_body, trailing_expression};
use weblab_interpreter::environment::ClosedEnvironment;
use weblab_interpreter::error::{ErrorKind, EvalError};
use weblab_interpreter::evaluator::class::{class_property, find_constructor};
use weblab_interpreter::evaluator::expressions::binary::{after_parse, eval_binary_expression};
use weblab_interpreter::evaluator::expressions::unary::{
    eval_minus_operator, eval_not_operator, eval_plus_operator, eval_typeof_operator,
    eval_unary_expression, eval_void_operator,
};
use weblab_interpreter::evaluator::expressions::{assign_operator, update_operator};
use weblab_interpreter::evaluator::find_namespace;
use weblab_interpreter::evaluator::functions::{
    bind_arguments, constructs, new_jsfunction, plan_captures, stack_elements, stack_patterns,
    Binding,
};
use weblab_interpreter::evaluator::objects::{
    check_receiver, create_object_from_entries, get_prop_name, literal_property, KeyPlan,
};
use weblab_interpreter::evaluator::statements::decl::{completion, element_or_undefined, rest_elements};
use weblab_interpreter::evaluator::statements::{loop_signal, thrown};
use weblab_interpreter::host::{ArithOp, Capture, Flags, HostClass, HostRequest, Slot};
use weblab_interpreter::hygiene::{
    contains_name, get_variable_names, hygienic_name, hygienic_names, order_of, parameter_list,
    sort_dedup, strip_hygiene, Order,
};
use weblab_interpreter::js::import;
use weblab_interpreter::machine::{DeclOrAssign, Delivery, Pending};
use weblab_interpreter::number::{
    number_equal, number_is_nan, number_is_truthy, number_is_zero, number_less_than,
    number_negate, NAN_BITS, ONE_BITS, ZERO_BITS,
};
use weblab_interpreter::operation::{AfterParse, Outcome};
use weblab_interpreter::store::Store;
use weblab_interpreter::text::{concat_text, has_prefix};
use weblab_interpreter::value::{Output, Value};

fn number(x: f64) -> Value {
    Value::Number(x.to_bits())
}

fn text(s: &str) -> Value {
    Value::String(s.to_string())
}

fn result_of(op: BinaryOp, left: &Value, right: &Value) -> Value {
    match eval_binary_expression(op, left, right) {
        Ok(Outcome::Value(v)) => v,
        other => panic!("no result: {:?}", other),
    }
}

fn truth(op: BinaryOp, left: &Value, right: &Value) -> bool {
    match result_of(op, left, right) {
        Value::Bool(b) => b,
        other => panic!("no boolean: {:?}", other),
    }
}

fn kind_of_failure(op: BinaryOp, left: &Value, right: &Value) -> ErrorKind {
    eval_binary_expression(op, left, right).unwrap_err().kind
}

const SAMPLES: [f64; 16] = [
    0.0,
    -0.0,
    1.0,
    -1.0,
    0.5,
    -0.5,
    1e300,
    -1e300,
    5e-324,
    -5e-324,
    f64::MAX,
    f64::MIN,
    f64::INFINITY,
    f64::NEG_INFINITY,
    f64::NAN,
    3.141592653589793,
];

#[test]
fn numbers_compare_as_doubles_do() {
    for a in SAMPLES {
        for b in SAMPLES {
            assert_eq!(number_less_than(a.to_bits(), b.to_bits()), a < b, "{} < {}", a, b);
            assert_eq!(number_equal(a.to_bits(), b.to_bits()), a == b, "{} == {}", a, b);
        }
        assert_eq!(number_is_nan(a.to_bits()), a.is_nan());
        assert_eq!(number_is_zero(a.to_bits()), a == 0.0);
        assert_eq!(number_is_truthy(a.to_bits()), !(a.is_nan() || a == 0.0));
        assert_eq!(number_negate(a.to_bits()), (-a).to_bits());
    }
    assert!(number_is_nan(NAN_BITS));
    assert!(number_is_nan((-f64::NAN).to_bits()));
    assert_eq!(f64::from_bits(ONE_BITS), 1.0);
    assert_eq!(f64::from_bits(ZERO_BITS), 0.0);
}

#[test]
fn the_four_comparisons_agree_with_doubles() {
    for a in SAMPLES {
        for b in SAMPLES {
            let (l, r) = (number(a), number(b));
            assert_eq!(truth(BinaryOp::Lt, &l, &r), a < b);
            assert_eq!(truth(BinaryOp::LtEq, &l, &r), a <= b);
            assert_eq!(truth(BinaryOp::Gt, &l, &r), a > b);
            assert_eq!(truth(BinaryOp::GtEq, &l, &r), a >= b);
            assert_eq!(truth(BinaryOp::EqEq, &l, &r), a == b);
            assert_eq!(truth(BinaryOp::NotEq, &l, &r), a != b);
            assert_eq!(truth(BinaryOp::EqEqEq, &l, &r), a == b);
            assert_eq!(truth(BinaryOp::NotEqEq, &l, &r), a != b);
        }
    }
}

#[test]
fn arithmetic_on_numbers_is_left_to_the_host() {
    let ops = [
        (BinaryOp::Add, ArithOp::Add),
        (BinaryOp::Sub, ArithOp::Sub),
        (BinaryOp::Mul, ArithOp::Mul),
        (BinaryOp::Div, ArithOp::Div),
        (BinaryOp::Mod, ArithOp::Mod),
        (BinaryOp::Exp, ArithOp::Exp),
        (BinaryOp::LShift, ArithOp::LShift),
        (BinaryOp::RShift, ArithOp::RShift),
        (BinaryOp::ZeroFillRShift, ArithOp::ZeroFillRShift),
        (BinaryOp::BitAnd, ArithOp::BitAnd),
        (BinaryOp::BitOr, ArithOp::BitOr),
        (BinaryOp::BitXor, ArithOp::BitXor),
    ];
    for (op, expected) in ops {
        match eval_binary_expression(op, &number(6.0), &number(3.0)) {
            Ok(Outcome::Arith { op, left, right }) => {
                assert_eq!(op, expected);
                assert_eq!(left, 6f64.to_bits());
                assert_eq!(right, 3f64.to_bits());
            }
            other => panic!("{:?}", other),
        }
    }
}

#[test]
fn a_string_beside_a_number_is_parsed_and_keeps_its_side() {
    for op in [BinaryOp::Add, BinaryOp::Sub, BinaryOp::Mul, BinaryOp::Div, BinaryOp::Mod] {
        for (l, r, on_left) in [(text("3"), number(1.0), true), (number(1.0), text("3"), false)] {
            match eval_binary_expression(op, &l, &r) {
                Ok(Outcome::Parse { text, then: AfterParse::Arith { other, text_on_left, .. } }) => {
                    assert_eq!(text, "3");
                    assert_eq!(other, 1f64.to_bits());
                    assert_eq!(text_on_left, on_left);
                }
                other => panic!("{:?}", other),
            }
        }
    }
    let then = AfterParse::Arith { op: ArithOp::Sub, other: 1f64.to_bits(), text_on_left: true };
    match after_parse(then, Some(3f64.to_bits())) {
        Ok(Outcome::Arith { op: ArithOp::Sub, left, right }) => {
            assert_eq!(f64::from_bits(left) - f64::from_bits(right), 2.0);
        }
        other => panic!("{:?}", other),
    }
    let then = AfterParse::Arith { op: ArithOp::Sub, other: 5f64.to_bits(), text_on_left: false };
    match after_parse(then, Some(3f64.to_bits())) {
        Ok(Outcome::Arith { op: ArithOp::Sub, left, right }) => {
            assert_eq!(f64::from_bits(left) - f64::from_bits(right), 2.0);
        }
        other => panic!("{:?}", other),
    }
    let then = AfterParse::Arith { op: ArithOp::Add, other: 1f64.to_bits(), text_on_left: true };
    match after_parse(then, None) {
        Ok(Outcome::Arith { left, .. }) => assert!(f64::from_bits(left).is_nan()),
        other => panic!("{:?}", other),
    }
    let then = AfterParse::Arith { op: ArithOp::Add, other: 1f64.to_bits(), text_on_left: false };
    match after_parse(then, None) {
        Ok(Outcome::Arith { right, .. }) => assert!(f64::from_bits(right).is_nan()),
        other => panic!("{:?}", other),
    }
    match after_parse(AfterParse::Equal { other: 3f64.to_bits(), negate: false }, Some(3f64.to_bits())) {
        Ok(Outcome::Value(Value::Bool(true))) => {}
        other => panic!("{:?}", other),
    }
    match after_parse(AfterParse::Equal { other: 3f64.to_bits(), negate: true }, Some(3f64.to_bits())) {
        Ok(Outcome::Value(Value::Bool(false))) => {}
        other => panic!("{:?}", other),
    }
    assert_eq!(
        after_parse(AfterParse::Equal { other: 0, negate: false }, None).unwrap_err().kind,
        ErrorKind::Type
    );
}

#[test]
fn operators_refuse_operands_they_do_not_take() {
    let o = Value::Object(1);
    assert_eq!(kind_of_failure(BinaryOp::Add, &o, &number(1.0)), ErrorKind::Type);
    assert_eq!(kind_of_failure(BinaryOp::Add, &Value::Bool(true), &number(1.0)), ErrorKind::Type);
    assert_eq!(kind_of_failure(BinaryOp::Sub, &text("a"), &text("b")), ErrorKind::Type);
    assert_eq!(kind_of_failure(BinaryOp::Exp, &text("2"), &number(2.0)), ErrorKind::Type);
    assert_eq!(kind_of_failure(BinaryOp::Lt, &text("a"), &number(1.0)), ErrorKind::Type);
    assert_eq!(kind_of_failure(BinaryOp::LogicalAnd, &number(1.0), &Value::Bool(true)), ErrorKind::Type);
    assert_eq!(kind_of_failure(BinaryOp::LogicalOr, &o, &Value::Bool(true)), ErrorKind::Type);
    assert_eq!(kind_of_failure(BinaryOp::BitAnd, &text("1"), &number(1.0)), ErrorKind::Type);
    assert_eq!(kind_of_failure(BinaryOp::In, &text("a"), &o), ErrorKind::Type);
    assert_eq!(kind_of_failure(BinaryOp::InstanceOf, &o, &Value::Null), ErrorKind::Type);
    assert_eq!(kind_of_failure(BinaryOp::EqEq, &o, &number(1.0)), ErrorKind::Type);
    assert_eq!(kind_of_failure(BinaryOp::NotEq, &Value::Null, &number(1.0)), ErrorKind::Type);
}

#[test]
fn modulo_gives_nan_where_the_other_operators_fail() {
    match result_of(BinaryOp::Mod, &Value::Object(1), &Value::Null) {
        Value::Number(bits) => assert!(f64::from_bits(bits).is_nan()),
        other => panic!("{:?}", other),
    }
}

#[test]
fn loose_equality_coerces_booleans_to_numbers() {
    assert!(truth(BinaryOp::EqEq, &Value::Bool(true), &number(1.0)));
    assert!(truth(BinaryOp::EqEq, &number(0.0), &Value::Bool(false)));
    assert!(truth(BinaryOp::EqEq, &number(-0.0), &Value::Bool(false)));
    assert!(!truth(BinaryOp::EqEq, &Value::Bool(true), &number(2.0)));
    assert!(truth(BinaryOp::NotEq, &Value::Bool(true), &number(2.0)));
    assert!(truth(BinaryOp::EqEq, &text("a"), &text("a")));
    assert!(!truth(BinaryOp::EqEq, &text("a"), &text("b")));
    assert!(truth(BinaryOp::EqEq, &Value::Null, &Value::Null));
    assert!(truth(BinaryOp::EqEq, &Value::Undefined, &Value::Undefined));
    assert!(!truth(BinaryOp::NotEq, &Value::Null, &Value::Undefined));
}

#[test]
fn strict_equality_never_fails() {
    let values = [
        number(1.0),
        Value::Bool(true),
        text("1"),
        Value::Null,
        Value::Undefined,
        Value::Function(0),
        Value::Symbol(3),
        Value::BigInt(4),
    ];
    for (i, a) in values.iter().enumerate() {
        for (j, b) in values.iter().enumerate() {
            assert_eq!(truth(BinaryOp::EqEqEq, a, b), i == j && i < 5, "{:?} === {:?}", a, b);
            assert_eq!(truth(BinaryOp::NotEqEq, a, b), !(i == j && i < 5));
        }
    }
    for (a, b) in [(Value::Object(1), Value::Object(2)), (Value::JsFunction(1), Value::Object(1))] {
        match eval_binary_expression(BinaryOp::EqEqEq, &a, &b) {
            Ok(Outcome::SameObject { negate: false, .. }) => {}
            other => panic!("{:?}", other),
        }
        match eval_binary_expression(BinaryOp::NotEq, &a, &b) {
            Ok(Outcome::SameObject { negate: true, .. }) => {}
            other => panic!("{:?}", other),
        }
    }
}

#[test]
fn or_returns_an_operand_and_and_a_boolean() {
    assert!(matches!(result_of(BinaryOp::LogicalOr, &number(0.0), &text("x")), Value::String(s) if s == "x"));
    assert!(matches!(result_of(BinaryOp::LogicalOr, &number(f64::NAN), &number(2.0)), Value::Number(b) if b == 2f64.to_bits()));
    assert!(matches!(result_of(BinaryOp::LogicalOr, &number(3.0), &text("x")), Value::Number(b) if b == 3f64.to_bits()));
    assert!(matches!(result_of(BinaryOp::LogicalOr, &text(""), &Value::Null), Value::Null));
    assert!(matches!(result_of(BinaryOp::LogicalOr, &text("a"), &Value::Null), Value::String(s) if s == "a"));
    assert!(matches!(result_of(BinaryOp::LogicalOr, &Value::Null, &Value::Object(5)), Value::Object(5)));
    assert!(matches!(result_of(BinaryOp::LogicalOr, &Value::Undefined, &Value::Bool(false)), Value::Bool(false)));
    assert!(matches!(result_of(BinaryOp::LogicalOr, &Value::Bool(true), &number(1.0)), Value::Bool(true)));
    assert!(truth(BinaryOp::LogicalAnd, &Value::Bool(true), &Value::Bool(true)));
    assert!(!truth(BinaryOp::LogicalAnd, &Value::Bool(true), &Value::Bool(false)));
}

#[test]
fn nullish_coalescing_returns_the_right_operand_for_null_and_undefined() {
    assert!(matches!(result_of(BinaryOp::NullishCoalescing, &Value::Null, &number(1.0)), Value::Number(_)));
    assert!(matches!(result_of(BinaryOp::NullishCoalescing, &Value::Undefined, &text("d")), Value::String(_)));
    assert!(matches!(result_of(BinaryOp::NullishCoalescing, &number(0.0), &text("d")), Value::Number(_)));
    assert!(matches!(result_of(BinaryOp::NullishCoalescing, &Value::Bool(false), &text("d")), Value::Bool(false)));
}

#[test]
fn in_and_instanceof_ask_the_host() {
    match eval_binary_expression(BinaryOp::In, &Value::Object(7), &text("k")) {
        Ok(Outcome::HasProperty { object: Value::Object(7), key: Value::String(k) }) => assert_eq!(k, "k"),
        other => panic!("{:?}", other),
    }
    let cases = [
        (Value::Bool(true), HostClass::Boolean),
        (number(1.0), HostClass::Number),
        (text(""), HostClass::String),
        (Value::Object(1), HostClass::Object),
        (Value::JsFunction(1), HostClass::Function),
    ];
    for (right, expected) in cases {
        match eval_binary_expression(BinaryOp::InstanceOf, &Value::Object(9), &right) {
            Ok(Outcome::InstanceOf { value: Value::Object(9), class }) => assert_eq!(class, expected),
            other => panic!("{:?}", other),
        }
    }
}

#[test]
fn the_unary_operators() {
    assert!(matches!(eval_not_operator(&Value::Bool(true)), Ok(Value::Bool(false))));
    assert!(matches!(eval_not_operator(&number(0.0)), Ok(Value::Bool(true))));
    assert!(matches!(eval_not_operator(&number(2.0)), Ok(Value::Bool(false))));
    assert!(matches!(eval_not_operator(&number(f64::NAN)), Ok(Value::Bool(true))));
    assert!(matches!(eval_not_operator(&text("")), Ok(Value::Bool(true))));
    assert!(matches!(eval_not_operator(&text("a")), Ok(Value::Bool(false))));
    assert!(matches!(eval_not_operator(&Value::Null), Ok(Value::Bool(true))));
    assert!(matches!(eval_not_operator(&Value::Undefined), Ok(Value::Bool(true))));
    assert!(matches!(eval_not_operator(&Value::Object(1)), Ok(Value::Bool(false))));
    assert_eq!(eval_not_operator(&Value::Symbol(1)).unwrap_err().kind, ErrorKind::Type);

    assert!(matches!(eval_minus_operator(&number(2.5)), Ok(Value::Number(b)) if f64::from_bits(b) == -2.5));
    assert_eq!(eval_minus_operator(&text("1")).unwrap_err().kind, ErrorKind::Type);

    assert!(matches!(eval_plus_operator(&Value::Bool(true)), Ok(Outcome::Value(Value::Number(b))) if f64::from_bits(b) == 1.0));
    assert!(matches!(eval_plus_operator(&Value::Bool(false)), Ok(Outcome::Value(Value::Number(b))) if f64::from_bits(b) == 0.0));
    assert!(matches!(eval_plus_operator(&Value::Null), Ok(Outcome::Value(Value::Number(b))) if f64::from_bits(b) == 0.0));
    assert!(matches!(eval_plus_operator(&Value::Undefined), Ok(Outcome::Value(Value::Number(b))) if f64::from_bits(b).is_nan()));
    assert!(matches!(eval_plus_operator(&text("12")), Ok(Outcome::ToNumber(s)) if s == "12"));
    assert_eq!(eval_plus_operator(&Value::Object(1)).unwrap_err().kind, ErrorKind::Type);

    let kinds = [
        (Value::Bool(true), "boolean"),
        (number(1.0), "number"),
        (Value::Null, "object"),
        (Value::Undefined, "undefined"),
        (text("s"), "string"),
        (Value::Object(1), "object"),
        (Value::Function(0), "function"),
        (Value::JsFunction(1), "function"),
        (Value::Symbol(1), "symbol"),
        (Value::BigInt(1), "bigint"),
    ];
    for (value, expected) in kinds {
        assert!(matches!(eval_typeof_operator(&value), Ok(Value::String(s)) if s == expected));
    }
    assert!(matches!(eval_void_operator(&number(1.0)), Ok(Value::Undefined)));
    assert!(matches!(eval_unary_expression(UnaryOp::Void, &text("x")), Ok(Outcome::Value(Value::Undefined))));
    assert!(matches!(eval_unary_expression(UnaryOp::Bang, &Value::Null), Ok(Outcome::Value(Value::Bool(true)))));
    assert_eq!(eval_unary_expression(UnaryOp::Tilde, &number(1.0)).unwrap_err().kind, ErrorKind::Syntax);
    assert_eq!(eval_unary_expression(UnaryOp::Delete, &number(1.0)).unwrap_err().kind, ErrorKind::Syntax);
    assert_eq!(eval_unary_expression(UnaryOp::Minus, &Value::Null).unwrap_err().kind, ErrorKind::Type);
}

#[test]
fn truthiness_of_values() {
    assert_eq!(Value::Bool(false).is_truthy(), Some(false));
    assert_eq!(number(0.0).is_truthy(), Some(false));
    assert_eq!(number(-0.0).is_truthy(), Some(false));
    assert_eq!(number(f64::NAN).is_truthy(), Some(false));
    assert_eq!(number(0.1).is_truthy(), Some(true));
    assert_eq!(text("").is_truthy(), Some(false));
    assert_eq!(text("0").is_truthy(), Some(true));
    assert_eq!(Value::Null.is_truthy(), Some(false));
    assert_eq!(Value::Undefined.is_truthy(), Some(false));
    assert_eq!(Value::Object(1).is_truthy(), Some(true));
    assert_eq!(Value::Function(1).is_truthy(), Some(true));
    assert_eq!(Value::BigInt(1).is_truthy(), None);
    assert!(Value::Bool(true).is_true());
    assert!(!number(1.0).is_true());
}

#[test]
fn values_are_shown_as_text_or_by_the_host() {
    assert!(matches!(Value::Bool(true).output(), Output::Text(s) if s == "true"));
    assert!(matches!(Value::Bool(false).output(), Output::Text(s) if s == "false"));
    assert!(matches!(Value::Null.output(), Output::Text(s) if s == "null"));
    assert!(matches!(Value::Undefined.output(), Output::Text(s) if s == "undefined"));
    assert!(matches!(text("hi").output(), Output::Text(s) if s == "hi"));
    assert!(matches!(number(1.0).output(), Output::Host(Value::Number(_))));
    assert!(matches!(Value::Object(3).output(), Output::Host(Value::Object(3))));
    assert!(matches!(Value::text("a"), Value::String(s) if s == "a"));
}

#[test]
fn compound_assignments_apply_the_binary_operators() {
    let table = [
        (AssignOp::Assign, None),
        (AssignOp::AddAssign, Some(BinaryOp::Add)),
        (AssignOp::SubAssign, Some(BinaryOp::Sub)),
        (AssignOp::MulAssign, Some(BinaryOp::Mul)),
        (AssignOp::DivAssign, Some(BinaryOp::Div)),
        (AssignOp::ModAssign, Some(BinaryOp::Mod)),
        (AssignOp::LShiftAssign, Some(BinaryOp::LShift)),
        (AssignOp::RShiftAssign, Some(BinaryOp::RShift)),
        (AssignOp::ZeroFillRShiftAssign, Some(BinaryOp::ZeroFillRShift)),
        (AssignOp::BitOrAssign, Some(BinaryOp::BitOr)),
        (AssignOp::BitXorAssign, Some(BinaryOp::BitXor)),
        (AssignOp::BitAndAssign, Some(BinaryOp::BitAnd)),
        (AssignOp::ExpAssign, Some(BinaryOp::Exp)),
        (AssignOp::AndAssign, Some(BinaryOp::LogicalAnd)),
        (AssignOp::OrAssign, Some(BinaryOp::LogicalOr)),
        (AssignOp::NullishAssign, Some(BinaryOp::NullishCoalescing)),
    ];
    for (op, expected) in table {
        assert_eq!(assign_operator(op), expected);
    }
    assert_eq!(update_operator(UpdateOp::PlusPlus), BinaryOp::Add);
    assert_eq!(update_operator(UpdateOp::MinusMinus), BinaryOp::Sub);
}

#[test]
fn arguments_bind_exactly_or_with_an_implicit_rest() {
    assert_eq!(bind_arguments(2, 2), Binding::Exact);
    assert_eq!(bind_arguments(0, 0), Binding::Exact);
    assert_eq!(bind_arguments(2, 5), Binding::Rest { positional: 1 });
    assert_eq!(bind_arguments(1, 2), Binding::Rest { positional: 0 });
    assert_eq!(bind_arguments(2, 1), Binding::TooFew);
    assert_eq!(bind_arguments(0, 1), Binding::NoParameter);
    assert!(constructs(2, 2));
    assert!(!constructs(2, 3));
    assert!(!constructs(2, 1));
}

#[test]
fn hygienic_names_carry_the_prefix() {
    assert_eq!(hygienic_name("x"), "weblab_x");
    assert_eq!(hygienic_names(&vec!["a".to_string(), "b".to_string()]), vec!["weblab_a", "weblab_b"]);
    assert_eq!(strip_hygiene("weblab_x"), Some("x".to_string()));
    assert_eq!(strip_hygiene("weblab_"), Some(String::new()));
    assert_eq!(strip_hygiene("weblab"), None);
    assert_eq!(strip_hygiene("x_weblab_y"), None);
    assert_eq!(parameter_list(&vec![]), "");
    assert_eq!(parameter_list(&vec!["a".to_string()]), "a");
    assert_eq!(parameter_list(&vec!["a".to_string(), "b".to_string(), "c".to_string()]), "a,b,c");
    assert!(contains_name(&vec!["a".to_string(), "b".to_string()], "b"));
    assert!(!contains_name(&vec!["a".to_string(), "b".to_string()], "ab"));
}

#[test]
fn the_identifiers_of_a_text_are_found_sorted_and_once() {
    let found = get_variable_names(
        "return weblab_b + weblab_a * weblab_b - other.weblab_$x + weblab_9 + 'weblab_' + weblab__1;",
    )
    .unwrap();
    assert_eq!(found, vec!["weblab_$x", "weblab__1", "weblab_a", "weblab_b"]);
    assert_eq!(get_variable_names("no identifiers here").unwrap(), Vec::<String>::new());
    assert_eq!(get_variable_names("").unwrap(), Vec::<String>::new());
}

#[test]
fn texts_are_ordered_by_their_characters() {
    assert_eq!(order_of("a", "b"), Order::Before);
    assert_eq!(order_of("b", "a"), Order::After);
    assert_eq!(order_of("a", "a"), Order::Same);
    assert_eq!(order_of("", ""), Order::Same);
    assert_eq!(order_of("", "a"), Order::Before);
    assert_eq!(order_of("ab", "a"), Order::After);
    assert_eq!(order_of("Z", "a"), Order::Before);
    assert_eq!(order_of("é", "z"), Order::After);
    let mut names: Vec<String> =
        ["pear", "apple", "fig", "apple", "Fig", "", "pear", "applesauce"].iter().map(|s| s.to_string()).collect();
    let sorted = sort_dedup(&names);
    names.sort();
    names.dedup();
    assert_eq!(sorted, names);
}

#[test]
fn captures_are_planned_from_the_identifiers_of_the_body() {
    let mut store = Store::new();
    let mut env = ClosedEnvironment::new();
    let k = store.allocate(number(5.0));
    env.insert("k", k);
    env.insert("a", store.allocate(number(6.0)));
    env.insert("globalThis", store.allocate(Value::Object(1)));
    let names: Vec<String> =
        ["weblab_Math", "weblab_a", "weblab_k", "weblab_other", "plain"].iter().map(|s| s.to_string()).collect();
    let params = vec!["weblab_a".to_string()];
    let pairs = plan_captures(&names, &params, &env, &store).unwrap();
    assert_eq!(pairs.len(), 2);
    assert_eq!(pairs[0].0, "weblab_Math");
    assert!(matches!(&pairs[0].1, Capture::Global(name) if name == "Math"));
    assert_eq!(pairs[1].0, "weblab_k");
    assert!(matches!(&pairs[1].1, Capture::Value(Value::Number(b)) if f64::from_bits(*b) == 5.0));

    let request = new_jsfunction(
        &vec!["a".to_string()],
        "return weblab_a + weblab_k + weblab_Math.PI;",
        &env,
        &store,
    )
    .unwrap();
    match request {
        HostRequest::Compile { params, captures, body } => {
            assert_eq!(params, vec!["weblab_Math", "weblab_k", "weblab_a"]);
            assert_eq!(captures.len(), 2);
            assert_eq!(body, "return weblab_a + weblab_k + weblab_Math.PI;");
        }
        other => panic!("{:?}", other),
    }

    let mut dangling = ClosedEnvironment::new();
    dangling.insert("k", 99);
    let error = new_jsfunction(&vec![], "weblab_k", &dangling, &store).unwrap_err();
    assert_eq!(error.kind, ErrorKind::Protocol);
}

#[test]
fn module_specifiers_become_addresses() {
    assert_eq!(import("lodash"), "https://cdn.skypack.dev/lodash");
    assert_eq!(import("https://cdn.skypack.dev/lodash"), "https://cdn.skypack.dev/lodash");
    assert_eq!(import("https://cdn.jsdelivr.net/npm/x"), "https://cdn.jsdelivr.net/npm/x");
    assert_eq!(import("https://example.org/x"), "https://cdn.skypack.dev/https://example.org/x");
    assert_eq!(import(""), "https://cdn.skypack.dev/");
    assert!(has_prefix("abc", "ab"));
    assert!(has_prefix("abc", ""));
    assert!(!has_prefix("ab", "abc"));
    assert!(!has_prefix("abc", "b"));
    assert_eq!(concat_text("ab", "cd"), "abcd");
}

#[test]
fn property_names_and_receivers() {
    assert!(matches!(get_prop_name(&PropName::Ident("a".to_string())), KeyPlan::Ready(Value::String(s)) if s == "a"));
    assert!(matches!(get_prop_name(&PropName::Str("b c".to_string())), KeyPlan::Ready(Value::String(s)) if s == "b c"));
    assert!(matches!(get_prop_name(&PropName::Num(2f64.to_bits())), KeyPlan::Ready(Value::Number(b)) if f64::from_bits(b) == 2.0));
    assert!(matches!(get_prop_name(&PropName::Computed(7)), KeyPlan::Eval(7)));
    assert!(matches!(get_prop_name(&PropName::BigInt), KeyPlan::Unsupported));
    assert!(check_receiver(&Value::Object(1)).is_ok());
    assert!(check_receiver(&Value::JsFunction(1)).is_ok());
    assert_eq!(check_receiver(&Value::Undefined).unwrap_err().kind, ErrorKind::Reference);
    assert_eq!(check_receiver(&Value::Null).unwrap_err().kind, ErrorKind::Type);
    assert_eq!(check_receiver(&number(1.0)).unwrap_err().kind, ErrorKind::Type);
    assert_eq!(check_receiver(&Value::Function(0)).unwrap_err().kind, ErrorKind::Type);
}

#[test]
fn properties_carry_the_attributes_of_their_place() {
    assert_eq!(Flags::literal(), Flags { configurable: true, enumerable: true, writable: true });
    assert_eq!(Flags::accessor(), Flags { configurable: true, enumerable: true, writable: false });
    assert_eq!(Flags::member(), Flags { configurable: false, enumerable: true, writable: true });
    assert_eq!(Flags::link(), Flags { configurable: false, enumerable: false, writable: false });
    assert_eq!(Flags::module(), Flags { configurable: true, enumerable: true, writable: false });
    let p = literal_property(text("k"), Slot::Value(number(1.0)));
    assert_eq!(p.descriptor.flags, Flags::literal());
    let g = literal_property(text("k"), Slot::Getter(Value::Function(0)));
    assert_eq!(g.descriptor.flags, Flags::accessor());
    let m = class_property(true, text("m"), Value::JsFunction(4));
    assert!(m.on_constructor);
    assert_eq!(m.property.descriptor.flags, Flags::member());
    match create_object_from_entries(vec![(text("a"), number(1.0)), (text("b"), Value::Null)]) {
        HostRequest::CreateObject { prototype: None, properties } => {
            assert_eq!(properties.len(), 2);
            assert!(matches!(&properties[0].key, Value::String(s) if s == "a"));
            assert!(matches!(&properties[1].descriptor.slot, Slot::Value(Value::Null)));
            assert_eq!(properties[1].descriptor.flags, Flags::literal());
        }
        other => panic!("{:?}", other),
    }
    assert!(matches!(get_iterator(Value::Object(3)), HostRequest::GetIterator(Value::Object(3))));
}

#[test]
fn pieces_of_patterns_and_loops() {
    let values = vec![number(1.0), number(2.0), number(3.0)];
    assert_eq!(rest_elements(&values, 1).len(), 2);
    assert_eq!(rest_elements(&values, 3).len(), 0);
    assert_eq!(rest_elements(&values, 4).len(), 0);
    assert!(matches!(rest_elements(&values, 2)[0], Value::Number(b) if f64::from_bits(b) == 3.0));
    assert!(matches!(element_or_undefined(&values, 0), Value::Number(_)));
    assert!(matches!(element_or_undefined(&values, 3), Value::Undefined));
    assert!(matches!(completion(DeclOrAssign::Decl, number(1.0)), Value::Undefined));
    assert!(matches!(completion(DeclOrAssign::Assign, number(1.0)), Value::Number(_)));
    assert_eq!(loop_signal(&Delivery::Value(Value::Null)), Some(true));
    assert_eq!(loop_signal(&Delivery::Continue), Some(true));
    assert_eq!(loop_signal(&Delivery::Break), Some(false));
    assert_eq!(loop_signal(&Delivery::Nothing), None);
    let e: EvalError = thrown("boom");
    assert_eq!(e.kind, ErrorKind::Thrown);
    assert_eq!(e.message(), "boom");
    assert_eq!(e.clone().message, e.message);
    assert_eq!(EvalError::with_detail(ErrorKind::Type, "a", "b").message, "ab");
    let mut pending = vec![Pending::Pat(9)];
    stack_patterns(&mut pending, &vec![1, 2, 3]);
    assert_eq!(pending, vec![Pending::Pat(9), Pending::Pat(3), Pending::Pat(2), Pending::Pat(1)]);
    let mut pending = Vec::new();
    stack_elements(&mut pending, &vec![Some(1), None, Some(3)]);
    assert_eq!(pending, vec![Pending::Pat(3), Pending::Pat(1)]);
}

#[test]
fn pieces_of_the_program() {
    let mut program = Program::new();
    let e = program.add_expr(Expr::Lit(Lit::Null));
    let block = arrow_func_body(&mut program, ArrowBody::Expr(e));
    assert_eq!(program.block(block).unwrap().len(), 1);
    let stmt = program.block(block).unwrap()[0];
    assert!(matches!(program.stmt(stmt), Some(Stmt::Expr(x)) if *x == e));
    assert_eq!(arrow_func_body(&mut program, ArrowBody::Block(block)), block);
    assert_eq!(trailing_expression(&program, block), Some(e));
    let empty = program.add_stmt(Stmt::Empty);
    let other = program.add_block(vec![stmt, empty]);
    assert_eq!(trailing_expression(&program, other), None);
    let none = program.add_block(vec![]);
    assert_eq!(trailing_expression(&program, none), None);
    assert_eq!(trailing_expression(&program, 99), None);
    assert!(program.expr(99).is_none());
    assert!(program.pat(0).is_none());
    assert!(program.function(0).is_none());
    assert!(program.class(0).is_none());

    let class = Class {
        super_class: None,
        body: vec![ClassMember::Other, ClassMember::Constructor(4), ClassMember::Constructor(5)],
    };
    assert_eq!(find_constructor(&class), Some(4));
    assert_eq!(find_constructor(&Class { super_class: None, body: vec![] }), None);
    let specifiers = vec![
        ImportSpecifier::Namespace("a".to_string()),
        ImportSpecifier::Default("d".to_string()),
        ImportSpecifier::Namespace("b".to_string()),
    ];
    assert_eq!(find_namespace(&specifiers), Some(&"b".to_string()));
    assert_eq!(find_namespace(&vec![ImportSpecifier::Default("d".to_string())]), None);
}
