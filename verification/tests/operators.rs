use weblab_interpreter::ast::BinaryOp;
use weblab_interpreter::evaluator::expressions::binary::eval_binary_expression;
use weblab_interpreter::operation::Outcome;
use weblab_interpreter::value::Value;

#[test]
fn null_equals_undefined_loosely_but_not_strictly() {
    match eval_binary_expression(BinaryOp::EqEq, &Value::Null, &Value::Undefined) {
        Ok(Outcome::Value(Value::Bool(b))) => assert!(b),
        _ => panic!("expected a boolean"),
    }
    match eval_binary_expression(BinaryOp::EqEqEq, &Value::Null, &Value::Undefined) {
        Ok(Outcome::Value(Value::Bool(b))) => assert!(!b),
        _ => panic!("expected a boolean"),
    }
}
