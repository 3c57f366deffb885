use ctx::background;
use ctx::with_value;
use ctx::TypeKey;
use ctx::Value;

#[test]
fn same_type_2test() {
    let a = with_value(background(), Value::Int(42));
    let b = with_value(a, Value::Float(1.0f64.to_bits()));
    assert_eq!(b.value(TypeKey::Int), Some(Value::Int(42)));
    assert_eq!(b.value(TypeKey::Float), Some(Value::Float(1.0f64.to_bits())));
}

#[test]
fn same_type_test() {
    let a = with_value(background(), Value::Int(1));
    let b = with_value(a, Value::Int(2));
    assert_eq!(b.value(TypeKey::Int), Some(Value::Int(2)));
}

#[test]
fn same_type_workaround_test() {
    let tag_a: u64 = 1;
    let tag_b: u64 = 2;
    let a = with_value(background(), Value::Custom(tag_a, 1));
    let b = with_value(a, Value::Custom(tag_b, 1));
    assert_eq!(b.value(TypeKey::Custom(tag_a)), Some(Value::Custom(tag_a, 1)));
}

#[test]
fn clone_test() {
    let ctx = with_value(background(), Value::Int(42));
    let clone = ctx.clone();

    assert_eq!(ctx.value(TypeKey::Int), Some(Value::Int(42)));
    assert_eq!(clone.value(TypeKey::Int), Some(Value::Int(42)));
}
