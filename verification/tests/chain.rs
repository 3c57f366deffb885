use std::sync::Arc;

use ctx::background;
use ctx::with_value;
use ctx::Context;
use ctx::TypeKey;
use ctx::Value;
use ctx::WithValue;

#[test]
fn scenario_int_float_text() {
    let a = with_value(background(), Value::Int(42));
    let b = with_value(a, Value::Float(1.0f64.to_bits()));
    assert_eq!(b.value(TypeKey::Int), Some(Value::Int(42)));
    match b.value(TypeKey::Float) {
        Some(Value::Float(bits)) => assert_eq!(f64::from_bits(bits), 1.0),
        other => panic!("expected a float value, got {:?}", other),
    }
    assert_eq!(b.value(TypeKey::Text), None);
}

#[test]
fn background_has_no_values() {
    let root = background();
    assert_eq!(root.value(TypeKey::Int), None);
    assert_eq!(root.value(TypeKey::Float), None);
    assert_eq!(root.value(TypeKey::Text), None);
    assert_eq!(root.value(TypeKey::Custom(7)), None);
}

#[test]
fn text_value_resolves() {
    let a = with_value(background(), Value::Text(String::from("hello")));
    assert_eq!(a.value(TypeKey::Text), Some(Value::Text(String::from("hello"))));
    assert_eq!(a.value(TypeKey::Int), None);
}

#[test]
fn nearest_match_skips_other_types() {
    let a = with_value(background(), Value::Int(1));
    let b = with_value(a, Value::Float(2.5f64.to_bits()));
    let c = with_value(b, Value::Int(2));
    assert_eq!(c.value(TypeKey::Int), Some(Value::Int(2)));
    assert_eq!(c.value(TypeKey::Float), Some(Value::Float(2.5f64.to_bits())));
}

#[test]
fn later_wrapper_does_not_shadow_other_tag() {
    let tag_a: u64 = 10;
    let tag_b: u64 = 20;
    let a = with_value(background(), Value::Custom(tag_a, 5));
    let b = with_value(a, Value::Custom(tag_b, 5));
    assert_eq!(b.value(TypeKey::Custom(tag_b)), Some(Value::Custom(tag_b, 5)));
    assert_eq!(b.value(TypeKey::Custom(tag_a)), Some(Value::Custom(tag_a, 5)));
    assert_eq!(b.value(TypeKey::Custom(30)), None);
}

#[test]
fn no_deadline_anywhere() {
    let root = background();
    assert_eq!(root.deadline(), None);
    let a = with_value(root, Value::Int(3));
    assert_eq!(a.deadline(), None);
}

#[test]
fn clone_of_deep_chain_resolves_alike() {
    let a = with_value(background(), Value::Text(String::from("request")));
    let b = with_value(a, Value::Int(7));
    let dup = b.clone();
    assert_eq!(dup.value(TypeKey::Int), b.value(TypeKey::Int));
    assert_eq!(dup.value(TypeKey::Text), b.value(TypeKey::Text));
    assert_eq!(dup.value(TypeKey::Float), b.value(TypeKey::Float));
}

#[test]
fn node_built_directly_resolves() {
    let node = WithValue { parent: Arc::new(background()), val: Value::Int(11) };
    assert_eq!(node.value(TypeKey::Int), Some(Value::Int(11)));
    assert_eq!(node.value(TypeKey::Text), None);
    assert_eq!(node.deadline(), None);
    let dup = node.clone();
    assert_eq!(dup.value(TypeKey::Int), Some(Value::Int(11)));
}

#[test]
fn shared_parent_seen_by_both_children() {
    let parent = with_value(background(), Value::Int(9));
    let left = with_value(parent.clone(), Value::Float(0.5f64.to_bits()));
    let right = with_value(parent, Value::Text(String::from("leaf")));
    assert_eq!(left.value(TypeKey::Int), Some(Value::Int(9)));
    assert_eq!(right.value(TypeKey::Int), Some(Value::Int(9)));
}

#[test]
fn lookup_returns_copy_not_handle() {
    let chain = with_value(background(), Value::Int(1));
    let first = chain.value(TypeKey::Int);
    drop(first);
    assert_eq!(chain.value(TypeKey::Int), Some(Value::Int(1)));
}

#[test]
fn background_is_its_own_node() {
    let one: Context = background();
    let two: Context = background();
    assert_eq!(one.value(TypeKey::Int), two.value(TypeKey::Int));
}
