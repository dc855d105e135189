use whispr::defaults::{merge_with_defaults, SettingsTree};

type Tree = SettingsTree<i32>;

fn leaf(v: i32) -> Tree {
    SettingsTree::Leaf(v)
}

fn obj(fields: Vec<(&str, Tree)>) -> Tree {
    SettingsTree::Object(fields.into_iter().map(|(k, t)| (k.to_string(), t)).collect())
}

#[test]
fn missing_field_is_added_from_defaults() {
    let stored = obj(vec![("a", leaf(1))]);
    let default = obj(vec![("a", leaf(9)), ("b", leaf(2))]);
    assert_eq!(merge_with_defaults(stored, default), (obj(vec![("a", leaf(1)), ("b", leaf(2))]), true));
}

#[test]
fn nested_missing_field_is_added() {
    let stored = obj(vec![("audio", obj(vec![("x", leaf(1))])), ("z", leaf(0))]);
    let default = obj(vec![("audio", obj(vec![("x", leaf(5)), ("y", leaf(6))]))]);
    let expected = obj(vec![("audio", obj(vec![("x", leaf(1)), ("y", leaf(6))])), ("z", leaf(0))]);
    assert_eq!(merge_with_defaults(stored, default), (expected, true));
}

#[test]
fn complete_settings_stay_as_they_are() {
    let stored = obj(vec![("b", obj(vec![("c", leaf(3))])), ("a", leaf(1))]);
    let default = obj(vec![("a", leaf(0)), ("b", obj(vec![("c", leaf(0))]))]);
    let expected = obj(vec![("b", obj(vec![("c", leaf(3))])), ("a", leaf(1))]);
    assert_eq!(merge_with_defaults(stored, default), (expected, false));
}

#[test]
fn stored_value_that_is_no_object_is_kept() {
    assert_eq!(merge_with_defaults(leaf(7), obj(vec![("a", leaf(1))])), (leaf(7), false));
    let stored = obj(vec![("b", leaf(1))]);
    let default = obj(vec![("b", obj(vec![("c", leaf(2))]))]);
    assert_eq!(merge_with_defaults(stored, default), (obj(vec![("b", leaf(1))]), false));
    assert_eq!(merge_with_defaults(obj(vec![]), leaf(3)), (obj(vec![]), false));
}

#[test]
fn empty_stored_object_takes_all_defaults() {
    let default = obj(vec![("a", leaf(1)), ("b", obj(vec![("c", leaf(2))]))]);
    let expected = obj(vec![("a", leaf(1)), ("b", obj(vec![("c", leaf(2))]))]);
    assert_eq!(merge_with_defaults(obj(vec![]), default), (expected, true));
}
