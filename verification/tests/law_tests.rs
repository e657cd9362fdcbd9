use ccc_mcp::config_merge::merge_missing_config_fields;
use ccc_mcp::json::{jint, jstr, new_object, Json};
use ccc_mcp::text_utils::normalize_compact_text;

fn obj(members: Vec<(&str, Json)>) -> Json {
    let mut o = new_object();
    for (k, v) in members {
        o.insert(k, v);
    }
    o
}

fn same(a: &Json, b: &Json) -> bool {
    match (a, b) {
        (Json::Null, Json::Null) => true,
        (Json::Bool(x), Json::Bool(y)) => x == y,
        (Json::Int(x), Json::Int(y)) => x == y,
        (Json::UInt(x), Json::UInt(y)) => x == y,
        (Json::Float(x), Json::Float(y)) => x == y,
        (Json::Str(x), Json::Str(y)) => x == y,
        (Json::Array(x), Json::Array(y)) => x.len() == y.len() && x.iter().zip(y.iter()).all(|(p, q)| same(p, q)),
        (Json::Object(x), Json::Object(y)) => {
            x.len() == y.len() && x.iter().zip(y.iter()).all(|((k1, v1), (k2, v2))| k1 == k2 && same(v1, v2))
        }
        _ => false,
    }
}

#[test]
fn a_second_merge_changes_nothing() {
    let defaults = obj(vec![
        ("a", jint(1)),
        ("nested", obj(vec![("x", jstr("dx")), ("y", jint(2))])),
    ]);
    let mut target = obj(vec![("a", jint(5)), ("nested", obj(vec![("x", Json::Null)])), ("own", jstr("kept"))]);
    assert!(merge_missing_config_fields(&mut target, &defaults));
    assert_eq!(target.get("a").unwrap().as_i64(), Some(5));
    assert_eq!(target.str_field("own"), Some("kept"));
    assert_eq!(target.get("nested").unwrap().str_field("x"), Some("dx"));
    let once = target.deep_clone();
    assert!(!merge_missing_config_fields(&mut target, &defaults));
    assert!(same(&target, &once));
}

#[test]
fn normalizing_twice_is_normalizing_once() {
    let once = normalize_compact_text("  one\ttwo \n\n three  ");
    assert_eq!(once, "one two three");
    assert_eq!(normalize_compact_text(&once), once);
    assert!(!once.contains("  "));
}

#[test]
fn a_merge_gives_the_union_of_names_and_keeps_scalars() {
    let defaults = obj(vec![("a", jint(1)), ("b", jstr("db")), ("c", obj(vec![("z", jint(3))]))]);
    let mut target = obj(vec![("a", jstr("mine")), ("own", jint(9))]);
    let before = target.deep_clone();
    let changed = merge_missing_config_fields(&mut target, &defaults);
    assert!(changed);
    assert!(!same(&target, &before));
    assert_eq!(target.str_field("a"), Some("mine"));
    assert_eq!(target.get("own").unwrap().as_i64(), Some(9));
    assert_eq!(target.str_field("b"), Some("db"));
    assert_eq!(target.get("c").unwrap().get("z").unwrap().as_i64(), Some(3));
    match &target {
        Json::Object(members) => assert_eq!(members.len(), 4),
        _ => panic!("object"),
    }
}

#[test]
fn an_unreported_merge_leaves_the_target_alone() {
    let defaults = obj(vec![("a", jint(1))]);
    let mut target = obj(vec![("a", jint(2))]);
    let before = target.deep_clone();
    assert!(!merge_missing_config_fields(&mut target, &defaults));
    assert!(same(&target, &before));
    let mut scalar = jstr("plain");
    assert!(!merge_missing_config_fields(&mut scalar, &defaults));
    assert_eq!(scalar.as_str(), Some("plain"));
}
