use syspec::error::ErrorKind;
use syspec::vars::{
    merge_scope, u64_to_text, ValueDict, ValueType, VarCollection, VarType,
};

#[test]
fn vartype_display() {
    let val = ValueType::of_str("hello".to_string());
    assert_eq!(val.to_text(), "hello".to_string());
}

#[test]
fn value_text_renders_every_kind() {
    assert_eq!(ValueType::of_bool(false).to_text(), "false");
    assert_eq!(ValueType::of_int(0).to_text(), "0");
    assert_eq!(ValueType::of_int(42).to_text(), "42");
    assert_eq!(ValueType::of_int(90210).to_text(), "90210");
    assert_eq!(ValueType::of_float("3.14".to_string()).to_text(), "3.14");
    assert_eq!(u64_to_text(18446744073709551615), "18446744073709551615");
}

#[test]
fn dict_keeps_insertion_order_and_overwrites_in_place() {
    let mut d = ValueDict::new();
    d.insert("b".to_string(), ValueType::of_int(1));
    d.insert("a".to_string(), ValueType::of_int(2));
    d.insert("b".to_string(), ValueType::of_int(3));
    assert_eq!(d.len(), 2);
    assert_eq!(d.key_at(0), "b");
    assert_eq!(d.key_at(1), "a");
    assert_eq!(d.get("b").unwrap().to_text(), "3");
    assert_eq!(d.get("a").unwrap().to_text(), "2");
    assert!(d.get("c").is_none());
}

#[test]
fn collection_drops_later_duplicates() {
    let list = vec![
        VarType::of_int("n".to_string(), 1),
        VarType::of_int("m".to_string(), 2),
        VarType::of_int("n".to_string(), 9),
    ];
    let c = VarCollection::define(list);
    assert_eq!(c.len(), 2);
    assert_eq!(c.var_at(0).name(), "n");
    assert_eq!(c.var_at(1).name(), "m");
    let d = c.value_dict();
    assert_eq!(d.get("n").unwrap().to_text(), "1");
    assert_eq!(d.get("m").unwrap().to_text(), "2");
}

#[test]
fn merge_prefers_global_then_inherited_then_default() {
    let defs = VarCollection::define(vec![
        VarType::of_str("a".to_string(), "da".to_string()),
        VarType::of_str("b".to_string(), "db".to_string()),
        VarType::of_str("c".to_string(), "dc".to_string()),
    ]);
    let mut global = ValueDict::new();
    global.insert("a".to_string(), ValueType::of_str("ga".to_string()));
    let mut inherited = ValueDict::new();
    inherited.insert("a".to_string(), ValueType::of_str("ia".to_string()));
    inherited.insert("b".to_string(), ValueType::of_str("ib".to_string()));
    let merged = merge_scope(&defs, &global, &inherited, true).unwrap();
    assert_eq!(merged.get("a").unwrap().to_text(), "ga");
    assert_eq!(merged.get("b").unwrap().to_text(), "ib");
    assert_eq!(merged.get("c").unwrap().to_text(), "dc");
}

#[test]
fn strict_merge_fails_on_unresolved_name() {
    let defs = VarCollection::define(vec![VarType::of_str(
        "missing".to_string(),
        "default".to_string(),
    )]);
    let global = ValueDict::new();
    let inherited = ValueDict::new();
    let err = merge_scope(&defs, &global, &inherited, false).unwrap_err();
    assert!(matches!(err.kind(), ErrorKind::MissingVariable));
    assert_eq!(err.context()[0], "missing");
}

#[test]
fn definitions_project_into_values() {
    let v = VarType::of_bool("flag".to_string(), true);
    assert_eq!(v.name(), "flag");
    assert_eq!(v.var_value().to_text(), "true");
    let f = VarType::of_float("ratio".to_string(), "1.618".to_string());
    assert_eq!(f.var_value().to_text(), "1.618");
}
