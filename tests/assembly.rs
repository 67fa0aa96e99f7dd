use builder::emit::plan_fields;
use builder::model::{Builder, Value};
use builder::plan::{BuilderField, BuilderInput};
use builder::types::{TypeArg, TypeExpr};

fn plain(text: &str) -> TypeExpr {
    TypeExpr::Plain { text: text.to_string() }
}

fn applied(name: &str, inner: &str) -> TypeExpr {
    TypeExpr::Applied {
        text: format!("{}<{}>", name, inner),
        name: name.to_string(),
        args: vec![TypeArg::Type(plain(inner))],
    }
}

fn field(name: &str, ty: TypeExpr, each: Option<&str>) -> BuilderField {
    BuilderField { name: name.to_string(), ty, each: each.map(|e| e.to_string()) }
}

fn fresh_builder(fields: Vec<BuilderField>) -> Builder {
    let input = BuilderInput { ident: "Target".to_string(), fields };
    Builder::new(plan_fields(&input).unwrap())
}

#[test]
fn unset_required_field_is_named() {
    let mut b = fresh_builder(vec![field("a", plain("u64"), None), field("b", plain("u64"), None)]);
    assert!(b.replace(0, Value::Single(1)));
    assert_eq!(b.build().unwrap_err(), "b was not set");
}

#[test]
fn first_unset_field_wins() {
    let b = fresh_builder(vec![field("a", plain("u64"), None), field("b", plain("u64"), None)]);
    assert_eq!(b.build().unwrap_err(), "a was not set");
}

#[test]
fn unset_optional_field_is_absent() {
    let mut b = fresh_builder(vec![field("a", plain("u64"), None), field("o", applied("Option", "u64"), None)]);
    assert!(b.replace(0, Value::Single(5)));
    assert_eq!(b.build().unwrap(), vec![Some(Value::Single(5)), None]);
}

#[test]
fn unset_collection_field_assembles_empty() {
    let b = fresh_builder(vec![field("items", applied("Vec", "u64"), Some("item"))]);
    assert_eq!(b.build().unwrap(), vec![Some(Value::List(vec![]))]);
}

#[test]
fn same_name_accumulator_collects_in_order() {
    let mut b = fresh_builder(vec![field("env", applied("Vec", "u64"), Some("env"))]);
    for e in [3u64, 1, 2] {
        assert!(b.append(0, e));
    }
    assert!(!b.replace(0, Value::List(vec![9])));
    assert_eq!(b.build().unwrap(), vec![Some(Value::List(vec![3, 1, 2]))]);
}

#[test]
fn replace_discards_appended_elements() {
    let mut b = fresh_builder(vec![field("args", applied("Vec", "u64"), Some("arg"))]);
    assert!(b.append(0, 1));
    assert!(b.append(0, 2));
    assert!(b.replace(0, Value::List(vec![7])));
    assert_eq!(b.build().unwrap(), vec![Some(Value::List(vec![7]))]);
    assert!(b.append(0, 8));
    assert_eq!(b.build().unwrap(), vec![Some(Value::List(vec![7, 8]))]);
}

#[test]
fn append_on_unset_optional_collection_starts_it() {
    let ty = TypeExpr::Applied {
        text: "Option<Vec<u64>>".to_string(),
        name: "Option".to_string(),
        args: vec![TypeArg::Type(applied("Vec", "u64"))],
    };
    let mut b = fresh_builder(vec![field("bytes", ty, Some("byte"))]);
    assert_eq!(b.build().unwrap(), vec![None]);
    assert!(b.append(0, 4));
    assert_eq!(b.build().unwrap(), vec![Some(Value::List(vec![4]))]);
}

#[test]
fn last_write_wins() {
    let mut b = fresh_builder(vec![
        field("a", plain("u64"), None),
        field("o", applied("Option", "u64"), None),
        field("v", applied("Vec", "u64"), None),
    ]);
    assert!(b.replace(0, Value::Single(1)));
    assert!(b.replace(1, Value::Single(2)));
    assert!(b.replace(0, Value::Single(3)));
    assert!(b.replace(2, Value::List(vec![4, 5])));
    assert!(!b.append(2, 6));
    assert_eq!(
        b.build().unwrap(),
        vec![Some(Value::Single(3)), Some(Value::Single(2)), Some(Value::List(vec![4, 5]))]
    );
}

#[test]
fn build_twice_gives_same_values() {
    let mut b = fresh_builder(vec![field("a", plain("u64"), None), field("v", applied("Vec", "u64"), Some("x"))]);
    assert!(b.replace(0, Value::Single(11)));
    assert!(b.append(1, 12));
    let first = b.build().unwrap();
    let second = b.build().unwrap();
    assert_eq!(first, second);
}

#[test]
fn builder_stays_usable_after_failure() {
    let mut b = fresh_builder(vec![field("a", plain("u64"), None)]);
    assert!(b.build().is_err());
    assert!(b.replace(0, Value::Single(1)));
    assert_eq!(b.build().unwrap(), vec![Some(Value::Single(1))]);
}

#[test]
fn setter_index_out_of_range_is_refused() {
    let mut b = fresh_builder(vec![field("a", plain("u64"), None)]);
    assert!(!b.replace(1, Value::Single(1)));
    assert!(!b.append(0, 1));
}
