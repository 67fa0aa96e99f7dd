use builder::emit::{assign_field, gen_setter, init_field, optionize_field, plan_fields};
use builder::plan::{plan_field, BuilderField, BuilderInput, GenerationError, SetterKind};
use builder::types::{inner_type_of, TypeArg, TypeExpr};

fn plain(text: &str) -> TypeExpr {
    TypeExpr::Plain { text: text.to_string() }
}

fn applied(name: &str, args: Vec<TypeExpr>) -> TypeExpr {
    let inner: Vec<String> = args.iter().map(|a| a.text().clone()).collect();
    TypeExpr::Applied {
        text: format!("{}<{}>", name, inner.join(", ")),
        name: name.to_string(),
        args: args.into_iter().map(TypeArg::Type).collect(),
    }
}

fn field(name: &str, ty: TypeExpr, each: Option<&str>) -> BuilderField {
    BuilderField { name: name.to_string(), ty, each: each.map(|e| e.to_string()) }
}

fn command_input() -> BuilderInput {
    BuilderInput {
        ident: "Command".to_string(),
        fields: vec![
            field("executable", plain("String"), None),
            field("args", applied("Vec", vec![plain("String")]), Some("arg")),
            field("current_dir", applied("Option", vec![plain("String")]), None),
        ],
    }
}

#[test]
fn classify_optional_of_collection() {
    let ty = applied("Option", vec![applied("Vec", vec![plain("String")])]);
    let inner = inner_type_of(&ty, "Option").expect("an optional wrapper");
    assert_eq!(inner.text(), "Vec<String>");
    assert_eq!(inner_type_of(inner, "Vec").map(|t| t.text().clone()), Some("String".to_string()));
}

#[test]
fn classify_collection_is_not_optional() {
    let ty = applied("Vec", vec![plain("String")]);
    assert!(inner_type_of(&ty, "Option").is_none());
}

#[test]
fn classify_plain_type() {
    assert!(inner_type_of(&plain("String"), "Option").is_none());
    assert!(inner_type_of(&plain("String"), "Vec").is_none());
}

#[test]
fn classify_rejects_several_arguments() {
    let ty = applied("Option", vec![plain("u8"), plain("u16")]);
    assert!(inner_type_of(&ty, "Option").is_none());
}

#[test]
fn classify_rejects_non_type_argument() {
    let ty = TypeExpr::Applied {
        text: "Vec<'a>".to_string(),
        name: "Vec".to_string(),
        args: vec![TypeArg::Other("'a".to_string())],
    };
    assert!(inner_type_of(&ty, "Vec").is_none());
}

#[test]
fn plan_of_required_field() {
    let p = plan_field(&field("executable", plain("String"), None)).unwrap();
    assert!(!p.optional);
    assert!(!p.starts_empty);
    assert_eq!(p.storage_type, "std::option::Option<String>");
    assert_eq!(p.setters.len(), 1);
    assert_eq!(p.setters[0].method, "executable");
    assert_eq!(p.setters[0].param_type, "String");
    assert_eq!(p.setters[0].kind, SetterKind::Replace);
}

#[test]
fn plan_of_optional_field_takes_inner_type() {
    let p = plan_field(&field("current_dir", applied("Option", vec![plain("String")]), None)).unwrap();
    assert!(p.optional);
    assert!(!p.starts_empty);
    assert_eq!(p.storage_type, "Option<String>");
    assert_eq!(p.setters.len(), 1);
    assert_eq!(p.setters[0].param_type, "String");
}

#[test]
fn plan_of_collection_with_distinct_accumulator() {
    let p = plan_field(&field("args", applied("Vec", vec![plain("String")]), Some("arg"))).unwrap();
    assert!(p.starts_empty);
    assert_eq!(p.setters.len(), 2);
    assert_eq!(p.setters[0].method, "arg");
    assert_eq!(p.setters[0].param_type, "String");
    assert_eq!(p.setters[0].kind, SetterKind::AppendOne);
    assert_eq!(p.setters[1].method, "args");
    assert_eq!(p.setters[1].param_type, "Vec<String>");
    assert_eq!(p.setters[1].kind, SetterKind::Replace);
}

#[test]
fn plan_of_collection_with_same_name_accumulator() {
    let p = plan_field(&field("env", applied("Vec", vec![plain("String")]), Some("env"))).unwrap();
    assert_eq!(p.setters.len(), 1);
    assert_eq!(p.setters[0].method, "env");
    assert_eq!(p.setters[0].kind, SetterKind::AppendOne);
}

#[test]
fn plan_of_optional_collection_with_accumulator() {
    let ty = applied("Option", vec![applied("Vec", vec![plain("u8")])]);
    let p = plan_field(&field("bytes", ty, Some("byte"))).unwrap();
    assert!(p.optional);
    assert!(!p.starts_empty);
    assert_eq!(p.setters[0].param_type, "u8");
    assert_eq!(p.setters[1].param_type, "Vec<u8>");
}

#[test]
fn accumulator_on_plain_field_is_rejected() {
    let r = plan_field(&field("name", plain("String"), Some("letter")));
    assert_eq!(r.unwrap_err(), GenerationError::NotACollection { field: "name".to_string() });
}

#[test]
fn accumulator_misuse_fails_whole_derivation() {
    let mut input = command_input();
    input.fields.push(field("name", plain("String"), Some("letter")));
    assert_eq!(builder::emit::derive(&input).unwrap_err(), GenerationError::NotACollection { field: "name".to_string() });
}

#[test]
fn first_misused_field_is_reported() {
    let input = BuilderInput {
        ident: "T".to_string(),
        fields: vec![
            field("ok", plain("u8"), None),
            field("first", plain("u8"), Some("one")),
            field("second", plain("u16"), Some("two")),
        ],
    };
    assert_eq!(plan_fields(&input).unwrap_err(), GenerationError::NotACollection { field: "first".to_string() });
}

#[test]
fn field_fragments() {
    let plans = plan_fields(&command_input()).unwrap();
    assert_eq!(init_field(&plans[0]), "executable: std::option::Option::None");
    assert_eq!(init_field(&plans[1]), "args: std::option::Option::Some(vec!())");
    assert_eq!(optionize_field(&plans[2]), "current_dir: Option<String>");
    assert_eq!(assign_field(&plans[0]), "executable: self.executable.clone().ok_or(\"executable was not set\")?");
    assert_eq!(assign_field(&plans[2]), "current_dir: self.current_dir.clone()");
    assert_eq!(
        gen_setter(&plans[1]),
        "pub fn arg(&mut self, arg: String) -> &mut Self { if let std::option::Option::Some(ref mut vs) = self.args { vs.push(arg); } else { self.args = std::option::Option::Some(vec![arg]); } self }\npub fn args(&mut self, args: Vec<String>) -> &mut Self { self.args = std::option::Option::Some(args); self }"
    );
}

#[test]
fn derive_whole_unit() {
    let text = builder::emit::derive(&command_input()).unwrap();
    let expected = [
        "impl Command { pub fn builder() -> CommandBuilder { CommandBuilder { executable: std::option::Option::None, args: std::option::Option::Some(vec!()), current_dir: std::option::Option::None } } }",
        "pub struct CommandBuilder { executable: std::option::Option<String>, args: std::option::Option<Vec<String>>, current_dir: Option<String> }",
        "impl CommandBuilder {",
        "pub fn build(&mut self) -> std::result::Result<Command, std::boxed::Box<dyn std::error::Error>> { std::result::Result::Ok(Command { executable: self.executable.clone().ok_or(\"executable was not set\")?, args: self.args.clone().ok_or(\"args was not set\")?, current_dir: self.current_dir.clone() }) }",
        "pub fn executable(&mut self, executable: String) -> &mut Self { self.executable = std::option::Option::Some(executable); self }",
        "pub fn arg(&mut self, arg: String) -> &mut Self { if let std::option::Option::Some(ref mut vs) = self.args { vs.push(arg); } else { self.args = std::option::Option::Some(vec![arg]); } self }",
        "pub fn args(&mut self, args: Vec<String>) -> &mut Self { self.args = std::option::Option::Some(args); self }",
        "pub fn current_dir(&mut self, current_dir: String) -> &mut Self { self.current_dir = std::option::Option::Some(current_dir); self }",
        "}",
    ]
    .join("\n");
    assert_eq!(text, expected);
}

#[test]
fn derive_same_name_accumulator_has_no_replace_setter() {
    let input = BuilderInput {
        ident: "Env".to_string(),
        fields: vec![field("env", applied("Vec", vec![plain("String")]), Some("env"))],
    };
    let text = builder::emit::derive(&input).unwrap();
    assert_eq!(text.matches("pub fn env(").count(), 1);
    assert!(text.contains("pub fn env(&mut self, env: String)"));
    assert!(!text.contains("pub fn env(&mut self, env: Vec<String>)"));
}

#[test]
fn derive_without_fields() {
    let input = BuilderInput { ident: "Unit".to_string(), fields: vec![] };
    let text = builder::emit::derive(&input).unwrap();
    assert!(text.starts_with("impl Unit { pub fn builder() -> UnitBuilder { UnitBuilder {  } } }\n"));
    assert!(text.contains("pub struct UnitBuilder {  }"));
}
