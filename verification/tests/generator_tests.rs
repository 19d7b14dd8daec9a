use builder::classify::{classify, get_last_path_segment, is_option, is_vector,
    unwrap_generic_type, unwrap_option, unwrap_vector, Kind};
use builder::ir::{Ann, Decl, Diag, Field, Record, Ty};
use builder::resolve::resolve_each;
use builder::plan::{plan_field, FieldPlan};

fn ty(text: &str, head: Option<&str>, args: &[&str]) -> Ty {
    Ty {
        text: text.to_string(),
        head: head.map(|h| h.to_string()),
        args: args.iter().map(|a| a.to_string()).collect(),
    }
}

fn field(name: &str, t: Ty) -> Field {
    Field { name: name.to_string(), ty: t, attrs: Vec::new() }
}

fn field_each(name: &str, t: Ty, key: &str, value: &str) -> Field {
    Field {
        name: name.to_string(),
        ty: t,
        attrs: vec![Ann::KeyValue { key: key.to_string(), value: value.to_string() }],
    }
}

#[test]
fn classify_required_plain_type() {
    let k = classify(&ty("String", Some("String"), &[]));
    match k {
        Kind::Required { inner } => assert_eq!(inner, "String"),
        _ => panic!("expected required"),
    }
}

#[test]
fn classify_optional_unwraps_inner() {
    let k = classify(&ty("Option<i32>", Some("Option"), &["i32"]));
    match k {
        Kind::Optional { inner } => assert_eq!(inner, "i32"),
        _ => panic!("expected optional"),
    }
}

#[test]
fn classify_list_unwraps_element() {
    let k = classify(&ty("Vec<String>", Some("Vec"), &["String"]));
    match k {
        Kind::List { elem } => assert_eq!(elem, "String"),
        _ => panic!("expected list"),
    }
}

#[test]
fn classify_qualified_path_by_last_segment() {
    let k = classify(&ty("std::option::Option<u8>", Some("Option"), &["u8"]));
    match k {
        Kind::Optional { inner } => assert_eq!(inner, "u8"),
        _ => panic!("expected optional"),
    }
}

#[test]
fn classify_one_level_only() {
    let k = classify(&ty("Option<Vec<u8>>", Some("Option"), &["Vec<u8>"]));
    match k {
        Kind::Optional { inner } => assert_eq!(inner, "Vec<u8>"),
        _ => panic!("expected optional"),
    }
}

#[test]
fn classify_wrapper_without_argument_falls_back() {
    let k = classify(&ty("Option", Some("Option"), &[]));
    match k {
        Kind::Optional { inner } => assert_eq!(inner, "Option"),
        _ => panic!("expected optional"),
    }
}

#[test]
fn classify_non_path_type_is_required() {
    let k = classify(&ty("(u8, u8)", None, &[]));
    match k {
        Kind::Required { inner } => assert_eq!(inner, "(u8, u8)"),
        _ => panic!("expected required"),
    }
}

#[test]
fn helpers_inspect_last_segment() {
    let t = ty("Vec<String>", Some("Vec"), &["String"]);
    assert_eq!(get_last_path_segment(&t), Some("Vec".to_string()));
    assert_eq!(get_last_path_segment(&ty("[u8; 4]", None, &[])), None);
    assert!(is_vector(&t));
    assert!(!is_option(&t));
    assert_eq!(unwrap_generic_type(&t), Some("String".to_string()));
    assert_eq!(unwrap_vector(&t), Some("String".to_string()));
    assert_eq!(unwrap_option(&t), None);
}

#[test]
fn resolve_no_annotation_is_no_directive() {
    let f = field("tags", ty("Vec<String>", Some("Vec"), &["String"]));
    assert!(resolve_each(&f).is_none());
}

#[test]
fn resolve_other_annotation_is_no_directive() {
    let f = Field {
        name: "tags".to_string(),
        ty: ty("Vec<String>", Some("Vec"), &["String"]),
        attrs: vec![Ann::Other],
    };
    assert!(resolve_each(&f).is_none());
}

#[test]
fn resolve_each_yields_the_name() {
    let f = field_each("tags", ty("Vec<String>", Some("Vec"), &["String"]), "each", "tag");
    match resolve_each(&f) {
        Some(Ok(name)) => assert_eq!(name, "tag"),
        _ => panic!("expected a resolved directive"),
    }
}

#[test]
fn resolve_wrong_key_is_malformed() {
    let f = field_each("tags", ty("Vec<String>", Some("Vec"), &["String"]), "eah", "tag");
    match resolve_each(&f) {
        Some(Err(Diag { message })) => {
            assert_eq!(message, "expected `builder(each = \"...\")`");
        },
        _ => panic!("expected a diagnostic"),
    }
}

#[test]
fn plan_same_name_keeps_appender_only() {
    let f = field_each("tags", ty("Vec<String>", Some("Vec"), &["String"]), "each", "tags");
    match plan_field(&f) {
        FieldPlan::AppenderOnly { appender, elem } => {
            assert_eq!(appender, "tags");
            assert_eq!(elem, "String");
        },
        _ => panic!("expected appender only"),
    }
}

#[test]
fn plan_renamed_keeps_both() {
    let f = field_each("tags", ty("Vec<String>", Some("Vec"), &["String"]), "each", "tag");
    match plan_field(&f) {
        FieldPlan::SetterAndAppender { ty, appender, elem } => {
            assert_eq!(ty, "Vec<String>");
            assert_eq!(appender, "tag");
            assert_eq!(elem, "String");
        },
        _ => panic!("expected setter and appender"),
    }
}

#[test]
fn plan_each_on_non_list_is_invalid() {
    let f = field_each("count", ty("u32", Some("u32"), &[]), "each", "one");
    match plan_field(&f) {
        FieldPlan::Invalid { message } => {
            assert_eq!(message, "`each` requires a list-typed field");
        },
        _ => panic!("expected a diagnostic"),
    }
}

#[test]
fn derive_rejects_non_struct() {
    let out = builder::render::derive(&Decl::NotStruct);
    assert_eq!(out, "::core::compile_error! { r#\"expects struct\"# }\n");
}

#[test]
fn derive_rejects_unnamed_fields() {
    let out = builder::render::derive(&Decl::UnnamedFields);
    assert_eq!(out, "::core::compile_error! { r#\"expects named fields\"# }\n");
}

fn command_record() -> Record {
    Record {
        name: "Command".to_string(),
        vis: "pub".to_string(),
        fields: vec![
            field("name", ty("String", Some("String"), &[])),
            field("value", ty("Option<i32>", Some("Option"), &["i32"])),
            field_each("tags", ty("Vec<String>", Some("Vec"), &["String"]), "each", "tag"),
        ],
    }
}

#[test]
fn derive_command_record_full_fragment() {
    let out = builder::render::derive(&Decl::Record(command_record()));
    let expected = [
        "pub struct CommandBuilder {\n",
        "name: std::option::Option<String>,\n",
        "value: std::option::Option<i32>,\n",
        "tags: Vec<String>,\n",
        "}\n",
        "impl CommandBuilder {\n",
        "pub fn name(&mut self, name: String) -> &mut Self { self.name = std::option::Option::Some(name); self }\n",
        "pub fn value(&mut self, value: i32) -> &mut Self { self.value = std::option::Option::Some(value); self }\n",
        "pub fn tags(&mut self, tags: Vec<String>) -> &mut Self { self.tags = tags; self }\n",
        "pub fn tag(&mut self, tag: String) -> &mut Self { self.tags.push(tag); self }\n",
        "pub fn build(&mut self) -> std::result::Result<Command, std::boxed::Box<dyn std::error::Error>> {\n",
        "if self.name.is_none() { return Err(\"Required field 'name' is missing\".into()); }\n",
        "Ok(Command {\n",
        "name: self.name.clone().unwrap(),\n",
        "value: self.value.clone(),\n",
        "tags: self.tags.clone(),\n",
        "})\n}\n",
        "}\n",
        "impl Command {\npub fn builder() -> CommandBuilder {\nCommandBuilder {\n",
        "name: None,\nvalue: None,\ntags: Vec::new(),\n",
        "}\n}\n}\n",
    ]
    .concat();
    assert_eq!(out, expected);
}

#[test]
fn derive_command_record_exposes_expected_operations() {
    let out = builder::render::derive(&Decl::Record(command_record()));
    assert!(out.contains("pub fn name(&mut self, name: String)"));
    assert!(out.contains("pub fn value(&mut self, value: i32)"));
    assert!(out.contains("pub fn tag(&mut self, tag: String)"));
    assert!(out.contains("Required field 'name' is missing"));
}

#[test]
fn derive_same_name_each_has_no_list_setter() {
    let r = Record {
        name: "Job".to_string(),
        vis: String::new(),
        fields: vec![field_each(
            "tags",
            ty("Vec<String>", Some("Vec"), &["String"]),
            "each",
            "tags",
        )],
    };
    let out = builder::render::derive(&Decl::Record(r));
    assert!(out.contains("pub fn tags(&mut self, tags: String) -> &mut Self { self.tags.push(tags); self }\n"));
    assert!(!out.contains("self.tags = tags"));
}

#[test]
fn derive_private_record_keeps_builder_private() {
    let r = Record {
        name: "Job".to_string(),
        vis: String::new(),
        fields: vec![field("id", ty("u64", Some("u64"), &[]))],
    };
    let out = builder::render::derive(&Decl::Record(r));
    assert!(out.starts_with("struct JobBuilder {\n"));
}

#[test]
fn derive_malformed_each_keeps_sibling_fields() {
    let r = Record {
        name: "Job".to_string(),
        vis: "pub".to_string(),
        fields: vec![
            field("id", ty("u64", Some("u64"), &[])),
            field_each("tags", ty("Vec<String>", Some("Vec"), &["String"]), "eac", "tag"),
            field("note", ty("Option<String>", Some("Option"), &["String"])),
        ],
    };
    let out = builder::render::derive(&Decl::Record(r));
    assert!(out.contains(
        "::core::compile_error! { r#\"expected `builder(each = \"...\")`\"# }\n"
    ));
    assert!(!out.contains("pub fn tag("));
    assert!(!out.contains("pub fn tags("));
    assert!(out.contains("pub fn id(&mut self, id: u64)"));
    assert!(out.contains("pub fn note(&mut self, note: String)"));
    assert!(out.contains("pub fn build"));
}

#[test]
fn derive_record_without_fields() {
    let r = Record { name: "Unit".to_string(), vis: String::new(), fields: Vec::new() };
    let out = builder::render::derive(&Decl::Record(r));
    let expected = [
        "struct UnitBuilder {\n}\n",
        "impl UnitBuilder {\n",
        "pub fn build(&mut self) -> std::result::Result<Unit, std::boxed::Box<dyn std::error::Error>> {\nOk(Unit {\n})\n}\n",
        "}\n",
        "impl Unit {\npub fn builder() -> UnitBuilder {\nUnitBuilder {\n}\n}\n}\n",
    ]
    .concat();
    assert_eq!(out, expected);
}

#[test]
fn derive_crate_visible_record_keeps_qualifier() {
    let r = Record {
        name: "Job".to_string(),
        vis: "pub(crate)".to_string(),
        fields: vec![field("id", ty("u64", Some("u64"), &[]))],
    };
    let out = builder::render::derive(&Decl::Record(r));
    assert!(out.starts_with("pub(crate) struct JobBuilder {\n"));
}

#[test]
fn derive_optional_of_list_stores_optional_slot() {
    let r = Record {
        name: "Job".to_string(),
        vis: String::new(),
        fields: vec![field("extras", ty("Option<Vec<u8>>", Some("Option"), &["Vec<u8>"]))],
    };
    let out = builder::render::derive(&Decl::Record(r));
    assert!(out.contains("extras: std::option::Option<Vec<u8>>,\n"));
    assert!(out.contains("pub fn extras(&mut self, extras: Vec<u8>)"));
    assert!(out.contains("extras: self.extras.clone(),\n"));
}
