use builder::expand::get_builder_expanded;
use builder::render::{builder_source, render_expansion};
use builder::syntax::{
    get_builder_data_field, get_option_inner_type, Data, DefinitionError, Field, Fields,
    GenericArgument, PathArguments, PathSegment, RecordDef, TypeExpr, TypeKind,
};

fn plain(name: &str) -> TypeExpr {
    TypeExpr {
        text: name.to_string(),
        kind: TypeKind::Path(vec![PathSegment { ident: name.to_string(), arguments: PathArguments::Plain }]),
    }
}

fn generic(path: &[&str], args: Vec<GenericArgument>, text: &str) -> TypeExpr {
    let mut segs: Vec<PathSegment> = path
        .iter()
        .map(|s| PathSegment { ident: s.to_string(), arguments: PathArguments::Plain })
        .collect();
    segs.last_mut().unwrap().arguments = PathArguments::AngleBracketed(args);
    TypeExpr { text: text.to_string(), kind: TypeKind::Path(segs) }
}

fn option_of(inner: TypeExpr) -> TypeExpr {
    let text = format!("Option<{}>", inner.text);
    generic(&["Option"], vec![GenericArgument::Type(inner)], &text)
}

fn field(name: &str, ty: TypeExpr) -> Field {
    Field { name: name.to_string(), ty }
}

fn command_def() -> RecordDef {
    RecordDef {
        name: "Command".to_string(),
        data: Data::Struct(Fields::Named(vec![
            field("executable", plain("String")),
            field("args", generic(&["Vec"], vec![GenericArgument::Type(plain("String"))], "Vec<String>")),
            field("env", generic(&["Vec"], vec![GenericArgument::Type(plain("String"))], "Vec<String>")),
            field("current_dir", option_of(plain("String"))),
        ])),
    }
}

#[test]
fn option_detected_by_last_segment() {
    let t = option_of(plain("String"));
    assert_eq!(get_option_inner_type(&t).unwrap().text, "String");
    let q = generic(
        &["std", "option", "Option"],
        vec![GenericArgument::Type(plain("i32"))],
        "std::option::Option<i32>",
    );
    assert_eq!(get_option_inner_type(&q).unwrap().text, "i32");
}

#[test]
fn option_not_detected_otherwise() {
    assert!(get_option_inner_type(&plain("String")).is_none());
    assert!(get_option_inner_type(&plain("MaybeString")).is_none());
    assert!(get_option_inner_type(&plain("Option")).is_none());
    let lifetime_only = generic(&["Option"], vec![GenericArgument::Other], "Option<'a>");
    assert!(get_option_inner_type(&lifetime_only).is_none());
    let two = generic(
        &["Option"],
        vec![GenericArgument::Type(plain("String")), GenericArgument::Type(plain("String"))],
        "Option<String, String>",
    );
    assert!(get_option_inner_type(&two).is_none());
    let empty = generic(&["Option"], vec![], "Option<>");
    assert!(get_option_inner_type(&empty).is_none());
    let vec = generic(&["Vec"], vec![GenericArgument::Type(plain("u8"))], "Vec<u8>");
    assert!(get_option_inner_type(&vec).is_none());
    let other = TypeExpr { text: "&str".to_string(), kind: TypeKind::Other };
    assert!(get_option_inner_type(&other).is_none());
}

#[test]
fn extractor_refuses_enum_and_tuple_struct() {
    let e = RecordDef { name: "Person".to_string(), data: Data::Enum };
    assert_eq!(get_builder_data_field(&e).unwrap_err(), DefinitionError::NotAStruct);
    let u = RecordDef { name: "U".to_string(), data: Data::Union };
    assert_eq!(get_builder_data_field(&u).unwrap_err(), DefinitionError::NotAStruct);
    let t = RecordDef { name: "T".to_string(), data: Data::Struct(Fields::Unnamed) };
    assert_eq!(get_builder_data_field(&t).unwrap_err(), DefinitionError::NotNamedFields);
    let z = RecordDef { name: "Z".to_string(), data: Data::Struct(Fields::Unit) };
    assert_eq!(get_builder_expanded(&z).err(), Some(DefinitionError::NotNamedFields));
    assert_eq!(
        DefinitionError::NotNamedFields.message(),
        "must define named fields, not positional or empty fields"
    );
}

#[test]
fn command_expansion_shape() {
    let def = command_def();
    let e = get_builder_expanded(&def).unwrap();
    assert_eq!(e.builder_name, "CommandBuilder");
    let names: Vec<&str> = e.fields.iter().map(|f| f.name.as_str()).collect();
    assert_eq!(names, vec!["executable", "args", "env", "current_dir"]);
    let tys: Vec<&str> = e.fields.iter().map(|f| f.inner_ty.text.as_str()).collect();
    assert_eq!(tys, vec!["String", "Vec<String>", "Vec<String>", "String"]);
    let inits: Vec<&str> = e.init.iter().map(|n| n.as_str()).collect();
    assert_eq!(inits, names);
    let params: Vec<&str> = e.setters.iter().map(|s| s.param_ty.text.as_str()).collect();
    assert_eq!(params, tys);
    let checks: Vec<&str> = e.build.checks.iter().map(|n| n.as_str()).collect();
    assert_eq!(checks, vec!["executable", "args", "env"]);
    let unwraps: Vec<bool> = e.build.values.iter().map(|c| c.unwrap).collect();
    assert_eq!(unwraps, vec![true, true, true, false]);
}

#[test]
fn render_small_record() {
    let def = RecordDef {
        name: "P".to_string(),
        data: Data::Struct(Fields::Named(vec![
            field("a", plain("u8")),
            field("b", option_of(plain("String"))),
        ])),
    };
    let e = get_builder_expanded(&def).unwrap();
    let text = render_expansion(&e);
    let expected = [
        "impl P { pub fn builder() -> PBuilder { PBuilder { a: std::option::Option::None, ",
        "b: std::option::Option::None } } } #[derive(Debug)] pub struct PBuilder { ",
        "a: std::option::Option<u8>, b: std::option::Option<String> } impl PBuilder { ",
        "pub fn a(&mut self, a: u8) -> &mut Self { self.a = std::option::Option::Some(a); self } ",
        "pub fn b(&mut self, b: String) -> &mut Self { self.b = std::option::Option::Some(b); self } ",
        "pub fn build(&self) -> std::result::Result<P, std::string::String> { ",
        "if self.a.is_none() { return std::result::Result::Err(std::string::String::from(\"a field missing\")); } ",
        "std::result::Result::Ok(P { a: self.a.clone().unwrap(), b: self.b.clone() }) } }",
    ]
    .concat();
    assert_eq!(text, expected);
}

#[test]
fn render_record_with_no_fields() {
    let def = RecordDef { name: "E".to_string(), data: Data::Struct(Fields::Named(vec![])) };
    let e = get_builder_expanded(&def).unwrap();
    assert_eq!(
        render_expansion(&e),
        "impl E { pub fn builder() -> EBuilder { EBuilder {  } } } #[derive(Debug)] pub struct EBuilder {  } impl EBuilder { pub fn build(&self) -> std::result::Result<E, std::string::String> { std::result::Result::Ok(E {  }) } }"
    );
}

#[test]
fn source_of_command() {
    let text = builder_source(&command_def()).unwrap();
    assert!(text.starts_with("impl Command { pub fn builder() -> CommandBuilder { CommandBuilder { executable: std::option::Option::None, "));
    assert!(text.contains("pub struct CommandBuilder { executable: std::option::Option<String>, args: std::option::Option<Vec<String>>, env: std::option::Option<Vec<String>>, current_dir: std::option::Option<String> }"));
    assert!(text.contains("pub fn current_dir(&mut self, current_dir: String) -> &mut Self"));
    assert!(text.contains("std::string::String::from(\"env field missing\")"));
    assert!(!text.contains("current_dir field missing"));
    assert!(text.ends_with("std::result::Result::Ok(Command { executable: self.executable.clone().unwrap(), args: self.args.clone().unwrap(), env: self.env.clone().unwrap(), current_dir: self.current_dir.clone() }) } }"));
}

#[test]
fn source_refused_for_enum() {
    let e = RecordDef { name: "Person".to_string(), data: Data::Enum };
    let err = builder_source(&e).unwrap_err();
    assert_eq!(err, DefinitionError::NotAStruct);
    assert_eq!(err.message(), "must be defined on a record type, not a sum type or primitive wrapper");
}
