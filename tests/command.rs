use builder::command::Command;

fn strings(v: &[&str]) -> Vec<String> {
    v.iter().map(|s| s.to_string()).collect()
}

#[test]
fn builder_starts_all_absent() {
    let b = Command::builder();
    assert!(b.executable.is_none());
    assert!(b.args.is_none());
    assert!(b.env.is_none());
    assert!(b.current_dir.is_none());
}

#[test]
fn build_with_optional_absent() {
    let mut b = Command::builder();
    b.executable("cargo".to_owned());
    b.args(strings(&["build", "--release"]));
    b.env(vec![]);
    let c = b.build().unwrap();
    assert_eq!(c.executable, "cargo");
    assert_eq!(c.args, strings(&["build", "--release"]));
    assert!(c.env.is_empty());
    assert_eq!(c.current_dir, None);
}

#[test]
fn build_with_optional_present() {
    let mut b = Command::builder();
    b.executable("cargo".to_owned())
        .args(strings(&["build"]))
        .env(strings(&["A=1"]))
        .current_dir("..".to_owned());
    let c = b.build().unwrap();
    assert_eq!(c.current_dir, Some("..".to_owned()));
    assert_eq!(c.env, strings(&["A=1"]));
}

#[test]
fn build_fails_naming_env() {
    let mut b = Command::builder();
    b.executable("cargo".to_owned());
    b.args(strings(&["build", "--release"]));
    let e = b.build().unwrap_err();
    assert_eq!(e, "env field missing");
}

#[test]
fn build_fails_naming_first_missing() {
    let b = Command::builder();
    assert_eq!(b.build().unwrap_err(), "executable field missing");
    let mut b = Command::builder();
    b.executable("cargo".to_owned());
    assert_eq!(b.build().unwrap_err(), "args field missing");
}

#[test]
fn last_setter_call_wins() {
    let mut b = Command::builder();
    b.executable("a".to_owned());
    b.executable("cargo".to_owned());
    b.args(vec![]).env(vec![]);
    assert_eq!(b.build().unwrap().executable, "cargo");
}

#[test]
fn build_leaves_builder_usable() {
    let mut b = Command::builder();
    b.executable("cargo".to_owned());
    assert!(b.build().is_err());
    b.args(vec![]).env(vec![]);
    let first = b.build().unwrap();
    let second = b.build().unwrap();
    assert_eq!(first.executable, second.executable);
    assert_eq!(b.executable, Some("cargo".to_owned()));
}
