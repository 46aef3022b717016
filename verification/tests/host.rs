use demohost::host::{add_internal, HostFunction, HostImportRegistry, ADD_NAME, HOST_NAMESPACE};

fn text(s: &str) -> String {
    s.to_string()
}

#[test]
fn add_internal_adds() {
    assert_eq!(add_internal(2, 3), 5);
    assert_eq!(add_internal(0, 0), 0);
    assert_eq!(add_internal(-7, 4), -3);
    assert_eq!(add_internal(i32::MAX, 0), i32::MAX);
    assert_eq!(add_internal(i32::MIN, i32::MAX), -1);
}

#[test]
fn add_internal_wraps_past_the_ends() {
    assert_eq!(add_internal(i32::MAX, 1), i32::MIN);
    assert_eq!(add_internal(i32::MIN, -1), i32::MAX);
    assert_eq!(add_internal(i32::MAX, i32::MAX), -2);
    assert_eq!(add_internal(i32::MIN, i32::MIN), 0);
}

#[test]
fn host_function_add_calls_addition() {
    assert_eq!(HostFunction::Add.call(2, 3), 5);
    assert_eq!(HostFunction::Add.call(i32::MAX, 1), i32::MIN);
}

#[test]
fn host_names_are_fixed() {
    assert_eq!(HOST_NAMESPACE, "host");
    assert_eq!(ADD_NAME, "add");
}

#[test]
fn standard_registry_offers_addition_only() {
    let registry = HostImportRegistry::standard();
    assert_eq!(registry.lookup(&text("host"), &text("add")), Some(HostFunction::Add));
    assert_eq!(registry.lookup(&text("host"), &text("sub")), None);
    assert_eq!(registry.lookup(&text("env"), &text("add")), None);
    assert_eq!(registry.lookup(&text("add"), &text("host")), None);
    assert_eq!(registry.lookup(&text(""), &text("")), None);
}

#[test]
fn empty_registry_has_nothing() {
    let registry = HostImportRegistry::new();
    assert_eq!(registry.lookup(&text("host"), &text("add")), None);
}

#[test]
fn registry_grows_by_one_entry() {
    let registry = HostImportRegistry::new()
        .with(text("host"), text("add"), HostFunction::Add)
        .with(text("math"), text("plus"), HostFunction::Add);
    assert_eq!(registry.lookup(&text("host"), &text("add")), Some(HostFunction::Add));
    assert_eq!(registry.lookup(&text("math"), &text("plus")), Some(HostFunction::Add));
    assert_eq!(registry.lookup(&text("math"), &text("add")), None);
    assert_eq!(registry.lookup(&text("host"), &text("plus")), None);
}

#[test]
fn taken_name_keeps_the_registry() {
    let registry = HostImportRegistry::standard().with(text("host"), text("add"), HostFunction::Add);
    assert_eq!(registry.lookup(&text("host"), &text("add")), Some(HostFunction::Add));
}
