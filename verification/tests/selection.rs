use fn_decorator::directive::ParameterSelectionRule;
use fn_decorator::selection::{names_contain, rule_keeps, select_parameters, ParameterName};

fn named(name: &str) -> ParameterName {
    ParameterName::Named(name.to_string())
}

fn names(list: &[&str]) -> Vec<String> {
    list.iter().map(|name| name.to_string()).collect()
}

fn hiding(list: &[&str]) -> Option<ParameterSelectionRule> {
    Some(ParameterSelectionRule::Hide(names(list)))
}

fn naming(list: &[&str]) -> Option<ParameterSelectionRule> {
    Some(ParameterSelectionRule::Exact(names(list)))
}

fn concat() -> Vec<ParameterName> {
    vec![named("left"), named("right")]
}

fn method() -> Vec<ParameterName> {
    vec![ParameterName::Receiver, named("left"), named("right")]
}

#[test]
fn without_a_rule_everything_is_forwarded() {
    assert_eq!(select_parameters(&method(), &None), method());
    assert_eq!(select_parameters(&vec![], &None), vec![]);
}

#[test]
fn hide_forwards_all_but_the_named_in_the_declared_order() {
    assert_eq!(select_parameters(&concat(), &hiding(&["left"])), vec![named("right")]);
    assert_eq!(
        select_parameters(&method(), &hiding(&["left"])),
        vec![ParameterName::Receiver, named("right")]
    );
    assert_eq!(
        select_parameters(&method(), &hiding(&["right", "self"])),
        vec![named("left")]
    );
    assert_eq!(select_parameters(&method(), &hiding(&["right", "left", "self"])), vec![]);
}

#[test]
fn exact_forwards_the_named_only() {
    assert_eq!(select_parameters(&concat(), &naming(&["right"])), vec![named("right")]);
    assert_eq!(
        select_parameters(&method(), &naming(&["self"])),
        vec![ParameterName::Receiver]
    );
    assert_eq!(select_parameters(&method(), &naming(&["right", "right"])), vec![named("right")]);
}

#[test]
fn hiding_one_of_two_is_naming_the_other() {
    assert_eq!(
        select_parameters(&concat(), &hiding(&["left"])),
        select_parameters(&concat(), &naming(&["right"]))
    );
    assert_eq!(
        select_parameters(&method(), &hiding(&["self", "right"])),
        select_parameters(&method(), &naming(&["left"]))
    );
}

#[test]
fn exact_keeps_the_declared_order_whatever_the_rule_says() {
    assert_eq!(select_parameters(&concat(), &naming(&["right", "left"])), concat());
    assert_eq!(
        select_parameters(&concat(), &naming(&["right", "left"])),
        select_parameters(&concat(), &naming(&["left", "right"]))
    );
    assert_eq!(select_parameters(&method(), &naming(&["right", "left", "self"])), method());
}

#[test]
fn an_empty_hide_forwards_all_and_an_empty_exact_nothing() {
    assert_eq!(select_parameters(&method(), &hiding(&[])), method());
    assert_eq!(
        select_parameters(&method(), &hiding(&[])),
        select_parameters(&method(), &None)
    );
    assert_eq!(select_parameters(&method(), &naming(&[])), vec![]);
}

#[test]
fn a_name_that_no_parameter_has_changes_nothing() {
    assert_eq!(select_parameters(&concat(), &hiding(&["middle"])), concat());
    assert_eq!(select_parameters(&concat(), &naming(&["middle"])), vec![]);
    assert_eq!(
        select_parameters(&concat(), &naming(&["middle", "left"])),
        vec![named("left")]
    );
}

#[test]
fn the_receiver_goes_by_self_and_by_no_other_name() {
    let parameters = vec![ParameterName::Receiver, named("_self")];
    assert_eq!(select_parameters(&parameters, &hiding(&["self"])), vec![named("_self")]);
    assert_eq!(
        select_parameters(&parameters, &hiding(&["_self"])),
        vec![ParameterName::Receiver]
    );
    assert_eq!(select_parameters(&concat(), &hiding(&["self"])), concat());
}

#[test]
fn a_rule_decides_on_one_parameter() {
    assert!(rule_keeps(&None, &named("a")));
    assert!(rule_keeps(&hiding(&["b"]), &named("a")));
    assert!(!rule_keeps(&hiding(&["b", "a"]), &named("a")));
    assert!(rule_keeps(&naming(&["b", "a"]), &named("a")));
    assert!(!rule_keeps(&naming(&["b"]), &named("a")));
    assert!(!rule_keeps(&naming(&["b"]), &ParameterName::Receiver));
    assert!(rule_keeps(&naming(&["self"]), &ParameterName::Receiver));
    assert!(!rule_keeps(&hiding(&["self"]), &ParameterName::Receiver));
    assert_eq!(named("a").duplicate(), named("a"));
    assert_eq!(ParameterName::Receiver.duplicate(), ParameterName::Receiver);
}

#[test]
fn a_name_is_found_in_a_list() {
    assert!(names_contain(&names(&["a", "b"]), "b"));
    assert!(!names_contain(&names(&["a", "b"]), "ab"));
    assert!(!names_contain(&names(&[]), "a"));
}
