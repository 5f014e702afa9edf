use fn_decorator::use_decorator;

fn decorator(
    middle: String,
    f: fn(String, String) -> String,
    left: String,
    right: String,
) -> String {
    let left = left + &middle;
    f(left, right)
}

// The two functions that `concat` becomes under the directive.
fn concat_fn_decorator_original(left: String, right: String) -> String {
    left + &right
}

fn concat(left: String, right: String) -> String {
    decorator("_middle_".to_string(), concat_fn_decorator_original, left, right)
}

fn normal(code: &str) -> String {
    code.parse::<proc_macro2::TokenStream>().unwrap().to_string()
}

#[test]
fn decorator_with_param() {
    let generated = use_decorator(
        "decorator(\"_middle_\".to_string())",
        "fn concat(left: String, right: String) -> String { left + &right }",
    )
    .unwrap();
    assert_eq!(
        normal(&generated),
        normal(
            "fn concat_fn_decorator_original(left: String, right: String) -> String { left + &right }
             fn concat(left: String, right: String) -> String {
                 decorator(\"_middle_\".to_string(), concat_fn_decorator_original, left, right)
             }"
        )
    );

    let result = concat("left".into(), "right".into());
    assert_eq!(result, "left_middle_right");
}
