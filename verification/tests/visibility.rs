use fn_decorator::use_decorator;

fn decorator(f: fn() -> i64) -> i64 {
    f() + 1
}

// The two functions that the public `get_1` becomes under `decorator()`:
// both keep the visibility that was written.
pub fn get_1_fn_decorator_original() -> i64 {
    1
}

pub fn get_1() -> i64 {
    decorator(get_1_fn_decorator_original,)
}

#[test]
fn visibility_fn_without_params_decorator() {
    let generated = use_decorator("decorator()", "pub fn get_1() -> i64 { 1 }").unwrap();
    assert_eq!(
        generated,
        "pub fn get_1_fn_decorator_original ( ) -> i64 { 1 } \
         pub fn get_1 ( ) -> i64 { decorator ( get_1_fn_decorator_original , ) } "
    );

    let result = get_1();
    assert_eq!(result, 2);
}
