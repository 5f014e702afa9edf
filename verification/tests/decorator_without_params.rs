use fn_decorator::use_decorator;

fn decorator(f: fn(x: i64) -> i64, x: i64) -> i64 {
    f(x) * 2
}

// The two functions that `double` becomes under `decorator()`.
fn double_fn_decorator_original(x: i64) -> i64 {
    x * 2
}

fn double(x: i64) -> i64 {
    decorator(double_fn_decorator_original, x)
}

#[test]
fn decorator_without_params() {
    let generated = use_decorator("decorator()", "fn double(x: i64) -> i64 { x * 2 }").unwrap();
    assert_eq!(
        generated,
        "fn double_fn_decorator_original ( x : i64 ) -> i64 { x * 2 } \
         fn double ( x : i64 ) -> i64 { decorator ( double_fn_decorator_original , x ) } "
    );

    let result = double(2);
    assert_eq!(result, 8);
}
