use fn_decorator::directive::{DecoratorSpec, ParameterSelectionRule};
use fn_decorator::generator::{
    generate_body, generate_replacement, parameter_name, parameter_names, rename,
    rename_original,
};
use fn_decorator::grammar::parse_directive;
use fn_decorator::selection::ParameterName;
use fn_decorator::signature::{FunctionDefinition, FunctionSignature, Parameter};
use fn_decorator::syntax::lex;
use fn_decorator::token::{render, Grouping, Token};
use fn_decorator::transform::{decorate, expand, TransformError};
use fn_decorator::{use_decorator, use_impl_decorator};

fn tokens(code: &str) -> Vec<Token> {
    lex(code).unwrap()
}

fn directive(text: &str) -> DecoratorSpec {
    parse_directive(&tokens(text)).unwrap()
}

fn function(text: &str) -> FunctionDefinition {
    FunctionDefinition::parse(text).unwrap()
}

fn body(directive_text: &str, function_text: &str, is_impl: bool) -> String {
    render(&generate_body(&directive(directive_text), &function(function_text).signature, is_impl).unwrap())
}

fn written(definition: &FunctionDefinition) -> String {
    let mut out = Vec::new();
    definition.write(&mut out);
    render(&out)
}

const CONCAT: &str = "fn concat(left: String, right: String) -> String { left + &right }";
const METHOD: &str = "fn concat(&self, left: String, right: String) -> String { left + &right }";

#[test]
fn the_original_lives_on_under_a_reserved_name() {
    assert_eq!(rename(&"double".to_string()), "double_fn_decorator_original");
    assert_eq!(rename(&String::new()), "_fn_decorator_original");
    let definition = function("#[inline] pub async fn double(x: i64) -> i64 { x * 2 }");
    let original = rename_original(&definition);
    assert_eq!(original.signature.name, "double_fn_decorator_original");
    assert_eq!(
        written(&original),
        "# [ inline ] pub async fn double_fn_decorator_original ( x : i64 ) -> i64 { x * 2 } "
    );
    let mut back = original;
    back.signature.name = "double".to_string();
    assert_eq!(back, definition);
}

#[test]
fn without_a_rule_the_decorator_gets_the_original_itself() {
    assert_eq!(
        body("decorator()", CONCAT, false),
        "{ decorator ( concat_fn_decorator_original , left , right ) } "
    );
    assert_eq!(
        body("decorator(1, \"two\")", CONCAT, false),
        "{ decorator ( 1 , \"two\" , concat_fn_decorator_original , left , right ) } "
    );
    assert_eq!(
        body("decorator()", "fn get_1() -> i64 { 1 }", false),
        "{ decorator ( get_1_fn_decorator_original , ) } "
    );
}

#[test]
fn in_a_type_the_original_is_a_member_of_it() {
    assert_eq!(
        body("decorator()", METHOD, true),
        "{ decorator ( Self :: concat_fn_decorator_original , self , left , right ) } "
    );
    assert_eq!(
        body("decorator()", "fn double(x: i64) -> i64 { x * 2 }", true),
        "{ decorator ( Self :: double_fn_decorator_original , x ) } "
    );
}

#[test]
fn without_a_rule_a_pattern_is_passed_as_it_is_written() {
    assert_eq!(
        body("decorator()", "fn f((a, b): (u8, u8), mut c: u8) {}", false),
        "{ decorator ( f_fn_decorator_original , ( a , b ) , mut c ) } "
    );
}

#[test]
fn with_a_rule_the_decorator_gets_a_callable() {
    assert_eq!(
        body("decorator(1), hide_parameters = [left]", CONCAT, false),
        "{ decorator ( 1 , move | right | { concat_fn_decorator_original ( left , right ) } , right ) } "
    );
    assert_eq!(
        body("decorator(), exact_parameters = [left, right]", CONCAT, false),
        "{ decorator ( move | left , right | { concat_fn_decorator_original ( left , right ) } , left , right ) } "
    );
    assert_eq!(
        body("decorator(), exact_parameters = []", CONCAT, false),
        "{ decorator ( move | | { concat_fn_decorator_original ( left , right ) } , ) } "
    );
}

#[test]
fn an_empty_hide_takes_the_callable_and_forwards_all() {
    assert_eq!(
        body("decorator(), hide_parameters = []", CONCAT, false),
        "{ decorator ( move | left , right | { concat_fn_decorator_original ( left , right ) } , left , right ) } "
    );
}

#[test]
fn hide_and_exact_of_the_rest_generate_the_same() {
    assert_eq!(
        use_decorator("decorator(), hide_parameters = [left]", CONCAT),
        use_decorator("decorator(), exact_parameters = [right]", CONCAT)
    );
    assert_eq!(
        use_impl_decorator("decorator(), hide_parameters = [self, right]", METHOD),
        use_impl_decorator("decorator(), exact_parameters = [left]", METHOD)
    );
}

#[test]
fn exact_forwards_in_the_declared_order() {
    assert_eq!(
        body("decorator(), exact_parameters = [right, left]", CONCAT, false),
        "{ decorator ( move | left , right | { concat_fn_decorator_original ( left , right ) } , left , right ) } "
    );
    assert_eq!(
        use_decorator("decorator(), exact_parameters = [right, left]", CONCAT),
        use_decorator("decorator(), exact_parameters = [left, right]", CONCAT)
    );
}

#[test]
fn in_a_method_the_receiver_is_bound_to_a_name_of_its_own() {
    assert_eq!(
        body("decorator(), hide_parameters = [self]", METHOD, true),
        "{ let _self = self ; decorator ( move | left , right | \
         { Self :: concat_fn_decorator_original ( _self , left , right ) } , left , right ) } "
    );
    assert_eq!(
        body("decorator(), exact_parameters = [self]", METHOD, true),
        "{ let _self = self ; decorator ( move | _self | \
         { Self :: concat_fn_decorator_original ( _self , left , right ) } , _self ) } "
    );
    assert_eq!(
        body("decorator(), hide_parameters = [left]", METHOD, true),
        "{ let _self = self ; decorator ( move | _self , right | \
         { Self :: concat_fn_decorator_original ( _self , left , right ) } , _self , right ) } "
    );
}

#[test]
fn a_member_without_a_receiver_binds_none() {
    let double = "fn double(x: i64) -> i64 { x * 2 }";
    assert_eq!(
        body("decorator(), hide_parameters = []", double, true),
        "{ decorator ( move | x | { Self :: double_fn_decorator_original ( x ) } , x ) } "
    );
    assert_eq!(
        body("decorator(), exact_parameters = []", double, true),
        "{ decorator ( move | | { Self :: double_fn_decorator_original ( x ) } , ) } "
    );
    assert_eq!(
        body("decorator(), hide_parameters = [self]", "async fn get() -> u8 { 1 }", true),
        "{ decorator ( move | | async { Self :: get_fn_decorator_original ( ) . await } , ) . await } "
    );
    // Outside a type nothing is bound either.
    assert_eq!(
        body("decorator(), hide_parameters = [self]", METHOD, false),
        "{ decorator ( move | left , right | \
         { concat_fn_decorator_original ( _self , left , right ) } , left , right ) } "
    );
}

#[test]
fn an_asynchronous_function_is_suspended_on() {
    let double = "async fn double(x: i64) -> i64 { x * 2 }";
    assert_eq!(
        body("decorator()", double, false),
        "{ decorator ( double_fn_decorator_original , x ) . await } "
    );
    assert_eq!(
        body("decorator(), hide_parameters = []", double, false),
        "{ decorator ( move | x | async { double_fn_decorator_original ( x ) . await } , x ) . await } "
    );
    assert_eq!(
        body("decorator(), hide_parameters = [x]", "async fn double(&self, x: i64) -> i64 { x * 2 }", true),
        "{ let _self = self ; decorator ( move | _self | async \
         { Self :: double_fn_decorator_original ( _self , x ) . await } , _self ) . await } "
    );
}

fn count_awaits(code: &str) -> usize {
    tokens(code).iter().filter(|token| token.is_word("await")).count()
}

#[test]
fn there_is_one_suspension_for_the_decorator_and_one_for_the_callable() {
    let sync = "fn double(x: i64) -> i64 { x * 2 }";
    let not_sync = "async fn double(x: i64) -> i64 { x * 2 }";
    assert_eq!(count_awaits(&body("decorator()", sync, false)), 0);
    assert_eq!(count_awaits(&body("decorator(), exact_parameters = [x]", sync, false)), 0);
    assert_eq!(count_awaits(&body("decorator()", not_sync, false)), 1);
    assert_eq!(count_awaits(&body("decorator(), exact_parameters = [x]", not_sync, false)), 2);
    assert_eq!(count_awaits(&body("decorator(), exact_parameters = []", not_sync, true)), 2);
}

#[test]
fn the_replacement_keeps_the_signature_and_drops_the_attributes() {
    let definition = function(
        "/// Doubles.
         #[inline]
         pub(crate) async unsafe fn double<T: Into<i64>>(x: T) -> i64 where T: Copy { x.into() * 2 }",
    );
    let replacement = generate_replacement(&definition, &directive("decorator()"), false).unwrap();
    assert_eq!(replacement.attributes, vec![]);
    assert_eq!(replacement.signature, definition.signature);
    assert_eq!(
        written(&replacement),
        "pub ( crate ) async unsafe fn double < T : Into < i64 > > ( x : T ) -> i64 where T : Copy \
         { decorator ( double_fn_decorator_original , x ) . await } "
    );
}

#[test]
fn the_replacement_is_no_default_item() {
    let definition = function("default fn f() {}");
    assert!(definition.signature.is_default);
    let expansion = expand(&definition, &directive("d()"), true).unwrap();
    assert!(expansion.original.signature.is_default);
    assert!(!expansion.replacement.signature.is_default);
}

#[test]
fn a_return_override_is_the_declared_type_of_the_replacement_only() {
    for source in ["fn get() -> i64 { 1 }", "fn get() { }", "fn get() -> Result<i64, ()> { Ok(1) }"] {
        let definition = function(source);
        let expansion = expand(
            &definition,
            &directive("decorator(), override_return_type = Result<i64, ()>"),
            false,
        )
        .unwrap();
        assert_eq!(
            expansion.replacement.signature.return_type.as_ref().map(render),
            Some("Result < i64 , ( ) > ".to_string())
        );
        assert_eq!(expansion.original.signature.return_type, definition.signature.return_type);

        let expansion = expand(&definition, &directive("decorator()"), false).unwrap();
        assert_eq!(expansion.replacement.signature.return_type, definition.signature.return_type);
    }
    assert_eq!(
        use_decorator("decorator(), override_return_type = Option<()>", "fn get() where u8: Copy { }"),
        Ok("fn get_fn_decorator_original ( ) where u8 : Copy { } \
            fn get ( ) -> Option < ( ) > where u8 : Copy { decorator ( get_fn_decorator_original , ) } "
            .to_string())
    );
}

#[test]
fn an_expansion_is_the_original_and_then_the_replacement() {
    let definition = function("pub fn get_1() -> i64 { 1 }");
    let spec = directive("decorator()");
    let expansion = expand(&definition, &spec, false).unwrap();
    assert_eq!(expansion.original, rename_original(&definition));
    assert_eq!(Some(expansion.replacement.clone()), generate_replacement(&definition, &spec, false));
    assert_eq!(
        render(&expansion.tokens()),
        "pub fn get_1_fn_decorator_original ( ) -> i64 { 1 } \
         pub fn get_1 ( ) -> i64 { decorator ( get_1_fn_decorator_original , ) } "
    );
    assert_eq!(decorate(&definition, &spec, false), Ok(render(&expansion.tokens())));
    assert_eq!(
        use_decorator("decorator()", "pub fn get_1() -> i64 { 1 }"),
        Ok(render(&expansion.tokens()))
    );
}

#[test]
fn an_expansion_can_be_made_of_values_written_by_hand() {
    let word = |name: &str| Token::Ident(name.to_string());
    let definition = FunctionDefinition {
        attributes: vec![],
        signature: FunctionSignature {
            name: "twice".to_string(),
            visibility: vec![word("pub")],
            is_default: false,
            is_const: false,
            is_async: true,
            is_unsafe: false,
            abi: vec![],
            generics: vec![],
            parameters: vec![
                Parameter::Receiver(vec![Token::Punct('&', false), word("self")]),
                Parameter::Typed { attributes: vec![], pattern: vec![word("x")], ty: vec![word("u8")] },
            ],
            trailing_comma: false,
            variadic: vec![],
            return_type: None,
            where_clause: vec![],
        },
        body: vec![Token::Open(Grouping::Brace), Token::Close(Grouping::Brace)],
    };
    let spec = DecoratorSpec {
        decorator_path: vec![word("log")],
        decorator_args: vec![vec![Token::Literal("1".to_string())]],
        selection_rule: Some(ParameterSelectionRule::Exact(vec!["x".to_string()])),
        return_override: Some(vec![word("u8")]),
        debug: false,
    };
    assert_eq!(
        decorate(&definition, &spec, true),
        Ok("pub async fn twice_fn_decorator_original ( & self , x : u8 ) { } \
            pub async fn twice ( & self , x : u8 ) -> u8 { let _self = self ; \
            log ( 1 , move | x | async { Self :: twice_fn_decorator_original ( _self , x ) . await } , x ) . await } "
            .to_string())
    );
}

#[test]
fn debug_shows_the_code_in_place_of_giving_it() {
    let code = use_decorator("decorator()", "fn get_1() -> i64 { 1 }").unwrap();
    let shown = use_decorator("decorator(), debug", "fn get_1() -> i64 { 1 }");
    assert_eq!(shown, Err(TransformError::Debug(code)));
    assert_eq!(
        shown.unwrap_err().message(),
        "fn get_1_fn_decorator_original ( ) -> i64 { 1 } \
         fn get_1 ( ) -> i64 { decorator ( get_1_fn_decorator_original , ) } "
    );
    assert!(matches!(
        use_impl_decorator("debug, decorator(), hide_parameters = [self]", METHOD),
        Err(TransformError::Debug(_))
    ));
}

#[test]
fn what_is_no_function_is_refused() {
    assert_eq!(use_decorator("decorator()", "struct S;"), Err(TransformError::NotAFunction));
    assert_eq!(use_decorator("decorator()", "fn f();"), Err(TransformError::NotAFunction));
    assert_eq!(use_decorator("decorator(), debug", ""), Err(TransformError::NotAFunction));
    assert_eq!(use_impl_decorator("decorator()", "fn f() {"), Err(TransformError::NotAFunction));
    assert_eq!(
        TransformError::NotAFunction.message(),
        "expected a function with a body"
    );
}

#[test]
fn a_rule_needs_a_plain_name_for_every_parameter() {
    for source in ["fn f((a, b): (u8, u8), c: u8) {}", "fn f(mut a: u8) {}", "fn f(a: u8, Wrap(b): Wrap) {}"]
    {
        assert!(use_decorator("decorator()", source).is_ok());
        assert_eq!(
            use_decorator("decorator(), hide_parameters = []", source),
            Err(TransformError::UnsupportedPattern)
        );
        assert_eq!(
            use_decorator("decorator(), exact_parameters = [c], debug", source),
            Err(TransformError::UnsupportedPattern)
        );
        assert_eq!(expand(&function(source), &directive("d(), hide_parameters = [a]"), false), None);
    }
    assert_eq!(
        TransformError::UnsupportedPattern.message(),
        "a selection rule needs every parameter to be a plain name"
    );
}

#[test]
fn a_parameter_has_the_name_that_its_pattern_binds() {
    let typed = |pattern: &str| Parameter::Typed {
        attributes: vec![],
        pattern: tokens(pattern),
        ty: tokens("u8"),
    };
    assert_eq!(parameter_name(&typed("x")), Some(ParameterName::Named("x".to_string())));
    assert_eq!(parameter_name(&typed("_")), Some(ParameterName::Named("_".to_string())));
    assert_eq!(parameter_name(&typed("mut x")), None);
    assert_eq!(parameter_name(&typed("(x)")), None);
    assert_eq!(parameter_name(&typed("1")), None);
    assert_eq!(parameter_name(&typed("")), None);
    let receiver = Parameter::Receiver(tokens("&mut self"));
    assert_eq!(parameter_name(&receiver), Some(ParameterName::Receiver));
    assert_eq!(
        parameter_names(&vec![receiver.clone(), typed("x")]),
        Some(vec![ParameterName::Receiver, ParameterName::Named("x".to_string())])
    );
    assert_eq!(parameter_names(&vec![receiver, typed("x"), typed("&y")]), None);
    assert_eq!(parameter_names(&vec![]), Some(vec![]));
}

#[test]
fn a_name_that_no_parameter_has_is_accepted() {
    assert_eq!(
        body("decorator(), hide_parameters = [middle]", CONCAT, false),
        body("decorator(), hide_parameters = []", CONCAT, false)
    );
    assert_eq!(
        body("decorator(), exact_parameters = [middle]", CONCAT, false),
        body("decorator(), exact_parameters = []", CONCAT, false)
    );
}
