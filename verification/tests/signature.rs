use fn_decorator::signature::{
    copy_optional, copy_parameters, FunctionDefinition, FunctionSignature, Parameter,
};
use fn_decorator::syntax::lex;
use fn_decorator::token::{render, Token};

fn tokens(code: &str) -> Vec<Token> {
    lex(code).unwrap()
}

fn written(definition: &FunctionDefinition) -> String {
    let mut out = Vec::new();
    definition.write(&mut out);
    render(&out)
}

#[test]
fn a_plain_function_is_read() {
    let definition = FunctionDefinition::parse("fn double(x: i64) -> i64 { x * 2 }").unwrap();
    assert_eq!(
        definition,
        FunctionDefinition {
            attributes: vec![],
            signature: FunctionSignature {
                name: "double".to_string(),
                visibility: vec![],
                is_default: false,
                is_const: false,
                is_async: false,
                is_unsafe: false,
                abi: vec![],
                generics: vec![],
                parameters: vec![Parameter::Typed {
                    attributes: vec![],
                    pattern: tokens("x"),
                    ty: tokens("i64"),
                }],
                trailing_comma: false,
                variadic: vec![],
                return_type: Some(tokens("i64")),
                where_clause: vec![],
            },
            body: tokens("{ x * 2 }"),
        }
    );
    assert!(!definition.signature.has_receiver());
}

#[test]
fn every_part_of_a_definition_is_read() {
    let definition = FunctionDefinition::parse(
        "/// Adds.
         #[inline]
         pub(crate) default const async unsafe extern \"C\" fn add<'a, T: Copy>(
             #[allow(unused)] &'a mut self,
             (a, b): (T, T),
             #[cfg(any())] mut c: &'a [T],
         ) -> Option<T>
         where
             T: 'a,
         {
             #![allow(unused)]
             None
         }",
    )
    .unwrap();
    assert_eq!(render(&definition.attributes), "# [ doc = \" Adds.\" ] # [ inline ] ");
    let signature = &definition.signature;
    assert_eq!(signature.name, "add");
    assert_eq!(render(&signature.visibility), "pub ( crate ) ");
    assert!(signature.is_default);
    assert!(signature.is_const);
    assert!(signature.is_async);
    assert!(signature.is_unsafe);
    assert_eq!(render(&signature.abi), "extern \"C\" ");
    assert_eq!(render(&signature.generics), "< 'a , T : Copy > ");
    assert_eq!(render(&signature.where_clause), "where T : 'a , ");
    assert_eq!(signature.return_type.as_ref().map(render), Some("Option < T > ".to_string()));
    assert_eq!(signature.variadic, vec![]);
    let declared: Vec<String> =
        signature.parameters.iter().map(|parameter| render(&parameter.declaration())).collect();
    assert_eq!(
        declared,
        vec![
            "# [ allow ( unused ) ] & 'a mut self ",
            "( a , b ) : ( T , T ) ",
            "# [ cfg ( any ( ) ) ] mut c : & 'a [ T ] ",
        ]
    );
    assert!(matches!(signature.parameters[0], Parameter::Receiver(_)));
    assert_eq!(
        signature.parameters[1],
        Parameter::Typed { attributes: vec![], pattern: tokens("(a, b)"), ty: tokens("(T, T)") }
    );
    assert!(matches!(
        &signature.parameters[2],
        Parameter::Typed { attributes, pattern, .. }
            if *attributes == tokens("#[cfg(any())]") && *pattern == tokens("mut c")
    ));
    assert!(signature.has_receiver());
    assert_eq!(render(&definition.body), "{ #! [ allow ( unused ) ] None } ");
}

#[test]
fn a_definition_is_written_in_the_order_of_the_language() {
    let definition = FunctionDefinition::parse(
        "#[inline] pub default const async unsafe extern \"C\" fn f<T>(self: Box<Self>, #[a] x: T) -> T \
         where T: Copy { x }",
    )
    .unwrap();
    assert_eq!(
        written(&definition),
        "# [ inline ] pub default const async unsafe extern \"C\" fn f < T > \
         ( self : Box < Self > , # [ a ] x : T ) -> T where T : Copy { x } "
    );
    let mut out = tokens("a b");
    definition.signature.write(&mut out);
    assert_eq!(
        render(&out),
        "a b pub default const async unsafe extern \"C\" fn f < T > \
         ( self : Box < Self > , # [ a ] x : T ) -> T where T : Copy "
    );
}

#[test]
fn what_is_written_reads_back_as_the_same_definition() {
    for source in [
        "fn f() {}",
        "pub fn get_1() -> i64 { 1 }",
        "async fn concat(&mut self, right: String) -> &String { self.left.push_str(&right); &self.left }",
        "pub(super) unsafe fn g<'a, T: 'a + Fn(u8) -> u8>(&'a self, f: T, _: ()) -> impl Iterator<Item = u8> + 'a where T: Copy { loop {} }",
        "unsafe extern \"C\" fn printf(format: *const u8, args: ...) {}",
        "unsafe extern \"C\" fn only(...) {}",
        "fn trailing(&self, a: u8,) {}",
    ] {
        let definition = FunctionDefinition::parse(source).unwrap();
        assert_eq!(FunctionDefinition::parse(&written(&definition)), Some(definition));
    }
}

#[test]
fn a_variadic_marker_follows_the_parameters() {
    let definition =
        FunctionDefinition::parse("unsafe extern \"C\" fn printf(format: *const u8, args: ...) {}")
            .unwrap();
    assert_eq!(render(&definition.signature.variadic), "args : ... ");
    assert_eq!(
        written(&definition),
        "unsafe extern \"C\" fn printf ( format : * const u8 , args : ... ) { } "
    );
    let definition = FunctionDefinition::parse("unsafe extern \"C\" fn only(...) {}").unwrap();
    assert_eq!(written(&definition), "unsafe extern \"C\" fn only ( ... ) { } ");
}

#[test]
fn a_comma_after_the_last_parameter_is_kept() {
    let definition = FunctionDefinition::parse("fn f(a: u8, b: u8,) {}").unwrap();
    assert!(definition.signature.trailing_comma);
    assert_eq!(written(&definition), "fn f ( a : u8 , b : u8 , ) { } ");
    let definition = FunctionDefinition::parse("fn f(a: u8, b: u8) {}").unwrap();
    assert!(!definition.signature.trailing_comma);
    assert_eq!(written(&definition), "fn f ( a : u8 , b : u8 ) { } ");
    let definition = FunctionDefinition::parse("fn f() {}").unwrap();
    assert!(!definition.signature.trailing_comma);
    let mut none = definition;
    none.signature.trailing_comma = true;
    assert_eq!(written(&none), "fn f ( ) { } ");
    assert_eq!(
        fn_decorator::use_decorator("d()", "fn f(&self, a: u8,) {}"),
        Ok("fn f_fn_decorator_original ( & self , a : u8 , ) { } \
            fn f ( & self , a : u8 , ) { d ( f_fn_decorator_original , self , a ) } "
            .to_string())
    );
}

#[test]
fn what_is_no_function_with_a_body_is_not_read() {
    assert_eq!(FunctionDefinition::parse(""), None);
    assert_eq!(FunctionDefinition::parse("struct S;"), None);
    assert_eq!(FunctionDefinition::parse("fn f();"), None);
    assert_eq!(FunctionDefinition::parse("fn f() {} fn g() {}"), None);
    assert_eq!(FunctionDefinition::parse("fn f() {"), None);
    assert_eq!(FunctionDefinition::parse("fn f(x) {}"), None);
}

#[test]
fn a_parameter_is_declared_by_its_pattern_and_type() {
    let receiver = Parameter::Receiver(tokens("&mut self"));
    assert_eq!(render(&receiver.declaration()), "& mut self ");
    let typed = Parameter::Typed {
        attributes: tokens("#[a]"),
        pattern: tokens("(x, y)"),
        ty: tokens("(u8, u8)"),
    };
    assert_eq!(render(&typed.declaration()), "# [ a ] ( x , y ) : ( u8 , u8 ) ");
    assert_eq!(typed.duplicate(), typed);
    assert_eq!(receiver.duplicate(), receiver);
    let both = vec![receiver, typed];
    assert_eq!(copy_parameters(&both), both);
    assert_eq!(copy_optional(&Some(tokens("u8"))), Some(tokens("u8")));
    assert_eq!(copy_optional(&None), None);
}

#[test]
fn a_definition_is_copied_whole() {
    let definition = FunctionDefinition::parse(
        "#[inline] pub async fn f<T>(&self, x: T) -> T where T: Copy { x }",
    )
    .unwrap();
    assert_eq!(definition.duplicate(), definition);
    assert_eq!(definition.signature.duplicate(), definition.signature);
}
