use fn_decorator::syntax::lex;
use fn_decorator::token::{
    append_enclosed, append_separated, append_terminated, append_tokens, copy_range, copy_tokens,
    ends_with, find_closing, push_token, render, render_range, same_text, take_trailing_block,
    Grouping, Token,
};

fn word(name: &str) -> Token {
    Token::Ident(name.to_string())
}

#[test]
fn a_source_text_lexes_into_flat_tokens() {
    assert_eq!(
        lex("f(a, 'x') -> [u8; 2]"),
        Some(vec![
            word("f"),
            Token::Open(Grouping::Parenthesis),
            word("a"),
            Token::Punct(',', false),
            Token::Literal("'x'".to_string()),
            Token::Close(Grouping::Parenthesis),
            Token::Punct('-', true),
            Token::Punct('>', false),
            Token::Open(Grouping::Bracket),
            word("u8"),
            Token::Punct(';', false),
            Token::Literal("2".to_string()),
            Token::Close(Grouping::Bracket),
        ])
    );
    assert_eq!(lex(""), Some(vec![]));
    assert_eq!(lex("{ { } }").unwrap().len(), 4);
}

#[test]
fn a_text_that_does_not_lex_gives_nothing() {
    assert_eq!(lex("("), None);
    assert_eq!(lex("a ) b"), None);
    assert_eq!(lex("\"unfinished"), None);
}

#[test]
fn a_lifetime_is_a_joint_quote_and_a_word() {
    assert_eq!(lex("'a"), Some(vec![Token::Punct('\'', true), word("a")]));
}

#[test]
fn tokens_render_with_a_gap_after_each_but_a_joint_one() {
    let tokens = vec![
        word("fn"),
        word("f"),
        Token::Open(Grouping::Parenthesis),
        Token::Punct('&', false),
        Token::Punct('\'', true),
        word("a"),
        word("self"),
        Token::Close(Grouping::Parenthesis),
        Token::Punct('-', true),
        Token::Punct('>', false),
        Token::Open(Grouping::Bracket),
        Token::Literal("\"s\"".to_string()),
        Token::Close(Grouping::Bracket),
        Token::Open(Grouping::Brace),
        Token::Open(Grouping::Invisible),
        Token::Close(Grouping::Invisible),
        Token::Close(Grouping::Brace),
    ];
    assert_eq!(render(&tokens), "fn f ( & 'a self ) -> [ \"s\" ] { } ");
    assert_eq!(render(&vec![]), "");
    assert_eq!(render_range(&tokens, 2, 8), "( & 'a self ) ");
    assert_eq!(render_range(&tokens, 3, 3), "");
}

#[test]
fn rendered_tokens_lex_back_into_themselves() {
    let source = "pub(crate) async fn f<'a, T: Fn(&'a str) -> i64>(x: &'a [T], y: u8) -> Vec<T> \
                  where T: 'a { x.iter().map(|t| t(\"a, b\") >> 1 + -2).collect::<Vec<_>>() }";
    let tokens = lex(source).unwrap();
    assert_eq!(lex(&render(&tokens)), Some(tokens));
}

#[test]
fn the_closing_bracket_of_a_group_is_found() {
    let tokens = lex("f(a, (b, [c]), d) g()").unwrap();
    assert_eq!(find_closing(&tokens, 2), Some(13));
    assert_eq!(find_closing(&tokens, 5), Some(10));
    assert_eq!(find_closing(&tokens, 14), None);
    assert_eq!(find_closing(&tokens, 16), Some(16));
    assert_eq!(find_closing(&tokens, 17), None);
    assert_eq!(find_closing(&tokens, 99), None);
}

#[test]
fn the_block_that_ends_a_sequence_is_taken_with_its_braces() {
    let tokens = lex("fn f() { { a } (b) }").unwrap();
    assert_eq!(take_trailing_block(&tokens).map(|block| render(&block)), Some("{ { a } ( b ) } ".to_string()));
    let tokens = lex("{ a } { b }").unwrap();
    assert_eq!(take_trailing_block(&tokens).map(|block| render(&block)), Some("{ b } ".to_string()));
    assert_eq!(take_trailing_block(&lex("fn f();").unwrap()), None);
    assert_eq!(take_trailing_block(&lex("f(a)").unwrap()), None);
    assert_eq!(take_trailing_block(&lex("").unwrap()), None);
    assert_eq!(take_trailing_block(&vec![Token::Close(Grouping::Brace)]), None);
    assert_eq!(
        take_trailing_block(&vec![word("a"), Token::Close(Grouping::Brace)]),
        None
    );
    assert_eq!(
        take_trailing_block(&vec![
            Token::Open(Grouping::Parenthesis),
            Token::Close(Grouping::Brace)
        ]),
        None
    );
}

#[test]
fn tokens_are_copied_and_appended() {
    let tokens = lex("a + b").unwrap();
    assert_eq!(copy_tokens(&tokens), tokens);
    assert_eq!(copy_range(&tokens, 1, 3), vec![Token::Punct('+', false), word("b")]);
    assert_eq!(copy_range(&tokens, 2, 2), vec![]);
    assert_eq!(tokens[0].duplicate(), word("a"));

    let mut out = vec![word("x")];
    append_tokens(&mut out, &tokens);
    push_token(&mut out, Token::Punct(';', false));
    assert_eq!(render(&out), "x a + b ; ");

    let mut out = vec![word("x")];
    append_enclosed(&mut out, Grouping::Bracket, &tokens);
    assert_eq!(render(&out), "x [ a + b ] ");
}

#[test]
fn items_are_separated_or_terminated_by_commas() {
    let items = vec![lex("a + b").unwrap(), lex("c").unwrap(), vec![]];
    let mut out = vec![word("x")];
    append_separated(&mut out, &items);
    assert_eq!(render(&out), "x a + b , c , ");
    let mut out = vec![word("x")];
    append_terminated(&mut out, &items);
    assert_eq!(render(&out), "x a + b , c , , ");

    let mut out = vec![];
    append_separated(&mut out, &vec![lex("a").unwrap()]);
    assert_eq!(render(&out), "a ");
    let mut out = vec![];
    append_separated(&mut out, &vec![]);
    append_terminated(&mut out, &vec![]);
    assert_eq!(out, vec![]);
}

#[test]
fn tokens_are_told_apart() {
    assert!(word("debug").is_word("debug"));
    assert!(!word("debug").is_word("debu"));
    assert!(!Token::Literal("debug".to_string()).is_word("debug"));
    assert!(Token::Punct('=', true).is_mark('='));
    assert!(Token::Punct('=', false).is_mark('='));
    assert!(!Token::Punct('=', false).is_mark(','));
    assert!(Token::Open(Grouping::Brace).opens(Grouping::Brace));
    assert!(!Token::Open(Grouping::Brace).opens(Grouping::Bracket));
    assert!(!Token::Close(Grouping::Brace).opens(Grouping::Brace));
    assert!(Token::Close(Grouping::Bracket).closes(Grouping::Bracket));
    assert!(!Token::Open(Grouping::Bracket).closes(Grouping::Bracket));
    assert_eq!(Token::word("a"), word("a"));
    assert_eq!(Token::mark('+'), Token::Punct('+', false));
    assert_eq!(Token::joint('+'), Token::Punct('+', true));
    assert!(same_text("self", "self"));
    assert!(!same_text("self", "_self"));
}

#[test]
fn tokens_and_sequences_of_them_are_compared() {
    assert!(word("a").same(&word("a")));
    assert!(!word("a").same(&word("b")));
    assert!(!word("a").same(&Token::Literal("a".to_string())));
    assert!(Token::Literal("1".to_string()).same(&Token::Literal("1".to_string())));
    assert!(!Token::Literal("1".to_string()).same(&Token::Literal("2".to_string())));
    assert!(Token::Punct('+', true).same(&Token::Punct('+', true)));
    assert!(!Token::Punct('+', true).same(&Token::Punct('+', false)));
    assert!(!Token::Punct('+', true).same(&Token::Punct('-', true)));
    assert!(Token::Open(Grouping::Brace).same(&Token::Open(Grouping::Brace)));
    assert!(!Token::Open(Grouping::Brace).same(&Token::Close(Grouping::Brace)));
    assert!(!Token::Close(Grouping::Brace).same(&Token::Close(Grouping::Bracket)));

    let tokens = lex("a + (b)").unwrap();
    assert!(ends_with(&tokens, 0, &tokens));
    assert!(ends_with(&tokens, 2, &lex("(b)").unwrap()));
    assert!(!ends_with(&tokens, 2, &lex("(c)").unwrap()));
    assert!(!ends_with(&tokens, 2, &lex("(b) c").unwrap()));
    assert!(!ends_with(&tokens, 1, &lex("(b)").unwrap()));
    assert!(ends_with(&tokens, 5, &vec![]));
}
