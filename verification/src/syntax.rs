//! The calls into the lexer and the parser of the host language.
//!
//! The contracts of the functions in this file that call `proc_macro2` and
//! `syn` are not proved: they state what those crates do, and the rest of
//! the library is proved from these statements. A result that only the
//! outside code can determine has a name here, a function of the source text
//! that was handed over.
//!
//! `proc_macro2` has two lexers, the compiler's and its own, and one switch
//! for the whole process that picks between them. This library lexes with
//! `proc_macro2`'s own lexer wherever it runs: every function here that lexes
//! a text first sets the switch with `proc_macro2::fallback::force`, and
//! nothing here sets it back. So what a text lexes into is the same inside a
//! procedural macro and outside one.

use vstd::prelude::*;
use crate::token::{Grouping, Token, TokenView};
use proc_macro2::{Delimiter, Spacing, TokenStream, TokenTree};
use quote::ToTokens;
use syn::parse::{ParseStream, Parser};
use syn::punctuated::Punctuated;
use syn::{FnArg, ReturnType};

verus! {

/// `proc_macro2::TokenStream`, carried through as it is: what it holds is
/// read with [`tokens_of`] only.
#[verifier::external_type_specification]
#[verifier::external_body]
pub struct ExTokenStream(proc_macro2::TokenStream);

/// The tokens that a token stream holds, in order, each group written out as
/// its opening bracket, its content and its closing bracket.
pub uninterp spec fn stream_tokens(stream: TokenStream) -> Seq<TokenView>;

/// The tokens of a source text, as `proc_macro2`'s own lexer gives them, or
/// nothing where the text does not lex.
pub uninterp spec fn lexed(text: Seq<char>) -> Option<Seq<TokenView>>;

/// A path at the start of a source text: the path as the parser of `syn`
/// prints it back, and the tokens that follow it. Nothing where no path
/// starts the text.
pub uninterp spec fn path_prefix(text: Seq<char>) -> Option<(Seq<TokenView>, Seq<TokenView>)>;

/// A type at the start of a source text: the type as the parser of `syn`
/// prints it back, and the tokens that follow it. Nothing where no type
/// starts the text.
pub uninterp spec fn type_prefix(text: Seq<char>) -> Option<(Seq<TokenView>, Seq<TokenView>)>;

/// The expressions of a source text that is one expression or more,
/// separated by commas and with no comma after the last, each as the parser
/// of `syn` prints it back. Nothing where the text is no such list.
pub uninterp spec fn expression_list(text: Seq<char>) -> Option<Seq<Seq<TokenView>>>;

/// The outer attributes at the start of a source text, as the parser prints
/// them back. Nothing where the text does not lex or an attribute is
/// malformed.
pub uninterp spec fn outer_attributes(text: Seq<char>) -> Option<Seq<TokenView>>;

/// The heading of the function definition that a source text holds. Nothing
/// where the text is not one function definition with a body.
pub uninterp spec fn parsed_heading(text: Seq<char>) -> Option<HeadingView>;

/// The parameters and the return type of the function definition that a
/// source text holds. Nothing where the text is not one function definition
/// with a body.
pub uninterp spec fn parsed_interface(text: Seq<char>) -> Option<InterfaceView>;

/// What stands around the parameter list of a function definition, each
/// piece as the parser prints it, and whether the list ends in a comma.
pub struct Heading {
    pub visibility: TokenStream,
    pub is_default: bool,
    pub is_const: bool,
    pub is_async: bool,
    pub is_unsafe: bool,
    pub abi: TokenStream,
    pub name: String,
    pub generics: TokenStream,
    pub where_clause: TokenStream,
    pub trailing_comma: bool,
}

/// The mathematical value of a [`Heading`].
pub struct HeadingView {
    pub visibility: Seq<TokenView>,
    pub is_default: bool,
    pub is_const: bool,
    pub is_async: bool,
    pub is_unsafe: bool,
    pub abi: Seq<TokenView>,
    pub name: Seq<char>,
    pub generics: Seq<TokenView>,
    pub where_clause: Seq<TokenView>,
    pub trailing_comma: bool,
}

impl DeepView for Heading {
    type V = HeadingView;

    open spec fn deep_view(&self) -> HeadingView {
        HeadingView {
            visibility: stream_tokens(self.visibility),
            is_default: self.is_default,
            is_const: self.is_const,
            is_async: self.is_async,
            is_unsafe: self.is_unsafe,
            abi: stream_tokens(self.abi),
            name: self.name@,
            generics: stream_tokens(self.generics),
            where_clause: stream_tokens(self.where_clause),
            trailing_comma: self.trailing_comma,
        }
    }
}

/// One parameter of a function definition, each piece as the parser prints
/// it.
pub enum Input {
    /// The receiver, whole.
    Receiver(TokenStream),
    /// The attributes, the pattern and the type of any other parameter.
    Typed(TokenStream, TokenStream, TokenStream),
}

/// The mathematical value of an [`Input`].
pub enum InputView {
    Receiver(Seq<TokenView>),
    Typed(Seq<TokenView>, Seq<TokenView>, Seq<TokenView>),
}

impl DeepView for Input {
    type V = InputView;

    open spec fn deep_view(&self) -> InputView {
        match self {
            Input::Receiver(whole) => InputView::Receiver(stream_tokens(*whole)),
            Input::Typed(attributes, pattern, ty) => InputView::Typed(
                stream_tokens(*attributes),
                stream_tokens(*pattern),
                stream_tokens(*ty),
            ),
        }
    }
}

/// The parameter list and the return type of a function definition.
pub struct Interface {
    pub inputs: Vec<Input>,
    pub variadic: TokenStream,
    pub return_type: Option<TokenStream>,
}

/// The mathematical value of an [`Interface`].
pub struct InterfaceView {
    pub inputs: Seq<InputView>,
    pub variadic: Seq<TokenView>,
    pub return_type: Option<Seq<TokenView>>,
}

impl DeepView for Interface {
    type V = InterfaceView;

    open spec fn deep_view(&self) -> InterfaceView {
        InterfaceView {
            inputs: self.inputs.deep_view(),
            variadic: stream_tokens(self.variadic),
            return_type: match self.return_type {
                Some(ty) => Some(stream_tokens(ty)),
                None => None,
            },
        }
    }
}

/// `proc_macro2::fallback::force`, then `proc_macro2::TokenStream::from_str`:
/// lexes a source text with `proc_macro2`'s own lexer, which reads nothing
/// but the text.
#[verifier::external_body]
pub(crate) fn lex_stream(text: &str) -> (stream: Option<TokenStream>)
    ensures
        stream.is_some() == lexed(text@).is_some(),
        stream matches Some(s) ==> lexed(text@) == Some(stream_tokens(s)),
{
    proc_macro2::fallback::force();
    text.parse::<TokenStream>().ok()
}

/// Walks a `proc_macro2::TokenStream` and appends each of its token trees to
/// `out`: a word by `Ident::to_string`, a punctuation by `Punct::as_char` and
/// `Punct::spacing`, a literal by `Literal::to_string`, and a group as its
/// opening bracket, the content of `Group::stream` and its closing bracket.
#[verifier::external_body]
pub(crate) fn flatten(stream: &TokenStream, out: &mut Vec<Token>)
    ensures
        final(out).deep_view() == old(out).deep_view() + stream_tokens(*stream),
{
    for tree in stream.clone() {
        match tree {
            TokenTree::Ident(word) => out.push(Token::Ident(word.to_string())),
            TokenTree::Punct(mark) => out.push(Token::Punct(mark.as_char(), mark.spacing() == Spacing::Joint)),
            TokenTree::Literal(literal) => out.push(Token::Literal(literal.to_string())),
            TokenTree::Group(group) => {
                let kind = match group.delimiter() {
                    Delimiter::Parenthesis => Grouping::Parenthesis, Delimiter::Brace => Grouping::Brace,
                    Delimiter::Bracket => Grouping::Bracket, Delimiter::None => Grouping::Invisible,
                };
                out.push(Token::Open(kind)); flatten(&group.stream(), out); out.push(Token::Close(kind));
            }
        }
    }
}

/// `syn::Path::parse` on the start of a source text, through
/// `Parser::parse_str` after `proc_macro2::fallback::force`: the path,
/// printed back with `ToTokens`, and the tokens after it.
#[verifier::external_body]
pub(crate) fn parse_path_prefix(text: &str) -> (parts: Option<(TokenStream, TokenStream)>)
    ensures
        parts.is_some() == path_prefix(text@).is_some(),
        parts matches Some((path, rest)) ==> path_prefix(text@) == Some(
            (stream_tokens(path), stream_tokens(rest)),
        ),
{
    proc_macro2::fallback::force();
    let split = |input: ParseStream| Ok((input.parse::<syn::Path>()?, input.parse::<TokenStream>()?));
    let (path, rest) = split.parse_str(text).ok()?;
    Some((path.to_token_stream(), rest))
}

/// `syn::Type::parse` on the start of a source text, through
/// `Parser::parse_str` after `proc_macro2::fallback::force`: the type,
/// printed back with `ToTokens`, and the tokens after it.
#[verifier::external_body]
pub(crate) fn parse_type_prefix(text: &str) -> (parts: Option<(TokenStream, TokenStream)>)
    ensures
        parts.is_some() == type_prefix(text@).is_some(),
        parts matches Some((ty, rest)) ==> type_prefix(text@) == Some(
            (stream_tokens(ty), stream_tokens(rest)),
        ),
{
    proc_macro2::fallback::force();
    let split = |input: ParseStream| Ok((input.parse::<syn::Type>()?, input.parse::<TokenStream>()?));
    let (ty, rest) = split.parse_str(text).ok()?;
    Some((ty.to_token_stream(), rest))
}

/// `Punctuated::<syn::Expr, Comma>::parse_separated_nonempty` on a whole
/// source text, through `Parser::parse_str` after
/// `proc_macro2::fallback::force`: the expressions in order, each printed
/// back with `ToTokens`.
#[verifier::external_body]
pub(crate) fn parse_expression_list(text: &str) -> (list: Option<Vec<TokenStream>>)
    ensures
        list.is_some() == expression_list(text@).is_some(),
        list matches Some(items) ==> expression_list(text@) == Some(
            items@.map_values(|item: TokenStream| stream_tokens(item)),
        ),
{
    proc_macro2::fallback::force();
    let items = Punctuated::<syn::Expr, syn::token::Comma>::parse_separated_nonempty.parse_str(text).ok()?;
    Some(items.into_iter().map(|item| item.to_token_stream()).collect())
}

/// `syn::Attribute::parse_outer` on the start of a source text, through
/// `Parser::parse_str` after `proc_macro2::fallback::force`: the attributes,
/// printed back with `ToTokens`.
#[verifier::external_body]
pub(crate) fn parse_outer_attributes(text: &str) -> (attributes: Option<TokenStream>)
    ensures
        attributes.is_some() == outer_attributes(text@).is_some(),
        attributes matches Some(a) ==> outer_attributes(text@) == Some(stream_tokens(a)),
{
    proc_macro2::fallback::force();
    let split = |input: ParseStream| Ok((syn::Attribute::parse_outer(input)?, input.parse::<TokenStream>()?));
    let (attributes, _) = split.parse_str(text).ok()?;
    Some(attributes.iter().map(|attribute| attribute.to_token_stream()).collect())
}

/// `syn::parse_str::<syn::ImplItemFn>` after `proc_macro2::fallback::force`,
/// and of the item that it gives the fields around the parameter list: the
/// flags as they are, the name by `Ident::to_string`, the others printed with
/// `ToTokens`; and whether a comma follows the last parameter, by
/// `Punctuated::trailing_punct`.
#[verifier::external_body]
pub(crate) fn parse_heading(text: &str) -> (heading: Option<Heading>)
    ensures
        heading.is_some() == parsed_heading(text@).is_some(),
        heading matches Some(h) ==> parsed_heading(text@) == Some(h.deep_view()),
{
    proc_macro2::fallback::force();
    let item = syn::parse_str::<syn::ImplItemFn>(text).ok()?;
    Some(Heading {
        visibility: item.vis.to_token_stream(),
        is_default: item.defaultness.is_some(),
        is_const: item.sig.constness.is_some(),
        is_async: item.sig.asyncness.is_some(),
        is_unsafe: item.sig.unsafety.is_some(),
        abi: item.sig.abi.to_token_stream(),
        name: item.sig.ident.to_string(),
        generics: item.sig.generics.to_token_stream(),
        where_clause: item.sig.generics.where_clause.to_token_stream(),
        trailing_comma: item.sig.inputs.trailing_punct(),
    })
}

/// `syn::parse_str::<syn::ImplItemFn>` after `proc_macro2::fallback::force`,
/// and of the item that it gives the parameters in order, the variadic
/// marker and the type after the arrow, each printed with `ToTokens`.
#[verifier::external_body]
pub(crate) fn parse_interface(text: &str) -> (interface: Option<Interface>)
    ensures
        interface.is_some() == parsed_interface(text@).is_some(),
        interface matches Some(i) ==> parsed_interface(text@) == Some(i.deep_view()),
{
    proc_macro2::fallback::force();
    let item = syn::parse_str::<syn::ImplItemFn>(text).ok()?;
    let inputs = item.sig.inputs.iter().map(|input| match input {
        FnArg::Receiver(whole) => Input::Receiver(whole.to_token_stream()),
        FnArg::Typed(typed) => Input::Typed(
            typed.attrs.iter().map(|attribute| attribute.to_token_stream()).collect(),
            typed.pat.to_token_stream(),
            typed.ty.to_token_stream(),
        ),
    }).collect();
    let return_type = match &item.sig.output {
        ReturnType::Default => None,
        ReturnType::Type(_, ty) => Some(ty.to_token_stream()),
    };
    Some(Interface { inputs, variadic: item.sig.variadic.to_token_stream(), return_type })
}

/// The tokens of `stream`, as a sequence of its own.
pub fn tokens_of(stream: &TokenStream) -> (tokens: Vec<Token>)
    ensures
        tokens.deep_view() == stream_tokens(*stream),
{
    let mut tokens: Vec<Token> = Vec::new();
    assert(tokens.deep_view() =~= Seq::<TokenView>::empty());
    flatten(stream, &mut tokens);
    assert(tokens.deep_view() =~= stream_tokens(*stream));
    tokens
}

/// Lexes a source text into tokens; nothing where the text does not lex
/// (an unbalanced bracket, an unfinished literal).
pub fn lex(text: &str) -> (tokens: Option<Vec<Token>>)
    ensures
        tokens.deep_view() == lexed(text@),
{
    match lex_stream(text) {
        None => None,
        Some(stream) => Some(tokens_of(&stream)),
    }
}

} // verus!
