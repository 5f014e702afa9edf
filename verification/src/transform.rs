//! The whole transformation: from a directive and a function definition to
//! the source text that takes the function's place.

use vstd::prelude::*;
use vstd::string::StringExecFns;
use crate::directive::{
    grammar_message, DecoratorSpec, DecoratorSpecView, GrammarError, GrammarErrorView, GrammarFault,
};
use crate::generator::{generate_replacement, rename_original, renamed_original, replacement};
use crate::grammar::{parse_directive, parsed_directive};
use crate::signature::{
    definition_tokens, parsed_definition, FunctionDefinition, FunctionDefinitionView,
};
use crate::syntax::{lex, lexed};
use crate::token::{render, rendered, Token, TokenView};

verus! {

/// The two definitions that take the place of a decorated function.
#[derive(Clone, Debug, PartialEq, Eq)]
pub struct Expansion {
    /// The decorated function under its new name.
    pub original: FunctionDefinition,
    /// The function that calls the decorator under the old name.
    pub replacement: FunctionDefinition,
}

/// The mathematical value of an [`Expansion`].
pub struct ExpansionView {
    pub original: FunctionDefinitionView,
    pub replacement: FunctionDefinitionView,
}

impl DeepView for Expansion {
    type V = ExpansionView;

    open spec fn deep_view(&self) -> ExpansionView {
        ExpansionView {
            original: self.original.deep_view(),
            replacement: self.replacement.deep_view(),
        }
    }
}

/// The expansion of a function under a directive: the renamed original and
/// the replacement. Nothing where there is no replacement.
pub open spec fn expansion(
    definition: FunctionDefinitionView,
    spec: DecoratorSpecView,
    is_impl: bool,
) -> Option<ExpansionView> {
    match replacement(definition, spec, is_impl) {
        Some(replacement) => Some(
            ExpansionView { original: renamed_original(definition), replacement },
        ),
        None => None,
    }
}

/// An expansion as tokens: the renamed original, then the replacement.
pub open spec fn expansion_tokens(expansion: ExpansionView) -> Seq<TokenView> {
    definition_tokens(expansion.original) + definition_tokens(expansion.replacement)
}

/// Why a transformation gives no code.
#[derive(Clone, Debug, PartialEq, Eq)]
pub enum TransformError {
    /// The directive is refused.
    Grammar(GrammarError),
    /// What the directive stands on is not one function definition with a
    /// body.
    NotAFunction,
    /// The directive has a selection rule, and the pattern of a parameter is
    /// more than one plain name.
    UnsupportedPattern,
    /// The directive says `debug`: the message is the text of the code that
    /// would have been generated.
    Debug(String),
}

/// The mathematical value of a [`TransformError`].
pub enum TransformErrorView {
    Grammar(GrammarErrorView),
    NotAFunction,
    UnsupportedPattern,
    Debug(Seq<char>),
}

impl DeepView for TransformError {
    type V = TransformErrorView;

    open spec fn deep_view(&self) -> TransformErrorView {
        match self {
            TransformError::Grammar(error) => TransformErrorView::Grammar(error.deep_view()),
            TransformError::NotAFunction => TransformErrorView::NotAFunction,
            TransformError::UnsupportedPattern => TransformErrorView::UnsupportedPattern,
            TransformError::Debug(message) => TransformErrorView::Debug(message@),
        }
    }
}

/// The diagnostic for a transformation error.
pub open spec fn error_message(error: TransformErrorView) -> Seq<char> {
    match error {
        TransformErrorView::Grammar(error) => grammar_message(error.fault),
        TransformErrorView::NotAFunction => "expected a function with a body"@,
        TransformErrorView::UnsupportedPattern => "a selection rule needs every parameter to be a plain name"@,
        TransformErrorView::Debug(message) => message,
    }
}

impl TransformError {
    /// The diagnostic for this error.
    pub fn message(&self) -> (text: String)
        ensures
            text@ == error_message(self.deep_view()),
    {
        match self {
            TransformError::Grammar(error) => error.message(),
            TransformError::NotAFunction => String::from_str("expected a function with a body"),
            TransformError::UnsupportedPattern => String::from_str(
                "a selection rule needs every parameter to be a plain name",
            ),
            TransformError::Debug(message) => message.clone(),
        }
    }
}

/// What the transformation of a parsed function under a parsed directive
/// gives: the text of the expansion, or, where the directive says `debug`,
/// the error whose message is that text.
pub open spec fn outcome(
    definition: FunctionDefinitionView,
    spec: DecoratorSpecView,
    is_impl: bool,
) -> Result<Seq<char>, TransformErrorView> {
    match expansion(definition, spec, is_impl) {
        Some(expansion) => {
            let code = rendered(expansion_tokens(expansion));
            if spec.debug {
                Err(TransformErrorView::Debug(code))
            } else {
                Ok(code)
            }
        },
        None => Err(TransformErrorView::UnsupportedPattern),
    }
}

/// What the transformation of a function's source text under a directive's
/// source text gives. The directive is read first: an error in it wins over
/// one in the function.
pub open spec fn transformed(arg: Seq<char>, input: Seq<char>, is_impl: bool) -> Result<
    Seq<char>,
    TransformErrorView,
> {
    match lexed(arg) {
        Some(tokens) => match parsed_directive(tokens) {
            Ok(spec) => match parsed_definition(input) {
                Some(definition) => outcome(definition, spec, is_impl),
                None => Err(TransformErrorView::NotAFunction),
            },
            Err(error) => Err(TransformErrorView::Grammar(error)),
        },
        None => Err(
            TransformErrorView::Grammar(GrammarErrorView { fault: GrammarFault::Unlexable, at: 0 }),
        ),
    }
}

/// Whether `result` is the result that `expected` describes.
pub open spec fn is_result(
    result: Result<String, TransformError>,
    expected: Result<Seq<char>, TransformErrorView>,
) -> bool {
    match result {
        Ok(code) => expected == Ok::<Seq<char>, TransformErrorView>(code@),
        Err(error) => expected == Err::<Seq<char>, TransformErrorView>(error.deep_view()),
    }
}

/// Expands `definition` under `spec`; nothing where `spec` has a selection
/// rule and the pattern of a parameter is more than one plain name.
pub fn expand(definition: &FunctionDefinition, spec: &DecoratorSpec, is_impl: bool) -> (expanded:
    Option<Expansion>)
    ensures
        expanded.deep_view() == expansion(definition.deep_view(), spec.deep_view(), is_impl),
{
    match generate_replacement(definition, spec, is_impl) {
        Some(replacement) => Some(Expansion { original: rename_original(definition), replacement }),
        None => None,
    }
}

impl Expansion {
    /// This expansion as tokens.
    pub fn tokens(&self) -> (tokens: Vec<Token>)
        ensures
            tokens.deep_view() == expansion_tokens(self.deep_view()),
    {
        let mut tokens: Vec<Token> = Vec::new();
        assert(tokens.deep_view() =~= Seq::<TokenView>::empty());
        self.original.write(&mut tokens);
        self.replacement.write(&mut tokens);
        assert(tokens.deep_view() =~= expansion_tokens(self.deep_view()));
        tokens
    }
}

/// Transforms a parsed function under a parsed directive.
pub fn decorate(definition: &FunctionDefinition, spec: &DecoratorSpec, is_impl: bool) -> (result:
    Result<String, TransformError>)
    ensures
        is_result(result, outcome(definition.deep_view(), spec.deep_view(), is_impl)),
{
    match expand(definition, spec, is_impl) {
        Some(expanded) => {
            let code = render(&expanded.tokens());
            if spec.debug {
                Err(TransformError::Debug(code))
            } else {
                Ok(code)
            }
        },
        None => Err(TransformError::UnsupportedPattern),
    }
}

/// Transforms the function that `input` holds under the directive that `arg`
/// holds; `is_impl` says that the function is a member of a type.
pub fn use_decorator_impl(arg: &str, input: &str, is_impl: bool) -> (result: Result<
    String,
    TransformError,
>)
    ensures
        is_result(result, transformed(arg@, input@, is_impl)),
{
    let tokens = match lex(arg) {
        Some(tokens) => tokens,
        None => {
            return Err(
                TransformError::Grammar(GrammarError { fault: GrammarFault::Unlexable, at: 0 }),
            );
        },
    };
    let spec = match parse_directive(&tokens) {
        Ok(spec) => spec,
        Err(error) => { return Err(TransformError::Grammar(error)); },
    };
    let definition = match FunctionDefinition::parse(input) {
        Some(definition) => definition,
        None => { return Err(TransformError::NotAFunction); },
    };
    decorate(&definition, &spec, is_impl)
}

} // verus!
