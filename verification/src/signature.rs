//! The function definition that is decorated: its model, how it is read from
//! source text, and how it is written back as tokens.

use vstd::prelude::*;
use crate::syntax::{
    lex, lexed, outer_attributes, parse_heading, parse_interface, parse_outer_attributes,
    parsed_heading, parsed_interface, tokens_of, Input, InputView,
};
use crate::token::{
    append_enclosed, append_separated, append_tokens, comma, copy_tokens, enclosed, push_token,
    separated, take_trailing_block, trailing_block, Grouping, Token, TokenView,
};

verus! {

/// One parameter of a function.
#[derive(Clone, Debug, PartialEq, Eq)]
pub enum Parameter {
    /// The receiver of a method, as it is declared (`&self`, `mut self`).
    Receiver(Vec<Token>),
    /// Any other parameter: a pattern that binds it and its type.
    Typed { attributes: Vec<Token>, pattern: Vec<Token>, ty: Vec<Token> },
}

/// The mathematical value of a [`Parameter`].
pub enum ParameterView {
    Receiver(Seq<TokenView>),
    Typed { attributes: Seq<TokenView>, pattern: Seq<TokenView>, ty: Seq<TokenView> },
}

impl DeepView for Parameter {
    type V = ParameterView;

    open spec fn deep_view(&self) -> ParameterView {
        match self {
            Parameter::Receiver(whole) => ParameterView::Receiver(whole.deep_view()),
            Parameter::Typed { attributes, pattern, ty } => ParameterView::Typed {
                attributes: attributes.deep_view(),
                pattern: pattern.deep_view(),
                ty: ty.deep_view(),
            },
        }
    }
}

impl Parameter {
    /// A copy of this parameter.
    pub fn duplicate(&self) -> (copy: Parameter)
        ensures
            copy.deep_view() == self.deep_view(),
    {
        match self {
            Parameter::Receiver(whole) => Parameter::Receiver(copy_tokens(whole)),
            Parameter::Typed { attributes, pattern, ty } => Parameter::Typed {
                attributes: copy_tokens(attributes),
                pattern: copy_tokens(pattern),
                ty: copy_tokens(ty),
            },
        }
    }

    /// The tokens that declare this parameter in a parameter list.
    pub fn declaration(&self) -> (tokens: Vec<Token>)
        ensures
            tokens.deep_view() == declaration(self.deep_view()),
    {
        match self {
            Parameter::Receiver(whole) => copy_tokens(whole),
            Parameter::Typed { attributes, pattern, ty } => {
                let mut tokens = copy_tokens(attributes);
                append_tokens(&mut tokens, pattern);
                push_token(&mut tokens, Token::mark(':'));
                append_tokens(&mut tokens, ty);
                assert(tokens.deep_view() =~= declaration(self.deep_view()));
                tokens
            },
        }
    }
}

/// The parameter that the parser's pieces describe.
pub open spec fn parameter_of(input: InputView) -> ParameterView {
    match input {
        InputView::Receiver(whole) => ParameterView::Receiver(whole),
        InputView::Typed(attributes, pattern, ty) => ParameterView::Typed { attributes, pattern, ty },
    }
}

/// The tokens that declare a parameter in a parameter list.
pub open spec fn declaration(parameter: ParameterView) -> Seq<TokenView> {
    match parameter {
        ParameterView::Receiver(whole) => whole,
        ParameterView::Typed { attributes, pattern, ty } => (attributes + pattern).push(
            TokenView::Punct(':', false),
        ) + ty,
    }
}

/// A copy of `parameters`.
pub fn copy_parameters(parameters: &Vec<Parameter>) -> (copy: Vec<Parameter>)
    ensures
        copy.deep_view() == parameters.deep_view(),
{
    let mut copy: Vec<Parameter> = Vec::new();
    let mut i: usize = 0;
    while i < parameters.len()
        invariant
            i <= parameters.len(),
            copy.len() == i,
            forall|k: int| 0 <= k < i ==> copy@[k].deep_view() == parameters@[k].deep_view(),
        decreases parameters.len() - i,
    {
        copy.push(parameters[i].duplicate());
        i += 1;
    }
    assert(copy.deep_view() =~= parameters.deep_view());
    copy
}

/// A copy of an optional token sequence.
pub fn copy_optional(tokens: &Option<Vec<Token>>) -> (copy: Option<Vec<Token>>)
    ensures
        copy.deep_view() == tokens.deep_view(),
{
    match tokens {
        Some(present) => Some(copy_tokens(present)),
        None => None,
    }
}

/// The normalized view of a function's signature.
#[derive(Clone, Debug, PartialEq, Eq)]
pub struct FunctionSignature {
    pub name: String,
    /// The visibility as written (`pub`, `pub(crate)`), empty where none is.
    pub visibility: Vec<Token>,
    pub is_default: bool,
    pub is_const: bool,
    pub is_async: bool,
    pub is_unsafe: bool,
    /// `extern` and the name of the ABI, empty where none is written.
    pub abi: Vec<Token>,
    /// The generic parameters with their angle brackets, empty where none are.
    pub generics: Vec<Token>,
    /// The parameters in the order of their declaration.
    pub parameters: Vec<Parameter>,
    /// Whether a comma is written after the last parameter.
    pub trailing_comma: bool,
    /// The marker of a variadic parameter list, empty where none is.
    pub variadic: Vec<Token>,
    /// The type after the arrow, where one is declared.
    pub return_type: Option<Vec<Token>>,
    /// The `where` clause, empty where none is.
    pub where_clause: Vec<Token>,
}

/// The mathematical value of a [`FunctionSignature`].
pub struct FunctionSignatureView {
    pub name: Seq<char>,
    pub visibility: Seq<TokenView>,
    pub is_default: bool,
    pub is_const: bool,
    pub is_async: bool,
    pub is_unsafe: bool,
    pub abi: Seq<TokenView>,
    pub generics: Seq<TokenView>,
    pub parameters: Seq<ParameterView>,
    pub trailing_comma: bool,
    pub variadic: Seq<TokenView>,
    pub return_type: Option<Seq<TokenView>>,
    pub where_clause: Seq<TokenView>,
}

impl DeepView for FunctionSignature {
    type V = FunctionSignatureView;

    open spec fn deep_view(&self) -> FunctionSignatureView {
        FunctionSignatureView {
            name: self.name@,
            visibility: self.visibility.deep_view(),
            is_default: self.is_default,
            is_const: self.is_const,
            is_async: self.is_async,
            is_unsafe: self.is_unsafe,
            abi: self.abi.deep_view(),
            generics: self.generics.deep_view(),
            parameters: self.parameters.deep_view(),
            trailing_comma: self.trailing_comma,
            variadic: self.variadic.deep_view(),
            return_type: self.return_type.deep_view(),
            where_clause: self.where_clause.deep_view(),
        }
    }
}

/// Whether a parameter list holds a receiver.
pub open spec fn has_receiver(parameters: Seq<ParameterView>) -> bool {
    exists|i: int| 0 <= i < parameters.len() && #[trigger] parameters[i] is Receiver
}

/// The one word `word` where `present` holds, nothing otherwise.
pub open spec fn keyword(present: bool, word: Seq<char>) -> Seq<TokenView> {
    if present {
        seq![TokenView::Ident(word)]
    } else {
        Seq::empty()
    }
}

/// The content of the brackets of a parameter list: the declarations
/// separated by commas, then the variadic marker where there is one. A comma
/// follows the last declaration where one was written or the marker comes
/// after it.
pub open spec fn parameter_list(signature: FunctionSignatureView) -> Seq<TokenView> {
    let declared = separated(
        signature.parameters.map_values(|parameter: ParameterView| declaration(parameter)),
    );
    if signature.variadic.len() == 0 {
        if signature.trailing_comma && signature.parameters.len() > 0 {
            declared.push(comma())
        } else {
            declared
        }
    } else if signature.parameters.len() == 0 {
        signature.variadic
    } else {
        declared.push(comma()) + signature.variadic
    }
}

/// The arrow and the type of a declared return type.
pub open spec fn return_tokens(return_type: Option<Seq<TokenView>>) -> Seq<TokenView> {
    match return_type {
        Some(ty) => seq![TokenView::Punct('-', true), TokenView::Punct('>', false)] + ty,
        None => Seq::empty(),
    }
}

/// What stands before the parameter list: visibility, qualifiers, `fn`, the
/// name and the generic parameters.
pub open spec fn heading_tokens(signature: FunctionSignatureView) -> Seq<TokenView> {
    signature.visibility + keyword(signature.is_default, "default"@) + keyword(
        signature.is_const,
        "const"@,
    ) + keyword(signature.is_async, "async"@) + keyword(signature.is_unsafe, "unsafe"@)
        + signature.abi + seq![TokenView::Ident("fn"@), TokenView::Ident(signature.name)]
        + signature.generics
}

/// A signature as tokens: the heading, the parameter list in parentheses, the
/// return type and the `where` clause.
pub open spec fn signature_tokens(signature: FunctionSignatureView) -> Seq<TokenView> {
    heading_tokens(signature) + enclosed(Grouping::Parenthesis, parameter_list(signature))
        + return_tokens(signature.return_type) + signature.where_clause
}

/// Appends the word `word` to `out` where `present` holds.
fn append_keyword(out: &mut Vec<Token>, present: bool, word: &str)
    ensures
        final(out).deep_view() == old(out).deep_view() + keyword(present, word@),
{
    let ghost before = out.deep_view();
    if present {
        push_token(out, Token::word(word));
    }
    assert(out.deep_view() =~= before + keyword(present, word@));
}

impl FunctionSignature {
    /// Whether the function is a method with a receiver.
    pub fn has_receiver(&self) -> (yes: bool)
        ensures
            yes == has_receiver(self.deep_view().parameters),
    {
        let ghost all = self.parameters.deep_view();
        let mut i: usize = 0;
        while i < self.parameters.len()
            invariant
                i <= self.parameters.len(),
                all == self.parameters.deep_view(),
                forall|k: int| 0 <= k < i ==> !(#[trigger] all[k] is Receiver),
            decreases self.parameters.len() - i,
        {
            match &self.parameters[i] {
                Parameter::Receiver(_) => {
                    assert(all[i as int] is Receiver);
                    return true;
                },
                _ => {},
            }
            i += 1;
        }
        false
    }

    /// A copy of this signature.
    pub fn duplicate(&self) -> (copy: FunctionSignature)
        ensures
            copy.deep_view() == self.deep_view(),
    {
        FunctionSignature {
            name: self.name.clone(),
            visibility: copy_tokens(&self.visibility),
            is_default: self.is_default,
            is_const: self.is_const,
            is_async: self.is_async,
            is_unsafe: self.is_unsafe,
            abi: copy_tokens(&self.abi),
            generics: copy_tokens(&self.generics),
            parameters: copy_parameters(&self.parameters),
            trailing_comma: self.trailing_comma,
            variadic: copy_tokens(&self.variadic),
            return_type: copy_optional(&self.return_type),
            where_clause: copy_tokens(&self.where_clause),
        }
    }

    /// The declarations of the parameters, in order.
    fn declarations(&self) -> (items: Vec<Vec<Token>>)
        ensures
            items.deep_view() == self.deep_view().parameters.map_values(
                |parameter: ParameterView| declaration(parameter),
            ),
    {
        let mut items: Vec<Vec<Token>> = Vec::new();
        let mut i: usize = 0;
        while i < self.parameters.len()
            invariant
                i <= self.parameters.len(),
                items.len() == i,
                forall|k: int|
                    0 <= k < i ==> items@[k].deep_view() == declaration(
                        self.parameters@[k].deep_view(),
                    ),
            decreases self.parameters.len() - i,
        {
            items.push(self.parameters[i].declaration());
            i += 1;
        }
        assert(items.deep_view() =~= self.deep_view().parameters.map_values(
            |parameter: ParameterView| declaration(parameter),
        ));
        items
    }

    /// Appends the heading of this signature to `out`.
    fn write_heading(&self, out: &mut Vec<Token>)
        ensures
            final(out).deep_view() == old(out).deep_view() + heading_tokens(self.deep_view()),
    {
        let ghost before = out.deep_view();
        let mut heading = copy_tokens(&self.visibility);
        append_keyword(&mut heading, self.is_default, "default");
        append_keyword(&mut heading, self.is_const, "const");
        append_keyword(&mut heading, self.is_async, "async");
        append_keyword(&mut heading, self.is_unsafe, "unsafe");
        append_tokens(&mut heading, &self.abi);
        let ghost qualified = heading.deep_view();
        push_token(&mut heading, Token::word("fn"));
        push_token(&mut heading, Token::Ident(self.name.clone()));
        assert(heading.deep_view() =~= qualified + seq![
            TokenView::Ident("fn"@),
            TokenView::Ident(self.name@),
        ]);
        append_tokens(&mut heading, &self.generics);
        append_tokens(out, &heading);
    }

    /// Appends the parameter list of this signature to `out`, in its
    /// parentheses.
    fn write_parameter_list(&self, out: &mut Vec<Token>)
        ensures
            final(out).deep_view() == old(out).deep_view() + enclosed(
                Grouping::Parenthesis,
                parameter_list(self.deep_view()),
            ),
    {
        let ghost view = self.deep_view();
        let mut list: Vec<Token> = Vec::new();
        assert(list.deep_view() =~= Seq::<TokenView>::empty());
        let declarations = self.declarations();
        append_separated(&mut list, &declarations);
        assert(list.deep_view() =~= separated(declarations.deep_view()));
        if self.variadic.len() > 0 {
            if self.parameters.len() > 0 {
                push_token(&mut list, Token::mark(','));
            }
            append_tokens(&mut list, &self.variadic);
        } else if self.trailing_comma && self.parameters.len() > 0 {
            push_token(&mut list, Token::mark(','));
        }
        assert(view.variadic.len() == self.variadic.len());
        assert(view.parameters.len() == self.parameters.len());
        assert(view.parameters.len() == 0 ==> separated(declarations.deep_view()).len() == 0);
        assert(list.deep_view() =~= parameter_list(view));
        append_enclosed(out, Grouping::Parenthesis, &list);
    }

    /// Appends the return type of this signature to `out`, after its arrow.
    fn write_return_type(&self, out: &mut Vec<Token>)
        ensures
            final(out).deep_view() == old(out).deep_view() + return_tokens(
                self.deep_view().return_type,
            ),
    {
        let ghost before = out.deep_view();
        match &self.return_type {
            Some(ty) => {
                push_token(out, Token::joint('-'));
                push_token(out, Token::mark('>'));
                append_tokens(out, ty);
                assert(out.deep_view() =~= before + (seq![
                    TokenView::Punct('-', true),
                    TokenView::Punct('>', false),
                ] + ty.deep_view()));
            },
            None => {
                assert(out.deep_view() =~= before + Seq::<TokenView>::empty());
            },
        }
    }

    /// Appends this signature to `out`, as tokens.
    pub fn write(&self, out: &mut Vec<Token>)
        ensures
            final(out).deep_view() == old(out).deep_view() + signature_tokens(self.deep_view()),
    {
        let ghost before = out.deep_view();
        self.write_heading(out);
        self.write_parameter_list(out);
        self.write_return_type(out);
        append_tokens(out, &self.where_clause);
        assert(out.deep_view() =~= before + signature_tokens(self.deep_view()));
    }
}

/// A function definition: what stands before the signature, the signature,
/// and the body.
#[derive(Clone, Debug, PartialEq, Eq)]
pub struct FunctionDefinition {
    /// The outer attributes, doc comments among them.
    pub attributes: Vec<Token>,
    pub signature: FunctionSignature,
    /// The body, its braces included.
    pub body: Vec<Token>,
}

/// The mathematical value of a [`FunctionDefinition`].
pub struct FunctionDefinitionView {
    pub attributes: Seq<TokenView>,
    pub signature: FunctionSignatureView,
    pub body: Seq<TokenView>,
}

impl DeepView for FunctionDefinition {
    type V = FunctionDefinitionView;

    open spec fn deep_view(&self) -> FunctionDefinitionView {
        FunctionDefinitionView {
            attributes: self.attributes.deep_view(),
            signature: self.signature.deep_view(),
            body: self.body.deep_view(),
        }
    }
}

/// A definition as tokens: the attributes, the signature, the body.
pub open spec fn definition_tokens(definition: FunctionDefinitionView) -> Seq<TokenView> {
    definition.attributes + signature_tokens(definition.signature) + definition.body
}

/// The function definition that a source text holds: the pieces that the
/// parser names, and as the body the block that ends the text. Nothing where
/// the text is not one function definition with a body.
pub open spec fn parsed_definition(text: Seq<char>) -> Option<FunctionDefinitionView> {
    if parsed_heading(text) is Some && parsed_interface(text) is Some && outer_attributes(text) is Some
        && lexed(text) is Some && trailing_block(lexed(text)->0) is Some {
        let heading = parsed_heading(text)->0;
        let interface = parsed_interface(text)->0;
        Some(
            FunctionDefinitionView {
                attributes: outer_attributes(text)->0,
                signature: FunctionSignatureView {
                    name: heading.name,
                    visibility: heading.visibility,
                    is_default: heading.is_default,
                    is_const: heading.is_const,
                    is_async: heading.is_async,
                    is_unsafe: heading.is_unsafe,
                    abi: heading.abi,
                    generics: heading.generics,
                    parameters: interface.inputs.map_values(|input: InputView| parameter_of(input)),
                    trailing_comma: heading.trailing_comma,
                    variadic: interface.variadic,
                    return_type: interface.return_type,
                    where_clause: heading.where_clause,
                },
                body: trailing_block(lexed(text)->0)->0,
            },
        )
    } else {
        None
    }
}

/// The parameters that the parser's pieces describe, in order.
fn parameters_of(inputs: &Vec<Input>) -> (parameters: Vec<Parameter>)
    ensures
        parameters.deep_view() == inputs.deep_view().map_values(
            |input: InputView| parameter_of(input),
        ),
{
    let mut parameters: Vec<Parameter> = Vec::new();
    let mut i: usize = 0;
    while i < inputs.len()
        invariant
            i <= inputs.len(),
            parameters.len() == i,
            forall|k: int|
                0 <= k < i ==> parameters@[k].deep_view() == parameter_of(inputs@[k].deep_view()),
        decreases inputs.len() - i,
    {
        let parameter = match &inputs[i] {
            Input::Receiver(whole) => Parameter::Receiver(tokens_of(whole)),
            Input::Typed(attributes, pattern, ty) => Parameter::Typed {
                attributes: tokens_of(attributes),
                pattern: tokens_of(pattern),
                ty: tokens_of(ty),
            },
        };
        parameters.push(parameter);
        i += 1;
    }
    assert(parameters.deep_view() =~= inputs.deep_view().map_values(
        |input: InputView| parameter_of(input),
    ));
    parameters
}

impl FunctionDefinition {
    /// Reads the function definition that `text` holds; nothing where `text`
    /// is not one function definition with a body.
    pub fn parse(text: &str) -> (definition: Option<FunctionDefinition>)
        ensures
            definition.deep_view() == parsed_definition(text@),
    {
        let heading = match parse_heading(text) {
            Some(heading) => heading,
            None => { return None; },
        };
        let interface = match parse_interface(text) {
            Some(interface) => interface,
            None => { return None; },
        };
        let attributes = match parse_outer_attributes(text) {
            Some(attributes) => attributes,
            None => { return None; },
        };
        let tokens = match lex(text) {
            Some(tokens) => tokens,
            None => { return None; },
        };
        let body = match take_trailing_block(&tokens) {
            Some(body) => body,
            None => { return None; },
        };
        let return_type = match &interface.return_type {
            Some(ty) => Some(tokens_of(ty)),
            None => None,
        };
        Some(
            FunctionDefinition {
                attributes: tokens_of(&attributes),
                signature: FunctionSignature {
                    name: heading.name.clone(),
                    visibility: tokens_of(&heading.visibility),
                    is_default: heading.is_default,
                    is_const: heading.is_const,
                    is_async: heading.is_async,
                    is_unsafe: heading.is_unsafe,
                    abi: tokens_of(&heading.abi),
                    generics: tokens_of(&heading.generics),
                    parameters: parameters_of(&interface.inputs),
                    trailing_comma: heading.trailing_comma,
                    variadic: tokens_of(&interface.variadic),
                    return_type,
                    where_clause: tokens_of(&heading.where_clause),
                },
                body,
            },
        )
    }

    /// A copy of this definition.
    pub fn duplicate(&self) -> (copy: FunctionDefinition)
        ensures
            copy.deep_view() == self.deep_view(),
    {
        FunctionDefinition {
            attributes: copy_tokens(&self.attributes),
            signature: self.signature.duplicate(),
            body: copy_tokens(&self.body),
        }
    }

    /// Appends this definition to `out`, as tokens.
    pub fn write(&self, out: &mut Vec<Token>)
        ensures
            final(out).deep_view() == old(out).deep_view() + definition_tokens(self.deep_view()),
    {
        let ghost before = out.deep_view();
        append_tokens(out, &self.attributes);
        self.signature.write(out);
        append_tokens(out, &self.body);
        assert(out.deep_view() =~= before + definition_tokens(self.deep_view()));
    }
}

} // verus!
