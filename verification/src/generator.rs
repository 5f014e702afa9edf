//! The code generator: from a function definition and a directive to the
//! two definitions that take the function's place.

use vstd::prelude::*;
use vstd::string::StringExecFns;
use crate::directive::{DecoratorSpec, DecoratorSpecView};
use crate::selection::{forwarded, select_parameters, ParameterName, ParameterNameView};
use crate::signature::{
    has_receiver, keyword, FunctionDefinition, FunctionDefinitionView, FunctionSignature,
    FunctionSignatureView, Parameter, ParameterView,
};
use crate::token::{
    append_enclosed, append_separated, append_terminated, append_tokens, comma, copy_tokens,
    enclosed, push_token, separated, terminated, Grouping, Token, TokenView,
};

verus! {

/// The name under which the decorated function lives on.
pub open spec fn renamed(name: Seq<char>) -> Seq<char> {
    name + "_fn_decorator_original"@
}

/// The decorated function under its new name, otherwise as it was written.
pub open spec fn renamed_original(definition: FunctionDefinitionView) -> FunctionDefinitionView {
    FunctionDefinitionView {
        signature: FunctionSignatureView {
            name: renamed(definition.signature.name),
            ..definition.signature
        },
        ..definition
    }
}

/// The slot of a parameter: the receiver, or the name that its pattern
/// binds. Nothing where the pattern is more than one plain name.
pub open spec fn name_of(parameter: ParameterView) -> Option<ParameterNameView> {
    match parameter {
        ParameterView::Receiver(_) => Some(ParameterNameView::Receiver),
        ParameterView::Typed { pattern, .. } => if pattern.len() == 1 && pattern[0] is Ident {
            Some(ParameterNameView::Named(pattern[0]->Ident_0))
        } else {
            None
        },
    }
}

/// The slots of all parameters, in order. Nothing where one of them has
/// none.
pub open spec fn names_of(parameters: Seq<ParameterView>) -> Option<Seq<ParameterNameView>> {
    if forall|i: int| 0 <= i < parameters.len() ==> name_of(#[trigger] parameters[i]) is Some {
        Some(parameters.map_values(|parameter: ParameterView| name_of(parameter)->0))
    } else {
        None
    }
}

/// The expression that refers to the renamed original: a member of the
/// enclosing type for a method, the bare name for a free function.
pub open spec fn target(name: Seq<char>, is_impl: bool) -> Seq<TokenView> {
    if is_impl {
        seq![
            TokenView::Ident("Self"@),
            TokenView::Punct(':', true),
            TokenView::Punct(':', false),
            TokenView::Ident(renamed(name)),
        ]
    } else {
        seq![TokenView::Ident(renamed(name))]
    }
}

/// What follows a call that is suspended on: `.await` where the decorated
/// function is asynchronous, nothing otherwise.
pub open spec fn suspension(is_async: bool) -> Seq<TokenView> {
    if is_async {
        seq![TokenView::Punct('.', false), TokenView::Ident("await"@)]
    } else {
        Seq::empty()
    }
}

/// A parameter as the replacement function itself names it: the receiver as
/// `self`, any other by its pattern.
pub open spec fn passed(parameter: ParameterView) -> Seq<TokenView> {
    match parameter {
        ParameterView::Receiver(_) => seq![TokenView::Ident("self"@)],
        ParameterView::Typed { pattern, .. } => pattern,
    }
}

/// A parameter as the nested callable names it: the receiver as `_self`, any
/// other by its name.
pub open spec fn bound(parameter: ParameterNameView) -> Seq<TokenView> {
    match parameter {
        ParameterNameView::Receiver => seq![TokenView::Ident("_self"@)],
        ParameterNameView::Named(name) => seq![TokenView::Ident(name)],
    }
}

/// The statement that binds the receiver to `_self`, where there is one to
/// bind; nothing otherwise.
pub open spec fn rebinding(bind: bool) -> Seq<TokenView> {
    if bind {
        seq![
            TokenView::Ident("let"@),
            TokenView::Ident("_self"@),
            TokenView::Punct('=', false),
            TokenView::Ident("self"@),
            TokenView::Punct(';', false),
        ]
    } else {
        Seq::empty()
    }
}

/// The call of the decorator with the renamed original itself: the
/// directive's arguments, the renamed original, then every parameter in the
/// order of its declaration; suspended on where the function is asynchronous.
pub open spec fn direct_call(
    spec: DecoratorSpecView,
    signature: FunctionSignatureView,
    is_impl: bool,
) -> Seq<TokenView> {
    spec.decorator_path + enclosed(
        Grouping::Parenthesis,
        (terminated(spec.decorator_args) + target(signature.name, is_impl)).push(comma())
            + separated(signature.parameters.map_values(|parameter: ParameterView| passed(parameter))),
    ) + suspension(signature.is_async)
}

/// The nested callable: it takes the forwarded parameters and calls the
/// renamed original with all parameters, in the order of their declaration;
/// it is asynchronous, and suspends on that call, where the function is
/// asynchronous.
pub open spec fn callable(
    name: Seq<char>,
    all: Seq<ParameterNameView>,
    kept: Seq<ParameterNameView>,
    is_async: bool,
    is_impl: bool,
) -> Seq<TokenView> {
    seq![TokenView::Ident("move"@), TokenView::Punct('|', false)] + separated(
        kept.map_values(|parameter: ParameterNameView| bound(parameter)),
    ) + seq![TokenView::Punct('|', false)] + keyword(is_async, "async"@) + enclosed(
        Grouping::Brace,
        target(name, is_impl) + enclosed(
            Grouping::Parenthesis,
            separated(all.map_values(|parameter: ParameterNameView| bound(parameter))),
        ) + suspension(is_async),
    )
}

/// The call of the decorator with a nested callable: in a member of a type
/// that has a receiver, the receiver is bound to `_self` first; then the
/// decorator gets the directive's arguments, the callable, and the forwarded
/// parameters; the call is suspended on where the function is asynchronous.
pub open spec fn wrapped_call(
    spec: DecoratorSpecView,
    signature: FunctionSignatureView,
    all: Seq<ParameterNameView>,
    kept: Seq<ParameterNameView>,
    is_impl: bool,
) -> Seq<TokenView> {
    rebinding(is_impl && has_receiver(signature.parameters)) + spec.decorator_path + enclosed(
        Grouping::Parenthesis,
        (terminated(spec.decorator_args) + callable(
            signature.name,
            all,
            kept,
            signature.is_async,
            is_impl,
        )).push(comma()) + separated(
            kept.map_values(|parameter: ParameterNameView| bound(parameter)),
        ),
    ) + suspension(signature.is_async)
}

/// The body of the replacement function. Without a selection rule it is the
/// direct call. With one it is the call with a nested callable, which needs
/// a name for every parameter: there is no body where a pattern is more than
/// one plain name.
pub open spec fn replacement_body(
    spec: DecoratorSpecView,
    signature: FunctionSignatureView,
    is_impl: bool,
) -> Option<Seq<TokenView>> {
    match spec.selection_rule {
        None => Some(enclosed(Grouping::Brace, direct_call(spec, signature, is_impl))),
        Some(rule) => match names_of(signature.parameters) {
            Some(all) => Some(
                enclosed(
                    Grouping::Brace,
                    wrapped_call(spec, signature, all, forwarded(all, Some(rule)), is_impl),
                ),
            ),
            None => None,
        },
    }
}

/// The return type that the replacement function declares: the override
/// where the directive has one, else that of the decorated function.
pub open spec fn resolved_return_type(
    spec: DecoratorSpecView,
    signature: FunctionSignatureView,
) -> Option<Seq<TokenView>> {
    match spec.return_override {
        Some(ty) => Some(ty),
        None => signature.return_type,
    }
}

/// The replacement function: the name, visibility, qualifiers and parameters
/// of the decorated function, without its attributes, with the resolved
/// return type and with the call of the decorator as its body.
pub open spec fn replacement(
    definition: FunctionDefinitionView,
    spec: DecoratorSpecView,
    is_impl: bool,
) -> Option<FunctionDefinitionView> {
    match replacement_body(spec, definition.signature, is_impl) {
        Some(body) => Some(
            FunctionDefinitionView {
                attributes: Seq::empty(),
                signature: FunctionSignatureView {
                    is_default: false,
                    return_type: resolved_return_type(spec, definition.signature),
                    ..definition.signature
                },
                body,
            },
        ),
        None => None,
    }
}

/// The name under which the function `name` lives on.
pub fn rename(name: &String) -> (new_name: String)
    ensures
        new_name@ == renamed(name@),
{
    let mut new_name = name.clone();
    new_name.append("_fn_decorator_original");
    new_name
}

/// The function of `definition` under its new name.
pub fn rename_original(definition: &FunctionDefinition) -> (original: FunctionDefinition)
    ensures
        original.deep_view() == renamed_original(definition.deep_view()),
{
    let mut original = definition.duplicate();
    original.signature.name = rename(&definition.signature.name);
    original
}

/// The slot of `parameter`.
pub fn parameter_name(parameter: &Parameter) -> (name: Option<ParameterName>)
    ensures
        name.deep_view() == name_of(parameter.deep_view()),
{
    match parameter {
        Parameter::Receiver(_) => Some(ParameterName::Receiver),
        Parameter::Typed { attributes, pattern, ty } => {
            if pattern.len() == 1 {
                match &pattern[0] {
                    Token::Ident(name) => {
                        assert(pattern.deep_view()[0] == pattern@[0].deep_view());
                        Some(ParameterName::Named(name.clone()))
                    },
                    _ => {
                        assert(pattern.deep_view()[0] == pattern@[0].deep_view());
                        None
                    },
                }
            } else {
                None
            }
        },
    }
}

/// The slots of `parameters`, in order.
pub fn parameter_names(parameters: &Vec<Parameter>) -> (names: Option<Vec<ParameterName>>)
    ensures
        names.deep_view() == names_of(parameters.deep_view()),
{
    let ghost all = parameters.deep_view();
    let mut names: Vec<ParameterName> = Vec::new();
    let mut i: usize = 0;
    while i < parameters.len()
        invariant
            i <= parameters.len(),
            all == parameters.deep_view(),
            names.len() == i,
            forall|k: int|
                0 <= k < i ==> name_of(#[trigger] all[k]) == Some(names@[k].deep_view()),
        decreases parameters.len() - i,
    {
        match parameter_name(&parameters[i]) {
            Some(name) => {
                names.push(name);
            },
            None => {
                assert(name_of(all[i as int]) is None);
                return None;
            },
        }
        i += 1;
    }
    assert(names.deep_view() =~= all.map_values(|parameter: ParameterView| name_of(parameter)->0));
    Some(names)
}

/// Appends the reference to the renamed original to `out`.
fn write_target(out: &mut Vec<Token>, name: &String, is_impl: bool)
    ensures
        final(out).deep_view() == old(out).deep_view() + target(name@, is_impl),
{
    let ghost before = out.deep_view();
    if is_impl {
        push_token(out, Token::word("Self"));
        push_token(out, Token::joint(':'));
        push_token(out, Token::mark(':'));
    }
    push_token(out, Token::Ident(rename(name)));
    assert(out.deep_view() =~= before + target(name@, is_impl));
}

/// Appends `.await` to `out` where `is_async` holds.
fn write_suspension(out: &mut Vec<Token>, is_async: bool)
    ensures
        final(out).deep_view() == old(out).deep_view() + suspension(is_async),
{
    let ghost before = out.deep_view();
    if is_async {
        push_token(out, Token::mark('.'));
        push_token(out, Token::word("await"));
    }
    assert(out.deep_view() =~= before + suspension(is_async));
}

/// The parameters as the replacement function itself names them.
fn passed_arguments(parameters: &Vec<Parameter>) -> (items: Vec<Vec<Token>>)
    ensures
        items.deep_view() == parameters.deep_view().map_values(
            |parameter: ParameterView| passed(parameter),
        ),
{
    let mut items: Vec<Vec<Token>> = Vec::new();
    let mut i: usize = 0;
    while i < parameters.len()
        invariant
            i <= parameters.len(),
            items.len() == i,
            forall|k: int|
                0 <= k < i ==> items@[k].deep_view() == passed(parameters@[k].deep_view()),
        decreases parameters.len() - i,
    {
        let item = match &parameters[i] {
            Parameter::Receiver(_) => {
                let mut item: Vec<Token> = Vec::new();
                item.push(Token::word("self"));
                assert(item.deep_view() =~= seq![TokenView::Ident("self"@)]);
                item
            },
            Parameter::Typed { attributes, pattern, ty } => copy_tokens(pattern),
        };
        items.push(item);
        i += 1;
    }
    assert(items.deep_view() =~= parameters.deep_view().map_values(
        |parameter: ParameterView| passed(parameter),
    ));
    items
}

/// The parameters as the nested callable names them.
fn bound_names(names: &Vec<ParameterName>) -> (items: Vec<Vec<Token>>)
    ensures
        items.deep_view() == names.deep_view().map_values(
            |parameter: ParameterNameView| bound(parameter),
        ),
{
    let mut items: Vec<Vec<Token>> = Vec::new();
    let mut i: usize = 0;
    while i < names.len()
        invariant
            i <= names.len(),
            items.len() == i,
            forall|k: int| 0 <= k < i ==> items@[k].deep_view() == bound(names@[k].deep_view()),
        decreases names.len() - i,
    {
        let token = match &names[i] {
            ParameterName::Receiver => Token::word("_self"),
            ParameterName::Named(name) => Token::Ident(name.clone()),
        };
        let mut item: Vec<Token> = Vec::new();
        item.push(token);
        assert(item.deep_view() =~= bound(names@[i as int].deep_view()));
        items.push(item);
        i += 1;
    }
    assert(items.deep_view() =~= names.deep_view().map_values(
        |parameter: ParameterNameView| bound(parameter),
    ));
    items
}

/// The call of the decorator with the renamed original itself.
fn write_direct_call(spec: &DecoratorSpec, signature: &FunctionSignature, is_impl: bool) -> (call:
    Vec<Token>)
    ensures
        call.deep_view() == direct_call(spec.deep_view(), signature.deep_view(), is_impl),
{
    let mut arguments: Vec<Token> = Vec::new();
    assert(arguments.deep_view() =~= Seq::<TokenView>::empty());
    append_terminated(&mut arguments, &spec.decorator_args);
    write_target(&mut arguments, &signature.name, is_impl);
    push_token(&mut arguments, Token::mark(','));
    let passed = passed_arguments(&signature.parameters);
    append_separated(&mut arguments, &passed);
    assert(arguments.deep_view() =~= (terminated(spec.deep_view().decorator_args) + target(
        signature.name@,
        is_impl,
    )).push(comma()) + separated(passed.deep_view()));
    let mut call = copy_tokens(&spec.decorator_path);
    append_enclosed(&mut call, Grouping::Parenthesis, &arguments);
    write_suspension(&mut call, signature.is_async);
    call
}

/// The nested callable.
fn write_callable(
    name: &String,
    all: &Vec<ParameterName>,
    kept: &Vec<ParameterName>,
    is_async: bool,
    is_impl: bool,
) -> (tokens: Vec<Token>)
    ensures
        tokens.deep_view() == callable(name@, all.deep_view(), kept.deep_view(), is_async, is_impl),
{
    let mut arguments: Vec<Token> = Vec::new();
    assert(arguments.deep_view() =~= Seq::<TokenView>::empty());
    let all_bound = bound_names(all);
    append_separated(&mut arguments, &all_bound);
    assert(arguments.deep_view() =~= separated(all_bound.deep_view()));
    let mut inner: Vec<Token> = Vec::new();
    assert(inner.deep_view() =~= Seq::<TokenView>::empty());
    write_target(&mut inner, name, is_impl);
    append_enclosed(&mut inner, Grouping::Parenthesis, &arguments);
    write_suspension(&mut inner, is_async);
    assert(inner.deep_view() =~= target(name@, is_impl) + enclosed(
        Grouping::Parenthesis,
        separated(all_bound.deep_view()),
    ) + suspension(is_async));
    let mut tokens: Vec<Token> = Vec::new();
    tokens.push(Token::word("move"));
    tokens.push(Token::mark('|'));
    assert(tokens.deep_view() =~= seq![TokenView::Ident("move"@), TokenView::Punct('|', false)]);
    let kept_bound = bound_names(kept);
    append_separated(&mut tokens, &kept_bound);
    push_token(&mut tokens, Token::mark('|'));
    let ghost head = tokens.deep_view();
    assert(head =~= seq![TokenView::Ident("move"@), TokenView::Punct('|', false)] + separated(
        kept_bound.deep_view(),
    ) + seq![TokenView::Punct('|', false)]);
    if is_async {
        push_token(&mut tokens, Token::word("async"));
    }
    assert(tokens.deep_view() =~= head + keyword(is_async, "async"@));
    append_enclosed(&mut tokens, Grouping::Brace, &inner);
    tokens
}

/// The call of the decorator with a nested callable.
fn write_wrapped_call(
    spec: &DecoratorSpec,
    signature: &FunctionSignature,
    all: &Vec<ParameterName>,
    kept: &Vec<ParameterName>,
    is_impl: bool,
) -> (call: Vec<Token>)
    ensures
        call.deep_view() == wrapped_call(
            spec.deep_view(),
            signature.deep_view(),
            all.deep_view(),
            kept.deep_view(),
            is_impl,
        ),
{
    let mut arguments: Vec<Token> = Vec::new();
    assert(arguments.deep_view() =~= Seq::<TokenView>::empty());
    append_terminated(&mut arguments, &spec.decorator_args);
    let nested = write_callable(&signature.name, all, kept, signature.is_async, is_impl);
    append_tokens(&mut arguments, &nested);
    push_token(&mut arguments, Token::mark(','));
    let kept_bound = bound_names(kept);
    append_separated(&mut arguments, &kept_bound);
    assert(arguments.deep_view() =~= (terminated(spec.deep_view().decorator_args)
        + nested.deep_view()).push(comma()) + separated(kept_bound.deep_view()));
    let mut call: Vec<Token> = Vec::new();
    assert(call.deep_view() =~= Seq::<TokenView>::empty());
    let bind = is_impl && signature.has_receiver();
    if bind {
        push_token(&mut call, Token::word("let"));
        push_token(&mut call, Token::word("_self"));
        push_token(&mut call, Token::mark('='));
        push_token(&mut call, Token::word("self"));
        push_token(&mut call, Token::mark(';'));
    }
    assert(call.deep_view() =~= rebinding(bind));
    append_tokens(&mut call, &spec.decorator_path);
    append_enclosed(&mut call, Grouping::Parenthesis, &arguments);
    write_suspension(&mut call, signature.is_async);
    call
}

/// The body of the replacement function; nothing where the directive has a
/// selection rule and the pattern of a parameter is more than one plain
/// name.
pub fn generate_body(spec: &DecoratorSpec, signature: &FunctionSignature, is_impl: bool) -> (body:
    Option<Vec<Token>>)
    ensures
        body.deep_view() == replacement_body(spec.deep_view(), signature.deep_view(), is_impl),
{
    let call = match &spec.selection_rule {
        None => write_direct_call(spec, signature, is_impl),
        Some(rule) => {
            let all = match parameter_names(&signature.parameters) {
                Some(all) => all,
                None => { return None; },
            };
            let kept = select_parameters(&all, &spec.selection_rule);
            write_wrapped_call(spec, signature, &all, &kept, is_impl)
        },
    };
    let mut body: Vec<Token> = Vec::new();
    assert(body.deep_view() =~= Seq::<TokenView>::empty());
    append_enclosed(&mut body, Grouping::Brace, &call);
    assert(body.deep_view() =~= enclosed(Grouping::Brace, call.deep_view()));
    Some(body)
}

/// The replacement function; nothing where [`generate_body`] gives no body.
pub fn generate_replacement(
    definition: &FunctionDefinition,
    spec: &DecoratorSpec,
    is_impl: bool,
) -> (generated: Option<FunctionDefinition>)
    ensures
        generated.deep_view() == replacement(definition.deep_view(), spec.deep_view(), is_impl),
{
    let body = match generate_body(spec, &definition.signature, is_impl) {
        Some(body) => body,
        None => { return None; },
    };
    let mut signature = definition.signature.duplicate();
    signature.is_default = false;
    match &spec.return_override {
        Some(ty) => {
            signature.return_type = Some(copy_tokens(ty));
        },
        None => {},
    }
    let attributes: Vec<Token> = Vec::new();
    assert(attributes.deep_view() =~= Seq::<TokenView>::empty());
    Some(FunctionDefinition { attributes, signature, body })
}

} // verus!
