//! What holds of every expansion: the laws of the code generator, each
//! proved from the definitions in the other modules.

use vstd::prelude::*;
use crate::directive::{DecoratorSpecView, SelectionRuleView};
use crate::generator::{
    bound, callable, direct_call, name_of, names_of, passed, rebinding, renamed,
    renamed_original, replacement, replacement_body, suspension, target, wrapped_call,
};
use crate::selection::{
    forwarded, keeps, lemma_forwarded_in_declaration_order, lemma_hidden_receiver_is_not_forwarded,
    lemma_hide_is_exact_of_the_others, kept_places, rule_name, ParameterNameView,
};
use crate::signature::{
    has_receiver, keyword, FunctionDefinitionView, FunctionSignatureView, ParameterView,
};
use crate::token::{comma, enclosed, separated, terminated, Grouping, TokenView};
use crate::transform::{outcome, TransformErrorView};

verus! {

/// How many times the word `await` stands in a token sequence.
pub open spec fn awaits(tokens: Seq<TokenView>) -> nat
    decreases tokens.len(),
{
    if tokens.len() == 0 {
        0
    } else if tokens.last() == TokenView::Ident("await"@) {
        awaits(tokens.drop_last()) + 1
    } else {
        awaits(tokens.drop_last())
    }
}

/// One token more adds one `await` if it is that word.
proof fn lemma_awaits_push(tokens: Seq<TokenView>, token: TokenView)
    ensures
        awaits(tokens.push(token)) == awaits(tokens) + if token == TokenView::Ident("await"@) {
            1nat
        } else {
            0nat
        },
{
    assert(tokens.push(token).drop_last() =~= tokens);
}

/// The count of a sequence is the sum of the counts of its two parts.
proof fn lemma_awaits_add(first: Seq<TokenView>, second: Seq<TokenView>)
    ensures
        awaits(first + second) == awaits(first) + awaits(second),
    decreases second.len(),
{
    if second.len() == 0 {
        assert(first + second =~= first);
    } else {
        lemma_awaits_add(first, second.drop_last());
        assert((first + second).drop_last() =~= first + second.drop_last());
        assert((first + second).last() == second.last());
    }
}

/// Brackets add nothing to the count.
proof fn lemma_awaits_enclosed(grouping: Grouping, content: Seq<TokenView>)
    ensures
        awaits(enclosed(grouping, content)) == awaits(content),
{
    let open = seq![TokenView::Open(grouping)];
    let close = seq![TokenView::Close(grouping)];
    assert(open =~= Seq::<TokenView>::empty().push(TokenView::Open(grouping)));
    assert(close =~= Seq::<TokenView>::empty().push(TokenView::Close(grouping)));
    lemma_awaits_push(Seq::empty(), TokenView::Open(grouping));
    lemma_awaits_push(Seq::empty(), TokenView::Close(grouping));
    lemma_awaits_add(open, content);
    lemma_awaits_add(open + content, close);
}

/// A single word counts one if it is `await`, else nothing.
proof fn lemma_awaits_word(word: Seq<char>)
    ensures
        awaits(seq![TokenView::Ident(word)]) == if word == "await"@ {
            1nat
        } else {
            0nat
        },
{
    assert(seq![TokenView::Ident(word)] =~= Seq::<TokenView>::empty().push(TokenView::Ident(word)));
    lemma_awaits_push(Seq::empty(), TokenView::Ident(word));
}

/// Items without `await`, separated by commas, hold none.
proof fn lemma_awaits_separated(items: Seq<Seq<TokenView>>)
    requires
        forall|i: int| 0 <= i < items.len() ==> awaits(#[trigger] items[i]) == 0,
    ensures
        awaits(separated(items)) == 0,
    decreases items.len(),
{
    if items.len() > 1 {
        assert forall|i: int| 0 <= i < items.drop_last().len() implies awaits(
            #[trigger] items.drop_last()[i],
        ) == 0 by {
            assert(items.drop_last()[i] == items[i]);
        }
        lemma_awaits_separated(items.drop_last());
        lemma_awaits_push(separated(items.drop_last()), comma());
        lemma_awaits_add(separated(items.drop_last()).push(comma()), items.last());
        assert(awaits(items[items.len() - 1]) == 0);
    } else if items.len() == 1 {
        assert(awaits(items[0]) == 0);
    }
}

/// Items without `await`, each followed by a comma, hold none.
proof fn lemma_awaits_terminated(items: Seq<Seq<TokenView>>)
    requires
        forall|i: int| 0 <= i < items.len() ==> awaits(#[trigger] items[i]) == 0,
    ensures
        awaits(terminated(items)) == 0,
    decreases items.len(),
{
    if items.len() > 0 {
        assert forall|i: int| 0 <= i < items.drop_last().len() implies awaits(
            #[trigger] items.drop_last()[i],
        ) == 0 by {
            assert(items.drop_last()[i] == items[i]);
        }
        lemma_awaits_terminated(items.drop_last());
        lemma_awaits_add(terminated(items.drop_last()), items.last());
        lemma_awaits_push(terminated(items.drop_last()) + items.last(), comma());
        assert(awaits(items[items.len() - 1]) == 0);
    }
}

/// The reference to the renamed original holds no `await`.
proof fn lemma_awaits_target(name: Seq<char>, is_impl: bool)
    ensures
        awaits(target(name, is_impl)) == 0,
{
    reveal_strlit("await");
    reveal_strlit("Self");
    reveal_strlit("_fn_decorator_original");
    assert(renamed(name).len() > "await"@.len());
    assert("Self"@.len() < "await"@.len());
    let last = TokenView::Ident(renamed(name));
    if is_impl {
        let head = Seq::<TokenView>::empty().push(TokenView::Ident("Self"@)).push(
            TokenView::Punct(':', true),
        ).push(TokenView::Punct(':', false));
        assert(target(name, is_impl) =~= head.push(last));
        lemma_awaits_push(Seq::empty(), TokenView::Ident("Self"@));
        lemma_awaits_push(Seq::empty().push(TokenView::Ident("Self"@)), TokenView::Punct(':', true));
        lemma_awaits_push(
            Seq::empty().push(TokenView::Ident("Self"@)).push(TokenView::Punct(':', true)),
            TokenView::Punct(':', false),
        );
        lemma_awaits_push(head, last);
    } else {
        lemma_awaits_word(renamed(name));
    }
}

/// A suspension is one `await`.
proof fn lemma_awaits_suspension(is_async: bool)
    ensures
        awaits(suspension(is_async)) == if is_async {
            1nat
        } else {
            0nat
        },
{
    if is_async {
        let dot = Seq::<TokenView>::empty().push(TokenView::Punct('.', false));
        assert(suspension(is_async) =~= dot.push(TokenView::Ident("await"@)));
        lemma_awaits_push(Seq::empty(), TokenView::Punct('.', false));
        lemma_awaits_push(dot, TokenView::Ident("await"@));
    }
}

/// The statement that binds the receiver holds no `await`.
proof fn lemma_awaits_rebinding(bind: bool)
    ensures
        awaits(rebinding(bind)) == 0,
{
    reveal_strlit("await");
    reveal_strlit("let");
    reveal_strlit("_self");
    reveal_strlit("self");
    if bind {
        let one = Seq::<TokenView>::empty().push(TokenView::Ident("let"@));
        let two = one.push(TokenView::Ident("_self"@));
        let three = two.push(TokenView::Punct('=', false));
        let four = three.push(TokenView::Ident("self"@));
        assert(rebinding(bind) =~= four.push(TokenView::Punct(';', false)));
        assert("_self"@[0] != "await"@[0]);
        lemma_awaits_push(Seq::empty(), TokenView::Ident("let"@));
        lemma_awaits_push(one, TokenView::Ident("_self"@));
        lemma_awaits_push(two, TokenView::Punct('=', false));
        lemma_awaits_push(three, TokenView::Ident("self"@));
        lemma_awaits_push(four, TokenView::Punct(';', false));
    }
}

/// A parameter whose pattern holds no `await` is bound to a name that is
/// not `await`.
proof fn lemma_awaits_bound(parameter: ParameterView)
    requires
        name_of(parameter) is Some,
        awaits(passed(parameter)) == 0,
    ensures
        awaits(bound(name_of(parameter)->0)) == 0,
{
    reveal_strlit("await");
    reveal_strlit("_self");
    match parameter {
        ParameterView::Receiver(_) => {
            assert("_self"@[0] != "await"@[0]);
            lemma_awaits_word("_self"@);
        },
        ParameterView::Typed { pattern, .. } => {
            assert(bound(name_of(parameter)->0) =~= pattern);
        },
    }
}

/// [`lemma_awaits_bound`] for every parameter of a list.
proof fn lemma_awaits_all_bound(parameters: Seq<ParameterView>)
    requires
        names_of(parameters) is Some,
        forall|i: int| 0 <= i < parameters.len() ==> awaits(passed(#[trigger] parameters[i])) == 0,
    ensures
        forall|i: int|
            0 <= i < names_of(parameters)->0.len() ==> awaits(
                bound(#[trigger] names_of(parameters)->0[i]),
            ) == 0,
{
    let all = names_of(parameters)->0;
    assert forall|i: int| 0 <= i < all.len() implies awaits(bound(#[trigger] all[i])) == 0 by {
        assert(name_of(parameters[i]) is Some);
        assert(awaits(passed(parameters[i])) == 0);
        lemma_awaits_bound(parameters[i]);
    }
}

/// A list of names none of which is `await` holds none.
proof fn lemma_awaits_names(names: Seq<ParameterNameView>)
    requires
        forall|i: int| 0 <= i < names.len() ==> awaits(bound(#[trigger] names[i])) == 0,
    ensures
        awaits(separated(names.map_values(|parameter: ParameterNameView| bound(parameter)))) == 0,
{
    let items = names.map_values(|parameter: ParameterNameView| bound(parameter));
    assert forall|i: int| 0 <= i < items.len() implies awaits(#[trigger] items[i]) == 0 by {
        assert(items[i] == bound(names[i]));
    }
    lemma_awaits_separated(items);
}

/// The nested callable holds one `await` where the function is
/// asynchronous, else none.
proof fn lemma_awaits_callable(
    name: Seq<char>,
    all: Seq<ParameterNameView>,
    kept: Seq<ParameterNameView>,
    is_async: bool,
    is_impl: bool,
)
    requires
        forall|i: int| 0 <= i < all.len() ==> awaits(bound(#[trigger] all[i])) == 0,
        forall|i: int| 0 <= i < kept.len() ==> awaits(bound(#[trigger] kept[i])) == 0,
    ensures
        awaits(callable(name, all, kept, is_async, is_impl)) == if is_async {
            1nat
        } else {
            0nat
        },
{
    reveal_strlit("await");
    reveal_strlit("move");
    reveal_strlit("async");
    let kept_list = separated(kept.map_values(|parameter: ParameterNameView| bound(parameter)));
    let all_list = separated(all.map_values(|parameter: ParameterNameView| bound(parameter)));
    lemma_awaits_names(kept);
    lemma_awaits_names(all);
    let opening = seq![TokenView::Ident("move"@), TokenView::Punct('|', false)];
    assert(opening =~= Seq::<TokenView>::empty().push(TokenView::Ident("move"@)).push(
        TokenView::Punct('|', false),
    ));
    lemma_awaits_push(Seq::empty(), TokenView::Ident("move"@));
    lemma_awaits_push(Seq::empty().push(TokenView::Ident("move"@)), TokenView::Punct('|', false));
    let bar = seq![TokenView::Punct('|', false)];
    assert(bar =~= Seq::<TokenView>::empty().push(TokenView::Punct('|', false)));
    lemma_awaits_push(Seq::empty(), TokenView::Punct('|', false));
    assert("async"@[1] != "await"@[1]);
    if is_async {
        lemma_awaits_word("async"@);
    }
    let inner = target(name, is_impl) + enclosed(Grouping::Parenthesis, all_list) + suspension(
        is_async,
    );
    lemma_awaits_target(name, is_impl);
    lemma_awaits_enclosed(Grouping::Parenthesis, all_list);
    lemma_awaits_suspension(is_async);
    lemma_awaits_add(target(name, is_impl), enclosed(Grouping::Parenthesis, all_list));
    lemma_awaits_add(
        target(name, is_impl) + enclosed(Grouping::Parenthesis, all_list),
        suspension(is_async),
    );
    lemma_awaits_enclosed(Grouping::Brace, inner);
    lemma_awaits_add(opening, kept_list);
    lemma_awaits_add(opening + kept_list, bar);
    lemma_awaits_add(opening + kept_list + bar, keyword(is_async, "async"@));
    lemma_awaits_add(
        opening + kept_list + bar + keyword(is_async, "async"@),
        enclosed(Grouping::Brace, inner),
    );
}

/// Suspension is preserved, and no more than that: where the directive's
/// own path and arguments and the function's own parameter patterns hold no
/// `await`, the body of the replacement holds none for a synchronous
/// function; for an asynchronous one it holds one, on the call of the
/// decorator, where no selection rule stands, and two where one stands: on
/// the call of the decorator and, inside the nested callable, on the call of
/// the renamed original.
pub proof fn lemma_suspension_is_preserved(
    spec: DecoratorSpecView,
    signature: FunctionSignatureView,
    is_impl: bool,
)
    requires
        replacement_body(spec, signature, is_impl) is Some,
        awaits(spec.decorator_path) == 0,
        forall|i: int|
            0 <= i < spec.decorator_args.len() ==> awaits(#[trigger] spec.decorator_args[i]) == 0,
        forall|i: int|
            0 <= i < signature.parameters.len() ==> awaits(
                passed(#[trigger] signature.parameters[i]),
            ) == 0,
    ensures
        awaits(replacement_body(spec, signature, is_impl)->0) == if !signature.is_async {
            0nat
        } else if spec.selection_rule is None {
            1nat
        } else {
            2nat
        },
{
    let leading = terminated(spec.decorator_args);
    lemma_awaits_terminated(spec.decorator_args);
    lemma_awaits_suspension(signature.is_async);
    lemma_awaits_target(signature.name, is_impl);
    match spec.selection_rule {
        None => {
            let items = signature.parameters.map_values(|parameter: ParameterView| passed(parameter));
            assert forall|i: int| 0 <= i < items.len() implies awaits(#[trigger] items[i]) == 0 by {
                assert(items[i] == passed(signature.parameters[i]));
            }
            lemma_awaits_separated(items);
            let arguments = (leading + target(signature.name, is_impl)).push(comma()) + separated(
                items,
            );
            lemma_awaits_add(leading, target(signature.name, is_impl));
            lemma_awaits_push(leading + target(signature.name, is_impl), comma());
            lemma_awaits_add((leading + target(signature.name, is_impl)).push(comma()), separated(items));
            lemma_awaits_enclosed(Grouping::Parenthesis, arguments);
            lemma_awaits_add(spec.decorator_path, enclosed(Grouping::Parenthesis, arguments));
            lemma_awaits_add(
                spec.decorator_path + enclosed(Grouping::Parenthesis, arguments),
                suspension(signature.is_async),
            );
            lemma_awaits_enclosed(Grouping::Brace, direct_call(spec, signature, is_impl));
        },
        Some(rule) => {
            let all = names_of(signature.parameters)->0;
            let kept = forwarded(all, Some(rule));
            lemma_awaits_all_bound(signature.parameters);
            lemma_forwarded_in_declaration_order(all, Some(rule));
            assert forall|i: int| 0 <= i < kept.len() implies awaits(bound(#[trigger] kept[i]))
                == 0 by {
                let place = kept_places(all, Some(rule))[i];
                assert(kept[i] == all[place]);
            }
            lemma_awaits_names(kept);
            let nested = callable(signature.name, all, kept, signature.is_async, is_impl);
            lemma_awaits_callable(signature.name, all, kept, signature.is_async, is_impl);
            let kept_list = separated(
                kept.map_values(|parameter: ParameterNameView| bound(parameter)),
            );
            let arguments = (leading + nested).push(comma()) + kept_list;
            lemma_awaits_add(leading, nested);
            lemma_awaits_push(leading + nested, comma());
            lemma_awaits_add((leading + nested).push(comma()), kept_list);
            lemma_awaits_enclosed(Grouping::Parenthesis, arguments);
            let bind = is_impl && has_receiver(signature.parameters);
            lemma_awaits_rebinding(bind);
            lemma_awaits_add(rebinding(bind), spec.decorator_path);
            lemma_awaits_add(
                rebinding(bind) + spec.decorator_path,
                enclosed(Grouping::Parenthesis, arguments),
            );
            lemma_awaits_add(
                rebinding(bind) + spec.decorator_path + enclosed(Grouping::Parenthesis, arguments),
                suspension(signature.is_async),
            );
            lemma_awaits_enclosed(
                Grouping::Brace,
                wrapped_call(spec, signature, all, kept, is_impl),
            );
        },
    }
}

/// The nested callable is asynchronous exactly where the function is: after
/// the bar that closes its parameter list stands `async` and then its block
/// where the function is asynchronous, and its block at once where it is
/// not.
pub proof fn lemma_callable_is_asynchronous_with_the_function(
    name: Seq<char>,
    all: Seq<ParameterNameView>,
    kept: Seq<ParameterNameView>,
    is_async: bool,
    is_impl: bool,
)
    ensures
        ({
            let nested = callable(name, all, kept, is_async, is_impl);
            let bar: int = 2 + separated(
                kept.map_values(|parameter: ParameterNameView| bound(parameter)),
            ).len() as int;
            &&& bar + 2 < nested.len()
            &&& nested[bar] == TokenView::Punct('|', false)
            &&& is_async ==> nested[bar + 1] == TokenView::Ident("async"@) && nested[bar + 2]
                == TokenView::Open(Grouping::Brace)
            &&& !is_async ==> nested[bar + 1] == TokenView::Open(Grouping::Brace)
        }),
{
}

/// The replacement keeps the signature of the decorated function but for
/// the return type: its name, visibility, qualifiers (so it is asynchronous
/// exactly where the function is), generic parameters, parameters and
/// `where` clause are those of the function. The renamed original differs
/// from the function in its name only.
pub proof fn lemma_signature_is_reused(
    definition: FunctionDefinitionView,
    spec: DecoratorSpecView,
    is_impl: bool,
)
    requires
        replacement(definition, spec, is_impl) is Some,
    ensures
        replacement(definition, spec, is_impl)->0.signature == (FunctionSignatureView {
            is_default: false,
            return_type: replacement(definition, spec, is_impl)->0.signature.return_type,
            ..definition.signature
        }),
        replacement(definition, spec, is_impl)->0.signature.is_async
            == definition.signature.is_async,
        renamed_original(definition) == (FunctionDefinitionView {
            signature: FunctionSignatureView {
                name: renamed(definition.signature.name),
                ..definition.signature
            },
            ..definition
        }),
        renamed_original(definition).body == definition.body,
{
}

/// A return override is the declared return type of the replacement,
/// whatever the decorated function declares; without one the replacement
/// declares what the function declares. The renamed original keeps the
/// declared return type either way.
pub proof fn lemma_return_override_is_declared(
    definition: FunctionDefinitionView,
    spec: DecoratorSpecView,
    is_impl: bool,
)
    requires
        replacement(definition, spec, is_impl) is Some,
    ensures
        spec.return_override is Some ==> replacement(
            definition,
            spec,
            is_impl,
        )->0.signature.return_type == spec.return_override,
        spec.return_override is None ==> replacement(
            definition,
            spec,
            is_impl,
        )->0.signature.return_type == definition.signature.return_type,
        renamed_original(definition).signature.return_type == definition.signature.return_type,
{
}

/// Hiding some parameters and naming exactly the others generate the same
/// replacement: where every parameter of the function stands in one of two
/// lists of names and in one only, a directive with `Hide` of the first list
/// and one with `Exact` of the second, alike in all else, give the same
/// replacement, or both give none.
pub proof fn lemma_hide_and_exact_generate_the_same(
    definition: FunctionDefinitionView,
    spec: DecoratorSpecView,
    hidden: Seq<Seq<char>>,
    exact: Seq<Seq<char>>,
    is_impl: bool,
)
    requires
        forall|i: int|
            0 <= i < definition.signature.parameters.len() ==> (match name_of(
                #[trigger] definition.signature.parameters[i],
            ) {
                Some(name) => hidden.contains(rule_name(name)) <==> !exact.contains(
                    rule_name(name),
                ),
                None => true,
            }),
    ensures
        replacement(
            definition,
            DecoratorSpecView { selection_rule: Some(SelectionRuleView::Hide(hidden)), ..spec },
            is_impl,
        ) == replacement(
            definition,
            DecoratorSpecView { selection_rule: Some(SelectionRuleView::Exact(exact)), ..spec },
            is_impl,
        ),
{
    let parameters = definition.signature.parameters;
    if names_of(parameters) is Some {
        let all = names_of(parameters)->0;
        assert forall|i: int| 0 <= i < all.len() implies (hidden.contains(
            rule_name(#[trigger] all[i]),
        ) <==> !exact.contains(rule_name(all[i]))) by {
            assert(name_of(parameters[i]) == Some(all[i]));
        }
        lemma_hide_is_exact_of_the_others(all, hidden, exact);
    }
}

/// A hidden receiver stays bound: in a method whose receiver the selection
/// rule does not let through, the nested callable takes no receiver, the
/// renamed original is still called with `_self` in the receiver's place,
/// and `_self` is what the statement at the start of the body binds the
/// receiver to.
pub proof fn lemma_hidden_receiver_stays_bound(
    spec: DecoratorSpecView,
    signature: FunctionSignatureView,
    place: int,
)
    requires
        names_of(signature.parameters) is Some,
        0 <= place < signature.parameters.len(),
        signature.parameters[place] is Receiver,
        spec.selection_rule matches Some(rule) && match rule {
            SelectionRuleView::Hide(names) => names.contains("self"@),
            SelectionRuleView::Exact(names) => !names.contains("self"@),
        },
    ensures
        ({
            let all = names_of(signature.parameters)->0;
            let kept = forwarded(all, spec.selection_rule);
            let call = wrapped_call(spec, signature, all, kept, true);
            &&& replacement_body(spec, signature, true) == Some(enclosed(Grouping::Brace, call))
            &&& !kept.contains(ParameterNameView::Receiver)
            &&& all.map_values(|parameter: ParameterNameView| bound(parameter))[place]
                == seq![TokenView::Ident("_self"@)]
            &&& call.subrange(0, 5) == seq![
                TokenView::Ident("let"@),
                TokenView::Ident("_self"@),
                TokenView::Punct('=', false),
                TokenView::Ident("self"@),
                TokenView::Punct(';', false),
            ]
        }),
{
    let all = names_of(signature.parameters)->0;
    let rule = spec.selection_rule->0;
    let kept = forwarded(all, Some(rule));
    lemma_hidden_receiver_is_not_forwarded(all, rule);
    assert(name_of(signature.parameters[place]) == Some(ParameterNameView::Receiver));
    assert(all[place] == ParameterNameView::Receiver);
    assert(has_receiver(signature.parameters));
    let call = wrapped_call(spec, signature, all, kept, true);
    assert(call.subrange(0, 5) =~= rebinding(true));
}

/// Only a receiver is bound: where the function has no receiver, be it a
/// member of a type or not, and where it is no member of a type, the body
/// with a nested callable is the call of the decorator and nothing before
/// it, so nothing in it speaks of `self` but what the directive and the
/// function themselves say.
pub proof fn lemma_only_a_receiver_is_bound(
    spec: DecoratorSpecView,
    signature: FunctionSignatureView,
    all: Seq<ParameterNameView>,
    kept: Seq<ParameterNameView>,
    is_impl: bool,
)
    requires
        !is_impl || !has_receiver(signature.parameters),
    ensures
        wrapped_call(spec, signature, all, kept, is_impl) == spec.decorator_path + enclosed(
            Grouping::Parenthesis,
            (terminated(spec.decorator_args) + callable(
                signature.name,
                all,
                kept,
                signature.is_async,
                is_impl,
            )).push(comma()) + separated(
                kept.map_values(|parameter: ParameterNameView| bound(parameter)),
            ),
        ) + suspension(signature.is_async),
{
    assert(rebinding(false) + spec.decorator_path =~= spec.decorator_path);
}

/// Without a selection rule the decorator is called with the renamed
/// original itself: the body of the replacement is one call of the
/// decorator's path, whose arguments are those of the directive, the
/// reference to the renamed original, and every parameter of the function in
/// the order of its declaration, each as the function names it. There is
/// such a body whatever the patterns of the parameters are.
pub proof fn lemma_pass_through_calls_directly(
    definition: FunctionDefinitionView,
    spec: DecoratorSpecView,
    is_impl: bool,
)
    requires
        spec.selection_rule is None,
    ensures
        replacement(definition, spec, is_impl) is Some,
        replacement(definition, spec, is_impl)->0.body == enclosed(
            Grouping::Brace,
            spec.decorator_path + enclosed(
                Grouping::Parenthesis,
                (terminated(spec.decorator_args) + target(definition.signature.name, is_impl)).push(
                    comma(),
                ) + separated(
                    definition.signature.parameters.map_values(
                        |parameter: ParameterView| passed(parameter),
                    ),
                ),
            ) + suspension(definition.signature.is_async),
        ),
{
}

/// `debug` shows the code and gives none: a directive with `debug` ends in
/// the error whose message is the very text that the same directive without
/// `debug` gives as code, and where that directive gives an error, `debug`
/// changes nothing.
pub proof fn lemma_debug_shows_the_generated_code(
    definition: FunctionDefinitionView,
    spec: DecoratorSpecView,
    is_impl: bool,
)
    ensures
        outcome(definition, DecoratorSpecView { debug: true, ..spec }, is_impl) == match outcome(
            definition,
            DecoratorSpecView { debug: false, ..spec },
            is_impl,
        ) {
            Ok(code) => Err::<Seq<char>, TransformErrorView>(TransformErrorView::Debug(code)),
            Err(error) => Err(error),
        },
        outcome(definition, DecoratorSpecView { debug: true, ..spec }, is_impl) is Err,
{
}

} // verus!
