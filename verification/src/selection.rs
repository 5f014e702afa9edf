//! The parameter selection policy: which parameters of the decorated
//! function the decorator gets to see.

use vstd::prelude::*;
use crate::directive::{ParameterSelectionRule, SelectionRuleView};
use crate::token::same_text;

verus! {

/// The slot of a parameter in a parameter list: the receiver, or a parameter
/// bound to a name.
#[derive(Clone, Debug, PartialEq, Eq)]
pub enum ParameterName {
    Receiver,
    Named(String),
}

/// The mathematical value of a [`ParameterName`].
pub enum ParameterNameView {
    Receiver,
    Named(Seq<char>),
}

impl DeepView for ParameterName {
    type V = ParameterNameView;

    open spec fn deep_view(&self) -> ParameterNameView {
        match self {
            ParameterName::Receiver => ParameterNameView::Receiver,
            ParameterName::Named(name) => ParameterNameView::Named(name@),
        }
    }
}

impl ParameterName {
    /// A copy of this name.
    pub fn duplicate(&self) -> (copy: ParameterName)
        ensures
            copy.deep_view() == self.deep_view(),
    {
        match self {
            ParameterName::Receiver => ParameterName::Receiver,
            ParameterName::Named(name) => ParameterName::Named(name.clone()),
        }
    }
}

/// The name by which a selection rule speaks of a parameter: `self` for the
/// receiver.
pub open spec fn rule_name(parameter: ParameterNameView) -> Seq<char> {
    match parameter {
        ParameterNameView::Receiver => "self"@,
        ParameterNameView::Named(name) => name,
    }
}

/// Whether a rule lets a parameter through: without a rule every parameter
/// passes, `Hide` stops the listed ones, `Exact` stops all but the listed
/// ones.
pub open spec fn keeps(rule: Option<SelectionRuleView>, parameter: ParameterNameView) -> bool {
    match rule {
        None => true,
        Some(SelectionRuleView::Hide(names)) => !names.contains(rule_name(parameter)),
        Some(SelectionRuleView::Exact(names)) => names.contains(rule_name(parameter)),
    }
}

/// [`keeps`] for one rule, as a predicate on parameters.
pub open spec fn keeps_under(rule: Option<SelectionRuleView>) -> spec_fn(ParameterNameView) -> bool {
    |parameter: ParameterNameView| keeps(rule, parameter)
}

/// The parameters that are forwarded under a rule: those that the rule lets
/// through, in the order of their declaration.
pub open spec fn forwarded(
    parameters: Seq<ParameterNameView>,
    rule: Option<SelectionRuleView>,
) -> Seq<ParameterNameView> {
    parameters.filter(keeps_under(rule))
}

/// Whether `names` holds `name`.
pub fn names_contain(names: &Vec<String>, name: &str) -> (found: bool)
    ensures
        found == names.deep_view().contains(name@),
{
    let ghost all = names.deep_view();
    let mut i: usize = 0;
    while i < names.len()
        invariant
            i <= names.len(),
            all == names.deep_view(),
            forall|k: int| 0 <= k < i ==> all[k] != name@,
        decreases names.len() - i,
    {
        if same_text(names[i].as_str(), name) {
            assert(all[i as int] == name@);
            return true;
        }
        i += 1;
    }
    false
}

/// Whether `rule` lets `parameter` through.
pub fn rule_keeps(rule: &Option<ParameterSelectionRule>, parameter: &ParameterName) -> (kept: bool)
    ensures
        kept == keeps(rule.deep_view(), parameter.deep_view()),
{
    match rule {
        None => true,
        Some(ParameterSelectionRule::Hide(names)) => match parameter {
            ParameterName::Receiver => !names_contain(names, "self"),
            ParameterName::Named(name) => !names_contain(names, name.as_str()),
        },
        Some(ParameterSelectionRule::Exact(names)) => match parameter {
            ParameterName::Receiver => names_contain(names, "self"),
            ParameterName::Named(name) => names_contain(names, name.as_str()),
        },
    }
}

/// The parameters that are forwarded under `rule`.
pub fn select_parameters(parameters: &Vec<ParameterName>, rule: &Option<ParameterSelectionRule>) -> (selected:
    Vec<ParameterName>)
    ensures
        selected.deep_view() == forwarded(parameters.deep_view(), rule.deep_view()),
{
    let ghost all = parameters.deep_view();
    let ghost pred = keeps_under(rule.deep_view());
    let mut selected: Vec<ParameterName> = Vec::new();
    let mut i: usize = 0;
    proof {
        reveal(Seq::filter);
        assert(selected.deep_view() =~= all.take(0).filter(pred));
    }
    while i < parameters.len()
        invariant
            i <= parameters.len(),
            all == parameters.deep_view(),
            pred == keeps_under(rule.deep_view()),
            selected.deep_view() == all.take(i as int).filter(pred),
        decreases parameters.len() - i,
    {
        let ghost before = selected.deep_view();
        proof {
            reveal(Seq::filter);
            assert(all.take(i + 1).drop_last() =~= all.take(i as int));
            assert(all.take(i + 1).last() == parameters@[i as int].deep_view());
        }
        if rule_keeps(rule, &parameters[i]) {
            selected.push(parameters[i].duplicate());
            assert(selected.deep_view() =~= before.push(parameters@[i as int].deep_view()));
        }
        i += 1;
    }
    assert(all.take(i as int) =~= all);
    selected
}

/// Two predicates that agree on every item of a sequence keep the same items
/// of it.
pub proof fn lemma_filter_agrees<A>(items: Seq<A>, first: spec_fn(A) -> bool, second: spec_fn(A) -> bool)
    requires
        forall|i: int| 0 <= i < items.len() ==> first(#[trigger] items[i]) == second(items[i]),
    ensures
        items.filter(first) == items.filter(second),
    decreases items.len(),
{
    reveal(Seq::filter);
    if items.len() > 0 {
        assert forall|i: int| 0 <= i < items.drop_last().len() implies first(
            #[trigger] items.drop_last()[i],
        ) == second(items.drop_last()[i]) by {
            assert(items.drop_last()[i] == items[i]);
        }
        lemma_filter_agrees(items.drop_last(), first, second);
        assert(first(items[items.len() - 1]) == second(items[items.len() - 1]));
    }
}

/// Hiding some parameters and naming exactly the others forward the same
/// parameters: where every parameter of the function stands in one of the two
/// lists and in one only, the rule `Hide` with the first list and the rule
/// `Exact` with the second select the same.
pub proof fn lemma_hide_is_exact_of_the_others(
    parameters: Seq<ParameterNameView>,
    hidden: Seq<Seq<char>>,
    exact: Seq<Seq<char>>,
)
    requires
        forall|i: int|
            0 <= i < parameters.len() ==> (hidden.contains(rule_name(#[trigger] parameters[i]))
                <==> !exact.contains(rule_name(parameters[i]))),
    ensures
        forwarded(parameters, Some(SelectionRuleView::Hide(hidden))) == forwarded(
            parameters,
            Some(SelectionRuleView::Exact(exact)),
        ),
{
    lemma_filter_agrees(
        parameters,
        keeps_under(Some(SelectionRuleView::Hide(hidden))),
        keeps_under(Some(SelectionRuleView::Exact(exact))),
    );
}

/// A rule `Exact` is a filter and no reordering: two lists of the same names,
/// in whatever order and however often each is written, select the same
/// parameters in the same order.
pub proof fn lemma_exact_ignores_the_order_of_the_rule(
    parameters: Seq<ParameterNameView>,
    first: Seq<Seq<char>>,
    second: Seq<Seq<char>>,
)
    requires
        forall|name: Seq<char>| first.contains(name) <==> second.contains(name),
    ensures
        forwarded(parameters, Some(SelectionRuleView::Exact(first))) == forwarded(
            parameters,
            Some(SelectionRuleView::Exact(second)),
        ),
{
    lemma_filter_agrees(
        parameters,
        keeps_under(Some(SelectionRuleView::Exact(first))),
        keeps_under(Some(SelectionRuleView::Exact(second))),
    );
}

/// The places, in rising order, of the parameters that a rule lets through.
pub open spec fn kept_places(parameters: Seq<ParameterNameView>, rule: Option<SelectionRuleView>) -> Seq<
    int,
>
    decreases parameters.len(),
{
    if parameters.len() == 0 {
        Seq::empty()
    } else if keeps(rule, parameters.last()) {
        kept_places(parameters.drop_last(), rule).push(parameters.len() - 1)
    } else {
        kept_places(parameters.drop_last(), rule)
    }
}

/// Whatever the rule, the forwarded parameters stand in the order of their
/// declaration: they are the parameters at certain places of the parameter
/// list, taken by rising place, and these are the places of the parameters
/// that the rule lets through.
pub proof fn lemma_forwarded_in_declaration_order(
    parameters: Seq<ParameterNameView>,
    rule: Option<SelectionRuleView>,
)
    ensures
        kept_places(parameters, rule).len() == forwarded(parameters, rule).len(),
        forall|k: int|
            0 <= k < kept_places(parameters, rule).len() ==> {
                let place = #[trigger] kept_places(parameters, rule)[k];
                &&& 0 <= place < parameters.len()
                &&& keeps(rule, parameters[place])
                &&& forwarded(parameters, rule)[k] == parameters[place]
            },
        forall|k: int, l: int|
            0 <= k < l < kept_places(parameters, rule).len() ==> kept_places(parameters, rule)[k]
                < kept_places(parameters, rule)[l],
        forall|place: int|
            0 <= place < parameters.len() && keeps(rule, parameters[place]) ==> kept_places(
                parameters,
                rule,
            ).contains(place),
    decreases parameters.len(),
{
    reveal(Seq::filter);
    if parameters.len() > 0 {
        let shorter = parameters.drop_last();
        lemma_forwarded_in_declaration_order(shorter, rule);
        let places = kept_places(parameters, rule);
        let earlier = kept_places(shorter, rule);
        assert forall|k: int| 0 <= k < places.len() implies {
            let place = #[trigger] places[k];
            &&& 0 <= place < parameters.len()
            &&& keeps(rule, parameters[place])
            &&& forwarded(parameters, rule)[k] == parameters[place]
        } by {
            if k < earlier.len() {
                let place = earlier[k];
                assert(shorter[place] == parameters[place]);
            }
        }
        assert forall|place: int|
            0 <= place < parameters.len() && keeps(rule, parameters[place]) implies places.contains(
            place,
        ) by {
            if place < shorter.len() {
                assert(shorter[place] == parameters[place]);
                assert(earlier.contains(place));
                let k = choose|k: int| 0 <= k < earlier.len() && earlier[k] == place;
                assert(places[k] == place);
            } else {
                assert(places[places.len() - 1] == place);
            }
        }
    }
}

/// A rule `Hide` without names forwards what no rule forwards: everything.
pub proof fn lemma_hiding_nothing_forwards_all(parameters: Seq<ParameterNameView>)
    ensures
        forwarded(parameters, Some(SelectionRuleView::Hide(Seq::empty()))) == parameters,
        forwarded(parameters, None) == parameters,
    decreases parameters.len(),
{
    reveal(Seq::filter);
    if parameters.len() > 0 {
        lemma_hiding_nothing_forwards_all(parameters.drop_last());
        assert(parameters.drop_last().push(parameters.last()) =~= parameters);
    } else {
        assert(forwarded(parameters, None) =~= parameters);
    }
}

/// A rule `Exact` without names forwards nothing.
pub proof fn lemma_exactly_nothing_forwards_none(parameters: Seq<ParameterNameView>)
    ensures
        forwarded(parameters, Some(SelectionRuleView::Exact(Seq::empty()))).len() == 0,
    decreases parameters.len(),
{
    reveal(Seq::filter);
    if parameters.len() > 0 {
        lemma_exactly_nothing_forwards_none(parameters.drop_last());
    }
}

/// A receiver that a rule hides is not forwarded: under `Hide` with `self`
/// among its names, and under `Exact` without `self` among them, no
/// forwarded parameter is the receiver.
pub proof fn lemma_hidden_receiver_is_not_forwarded(
    parameters: Seq<ParameterNameView>,
    rule: SelectionRuleView,
)
    requires
        match rule {
            SelectionRuleView::Hide(names) => names.contains("self"@),
            SelectionRuleView::Exact(names) => !names.contains("self"@),
        },
    ensures
        !forwarded(parameters, Some(rule)).contains(ParameterNameView::Receiver),
{
    let kept = forwarded(parameters, Some(rule));
    if kept.contains(ParameterNameView::Receiver) {
        let k = choose|k: int| 0 <= k < kept.len() && kept[k] == ParameterNameView::Receiver;
        parameters.lemma_filter_pred(keeps_under(Some(rule)), k);
    }
}

} // verus!
