//! The directive: which decorator to call and how, and the grammar by which
//! it is written.
//!
//! ```text
//! directive := clause (',' clause)*
//! clause    := path '(' (expr (',' expr)*)? ')'
//!            | 'hide_parameters' '=' '[' (ident (',' ident)*)? ']'
//!            | 'exact_parameters' '=' '[' (ident (',' ident)*)? ']'
//!            | 'override_return_type' '=' type
//!            | 'debug'
//! ```
//!
//! No comma stands after the last item of a list.

use vstd::prelude::*;
use vstd::string::StringExecFns;
use crate::token::{Token, TokenView};

verus! {

/// Which parameters of the function the decorator gets to see.
#[derive(Clone, Debug, PartialEq, Eq)]
pub enum ParameterSelectionRule {
    /// All but the named ones.
    Hide(Vec<String>),
    /// The named ones and no others.
    Exact(Vec<String>),
}

/// The mathematical value of a [`ParameterSelectionRule`].
pub enum SelectionRuleView {
    Hide(Seq<Seq<char>>),
    Exact(Seq<Seq<char>>),
}

impl DeepView for ParameterSelectionRule {
    type V = SelectionRuleView;

    open spec fn deep_view(&self) -> SelectionRuleView {
        match self {
            ParameterSelectionRule::Hide(names) => SelectionRuleView::Hide(names.deep_view()),
            ParameterSelectionRule::Exact(names) => SelectionRuleView::Exact(names.deep_view()),
        }
    }
}

/// A parsed directive.
#[derive(Clone, Debug, PartialEq, Eq)]
pub struct DecoratorSpec {
    /// The path of the decorator function.
    pub decorator_path: Vec<Token>,
    /// The arguments that the directive gives the decorator, in order.
    pub decorator_args: Vec<Vec<Token>>,
    pub selection_rule: Option<ParameterSelectionRule>,
    /// The return type of the replacement function, where it differs from
    /// that of the decorated one.
    pub return_override: Option<Vec<Token>>,
    pub debug: bool,
}

/// The mathematical value of a [`DecoratorSpec`].
pub struct DecoratorSpecView {
    pub decorator_path: Seq<TokenView>,
    pub decorator_args: Seq<Seq<TokenView>>,
    pub selection_rule: Option<SelectionRuleView>,
    pub return_override: Option<Seq<TokenView>>,
    pub debug: bool,
}

impl DeepView for DecoratorSpec {
    type V = DecoratorSpecView;

    open spec fn deep_view(&self) -> DecoratorSpecView {
        DecoratorSpecView {
            decorator_path: self.decorator_path.deep_view(),
            decorator_args: self.decorator_args.deep_view(),
            selection_rule: self.selection_rule.deep_view(),
            return_override: self.return_override.deep_view(),
            debug: self.debug,
        }
    }
}

/// One clause of a directive.
#[derive(Clone, Debug, PartialEq, Eq)]
pub enum Clause {
    Selection(ParameterSelectionRule),
    DecoratorCall { path: Vec<Token>, args: Vec<Vec<Token>> },
    Debug,
    ReturnOverride(Vec<Token>),
}

/// The mathematical value of a [`Clause`].
pub enum ClauseView {
    Selection(SelectionRuleView),
    DecoratorCall { path: Seq<TokenView>, args: Seq<Seq<TokenView>> },
    Debug,
    ReturnOverride(Seq<TokenView>),
}

impl DeepView for Clause {
    type V = ClauseView;

    open spec fn deep_view(&self) -> ClauseView {
        match self {
            Clause::Selection(rule) => ClauseView::Selection(rule.deep_view()),
            Clause::DecoratorCall { path, args } => ClauseView::DecoratorCall {
                path: path.deep_view(),
                args: args.deep_view(),
            },
            Clause::Debug => ClauseView::Debug,
            Clause::ReturnOverride(ty) => ClauseView::ReturnOverride(ty.deep_view()),
        }
    }
}

/// What a directive is refused for.
#[derive(Clone, Copy, Debug, PartialEq, Eq, Structural)]
pub enum GrammarFault {
    /// The directive is no token sequence of the host language: its text
    /// does not lex, or its tokens are not what their own text lexes into.
    Unlexable,
    /// Something other than a comma follows a clause.
    MissingSeparator,
    /// No kind of clause starts here.
    UnknownClause,
    /// `hide_parameters =` or `exact_parameters =` without a list of names in
    /// square brackets after it.
    MalformedList,
    /// `override_return_type =` without a type after it.
    MalformedType,
    /// A second `hide_parameters` or `exact_parameters` clause.
    DuplicateSelection,
    /// A second decorator call.
    DuplicateDecoratorCall,
    /// A second `debug`.
    DuplicateDebug,
    /// A second `override_return_type` clause.
    DuplicateReturnOverride,
    /// The directive ends without a decorator call.
    MissingDecoratorCall,
}

/// Why a directive is refused, and where: at the token with which the
/// refused clause starts, counted from the start of the directive, groups
/// written flat. A missing comma is found at the token that stands in its
/// place, a missing decorator call at the end of the directive.
#[derive(Clone, Copy, Debug, PartialEq, Eq)]
pub struct GrammarError {
    pub fault: GrammarFault,
    pub at: usize,
}

/// The mathematical value of a [`GrammarError`].
pub struct GrammarErrorView {
    pub fault: GrammarFault,
    pub at: int,
}

impl DeepView for GrammarError {
    type V = GrammarErrorView;

    open spec fn deep_view(&self) -> GrammarErrorView {
        GrammarErrorView { fault: self.fault, at: self.at as int }
    }
}

impl GrammarError {
    /// The diagnostic for this error.
    pub fn message(&self) -> (text: String)
        ensures
            text@ == grammar_message(self.fault),
    {
        self.fault.message()
    }
}

impl GrammarFault {
    /// The diagnostic for this fault.
    pub fn message(&self) -> (text: String)
        ensures
            text@ == grammar_message(*self),
    {
        match self {
            GrammarFault::Unlexable => String::from_str("cannot lex the directive"),
            GrammarFault::MissingSeparator => String::from_str("expected `,`"),
            GrammarFault::UnknownClause | GrammarFault::MalformedList | GrammarFault::MalformedType => {
                String::from_str(
                    "expected decorator function call or `hide_parameters` or `exact_parameters` or `override_return_type`",
                )
            },
            GrammarFault::DuplicateSelection => String::from_str(
                "only one hide_parameters or exact_parameters list is allowed",
            ),
            GrammarFault::DuplicateDecoratorCall | GrammarFault::MissingDecoratorCall => {
                String::from_str("exactly one decorator function call is allowed")
            },
            GrammarFault::DuplicateDebug => String::from_str("exactly one `debug` is allowed"),
            GrammarFault::DuplicateReturnOverride => String::from_str(
                "at most one override_return_type list is allowed",
            ),
        }
    }
}

/// The diagnostic for a fault in a directive.
pub open spec fn grammar_message(error: GrammarFault) -> Seq<char> {
    match error {
        GrammarFault::Unlexable => "cannot lex the directive"@,
        GrammarFault::MissingSeparator => "expected `,`"@,
        GrammarFault::UnknownClause | GrammarFault::MalformedList | GrammarFault::MalformedType => {
            "expected decorator function call or `hide_parameters` or `exact_parameters` or `override_return_type`"@
        },
        GrammarFault::DuplicateSelection => "only one hide_parameters or exact_parameters list is allowed"@,
        GrammarFault::DuplicateDecoratorCall | GrammarFault::MissingDecoratorCall => {
            "exactly one decorator function call is allowed"@
        },
        GrammarFault::DuplicateDebug => "exactly one `debug` is allowed"@,
        GrammarFault::DuplicateReturnOverride => "at most one override_return_type list is allowed"@,
    }
}

/// The clauses that a directive has shown so far.
#[derive(Clone, Debug, PartialEq, Eq)]
pub struct ClauseSet {
    pub decorator: Option<(Vec<Token>, Vec<Vec<Token>>)>,
    pub selection_rule: Option<ParameterSelectionRule>,
    pub return_override: Option<Vec<Token>>,
    pub debug: bool,
}

/// The mathematical value of a [`ClauseSet`].
pub struct ClauseSetView {
    pub decorator: Option<(Seq<TokenView>, Seq<Seq<TokenView>>)>,
    pub selection_rule: Option<SelectionRuleView>,
    pub return_override: Option<Seq<TokenView>>,
    pub debug: bool,
}

impl DeepView for ClauseSet {
    type V = ClauseSetView;

    open spec fn deep_view(&self) -> ClauseSetView {
        ClauseSetView {
            decorator: self.decorator.deep_view(),
            selection_rule: self.selection_rule.deep_view(),
            return_override: self.return_override.deep_view(),
            debug: self.debug,
        }
    }
}

/// The set without any clause.
pub open spec fn no_clauses() -> ClauseSetView {
    ClauseSetView { decorator: None, selection_rule: None, return_override: None, debug: false }
}

/// The set with one clause more, or the fault that the clause is: a second
/// clause of its kind, the two forms of a selection rule counting as one
/// kind.
pub open spec fn accepted(set: ClauseSetView, clause: ClauseView) -> Result<
    ClauseSetView,
    GrammarFault,
> {
    match clause {
        ClauseView::Selection(rule) => if set.selection_rule is Some {
            Err(GrammarFault::DuplicateSelection)
        } else {
            Ok(ClauseSetView { selection_rule: Some(rule), ..set })
        },
        ClauseView::DecoratorCall { path, args } => if set.decorator is Some {
            Err(GrammarFault::DuplicateDecoratorCall)
        } else {
            Ok(ClauseSetView { decorator: Some((path, args)), ..set })
        },
        ClauseView::Debug => if set.debug {
            Err(GrammarFault::DuplicateDebug)
        } else {
            Ok(ClauseSetView { debug: true, ..set })
        },
        ClauseView::ReturnOverride(ty) => if set.return_override is Some {
            Err(GrammarFault::DuplicateReturnOverride)
        } else {
            Ok(ClauseSetView { return_override: Some(ty), ..set })
        },
    }
}

/// The directive that a set of clauses makes: an error where the decorator
/// call is missing.
pub open spec fn finished(set: ClauseSetView) -> Result<DecoratorSpecView, GrammarFault> {
    match set.decorator {
        Some((path, args)) => Ok(
            DecoratorSpecView {
                decorator_path: path,
                decorator_args: args,
                selection_rule: set.selection_rule,
                return_override: set.return_override,
                debug: set.debug,
            },
        ),
        None => Err(GrammarFault::MissingDecoratorCall),
    }
}

impl ClauseSet {
    /// The set without any clause.
    pub fn empty() -> (set: ClauseSet)
        ensures
            set.deep_view() == no_clauses(),
    {
        ClauseSet { decorator: None, selection_rule: None, return_override: None, debug: false }
    }

    /// Adds `clause` to the set, unless the set holds one of its kind.
    pub fn accept(self, clause: Clause) -> (larger: Result<ClauseSet, GrammarFault>)
        ensures
            match larger {
                Ok(set) => accepted(self.deep_view(), clause.deep_view()) == Ok::<
                    ClauseSetView,
                    GrammarFault,
                >(set.deep_view()),
                Err(error) => accepted(self.deep_view(), clause.deep_view()) == Err::<
                    ClauseSetView,
                    GrammarFault,
                >(error),
            },
    {
        let mut set = self;
        match clause {
            Clause::Selection(rule) => {
                if set.selection_rule.is_some() {
                    return Err(GrammarFault::DuplicateSelection);
                }
                set.selection_rule = Some(rule);
            },
            Clause::DecoratorCall { path, args } => {
                if set.decorator.is_some() {
                    return Err(GrammarFault::DuplicateDecoratorCall);
                }
                set.decorator = Some((path, args));
            },
            Clause::Debug => {
                if set.debug {
                    return Err(GrammarFault::DuplicateDebug);
                }
                set.debug = true;
            },
            Clause::ReturnOverride(ty) => {
                if set.return_override.is_some() {
                    return Err(GrammarFault::DuplicateReturnOverride);
                }
                set.return_override = Some(ty);
            },
        }
        Ok(set)
    }

    /// The directive that the set makes, unless the decorator call is
    /// missing.
    pub fn finish(self) -> (directive: Result<DecoratorSpec, GrammarFault>)
        ensures
            match directive {
                Ok(spec) => finished(self.deep_view()) == Ok::<DecoratorSpecView, GrammarFault>(
                    spec.deep_view(),
                ),
                Err(error) => finished(self.deep_view()) == Err::<DecoratorSpecView, GrammarFault>(
                    error,
                ),
            },
    {
        match self.decorator {
            Some((path, args)) => Ok(
                DecoratorSpec {
                    decorator_path: path,
                    decorator_args: args,
                    selection_rule: self.selection_rule,
                    return_override: self.return_override,
                    debug: self.debug,
                },
            ),
            None => Err(GrammarFault::MissingDecoratorCall),
        }
    }
}

} // verus!
