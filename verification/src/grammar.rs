//! The parser of the directive grammar: at each place in the token sequence
//! the kinds of clause are tried in a fixed order, each from that same place,
//! and the first that fits is taken.

use vstd::prelude::*;
use crate::directive::{
    accepted, finished, no_clauses, Clause, ClauseSet, ClauseSetView, ClauseView, DecoratorSpec,
    DecoratorSpecView, GrammarError, GrammarErrorView, GrammarFault, ParameterSelectionRule,
    SelectionRuleView,
};
use crate::syntax::{
    expression_list, lex, lexed, parse_expression_list, parse_path_prefix, parse_type_prefix,
    path_prefix, stream_tokens, tokens_of, type_prefix,
};
use crate::token::{
    closing_index, ends_with, find_closing, is_mark, lemma_closing_index_bounds, render,
    render_range, rendered, Grouping, Token, TokenView,
};
use proc_macro2::TokenStream;

verus! {

/// Whether a token sequence is what its own text lexes into. The tokens that
/// the lexer gives are of this kind; a sequence put together by hand need not
/// be (a word with a gap in it, a bracket that is not written).
pub open spec fn well_formed(tokens: Seq<TokenView>) -> bool {
    lexed(rendered(tokens)) == Some(tokens)
}

/// One name or more from `from` on: words separated by commas, up to the
/// closing square bracket. With the names comes the place after that
/// bracket.
pub open spec fn names_from(tokens: Seq<TokenView>, from: int) -> Option<(Seq<Seq<char>>, int)>
    decreases tokens.len() - from,
{
    if from < 0 || from + 1 >= tokens.len() {
        None
    } else {
        match tokens[from] {
            TokenView::Ident(name) => if tokens[from + 1] == TokenView::Close(Grouping::Bracket) {
                Some((seq![name], from + 2))
            } else if is_mark(tokens[from + 1], ',') {
                match names_from(tokens, from + 2) {
                    Some((rest, end)) => Some((seq![name] + rest, end)),
                    None => None,
                }
            } else {
                None
            },
            _ => None,
        }
    }
}

/// The names of a list whose content starts at `from`, after its opening
/// square bracket: no name, or names separated by commas, and then the
/// closing bracket. With the names comes the place after that bracket.
pub open spec fn name_list(tokens: Seq<TokenView>, from: int) -> Option<(Seq<Seq<char>>, int)> {
    if 0 <= from < tokens.len() && tokens[from] == TokenView::Close(Grouping::Bracket) {
        Some((Seq::empty(), from + 1))
    } else {
        names_from(tokens, from)
    }
}

/// A list of names ends after its start and inside the sequence.
pub proof fn lemma_names_from_bounds(tokens: Seq<TokenView>, from: int)
    ensures
        names_from(tokens, from) matches Some((_, end)) ==> from < end <= tokens.len(),
    decreases tokens.len() - from,
{
    if 0 <= from && from + 1 < tokens.len() {
        if tokens[from] is Ident && is_mark(tokens[from + 1], ',') {
            lemma_names_from_bounds(tokens, from + 2);
        }
    }
}

/// A list of names ends after its start and inside the sequence.
pub proof fn lemma_name_list_bounds(tokens: Seq<TokenView>, from: int)
    ensures
        name_list(tokens, from) matches Some((_, end)) ==> from < end <= tokens.len(),
{
    lemma_names_from_bounds(tokens, from);
}

/// The clause `keyword = [names]` at `at`: its names and the place after it.
pub open spec fn selection_at(tokens: Seq<TokenView>, at: int, keyword: Seq<char>) -> Option<
    (Seq<Seq<char>>, int),
> {
    if 0 <= at && at + 2 < tokens.len() && tokens[at] == TokenView::Ident(keyword) && is_mark(
        tokens[at + 1],
        '=',
    ) && tokens[at + 2] == TokenView::Open(Grouping::Bracket) {
        name_list(tokens, at + 3)
    } else {
        None
    }
}

/// The arguments of a call whose parentheses stand at `open` and `close`:
/// none where nothing stands between them, else the expressions that the
/// host language's parser reads from the text between them, which are
/// separated by commas.
pub open spec fn arguments_between(tokens: Seq<TokenView>, open: int, close: int) -> Option<
    Seq<Seq<TokenView>>,
> {
    if close == open + 1 {
        Some(Seq::empty())
    } else {
        expression_list(rendered(tokens.subrange(open + 1, close)))
    }
}

/// The decorator call at `at`: a path, as the host language's parser reads it
/// from the text of the tokens from `at` on, then in parentheses the
/// arguments. What the parser leaves over after the path must be the very
/// tokens from some place on: that place is where the parentheses open. With
/// the path and the arguments, each as the parser prints it, comes the place
/// after the closing parenthesis.
pub open spec fn call_at(tokens: Seq<TokenView>, at: int) -> Option<
    (Seq<TokenView>, Seq<Seq<TokenView>>, int),
> {
    if 0 <= at <= tokens.len() {
        match path_prefix(rendered(tokens.subrange(at, tokens.len() as int))) {
            Some((path, rest)) => {
                let open = tokens.len() - rest.len();
                if at <= open < tokens.len() && rest == tokens.subrange(
                    open,
                    tokens.len() as int,
                ) && tokens[open] == TokenView::Open(Grouping::Parenthesis) {
                    match closing_index(tokens, open + 1, 0) {
                        Some(close) => match arguments_between(tokens, open, close) {
                            Some(args) => Some((path, args, close + 1)),
                            None => None,
                        },
                        None => None,
                    }
                } else {
                    None
                }
            },
            None => None,
        }
    } else {
        None
    }
}

/// The clause `override_return_type = type` at `at`: the type, as the host
/// language's parser reads it from the text of the tokens after the `=` and
/// prints it, and the place after it. What the parser leaves over after the
/// type must be the very tokens from that place on.
pub open spec fn return_override_at(tokens: Seq<TokenView>, at: int) -> Option<
    (Seq<TokenView>, int),
> {
    if 0 <= at && at + 1 < tokens.len() && tokens[at] == TokenView::Ident(
        "override_return_type"@,
    ) && is_mark(tokens[at + 1], '=') {
        match type_prefix(rendered(tokens.subrange(at + 2, tokens.len() as int))) {
            Some((ty, rest)) => {
                let next = tokens.len() - rest.len();
                if at + 2 <= next && rest == tokens.subrange(next, tokens.len() as int) {
                    Some((ty, next))
                } else {
                    None
                }
            },
            None => None,
        }
    } else {
        None
    }
}

/// The clause at `at` and the place after it. The kinds are tried in this
/// order: `hide_parameters`, `exact_parameters`, a decorator call, `debug`,
/// `override_return_type`.
pub open spec fn clause_at(tokens: Seq<TokenView>, at: int) -> Option<(ClauseView, int)> {
    if selection_at(tokens, at, "hide_parameters"@) is Some {
        let (names, next) = selection_at(tokens, at, "hide_parameters"@)->0;
        Some((ClauseView::Selection(SelectionRuleView::Hide(names)), next))
    } else if selection_at(tokens, at, "exact_parameters"@) is Some {
        let (names, next) = selection_at(tokens, at, "exact_parameters"@)->0;
        Some((ClauseView::Selection(SelectionRuleView::Exact(names)), next))
    } else if call_at(tokens, at) is Some {
        let (path, args, next) = call_at(tokens, at)->0;
        Some((ClauseView::DecoratorCall { path, args }, next))
    } else if 0 <= at < tokens.len() && tokens[at] == TokenView::Ident("debug"@) {
        Some((ClauseView::Debug, at + 1))
    } else if return_override_at(tokens, at) is Some {
        let (ty, next) = return_override_at(tokens, at)->0;
        Some((ClauseView::ReturnOverride(ty), next))
    } else {
        None
    }
}

/// A clause ends after its start and inside the sequence.
pub proof fn lemma_clause_bounds(tokens: Seq<TokenView>, at: int)
    ensures
        clause_at(tokens, at) matches Some((_, next)) ==> at < next <= tokens.len(),
{
    lemma_name_list_bounds(tokens, at + 3);
    if call_at(tokens, at) is Some {
        let (_, rest) = path_prefix(rendered(tokens.subrange(at, tokens.len() as int)))->0;
        lemma_closing_index_bounds(tokens, tokens.len() - rest.len() + 1, 0);
    }
}

/// What is wrong at a place where no clause starts.
pub open spec fn unmatched(tokens: Seq<TokenView>, at: int) -> GrammarFault {
    if 0 <= at && at + 1 < tokens.len() && is_mark(tokens[at + 1], '=') {
        if tokens[at] == TokenView::Ident("hide_parameters"@) || tokens[at] == TokenView::Ident(
            "exact_parameters"@,
        ) {
            GrammarFault::MalformedList
        } else if tokens[at] == TokenView::Ident("override_return_type"@) {
            GrammarFault::MalformedType
        } else {
            GrammarFault::UnknownClause
        }
    } else {
        GrammarFault::UnknownClause
    }
}

/// The directive that the tokens from `at` on complete, given the clauses
/// seen before `at`. Every clause but the first follows a comma; the clauses
/// are taken one after the other until the tokens end or one is refused. An
/// error names the place where the refused clause starts.
pub open spec fn parsed_from(tokens: Seq<TokenView>, at: int, set: ClauseSetView) -> Result<
    DecoratorSpecView,
    GrammarErrorView,
>
    decreases tokens.len() - at,
{
    if at < 0 || at >= tokens.len() {
        match finished(set) {
            Ok(spec) => Ok(spec),
            Err(fault) => Err(GrammarErrorView { fault, at: tokens.len() as int }),
        }
    } else if at > 0 && !is_mark(tokens[at], ',') {
        Err(GrammarErrorView { fault: GrammarFault::MissingSeparator, at })
    } else {
        let start = if at == 0 {
            0
        } else {
            at + 1
        };
        match clause_at(tokens, start) {
            Some((clause, next)) => match accepted(set, clause) {
                Ok(larger) => {
                    proof {
                        lemma_clause_bounds(tokens, start);
                    }
                    parsed_from(tokens, next, larger)
                },
                Err(fault) => Err(GrammarErrorView { fault, at: start }),
            },
            None => Err(GrammarErrorView { fault: unmatched(tokens, start), at: start }),
        }
    }
}

/// The directive that the clauses of a token sequence make, read from its
/// start, or why and where they make none.
pub open spec fn parsed_clauses(tokens: Seq<TokenView>) -> Result<
    DecoratorSpecView,
    GrammarErrorView,
> {
    parsed_from(tokens, 0, no_clauses())
}

/// The directive that a token sequence spells, or why and where it spells
/// none. A sequence that is not what its own text lexes into spells none;
/// any other spells what its clauses make.
pub open spec fn parsed_directive(tokens: Seq<TokenView>) -> Result<
    DecoratorSpecView,
    GrammarErrorView,
> {
    if well_formed(tokens) {
        parsed_clauses(tokens)
    } else {
        Err(GrammarErrorView { fault: GrammarFault::Unlexable, at: 0 })
    }
}

/// Reads a list of names whose content starts at `from`.
fn read_name_list(tokens: &Vec<Token>, from: usize) -> (list: Option<(Vec<String>, usize)>)
    ensures
        match list {
            Some((names, end)) => name_list(tokens.deep_view(), from as int) == Some(
                (names.deep_view(), end as int),
            ) && end <= tokens.len(),
            None => name_list(tokens.deep_view(), from as int) is None,
        },
{
    let ghost all = tokens.deep_view();
    let mut names: Vec<String> = Vec::new();
    assert(names.deep_view() =~= Seq::<Seq<char>>::empty());
    if from < tokens.len() && tokens[from].closes(Grouping::Bracket) {
        return Some((names, from + 1));
    }
    let mut i: usize = from;
    loop
        invariant
            from <= i,
            all == tokens.deep_view(),
            name_list(all, from as int) == match names_from(all, i as int) {
                Some((rest, end)) => Some((names.deep_view() + rest, end)),
                None => None,
            },
        decreases tokens.len() - i,
    {
        if i >= tokens.len() || tokens.len() - i < 2 {
            return None;
        }
        match &tokens[i] {
            Token::Ident(name) => {
                let ghost before = names.deep_view();
                if tokens[i + 1].closes(Grouping::Bracket) {
                    names.push(name.clone());
                    assert(names.deep_view() =~= before + seq![name@]);
                    return Some((names, i + 2));
                } else if tokens[i + 1].is_mark(',') {
                    names.push(name.clone());
                    proof {
                        assert(names.deep_view() =~= before.push(name@));
                        match names_from(all, i + 2) {
                            Some((rest, end)) => {
                                assert(before + (seq![name@] + rest) =~= names.deep_view() + rest);
                            },
                            None => {},
                        }
                    }
                    i += 2;
                } else {
                    return None;
                }
            },
            _ => {
                return None;
            },
        }
    }
}

/// Reads the clause `keyword = [names]` at `at`.
fn read_selection(tokens: &Vec<Token>, at: usize, keyword: &str) -> (list: Option<
    (Vec<String>, usize),
>)
    ensures
        match list {
            Some((names, next)) => selection_at(tokens.deep_view(), at as int, keyword@) == Some(
                (names.deep_view(), next as int),
            ) && next <= tokens.len(),
            None => selection_at(tokens.deep_view(), at as int, keyword@) is None,
        },
{
    if at < tokens.len() && tokens.len() - at > 2 && tokens[at].is_word(keyword) && tokens[at
        + 1].is_mark('=') && tokens[at + 2].opens(Grouping::Bracket) {
        read_name_list(tokens, at + 3)
    } else {
        None
    }
}

/// The tokens of each of `streams`, in order.
fn tokens_of_each(streams: &Vec<TokenStream>) -> (items: Vec<Vec<Token>>)
    ensures
        items.deep_view() == streams@.map_values(|stream: TokenStream| stream_tokens(stream)),
{
    let mut items: Vec<Vec<Token>> = Vec::new();
    let mut i: usize = 0;
    while i < streams.len()
        invariant
            i <= streams.len(),
            items.len() == i,
            forall|k: int| 0 <= k < i ==> items@[k].deep_view() == stream_tokens(streams@[k]),
        decreases streams.len() - i,
    {
        items.push(tokens_of(&streams[i]));
        i += 1;
    }
    assert(items.deep_view() =~= streams@.map_values(
        |stream: TokenStream| stream_tokens(stream),
    ));
    items
}

/// Reads the arguments of a call whose parentheses stand at `open` and
/// `close`.
fn read_arguments(tokens: &Vec<Token>, open: usize, close: usize) -> (args: Option<
    Vec<Vec<Token>>,
>)
    requires
        open < close < tokens.len(),
    ensures
        args.deep_view() == arguments_between(tokens.deep_view(), open as int, close as int),
{
    if close == open + 1 {
        let args: Vec<Vec<Token>> = Vec::new();
        assert(args.deep_view() =~= Seq::<Seq<TokenView>>::empty());
        return Some(args);
    }
    let inner = render_range(tokens, open + 1, close);
    match parse_expression_list(inner.as_str()) {
        Some(items) => Some(tokens_of_each(&items)),
        None => None,
    }
}

/// Reads the decorator call at `at`.
fn read_call(tokens: &Vec<Token>, at: usize) -> (call: Option<
    (Vec<Token>, Vec<Vec<Token>>, usize),
>)
    requires
        at <= tokens.len(),
    ensures
        match call {
            Some((path, args, next)) => call_at(tokens.deep_view(), at as int) == Some(
                (path.deep_view(), args.deep_view(), next as int),
            ) && next <= tokens.len(),
            None => call_at(tokens.deep_view(), at as int) is None,
        },
{
    let text = render_range(tokens, at, tokens.len());
    let (path, rest) = match parse_path_prefix(text.as_str()) {
        Some(parts) => parts,
        None => { return None; },
    };
    let rest_tokens = tokens_of(&rest);
    if rest_tokens.len() > tokens.len() - at {
        return None;
    }
    let open = tokens.len() - rest_tokens.len();
    if open >= tokens.len() || !ends_with(tokens, open, &rest_tokens) || !tokens[open].opens(
        Grouping::Parenthesis,
    ) {
        return None;
    }
    let close = match find_closing(tokens, open + 1) {
        Some(close) => close,
        None => { return None; },
    };
    match read_arguments(tokens, open, close) {
        Some(args) => Some((tokens_of(&path), args, close + 1)),
        None => None,
    }
}

/// Reads the clause `override_return_type = type` at `at`.
fn read_return_override(tokens: &Vec<Token>, at: usize) -> (clause: Option<(Vec<Token>, usize)>)
    ensures
        match clause {
            Some((ty, next)) => return_override_at(tokens.deep_view(), at as int) == Some(
                (ty.deep_view(), next as int),
            ) && next <= tokens.len(),
            None => return_override_at(tokens.deep_view(), at as int) is None,
        },
{
    if at < tokens.len() && tokens.len() - at > 1 && tokens[at].is_word("override_return_type")
        && tokens[at + 1].is_mark('=') {
        let text = render_range(tokens, at + 2, tokens.len());
        match parse_type_prefix(text.as_str()) {
            Some((ty, rest)) => {
                let rest_tokens = tokens_of(&rest);
                if rest_tokens.len() <= tokens.len() - (at + 2) {
                    let next = tokens.len() - rest_tokens.len();
                    if ends_with(tokens, next, &rest_tokens) {
                        Some((tokens_of(&ty), next))
                    } else {
                        None
                    }
                } else {
                    None
                }
            },
            None => None,
        }
    } else {
        None
    }
}

/// Reads the clause at `at`; nothing where no clause starts there.
pub fn read_clause(tokens: &Vec<Token>, at: usize) -> (found: Option<(Clause, usize)>)
    ensures
        match found {
            Some((clause, next)) => clause_at(tokens.deep_view(), at as int) == Some(
                (clause.deep_view(), next as int),
            ) && at < next <= tokens.len(),
            None => clause_at(tokens.deep_view(), at as int) is None,
        },
{
    proof {
        lemma_clause_bounds(tokens.deep_view(), at as int);
    }
    if at > tokens.len() {
        return None;
    }
    if let Some((names, next)) = read_selection(tokens, at, "hide_parameters") {
        return Some((Clause::Selection(ParameterSelectionRule::Hide(names)), next));
    }
    if let Some((names, next)) = read_selection(tokens, at, "exact_parameters") {
        return Some((Clause::Selection(ParameterSelectionRule::Exact(names)), next));
    }
    if let Some((path, args, next)) = read_call(tokens, at) {
        return Some((Clause::DecoratorCall { path, args }, next));
    }
    if at < tokens.len() && tokens[at].is_word("debug") {
        return Some((Clause::Debug, at + 1));
    }
    if let Some((ty, next)) = read_return_override(tokens, at) {
        return Some((Clause::ReturnOverride(ty), next));
    }
    None
}

/// Names what is wrong at a place where no clause starts.
fn classify_unmatched(tokens: &Vec<Token>, at: usize) -> (fault: GrammarFault)
    ensures
        fault == unmatched(tokens.deep_view(), at as int),
{
    if at < tokens.len() && tokens.len() - at > 1 && tokens[at + 1].is_mark('=') {
        if tokens[at].is_word("hide_parameters") || tokens[at].is_word("exact_parameters") {
            GrammarFault::MalformedList
        } else if tokens[at].is_word("override_return_type") {
            GrammarFault::MalformedType
        } else {
            GrammarFault::UnknownClause
        }
    } else {
        GrammarFault::UnknownClause
    }
}

/// Whether `tokens` is what its own text lexes into.
pub fn is_well_formed(tokens: &Vec<Token>) -> (yes: bool)
    ensures
        yes == well_formed(tokens.deep_view()),
{
    let text = render(tokens);
    match lex(text.as_str()) {
        Some(lexed_again) => {
            let same = ends_with(&lexed_again, 0, tokens);
            assert(lexed_again.deep_view().subrange(0, lexed_again.len() as int)
                =~= lexed_again.deep_view());
            same
        },
        None => false,
    }
}

/// Reads the clauses of `tokens` from its start and makes a directive of
/// them. The tokens are taken as they are.
pub fn parse_clauses(tokens: &Vec<Token>) -> (directive: Result<DecoratorSpec, GrammarError>)
    ensures
        match directive {
            Ok(spec) => parsed_clauses(tokens.deep_view()) == Ok::<
                DecoratorSpecView,
                GrammarErrorView,
            >(spec.deep_view()),
            Err(error) => parsed_clauses(tokens.deep_view()) == Err::<
                DecoratorSpecView,
                GrammarErrorView,
            >(error.deep_view()),
        },
{
    let ghost all = tokens.deep_view();
    let mut set = ClauseSet::empty();
    let mut at: usize = 0;
    while at < tokens.len()
        invariant
            at <= tokens.len(),
            all == tokens.deep_view(),
            parsed_clauses(all) == parsed_from(all, at as int, set.deep_view()),
        decreases tokens.len() - at,
    {
        if at > 0 && !tokens[at].is_mark(',') {
            return Err(GrammarError { fault: GrammarFault::MissingSeparator, at });
        }
        let start = if at == 0 {
            0
        } else {
            at + 1
        };
        match read_clause(tokens, start) {
            Some((clause, next)) => match set.accept(clause) {
                Ok(larger) => {
                    set = larger;
                    at = next;
                },
                Err(fault) => {
                    return Err(GrammarError { fault, at: start });
                },
            },
            None => {
                return Err(GrammarError { fault: classify_unmatched(tokens, start), at: start });
            },
        }
    }
    match set.finish() {
        Ok(spec) => Ok(spec),
        Err(fault) => Err(GrammarError { fault, at: tokens.len() }),
    }
}

/// Parses the tokens of a directive: they must be what their own text lexes
/// into, as the tokens that [`lex`] gives are; then their clauses are read.
pub fn parse_directive(tokens: &Vec<Token>) -> (directive: Result<DecoratorSpec, GrammarError>)
    ensures
        match directive {
            Ok(spec) => parsed_directive(tokens.deep_view()) == Ok::<
                DecoratorSpecView,
                GrammarErrorView,
            >(spec.deep_view()),
            Err(error) => parsed_directive(tokens.deep_view()) == Err::<
                DecoratorSpecView,
                GrammarErrorView,
            >(error.deep_view()),
        },
{
    if is_well_formed(tokens) {
        parse_clauses(tokens)
    } else {
        Err(GrammarError { fault: GrammarFault::Unlexable, at: 0 })
    }
}

/// The kinds of clause. The two forms of a selection rule are one kind.
pub enum ClauseKind {
    Selection,
    DecoratorCall,
    Debug,
    ReturnOverride,
}

/// The kind of a clause.
pub open spec fn kind_of(clause: ClauseView) -> ClauseKind {
    match clause {
        ClauseView::Selection(_) => ClauseKind::Selection,
        ClauseView::DecoratorCall { .. } => ClauseKind::DecoratorCall,
        ClauseView::Debug => ClauseKind::Debug,
        ClauseView::ReturnOverride(_) => ClauseKind::ReturnOverride,
    }
}

/// How many clauses of one kind a sequence of clauses holds.
pub open spec fn occurrences(clauses: Seq<ClauseView>, kind: ClauseKind) -> nat
    decreases clauses.len(),
{
    if clauses.len() == 0 {
        0
    } else if kind_of(clauses[0]) == kind {
        1 + occurrences(clauses.drop_first(), kind)
    } else {
        occurrences(clauses.drop_first(), kind)
    }
}

/// How many clauses of one kind a set holds: one or none.
pub open spec fn held(set: ClauseSetView, kind: ClauseKind) -> nat {
    let holds = match kind {
        ClauseKind::Selection => set.selection_rule is Some,
        ClauseKind::DecoratorCall => set.decorator is Some,
        ClauseKind::Debug => set.debug,
        ClauseKind::ReturnOverride => set.return_override is Some,
    };
    if holds {
        1
    } else {
        0
    }
}

/// The directive that a sequence of clauses makes, taken one after the other
/// into a set.
pub open spec fn assembled(set: ClauseSetView, clauses: Seq<ClauseView>) -> Result<
    DecoratorSpecView,
    GrammarFault,
>
    decreases clauses.len(),
{
    if clauses.len() == 0 {
        finished(set)
    } else {
        match accepted(set, clauses[0]) {
            Ok(larger) => assembled(larger, clauses.drop_first()),
            Err(fault) => Err(fault),
        }
    }
}

/// The clauses that are read from `at` on, one after the other, until the
/// tokens end, a comma is missing or no clause fits.
pub open spec fn clauses_from(tokens: Seq<TokenView>, at: int) -> Seq<ClauseView>
    decreases tokens.len() - at,
{
    if at < 0 || at >= tokens.len() {
        Seq::empty()
    } else if at > 0 && !is_mark(tokens[at], ',') {
        Seq::empty()
    } else {
        let start = if at == 0 {
            0
        } else {
            at + 1
        };
        match clause_at(tokens, start) {
            Some((clause, next)) => {
                proof {
                    lemma_clause_bounds(tokens, start);
                }
                seq![clause] + clauses_from(tokens, next)
            },
            None => Seq::empty(),
        }
    }
}

/// Clauses make a directive from a set exactly where, the set's own clauses
/// counted in, the decorator call stands once and no other kind more than
/// once.
pub proof fn lemma_assembled_from(set: ClauseSetView, clauses: Seq<ClauseView>)
    ensures
        assembled(set, clauses) is Ok <==> {
            &&& held(set, ClauseKind::DecoratorCall) + occurrences(
                clauses,
                ClauseKind::DecoratorCall,
            ) == 1
            &&& held(set, ClauseKind::Selection) + occurrences(clauses, ClauseKind::Selection) <= 1
            &&& held(set, ClauseKind::Debug) + occurrences(clauses, ClauseKind::Debug) <= 1
            &&& held(set, ClauseKind::ReturnOverride) + occurrences(
                clauses,
                ClauseKind::ReturnOverride,
            ) <= 1
        },
    decreases clauses.len(),
{
    if clauses.len() > 0 {
        match accepted(set, clauses[0]) {
            Ok(larger) => {
                lemma_assembled_from(larger, clauses.drop_first());
            },
            Err(_) => {},
        }
    }
}

/// A sequence of clauses makes a directive if and only if it holds exactly
/// one decorator call, at most one selection rule (of either form), at most
/// one `debug` and at most one return override. So two selection rules, two
/// `debug` clauses or no decorator call make none.
pub proof fn lemma_one_clause_of_each_kind(clauses: Seq<ClauseView>)
    ensures
        assembled(no_clauses(), clauses) is Ok <==> {
            &&& occurrences(clauses, ClauseKind::DecoratorCall) == 1
            &&& occurrences(clauses, ClauseKind::Selection) <= 1
            &&& occurrences(clauses, ClauseKind::Debug) <= 1
            &&& occurrences(clauses, ClauseKind::ReturnOverride) <= 1
        },
{
    lemma_assembled_from(no_clauses(), clauses);
}

/// Where the tokens from `at` on complete a directive, it is the one that
/// the clauses read from `at` on make.
pub proof fn lemma_parsed_is_assembled(tokens: Seq<TokenView>, at: int, set: ClauseSetView)
    requires
        parsed_from(tokens, at, set) is Ok,
    ensures
        assembled(set, clauses_from(tokens, at)) == Ok::<DecoratorSpecView, GrammarFault>(
            parsed_from(tokens, at, set)->Ok_0,
        ),
    decreases tokens.len() - at,
{
    if 0 <= at < tokens.len() {
        let start = if at == 0 {
            0
        } else {
            at + 1
        };
        let (clause, next) = clause_at(tokens, start)->0;
        let larger = accepted(set, clause)->Ok_0;
        lemma_clause_bounds(tokens, start);
        lemma_parsed_is_assembled(tokens, next, larger);
        let clauses = clauses_from(tokens, at);
        assert(clauses[0] == clause);
        assert(clauses.drop_first() =~= clauses_from(tokens, next));
    }
}

/// A directive is accepted only if, among the clauses that it shows, the
/// decorator call stands exactly once and a selection rule (`hide_parameters`
/// or `exact_parameters`), `debug` and a return override at most once each.
/// So a directive with both `hide_parameters` and `exact_parameters`, with
/// two `debug` clauses or without a decorator call is refused.
pub proof fn lemma_conflicting_clauses_are_refused(tokens: Seq<TokenView>)
    ensures
        parsed_directive(tokens) is Ok ==> parsed_clauses(tokens) == parsed_directive(tokens),
        parsed_clauses(tokens) is Ok ==> {
            let clauses = clauses_from(tokens, 0);
            &&& assembled(no_clauses(), clauses) == Ok::<DecoratorSpecView, GrammarFault>(
                parsed_clauses(tokens)->Ok_0,
            )
            &&& occurrences(clauses, ClauseKind::DecoratorCall) == 1
            &&& occurrences(clauses, ClauseKind::Selection) <= 1
            &&& occurrences(clauses, ClauseKind::Debug) <= 1
            &&& occurrences(clauses, ClauseKind::ReturnOverride) <= 1
        },
{
    if parsed_clauses(tokens) is Ok {
        lemma_parsed_is_assembled(tokens, 0, no_clauses());
        lemma_one_clause_of_each_kind(clauses_from(tokens, 0));
    }
}

} // verus!
