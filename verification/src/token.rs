//! The flat token model: a token stream written out as a sequence, with a
//! pair of bracket tokens around the content of every group.

use vstd::prelude::*;
use vstd::string::StringExecFns;

verus! {

/// The bracket kind of a group of tokens.
#[derive(Clone, Copy, Debug, PartialEq, Eq, Structural)]
pub enum Grouping {
    Parenthesis,
    Brace,
    Bracket,
    /// A group without brackets of its own, as macro expansion leaves them.
    Invisible,
}

/// One token of source text.
#[derive(Clone, Debug, PartialEq, Eq)]
pub enum Token {
    /// A word: an identifier or a keyword.
    Ident(String),
    /// One punctuation character, and whether the next token follows it
    /// without a gap (as the `-` of `->` does).
    Punct(char, bool),
    /// A literal, by its source text.
    Literal(String),
    /// The opening bracket of a group.
    Open(Grouping),
    /// The closing bracket of a group.
    Close(Grouping),
}

/// The mathematical value of a [`Token`].
pub enum TokenView {
    Ident(Seq<char>),
    Punct(char, bool),
    Literal(Seq<char>),
    Open(Grouping),
    Close(Grouping),
}

impl DeepView for Token {
    type V = TokenView;

    open spec fn deep_view(&self) -> TokenView {
        match self {
            Token::Ident(name) => TokenView::Ident(name@),
            Token::Punct(symbol, joint) => TokenView::Punct(*symbol, *joint),
            Token::Literal(text) => TokenView::Literal(text@),
            Token::Open(grouping) => TokenView::Open(*grouping),
            Token::Close(grouping) => TokenView::Close(*grouping),
        }
    }
}

/// `String::push`, as std documents it: the character is appended to the end
/// of the string.
pub assume_specification[ String::push ](text: &mut String, symbol: char)
    ensures
        final(text)@ == old(text)@.push(symbol),
;

/// Whether two texts hold the same characters.
pub fn same_text(left: &str, right: &str) -> (same: bool)
    ensures
        same == (left@ == right@),
{
    let left_owned = String::from_str(left);
    let right_owned = String::from_str(right);
    left_owned == right_owned
}

impl Token {
    /// The word `name`.
    pub fn word(name: &str) -> (token: Token)
        ensures
            token.deep_view() == TokenView::Ident(name@),
    {
        Token::Ident(String::from_str(name))
    }

    /// The punctuation `symbol`, with a gap after it.
    pub fn mark(symbol: char) -> (token: Token)
        ensures
            token.deep_view() == TokenView::Punct(symbol, false),
    {
        Token::Punct(symbol, false)
    }

    /// The punctuation `symbol`, joined to the punctuation after it.
    pub fn joint(symbol: char) -> (token: Token)
        ensures
            token.deep_view() == TokenView::Punct(symbol, true),
    {
        Token::Punct(symbol, true)
    }

    /// A copy of this token.
    pub fn duplicate(&self) -> (copy: Token)
        ensures
            copy.deep_view() == self.deep_view(),
    {
        match self {
            Token::Ident(name) => Token::Ident(name.clone()),
            Token::Punct(symbol, joint) => Token::Punct(*symbol, *joint),
            Token::Literal(text) => Token::Literal(text.clone()),
            Token::Open(grouping) => Token::Open(*grouping),
            Token::Close(grouping) => Token::Close(*grouping),
        }
    }

    /// Whether this token and `other` are the same token.
    pub fn same(&self, other: &Token) -> (yes: bool)
        ensures
            yes == (self.deep_view() == other.deep_view()),
    {
        match (self, other) {
            (Token::Ident(own), Token::Ident(name)) => same_text(own.as_str(), name.as_str()),
            (Token::Punct(own, joint), Token::Punct(symbol, other_joint)) => *own == *symbol
                && *joint == *other_joint,
            (Token::Literal(own), Token::Literal(text)) => same_text(own.as_str(), text.as_str()),
            (Token::Open(own), Token::Open(grouping)) => *own == *grouping,
            (Token::Close(own), Token::Close(grouping)) => *own == *grouping,
            _ => false,
        }
    }

    /// Whether this token is the word `name`.
    pub fn is_word(&self, name: &str) -> (yes: bool)
        ensures
            yes == (self.deep_view() == TokenView::Ident(name@)),
    {
        match self {
            Token::Ident(own) => same_text(own.as_str(), name),
            _ => false,
        }
    }

    /// Whether this token is the punctuation `symbol`, joined or not.
    pub fn is_mark(&self, symbol: char) -> (yes: bool)
        ensures
            yes == is_mark(self.deep_view(), symbol),
    {
        match self {
            Token::Punct(own, _) => *own == symbol,
            _ => false,
        }
    }

    /// Whether this token opens a group of the kind `grouping`.
    pub fn opens(&self, grouping: Grouping) -> (yes: bool)
        ensures
            yes == (self.deep_view() == TokenView::Open(grouping)),
    {
        match self {
            Token::Open(own) => *own == grouping,
            _ => false,
        }
    }

    /// Whether this token closes a group of the kind `grouping`.
    pub fn closes(&self, grouping: Grouping) -> (yes: bool)
        ensures
            yes == (self.deep_view() == TokenView::Close(grouping)),
    {
        match self {
            Token::Close(own) => *own == grouping,
            _ => false,
        }
    }
}

/// Whether `token` is the punctuation `symbol`, joined or not.
pub open spec fn is_mark(token: TokenView, symbol: char) -> bool {
    token matches TokenView::Punct(own, _) && own == symbol
}

/// Appends a copy of `tokens` to `out`.
pub fn append_tokens(out: &mut Vec<Token>, tokens: &Vec<Token>)
    ensures
        final(out).deep_view() == old(out).deep_view() + tokens.deep_view(),
{
    let ghost before = out.deep_view();
    let mut i: usize = 0;
    while i < tokens.len()
        invariant
            i <= tokens.len(),
            out.deep_view() == before + tokens.deep_view().take(i as int),
        decreases tokens.len() - i,
    {
        let ghost earlier = out.deep_view();
        out.push(tokens[i].duplicate());
        assert(out.deep_view() =~= earlier.push(tokens.deep_view()[i as int]));
        assert(tokens.deep_view().take(i + 1) =~= tokens.deep_view().take(i as int).push(
            tokens.deep_view()[i as int],
        ));
        assert(out.deep_view() =~= before + tokens.deep_view().take(i + 1));
        i += 1;
    }
    assert(tokens.deep_view().take(i as int) =~= tokens.deep_view());
}

/// Appends `token` to `out`.
pub fn push_token(out: &mut Vec<Token>, token: Token)
    ensures
        final(out).deep_view() == old(out).deep_view().push(token.deep_view()),
{
    let ghost before = out.deep_view();
    out.push(token);
    assert(out.deep_view() =~= before.push(token.deep_view()));
}

/// A copy of `tokens`.
pub fn copy_tokens(tokens: &Vec<Token>) -> (copy: Vec<Token>)
    ensures
        copy.deep_view() == tokens.deep_view(),
{
    let mut copy: Vec<Token> = Vec::new();
    assert(copy.deep_view() =~= Seq::<TokenView>::empty());
    append_tokens(&mut copy, tokens);
    assert(copy.deep_view() =~= tokens.deep_view());
    copy
}

/// The source text of one token, with the gap that follows it.
pub open spec fn token_text(token: TokenView) -> Seq<char> {
    match token {
        TokenView::Ident(name) => name.push(' '),
        TokenView::Punct(symbol, joint) => if joint {
            seq![symbol]
        } else {
            seq![symbol, ' ']
        },
        TokenView::Literal(text) => text.push(' '),
        TokenView::Open(grouping) => match grouping {
            Grouping::Parenthesis => seq!['(', ' '],
            Grouping::Brace => seq!['{', ' '],
            Grouping::Bracket => seq!['[', ' '],
            Grouping::Invisible => seq![],
        },
        TokenView::Close(grouping) => match grouping {
            Grouping::Parenthesis => seq![')', ' '],
            Grouping::Brace => seq!['}', ' '],
            Grouping::Bracket => seq![']', ' '],
            Grouping::Invisible => seq![],
        },
    }
}

/// The source text of a token sequence: the texts of its tokens in order.
pub open spec fn rendered(tokens: Seq<TokenView>) -> Seq<char>
    decreases tokens.len(),
{
    if tokens.len() == 0 {
        Seq::empty()
    } else {
        rendered(tokens.drop_last()) + token_text(tokens.last())
    }
}

/// Appends the source text of `token` to `text`.
fn write_token(text: &mut String, token: &Token)
    ensures
        final(text)@ == old(text)@ + token_text(token.deep_view()),
{
    let ghost before = text@;
    match token {
        Token::Ident(name) => {
            text.append(name.as_str());
            text.push(' ');
            assert(text@ =~= before + name@.push(' '));
        },
        Token::Punct(symbol, joint) => {
            text.push(*symbol);
            if !*joint {
                text.push(' ');
            }
            assert(text@ =~= before + token_text(token.deep_view()));
        },
        Token::Literal(literal) => {
            text.append(literal.as_str());
            text.push(' ');
            assert(text@ =~= before + literal@.push(' '));
        },
        Token::Open(grouping) => {
            match grouping {
                Grouping::Parenthesis => {
                    text.push('(');
                    text.push(' ');
                },
                Grouping::Brace => {
                    text.push('{');
                    text.push(' ');
                },
                Grouping::Bracket => {
                    text.push('[');
                    text.push(' ');
                },
                Grouping::Invisible => {},
            }
            assert(text@ =~= before + token_text(token.deep_view()));
        },
        Token::Close(grouping) => {
            match grouping {
                Grouping::Parenthesis => {
                    text.push(')');
                    text.push(' ');
                },
                Grouping::Brace => {
                    text.push('}');
                    text.push(' ');
                },
                Grouping::Bracket => {
                    text.push(']');
                    text.push(' ');
                },
                Grouping::Invisible => {},
            }
            assert(text@ =~= before + token_text(token.deep_view()));
        },
    }
}

/// The source text of the tokens from `from` up to `to`.
pub fn render_range(tokens: &Vec<Token>, from: usize, to: usize) -> (text: String)
    requires
        from <= to <= tokens.len(),
    ensures
        text@ == rendered(tokens.deep_view().subrange(from as int, to as int)),
{
    let mut text = String::new();
    let mut i: usize = from;
    let ghost all = tokens.deep_view();
    assert(all.subrange(from as int, from as int) =~= Seq::<TokenView>::empty());
    while i < to
        invariant
            from <= i <= to <= tokens.len(),
            all == tokens.deep_view(),
            text@ == rendered(all.subrange(from as int, i as int)),
        decreases to - i,
    {
        write_token(&mut text, &tokens[i]);
        proof {
            let longer = all.subrange(from as int, i + 1);
            assert(longer.drop_last() =~= all.subrange(from as int, i as int));
            assert(longer.last() == all[i as int]);
        }
        i += 1;
    }
    text
}

/// The source text of `tokens`.
pub fn render(tokens: &Vec<Token>) -> (text: String)
    ensures
        text@ == rendered(tokens.deep_view()),
{
    assert(tokens.deep_view().subrange(0, tokens.len() as int) =~= tokens.deep_view());
    render_range(tokens, 0, tokens.len())
}

/// Scanning forward from `from`, inside `depth` groups that were opened
/// before it: the place of the bracket that closes the outermost of them.
pub open spec fn closing_index(tokens: Seq<TokenView>, from: int, depth: nat) -> Option<int>
    decreases tokens.len() - from,
{
    if from < 0 || from >= tokens.len() {
        None
    } else {
        match tokens[from] {
            TokenView::Open(_) => closing_index(tokens, from + 1, depth + 1),
            TokenView::Close(_) => if depth == 0 {
                Some(from)
            } else {
                closing_index(tokens, from + 1, (depth - 1) as nat)
            },
            _ => closing_index(tokens, from + 1, depth),
        }
    }
}

/// A closing bracket that is found lies at or after the start of the scan.
pub proof fn lemma_closing_index_bounds(tokens: Seq<TokenView>, from: int, depth: nat)
    ensures
        closing_index(tokens, from, depth) matches Some(close) ==> from <= close < tokens.len(),
    decreases tokens.len() - from,
{
    if 0 <= from < tokens.len() {
        match tokens[from] {
            TokenView::Open(_) => lemma_closing_index_bounds(tokens, from + 1, depth + 1),
            TokenView::Close(_) => if depth != 0 {
                lemma_closing_index_bounds(tokens, from + 1, (depth - 1) as nat)
            },
            _ => lemma_closing_index_bounds(tokens, from + 1, depth),
        }
    }
}

/// The place of the bracket that closes the group whose content starts at
/// `from`.
pub fn find_closing(tokens: &Vec<Token>, from: usize) -> (close: Option<usize>)
    ensures
        close matches Some(index) ==> closing_index(tokens.deep_view(), from as int, 0) == Some(
            index as int,
        ) && from <= index < tokens.len(),
        close is None ==> closing_index(tokens.deep_view(), from as int, 0) is None,
{
    let ghost all = tokens.deep_view();
    let mut i: usize = from;
    let mut depth: usize = 0;
    while i < tokens.len()
        invariant
            from <= i,
            all == tokens.deep_view(),
            depth <= i - from,
            closing_index(all, from as int, 0) == closing_index(all, i as int, depth as nat),
        decreases tokens.len() - i,
    {
        match &tokens[i] {
            Token::Open(_) => {
                depth += 1;
            },
            Token::Close(_) => {
                if depth == 0 {
                    return Some(i);
                }
                depth -= 1;
            },
            _ => {},
        }
        i += 1;
    }
    None
}

/// Scanning backward from `from`, inside `depth` groups that were closed
/// after it: the place of the bracket that opens the outermost of them.
pub open spec fn opening_index(tokens: Seq<TokenView>, from: int, depth: nat) -> Option<int>
    decreases from + 1,
{
    if from < 0 || from >= tokens.len() {
        None
    } else {
        match tokens[from] {
            TokenView::Close(_) => opening_index(tokens, from - 1, depth + 1),
            TokenView::Open(_) => if depth == 0 {
                Some(from)
            } else {
                opening_index(tokens, from - 1, (depth - 1) as nat)
            },
            _ => opening_index(tokens, from - 1, depth),
        }
    }
}

/// The group in braces that ends a token sequence, with its braces.
pub open spec fn trailing_block(tokens: Seq<TokenView>) -> Option<Seq<TokenView>> {
    if tokens.len() >= 2 && tokens.last() == TokenView::Close(Grouping::Brace) {
        match opening_index(tokens, tokens.len() - 2, 0) {
            Some(open) => if 0 <= open < tokens.len() && tokens[open] == TokenView::Open(
                Grouping::Brace,
            ) {
                Some(tokens.skip(open))
            } else {
                None
            },
            None => None,
        }
    } else {
        None
    }
}

/// A copy of the tokens from `from` up to `to`.
pub fn copy_range(tokens: &Vec<Token>, from: usize, to: usize) -> (copy: Vec<Token>)
    requires
        from <= to <= tokens.len(),
    ensures
        copy.deep_view() == tokens.deep_view().subrange(from as int, to as int),
{
    let mut copy: Vec<Token> = Vec::new();
    let ghost all = tokens.deep_view();
    let mut i: usize = from;
    assert(copy.deep_view() =~= all.subrange(from as int, from as int));
    while i < to
        invariant
            from <= i <= to <= tokens.len(),
            all == tokens.deep_view(),
            copy.deep_view() == all.subrange(from as int, i as int),
        decreases to - i,
    {
        push_token(&mut copy, tokens[i].duplicate());
        assert(copy.deep_view() =~= all.subrange(from as int, i + 1));
        i += 1;
    }
    copy
}

/// The group in braces that ends `tokens`, with its braces.
pub fn take_trailing_block(tokens: &Vec<Token>) -> (block: Option<Vec<Token>>)
    ensures
        block.deep_view() == trailing_block(tokens.deep_view()),
{
    let ghost all = tokens.deep_view();
    let n = tokens.len();
    if n < 2 || !tokens[n - 1].closes(Grouping::Brace) {
        return None;
    }
    let mut i: usize = n - 1;
    let mut depth: usize = 0;
    while i > 0
        invariant
            i < n == tokens.len(),
            all == tokens.deep_view(),
            depth <= n - 1 - i,
            n >= 2,
            all.last() == TokenView::Close(Grouping::Brace),
            opening_index(all, n - 2, 0) == opening_index(all, i - 1, depth as nat),
        decreases i,
    {
        i -= 1;
        match &tokens[i] {
            Token::Close(_) => {
                depth += 1;
            },
            Token::Open(own) => {
                if depth == 0 {
                    if *own == Grouping::Brace {
                        let block = copy_range(tokens, i, n);
                        assert(all.skip(i as int) =~= all.subrange(i as int, n as int));
                        return Some(block);
                    } else {
                        return None;
                    }
                }
                depth -= 1;
            },
            _ => {},
        }
    }
    None
}

/// The comma that separates the items of a list.
pub open spec fn comma() -> TokenView {
    TokenView::Punct(',', false)
}

/// The items in order, with a comma between every two of them.
pub open spec fn separated(items: Seq<Seq<TokenView>>) -> Seq<TokenView>
    decreases items.len(),
{
    if items.len() == 0 {
        Seq::empty()
    } else if items.len() == 1 {
        items[0]
    } else {
        separated(items.drop_last()).push(comma()) + items.last()
    }
}

/// The items in order, with a comma after each of them.
pub open spec fn terminated(items: Seq<Seq<TokenView>>) -> Seq<TokenView>
    decreases items.len(),
{
    if items.len() == 0 {
        Seq::empty()
    } else {
        (terminated(items.drop_last()) + items.last()).push(comma())
    }
}

/// Appends the items to `out`, with a comma between every two of them.
pub fn append_separated(out: &mut Vec<Token>, items: &Vec<Vec<Token>>)
    ensures
        final(out).deep_view() == old(out).deep_view() + separated(items.deep_view()),
{
    let ghost before = out.deep_view();
    let ghost all = items.deep_view();
    let mut i: usize = 0;
    assert(before + separated(all.take(0)) =~= before);
    while i < items.len()
        invariant
            i <= items.len(),
            all == items.deep_view(),
            out.deep_view() == before + separated(all.take(i as int)),
        decreases items.len() - i,
    {
        proof {
            assert(all.take(i + 1).drop_last() =~= all.take(i as int));
            assert(all.take(i + 1).last() == items@[i as int].deep_view());
        }
        let ghost earlier = out.deep_view();
        if i > 0 {
            push_token(out, Token::mark(','));
        }
        append_tokens(out, &items[i]);
        proof {
            if i == 0 {
                assert(all.take(1)[0] == items@[0].deep_view());
                assert(separated(all.take(0)) =~= Seq::<TokenView>::empty());
                assert(out.deep_view() =~= before + separated(all.take(1)));
            } else {
                assert(out.deep_view() =~= before + separated(all.take(i + 1)));
            }
        }
        i += 1;
    }
    assert(all.take(i as int) =~= all);
}

/// Appends the items to `out`, with a comma after each of them.
pub fn append_terminated(out: &mut Vec<Token>, items: &Vec<Vec<Token>>)
    ensures
        final(out).deep_view() == old(out).deep_view() + terminated(items.deep_view()),
{
    let ghost before = out.deep_view();
    let ghost all = items.deep_view();
    let mut i: usize = 0;
    assert(before + terminated(all.take(0)) =~= before);
    while i < items.len()
        invariant
            i <= items.len(),
            all == items.deep_view(),
            out.deep_view() == before + terminated(all.take(i as int)),
        decreases items.len() - i,
    {
        proof {
            assert(all.take(i + 1).drop_last() =~= all.take(i as int));
            assert(all.take(i + 1).last() == items@[i as int].deep_view());
        }
        append_tokens(out, &items[i]);
        push_token(out, Token::mark(','));
        assert(out.deep_view() =~= before + terminated(all.take(i + 1)));
        i += 1;
    }
    assert(all.take(i as int) =~= all);
}

/// A token sequence inside a pair of brackets.
pub open spec fn enclosed(grouping: Grouping, content: Seq<TokenView>) -> Seq<TokenView> {
    seq![TokenView::Open(grouping)] + content + seq![TokenView::Close(grouping)]
}

/// Appends `content` to `out`, inside a pair of brackets.
pub fn append_enclosed(out: &mut Vec<Token>, grouping: Grouping, content: &Vec<Token>)
    ensures
        final(out).deep_view() == old(out).deep_view() + enclosed(grouping, content.deep_view()),
{
    let ghost before = out.deep_view();
    push_token(out, Token::Open(grouping));
    append_tokens(out, content);
    push_token(out, Token::Close(grouping));
    assert(out.deep_view() =~= before + enclosed(grouping, content.deep_view()));
}

/// Whether the tokens of `tokens` from `from` on are those of `other`.
pub fn ends_with(tokens: &Vec<Token>, from: usize, other: &Vec<Token>) -> (yes: bool)
    requires
        from <= tokens.len(),
    ensures
        yes == (tokens.deep_view().subrange(from as int, tokens.len() as int)
            == other.deep_view()),
{
    let ghost tail = tokens.deep_view().subrange(from as int, tokens.len() as int);
    if tokens.len() - from != other.len() {
        assert(tail.len() != other.deep_view().len());
        return false;
    }
    let mut i: usize = 0;
    while i < other.len()
        invariant
            from <= tokens.len(),
            tokens.len() - from == other.len(),
            i <= other.len(),
            tail == tokens.deep_view().subrange(from as int, tokens.len() as int),
            forall|k: int| 0 <= k < i ==> tail[k] == other.deep_view()[k],
        decreases other.len() - i,
    {
        assert(tail[i as int] == tokens@[from + i].deep_view());
        assert(other.deep_view()[i as int] == other@[i as int].deep_view());
        if !tokens[from + i].same(&other[i]) {
            return false;
        }
        i += 1;
    }
    assert(tail =~= other.deep_view());
    true
}

} // verus!
