//! Token trees: the input and the output of a macro.

use vstd::prelude::*;

verus! {

/// Identity of a token, kept so that an expansion can be mapped back to its source.
#[derive(Clone, Copy, Debug, PartialEq, Eq, Structural)]
pub struct TokenId(pub u32);

#[derive(Clone, Copy, Debug, PartialEq, Eq, Structural)]
pub enum DelimiterKind {
    Parenthesis,
    Brace,
    Bracket,
}

#[derive(Clone, Copy, Debug, PartialEq, Eq, Structural)]
pub struct Delimiter {
    pub id: TokenId,
    pub kind: DelimiterKind,
}

#[derive(Clone, Copy, Debug, PartialEq, Eq, Structural)]
pub enum Spacing {
    Alone,
    Joint,
}

#[derive(Clone, Debug, PartialEq, Eq)]
pub struct Literal {
    pub text: String,
    pub id: TokenId,
}

#[derive(Clone, Copy, Debug, PartialEq, Eq, Structural)]
pub struct Punct {
    pub char: char,
    pub spacing: Spacing,
    pub id: TokenId,
}

#[derive(Clone, Debug, PartialEq, Eq)]
pub struct Ident {
    pub text: String,
    pub id: TokenId,
}

#[derive(Clone, Debug, PartialEq, Eq)]
pub enum Leaf {
    Literal(Literal),
    Punct(Punct),
    Ident(Ident),
}

#[derive(Debug, PartialEq, Eq)]
pub enum TokenTree {
    Leaf(Leaf),
    Subtree(Subtree),
}

#[derive(Debug, PartialEq, Eq)]
pub struct Subtree {
    pub delimiter: Option<Delimiter>,
    pub token_trees: Vec<TokenTree>,
}

/// What a leaf is, with its text as a sequence of characters.
pub enum LeafView {
    Literal { text: Seq<char>, id: TokenId },
    Punct { punct: Punct },
    Ident { text: Seq<char>, id: TokenId },
}

/// What a token tree is.
pub enum TokenTreeView {
    Leaf(LeafView),
    Subtree(SubtreeView),
}

/// What a subtree is: its delimiter and its children in order.
pub struct SubtreeView {
    pub delimiter: Option<Delimiter>,
    pub token_trees: Seq<TokenTreeView>,
}

impl View for Leaf {
    type V = LeafView;

    open spec fn view(&self) -> LeafView {
        match *self {
            Leaf::Literal(l) => LeafView::Literal { text: l.text@, id: l.id },
            Leaf::Punct(p) => LeafView::Punct { punct: p },
            Leaf::Ident(i) => LeafView::Ident { text: i.text@, id: i.id },
        }
    }
}

/// The view of a token tree.
pub open spec fn token_tree_view(t: TokenTree) -> TokenTreeView
    decreases t,
{
    match t {
        TokenTree::Leaf(l) => TokenTreeView::Leaf(l@),
        TokenTree::Subtree(s) => TokenTreeView::Subtree(subtree_view(s)),
    }
}

/// The view of a subtree.
pub open spec fn subtree_view(s: Subtree) -> SubtreeView
    decreases s,
{
    SubtreeView {
        delimiter: s.delimiter,
        token_trees: Seq::new(
            s.token_trees@.len(),
            |i: int|
                if 0 <= i < s.token_trees@.len() {
                    token_tree_view(s.token_trees@[i])
                } else {
                    arbitrary()
                },
        ),
    }
}

impl View for TokenTree {
    type V = TokenTreeView;

    open spec fn view(&self) -> TokenTreeView {
        token_tree_view(*self)
    }
}

impl View for Subtree {
    type V = SubtreeView;

    open spec fn view(&self) -> SubtreeView {
        subtree_view(*self)
    }
}

} // verus!
