//! The flat form of a token tree.
//!
//! A worker process shares no memory with its client, so a tree crosses the
//! boundary as a sequence of words and a table of texts. Trees are written in
//! pre-order. A subtree is the words `[0, kind, id, n]` followed by its `n`
//! children; a literal is `[1, id, text]`, a punctuation mark
//! `[2, id, char, spacing]`, an identifier `[3, id, text]`, where `text` is an
//! index into the table. A subtree without a delimiter has kind 0 and
//! identity 0.
//!
//! Reading is strict: words that do not spell out exactly one subtree stand
//! for nothing. What was written by `FlatTree::new` reads back as the tree it
//! was written from.

mod reader;
mod roundtrip;
mod writer;

use vstd::prelude::*;
use crate::flat::reader::read_subtree;
use crate::flat::roundtrip::lemma_subtree_decodes;
use crate::flat::writer::write_subtree;
use crate::tree::{
    Delimiter, DelimiterKind, LeafView, Punct, Spacing, Subtree, SubtreeView, TokenId,
    TokenTreeView,
};

verus! {

/// The first word of a subtree.
pub const TAG_SUBTREE: u64 = 0;

/// The first word of a literal.
pub const TAG_LITERAL: u64 = 1;

/// The first word of a punctuation mark.
pub const TAG_PUNCT: u64 = 2;

/// The first word of an identifier.
pub const TAG_IDENT: u64 = 3;

/// A token tree without pointers: words in pre-order and the texts they refer to.
#[derive(Clone, Debug, PartialEq, Eq)]
pub struct FlatTree {
    pub words: Vec<u64>,
    pub text: Vec<String>,
}

/// What a flat tree holds: its words, and its texts as sequences of characters.
pub struct FlatTreeView {
    pub words: Seq<u64>,
    pub text: Seq<Seq<char>>,
}

/// The texts of a table, each as a sequence of characters.
pub open spec fn text_view(text: Seq<String>) -> Seq<Seq<char>> {
    Seq::new(text.len(), |i: int| text[i]@)
}

impl View for FlatTree {
    type V = FlatTreeView;

    open spec fn view(&self) -> FlatTreeView {
        FlatTreeView { words: self.words@, text: text_view(self.text@) }
    }
}

/// The word that stands for a kind of delimiter. Zero stands for none.
pub open spec fn kind_code(kind: DelimiterKind) -> u64 {
    match kind {
        DelimiterKind::Parenthesis => 1,
        DelimiterKind::Brace => 2,
        DelimiterKind::Bracket => 3,
    }
}

/// The word that stands for the spacing of a punctuation mark.
pub open spec fn spacing_code(spacing: Spacing) -> u64 {
    match spacing {
        Spacing::Alone => 0,
        Spacing::Joint => 1,
    }
}

/// The two words that stand for a delimiter: its kind and its identity.
pub open spec fn delimiter_words(delimiter: Option<Delimiter>) -> Seq<u64> {
    match delimiter {
        None => seq![0u64, 0u64],
        Some(d) => seq![kind_code(d.kind), d.id.0 as u64],
    }
}

/// The texts that a leaf adds to the table.
pub open spec fn leaf_texts(leaf: LeafView) -> Seq<Seq<char>> {
    match leaf {
        LeafView::Literal { text, .. } => seq![text],
        LeafView::Punct { .. } => Seq::empty(),
        LeafView::Ident { text, .. } => seq![text],
    }
}

/// The words of a leaf whose text, if it has one, is entry `base` of the table.
pub open spec fn leaf_words(leaf: LeafView, base: nat) -> Seq<u64> {
    match leaf {
        LeafView::Literal { id, .. } => seq![TAG_LITERAL, id.0 as u64, base as u64],
        LeafView::Punct { punct } => seq![
            TAG_PUNCT,
            punct.id.0 as u64,
            punct.char as u64,
            spacing_code(punct.spacing),
        ],
        LeafView::Ident { id, .. } => seq![TAG_IDENT, id.0 as u64, base as u64],
    }
}

/// The texts of a tree, in pre-order.
pub open spec fn tree_texts(tree: TokenTreeView) -> Seq<Seq<char>>
    decreases tree,
{
    match tree {
        TokenTreeView::Leaf(leaf) => leaf_texts(leaf),
        TokenTreeView::Subtree(subtree) => subtree_texts(subtree),
    }
}

/// The texts of a subtree, in pre-order.
pub open spec fn subtree_texts(subtree: SubtreeView) -> Seq<Seq<char>>
    decreases subtree,
{
    forest_texts(subtree.token_trees)
}

/// The texts of a sequence of trees, in pre-order.
pub open spec fn forest_texts(trees: Seq<TokenTreeView>) -> Seq<Seq<char>>
    decreases trees,
{
    if trees.len() == 0 {
        Seq::empty()
    } else {
        forest_texts(trees.drop_last()) + tree_texts(trees.last())
    }
}

/// The words of a tree whose first text is entry `base` of the table.
pub open spec fn tree_words(tree: TokenTreeView, base: nat) -> Seq<u64>
    decreases tree,
{
    match tree {
        TokenTreeView::Leaf(leaf) => leaf_words(leaf, base),
        TokenTreeView::Subtree(subtree) => subtree_words(subtree, base),
    }
}

/// The four words that open a subtree.
pub open spec fn subtree_header(subtree: SubtreeView) -> Seq<u64> {
    seq![TAG_SUBTREE] + delimiter_words(subtree.delimiter) + seq![
        subtree.token_trees.len() as u64,
    ]
}

/// The words of a subtree whose first text is entry `base` of the table.
pub open spec fn subtree_words(subtree: SubtreeView, base: nat) -> Seq<u64>
    decreases subtree,
{
    subtree_header(subtree) + forest_words(subtree.token_trees, base)
}

/// The words of a sequence of trees whose first text is entry `base` of the table.
pub open spec fn forest_words(trees: Seq<TokenTreeView>, base: nat) -> Seq<u64>
    decreases trees,
{
    if trees.len() == 0 {
        Seq::empty()
    } else {
        forest_words(trees.drop_last(), base) + tree_words(
            trees.last(),
            base + forest_texts(trees.drop_last()).len(),
        )
    }
}

/// The flat form of a subtree.
pub open spec fn encode(subtree: SubtreeView) -> FlatTreeView {
    FlatTreeView { words: subtree_words(subtree, 0), text: subtree_texts(subtree) }
}

/// Whether every child count in the tree fits in a word.
pub open spec fn tree_fits(tree: TokenTreeView) -> bool
    decreases tree,
{
    match tree {
        TokenTreeView::Leaf(_) => true,
        TokenTreeView::Subtree(subtree) => subtree_fits(subtree),
    }
}

/// Whether every child count in the subtree fits in a word.
pub open spec fn subtree_fits(subtree: SubtreeView) -> bool
    decreases subtree,
{
    &&& subtree.token_trees.len() <= u64::MAX
    &&& forall|i: int|
        0 <= i < subtree.token_trees.len() ==> tree_fits(#[trigger] subtree.token_trees[i])
}

/// A subtree that a flat tree can hold: its child counts and the number of
/// its texts fit in a word.
pub open spec fn representable(subtree: SubtreeView) -> bool {
    subtree_fits(subtree) && subtree_texts(subtree).len() <= u64::MAX
}

/// Whether a word is a Unicode scalar value.
pub open spec fn is_scalar_value(word: u64) -> bool {
    word <= 0xD7FF || 0xE000 <= word <= 0x10FFFF
}

/// The delimiter that the words `kind` and `id` stand for, if they stand for one.
pub open spec fn dec_delimiter(kind: u64, id: u64) -> Option<Option<Delimiter>> {
    if id > u32::MAX {
        None
    } else if kind == 0 {
        if id == 0 {
            Some(None)
        } else {
            None
        }
    } else if kind == 1 {
        Some(Some(Delimiter { id: TokenId(id as u32), kind: DelimiterKind::Parenthesis }))
    } else if kind == 2 {
        Some(Some(Delimiter { id: TokenId(id as u32), kind: DelimiterKind::Brace }))
    } else if kind == 3 {
        Some(Some(Delimiter { id: TokenId(id as u32), kind: DelimiterKind::Bracket }))
    } else {
        None
    }
}

/// The leaf that starts at word `pos`, with the position after it.
pub open spec fn dec_leaf(words: Seq<u64>, text: Seq<Seq<char>>, pos: int) -> Option<
    (LeafView, int),
> {
    if pos < 0 || pos + 3 > words.len() {
        None
    } else if words[pos + 1] > u32::MAX {
        None
    } else if words[pos] == TAG_LITERAL || words[pos] == TAG_IDENT {
        if words[pos + 2] >= text.len() {
            None
        } else if words[pos] == TAG_LITERAL {
            Some(
                (
                    LeafView::Literal {
                        text: text[words[pos + 2] as int],
                        id: TokenId(words[pos + 1] as u32),
                    },
                    pos + 3,
                ),
            )
        } else {
            Some(
                (
                    LeafView::Ident {
                        text: text[words[pos + 2] as int],
                        id: TokenId(words[pos + 1] as u32),
                    },
                    pos + 3,
                ),
            )
        }
    } else if words[pos] == TAG_PUNCT {
        if pos + 4 > words.len() {
            None
        } else if !is_scalar_value(words[pos + 2]) || words[pos + 3] > 1 {
            None
        } else {
            Some(
                (
                    LeafView::Punct {
                        punct: Punct {
                            char: words[pos + 2] as char,
                            spacing: if words[pos + 3] == 0 {
                                Spacing::Alone
                            } else {
                                Spacing::Joint
                            },
                            id: TokenId(words[pos + 1] as u32),
                        },
                    },
                    pos + 4,
                ),
            )
        }
    } else {
        None
    }
}

/// The tree that starts at word `pos`, with the position after it.
pub open spec fn dec_tree(words: Seq<u64>, text: Seq<Seq<char>>, pos: int) -> Option<
    (TokenTreeView, int),
>
    decreases 3 * (words.len() - pos) + 1, 0nat,
{
    if pos < 0 || pos >= words.len() {
        None
    } else if words[pos] == TAG_SUBTREE {
        match dec_subtree(words, text, pos) {
            Some((subtree, end)) => Some((TokenTreeView::Subtree(subtree), end)),
            None => None,
        }
    } else {
        match dec_leaf(words, text, pos) {
            Some((leaf, end)) => Some((TokenTreeView::Leaf(leaf), end)),
            None => None,
        }
    }
}

/// The subtree that starts at word `pos`, with the position after it.
pub open spec fn dec_subtree(words: Seq<u64>, text: Seq<Seq<char>>, pos: int) -> Option<
    (SubtreeView, int),
>
    decreases 3 * (words.len() - pos), 0nat,
{
    if pos < 0 || pos + 4 > words.len() {
        None
    } else if words[pos] != TAG_SUBTREE {
        None
    } else {
        match dec_delimiter(words[pos + 1], words[pos + 2]) {
            None => None,
            Some(delimiter) => match dec_forest(words, text, pos + 4, words[pos + 3] as nat) {
                None => None,
                Some((trees, end)) => Some((SubtreeView { delimiter, token_trees: trees }, end)),
            },
        }
    }
}

/// The `count` trees that start at word `pos`, with the position after them.
pub open spec fn dec_forest(words: Seq<u64>, text: Seq<Seq<char>>, pos: int, count: nat) -> Option<
    (Seq<TokenTreeView>, int),
>
    decreases 3 * (words.len() - pos) + 2, count,
{
    if count == 0 {
        Some((Seq::empty(), pos))
    } else {
        match dec_forest(words, text, pos, (count - 1) as nat) {
            None => None,
            Some((trees, mid)) => if mid < pos || mid >= words.len() {
                None
            } else {
                match dec_tree(words, text, mid) {
                    None => None,
                    Some((tree, end)) => Some((trees.push(tree), end)),
                }
            },
        }
    }
}

/// The subtree that a flat tree stands for: its words hold one subtree and
/// nothing after it, and every text index lies in the table.
pub open spec fn decode(flat: FlatTreeView) -> Option<SubtreeView> {
    match dec_subtree(flat.words, flat.text, 0) {
        Some((subtree, end)) => if end == flat.words.len() {
            Some(subtree)
        } else {
            None
        },
        None => None,
    }
}

/// Flattening loses nothing: the flat form of a representable subtree
/// decodes, and it decodes to that subtree.
pub proof fn lemma_decode_encode(subtree: SubtreeView)
    requires
        representable(subtree),
    ensures
        decode(encode(subtree)) == Some(subtree),
{
    let flat: FlatTreeView = encode(subtree);
    assert(flat.words.subrange(0, flat.words.len() as int) =~= flat.words);
    assert(flat.text.subrange(0, flat.text.len() as int) =~= flat.text);
    lemma_subtree_decodes(subtree, flat.words, flat.text, 0, 0);
}

/// Two representable subtrees with one flat form are one subtree.
pub proof fn lemma_encode_injective(first: SubtreeView, second: SubtreeView)
    requires
        representable(first),
        representable(second),
        encode(first) == encode(second),
    ensures
        first == second,
{
    lemma_decode_encode(first);
    lemma_decode_encode(second);
}

impl FlatTree {
    /// Flattens a subtree. The flat tree stands for that subtree and for no
    /// other.
    pub fn new(subtree: &Subtree) -> (flat: FlatTree)
        ensures
            flat@ == encode(subtree@),
            representable(subtree@),
            decode(flat@) == Some(subtree@),
    {
        let mut words: Vec<u64> = Vec::new();
        let mut text: Vec<String> = Vec::new();
        write_subtree(subtree, &mut words, &mut text);
        assert(text_view(Seq::<String>::empty()) =~= Seq::<Seq<char>>::empty());
        assert(words@ =~= subtree_words(subtree@, 0));
        assert(text_view(text@) =~= subtree_texts(subtree@));
        assert(subtree_texts(subtree@).len() == text.len());
        proof {
            lemma_decode_encode(subtree@);
        }
        FlatTree { words, text }
    }

    /// Rebuilds the subtree that the flat tree stands for, if it stands for one.
    pub fn to_subtree(self) -> (r: Option<Subtree>)
        ensures
            match r {
                Some(subtree) => decode(self@) == Some(subtree@),
                None => decode(self@) is None,
            },
    {
        match read_subtree(&self.words, &self.text, 0) {
            Some((subtree, end)) => if end == self.words.len() {
                Some(subtree)
            } else {
                None
            },
            None => None,
        }
    }
}

} // verus!
