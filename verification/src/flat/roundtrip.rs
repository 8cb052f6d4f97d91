//! Why the words and texts of a tree read back as that tree.

use vstd::prelude::*;
use crate::flat::{
    dec_delimiter, dec_forest, dec_leaf, dec_subtree, dec_tree, forest_texts, forest_words,
    is_scalar_value, leaf_texts, leaf_words, subtree_fits, subtree_header, subtree_texts,
    subtree_words, tree_fits, tree_texts, tree_words,
};
use crate::tree::{LeafView, SubtreeView, TokenTreeView};

verus! {

/// Whether `part` stands in `whole` from position `pos` on.
pub(super) open spec fn holds_at<T>(whole: Seq<T>, pos: int, part: Seq<T>) -> bool {
    &&& 0 <= pos
    &&& pos + part.len() <= whole.len()
    &&& whole.subrange(pos, pos + part.len()) == part
}

proof fn lemma_holds_at_split<T>(whole: Seq<T>, pos: int, first: Seq<T>, second: Seq<T>)
    requires
        holds_at(whole, pos, first + second),
    ensures
        holds_at(whole, pos, first),
        holds_at(whole, pos + first.len(), second),
{
    let both: Seq<T> = first + second;
    assert forall|i: int| 0 <= i < first.len() implies whole.subrange(
        pos,
        pos + first.len(),
    )[i] == first[i] by {
        assert(whole.subrange(pos, pos + both.len())[i] == both[i]);
    }
    assert(whole.subrange(pos, pos + first.len()) =~= first);
    assert forall|i: int| 0 <= i < second.len() implies whole.subrange(
        pos + first.len(),
        pos + first.len() + second.len(),
    )[i] == second[i] by {
        assert(whole.subrange(pos, pos + both.len())[first.len() + i] == both[first.len() + i]);
    }
    assert(whole.subrange(pos + first.len(), pos + first.len() + second.len()) =~= second);
}

proof fn lemma_holds_at_word<T>(whole: Seq<T>, pos: int, part: Seq<T>, i: int)
    requires
        holds_at(whole, pos, part),
        0 <= i < part.len(),
    ensures
        whole[pos + i] == part[i],
{
    assert(whole.subrange(pos, pos + part.len())[i] == part[i]);
}

proof fn lemma_tree_words_len(tree: TokenTreeView, base: nat)
    ensures
        tree_words(tree, base).len() >= 3,
{
    match tree {
        TokenTreeView::Leaf(leaf) => {},
        TokenTreeView::Subtree(subtree) => {},
    }
}

proof fn lemma_leaf_decodes(
    leaf: LeafView,
    words: Seq<u64>,
    text: Seq<Seq<char>>,
    pos: int,
    base: nat,
)
    requires
        holds_at(words, pos, leaf_words(leaf, base)),
        holds_at(text, base as int, leaf_texts(leaf)),
        base + leaf_texts(leaf).len() <= u64::MAX,
    ensures
        dec_leaf(words, text, pos) == Some((leaf, pos + leaf_words(leaf, base).len())),
{
    let part: Seq<u64> = leaf_words(leaf, base);
    lemma_holds_at_word(words, pos, part, 0);
    lemma_holds_at_word(words, pos, part, 1);
    lemma_holds_at_word(words, pos, part, 2);
    match leaf {
        LeafView::Literal { text: value, id } => {
            lemma_holds_at_word(text, base as int, leaf_texts(leaf), 0);
        },
        LeafView::Punct { punct } => {
            lemma_holds_at_word(words, pos, part, 3);
            let code: u64 = punct.char as u64;
            assert(is_scalar_value(code));
            assert(code as char == punct.char);
        },
        LeafView::Ident { text: value, id } => {
            lemma_holds_at_word(text, base as int, leaf_texts(leaf), 0);
        },
    }
}

proof fn lemma_tree_decodes(
    tree: TokenTreeView,
    words: Seq<u64>,
    text: Seq<Seq<char>>,
    pos: int,
    base: nat,
)
    requires
        tree_fits(tree),
        holds_at(words, pos, tree_words(tree, base)),
        holds_at(text, base as int, tree_texts(tree)),
        base + tree_texts(tree).len() <= u64::MAX,
    ensures
        dec_tree(words, text, pos) == Some((tree, pos + tree_words(tree, base).len())),
    decreases tree,
{
    lemma_tree_words_len(tree, base);
    lemma_holds_at_word(words, pos, tree_words(tree, base), 0);
    match tree {
        TokenTreeView::Leaf(leaf) => {
            lemma_leaf_decodes(leaf, words, text, pos, base);
        },
        TokenTreeView::Subtree(subtree) => {
            lemma_subtree_decodes(subtree, words, text, pos, base);
        },
    }
}

pub(super) proof fn lemma_subtree_decodes(
    subtree: SubtreeView,
    words: Seq<u64>,
    text: Seq<Seq<char>>,
    pos: int,
    base: nat,
)
    requires
        subtree_fits(subtree),
        holds_at(words, pos, subtree_words(subtree, base)),
        holds_at(text, base as int, subtree_texts(subtree)),
        base + subtree_texts(subtree).len() <= u64::MAX,
    ensures
        dec_subtree(words, text, pos) == Some(
            (subtree, pos + subtree_words(subtree, base).len()),
        ),
    decreases subtree,
{
    let header: Seq<u64> = subtree_header(subtree);
    let trees: Seq<TokenTreeView> = subtree.token_trees;
    lemma_holds_at_split(words, pos, header, forest_words(trees, base));
    lemma_holds_at_word(words, pos, header, 0);
    lemma_holds_at_word(words, pos, header, 1);
    lemma_holds_at_word(words, pos, header, 2);
    lemma_holds_at_word(words, pos, header, 3);
    assert(dec_delimiter(words[pos + 1], words[pos + 2]) == Some(subtree.delimiter));
    assert(words[pos + 3] as nat == trees.len());
    lemma_forest_decodes(trees, words, text, pos + 4, base);
}

proof fn lemma_forest_decodes(
    trees: Seq<TokenTreeView>,
    words: Seq<u64>,
    text: Seq<Seq<char>>,
    pos: int,
    base: nat,
)
    requires
        forall|i: int| 0 <= i < trees.len() ==> tree_fits(#[trigger] trees[i]),
        holds_at(words, pos, forest_words(trees, base)),
        holds_at(text, base as int, forest_texts(trees)),
        base + forest_texts(trees).len() <= u64::MAX,
    ensures
        dec_forest(words, text, pos, trees.len()) == Some(
            (trees, pos + forest_words(trees, base).len()),
        ),
    decreases trees,
{
    if trees.len() == 0 {
        assert(trees =~= Seq::<TokenTreeView>::empty());
    } else {
        let init: Seq<TokenTreeView> = trees.drop_last();
        let last: TokenTreeView = trees.last();
        let mid: int = pos + forest_words(init, base).len();
        let shift: nat = base + forest_texts(init).len();
        lemma_holds_at_split(words, pos, forest_words(init, base), tree_words(last, shift));
        lemma_holds_at_split(text, base as int, forest_texts(init), tree_texts(last));
        lemma_forest_decodes(init, words, text, pos, base);
        lemma_tree_words_len(last, shift);
        lemma_tree_decodes(last, words, text, mid, shift);
        assert(init.push(last) =~= trees);
    }
}

} // verus!
