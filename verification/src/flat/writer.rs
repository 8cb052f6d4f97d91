//! Writing a tree as words and texts.

use vstd::prelude::*;
use crate::flat::{
    forest_texts, forest_words, kind_code, leaf_texts, leaf_words, spacing_code, subtree_fits,
    subtree_header, subtree_texts, subtree_words, text_view, tree_fits, tree_texts, tree_words,
    TAG_IDENT, TAG_LITERAL, TAG_PUNCT, TAG_SUBTREE,
};
use crate::tree::{DelimiterKind, Leaf, Spacing, Subtree, TokenTree, TokenTreeView};

verus! {

proof fn lemma_text_view_push(text: Seq<String>, s: String)
    ensures
        text_view(text.push(s)) == text_view(text).push(s@),
{
    assert(text_view(text.push(s)) =~= text_view(text).push(s@));
}

proof fn lemma_forest_take_next(trees: Seq<TokenTreeView>, i: int, base: nat)
    requires
        0 <= i < trees.len(),
    ensures
        forest_words(trees.take(i + 1), base) == forest_words(trees.take(i), base) + tree_words(
            trees[i],
            base + forest_texts(trees.take(i)).len(),
        ),
        forest_texts(trees.take(i + 1)) == forest_texts(trees.take(i)) + tree_texts(trees[i]),
{
    assert(trees.take(i + 1).drop_last() =~= trees.take(i));
    assert(trees.take(i + 1).last() == trees[i]);
}

fn kind_word(kind: DelimiterKind) -> (word: u64)
    ensures
        word == kind_code(kind),
{
    match kind {
        DelimiterKind::Parenthesis => 1,
        DelimiterKind::Brace => 2,
        DelimiterKind::Bracket => 3,
    }
}

fn spacing_word(spacing: Spacing) -> (word: u64)
    ensures
        word == spacing_code(spacing),
{
    match spacing {
        Spacing::Alone => 0,
        Spacing::Joint => 1,
    }
}

fn write_leaf(leaf: &Leaf, words: &mut Vec<u64>, text: &mut Vec<String>)
    ensures
        final(words)@ == old(words)@ + leaf_words(leaf@, old(text)@.len()),
        text_view(final(text)@) == text_view(old(text)@) + leaf_texts(leaf@),
{
    match leaf {
        Leaf::Literal(literal) => {
            let index: usize = text.len();
            words.push(TAG_LITERAL);
            words.push(literal.id.0 as u64);
            words.push(index as u64);
            proof {
                lemma_text_view_push(text@, literal.text);
            }
            text.push(literal.text.clone());
        },
        Leaf::Punct(punct) => {
            words.push(TAG_PUNCT);
            words.push(punct.id.0 as u64);
            words.push(punct.char as u64);
            words.push(spacing_word(punct.spacing));
        },
        Leaf::Ident(ident) => {
            let index: usize = text.len();
            words.push(TAG_IDENT);
            words.push(ident.id.0 as u64);
            words.push(index as u64);
            proof {
                lemma_text_view_push(text@, ident.text);
            }
            text.push(ident.text.clone());
        },
    }
    assert(final(words)@ =~= old(words)@ + leaf_words(leaf@, old(text)@.len()));
    assert(text_view(final(text)@) =~= text_view(old(text)@) + leaf_texts(leaf@));
}

fn write_tree(tree: &TokenTree, words: &mut Vec<u64>, text: &mut Vec<String>)
    ensures
        final(words)@ == old(words)@ + tree_words(tree@, old(text)@.len()),
        text_view(final(text)@) == text_view(old(text)@) + tree_texts(tree@),
        tree_fits(tree@),
    decreases tree,
{
    match tree {
        TokenTree::Leaf(leaf) => write_leaf(leaf, words, text),
        TokenTree::Subtree(subtree) => write_subtree(subtree, words, text),
    }
}

pub(super) fn write_subtree(subtree: &Subtree, words: &mut Vec<u64>, text: &mut Vec<String>)
    ensures
        final(words)@ == old(words)@ + subtree_words(subtree@, old(text)@.len()),
        text_view(final(text)@) == text_view(old(text)@) + subtree_texts(subtree@),
        subtree_fits(subtree@),
    decreases subtree,
{
    let count: usize = subtree.token_trees.len();
    words.push(TAG_SUBTREE);
    match subtree.delimiter {
        None => {
            words.push(0);
            words.push(0);
        },
        Some(delimiter) => {
            words.push(kind_word(delimiter.kind));
            words.push(delimiter.id.0 as u64);
        },
    }
    words.push(count as u64);
    assert(words@ =~= old(words)@ + subtree_header(subtree@));
    let ghost base: nat = old(text)@.len();
    let ghost trees: Seq<TokenTreeView> = subtree@.token_trees;
    let mut i: usize = 0;
    while i < count
        invariant
            i <= count,
            count == subtree.token_trees.len(),
            trees == subtree@.token_trees,
            base == old(text)@.len(),
            words@ == old(words)@ + subtree_header(subtree@) + forest_words(
                trees.take(i as int),
                base,
            ),
            text_view(text@) == text_view(old(text)@) + forest_texts(trees.take(i as int)),
            forall|j: int| 0 <= j < i ==> tree_fits(#[trigger] trees[j]),
        decreases count - i,
    {
        proof {
            lemma_forest_take_next(trees, i as int, base);
        }
        write_tree(&subtree.token_trees[i], words, text);
        i += 1;
    }
    assert(trees.take(count as int) =~= trees);
}

} // verus!
