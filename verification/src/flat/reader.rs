//! Reading a tree from words and texts.

use vstd::prelude::*;
use crate::flat::{
    dec_delimiter, dec_forest, dec_leaf, dec_subtree, dec_tree, is_scalar_value, text_view,
    TAG_IDENT, TAG_LITERAL, TAG_PUNCT, TAG_SUBTREE,
};
use crate::tree::{
    Delimiter, DelimiterKind, Ident, Leaf, Literal, Punct, Spacing, Subtree, TokenId, TokenTree,
    TokenTreeView,
};

verus! {

/// The views of a sequence of trees.
spec fn trees_view(trees: Seq<TokenTree>) -> Seq<TokenTreeView> {
    Seq::new(trees.len(), |i: int| trees[i]@)
}

proof fn lemma_subtree_view(subtree: Subtree)
    ensures
        subtree@.delimiter == subtree.delimiter,
        subtree@.token_trees == trees_view(subtree.token_trees@),
{
    assert(subtree@.token_trees =~= trees_view(subtree.token_trees@));
}

proof fn lemma_trees_view_push(trees: Seq<TokenTree>, tree: TokenTree)
    ensures
        trees_view(trees.push(tree)) == trees_view(trees).push(tree@),
{
    assert(trees_view(trees.push(tree)) =~= trees_view(trees).push(tree@));
}

/// Once a prefix of a forest fails to decode, so does every longer one.
proof fn lemma_forest_fails_on(
    words: Seq<u64>,
    text: Seq<Seq<char>>,
    pos: int,
    short: nat,
    long: nat,
)
    requires
        short <= long,
        dec_forest(words, text, pos, short) is None,
    ensures
        dec_forest(words, text, pos, long) is None,
    decreases long,
{
    if short < long {
        lemma_forest_fails_on(words, text, pos, short, (long - 1) as nat);
    }
}

/// `char::from_u32` of std: the character with the given code, which exists
/// exactly for the Unicode scalar values.
#[verifier::external_body]
fn scalar_value(code: u32) -> (r: Option<char>)
    ensures
        match r {
            Some(c) => is_scalar_value(code as u64) && c == code as char,
            None => !is_scalar_value(code as u64),
        },
{
    char::from_u32(code)
}

fn read_delimiter(kind: u64, id: u64) -> (r: Option<Option<Delimiter>>)
    ensures
        r == dec_delimiter(kind, id),
{
    if id > u32::MAX as u64 {
        return None;
    }
    let id: TokenId = TokenId(id as u32);
    if kind == 0 {
        if id.0 == 0 {
            Some(None)
        } else {
            None
        }
    } else if kind == 1 {
        Some(Some(Delimiter { id, kind: DelimiterKind::Parenthesis }))
    } else if kind == 2 {
        Some(Some(Delimiter { id, kind: DelimiterKind::Brace }))
    } else if kind == 3 {
        Some(Some(Delimiter { id, kind: DelimiterKind::Bracket }))
    } else {
        None
    }
}

fn read_leaf(words: &Vec<u64>, text: &Vec<String>, pos: usize) -> (r: Option<(Leaf, usize)>)
    ensures
        match r {
            Some((leaf, end)) => dec_leaf(words@, text_view(text@), pos as int) == Some(
                (leaf@, end as int),
            ) && pos < end <= words.len(),
            None => dec_leaf(words@, text_view(text@), pos as int) is None,
        },
{
    let len: usize = words.len();
    if pos > len || len - pos < 3 {
        return None;
    }
    let tag: u64 = words[pos];
    let id_word: u64 = words[pos + 1];
    if id_word > u32::MAX as u64 {
        return None;
    }
    let id: TokenId = TokenId(id_word as u32);
    if tag == TAG_LITERAL || tag == TAG_IDENT {
        let index: u64 = words[pos + 2];
        if index >= text.len() as u64 {
            return None;
        }
        let value: String = text[index as usize].clone();
        assert(value@ == text_view(text@)[index as int]);
        if tag == TAG_LITERAL {
            Some((Leaf::Literal(Literal { text: value, id }), pos + 3))
        } else {
            Some((Leaf::Ident(Ident { text: value, id }), pos + 3))
        }
    } else if tag == TAG_PUNCT {
        if len - pos < 4 {
            return None;
        }
        let code: u64 = words[pos + 2];
        let spacing_word: u64 = words[pos + 3];
        if code > 0x10FFFF || spacing_word > 1 {
            return None;
        }
        match scalar_value(code as u32) {
            None => None,
            Some(c) => {
                let spacing: Spacing = if spacing_word == 0 {
                    Spacing::Alone
                } else {
                    Spacing::Joint
                };
                Some((Leaf::Punct(Punct { char: c, spacing, id }), pos + 4))
            },
        }
    } else {
        None
    }
}

fn read_tree(words: &Vec<u64>, text: &Vec<String>, pos: usize) -> (r: Option<(TokenTree, usize)>)
    ensures
        match r {
            Some((tree, end)) => dec_tree(words@, text_view(text@), pos as int) == Some(
                (tree@, end as int),
            ) && pos < end <= words.len(),
            None => dec_tree(words@, text_view(text@), pos as int) is None,
        },
    decreases words.len() - pos, 1nat,
{
    if pos >= words.len() {
        return None;
    }
    if words[pos] == TAG_SUBTREE {
        match read_subtree(words, text, pos) {
            Some((subtree, end)) => Some((TokenTree::Subtree(subtree), end)),
            None => None,
        }
    } else {
        match read_leaf(words, text, pos) {
            Some((leaf, end)) => Some((TokenTree::Leaf(leaf), end)),
            None => None,
        }
    }
}

pub(super) fn read_subtree(words: &Vec<u64>, text: &Vec<String>, pos: usize) -> (r: Option<(Subtree, usize)>)
    ensures
        match r {
            Some((subtree, end)) => dec_subtree(words@, text_view(text@), pos as int) == Some(
                (subtree@, end as int),
            ) && pos < end <= words.len(),
            None => dec_subtree(words@, text_view(text@), pos as int) is None,
        },
    decreases words.len() - pos, 0nat,
{
    let len: usize = words.len();
    if pos > len || len - pos < 4 {
        return None;
    }
    if words[pos] != TAG_SUBTREE {
        return None;
    }
    let delimiter: Option<Delimiter> = match read_delimiter(words[pos + 1], words[pos + 2]) {
        None => {
            return None;
        },
        Some(d) => d,
    };
    let count: u64 = words[pos + 3];
    let mut trees: Vec<TokenTree> = Vec::new();
    let mut cur: usize = pos + 4;
    let mut done: u64 = 0;
    assert(trees_view(trees@) =~= Seq::<TokenTreeView>::empty());
    while done < count
        invariant
            done <= count,
            len == words.len(),
            pos + 4 <= cur <= len,
            words[pos as int] == TAG_SUBTREE,
            dec_delimiter(words[pos + 1], words[pos + 2]) == Some(delimiter),
            count == words[pos + 3],
            dec_forest(words@, text_view(text@), pos + 4, done as nat) == Some(
                (trees_view(trees@), cur as int),
            ),
        decreases count - done,
    {
        let next: Option<(TokenTree, usize)> = if cur >= len {
            None
        } else {
            read_tree(words, text, cur)
        };
        match next {
            None => {
                proof {
                    assert(dec_forest(words@, text_view(text@), pos + 4, (done + 1) as nat)
                        is None);
                    lemma_forest_fails_on(
                        words@,
                        text_view(text@),
                        pos + 4,
                        (done + 1) as nat,
                        count as nat,
                    );
                }
                return None;
            },
            Some((tree, end)) => {
                proof {
                    lemma_trees_view_push(trees@, tree);
                }
                trees.push(tree);
                cur = end;
                done += 1;
            },
        }
    }
    let subtree: Subtree = Subtree { delimiter, token_trees: trees };
    proof {
        lemma_subtree_view(subtree);
    }
    Some((subtree, cur))
}

} // verus!
