use proc_macro_api::flat::FlatTree;
use proc_macro_api::tree::{
    Delimiter, DelimiterKind, Ident, Leaf, Literal, Punct, Spacing, Subtree, TokenId, TokenTree,
};

fn ident(text: &str, id: u32) -> TokenTree {
    TokenTree::Leaf(Leaf::Ident(Ident { text: text.to_string(), id: TokenId(id) }))
}

fn literal(text: &str, id: u32) -> TokenTree {
    TokenTree::Leaf(Leaf::Literal(Literal { text: text.to_string(), id: TokenId(id) }))
}

fn punct(char: char, spacing: Spacing, id: u32) -> TokenTree {
    TokenTree::Leaf(Leaf::Punct(Punct { char, spacing, id: TokenId(id) }))
}

fn group(kind: DelimiterKind, id: u32, token_trees: Vec<TokenTree>) -> Subtree {
    Subtree { delimiter: Some(Delimiter { id: TokenId(id), kind }), token_trees }
}

fn flat(words: Vec<u64>, text: Vec<&str>) -> FlatTree {
    FlatTree { words, text: text.into_iter().map(|t| t.to_string()).collect() }
}

/// `struct Foo { a: u8 = 1 + b'x' }`, more or less.
fn sample() -> Subtree {
    Subtree {
        delimiter: None,
        token_trees: vec![
            ident("struct", 0),
            ident("Foo", 1),
            TokenTree::Subtree(group(
                DelimiterKind::Brace,
                2,
                vec![
                    ident("a", 3),
                    punct(':', Spacing::Alone, 4),
                    TokenTree::Subtree(group(
                        DelimiterKind::Parenthesis,
                        5,
                        vec![literal("1", 6), punct('+', Spacing::Joint, 7), literal("b'x'", 8)],
                    )),
                    TokenTree::Subtree(group(DelimiterKind::Bracket, u32::MAX, vec![])),
                ],
            )),
        ],
    }
}

#[test]
fn empty_subtree_round_trips() {
    let tree = Subtree { delimiter: None, token_trees: vec![] };
    let flat = FlatTree::new(&tree);
    assert_eq!(flat.words, vec![0, 0, 0, 0]);
    assert!(flat.text.is_empty());
    assert_eq!(flat.to_subtree(), Some(tree));
}

#[test]
fn nested_tree_round_trips() {
    let tree = sample();
    assert_eq!(FlatTree::new(&tree).to_subtree(), Some(sample()));
}

#[test]
fn flat_form_is_pre_order() {
    let tree = group(
        DelimiterKind::Parenthesis,
        9,
        vec![
            ident("x", 1),
            punct('=', Spacing::Joint, 2),
            TokenTree::Subtree(group(DelimiterKind::Bracket, 3, vec![literal("42", 4)])),
            ident("y", 5),
        ],
    );
    let flat = FlatTree::new(&tree);
    assert_eq!(
        flat.words,
        vec![
            0, 1, 9, 4, // ( with four children
            3, 1, 0, // x
            2, 2, 61, 1, // = joint
            0, 3, 3, 1, // [ with one child
            1, 4, 1, // 42
            3, 5, 2, // y
        ]
    );
    assert_eq!(flat.text, vec!["x".to_string(), "42".to_string(), "y".to_string()]);
}

#[test]
fn delimiter_kinds_have_their_codes() {
    for (kind, code) in
        [(DelimiterKind::Parenthesis, 1), (DelimiterKind::Brace, 2), (DelimiterKind::Bracket, 3)]
    {
        let tree = group(kind, 7, vec![]);
        assert_eq!(FlatTree::new(&tree).words, vec![0, code, 7, 0]);
        assert_eq!(flat(vec![0, code, 7, 0], vec![]).to_subtree(), Some(tree));
    }
}

#[test]
fn equal_texts_are_stored_each() {
    let tree = Subtree { delimiter: None, token_trees: vec![ident("a", 0), ident("a", 1)] };
    let flat = FlatTree::new(&tree);
    assert_eq!(flat.words, vec![0, 0, 0, 2, 3, 0, 0, 3, 1, 1]);
    assert_eq!(flat.text, vec!["a".to_string(), "a".to_string()]);
}

#[test]
fn texts_may_be_shared_when_decoding() {
    let got = flat(vec![0, 0, 0, 2, 3, 0, 0, 1, 1, 0], vec!["a"]).to_subtree();
    let want = Subtree { delimiter: None, token_trees: vec![ident("a", 0), literal("a", 1)] };
    assert_eq!(got, Some(want));
}

#[test]
fn punct_character_is_decoded_from_its_code() {
    let got = flat(vec![0, 0, 0, 1, 2, 5, 0x41, 0], vec![]).to_subtree();
    let want = Subtree { delimiter: None, token_trees: vec![punct('A', Spacing::Alone, 5)] };
    assert_eq!(got, Some(want));
    let got = flat(vec![0, 0, 0, 1, 2, 5, 0x10FFFF, 1], vec![]).to_subtree();
    let want =
        Subtree { delimiter: None, token_trees: vec![punct('\u{10FFFF}', Spacing::Joint, 5)] };
    assert_eq!(got, Some(want));
}

#[test]
fn non_ascii_text_and_punct_round_trip() {
    let tree = Subtree {
        delimiter: None,
        token_trees: vec![literal("\"héllo ✓\"", 0), punct('λ', Spacing::Alone, 1), ident("", 2)],
    };
    let flat = FlatTree::new(&tree);
    assert_eq!(flat.words[7..11], [2, 1, 0x3BB, 0]);
    assert_eq!(flat.to_subtree(), Some(tree));
}

#[test]
fn surrogate_is_no_character() {
    assert_eq!(flat(vec![0, 0, 0, 1, 2, 5, 0xD800, 0], vec![]).to_subtree(), None);
    assert_eq!(flat(vec![0, 0, 0, 1, 2, 5, 0xDFFF, 0], vec![]).to_subtree(), None);
    assert_eq!(flat(vec![0, 0, 0, 1, 2, 5, 0x110000, 0], vec![]).to_subtree(), None);
    assert_eq!(flat(vec![0, 0, 0, 1, 2, 5, 1 << 32, 0], vec![]).to_subtree(), None);
    assert!(flat(vec![0, 0, 0, 1, 2, 5, 0xD7FF, 0], vec![]).to_subtree().is_some());
    assert!(flat(vec![0, 0, 0, 1, 2, 5, 0xE000, 0], vec![]).to_subtree().is_some());
}

#[test]
fn empty_words_do_not_decode() {
    assert_eq!(flat(vec![], vec![]).to_subtree(), None);
}

#[test]
fn truncated_words_do_not_decode() {
    let whole = FlatTree::new(&sample());
    assert!(whole.clone().to_subtree().is_some());
    for len in 0..whole.words.len() {
        let cut = FlatTree { words: whole.words[..len].to_vec(), text: whole.text.clone() };
        assert_eq!(cut.to_subtree(), None, "cut at {}", len);
    }
}

#[test]
fn words_after_the_tree_do_not_decode() {
    let mut flat = FlatTree::new(&sample());
    flat.words.push(0);
    assert_eq!(flat.to_subtree(), None);
}

#[test]
fn top_level_must_be_a_subtree() {
    assert_eq!(flat(vec![3, 0, 0], vec!["a"]).to_subtree(), None);
    assert_eq!(flat(vec![1, 0, 0, 0], vec!["a"]).to_subtree(), None);
}

#[test]
fn unknown_tag_does_not_decode() {
    assert_eq!(flat(vec![0, 0, 0, 1, 4, 0, 0], vec!["a"]).to_subtree(), None);
    assert_eq!(flat(vec![0, 0, 0, 1, u64::MAX, 0, 0], vec!["a"]).to_subtree(), None);
}

#[test]
fn unknown_delimiter_does_not_decode() {
    assert_eq!(flat(vec![0, 4, 0, 0], vec![]).to_subtree(), None);
}

#[test]
fn missing_delimiter_has_no_identity() {
    assert_eq!(flat(vec![0, 0, 1, 0], vec![]).to_subtree(), None);
}

#[test]
fn identity_must_fit_in_32_bits() {
    assert_eq!(flat(vec![0, 1, 1 << 32, 0], vec![]).to_subtree(), None);
    assert_eq!(flat(vec![0, 0, 0, 1, 3, 1 << 32, 0], vec!["a"]).to_subtree(), None);
    assert_eq!(flat(vec![0, 0, 0, 1, 2, 1 << 32, 0x41, 0], vec![]).to_subtree(), None);
    let got = flat(vec![0, 0, 0, 1, 3, (1 << 32) - 1, 0], vec!["a"]).to_subtree();
    let want = Subtree { delimiter: None, token_trees: vec![ident("a", u32::MAX)] };
    assert_eq!(got, Some(want));
}

#[test]
fn text_index_must_lie_in_the_table() {
    assert_eq!(flat(vec![0, 0, 0, 1, 3, 0, 1], vec!["a"]).to_subtree(), None);
    assert_eq!(flat(vec![0, 0, 0, 1, 1, 0, 0], vec![]).to_subtree(), None);
    assert_eq!(flat(vec![0, 0, 0, 1, 1, 0, u64::MAX], vec!["a"]).to_subtree(), None);
}

#[test]
fn spacing_must_be_alone_or_joint() {
    assert_eq!(flat(vec![0, 0, 0, 1, 2, 0, 0x41, 2], vec![]).to_subtree(), None);
}

#[test]
fn child_count_must_match_the_words() {
    assert_eq!(flat(vec![0, 0, 0, 2, 3, 0, 0], vec!["a"]).to_subtree(), None);
    assert_eq!(flat(vec![0, 0, 0, u64::MAX, 3, 0, 0], vec!["a"]).to_subtree(), None);
    assert_eq!(flat(vec![0, 0, 0, 0, 3, 0, 0], vec!["a"]).to_subtree(), None);
}

#[test]
fn deep_nesting_round_trips() {
    let mut tree = Subtree { delimiter: None, token_trees: vec![ident("core", 0)] };
    for depth in 1..200u32 {
        tree = group(DelimiterKind::Brace, depth, vec![TokenTree::Subtree(tree), ident("k", depth)]);
    }
    let flat = FlatTree::new(&tree);
    assert_eq!(flat.text.len(), 200);
    assert_eq!(flat.to_subtree(), Some(tree));
}
