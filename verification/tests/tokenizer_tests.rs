use hope_model::tokenizer::CharTokenizer;

#[test]
fn test_char_tokenizer_encode_decode() {
    let text = "Hello, World!";
    let tokenizer = CharTokenizer::from_text(text);

    let encoded = tokenizer.encode(text);
    let decoded = tokenizer.decode(&encoded);

    assert_eq!(text, decoded);
}

#[test]
fn test_char_tokenizer_unknown() {
    let tokenizer = CharTokenizer::from_text("abc");
    let encoded = tokenizer.encode("xyz");

    // All characters should be unknown
    assert!(encoded.iter().all(|&id| id == tokenizer.unk_id()));
}

#[test]
fn test_char_tokenizer_ids_sorted() {
    // from_text assigns ids in code-point order after the two reserved ids
    let tokenizer = CharTokenizer::from_text("cba");
    assert_eq!(tokenizer.encode("abc"), vec![2, 3, 4]);
    assert_eq!(tokenizer.vocab_size(), 5);
    assert_eq!(tokenizer.pad_id(), 0);
    assert_eq!(tokenizer.unk_id(), 1);
}

#[test]
fn test_char_tokenizer_from_vocab_keeps_order() {
    // from_vocab keeps first occurrences in their given order
    let tokenizer = CharTokenizer::from_vocab(vec!['b', 'a', 'b', 'c']);
    assert_eq!(tokenizer.encode("bac"), vec![2, 3, 4]);
    assert_eq!(tokenizer.vocab_size(), 5);
}

#[test]
fn test_char_tokenizer_reserved_ids() {
    // the padding and replacement characters keep their reserved ids and
    // never enter the vocabulary
    let tokenizer = CharTokenizer::from_text("a\0b\u{FFFD}");
    assert_eq!(tokenizer.encode("\0\u{FFFD}"), vec![0, 1]);
    assert_eq!(tokenizer.vocab_size(), 4);
    let decoded = tokenizer.decode(&[0, 1]);
    assert_eq!(decoded, "\0\u{FFFD}");
}

#[test]
fn test_char_tokenizer_decode_skips_out_of_range() {
    let tokenizer = CharTokenizer::from_text("ab");
    // ids beyond the vocabulary are skipped, not replaced
    let decoded = tokenizer.decode(&[2, 99, 3]);
    assert_eq!(decoded, "ab");
}

#[test]
fn test_char_tokenizer_empty_text() {
    let tokenizer = CharTokenizer::from_text("");
    assert_eq!(tokenizer.vocab_size(), 2);
    assert_eq!(tokenizer.encode(""), Vec::<i64>::new());
    assert_eq!(tokenizer.decode(&[]), "");
}

#[test]
fn test_char_tokenizer_vocab_round_trip() {
    // rebuilding a tokenizer from its own saved vocabulary keeps every id
    let original = CharTokenizer::from_text("the quick brown fox");
    let rebuilt = CharTokenizer::from_vocab(original.vocab());
    let text = "the quick brown fox jumps";
    assert_eq!(original.encode(text), rebuilt.encode(text));
    assert_eq!(original.vocab_size(), rebuilt.vocab_size());
    assert_eq!(original.vocab(), rebuilt.vocab());
}
