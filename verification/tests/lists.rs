use bitcoin_keygen::lists::{append_numbered_lines, render_import_list, render_simple_list};
use bitcoin_keygen::{create_import_word_list, create_simple_word_list, mnemonic_from_entropy};

fn owned(words: &[&str]) -> Vec<String> {
    words.iter().map(|w| w.to_string()).collect()
}

#[test]
fn simple_list_is_exact() {
    let words = owned(&["able", "zoo", "acoustic"]);
    assert_eq!(render_simple_list(&words), " 1. able\n 2. zoo\n 3. acoustic\n");
}

#[test]
fn simple_list_of_no_words_is_empty() {
    assert_eq!(render_simple_list(&Vec::new()), "");
}

#[test]
fn simple_list_numbers_grow_past_their_column() {
    let words: Vec<String> = (0..101).map(|_| "w".to_string()).collect();
    let list = render_simple_list(&words);
    let lines: Vec<&str> = list.lines().collect();
    assert_eq!(lines.len(), 101);
    assert_eq!(lines[0], " 1. w");
    assert_eq!(lines[8], " 9. w");
    assert_eq!(lines[9], "10. w");
    assert_eq!(lines[98], "99. w");
    assert_eq!(lines[99], "100. w");
    assert_eq!(lines[100], "101. w");
}

#[test]
fn numbered_lines_are_written_behind_what_is_there() {
    let mut out = String::from("words:\n");
    append_numbered_lines(&mut out, &owned(&["able", "zoo"]));
    assert_eq!(out, "words:\n 1. able\n 2. zoo\n");
}

#[test]
fn import_list_is_exact() {
    assert_eq!(render_import_list(&owned(&["able", "zoo", "acoustic"])), "able\nzoo\nacoustic");
    assert_eq!(render_import_list(&owned(&["able"])), "able");
    assert_eq!(render_import_list(&Vec::new()), "");
}

#[test]
fn simple_list_of_a_mnemonic_has_one_numbered_line_per_word() {
    let entropy: Vec<u8> = (0u8..32).collect();
    let mnemonic = mnemonic_from_entropy(&entropy).unwrap();
    let words: Vec<&str> = mnemonic.words().collect();
    let list = create_simple_word_list(&mnemonic);
    assert!(list.ends_with('\n'));
    let lines: Vec<&str> = list.lines().collect();
    assert_eq!(lines.len(), 24);
    for (i, line) in lines.iter().enumerate() {
        assert_eq!(*line, format!("{:2}. {}", i + 1, words[i]));
    }
    assert_eq!(lines[0], format!(" 1. {}", words[0]));
    assert_eq!(lines[23], format!("24. {}", words[23]));
}

#[test]
fn import_list_of_a_mnemonic_splits_into_its_words() {
    let entropy: Vec<u8> = (0u8..32).map(|b| b.wrapping_mul(37)).collect();
    let mnemonic = mnemonic_from_entropy(&entropy).unwrap();
    let words: Vec<&str> = mnemonic.words().collect();
    let list = create_import_word_list(&mnemonic);
    let entries: Vec<&str> = list.split('\n').collect();
    assert_eq!(entries.len(), 24);
    assert!(entries.iter().all(|e| !e.is_empty()));
    assert_eq!(entries, words);
    assert_eq!(list, words.join("\n"));
    assert_eq!(list.lines().count(), 24);
}

#[test]
fn import_list_of_zero_entropy() {
    let mnemonic = mnemonic_from_entropy(&[0u8; 32]).unwrap();
    let mut expected = "abandon\n".repeat(23);
    expected.push_str("art");
    assert_eq!(create_import_word_list(&mnemonic), expected);
}
