use shell_dispatch::text::{has_char, join_words, same_text, split_on};

fn owned(words: &[&str]) -> Vec<String> {
    words.iter().map(|word| word.to_string()).collect()
}

#[test]
fn same_text_compares_characters() {
    assert!(same_text("", ""));
    assert!(same_text("exit", "exit"));
    assert!(!same_text("exit", "exi"));
    assert!(!same_text("exi", "exit"));
    assert!(!same_text("exit", "exiT"));
    assert!(!same_text("", "a"));
    assert!(same_text("héllo wörld", "héllo wörld"));
    assert!(!same_text("héllo", "hello"));
}

#[test]
fn has_char_finds_any_occurrence() {
    assert!(has_char("/bin/ls", '/'));
    assert!(has_char("ls/", '/'));
    assert!(has_char("/", '/'));
    assert!(!has_char("ls", '/'));
    assert!(!has_char("", '/'));
}

#[test]
fn split_on_cuts_at_every_separator() {
    assert_eq!(split_on("/a:/b", ':'), owned(&["/a", "/b"]));
    assert_eq!(split_on("/usr/bin:/bin:/usr/local/bin", ':'), owned(&["/usr/bin", "/bin", "/usr/local/bin"]));
    assert_eq!(split_on("/only", ':'), owned(&["/only"]));
}

#[test]
fn split_on_keeps_empty_pieces() {
    assert_eq!(split_on("", ':'), owned(&[""]));
    assert_eq!(split_on(":", ':'), owned(&["", ""]));
    assert_eq!(split_on("a::b", ':'), owned(&["a", "", "b"]));
    assert_eq!(split_on(":a:", ':'), owned(&["", "a", ""]));
}

#[test]
fn split_on_counts_characters_not_bytes() {
    assert_eq!(split_on("é:ü:", ':'), owned(&["é", "ü", ""]));
}

#[test]
fn split_on_agrees_with_std() {
    for text in ["", ":", "a", "a:b", "a::b:", "::", "/usr/bin:/bin", "é:ü"] {
        let expected: Vec<String> = text.split(':').map(|piece| piece.to_string()).collect();
        assert_eq!(split_on(text, ':'), expected, "{:?}", text);
    }
}

#[test]
fn join_words_puts_the_separator_between() {
    assert_eq!(join_words(&owned(&["hello", "world"]), " "), "hello world");
    assert_eq!(join_words(&owned(&["a", "b", "c"]), ", "), "a, b, c");
    assert_eq!(join_words(&owned(&["one"]), " "), "one");
    assert_eq!(join_words(&owned(&[]), " "), "");
    assert_eq!(join_words(&owned(&["", ""]), " "), " ");
    assert_eq!(join_words(&owned(&["a  b", "c"]), " "), "a  b c");
}

#[test]
fn joining_the_pieces_gives_the_text_back() {
    for text in ["", ":", "a", "a:b", "a::b:", "::", "/usr/bin:/bin"] {
        assert_eq!(join_words(&split_on(text, ':'), ":"), text, "{:?}", text);
    }
}

#[test]
fn cutting_undoes_joining() {
    let lists: [&[&str]; 4] = [&["hello", "world"], &["one"], &["a", "", "b"], &["", ""]];
    for words in lists {
        let words = owned(words);
        assert_eq!(split_on(&join_words(&words, " "), ' '), words);
    }
}
