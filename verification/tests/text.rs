use memscan::text::{ends_in_multibyte_char, joined, padded, text_eq, with_char, without_last_byte};

#[test]
fn append_and_remove_characters() {
    let s = String::from("ab");
    assert_eq!(with_char(&s, 'c'), "abc");
    assert_eq!(without_last_byte(&s), "a");
    assert_eq!(without_last_byte(&String::new()), "");
    assert_eq!(without_last_byte(&String::from("é1")), "é");
}

#[test]
fn multibyte_endings() {
    assert!(ends_in_multibyte_char(&String::from("aé")));
    assert!(!ends_in_multibyte_char(&String::from("éa")));
    assert!(!ends_in_multibyte_char(&String::new()));
}

#[test]
fn compare_and_join() {
    assert!(text_eq("prev", "prev"));
    assert!(!text_eq("prev", "next"));
    assert!(!text_eq("pre", "prev"));
    assert_eq!(joined("Error: ", "x"), "Error: x");
    assert_eq!(padded(" a", 3, "b"), " a   b");
    assert_eq!(padded("", 0, ""), "");
}
