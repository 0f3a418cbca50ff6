use swap_manager::fstab::{contains_text, fstab_line, line_to_append};

#[test]
fn the_line_is_the_path_and_the_fixed_fields() {
    assert_eq!(fstab_line("/swap-manager.swap"), "/swap-manager.swap none swap sw 0 0\n");
    assert_eq!(fstab_line("/x"), "/x none swap sw 0 0\n");
    assert_eq!(fstab_line(""), " none swap sw 0 0\n");
}

#[test]
fn containment_is_character_for_character() {
    assert!(contains_text("abcabd", "abd"));
    assert!(contains_text("abcabd", "abc"));
    assert!(contains_text("abcabd", "abcabd"));
    assert!(contains_text("abcabd", ""));
    assert!(contains_text("", ""));
    assert!(!contains_text("", "a"));
    assert!(!contains_text("abcabd", "abe"));
    assert!(!contains_text("abc", "abcd"));
    assert!(!contains_text("aab", "aba"));
    assert!(contains_text("aaab", "aab"));
    assert!(contains_text("gr\u{fc}\u{df}e\n", "\u{df}e"));
}

#[test]
fn containment_agrees_with_the_standard_library() {
    let texts = ["", "a", "ab", "aab", "abab", "a\nb\n", "x y  z", "\u{e9}t\u{e9}"];
    for text in texts {
        for part in texts {
            assert_eq!(contains_text(text, part), text.contains(part), "{:?} in {:?}", part, text);
        }
    }
}

#[test]
fn an_entry_that_is_present_is_not_appended() {
    let table = "UUID=1 / ext4 defaults 0 1\n/swap-manager.swap none swap sw 0 0\n";
    assert_eq!(line_to_append(table, "/swap-manager.swap"), None);
}

#[test]
fn an_entry_that_is_absent_is_appended() {
    let table = "UUID=1 / ext4 defaults 0 1\n";
    assert_eq!(
        line_to_append(table, "/swap-manager.swap"),
        Some("/swap-manager.swap none swap sw 0 0\n".to_string())
    );
    assert_eq!(
        line_to_append("", "/swap-manager.swap"),
        Some("/swap-manager.swap none swap sw 0 0\n".to_string())
    );
}

#[test]
fn an_entry_that_differs_in_white_space_counts_as_absent() {
    let table = "/swap-manager.swap  none swap sw 0 0\n";
    assert!(line_to_append(table, "/swap-manager.swap").is_some());
    let unended = "/swap-manager.swap none swap sw 0 0";
    assert!(line_to_append(unended, "/swap-manager.swap").is_some());
    let returned = "/swap-manager.swap none swap sw 0 0\r\n";
    assert!(line_to_append(returned, "/swap-manager.swap").is_some());
}

#[test]
fn appending_twice_leaves_one_occurrence() {
    let mut table = String::from("UUID=1 / ext4 defaults 0 1\n");
    for _ in 0..2 {
        if let Some(line) = line_to_append(&table, "/swap-manager.swap") {
            table.push_str(&line);
        }
    }
    let line = fstab_line("/swap-manager.swap");
    assert_eq!(table.matches(line.as_str()).count(), 1);
    assert_eq!(table, "UUID=1 / ext4 defaults 0 1\n/swap-manager.swap none swap sw 0 0\n");
}
