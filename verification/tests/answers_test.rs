use git_commitizen::answers::{build_footer, is_yes, selected_type, space, wants_editor};
use git_commitizen::{build_commit_types, format_commit_types};

#[test]
fn white_space_is_what_the_standard_library_says() {
    for code in 0..=0x10ffff_u32 {
        if let Some(c) = char::from_u32(code) {
            assert_eq!(space(c), c.is_whitespace(), "at {:#x}", code);
        }
    }
}

#[test]
fn every_tag_is_read_back_from_its_line() {
    let types = build_commit_types();
    let lines = format_commit_types(build_commit_types());
    for (line, (tag, _)) in lines.iter().zip(types) {
        assert_eq!(selected_type(line), Some(tag));
    }
    assert_eq!(selected_type(&lines[4]), Some("refactor"));
}

#[test]
fn the_first_word_is_selected() {
    assert_eq!(selected_type("fix      - A bug fix"), Some("fix"));
    assert_eq!(selected_type("  \t docs and more"), Some("docs"));
    assert_eq!(selected_type("word"), Some("word"));
    assert_eq!(selected_type("a b"), Some("a"));
    assert_eq!(selected_type("\u{2003}é\u{3000}x"), Some("é"));
    assert_eq!(selected_type("tag-with-dash - x"), Some("tag-with-dash"));
}

#[test]
fn white_space_has_no_first_word() {
    assert_eq!(selected_type(""), None);
    assert_eq!(selected_type(" "), None);
    assert_eq!(selected_type(" \t\n\r\u{a0}\u{2028}"), None);
}

#[test]
fn first_word_is_what_split_whitespace_gives_first() {
    let texts = ["", " ", "a", " a", "a ", " ab  cd ", "\u{85}x\u{85}", "日本 語", "\u{200b}z z"];
    for text in texts {
        assert_eq!(selected_type(text), text.split_whitespace().next(), "for {:?}", text);
    }
}

#[test]
fn yes_is_one_letter() {
    assert!(is_yes("y"));
    assert!(is_yes("Y"));
    assert!(!is_yes("yes"));
    assert!(!is_yes("n"));
    assert!(!is_yes("N"));
    assert!(!is_yes("no"));
    assert!(!is_yes(""));
    assert!(!is_yes(" y"));
    assert!(!is_yes("y "));
    assert!(!is_yes("yy"));
    assert!(!is_yes("ý"));
}

#[test]
fn yes_is_what_lower_case_makes_y() {
    for code in 0..=0x10ffff_u32 {
        if let Some(c) = char::from_u32(code) {
            let answer = c.to_string();
            assert_eq!(is_yes(&answer), answer.to_lowercase() == "y", "at {:#x}", code);
        }
    }
}

#[test]
fn the_editor_is_asked_for_with_one_letter() {
    assert!(wants_editor("e"));
    assert!(wants_editor("E"));
    assert!(wants_editor("  e"));
    assert!(wants_editor("E \n"));
    assert!(wants_editor("\t e \u{a0}"));
    assert!(!wants_editor(""));
    assert!(!wants_editor("   "));
    assert!(!wants_editor("ee"));
    assert!(!wants_editor("e e"));
    assert!(!wants_editor("edit"));
    assert!(!wants_editor("a"));
    assert!(!wants_editor("An explanation"));
    assert!(!wants_editor("x e"));
    assert!(!wants_editor("e x"));
}

#[test]
fn the_editor_letter_is_what_trimmed_lower_case_makes_e() {
    for code in 0..=0x10ffff_u32 {
        if let Some(c) = char::from_u32(code) {
            let body = format!(" {}\n", c);
            assert_eq!(
                wants_editor(&body),
                body.trim().to_lowercase() == "e",
                "at {:#x}",
                code
            );
        }
    }
}

#[test]
fn a_footer_names_its_issue() {
    assert_eq!(build_footer("fix", "12"), "fix: #12");
    assert_eq!(build_footer("close", "7"), "close: #7");
    assert_eq!(build_footer("", ""), ": #");
    assert_eq!(build_footer("close", " #8 "), "close: # #8 ");
}
