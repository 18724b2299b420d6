use git_commitizen::catalog::COLUMN_GAP;
use git_commitizen::{build_commit_types, format_commit_types};

#[test]
fn test_build_commit_types() {
    let commit_types = build_commit_types();
    assert!(!commit_types.is_empty(), "Commit types should not be empty");
    assert!(
        commit_types.iter().any(|&(t, _)| t == "feat"),
        "Should include 'feat' type"
    );
    assert!(
        commit_types.iter().any(|&(t, _)| t == "fix"),
        "Should include 'fix' type"
    );
}

#[test]
fn test_format_commit_types() {
    let commit_types = vec![
        ("feat", "A new feature"),
        ("fix", "A bug fix"),
        ("docs", "Documentation updates"),
    ];

    let formatted = format_commit_types(commit_types);

    let expected = vec![
        "feat     - A new feature".to_string(),
        "fix      - A bug fix".to_string(),
        "docs     - Documentation updates".to_string(),
    ];

    assert_eq!(formatted, expected);
}

#[test]
fn test_format_commit_types_empty_list() {
    let commit_types = vec![];
    let formatted = format_commit_types(commit_types);
    assert!(
        formatted.is_empty(),
        "Formatting an empty list should result in an empty vector"
    );
}

#[test]
fn test_format_commit_types_varying_lengths() {
    let commit_types = vec![
        ("a", "Short"),
        ("looong", "A longer type"),
        ("medium", "Medium length"),
    ];

    let formatted = format_commit_types(commit_types);

    let expected = vec![
        "a          - Short".to_string(),
        "looong     - A longer type".to_string(),
        "medium     - Medium length".to_string(),
    ];

    assert_eq!(formatted, expected);
}

#[test]
fn catalog_holds_the_eleven_types_in_order() {
    let expected = vec![
        ("feat", "A new feature"),
        ("fix", "A bug fix"),
        ("docs", "Documentation only changes"),
        (
            "style",
            "Changes that do not affect the meaning of the code (white-space, formatting, etc.)",
        ),
        (
            "refactor",
            "A code change that neither fixes a bug nor adds a feature",
        ),
        ("perf", "A code change that improves performance"),
        ("test", "Adding missing tests or correcting existing tests"),
        ("chore", "Other changes that don't modify src or test files"),
        ("ci", "Changes to our CI configuration files and scripts"),
        (
            "build",
            "Changes that affect the build system or external dependencies",
        ),
        ("revert", "Reverts a previous commit"),
    ];
    assert_eq!(build_commit_types(), expected);
}

#[test]
fn catalog_tags_are_distinct_and_not_empty() {
    let types = build_commit_types();
    for (i, (tag, _)) in types.iter().enumerate() {
        assert!(!tag.is_empty());
        for (other, _) in types.iter().skip(i + 1) {
            assert_ne!(tag, other);
        }
    }
}

#[test]
fn catalog_lines_are_aligned() {
    let lines = format_commit_types(build_commit_types());
    assert_eq!(lines.len(), 11);
    assert_eq!(lines[0], "feat         - A new feature");
    assert_eq!(
        lines[4],
        "refactor     - A code change that neither fixes a bug nor adds a feature"
    );
    assert_eq!(lines[8], "ci           - Changes to our CI configuration files and scripts");
    let width = "refactor".len() + COLUMN_GAP;
    for line in &lines {
        assert_eq!(line.find(" - "), Some(width));
        assert_eq!(line.matches(" - ").count(), 1);
    }
}

#[test]
fn one_line_for_each_entry() {
    let one = format_commit_types(vec![("only", "entry")]);
    assert_eq!(one, vec!["only     - entry".to_string()]);
    let four = format_commit_types(vec![("a", "1"), ("b", "2"), ("c", "3"), ("d", "4")]);
    assert_eq!(four.len(), 4);
    assert_eq!(four[3], "d     - 4");
}

#[test]
fn empty_tag_and_description_are_kept() {
    let lines = format_commit_types(vec![("", "")]);
    assert_eq!(lines, vec!["     - ".to_string()]);
}

#[test]
fn column_is_as_wide_as_the_longest_tag_in_bytes() {
    // Four characters, eight bytes: the column is twelve wide, and the
    // padding counts characters.
    let lines = format_commit_types(vec![("äöüß", "umlauts"), ("ab", "plain")]);
    assert_eq!(lines[0], "äöüß         - umlauts");
    assert_eq!(lines[1], "ab           - plain");
    assert_eq!(lines[0].chars().position(|c| c == '-'), Some(13));
    assert_eq!(lines[1].chars().position(|c| c == '-'), Some(13));
}

#[test]
fn a_description_may_bring_a_second_separator() {
    let lines = format_commit_types(vec![("a", "- b"), ("c", "d - e"), ("f -", "g")]);
    assert_eq!(lines[0], "a       - - b");
    assert_eq!(lines[0].match_indices(" - ").count(), 1);
    assert_eq!(lines[0].matches(" -").count(), 2);
    assert_eq!(lines[1], "c       - d - e");
    assert_eq!(lines[1].matches(" - ").count(), 2);
    assert_eq!(lines[2], "f -     - g");
    assert_eq!(lines[2].matches(" - ").count(), 2);
}

#[test]
fn lines_are_what_left_aligned_formatting_gives() {
    let catalogs = vec![
        build_commit_types(),
        vec![("a", "Short"), ("looong", "A longer type"), ("medium", "Medium length")],
        vec![("äöüß", "umlauts"), ("ab", "plain"), ("日本語", "three characters, nine bytes")],
        vec![("", "no tag"), ("x", "")],
        vec![("tab\there", "inside"), (" lead", "space"), ("trail ", "space")],
    ];
    for types in catalogs {
        let width = types.iter().map(|(tag, _)| tag.len()).max().unwrap_or(0) + COLUMN_GAP;
        let expected: Vec<String> = types
            .iter()
            .map(|(tag, description)| format!("{:<width$} - {}", tag, description, width = width))
            .collect();
        assert_eq!(format_commit_types(types), expected);
    }
}
