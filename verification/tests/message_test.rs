use git_commitizen::build_commit_message;

#[test]
fn test_build_commit_message() {
    let commit_type = "feat";
    let scope = "ui";
    let description = "Add new button";
    let body = "This button allows users to submit the form.";

    let commit_message = build_commit_message(commit_type, scope, description, body, "");
    assert_eq!(
        commit_message,
        "feat(ui): Add new button\n\nThis button allows users to submit the form."
    );

    let commit_message_no_scope = build_commit_message(commit_type, "", description, body, "");
    assert_eq!(
        commit_message_no_scope,
        "feat: Add new button\n\nThis button allows users to submit the form."
    );

    let commit_message_no_body = build_commit_message(commit_type, scope, description, "", "");
    assert_eq!(commit_message_no_body, "feat(ui): Add new button");
}

#[test]
fn test_build_commit_message_edge_cases() {
    // All empty strings
    let empty_message = build_commit_message("", "", "", "", "");
    assert_eq!(empty_message, ": ", "Empty inputs should result in ': '");

    // Very long strings
    let long_type = "a".repeat(50);
    let long_scope = "b".repeat(50);
    let long_description = "c".repeat(100);
    let long_body = "d".repeat(1000);

    let long_message =
        build_commit_message(&long_type, &long_scope, &long_description, &long_body, "");
    assert!(long_message.starts_with(&format!("{}({}):", long_type, long_scope)));
    assert!(long_message.contains(&long_description));
    assert!(long_message.contains(&long_body));

    // Special characters
    let special_message = build_commit_message("type!", "scope@", "description#", "body$", "");
    assert_eq!(special_message, "type!(scope@): description#\n\nbody$");
}

#[test]
fn empty_scope_leaves_no_parentheses() {
    assert_eq!(build_commit_message("feat", "", "Add X", "", ""), "feat: Add X");
}

#[test]
fn scope_and_body() {
    assert_eq!(
        build_commit_message("feat", "ui", "Add button", "Detail.", ""),
        "feat(ui): Add button\n\nDetail."
    );
}

#[test]
fn all_fields_empty() {
    assert_eq!(build_commit_message("", "", "", "", ""), ": ");
}

#[test]
fn footer_follows_after_one_blank_line() {
    assert_eq!(
        build_commit_message("fix", "core", "Stop the leak", "It leaked.", "fix: #12"),
        "fix(core): Stop the leak\n\nIt leaked.\n\nfix: #12"
    );
    assert_eq!(
        build_commit_message("fix", "", "Stop the leak", "", "close: #7"),
        "fix: Stop the leak\n\nclose: #7"
    );
}

#[test]
fn fields_are_taken_as_they_are() {
    assert_eq!(
        build_commit_message("a(b)", "c: d", "\n", " ", "\n\n"),
        "a(b)(c: d): \n\n\n \n\n\n\n"
    );
    assert_eq!(build_commit_message("ü", "é", "日本", "", ""), "ü(é): 日本");
}

#[test]
fn building_twice_gives_the_same_message() {
    let first = build_commit_message("feat", "ui", "Add button", "Detail.", "close: #3");
    let second = build_commit_message("feat", "ui", "Add button", "Detail.", "close: #3");
    assert_eq!(first, second);
    let scope = String::from("ui");
    let third = build_commit_message("feat", &scope, "Add button", "Detail.", "close: #3");
    assert_eq!(first, third);
}

#[test]
fn a_message_is_its_parts_in_order() {
    let fields = ["", "x", "two words", "(", "\n", "é"];
    for commit_type in fields {
        for scope in fields {
            for body in fields {
                for footer in fields {
                    let mut expected = String::from(commit_type);
                    if !scope.is_empty() {
                        expected += &format!("({})", scope);
                    }
                    expected += ": described";
                    if !body.is_empty() {
                        expected += &format!("\n\n{}", body);
                    }
                    if !footer.is_empty() {
                        expected += &format!("\n\n{}", footer);
                    }
                    assert_eq!(
                        build_commit_message(commit_type, scope, "described", body, footer),
                        expected
                    );
                }
            }
        }
    }
}
