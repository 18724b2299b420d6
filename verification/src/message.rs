//! The commit message grammar.
//!
//! A message is a header line, optionally followed by a body and a footer,
//! each set apart by one blank line:
//!
//! ```text
//! <type>[(<scope>)]: <description>
//!
//! <body>
//!
//! <footer>
//! ```

use vstd::prelude::*;

verus! {

/// The scope as it stands in the header: in parentheses, or nothing at all
/// when no scope was given.
pub open spec fn scope_part(scope: Seq<char>) -> Seq<char> {
    if scope.len() == 0 {
        Seq::empty()
    } else {
        seq!['('] + scope + seq![')']
    }
}

/// The first line of a message: type, optional scope, colon, space, description.
pub open spec fn header(commit_type: Seq<char>, scope: Seq<char>, description: Seq<char>) -> Seq<
    char,
> {
    commit_type + scope_part(scope) + seq![':', ' '] + description
}

/// A body or footer as it is appended: one blank line and the text, or
/// nothing when the text is empty.
pub open spec fn section(text: Seq<char>) -> Seq<char> {
    if text.len() == 0 {
        Seq::empty()
    } else {
        seq!['\n', '\n'] + text
    }
}

/// The text of the commit message made from the five fields.
pub open spec fn message_text(
    commit_type: Seq<char>,
    scope: Seq<char>,
    description: Seq<char>,
    body: Seq<char>,
    footer: Seq<char>,
) -> Seq<char> {
    header(commit_type, scope, description) + section(body) + section(footer)
}

/// Without a scope the header has no parentheses, and no space in their
/// place: the colon follows the type.
pub proof fn lemma_empty_scope_is_left_out(
    commit_type: Seq<char>,
    description: Seq<char>,
    body: Seq<char>,
    footer: Seq<char>,
)
    ensures
        header(commit_type, Seq::empty(), description) == commit_type + seq![':', ' ']
            + description,
        message_text(commit_type, Seq::empty(), description, body, footer) == commit_type
            + seq![':', ' '] + description + section(body) + section(footer),
{
    assert(commit_type + scope_part(Seq::empty()) =~= commit_type);
}

/// An empty body or footer leaves no trace, and so no blank line at the
/// end: a message without both is its header.
pub proof fn lemma_empty_sections_are_left_out(
    commit_type: Seq<char>,
    scope: Seq<char>,
    description: Seq<char>,
    text: Seq<char>,
)
    ensures
        message_text(commit_type, scope, description, Seq::empty(), Seq::empty()) == header(
            commit_type,
            scope,
            description,
        ),
        message_text(commit_type, scope, description, text, Seq::empty()) == header(
            commit_type,
            scope,
            description,
        ) + section(text),
        message_text(commit_type, scope, description, Seq::empty(), text) == header(
            commit_type,
            scope,
            description,
        ) + section(text),
{
    let head = header(commit_type, scope, description);
    assert(head + Seq::<char>::empty() =~= head);
    assert(head + section(text) + Seq::<char>::empty() =~= head + section(text));
}

/// Building is repeatable: two messages built from fields with the same
/// texts have the same text.
pub proof fn lemma_build_is_repeatable(
    first: String,
    second: String,
    commit_type: &str,
    scope: &str,
    description: &str,
    body: &str,
    footer: &str,
    commit_type_again: &str,
    scope_again: &str,
    description_again: &str,
    body_again: &str,
    footer_again: &str,
)
    requires
        commit_type@ == commit_type_again@,
        scope@ == scope_again@,
        description@ == description_again@,
        body@ == body_again@,
        footer@ == footer_again@,
        first@ == message_text(commit_type@, scope@, description@, body@, footer@),
        second@ == message_text(
            commit_type_again@,
            scope_again@,
            description_again@,
            body_again@,
            footer_again@,
        ),
    ensures
        first@ == second@,
{
}

/// Builds the commit message from its fields. No field is checked or
/// escaped: every input gives a message.
pub fn build_commit_message(
    commit_type: &str,
    scope: &str,
    description: &str,
    body: &str,
    footer: &str,
) -> (message: String)
    ensures
        message@ == message_text(commit_type@, scope@, description@, body@, footer@),
{
    proof {
        reveal_strlit("(");
        reveal_strlit(")");
        reveal_strlit(": ");
        reveal_strlit("\n\n");
    }
    let mut message = String::new();
    message.append(commit_type);
    if !scope.is_empty() {
        message.append("(");
        message.append(scope);
        message.append(")");
    }
    message.append(": ");
    message.append(description);
    assert(message@ =~= header(commit_type@, scope@, description@));
    if !body.is_empty() {
        message.append("\n\n");
        message.append(body);
    }
    assert(message@ =~= header(commit_type@, scope@, description@) + section(body@));
    if !footer.is_empty() {
        message.append("\n\n");
        message.append(footer);
    }
    assert(message@ =~= message_text(commit_type@, scope@, description@, body@, footer@));
    message
}

} // verus!
