//! Reading what was answered at the prompts.
//!
//! The type of change is picked from the display lines of the catalog, so
//! the tag has to be read back from the line. A yes-or-no question is
//! answered with a word, and the body may be the one letter that asks for an
//! editor. The footer is put together from its kind and an issue number.

use crate::catalog::{catalog, column_width, format_all, format_line};
use vstd::prelude::*;

verus! {

/// Whether a character is white space: one of the twenty-five characters
/// with the Unicode property `White_Space`.
pub open spec fn is_space(c: char) -> bool {
    ||| '\u{9}' <= c <= '\u{d}'
    ||| c == ' '
    ||| c == '\u{85}'
    ||| c == '\u{a0}'
    ||| c == '\u{1680}'
    ||| '\u{2000}' <= c <= '\u{200a}'
    ||| c == '\u{2028}'
    ||| c == '\u{2029}'
    ||| c == '\u{202f}'
    ||| c == '\u{205f}'
    ||| c == '\u{3000}'
}

/// Whether a character is white space.
pub fn space(c: char) -> (white: bool)
    ensures
        white == is_space(c),
{
    ('\u{9}' <= c && c <= '\u{d}')
        || c == ' '
        || c == '\u{85}'
        || c == '\u{a0}'
        || c == '\u{1680}'
        || ('\u{2000}' <= c && c <= '\u{200a}')
        || c == '\u{2028}'
        || c == '\u{2029}'
        || c == '\u{202f}'
        || c == '\u{205f}'
        || c == '\u{3000}'
}

/// Whether the first word of a text stands from `start` up to `end`: only
/// white space comes before it, it holds none, and it ends where the text
/// ends or white space follows.
pub open spec fn first_word_at(text: Seq<char>, start: int, end: int) -> bool {
    &&& 0 <= start < end <= text.len()
    &&& forall|i: int| 0 <= i < start ==> is_space(#[trigger] text[i])
    &&& forall|i: int| start <= i < end ==> !is_space(#[trigger] text[i])
    &&& end < text.len() ==> is_space(text[end])
}

/// The first word of a text, if it has one: a text of white space has none.
pub open spec fn first_word(text: Seq<char>) -> Option<Seq<char>> {
    if exists|start: int, end: int| first_word_at(text, start, end) {
        let (start, end) = choose|start: int, end: int| first_word_at(text, start, end);
        Some(text.subrange(start, end))
    } else {
        None
    }
}

/// A text has its first word in one place only.
pub proof fn lemma_first_word_is_unique(
    text: Seq<char>,
    start: int,
    end: int,
    other_start: int,
    other_end: int,
)
    requires
        first_word_at(text, start, end),
        first_word_at(text, other_start, other_end),
    ensures
        start == other_start,
        end == other_end,
{
    if start < other_start {
        assert(is_space(text[start]));
    }
    if other_start < start {
        assert(is_space(text[other_start]));
    }
    if end < other_end {
        assert(!is_space(text[end]));
    }
    if other_end < end {
        assert(!is_space(text[other_end]));
    }
}

/// Where the first word of a text is known to stand, it is that part of the
/// text.
pub proof fn lemma_first_word_found(text: Seq<char>, start: int, end: int)
    requires
        first_word_at(text, start, end),
    ensures
        first_word(text) == Some(text.subrange(start, end)),
{
    let (found_start, found_end) = choose|s: int, e: int| first_word_at(text, s, e);
    lemma_first_word_is_unique(text, start, end, found_start, found_end);
}

/// The first word of a display line is its tag, for a tag that is not empty
/// and holds no white space. The width of the column does not matter.
pub proof fn lemma_line_starts_with_its_tag(tag: Seq<char>, description: Seq<char>, width: nat)
    requires
        tag.len() > 0,
        forall|i: int| 0 <= i < tag.len() ==> !is_space(#[trigger] tag[i]),
    ensures
        first_word(format_line(tag, description, width)) == Some(tag),
{
    let line = format_line(tag, description, width);
    assert(line.subrange(0, tag.len() as int) =~= tag);
    assert(is_space(line[tag.len() as int]));
    assert(first_word_at(line, 0, tag.len() as int));
    lemma_first_word_found(line, 0, tag.len() as int);
}

/// Every tag of the catalog is read back from its display line.
pub proof fn lemma_catalog_tags_are_read_back(i: int)
    requires
        0 <= i < catalog().len(),
    ensures
        first_word(format_all(catalog())[i]) == Some(catalog()[i].0),
{
    reveal_strlit("feat");
    reveal_strlit("fix");
    reveal_strlit("docs");
    reveal_strlit("style");
    reveal_strlit("refactor");
    reveal_strlit("perf");
    reveal_strlit("test");
    reveal_strlit("chore");
    reveal_strlit("ci");
    reveal_strlit("build");
    reveal_strlit("revert");
    let entries = catalog();
    let tag = entries[i].0;
    assert(tag.len() > 0);
    assert forall|k: int| 0 <= k < tag.len() implies !is_space(#[trigger] tag[k]) by {}
    lemma_line_starts_with_its_tag(tag, entries[i].1, column_width(entries));
}

/// The type of change that was picked: the first word of the line that was
/// selected, `None` for a line of white space.
pub fn selected_type(selection: &str) -> (tag: Option<&str>)
    ensures
        match tag {
            Some(tag) => first_word(selection@) == Some(tag@),
            None => first_word(selection@) is None,
        },
{
    let len = selection.unicode_len();
    let mut start: usize = 0;
    while start < len
        invariant
            start <= len,
            len == selection@.len(),
            forall|i: int| 0 <= i < start ==> is_space(#[trigger] selection@[i]),
        ensures
            start == len || !is_space(selection@[start as int]),
        decreases len - start,
    {
        if !space(selection.get_char(start)) {
            break ;
        }
        start = start + 1;
    }
    if start == len {
        assert forall|s: int, e: int| !first_word_at(selection@, s, e) by {
            if first_word_at(selection@, s, e) {
                assert(is_space(selection@[s]));
            }
        }
        return None;
    }
    let mut end: usize = start + 1;
    while end < len
        invariant
            start < end <= len,
            len == selection@.len(),
            forall|i: int| start <= i < end ==> !is_space(#[trigger] selection@[i]),
        ensures
            end == len || is_space(selection@[end as int]),
        decreases len - end,
    {
        if space(selection.get_char(end)) {
            break ;
        }
        end = end + 1;
    }
    proof {
        lemma_first_word_found(selection@, start as int, end as int);
    }
    Some(selection.substring_char(start, end))
}

/// Whether an answer, put in lower case, is `y`.
pub open spec fn says_yes(answer: Seq<char>) -> bool {
    answer == seq!['y'] || answer == seq!['Y']
}

/// Whether a question was answered with yes: with `y` or `Y`, and with
/// nothing else.
pub fn is_yes(answer: &str) -> (yes: bool)
    ensures
        yes == says_yes(answer@),
{
    if answer.unicode_len() != 1 {
        return false;
    }
    let c = answer.get_char(0);
    assert(answer@ =~= seq![c]);
    c == 'y' || c == 'Y'
}

/// Whether a body is the letter `e`, in either case, at position `at`, and
/// white space everywhere else.
pub open spec fn editor_letter_at(body: Seq<char>, at: int) -> bool {
    &&& 0 <= at < body.len()
    &&& body[at] == 'e' || body[at] == 'E'
    &&& forall|i: int| 0 <= i < body.len() && i != at ==> is_space(#[trigger] body[i])
}

/// Whether a body is the letter `e`, in either case, with nothing but white
/// space around it.
pub open spec fn asks_for_editor(body: Seq<char>) -> bool {
    exists|at: int| editor_letter_at(body, at)
}

/// Whether the body that was typed asks for an editor instead.
pub fn wants_editor(body: &str) -> (wants: bool)
    ensures
        wants == asks_for_editor(body@),
{
    let len = body.unicode_len();
    let mut letter: Option<usize> = None;
    let mut i: usize = 0;
    while i < len
        invariant
            i <= len,
            len == body@.len(),
            letter matches Some(at) ==> at < i && (body@[at as int] == 'e' || body@[at as int]
                == 'E'),
            forall|k: int|
                0 <= k < i && letter != Some(k as usize) ==> is_space(#[trigger] body@[k]),
        decreases len - i,
    {
        let c = body.get_char(i);
        if !space(c) {
            if letter.is_some() || !(c == 'e' || c == 'E') {
                assert forall|at: int| !editor_letter_at(body@, at) by {
                    if editor_letter_at(body@, at) {
                        assert(at == i);
                        if letter is Some {
                            assert(is_space(body@[letter->0 as int]));
                        }
                    }
                }
                return false;
            }
            letter = Some(i);
        }
        i = i + 1;
    }
    match letter {
        Some(at) => {
            assert(editor_letter_at(body@, at as int));
            true
        },
        None => {
            assert forall|at: int| !editor_letter_at(body@, at) by {
                if editor_letter_at(body@, at) {
                    assert(is_space(body@[at]));
                }
            }
            false
        },
    }
}

/// The text of a footer: its kind, a colon and the number of the issue
/// after a number sign.
pub open spec fn footer_text(kind: Seq<char>, issue: Seq<char>) -> Seq<char> {
    kind + seq![':', ' ', '#'] + issue
}

/// The footer that refers to an issue.
pub fn build_footer(kind: &str, issue: &str) -> (footer: String)
    ensures
        footer@ == footer_text(kind@, issue@),
{
    proof {
        reveal_strlit(": #");
    }
    let mut footer = String::new();
    footer.append(kind);
    footer.append(": #");
    footer.append(issue);
    assert(footer@ =~= footer_text(kind@, issue@));
    footer
}

} // verus!
