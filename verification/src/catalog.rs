//! The catalog of commit types and the lines a selection list shows for it.
//!
//! A catalog is an ordered sequence of entries, each a tag and a short
//! description. A display line is the tag, padded with spaces to a common
//! column width, then `" - "` and the description.

use vstd::prelude::*;
use vstd::utf8::encode_utf8;

verus! {

/// The number of spaces that the tag column is wider than the longest tag.
pub const COLUMN_GAP: usize = 4;

/// The fixed catalog: eleven commit types, in the order in which they are
/// offered.
pub open spec fn catalog() -> Seq<(Seq<char>, Seq<char>)> {
    seq![
        ("feat"@, "A new feature"@),
        ("fix"@, "A bug fix"@),
        ("docs"@, "Documentation only changes"@),
        (
            "style"@,
            "Changes that do not affect the meaning of the code (white-space, formatting, etc.)"@,
        ),
        ("refactor"@, "A code change that neither fixes a bug nor adds a feature"@),
        ("perf"@, "A code change that improves performance"@),
        ("test"@, "Adding missing tests or correcting existing tests"@),
        ("chore"@, "Other changes that don't modify src or test files"@),
        ("ci"@, "Changes to our CI configuration files and scripts"@),
        ("build"@, "Changes that affect the build system or external dependencies"@),
        ("revert"@, "Reverts a previous commit"@),
    ]
}

/// A run of `n` spaces.
pub open spec fn spaces(n: nat) -> Seq<char> {
    Seq::new(n, |i: int| ' ')
}

/// What stands between the tag column and the description.
pub open spec fn separator() -> Seq<char> {
    seq![' ', '-', ' ']
}

/// The length of a text in bytes, as UTF-8.
pub open spec fn byte_len(text: Seq<char>) -> nat {
    encode_utf8(text).len()
}

/// The greatest byte length among the tags of a catalog, zero for the empty
/// catalog.
pub open spec fn max_tag_len(entries: Seq<(Seq<char>, Seq<char>)>) -> nat
    decreases entries.len(),
{
    if entries.len() == 0 {
        0
    } else {
        let before = max_tag_len(entries.drop_last());
        let last = byte_len(entries.last().0);
        if last > before {
            last
        } else {
            before
        }
    }
}

/// The width of the tag column of a catalog: its longest tag and the gap.
pub open spec fn column_width(entries: Seq<(Seq<char>, Seq<char>)>) -> nat {
    max_tag_len(entries) + COLUMN_GAP as nat
}

/// A text filled up with spaces on the right until it has `width`
/// characters. A text at least that long is left as it is.
pub open spec fn pad_right(text: Seq<char>, width: nat) -> Seq<char> {
    if text.len() < width {
        text + spaces((width - text.len()) as nat)
    } else {
        text
    }
}

/// The display line of one entry in a column of the given width.
pub open spec fn format_line(tag: Seq<char>, description: Seq<char>, width: nat) -> Seq<char> {
    pad_right(tag, width) + separator() + description
}

/// The display lines of a catalog: one per entry, in order, all with the
/// catalog's column width.
pub open spec fn format_all(entries: Seq<(Seq<char>, Seq<char>)>) -> Seq<Seq<char>> {
    Seq::new(
        entries.len(),
        |i: int| format_line(entries[i].0, entries[i].1, column_width(entries)),
    )
}

/// Whether the separator stands in a text at position `at`.
pub open spec fn separator_at(text: Seq<char>, at: int) -> bool {
    &&& 0 <= at
    &&& at + 3 <= text.len()
    &&& text[at] == ' '
    &&& text[at + 1] == '-'
    &&& text[at + 2] == ' '
}

/// Whether the separator stands anywhere in a text.
pub open spec fn has_separator(text: Seq<char>) -> bool {
    exists|at: int| separator_at(text, at)
}

/// Whether a tag or a description brings a separator of its own into its
/// display line: the tag by holding `" - "` or ending in `" -"`, the
/// description by holding `" - "` or starting with `"- "`.
pub open spec fn brings_separator(tag: Seq<char>, description: Seq<char>) -> bool {
    has_separator(tag + seq![' ']) || has_separator(seq![' '] + description)
}

/// The catalog of commit types.
pub fn build_commit_types() -> (types: Vec<(&'static str, &'static str)>)
    ensures
        types.deep_view() == catalog(),
        types@.len() == catalog().len(),
        forall|i: int|
            0 <= i < types@.len() ==> (#[trigger] types@[i]).0@ == catalog()[i].0
                && types@[i].1@ == catalog()[i].1,
{
    let types = vec![
        ("feat", "A new feature"),
        ("fix", "A bug fix"),
        ("docs", "Documentation only changes"),
        (
            "style",
            "Changes that do not affect the meaning of the code (white-space, formatting, etc.)",
        ),
        ("refactor", "A code change that neither fixes a bug nor adds a feature"),
        ("perf", "A code change that improves performance"),
        ("test", "Adding missing tests or correcting existing tests"),
        ("chore", "Other changes that don't modify src or test files"),
        ("ci", "Changes to our CI configuration files and scripts"),
        ("build", "Changes that affect the build system or external dependencies"),
        ("revert", "Reverts a previous commit"),
    ];
    assert(types.deep_view() =~= catalog());
    types
}

/// Appends `n` spaces to a text.
fn push_spaces(text: &mut String, n: usize)
    ensures
        final(text)@ == old(text)@ + spaces(n as nat),
{
    proof {
        reveal_strlit(" ");
    }
    let mut done: usize = 0;
    while done < n
        invariant
            done <= n,
            text@ == old(text)@ + spaces(done as nat),
            " "@ == seq![' '],
        decreases n - done,
    {
        text.append(" ");
        done = done + 1;
        assert(text@ =~= old(text)@ + spaces(done as nat));
    }
}

/// The greatest byte length among the tags of the catalog.
fn longest_tag(commit_types: &Vec<(&str, &str)>) -> (longest: usize)
    ensures
        longest == max_tag_len(commit_types.deep_view()),
{
    let ghost entries = commit_types.deep_view();
    let mut longest: usize = 0;
    let mut i: usize = 0;
    while i < commit_types.len()
        invariant
            i <= commit_types.len(),
            entries == commit_types.deep_view(),
            longest == max_tag_len(entries.take(i as int)),
        decreases commit_types.len() - i,
    {
        let tag: &str = commit_types[i].0;
        let len = tag.as_bytes().len();
        assert(entries.take(i + 1).drop_last() =~= entries.take(i as int));
        if len > longest {
            longest = len;
        }
        i = i + 1;
    }
    assert(entries.take(i as int) =~= entries);
    longest
}

/// The display line of one entry, where `longest` is the greatest byte
/// length among the tags of its catalog.
fn format_entry(tag: &str, description: &str, longest: usize) -> (line: String)
    requires
        byte_len(tag@) <= longest,
    ensures
        line@ == format_line(tag@, description@, longest as nat + COLUMN_GAP as nat),
{
    proof {
        reveal_strlit(" - ");
        lemma_byte_len_at_least_len(tag@);
    }
    let mut line = String::new();
    line.append(tag);
    push_spaces(&mut line, longest - tag.unicode_len());
    push_spaces(&mut line, COLUMN_GAP);
    assert(line@ =~= pad_right(tag@, longest as nat + COLUMN_GAP as nat));
    line.append(" - ");
    line.append(description);
    line
}

/// Renders a catalog as display lines, one per entry and in the same order.
/// The tag column is as wide as the longest tag, counted in bytes, and
/// `COLUMN_GAP` more, so that the descriptions start in one column.
pub fn format_commit_types(commit_types: Vec<(&str, &str)>) -> (lines: Vec<String>)
    ensures
        lines.deep_view() == format_all(commit_types.deep_view()),
        lines@.len() == commit_types@.len(),
        forall|i: int|
            0 <= i < lines@.len() ==> (#[trigger] lines@[i])@ == format_line(
                commit_types@[i].0@,
                commit_types@[i].1@,
                column_width(commit_types.deep_view()),
            ),
{
    let ghost entries = commit_types.deep_view();
    let longest = longest_tag(&commit_types);
    let mut lines: Vec<String> = Vec::new();
    let mut i: usize = 0;
    while i < commit_types.len()
        invariant
            i <= commit_types.len(),
            entries == commit_types.deep_view(),
            longest == max_tag_len(entries),
            lines.len() == i,
            forall|k: int| 0 <= k < i ==> #[trigger] lines[k]@ == format_all(entries)[k],
        decreases commit_types.len() - i,
    {
        let tag: &str = commit_types[i].0;
        let description: &str = commit_types[i].1;
        proof {
            lemma_max_tag_len_bounds(entries, i as int);
        }
        let line = format_entry(tag, description, longest);
        lines.push(line);
        i = i + 1;
    }
    assert(lines.deep_view() =~= format_all(entries));
    lines
}

/// The tags of the catalog are not empty, and no two of them are equal.
pub proof fn lemma_catalog_tags_distinct()
    ensures
        forall|i: int| 0 <= i < catalog().len() ==> (#[trigger] catalog()[i]).0.len() > 0,
        forall|i: int, j: int|
            0 <= i < j < catalog().len() ==> (#[trigger] catalog()[i]).0
                != (#[trigger] catalog()[j]).0,
{
    reveal_strlit("feat");
    reveal_strlit("fix");
    reveal_strlit("docs");
    reveal_strlit("style");
    reveal_strlit("refactor");
    reveal_strlit("perf");
    reveal_strlit("test");
    reveal_strlit("chore");
    reveal_strlit("ci");
    reveal_strlit("build");
    reveal_strlit("revert");
    let entries = catalog();
    assert forall|i: int, j: int| 0 <= i < j < entries.len() implies (#[trigger] entries[i]).0
        != (#[trigger] entries[j]).0 by {
        if entries[i].0.len() == entries[j].0.len() {
            assert(entries[i].0[0] != entries[j].0[0]);
        }
    }
}

/// A text has at least as many bytes as characters.
pub proof fn lemma_byte_len_at_least_len(text: Seq<char>)
    ensures
        text.len() <= byte_len(text),
    decreases text.len(),
{
    if text.len() > 0 {
        lemma_byte_len_at_least_len(text.drop_first());
    }
}

/// The greatest tag length is not less than the length of any tag of the
/// catalog.
pub proof fn lemma_max_tag_len_bounds(entries: Seq<(Seq<char>, Seq<char>)>, i: int)
    requires
        0 <= i < entries.len(),
    ensures
        byte_len(entries[i].0) <= max_tag_len(entries),
    decreases entries.len(),
{
    if i < entries.len() - 1 {
        lemma_max_tag_len_bounds(entries.drop_last(), i);
    }
}

/// The greatest tag length is the length of one of the tags, in a catalog
/// that has any.
pub proof fn lemma_max_tag_len_is_reached(entries: Seq<(Seq<char>, Seq<char>)>) -> (i: int)
    requires
        entries.len() > 0,
    ensures
        0 <= i < entries.len(),
        byte_len(entries[i].0) == max_tag_len(entries),
    decreases entries.len(),
{
    let before = entries.drop_last();
    if before.len() > 0 && max_tag_len(before) >= byte_len(entries.last().0) {
        let i = lemma_max_tag_len_is_reached(before);
        assert(before[i] == entries[i]);
        i
    } else {
        if before.len() == 0 {
            assert(max_tag_len(before) == 0);
        }
        entries.len() - 1
    }
}

/// Formatting gives one line for each entry; the empty catalog gives no
/// line.
pub proof fn lemma_format_keeps_length(entries: Seq<(Seq<char>, Seq<char>)>)
    ensures
        format_all(entries).len() == entries.len(),
        entries.len() == 0 ==> format_all(entries) == Seq::<Seq<char>>::empty(),
{
    if entries.len() == 0 {
        assert(format_all(entries) =~= Seq::<Seq<char>>::empty());
    }
}

/// Every line of a catalog has the same layout. The tag stands first, then
/// spaces up to the column width, at least `COLUMN_GAP` of them; the
/// separator starts at the column width, which is the same for all lines;
/// the description is the rest.
pub proof fn lemma_lines_share_column(entries: Seq<(Seq<char>, Seq<char>)>, i: int)
    requires
        0 <= i < entries.len(),
    ensures
        ({
            let line = format_all(entries)[i];
            let (tag, description) = entries[i];
            let width = column_width(entries) as int;
            &&& tag.len() + COLUMN_GAP <= width
            &&& line.len() == width + 3 + description.len()
            &&& line.subrange(0, tag.len() as int) == tag
            &&& forall|k: int| tag.len() <= k < width ==> line[k] == ' '
            &&& line.subrange(width, width + 3) == separator()
            &&& line.skip(width + 3) == description
        }),
{
    let line = format_all(entries)[i];
    let (tag, description) = entries[i];
    let width = column_width(entries) as int;
    lemma_max_tag_len_bounds(entries, i);
    lemma_byte_len_at_least_len(tag);
    assert(line.subrange(0, tag.len() as int) =~= tag);
    assert(line.subrange(width, width + 3) =~= separator());
    assert(line.skip(width + 3) =~= description);
}

/// Whether `" - "` occurs in a line exactly once depends on the entry alone:
/// the separator that formatting puts at the column width is the only one
/// if and only if neither tag nor description brings one of its own.
pub proof fn lemma_single_separator(entries: Seq<(Seq<char>, Seq<char>)>, i: int)
    requires
        0 <= i < entries.len(),
    ensures
        separator_at(format_all(entries)[i], column_width(entries) as int),
        !brings_separator(entries[i].0, entries[i].1) <==> (forall|at: int|
            separator_at(format_all(entries)[i], at) ==> at == column_width(entries)),
{
    let line = format_all(entries)[i];
    let (tag, description) = entries[i];
    let width = column_width(entries) as int;
    let tag_end = tag + seq![' '];
    let description_start = seq![' '] + description;
    lemma_lines_share_column(entries, i);
    assert(line.subrange(width, width + 3)[0] == ' ');
    assert(line.subrange(width, width + 3)[1] == '-');
    assert(line.subrange(width, width + 3)[2] == ' ');
    assert forall|k: int| 0 <= k < tag.len() implies line[k] == tag[k] by {
        assert(line.subrange(0, tag.len() as int)[k] == tag[k]);
    }
    assert forall|k: int| 0 <= k < description.len() implies line[width + 3 + k]
        == description[k] by {
        assert(line.skip(width + 3)[k] == description[k]);
    }
    if !brings_separator(tag, description) {
        assert forall|at: int| separator_at(line, at) implies at == width by {
            if at + 1 < tag.len() {
                assert(separator_at(tag_end, at));
            } else if at + 1 >= width + 3 {
                assert(separator_at(description_start, at - width - 2));
            }
        }
    } else {
        if has_separator(tag_end) {
            let at = choose|at: int| separator_at(tag_end, at);
            assert(separator_at(line, at));
        } else {
            let at = choose|at: int| separator_at(description_start, at);
            assert(separator_at(line, at + width + 2));
        }
    }
}

/// No entry of the catalog brings a separator of its own: each of its
/// display lines holds `" - "` once, at the column width.
pub proof fn lemma_catalog_lines_have_one_separator(i: int)
    requires
        0 <= i < catalog().len(),
    ensures
        !brings_separator(catalog()[i].0, catalog()[i].1),
        forall|at: int|
            separator_at(format_all(catalog())[i], at) <==> at == column_width(catalog()),
{
    reveal_strlit("feat");
    reveal_strlit("fix");
    reveal_strlit("docs");
    reveal_strlit("style");
    reveal_strlit("refactor");
    reveal_strlit("perf");
    reveal_strlit("test");
    reveal_strlit("chore");
    reveal_strlit("ci");
    reveal_strlit("build");
    reveal_strlit("revert");
    reveal_strlit("A new feature");
    reveal_strlit("A bug fix");
    reveal_strlit("Documentation only changes");
    reveal_strlit(
        "Changes that do not affect the meaning of the code (white-space, formatting, etc.)",
    );
    reveal_strlit("A code change that neither fixes a bug nor adds a feature");
    reveal_strlit("A code change that improves performance");
    reveal_strlit("Adding missing tests or correcting existing tests");
    reveal_strlit("Other changes that don't modify src or test files");
    reveal_strlit("Changes to our CI configuration files and scripts");
    reveal_strlit("Changes that affect the build system or external dependencies");
    reveal_strlit("Reverts a previous commit");
    let (tag, description) = catalog()[i];
    assert forall|at: int| !separator_at(tag + seq![' '], at) by {}
    assert forall|at: int| !separator_at(seq![' '] + description, at) by {}
    lemma_single_separator(catalog(), i);
}

} // verus!
