//! Building the diff text from the lines that the version-control backend
//! emits, and the choice between unstaged and staged changes.

use vstd::prelude::*;
use vstd::utf8::*;
use crate::exclude::{ChangedFile, file_excluded, is_excluded};
use crate::text::{blank, is_blank};

verus! {

/// One line of patch output and the file whose delta it belongs to.
/// `origin` is the line's kind as the backend reports it: `'+'`, `'-'` or
/// `' '` for added, removed and context lines, other characters for file
/// and hunk headers and the like.
pub struct DiffLine {
    pub file: ChangedFile,
    pub origin: char,
    pub content: Vec<u8>,
}

/// Added, removed and context lines carry their kind as the first
/// character of their unified-diff text.
pub open spec fn has_marker(origin: char) -> bool {
    origin == '+' || origin == '-' || origin == ' '
}

/// The marker that begins a line's unified-diff text, if any.
pub open spec fn marker(origin: char) -> Seq<char> {
    if has_marker(origin) {
        seq![origin]
    } else {
        Seq::empty()
    }
}

/// Stands in the diff text for a line whose bytes are not valid UTF-8.
pub const INVALID_TEXT: &'static str = "(error: non-utf8 diff content)\n";

/// The text of a line's bytes, with a marker in place of invalid UTF-8.
pub open spec fn content_text(content: Seq<u8>) -> Seq<char> {
    if valid_utf8(content) {
        decode_utf8(content)
    } else {
        INVALID_TEXT@
    }
}

/// The unified-diff text of a line: its kind marker, then its content.
pub open spec fn line_text(origin: char, content: Seq<u8>) -> Seq<char> {
    marker(origin) + content_text(content)
}

/// What one line adds to the diff text: nothing when its file is excluded.
pub open spec fn line_contribution(line: DiffLine, excludes: Seq<String>) -> Seq<char> {
    if file_excluded(line.file, excludes) {
        Seq::empty()
    } else {
        line_text(line.origin, line.content@)
    }
}

/// The diff text: the text of every line whose file is not excluded, in
/// order.
pub open spec fn kept_text(lines: Seq<DiffLine>, excludes: Seq<String>) -> Seq<char>
    decreases lines.len(),
{
    if lines.len() == 0 {
        Seq::empty()
    } else {
        kept_text(lines.drop_last(), excludes) + line_contribution(lines.last(), excludes)
    }
}

/// Filtering keeps the order of the lines and treats each line on its own:
/// the text of two runs of lines is the text of the first followed by that
/// of the second, and a single line gives its own text unless its file is
/// excluded, and nothing if it is.
pub proof fn lemma_filter_partition(a: Seq<DiffLine>, b: Seq<DiffLine>, excludes: Seq<String>)
    ensures
        kept_text(a + b, excludes) == kept_text(a, excludes) + kept_text(b, excludes),
        forall|l: DiffLine|
            #[trigger] kept_text(seq![l], excludes) == (if file_excluded(l.file, excludes) {
                Seq::<char>::empty()
            } else {
                line_text(l.origin, l.content@)
            }),
    decreases b.len(),
{
    if b.len() == 0 {
        assert(a + b =~= a);
        assert(kept_text(a, excludes) + Seq::<char>::empty() =~= kept_text(a, excludes));
    } else {
        lemma_filter_partition(a, b.drop_last(), excludes);
        assert((a + b).drop_last() =~= a + b.drop_last());
        assert((a + b).last() == b.last());
        assert(kept_text(a + b, excludes) =~= kept_text(a, excludes) + kept_text(b, excludes));
    }
    assert forall|l: DiffLine|
        #[trigger] kept_text(seq![l], excludes) == (if file_excluded(l.file, excludes) {
            Seq::<char>::empty()
        } else {
            line_text(l.origin, l.content@)
        }) by {
        assert(seq![l].drop_last() =~= Seq::<DiffLine>::empty());
        assert(seq![l].last() == l);
        assert(kept_text(Seq::<DiffLine>::empty(), excludes) == Seq::<char>::empty());
        assert(kept_text(seq![l], excludes) == kept_text(seq![l].drop_last(), excludes)
            + line_contribution(l, excludes));
        assert(Seq::<char>::empty() + line_contribution(l, excludes) =~= line_contribution(
            l,
            excludes,
        ));
    }
}

/// Appends the unified-diff text of a line.
fn append_line_text(text: &mut String, origin: char, content: &Vec<u8>)
    ensures
        final(text)@ == old(text)@ + line_text(origin, content@),
{
    let ghost start = text@;
    if origin == '+' {
        text.append("+");
    } else if origin == '-' {
        text.append("-");
    } else if origin == ' ' {
        text.append(" ");
    }
    proof {
        reveal_strlit("+");
        reveal_strlit("-");
        reveal_strlit(" ");
        assert(text@ =~= start + marker(origin));
    }
    match crate::text::decode_utf8_bytes(content.as_slice()) {
        Some(s) => text.append(s),
        None => text.append(INVALID_TEXT),
    }
}

/// Concatenates the text of the lines whose file is not excluded.
pub fn filter_diff(lines: &Vec<DiffLine>, excludes: &Vec<String>) -> (r: String)
    ensures
        r@ == kept_text(lines@, excludes@),
{
    let mut text = String::new();
    let mut i: usize = 0;
    while i < lines.len()
        invariant
            i <= lines@.len(),
            text@ == kept_text(lines@.subrange(0, i as int), excludes@),
        decreases lines@.len() - i,
    {
        let line = &lines[i];
        if !is_excluded(&line.file, excludes) {
            append_line_text(&mut text, line.origin, &line.content);
        }
        assert(lines@.subrange(0, i + 1).drop_last() =~= lines@.subrange(0, i as int));
        i = i + 1;
    }
    assert(lines@.subrange(0, i as int) =~= lines@);
    text
}

/// What diff collection comes to.
pub enum DiffOutcome {
    /// The diff text to describe.
    Changes(String),
    /// The unstaged diff holds nothing relevant: the staged diff is needed.
    NeedStaged,
    /// Neither diff holds anything relevant.
    NoChanges,
}

/// Chooses the diff to describe. The unstaged diff is used unless its
/// filtered text is blank; then the staged diff is asked for (`staged` is
/// `None`) or, once given, used unless its filtered text is blank too.
pub fn fetch_diffs(
    unstaged: &Vec<DiffLine>,
    staged: &Option<Vec<DiffLine>>,
    excludes: &Vec<String>,
) -> (r: DiffOutcome)
    ensures
        !blank(kept_text(unstaged@, excludes@)) ==> (r matches DiffOutcome::Changes(t) && t@
            == kept_text(unstaged@, excludes@)),
        blank(kept_text(unstaged@, excludes@)) && staged is None ==> r is NeedStaged,
        blank(kept_text(unstaged@, excludes@)) && staged is Some ==> ({
            let s = kept_text(staged->0@, excludes@);
            if blank(s) {
                r is NoChanges
            } else {
                r matches DiffOutcome::Changes(t) && t@ == s
            }
        }),
{
    let text = filter_diff(unstaged, excludes);
    if !is_blank(text.as_str()) {
        return DiffOutcome::Changes(text);
    }
    match staged {
        None => DiffOutcome::NeedStaged,
        Some(lines) => {
            let staged_text = filter_diff(lines, excludes);
            if is_blank(staged_text.as_str()) {
                DiffOutcome::NoChanges
            } else {
                DiffOutcome::Changes(staged_text)
            }
        },
    }
}

} // verus!
