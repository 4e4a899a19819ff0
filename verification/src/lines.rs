//! Breaking text into lines, as `textwrap` does it.

use vstd::prelude::*;

verus! {

/// The lines that `textwrap::wrap` breaks `text` into for lines of at most
/// `width` columns, with words found at ASCII spaces.
pub uninterp spec fn wrapped_text(text: Seq<char>, width: usize) -> Seq<Seq<char>>;

/// What stands for a list of lines in contracts.
pub open spec fn lines_view(lines: Seq<String>) -> Seq<Seq<char>> {
    lines.map_values(|line: String| line@)
}

/// Calls `textwrap::wrap` with `textwrap::Options::new(width)` and
/// `WordSeparator::AsciiSpace`. Trusted: the lines depend on the text and the
/// width alone, so they are given the name [`wrapped_text`]; nothing more is
/// claimed of them.
#[verifier::external_body]
pub(crate) fn wrap(text: &str, width: usize) -> (lines: Vec<String>)
    ensures
        lines_view(lines@) == wrapped_text(text@, width),
{
    let options = textwrap::Options::new(width).word_separator(textwrap::WordSeparator::AsciiSpace);
    textwrap::wrap(text, options).into_iter().map(|line| line.into_owned()).collect()
}

} // verus!
