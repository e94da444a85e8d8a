//! The first line of a text and its last character.
use vstd::prelude::*;

verus! {

/// The position of the first line feed at or after `from`, or the length of
/// `text` where there is none.
pub open spec fn line_end(text: Seq<char>, from: int) -> int
    decreases text.len() - from,
{
    if from < 0 || from >= text.len() || text[from] == '\n' {
        from
    } else {
        line_end(text, from + 1)
    }
}

/// The first line of `text`, without the line feed that ends it and without
/// a carriage return directly before that line feed. A carriage return at
/// the end of a text that no line feed ends is kept.
pub open spec fn first_line(text: Seq<char>) -> Seq<char> {
    let end = line_end(text, 0);
    if end < text.len() && end > 0 && text[end - 1] == '\r' {
        text.take(end - 1)
    } else {
        text.take(end)
    }
}

/// The last character of the first line of `text`: none where the text is
/// empty or its first line is.
pub open spec fn spec_last_char_of_first_line(text: Seq<char>) -> Option<char> {
    let line = first_line(text);
    if line.len() == 0 {
        None
    } else {
        Some(line.last())
    }
}

/// The first line ends within the text.
pub proof fn lemma_line_end_in_range(text: Seq<char>, from: int)
    requires
        0 <= from <= text.len(),
    ensures
        from <= line_end(text, from) <= text.len(),
        forall|j: int| from <= j < line_end(text, from) ==> text[j] != '\n',
        line_end(text, from) < text.len() ==> text[line_end(text, from)] == '\n',
    decreases text.len() - from,
{
    if from < text.len() && text[from] != '\n' {
        lemma_line_end_in_range(text, from + 1);
    }
}

/// The last character of the first line of `text`.
pub fn last_char_of_first_line(text: &str) -> (last: Option<char>)
    ensures
        last == spec_last_char_of_first_line(text@),
{
    let len = text.unicode_len();
    let mut end: usize = 0;
    while end < len && text.get_char(end) != '\n'
        invariant
            end <= len,
            len == text@.len(),
            line_end(text@, 0) == line_end(text@, end as int),
        decreases len - end,
    {
        end += 1;
    }
    let mut stop = end;
    if end < len && end > 0 && text.get_char(end - 1) == '\r' {
        stop = end - 1;
    }
    assert(first_line(text@) == text@.take(stop as int));
    if stop == 0 {
        None
    } else {
        Some(text.get_char(stop - 1))
    }
}

} // verus!
