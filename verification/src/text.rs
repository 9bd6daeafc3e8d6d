//! Small helpers on text, stated over sequences of characters.

use vstd::prelude::*;
use vstd::string::*;

verus! {

/// Whether two string slices hold the same characters.
pub fn same_text(a: &str, b: &str) -> (same: bool)
    ensures
        same == (a@ == b@),
{
    let left = a.to_owned();
    let right = b.to_owned();
    left == right
}

/// A copy of a list of strings, text by text.
pub fn copy_texts(texts: &Vec<String>) -> (copy: Vec<String>)
    ensures
        copy.deep_view() == texts.deep_view(),
{
    let mut copy: Vec<String> = Vec::new();
    let mut index: usize = 0;
    while index < texts.len()
        invariant
            index <= texts.len(),
            copy.len() == index,
            forall|i: int| 0 <= i < index ==> copy[i]@ == texts[i]@,
        decreases texts.len() - index,
    {
        copy.push(texts[index].clone());
        index += 1;
    }
    assert(copy.deep_view() =~= texts.deep_view());
    copy
}

/// `line` occupies a whole line of `body`: it starts at the beginning of the
/// text or right after a line feed, and ends at the end of the text or right
/// before a line feed.
pub open spec fn line_at(body: Seq<char>, start: int, line: Seq<char>) -> bool {
    &&& 0 <= start
    &&& start + line.len() <= body.len()
    &&& body.subrange(start, start + line.len()) == line
    &&& start == 0 || body[start - 1] == '\n'
    &&& start + line.len() == body.len() || body[start + line.len()] == '\n'
}

/// `line` is one of the lines of `body`.
pub open spec fn has_line(body: Seq<char>, line: Seq<char>) -> bool {
    exists|start: int| line_at(body, start, line)
}

} // verus!
