//! Framing an encoded record as one line of output.

use vstd::prelude::*;

verus! {

/// Why an encoded record cannot go out as one line.
#[derive(Clone, Copy, Debug, PartialEq, Eq, Structural)]
pub enum FrameError {
    /// There is nothing to write.
    Empty,
    /// The record holds a line feed or a carriage return.
    LineBreak,
    /// The record ends in a space or a tab.
    TrailingBlank,
}

/// The byte that ends every line.
pub const LINE_FEED: u8 = 0x0A;

/// A line feed or a carriage return.
pub open spec fn is_line_break(byte: u8) -> bool {
    byte == 0x0A || byte == 0x0D
}

/// A space or a tab.
pub open spec fn is_blank(byte: u8) -> bool {
    byte == 0x20 || byte == 0x09
}

/// Some byte of `doc` is a line break.
pub open spec fn has_line_break(doc: Seq<u8>) -> bool {
    exists|i: int| 0 <= i < doc.len() && is_line_break(#[trigger] doc[i])
}

/// Why `doc` cannot go out as one line, if it cannot.
pub open spec fn spec_frame_error(doc: Seq<u8>) -> Option<FrameError> {
    if doc.len() == 0 {
        Some(FrameError::Empty)
    } else if has_line_break(doc) {
        Some(FrameError::LineBreak)
    } else if is_blank(doc.last()) {
        Some(FrameError::TrailingBlank)
    } else {
        None
    }
}

/// Whether some byte of `doc` is a line break.
fn find_line_break(doc: &Vec<u8>) -> (found: bool)
    ensures
        found == has_line_break(doc@),
{
    let mut i: usize = 0;
    while i < doc.len()
        invariant
            i <= doc.len(),
            forall|j: int| 0 <= j < i ==> !is_line_break(#[trigger] doc@[j]),
        decreases doc.len() - i,
    {
        if doc[i] == 0x0A || doc[i] == 0x0D {
            assert(is_line_break(doc@[i as int]));
            return true;
        }
        i = i + 1;
    }
    false
}

/// The line for one encoded record: the record followed by a line feed.
/// A record that is empty, holds a line break or ends in a blank is refused,
/// so that a reader who splits the output at line feeds gets the records
/// back, one per line.
pub fn frame_line(doc: Vec<u8>) -> (r: Result<Vec<u8>, FrameError>)
    ensures
        match r {
            Ok(line) => spec_frame_error(doc@) is None && line@ == doc@.push(LINE_FEED),
            Err(e) => spec_frame_error(doc@) == Some(e),
        },
{
    if doc.len() == 0 {
        return Err(FrameError::Empty);
    }
    if find_line_break(&doc) {
        return Err(FrameError::LineBreak);
    }
    let last = doc[doc.len() - 1];
    if last == 0x20 || last == 0x09 {
        return Err(FrameError::TrailingBlank);
    }
    let mut line = doc;
    line.push(LINE_FEED);
    Ok(line)
}

/// A framed line is one line: it ends in a line feed, holds no other line
/// break, and nothing blank stands before the line feed.
pub proof fn lemma_framed_is_one_line(doc: Seq<u8>)
    requires
        spec_frame_error(doc) is None,
    ensures
        doc.push(LINE_FEED).last() == LINE_FEED,
        doc.push(LINE_FEED).drop_last() == doc,
        forall|i: int| 0 <= i < doc.len() ==> !is_line_break(#[trigger] doc.push(LINE_FEED)[i]),
        !is_blank(doc.push(LINE_FEED)[doc.len() - 1]),
{
    assert(doc.push(LINE_FEED).drop_last() =~= doc);
    assert forall|i: int| 0 <= i < doc.len() implies !is_line_break(
        #[trigger] doc.push(LINE_FEED)[i],
    ) by {
        assert(doc.push(LINE_FEED)[i] == doc[i]);
    }
}

} // verus!
