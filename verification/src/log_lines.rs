//! Log output that is collected byte by byte and shown as one line.

use vstd::prelude::*;
use vstd::utf8::{decode_utf8, valid_utf8};

use crate::text::{is_white_space, lemma_trim_end, trim_end, trim_end_text};

verus! {

/// The text that bytes stand for where sequences that are no UTF-8 are replaced: what
/// `String::from_utf8_lossy` returns.
pub uninterp spec fn lossy_text(bytes: Seq<u8>) -> Seq<char>;

/// Calls `String::from_utf8_lossy`. The contract names the text, and says that bytes that are
/// valid UTF-8 give the characters that they encode.
#[verifier::external_body]
fn decode_lossy(bytes: &Vec<u8>) -> (text: String)
    ensures
        text@ == lossy_text(bytes@),
        valid_utf8(bytes@) ==> text@ == decode_utf8(bytes@),
{
    String::from_utf8_lossy(bytes).into_owned()
}

/// The line that is shown for these bytes, as characters; none where there are no bytes.
pub open spec fn shown_line(bytes: Seq<u8>) -> Option<Seq<char>> {
    if bytes.len() == 0 {
        None
    } else {
        Some(trim_end(lossy_text(bytes)))
    }
}

/// A line is shown exactly where there are bytes. It is the beginning of their text, it does not
/// end with white space, and nothing but white space is left out of it.
pub proof fn lemma_shown_line(bytes: Seq<u8>)
    ensures
        shown_line(bytes) is None <==> bytes.len() == 0,
        shown_line(bytes) matches Some(line) ==> {
            let text = lossy_text(bytes);
            &&& line.is_prefix_of(text)
            &&& line.len() > 0 ==> !is_white_space(line.last())
            &&& forall|i: int|
                line.len() <= i < text.len() ==> is_white_space(#[trigger] text[i])
        },
{
    let text = lossy_text(bytes);
    lemma_trim_end(text);
    let n = trim_end(text).len() as int;
    assert forall|i: int| n <= i < text.len() implies is_white_space(#[trigger] text[i]) by {
        assert(text.skip(n)[i - n] == text[i]);
    }
}

/// The bytes of a line that is not shown yet.
#[derive(Debug)]
pub struct LineBuffer {
    bytes: Vec<u8>,
}

impl View for LineBuffer {
    type V = Seq<u8>;

    closed spec fn view(&self) -> Seq<u8> {
        self.bytes@
    }
}

impl LineBuffer {
    /// A buffer that holds nothing.
    pub fn new() -> (buffer: LineBuffer)
        ensures
            buffer@ == Seq::<u8>::empty(),
    {
        LineBuffer { bytes: Vec::new() }
    }

    /// Adds `data` to what the buffer holds. All of it is taken.
    pub fn write(&mut self, data: &[u8]) -> (taken: usize)
        ensures
            taken == data.len(),
            final(self)@ == old(self)@ + data@,
    {
        let mut i: usize = 0;
        assert(data@.take(0) =~= Seq::empty());
        assert(self@ =~= old(self)@ + data@.take(0));
        while i < data.len()
            invariant
                i <= data.len(),
                self@ == old(self)@ + data@.take(i as int),
            decreases data.len() - i,
        {
            self.bytes.push(data[i]);
            i = i + 1;
            assert(self@ =~= old(self)@ + data@.take(i as int));
        }
        assert(data@.take(i as int) =~= data@);
        i
    }

    /// The line to be shown: what the buffer holds, without white space at its end; none where
    /// the buffer holds nothing.
    pub fn pending_line(&self) -> (line: Option<String>)
        ensures
            line.deep_view() == shown_line(self@),
            line.deep_view() == (if self@.len() == 0 {
                None
            } else {
                Some(trim_end(lossy_text(self@)))
            }),
            self@.len() > 0 && valid_utf8(self@) ==> line.deep_view() == Some(
                trim_end(decode_utf8(self@)),
            ),
    {
        if self.bytes.len() == 0 {
            None
        } else {
            Some(trim_end_text(decode_lossy(&self.bytes).as_str()))
        }
    }

    /// Drops what the buffer holds, once it has been shown.
    pub fn clear(&mut self)
        ensures
            final(self)@ == Seq::<u8>::empty(),
    {
        self.bytes = Vec::new();
    }
}

} // verus!
