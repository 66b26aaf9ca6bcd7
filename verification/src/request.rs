//! The request that opens a tunnel: where its header ends and what its first
//! line asks for.
//!
//! A header is complete once the bytes received end in an empty line, CR LF
//! CR LF. Its first line holds up to three words, divided by white space:
//! the method, the target (`host:port`) and the protocol version.

use crate::text::{decode_lossy, utf8_lossy};
use crate::whitespace::{
    behind_word, holds_no_white_space, lemma_word_bounds, skip_white, skip_word, word_at,
};
use vstd::prelude::*;
use vstd::slice::{slice_subrange, slice_to_vec};
use vstd::utf8::{decode_utf8, valid_utf8};

verus! {

/// The most bytes that a header may take, the empty line at its end
/// included.
pub const MAX_HEADER_BYTES: usize = 8192;

/// The empty line that ends a header: CR LF CR LF.
pub open spec fn terminator() -> Seq<u8> {
    seq![0x0du8, 0x0au8, 0x0du8, 0x0au8]
}

/// Whether the bytes received so far end in the empty line.
pub open spec fn ends_header(received: Seq<u8>) -> bool {
    received.len() >= 4 && received.subrange(received.len() - 4, received.len() as int)
        == terminator()
}

/// The method that asks for a tunnel: `CONNECT`.
pub open spec fn connect_word() -> Seq<u8> {
    seq![0x43u8, 0x4fu8, 0x4eu8, 0x4eu8, 0x45u8, 0x43u8, 0x54u8]
}

/// Index of the first line feed at or after `i`, or the length of `s`.
pub open spec fn line_end(s: Seq<u8>, i: int) -> int
    decreases s.len() - i,
{
    if 0 <= i < s.len() && s[i] != 0x0au8 {
        line_end(s, i + 1)
    } else {
        i
    }
}

/// The first line of a header: the bytes before its first line feed. A CR
/// before the line feed is white space and so part of no word.
pub open spec fn request_line(header: Seq<u8>) -> Seq<u8> {
    header.subrange(0, line_end(header, 0))
}

/// The three words of a request line. A word that the line does not hold is
/// empty.
#[derive(Debug, Clone, PartialEq, Eq)]
pub struct RequestLine {
    pub method: Vec<u8>,
    pub target: Vec<u8>,
    pub version: Vec<u8>,
}

pub struct RequestLineView {
    pub method: Seq<u8>,
    pub target: Seq<u8>,
    pub version: Seq<u8>,
}

impl View for RequestLine {
    type V = RequestLineView;

    open spec fn view(&self) -> RequestLineView {
        RequestLineView { method: self.method@, target: self.target@, version: self.version@ }
    }
}

/// What the first line of `header` asks for: its first three words.
pub open spec fn parsed_request(header: Seq<u8>) -> RequestLineView {
    let line = request_line(header);
    let behind_method = behind_word(line, 0);
    let behind_target = behind_word(line, behind_method);
    RequestLineView {
        method: word_at(line, 0),
        target: word_at(line, behind_method),
        version: word_at(line, behind_target),
    }
}

/// `line_end` stays within `s`, and no line feed stands before it.
pub proof fn lemma_line_end(s: Seq<u8>, i: int)
    requires
        0 <= i <= s.len(),
    ensures
        i <= line_end(s, i) <= s.len(),
        forall|j: int| i <= j < line_end(s, i) ==> s[j] != 0x0au8,
        line_end(s, i) < s.len() ==> s[line_end(s, i)] == 0x0au8,
    decreases s.len() - i,
{
    if i < s.len() && s[i] != 0x0au8 {
        lemma_line_end(s, i + 1);
    }
}

/// Tells whether the bytes received so far end a header.
pub fn header_complete(received: &[u8]) -> (done: bool)
    ensures
        done == ends_header(received@),
{
    let n: usize = received.len();
    if n < 4 {
        return false;
    }
    let done = received[n - 4] == 0x0d && received[n - 3] == 0x0a && received[n - 2] == 0x0d
        && received[n - 1] == 0x0a;
    proof {
        let tail = received@.subrange(n - 4, n as int);
        assert(tail[0] == received@[n - 4]);
        assert(tail[1] == received@[n - 3]);
        assert(tail[2] == received@[n - 2]);
        assert(tail[3] == received@[n - 1]);
        if done {
            assert(tail =~= terminator());
        }
    }
    done
}

/// Finds where the first line of `header` ends.
fn find_line_end(header: &[u8]) -> (end: usize)
    ensures
        end == line_end(header@, 0),
        end <= header.len(),
        forall|j: int| 0 <= j < end ==> header@[j] != 0x0au8,
        end < header.len() ==> header@[end as int] == 0x0au8,
{
    proof {
        lemma_line_end(header@, 0);
    }
    let mut end: usize = 0;
    while end < header.len() && header[end] != 0x0a
        invariant
            end <= header.len(),
            line_end(header@, end as int) == line_end(header@, 0),
        decreases header.len() - end,
    {
        end = end + 1;
    }
    end
}

/// Reads the first three words of the first line of `header`.
pub fn parse_request_line(header: &[u8]) -> (line: RequestLine)
    ensures
        line@ == parsed_request(header@),
{
    let end: usize = find_line_end(header);
    let first: &[u8] = slice_subrange(header, 0, end);
    let method_start: usize = skip_white(first, 0);
    let method_end: usize = skip_word(first, method_start);
    let target_start: usize = skip_white(first, method_end);
    let target_end: usize = skip_word(first, target_start);
    let version_start: usize = skip_white(first, target_end);
    let version_end: usize = skip_word(first, version_start);
    RequestLine {
        method: slice_to_vec(slice_subrange(first, method_start, method_end)),
        target: slice_to_vec(slice_subrange(first, target_start, target_end)),
        version: slice_to_vec(slice_subrange(first, version_start, version_end)),
    }
}

/// No word of a request holds white space, and so none holds a blank or a
/// line break.
pub proof fn lemma_words_hold_no_white_space(header: Seq<u8>)
    ensures
        holds_no_white_space(parsed_request(header).method),
        holds_no_white_space(parsed_request(header).target),
        holds_no_white_space(parsed_request(header).version),
{
    let line = request_line(header);
    lemma_line_end(header, 0);
    lemma_word_bounds(line, 0);
    let behind_method = behind_word(line, 0);
    lemma_word_bounds(line, behind_method);
    let behind_target = behind_word(line, behind_method);
    lemma_word_bounds(line, behind_target);
}

impl RequestLine {
    /// Whether the request asks for a tunnel: its method is `CONNECT`, letter
    /// for letter.
    pub fn is_connect(&self) -> (yes: bool)
        ensures
            yes == (self.method@ == connect_word()),
    {
        let m = &self.method;
        let yes = m.len() == 7 && m[0] == 0x43 && m[1] == 0x4f && m[2] == 0x4e && m[3] == 0x4e
            && m[4] == 0x45 && m[5] == 0x43 && m[6] == 0x54;
        proof {
            if yes {
                assert(self.method@ =~= connect_word());
            }
        }
        yes
    }

    /// The target as text, for the connection that is opened to it.
    pub fn target_text(&self) -> (text: String)
        ensures
            text@ == utf8_lossy(self.target@),
            valid_utf8(self.target@) ==> text@ == decode_utf8(self.target@),
    {
        decode_lossy(self.target.as_slice())
    }
}

} // verus!
