//! The frame reader: from the chunks of a response body to the JSON documents it carries.
//!
//! A line-delimited body carries one document per line, and a chunk is mostly one line; where
//! a chunk ends in the middle of a document, the reader holds it back and reads it with the
//! chunk that follows. A body of server-sent events carries each document behind the marker
//! `data:`. A chunk that gives no document gives no frame, and the reading goes on with the
//! next chunk; only the end of the body ends the stream.

use vstd::prelude::*;
use vstd::utf8::{decode_utf8, valid_utf8};
use crate::json::{is_eof, json_is_cut, json_of_text, parse};
use crate::text::{
    chars_of, find_from, first_occurrence, lemma_first_occurrence, occurs_at, string_of,
};

verus! {

/// How a response body is cut into frames.
#[derive(Clone, Copy, Debug, PartialEq, Eq, Structural)]
pub enum Framing {
    /// Every chunk is one JSON document.
    JsonLines,
    /// Every chunk is a server-sent event: the document stands behind `data:`.
    ServerSentEvents,
}

/// What one pull on a response body gave.
#[derive(Debug)]
pub enum Pulled {
    /// The chunk carried this document.
    Frame(serde_json::Value),
    /// The chunk carried no document; the stream goes on.
    NoFrame,
    /// The body is read to its end.
    EndOfStream,
}

/// What a text is, read as JSON.
#[derive(Debug)]
pub enum Parsed {
    /// The text is this document.
    Document(serde_json::Value),
    /// The text is the beginning of a document, and ends before the document does.
    Incomplete,
    /// The text is no document and no beginning of one.
    Invalid,
}

/// What a text is, read as JSON.
pub open spec fn parsed_of(text: Seq<char>) -> Parsed {
    match json_of_text(text) {
        Some(doc) => Parsed::Document(doc),
        None => if json_is_cut(text) {
            Parsed::Incomplete
        } else {
            Parsed::Invalid
        },
    }
}

/// Reads a text as JSON (see `parsed_of`).
pub fn read_document(text: &str) -> (r: Parsed)
    ensures
        r == parsed_of(text@),
{
    match parse(text) {
        Ok(doc) => Parsed::Document(doc),
        Err(error) => if is_eof(&error) {
            Parsed::Incomplete
        } else {
            Parsed::Invalid
        },
    }
}

/// The text that `String::from_utf8_lossy` reads from bytes.
pub uninterp spec fn utf8_lossy(bytes: Seq<u8>) -> Seq<char>;

/// `String::from_utf8_lossy`: the text that the bytes encode, with a replacement character
/// for what is not UTF-8. Bytes that are UTF-8 give the text they encode, unchanged.
#[verifier::external_body]
pub(crate) fn decode_lossy(bytes: &[u8]) -> (r: String)
    ensures
        r@ == utf8_lossy(bytes@),
        valid_utf8(bytes@) ==> r@ == decode_utf8(bytes@),
{
    String::from_utf8_lossy(bytes).into_owned()
}

/// `core::str::from_utf8`: the text that the bytes encode, where they are UTF-8, and
/// nothing where they are not.
#[verifier::external_body]
pub(crate) fn decode_strict(bytes: &[u8]) -> (r: Option<&str>)
    ensures
        match r {
            Some(s) => valid_utf8(bytes@) && s@ == decode_utf8(bytes@),
            None => !valid_utf8(bytes@),
        },
{
    core::str::from_utf8(bytes).ok()
}

/// The marker behind which a server-sent event carries its data.
pub open spec fn sse_marker() -> Seq<char> {
    seq!['d', 'a', 't', 'a', ':']
}

/// White space, as Unicode defines it.
pub open spec fn is_space(c: char) -> bool {
    let u = c as u32;
    ||| 0x09 <= u <= 0x0D
    ||| u == 0x20
    ||| u == 0x85
    ||| u == 0xA0
    ||| u == 0x1680
    ||| 0x2000 <= u <= 0x200A
    ||| u == 0x2028
    ||| u == 0x2029
    ||| u == 0x202F
    ||| u == 0x205F
    ||| u == 0x3000
}

/// The first position from `i` on that holds no white space (the length, if there is none).
pub open spec fn skip_spaces(s: Seq<char>, i: int) -> int
    decreases s.len() - i,
{
    if 0 <= i < s.len() && is_space(s[i]) {
        skip_spaces(s, i + 1)
    } else {
        i
    }
}

/// The position just behind the last character before `j` that is no white space, looking
/// no further back than `lo`.
pub open spec fn skip_spaces_back(s: Seq<char>, lo: int, j: int) -> int
    decreases j - lo,
{
    if lo < j <= s.len() && is_space(s[j - 1]) {
        skip_spaces_back(s, lo, j - 1)
    } else {
        j
    }
}

/// `s` without the white space at its two ends.
pub open spec fn trimmed(s: Seq<char>) -> Seq<char> {
    let start = skip_spaces(s, 0);
    let end = skip_spaces_back(s, start, s.len() as int);
    s.subrange(start, end)
}

/// What `trimmed` cuts away is white space, and what it leaves neither starts nor ends
/// with white space.
pub proof fn lemma_trimmed(s: Seq<char>)
    ensures
        ({
            let start = skip_spaces(s, 0);
            let end = skip_spaces_back(s, start, s.len() as int);
            &&& 0 <= start <= end <= s.len()
            &&& forall|i: int| 0 <= i < start ==> is_space(s[i])
            &&& forall|i: int| end <= i < s.len() ==> is_space(s[i])
            &&& start < end ==> !is_space(s[start]) && !is_space(s[end - 1])
        }),
{
    lemma_skip_spaces(s, 0);
    let start = skip_spaces(s, 0);
    lemma_skip_spaces_back(s, start, s.len() as int);
}

proof fn lemma_skip_spaces(s: Seq<char>, i: int)
    requires
        0 <= i <= s.len(),
    ensures
        i <= skip_spaces(s, i) <= s.len(),
        forall|k: int| i <= k < skip_spaces(s, i) ==> is_space(s[k]),
        skip_spaces(s, i) < s.len() ==> !is_space(s[skip_spaces(s, i)]),
    decreases s.len() - i,
{
    if i < s.len() && is_space(s[i]) {
        lemma_skip_spaces(s, i + 1);
    }
}

proof fn lemma_skip_spaces_back(s: Seq<char>, lo: int, j: int)
    requires
        0 <= lo <= j <= s.len(),
    ensures
        lo <= skip_spaces_back(s, lo, j) <= j,
        forall|k: int| skip_spaces_back(s, lo, j) <= k < j ==> is_space(s[k]),
        lo < skip_spaces_back(s, lo, j) ==> !is_space(s[skip_spaces_back(s, lo, j) - 1]),
    decreases j - lo,
{
    if lo < j && is_space(s[j - 1]) {
        lemma_skip_spaces_back(s, lo, j - 1);
    }
}

/// The data of a server-sent event: what stands behind the first `data:`, trimmed. An event
/// without the marker has none.
pub open spec fn sse_data(text: Seq<char>) -> Option<Seq<char>> {
    match first_occurrence(text, sse_marker(), 0) {
        None => None,
        Some(at) => Some(trimmed(text.subrange(at + sse_marker().len(), text.len() as int))),
    }
}

/// The text in which a chunk carries its document.
pub open spec fn payload_of(framing: Framing, chunk: Seq<u8>) -> Option<Seq<char>> {
    match framing {
        Framing::JsonLines => Some(utf8_lossy(chunk)),
        Framing::ServerSentEvents => if valid_utf8(chunk) {
            sse_data(decode_utf8(chunk))
        } else {
            None
        },
    }
}

/// The document that a chunk carries.
pub open spec fn frame_of(framing: Framing, chunk: Seq<u8>) -> Option<serde_json::Value> {
    match payload_of(framing, chunk) {
        None => None,
        Some(text) => json_of_text(text),
    }
}

/// An event without the marker carries no frame, and neither do bytes that are no text; a
/// line that is no JSON document carries none.
pub proof fn lemma_no_marker_no_frame(chunk: Seq<u8>)
    ensures
        !valid_utf8(chunk) ==> frame_of(Framing::ServerSentEvents, chunk) is None,
        valid_utf8(chunk) && first_occurrence(decode_utf8(chunk), sse_marker(), 0) is None
            ==> frame_of(Framing::ServerSentEvents, chunk) is None,
        json_of_text(utf8_lossy(chunk)) is None ==> frame_of(Framing::JsonLines, chunk) is None,
{
}

/// Whether `c` is white space.
pub fn is_whitespace(c: char) -> (b: bool)
    ensures
        b == is_space(c),
{
    let u: u32 = c as u32;
    (0x09 <= u && u <= 0x0D) || u == 0x20 || u == 0x85 || u == 0xA0 || u == 0x1680 || (0x2000
        <= u && u <= 0x200A) || u == 0x2028 || u == 0x2029 || u == 0x202F || u == 0x205F || u
        == 0x3000
}

/// The data of a server-sent event (see `sse_data`).
pub fn event_data(text: &str) -> (r: Option<String>)
    ensures
        match r {
            Some(data) => sse_data(text@) == Some(data@),
            None => sse_data(text@) is None,
        },
{
    let chars = chars_of(text);
    let mut marker: Vec<char> = Vec::new();
    marker.push('d');
    marker.push('a');
    marker.push('t');
    marker.push('a');
    marker.push(':');
    assert(marker@ == sse_marker());
    let at = match find_from(&chars, &marker, 0) {
        Some(at) => at,
        None => { return None; },
    };
    proof {
        lemma_first_occurrence(chars@, marker@, 0);
        assert(occurs_at(chars@, marker@, at as int));
        assert(at + marker.len() <= chars.len());
    }
    let from: usize = at + marker.len();
    let ghost rest = chars@.subrange(from as int, chars@.len() as int);
    let mut start: usize = from;
    while start < chars.len() && is_whitespace(chars[start])
        invariant
            from <= start <= chars.len(),
            rest == chars@.subrange(from as int, chars@.len() as int),
            skip_spaces(rest, 0) == skip_spaces(rest, start - from),
        decreases chars.len() - start,
    {
        assert(rest[start - from] == chars@[start as int]);
        start += 1;
    }
    assert(skip_spaces(rest, 0) == start - from) by {
        if start < chars.len() {
            assert(rest[start - from] == chars@[start as int]);
        }
    }
    let mut end: usize = chars.len();
    while start < end && is_whitespace(chars[end - 1])
        invariant
            from <= start <= end <= chars.len(),
            rest == chars@.subrange(from as int, chars@.len() as int),
            skip_spaces_back(rest, start - from, rest.len() as int) == skip_spaces_back(
                rest,
                start - from,
                end - from,
            ),
        decreases end - start,
    {
        assert(rest[end - 1 - from] == chars@[end - 1]);
        end -= 1;
    }
    assert(skip_spaces_back(rest, start - from, rest.len() as int) == end - from) by {
        if start < end {
            assert(rest[end - 1 - from] == chars@[end - 1]);
        }
    }
    assert(trimmed(rest) == chars@.subrange(start as int, end as int));
    Some(string_of(&chars, start, end))
}

/// The text in which a chunk carries its document (see `payload_of`).
pub fn payload(framing: Framing, chunk: &[u8]) -> (r: Option<String>)
    ensures
        match r {
            Some(text) => payload_of(framing, chunk@) == Some(text@),
            None => payload_of(framing, chunk@) is None,
        },
{
    match framing {
        Framing::JsonLines => Some(decode_lossy(chunk)),
        Framing::ServerSentEvents => match decode_strict(chunk) {
            Some(text) => event_data(text),
            None => None,
        },
    }
}

/// The document that a chunk carries, or `None` where it carries none: a chunk that is no
/// JSON document, or an event without the marker, is passed over and is no failure.
pub fn read_frame(framing: Framing, chunk: &[u8]) -> (r: Option<serde_json::Value>)
    ensures
        r == frame_of(framing, chunk@),
{
    match payload(framing, chunk) {
        Some(text) => match read_document(text.as_str()) {
            Parsed::Document(doc) => Some(doc),
            _ => None,
        },
        None => None,
    }
}

/// What a reader holds.
pub struct FrameReaderView {
    /// How the body is cut into frames.
    pub framing: Framing,
    /// The bytes that came and gave no frame yet.
    pub pending: Seq<u8>,
}

/// A frame reader for one response body. It is handed the chunks of the body as they come.
///
/// A line-delimited body may be cut in the middle of a document: the reader keeps the bytes
/// that gave no frame, and reads them again together with the chunk that follows.
#[derive(Debug)]
pub struct FrameReader {
    framing: Framing,
    pending: Vec<u8>,
}

impl View for FrameReader {
    type V = FrameReaderView;

    closed spec fn view(&self) -> FrameReaderView {
        FrameReaderView { framing: self.framing, pending: self.pending@ }
    }
}

/// What a line is, read as JSON.
pub open spec fn line_of(bytes: Seq<u8>) -> Parsed {
    parsed_of(utf8_lossy(bytes))
}

/// What a chunk gives to a reader that holds `pending`: the frame, if any, and the bytes
/// that the reader holds afterwards.
///
/// An event gives the frame it carries, and nothing is ever held back.
///
/// A line is read together with the bytes held back. Where the two make a document, it is
/// the frame, and nothing is held back. Where they make the beginning of a document, they
/// are held back. Where they make neither, what was held back is dropped and the line is
/// read by itself: it is the frame, or it is held back as the beginning of a document, or
/// it is dropped.
pub open spec fn pulled(framing: Framing, pending: Seq<u8>, chunk: Seq<u8>) -> (
    Option<serde_json::Value>,
    Seq<u8>,
) {
    match framing {
        Framing::ServerSentEvents => (frame_of(framing, chunk), pending),
        Framing::JsonLines => match line_of(pending + chunk) {
            Parsed::Document(doc) => (Some(doc), Seq::empty()),
            Parsed::Incomplete => (None, pending + chunk),
            Parsed::Invalid => if pending.len() == 0 {
                (None, Seq::empty())
            } else {
                match line_of(chunk) {
                    Parsed::Document(doc) => (Some(doc), Seq::empty()),
                    Parsed::Incomplete => (None, chunk),
                    Parsed::Invalid => (None, Seq::empty()),
                }
            },
        },
    }
}

/// A reader that holds nothing gives the frame that the chunk carries by itself. A reader
/// holds no bytes after it gave a frame of a line, and holds bytes only where they are the
/// beginning of a document.
pub proof fn lemma_pulled(framing: Framing, pending: Seq<u8>, chunk: Seq<u8>)
    ensures
        pending.len() == 0 ==> pulled(framing, pending, chunk).0 == frame_of(framing, chunk),
        framing == Framing::JsonLines && pulled(framing, pending, chunk).0 is Some ==> pulled(
            framing,
            pending,
            chunk,
        ).1.len() == 0,
        framing == Framing::JsonLines && pulled(framing, pending, chunk).1.len() > 0 ==> line_of(
            pulled(framing, pending, chunk).1,
        ) is Incomplete,
        framing == Framing::ServerSentEvents ==> pulled(framing, pending, chunk) == (
            frame_of(framing, chunk),
            pending,
        ),
{
    assert(Seq::<u8>::empty() + chunk =~= chunk);
}

/// Takes a chunk of a line-delimited body, with the bytes held back so far, and gives the
/// frame that the chunk completes, if any (see `pulled`). The bytes held back afterwards
/// stand in `pending`.
pub fn pull_line(pending: &mut Vec<u8>, chunk: &[u8]) -> (r: Option<serde_json::Value>)
    ensures
        (r, final(pending)@) == pulled(Framing::JsonLines, old(pending)@, chunk@),
{
    let mut joined: Vec<u8> = Vec::new();
    core::mem::swap(&mut joined, pending);
    let held = joined.len();
    for i in 0..chunk.len()
        invariant
            joined@ == old(pending)@ + chunk@.take(i as int),
    {
        joined.push(chunk[i]);
        assert(chunk@.take(i + 1) =~= chunk@.take(i as int).push(chunk@[i as int]));
        assert(joined@ =~= old(pending)@ + chunk@.take(i + 1));
    }
    assert(chunk@.take(chunk@.len() as int) =~= chunk@);
    assert(pending@ =~= Seq::<u8>::empty());
    match read_document(decode_lossy(joined.as_slice()).as_str()) {
        Parsed::Document(doc) => Some(doc),
        Parsed::Incomplete => {
            *pending = joined;
            None
        },
        Parsed::Invalid => {
            if held == 0 {
                return None;
            }
            match read_document(decode_lossy(chunk).as_str()) {
                Parsed::Document(doc) => Some(doc),
                Parsed::Incomplete => {
                    let mut kept: Vec<u8> = Vec::new();
                    for i in 0..chunk.len()
                        invariant
                            kept@ == chunk@.take(i as int),
                    {
                        kept.push(chunk[i]);
                        assert(chunk@.take(i + 1) =~= chunk@.take(i as int).push(chunk@[i as int]));
                    }
                    assert(chunk@.take(chunk@.len() as int) =~= chunk@);
                    *pending = kept;
                    None
                },
                Parsed::Invalid => None,
            }
        },
    }
}

impl FrameReader {
    /// A reader at the start of a body: it holds no bytes.
    pub fn new(framing: Framing) -> (r: Self)
        ensures
            r@ == (FrameReaderView { framing, pending: Seq::empty() }),
    {
        FrameReader { framing, pending: Vec::new() }
    }

    /// How the body is cut into frames.
    pub fn framing(&self) -> (r: Framing)
        ensures
            r == self@.framing,
    {
        self.framing
    }

    /// The bytes that came and gave no frame yet.
    pub fn pending(&self) -> (r: &[u8])
        ensures
            r@ == self@.pending,
    {
        self.pending.as_slice()
    }

    /// Takes a chunk of the body and gives the frame that it completes, if any (see
    /// `pulled`). A chunk that completes none is no failure.
    pub fn pull(&mut self, chunk: &[u8]) -> (r: Option<serde_json::Value>)
        ensures
            (r, final(self)@.pending) == pulled(old(self)@.framing, old(self)@.pending, chunk@),
            final(self)@.framing == old(self)@.framing,
    {
        match self.framing {
            Framing::ServerSentEvents => read_frame(Framing::ServerSentEvents, chunk),
            Framing::JsonLines => pull_line(&mut self.pending, chunk),
        }
    }

    /// What one pull on the response body gives: the end of the stream where the transport
    /// has no more bytes (`chunk` is `None`), else the frame that the chunk completes, or
    /// the news that it completes none.
    pub fn next(&mut self, chunk: Option<&[u8]>) -> (r: Pulled)
        ensures
            final(self)@.framing == old(self)@.framing,
            match chunk {
                None => r is EndOfStream && final(self)@ == old(self)@,
                Some(bytes) => {
                    let (frame, pending) = pulled(old(self)@.framing, old(self)@.pending, bytes@);
                    &&& final(self)@.pending == pending
                    &&& match frame {
                        Some(doc) => r == Pulled::Frame(doc),
                        None => r is NoFrame,
                    }
                },
            },
    {
        match chunk {
            None => Pulled::EndOfStream,
            Some(bytes) => match self.pull(bytes) {
                Some(doc) => Pulled::Frame(doc),
                None => Pulled::NoFrame,
            },
        }
    }
}

} // verus!
