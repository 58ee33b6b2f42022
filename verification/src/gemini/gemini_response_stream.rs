//! The responses of one stream of server-sent events, kept as they are read.

use vstd::prelude::*;
use vstd::string::StringExecFns;
use crate::frame::{frame_of, read_frame, Framing};
use crate::gemini::gemini_response::{
    first_text, gemini_response_of, GeminiResponse, GeminiResponseView,
};

verus! {

/// The views of responses, in order.
pub open spec fn gemini_response_views(responses: Seq<GeminiResponse>) -> Seq<GeminiResponseView> {
    responses.map_values(|r: GeminiResponse| r@)
}

/// The responses of one stream. Each chunk of the body is handed to `read`; the stream keeps
/// every response it reads.
#[derive(Debug)]
pub struct GeminiResponseStream {
    responses: Vec<GeminiResponse>,
}

impl View for GeminiResponseStream {
    type V = Seq<GeminiResponseView>;

    closed spec fn view(&self) -> Seq<GeminiResponseView> {
        gemini_response_views(self.responses@)
    }
}

/// The response that an event carries: the document behind its marker, read as a response.
/// An event without the marker, or with something else behind it, carries none.
pub open spec fn event_response(chunk: Seq<u8>) -> Option<GeminiResponseView> {
    match frame_of(Framing::ServerSentEvents, chunk) {
        None => None,
        Some(doc) => match gemini_response_of(doc) {
            Ok(response) => Some(response),
            Err(_) => None,
        },
    }
}

/// The texts of the responses, one after the other; a response without text adds nothing.
pub open spec fn stream_text(responses: Seq<GeminiResponseView>) -> Seq<char>
    decreases responses.len(),
{
    if responses.len() == 0 {
        Seq::empty()
    } else {
        stream_text(responses.drop_last()) + (match first_text(responses.last()) {
            Some(text) => text,
            None => Seq::empty(),
        })
    }
}

/// The text of a stream only grows: what the first `n` responses give stands at the start
/// of what all of them give.
pub proof fn lemma_stream_text_monotonic(responses: Seq<GeminiResponseView>, n: int)
    requires
        0 <= n <= responses.len(),
    ensures
        stream_text(responses.take(n)).is_prefix_of(stream_text(responses)),
    decreases responses.len(),
{
    if n == responses.len() {
        assert(responses.take(n) =~= responses);
    } else {
        let shorter = responses.drop_last();
        assert(shorter.take(n) =~= responses.take(n));
        lemma_stream_text_monotonic(shorter, n);
        let a = stream_text(responses.take(n));
        let b = stream_text(shorter);
        let c = stream_text(responses);
        assert(c.subrange(0, a.len() as int) =~= a) by {
            assert(b.subrange(0, a.len() as int) =~= a);
            assert(c.subrange(0, b.len() as int) =~= b);
        }
    }
}

impl GeminiResponseStream {
    /// A stream of which nothing has been read.
    pub fn new() -> (r: Self)
        ensures
            r@ == Seq::<GeminiResponseView>::empty(),
    {
        let r = GeminiResponseStream { responses: Vec::new() };
        assert(r@ =~= Seq::<GeminiResponseView>::empty());
        r
    }

    /// Reads the response that an event carries, keeps it, and hands it out. An event that
    /// carries none leaves the stream as it is: this is no failure, and the stream goes on.
    pub fn read(&mut self, chunk: &[u8]) -> (r: Option<GeminiResponse>)
        ensures
            match r {
                Some(response) => event_response(chunk@) == Some(response@) && final(self)@
                    == old(self)@.push(response@),
                None => event_response(chunk@) is None && final(self)@ == old(self)@,
            },
    {
        let doc = match read_frame(Framing::ServerSentEvents, chunk) {
            Some(doc) => doc,
            None => { return None; },
        };
        let response = match GeminiResponse::from_json(&doc) {
            Ok(response) => response,
            Err(_) => { return None; },
        };
        self.responses.push(response.clone());
        assert(self@ =~= old(self)@.push(response@));
        Some(response)
    }

    /// The responses read so far, in the order of their arrival.
    pub fn responses(&self) -> (r: &Vec<GeminiResponse>)
        ensures
            gemini_response_views(r@) == self@,
    {
        &self.responses
    }

    /// The texts of all the responses read so far, one after the other.
    pub fn text(&self) -> (r: String)
        ensures
            r@ == stream_text(self@),
    {
        let mut text = String::new();
        for i in 0..self.responses.len()
            invariant
                text@ == stream_text(self@.take(i as int)),
        {
            assert(self@.take(i + 1).drop_last() =~= self@.take(i as int));
            assert(self@.take(i + 1).last() == self.responses@[i as int]@);
            if let Some(fragment) = self.responses[i].text() {
                text = text.concat(fragment);
            }
        }
        assert(self@.take(self.responses.len() as int) =~= self@);
        text
    }
}

} // verus!
