//! The responses of one stream, kept as they are read.

use vstd::prelude::*;
use vstd::string::StringExecFns;
use crate::frame::{pull_line, pulled, Framing};
use crate::ollama::ollama::{partial_in, AssembledMessage};
use crate::ollama::ollama_message::{empty_message, OllamaMessage, OllamaMessageView};
use crate::ollama::ollama_response::{empty_response, OllamaResponse2, OllamaResponse2View};

verus! {

/// What a stream of responses holds.
pub struct OllamaResponseStreamView {
    /// The response read last, where the responses are not saved.
    pub latest: Option<OllamaResponse2View>,
    /// The responses read so far, where they are saved.
    pub saved: Seq<OllamaResponse2View>,
    /// Whether the responses are saved.
    pub save_responses: bool,
    /// The bytes that came and gave no frame yet.
    pub pending: Seq<u8>,
}

/// The responses of one stream. Each chunk of the body is handed to `read`; the stream
/// keeps the response read last, or all of them where it is told to save them.
#[derive(Debug)]
pub struct OllamaResponseStream {
    pending: Vec<u8>,
    llm_response: Option<OllamaResponse2>,
    llm_responses: Vec<OllamaResponse2>,
    save_responses: bool,
}

/// The views of responses, in order.
pub open spec fn response_views(responses: Seq<OllamaResponse2>) -> Seq<OllamaResponse2View> {
    responses.map_values(|r: OllamaResponse2| r@)
}

impl View for OllamaResponseStream {
    type V = OllamaResponseStreamView;

    closed spec fn view(&self) -> OllamaResponseStreamView {
        OllamaResponseStreamView {
            latest: match self.llm_response {
                Some(r) => Some(r@),
                None => None,
            },
            saved: response_views(self.llm_responses@),
            save_responses: self.save_responses,
            pending: self.pending@,
        }
    }
}

/// The content of the message of a response; empty where it has none.
pub open spec fn content_of(response: OllamaResponse2View) -> Seq<char> {
    match response.message {
        Some(message) => match message.content {
            Some(content) => content,
            None => Seq::empty(),
        },
        None => Seq::empty(),
    }
}

/// The `response` field of a response; empty where it has none.
pub open spec fn response_text_of(response: OllamaResponse2View) -> Seq<char> {
    match response.response {
        Some(text) => text,
        None => Seq::empty(),
    }
}

/// The contents of the messages of the responses, one after the other.
pub open spec fn contents_of(responses: Seq<OllamaResponse2View>) -> Seq<char>
    decreases responses.len(),
{
    if responses.len() == 0 {
        Seq::empty()
    } else {
        contents_of(responses.drop_last()) + content_of(responses.last())
    }
}

/// The `response` fields of the responses, one after the other.
pub open spec fn response_texts_of(responses: Seq<OllamaResponse2View>) -> Seq<char>
    decreases responses.len(),
{
    if responses.len() == 0 {
        Seq::empty()
    } else {
        response_texts_of(responses.drop_last()) + response_text_of(responses.last())
    }
}

/// A response with the given content in its message; a response without a message gets one.
pub open spec fn with_content(response: OllamaResponse2View, content: Seq<char>) -> OllamaResponse2View {
    OllamaResponse2View {
        message: Some(
            OllamaMessageView {
                content: Some(content),
                ..match response.message {
                    Some(message) => message,
                    None => empty_message(),
                }
            },
        ),
        ..response
    }
}

/// The saved responses merged into one: the last of them, with the contents of all in its
/// message and the `response` fields of all in its `response` field, each only where it is
/// not empty. No saved response gives the empty response.
pub open spec fn merged(saved: Seq<OllamaResponse2View>) -> OllamaResponse2View {
    if saved.len() == 0 {
        empty_response()
    } else {
        let content = contents_of(saved);
        let text = response_texts_of(saved);
        let first = if content.len() > 0 {
            with_content(saved.last(), content)
        } else {
            saved.last()
        };
        if text.len() > 0 {
            OllamaResponse2View { response: Some(text), ..first }
        } else {
            first
        }
    }
}

/// The response that a stream stands for.
pub open spec fn stream_response(stream: OllamaResponseStreamView) -> OllamaResponse2View {
    if stream.save_responses {
        merged(stream.saved)
    } else {
        match stream.latest {
            Some(latest) => latest,
            None => empty_response(),
        }
    }
}

/// The response that a chunk completes for a stream: the frame that the chunk gives to the
/// reader, decoded.
pub open spec fn read_of(stream: OllamaResponseStreamView, chunk: Seq<u8>) -> Option<
    OllamaResponse2View,
> {
    match pulled(Framing::JsonLines, stream.pending, chunk).0 {
        Some(frame) => partial_in(frame),
        None => None,
    }
}

/// The stream after a chunk has been taken: it holds what the reader holds, and the response
/// that the chunk completed, if any.
pub open spec fn after_chunk(stream: OllamaResponseStreamView, chunk: Seq<u8>) -> OllamaResponseStreamView {
    let taken = OllamaResponseStreamView {
        pending: pulled(Framing::JsonLines, stream.pending, chunk).1,
        ..stream
    };
    match read_of(stream, chunk) {
        Some(response) => after_read(taken, response),
        None => taken,
    }
}

/// The stream after a response has been read.
pub open spec fn after_read(
    stream: OllamaResponseStreamView,
    response: OllamaResponse2View,
) -> OllamaResponseStreamView {
    if stream.save_responses {
        OllamaResponseStreamView { saved: stream.saved.push(response), ..stream }
    } else {
        OllamaResponseStreamView { latest: Some(response), ..stream }
    }
}

impl OllamaResponseStream {
    /// A stream of which nothing has been read; the responses are not saved.
    pub fn new() -> (r: Self)
        ensures
            r@ == (OllamaResponseStreamView {
                latest: None,
                saved: Seq::empty(),
                save_responses: false,
                pending: Seq::empty(),
            }),
    {
        let r = OllamaResponseStream {
            pending: Vec::new(),
            llm_response: None,
            llm_responses: Vec::new(),
            save_responses: false,
        };
        assert(r@.saved =~= Seq::empty());
        r
    }

    /// Says whether the responses read from now on are saved.
    pub fn save_responses(&mut self, flag: bool)
        ensures
            final(self)@ == (OllamaResponseStreamView { save_responses: flag, ..old(self)@ }),
    {
        self.save_responses = flag;
    }

    /// Takes a chunk of the body, and hands out the response that it completes, which the
    /// stream keeps. A chunk that completes none is no failure: the stream goes on.
    pub fn read(&mut self, chunk: &[u8]) -> (r: Option<OllamaResponse2>)
        ensures
            final(self)@ == after_chunk(old(self)@, chunk@),
            match r {
                Some(response) => read_of(old(self)@, chunk@) == Some(response@),
                None => read_of(old(self)@, chunk@) is None,
            },
    {
        let frame = match pull_line(&mut self.pending, chunk) {
            Some(frame) => frame,
            None => { return None; },
        };
        let response = match AssembledMessage::decode_frame(&frame) {
            Some(response) => response,
            None => { return None; },
        };
        if self.save_responses {
            self.llm_responses.push(response.clone());
            assert(self@.saved =~= old(self)@.saved.push(response@));
        } else {
            self.llm_response = Some(response.clone());
        }
        Some(response)
    }

    /// The response that the stream stands for (see `stream_response`).
    pub fn response(&self) -> (r: OllamaResponse2)
        ensures
            r@ == stream_response(self@),
    {
        if !self.save_responses {
            return match &self.llm_response {
                Some(latest) => latest.clone(),
                None => OllamaResponse2::new(),
            };
        }
        let n = self.llm_responses.len();
        if n == 0 {
            return OllamaResponse2::new();
        }
        let mut content = String::new();
        let mut text = String::new();
        for i in 0..n
            invariant
                n == self.llm_responses.len(),
                content@ == contents_of(self@.saved.take(i as int)),
                text@ == response_texts_of(self@.saved.take(i as int)),
        {
            let response = &self.llm_responses[i];
            assert(self@.saved.take(i + 1).drop_last() =~= self@.saved.take(i as int));
            assert(self@.saved.take(i + 1).last() == response@);
            if let Some(message) = response.message() {
                if let Some(c) = message.content() {
                    content = content.concat(c);
                }
            }
            if let Some(t) = response.response() {
                text = text.concat(t);
            }
        }
        assert(self@.saved.take(n as int) =~= self@.saved);
        let mut response = self.llm_responses[n - 1].clone();
        assert(response@ == self@.saved.last());
        if !content.as_str().is_empty() {
            let mut message = match response.message() {
                Some(message) => message.clone(),
                None => OllamaMessage::new(),
            };
            message.set_content(content.as_str());
            response.set_message(message);
        }
        if !text.as_str().is_empty() {
            response.set_response(text.as_str());
        }
        response
    }
}

} // verus!
