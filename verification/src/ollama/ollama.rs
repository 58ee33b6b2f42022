//! The client of an Ollama server, as far as it decides and computes: the addresses of the
//! endpoints, and the assembly of one response from the partial messages of a stream.

use vstd::prelude::*;
use vstd::string::StringExecFns;
use crate::frame::{frame_of, read_frame, Framing};
use crate::ollama::ollama_message::OllamaMessageView;
use crate::ollama::ollama_response::{
    empty_response, response_of, text_of, OllamaResponse2, OllamaResponse2View,
};
use crate::ollama::tool::{OllamaToolCallView, OllamaToolCalls};

verus! {

/// The address of a server on this machine that listens on the usual port.
pub open spec fn default_server() -> Seq<char> {
    "127.0.0.1:11434"@
}

/// The address of an endpoint of a server.
pub open spec fn endpoint_of(server: Seq<char>, path: Seq<char>) -> Seq<char> {
    "http://"@ + server + path
}

/// The client of an Ollama server: it knows where the server is.
#[derive(Debug)]
pub struct Ollama {
    server_addr: String,
}

impl View for Ollama {
    type V = Seq<char>;

    closed spec fn view(&self) -> Seq<char> {
        self.server_addr@
    }
}

impl Default for Ollama {
    /// The client of the server on this machine.
    fn default() -> (r: Self)
        ensures
            r@ == default_server(),
    {
        Ollama { server_addr: "127.0.0.1:11434".to_owned() }
    }
}

impl Clone for Ollama {
    fn clone(&self) -> (r: Self)
        ensures
            r@ == self@,
    {
        Ollama { server_addr: self.server_addr.clone() }
    }
}

impl Ollama {
    /// The client of the server at the given address, written as host and port
    /// (`127.0.0.1:11434`). The address is taken as it is written.
    pub fn new(server_addr_str: &str) -> (r: Self)
        ensures
            r@ == server_addr_str@,
    {
        Ollama { server_addr: server_addr_str.to_owned() }
    }

    /// The address of the server.
    pub fn server_addr(&self) -> (r: &str)
        ensures
            r@ == self@,
    {
        self.server_addr.as_str()
    }

    /// The address of the endpoint that completes a prompt.
    pub fn generate_url(&self) -> (url: String)
        ensures
            url@ == endpoint_of(self@, "/api/generate"@),
    {
        String::from_str("http://").concat(self.server_addr.as_str()).concat("/api/generate")
    }

    /// The address of the endpoint that continues a conversation.
    pub fn chat_url(&self) -> (url: String)
        ensures
            url@ == endpoint_of(self@, "/api/chat"@),
    {
        String::from_str("http://").concat(self.server_addr.as_str()).concat("/api/chat")
    }
}

/// What a message under assembly holds.
pub struct AssembledMessageView {
    /// The partial message that came last: its counts and durations stand for the whole.
    pub latest: Option<OllamaResponse2View>,
    /// The fragments of text that came so far, one after the other.
    pub text: Seq<char>,
    /// The tool calls that came so far, in the order of their arrival.
    pub tool_calls: Seq<OllamaToolCallView>,
}

/// One response under assembly: the partial messages of a stream are merged into it, one
/// after the other, and at the end it gives the whole response.
#[derive(Debug)]
pub struct AssembledMessage {
    latest: Option<OllamaResponse2>,
    text: String,
    tool_calls: OllamaToolCalls,
}

impl View for AssembledMessage {
    type V = AssembledMessageView;

    closed spec fn view(&self) -> AssembledMessageView {
        AssembledMessageView {
            latest: match self.latest {
                Some(r) => Some(r@),
                None => None,
            },
            text: self.text@,
            tool_calls: self.tool_calls@,
        }
    }
}

/// The assembly into which nothing has been merged.
pub open spec fn empty_assembly() -> AssembledMessageView {
    AssembledMessageView { latest: None, text: Seq::empty(), tool_calls: Seq::empty() }
}

/// The fragment of text that a partial message carries: empty where it carries none.
pub open spec fn fragment_of(partial: OllamaResponse2View) -> Seq<char> {
    match text_of(partial) {
        Some(text) => text,
        None => Seq::empty(),
    }
}

/// The tool calls that a partial message carries.
pub open spec fn calls_of(partial: OllamaResponse2View) -> Seq<OllamaToolCallView> {
    match partial.message {
        Some(message) => match message.tool_calls {
            Some(calls) => calls,
            None => Seq::empty(),
        },
        None => Seq::empty(),
    }
}

/// The assembly after one more partial message: its fragment is appended to the text, its
/// tool calls are appended to the calls, and the partial message itself is kept as the
/// latest.
pub open spec fn accumulate(
    prior: AssembledMessageView,
    partial: OllamaResponse2View,
) -> AssembledMessageView {
    AssembledMessageView {
        latest: Some(partial),
        text: prior.text + fragment_of(partial),
        tool_calls: prior.tool_calls + calls_of(partial),
    }
}

/// The assembly of a sequence of partial messages, merged in their order.
pub open spec fn assemble(partials: Seq<OllamaResponse2View>) -> AssembledMessageView
    decreases partials.len(),
{
    if partials.len() == 0 {
        empty_assembly()
    } else {
        accumulate(assemble(partials.drop_last()), partials.last())
    }
}

/// Whether the terminal partial message has been merged.
pub open spec fn is_finished(assembly: AssembledMessageView) -> bool {
    assembly.latest matches Some(latest) && latest.done == Some(true)
}

/// The message of a response with the assembled content and tool calls in place of its own.
pub open spec fn assembled_message(
    message: OllamaMessageView,
    assembly: AssembledMessageView,
) -> OllamaMessageView {
    OllamaMessageView {
        content: Some(assembly.text),
        tool_calls: if assembly.tool_calls.len() > 0 {
            Some(assembly.tool_calls)
        } else {
            message.tool_calls
        },
        ..message
    }
}

/// The whole response that an assembly gives.
///
/// Of a streamed response it is the latest partial message with the assembled text in place
/// of its last fragment: in the message where it has one, else in the `response` field; a
/// stream that gave no partial message gives the empty text. Of a response that was not
/// streamed it is the latest message as it came: its own text is the full text, and stands.
pub open spec fn finished(assembly: AssembledMessageView, streaming: bool) -> OllamaResponse2View {
    match assembly.latest {
        None => if streaming {
            OllamaResponse2View { response: Some(assembly.text), ..empty_response() }
        } else {
            empty_response()
        },
        Some(latest) => if !streaming {
            latest
        } else {
            match latest.message {
                Some(message) => OllamaResponse2View {
                    message: Some(assembled_message(message, assembly)),
                    ..latest
                },
                None => OllamaResponse2View { response: Some(assembly.text), ..latest },
            }
        },
    }
}

/// The partial message that a frame decodes to: the frame read as a response, and none
/// where the frame is no response.
pub open spec fn partial_in(frame: serde_json::Value) -> Option<OllamaResponse2View> {
    match response_of(frame) {
        Ok(partial) => Some(partial),
        Err(_) => None,
    }
}

/// The partial message that a chunk of a line-delimited body carries by itself. A chunk that
/// is no document, or no response, carries none.
pub open spec fn partial_of(chunk: Seq<u8>) -> Option<OllamaResponse2View> {
    match frame_of(Framing::JsonLines, chunk) {
        None => None,
        Some(doc) => partial_in(doc),
    }
}

/// Merging a partial message never takes text away: the text assembled before stands at
/// the start of the text assembled after, which is at least as long.
pub proof fn lemma_accumulate_extends(prior: AssembledMessageView, partial: OllamaResponse2View)
    ensures
        prior.text.is_prefix_of(accumulate(prior, partial).text),
        prior.text.len() <= accumulate(prior, partial).text.len(),
        prior.tool_calls.is_prefix_of(accumulate(prior, partial).tool_calls),
{
    let after = accumulate(prior, partial);
    assert(after.text.subrange(0, prior.text.len() as int) =~= prior.text);
    assert(after.tool_calls.subrange(0, prior.tool_calls.len() as int) =~= prior.tool_calls);
}

/// Over a whole sequence of partial messages the assembled text only grows: what the first
/// `n` of them give stands at the start of what all of them give.
pub proof fn lemma_assemble_monotonic(partials: Seq<OllamaResponse2View>, n: int)
    requires
        0 <= n <= partials.len(),
    ensures
        assemble(partials.take(n)).text.is_prefix_of(assemble(partials).text),
        assemble(partials.take(n)).text.len() <= assemble(partials).text.len(),
    decreases partials.len(),
{
    if n == partials.len() {
        assert(partials.take(n) =~= partials);
    } else {
        let shorter = partials.drop_last();
        assert(shorter.take(n) =~= partials.take(n));
        lemma_assemble_monotonic(shorter, n);
        lemma_accumulate_extends(assemble(shorter), partials.last());
        let a = assemble(partials.take(n)).text;
        let b = assemble(shorter).text;
        let c = assemble(partials).text;
        assert(c.subrange(0, a.len() as int) =~= a) by {
            assert(b.subrange(0, a.len() as int) =~= a);
            assert(c.subrange(0, b.len() as int) =~= b);
        }
    }
}

/// The text of the whole response. A streamed response has the assembled text. A response
/// that was not streamed has the text of its latest message, whatever was assembled: this
/// is the one place where text that was assembled can give way.
pub proof fn lemma_finished_text(assembly: AssembledMessageView)
    ensures
        text_of(finished(assembly, true)) == Some(assembly.text),
        text_of(finished(assembly, false)) == match assembly.latest {
            Some(latest) => text_of(latest),
            None => None,
        },
{
}

impl AssembledMessage {
    /// The assembly into which nothing has been merged: its text is empty.
    pub fn new() -> (r: Self)
        ensures
            r@ == empty_assembly(),
    {
        AssembledMessage { latest: None, text: String::new(), tool_calls: OllamaToolCalls::new() }
    }

    /// The text assembled so far.
    pub fn text(&self) -> (r: &str)
        ensures
            r@ == self@.text,
    {
        self.text.as_str()
    }

    /// The tool calls assembled so far.
    pub fn tool_calls(&self) -> (r: &OllamaToolCalls)
        ensures
            r@ == self@.tool_calls,
    {
        &self.tool_calls
    }

    /// The partial message that was merged last.
    pub fn latest(&self) -> (r: Option<&OllamaResponse2>)
        ensures
            match r {
                Some(latest) => self@.latest == Some(latest@),
                None => self@.latest is None,
            },
    {
        self.latest.as_ref()
    }

    /// Whether the terminal partial message has been merged.
    pub fn is_finished(&self) -> (b: bool)
        ensures
            b == is_finished(self@),
    {
        match &self.latest {
            Some(latest) => match latest.done() {
                Some(done) => *done,
                None => false,
            },
            None => false,
        }
    }

    /// Merges one more partial message into the assembly (see `accumulate`). The text that
    /// was assembled before stays, and the fragment stands behind it.
    pub fn accumulate(self, partial: OllamaResponse2) -> (r: Self)
        ensures
            r@ == accumulate(self@, partial@),
    {
        let mut assembly = self;
        if let Some(text) = partial.text() {
            assembly.text = assembly.text.concat(text);
        }
        assert(assembly.text@ =~= self@.text + fragment_of(partial@));
        if let Some(message) = partial.message() {
            if let Some(calls) = message.tool_calls() {
                assembly.tool_calls.extend(calls);
            }
        }
        assert(assembly.tool_calls@ =~= self@.tool_calls + calls_of(partial@));
        assembly.latest = Some(partial);
        assembly
    }

    /// Reads the partial message that a frame decodes to (see `partial_in`).
    pub fn decode_frame(frame: &serde_json::Value) -> (r: Option<OllamaResponse2>)
        ensures
            match r {
                Some(partial) => partial_in(*frame) == Some(partial@),
                None => partial_in(*frame) is None,
            },
    {
        match OllamaResponse2::from_json(frame) {
            Ok(partial) => Some(partial),
            Err(_) => None,
        }
    }

    /// Reads the partial message that a chunk carries by itself (see `partial_of`).
    pub fn decode(chunk: &[u8]) -> (r: Option<OllamaResponse2>)
        ensures
            match r {
                Some(partial) => partial_of(chunk@) == Some(partial@),
                None => partial_of(chunk@) is None,
            },
    {
        match read_frame(Framing::JsonLines, chunk) {
            None => None,
            Some(doc) => Self::decode_frame(&doc),
        }
    }

    /// The whole response (see `finished`).
    pub fn finish(self, streaming: bool) -> (r: OllamaResponse2)
        ensures
            r@ == finished(self@, streaming),
            streaming ==> text_of(r@) == Some(self@.text),
    {
        let AssembledMessage { latest, text, tool_calls } = self;
        match latest {
            None => {
                let mut response = OllamaResponse2::new();
                if streaming {
                    response.set_response(text.as_str());
                }
                response
            },
            Some(latest) => {
                if !streaming {
                    return latest;
                }
                let mut response = latest;
                let assembled = match response.message() {
                    Some(message) => {
                        let mut message = message.clone();
                        message.set_content(text.as_str());
                        if !tool_calls.is_empty() {
                            message.set_tool_calls(tool_calls);
                        }
                        Some(message)
                    },
                    None => None,
                };
                match assembled {
                    Some(message) => {
                        response.set_message(message);
                    },
                    None => {
                        response.set_response(text.as_str());
                    },
                }
                response
            },
        }
    }
}

} // verus!
