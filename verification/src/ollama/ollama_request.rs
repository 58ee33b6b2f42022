//! A request to the model, and with it the transcript of the conversation: the messages
//! exchanged so far, in their order.

use vstd::prelude::*;
use crate::decode::{bool_field, field, read_bool, read_field, read_text, text_field, DecodeError};
use crate::encode::{holds_bool, holds_text, put_optional_bool, put_optional_text};
use crate::json::{
    array_of, empty_object, insert_member, is_object, items, json_is_null, json_is_object,
    json_items, json_member, json_pretty, pretty,
};
use crate::ollama::ollama_message::{
    is_transcript_json, lemma_message_json_reads_back, message_of, message_views,
    messages_to_json, OllamaMessage, OllamaMessageView,
};
use crate::ollama::ollama_options::{
    is_options_json, is_temperature, lemma_options_json_reads_back, options_of, OllamaOptions,
    OllamaOptionsView,
};
use crate::ollama::ollama_response::OllamaResponse2;
use crate::ollama::tool::{is_tools_json, OllamaFunctionView, OllamaTools};
use crate::text::{opt_string_clone, opt_text};

verus! {

/// What a request holds.
pub struct OllamaRequestView {
    /// The name of the model.
    pub model: Option<Seq<char>>,
    /// The messages of the conversation, oldest first.
    pub messages: Option<Seq<OllamaMessageView>>,
    /// The generation options.
    pub options: Option<OllamaOptionsView>,
    /// The prompt of a request for a single completion.
    pub prompt: Option<Seq<char>>,
    /// Whether the response is to be streamed.
    pub stream: Option<bool>,
    /// The format asked of the response (`json`).
    pub format: Option<Seq<char>>,
    /// The tools that the model may use.
    pub tools: Option<Seq<OllamaFunctionView>>,
}

/// A request to the model. Its messages are the transcript of the conversation: a message
/// is added at the end, and none is ever changed, moved or removed by adding another.
#[derive(Debug)]
pub struct OllamaRequest {
    model: Option<String>,
    messages: Option<Vec<OllamaMessage>>,
    options: Option<OllamaOptions>,
    prompt: Option<String>,
    stream: Option<bool>,
    format: Option<String>,
    tools: Option<OllamaTools>,
}

impl View for OllamaRequest {
    type V = OllamaRequestView;

    closed spec fn view(&self) -> OllamaRequestView {
        OllamaRequestView {
            model: opt_text(self.model),
            messages: match self.messages {
                Some(messages) => Some(message_views(messages@)),
                None => None,
            },
            options: match self.options {
                Some(options) => Some(options@),
                None => None,
            },
            prompt: opt_text(self.prompt),
            stream: self.stream,
            format: opt_text(self.format),
            tools: match self.tools {
                Some(tools) => Some(tools@),
                None => None,
            },
        }
    }
}

/// The request without any of its parts.
pub open spec fn empty_request() -> OllamaRequestView {
    OllamaRequestView {
        model: None,
        messages: None,
        options: None,
        prompt: None,
        stream: None,
        format: None,
        tools: None,
    }
}

/// The transcript of a request: its messages in order, none where the list is absent.
pub open spec fn transcript_of(request: OllamaRequestView) -> Seq<OllamaMessageView> {
    match request.messages {
        Some(messages) => messages,
        None => Seq::empty(),
    }
}

/// The request with one more message at the end of its transcript.
pub open spec fn with_message(request: OllamaRequestView, message: OllamaMessageView) -> OllamaRequestView {
    OllamaRequestView { messages: Some(transcript_of(request).push(message)), ..request }
}

/// The turn that carries the result of a tool: under the role `tool`, with the tool's name,
/// and the result written as JSON text.
pub open spec fn tool_result_message(tool_name: Seq<char>, result: serde_json::Value) -> OllamaMessageView {
    OllamaMessageView {
        role: Some("tool"@),
        content: Some(crate::json::json_text(result)),
        name: Some(tool_name),
        tool_calls: None,
    }
}

/// The request after a response has been added: the message of the response joins the
/// transcript; a response without a message leaves the request as it is.
pub open spec fn with_response(
    request: OllamaRequestView,
    response: crate::ollama::ollama_response::OllamaResponse2View,
) -> OllamaRequestView {
    match response.message {
        Some(message) => with_message(request, message),
        None => request,
    }
}

/// The request after the messages have been added one by one, in their order.
pub open spec fn with_messages(request: OllamaRequestView, messages: Seq<OllamaMessageView>) -> OllamaRequestView
    decreases messages.len(),
{
    if messages.len() == 0 {
        request
    } else {
        with_message(with_messages(request, messages.drop_last()), messages.last())
    }
}

/// Adding messages one by one puts them behind the transcript, in their order, and
/// changes nothing that was there.
pub proof fn lemma_with_messages(request: OllamaRequestView, messages: Seq<OllamaMessageView>)
    ensures
        transcript_of(with_messages(request, messages)) == transcript_of(request) + messages,
        messages.len() > 0 ==> with_messages(request, messages).messages is Some,
        with_messages(request, messages) == (OllamaRequestView {
            messages: with_messages(request, messages).messages,
            ..request
        }),
    decreases messages.len(),
{
    if messages.len() == 0 {
        assert(transcript_of(request) + messages =~= transcript_of(request));
    } else {
        lemma_with_messages(request, messages.drop_last());
        assert(transcript_of(request) + messages =~= (transcript_of(request)
            + messages.drop_last()).push(messages.last()));
    }
}

/// The transcript survives a round trip: a request that is built anew by adding the
/// messages of a transcript one by one, in their order, has that very transcript.
pub proof fn lemma_transcript_round_trip(request: OllamaRequestView)
    ensures
        transcript_of(with_messages(empty_request(), transcript_of(request))) == transcript_of(
            request,
        ),
{
    lemma_with_messages(empty_request(), transcript_of(request));
    assert(Seq::<OllamaMessageView>::empty() + transcript_of(request) =~= transcript_of(request));
}

/// The transcript that a document describes: the messages that the items of an array
/// describe, where each describes one.
pub open spec fn transcript_in(doc: serde_json::Value) -> Option<Seq<OllamaMessageView>> {
    match json_items(doc) {
        Some(docs) => if forall|i: int| 0 <= i < docs.len() ==> (#[trigger] message_of(docs[i]))
            is Ok {
            Some(docs.map_values(|d: serde_json::Value| message_of(d)->Ok_0))
        } else {
            None
        },
        None => None,
    }
}

/// The wire form of a transcript reads back as that transcript: the same messages, in the
/// same order.
pub proof fn lemma_wire_format_reads_back(doc: serde_json::Value, transcript: Seq<OllamaMessageView>)
    requires
        is_transcript_json(doc, transcript),
    ensures
        transcript_in(doc) == Some(transcript),
{
    let docs = json_items(doc)->Some_0;
    assert forall|i: int| 0 <= i < docs.len() implies (#[trigger] message_of(docs[i]))
        == Ok::<OllamaMessageView, crate::decode::DecodeError>(transcript[i]) by {
        lemma_message_json_reads_back(docs[i], transcript[i]);
    }
    assert(docs.map_values(|d: serde_json::Value| message_of(d)->Ok_0) =~= transcript);
}

/// Whether a document is the wire form of a request: an object that holds each part of the
/// request under its name, only where the request has it, and that holds nothing else. The
/// messages stand in it in the order of the conversation.
pub open spec fn is_request_json(doc: serde_json::Value, request: OllamaRequestView) -> bool {
    &&& json_is_object(doc)
    &&& holds_text(doc, "model"@, request.model)
    &&& match request.messages {
        Some(messages) => json_member(doc, "messages"@) matches Some(v) && is_transcript_json(
            v,
            messages,
        ) && !json_is_null(v),
        None => json_member(doc, "messages"@) is None,
    }
    &&& match request.options {
        Some(options) => json_member(doc, "options"@) matches Some(v) && is_options_json(
            v,
            options,
        ) && !json_is_null(v),
        None => json_member(doc, "options"@) is None,
    }
    &&& holds_text(doc, "prompt"@, request.prompt)
    &&& holds_bool(doc, "stream"@, request.stream)
    &&& holds_text(doc, "format"@, request.format)
    &&& match request.tools {
        Some(tools) => json_member(doc, "tools"@) matches Some(v) && is_tools_json(v, tools),
        None => json_member(doc, "tools"@) is None,
    }
    &&& forall|k: Seq<char>|
        k != "model"@ && k != "messages"@ && k != "options"@ && k != "prompt"@ && k != "stream"@
            && k != "format"@ && k != "tools"@ ==> (#[trigger] json_member(doc, k)) is None
}

/// The messages field of a request: absent, or a transcript as `transcript_in` reads it.
pub open spec fn messages_field(doc: serde_json::Value) -> Result<
    Option<Seq<OllamaMessageView>>,
    DecodeError,
> {
    match field(doc, "messages"@) {
        None => Ok(None),
        Some(v) => match transcript_in(v) {
            Some(messages) => Ok(Some(messages)),
            None => Err(DecodeError::InvalidField),
        },
    }
}

/// The options field of a request: absent, or options as `options_of` reads them.
pub open spec fn options_field(doc: serde_json::Value) -> Result<
    Option<OllamaOptionsView>,
    DecodeError,
> {
    match field(doc, "options"@) {
        None => Ok(None),
        Some(v) => match options_of(v) {
            Ok(options) => Ok(Some(options)),
            Err(_) => Err(DecodeError::InvalidField),
        },
    }
}

/// The request that a JSON document describes. The document is an object, and each part of
/// a request that is present in it holds a value of its type. Tools are not read.
pub open spec fn request_of(doc: serde_json::Value) -> Result<OllamaRequestView, DecodeError> {
    if !json_is_object(doc) {
        Err(DecodeError::NotAnObject)
    } else if text_field(doc, "model"@) is Err || messages_field(doc) is Err || options_field(
        doc,
    ) is Err || text_field(doc, "prompt"@) is Err || bool_field(doc, "stream"@) is Err
        || text_field(doc, "format"@) is Err {
        Err(DecodeError::InvalidField)
    } else {
        Ok(
            OllamaRequestView {
                model: text_field(doc, "model"@)->Ok_0,
                messages: messages_field(doc)->Ok_0,
                options: options_field(doc)->Ok_0,
                prompt: text_field(doc, "prompt"@)->Ok_0,
                stream: bool_field(doc, "stream"@)->Ok_0,
                format: text_field(doc, "format"@)->Ok_0,
                tools: None,
            },
        )
    }
}

/// The names of the parts of a request differ from one another.
proof fn lemma_request_keys()
    ensures
        "model"@.len() == 5 && "model"@[0] == 'm',
        "messages"@.len() == 8,
        "options"@.len() == 7,
        "prompt"@.len() == 6 && "prompt"@[0] == 'p',
        "stream"@.len() == 6 && "stream"@[0] == 's',
        "format"@.len() == 6 && "format"@[0] == 'f',
        "tools"@.len() == 5 && "tools"@[0] == 't',
{
    reveal_strlit("model");
    reveal_strlit("messages");
    reveal_strlit("options");
    reveal_strlit("prompt");
    reveal_strlit("stream");
    reveal_strlit("format");
    reveal_strlit("tools");
}

/// The wire form of a request without tools reads back as that request: the same parts, and
/// the same messages in the same order.
pub proof fn lemma_request_json_reads_back(doc: serde_json::Value, request: OllamaRequestView)
    requires
        is_request_json(doc, request),
        request.tools is None,
        request.options matches Some(options) ==> is_temperature(options.temperature),
    ensures
        request_of(doc) == Ok::<OllamaRequestView, DecodeError>(request),
{
    if let Some(messages) = request.messages {
        lemma_wire_format_reads_back(json_member(doc, "messages"@)->Some_0, messages);
    }
    if let Some(options) = request.options {
        lemma_options_json_reads_back(json_member(doc, "options"@)->Some_0, options);
    }
    assert(messages_field(doc) == Ok::<Option<Seq<OllamaMessageView>>, DecodeError>(
        request.messages,
    ));
    assert(options_field(doc) == Ok::<Option<OllamaOptionsView>, DecodeError>(request.options));
    assert(text_field(doc, "model"@) == Ok::<Option<Seq<char>>, DecodeError>(request.model));
    assert(text_field(doc, "prompt"@) == Ok::<Option<Seq<char>>, DecodeError>(request.prompt));
    assert(bool_field(doc, "stream"@) == Ok::<Option<bool>, DecodeError>(request.stream));
    assert(text_field(doc, "format"@) == Ok::<Option<Seq<char>>, DecodeError>(request.format));
}

/// A copy of the messages.
pub fn clone_messages(messages: &Vec<OllamaMessage>) -> (r: Vec<OllamaMessage>)
    ensures
        message_views(r@) == message_views(messages@),
{
    let mut r: Vec<OllamaMessage> = Vec::new();
    for i in 0..messages.len()
        invariant
            r@.len() == i,
            forall|j: int| 0 <= j < i ==> r@[j]@ == messages@[j]@,
    {
        r.push(messages[i].clone());
    }
    assert(message_views(r@) =~= message_views(messages@));
    r
}

impl Clone for OllamaRequest {
    fn clone(&self) -> (r: Self)
        ensures
            r@ == self@,
    {
        OllamaRequest {
            model: opt_string_clone(&self.model),
            messages: match &self.messages {
                Some(messages) => Some(clone_messages(messages)),
                None => None,
            },
            options: match &self.options {
                Some(options) => Some(options.clone()),
                None => None,
            },
            prompt: opt_string_clone(&self.prompt),
            stream: self.stream,
            format: opt_string_clone(&self.format),
            tools: match &self.tools {
                Some(tools) => Some(tools.clone()),
                None => None,
            },
        }
    }
}

impl OllamaRequest {
    /// The request without any of its parts.
    pub fn new() -> (r: Self)
        ensures
            r@ == empty_request(),
    {
        OllamaRequest {
            model: None,
            messages: None,
            options: None,
            prompt: None,
            stream: None,
            format: None,
            tools: None,
        }
    }

    /// The name of the model.
    pub fn model(&self) -> (r: Option<&String>)
        ensures
            match r {
                Some(s) => self@.model == Some(s@),
                None => self@.model is None,
            },
    {
        self.model.as_ref()
    }

    /// Sets the name of the model.
    pub fn set_model(&mut self, model: &str) -> (r: &mut Self)
        ensures
            r@ == (OllamaRequestView { model: Some(model@), ..old(self)@ }),
            *final(self) == *final(r),
    {
        self.model = Some(model.to_owned());
        self
    }

    /// The messages of the conversation, oldest first.
    pub fn messages(&self) -> (r: Option<&Vec<OllamaMessage>>)
        ensures
            match r {
                Some(messages) => self@.messages == Some(message_views(messages@)),
                None => self@.messages is None,
            },
    {
        self.messages.as_ref()
    }

    /// Replaces the messages of the conversation.
    pub fn set_messages(&mut self, messages: &Vec<OllamaMessage>) -> (r: &mut Self)
        ensures
            r@ == (OllamaRequestView {
                messages: Some(message_views(messages@)),
                ..old(self)@
            }),
            *final(self) == *final(r),
    {
        self.messages = Some(clone_messages(messages));
        self
    }

    /// Adds a message at the end of the conversation. The messages that were there stay as
    /// they were, in their order.
    pub fn add_message(&mut self, message: OllamaMessage) -> (r: &mut Self)
        ensures
            r@ == with_message(old(self)@, message@),
            *final(self) == *final(r),
    {
        let mut messages = match self.messages.take() {
            Some(messages) => messages,
            None => Vec::new(),
        };
        let ghost before = message_views(messages@);
        assert(before =~= transcript_of(old(self)@));
        messages.push(message);
        assert(message_views(messages@) =~= before.push(message@));
        self.messages = Some(messages);
        self
    }

    /// Adds a copy of a message at the end of the conversation.
    pub fn push_message(&mut self, message: &OllamaMessage) -> (r: &mut Self)
        ensures
            r@ == with_message(old(self)@, message@),
            *final(self) == *final(r),
    {
        let message = message.clone();
        self.add_message(message)
    }

    /// The transcript in the form in which the next request carries it: the array of the
    /// wire forms of the messages, in the order of the conversation.
    pub fn to_wire_format(&self) -> (r: serde_json::Value)
        ensures
            is_transcript_json(r, transcript_of(self@)),
            !json_is_null(r),
    {
        match &self.messages {
            Some(messages) => messages_to_json(messages),
            None => array_of(Vec::new()),
        }
    }

    /// The wire form of the request (see `is_request_json`): the body that the server reads.
    pub fn to_json(&self) -> (r: serde_json::Value)
        ensures
            is_request_json(r, self@),
            self@.tools is None ==> request_of(r) == Ok::<OllamaRequestView, DecodeError>(self@),
    {
        proof {
            lemma_request_keys();
        }
        let mut doc = empty_object();
        put_optional_text(&mut doc, "model", &self.model);
        if let Some(messages) = &self.messages {
            insert_member(&mut doc, "messages", messages_to_json(messages));
        }
        if let Some(options) = &self.options {
            insert_member(&mut doc, "options", options.to_json());
        }
        put_optional_text(&mut doc, "prompt", &self.prompt);
        put_optional_bool(&mut doc, "stream", self.stream);
        put_optional_text(&mut doc, "format", &self.format);
        if let Some(tools) = &self.tools {
            insert_member(&mut doc, "tools", tools.to_json());
        }
        proof {
            if self@.tools is None {
                lemma_request_json_reads_back(doc, self@);
            }
        }
        doc
    }

    /// The wire form of the request as indented JSON text.
    pub fn to_string_pretty(&self) -> (r: String)
        ensures
            exists|doc: serde_json::Value| is_request_json(doc, self@) && r@ == json_pretty(doc),
    {
        let doc = self.to_json();
        pretty(&doc)
    }

    /// Reads a request from a JSON document (see `request_of`).
    pub fn from_json(json: &serde_json::Value) -> (r: Result<Self, DecodeError>)
        ensures
            match r {
                Ok(request) => request_of(*json) == Ok::<OllamaRequestView, DecodeError>(request@),
                Err(e) => request_of(*json) == Err::<OllamaRequestView, DecodeError>(e),
            },
    {
        if !is_object(json) {
            return Err(DecodeError::NotAnObject);
        }
        let model = read_text(json, "model");
        let messages = match read_field(json, "messages") {
            None => Ok(None),
            Some(v) => match Self::read_wire_format(v) {
                Some(messages) => Ok(Some(messages)),
                None => Err(DecodeError::InvalidField),
            },
        };
        let options = match read_field(json, "options") {
            None => Ok(None),
            Some(v) => match OllamaOptions::from_json(v) {
                Ok(options) => Ok(Some(options)),
                Err(_) => Err(DecodeError::InvalidField),
            },
        };
        let prompt = read_text(json, "prompt");
        let stream = read_bool(json, "stream");
        let format = read_text(json, "format");
        match (model, messages, options, prompt, stream, format) {
            (Ok(model), Ok(messages), Ok(options), Ok(prompt), Ok(stream), Ok(format)) => Ok(
                OllamaRequest { model, messages, options, prompt, stream, format, tools: None },
            ),
            _ => Err(DecodeError::InvalidField),
        }
    }

    /// Reads a transcript from the form in which a request carries it (see `transcript_in`).
    pub fn read_wire_format(doc: &serde_json::Value) -> (r: Option<Vec<OllamaMessage>>)
        ensures
            match r {
                Some(messages) => transcript_in(*doc) == Some(message_views(messages@)),
                None => transcript_in(*doc) is None,
            },
    {
        let docs = items(doc)?;
        let mut messages: Vec<OllamaMessage> = Vec::new();
        for i in 0..docs.len()
            invariant
                messages@.len() == i,
                json_items(*doc) == Some(docs@),
                forall|j: int|
                    0 <= j < i ==> message_of(docs@[j]) == Ok::<
                        OllamaMessageView,
                        crate::decode::DecodeError,
                    >(#[trigger] messages@[j]@),
        {
            match OllamaMessage::from_json(&docs[i]) {
                Ok(message) => {
                    messages.push(message);
                },
                Err(_) => {
                    assert(message_of(docs@[i as int]) is Err);
                    return None;
                },
            }
        }
        assert(transcript_in(*doc) is Some) by {
            assert forall|i: int| 0 <= i < docs@.len() implies (#[trigger] message_of(docs@[i]))
                is Ok by {
                assert(message_of(docs@[i]) == Ok::<OllamaMessageView, crate::decode::DecodeError>(
                    messages@[i]@,
                ));
            }
        }
        assert(message_views(messages@) =~= transcript_in(*doc)->Some_0) by {
            assert forall|i: int| 0 <= i < docs@.len() implies message_views(messages@)[i]
                == message_of(docs@[i])->Ok_0 by {
                assert(message_of(docs@[i]) == Ok::<OllamaMessageView, crate::decode::DecodeError>(
                    messages@[i]@,
                ));
            }
        }
        Some(messages)
    }

    /// Adds the result of a tool at the end of the conversation (see `tool_result_message`).
    pub fn add_tool_result(&mut self, tool_name: &str, result: &serde_json::Value) -> (r:
        &mut Self)
        ensures
            r@ == with_message(old(self)@, tool_result_message(tool_name@, *result)),
            *final(self) == *final(r),
    {
        let text = crate::json::compact(result);
        let mut message = OllamaMessage::new();
        message.set_role("tool");
        message.set_name(tool_name);
        message.set_content(text.as_str());
        self.add_message(message)
    }

    /// The generation options.
    pub fn options(&self) -> (r: Option<&OllamaOptions>)
        ensures
            match r {
                Some(options) => self@.options == Some(options@),
                None => self@.options is None,
            },
    {
        self.options.as_ref()
    }

    /// Sets the generation options.
    pub fn set_options(&mut self, options: &OllamaOptions) -> (r: &mut Self)
        ensures
            r@ == (OllamaRequestView { options: Some(options@), ..old(self)@ }),
            *final(self) == *final(r),
    {
        self.options = Some(options.clone());
        self
    }

    /// The prompt of a request for a single completion.
    pub fn prompt(&self) -> (r: Option<&String>)
        ensures
            match r {
                Some(s) => self@.prompt == Some(s@),
                None => self@.prompt is None,
            },
    {
        self.prompt.as_ref()
    }

    /// Sets the prompt.
    pub fn set_prompt(&mut self, prompt: &str) -> (r: &mut Self)
        ensures
            r@ == (OllamaRequestView { prompt: Some(prompt@), ..old(self)@ }),
            *final(self) == *final(r),
    {
        self.prompt = Some(prompt.to_owned());
        self
    }

    /// Adds the message of a response at the end of the conversation; a response without
    /// a message leaves the request as it is.
    pub fn add_response(&mut self, response: &OllamaResponse2) -> (r: &mut Self)
        ensures
            r@ == with_response(old(self)@, response@),
            *final(self) == *final(r),
    {
        if let Some(message) = response.message() {
            let message = message.clone();
            return self.add_message(message);
        }
        self
    }

    /// The format asked of the response.
    pub fn format(&self) -> (r: Option<&str>)
        ensures
            match r {
                Some(s) => self@.format == Some(s@),
                None => self@.format is None,
            },
    {
        crate::text::opt_str(&self.format)
    }

    /// Asks for a response in the given format (`json`).
    pub fn set_format(&mut self, format: &str) -> (r: &mut Self)
        ensures
            r@ == (OllamaRequestView { format: Some(format@), ..old(self)@ }),
            *final(self) == *final(r),
    {
        self.format = Some(format.to_owned());
        self
    }

    /// The tools that the model may use.
    pub fn tools(&self) -> (r: Option<&OllamaTools>)
        ensures
            match r {
                Some(tools) => self@.tools == Some(tools@),
                None => self@.tools is None,
            },
    {
        self.tools.as_ref()
    }

    /// Sets the tools that the model may use.
    pub fn set_tools(&mut self, tools: &OllamaTools) -> (r: &mut Self)
        ensures
            r@ == (OllamaRequestView { tools: Some(tools@), ..old(self)@ }),
            *final(self) == *final(r),
    {
        self.tools = Some(tools.clone());
        self
    }

    /// Whether the response is to be streamed.
    pub fn stream(&self) -> (r: Option<bool>)
        ensures
            r == self@.stream,
    {
        self.stream
    }

    /// Whether the response will be streamed: as the request says, and streamed where it
    /// says nothing.
    pub fn is_streamed(&self) -> (r: bool)
        ensures
            r == match self@.stream {
                Some(stream) => stream,
                None => true,
            },
    {
        match self.stream {
            Some(stream) => stream,
            None => true,
        }
    }

    /// Sets whether the response is to be streamed.
    pub fn set_stream(&mut self, stream: bool) -> (r: &mut Self)
        ensures
            r@ == (OllamaRequestView { stream: Some(stream), ..old(self)@ }),
            *final(self) == *final(r),
    {
        self.stream = Some(stream);
        self
    }
}

} // verus!
