//! One message of a conversation.

use vstd::prelude::*;
use crate::decode::{field, read_field, read_text, text_field, DecodeError};
use crate::encode::{holds_text, put_optional_text};
use crate::json::{
    array_of, empty_object, insert_member, is_object, json_is_null, json_is_object, json_items,
    json_member, json_pretty, pretty,
};
use crate::ollama::tool::{tool_calls_of, OllamaToolCallView, OllamaToolCalls};
use crate::text::{opt_str, opt_string_clone, opt_text};
use crate::xml_util::{first_element, strip_elements, XmlUtil};

verus! {

/// What a message holds.
pub struct OllamaMessageView {
    /// Who speaks: `system`, `user`, `assistant` or `tool`.
    pub role: Option<Seq<char>>,
    /// What is said.
    pub content: Option<Seq<char>>,
    /// The name of the tool whose result the message carries.
    pub name: Option<Seq<char>>,
    /// The tool calls that the message asks for.
    pub tool_calls: Option<Seq<OllamaToolCallView>>,
}

/// One message of a conversation: a role, a content, and for a message about tools the
/// tool's name or the calls asked for.
#[derive(Debug)]
pub struct OllamaMessage {
    role: Option<String>,
    content: Option<String>,
    name: Option<String>,
    tool_calls: Option<OllamaToolCalls>,
}

impl View for OllamaMessage {
    type V = OllamaMessageView;

    closed spec fn view(&self) -> OllamaMessageView {
        OllamaMessageView {
            role: opt_text(self.role),
            content: opt_text(self.content),
            name: opt_text(self.name),
            tool_calls: match self.tool_calls {
                Some(calls) => Some(calls@),
                None => None,
            },
        }
    }
}

/// The views of messages, in order.
pub open spec fn message_views(messages: Seq<OllamaMessage>) -> Seq<OllamaMessageView> {
    messages.map_values(|m: OllamaMessage| m@)
}

/// The message without any of its parts.
pub open spec fn empty_message() -> OllamaMessageView {
    OllamaMessageView { role: None, content: None, name: None, tool_calls: None }
}

/// The message that a JSON document describes. The document is an object; `role`,
/// `content` and `name` hold text where they are present; `tool_calls` is read as tool
/// calls are.
pub open spec fn message_of(doc: serde_json::Value) -> Result<OllamaMessageView, DecodeError> {
    if !json_is_object(doc) {
        Err(DecodeError::NotAnObject)
    } else if text_field(doc, "role"@) is Err || text_field(doc, "content"@) is Err || text_field(
        doc,
        "name"@,
    ) is Err {
        Err(DecodeError::InvalidField)
    } else {
        Ok(
            OllamaMessageView {
                role: text_field(doc, "role"@)->Ok_0,
                content: text_field(doc, "content"@)->Ok_0,
                name: text_field(doc, "name"@)->Ok_0,
                tool_calls: match field(doc, "tool_calls"@) {
                    Some(calls) => Some(tool_calls_of(calls)),
                    None => None,
                },
            },
        )
    }
}

/// Whether a document is the wire form of a message: an object that holds the role, the
/// content and the name as text, and the tool calls as an array, each under its name and
/// only where the message has it, and that holds nothing else.
pub open spec fn is_message_json(doc: serde_json::Value, message: OllamaMessageView) -> bool {
    &&& json_is_object(doc)
    &&& holds_text(doc, "role"@, message.role)
    &&& holds_text(doc, "content"@, message.content)
    &&& holds_text(doc, "name"@, message.name)
    &&& match message.tool_calls {
        Some(calls) => json_member(doc, "tool_calls"@) matches Some(v) && json_items(v) == Some(
            calls,
        ) && !json_is_null(v),
        None => json_member(doc, "tool_calls"@) is None,
    }
    &&& forall|k: Seq<char>|
        k != "role"@ && k != "content"@ && k != "name"@ && k != "tool_calls"@ ==> (
        #[trigger] json_member(doc, k)) is None
}

/// The names of the members of a message differ from one another.
proof fn lemma_message_keys()
    ensures
        "role"@ != "content"@,
        "role"@ != "name"@,
        "role"@ != "tool_calls"@,
        "content"@ != "name"@,
        "content"@ != "tool_calls"@,
        "name"@ != "tool_calls"@,
{
    reveal_strlit("role");
    reveal_strlit("content");
    reveal_strlit("name");
    reveal_strlit("tool_calls");
    assert("role"@.len() == 4 && "role"@[0] == 'r');
    assert("content"@.len() == 7);
    assert("name"@.len() == 4 && "name"@[0] == 'n');
    assert("tool_calls"@.len() == 10);
}

/// The wire form of a message reads back as that message.
pub proof fn lemma_message_json_reads_back(doc: serde_json::Value, message: OllamaMessageView)
    requires
        is_message_json(doc, message),
    ensures
        message_of(doc) == Ok::<OllamaMessageView, DecodeError>(message),
{
    assert(text_field(doc, "role"@) == Ok::<Option<Seq<char>>, DecodeError>(message.role));
    assert(text_field(doc, "content"@) == Ok::<Option<Seq<char>>, DecodeError>(message.content));
    assert(text_field(doc, "name"@) == Ok::<Option<Seq<char>>, DecodeError>(message.name));
}

impl Clone for OllamaMessage {
    fn clone(&self) -> (r: Self)
        ensures
            r@ == self@,
    {
        OllamaMessage {
            role: opt_string_clone(&self.role),
            content: opt_string_clone(&self.content),
            name: opt_string_clone(&self.name),
            tool_calls: match &self.tool_calls {
                Some(calls) => Some(calls.clone()),
                None => None,
            },
        }
    }
}

impl OllamaMessage {
    /// A message without role and content.
    pub fn new() -> (r: Self)
        ensures
            r@ == empty_message(),
    {
        OllamaMessage { role: None, content: None, name: None, tool_calls: None }
    }

    /// Reads a message from a JSON document (see `message_of`).
    pub fn from_json(json: &serde_json::Value) -> (r: Result<Self, DecodeError>)
        ensures
            match r {
                Ok(m) => message_of(*json) == Ok::<OllamaMessageView, DecodeError>(m@),
                Err(e) => message_of(*json) == Err::<OllamaMessageView, DecodeError>(e),
            },
    {
        if !is_object(json) {
            return Err(DecodeError::NotAnObject);
        }
        let role = read_text(json, "role");
        let content = read_text(json, "content");
        let name = read_text(json, "name");
        match (role, content, name) {
            (Ok(role), Ok(content), Ok(name)) => {
                let tool_calls = match read_field(json, "tool_calls") {
                    Some(calls) => Some(OllamaToolCalls::from(calls)),
                    None => None,
                };
                Ok(OllamaMessage { role, content, name, tool_calls })
            },
            _ => Err(DecodeError::InvalidField),
        }
    }

    /// The wire form of the message (see `is_message_json`). It reads back as the message.
    pub fn to_json(&self) -> (r: serde_json::Value)
        ensures
            is_message_json(r, self@),
            message_of(r) == Ok::<OllamaMessageView, DecodeError>(self@),
            !json_is_null(r),
    {
        proof {
            lemma_message_keys();
        }
        let mut doc = empty_object();
        put_optional_text(&mut doc, "role", &self.role);
        put_optional_text(&mut doc, "content", &self.content);
        put_optional_text(&mut doc, "name", &self.name);
        if let Some(calls) = &self.tool_calls {
            insert_member(&mut doc, "tool_calls", calls.to_json());
        }
        proof {
            lemma_message_json_reads_back(doc, self@);
        }
        doc
    }

    /// The role of the message.
    pub fn role(&self) -> (r: Option<&str>)
        ensures
            match r {
                Some(s) => self@.role == Some(s@),
                None => self@.role is None,
            },
    {
        opt_str(&self.role)
    }

    /// Sets the role of the message.
    pub fn set_role(&mut self, role: &str) -> (r: &mut Self)
        ensures
            r@ == (OllamaMessageView { role: Some(role@), ..old(self)@ }),
            *final(self) == *final(r),
    {
        self.role = Some(role.to_owned());
        self
    }

    /// The content of the message.
    pub fn content(&self) -> (r: Option<&str>)
        ensures
            match r {
                Some(s) => self@.content == Some(s@),
                None => self@.content is None,
            },
    {
        opt_str(&self.content)
    }

    /// Sets the content of the message.
    pub fn set_content(&mut self, content: &str) -> (r: &mut Self)
        ensures
            r@ == (OllamaMessageView { content: Some(content@), ..old(self)@ }),
            *final(self) == *final(r),
    {
        self.content = Some(content.to_owned());
        self
    }

    /// The name of the tool whose result the message carries.
    pub fn name(&self) -> (r: Option<&str>)
        ensures
            match r {
                Some(s) => self@.name == Some(s@),
                None => self@.name is None,
            },
    {
        opt_str(&self.name)
    }

    /// Sets the name of the tool whose result the message carries.
    pub fn set_name(&mut self, name: &str) -> (r: &mut Self)
        ensures
            r@ == (OllamaMessageView { name: Some(name@), ..old(self)@ }),
            *final(self) == *final(r),
    {
        self.name = Some(name.to_owned());
        self
    }

    /// The tool calls that the message asks for.
    pub fn tool_calls(&self) -> (r: Option<&OllamaToolCalls>)
        ensures
            match r {
                Some(calls) => self@.tool_calls == Some(calls@),
                None => self@.tool_calls is None,
            },
    {
        self.tool_calls.as_ref()
    }

    /// Sets the tool calls that the message asks for.
    pub fn set_tool_calls(&mut self, tool_calls: OllamaToolCalls) -> (r: &mut Self)
        ensures
            r@ == (OllamaMessageView { tool_calls: Some(tool_calls@), ..old(self)@ }),
            *final(self) == *final(r),
    {
        self.tool_calls = Some(tool_calls);
        self
    }

    /// The message without its `<think>` elements: a copy whose content has every such
    /// element removed, or `None` where the message has no content or the content holds no
    /// such element.
    pub fn remove_thinking(&self) -> (r: Option<OllamaMessage>)
        ensures
            match r {
                Some(m) => self@.content matches Some(content) && first_element(
                    content,
                    "think"@,
                ) is Some && m@ == (OllamaMessageView {
                    content: Some(strip_elements(content, "think"@)),
                    ..self@
                }),
                None => self@.content matches Some(content) ==> first_element(
                    content,
                    "think"@,
                ) is None,
            },
    {
        let content = match &self.content {
            Some(content) => content,
            None => { return None; },
        };
        let cleaned = match XmlUtil::remove_tag(content.as_str(), "think") {
            Some(cleaned) => cleaned,
            None => { return None; },
        };
        let mut message = self.clone();
        message.content = Some(cleaned);
        Some(message)
    }
}

} // verus!

verus! {

/// Whether a document is the wire form of a transcript: the array of the wire forms of its
/// messages, in their order.
pub open spec fn is_transcript_json(doc: serde_json::Value, transcript: Seq<OllamaMessageView>) -> bool {
    &&& json_items(doc) matches Some(docs)
    &&& docs.len() == transcript.len()
    &&& forall|i: int| 0 <= i < docs.len() ==> is_message_json(#[trigger] docs[i], transcript[i])
}

/// The wire form of messages: the array of their wire forms, in their order.
pub fn messages_to_json(messages: &Vec<OllamaMessage>) -> (r: serde_json::Value)
    ensures
        is_transcript_json(r, message_views(messages@)),
        !json_is_null(r),
{
    let mut docs: Vec<serde_json::Value> = Vec::new();
    for i in 0..messages.len()
        invariant
            docs@.len() == i,
            forall|j: int| 0 <= j < i ==> is_message_json(#[trigger] docs@[j], messages@[j]@),
    {
        docs.push(messages[i].to_json());
    }
    array_of(docs)
}

/// An ordered collection of messages.
#[derive(Debug)]
pub struct OllamaMessages {
    messages: Vec<OllamaMessage>,
}

impl View for OllamaMessages {
    type V = Seq<OllamaMessageView>;

    closed spec fn view(&self) -> Seq<OllamaMessageView> {
        message_views(self.messages@)
    }
}

impl OllamaMessages {
    /// The empty collection.
    pub fn new() -> (r: Self)
        ensures
            r@ == Seq::<OllamaMessageView>::empty(),
    {
        let r = OllamaMessages { messages: Vec::new() };
        assert(r@ =~= Seq::<OllamaMessageView>::empty());
        r
    }

    /// The number of messages.
    pub fn len(&self) -> (n: usize)
        ensures
            n == self@.len(),
    {
        self.messages.len()
    }

    /// The message at `index`, or `None` where the index is out of bounds.
    pub fn message(&self, index: usize) -> (r: Option<OllamaMessage>)
        ensures
            match r {
                Some(message) => index < self@.len() && message@ == self@[index as int],
                None => index >= self@.len(),
            },
    {
        if index < self.messages.len() {
            Some(self.messages[index].clone())
        } else {
            None
        }
    }

    /// Adds a message at the end.
    pub fn push_message(&mut self, message: OllamaMessage) -> (r: &mut Self)
        ensures
            r@ == old(self)@.push(message@),
            *final(self) == *final(r),
    {
        self.messages.push(message);
        assert(self@ =~= old(self)@.push(message@));
        self
    }

    /// The messages, in order.
    pub fn messages(&self) -> (r: &Vec<OllamaMessage>)
        ensures
            message_views(r@) == self@,
    {
        &self.messages
    }

    /// The messages as one JSON document: the array of their wire forms, in order.
    pub fn to_json(&self) -> (r: serde_json::Value)
        ensures
            is_transcript_json(r, self@),
    {
        messages_to_json(&self.messages)
    }

    /// The messages as indented JSON text: the text of the array of their wire forms.
    pub fn as_string_pretty(&self) -> (r: String)
        ensures
            exists|doc: serde_json::Value| is_transcript_json(doc, self@) && r@ == json_pretty(doc),
    {
        let doc = self.to_json();
        pretty(&doc)
    }
}

} // verus!
