//! A response of the model: one partial message of a stream, or the message assembled from
//! all of them.

use vstd::prelude::*;
use crate::decode::{
    bool_field, field, read_bool, read_field, read_text, read_u32, read_u64, text_field,
    u32_field, u64_field, DecodeError,
};
use crate::encode::{
    holds_bool, holds_number, holds_text, put_optional_bool, put_optional_number,
    put_optional_text, wide_u32,
};
use crate::json::{
    empty_object, insert_member, is_object, json_is_null, json_is_object, json_member,
    json_pretty, pretty,
};
use crate::ollama::ollama_message::{
    is_message_json, lemma_message_json_reads_back, message_of, OllamaMessage, OllamaMessageView,
};
use crate::text::{opt_str, opt_string_clone, opt_text};

verus! {

/// What a response holds.
pub struct OllamaResponse2View {
    pub created_at: Option<Seq<char>>,
    pub done: Option<bool>,
    pub done_reason: Option<Seq<char>>,
    pub error: Option<Seq<char>>,
    pub eval_count: Option<u32>,
    pub eval_duration: Option<u64>,
    pub load_duration: Option<u64>,
    pub model: Option<Seq<char>>,
    pub message: Option<OllamaMessageView>,
    pub prompt_eval_count: Option<u32>,
    pub prompt_eval_duration: Option<u64>,
    pub response: Option<Seq<char>>,
    pub total_duration: Option<u64>,
}

/// A response of the model. Every part of it is optional: a partial message of a stream
/// carries a fragment of text, the last one carries the counts and durations.
#[derive(Debug)]
pub struct OllamaResponse2 {
    created_at: Option<String>,
    done: Option<bool>,
    done_reason: Option<String>,
    error: Option<String>,
    eval_count: Option<u32>,
    eval_duration: Option<u64>,
    load_duration: Option<u64>,
    model: Option<String>,
    message: Option<OllamaMessage>,
    prompt_eval_count: Option<u32>,
    prompt_eval_duration: Option<u64>,
    response: Option<String>,
    total_duration: Option<u64>,
}

impl View for OllamaResponse2 {
    type V = OllamaResponse2View;

    closed spec fn view(&self) -> OllamaResponse2View {
        OllamaResponse2View {
            created_at: opt_text(self.created_at),
            done: self.done,
            done_reason: opt_text(self.done_reason),
            error: opt_text(self.error),
            eval_count: self.eval_count,
            eval_duration: self.eval_duration,
            load_duration: self.load_duration,
            model: opt_text(self.model),
            message: match self.message {
                Some(m) => Some(m@),
                None => None,
            },
            prompt_eval_count: self.prompt_eval_count,
            prompt_eval_duration: self.prompt_eval_duration,
            response: opt_text(self.response),
            total_duration: self.total_duration,
        }
    }
}

/// The response without any of its parts.
pub open spec fn empty_response() -> OllamaResponse2View {
    OllamaResponse2View {
        created_at: None,
        done: None,
        done_reason: None,
        error: None,
        eval_count: None,
        eval_duration: None,
        load_duration: None,
        model: None,
        message: None,
        prompt_eval_count: None,
        prompt_eval_duration: None,
        response: None,
        total_duration: None,
    }
}

/// The text of a response: the content of its message, or else its `response` field.
pub open spec fn text_of(r: OllamaResponse2View) -> Option<Seq<char>> {
    match r.message {
        Some(m) => if m.content is Some {
            m.content
        } else {
            r.response
        },
        None => r.response,
    }
}

/// The tokens that a response accounts for: those evaluated and those of the prompt, each
/// counting as none where it is absent.
pub open spec fn tokens_of(r: OllamaResponse2View) -> int {
    (match r.eval_count {
        Some(n) => n as int,
        None => 0,
    }) + (match r.prompt_eval_count {
        Some(n) => n as int,
        None => 0,
    })
}

/// The message field of a response: absent, or a message as `message_of` reads it.
pub open spec fn message_field(doc: serde_json::Value) -> Result<
    Option<OllamaMessageView>,
    DecodeError,
> {
    match field(doc, "message"@) {
        None => Ok(None),
        Some(m) => match message_of(m) {
            Ok(message) => Ok(Some(message)),
            Err(_) => Err(DecodeError::InvalidField),
        },
    }
}

/// Whether every field of a response that is present in the document holds a value of
/// its type.
pub open spec fn response_fields_valid(doc: serde_json::Value) -> bool {
    &&& text_field(doc, "created_at"@) is Ok
    &&& bool_field(doc, "done"@) is Ok
    &&& text_field(doc, "done_reason"@) is Ok
    &&& text_field(doc, "error"@) is Ok
    &&& u32_field(doc, "eval_count"@) is Ok
    &&& u64_field(doc, "eval_duration"@) is Ok
    &&& u64_field(doc, "load_duration"@) is Ok
    &&& text_field(doc, "model"@) is Ok
    &&& message_field(doc) is Ok
    &&& u32_field(doc, "prompt_eval_count"@) is Ok
    &&& u64_field(doc, "prompt_eval_duration"@) is Ok
    &&& text_field(doc, "response"@) is Ok
    &&& u64_field(doc, "total_duration"@) is Ok
}

/// The response that a JSON document describes. The document is an object, and each field
/// of a response that is present in it holds a value of its type; other members are not
/// looked at.
pub open spec fn response_of(doc: serde_json::Value) -> Result<OllamaResponse2View, DecodeError> {
    if !json_is_object(doc) {
        Err(DecodeError::NotAnObject)
    } else if !response_fields_valid(doc) {
        Err(DecodeError::InvalidField)
    } else {
        Ok(
            OllamaResponse2View {
                created_at: text_field(doc, "created_at"@)->Ok_0,
                done: bool_field(doc, "done"@)->Ok_0,
                done_reason: text_field(doc, "done_reason"@)->Ok_0,
                error: text_field(doc, "error"@)->Ok_0,
                eval_count: u32_field(doc, "eval_count"@)->Ok_0,
                eval_duration: u64_field(doc, "eval_duration"@)->Ok_0,
                load_duration: u64_field(doc, "load_duration"@)->Ok_0,
                model: text_field(doc, "model"@)->Ok_0,
                message: message_field(doc)->Ok_0,
                prompt_eval_count: u32_field(doc, "prompt_eval_count"@)->Ok_0,
                prompt_eval_duration: u64_field(doc, "prompt_eval_duration"@)->Ok_0,
                response: text_field(doc, "response"@)->Ok_0,
                total_duration: u64_field(doc, "total_duration"@)->Ok_0,
            },
        )
    }
}

/// Whether a name is that of a field of a response.
pub open spec fn is_response_key(k: Seq<char>) -> bool {
    ||| k == "created_at"@
    ||| k == "done"@
    ||| k == "done_reason"@
    ||| k == "error"@
    ||| k == "eval_count"@
    ||| k == "eval_duration"@
    ||| k == "load_duration"@
    ||| k == "model"@
    ||| k == "message"@
    ||| k == "prompt_eval_count"@
    ||| k == "prompt_eval_duration"@
    ||| k == "response"@
    ||| k == "total_duration"@
}

/// Whether a document is the wire form of a response: an object that holds each part of the
/// response under the name of its field, only where the response has it, and that holds
/// nothing else.
pub open spec fn is_response_json(doc: serde_json::Value, response: OllamaResponse2View) -> bool {
    &&& json_is_object(doc)
    &&& holds_text(doc, "created_at"@, response.created_at)
    &&& holds_bool(doc, "done"@, response.done)
    &&& holds_text(doc, "done_reason"@, response.done_reason)
    &&& holds_text(doc, "error"@, response.error)
    &&& holds_number(doc, "eval_count"@, wide_u32(response.eval_count))
    &&& holds_number(doc, "eval_duration"@, response.eval_duration)
    &&& holds_number(doc, "load_duration"@, response.load_duration)
    &&& holds_text(doc, "model"@, response.model)
    &&& match response.message {
        Some(message) => json_member(doc, "message"@) matches Some(v) && is_message_json(
            v,
            message,
        ) && !json_is_null(v),
        None => json_member(doc, "message"@) is None,
    }
    &&& holds_number(doc, "prompt_eval_count"@, wide_u32(response.prompt_eval_count))
    &&& holds_number(doc, "prompt_eval_duration"@, response.prompt_eval_duration)
    &&& holds_text(doc, "response"@, response.response)
    &&& holds_number(doc, "total_duration"@, response.total_duration)
    &&& forall|k: Seq<char>| !is_response_key(k) ==> (#[trigger] json_member(doc, k)) is None
}

/// The names of the fields of a response differ from one another.
proof fn lemma_response_keys()
    ensures
        "created_at"@.len() == 10 && "created_at"@[0] == 'c',
        "done"@.len() == 4,
        "done_reason"@.len() == 11,
        "error"@.len() == 5 && "error"@[0] == 'e',
        "eval_count"@.len() == 10 && "eval_count"@[0] == 'e',
        "eval_duration"@.len() == 13 && "eval_duration"@[0] == 'e',
        "load_duration"@.len() == 13 && "load_duration"@[0] == 'l',
        "model"@.len() == 5 && "model"@[0] == 'm',
        "message"@.len() == 7,
        "prompt_eval_count"@.len() == 17,
        "prompt_eval_duration"@.len() == 20,
        "response"@.len() == 8,
        "total_duration"@.len() == 14,
{
    reveal_strlit("created_at");
    reveal_strlit("done");
    reveal_strlit("done_reason");
    reveal_strlit("error");
    reveal_strlit("eval_count");
    reveal_strlit("eval_duration");
    reveal_strlit("load_duration");
    reveal_strlit("model");
    reveal_strlit("message");
    reveal_strlit("prompt_eval_count");
    reveal_strlit("prompt_eval_duration");
    reveal_strlit("response");
    reveal_strlit("total_duration");
}

/// The wire form of a response reads back as that response.
pub proof fn lemma_response_json_reads_back(doc: serde_json::Value, response: OllamaResponse2View)
    requires
        is_response_json(doc, response),
    ensures
        response_of(doc) == Ok::<OllamaResponse2View, DecodeError>(response),
{
    if let Some(message) = response.message {
        lemma_message_json_reads_back(json_member(doc, "message"@)->Some_0, message);
    }
    assert(message_field(doc) == Ok::<Option<OllamaMessageView>, DecodeError>(response.message));
    assert(text_field(doc, "created_at"@) == Ok::<Option<Seq<char>>, DecodeError>(
        response.created_at,
    ));
    assert(bool_field(doc, "done"@) == Ok::<Option<bool>, DecodeError>(response.done));
    assert(text_field(doc, "done_reason"@) == Ok::<Option<Seq<char>>, DecodeError>(
        response.done_reason,
    ));
    assert(text_field(doc, "error"@) == Ok::<Option<Seq<char>>, DecodeError>(response.error));
    assert(u32_field(doc, "eval_count"@) == Ok::<Option<u32>, DecodeError>(response.eval_count));
    assert(u64_field(doc, "eval_duration"@) == Ok::<Option<u64>, DecodeError>(
        response.eval_duration,
    ));
    assert(u64_field(doc, "load_duration"@) == Ok::<Option<u64>, DecodeError>(
        response.load_duration,
    ));
    assert(text_field(doc, "model"@) == Ok::<Option<Seq<char>>, DecodeError>(response.model));
    assert(u32_field(doc, "prompt_eval_count"@) == Ok::<Option<u32>, DecodeError>(
        response.prompt_eval_count,
    ));
    assert(u64_field(doc, "prompt_eval_duration"@) == Ok::<Option<u64>, DecodeError>(
        response.prompt_eval_duration,
    ));
    assert(text_field(doc, "response"@) == Ok::<Option<Seq<char>>, DecodeError>(
        response.response,
    ));
    assert(u64_field(doc, "total_duration"@) == Ok::<Option<u64>, DecodeError>(
        response.total_duration,
    ));
}

impl Clone for OllamaResponse2 {
    fn clone(&self) -> (r: Self)
        ensures
            r@ == self@,
    {
        OllamaResponse2 {
            created_at: opt_string_clone(&self.created_at),
            done: self.done,
            done_reason: opt_string_clone(&self.done_reason),
            error: opt_string_clone(&self.error),
            eval_count: self.eval_count,
            eval_duration: self.eval_duration,
            load_duration: self.load_duration,
            model: opt_string_clone(&self.model),
            message: match &self.message {
                Some(m) => Some(m.clone()),
                None => None,
            },
            prompt_eval_count: self.prompt_eval_count,
            prompt_eval_duration: self.prompt_eval_duration,
            response: opt_string_clone(&self.response),
            total_duration: self.total_duration,
        }
    }
}

impl OllamaResponse2 {
    /// The response without any of its parts.
    pub fn new() -> (r: Self)
        ensures
            r@ == empty_response(),
    {
        OllamaResponse2 {
            created_at: None,
            done: None,
            done_reason: None,
            error: None,
            eval_count: None,
            eval_duration: None,
            load_duration: None,
            model: None,
            message: None,
            prompt_eval_count: None,
            prompt_eval_duration: None,
            response: None,
            total_duration: None,
        }
    }

    /// Reads a response from a JSON document (see `response_of`).
    pub fn from_json(json: &serde_json::Value) -> (r: Result<Self, DecodeError>)
        ensures
            match r {
                Ok(response) => response_of(*json) == Ok::<OllamaResponse2View, DecodeError>(
                    response@,
                ),
                Err(e) => response_of(*json) == Err::<OllamaResponse2View, DecodeError>(e),
            },
    {
        if !is_object(json) {
            return Err(DecodeError::NotAnObject);
        }
        let created_at = read_text(json, "created_at")?;
        let done = read_bool(json, "done")?;
        let done_reason = read_text(json, "done_reason")?;
        let error = read_text(json, "error")?;
        let eval_count = read_u32(json, "eval_count")?;
        let eval_duration = read_u64(json, "eval_duration")?;
        let load_duration = read_u64(json, "load_duration")?;
        let model = read_text(json, "model")?;
        let message = match read_field(json, "message") {
            None => None,
            Some(m) => match OllamaMessage::from_json(m) {
                Ok(message) => Some(message),
                Err(_) => { return Err(DecodeError::InvalidField); },
            },
        };
        let prompt_eval_count = read_u32(json, "prompt_eval_count")?;
        let prompt_eval_duration = read_u64(json, "prompt_eval_duration")?;
        let response = read_text(json, "response")?;
        let total_duration = read_u64(json, "total_duration")?;
        Ok(
            OllamaResponse2 {
                created_at,
                done,
                done_reason,
                error,
                eval_count,
                eval_duration,
                load_duration,
                model,
                message,
                prompt_eval_count,
                prompt_eval_duration,
                response,
                total_duration,
            },
        )
    }

    /// The wire form of the response (see `is_response_json`). It reads back as the response.
    pub fn to_json(&self) -> (r: serde_json::Value)
        ensures
            is_response_json(r, self@),
            response_of(r) == Ok::<OllamaResponse2View, DecodeError>(self@),
    {
        proof {
            lemma_response_keys();
        }
        let mut doc = empty_object();
        put_optional_text(&mut doc, "created_at", &self.created_at);
        put_optional_bool(&mut doc, "done", self.done);
        put_optional_text(&mut doc, "done_reason", &self.done_reason);
        put_optional_text(&mut doc, "error", &self.error);
        put_optional_number(
            &mut doc,
            "eval_count",
            match self.eval_count {
                Some(n) => Some(n as u64),
                None => None,
            },
        );
        put_optional_number(&mut doc, "eval_duration", self.eval_duration);
        put_optional_number(&mut doc, "load_duration", self.load_duration);
        put_optional_text(&mut doc, "model", &self.model);
        if let Some(message) = &self.message {
            insert_member(&mut doc, "message", message.to_json());
        }
        put_optional_number(
            &mut doc,
            "prompt_eval_count",
            match self.prompt_eval_count {
                Some(n) => Some(n as u64),
                None => None,
            },
        );
        put_optional_number(&mut doc, "prompt_eval_duration", self.prompt_eval_duration);
        put_optional_text(&mut doc, "response", &self.response);
        put_optional_number(&mut doc, "total_duration", self.total_duration);
        proof {
            lemma_response_json_reads_back(doc, self@);
        }
        doc
    }

    /// The wire form of the response as indented JSON text.
    pub fn to_string_pretty(&self) -> (r: String)
        ensures
            exists|doc: serde_json::Value| is_response_json(doc, self@) && r@ == json_pretty(doc),
    {
        let doc = self.to_json();
        pretty(&doc)
    }

    /// The generated text: the content of the message where there is one, or else the
    /// `response` field, or `None` where there is neither.
    pub fn text(&self) -> (r: Option<&str>)
        ensures
            match r {
                Some(s) => text_of(self@) == Some(s@),
                None => text_of(self@) is None,
            },
    {
        if let Some(message) = self.message() {
            if message.content().is_some() {
                return message.content();
            }
        }
        self.response()
    }

    /// The number of tokens used: those evaluated and those of the prompt.
    pub fn tokens_used(&self) -> (n: u64)
        ensures
            n == tokens_of(self@),
    {
        let eval: u64 = match self.eval_count {
            Some(n) => n as u64,
            None => 0,
        };
        let prompt: u64 = match self.prompt_eval_count {
            Some(n) => n as u64,
            None => 0,
        };
        eval + prompt
    }

    /// When the response was created.
    pub fn created_at(&self) -> (r: Option<&str>)
        ensures
            match r {
                Some(s) => self@.created_at == Some(s@),
                None => self@.created_at is None,
            },
    {
        opt_str(&self.created_at)
    }

    /// Whether this is the last response of its stream.
    pub fn done(&self) -> (r: Option<&bool>)
        ensures
            match r {
                Some(b) => self@.done == Some(*b),
                None => self@.done is None,
            },
    {
        self.done.as_ref()
    }

    /// Why the generation ended.
    pub fn done_reason(&self) -> (r: Option<&str>)
        ensures
            match r {
                Some(s) => self@.done_reason == Some(s@),
                None => self@.done_reason is None,
            },
    {
        opt_str(&self.done_reason)
    }

    /// The error that the backend reports.
    pub fn error(&self) -> (r: Option<&str>)
        ensures
            match r {
                Some(s) => self@.error == Some(s@),
                None => self@.error is None,
            },
    {
        opt_str(&self.error)
    }

    /// The number of tokens evaluated.
    pub fn eval_count(&self) -> (r: Option<&u32>)
        ensures
            match r {
                Some(n) => self@.eval_count == Some(*n),
                None => self@.eval_count is None,
            },
    {
        self.eval_count.as_ref()
    }

    /// The time spent on the evaluation, in nanoseconds.
    pub fn eval_duration(&self) -> (r: Option<&u64>)
        ensures
            match r {
                Some(n) => self@.eval_duration == Some(*n),
                None => self@.eval_duration is None,
            },
    {
        self.eval_duration.as_ref()
    }

    /// The time spent on loading the model, in nanoseconds.
    pub fn load_duration(&self) -> (r: Option<&u64>)
        ensures
            match r {
                Some(n) => self@.load_duration == Some(*n),
                None => self@.load_duration is None,
            },
    {
        self.load_duration.as_ref()
    }

    /// The message of the response.
    pub fn message(&self) -> (r: Option<&OllamaMessage>)
        ensures
            match r {
                Some(m) => self@.message == Some(m@),
                None => self@.message is None,
            },
    {
        self.message.as_ref()
    }

    /// Sets the message of the response.
    pub fn set_message(&mut self, message: OllamaMessage)
        ensures
            final(self)@ == (OllamaResponse2View { message: Some(message@), ..old(self)@ }),
    {
        self.message = Some(message);
    }

    /// The name of the model that answered.
    pub fn model(&self) -> (r: Option<&str>)
        ensures
            match r {
                Some(s) => self@.model == Some(s@),
                None => self@.model is None,
            },
    {
        opt_str(&self.model)
    }

    /// The number of tokens of the prompt.
    pub fn prompt_eval_count(&self) -> (r: Option<&u32>)
        ensures
            match r {
                Some(n) => self@.prompt_eval_count == Some(*n),
                None => self@.prompt_eval_count is None,
            },
    {
        self.prompt_eval_count.as_ref()
    }

    /// The time spent on evaluating the prompt, in nanoseconds.
    pub fn prompt_eval_duration(&self) -> (r: Option<&u64>)
        ensures
            match r {
                Some(n) => self@.prompt_eval_duration == Some(*n),
                None => self@.prompt_eval_duration is None,
            },
    {
        self.prompt_eval_duration.as_ref()
    }

    /// The `response` field: the text of a response that has no message.
    pub fn response(&self) -> (r: Option<&str>)
        ensures
            match r {
                Some(s) => self@.response == Some(s@),
                None => self@.response is None,
            },
    {
        opt_str(&self.response)
    }

    /// Sets the `response` field.
    pub fn set_response(&mut self, response: &str)
        ensures
            final(self)@ == (OllamaResponse2View { response: Some(response@), ..old(self)@ }),
    {
        self.response = Some(response.to_owned());
    }

    /// The time spent on the whole request, in nanoseconds.
    pub fn total_duration(&self) -> (r: Option<&u64>)
        ensures
            match r {
                Some(n) => self@.total_duration == Some(*n),
                None => self@.total_duration is None,
            },
    {
        self.total_duration.as_ref()
    }
}

} // verus!
