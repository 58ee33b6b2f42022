//! The wire forms of requests and responses: the JSON documents that the API reads and
//! writes.

use vstd::prelude::*;
use crate::decode::{required_text, text_field, u32_field, DecodeError};
use crate::encode::{
    holds_number, holds_text, holds_value, put_optional_number, put_optional_text,
    put_optional_value, put_text, wide_u32,
};
use crate::gemini::gemini_content::{GeminiContent, GeminiContentView};
use crate::gemini::gemini_function::{
    GeminiFunctionDeclaration, GeminiFunctionDeclarationView, GeminiToolDeclaration,
};
use crate::gemini::gemini_part::{
    GeminiFunctionCallView, GeminiFunctionResponseView, GeminiPart, GeminiPartCodeView,
    GeminiPartView,
};
use crate::gemini::gemini_request::{GeminiRequest, GeminiRequestView};
use crate::gemini::gemini_response::{
    call_part_of, candidate_of, candidates_field, candidates_of, code_part_of, content_of,
    gemini_response_of, part_of, parts_of, response_part_of, GeminiCandidate,
    GeminiCandidateView, GeminiResponse, GeminiResponseView,
};
use crate::json::{
    array_of, duplicate, empty_object, insert_member, json_is_null, json_is_object, json_items,
    json_member, json_pretty, object_with, pretty,
};

verus! {

/// Whether an object has no member but the one under `key`.
pub open spec fn only_member(doc: serde_json::Value, key: Seq<char>) -> bool {
    forall|k: Seq<char>| k != key ==> (#[trigger] json_member(doc, k)) is None
}

/// Whether a document is the wire form of code:
/// `{"executable_code": {"language": .., "code": ..}}`.
pub open spec fn is_code_json(doc: serde_json::Value, code: GeminiPartCodeView) -> bool {
    &&& json_is_object(doc)
    &&& only_member(doc, "executable_code"@)
    &&& json_member(doc, "executable_code"@) matches Some(inner)
    &&& holds_text(inner, "language"@, Some(code.language))
    &&& holds_text(inner, "code"@, Some(code.code))
}

/// Whether a document is the wire form of a call: `{"functionCall": {"name": .., "args": ..}}`.
pub open spec fn is_call_json(doc: serde_json::Value, call: GeminiFunctionCallView) -> bool {
    &&& json_is_object(doc)
    &&& only_member(doc, "functionCall"@)
    &&& json_member(doc, "functionCall"@) matches Some(inner)
    &&& holds_text(inner, "name"@, Some(call.name))
    &&& json_member(inner, "args"@) == Some(call.args)
}

/// Whether a document is the wire form of the response of a function:
/// `{"function_response": {"name": .., "response": ..}}`.
pub open spec fn is_response_json(doc: serde_json::Value, response: GeminiFunctionResponseView) -> bool {
    &&& json_is_object(doc)
    &&& only_member(doc, "function_response"@)
    &&& json_member(doc, "function_response"@) matches Some(inner)
    &&& holds_text(inner, "name"@, Some(response.name))
    &&& json_member(inner, "response"@) == Some(response.response)
}

/// Whether a document is the wire form of a text: `{"text": ..}`.
pub open spec fn is_text_json(doc: serde_json::Value, text: Seq<char>) -> bool {
    &&& json_is_object(doc)
    &&& only_member(doc, "text"@)
    &&& holds_text(doc, "text"@, Some(text))
}

/// Whether a document is the wire form of a part.
pub open spec fn is_part_json(doc: serde_json::Value, part: GeminiPartView) -> bool {
    match part {
        GeminiPartView::Code(code) => is_code_json(doc, code),
        GeminiPartView::FunctionCall(call) => is_call_json(doc, call),
        GeminiPartView::FunctionResponse(response) => is_response_json(doc, response),
        GeminiPartView::Text(text) => is_text_json(doc, text),
    }
}

/// Whether a document is the array of the wire forms of parts, in their order.
pub open spec fn is_parts_json(doc: serde_json::Value, parts: Seq<GeminiPartView>) -> bool {
    &&& json_items(doc) matches Some(docs)
    &&& docs.len() == parts.len()
    &&& forall|i: int| 0 <= i < docs.len() ==> is_part_json(#[trigger] docs[i], parts[i])
}

/// Whether a document is the wire form of a content: `{"role": .., "parts": [..]}`, the role
/// only where the content has one.
pub open spec fn is_content_json(doc: serde_json::Value, content: GeminiContentView) -> bool {
    &&& json_is_object(doc)
    &&& holds_text(doc, "role"@, content.role)
    &&& json_member(doc, "parts"@) matches Some(parts)
    &&& is_parts_json(parts, content.parts)
    &&& forall|k: Seq<char>| k != "role"@ && k != "parts"@ ==> (#[trigger] json_member(doc, k))
        is None
}

/// Whether a document is the array of the wire forms of contents, in their order.
pub open spec fn is_contents_json(doc: serde_json::Value, contents: Seq<GeminiContentView>) -> bool {
    &&& json_items(doc) matches Some(docs)
    &&& docs.len() == contents.len()
    &&& forall|i: int| 0 <= i < docs.len() ==> is_content_json(#[trigger] docs[i], contents[i])
}

/// Whether a document is the wire form of the declaration of a function:
/// `{"name": .., "description": .., "parameters": ..}`.
pub open spec fn is_declaration_json(
    doc: serde_json::Value,
    declaration: GeminiFunctionDeclarationView,
) -> bool {
    &&& json_is_object(doc)
    &&& holds_text(doc, "name"@, Some(declaration.name))
    &&& holds_text(doc, "description"@, Some(declaration.description))
    &&& json_member(doc, "parameters"@) == Some(declaration.parameters)
    &&& forall|k: Seq<char>|
        k != "name"@ && k != "description"@ && k != "parameters"@ ==> (#[trigger] json_member(
            doc,
            k,
        )) is None
}

/// Whether a document holds, under `key`, the array of documents of which each is related
/// to the item at its place; or no member where there are no items.
pub open spec fn holds_items<T>(
    doc: serde_json::Value,
    key: Seq<char>,
    items: Seq<T>,
    related: spec_fn(serde_json::Value, T) -> bool,
) -> bool {
    if items.len() == 0 {
        json_member(doc, key) is None
    } else {
        &&& json_member(doc, key) matches Some(array)
        &&& json_items(array) matches Some(docs)
        &&& docs.len() == items.len()
        &&& forall|i: int| 0 <= i < docs.len() ==> related(#[trigger] docs[i], items[i])
    }
}

/// Whether a document is the wire form of a tool: `{"functionDeclarations": [..]}`, the
/// member only where the tool declares a function.
pub open spec fn is_tool_json(doc: serde_json::Value, tool: Seq<GeminiFunctionDeclarationView>) -> bool {
    &&& json_is_object(doc)
    &&& only_member(doc, "functionDeclarations"@)
    &&& holds_items(
        doc,
        "functionDeclarations"@,
        tool,
        |d: serde_json::Value, f: GeminiFunctionDeclarationView| is_declaration_json(d, f),
    )
}

/// Whether a document is the wire form of a request: `{"contents": [..], "tools": [..]}`,
/// each member only where the request has contents or tools.
pub open spec fn is_request_json(doc: serde_json::Value, request: GeminiRequestView) -> bool {
    &&& json_is_object(doc)
    &&& holds_items(
        doc,
        "contents"@,
        request.contents,
        |d: serde_json::Value, c: GeminiContentView| is_content_json(d, c),
    )
    &&& holds_items(
        doc,
        "tools"@,
        request.tools,
        |d: serde_json::Value, t: Seq<GeminiFunctionDeclarationView>| is_tool_json(d, t),
    )
    &&& forall|k: Seq<char>| k != "contents"@ && k != "tools"@ ==> (#[trigger] json_member(doc, k))
        is None
}

/// Whether a document is the wire form of a candidate:
/// `{"index": .., "content": {..}, "finishReason": ..}`, the index and the reason only where
/// the candidate has them.
pub open spec fn is_candidate_json(doc: serde_json::Value, candidate: GeminiCandidateView) -> bool {
    &&& json_is_object(doc)
    &&& holds_number(doc, "index"@, wide_u32(candidate.index))
    &&& json_member(doc, "content"@) matches Some(content)
    &&& is_content_json(content, candidate.content)
    &&& holds_text(doc, "finishReason"@, candidate.finish_reason)
    &&& forall|k: Seq<char>|
        k != "index"@ && k != "content"@ && k != "finishReason"@ ==> (#[trigger] json_member(
            doc,
            k,
        )) is None
}

/// Whether a document is the array of the wire forms of candidates, in their order.
pub open spec fn is_candidates_json(doc: serde_json::Value, candidates: Seq<GeminiCandidateView>) -> bool {
    &&& json_items(doc) matches Some(docs)
    &&& docs.len() == candidates.len()
    &&& forall|i: int| 0 <= i < docs.len() ==> is_candidate_json(#[trigger] docs[i], candidates[i])
}

/// Whether a document is the wire form of a response: `{"candidates": [..], "error": ..}`,
/// each member only where the response has it.
pub open spec fn is_gemini_response_json(doc: serde_json::Value, response: GeminiResponseView) -> bool {
    &&& json_is_object(doc)
    &&& match response.candidates {
        Some(candidates) => json_member(doc, "candidates"@) matches Some(v) && is_candidates_json(
            v,
            candidates,
        ) && !json_is_null(v),
        None => json_member(doc, "candidates"@) is None,
    }
    &&& holds_value(doc, "error"@, response.error)
    &&& forall|k: Seq<char>| k != "candidates"@ && k != "error"@ ==> (#[trigger] json_member(doc, k))
        is None
}

/// The wire form of a candidate reads back as that candidate.
pub proof fn lemma_candidate_json_reads_back(doc: serde_json::Value, candidate: GeminiCandidateView)
    requires
        is_candidate_json(doc, candidate),
    ensures
        candidate_of(doc) == Some(candidate),
{
    lemma_content_json_reads_back(json_member(doc, "content"@)->Some_0, candidate.content);
    assert(u32_field(doc, "index"@) == Ok::<Option<u32>, DecodeError>(candidate.index));
    assert(text_field(doc, "finishReason"@) == Ok::<Option<Seq<char>>, DecodeError>(
        candidate.finish_reason,
    ));
}

/// The wire form of a response reads back as that response, where its error is not `null`.
pub proof fn lemma_gemini_response_json_reads_back(doc: serde_json::Value, response: GeminiResponseView)
    requires
        is_gemini_response_json(doc, response),
        response.error matches Some(error) ==> !json_is_null(error),
    ensures
        gemini_response_of(doc) == Ok::<GeminiResponseView, DecodeError>(response),
{
    if let Some(candidates) = response.candidates {
        let docs = json_items(json_member(doc, "candidates"@)->Some_0)->Some_0;
        assert forall|i: int| 0 <= i < docs.len() implies (#[trigger] candidate_of(docs[i]))
            == Some(candidates[i]) by {
            lemma_candidate_json_reads_back(docs[i], candidates[i]);
        }
        assert(candidates_of(docs) is Some);
        assert(docs.map_values(|d: serde_json::Value| candidate_of(d)->Some_0) =~= candidates);
    }
    assert(candidates_field(doc) == Some(response.candidates));
}

/// The names of the members of the wire forms differ from one another.
proof fn lemma_wire_keys()
    ensures
        "index"@ != "content"@,
        "index"@ != "finishReason"@,
        "content"@ != "finishReason"@,
        "candidates"@ != "error"@,
        "executable_code"@ != "functionCall"@,
        "executable_code"@ != "function_response"@,
        "executable_code"@ != "text"@,
        "functionCall"@ != "function_response"@,
        "functionCall"@ != "text"@,
        "function_response"@ != "text"@,
        "language"@ != "code"@,
        "name"@ != "args"@,
        "name"@ != "response"@,
        "role"@ != "parts"@,
        "name"@ != "description"@,
        "name"@ != "parameters"@,
        "description"@ != "parameters"@,
        "contents"@ != "tools"@,
{
    reveal_strlit("index");
    reveal_strlit("content");
    reveal_strlit("finishReason");
    reveal_strlit("candidates");
    reveal_strlit("error");
    assert("index"@.len() == 5);
    assert("content"@.len() == 7);
    assert("finishReason"@.len() == 12);
    assert("candidates"@.len() == 10);
    assert("error"@.len() == 5);
    reveal_strlit("executable_code");
    reveal_strlit("functionCall");
    reveal_strlit("function_response");
    reveal_strlit("text");
    reveal_strlit("language");
    reveal_strlit("code");
    reveal_strlit("name");
    reveal_strlit("args");
    reveal_strlit("response");
    reveal_strlit("role");
    reveal_strlit("parts");
    reveal_strlit("description");
    reveal_strlit("parameters");
    reveal_strlit("contents");
    reveal_strlit("tools");
    assert("executable_code"@.len() == 15);
    assert("functionCall"@.len() == 12);
    assert("function_response"@.len() == 17);
    assert("text"@.len() == 4);
    assert("language"@.len() == 8);
    assert("code"@.len() == 4);
    assert("name"@.len() == 4 && "name"@[0] == 'n');
    assert("args"@.len() == 4 && "args"@[0] == 'a');
    assert("response"@.len() == 8);
    assert("role"@.len() == 4);
    assert("parts"@.len() == 5);
    assert("description"@.len() == 11);
    assert("parameters"@.len() == 10);
    assert("contents"@.len() == 8);
    assert("tools"@.len() == 5);
}

/// The wire form of a part reads back as that part.
pub proof fn lemma_part_json_reads_back(doc: serde_json::Value, part: GeminiPartView)
    requires
        is_part_json(doc, part),
    ensures
        part_of(doc) == Some(part),
{
    lemma_wire_keys();
    match part {
        GeminiPartView::Code(code) => {
            let inner = json_member(doc, "executable_code"@)->Some_0;
            assert(required_text(inner, "language"@) == Some(code.language));
            assert(required_text(inner, "code"@) == Some(code.code));
            assert(code_part_of(doc) == Some(code));
        },
        GeminiPartView::FunctionCall(call) => {
            let inner = json_member(doc, "functionCall"@)->Some_0;
            assert(json_member(doc, "executable_code"@) is None);
            assert(required_text(inner, "name"@) == Some(call.name));
            assert(code_part_of(doc) is None);
            assert(call_part_of(doc) == Some(call));
        },
        GeminiPartView::FunctionResponse(response) => {
            let inner = json_member(doc, "function_response"@)->Some_0;
            assert(json_member(doc, "executable_code"@) is None);
            assert(json_member(doc, "functionCall"@) is None);
            assert(required_text(inner, "name"@) == Some(response.name));
            assert(code_part_of(doc) is None);
            assert(call_part_of(doc) is None);
            assert(response_part_of(doc) == Some(response));
        },
        GeminiPartView::Text(text) => {
            assert(json_member(doc, "executable_code"@) is None);
            assert(json_member(doc, "functionCall"@) is None);
            assert(json_member(doc, "function_response"@) is None);
            assert(code_part_of(doc) is None);
            assert(call_part_of(doc) is None);
            assert(response_part_of(doc) is None);
            assert(required_text(doc, "text"@) == Some(text));
        },
    }
}

/// The wire form of a content reads back as that content: the same role, and the same parts
/// in the same order.
pub proof fn lemma_content_json_reads_back(doc: serde_json::Value, content: GeminiContentView)
    requires
        is_content_json(doc, content),
    ensures
        content_of(doc) == Some(content),
{
    let parts = json_member(doc, "parts"@)->Some_0;
    let docs = json_items(parts)->Some_0;
    assert forall|i: int| 0 <= i < docs.len() implies (#[trigger] part_of(docs[i])) == Some(
        content.parts[i],
    ) by {
        lemma_part_json_reads_back(docs[i], content.parts[i]);
    }
    assert(parts_of(docs) is Some);
    assert(docs.map_values(|d: serde_json::Value| part_of(d)->Some_0) =~= content.parts);
    assert(crate::decode::text_field(doc, "role"@) == Ok::<
        Option<Seq<char>>,
        crate::decode::DecodeError,
    >(content.role));
}

/// The wire form of a part (see `is_part_json`). It reads back as the part.
pub fn part_to_json(part: &GeminiPart) -> (r: serde_json::Value)
    ensures
        is_part_json(r, part@),
        part_of(r) == Some(part@),
{
    proof {
        lemma_wire_keys();
    }
    let doc = match part {
        GeminiPart::Code(code) => {
            let mut inner = empty_object();
            put_text(&mut inner, "language", code.executable_code.language.as_str());
            put_text(&mut inner, "code", code.executable_code.code.as_str());
            object_with("executable_code", inner)
        },
        GeminiPart::FunctionCall(call) => {
            let mut inner = empty_object();
            insert_member(&mut inner, "args", duplicate(call.args()));
            put_text(&mut inner, "name", call.name());
            object_with("functionCall", inner)
        },
        GeminiPart::FunctionResponse(response) => {
            let mut inner = empty_object();
            insert_member(
                &mut inner,
                "response",
                duplicate(&response.function_response.response),
            );
            put_text(&mut inner, "name", response.function_response.name.as_str());
            object_with("function_response", inner)
        },
        GeminiPart::Text(text) => {
            let mut doc = empty_object();
            put_text(&mut doc, "text", text.text.as_str());
            doc
        },
    };
    proof {
        lemma_part_json_reads_back(doc, part@);
    }
    doc
}

/// The array of the wire forms of parts, in their order.
pub fn parts_to_json(parts: &Vec<GeminiPart>) -> (r: serde_json::Value)
    ensures
        is_parts_json(r, crate::gemini::gemini_part::part_views(parts@)),
        !json_is_null(r),
{
    let mut docs: Vec<serde_json::Value> = Vec::new();
    for i in 0..parts.len()
        invariant
            docs@.len() == i,
            forall|j: int| 0 <= j < i ==> is_part_json(#[trigger] docs@[j], parts@[j]@),
    {
        docs.push(part_to_json(&parts[i]));
    }
    array_of(docs)
}

impl GeminiContent {
    /// The wire form of the content (see `is_content_json`). It reads back as the content.
    pub fn to_json(&self) -> (r: serde_json::Value)
        ensures
            is_content_json(r, self@),
            content_of(r) == Some(self@),
    {
        proof {
            lemma_wire_keys();
        }
        let mut doc = empty_object();
        match self.role_name() {
            Some(role) => {
                put_text(&mut doc, "role", role);
            },
            None => {},
        }
        insert_member(&mut doc, "parts", parts_to_json(self.parts()));
        proof {
            lemma_content_json_reads_back(doc, self@);
        }
        doc
    }
}

impl GeminiCandidate {
    /// The wire form of the candidate (see `is_candidate_json`). It reads back as the
    /// candidate.
    pub fn to_json(&self) -> (r: serde_json::Value)
        ensures
            is_candidate_json(r, self@),
            candidate_of(r) == Some(self@),
    {
        proof {
            lemma_wire_keys();
        }
        let mut doc = empty_object();
        put_optional_number(
            &mut doc,
            "index",
            match self.index {
                Some(n) => Some(n as u64),
                None => None,
            },
        );
        insert_member(&mut doc, "content", self.content.to_json());
        put_optional_text(&mut doc, "finishReason", &self.finish_reason);
        proof {
            lemma_candidate_json_reads_back(doc, self@);
        }
        doc
    }
}

impl GeminiResponse {
    /// The wire form of the response (see `is_gemini_response_json`).
    pub fn to_json(&self) -> (r: serde_json::Value)
        ensures
            is_gemini_response_json(r, self@),
    {
        proof {
            lemma_wire_keys();
        }
        let mut doc = empty_object();
        if let Some(candidates) = &self.candidates {
            let mut docs: Vec<serde_json::Value> = Vec::new();
            for i in 0..candidates.len()
                invariant
                    docs@.len() == i,
                    forall|j: int|
                        0 <= j < i ==> is_candidate_json(#[trigger] docs@[j], candidates@[j]@),
            {
                docs.push(candidates[i].to_json());
            }
            insert_member(&mut doc, "candidates", array_of(docs));
        }
        put_optional_value(
            &mut doc,
            "error",
            match &self.error {
                Some(error) => Some(duplicate(error)),
                None => None,
            },
        );
        doc
    }

    /// The wire form of the response as indented JSON text.
    pub fn to_string_pretty(&self) -> (r: String)
        ensures
            exists|doc: serde_json::Value|
                is_gemini_response_json(doc, self@) && r@ == json_pretty(doc),
    {
        let doc = self.to_json();
        pretty(&doc)
    }
}

impl GeminiFunctionDeclaration {
    /// The wire form of the declaration (see `is_declaration_json`).
    pub fn to_json(&self) -> (r: serde_json::Value)
        ensures
            is_declaration_json(r, self@),
    {
        proof {
            lemma_wire_keys();
        }
        let mut doc = empty_object();
        insert_member(&mut doc, "parameters", duplicate(&self.parameters));
        put_text(&mut doc, "name", self.name.as_str());
        put_text(&mut doc, "description", self.description.as_str());
        doc
    }
}

impl GeminiToolDeclaration {
    /// The wire form of the tool (see `is_tool_json`).
    pub fn to_json(&self) -> (r: serde_json::Value)
        ensures
            is_tool_json(r, self@),
    {
        let declarations = self.function_declarations();
        let mut doc = empty_object();
        if declarations.len() > 0 {
            let mut docs: Vec<serde_json::Value> = Vec::new();
            for i in 0..declarations.len()
                invariant
                    docs@.len() == i,
                    forall|j: int|
                        0 <= j < i ==> is_declaration_json(#[trigger] docs@[j], declarations@[j]@),
            {
                docs.push(declarations[i].to_json());
            }
            insert_member(&mut doc, "functionDeclarations", array_of(docs));
        }
        doc
    }
}

impl GeminiRequest {
    /// The wire form of the request (see `is_request_json`): the contents in the order of the
    /// conversation, and the tools.
    pub fn to_json(&self) -> (r: serde_json::Value)
        ensures
            is_request_json(r, self@),
    {
        proof {
            lemma_wire_keys();
        }
        let mut doc = empty_object();
        if self.contents.len() > 0 {
            let mut docs: Vec<serde_json::Value> = Vec::new();
            for i in 0..self.contents.len()
                invariant
                    docs@.len() == i,
                    forall|j: int|
                        0 <= j < i ==> is_content_json(#[trigger] docs@[j], self.contents@[j]@),
            {
                docs.push(self.contents[i].to_json());
            }
            insert_member(&mut doc, "contents", array_of(docs));
        }
        if self.tools.len() > 0 {
            let mut docs: Vec<serde_json::Value> = Vec::new();
            for i in 0..self.tools.len()
                invariant
                    docs@.len() == i,
                    forall|j: int| 0 <= j < i ==> is_tool_json(#[trigger] docs@[j], self.tools@[j]@),
            {
                docs.push(self.tools[i].to_json());
            }
            insert_member(&mut doc, "tools", array_of(docs));
        }
        doc
    }

    /// The wire form of the request as indented JSON text.
    pub fn to_string_pretty(&self) -> (r: String)
        ensures
            exists|doc: serde_json::Value| is_request_json(doc, self@) && r@ == json_pretty(doc),
    {
        let doc = self.to_json();
        pretty(&doc)
    }
}

} // verus!
