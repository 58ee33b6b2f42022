//! A response of the model: the candidates it proposes, or the error it reports.

use vstd::prelude::*;
use crate::decode::{
    field, read_field, read_required_text, read_text, read_u32, required_text, text_field,
    u32_field, DecodeError,
};
use crate::gemini::gemini_content::{GeminiContent, GeminiContentView};
use crate::gemini::gemini_part::{
    part_views, GeminiFunctionCall, GeminiFunctionCallView, GeminiFunctionResponse,
    GeminiFunctionResponseDetails, GeminiFunctionResponseView, GeminiPart, GeminiPartCode,
    GeminiPartCodeView, GeminiPartText, GeminiPartView,
};
use crate::json::{
    duplicate, is_object, items, json_is_object, json_items, json_member, member,
};
use crate::text::{opt_string_clone, opt_text};

verus! {

/// What a candidate holds.
pub struct GeminiCandidateView {
    pub index: Option<u32>,
    pub content: GeminiContentView,
    pub finish_reason: Option<Seq<char>>,
}

/// One candidate of a response: a content, and why the generation ended, if it did.
#[derive(Debug)]
pub struct GeminiCandidate {
    pub index: Option<u32>,
    pub content: GeminiContent,
    pub finish_reason: Option<String>,
}

impl View for GeminiCandidate {
    type V = GeminiCandidateView;

    open spec fn view(&self) -> GeminiCandidateView {
        GeminiCandidateView {
            index: self.index,
            content: self.content@,
            finish_reason: opt_text(self.finish_reason),
        }
    }
}

impl Clone for GeminiCandidate {
    fn clone(&self) -> (r: Self)
        ensures
            r@ == self@,
    {
        GeminiCandidate {
            index: self.index,
            content: self.content.clone(),
            finish_reason: opt_string_clone(&self.finish_reason),
        }
    }
}

/// The views of candidates, in order.
pub open spec fn candidate_views(candidates: Seq<GeminiCandidate>) -> Seq<GeminiCandidateView> {
    candidates.map_values(|c: GeminiCandidate| c@)
}

/// What a response holds.
pub struct GeminiResponseView {
    pub candidates: Option<Seq<GeminiCandidateView>>,
    /// The error that the backend reports, a JSON document.
    pub error: Option<serde_json::Value>,
}

/// A response of the model.
#[derive(Debug)]
pub struct GeminiResponse {
    pub candidates: Option<Vec<GeminiCandidate>>,
    pub error: Option<serde_json::Value>,
}

impl View for GeminiResponse {
    type V = GeminiResponseView;

    open spec fn view(&self) -> GeminiResponseView {
        GeminiResponseView {
            candidates: match self.candidates {
                Some(candidates) => Some(candidate_views(candidates@)),
                None => None,
            },
            error: self.error,
        }
    }
}

impl Clone for GeminiResponse {
    fn clone(&self) -> (r: Self)
        ensures
            r@ == self@,
    {
        GeminiResponse {
            candidates: match &self.candidates {
                Some(candidates) => {
                    let mut copy: Vec<GeminiCandidate> = Vec::new();
                    for i in 0..candidates.len()
                        invariant
                            copy@.len() == i,
                            forall|j: int| 0 <= j < i ==> copy@[j]@ == candidates@[j]@,
                    {
                        copy.push(candidates[i].clone());
                    }
                    assert(candidate_views(copy@) =~= candidate_views(candidates@));
                    Some(copy)
                },
                None => None,
            },
            error: match &self.error {
                Some(error) => Some(duplicate(error)),
                None => None,
            },
        }
    }
}

/// The content of a response: that of its first candidate.
pub open spec fn first_content(response: GeminiResponseView) -> Option<GeminiContentView> {
    match response.candidates {
        Some(candidates) => if candidates.len() > 0 {
            Some(candidates[0].content)
        } else {
            None
        },
        None => None,
    }
}

/// The text of a response: that of the first part of its content, where that part is text.
pub open spec fn first_text(response: GeminiResponseView) -> Option<Seq<char>> {
    match first_content(response) {
        Some(content) => if content.parts.len() > 0 {
            match content.parts[0] {
                GeminiPartView::Text(text) => Some(text),
                _ => None,
            }
        } else {
            None
        },
        None => None,
    }
}

/// The calls of functions among parts, in the order of the parts.
pub open spec fn calls_among(parts: Seq<GeminiPartView>) -> Seq<GeminiFunctionCallView>
    decreases parts.len(),
{
    if parts.len() == 0 {
        Seq::empty()
    } else {
        match parts.last() {
            GeminiPartView::FunctionCall(call) => calls_among(parts.drop_last()).push(call),
            _ => calls_among(parts.drop_last()),
        }
    }
}

/// The calls of functions that a response asks for: those of its content.
pub open spec fn function_calls(response: GeminiResponseView) -> Seq<GeminiFunctionCallView> {
    match first_content(response) {
        Some(content) => calls_among(content.parts),
        None => Seq::empty(),
    }
}

/// The views of calls held by reference, in order.
pub open spec fn call_views(calls: Seq<&GeminiFunctionCall>) -> Seq<GeminiFunctionCallView> {
    calls.map_values(|c: &GeminiFunctionCall| c@)
}

/// The code that a document describes: `{"executable_code": {"language": .., "code": ..}}`.
pub open spec fn code_part_of(doc: serde_json::Value) -> Option<GeminiPartCodeView> {
    match json_member(doc, "executable_code"@) {
        Some(code) => if required_text(code, "language"@) is Some && required_text(
            code,
            "code"@,
        ) is Some {
            Some(
                GeminiPartCodeView {
                    language: required_text(code, "language"@)->Some_0,
                    code: required_text(code, "code"@)->Some_0,
                },
            )
        } else {
            None
        },
        None => None,
    }
}

/// The call that a document describes: `{"functionCall": {"name": .., "args": ..}}`.
pub open spec fn call_part_of(doc: serde_json::Value) -> Option<GeminiFunctionCallView> {
    match json_member(doc, "functionCall"@) {
        Some(call) => if required_text(call, "name"@) is Some && json_member(call, "args"@)
            is Some {
            Some(
                GeminiFunctionCallView {
                    name: required_text(call, "name"@)->Some_0,
                    args: json_member(call, "args"@)->Some_0,
                },
            )
        } else {
            None
        },
        None => None,
    }
}

/// The response of a function that a document describes:
/// `{"function_response": {"name": .., "response": ..}}`.
pub open spec fn response_part_of(doc: serde_json::Value) -> Option<GeminiFunctionResponseView> {
    match json_member(doc, "function_response"@) {
        Some(response) => if required_text(response, "name"@) is Some && json_member(
            response,
            "response"@,
        ) is Some {
            Some(
                GeminiFunctionResponseView {
                    name: required_text(response, "name"@)->Some_0,
                    response: json_member(response, "response"@)->Some_0,
                },
            )
        } else {
            None
        },
        None => None,
    }
}

/// The part that a document describes: code, a call, the response of a function or text,
/// the first of these that the document fits; none where it fits none.
pub open spec fn part_of(doc: serde_json::Value) -> Option<GeminiPartView> {
    if code_part_of(doc) is Some {
        Some(GeminiPartView::Code(code_part_of(doc)->Some_0))
    } else if call_part_of(doc) is Some {
        Some(GeminiPartView::FunctionCall(call_part_of(doc)->Some_0))
    } else if response_part_of(doc) is Some {
        Some(GeminiPartView::FunctionResponse(response_part_of(doc)->Some_0))
    } else if required_text(doc, "text"@) is Some {
        Some(GeminiPartView::Text(required_text(doc, "text"@)->Some_0))
    } else {
        None
    }
}

/// The parts that an array of documents describes, where each describes one.
pub open spec fn parts_of(docs: Seq<serde_json::Value>) -> Option<Seq<GeminiPartView>> {
    if forall|i: int| 0 <= i < docs.len() ==> (#[trigger] part_of(docs[i])) is Some {
        Some(docs.map_values(|d: serde_json::Value| part_of(d)->Some_0))
    } else {
        None
    }
}

/// The content that a document describes: an optional `role` that is text, and `parts`, an
/// array of which every item describes a part.
pub open spec fn content_of(doc: serde_json::Value) -> Option<GeminiContentView> {
    match (text_field(doc, "role"@), json_member(doc, "parts"@)) {
        (Ok(role), Some(parts)) => match json_items(parts) {
            Some(docs) => match parts_of(docs) {
                Some(parts) => Some(GeminiContentView { role, parts }),
                None => None,
            },
            None => None,
        },
        _ => None,
    }
}

/// The candidate that a document describes: an optional `index`, a `content`, and an
/// optional `finishReason`.
pub open spec fn candidate_of(doc: serde_json::Value) -> Option<GeminiCandidateView> {
    match (
        u32_field(doc, "index"@),
        json_member(doc, "content"@),
        text_field(doc, "finishReason"@),
    ) {
        (Ok(index), Some(content), Ok(finish_reason)) => match content_of(content) {
            Some(content) => Some(GeminiCandidateView { index, content, finish_reason }),
            None => None,
        },
        _ => None,
    }
}

/// The candidates that an array of documents describes, where each describes one.
pub open spec fn candidates_of(docs: Seq<serde_json::Value>) -> Option<Seq<GeminiCandidateView>> {
    if forall|i: int| 0 <= i < docs.len() ==> (#[trigger] candidate_of(docs[i])) is Some {
        Some(docs.map_values(|d: serde_json::Value| candidate_of(d)->Some_0))
    } else {
        None
    }
}

/// The candidates field of a response: absent, or an array of candidates.
pub open spec fn candidates_field(doc: serde_json::Value) -> Option<
    Option<Seq<GeminiCandidateView>>,
> {
    match field(doc, "candidates"@) {
        None => Some(None),
        Some(candidates) => match json_items(candidates) {
            Some(docs) => match candidates_of(docs) {
                Some(candidates) => Some(Some(candidates)),
                None => None,
            },
            None => None,
        },
    }
}

/// The response that a document describes: an object with optional `candidates` and an
/// optional `error`.
pub open spec fn gemini_response_of(doc: serde_json::Value) -> Result<
    GeminiResponseView,
    DecodeError,
> {
    if !json_is_object(doc) {
        Err(DecodeError::NotAnObject)
    } else {
        match candidates_field(doc) {
            Some(candidates) => Ok(GeminiResponseView { candidates, error: field(doc, "error"@) }),
            None => Err(DecodeError::InvalidField),
        }
    }
}

fn read_code_part(doc: &serde_json::Value) -> (r: Option<GeminiPartCode>)
    ensures
        match r {
            Some(code) => code_part_of(*doc) == Some(code@),
            None => code_part_of(*doc) is None,
        },
{
    let code = member(doc, "executable_code")?;
    let language = read_required_text(code, "language")?;
    let text = read_required_text(code, "code")?;
    Some(GeminiPartCode::new(language.as_str(), text.as_str()))
}

fn read_call_part(doc: &serde_json::Value) -> (r: Option<GeminiFunctionCall>)
    ensures
        match r {
            Some(call) => call_part_of(*doc) == Some(call@),
            None => call_part_of(*doc) is None,
        },
{
    let call = member(doc, "functionCall")?;
    let name = read_required_text(call, "name")?;
    let args = member(call, "args")?;
    Some(GeminiFunctionCall::new(name.as_str(), duplicate(args)))
}

fn read_response_part(doc: &serde_json::Value) -> (r: Option<GeminiFunctionResponse>)
    ensures
        match r {
            Some(response) => response_part_of(*doc) == Some(response@),
            None => response_part_of(*doc) is None,
        },
{
    let response = member(doc, "function_response")?;
    let name = read_required_text(response, "name")?;
    let value = member(response, "response")?;
    Some(
        GeminiFunctionResponse {
            function_response: GeminiFunctionResponseDetails { name, response: duplicate(value) },
        },
    )
}

/// Reads a part from a JSON document (see `part_of`).
pub fn read_part(doc: &serde_json::Value) -> (r: Option<GeminiPart>)
    ensures
        match r {
            Some(part) => part_of(*doc) == Some(part@),
            None => part_of(*doc) is None,
        },
{
    if let Some(code) = read_code_part(doc) {
        return Some(GeminiPart::Code(code));
    }
    if let Some(call) = read_call_part(doc) {
        return Some(GeminiPart::FunctionCall(call));
    }
    if let Some(response) = read_response_part(doc) {
        return Some(GeminiPart::FunctionResponse(response));
    }
    match read_required_text(doc, "text") {
        Some(text) => Some(GeminiPart::Text(GeminiPartText { text })),
        None => None,
    }
}

/// Reads the parts that an array of documents describes (see `parts_of`).
pub fn read_parts(docs: &Vec<serde_json::Value>) -> (r: Option<Vec<GeminiPart>>)
    ensures
        match r {
            Some(parts) => parts_of(docs@) == Some(part_views(parts@)),
            None => parts_of(docs@) is None,
        },
{
    let mut parts: Vec<GeminiPart> = Vec::new();
    for i in 0..docs.len()
        invariant
            parts@.len() == i,
            forall|j: int| 0 <= j < i ==> part_of(docs@[j]) == Some(#[trigger] parts@[j]@),
    {
        match read_part(&docs[i]) {
            Some(part) => {
                parts.push(part);
            },
            None => {
                assert(part_of(docs@[i as int]) is None);
                return None;
            },
        }
    }
    assert(parts_of(docs@) is Some) by {
        assert forall|i: int| 0 <= i < docs@.len() implies (#[trigger] part_of(docs@[i])) is Some by {
            assert(part_of(docs@[i]) == Some(parts@[i]@));
        }
    }
    assert(part_views(parts@) =~= parts_of(docs@)->Some_0) by {
        assert forall|i: int| 0 <= i < docs@.len() implies part_views(parts@)[i] == part_of(
            docs@[i],
        )->Some_0 by {
            assert(part_of(docs@[i]) == Some(parts@[i]@));
        }
    }
    Some(parts)
}

/// Reads a content from a JSON document (see `content_of`).
pub fn read_content(doc: &serde_json::Value) -> (r: Option<GeminiContent>)
    ensures
        match r {
            Some(content) => content_of(*doc) == Some(content@),
            None => content_of(*doc) is None,
        },
{
    let role = match read_text(doc, "role") {
        Ok(role) => role,
        Err(_) => { return None; },
    };
    let docs = items(member(doc, "parts")?)?;
    let parts = read_parts(docs)?;
    Some(GeminiContent::from_parts(role, parts))
}

/// Reads a candidate from a JSON document (see `candidate_of`).
pub fn read_candidate(doc: &serde_json::Value) -> (r: Option<GeminiCandidate>)
    ensures
        match r {
            Some(candidate) => candidate_of(*doc) == Some(candidate@),
            None => candidate_of(*doc) is None,
        },
{
    let index = match read_u32(doc, "index") {
        Ok(index) => index,
        Err(_) => { return None; },
    };
    let content = member(doc, "content");
    let finish_reason = match read_text(doc, "finishReason") {
        Ok(reason) => reason,
        Err(_) => { return None; },
    };
    let content = read_content(content?)?;
    Some(GeminiCandidate { index, content, finish_reason })
}

/// Reads the candidates that an array of documents describes (see `candidates_of`).
pub fn read_candidates(docs: &Vec<serde_json::Value>) -> (r: Option<Vec<GeminiCandidate>>)
    ensures
        match r {
            Some(candidates) => candidates_of(docs@) == Some(candidate_views(candidates@)),
            None => candidates_of(docs@) is None,
        },
{
    let mut read: Vec<GeminiCandidate> = Vec::new();
    for i in 0..docs.len()
        invariant
            read@.len() == i,
            forall|j: int| 0 <= j < i ==> candidate_of(docs@[j]) == Some(#[trigger] read@[j]@),
    {
        match read_candidate(&docs[i]) {
            Some(candidate) => {
                read.push(candidate);
            },
            None => {
                assert(candidate_of(docs@[i as int]) is None);
                return None;
            },
        }
    }
    assert(candidates_of(docs@) is Some) by {
        assert forall|i: int| 0 <= i < docs@.len() implies (#[trigger] candidate_of(
            docs@[i],
        )) is Some by {
            assert(candidate_of(docs@[i]) == Some(read@[i]@));
        }
    }
    assert(candidate_views(read@) =~= candidates_of(docs@)->Some_0) by {
        assert forall|i: int| 0 <= i < docs@.len() implies candidate_views(read@)[i]
            == candidate_of(docs@[i])->Some_0 by {
            assert(candidate_of(docs@[i]) == Some(read@[i]@));
        }
    }
    Some(read)
}

impl GeminiResponse {
    /// Reads a response from a JSON document (see `gemini_response_of`).
    pub fn from_json(json: &serde_json::Value) -> (r: Result<Self, DecodeError>)
        ensures
            match r {
                Ok(response) => gemini_response_of(*json) == Ok::<GeminiResponseView, DecodeError>(
                    response@,
                ),
                Err(e) => gemini_response_of(*json) == Err::<GeminiResponseView, DecodeError>(e),
            },
    {
        if !is_object(json) {
            return Err(DecodeError::NotAnObject);
        }
        let candidates = match read_field(json, "candidates") {
            None => None,
            Some(candidates) => {
                let docs = match items(candidates) {
                    Some(docs) => docs,
                    None => { return Err(DecodeError::InvalidField); },
                };
                match read_candidates(docs) {
                    Some(candidates) => Some(candidates),
                    None => { return Err(DecodeError::InvalidField); },
                }
            },
        };
        let error = match read_field(json, "error") {
            Some(error) => Some(duplicate(error)),
            None => None,
        };
        Ok(GeminiResponse { candidates, error })
    }

    /// The content of the first candidate, or `None` where there is no candidate.
    pub fn content(&self) -> (r: Option<&GeminiContent>)
        ensures
            match r {
                Some(content) => first_content(self@) == Some(content@),
                None => first_content(self@) is None,
            },
    {
        if let Some(candidates) = &self.candidates {
            if candidates.len() > 0 {
                return Some(&candidates[0].content);
            }
        }
        None
    }

    /// The text of the first part of the first candidate, or `None` where there is no
    /// candidate, no part, or the first part is no text.
    pub fn text(&self) -> (r: Option<&str>)
        ensures
            match r {
                Some(text) => first_text(self@) == Some(text@),
                None => first_text(self@) is None,
            },
    {
        if let Some(content) = self.content() {
            let parts = content.parts();
            if parts.len() > 0 {
                assert(content@.parts[0] == parts@[0]@);
                if let GeminiPart::Text(text_part) = &parts[0] {
                    return Some(text_part.text.as_str());
                }
            }
        }
        None
    }

    /// The calls of functions in the first candidate, in their order; none where there is
    /// no candidate.
    pub fn functions(&self) -> (r: Vec<&GeminiFunctionCall>)
        ensures
            call_views(r@) == function_calls(self@),
    {
        let mut calls: Vec<&GeminiFunctionCall> = Vec::new();
        if let Some(content) = self.content() {
            let parts = content.parts();
            for i in 0..parts.len()
                invariant
                    part_views(parts@) == content@.parts,
                    call_views(calls@) == calls_among(content@.parts.take(i as int)),
            {
                assert(content@.parts.take(i + 1).drop_last() =~= content@.parts.take(i as int));
                assert(content@.parts.take(i + 1).last() == parts@[i as int]@);
                if let GeminiPart::FunctionCall(call) = &parts[i] {
                    calls.push(call);
                    assert(call_views(calls@) =~= calls_among(content@.parts.take(i as int)).push(
                        call@,
                    ));
                }
            }
            assert(content@.parts.take(parts.len() as int) =~= content@.parts);
        } else {
            assert(call_views(calls@) =~= Seq::empty());
        }
        calls
    }
}

} // verus!
