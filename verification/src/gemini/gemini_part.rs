//! The parts of which a content is made: text, code, the call of a function, and the
//! response of a function.

use vstd::prelude::*;
use crate::json::{duplicate, json_is_object, json_member, object_with};

verus! {

/// What a piece of code holds.
pub struct GeminiPartCodeView {
    pub language: Seq<char>,
    pub code: Seq<char>,
}

/// A piece of code and the language it is written in.
#[derive(Debug)]
pub struct GeminiPartCodeExecutable {
    pub language: String,
    pub code: String,
}

impl View for GeminiPartCodeExecutable {
    type V = GeminiPartCodeView;

    open spec fn view(&self) -> GeminiPartCodeView {
        GeminiPartCodeView { language: self.language@, code: self.code@ }
    }
}

impl Clone for GeminiPartCodeExecutable {
    fn clone(&self) -> (r: Self)
        ensures
            r@ == self@,
    {
        GeminiPartCodeExecutable { language: self.language.clone(), code: self.code.clone() }
    }
}

/// A part that is code.
#[derive(Debug)]
pub struct GeminiPartCode {
    pub executable_code: GeminiPartCodeExecutable,
}

impl View for GeminiPartCode {
    type V = GeminiPartCodeView;

    open spec fn view(&self) -> GeminiPartCodeView {
        self.executable_code@
    }
}

impl Clone for GeminiPartCode {
    fn clone(&self) -> (r: Self)
        ensures
            r@ == self@,
    {
        GeminiPartCode { executable_code: self.executable_code.clone() }
    }
}

impl GeminiPartCode {
    /// The part that holds the given code in the given language.
    pub fn new(language: &str, code: &str) -> (r: Self)
        ensures
            r@ == (GeminiPartCodeView { language: language@, code: code@ }),
    {
        GeminiPartCode {
            executable_code: GeminiPartCodeExecutable {
                language: language.to_owned(),
                code: code.to_owned(),
            },
        }
    }
}

/// A part that is text.
#[derive(Debug)]
pub struct GeminiPartText {
    pub text: String,
}

impl View for GeminiPartText {
    type V = Seq<char>;

    open spec fn view(&self) -> Seq<char> {
        self.text@
    }
}

impl Clone for GeminiPartText {
    fn clone(&self) -> (r: Self)
        ensures
            r@ == self@,
    {
        GeminiPartText { text: self.text.clone() }
    }
}

/// What the call of a function holds.
pub struct GeminiFunctionCallView {
    /// The name of the function.
    pub name: Seq<char>,
    /// The arguments, a JSON document.
    pub args: serde_json::Value,
}

/// The name and the arguments of a call.
#[derive(Debug)]
pub struct GeminiFunctionCallDetails {
    pub name: String,
    pub args: serde_json::Value,
}

impl View for GeminiFunctionCallDetails {
    type V = GeminiFunctionCallView;

    open spec fn view(&self) -> GeminiFunctionCallView {
        GeminiFunctionCallView { name: self.name@, args: self.args }
    }
}

impl Clone for GeminiFunctionCallDetails {
    fn clone(&self) -> (r: Self)
        ensures
            r@ == self@,
    {
        GeminiFunctionCallDetails { name: self.name.clone(), args: duplicate(&self.args) }
    }
}

/// A part in which the model asks for the call of a function.
#[derive(Debug)]
pub struct GeminiFunctionCall {
    function_call: GeminiFunctionCallDetails,
}

impl View for GeminiFunctionCall {
    type V = GeminiFunctionCallView;

    closed spec fn view(&self) -> GeminiFunctionCallView {
        self.function_call@
    }
}

impl Clone for GeminiFunctionCall {
    fn clone(&self) -> (r: Self)
        ensures
            r@ == self@,
    {
        GeminiFunctionCall { function_call: self.function_call.clone() }
    }
}

impl GeminiFunctionCall {
    /// The call of the function of the given name with the given arguments.
    pub fn new(name: &str, args: serde_json::Value) -> (r: Self)
        ensures
            r@ == (GeminiFunctionCallView { name: name@, args }),
    {
        GeminiFunctionCall {
            function_call: GeminiFunctionCallDetails { name: name.to_owned(), args },
        }
    }

    /// The name of the function.
    pub fn name(&self) -> (r: &str)
        ensures
            r@ == self@.name,
    {
        self.function_call.name.as_str()
    }

    /// The arguments of the call.
    pub fn args(&self) -> (r: &serde_json::Value)
        ensures
            *r == self@.args,
    {
        &self.function_call.args
    }
}

/// What the response of a function holds.
pub struct GeminiFunctionResponseView {
    /// The name of the function.
    pub name: Seq<char>,
    /// The response, a JSON document.
    pub response: serde_json::Value,
}

/// The name of a function and what it responded.
#[derive(Debug)]
pub struct GeminiFunctionResponseDetails {
    pub name: String,
    pub response: serde_json::Value,
}

impl View for GeminiFunctionResponseDetails {
    type V = GeminiFunctionResponseView;

    open spec fn view(&self) -> GeminiFunctionResponseView {
        GeminiFunctionResponseView { name: self.name@, response: self.response }
    }
}

impl Clone for GeminiFunctionResponseDetails {
    fn clone(&self) -> (r: Self)
        ensures
            r@ == self@,
    {
        GeminiFunctionResponseDetails {
            name: self.name.clone(),
            response: duplicate(&self.response),
        }
    }
}

/// A part that carries the response of a function back to the model.
#[derive(Debug)]
pub struct GeminiFunctionResponse {
    pub function_response: GeminiFunctionResponseDetails,
}

impl View for GeminiFunctionResponse {
    type V = GeminiFunctionResponseView;

    open spec fn view(&self) -> GeminiFunctionResponseView {
        self.function_response@
    }
}

impl Clone for GeminiFunctionResponse {
    fn clone(&self) -> (r: Self)
        ensures
            r@ == self@,
    {
        GeminiFunctionResponse { function_response: self.function_response.clone() }
    }
}

/// Whether a document is the object `{"result": result}`: an object with the result as its
/// one member.
pub open spec fn wraps_result(doc: serde_json::Value, result: serde_json::Value) -> bool {
    &&& json_is_object(doc)
    &&& forall|k: Seq<char>| #[trigger]
        json_member(doc, k) == if k == "result"@ {
            Some(result)
        } else {
            None
        }
}

impl GeminiFunctionResponse {
    /// The response of the function of the given name: the result, wrapped as
    /// `{"result": result}`.
    pub fn new(name: &str, result: serde_json::Value) -> (r: Self)
        ensures
            r@.name == name@,
            wraps_result(r@.response, result),
    {
        let response = object_with("result", result);
        GeminiFunctionResponse {
            function_response: GeminiFunctionResponseDetails { name: name.to_owned(), response },
        }
    }
}

/// A part of which nothing is known but the document it came as.
#[derive(Debug)]
pub struct GeminiPartUnknown {
    pub value: serde_json::Value,
}

/// What a part holds.
pub enum GeminiPartView {
    Code(GeminiPartCodeView),
    FunctionCall(GeminiFunctionCallView),
    FunctionResponse(GeminiFunctionResponseView),
    Text(Seq<char>),
}

/// One part of a content.
#[derive(Debug)]
pub enum GeminiPart {
    Code(GeminiPartCode),
    FunctionCall(GeminiFunctionCall),
    FunctionResponse(GeminiFunctionResponse),
    Text(GeminiPartText),
}

impl View for GeminiPart {
    type V = GeminiPartView;

    open spec fn view(&self) -> GeminiPartView {
        match *self {
            GeminiPart::Code(code) => GeminiPartView::Code(code@),
            GeminiPart::FunctionCall(call) => GeminiPartView::FunctionCall(call@),
            GeminiPart::FunctionResponse(response) => GeminiPartView::FunctionResponse(response@),
            GeminiPart::Text(text) => GeminiPartView::Text(text@),
        }
    }
}

impl Clone for GeminiPart {
    fn clone(&self) -> (r: Self)
        ensures
            r@ == self@,
    {
        match self {
            GeminiPart::Code(code) => GeminiPart::Code(code.clone()),
            GeminiPart::FunctionCall(call) => GeminiPart::FunctionCall(call.clone()),
            GeminiPart::FunctionResponse(response) => GeminiPart::FunctionResponse(
                response.clone(),
            ),
            GeminiPart::Text(text) => GeminiPart::Text(text.clone()),
        }
    }
}

/// The views of parts, in order.
pub open spec fn part_views(parts: Seq<GeminiPart>) -> Seq<GeminiPartView> {
    parts.map_values(|p: GeminiPart| p@)
}

/// A copy of the parts.
pub fn clone_parts(parts: &Vec<GeminiPart>) -> (r: Vec<GeminiPart>)
    ensures
        part_views(r@) == part_views(parts@),
{
    let mut r: Vec<GeminiPart> = Vec::new();
    for i in 0..parts.len()
        invariant
            r@.len() == i,
            forall|j: int| 0 <= j < i ==> r@[j]@ == parts@[j]@,
    {
        r.push(parts[i].clone());
    }
    assert(part_views(r@) =~= part_views(parts@));
    r
}

} // verus!
