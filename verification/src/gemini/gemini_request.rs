//! A request to the model, and with it the transcript of the conversation: the contents
//! exchanged so far, in their order.

use vstd::prelude::*;
use crate::gemini::gemini_content::{content_views, GeminiContent, GeminiContentView};
use crate::gemini::gemini_function::{GeminiFunctionDeclarationView, GeminiToolDeclaration};
use crate::gemini::gemini_part::{GeminiFunctionResponse, GeminiPart, GeminiPartView};
use crate::gemini::gemini_prompt::{role_name, GeminiPrompt, GeminiPromptView, GeminiRole};
use crate::gemini::gemini_response::{first_content, GeminiResponse, GeminiResponseView};

verus! {

/// What a request holds.
pub struct GeminiRequestView {
    /// The contents of the conversation, oldest first.
    pub contents: Seq<GeminiContentView>,
    /// The tools that the model may use.
    pub tools: Seq<Seq<GeminiFunctionDeclarationView>>,
}

/// A request to the model. Its contents are the transcript of the conversation: a content
/// is added at the end, and none is ever changed, moved or removed by adding another.
#[derive(Debug)]
pub struct GeminiRequest {
    pub contents: Vec<GeminiContent>,
    pub tools: Vec<GeminiToolDeclaration>,
}

/// The views of tools, in order.
pub open spec fn tool_views(tools: Seq<GeminiToolDeclaration>) -> Seq<
    Seq<GeminiFunctionDeclarationView>,
> {
    tools.map_values(|t: GeminiToolDeclaration| t@)
}

impl View for GeminiRequest {
    type V = GeminiRequestView;

    open spec fn view(&self) -> GeminiRequestView {
        GeminiRequestView { contents: content_views(self.contents@), tools: tool_views(self.tools@) }
    }
}

/// The request without contents and tools.
pub open spec fn empty_gemini_request() -> GeminiRequestView {
    GeminiRequestView { contents: Seq::empty(), tools: Seq::empty() }
}

/// The content that a prompt becomes: its text, under its role.
pub open spec fn prompt_content(prompt: GeminiPromptView) -> GeminiContentView {
    GeminiContentView {
        role: match prompt.role {
            Some(role) => Some(role_name(role)),
            None => None,
        },
        parts: seq![GeminiPartView::Text(prompt.text)],
    }
}

/// The content that a text becomes: the text, under no role.
pub open spec fn text_content(text: Seq<char>) -> GeminiContentView {
    GeminiContentView { role: None, parts: seq![GeminiPartView::Text(text)] }
}

/// The content that carries the response of a function back: under the role of a tool.
pub open spec fn function_response_content(
    response: crate::gemini::gemini_part::GeminiFunctionResponseView,
) -> GeminiContentView {
    GeminiContentView {
        role: Some(role_name(GeminiRole::Tool)),
        parts: seq![GeminiPartView::FunctionResponse(response)],
    }
}

/// The request with one more content at the end of its transcript.
pub open spec fn with_content(request: GeminiRequestView, content: GeminiContentView) -> GeminiRequestView {
    GeminiRequestView { contents: request.contents.push(content), ..request }
}

/// The request after a response has been added: the content of the response joins the
/// transcript; a response without a candidate leaves the request as it is.
pub open spec fn with_gemini_response(
    request: GeminiRequestView,
    response: GeminiResponseView,
) -> GeminiRequestView {
    match first_content(response) {
        Some(content) => with_content(request, content),
        None => request,
    }
}

/// The request after the contents have been added one by one, in their order.
pub open spec fn with_contents(request: GeminiRequestView, contents: Seq<GeminiContentView>) -> GeminiRequestView
    decreases contents.len(),
{
    if contents.len() == 0 {
        request
    } else {
        with_content(with_contents(request, contents.drop_last()), contents.last())
    }
}

/// Adding contents one by one puts them behind the transcript, in their order, and changes
/// nothing that was there.
pub proof fn lemma_with_contents(request: GeminiRequestView, contents: Seq<GeminiContentView>)
    ensures
        with_contents(request, contents) == (GeminiRequestView {
            contents: request.contents + contents,
            ..request
        }),
    decreases contents.len(),
{
    if contents.len() == 0 {
        assert(request.contents + contents =~= request.contents);
    } else {
        lemma_with_contents(request, contents.drop_last());
        assert(request.contents + contents =~= (request.contents + contents.drop_last()).push(
            contents.last(),
        ));
    }
}

/// The transcript survives a round trip: a request that is built anew by adding the
/// contents of a transcript one by one, in their order, has that very transcript.
pub proof fn lemma_contents_round_trip(request: GeminiRequestView)
    ensures
        with_contents(empty_gemini_request(), request.contents).contents == request.contents,
{
    lemma_with_contents(empty_gemini_request(), request.contents);
    assert(Seq::<GeminiContentView>::empty() + request.contents =~= request.contents);
}

impl Clone for GeminiRequest {
    fn clone(&self) -> (r: Self)
        ensures
            r@ == self@,
    {
        let mut contents: Vec<GeminiContent> = Vec::new();
        for i in 0..self.contents.len()
            invariant
                contents@.len() == i,
                forall|j: int| 0 <= j < i ==> contents@[j]@ == self.contents@[j]@,
        {
            contents.push(self.contents[i].clone());
        }
        assert(content_views(contents@) =~= content_views(self.contents@));
        let mut tools: Vec<GeminiToolDeclaration> = Vec::new();
        for i in 0..self.tools.len()
            invariant
                tools@.len() == i,
                forall|j: int| 0 <= j < i ==> tools@[j]@ == self.tools@[j]@,
        {
            tools.push(self.tools[i].clone());
        }
        assert(tool_views(tools@) =~= tool_views(self.tools@));
        GeminiRequest { contents, tools }
    }
}

impl GeminiRequest {
    /// The request without contents and tools.
    pub fn new() -> (r: Self)
        ensures
            r@ == empty_gemini_request(),
    {
        let r = GeminiRequest { contents: Vec::new(), tools: Vec::new() };
        assert(r@.contents =~= Seq::empty());
        assert(r@.tools =~= Seq::empty());
        r
    }

    /// The request that holds one prompt.
    pub fn from_prompt(prompt: &GeminiPrompt) -> (r: Self)
        ensures
            r@ == with_content(empty_gemini_request(), prompt_content(prompt@)),
    {
        let mut request = GeminiRequest::new();
        request.add_prompt(prompt);
        request
    }

    /// The request that holds one text, under no role.
    pub fn from_str(text: &str) -> (r: Self)
        ensures
            r@ == with_content(empty_gemini_request(), text_content(text@)),
    {
        let mut content = GeminiContent::new();
        content.add_text(text);
        assert(content@.parts =~= seq![GeminiPartView::Text(text@)]);
        let mut request = GeminiRequest::new();
        request.add_content(content);
        request
    }

    /// Adds a content at the end of the conversation. The contents that were there stay as
    /// they were, in their order.
    pub fn add_content(&mut self, content: GeminiContent) -> (r: &mut Self)
        ensures
            r@ == with_content(old(self)@, content@),
            *final(self) == *final(r),
    {
        self.contents.push(content);
        assert(self@.contents =~= old(self)@.contents.push(content@));
        self
    }

    /// Adds the response of a function at the end of the conversation, under the role of a
    /// tool.
    pub fn add_function_response(&mut self, function_response: GeminiFunctionResponse) -> (r:
        &mut Self)
        ensures
            r@ == with_content(old(self)@, function_response_content(function_response@)),
            *final(self) == *final(r),
    {
        let mut content = GeminiContent::new();
        content.set_role(GeminiRole::Tool);
        content.add_part(GeminiPart::FunctionResponse(function_response));
        assert(content@.parts =~= seq![GeminiPartView::FunctionResponse(function_response@)]);
        self.add_content(content)
    }

    /// Adds a prompt at the end of the conversation.
    pub fn add_prompt(&mut self, prompt: &GeminiPrompt) -> (r: &mut Self)
        ensures
            r@ == with_content(old(self)@, prompt_content(prompt@)),
            *final(self) == *final(r),
    {
        let mut content = GeminiContent::new();
        if let Some(role) = prompt.role {
            content.set_role(role);
        }
        content.add_text(prompt.text.as_str());
        assert(content@.parts =~= seq![GeminiPartView::Text(prompt@.text)]);
        self.add_content(content)
    }

    /// Adds the content of a response at the end of the conversation; a response without a
    /// candidate leaves the request as it is.
    pub fn add_response(&mut self, response: &GeminiResponse) -> (r: &mut Self)
        ensures
            r@ == with_gemini_response(old(self)@, response@),
            *final(self) == *final(r),
    {
        if let Some(content) = response.content() {
            let content = content.clone();
            return self.add_content(content);
        }
        self
    }

    /// Adds a tool that the model may use.
    pub fn add_tool(&mut self, tool: GeminiToolDeclaration) -> (r: &mut Self)
        ensures
            r@ == (GeminiRequestView { tools: old(self)@.tools.push(tool@), ..old(self)@ }),
            *final(self) == *final(r),
    {
        self.tools.push(tool);
        assert(self@.tools =~= old(self)@.tools.push(tool@));
        self
    }
}

} // verus!

verus! {

impl From<&str> for GeminiRequest {
    /// The request that holds one text, under no role.
    fn from(s: &str) -> (r: Self)
        ensures
            r@ == with_content(empty_gemini_request(), text_content(s@)),
    {
        Self::from_str(s)
    }
}

impl vstd::std_specs::convert::FromSpecImpl<&str> for GeminiRequest {
    open spec fn obeys_from_spec() -> bool {
        false
    }

    open spec fn from_spec(v: &str) -> Self {
        arbitrary()
    }
}

impl From<String> for GeminiRequest {
    /// The request that holds one text, under no role.
    fn from(s: String) -> (r: Self)
        ensures
            r@ == with_content(empty_gemini_request(), text_content(s@)),
    {
        Self::from_str(s.as_str())
    }
}

impl vstd::std_specs::convert::FromSpecImpl<String> for GeminiRequest {
    open spec fn obeys_from_spec() -> bool {
        false
    }

    open spec fn from_spec(v: String) -> Self {
        arbitrary()
    }
}

impl From<GeminiPrompt> for GeminiRequest {
    /// The request that holds one prompt.
    fn from(prompt: GeminiPrompt) -> (r: Self)
        ensures
            r@ == with_content(empty_gemini_request(), prompt_content(prompt@)),
    {
        Self::from_prompt(&prompt)
    }
}

impl vstd::std_specs::convert::FromSpecImpl<GeminiPrompt> for GeminiRequest {
    open spec fn obeys_from_spec() -> bool {
        false
    }

    open spec fn from_spec(v: GeminiPrompt) -> Self {
        arbitrary()
    }
}

} // verus!
