//! A session with a model: the transcript of a conversation, the options of the
//! generation, and the course of one request and its streamed response.
//!
//! The session decides and the caller acts. The caller hands each thing that happens (an
//! `Event`) to `step`, hands the fragments that the step gives to its callback, and does what
//! the step tells it to (`Next`): send a request, pull the next chunk of the body, say that
//! the last fragments are delivered, return the response, or fail.

use vstd::prelude::*;
use crate::frame::{pull_line, pulled, Framing};
use crate::ollama::ollama::{
    accumulate, empty_assembly, endpoint_of, finished, is_finished, partial_in, AssembledMessage,
    AssembledMessageView, Ollama,
};
use crate::ollama::ollama_message::{OllamaMessage, OllamaMessageView};
use crate::ollama::ollama_options::{OllamaOptions, OllamaOptionsView};
use crate::ollama::ollama_request::{
    empty_request, transcript_of, with_message, OllamaRequest, OllamaRequestView,
};
use crate::ollama::ollama_response::{text_of, OllamaResponse2, OllamaResponse2View};
use crate::text::same_text;

verus! {

/// Where a session stands in the course of a request.
#[derive(Clone, Copy, Debug, PartialEq, Eq, Structural)]
pub enum Phase {
    /// No request is under way.
    Idle,
    /// A request has been handed out to be sent; no response has come yet.
    Sending,
    /// The response is being read.
    Streaming,
    /// The response is complete; its last fragments are on their way to the caller's
    /// callback, and the response is not yet in the transcript.
    Committing,
    /// The last request failed in the transport. A new one may be started.
    Failed,
}

/// What happened.
#[derive(Debug)]
pub enum Event {
    /// The caller asks for the model's next response.
    Update,
    /// The caller says something, and asks for the model's response.
    Prompt(String),
    /// The request was sent, and a response has begun.
    Connected,
    /// A chunk of the response body has come.
    Chunk(Vec<u8>),
    /// The response body is read to its end, or the caller gave up reading it.
    EndOfStream,
    /// The last fragments of the response have been handed to the caller's callback.
    Delivered,
    /// The transport failed, with this message.
    TransportError(String),
}

/// What an event holds.
pub enum EventView {
    Update,
    Prompt(Seq<char>),
    Connected,
    Chunk(Seq<u8>),
    EndOfStream,
    Delivered,
    TransportError(Seq<char>),
}

impl View for Event {
    type V = EventView;

    open spec fn view(&self) -> EventView {
        match *self {
            Event::Update => EventView::Update,
            Event::Prompt(text) => EventView::Prompt(text@),
            Event::Connected => EventView::Connected,
            Event::Chunk(bytes) => EventView::Chunk(bytes@),
            Event::EndOfStream => EventView::EndOfStream,
            Event::Delivered => EventView::Delivered,
            Event::TransportError(message) => EventView::TransportError(message@),
        }
    }
}

/// What the caller is to do next.
#[derive(Debug)]
pub enum Next {
    /// Send this request to this address.
    Send { url: String, body: OllamaRequest },
    /// Pull the next chunk of the response body.
    Pull,
    /// The response is complete: once the fragments are handed on, say `Delivered`.
    Commit,
    /// The response is complete and stands in the transcript: return it.
    Return(OllamaResponse2),
    /// The request failed: return this error.
    Fail(String),
    /// The event has no place in the present phase: nothing changed.
    Ignore,
}

/// What a next thing to do holds.
pub enum NextView {
    Send { url: Seq<char>, body: OllamaRequestView },
    Pull,
    Commit,
    Return(OllamaResponse2View),
    Fail(Seq<char>),
    Ignore,
}

impl View for Next {
    type V = NextView;

    open spec fn view(&self) -> NextView {
        match *self {
            Next::Send { url, body } => NextView::Send { url: url@, body: body@ },
            Next::Pull => NextView::Pull,
            Next::Commit => NextView::Commit,
            Next::Return(response) => NextView::Return(response@),
            Next::Fail(message) => NextView::Fail(message@),
            Next::Ignore => NextView::Ignore,
        }
    }
}

/// The texts of strings, in order.
pub open spec fn texts_of(strings: Seq<String>) -> Seq<Seq<char>> {
    strings.map_values(|s: String| s@)
}

/// What a step of the session asks of the caller.
#[derive(Debug)]
pub struct Step {
    /// The fragments to hand to the caller's callback, in this order, before anything else
    /// is done.
    pub deliver: Vec<String>,
    /// What to do then.
    pub next: Next,
}

/// What a step holds.
pub struct StepView {
    pub deliver: Seq<Seq<char>>,
    pub next: NextView,
}

impl View for Step {
    type V = StepView;

    open spec fn view(&self) -> StepView {
        StepView { deliver: texts_of(self.deliver@), next: self.next@ }
    }
}

/// What a session holds.
pub struct OllamaSessionView {
    /// The address of the server.
    pub server: Seq<char>,
    /// The request, and in it the transcript.
    pub request: OllamaRequestView,
    /// The generation options.
    pub options: OllamaOptionsView,
    /// Where the session stands.
    pub phase: Phase,
    /// The response under assembly.
    pub assembly: AssembledMessageView,
    /// The bytes of the response body that came and gave no frame yet.
    pub pending: Seq<u8>,
}

/// A session with a model.
#[derive(Debug)]
pub struct OllamaSession {
    ollama: Ollama,
    request: OllamaRequest,
    options: OllamaOptions,
    phase: Phase,
    assembly: AssembledMessage,
    pending: Vec<u8>,
}

impl View for OllamaSession {
    type V = OllamaSessionView;

    closed spec fn view(&self) -> OllamaSessionView {
        OllamaSessionView {
            server: self.ollama@,
            request: self.request@,
            options: self.options@,
            phase: self.phase,
            assembly: self.assembly@,
            pending: self.pending@,
        }
    }
}

/// The size of the context window where none is set.
pub const DEFAULT_CONTEXT_WINDOW: u32 = 2048;

/// A message with a role and a content, and nothing else.
pub open spec fn plain_message(role: Seq<char>, content: Seq<char>) -> OllamaMessageView {
    OllamaMessageView { role: Some(role), content: Some(content), name: None, tool_calls: None }
}

/// The session of a model at a server, as it is made: the transcript is empty.
pub open spec fn fresh_session(model: Seq<char>, server: Seq<char>) -> OllamaSessionView {
    OllamaSessionView {
        server,
        request: OllamaRequestView { model: Some(model), ..empty_request() },
        options: OllamaOptionsView { num_ctx: None, temperature: None, seed: None },
        phase: Phase::Idle,
        assembly: empty_assembly(),
        pending: Seq::empty(),
    }
}

/// The session with one more message in its transcript.
pub open spec fn said(session: OllamaSessionView, role: Seq<char>, content: Seq<char>) -> OllamaSessionView {
    OllamaSessionView {
        request: with_message(session.request, plain_message(role, content)),
        ..session
    }
}

/// The role under which a response enters the transcript: `tool` for what a tool said,
/// `assistant` for everything else.
pub open spec fn turn_role(response: OllamaResponse2View) -> Seq<char> {
    match response.message {
        Some(message) => if message.role == Some("tool"@) {
            "tool"@
        } else {
            "assistant"@
        },
        None => "assistant"@,
    }
}

/// The text of a response; empty where it has none.
pub open spec fn final_text(response: OllamaResponse2View) -> Seq<char> {
    match text_of(response) {
        Some(text) => text,
        None => Seq::empty(),
    }
}

/// The turn that a finished response becomes in the transcript: its text under its role,
/// with the tool's name and the tool calls of its message.
pub open spec fn turn_of(response: OllamaResponse2View) -> OllamaMessageView {
    OllamaMessageView {
        role: Some(turn_role(response)),
        content: Some(final_text(response)),
        name: match response.message {
            Some(message) => message.name,
            None => None,
        },
        tool_calls: match response.message {
            Some(message) => message.tool_calls,
            None => None,
        },
    }
}

/// The fragments that a partial message gives to the caller's callback: the error that the
/// backend reports, if any, and then the fragment of text, if any.
pub open spec fn fragments_of(partial: OllamaResponse2View) -> Seq<Seq<char>> {
    (match partial.error {
        Some(error) => seq![error],
        None => Seq::empty(),
    }) + (match text_of(partial) {
        Some(text) => seq![text],
        None => Seq::empty(),
    })
}

/// The request as it is sent: with the options of the session, and streamed.
pub open spec fn outgoing(session: OllamaSessionView) -> OllamaRequestView {
    OllamaRequestView { options: Some(session.options), stream: Some(true), ..session.request }
}

/// The start of a request: the session hands out the request and waits for the response.
pub open spec fn started(session: OllamaSessionView) -> (OllamaSessionView, StepView) {
    let request = outgoing(session);
    (
        OllamaSessionView {
            request,
            phase: Phase::Sending,
            assembly: empty_assembly(),
            pending: Seq::empty(),
            ..session
        },
        StepView {
            deliver: Seq::empty(),
            next: NextView::Send { url: endpoint_of(session.server, "/api/chat"@), body: request },
        },
    )
}

/// The end of a response: the assembled response enters the transcript as one turn, and is
/// returned.
pub open spec fn committed(session: OllamaSessionView) -> (OllamaSessionView, StepView) {
    let response = finished(session.assembly, true);
    (
        OllamaSessionView {
            request: with_message(session.request, turn_of(response)),
            phase: Phase::Idle,
            assembly: empty_assembly(),
            pending: Seq::empty(),
            ..session
        },
        StepView { deliver: Seq::empty(), next: NextView::Return(response) },
    )
}

/// The failure of a request: nothing of it stays, and the transcript is as it was.
pub open spec fn failed(session: OllamaSessionView, message: Seq<char>) -> (
    OllamaSessionView,
    StepView,
) {
    (
        OllamaSessionView {
            phase: Phase::Failed,
            assembly: empty_assembly(),
            pending: Seq::empty(),
            ..session
        },
        StepView { deliver: Seq::empty(), next: NextView::Fail(message) },
    )
}

/// The session left as it is, with the given thing to do.
pub open spec fn unchanged(session: OllamaSessionView, next: NextView) -> (
    OllamaSessionView,
    StepView,
) {
    (session, StepView { deliver: Seq::empty(), next })
}

/// The partial message that a chunk completes for a session: the frame that the chunk gives
/// to the reader of the session, decoded.
pub open spec fn completed(session: OllamaSessionView, chunk: Seq<u8>) -> Option<
    OllamaResponse2View,
> {
    match pulled(Framing::JsonLines, session.pending, chunk).0 {
        Some(frame) => partial_in(frame),
        None => None,
    }
}

/// What a chunk of the body does to a session that reads a response. A chunk that completes
/// no partial message changes nothing but what the reader holds. A partial message is merged
/// into the assembly, and its fragments are handed on. After the terminal one the response
/// waits to be committed: the transcript gains its turn only when the fragments are
/// delivered.
pub open spec fn streamed(session: OllamaSessionView, chunk: Seq<u8>) -> (
    OllamaSessionView,
    StepView,
) {
    let taken = OllamaSessionView {
        pending: pulled(Framing::JsonLines, session.pending, chunk).1,
        ..session
    };
    match completed(session, chunk) {
        None => unchanged(taken, NextView::Pull),
        Some(partial) => {
            let assembly = accumulate(session.assembly, partial);
            if is_finished(assembly) {
                (
                    OllamaSessionView { assembly, phase: Phase::Committing, ..taken },
                    StepView { deliver: fragments_of(partial), next: NextView::Commit },
                )
            } else {
                (
                    OllamaSessionView { assembly, ..taken },
                    StepView { deliver: fragments_of(partial), next: NextView::Pull },
                )
            }
        },
    }
}

/// The session after an event, and what the caller is to do.
pub open spec fn step_of(session: OllamaSessionView, event: EventView) -> (
    OllamaSessionView,
    StepView,
) {
    match session.phase {
        Phase::Idle | Phase::Failed => match event {
            EventView::Update => started(session),
            EventView::Prompt(text) => started(said(session, "user"@, text)),
            _ => unchanged(session, NextView::Ignore),
        },
        Phase::Sending => match event {
            EventView::Connected => (
                OllamaSessionView {
                    phase: Phase::Streaming,
                    assembly: empty_assembly(),
                    pending: Seq::empty(),
                    ..session
                },
                StepView { deliver: Seq::empty(), next: NextView::Pull },
            ),
            EventView::TransportError(message) => failed(session, message),
            _ => unchanged(session, NextView::Ignore),
        },
        Phase::Streaming => match event {
            EventView::Chunk(chunk) => streamed(session, chunk),
            EventView::EndOfStream => committed(session),
            EventView::TransportError(message) => failed(session, message),
            _ => unchanged(session, NextView::Ignore),
        },
        Phase::Committing => match event {
            EventView::Delivered | EventView::EndOfStream => committed(session),
            _ => unchanged(session, NextView::Ignore),
        },
    }
}

/// The session after a sequence of events, each taken in its turn.
pub open spec fn run(session: OllamaSessionView, events: Seq<EventView>) -> OllamaSessionView
    decreases events.len(),
{
    if events.len() == 0 {
        session
    } else {
        step_of(run(session, events.drop_last()), events.last()).0
    }
}

/// Whether a step ended a request: with the response, or with a failure.
pub open spec fn ends_request(next: NextView) -> bool {
    next is Return || next is Fail
}

/// Whether the events are the start of one request and what followed, with the request
/// still under way: the first event asks for an update of a session that has no request
/// under way, and no step so far has ended the request.
pub open spec fn update_under_way(session: OllamaSessionView, events: Seq<EventView>) -> bool
    decreases events.len(),
{
    if events.len() == 0 {
        false
    } else if events.len() == 1 {
        (session.phase == Phase::Idle || session.phase == Phase::Failed) && events[0]
            is Update
    } else {
        &&& update_under_way(session, events.drop_last())
        &&& !ends_request(step_of(run(session, events.drop_last()), events.last()).1.next)
    }
}

/// To say something and ask for the response is to add the prompt to the transcript, as the
/// user's, and then to ask for an update.
pub proof fn lemma_prompt_is_user_then_update(session: OllamaSessionView, text: Seq<char>)
    requires
        session.phase == Phase::Idle || session.phase == Phase::Failed,
    ensures
        step_of(session, EventView::Prompt(text)) == step_of(
            said(session, "user"@, text),
            EventView::Update,
        ),
        transcript_of(step_of(session, EventView::Prompt(text)).0.request) == transcript_of(
            session.request,
        ).push(plain_message("user"@, text)),
{
}

/// While a request is under way the transcript is as it was when the request began, and the
/// session is sending, reading, or about to commit.
pub proof fn lemma_under_way_keeps_transcript(session: OllamaSessionView, events: Seq<EventView>)
    requires
        update_under_way(session, events),
    ensures
        transcript_of(run(session, events).request) == transcript_of(session.request),
        run(session, events).phase == Phase::Sending || run(session, events).phase
            == Phase::Streaming || run(session, events).phase == Phase::Committing,
    decreases events.len(),
{
    if events.len() == 1 {
        assert(events.drop_last() =~= Seq::empty());
        assert(run(session, events.drop_last()) == session);
    } else {
        lemma_under_way_keeps_transcript(session, events.drop_last());
    }
}

/// A step that returns a response has added exactly one turn to the transcript: the turn of
/// that response, whose content is the text of the response.
pub proof fn lemma_return_adds_one_turn(session: OllamaSessionView, event: EventView)
    ensures
        step_of(session, event).1.next matches NextView::Return(response) ==> {
            &&& transcript_of(step_of(session, event).0.request) == transcript_of(
                session.request,
            ).push(turn_of(response))
            &&& turn_of(response).content == text_of(response)
            &&& step_of(session, event).0.phase == Phase::Idle
        },
{
    if let NextView::Return(response) = step_of(session, event).1.next {
        crate::ollama::ollama::lemma_finished_text(session.assembly);
    }
}

/// A step that does not return a response leaves the transcript as it was, but for the
/// prompt that the caller itself adds with `Prompt`.
pub proof fn lemma_other_steps_keep_transcript(session: OllamaSessionView, event: EventView)
    ensures
        !(step_of(session, event).1.next is Return) && !(event is Prompt) ==> transcript_of(
            step_of(session, event).0.request,
        ) == transcript_of(session.request),
        step_of(session, event).1.next is Fail ==> transcript_of(
            step_of(session, event).0.request,
        ) == transcript_of(session.request) && step_of(session, event).0.phase == Phase::Failed,
{
}

/// An update that succeeds adds exactly one turn: from the event that asks for the update
/// to the step that returns the response, the transcript gains the turn of that response
/// and nothing else, and the content of the turn is the text of the response.
pub proof fn lemma_update_adds_exactly_one_turn(
    session: OllamaSessionView,
    events: Seq<EventView>,
    last: EventView,
)
    requires
        update_under_way(session, events),
        step_of(run(session, events), last).1.next is Return,
    ensures
        ({
            let response = step_of(run(session, events), last).1.next->Return_0;
            &&& transcript_of(run(session, events.push(last)).request) == transcript_of(
                session.request,
            ).push(turn_of(response))
            &&& turn_of(response).content == text_of(response)
        }),
{
    lemma_under_way_keeps_transcript(session, events);
    lemma_return_adds_one_turn(run(session, events), last);
    assert(events.push(last).drop_last() =~= events);
}

/// An update that fails in the transport adds no turn: from the event that asks for the
/// update to the step that reports the failure, the transcript stays as it was, and a new
/// update may be asked for.
pub proof fn lemma_failed_update_adds_no_turn(
    session: OllamaSessionView,
    events: Seq<EventView>,
    last: EventView,
)
    requires
        update_under_way(session, events),
        step_of(run(session, events), last).1.next is Fail,
    ensures
        transcript_of(run(session, events.push(last)).request) == transcript_of(session.request),
        run(session, events.push(last)).phase == Phase::Failed,
        step_of(run(session, events.push(last)), EventView::Update).1.next is Send,
{
    lemma_under_way_keeps_transcript(session, events);
    lemma_other_steps_keep_transcript(run(session, events), last);
    assert(events.push(last).drop_last() =~= events);
}

impl OllamaSession {
    /// A session with the model at the server that the caller names, or at the server on
    /// this machine where it names none.
    pub fn new(model: &str, server_address: Option<&str>) -> (r: Self)
        ensures
            r@ == fresh_session(
                model@,
                match server_address {
                    Some(address) => address@,
                    None => crate::ollama::ollama::default_server(),
                },
            ),
    {
        match server_address {
            Some(address) => Self::remote(model, address),
            None => Self::local(model),
        }
    }

    /// A session with the model at the server on this machine.
    pub fn local(model: &str) -> (r: Self)
        ensures
            r@ == fresh_session(model@, crate::ollama::ollama::default_server()),
    {
        let mut request = OllamaRequest::new();
        request.set_model(model);
        OllamaSession {
            ollama: Ollama::default(),
            request,
            options: OllamaOptions::new(),
            phase: Phase::Idle,
            assembly: AssembledMessage::new(),
            pending: Vec::new(),
        }
    }

    /// A session with the model at the server at the given address.
    pub fn remote(model: &str, server_address: &str) -> (r: Self)
        ensures
            r@ == fresh_session(model@, server_address@),
    {
        let mut request = OllamaRequest::new();
        request.set_model(model);
        OllamaSession {
            ollama: Ollama::new(server_address),
            request,
            options: OllamaOptions::new(),
            phase: Phase::Idle,
            assembly: AssembledMessage::new(),
            pending: Vec::new(),
        }
    }

    fn say(&mut self, role: &str, content: &str)
        ensures
            final(self)@ == said(old(self)@, role@, content@),
    {
        let mut message = OllamaMessage::new();
        message.set_role(role);
        message.set_content(content);
        self.request.add_message(message);
    }

    /// Adds to the transcript what the assistant said.
    pub fn assistant(&mut self, content: &str)
        ensures
            final(self)@ == said(old(self)@, "assistant"@, content@),
    {
        self.say("assistant", content);
    }

    /// Adds to the transcript what the user says.
    pub fn user(&mut self, content: &str)
        ensures
            final(self)@ == said(old(self)@, "user"@, content@),
    {
        self.say("user", content);
    }

    /// Adds to the transcript an instruction of the system.
    pub fn system(&mut self, content: &str)
        ensures
            final(self)@ == said(old(self)@, "system"@, content@),
    {
        self.say("system", content);
    }

    /// Adds to the transcript the result of a tool that the model asked for.
    pub fn tool(&mut self, tool_name: &str, result: &serde_json::Value)
        ensures
            final(self)@ == (OllamaSessionView {
                request: with_message(
                    old(self)@.request,
                    crate::ollama::ollama_request::tool_result_message(tool_name@, *result),
                ),
                ..old(self)@
            }),
    {
        self.request.add_tool_result(tool_name, result);
    }

    /// The generation options, to read.
    pub fn generation_options(&self) -> (r: &OllamaOptions)
        ensures
            r@ == self@.options,
    {
        &self.options
    }

    /// The size of the context window: the one set in the options, or 2048 tokens.
    pub fn context_window_size(&self) -> (n: u32)
        ensures
            n == match self@.options.num_ctx {
                Some(size) => size,
                None => DEFAULT_CONTEXT_WINDOW,
            },
    {
        match self.options.num_ctx() {
            Some(size) => size,
            None => DEFAULT_CONTEXT_WINDOW,
        }
    }

    /// Sets the size of the context window.
    pub fn set_context_window_size(&mut self, num_ctx: u32)
        ensures
            final(self)@ == (OllamaSessionView {
                options: OllamaOptionsView { num_ctx: Some(num_ctx), ..old(self)@.options },
                ..old(self)@
            }),
    {
        self.options.set_num_ctx(num_ctx);
    }

    /// The generation options, to read and to set.
    pub fn options(&mut self) -> (r: &mut OllamaOptions)
        ensures
            r@ == old(self)@.options,
            final(self)@ == (OllamaSessionView { options: final(r)@, ..old(self)@ }),
    {
        &mut self.options
    }

    /// The request as it stands, and in it the transcript.
    pub fn request(&self) -> (r: &OllamaRequest)
        ensures
            r@ == self@.request,
    {
        &self.request
    }

    /// Where the session stands.
    pub fn phase(&self) -> (r: Phase)
        ensures
            r == self@.phase,
    {
        self.phase
    }

    /// The client of the server.
    pub fn ollama(&self) -> (r: &Ollama)
        ensures
            r@ == self@.server,
    {
        &self.ollama
    }

    /// The turn that a finished response becomes in the transcript (see `turn_of`).
    pub fn turn(response: &OllamaResponse2) -> (r: OllamaMessage)
        ensures
            r@ == turn_of(response@),
    {
        let mut turn = match response.message() {
            Some(message) => message.clone(),
            None => OllamaMessage::new(),
        };
        let is_tool = match response.message() {
            Some(message) => match message.role() {
                Some(role) => same_text(role, "tool"),
                None => false,
            },
            None => false,
        };
        if is_tool {
            turn.set_role("tool");
        } else {
            turn.set_role("assistant");
        }
        match response.text() {
            Some(text) => {
                turn.set_content(text);
            },
            None => {
                turn.set_content("");
                assert(""@ =~= Seq::<char>::empty()) by {
                    reveal_strlit("");
                }
            },
        }
        turn
    }

    /// The fragments that a partial message gives to the caller's callback (see
    /// `fragments_of`).
    pub fn fragments(partial: &OllamaResponse2) -> (r: Vec<String>)
        ensures
            texts_of(r@) == fragments_of(partial@),
    {
        let mut fragments: Vec<String> = Vec::new();
        if let Some(error) = partial.error() {
            fragments.push(error.to_owned());
        }
        if let Some(text) = partial.text() {
            fragments.push(text.to_owned());
        }
        assert(texts_of(fragments@) =~= fragments_of(partial@));
        fragments
    }

    fn start(&mut self) -> (step: Step)
        ensures
            (final(self)@, step@) == started(old(self)@),
    {
        self.request.set_options(&self.options);
        self.request.set_stream(true);
        self.phase = Phase::Sending;
        self.assembly = AssembledMessage::new();
        self.pending = Vec::new();
        let step = Step {
            deliver: Vec::new(),
            next: Next::Send { url: self.ollama.chat_url(), body: self.request.clone() },
        };
        assert(step@.deliver =~= Seq::empty());
        step
    }

    fn commit(&mut self) -> (step: Step)
        ensures
            (final(self)@, step@) == committed(old(self)@),
    {
        let mut assembly = AssembledMessage::new();
        core::mem::swap(&mut assembly, &mut self.assembly);
        let response = assembly.finish(true);
        self.request.add_message(Self::turn(&response));
        self.phase = Phase::Idle;
        self.pending = Vec::new();
        let step = Step { deliver: Vec::new(), next: Next::Return(response) };
        assert(step@.deliver =~= Seq::empty());
        step
    }

    fn fail(&mut self, message: String) -> (step: Step)
        ensures
            (final(self)@, step@) == failed(old(self)@, message@),
    {
        self.phase = Phase::Failed;
        self.assembly = AssembledMessage::new();
        self.pending = Vec::new();
        let step = Step { deliver: Vec::new(), next: Next::Fail(message) };
        assert(step@.deliver =~= Seq::empty());
        step
    }

    fn keep(&self, next: Next) -> (step: Step)
        ensures
            (self@, step@) == unchanged(self@, next@),
    {
        let step = Step { deliver: Vec::new(), next };
        assert(step@.deliver =~= Seq::empty());
        step
    }

    fn stream(&mut self, chunk: &[u8]) -> (step: Step)
        ensures
            (final(self)@, step@) == streamed(old(self)@, chunk@),
    {
        let partial = match pull_line(&mut self.pending, chunk) {
            Some(frame) => AssembledMessage::decode_frame(&frame),
            None => None,
        };
        match partial {
            None => self.keep(Next::Pull),
            Some(partial) => {
                let deliver = Self::fragments(&partial);
                let mut assembly = AssembledMessage::new();
                core::mem::swap(&mut assembly, &mut self.assembly);
                self.assembly = assembly.accumulate(partial);
                if self.assembly.is_finished() {
                    self.phase = Phase::Committing;
                    Step { deliver, next: Next::Commit }
                } else {
                    Step { deliver, next: Next::Pull }
                }
            },
        }
    }

    /// Takes an event, moves the session on, and says what the caller is to do (see
    /// `step_of`).
    ///
    /// A request starts from `Idle` or `Failed`, and only there. A response that ends, by
    /// its terminal message or with the end of its body, adds exactly one turn to the
    /// transcript, and does so after the last of its fragments has been handed on. A failure
    /// of the transport adds none.
    pub fn step(&mut self, event: Event) -> (step: Step)
        ensures
            (final(self)@, step@) == step_of(old(self)@, event@),
    {
        match self.phase {
            Phase::Idle | Phase::Failed => match event {
                Event::Update => self.start(),
                Event::Prompt(text) => {
                    self.user(text.as_str());
                    self.start()
                },
                _ => self.keep(Next::Ignore),
            },
            Phase::Sending => match event {
                Event::Connected => {
                    self.phase = Phase::Streaming;
                    self.assembly = AssembledMessage::new();
                    self.pending = Vec::new();
                    self.keep(Next::Pull)
                },
                Event::TransportError(message) => self.fail(message),
                _ => self.keep(Next::Ignore),
            },
            Phase::Streaming => match event {
                Event::Chunk(chunk) => self.stream(chunk.as_slice()),
                Event::EndOfStream => self.commit(),
                Event::TransportError(message) => self.fail(message),
                _ => self.keep(Next::Ignore),
            },
            Phase::Committing => match event {
                Event::Delivered | Event::EndOfStream => self.commit(),
                _ => self.keep(Next::Ignore),
            },
        }
    }
}

} // verus!
