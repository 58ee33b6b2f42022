//! The records in which the server answers a request that is not streamed.

use vstd::prelude::*;
use crate::decode::{
    read_required_bool, read_required_text, read_required_u32, read_required_u64, required_bool,
    required_text, required_u32, required_u64,
};
use crate::json::{as_u64, items, json_items, json_member, json_u64, member};

verus! {

/// What a whole answer holds.
pub struct GenerateResponseView {
    pub model: Seq<char>,
    pub created_at: Seq<char>,
    pub response: Seq<char>,
    pub done: bool,
    pub done_reason: Seq<char>,
    pub context: Seq<u32>,
    pub total_duration: u64,
    pub load_duration: u64,
    pub prompt_eval_count: u32,
    pub eval_count: u32,
}

/// The whole answer to a request for one completion.
#[derive(Debug)]
pub struct GenerateResponse {
    pub model: String,
    pub created_at: String,
    pub response: String,
    pub done: bool,
    pub done_reason: String,
    pub context: Vec<u32>,
    pub total_duration: u64,
    pub load_duration: u64,
    pub prompt_eval_count: u32,
    pub eval_count: u32,
}

impl View for GenerateResponse {
    type V = GenerateResponseView;

    open spec fn view(&self) -> GenerateResponseView {
        GenerateResponseView {
            model: self.model@,
            created_at: self.created_at@,
            response: self.response@,
            done: self.done,
            done_reason: self.done_reason@,
            context: self.context@,
            total_duration: self.total_duration,
            load_duration: self.load_duration,
            prompt_eval_count: self.prompt_eval_count,
            eval_count: self.eval_count,
        }
    }
}

/// The count of 32 bits that a document is, if it is one.
pub open spec fn count_of(doc: serde_json::Value) -> Option<u32> {
    match json_u64(doc) {
        Some(n) => if n <= u32::MAX {
            Some(n as u32)
        } else {
            None
        },
        None => None,
    }
}

/// The counts that an array of documents describes, where each is a count of 32 bits.
pub open spec fn counts_of(docs: Seq<serde_json::Value>) -> Option<Seq<u32>> {
    if forall|i: int| 0 <= i < docs.len() ==> (#[trigger] count_of(docs[i])) is Some {
        Some(docs.map_values(|d: serde_json::Value| count_of(d)->Some_0))
    } else {
        None
    }
}

/// The context of an answer: the array of counts under `context`.
pub open spec fn context_of(doc: serde_json::Value) -> Option<Seq<u32>> {
    match json_member(doc, "context"@) {
        Some(context) => match json_items(context) {
            Some(docs) => counts_of(docs),
            None => None,
        },
        None => None,
    }
}

/// The whole answer that a JSON document describes: every part of it has to be there and to
/// hold a value of its type.
pub open spec fn generate_response_of(doc: serde_json::Value) -> Option<GenerateResponseView> {
    if required_text(doc, "model"@) is Some && required_text(doc, "created_at"@) is Some
        && required_text(doc, "response"@) is Some && required_bool(doc, "done"@) is Some
        && required_text(doc, "done_reason"@) is Some && context_of(doc) is Some && required_u64(
        doc,
        "total_duration"@,
    ) is Some && required_u64(doc, "load_duration"@) is Some && required_u32(
        doc,
        "prompt_eval_count"@,
    ) is Some && required_u32(doc, "eval_count"@) is Some {
        Some(
            GenerateResponseView {
                model: required_text(doc, "model"@)->Some_0,
                created_at: required_text(doc, "created_at"@)->Some_0,
                response: required_text(doc, "response"@)->Some_0,
                done: required_bool(doc, "done"@)->Some_0,
                done_reason: required_text(doc, "done_reason"@)->Some_0,
                context: context_of(doc)->Some_0,
                total_duration: required_u64(doc, "total_duration"@)->Some_0,
                load_duration: required_u64(doc, "load_duration"@)->Some_0,
                prompt_eval_count: required_u32(doc, "prompt_eval_count"@)->Some_0,
                eval_count: required_u32(doc, "eval_count"@)->Some_0,
            },
        )
    } else {
        None
    }
}

/// Reads the counts that an array of documents describes (see `counts_of`).
pub fn read_counts(docs: &Vec<serde_json::Value>) -> (r: Option<Vec<u32>>)
    ensures
        match r {
            Some(counts) => counts_of(docs@) == Some(counts@),
            None => counts_of(docs@) is None,
        },
{
    let mut counts: Vec<u32> = Vec::new();
    for i in 0..docs.len()
        invariant
            counts@.len() == i,
            forall|j: int| 0 <= j < i ==> count_of(docs@[j]) == Some(#[trigger] counts@[j]),
    {
        match as_u64(&docs[i]) {
            Some(n) => {
                if n > 0xFFFF_FFFF {
                    assert(count_of(docs@[i as int]) is None);
                    return None;
                }
                counts.push(n as u32);
            },
            None => {
                assert(count_of(docs@[i as int]) is None);
                return None;
            },
        }
    }
    assert(counts_of(docs@) is Some) by {
        assert forall|i: int| 0 <= i < docs@.len() implies (#[trigger] count_of(docs@[i])) is Some by {
            assert(count_of(docs@[i]) == Some(counts@[i]));
        }
    }
    assert(counts@ =~= counts_of(docs@)->Some_0) by {
        assert forall|i: int| 0 <= i < docs@.len() implies counts@[i] == count_of(
            docs@[i],
        )->Some_0 by {
            assert(count_of(docs@[i]) == Some(counts@[i]));
        }
    }
    Some(counts)
}

impl GenerateResponse {
    /// Reads a whole answer from a JSON document (see `generate_response_of`).
    pub fn from_json(json: &serde_json::Value) -> (r: Option<Self>)
        ensures
            match r {
                Some(response) => generate_response_of(*json) == Some(response@),
                None => generate_response_of(*json) is None,
            },
    {
        let model = read_required_text(json, "model");
        let created_at = read_required_text(json, "created_at");
        let response = read_required_text(json, "response");
        let done = read_required_bool(json, "done");
        let done_reason = read_required_text(json, "done_reason");
        let context = match member(json, "context") {
            Some(context) => match items(context) {
                Some(docs) => read_counts(docs),
                None => None,
            },
            None => None,
        };
        let total_duration = read_required_u64(json, "total_duration");
        let load_duration = read_required_u64(json, "load_duration");
        let prompt_eval_count = read_required_u32(json, "prompt_eval_count");
        let eval_count = read_required_u32(json, "eval_count");
        match (model, created_at, response, done, done_reason) {
            (Some(model), Some(created_at), Some(response), Some(done), Some(done_reason)) => {
                match (context, total_duration, load_duration, prompt_eval_count, eval_count) {
                    (
                        Some(context),
                        Some(total_duration),
                        Some(load_duration),
                        Some(prompt_eval_count),
                        Some(eval_count),
                    ) => Some(
                        GenerateResponse {
                            model,
                            created_at,
                            response,
                            done,
                            done_reason,
                            context,
                            total_duration,
                            load_duration,
                            prompt_eval_count,
                            eval_count,
                        },
                    ),
                    _ => None,
                }
            },
            _ => None,
        }
    }
}

/// What a chunk of an answer holds.
pub struct OllamaResponseChunkView {
    pub model: Seq<char>,
    pub response: Seq<char>,
    pub done: bool,
}

/// One chunk of an answer: a fragment of text, and whether it is the last.
#[derive(Debug)]
pub struct OllamaResponseChunk {
    pub model: String,
    pub response: String,
    pub done: bool,
}

impl View for OllamaResponseChunk {
    type V = OllamaResponseChunkView;

    open spec fn view(&self) -> OllamaResponseChunkView {
        OllamaResponseChunkView { model: self.model@, response: self.response@, done: self.done }
    }
}

/// The chunk that a JSON document describes: every part of it has to be there and to hold a
/// value of its type.
pub open spec fn chunk_of(doc: serde_json::Value) -> Option<OllamaResponseChunkView> {
    if required_text(doc, "model"@) is Some && required_text(doc, "response"@) is Some
        && required_bool(doc, "done"@) is Some {
        Some(
            OllamaResponseChunkView {
                model: required_text(doc, "model"@)->Some_0,
                response: required_text(doc, "response"@)->Some_0,
                done: required_bool(doc, "done"@)->Some_0,
            },
        )
    } else {
        None
    }
}

impl OllamaResponseChunk {
    /// Reads a chunk from a JSON document (see `chunk_of`).
    pub fn from_json(json: &serde_json::Value) -> (r: Option<Self>)
        ensures
            match r {
                Some(chunk) => chunk_of(*json) == Some(chunk@),
                None => chunk_of(*json) is None,
            },
    {
        let model = read_required_text(json, "model")?;
        let response = read_required_text(json, "response")?;
        let done = read_required_bool(json, "done")?;
        Some(OllamaResponseChunk { model, response, done })
    }
}

} // verus!
