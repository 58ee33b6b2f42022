//! Tool calls that a model asks for, and the declarations of the tools it may call.

use vstd::prelude::*;
use crate::encode::{holds_text, put_text};
use crate::json::{
    array_of, as_str, duplicate, empty_object, insert_member, items, json_array, json_is_null,
    json_is_object, json_items, json_member, json_pretty, json_str, member, pretty, text_value,
};
use crate::text::same_text;

verus! {

/// The name of the function that a tool call names: the text under `function.name`.
pub open spec fn call_name(doc: serde_json::Value) -> Option<Seq<char>> {
    match json_member(doc, "function"@) {
        Some(function) => match json_member(function, "name"@) {
            Some(name) => json_str(name),
            None => None,
        },
        None => None,
    }
}

/// The arguments that a tool call gives: what stands under `function.arguments`.
pub open spec fn call_arguments(doc: serde_json::Value) -> Option<serde_json::Value> {
    match json_member(doc, "function"@) {
        Some(function) => json_member(function, "arguments"@),
        None => None,
    }
}

/// The tool calls that a JSON document holds: the items of an array, and the document
/// itself where it is no array.
pub open spec fn tool_calls_of(doc: serde_json::Value) -> Seq<serde_json::Value> {
    match json_items(doc) {
        Some(docs) => docs,
        None => seq![doc],
    }
}

/// One call of a tool, as a model asks for it: the JSON document
/// `{"function": {"name": .., "arguments": ..}}`. Its view is that document.
#[derive(Debug)]
pub struct OllamaToolCall {
    value: serde_json::Value,
}

impl View for OllamaToolCall {
    type V = serde_json::Value;

    closed spec fn view(&self) -> serde_json::Value {
        self.value
    }
}

/// A tool call, as contracts speak of it: its document.
pub type OllamaToolCallView = serde_json::Value;

/// The documents of tool calls, in order.
pub open spec fn tool_call_views(calls: Seq<OllamaToolCall>) -> Seq<serde_json::Value> {
    calls.map_values(|c: OllamaToolCall| c@)
}

impl Clone for OllamaToolCall {
    fn clone(&self) -> (r: Self)
        ensures
            r@ == self@,
    {
        OllamaToolCall { value: duplicate(&self.value) }
    }
}

impl From<&serde_json::Value> for OllamaToolCall {
    /// The tool call that the document is.
    fn from(value: &serde_json::Value) -> (r: Self)
        ensures
            r@ == *value,
    {
        OllamaToolCall { value: duplicate(value) }
    }
}

impl vstd::std_specs::convert::FromSpecImpl<&serde_json::Value> for OllamaToolCall {
    open spec fn obeys_from_spec() -> bool {
        false
    }

    open spec fn from_spec(v: &serde_json::Value) -> Self {
        arbitrary()
    }
}

impl OllamaToolCall {
    /// The tool call as indented JSON text.
    pub fn as_string_pretty(&self) -> (r: String)
        ensures
            r@ == json_pretty(self@),
    {
        pretty(&self.value)
    }

    /// The document of the tool call.
    pub fn as_json(&self) -> (r: &serde_json::Value)
        ensures
            *r == self@,
    {
        &self.value
    }

    /// The name of the function to call, or `None` where the document names none.
    pub fn name(&self) -> (r: Option<&str>)
        ensures
            match r {
                Some(s) => call_name(self@) == Some(s@),
                None => call_name(self@) is None,
            },
    {
        as_str(member(member(&self.value, "function")?, "name")?)
    }

    /// The arguments of the call, or `None` where the document gives none.
    pub fn arguments(&self) -> (r: Option<&serde_json::Value>)
        ensures
            match r {
                Some(a) => call_arguments(self@) == Some(*a),
                None => call_arguments(self@) is None,
            },
    {
        member(member(&self.value, "function")?, "arguments")
    }
}

/// An ordered collection of tool calls.
#[derive(Debug)]
pub struct OllamaToolCalls {
    calls: Vec<OllamaToolCall>,
}

impl View for OllamaToolCalls {
    type V = Seq<serde_json::Value>;

    closed spec fn view(&self) -> Seq<serde_json::Value> {
        tool_call_views(self.calls@)
    }
}

impl Clone for OllamaToolCalls {
    fn clone(&self) -> (r: Self)
        ensures
            r@ == self@,
    {
        let mut calls: Vec<OllamaToolCall> = Vec::new();
        for i in 0..self.calls.len()
            invariant
                calls@.len() == i,
                forall|j: int| 0 <= j < i ==> calls@[j]@ == self.calls@[j]@,
        {
            calls.push(self.calls[i].clone());
        }
        assert(tool_call_views(calls@) =~= tool_call_views(self.calls@));
        OllamaToolCalls { calls }
    }
}

impl From<&serde_json::Value> for OllamaToolCalls {
    /// The tool calls that the document holds: the items of an array, and the document
    /// itself where it is no array.
    fn from(value: &serde_json::Value) -> (r: Self)
        ensures
            r@ == tool_calls_of(*value),
    {
        let mut calls: Vec<OllamaToolCall> = Vec::new();
        match items(value) {
            Some(docs) => {
                for i in 0..docs.len()
                    invariant
                        calls@.len() == i,
                        forall|j: int| 0 <= j < i ==> calls@[j]@ == docs@[j],
                {
                    calls.push(OllamaToolCall::from(&docs[i]));
                }
                assert(tool_call_views(calls@) =~= tool_calls_of(*value));
            },
            None => {
                calls.push(OllamaToolCall::from(value));
                assert(tool_call_views(calls@) =~= tool_calls_of(*value));
            },
        }
        OllamaToolCalls { calls }
    }
}

impl vstd::std_specs::convert::FromSpecImpl<&serde_json::Value> for OllamaToolCalls {
    open spec fn obeys_from_spec() -> bool {
        false
    }

    open spec fn from_spec(v: &serde_json::Value) -> Self {
        arbitrary()
    }
}

impl OllamaToolCalls {
    /// The empty collection.
    pub fn new() -> (r: Self)
        ensures
            r@ == Seq::<serde_json::Value>::empty(),
    {
        let r = OllamaToolCalls { calls: Vec::new() };
        assert(r@ =~= Seq::<serde_json::Value>::empty());
        r
    }

    /// The tool calls as one JSON document: the array of their documents, in order.
    pub fn to_json(&self) -> (r: serde_json::Value)
        ensures
            r == json_array(self@),
            json_items(r) == Some(self@),
            !json_is_null(r),
    {
        let mut docs: Vec<serde_json::Value> = Vec::new();
        for i in 0..self.calls.len()
            invariant
                docs@.len() == i,
                forall|j: int| 0 <= j < i ==> docs@[j] == self.calls@[j]@,
        {
            docs.push(duplicate(&self.calls[i].value));
        }
        assert(docs@ =~= self@);
        array_of(docs)
    }

    /// The tool calls as indented JSON text: the text of the array of their documents.
    pub fn as_string_pretty(&self) -> (r: String)
        ensures
            r@ == json_pretty(json_array(self@)),
    {
        let doc = self.to_json();
        pretty(&doc)
    }

    /// The number of tool calls.
    pub fn len(&self) -> (n: usize)
        ensures
            n == self@.len(),
    {
        self.calls.len()
    }

    /// Whether the collection holds no tool call.
    pub fn is_empty(&self) -> (b: bool)
        ensures
            b == (self@.len() == 0),
    {
        self.calls.len() == 0
    }

    /// The tool call at `index`, or `None` where the index is out of bounds.
    pub fn tool_call(&self, index: usize) -> (r: Option<OllamaToolCall>)
        ensures
            match r {
                Some(call) => index < self@.len() && call@ == self@[index as int],
                None => index >= self@.len(),
            },
    {
        if index < self.calls.len() {
            Some(self.calls[index].clone())
        } else {
            None
        }
    }

    /// Adds a tool call at the end.
    pub fn push_tool_call(&mut self, tool_call: OllamaToolCall) -> (r: &mut Self)
        ensures
            r@ == old(self)@.push(tool_call@),
            *final(self) == *final(r),
    {
        self.calls.push(tool_call);
        assert(self@ =~= old(self)@.push(tool_call@));
        self
    }

    /// Adds all the tool calls of `other` at the end, in their order.
    pub fn extend(&mut self, other: &OllamaToolCalls)
        ensures
            final(self)@ == old(self)@ + other@,
    {
        for i in 0..other.calls.len()
            invariant
                self@ == old(self)@ + other@.take(i as int),
        {
            let ghost before = self@;
            let call = other.calls[i].clone();
            assert(call@ == other@[i as int]);
            self.calls.push(call);
            assert(self@ =~= before.push(other@[i as int]));
            assert(other@.take(i + 1) =~= other@.take(i as int).push(other@[i as int]));
            assert(self@ =~= old(self)@ + other@.take(i + 1));
        }
        assert(other@.take(other.calls.len() as int) =~= other@);
    }
}

} // verus!

verus! {

/// What the description of a parameter holds.
pub struct OllamaParameterView {
    pub name: Seq<char>,
    /// The JSON type of the parameter (`string`, `number`, `boolean`).
    pub json_type: Seq<char>,
    pub description: Seq<char>,
}

/// The description of one parameter of a function.
#[derive(Debug)]
pub struct OllamaParameter {
    pub name: String,
    pub json_type: String,
    pub description: String,
}

impl View for OllamaParameter {
    type V = OllamaParameterView;

    open spec fn view(&self) -> OllamaParameterView {
        OllamaParameterView {
            name: self.name@,
            json_type: self.json_type@,
            description: self.description@,
        }
    }
}

impl Clone for OllamaParameter {
    fn clone(&self) -> (r: Self)
        ensures
            r@ == self@,
    {
        OllamaParameter {
            name: self.name.clone(),
            json_type: self.json_type.clone(),
            description: self.description.clone(),
        }
    }
}

/// The views of parameters, in order.
pub open spec fn parameter_views(parameters: Seq<OllamaParameter>) -> Seq<OllamaParameterView> {
    parameters.map_values(|p: OllamaParameter| p@)
}

/// The texts of names, in order.
pub open spec fn name_views(names: Seq<String>) -> Seq<Seq<char>> {
    names.map_values(|s: String| s@)
}

/// What the parameters of a function hold.
pub struct OllamaFunctionParametersView {
    /// The parameters, each under a name of its own.
    pub properties: Seq<OllamaParameterView>,
    /// The names of the parameters that a call has to give, in the order in which they were
    /// declared so.
    pub required: Seq<Seq<char>>,
}

/// The position of the parameter of the given name, if there is one.
pub open spec fn position_of(properties: Seq<OllamaParameterView>, name: Seq<char>) -> Option<int>
    decreases properties.len(),
{
    if properties.len() == 0 {
        None
    } else if position_of(properties.drop_last(), name) is Some {
        position_of(properties.drop_last(), name)
    } else if properties.last().name == name {
        Some(properties.len() - 1)
    } else {
        None
    }
}

/// The properties after a parameter has been declared: it takes the place of the parameter
/// of its name, or the place at the end where no parameter has that name.
pub open spec fn declared(
    properties: Seq<OllamaParameterView>,
    parameter: OllamaParameterView,
) -> Seq<OllamaParameterView> {
    match position_of(properties, parameter.name) {
        Some(at) => properties.update(at, parameter),
        None => properties.push(parameter),
    }
}

/// The parameters after one more has been pushed.
pub open spec fn with_parameter(
    parameters: OllamaFunctionParametersView,
    parameter: OllamaParameterView,
    required: bool,
) -> OllamaFunctionParametersView {
    OllamaFunctionParametersView {
        properties: declared(parameters.properties, parameter),
        required: if required {
            parameters.required.push(parameter.name)
        } else {
            parameters.required
        },
    }
}

/// What `position_of` finds is the first parameter of that name, and it finds none only
/// where no parameter has the name.
pub proof fn lemma_position_of(properties: Seq<OllamaParameterView>, name: Seq<char>)
    ensures
        match position_of(properties, name) {
            Some(at) => 0 <= at < properties.len() && properties[at].name == name && forall|
                j: int,
            | 0 <= j < at ==> properties[j].name != name,
            None => forall|j: int| 0 <= j < properties.len() ==> properties[j].name != name,
        },
    decreases properties.len(),
{
    if properties.len() > 0 {
        let init = properties.drop_last();
        lemma_position_of(init, name);
        assert(forall|j: int| 0 <= j < init.len() ==> init[j] == properties[j]);
    }
}

/// Whether no two of the parameters have the same name.
pub open spec fn distinct_names(properties: Seq<OllamaParameterView>) -> bool {
    forall|i: int, j: int|
        0 <= i < j < properties.len() ==> (#[trigger] properties[i]).name != (
        #[trigger] properties[j]).name
}

/// The parameters of a function: an object schema with properties, each under a name of its
/// own, of which some are required.
#[derive(Debug)]
pub struct OllamaFunctionParameters {
    properties: Vec<OllamaParameter>,
    required: Vec<String>,
}

impl View for OllamaFunctionParameters {
    type V = OllamaFunctionParametersView;

    closed spec fn view(&self) -> OllamaFunctionParametersView {
        OllamaFunctionParametersView {
            properties: parameter_views(self.properties@),
            required: name_views(self.required@),
        }
    }
}

impl Clone for OllamaFunctionParameters {
    fn clone(&self) -> (r: Self)
        ensures
            r@ == self@,
    {
        proof {
            use_type_invariant(self);
        }
        let mut properties: Vec<OllamaParameter> = Vec::new();
        for i in 0..self.properties.len()
            invariant
                properties@.len() == i,
                forall|j: int| 0 <= j < i ==> properties@[j]@ == self.properties@[j]@,
        {
            properties.push(self.properties[i].clone());
        }
        assert(parameter_views(properties@) =~= parameter_views(self.properties@));
        let mut required: Vec<String> = Vec::new();
        for i in 0..self.required.len()
            invariant
                required@.len() == i,
                forall|j: int| 0 <= j < i ==> required@[j]@ == self.required@[j]@,
        {
            required.push(self.required[i].clone());
        }
        assert(name_views(required@) =~= name_views(self.required@));
        OllamaFunctionParameters { properties, required }
    }
}

impl OllamaFunctionParameters {
    #[verifier::type_invariant]
    spec fn names_are_distinct(self) -> bool {
        distinct_names(parameter_views(self.properties@))
    }

    /// Parameters of which none is declared.
    pub fn new() -> (r: Self)
        ensures
            r@ == (OllamaFunctionParametersView {
                properties: Seq::empty(),
                required: Seq::empty(),
            }),
    {
        let r = OllamaFunctionParameters { properties: Vec::new(), required: Vec::new() };
        assert(r@.properties =~= Seq::empty());
        assert(r@.required =~= Seq::empty());
        r
    }

    /// Declares a parameter. A parameter that was declared under the same name gives way to
    /// the new one; a required parameter has its name added to the required names.
    pub fn push_parameter(
        &mut self,
        name: &str,
        json_type: &str,
        description: &str,
        required: bool,
    ) -> (r: &mut Self)
        ensures
            r@ == with_parameter(
                old(self)@,
                OllamaParameterView { name: name@, json_type: json_type@, description: description@ },
                required,
            ),
            *final(self) == *final(r),
    {
        let parameter = OllamaParameter {
            name: name.to_owned(),
            json_type: json_type.to_owned(),
            description: description.to_owned(),
        };
        proof {
            use_type_invariant(&*self);
        }
        let ghost before = self@.properties;
        let mut found: Option<usize> = None;
        let mut i: usize = 0;
        while i < self.properties.len() && found.is_none()
            invariant
                i <= self.properties.len(),
                self@.properties == before,
                match found {
                    Some(at) => at < i && position_of(before.take(i as int), name@) == Some(
                        at as int,
                    ) && position_of(before, name@) == Some(at as int),
                    None => position_of(before.take(i as int), name@) is None,
                },
            decreases self.properties.len() - i + (if found is None { 1int } else { 0int }),
        {
            assert(before.take(i + 1).drop_last() =~= before.take(i as int));
            assert(before.take(i + 1).last() == self.properties@[i as int]@);
            if same_text(self.properties[i].name.as_str(), name) {
                found = Some(i);
                proof {
                    lemma_position_prefix(before, name@, i + 1);
                }
            }
            i += 1;
        }
        assert(found is None ==> position_of(before, name@) is None) by {
            if found is None {
                assert(before.take(i as int) =~= before);
            }
        }
        proof {
            lemma_position_of(before, name@);
            assert(distinct_names(before));
        }
        let mut properties: Vec<OllamaParameter> = Vec::new();
        assert(parameter_views(properties@) =~= Seq::empty());
        core::mem::swap(&mut properties, &mut self.properties);
        match found {
            Some(at) => {
                properties.set(at, parameter);
                assert(parameter_views(properties@) =~= before.update(at as int, parameter@));
            },
            None => {
                properties.push(parameter);
                assert(parameter_views(properties@) =~= before.push(parameter@));
            },
        }
        assert(distinct_names(parameter_views(properties@)));
        self.properties = properties;
        if required {
            let mut names: Vec<String> = Vec::new();
            core::mem::swap(&mut names, &mut self.required);
            let ghost before_names = name_views(names@);
            names.push(name.to_owned());
            assert(name_views(names@) =~= before_names.push(name@));
            self.required = names;
        }
        self
    }



    /// The parameters, each under a name of its own.
    pub fn properties(&self) -> (r: &Vec<OllamaParameter>)
        ensures
            parameter_views(r@) == self@.properties,
            distinct_names(self@.properties),
    {
        proof {
            use_type_invariant(self);
        }
        &self.properties
    }

    /// The wire form of the parameters (see `is_parameters_json`).
    pub fn to_json(&self) -> (r: serde_json::Value)
        ensures
            is_parameters_json(r, self@),
    {
        proof {
            use_type_invariant(self);
            lemma_tool_keys();
        }
        let mut properties = empty_object();
        for i in 0..self.properties.len()
            invariant
                distinct_names(self@.properties),
                json_is_object(properties),
                forall|j: int|
                    0 <= j < i ==> holds_parameter(properties, #[trigger] self@.properties[j]),
                forall|k: Seq<char>|
                    (forall|j: int| 0 <= j < i ==> (#[trigger] self@.properties[j]).name != k) ==> (
                    #[trigger] json_member(properties, k)) is None,
        {
            proof {
                lemma_tool_keys();
            }
            let parameter = &self.properties[i];
            assert(parameter@ == self@.properties[i as int]);
            let mut described = empty_object();
            put_text(&mut described, "type", parameter.json_type.as_str());
            put_text(&mut described, "description", parameter.description.as_str());
            assert(is_parameter_json(described, parameter@));
            let ghost before = properties;
            insert_member(&mut properties, parameter.name.as_str(), described);
            assert forall|j: int| 0 <= j < i + 1 implies holds_parameter(
                properties,
                #[trigger] self@.properties[j],
            ) by {
                if j < i {
                    assert(self@.properties[j].name != self@.properties[i as int].name);
                    assert(json_member(properties, self@.properties[j].name) == json_member(
                        before,
                        self@.properties[j].name,
                    ));
                }
            }
            assert forall|k: Seq<char>|
                (forall|j: int| 0 <= j < i + 1 ==> (#[trigger] self@.properties[j]).name != k) implies (
            #[trigger] json_member(properties, k)) is None by {
                assert(self@.properties[i as int].name != k);
                assert(forall|j: int| 0 <= j < i ==> (#[trigger] self@.properties[j]).name != k);
                assert(json_member(properties, k) == json_member(before, k));
            }
        }
        let mut required: Vec<serde_json::Value> = Vec::new();
        for i in 0..self.required.len()
            invariant
                required@.len() == i,
                forall|j: int|
                    0 <= j < i ==> json_str(#[trigger] required@[j]) == Some(self@.required[j]),
        {
            required.push(text_value(self.required[i].as_str()));
        }
        let mut doc = empty_object();
        put_text(&mut doc, "type", "object");
        insert_member(&mut doc, "properties", properties);
        insert_member(&mut doc, "required", array_of(required));
        doc
    }

    /// The names of the required parameters.
    pub fn required(&self) -> (r: &Vec<String>)
        ensures
            name_views(r@) == self@.required,
    {
        &self.required
    }
}

/// A parameter that is found among the first `n` is found there among all.
proof fn lemma_position_prefix(properties: Seq<OllamaParameterView>, name: Seq<char>, n: int)
    requires
        0 <= n <= properties.len(),
        position_of(properties.take(n), name) is Some,
    ensures
        position_of(properties, name) == position_of(properties.take(n), name),
    decreases properties.len() - n,
{
    if n < properties.len() {
        let longer = properties.take(n + 1);
        assert(longer.drop_last() =~= properties.take(n));
        lemma_position_prefix(properties, name, n + 1);
    } else {
        assert(properties.take(n) =~= properties);
    }
}

/// Whether a document is the wire form of the description of a parameter:
/// `{"type": .., "description": ..}`.
pub open spec fn is_parameter_json(doc: serde_json::Value, parameter: OllamaParameterView) -> bool {
    &&& json_is_object(doc)
    &&& holds_text(doc, "type"@, Some(parameter.json_type))
    &&& holds_text(doc, "description"@, Some(parameter.description))
    &&& forall|k: Seq<char>| k != "type"@ && k != "description"@ ==> (#[trigger] json_member(doc, k))
        is None
}

/// Whether an object holds the description of a parameter under the parameter's name.
pub open spec fn holds_parameter(doc: serde_json::Value, parameter: OllamaParameterView) -> bool {
    json_member(doc, parameter.name) matches Some(d) && is_parameter_json(d, parameter)
}

/// Whether a document is the wire form of properties: an object that holds the description
/// of each parameter under the parameter's name, and nothing else.
pub open spec fn is_properties_json(doc: serde_json::Value, properties: Seq<OllamaParameterView>) -> bool {
    &&& json_is_object(doc)
    &&& forall|j: int| 0 <= j < properties.len() ==> holds_parameter(doc, #[trigger] properties[j])
    &&& forall|k: Seq<char>|
        (forall|j: int| 0 <= j < properties.len() ==> (#[trigger] properties[j]).name != k) ==> (
        #[trigger] json_member(doc, k)) is None
}

/// Whether a document is the array of the given texts, in their order.
pub open spec fn is_texts_json(doc: serde_json::Value, texts: Seq<Seq<char>>) -> bool {
    &&& json_items(doc) matches Some(docs)
    &&& docs.len() == texts.len()
    &&& forall|j: int| 0 <= j < docs.len() ==> json_str(#[trigger] docs[j]) == Some(texts[j])
}

/// Whether a document is the wire form of the parameters of a function: the schema of an
/// object, `{"type": "object", "properties": {..}, "required": [..]}`.
pub open spec fn is_parameters_json(doc: serde_json::Value, parameters: OllamaFunctionParametersView) -> bool {
    &&& json_is_object(doc)
    &&& holds_text(doc, "type"@, Some("object"@))
    &&& json_member(doc, "properties"@) matches Some(properties)
    &&& is_properties_json(properties, parameters.properties)
    &&& json_member(doc, "required"@) matches Some(required)
    &&& is_texts_json(required, parameters.required)
    &&& forall|k: Seq<char>|
        k != "type"@ && k != "properties"@ && k != "required"@ ==> (#[trigger] json_member(doc, k))
            is None
}

/// Whether a document is the wire form of what a function is:
/// `{"name": .., "description": .., "parameters": {..}}`, the parameters only where the
/// function has them.
pub open spec fn is_signature_json(doc: serde_json::Value, function: OllamaFunctionView) -> bool {
    &&& json_is_object(doc)
    &&& holds_text(doc, "name"@, Some(function.name))
    &&& holds_text(doc, "description"@, Some(function.description))
    &&& match function.parameters {
        Some(parameters) => json_member(doc, "parameters"@) matches Some(d) && is_parameters_json(
            d,
            parameters,
        ),
        None => json_member(doc, "parameters"@) is None,
    }
    &&& forall|k: Seq<char>|
        k != "name"@ && k != "description"@ && k != "parameters"@ ==> (#[trigger] json_member(
            doc,
            k,
        )) is None
}

/// Whether a document is the wire form of the declaration of a function:
/// `{"type": "function", "function": {..}}`.
pub open spec fn is_function_json(doc: serde_json::Value, function: OllamaFunctionView) -> bool {
    &&& json_is_object(doc)
    &&& holds_text(doc, "type"@, Some("function"@))
    &&& json_member(doc, "function"@) matches Some(signature)
    &&& is_signature_json(signature, function)
    &&& forall|k: Seq<char>| k != "type"@ && k != "function"@ ==> (#[trigger] json_member(doc, k))
        is None
}

/// Whether a document is the wire form of tools: the array of the wire forms of their
/// functions, in their order.
pub open spec fn is_tools_json(doc: serde_json::Value, tools: Seq<OllamaFunctionView>) -> bool {
    &&& json_items(doc) matches Some(docs)
    &&& docs.len() == tools.len()
    &&& forall|j: int| 0 <= j < docs.len() ==> is_function_json(#[trigger] docs[j], tools[j])
}

/// The names of the members of the wire forms of tools differ from one another.
proof fn lemma_tool_keys()
    ensures
        "type"@ != "description"@,
        "type"@ != "properties"@,
        "type"@ != "required"@,
        "properties"@ != "required"@,
        "type"@ != "function"@,
        "name"@ != "description"@,
        "name"@ != "parameters"@,
        "description"@ != "parameters"@,
{
    reveal_strlit("type");
    reveal_strlit("description");
    reveal_strlit("properties");
    reveal_strlit("required");
    reveal_strlit("function");
    reveal_strlit("name");
    reveal_strlit("parameters");
    assert("type"@.len() == 4);
    assert("description"@.len() == 11);
    assert("properties"@.len() == 10 && "properties"@[0] == 'p');
    assert("required"@.len() == 8 && "required"@[0] == 'r');
    assert("function"@.len() == 8 && "function"@[0] == 'f');
    assert("name"@.len() == 4 && "name"@[0] == 'n');
    assert("parameters"@.len() == 10 && "parameters"@[1] == 'a');
    assert("properties"@[1] == 'r');
}

/// What the declaration of a function holds.
pub struct OllamaFunctionView {
    pub name: Seq<char>,
    pub description: Seq<char>,
    pub parameters: Option<OllamaFunctionParametersView>,
}

/// The declaration of a function that a model may call.
#[derive(Debug)]
pub struct OllamaFunction {
    name: String,
    description: String,
    parameters: Option<OllamaFunctionParameters>,
}

impl View for OllamaFunction {
    type V = OllamaFunctionView;

    closed spec fn view(&self) -> OllamaFunctionView {
        OllamaFunctionView {
            name: self.name@,
            description: self.description@,
            parameters: match self.parameters {
                Some(parameters) => Some(parameters@),
                None => None,
            },
        }
    }
}

impl Clone for OllamaFunction {
    fn clone(&self) -> (r: Self)
        ensures
            r@ == self@,
    {
        OllamaFunction {
            name: self.name.clone(),
            description: self.description.clone(),
            parameters: match &self.parameters {
                Some(parameters) => Some(parameters.clone()),
                None => None,
            },
        }
    }
}

impl OllamaFunction {
    /// The declaration of a function without parameters.
    pub fn new(name: &str, description: &str) -> (r: Self)
        ensures
            r@ == (OllamaFunctionView {
                name: name@,
                description: description@,
                parameters: None,
            }),
    {
        OllamaFunction {
            name: name.to_owned(),
            description: description.to_owned(),
            parameters: None,
        }
    }

    /// Sets the parameters of the function.
    pub fn set_parameters(&mut self, parameters: OllamaFunctionParameters) -> (r: &mut Self)
        ensures
            r@ == (OllamaFunctionView { parameters: Some(parameters@), ..old(self)@ }),
            *final(self) == *final(r),
    {
        self.parameters = Some(parameters);
        self
    }

    /// The wire form of the declaration (see `is_function_json`).
    pub fn to_json(&self) -> (r: serde_json::Value)
        ensures
            is_function_json(r, self@),
    {
        proof {
            lemma_tool_keys();
        }
        let mut signature = empty_object();
        put_text(&mut signature, "name", self.name.as_str());
        put_text(&mut signature, "description", self.description.as_str());
        if let Some(parameters) = &self.parameters {
            insert_member(&mut signature, "parameters", parameters.to_json());
        }
        let mut doc = empty_object();
        put_text(&mut doc, "type", "function");
        insert_member(&mut doc, "function", signature);
        doc
    }

    /// The name of the function.
    pub fn name(&self) -> (r: &str)
        ensures
            r@ == self@.name,
    {
        self.name.as_str()
    }

    /// What the function does.
    pub fn description(&self) -> (r: &str)
        ensures
            r@ == self@.description,
    {
        self.description.as_str()
    }

    /// The parameters of the function.
    pub fn parameters(&self) -> (r: Option<&OllamaFunctionParameters>)
        ensures
            match r {
                Some(parameters) => self@.parameters == Some(parameters@),
                None => self@.parameters is None,
            },
    {
        self.parameters.as_ref()
    }
}

/// The views of functions, in order.
pub open spec fn function_views(functions: Seq<OllamaFunction>) -> Seq<OllamaFunctionView> {
    functions.map_values(|f: OllamaFunction| f@)
}

/// The tools that a model may use: the functions declared, in order.
#[derive(Debug)]
pub struct OllamaTools {
    functions: Vec<OllamaFunction>,
}

impl View for OllamaTools {
    type V = Seq<OllamaFunctionView>;

    closed spec fn view(&self) -> Seq<OllamaFunctionView> {
        function_views(self.functions@)
    }
}

impl Clone for OllamaTools {
    fn clone(&self) -> (r: Self)
        ensures
            r@ == self@,
    {
        let mut functions: Vec<OllamaFunction> = Vec::new();
        for i in 0..self.functions.len()
            invariant
                functions@.len() == i,
                forall|j: int| 0 <= j < i ==> functions@[j]@ == self.functions@[j]@,
        {
            functions.push(self.functions[i].clone());
        }
        assert(function_views(functions@) =~= function_views(self.functions@));
        OllamaTools { functions }
    }
}

impl OllamaTools {
    /// No tools.
    pub fn new() -> (r: Self)
        ensures
            r@ == Seq::<OllamaFunctionView>::empty(),
    {
        let r = OllamaTools { functions: Vec::new() };
        assert(r@ =~= Seq::<OllamaFunctionView>::empty());
        r
    }

    /// Adds a function at the end.
    pub fn push_function(&mut self, function: OllamaFunction) -> (r: &mut Self)
        ensures
            r@ == old(self)@.push(function@),
            *final(self) == *final(r),
    {
        self.functions.push(function);
        assert(self@ =~= old(self)@.push(function@));
        self
    }

    /// The wire form of the tools (see `is_tools_json`).
    pub fn to_json(&self) -> (r: serde_json::Value)
        ensures
            is_tools_json(r, self@),
            !json_is_null(r),
    {
        let mut docs: Vec<serde_json::Value> = Vec::new();
        for i in 0..self.functions.len()
            invariant
                docs@.len() == i,
                forall|j: int| 0 <= j < i ==> is_function_json(#[trigger] docs@[j], self.functions@[j]@),
        {
            docs.push(self.functions[i].to_json());
        }
        array_of(docs)
    }

    /// The functions declared, in order.
    pub fn functions(&self) -> (r: &Vec<OllamaFunction>)
        ensures
            function_views(r@) == self@,
    {
        &self.functions
    }
}

} // verus!
