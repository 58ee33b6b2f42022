//! The declarations of the functions that a model may call.

use vstd::prelude::*;
use crate::json::{duplicate, json_is_object, json_member, remove_member};

verus! {

/// What the declaration of a function holds.
pub struct GeminiFunctionDeclarationView {
    pub name: Seq<char>,
    pub description: Seq<char>,
    /// The schema of the parameters, a JSON document.
    pub parameters: serde_json::Value,
}

/// The declaration of a function: its name, what it does, and the schema of its parameters.
#[derive(Debug)]
pub struct GeminiFunctionDeclaration {
    pub name: String,
    pub description: String,
    pub parameters: serde_json::Value,
}

impl View for GeminiFunctionDeclaration {
    type V = GeminiFunctionDeclarationView;

    open spec fn view(&self) -> GeminiFunctionDeclarationView {
        GeminiFunctionDeclarationView {
            name: self.name@,
            description: self.description@,
            parameters: self.parameters,
        }
    }
}

impl Clone for GeminiFunctionDeclaration {
    fn clone(&self) -> (r: Self)
        ensures
            r@ == self@,
    {
        GeminiFunctionDeclaration {
            name: self.name.clone(),
            description: self.description.clone(),
            parameters: duplicate(&self.parameters),
        }
    }
}

impl GeminiFunctionDeclaration {
    /// The declaration of a function whose parameters have the given schema.
    pub fn new(name: &str, description: &str, parameters: serde_json::Value) -> (r: Self)
        ensures
            r@ == (GeminiFunctionDeclarationView {
                name: name@,
                description: description@,
                parameters,
            }),
    {
        GeminiFunctionDeclaration {
            name: name.to_owned(),
            description: description.to_owned(),
            parameters,
        }
    }
}

/// Whether `stripped` is `schema` without its `$schema` member: an object that lost that
/// member and kept every other, or a document that is no object and stayed as it was.
pub open spec fn is_stripped(stripped: serde_json::Value, schema: serde_json::Value) -> bool {
    if json_is_object(schema) {
        &&& json_is_object(stripped)
        &&& forall|k: Seq<char>| #[trigger]
            json_member(stripped, k) == if k == "$schema"@ {
                None
            } else {
                json_member(schema, k)
            }
    } else {
        stripped == schema
    }
}

/// The views of declarations, in order.
pub open spec fn declaration_views(declarations: Seq<GeminiFunctionDeclaration>) -> Seq<
    GeminiFunctionDeclarationView,
> {
    declarations.map_values(|d: GeminiFunctionDeclaration| d@)
}

/// A tool: the functions it declares.
#[derive(Debug)]
pub struct GeminiToolDeclaration {
    function_declarations: Vec<GeminiFunctionDeclaration>,
}

impl View for GeminiToolDeclaration {
    type V = Seq<GeminiFunctionDeclarationView>;

    closed spec fn view(&self) -> Seq<GeminiFunctionDeclarationView> {
        declaration_views(self.function_declarations@)
    }
}

impl Clone for GeminiToolDeclaration {
    fn clone(&self) -> (r: Self)
        ensures
            r@ == self@,
    {
        let mut declarations: Vec<GeminiFunctionDeclaration> = Vec::new();
        for i in 0..self.function_declarations.len()
            invariant
                declarations@.len() == i,
                forall|j: int| 0 <= j < i ==> declarations@[j]@ == self.function_declarations@[j]@,
        {
            declarations.push(self.function_declarations[i].clone());
        }
        assert(declaration_views(declarations@) =~= declaration_views(
            self.function_declarations@,
        ));
        GeminiToolDeclaration { function_declarations: declarations }
    }
}

impl GeminiToolDeclaration {
    /// A tool that declares no function.
    pub fn new() -> (r: Self)
        ensures
            r@ == Seq::<GeminiFunctionDeclarationView>::empty(),
    {
        let r = GeminiToolDeclaration { function_declarations: Vec::new() };
        assert(r@ =~= Seq::<GeminiFunctionDeclarationView>::empty());
        r
    }

    /// Adds the declaration of a function at the end. The schema of its parameters is kept
    /// without its `$schema` member.
    pub fn add_function(&mut self, function: GeminiFunctionDeclaration)
        ensures
            final(self)@.len() == old(self)@.len() + 1,
            final(self)@.drop_last() == old(self)@,
            final(self)@.last().name == function@.name,
            final(self)@.last().description == function@.description,
            is_stripped(final(self)@.last().parameters, function@.parameters),
    {
        let mut function = function;
        remove_member(&mut function.parameters, "$schema");
        self.function_declarations.push(function);
        assert(self@.drop_last() =~= old(self)@);
    }

    /// The declarations, in order.
    pub fn function_declarations(&self) -> (r: &Vec<GeminiFunctionDeclaration>)
        ensures
            declaration_views(r@) == self@,
    {
        &self.function_declarations
    }
}

} // verus!
