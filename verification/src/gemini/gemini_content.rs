//! A content: the parts that one speaker contributes to a conversation.

use vstd::prelude::*;
use crate::gemini::gemini_part::{
    clone_parts, part_views, GeminiPart, GeminiPartCode, GeminiPartCodeView, GeminiPartText,
    GeminiPartView,
};
use crate::gemini::gemini_prompt::{lowercase, role_name, role_named, GeminiRole};
use crate::text::{opt_string_clone, opt_text};

verus! {

/// What a content holds.
pub struct GeminiContentView {
    /// The name of the role of the speaker.
    pub role: Option<Seq<char>>,
    /// The parts, in order.
    pub parts: Seq<GeminiPartView>,
}

/// A content: a role, if one is given, and the parts that are said under it.
#[derive(Debug)]
pub struct GeminiContent {
    role: Option<String>,
    pub parts: Vec<GeminiPart>,
}

impl View for GeminiContent {
    type V = GeminiContentView;

    closed spec fn view(&self) -> GeminiContentView {
        GeminiContentView { role: opt_text(self.role), parts: part_views(self.parts@) }
    }
}

/// The views of contents, in order.
pub open spec fn content_views(contents: Seq<GeminiContent>) -> Seq<GeminiContentView> {
    contents.map_values(|c: GeminiContent| c@)
}

/// The content with one more part at its end.
pub open spec fn with_part(content: GeminiContentView, part: GeminiPartView) -> GeminiContentView {
    GeminiContentView { parts: content.parts.push(part), ..content }
}

impl Clone for GeminiContent {
    fn clone(&self) -> (r: Self)
        ensures
            r@ == self@,
    {
        GeminiContent { role: opt_string_clone(&self.role), parts: clone_parts(&self.parts) }
    }
}

impl GeminiContent {
    /// A content without role and without parts.
    pub fn new() -> (r: Self)
        ensures
            r@ == (GeminiContentView { role: None, parts: Seq::empty() }),
    {
        let r = GeminiContent { role: None, parts: Vec::new() };
        assert(r@.parts =~= Seq::empty());
        r
    }

    /// A content with the given name of a role, written as it came, and the given parts.
    pub fn from_parts(role: Option<String>, parts: Vec<GeminiPart>) -> (r: Self)
        ensures
            r@ == (GeminiContentView { role: opt_text(role), parts: part_views(parts@) }),
    {
        GeminiContent { role, parts }
    }

    /// The parts, in order.
    pub fn parts(&self) -> (r: &Vec<GeminiPart>)
        ensures
            part_views(r@) == self@.parts,
    {
        &self.parts
    }

    /// Adds a piece of code at the end.
    pub fn add_code(&mut self, language: &str, code: &str) -> (r: &mut Self)
        ensures
            r@ == with_part(
                old(self)@,
                GeminiPartView::Code(GeminiPartCodeView { language: language@, code: code@ }),
            ),
            *final(self) == *final(r),
    {
        let part = GeminiPart::Code(GeminiPartCode::new(language, code));
        self.add_part(part)
    }

    /// Adds a part at the end. The parts that were there stay as they were.
    pub fn add_part(&mut self, part: GeminiPart) -> (r: &mut Self)
        ensures
            r@ == with_part(old(self)@, part@),
            *final(self) == *final(r),
    {
        self.parts.push(part);
        assert(self@.parts =~= old(self)@.parts.push(part@));
        self
    }

    /// The role of the content: the role that its name stands for, in whatever case the
    /// name is written, and none where there is no name or the name is not that of a role.
    pub fn role(&self) -> (r: Option<GeminiRole>)
        ensures
            r == match self@.role {
                Some(name) => role_named(lowercase(name)),
                None => None,
            },
    {
        match &self.role {
            Some(name) => GeminiRole::from_str(name.as_str()),
            None => None,
        }
    }

    /// The name of the role, as it is written.
    pub fn role_name(&self) -> (r: Option<&str>)
        ensures
            match r {
                Some(s) => self@.role == Some(s@),
                None => self@.role is None,
            },
    {
        crate::text::opt_str(&self.role)
    }

    /// Sets the role.
    pub fn set_role(&mut self, role: GeminiRole) -> (r: &mut Self)
        ensures
            r@ == (GeminiContentView { role: Some(role_name(role)), ..old(self)@ }),
            *final(self) == *final(r),
    {
        self.role = Some(role.as_str().to_owned());
        self
    }

    /// Adds a text at the end.
    pub fn add_text(&mut self, text: &str) -> (r: &mut Self)
        ensures
            r@ == with_part(old(self)@, GeminiPartView::Text(text@)),
            *final(self) == *final(r),
    {
        let part = GeminiPart::Text(GeminiPartText { text: text.to_owned() });
        self.add_part(part)
    }
}

} // verus!
