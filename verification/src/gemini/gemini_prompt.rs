//! Roles and prompts.

use vstd::prelude::*;
use crate::text::same_text;

verus! {

/// Who is responsible for a part of a conversation.
#[derive(Clone, Copy, Debug, PartialEq, Eq, Structural)]
pub enum GeminiRole {
    System,
    User,
    Tool,
}

/// The name of a role, as the API writes it.
pub open spec fn role_name(role: GeminiRole) -> Seq<char> {
    match role {
        GeminiRole::System => "system"@,
        GeminiRole::User => "user"@,
        GeminiRole::Tool => "tool"@,
    }
}

/// The role that a name written in lower case stands for.
pub open spec fn role_named(name: Seq<char>) -> Option<GeminiRole> {
    if name == "system"@ {
        Some(GeminiRole::System)
    } else if name == "user"@ {
        Some(GeminiRole::User)
    } else if name == "tool"@ {
        Some(GeminiRole::Tool)
    } else {
        None
    }
}

/// The text that `str::to_lowercase` makes of a text.
pub uninterp spec fn lowercase(text: Seq<char>) -> Seq<char>;

/// `str::to_lowercase`: the text in lower case, as Unicode defines it.
#[verifier::external_body]
fn to_lowercase(text: &str) -> (r: String)
    ensures
        r@ == lowercase(text@),
{
    text.to_lowercase()
}

/// The name of a role is the name of that role and of no other.
pub proof fn lemma_role_name_round_trip(role: GeminiRole)
    ensures
        role_named(role_name(role)) == Some(role),
{
    reveal_strlit("system");
    reveal_strlit("user");
    reveal_strlit("tool");
    assert("system"@.len() == 6);
    assert("user"@.len() == 4);
    assert("tool"@.len() == 4);
    assert("user"@[0] == 'u');
    assert("tool"@[0] == 't');
}

impl GeminiRole {
    /// The name of the role, as the API writes it.
    pub fn as_str(&self) -> (r: &'static str)
        ensures
            r@ == role_name(*self),
    {
        match self {
            GeminiRole::System => "system",
            GeminiRole::User => "user",
            GeminiRole::Tool => "tool",
        }
    }

    /// The role that a name written in lower case stands for: `system`, `user` or `tool`,
    /// and no other name.
    pub fn from_lowercase(name: &str) -> (r: Option<Self>)
        ensures
            r == role_named(name@),
    {
        if same_text(name, "system") {
            Some(GeminiRole::System)
        } else if same_text(name, "user") {
            Some(GeminiRole::User)
        } else if same_text(name, "tool") {
            Some(GeminiRole::Tool)
        } else {
            None
        }
    }

    /// The role that a name stands for, in whatever case it is written.
    pub fn from_str(role: &str) -> (r: Option<Self>)
        ensures
            r == role_named(lowercase(role@)),
    {
        let lowered = to_lowercase(role);
        Self::from_lowercase(lowered.as_str())
    }
}

/// What a prompt holds.
pub struct GeminiPromptView {
    pub role: Option<GeminiRole>,
    pub text: Seq<char>,
}

/// A prompt: a text, and the role under which it is said, if any.
#[derive(Debug)]
pub struct GeminiPrompt {
    pub role: Option<GeminiRole>,
    pub text: String,
}

impl View for GeminiPrompt {
    type V = GeminiPromptView;

    open spec fn view(&self) -> GeminiPromptView {
        GeminiPromptView { role: self.role, text: self.text@ }
    }
}

impl Clone for GeminiPrompt {
    fn clone(&self) -> (r: Self)
        ensures
            r@ == self@,
    {
        GeminiPrompt { role: self.role, text: self.text.clone() }
    }
}

impl GeminiPrompt {
    /// A prompt under no role.
    pub fn new(text: &str) -> (r: Self)
        ensures
            r@ == (GeminiPromptView { role: None, text: text@ }),
    {
        GeminiPrompt { role: None, text: text.to_owned() }
    }
}

/// Prompts of the system.
pub struct GeminiPromptSystem;

impl GeminiPromptSystem {
    /// A prompt under the role of the system.
    pub fn new(text: &str) -> (r: GeminiPrompt)
        ensures
            r@ == (GeminiPromptView { role: Some(GeminiRole::System), text: text@ }),
    {
        GeminiPrompt { role: Some(GeminiRole::System), text: text.to_owned() }
    }
}

/// Prompts of a tool.
pub struct GeminiPromptTool;

impl GeminiPromptTool {
    /// A prompt under the role of a tool.
    pub fn new(text: &str) -> (r: GeminiPrompt)
        ensures
            r@ == (GeminiPromptView { role: Some(GeminiRole::Tool), text: text@ }),
    {
        GeminiPrompt { role: Some(GeminiRole::Tool), text: text.to_owned() }
    }
}

/// Prompts of the user.
pub struct GeminiPromptUser;

impl GeminiPromptUser {
    /// A prompt under the role of the user.
    pub fn new(text: &str) -> (r: GeminiPrompt)
        ensures
            r@ == (GeminiPromptView { role: Some(GeminiRole::User), text: text@ }),
    {
        GeminiPrompt { role: Some(GeminiRole::User), text: text.to_owned() }
    }
}

} // verus!
