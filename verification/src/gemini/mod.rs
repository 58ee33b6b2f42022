pub mod gemini;
pub mod gemini_content;
pub mod gemini_function;
pub mod gemini_part;
pub mod gemini_prompt;
pub mod gemini_request;
pub mod gemini_response;
pub mod gemini_response_stream;
pub mod gemini_wire;

pub use gemini::{Gemini, GEMINI_BASE_URL};
pub use gemini_content::GeminiContent;
pub use gemini_function::{GeminiFunctionDeclaration, GeminiToolDeclaration};
pub use gemini_part::{
    GeminiFunctionCall, GeminiFunctionCallDetails, GeminiFunctionResponse,
    GeminiFunctionResponseDetails, GeminiPart, GeminiPartCode, GeminiPartCodeExecutable,
    GeminiPartText, GeminiPartUnknown,
};
pub use gemini_prompt::{
    GeminiPrompt, GeminiPromptSystem, GeminiPromptTool, GeminiPromptUser, GeminiRole,
};
pub use gemini_request::GeminiRequest;
pub use gemini_response::{GeminiCandidate, GeminiResponse};
pub use gemini_response_stream::GeminiResponseStream;
