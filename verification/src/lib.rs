//! A client library for two model servers, Ollama and Gemini: reading a streamed response
//! chunk by chunk, assembling its partial messages into one, and keeping the transcript of a
//! conversation.

pub mod decode;
pub mod encode;
pub mod frame;
pub mod gemini;
pub mod json;
pub mod ollama;
pub mod text;
pub mod xml_util;

pub use decode::DecodeError;
pub use frame::{FrameReader, Framing, Parsed, Pulled};
pub use gemini::{
    Gemini, GeminiCandidate, GeminiContent, GeminiFunctionCall, GeminiFunctionCallDetails,
    GeminiFunctionDeclaration, GeminiFunctionResponse, GeminiFunctionResponseDetails, GeminiPart,
    GeminiPartCode, GeminiPartCodeExecutable, GeminiPartText, GeminiPartUnknown, GeminiPrompt,
    GeminiPromptSystem, GeminiPromptTool, GeminiPromptUser, GeminiRequest, GeminiResponse,
    GeminiResponseStream, GeminiRole, GeminiToolDeclaration, GEMINI_BASE_URL,
};
pub use ollama::{
    AssembledMessage, Event, GenerateResponse, Next, Ollama, OllamaFunction,
    OllamaFunctionParameters, OllamaMessage, OllamaMessages, OllamaOptions, OllamaOptions2,
    OllamaParameter, OllamaRequest, OllamaResponse2, OllamaResponseChunk, OllamaResponseStream,
    OllamaSession, OllamaStats, OllamaToolCall, OllamaToolCalls, OllamaTools, Phase, Step,
};
pub use xml_util::XmlUtil;
