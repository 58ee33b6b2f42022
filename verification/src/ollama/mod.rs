pub mod generate;
pub mod ollama;
pub mod ollama_message;
pub mod ollama_options;
pub mod ollama_request;
pub mod ollama_response;
pub mod ollama_response_stream;
pub mod ollama_session;
pub mod stats;
pub mod tool;

pub use generate::{GenerateResponse, OllamaResponseChunk};
pub use ollama::{AssembledMessage, Ollama};
pub use ollama_message::{OllamaMessage, OllamaMessages};
pub use ollama_options::{OllamaOptions, OllamaOptions2};
pub use ollama_request::OllamaRequest;
pub use ollama_response::OllamaResponse2;
pub use ollama_response_stream::OllamaResponseStream;
pub use ollama_session::{Event, Next, OllamaSession, Phase, Step};
pub use stats::OllamaStats;
pub use tool::{
    OllamaFunction, OllamaFunctionParameters, OllamaParameter, OllamaToolCall, OllamaToolCalls,
    OllamaTools,
};
