//! The client of the Gemini API, as far as it computes: the addresses of the endpoints.

use vstd::prelude::*;
use vstd::string::StringExecFns;

verus! {

/// Where the API lists and serves its models.
pub const GEMINI_BASE_URL: &'static str =
    "https://generativelanguage.googleapis.com/v1beta/models";

/// What a client holds.
pub struct GeminiView {
    /// The name of the model.
    pub model: Seq<char>,
    /// The key of the API.
    pub api_key: Seq<char>,
    /// The address under which the models are served.
    pub base_url: Seq<char>,
}

/// The client of the Gemini API: it knows the model, the key and the address.
#[derive(Debug)]
pub struct Gemini {
    model: String,
    api_key: String,
    base_url: String,
}

impl View for Gemini {
    type V = GeminiView;

    closed spec fn view(&self) -> GeminiView {
        GeminiView { model: self.model@, api_key: self.api_key@, base_url: self.base_url@ }
    }
}

/// The address at which a model does something, with the key as the query.
pub open spec fn model_endpoint(client: GeminiView, action: Seq<char>) -> Seq<char> {
    client.base_url + "/"@ + client.model + action + client.api_key
}

impl Gemini {
    /// The client of the given model, with the given key, at the usual address.
    pub fn new(model: &str, api_key: &str) -> (r: Self)
        ensures
            r@ == (GeminiView { model: model@, api_key: api_key@, base_url: GEMINI_BASE_URL@ }),
    {
        Gemini {
            model: model.to_owned(),
            api_key: api_key.to_owned(),
            base_url: GEMINI_BASE_URL.to_owned(),
        }
    }

    /// Sets the address under which the models are served.
    pub fn set_base_url(&mut self, url: &str) -> (r: &mut Self)
        ensures
            r@ == (GeminiView { base_url: url@, ..old(self)@ }),
            *final(self) == *final(r),
    {
        self.base_url = url.to_owned();
        self
    }

    /// The address under which the models are served.
    pub fn base_url(&self) -> (r: &str)
        ensures
            r@ == self@.base_url,
    {
        self.base_url.as_str()
    }

    /// The name of the model.
    pub fn model(&self) -> (r: &str)
        ensures
            r@ == self@.model,
    {
        self.model.as_str()
    }

    /// The address that generates a whole response.
    pub fn generate_url(&self) -> (url: String)
        ensures
            url@ == model_endpoint(self@, ":generateContent?key="@),
    {
        self.base_url.clone().concat("/").concat(self.model.as_str()).concat(
            ":generateContent?key=",
        ).concat(self.api_key.as_str())
    }

    /// The address that generates a response as a stream of server-sent events.
    pub fn stream_url(&self) -> (url: String)
        ensures
            url@ == model_endpoint(self@, ":streamGenerateContent?alt=sse&key="@),
    {
        self.base_url.clone().concat("/").concat(self.model.as_str()).concat(
            ":streamGenerateContent?alt=sse&key=",
        ).concat(self.api_key.as_str())
    }

    /// The address that lists the models.
    pub fn models_url(&self) -> (url: String)
        ensures
            url@ == self@.base_url + "?key="@ + self@.api_key,
    {
        self.base_url.clone().concat("?key=").concat(self.api_key.as_str())
    }
}

} // verus!
