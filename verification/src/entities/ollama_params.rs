use vstd::prelude::*;

verus! {

/// The connection settings of an Ollama server.
#[derive(Debug)]
pub struct OllamaParams {
    endpoint_url: String,
    auth_token: String,
    model: String,
}

/// What Ollama settings hold.
pub struct OllamaParamsView {
    pub endpoint_url: Seq<char>,
    pub auth_token: Seq<char>,
    pub model: Seq<char>,
}

impl View for OllamaParams {
    type V = OllamaParamsView;

    closed spec fn view(&self) -> OllamaParamsView {
        OllamaParamsView {
            endpoint_url: self.endpoint_url@,
            auth_token: self.auth_token@,
            model: self.model@,
        }
    }
}

impl OllamaParams {
    pub fn new(endpoint_url: String, auth_token: String, model: String) -> (r: Self)
        ensures
            r@ == (OllamaParamsView {
                endpoint_url: endpoint_url@,
                auth_token: auth_token@,
                model: model@,
            }),
    {
        OllamaParams { endpoint_url, auth_token, model }
    }

    pub fn enpoint_url(&self) -> (r: &str)
        ensures
            r@ == self@.endpoint_url,
    {
        self.endpoint_url.as_str()
    }

    pub fn auth_token(&self) -> (r: &str)
        ensures
            r@ == self@.auth_token,
    {
        self.auth_token.as_str()
    }

    pub fn model(&self) -> (r: &str)
        ensures
            r@ == self@.model,
    {
        self.model.as_str()
    }
}

} // verus!
