use vstd::prelude::*;
use vstd::string::*;

use crate::config::Config;
use ollama_rs::generation::completion::request::GenerationRequest;
use ollama_rs::Ollama;

verus! {

/// The client of the generation server, held opaquely.
#[verifier::external_type_specification]
#[verifier::external_body]
pub struct ExOllama(Ollama);

/// A generation request, held opaquely.
#[verifier::external_type_specification]
#[verifier::external_body]
pub struct ExGenerationRequest<'a>(GenerationRequest<'a>);

/// Relies on `Ollama::default`: a client of the server at its default local
/// address, `http://127.0.0.1:11434`; it opens no connection. It builds a
/// `reqwest::Client`, which panics where no TLS backend can be initialised.
#[verifier::external_body]
fn local_client() -> (r: Ollama) {
    Ollama::default()
}

/// The request that `GenerationRequest::new` makes for `prompt` to `model`.
pub uninterp spec fn request_of(model: Seq<char>, prompt: Seq<char>) -> GenerationRequest<'static>;

/// Relies on `GenerationRequest::new`: a request for `prompt` to `model`,
/// with every other setting left unset; it depends on the two texts alone.
#[verifier::external_body]
fn new_request(model: String, prompt: String) -> (r: GenerationRequest<'static>)
    ensures
        r == request_of(model@, prompt@),
{
    GenerationRequest::new(model, prompt)
}

/// A language model served by the local generation server.
pub struct OllamaLanguageModel {
    client: Ollama,
    model: String,
}

impl OllamaLanguageModel {
    /// A model handle for the model that `config` names.
    pub fn new(config: Config) -> (r: OllamaLanguageModel)
        ensures
            r.model_name() == config.model@,
    {
        OllamaLanguageModel { client: local_client(), model: config.model }
    }

    pub closed spec fn model_name(&self) -> Seq<char> {
        self.model@
    }

    /// The name of the model that requests go to.
    pub fn model(&self) -> (r: &String)
        ensures
            r@ == self.model_name(),
    {
        &self.model
    }

    /// The client through which requests are sent.
    pub fn client(&self) -> &Ollama {
        &self.client
    }

    /// The request that generates a completion of `prompt` with this model.
    pub fn request(&self, prompt: &str) -> (r: GenerationRequest<'static>)
        ensures
            r == request_of(self.model_name(), prompt@),
    {
        new_request(self.model.clone(), String::from_str(prompt))
    }
}

} // verus!
