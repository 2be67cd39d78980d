//! Configuration of the text-generation backend: which model each client type
//! stands for, its sampling options, and the settings a client is built with.

use vstd::prelude::*;

verus! {

/// A text-generation client: each variant names both a platform and a model.
#[derive(Debug, Clone, Copy, PartialEq, Eq, Structural)]
pub enum LLMClientType {
    /// The production model, served by Ollama.
    OllamaQwen,
    /// A low-memory model served by Ollama, for integration testing.
    OllamaVicuna,
}

/// How hard a reasoning model should think.
#[derive(Debug, Clone, Copy, PartialEq, Eq, Structural)]
pub enum ReasoningEffort {
    Low,
    Medium,
    High,
}

/// Reasoning settings; when present, reasoning is switched on.
#[derive(Debug, Clone, Copy, PartialEq, Eq, Structural)]
pub struct ReasoningOptions {
    pub effort: ReasoningEffort,
    pub token_budget: Option<u32>,
}

/// Sampling options of a client type. Temperature and top-p are held in
/// thousandths (`700` stands for 0.7).
#[derive(Debug, Clone, PartialEq, Eq)]
pub struct LLMClientOptions {
    pub temperature_milli: u32,
    pub system_prompt: Option<String>,
    pub reasoning: Option<ReasoningOptions>,
    pub top_p_milli: u32,
    pub top_k: u32,
    pub max_tokens: u32,
}

/// Where and how to reach the service.
#[derive(Debug, Clone, PartialEq, Eq)]
pub struct LLMClientParams {
    pub base_url: String,
    pub api_key: Option<String>,
    pub timeout_secs: Option<u64>,
}

impl LLMClientType {
    /// The model tag each client type requests.
    pub open spec fn model_name(self) -> Seq<char> {
        match self {
            LLMClientType::OllamaQwen => "qwen3:30b"@,
            LLMClientType::OllamaVicuna => "vicuna:7b"@,
        }
    }

    /// The model tag of this client type.
    pub fn to_model(&self) -> (r: String)
        ensures
            r@ == self.model_name(),
    {
        match self {
            LLMClientType::OllamaQwen => "qwen3:30b".to_owned(),
            LLMClientType::OllamaVicuna => "vicuna:7b".to_owned(),
        }
    }

    /// The sampling options of this client type: no system prompt and no reasoning.
    pub fn to_options(&self) -> (r: LLMClientOptions)
        ensures
            r.system_prompt is None,
            r.reasoning is None,
            r.temperature_milli == 700,
            *self == LLMClientType::OllamaQwen ==> r.max_tokens == 65536 && r.top_p_milli == 800
                && r.top_k == 20,
            *self == LLMClientType::OllamaVicuna ==> r.max_tokens == 512 && r.top_p_milli == 950
                && r.top_k == 40,
    {
        match self {
            LLMClientType::OllamaQwen => LLMClientOptions {
                max_tokens: 65536,
                temperature_milli: 700,
                top_p_milli: 800,
                top_k: 20,
                system_prompt: None,
                reasoning: None,
            },
            LLMClientType::OllamaVicuna => LLMClientOptions {
                max_tokens: 512,
                temperature_milli: 700,
                top_p_milli: 950,
                top_k: 40,
                system_prompt: None,
                reasoning: None,
            },
        }
    }
}

/// The platform that serves a client type.
#[derive(Debug, Clone, Copy, PartialEq, Eq, Structural)]
pub enum LLMBackend {
    Ollama,
}

/// Everything a text-generation client is built from.
#[derive(Debug, Clone, PartialEq, Eq)]
pub struct ClientSettings {
    pub backend: LLMBackend,
    pub stream: bool,
    pub model: String,
    pub base_url: String,
    pub api_key: Option<String>,
    pub timeout_seconds: Option<u64>,
    pub max_tokens: u32,
    pub top_p_milli: u32,
    pub top_k: u32,
    pub temperature_milli: u32,
    pub system: Option<String>,
    pub reasoning: bool,
    pub reasoning_effort: Option<ReasoningEffort>,
    pub reasoning_budget_tokens: Option<u32>,
}

/// The settings of a client of type `client_type` reaching the service as
/// `params` says: the model and options of the type, the address, key and
/// timeout of `params`, streaming off, and reasoning on exactly when the
/// options ask for it.
pub fn client_settings(client_type: LLMClientType, params: LLMClientParams) -> (r: ClientSettings)
    ensures
        r.backend == LLMBackend::Ollama,
        !r.stream,
        r.model@ == client_type.model_name(),
        r.base_url == params.base_url,
        r.api_key == params.api_key,
        r.timeout_seconds == params.timeout_secs,
        r.system is None,
        !r.reasoning,
        r.reasoning_effort is None,
        r.reasoning_budget_tokens is None,
        r.temperature_milli == 700,
        client_type == LLMClientType::OllamaQwen ==> r.max_tokens == 65536 && r.top_p_milli == 800
            && r.top_k == 20,
        client_type == LLMClientType::OllamaVicuna ==> r.max_tokens == 512 && r.top_p_milli == 950
            && r.top_k == 40,
{
    let backend = match client_type {
        LLMClientType::OllamaQwen | LLMClientType::OllamaVicuna => LLMBackend::Ollama,
    };
    let options = client_type.to_options();
    let (reasoning, reasoning_effort, reasoning_budget_tokens) = match options.reasoning {
        Some(o) => (true, Some(o.effort), o.token_budget),
        None => (false, None, None),
    };
    ClientSettings {
        backend,
        stream: false,
        model: client_type.to_model(),
        base_url: params.base_url,
        api_key: params.api_key,
        timeout_seconds: params.timeout_secs,
        max_tokens: options.max_tokens,
        top_p_milli: options.top_p_milli,
        top_k: options.top_k,
        temperature_milli: options.temperature_milli,
        system: options.system_prompt,
        reasoning,
        reasoning_effort,
        reasoning_budget_tokens,
    }
}

} // verus!
