//! The configuration that the config component hands to the engine: the
//! model to load and the prompt to run.

use vstd::prelude::*;

verus! {

/// The model path and the prompt of an inference.
#[derive(Debug)]
pub struct Config {
    pub model_path: String,
    pub prompt: String,
}

/// The model that the default config component names.
pub open spec fn default_model_path() -> Seq<char> {
    "models/llama-2-7b-chat.Q5_K_M.gguf"@
}

/// The prompt that the default config component names.
pub open spec fn default_prompt() -> Seq<char> {
    "What is LoRA?"@
}

/// The configuration of the default config component: the llama-2 7b chat
/// model and the prompt `What is LoRA?`.
pub fn get_config() -> (c: Config)
    ensures
        c.model_path@ == default_model_path(),
        c.prompt@ == default_prompt(),
{
    Config {
        model_path: String::from_str("models/llama-2-7b-chat.Q5_K_M.gguf"),
        prompt: String::from_str("What is LoRA?"),
    }
}

/// The default configuration names the llama-2 7b chat model in `models/`
/// and asks `What is LoRA?`.
pub proof fn lemma_default_config()
    ensures
        default_model_path() == "models/llama-2-7b-chat.Q5_K_M.gguf"@,
        default_prompt() == "What is LoRA?"@,
{
}

} // verus!
