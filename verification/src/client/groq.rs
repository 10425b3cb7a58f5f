//! Names of the chat models offered by the Groq backend.

use vstd::prelude::*;

verus! {

/// The models a Groq-backed provider can be pointed at.
pub enum GroqModels {
    Llama3b70,
    LLama3b8,
    Mixtrel8b,
}

impl GroqModels {
    /// The model identifier the backend's API expects.
    pub fn as_string(&self) -> (r: String)
        ensures
            r@ == self.name_spec(),
    {
        match self {
            GroqModels::LLama3b8 => "llama3-8b-8192".to_owned(),
            GroqModels::Llama3b70 => "llama3-70b-8192".to_owned(),
            GroqModels::Mixtrel8b => "Mixtral-8x7b-32768".to_owned(),
        }
    }

    pub open spec fn name_spec(self) -> Seq<char> {
        match self {
            GroqModels::LLama3b8 => "llama3-8b-8192"@,
            GroqModels::Llama3b70 => "llama3-70b-8192"@,
            GroqModels::Mixtrel8b => "Mixtral-8x7b-32768"@,
        }
    }
}

} // verus!
