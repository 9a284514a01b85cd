//! The persona that drives content generation.

use vstd::prelude::*;

verus! {

/// A persona: its name and the prompt that describes how it behaves.
#[derive(Clone, Debug)]
pub struct CharacterConfig {
    pub name: String,
    pub prompt: String,
}

/// Hands out the instructions of one persona.
pub struct InstructionBuilder {
    character_config: CharacterConfig,
}

impl InstructionBuilder {
    /// The persona that the builder holds.
    pub closed spec fn config(&self) -> CharacterConfig {
        self.character_config
    }

    /// A builder for the persona `character_config`.
    pub fn new(character_config: CharacterConfig) -> (b: InstructionBuilder)
        ensures
            b.config() == character_config,
    {
        InstructionBuilder { character_config }
    }

    /// The persona's behavioural prompt.
    pub fn get_instructions(&self) -> (r: &str)
        ensures
            r@ == self.config().prompt@,
    {
        self.character_config.prompt.as_str()
    }
}

} // verus!
