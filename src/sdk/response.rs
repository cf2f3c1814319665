//! Assembling the options of one response request.

use vstd::prelude::*;

use crate::protocol::json::Json;
use crate::protocol::models::{
    ContentPart, InputItem, MaxTokens, OutputModalities, ResponseConfig, Role, ToolChoice, Voice,
};
use crate::sdk::tools::ToolRegistry;

verus! {

pub struct ResponseBuilder {
    pub config: ResponseConfig,
}

/// The input items a configuration holds, none when it has no input list.
pub open spec fn inputs_of(c: ResponseConfig) -> Seq<InputItem> {
    match c.input {
        Some(v) => v@,
        None => Seq::empty(),
    }
}

impl ResponseBuilder {
    /// A request that leaves every option to the server.
    pub fn new() -> (r: ResponseBuilder)
        ensures
            r.config.instructions is None,
            r.config.input is None,
            r.config.tools is None,
            r.config.output_modalities is None,
    {
        ResponseBuilder { config: ResponseConfig::default() }
    }

    pub fn output_text(self) -> (r: ResponseBuilder)
        ensures
            r.config == (ResponseConfig { output_modalities: Some(OutputModalities::Text), ..self.config }),
    {
        ResponseBuilder { config: ResponseConfig { output_modalities: Some(OutputModalities::Text), ..self.config } }
    }

    pub fn output_audio(self) -> (r: ResponseBuilder)
        ensures
            r.config == (ResponseConfig { output_modalities: Some(OutputModalities::Audio), ..self.config }),
    {
        ResponseBuilder { config: ResponseConfig { output_modalities: Some(OutputModalities::Audio), ..self.config } }
    }

    pub fn instructions(self, instructions: String) -> (r: ResponseBuilder)
        ensures
            r.config == (ResponseConfig { instructions: Some(instructions), ..self.config }),
    {
        ResponseBuilder { config: ResponseConfig { instructions: Some(instructions), ..self.config } }
    }

    /// The sampling temperature, as the JSON number to send.
    pub fn temperature(self, temperature: Json) -> (r: ResponseBuilder)
        ensures
            r.config == (ResponseConfig { temperature: Some(temperature), ..self.config }),
    {
        ResponseBuilder { config: ResponseConfig { temperature: Some(temperature), ..self.config } }
    }

    pub fn max_output_tokens(self, max: MaxTokens) -> (r: ResponseBuilder)
        ensures
            r.config == (ResponseConfig { max_output_tokens: Some(max), ..self.config }),
    {
        ResponseBuilder { config: ResponseConfig { max_output_tokens: Some(max), ..self.config } }
    }

    pub fn voice(self, voice: Voice) -> (r: ResponseBuilder)
        ensures
            r.config == (ResponseConfig { voice: Some(voice), ..self.config }),
    {
        ResponseBuilder { config: ResponseConfig { voice: Some(voice), ..self.config } }
    }

    /// Free-form metadata, a JSON object.
    pub fn metadata(self, metadata: Json) -> (r: ResponseBuilder)
        ensures
            r.config == (ResponseConfig { metadata: Some(metadata), ..self.config }),
    {
        ResponseBuilder { config: ResponseConfig { metadata: Some(metadata), ..self.config } }
    }

    pub fn tool_choice(self, choice: ToolChoice) -> (r: ResponseBuilder)
        ensures
            r.config == (ResponseConfig { tool_choice: Some(choice), ..self.config }),
    {
        ResponseBuilder { config: ResponseConfig { tool_choice: Some(choice), ..self.config } }
    }

    /// Attaches the registry's tools, when it has any.
    pub fn tools(self, registry: &ToolRegistry) -> (r: ResponseBuilder)
        ensures
            registry.definitions_view().len() == 0 && registry.remotes_view().len() == 0 ==> r.config == self.config,
            !(registry.definitions_view().len() == 0 && registry.remotes_view().len() == 0) ==> (r.config.tools matches Some(t)
                && t@.len() == registry.definitions_view().len() + registry.remotes_view().len()),
            r.config.instructions == self.config.instructions,
            r.config.input == self.config.input,
    {
        if registry.is_empty() {
            return self;
        }
        ResponseBuilder { config: ResponseConfig { tools: Some(registry.try_as_tools()), ..self.config } }
    }

    /// Adds a user text message to the response's input.
    pub fn input_text(self, text: String) -> (r: ResponseBuilder)
        ensures
            inputs_of(r.config).len() == inputs_of(self.config).len() + 1,
            inputs_of(r.config).take(inputs_of(self.config).len() as int) == inputs_of(self.config),
            inputs_of(r.config).last() matches InputItem::Message { id: None, role: Role::User, content }
                && content@ == seq![ContentPart::InputText { text }],
            r.config.instructions == self.config.instructions,
    {
        let mut content: Vec<ContentPart> = Vec::new();
        content.push(ContentPart::InputText { text });
        proof {
            assert(content@ =~= seq![ContentPart::InputText { text }]);
        }
        self.input_item(InputItem::Message { id: None, role: Role::User, content })
    }

    /// Adds an item to the response's input.
    pub fn input_item(self, item: InputItem) -> (r: ResponseBuilder)
        ensures
            inputs_of(r.config) == inputs_of(self.config).push(item),
            r.config.input is Some,
            r.config.instructions == self.config.instructions,
            r.config.tools == self.config.tools,
            r.config.output_modalities == self.config.output_modalities,
    {
        let config = self.config;
        let mut list = match config.input {
            Some(v) => v,
            None => Vec::new(),
        };
        let ghost before = list@;
        list.push(item);
        proof {
            assert(list@ == before.push(item));
        }
        ResponseBuilder { config: ResponseConfig { input: Some(list), ..config } }
    }

    /// The assembled options.
    pub fn build(self) -> (r: ResponseConfig)
        ensures
            r == self.config,
    {
        self.config
    }
}

} // verus!
