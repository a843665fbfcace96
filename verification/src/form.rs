use vstd::prelude::*;
use vstd::string::StrSliceExecFns;
use crate::json::JsonValue;
use crate::provider::OpenCodeModelDraft;

verus! {

/// A single-line text field: its text and the cursor position, in characters.
pub struct TextInput {
    pub value: String,
    pub cursor: usize,
}

impl TextInput {
    /// An empty field.
    pub fn new() -> (r: Self)
        ensures
            r.value@ == Seq::<char>::empty(),
            r.cursor == 0,
    {
        TextInput { value: String::new(), cursor: 0 }
    }

    /// Replaces the text and puts the cursor at its end.
    pub fn set(&mut self, value: &str)
        ensures
            final(self).value@ == value@,
            final(self).cursor == value@.len(),
    {
        self.value = value.to_string();
        self.cursor = value.unicode_len();
    }

    /// The text is empty once trimmed.
    pub fn is_blank(&self) -> (r: bool)
        ensures
            r == crate::text::is_blank(self.value@),
    {
        crate::text::is_blank_str(self.value.as_str())
    }
}

/// The wire format an Anthropic CLI provider speaks.
#[derive(Clone, Copy, PartialEq, Eq, Debug)]
pub enum ClaudeApiFormat {
    Anthropic,
    OpenAiChat,
    OpenAiResponses,
}

/// How a Gemini provider authenticates.
#[derive(Clone, Copy, PartialEq, Eq, Debug)]
pub enum GeminiAuthType {
    ApiKey,
    OAuth,
}

/// The API a Codex provider is reached through.
#[derive(Clone, Copy, PartialEq, Eq, Debug)]
pub enum CodexWireApi {
    Chat,
    Responses,
}

/// The provider form: the fields the provider loaders fill.
pub struct ProviderAddFormState {
    pub id: TextInput,
    pub name: TextInput,
    pub claude_api_format: ClaudeApiFormat,
    pub claude_api_key: TextInput,
    pub claude_base_url: TextInput,
    pub claude_model: TextInput,
    pub claude_reasoning_model: TextInput,
    pub claude_haiku_model: TextInput,
    pub claude_sonnet_model: TextInput,
    pub claude_opus_model: TextInput,
    pub codex_base_url: TextInput,
    pub codex_model: TextInput,
    pub codex_wire_api: CodexWireApi,
    pub codex_requires_openai_auth: bool,
    pub codex_env_key: TextInput,
    pub codex_api_key: TextInput,
    pub gemini_auth_type: GeminiAuthType,
    pub gemini_api_key: TextInput,
    pub gemini_base_url: TextInput,
    pub gemini_model: TextInput,
    pub opencode_npm_package: TextInput,
    pub opencode_api_key: TextInput,
    pub opencode_base_url: TextInput,
    pub opencode_models: Vec<OpenCodeModelDraft>,
    pub opencode_model_idx: usize,
    pub opencode_model_original_id: Option<String>,
    pub opencode_model_id: TextInput,
    pub opencode_model_name: TextInput,
    pub opencode_model_context_limit: TextInput,
    pub opencode_model_output_limit: TextInput,
    pub openclaw_user_agent: bool,
    pub openclaw_models: Vec<JsonValue>,
    pub field_idx: usize,
    pub editing: bool,
}

/// The field holds `s`, with the cursor at its end.
pub open spec fn is_set_to(t: TextInput, s: Seq<char>) -> bool {
    t.value@ == s && t.cursor == s.len()
}

/// The field is set to the text when there is one, and kept otherwise.
pub open spec fn set_if(new: TextInput, old: TextInput, s: Option<Seq<char>>) -> bool {
    match s {
        Some(t) => is_set_to(new, t),
        None => new == old,
    }
}

impl ProviderAddFormState {
    /// The Anthropic CLI fields are the same.
    pub open spec fn same_claude(&self, o: &Self) -> bool {
        &&& self.claude_api_format == o.claude_api_format
        &&& self.claude_api_key == o.claude_api_key
        &&& self.claude_base_url == o.claude_base_url
        &&& self.claude_model == o.claude_model
        &&& self.claude_reasoning_model == o.claude_reasoning_model
        &&& self.claude_haiku_model == o.claude_haiku_model
        &&& self.claude_sonnet_model == o.claude_sonnet_model
        &&& self.claude_opus_model == o.claude_opus_model
    }

    /// The Codex fields are the same.
    pub open spec fn same_codex(&self, o: &Self) -> bool {
        &&& self.codex_base_url == o.codex_base_url
        &&& self.codex_model == o.codex_model
        &&& self.codex_wire_api == o.codex_wire_api
        &&& self.codex_requires_openai_auth == o.codex_requires_openai_auth
        &&& self.codex_env_key == o.codex_env_key
        &&& self.codex_api_key == o.codex_api_key
    }

    /// The Gemini fields are the same.
    pub open spec fn same_gemini(&self, o: &Self) -> bool {
        &&& self.gemini_auth_type == o.gemini_auth_type
        &&& self.gemini_api_key == o.gemini_api_key
        &&& self.gemini_base_url == o.gemini_base_url
        &&& self.gemini_model == o.gemini_model
    }

    /// The OpenCode connection fields are the same.
    pub open spec fn same_opencode_base(&self, o: &Self) -> bool {
        &&& self.opencode_npm_package == o.opencode_npm_package
        &&& self.opencode_api_key == o.opencode_api_key
        &&& self.opencode_base_url == o.opencode_base_url
    }

    /// The model fields are the same.
    pub open spec fn same_models(&self, o: &Self) -> bool {
        &&& self.opencode_models == o.opencode_models
        &&& self.opencode_model_idx == o.opencode_model_idx
        &&& self.opencode_model_original_id == o.opencode_model_original_id
        &&& self.opencode_model_id == o.opencode_model_id
        &&& self.opencode_model_name == o.opencode_model_name
        &&& self.opencode_model_context_limit == o.opencode_model_context_limit
        &&& self.opencode_model_output_limit == o.opencode_model_output_limit
    }

    /// The OpenClaw fields are the same.
    pub open spec fn same_openclaw(&self, o: &Self) -> bool {
        &&& self.openclaw_user_agent == o.openclaw_user_agent
        &&& self.openclaw_models == o.openclaw_models
    }

    /// Every field is the same but the navigation fields (`field_idx`, `editing`) and
    /// the index of the shown model.
    pub open spec fn same_content(&self, o: &Self) -> bool {
        &&& self.same_claude(o)
        &&& self.same_codex(o)
        &&& self.same_gemini(o)
        &&& self.same_opencode_base(o)
        &&& self.same_openclaw(o)
        &&& self.id == o.id
        &&& self.name == o.name
        &&& self.opencode_models == o.opencode_models
        &&& self.opencode_model_original_id == o.opencode_model_original_id
        &&& self.opencode_model_id == o.opencode_model_id
        &&& self.opencode_model_name == o.opencode_model_name
        &&& self.opencode_model_context_limit == o.opencode_model_context_limit
        &&& self.opencode_model_output_limit == o.opencode_model_output_limit
    }

    /// The id, name and navigation fields are the same.
    pub open spec fn same_nav(&self, o: &Self) -> bool {
        &&& self.id == o.id
        &&& self.name == o.name
        &&& self.field_idx == o.field_idx
        &&& self.editing == o.editing
    }

    /// A blank form.
    pub fn new() -> (r: Self)
        ensures
            r.id.value@.len() == 0,
            r.name.value@.len() == 0,
            r.opencode_npm_package.value@.len() == 0,
            r.opencode_api_key.value@.len() == 0,
            r.opencode_base_url.value@.len() == 0,
            r.opencode_models@.len() == 0,
            r.openclaw_models@.len() == 0,
            r.opencode_model_original_id is None,
            r.opencode_model_id.value@.len() == 0,
            r.opencode_model_name.value@.len() == 0,
            r.opencode_model_context_limit.value@.len() == 0,
            r.opencode_model_output_limit.value@.len() == 0,
            !r.openclaw_user_agent,
    {
        ProviderAddFormState {
            id: TextInput::new(),
            name: TextInput::new(),
            claude_api_format: ClaudeApiFormat::Anthropic,
            claude_api_key: TextInput::new(),
            claude_base_url: TextInput::new(),
            claude_model: TextInput::new(),
            claude_reasoning_model: TextInput::new(),
            claude_haiku_model: TextInput::new(),
            claude_sonnet_model: TextInput::new(),
            claude_opus_model: TextInput::new(),
            codex_base_url: TextInput::new(),
            codex_model: TextInput::new(),
            codex_wire_api: CodexWireApi::Responses,
            codex_requires_openai_auth: false,
            codex_env_key: TextInput::new(),
            codex_api_key: TextInput::new(),
            gemini_auth_type: GeminiAuthType::ApiKey,
            gemini_api_key: TextInput::new(),
            gemini_base_url: TextInput::new(),
            gemini_model: TextInput::new(),
            opencode_npm_package: TextInput::new(),
            opencode_api_key: TextInput::new(),
            opencode_base_url: TextInput::new(),
            opencode_models: Vec::new(),
            opencode_model_idx: 0,
            opencode_model_original_id: None,
            opencode_model_id: TextInput::new(),
            opencode_model_name: TextInput::new(),
            opencode_model_context_limit: TextInput::new(),
            opencode_model_output_limit: TextInput::new(),
            openclaw_user_agent: false,
            openclaw_models: Vec::new(),
            field_idx: 0,
            editing: false,
        }
    }
}

} // verus!
