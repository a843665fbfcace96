use vstd::prelude::*;
use std::collections::HashSet;
use crate::form::TextInput;
use crate::form_load::AppType;
use crate::text::{trim_spec, unicode_lower};

verus! {

/// The list filter: whether it is being typed, and its text.
pub struct FilterState {
    pub active: bool,
    pub buffer: String,
}

impl FilterState {
    /// An inactive, empty filter.
    pub fn new() -> (r: Self)
        ensures
            !r.active,
            r.buffer@ == Seq::<char>::empty(),
    {
        FilterState { active: false, buffer: String::new() }
    }

    /// The lower-cased, trimmed filter text, or nothing when it is blank.
    pub fn query_lower(&self) -> (r: Option<String>)
        ensures
            r is None == (trim_spec(self.buffer@).len() == 0),
            r is Some ==> r.unwrap()@ == unicode_lower(trim_spec(self.buffer@)),
    {
        let trimmed = crate::text::trim_owned(self.buffer.as_str());
        if trimmed.as_str().is_empty() {
            return None;
        }
        Some(crate::text::to_lower(trimmed.as_str()))
    }
}

/// Which pane has the keyboard.
#[derive(Clone, Copy, PartialEq, Eq, Debug)]
pub enum Focus {
    Nav,
    Content,
}

/// The kind of a toast message.
#[derive(Clone, Copy, PartialEq, Eq, Debug)]
pub enum ToastKind {
    Info,
    Success,
    Warning,
    Error,
}

/// A short message shown for a number of ticks.
pub struct Toast {
    pub message: String,
    pub kind: ToastKind,
    pub remaining_ticks: u16,
}

impl Toast {
    /// A toast shown for twelve ticks.
    pub fn new(message: String, kind: ToastKind) -> (r: Self)
        ensures
            r.message@ == message@,
            r.kind == kind,
            r.remaining_ticks == 12,
    {
        Toast { message, kind, remaining_ticks: 12 }
    }
}

/// The part of the OpenClaw tools settings a rule belongs to.
#[derive(Clone, Copy, PartialEq, Eq, Debug)]
pub enum OpenClawToolsSection {
    Allow,
    Deny,
}

/// A field of the OpenClaw agents runtime settings.
#[derive(Clone, Copy, PartialEq, Eq, Debug)]
pub enum OpenClawAgentsRuntimeField {
    Model,
    Workspace,
}

/// A field of the provider form.
#[derive(Clone, Copy, PartialEq, Eq, Debug)]
pub enum ProviderAddField {
    Id,
    Name,
    OpenCodeModelName,
    OpenCodeModelId,
    OpenCodeModelContextLimit,
    OpenCodeModelOutputLimit,
}

/// A model that an OpenClaw agent can fall back to.
pub struct OpenClawModelOption {
    pub id: String,
    pub label: String,
}

/// The applications an MCP server is enabled for.
pub struct McpApps {
    pub claude: bool,
    pub codex: bool,
    pub gemini: bool,
    pub opencode: bool,
}

/// The applications shown in the navigation.
pub struct VisibleApps {
    pub claude: bool,
    pub codex: bool,
    pub gemini: bool,
    pub opencode: bool,
    pub openclaw: bool,
}

/// The applications a skill is installed for.
pub struct SkillApps {
    pub claude: bool,
    pub codex: bool,
    pub gemini: bool,
    pub opencode: bool,
}

/// A skill found on disk that is not managed yet.
pub struct UnmanagedSkill {
    pub directory: String,
    pub name: String,
}

/// What a confirmation dialog confirms.
pub enum ConfirmAction {
    Quit,
    ProviderDelete { id: String },
    McpDelete { id: String },
    PromptDelete { id: String },
    SkillsUninstall { directory: String },
    SkillsRepoRemove { owner: String, name: String },
    ConfigImport { path: String },
    ConfigRestoreBackup { id: String },
    ConfigReset,
    SettingsSetSkipClaudeOnboarding { enabled: bool },
    SettingsSetClaudePluginIntegration { enabled: bool },
    ProviderApiFormatProxyNotice,
    ProviderSwitchSharedConfigNotice,
    OpenClawDailyMemoryDelete { filename: String },
    OpenCodeModelDelete { provider_id: String, model_id: String },
    FormSaveBeforeClose,
    EditorDiscard,
    EditorSaveBeforeClose,
    WebDavMigrateV1ToV2,
}

/// A confirmation dialog.
pub struct ConfirmOverlay {
    pub title: String,
    pub message: String,
    pub action: ConfirmAction,
}

/// What a text prompt's answer is used for.
#[derive(Clone, Copy, PartialEq, Eq, Debug)]
pub enum TextSubmit {
    ConfigExport,
    ConfigImport,
    ConfigBackupName,
    SettingsProxyListenAddress,
    SettingsProxyListenPort,
    SettingsOpenClawConfigDir,
    SkillsInstallSpec,
    SkillsDiscoverQuery,
    SkillsRepoAdd,
    OpenClawDailyMemoryFilename,
    OpenClawToolsRule { section: OpenClawToolsSection, row: Option<usize> },
    OpenClawAgentsRuntimeField { field: OpenClawAgentsRuntimeField },
    WebDavJianguoyunUsername,
    WebDavJianguoyunPassword,
}

/// A text prompt.
pub struct TextInputState {
    pub title: String,
    pub prompt: String,
    pub buffer: String,
    pub submit: TextSubmit,
    pub secret: bool,
}

/// A scrollable text view.
pub struct TextViewState {
    pub title: String,
    pub lines: Vec<String>,
    pub scroll: usize,
    pub action: Option<TextViewAction>,
}

/// The action a text view offers.
pub enum TextViewAction {
    ProxyToggleTakeover { app_type: AppType, enabled: bool },
}

/// The label of a key in the key bar.
#[derive(Clone, Copy, PartialEq, Eq, Debug)]
pub enum KeyLabel {
    Takeover,
    Restore,
}

impl TextViewAction {
    /// The label of the key that runs the action: take over when enabling, restore otherwise.
    pub fn key_label(&self) -> (r: KeyLabel)
        ensures
            r == match self {
                TextViewAction::ProxyToggleTakeover { enabled, .. } => if *enabled { KeyLabel::Takeover } else { KeyLabel::Restore },
            },
    {
        match self {
            TextViewAction::ProxyToggleTakeover { enabled: true, .. } => KeyLabel::Takeover,
            TextViewAction::ProxyToggleTakeover { enabled: false, .. } => KeyLabel::Restore,
        }
    }
}

/// What a loading dialog waits for.
#[derive(Clone, Copy, PartialEq, Eq, Debug)]
pub enum LoadingKind {
    Generic,
    Proxy,
    WebDav,
    UpdateCheck,
}

/// The field of an MCP environment entry being edited.
#[derive(Clone, Copy, PartialEq, Eq, Debug)]
pub enum McpEnvEditorField {
    Key,
    Value,
}

/// The editor of one MCP environment entry.
pub struct McpEnvEntryEditorState {
    pub row: Option<usize>,
    pub return_selected: usize,
    pub field: McpEnvEditorField,
    pub key: TextInput,
    pub value: TextInput,
}

impl McpEnvEntryEditorState {
    /// The key field is being edited.
    pub fn key_active(&self) -> (r: bool)
        ensures
            r == (self.field == McpEnvEditorField::Key),
    {
        match self.field {
            McpEnvEditorField::Key => true,
            _ => false,
        }
    }

    /// The value field is being edited.
    pub fn value_active(&self) -> (r: bool)
        ensures
            r == (self.field == McpEnvEditorField::Value),
    {
        match self.field {
            McpEnvEditorField::Value => true,
            _ => false,
        }
    }
}

/// The dialog shown above the current page, if any.
pub enum Overlay {
    Closed,
    Help,
    Confirm(ConfirmOverlay),
    ProviderSwitchFirstUseConfirm { provider_id: String, title: String, message: String, selected: usize },
    TextInput(TextInputState),
    BackupPicker { selected: usize },
    TextView(TextViewState),
    CommonSnippetPicker { selected: usize },
    CommonSnippetView { app_type: AppType, view: TextViewState },
    ClaudeModelPicker { selected: usize, editing: bool },
    ClaudeApiFormatPicker { selected: usize },
    ModelFetchPicker {
        request_id: u64,
        field: ProviderAddField,
        claude_idx: Option<usize>,
        input: String,
        query: String,
        fetching: bool,
        models: Vec<String>,
        error: Option<String>,
        selected_idx: usize,
    },
    OpenClawToolsProfilePicker { selected: Option<usize> },
    OpenClawAgentsFallbackPicker { insert_at: usize, selected: usize, options: Vec<OpenClawModelOption> },
    McpAppsPicker { id: String, name: String, selected: usize, apps: McpApps },
    VisibleAppsPicker { selected: usize, apps: VisibleApps },
    SkillsAppsPicker { directory: String, name: String, selected: usize, apps: SkillApps },
    SkillsImportPicker { skills: Vec<UnmanagedSkill>, selected_idx: usize, selected: HashSet<String> },
    SkillsSyncMethodPicker { selected: usize },
    McpEnvPicker { selected: usize },
    McpEnvEntryEditor(McpEnvEntryEditorState),
    Loading { kind: LoadingKind, title: String, message: String },
    SpeedtestRunning { url: String },
    SpeedtestResult { url: String, lines: Vec<String>, scroll: usize },
    StreamCheckRunning { provider_id: String, provider_name: String },
    StreamCheckResult { provider_name: String, lines: Vec<String>, scroll: usize },
    UpdateAvailable { current: String, latest: String, selected: usize },
    UpdateDownloading { downloaded: u64, total: Option<u64> },
    UpdateResult { success: bool, message: String },
}

impl Overlay {
    /// A dialog is shown.
    pub fn is_active(&self) -> (r: bool)
        ensures
            r == !(self is Closed),
    {
        match self {
            Overlay::Closed => false,
            _ => true,
        }
    }
}

} // verus!
