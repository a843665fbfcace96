use vstd::prelude::*;
use crate::form::ProviderAddFormState;
use crate::text::{is_blank, trim_spec};
use crate::tui_types::{ProviderAddField, Toast, ToastKind};

verus! {

/// A key of the keyboard, as the model pages read it.
#[derive(Clone, Copy, PartialEq, Eq, Debug)]
pub enum KeyCode {
    Up,
    Down,
    Left,
    Right,
    Home,
    End,
    Enter,
    Esc,
    Backspace,
    Delete,
    Char(char),
    Other,
}

/// A key press: the key, whether Control was held, and whether the press is the
/// form's save shortcut.
#[derive(Clone, Copy, PartialEq, Eq, Debug)]
pub struct KeyPress {
    pub code: KeyCode,
    pub control: bool,
    pub save_shortcut: bool,
}

/// The fields of the model detail page, top to bottom.
pub open spec fn detail_field(i: int) -> ProviderAddField {
    if i == 0 {
        ProviderAddField::OpenCodeModelName
    } else if i == 1 {
        ProviderAddField::OpenCodeModelId
    } else if i == 2 {
        ProviderAddField::OpenCodeModelContextLimit
    } else {
        ProviderAddField::OpenCodeModelOutputLimit
    }
}

/// The field of the model detail page at position `i` (the last one past the end).
pub fn opencode_model_detail_field(i: usize) -> (r: ProviderAddField)
    ensures
        r == detail_field(i as int),
{
    if i == 0 {
        ProviderAddField::OpenCodeModelName
    } else if i == 1 {
        ProviderAddField::OpenCodeModelId
    } else if i == 2 {
        ProviderAddField::OpenCodeModelContextLimit
    } else {
        ProviderAddField::OpenCodeModelOutputLimit
    }
}

/// What the model list page asks of the application after a key press.
#[derive(Clone, Copy, PartialEq, Eq, Debug)]
pub enum ModelListStep {
    /// Save the form.
    Save,
    /// Nothing more to do.
    Stay,
    /// Store the current model's fields, then open model `model_idx`.
    Open { model_idx: usize },
    /// Add a model and open it.
    Add,
    /// Ask whether to delete model `model_idx`.
    ConfirmDelete { model_idx: usize },
    /// Leave the page.
    Back,
}

/// The model list page's reaction to a key. `provider_idx` is the selected row and is
/// moved by Up and Down; `model_count` is the number of models when a provider form is
/// open. Enter opens the selected model (the last one when the selection is past the
/// end); Delete or `d` asks to delete it; `n` adds a model; Esc or `q` leaves.
pub fn on_opencode_model_list_key(key: KeyPress, provider_idx: &mut usize, model_count: Option<usize>) -> (r: ModelListStep)
    ensures
        key.save_shortcut ==> r == ModelListStep::Save && *final(provider_idx) == *old(provider_idx),
        !key.save_shortcut ==> ({
            let idx = *old(provider_idx);
            let n = match model_count { Some(c) => c, None => 0usize };
            match key.code {
                KeyCode::Up => r == ModelListStep::Stay && *final(provider_idx) == (if idx > 0 { idx - 1 } else { 0 }),
                KeyCode::Down => r == ModelListStep::Stay && *final(provider_idx) as int == (if n > 0 {
                    if idx + 1 < n { idx + 1 } else { n - 1 }
                } else {
                    idx as int
                }),
                KeyCode::Enter => *final(provider_idx) == idx && r == (if model_count is Some && n > 0 {
                    ModelListStep::Open { model_idx: if idx < n - 1 { idx } else { (n - 1) as usize } }
                } else {
                    ModelListStep::Stay
                }),
                KeyCode::Char('n') => *final(provider_idx) == idx && r == (if model_count is Some { ModelListStep::Add } else { ModelListStep::Stay }),
                KeyCode::Delete | KeyCode::Char('d') => *final(provider_idx) == idx && r == (if model_count is Some && n > 0 {
                    ModelListStep::ConfirmDelete { model_idx: if idx < n - 1 { idx } else { (n - 1) as usize } }
                } else {
                    ModelListStep::Stay
                }),
                KeyCode::Esc | KeyCode::Char('q') => *final(provider_idx) == idx && r == ModelListStep::Back,
                _ => *final(provider_idx) == idx && r == ModelListStep::Stay,
            }
        }),
{
    if key.save_shortcut {
        return ModelListStep::Save;
    }
    let n: usize = match model_count {
        Some(c) => c,
        None => 0,
    };
    match key.code {
        KeyCode::Up => {
            if *provider_idx > 0 {
                *provider_idx = *provider_idx - 1;
            }
            ModelListStep::Stay
        },
        KeyCode::Down => {
            if n > 0 {
                let next: usize = if *provider_idx < n - 1 { *provider_idx + 1 } else { n - 1 };
                *provider_idx = next;
            }
            ModelListStep::Stay
        },
        KeyCode::Enter => {
            if model_count.is_some() && n > 0 {
                let m: usize = if *provider_idx < n - 1 { *provider_idx } else { n - 1 };
                ModelListStep::Open { model_idx: m }
            } else {
                ModelListStep::Stay
            }
        },
        KeyCode::Char('n') => {
            if model_count.is_some() {
                ModelListStep::Add
            } else {
                ModelListStep::Stay
            }
        },
        KeyCode::Delete | KeyCode::Char('d') => {
            if model_count.is_some() && n > 0 {
                let m: usize = if *provider_idx < n - 1 { *provider_idx } else { n - 1 };
                ModelListStep::ConfirmDelete { model_idx: m }
            } else {
                ModelListStep::Stay
            }
        },
        KeyCode::Esc | KeyCode::Char('q') => ModelListStep::Back,
        _ => ModelListStep::Stay,
    }
}

/// What the model detail page asks of the application before it handles a key.
#[derive(Clone, Copy, PartialEq, Eq, Debug)]
pub enum DetailPrepare {
    /// Save the form.
    Save,
    /// No model is left: editing stops and the page is left.
    Back,
    /// Store the shown model's fields, then show model `model_idx` and handle the key.
    Switch { model_idx: usize },
    /// The requested model is shown: handle the key.
    Ready,
}

/// The first step of the model detail page's reaction to a key, for the open provider
/// form: the page shows model `model_idx` (the last one when it is past the end),
/// switching to it when another is shown; with no model left it stops editing and leaves.
pub fn on_opencode_model_detail_key(key: KeyPress, form: &mut ProviderAddFormState, model_idx: usize) -> (r: DetailPrepare)
    ensures
        key.save_shortcut ==> r == DetailPrepare::Save && *final(form) == *old(form),
        !key.save_shortcut ==> ({
            let f = *old(form);
            let g = *final(form);
            let n = f.opencode_models@.len();
            let target = if model_idx < n - 1 { model_idx as int } else { n - 1 };
            &&& n == 0 ==> r == DetailPrepare::Back && g == ProviderAddFormState { editing: false, ..f }
            &&& n > 0 ==> r == (if f.opencode_model_idx != target {
                DetailPrepare::Switch { model_idx: target as usize }
            } else {
                DetailPrepare::Ready
            })
            &&& n > 0 ==> g == f
        }),
{
    if key.save_shortcut {
        return DetailPrepare::Save;
    }
    let n = form.opencode_models.len();
    if n == 0 {
        form.editing = false;
        return DetailPrepare::Back;
    }
    let target: usize = if model_idx < n - 1 { model_idx } else { n - 1 };
    if form.opencode_model_idx != target {
        DetailPrepare::Switch { model_idx: target }
    } else {
        DetailPrepare::Ready
    }
}

/// The Unicode control characters (`char::is_control`).
pub open spec fn is_control_char(c: char) -> bool {
    let u = c as u32;
    u <= 0x1F || (0x7F <= u && u <= 0x9F)
}

/// How the cursor of a field moves.
#[derive(Clone, Copy, PartialEq, Eq, Debug)]
pub enum CursorMove {
    Left,
    Right,
    Home,
    End,
}

/// What the model detail page asks of the application for a key while a field is edited.
#[derive(Clone, Copy, PartialEq, Eq, Debug)]
pub enum EditStep {
    /// Store the model's fields, and stop editing when that succeeds.
    Commit,
    /// Move the cursor of `field`.
    Move { field: ProviderAddField, to: CursorMove },
    /// Delete the character before the cursor of `field`, then finish the change.
    Backspace { field: ProviderAddField },
    /// Delete the character under the cursor of `field`, then finish the change.
    DeleteChar { field: ProviderAddField },
    /// Insert `c` at the cursor of `field`, then finish the change.
    Insert { field: ProviderAddField, c: char },
    /// Nothing to do.
    Stay,
}

/// The editing step a key asks for while the field at `field_idx` is edited.
pub open spec fn edit_step(key: KeyPress, field_idx: usize) -> EditStep {
    let field = detail_field(field_idx as int);
    match key.code {
        KeyCode::Esc | KeyCode::Enter => EditStep::Commit,
        KeyCode::Left => EditStep::Move { field, to: CursorMove::Left },
        KeyCode::Right => EditStep::Move { field, to: CursorMove::Right },
        KeyCode::Home => EditStep::Move { field, to: CursorMove::Home },
        KeyCode::End => EditStep::Move { field, to: CursorMove::End },
        KeyCode::Backspace => EditStep::Backspace { field },
        KeyCode::Delete => EditStep::DeleteChar { field },
        KeyCode::Char(c) => if is_control_char(c) || key.control { EditStep::Stay } else { EditStep::Insert { field, c } },
        _ => EditStep::Stay,
    }
}

/// The model detail page's reaction to a key while the field at `field_idx` is edited:
/// Esc or Enter commits; the arrows, Home and End move the cursor; Backspace and Delete
/// delete; a character that is not a control character, typed without Control, is
/// inserted.
pub fn handle_opencode_model_detail_editing_key(key: KeyPress, field_idx: usize) -> (r: EditStep)
    ensures
        r == edit_step(key, field_idx),
{
    let field = opencode_model_detail_field(field_idx);
    match key.code {
        KeyCode::Esc | KeyCode::Enter => EditStep::Commit,
        KeyCode::Left => EditStep::Move { field, to: CursorMove::Left },
        KeyCode::Right => EditStep::Move { field, to: CursorMove::Right },
        KeyCode::Home => EditStep::Move { field, to: CursorMove::Home },
        KeyCode::End => EditStep::Move { field, to: CursorMove::End },
        KeyCode::Backspace => EditStep::Backspace { field },
        KeyCode::Delete => EditStep::DeleteChar { field },
        KeyCode::Char(c) => {
            let u = c as u32;
            if u <= 0x1F || (0x7F <= u && u <= 0x9F) || key.control {
                EditStep::Stay
            } else {
                EditStep::Insert { field, c }
            }
        },
        _ => EditStep::Stay,
    }
}

/// What follows an edit of a field on the model detail page.
#[derive(Clone, Copy, PartialEq, Eq, Debug)]
pub enum FinishStep {
    /// The edit changed nothing.
    Nothing,
    /// Store the shown model's fields, then hand the outcome to
    /// `after_opencode_model_input_sync`.
    Sync,
}

/// After an edit of a field: nothing when it changed nothing, else the shown model's
/// fields are stored.
pub fn finish_opencode_model_detail_input_change(changed: bool) -> (r: FinishStep)
    ensures
        r == if changed { FinishStep::Sync } else { FinishStep::Nothing },
{
    if changed { FinishStep::Sync } else { FinishStep::Nothing }
}

/// The toast `t` shows `msg` as a `kind` message for the usual twelve ticks.
pub open spec fn toast_of(t: Toast, msg: Seq<char>, kind: ToastKind) -> bool {
    t.message@ == msg && t.kind == kind && t.remaining_ticks == 12
}

/// What follows storing the shown model's fields after an edit.
pub enum SyncFollowUp {
    /// Storing failed: show this error toast and store nothing more.
    Failed(Toast),
    /// Store the fields once more, ignoring the outcome (the id changed and the name
    /// field is blank).
    SyncAgain,
    /// Nothing more to do.
    Done,
}

/// The rest of an edit of `field` once the fields were stored with outcome `synced`:
/// a failure becomes an error toast; otherwise the fields are stored a second time
/// when the id was edited and the name field (as the store left it) is blank.
pub fn after_opencode_model_input_sync(field: ProviderAddField, synced: Result<(), String>, name_is_blank: bool) -> (r: SyncFollowUp)
    ensures
        synced is Err ==> (r matches SyncFollowUp::Failed(t) && toast_of(t, synced->Err_0@, ToastKind::Error)),
        synced is Ok && field == ProviderAddField::OpenCodeModelId && name_is_blank ==> r is SyncAgain,
        synced is Ok && !(field == ProviderAddField::OpenCodeModelId && name_is_blank) ==> r is Done,
{
    match synced {
        Err(e) => SyncFollowUp::Failed(Toast::new(e, ToastKind::Error)),
        Ok(()) => match field {
            ProviderAddField::OpenCodeModelId => if name_is_blank { SyncFollowUp::SyncAgain } else { SyncFollowUp::Done },
            _ => SyncFollowUp::Done,
        },
    }
}

/// Ends an edit once the shown model's fields were stored with outcome `synced` (Esc or
/// Enter while editing): on success editing stops; on failure the error is returned as
/// a toast and editing goes on. No other field changes.
pub fn commit_opencode_model_edit(form: &mut ProviderAddFormState, synced: Result<(), String>) -> (r: Option<Toast>)
    ensures
        synced is Ok ==> r is None && *final(form) == (ProviderAddFormState { editing: false, ..*old(form) }),
        synced is Err ==> r is Some && toast_of(r.unwrap(), synced->Err_0@, ToastKind::Error) && *final(form) == *old(form),
{
    match synced {
        Ok(()) => {
            form.editing = false;
            None
        },
        Err(e) => Some(Toast::new(e, ToastKind::Error)),
    }
}

/// Shows model `model_idx` (the last one when it is past the end) on the detail page once
/// the previously shown model's fields were stored with outcome `synced`; the
/// application then loads the fields of the model shown. A failure is returned as an
/// error toast and nothing changes.
pub fn switch_opencode_model(form: &mut ProviderAddFormState, model_idx: usize, synced: Result<(), String>) -> (r: Option<Toast>)
    requires
        old(form).opencode_models@.len() > 0,
    ensures
        ({
            let n = old(form).opencode_models@.len();
            let target = if model_idx < n - 1 { model_idx as int } else { n - 1 };
            &&& synced is Ok ==> r is None && *final(form) == (ProviderAddFormState {
                opencode_model_idx: target as usize,
                ..*old(form)
            })
            &&& synced is Err ==> r is Some && toast_of(r.unwrap(), synced->Err_0@, ToastKind::Error) && *final(form)
                == *old(form)
        }),
{
    match synced {
        Ok(()) => {
            let n = form.opencode_models.len();
            let target: usize = if model_idx < n - 1 { model_idx } else { n - 1 };
            form.opencode_model_idx = target;
            None
        },
        Err(e) => Some(Toast::new(e, ToastKind::Error)),
    }
}

/// Opens the model selected in the list (the last one when the selection is past the
/// end) once the shown model's fields were stored with outcome `synced`: the model is
/// shown from its first field, not edited, and its position is returned; the
/// application then loads its fields and opens its detail page. A failure is returned as
/// an error toast and nothing changes.
pub fn open_opencode_model(form: &mut ProviderAddFormState, provider_idx: usize, synced: Result<(), String>) -> (r: Result<usize, Toast>)
    requires
        old(form).opencode_models@.len() > 0,
    ensures
        ({
            let n = old(form).opencode_models@.len();
            let j = if provider_idx < n - 1 { provider_idx as int } else { n - 1 };
            &&& synced is Ok ==> r == Ok::<usize, Toast>(j as usize) && *final(form) == (ProviderAddFormState {
                opencode_model_idx: j as usize,
                field_idx: 0,
                editing: false,
                ..*old(form)
            })
            &&& synced is Err ==> r is Err && toast_of(r->Err_0, synced->Err_0@, ToastKind::Error) && *final(form)
                == *old(form)
        }),
{
    match synced {
        Ok(()) => {
            let n = form.opencode_models.len();
            let j: usize = if provider_idx < n - 1 { provider_idx } else { n - 1 };
            form.opencode_model_idx = j;
            form.field_idx = 0;
            form.editing = false;
            Ok(j)
        },
        Err(e) => Err(Toast::new(e, ToastKind::Error)),
    }
}

/// Follows the adding of a model (`n` on the detail page) with outcome `added`: the new
/// model is edited from its first field and its position is returned for its detail
/// page. A refusal is returned as a warning toast and nothing changes.
pub fn opencode_model_added(form: &mut ProviderAddFormState, added: Result<(), String>) -> (r: Result<usize, Toast>)
    ensures
        added is Ok ==> r == Ok::<usize, Toast>(old(form).opencode_model_idx) && *final(form) == (ProviderAddFormState {
            field_idx: 0,
            editing: true,
            ..*old(form)
        }),
        added is Err ==> r is Err && toast_of(r->Err_0, added->Err_0@, ToastKind::Warning) && *final(form) == *old(form),
{
    match added {
        Ok(()) => {
            form.field_idx = 0;
            form.editing = true;
            Ok(form.opencode_model_idx)
        },
        Err(e) => Err(Toast::new(e, ToastKind::Warning)),
    }
}

/// Follows the adding of a model from the list (`n` on the list page) with outcome
/// `added`: as on the detail page, and the list selection follows the new model.
pub fn opencode_model_added_from_list(form: &mut ProviderAddFormState, provider_idx: &mut usize, added: Result<(), String>) -> (r: Result<usize, Toast>)
    ensures
        added is Ok ==> r == Ok::<usize, Toast>(old(form).opencode_model_idx) && *final(form) == (ProviderAddFormState {
            field_idx: 0,
            editing: true,
            ..*old(form)
        }) && *final(provider_idx) == old(form).opencode_model_idx,
        added is Err ==> r is Err && toast_of(r->Err_0, added->Err_0@, ToastKind::Warning) && *final(form) == *old(form)
            && *final(provider_idx) == *old(provider_idx),
{
    let r = opencode_model_added(form, added);
    match r {
        Ok(i) => {
            *provider_idx = i;
        },
        Err(_) => {},
    }
    r
}

/// The message of a toast the detail page shows.
#[derive(Clone, Copy, PartialEq, Eq, Debug)]
pub enum DetailToast {
    /// Fetching models needs a base URL.
    BaseUrlRequired,
}

/// What the model detail page asks of the application for a key while no field is edited.
pub enum NavStep {
    /// Nothing more to do.
    Stay,
    /// Show a warning.
    Warn(DetailToast),
    /// Fetch the provider's models for the id field.
    Fetch { base_url: String, api_key: Option<String> },
    /// Add a model and open it for editing.
    Add,
    /// Ask whether to delete model `model_id`.
    ConfirmDelete { model_id: String },
    /// Leave the page.
    Back,
}

/// The form `g`, selection `idx_post` and step `r` are what a key does on the model
/// detail page while no field is edited, from the form `f` and selection `idx_pre`.
pub open spec fn nav_done(key: KeyPress, f: ProviderAddFormState, g: ProviderAddFormState, idx_pre: usize, idx_post: usize, r: NavStep) -> bool {
    let selected = detail_field(f.field_idx as int);
    &&& g.same_content(&f)
    &&& g.opencode_model_idx == f.opencode_model_idx
    &&& match key.code {
        KeyCode::Up => r is Stay && g.field_idx == (if f.field_idx > 0 { f.field_idx - 1 } else { 0 }) && g.editing == f.editing
            && idx_post == idx_pre,
        KeyCode::Down => r is Stay && g.field_idx == (if f.field_idx < 3 { f.field_idx + 1 } else { 3 }) && g.editing == f.editing
            && idx_post == idx_pre,
        KeyCode::Enter => g.field_idx == f.field_idx && idx_post == idx_pre && if selected == ProviderAddField::OpenCodeModelId {
            &&& g.editing == f.editing
            &&& is_blank(f.opencode_base_url.value@) ==> r == NavStep::Warn(DetailToast::BaseUrlRequired)
            &&& !is_blank(f.opencode_base_url.value@) ==> r is Fetch && r->base_url@ == trim_spec(f.opencode_base_url.value@)
                && (if is_blank(f.opencode_api_key.value@) { r->api_key is None } else {
                    r->api_key is Some && r->api_key.unwrap()@ == f.opencode_api_key.value@ })
        } else {
            r is Stay && g.editing
        },
        KeyCode::Char('n') => r is Add && g.field_idx == f.field_idx && g.editing == f.editing && idx_post == idx_pre,
        KeyCode::Delete | KeyCode::Char('d') => g.field_idx == f.field_idx && g.editing == f.editing && idx_post == idx_pre
            && if f.opencode_model_idx < f.opencode_models@.len() && f.opencode_models@[f.opencode_model_idx as int].model_id@.len() > 0 {
                r is ConfirmDelete && r->model_id@ == f.opencode_models@[f.opencode_model_idx as int].model_id@
            } else {
                r is Stay
            },
        KeyCode::Esc | KeyCode::Char('q') => r is Back && idx_post == f.opencode_model_idx && !g.editing && g.field_idx == f.field_idx,
        _ => r is Stay && g.field_idx == f.field_idx && g.editing == f.editing && idx_post == idx_pre,
    }
}

/// The model detail page's reaction to a key while no field is edited. Up and Down move
/// among the four fields; Enter on the id field fetches models (a blank base URL is
/// refused with a warning), Enter elsewhere starts editing; `n` adds a model; Delete or
/// `d` asks to delete the shown model when it has an id; Esc or `q` selects the shown
/// model in the list, stops editing and leaves.
pub fn handle_opencode_model_detail_navigation_key(key: KeyPress, form: &mut ProviderAddFormState, provider_idx: &mut usize) -> (r: NavStep)
    requires
        old(form).field_idx < 4,
    ensures
        nav_done(key, *old(form), *final(form), *old(provider_idx), *final(provider_idx), r),
{
    let selected = opencode_model_detail_field(form.field_idx);
    match key.code {
        KeyCode::Up => {
            if form.field_idx > 0 {
                form.field_idx = form.field_idx - 1;
            }
            NavStep::Stay
        },
        KeyCode::Down => {
            if form.field_idx < 3 {
                form.field_idx = form.field_idx + 1;
            }
            NavStep::Stay
        },
        KeyCode::Enter => {
            match selected {
                ProviderAddField::OpenCodeModelId => {
                    let base_url = crate::text::trim_owned(form.opencode_base_url.value.as_str());
                    proof { crate::text::lemma_trim_empty_iff_blank(form.opencode_base_url.value@); }
                    if base_url.as_str().is_empty() {
                        return NavStep::Warn(DetailToast::BaseUrlRequired);
                    }
                    let api_key = if !form.opencode_api_key.is_blank() {
                        Some(form.opencode_api_key.value.clone())
                    } else {
                        None
                    };
                    NavStep::Fetch { base_url, api_key }
                },
                _ => {
                    form.editing = true;
                    NavStep::Stay
                },
            }
        },
        KeyCode::Char('n') => NavStep::Add,
        KeyCode::Delete | KeyCode::Char('d') => {
            if form.opencode_model_idx < form.opencode_models.len() {
                let id = &form.opencode_models[form.opencode_model_idx].model_id;
                if !id.as_str().is_empty() {
                    return NavStep::ConfirmDelete { model_id: id.clone() };
                }
            }
            NavStep::Stay
        },
        KeyCode::Esc | KeyCode::Char('q') => {
            *provider_idx = form.opencode_model_idx;
            form.editing = false;
            NavStep::Back
        },
        _ => NavStep::Stay,
    }
}

/// What the model detail page asks for once the shown model is the requested one.
pub enum DetailStep {
    /// A field is edited: the editing step.
    Edit(EditStep),
    /// No field is edited: the navigation step.
    Nav(NavStep),
}

/// The second step of the model detail page's reaction to a key: the selected field is
/// kept among the four fields, then the key is handled as an edit when a field is being
/// edited and as navigation otherwise.
pub fn dispatch_opencode_model_detail_key(key: KeyPress, form: &mut ProviderAddFormState, provider_idx: &mut usize) -> (r: DetailStep)
    ensures
        ({
            let clamped = if old(form).field_idx < 3 { old(form).field_idx } else { 3usize };
            let pre = ProviderAddFormState { field_idx: clamped, ..*old(form) };
            &&& old(form).editing ==> r == DetailStep::Edit(edit_step(key, clamped)) && *final(form) == pre
                && *final(provider_idx) == *old(provider_idx)
            &&& !old(form).editing ==> r is Nav && nav_done(key, pre, *final(form), *old(provider_idx), *final(provider_idx), r->Nav_0)
        }),
{
    if form.field_idx > 3 {
        form.field_idx = 3;
    }
    if form.editing {
        DetailStep::Edit(handle_opencode_model_detail_editing_key(key, form.field_idx))
    } else {
        DetailStep::Nav(handle_opencode_model_detail_navigation_key(key, form, provider_idx))
    }
}

} // verus!
