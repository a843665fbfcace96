use vstd::prelude::*;
use vstd::string::StringExecFns;
use crate::form::{ProviderAddFormState, TextInput};
use crate::provider::OpenCodeModelDraft;
use crate::text::{is_blank, trim_spec, unicode_upper};
use crate::tui_types::ProviderAddField;
use crate::model_keys::detail_field;

verus! {

/// The text of a model in the model list: its upper-cased id when its name is blank,
/// else its name followed by its id in parentheses.
pub open spec fn list_item_spec(m: OpenCodeModelDraft) -> Seq<char> {
    if is_blank(m.model_name@) {
        unicode_upper(m.model_id@)
    } else {
        m.model_name@ + "  ("@ + m.model_id@ + ")"@
    }
}

/// The text of a model in the model list.
pub fn opencode_model_list_item(m: &OpenCodeModelDraft) -> (r: String)
    ensures
        r@ == list_item_spec(*m),
{
    if crate::text::is_blank_str(m.model_name.as_str()) {
        crate::text::to_upper(m.model_id.as_str())
    } else {
        let mut t = m.model_name.clone();
        t.append("  (");
        t.append(m.model_id.as_str());
        t.append(")");
        t
    }
}

/// The row selected in a list of `len` rows when the selection is `idx`: the last row
/// when `idx` is past the end, and the first when the list is empty.
pub fn list_selection(idx: usize, len: usize) -> (r: usize)
    ensures
        len == 0 ==> r == 0,
        len > 0 ==> r == if idx < len - 1 { idx as int } else { len - 1 },
{
    let last: usize = if len > 0 { len - 1 } else { 0 };
    if idx < last { idx } else { last }
}

/// The title of the model detail page.
pub enum DetailTitle {
    /// A model without an id yet.
    New,
    /// The model with this id.
    Edit(String),
}

/// The title of the model detail page for model `model_idx`: its id when the model
/// exists and its id is not blank, else the title of a new model.
pub fn opencode_model_detail_title(form: &ProviderAddFormState, model_idx: usize) -> (r: DetailTitle)
    ensures
        model_idx < form.opencode_models@.len() && !is_blank(form.opencode_models@[model_idx as int].model_id@)
            ==> r is Edit && r->Edit_0@ == form.opencode_models@[model_idx as int].model_id@,
        !(model_idx < form.opencode_models@.len() && !is_blank(form.opencode_models@[model_idx as int].model_id@))
            ==> r is New,
{
    if model_idx < form.opencode_models.len() {
        let id = &form.opencode_models[model_idx].model_id;
        if !crate::text::is_blank_str(id.as_str()) {
            return DetailTitle::Edit(id.clone());
        }
    }
    DetailTitle::New
}

/// What Enter does on the model detail page, as the key bar shows it.
#[derive(Clone, Copy, PartialEq, Eq, Debug)]
pub enum EnterLabel {
    /// Fetch the provider's models.
    FetchModel,
    /// Start editing the field.
    EditMode,
    /// Leave editing.
    ExitEdit,
}

/// The Enter label of the model detail page: leaving editing while a field is edited;
/// otherwise fetching models on the id field and editing elsewhere.
pub fn opencode_model_detail_enter_label(field_idx: usize, editing: bool) -> (r: EnterLabel)
    ensures
        editing ==> r == EnterLabel::ExitEdit,
        !editing && detail_field(if field_idx < 3 { field_idx as int } else { 3 }) == ProviderAddField::OpenCodeModelId
            ==> r == EnterLabel::FetchModel,
        !editing && detail_field(if field_idx < 3 { field_idx as int } else { 3 }) != ProviderAddField::OpenCodeModelId
            ==> r == EnterLabel::EditMode,
{
    if editing {
        return EnterLabel::ExitEdit;
    }
    let selected = list_selection(field_idx, 4);
    match crate::model_keys::opencode_model_detail_field(selected) {
        ProviderAddField::OpenCodeModelId => EnterLabel::FetchModel,
        _ => EnterLabel::EditMode,
    }
}

/// The value a row of the model detail page shows for a field: its trimmed text, or
/// nothing (shown as "N/A") when the field is blank.
pub fn opencode_model_detail_value(input: &TextInput) -> (r: Option<String>)
    ensures
        r is None <==> is_blank(input.value@),
        r is Some ==> r.unwrap()@ == trim_spec(input.value@),
{
    let t = crate::text::trim_owned(input.value.as_str());
    proof { crate::text::lemma_trim_empty_iff_blank(input.value@); }
    if t.unicode_len() == 0 {
        None
    } else {
        Some(t)
    }
}

} // verus!
