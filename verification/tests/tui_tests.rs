use opencode_draft::form::ProviderAddFormState;
use opencode_draft::form_load::AppType;
use opencode_draft::model_keys::{
    dispatch_opencode_model_detail_key, finish_opencode_model_detail_input_change,
    handle_opencode_model_detail_editing_key, handle_opencode_model_detail_navigation_key,
    on_opencode_model_detail_key, on_opencode_model_list_key, CursorMove, DetailPrepare, DetailStep, DetailToast,
    EditStep, FinishStep, KeyCode, KeyPress, ModelListStep, NavStep, SyncFollowUp, after_opencode_model_input_sync,
    commit_opencode_model_edit, open_opencode_model, opencode_model_added, opencode_model_added_from_list,
    switch_opencode_model,
};
use opencode_draft::model_view::{
    list_selection, opencode_model_detail_enter_label, opencode_model_detail_title, opencode_model_detail_value,
    opencode_model_list_item,
    DetailTitle, EnterLabel,
};
use opencode_draft::provider::OpenCodeModelDraft;
use opencode_draft::tui_types::{
    FilterState, KeyLabel, McpEnvEditorField, McpEnvEntryEditorState, Overlay, ProviderAddField, TextViewAction,
    Toast, ToastKind,
};
use opencode_draft::form::TextInput;

fn key(code: KeyCode) -> KeyPress {
    KeyPress { code, control: false, save_shortcut: false }
}

fn form_with(ids: &[&str]) -> ProviderAddFormState {
    let mut f = ProviderAddFormState::new();
    for id in ids {
        f.opencode_models.push(OpenCodeModelDraft::new(id.to_string()));
    }
    f
}

#[test]
fn filter_query_is_trimmed_and_lower_cased() {
    let mut f = FilterState::new();
    assert!(!f.active);
    assert_eq!(f.query_lower(), None);
    f.buffer = "   ".to_string();
    assert_eq!(f.query_lower(), None);
    f.buffer = "  HeLLo Wörld ".to_string();
    assert_eq!(f.query_lower(), Some("hello wörld".to_string()));
}

#[test]
fn toast_lasts_twelve_ticks() {
    let t = Toast::new("hi".to_string(), ToastKind::Warning);
    assert_eq!(t.message, "hi");
    assert_eq!(t.kind, ToastKind::Warning);
    assert_eq!(t.remaining_ticks, 12);
}

#[test]
fn editor_field_flags_and_overlay_activity() {
    let mut e = McpEnvEntryEditorState {
        row: None,
        return_selected: 0,
        field: McpEnvEditorField::Key,
        key: TextInput::new(),
        value: TextInput::new(),
    };
    assert!(e.key_active() && !e.value_active());
    e.field = McpEnvEditorField::Value;
    assert!(!e.key_active() && e.value_active());
    assert!(!Overlay::Closed.is_active());
    assert!(Overlay::Help.is_active());
    assert!(Overlay::McpEnvPicker { selected: 0 }.is_active());
}

#[test]
fn text_view_action_labels() {
    let on = TextViewAction::ProxyToggleTakeover { app_type: AppType::Claude, enabled: true };
    let off = TextViewAction::ProxyToggleTakeover { app_type: AppType::Codex, enabled: false };
    assert_eq!(on.key_label(), KeyLabel::Takeover);
    assert_eq!(off.key_label(), KeyLabel::Restore);
}

#[test]
fn model_list_keys_move_open_add_delete_and_leave() {
    let mut idx = 0usize;
    assert_eq!(on_opencode_model_list_key(key(KeyCode::Up), &mut idx, Some(3)), ModelListStep::Stay);
    assert_eq!(idx, 0);
    on_opencode_model_list_key(key(KeyCode::Down), &mut idx, Some(3));
    on_opencode_model_list_key(key(KeyCode::Down), &mut idx, Some(3));
    on_opencode_model_list_key(key(KeyCode::Down), &mut idx, Some(3));
    assert_eq!(idx, 2);
    idx = 9;
    assert_eq!(on_opencode_model_list_key(key(KeyCode::Enter), &mut idx, Some(3)), ModelListStep::Open { model_idx: 2 });
    assert_eq!(on_opencode_model_list_key(key(KeyCode::Enter), &mut idx, Some(0)), ModelListStep::Stay);
    assert_eq!(on_opencode_model_list_key(key(KeyCode::Char('d')), &mut idx, Some(3)), ModelListStep::ConfirmDelete { model_idx: 2 });
    assert_eq!(on_opencode_model_list_key(key(KeyCode::Delete), &mut idx, None), ModelListStep::Stay);
    assert_eq!(on_opencode_model_list_key(key(KeyCode::Char('n')), &mut idx, Some(0)), ModelListStep::Add);
    assert_eq!(on_opencode_model_list_key(key(KeyCode::Char('q')), &mut idx, Some(3)), ModelListStep::Back);
    let save = KeyPress { code: KeyCode::Char('s'), control: true, save_shortcut: true };
    assert_eq!(on_opencode_model_list_key(save, &mut idx, Some(3)), ModelListStep::Save);
    assert_eq!(idx, 9);
}

#[test]
fn model_detail_prepares_the_requested_model() {
    let mut f = form_with(&[]);
    f.editing = true;
    assert_eq!(on_opencode_model_detail_key(key(KeyCode::Up), &mut f, 0), DetailPrepare::Back);
    assert!(!f.editing);
    let mut f = form_with(&["a", "b"]);
    assert_eq!(on_opencode_model_detail_key(key(KeyCode::Up), &mut f, 0), DetailPrepare::Ready);
    assert_eq!(on_opencode_model_detail_key(key(KeyCode::Up), &mut f, 7), DetailPrepare::Switch { model_idx: 1 });
}

#[test]
fn editing_keys() {
    assert_eq!(handle_opencode_model_detail_editing_key(key(KeyCode::Enter), 0), EditStep::Commit);
    assert_eq!(
        handle_opencode_model_detail_editing_key(key(KeyCode::Left), 1),
        EditStep::Move { field: ProviderAddField::OpenCodeModelId, to: CursorMove::Left }
    );
    assert_eq!(
        handle_opencode_model_detail_editing_key(key(KeyCode::Char('x')), 2),
        EditStep::Insert { field: ProviderAddField::OpenCodeModelContextLimit, c: 'x' }
    );
    assert_eq!(handle_opencode_model_detail_editing_key(key(KeyCode::Char('\u{7f}')), 2), EditStep::Stay);
    let ctrl = KeyPress { code: KeyCode::Char('x'), control: true, save_shortcut: false };
    assert_eq!(handle_opencode_model_detail_editing_key(ctrl, 2), EditStep::Stay);
    assert_eq!(
        handle_opencode_model_detail_editing_key(key(KeyCode::Backspace), 3),
        EditStep::Backspace { field: ProviderAddField::OpenCodeModelOutputLimit }
    );
    assert_eq!(finish_opencode_model_detail_input_change(false), FinishStep::Nothing);
    assert_eq!(finish_opencode_model_detail_input_change(true), FinishStep::Sync);
    assert!(matches!(
        after_opencode_model_input_sync(ProviderAddField::OpenCodeModelId, Ok(()), true),
        SyncFollowUp::SyncAgain
    ));
    assert!(matches!(
        after_opencode_model_input_sync(ProviderAddField::OpenCodeModelName, Ok(()), true),
        SyncFollowUp::Done
    ));
    match after_opencode_model_input_sync(ProviderAddField::OpenCodeModelId, Err("bad limit".to_string()), true) {
        SyncFollowUp::Failed(t) => {
            assert_eq!(t.message, "bad limit");
            assert_eq!(t.kind, ToastKind::Error);
        }
        _ => panic!("expected an error toast"),
    }
}

#[test]
fn navigation_keys() {
    let mut f = form_with(&["a"]);
    let mut idx = 5usize;
    handle_opencode_model_detail_navigation_key(key(KeyCode::Down), &mut f, &mut idx);
    assert_eq!(f.field_idx, 1);
    match handle_opencode_model_detail_navigation_key(key(KeyCode::Enter), &mut f, &mut idx) {
        NavStep::Warn(DetailToast::BaseUrlRequired) => {}
        _ => panic!("expected a warning"),
    }
    f.opencode_base_url.set("  https://x  ");
    f.opencode_api_key.set(" k ");
    match handle_opencode_model_detail_navigation_key(key(KeyCode::Enter), &mut f, &mut idx) {
        NavStep::Fetch { base_url, api_key } => {
            assert_eq!(base_url, "https://x");
            assert_eq!(api_key, Some(" k ".to_string()));
        }
        _ => panic!("expected a fetch"),
    }
    handle_opencode_model_detail_navigation_key(key(KeyCode::Up), &mut f, &mut idx);
    handle_opencode_model_detail_navigation_key(key(KeyCode::Enter), &mut f, &mut idx);
    assert!(f.editing);
    f.editing = false;
    match handle_opencode_model_detail_navigation_key(key(KeyCode::Char('d')), &mut f, &mut idx) {
        NavStep::ConfirmDelete { model_id } => assert_eq!(model_id, "a"),
        _ => panic!("expected a confirmation"),
    }
    match handle_opencode_model_detail_navigation_key(key(KeyCode::Esc), &mut f, &mut idx) {
        NavStep::Back => {}
        _ => panic!("expected to leave"),
    }
    assert_eq!(idx, 0);
}

#[test]
fn dispatch_clamps_field_and_picks_mode() {
    let mut f = form_with(&["a"]);
    let mut idx = 0usize;
    f.field_idx = 9;
    f.editing = true;
    match dispatch_opencode_model_detail_key(key(KeyCode::Home), &mut f, &mut idx) {
        DetailStep::Edit(EditStep::Move { field, to }) => {
            assert_eq!(field, ProviderAddField::OpenCodeModelOutputLimit);
            assert_eq!(to, CursorMove::Home);
        }
        _ => panic!("expected a cursor move"),
    }
    assert_eq!(f.field_idx, 3);
    f.editing = false;
    match dispatch_opencode_model_detail_key(key(KeyCode::Up), &mut f, &mut idx) {
        DetailStep::Nav(NavStep::Stay) => {}
        _ => panic!("expected navigation"),
    }
    assert_eq!(f.field_idx, 2);
}

#[test]
fn model_list_and_detail_texts() {
    let mut m = OpenCodeModelDraft::new("gpt-4o".to_string());
    assert_eq!(opencode_model_list_item(&m), "GPT-4O");
    m.model_name = "GPT".to_string();
    assert_eq!(opencode_model_list_item(&m), "GPT  (gpt-4o)");
    assert_eq!(list_selection(5, 3), 2);
    assert_eq!(list_selection(1, 3), 1);
    assert_eq!(list_selection(4, 0), 0);
    let f = form_with(&["a", " "]);
    match opencode_model_detail_title(&f, 0) {
        DetailTitle::Edit(id) => assert_eq!(id, "a"),
        DetailTitle::New => panic!("expected an edit title"),
    }
    assert!(matches!(opencode_model_detail_title(&f, 1), DetailTitle::New));
    assert!(matches!(opencode_model_detail_title(&f, 2), DetailTitle::New));
    assert_eq!(opencode_model_detail_enter_label(1, false), EnterLabel::FetchModel);
    assert_eq!(opencode_model_detail_enter_label(0, false), EnterLabel::EditMode);
    assert_eq!(opencode_model_detail_enter_label(1, true), EnterLabel::ExitEdit);
}

#[test]
fn model_detail_values_are_trimmed_or_missing() {
    let mut input = TextInput::new();
    assert_eq!(opencode_model_detail_value(&input), None);
    input.set("  \t ");
    assert_eq!(opencode_model_detail_value(&input), None);
    input.set("  128000 ");
    assert_eq!(opencode_model_detail_value(&input), Some("128000".to_string()));
}

#[test]
fn outcome_steps_update_the_form_or_report_a_toast() {
    let mut f = form_with(&["a", "b", "c"]);
    f.editing = true;
    f.field_idx = 2;
    assert!(commit_opencode_model_edit(&mut f, Ok(())).is_none());
    assert!(!f.editing);
    assert_eq!(f.field_idx, 2);

    f.editing = true;
    let t = commit_opencode_model_edit(&mut f, Err("Model ID is required".to_string())).unwrap();
    assert_eq!(t.message, "Model ID is required");
    assert_eq!(t.kind, ToastKind::Error);
    assert!(f.editing);

    assert!(switch_opencode_model(&mut f, 9, Ok(())).is_none());
    assert_eq!(f.opencode_model_idx, 2);
    assert!(switch_opencode_model(&mut f, 0, Err("x".to_string())).is_some());
    assert_eq!(f.opencode_model_idx, 2);

    f.field_idx = 3;
    f.editing = true;
    assert_eq!(open_opencode_model(&mut f, 1, Ok(())).ok(), Some(1));
    assert_eq!((f.opencode_model_idx, f.field_idx, f.editing), (1, 0, false));
    match open_opencode_model(&mut f, 2, Err("sync".to_string())) {
        Err(t) => assert_eq!(t.kind, ToastKind::Error),
        Ok(_) => panic!("expected a toast"),
    }
    assert_eq!(f.opencode_model_idx, 1);

    f.field_idx = 3;
    assert_eq!(opencode_model_added(&mut f, Ok(())).ok(), Some(1));
    assert_eq!((f.field_idx, f.editing), (0, true));
    let mut sel = 0usize;
    f.opencode_model_idx = 2;
    f.editing = false;
    assert_eq!(opencode_model_added_from_list(&mut f, &mut sel, Ok(())).ok(), Some(2));
    assert_eq!((sel, f.field_idx, f.editing), (2, 0, true));
    f.editing = false;
    match opencode_model_added_from_list(&mut f, &mut sel, Err("Duplicated model id `a`".to_string())) {
        Err(t) => {
            assert_eq!(t.kind, ToastKind::Warning);
            assert_eq!(t.message, "Duplicated model id `a`");
        }
        Ok(_) => panic!("expected a warning"),
    }
    assert!(!f.editing);
    assert_eq!(sel, 2);
}
