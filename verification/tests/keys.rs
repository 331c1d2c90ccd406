use dd_ftp::actions::Action;
use dd_ftp::drain::OverwriteChoice;
use dd_ftp::keys::{decide_key, FieldEdit, Key, KeyCommand, KeyInput};
use dd_ftp::model::TransferDirection;
use dd_ftp::model::TransferJob;
use dd_ftp::state::{AppState, ChoicePromptKind, FocusPane, PromptKind, TextPromptKind};

fn key(k: Key) -> KeyInput {
    KeyInput { key: k, ctrl: false, shift: false }
}

fn ctrl(c: char) -> KeyInput {
    KeyInput { key: Key::Char(c), ctrl: true, shift: false }
}

#[test]
fn ctrl_q_quits_when_idle_and_asks_when_busy() {
    let mut app = AppState::default();
    assert!(matches!(decide_key(&app, ctrl('q')), KeyCommand::Quit));
    app.queue.enqueue(TransferJob::new(1, "/l/a", "/r/a", TransferDirection::Upload));
    assert!(matches!(
        decide_key(&app, ctrl('q')),
        KeyCommand::AskQuit { reject_host_key: false, close_prompt: false }
    ));
    app.show_prompt = true;
    app.prompt_kind = Some(PromptKind::Choice(ChoicePromptKind::ConfirmQuit));
    assert!(matches!(decide_key(&app, key(Key::Char('y'))), KeyCommand::Quit));
    assert!(matches!(decide_key(&app, ctrl('Q')), KeyCommand::Quit));
}

#[test]
fn ctrl_c_cancels_only_without_text_dialogs() {
    let mut app = AppState::default();
    assert!(matches!(decide_key(&app, ctrl('c')), KeyCommand::CancelTransfers));
    app.show_filter = true;
    assert!(matches!(decide_key(&app, ctrl('c')), KeyCommand::Nothing));
}

#[test]
fn typing_in_a_text_prompt_goes_to_the_prompt() {
    let mut app = AppState::default();
    app.show_prompt = true;
    app.prompt_kind = Some(PromptKind::Text(TextPromptKind::Rename));
    assert!(matches!(decide_key(&app, key(Key::Char('u'))), KeyCommand::Act(Action::PromptInput('u'))));
    assert!(matches!(
        decide_key(&app, ctrl('w')),
        KeyCommand::EditPrompt(FieldEdit::DeleteWordLeft)
    ));
    assert!(matches!(
        decide_key(&app, key(Key::Enter)),
        KeyCommand::SubmitPrompt(TextPromptKind::Rename)
    ));
}

#[test]
fn overwrite_prompt_keys() {
    let mut app = AppState::default();
    app.show_prompt = true;
    app.prompt_kind = Some(PromptKind::Choice(ChoicePromptKind::Overwrite));
    assert!(matches!(decide_key(&app, key(Key::Char('a'))), KeyCommand::Overwrite(OverwriteChoice::OverwriteAll)));
    assert!(matches!(decide_key(&app, key(Key::Esc)), KeyCommand::Overwrite(OverwriteChoice::Abort)));
    assert!(matches!(decide_key(&app, key(Key::Char('x'))), KeyCommand::Nothing));
}

#[test]
fn pane_keys_reach_the_panes_with_nothing_open() {
    let mut app = AppState::default();
    assert!(matches!(decide_key(&app, key(Key::Char('u'))), KeyCommand::Upload));
    assert!(matches!(decide_key(&app, key(Key::Char('/'))), KeyCommand::Act(Action::ToggleFilter)));
    app.focus = FocusPane::Queue;
    assert!(matches!(decide_key(&app, key(Key::Char('j'))), KeyCommand::QueueScroll(true)));
    app.show_help = true;
    assert!(matches!(decide_key(&app, key(Key::Char('u'))), KeyCommand::Nothing));
    assert!(matches!(decide_key(&app, key(Key::Char('j'))), KeyCommand::HelpScroll(true)));
}
