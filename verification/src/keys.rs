//! What a key press asks for, given the screen it lands on. The answer is a
//! command for the event loop: a reducer action, or work only the loop can
//! do (the network, the file system, the keyring, the terminal).
use vstd::prelude::*;
use crate::actions::Action;
use crate::drain::OverwriteChoice;
use crate::state::{AppState, AppView, ChoicePromptKind, FocusPane, PromptKind, QuickConnectField, TextPromptKind, modal_open};

verus! {

/// A key, as the terminal reports it.
#[derive(Debug, Clone, Copy, PartialEq, Eq, Structural)]
pub enum Key {
    Char(char),
    Enter,
    Esc,
    Tab,
    BackTab,
    Backspace,
    Delete,
    Left,
    Right,
    Up,
    Down,
    Home,
    End,
    F(u8),
    Other,
}

/// A key with the modifiers held.
#[derive(Debug, Clone, Copy, PartialEq, Eq, Structural)]
pub struct KeyInput {
    pub key: Key,
    pub ctrl: bool,
    pub shift: bool,
}

/// An edit of a text field that goes straight to the field.
#[derive(Debug, Clone, Copy, PartialEq, Eq, Structural)]
pub enum FieldEdit {
    Left(bool),
    Right(bool),
    Home(bool),
    End(bool),
    Delete,
    DeleteWordLeft,
}

/// What the event loop is to do about a key.
#[derive(Debug)]
pub enum KeyCommand {
    Nothing,
    Quit,
    /// Ask before quitting; first reject a pending host key and close the open prompt, as flagged.
    AskQuit { reject_host_key: bool, close_prompt: bool },
    Act(Action),
    CancelTransfers,
    KeyringCheck,
    /// Scroll help one line, down when `true`.
    HelpScroll(bool),
    /// Scroll the queue one line, down when `true`.
    QueueScroll(bool),
    Overwrite(OverwriteChoice),
    /// Close a choice prompt unanswered; reject the host key, or forget the delete, as flagged.
    DismissPrompt { reject_host_key: bool, forget_delete: bool },
    ConfirmDelete,
    ConfirmBookmarkDelete,
    AcceptHostKey,
    /// Close a text prompt; go back to the overwrite question when it was a rename for it.
    CancelTextPrompt { back_to_overwrite: bool },
    SwapCreateKind,
    SubmitPrompt(TextPromptKind),
    EditPrompt(FieldEdit),
    EditQuickConnect(FieldEdit),
    ConnectQuickConnect,
    SaveBookmark,
    LoadBookmark,
    ConnectBookmark,
    AskDeleteBookmark,
    SetDefaultBookmark,
    OpenSelected,
    RenamePrompt,
    EditRemote,
    DeletePrompt,
    Focus(FocusPane),
    EnterDirectory,
    ParentDirectory,
    Refresh,
    ToggleConnection,
    Upload,
    Download,
    ChmodPrompt,
    CycleSort,
    FlipSortOrder,
    ToggleDotfiles,
}

/// `c` with Ctrl held.
pub open spec fn is_ctrl(k: KeyInput, c: char) -> bool {
    k.ctrl && k.key == Key::Char(c)
}

/// Transfers are queued or running.
pub open spec fn transfers_busy(s: AppView) -> bool {
    s.worker_active_count > 0 || s.queue.pending.len() > 0
}

/// Ctrl+Q: quit at once when nothing is queued or running (or the quit was
/// already asked), else ask first.
pub open spec fn quit_decision(s: AppView) -> KeyCommand {
    if s.prompt_kind == Some(PromptKind::Choice(ChoicePromptKind::ConfirmQuit)) || !transfers_busy(s) {
        KeyCommand::Quit
    } else {
        KeyCommand::AskQuit {
            reject_host_key: s.prompt_kind == Some(PromptKind::Choice(ChoicePromptKind::HostKey)),
            close_prompt: s.show_prompt,
        }
    }
}

/// Keys while help is open.
pub open spec fn help_keys(k: KeyInput) -> KeyCommand {
    match k.key {
        Key::Esc => KeyCommand::Act(Action::ToggleHelp),
        Key::Up | Key::Char('k') => KeyCommand::HelpScroll(false),
        Key::Down | Key::Char('j') => KeyCommand::HelpScroll(true),
        _ => KeyCommand::Nothing,
    }
}

/// Keys while the filter bar is open.
pub open spec fn filter_keys(k: KeyInput) -> KeyCommand {
    match k.key {
        Key::Esc => KeyCommand::Act(Action::ToggleFilter),
        Key::Backspace => KeyCommand::Act(Action::FilterBackspace),
        Key::Char(ch) => KeyCommand::Act(Action::FilterInput(ch)),
        _ => KeyCommand::Nothing,
    }
}

/// The answer a key gives to the overwrite question, if any.
pub open spec fn overwrite_answer(k: KeyInput) -> Option<OverwriteChoice> {
    match k.key {
        Key::Enter | Key::Char('s') | Key::Char('S') => Some(OverwriteChoice::Skip),
        Key::Char('o') | Key::Char('O') => Some(OverwriteChoice::Overwrite),
        Key::Char('a') | Key::Char('A') => Some(OverwriteChoice::OverwriteAll),
        Key::Char('n') | Key::Char('N') => Some(OverwriteChoice::SkipAll),
        Key::Char('r') | Key::Char('R') => Some(OverwriteChoice::Rename),
        Key::Esc => Some(OverwriteChoice::Abort),
        _ => None,
    }
}

/// Keys while a choice prompt of `kind` is open.
pub open spec fn choice_keys(kind: ChoicePromptKind, k: KeyInput) -> KeyCommand {
    if kind == ChoicePromptKind::Overwrite {
        match overwrite_answer(k) {
            Some(c) => KeyCommand::Overwrite(c),
            None => KeyCommand::Nothing,
        }
    } else {
        match k.key {
            Key::Esc | Key::Char('n') | Key::Char('N') => KeyCommand::DismissPrompt {
                reject_host_key: kind == ChoicePromptKind::HostKey,
                forget_delete: kind == ChoicePromptKind::ConfirmDelete,
            },
            Key::Char('y') | Key::Char('Y') => match kind {
                ChoicePromptKind::ConfirmQuit => KeyCommand::Quit,
                ChoicePromptKind::ConfirmDelete => KeyCommand::ConfirmDelete,
                ChoicePromptKind::ConfirmBookmarkDelete => KeyCommand::ConfirmBookmarkDelete,
                ChoicePromptKind::HostKey => KeyCommand::AcceptHostKey,
                ChoicePromptKind::Overwrite => KeyCommand::Nothing,
            },
            _ => KeyCommand::Nothing,
        }
    }
}

/// Keys while a text prompt of `kind` is open.
pub open spec fn text_prompt_keys(kind: TextPromptKind, k: KeyInput) -> KeyCommand {
    match k.key {
        Key::Esc => KeyCommand::CancelTextPrompt { back_to_overwrite: kind == TextPromptKind::OverwriteRename },
        Key::Tab => KeyCommand::SwapCreateKind,
        Key::Enter => KeyCommand::SubmitPrompt(kind),
        Key::Left => KeyCommand::EditPrompt(FieldEdit::Left(k.shift)),
        Key::Right => KeyCommand::EditPrompt(FieldEdit::Right(k.shift)),
        Key::Home => KeyCommand::EditPrompt(FieldEdit::Home(k.shift)),
        Key::End => KeyCommand::EditPrompt(FieldEdit::End(k.shift)),
        Key::Delete => KeyCommand::EditPrompt(FieldEdit::Delete),
        Key::Backspace => KeyCommand::Act(Action::PromptBackspace),
        Key::Char(ch) => if k.ctrl && ch == 'w' {
            KeyCommand::EditPrompt(FieldEdit::DeleteWordLeft)
        } else {
            KeyCommand::Act(Action::PromptInput(ch))
        },
        _ => KeyCommand::Nothing,
    }
}

/// Keys while the quick-connect form is open, on field `f`.
pub open spec fn qc_keys(f: QuickConnectField, k: KeyInput) -> KeyCommand {
    match k.key {
        Key::Esc => KeyCommand::Act(Action::ToggleQuickConnect),
        Key::Tab => KeyCommand::Act(Action::QuickConnectNextField),
        Key::BackTab => KeyCommand::Act(Action::QuickConnectPrevField),
        Key::Left => if f == QuickConnectField::Protocol {
            KeyCommand::Act(Action::QuickConnectSetProtocolPrev)
        } else {
            KeyCommand::Act(Action::QuickConnectMoveCursor { dir: -1i32, shift: k.shift })
        },
        Key::Right => if f == QuickConnectField::Protocol {
            KeyCommand::Act(Action::QuickConnectSetProtocolNext)
        } else {
            KeyCommand::Act(Action::QuickConnectMoveCursor { dir: 1i32, shift: k.shift })
        },
        Key::Home => KeyCommand::EditQuickConnect(FieldEdit::Home(k.shift)),
        Key::End => KeyCommand::EditQuickConnect(FieldEdit::End(k.shift)),
        Key::Delete => KeyCommand::EditQuickConnect(FieldEdit::Delete),
        Key::Backspace => KeyCommand::Act(Action::QuickConnectBackspace),
        Key::Enter => KeyCommand::ConnectQuickConnect,
        Key::Char(ch) => if k.ctrl && ch == 'w' {
            KeyCommand::EditQuickConnect(FieldEdit::DeleteWordLeft)
        } else if k.ctrl && ch == 's' {
            KeyCommand::SaveBookmark
        } else {
            KeyCommand::Act(Action::QuickConnectInput(ch))
        },
        _ => KeyCommand::Nothing,
    }
}

/// Keys while the bookmark list is open.
pub open spec fn bookmark_keys(k: KeyInput) -> KeyCommand {
    match k.key {
        Key::Esc => KeyCommand::Act(Action::ToggleBookmarks),
        Key::Down | Key::Char('j') => KeyCommand::Act(Action::SelectNextBookmark),
        Key::Up | Key::Char('k') => KeyCommand::Act(Action::SelectPrevBookmark),
        Key::Enter | Key::Char('e') => KeyCommand::LoadBookmark,
        Key::Char('c') => KeyCommand::ConnectBookmark,
        Key::Char('d') => KeyCommand::AskDeleteBookmark,
        Key::Char('D') => KeyCommand::SetDefaultBookmark,
        _ => KeyCommand::Nothing,
    }
}

/// Keys on the panes, with nothing open over them.
pub open spec fn main_keys(s: AppView, k: KeyInput) -> KeyCommand {
    match k.key {
        Key::Esc => if s.show_compare {
            KeyCommand::Act(Action::ToggleCompare)
        } else {
            KeyCommand::Nothing
        },
        Key::Enter => KeyCommand::OpenSelected,
        Key::Delete => KeyCommand::DeletePrompt,
        Key::Tab => KeyCommand::Act(Action::FocusNextPane),
        Key::Up => if s.focus == FocusPane::Queue {
            KeyCommand::QueueScroll(false)
        } else {
            KeyCommand::Act(Action::SelectUp)
        },
        Key::Down => if s.focus == FocusPane::Queue {
            KeyCommand::QueueScroll(true)
        } else {
            KeyCommand::Act(Action::SelectDown)
        },
        Key::Char(ch) => main_char(s.focus == FocusPane::Queue, ch),
        _ => KeyCommand::Nothing,
    }
}

/// A character typed on the panes.
pub open spec fn main_char(queue_focused: bool, ch: char) -> KeyCommand {
    if ch == 'n' {
        KeyCommand::Act(Action::ShowCreatePrompt)
    } else if ch == 'e' {
        KeyCommand::RenamePrompt
    } else if ch == 'E' {
        KeyCommand::EditRemote
    } else if ch == '1' {
        KeyCommand::Focus(FocusPane::Local)
    } else if ch == '2' {
        KeyCommand::Focus(FocusPane::Remote)
    } else if ch == '3' {
        KeyCommand::Focus(FocusPane::Queue)
    } else if ch == 'k' {
        if queue_focused {
            KeyCommand::QueueScroll(false)
        } else {
            KeyCommand::Act(Action::SelectUp)
        }
    } else if ch == 'j' {
        if queue_focused {
            KeyCommand::QueueScroll(true)
        } else {
            KeyCommand::Act(Action::SelectDown)
        }
    } else if ch == 'l' {
        KeyCommand::EnterDirectory
    } else if ch == 'h' {
        KeyCommand::ParentDirectory
    } else if ch == 'r' {
        KeyCommand::Refresh
    } else if ch == 'b' {
        KeyCommand::Act(Action::SelectNextBookmark)
    } else if ch == 'B' {
        KeyCommand::SaveBookmark
    } else if ch == 'o' {
        KeyCommand::Act(Action::ToggleQuickConnect)
    } else if ch == 'm' {
        KeyCommand::Act(Action::ToggleBookmarks)
    } else if ch == 'c' {
        KeyCommand::ToggleConnection
    } else if ch == 'u' {
        KeyCommand::Upload
    } else if ch == 'd' {
        KeyCommand::Download
    } else if ch == 'X' {
        KeyCommand::Act(Action::ClearPendingTransfers)
    } else if ch == 'R' {
        KeyCommand::Act(Action::RetryLastFailed)
    } else if ch == 'p' {
        KeyCommand::ChmodPrompt
    } else if ch == 's' {
        KeyCommand::CycleSort
    } else if ch == 'S' {
        KeyCommand::FlipSortOrder
    } else if ch == '.' {
        KeyCommand::ToggleDotfiles
    } else {
        KeyCommand::Nothing
    }
}

/// What `k` asks for on screen `s`. Global shortcuts come first, then the
/// topmost open layer (help, theme panel, filter, prompt, quick connect,
/// bookmarks) takes the key; only with none open does it reach the panes.
pub open spec fn key_decision(s: AppView, k: KeyInput) -> KeyCommand {
    if is_ctrl(k, 'c') {
        if s.show_help || s.show_filter || s.show_prompt || s.show_quick_connect {
            KeyCommand::Nothing
        } else {
            KeyCommand::CancelTransfers
        }
    } else if is_ctrl(k, 'q') || is_ctrl(k, 'Q') {
        quit_decision(s)
    } else if !modal_open(s) && is_ctrl(k, 'k') {
        KeyCommand::KeyringCheck
    } else if k.key == Key::F(1) && (!modal_open(s) || s.show_help) {
        KeyCommand::Act(Action::ToggleHelp)
    } else if k.key == Key::F(2) && (!modal_open(s) || s.show_theme_debug) {
        KeyCommand::Act(Action::ToggleThemeDebug)
    } else if !modal_open(s) && k.key == Key::Char('/') {
        KeyCommand::Act(Action::ToggleFilter)
    } else if s.show_help {
        help_keys(k)
    } else if s.show_theme_debug {
        if k.key == Key::Esc {
            KeyCommand::Act(Action::ToggleThemeDebug)
        } else {
            KeyCommand::Nothing
        }
    } else if s.show_filter {
        filter_keys(k)
    } else if !modal_open(s) && k.key == Key::Char('C') {
        KeyCommand::Act(Action::ToggleCompare)
    } else {
        match s.prompt_kind {
            Some(PromptKind::Choice(kind)) => choice_keys(kind, k),
            Some(PromptKind::Text(kind)) => text_prompt_keys(kind, k),
            None => if !modal_open(s) && is_ctrl(k, 'n') {
                KeyCommand::Act(Action::ShowCreatePrompt)
            } else if s.show_quick_connect {
                qc_keys(s.quick_connect_field, k)
            } else if s.show_bookmarks {
                bookmark_keys(k)
            } else {
                main_keys(s, k)
            },
        }
    }
}

fn help_keys_exec(k: KeyInput) -> (r: KeyCommand)
    ensures
        r == help_keys(k),
{
    match k.key {
        Key::Esc => KeyCommand::Act(Action::ToggleHelp),
        Key::Up | Key::Char('k') => KeyCommand::HelpScroll(false),
        Key::Down | Key::Char('j') => KeyCommand::HelpScroll(true),
        _ => KeyCommand::Nothing,
    }
}

fn filter_keys_exec(k: KeyInput) -> (r: KeyCommand)
    ensures
        r == filter_keys(k),
{
    match k.key {
        Key::Esc => KeyCommand::Act(Action::ToggleFilter),
        Key::Backspace => KeyCommand::Act(Action::FilterBackspace),
        Key::Char(ch) => KeyCommand::Act(Action::FilterInput(ch)),
        _ => KeyCommand::Nothing,
    }
}

fn overwrite_answer_exec(k: KeyInput) -> (r: Option<OverwriteChoice>)
    ensures
        r == overwrite_answer(k),
{
    match k.key {
        Key::Enter | Key::Char('s') | Key::Char('S') => Some(OverwriteChoice::Skip),
        Key::Char('o') | Key::Char('O') => Some(OverwriteChoice::Overwrite),
        Key::Char('a') | Key::Char('A') => Some(OverwriteChoice::OverwriteAll),
        Key::Char('n') | Key::Char('N') => Some(OverwriteChoice::SkipAll),
        Key::Char('r') | Key::Char('R') => Some(OverwriteChoice::Rename),
        Key::Esc => Some(OverwriteChoice::Abort),
        _ => None,
    }
}

fn choice_keys_exec(kind: ChoicePromptKind, k: KeyInput) -> (r: KeyCommand)
    ensures
        r == choice_keys(kind, k),
{
    if kind == ChoicePromptKind::Overwrite {
        match overwrite_answer_exec(k) {
            Some(c) => KeyCommand::Overwrite(c),
            None => KeyCommand::Nothing,
        }
    } else {
        match k.key {
            Key::Esc | Key::Char('n') | Key::Char('N') => KeyCommand::DismissPrompt {
                reject_host_key: kind == ChoicePromptKind::HostKey,
                forget_delete: kind == ChoicePromptKind::ConfirmDelete,
            },
            Key::Char('y') | Key::Char('Y') => match kind {
                ChoicePromptKind::ConfirmQuit => KeyCommand::Quit,
                ChoicePromptKind::ConfirmDelete => KeyCommand::ConfirmDelete,
                ChoicePromptKind::ConfirmBookmarkDelete => KeyCommand::ConfirmBookmarkDelete,
                ChoicePromptKind::HostKey => KeyCommand::AcceptHostKey,
                ChoicePromptKind::Overwrite => KeyCommand::Nothing,
            },
            _ => KeyCommand::Nothing,
        }
    }
}

fn text_prompt_keys_exec(kind: TextPromptKind, k: KeyInput) -> (r: KeyCommand)
    ensures
        r == text_prompt_keys(kind, k),
{
    match k.key {
        Key::Esc => KeyCommand::CancelTextPrompt { back_to_overwrite: kind == TextPromptKind::OverwriteRename },
        Key::Tab => KeyCommand::SwapCreateKind,
        Key::Enter => KeyCommand::SubmitPrompt(kind),
        Key::Left => KeyCommand::EditPrompt(FieldEdit::Left(k.shift)),
        Key::Right => KeyCommand::EditPrompt(FieldEdit::Right(k.shift)),
        Key::Home => KeyCommand::EditPrompt(FieldEdit::Home(k.shift)),
        Key::End => KeyCommand::EditPrompt(FieldEdit::End(k.shift)),
        Key::Delete => KeyCommand::EditPrompt(FieldEdit::Delete),
        Key::Backspace => KeyCommand::Act(Action::PromptBackspace),
        Key::Char(ch) => if k.ctrl && ch == 'w' {
            KeyCommand::EditPrompt(FieldEdit::DeleteWordLeft)
        } else {
            KeyCommand::Act(Action::PromptInput(ch))
        },
        _ => KeyCommand::Nothing,
    }
}

fn qc_keys_exec(f: QuickConnectField, k: KeyInput) -> (r: KeyCommand)
    ensures
        r == qc_keys(f, k),
{
    match k.key {
        Key::Esc => KeyCommand::Act(Action::ToggleQuickConnect),
        Key::Tab => KeyCommand::Act(Action::QuickConnectNextField),
        Key::BackTab => KeyCommand::Act(Action::QuickConnectPrevField),
        Key::Left => if f == QuickConnectField::Protocol {
            KeyCommand::Act(Action::QuickConnectSetProtocolPrev)
        } else {
            KeyCommand::Act(Action::QuickConnectMoveCursor { dir: -1i32, shift: k.shift })
        },
        Key::Right => if f == QuickConnectField::Protocol {
            KeyCommand::Act(Action::QuickConnectSetProtocolNext)
        } else {
            KeyCommand::Act(Action::QuickConnectMoveCursor { dir: 1i32, shift: k.shift })
        },
        Key::Home => KeyCommand::EditQuickConnect(FieldEdit::Home(k.shift)),
        Key::End => KeyCommand::EditQuickConnect(FieldEdit::End(k.shift)),
        Key::Delete => KeyCommand::EditQuickConnect(FieldEdit::Delete),
        Key::Backspace => KeyCommand::Act(Action::QuickConnectBackspace),
        Key::Enter => KeyCommand::ConnectQuickConnect,
        Key::Char(ch) => if k.ctrl && ch == 'w' {
            KeyCommand::EditQuickConnect(FieldEdit::DeleteWordLeft)
        } else if k.ctrl && ch == 's' {
            KeyCommand::SaveBookmark
        } else {
            KeyCommand::Act(Action::QuickConnectInput(ch))
        },
        _ => KeyCommand::Nothing,
    }
}

fn bookmark_keys_exec(k: KeyInput) -> (r: KeyCommand)
    ensures
        r == bookmark_keys(k),
{
    match k.key {
        Key::Esc => KeyCommand::Act(Action::ToggleBookmarks),
        Key::Down | Key::Char('j') => KeyCommand::Act(Action::SelectNextBookmark),
        Key::Up | Key::Char('k') => KeyCommand::Act(Action::SelectPrevBookmark),
        Key::Enter | Key::Char('e') => KeyCommand::LoadBookmark,
        Key::Char('c') => KeyCommand::ConnectBookmark,
        Key::Char('d') => KeyCommand::AskDeleteBookmark,
        Key::Char('D') => KeyCommand::SetDefaultBookmark,
        _ => KeyCommand::Nothing,
    }
}

fn main_char_exec(queue_focused: bool, ch: char) -> (r: KeyCommand)
    ensures
        r == main_char(queue_focused, ch),
{
    if ch == 'n' {
        KeyCommand::Act(Action::ShowCreatePrompt)
    } else if ch == 'e' {
        KeyCommand::RenamePrompt
    } else if ch == 'E' {
        KeyCommand::EditRemote
    } else if ch == '1' {
        KeyCommand::Focus(FocusPane::Local)
    } else if ch == '2' {
        KeyCommand::Focus(FocusPane::Remote)
    } else if ch == '3' {
        KeyCommand::Focus(FocusPane::Queue)
    } else if ch == 'k' {
        if queue_focused {
            KeyCommand::QueueScroll(false)
        } else {
            KeyCommand::Act(Action::SelectUp)
        }
    } else if ch == 'j' {
        if queue_focused {
            KeyCommand::QueueScroll(true)
        } else {
            KeyCommand::Act(Action::SelectDown)
        }
    } else if ch == 'l' {
        KeyCommand::EnterDirectory
    } else if ch == 'h' {
        KeyCommand::ParentDirectory
    } else if ch == 'r' {
        KeyCommand::Refresh
    } else if ch == 'b' {
        KeyCommand::Act(Action::SelectNextBookmark)
    } else if ch == 'B' {
        KeyCommand::SaveBookmark
    } else if ch == 'o' {
        KeyCommand::Act(Action::ToggleQuickConnect)
    } else if ch == 'm' {
        KeyCommand::Act(Action::ToggleBookmarks)
    } else if ch == 'c' {
        KeyCommand::ToggleConnection
    } else if ch == 'u' {
        KeyCommand::Upload
    } else if ch == 'd' {
        KeyCommand::Download
    } else if ch == 'X' {
        KeyCommand::Act(Action::ClearPendingTransfers)
    } else if ch == 'R' {
        KeyCommand::Act(Action::RetryLastFailed)
    } else if ch == 'p' {
        KeyCommand::ChmodPrompt
    } else if ch == 's' {
        KeyCommand::CycleSort
    } else if ch == 'S' {
        KeyCommand::FlipSortOrder
    } else if ch == '.' {
        KeyCommand::ToggleDotfiles
    } else {
        KeyCommand::Nothing
    }
}

fn main_keys_exec(app: &AppState, k: KeyInput) -> (r: KeyCommand)
    ensures
        r == main_keys(app@, k),
{
    let queue_focused = app.focus == FocusPane::Queue;
    match k.key {
        Key::Esc => if app.show_compare {
            KeyCommand::Act(Action::ToggleCompare)
        } else {
            KeyCommand::Nothing
        },
        Key::Enter => KeyCommand::OpenSelected,
        Key::Delete => KeyCommand::DeletePrompt,
        Key::Tab => KeyCommand::Act(Action::FocusNextPane),
        Key::Up => if queue_focused {
            KeyCommand::QueueScroll(false)
        } else {
            KeyCommand::Act(Action::SelectUp)
        },
        Key::Down => if queue_focused {
            KeyCommand::QueueScroll(true)
        } else {
            KeyCommand::Act(Action::SelectDown)
        },
        Key::Char(ch) => main_char_exec(queue_focused, ch),
        _ => KeyCommand::Nothing,
    }
}

fn quit_decision_exec(app: &AppState) -> (r: KeyCommand)
    ensures
        r == quit_decision(app@),
{
    let confirm_open = match app.prompt_kind {
        Some(PromptKind::Choice(ChoicePromptKind::ConfirmQuit)) => true,
        _ => false,
    };
    let busy = app.worker_active_count > 0 || app.queue.pending.len() > 0;
    if confirm_open || !busy {
        KeyCommand::Quit
    } else {
        let host_key_open = match app.prompt_kind {
            Some(PromptKind::Choice(ChoicePromptKind::HostKey)) => true,
            _ => false,
        };
        KeyCommand::AskQuit { reject_host_key: host_key_open, close_prompt: app.show_prompt }
    }
}

fn is_ctrl_exec(k: KeyInput, c: char) -> (r: bool)
    ensures
        r == is_ctrl(k, c),
{
    k.ctrl && k.key == Key::Char(c)
}

/// What `k` asks for on the current screen.
pub fn decide_key(app: &AppState, k: KeyInput) -> (r: KeyCommand)
    ensures
        r == key_decision(app@, k),
{
    let modal = app.any_modal_open();
    if is_ctrl_exec(k, 'c') {
        if app.show_help || app.show_filter || app.show_prompt || app.show_quick_connect {
            KeyCommand::Nothing
        } else {
            KeyCommand::CancelTransfers
        }
    } else if is_ctrl_exec(k, 'q') || is_ctrl_exec(k, 'Q') {
        quit_decision_exec(app)
    } else if !modal && is_ctrl_exec(k, 'k') {
        KeyCommand::KeyringCheck
    } else if k.key == Key::F(1) && (!modal || app.show_help) {
        KeyCommand::Act(Action::ToggleHelp)
    } else if k.key == Key::F(2) && (!modal || app.show_theme_debug) {
        KeyCommand::Act(Action::ToggleThemeDebug)
    } else if !modal && k.key == Key::Char('/') {
        KeyCommand::Act(Action::ToggleFilter)
    } else if app.show_help {
        help_keys_exec(k)
    } else if app.show_theme_debug {
        if k.key == Key::Esc {
            KeyCommand::Act(Action::ToggleThemeDebug)
        } else {
            KeyCommand::Nothing
        }
    } else if app.show_filter {
        filter_keys_exec(k)
    } else if !modal && k.key == Key::Char('C') {
        KeyCommand::Act(Action::ToggleCompare)
    } else {
        match app.prompt_kind {
            Some(PromptKind::Choice(kind)) => choice_keys_exec(kind, k),
            Some(PromptKind::Text(kind)) => text_prompt_keys_exec(kind, k),
            None => if !modal && is_ctrl_exec(k, 'n') {
                KeyCommand::Act(Action::ShowCreatePrompt)
            } else if app.show_quick_connect {
                qc_keys_exec(app.quick_connect_field, k)
            } else if app.show_bookmarks {
                bookmark_keys_exec(k)
            } else {
                main_keys_exec(app, k)
            },
        }
    }
}

/// No key quits while transfers are queued or running, unless the quit was
/// asked and is being confirmed.
pub proof fn law_busy_quit_asks_first(s: AppView, k: KeyInput)
    requires
        transfers_busy(s),
        s.prompt_kind != Some(PromptKind::Choice(ChoicePromptKind::ConfirmQuit)),
    ensures
        !(key_decision(s, k) is Quit),
{
}

/// Ctrl+C never quits: it cancels transfers, or does nothing while a dialog
/// that takes text is open.
pub proof fn law_ctrl_c_cancels(s: AppView, k: KeyInput)
    requires
        is_ctrl(k, 'c'),
    ensures
        key_decision(s, k) is CancelTransfers || key_decision(s, k) is Nothing,
        key_decision(s, k) is CancelTransfers <==> !(s.show_help || s.show_filter || s.show_prompt || s.show_quick_connect),
{
}

/// With a text prompt open (and no help, theme panel or filter over it),
/// every plain character is typed into the prompt.
pub proof fn law_typing_goes_to_prompt(s: AppView, k: KeyInput, ch: char)
    requires
        s.show_prompt,
        s.prompt_kind matches Some(PromptKind::Text(_)),
        !s.show_help,
        !s.show_theme_debug,
        !s.show_filter,
        k.key == Key::Char(ch),
        !k.ctrl,
    ensures
        key_decision(s, k) == KeyCommand::Act(Action::PromptInput(ch)),
{
}

/// Keys typed while a dialog is open never reach the panes: transfers,
/// deletes, renames and connecting or disconnecting from the panes need
/// help, the theme panel, the filter, quick connect, the bookmarks and any
/// prompt closed.
pub proof fn law_dialogs_shield_panes(s: AppView, k: KeyInput)
    ensures
        (key_decision(s, k) is Upload || key_decision(s, k) is Download || key_decision(s, k) is ToggleConnection
            || key_decision(s, k) is DeletePrompt || key_decision(s, k) is RenamePrompt
            || key_decision(s, k) is OpenSelected || key_decision(s, k) is ChmodPrompt) ==> !s.show_help
            && !s.show_filter && !s.show_quick_connect && !s.show_bookmarks && !s.show_theme_debug
            && s.prompt_kind is None,
{
}

} // verus!
