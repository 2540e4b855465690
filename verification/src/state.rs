//! The data model of the interface: the submenu commands, user-facing
//! messages, and the central vault state, together with their mathematical
//! views and the well-formedness condition every reachable state satisfies.

use vstd::prelude::*;

use crate::account::{Account, AccountV};
use crate::clipboard::ClipboardHandle;

verus! {

/// The number of submenu commands.
pub const COMMAND_COUNT: usize = 3;

/// The per-credential submenu commands, in their fixed cyclic order:
/// copy, edit, delete, and back to copy.
#[derive(Clone, Copy, PartialEq, Eq, Structural, Debug)]
pub enum AccountCommands {
    CopyPass,
    Edit,
    Delete,
}

impl AccountCommands {
    /// The label under which the command is shown.
    pub open spec fn label_spec(self) -> Seq<char> {
        match self {
            AccountCommands::CopyPass => "Copy Password"@,
            AccountCommands::Edit => "Edit Account"@,
            AccountCommands::Delete => "Delete Account"@,
        }
    }

    /// The label under which the command is shown.
    pub fn label(&self) -> (r: &'static str)
        ensures
            r@ == self.label_spec(),
    {
        match self {
            AccountCommands::CopyPass => "Copy Password",
            AccountCommands::Edit => "Edit Account",
            AccountCommands::Delete => "Delete Account",
        }
    }
}

/// A message shown to the user until the next transition replaces or
/// clears it.
pub enum UserMessage {
    Info(String),
    Error(String),
}

/// The mathematical content of a `UserMessage`.
pub enum MessageView {
    Info(Seq<char>),
    Error(Seq<char>),
}

impl View for UserMessage {
    type V = MessageView;

    open spec fn view(&self) -> MessageView {
        match self {
            UserMessage::Info(s) => MessageView::Info(s@),
            UserMessage::Error(s) => MessageView::Error(s@),
        }
    }
}

/// The central entity: the interface is locked behind the passphrase
/// prompt, unlocked over the loaded credentials, or terminated.
pub enum AppState {
    Login { psd: String, message: Option<UserMessage> },
    MainScreen {
        clipboard: ClipboardHandle,
        accounts: Vec<Account>,
        hovering: usize,
        selected_command: Option<AccountCommands>,
        message: Option<UserMessage>,
    },
    Exit,
}

/// The mathematical content of an `AppState`: strings become character
/// sequences, the credential list a sequence of record contents, and the
/// clipboard handle the text it has written.
pub enum StateView {
    Login { psd: Seq<char>, message: Option<MessageView> },
    MainScreen {
        clipboard: Option<Seq<char>>,
        accounts: Seq<AccountV>,
        hovering: int,
        selected_command: Option<AccountCommands>,
        message: Option<MessageView>,
    },
    Exit,
}

/// The view of an optional message.
pub open spec fn msg_view(m: Option<UserMessage>) -> Option<MessageView> {
    match m {
        Some(x) => Some(x@),
        None => None,
    }
}

/// The views of a sequence of credentials.
pub open spec fn accounts_view(s: Seq<Account>) -> Seq<AccountV> {
    s.map_values(|a: Account| a@)
}

impl View for AppState {
    type V = StateView;

    open spec fn view(&self) -> StateView {
        match self {
            AppState::Login { psd, message } => StateView::Login {
                psd: psd@,
                message: msg_view(*message),
            },
            AppState::MainScreen { clipboard, accounts, hovering, selected_command, message } =>
                StateView::MainScreen {
                    clipboard: clipboard.written(),
                    accounts: accounts_view(accounts@),
                    hovering: *hovering as int,
                    selected_command: *selected_command,
                    message: msg_view(*message),
                },
            AppState::Exit => StateView::Exit,
        }
    }
}

/// Well-formedness of a state: the hovered index stays inside the credential
/// list, and an empty vault pins the index to zero and disables the submenu.
pub open spec fn state_wf(s: StateView) -> bool {
    match s {
        StateView::MainScreen { accounts, hovering, selected_command, .. } => {
            &&& accounts.len() == 0 ==> hovering == 0 && selected_command is None
            &&& accounts.len() > 0 ==> 0 <= hovering < accounts.len()
        },
        _ => true,
    }
}

/// Decides well-formedness of a state, so that unverified callers can test
/// it before handing the state to the transition function.
pub fn is_wf(state: &AppState) -> (b: bool)
    ensures
        b == state_wf(state@),
{
    match state {
        AppState::MainScreen { accounts, hovering, selected_command, .. } => {
            if accounts.len() == 0 {
                *hovering == 0 && selected_command.is_none()
            } else {
                *hovering < accounts.len()
            }
        },
        _ => true,
    }
}

impl Default for AppState {
    /// The state at process start: locked, with an empty passphrase buffer
    /// and no message.
    fn default() -> (r: AppState)
        ensures
            r@ == (StateView::Login { psd: Seq::<char>::empty(), message: None }),
    {
        AppState::Login { psd: String::new(), message: None }
    }
}

} // verus!
