//! The input-driven state machine: a total transition function from the
//! current state and one key press to the next state. Navigation and submenu
//! logic are pure and specified exactly; the unlock attempt and the
//! clipboard writes depend on the outside world, and their branches state
//! what holds of every outcome.

use vstd::prelude::*;
use vstd::string::StringExecFns;

use crate::account::{Account, AccountV};
use crate::clipboard::ClipboardHandle;
use crate::loader::{accounts_match_records, load_accounts, records_of};
use crate::state::{
    accounts_view, state_wf, AccountCommands, AppState, MessageView, StateView,
    UserMessage,
};

verus! {

/// One key press, as the interface understands it.
#[derive(Clone, Copy, PartialEq, Eq, Structural, Debug)]
pub enum KeyInput {
    Char(char),
    Backspace,
    Confirm,
    Cancel,
    Up,
    Down,
    QuickCopy,
    Other,
}

/// A confirmed passphrase, handed out by the transition function so that the
/// driving loop can decrypt the vault and feed the outcome back in through
/// `attempt_unlock`.
pub struct UnlockRequest {
    pub passphrase: String,
}

/// Relies on String::push: appends the character to the end of the string.
#[verifier::external_body]
fn push_char(s: &mut String, c: char)
    ensures
        final(s)@ == old(s)@.push(c),
{
    s.push(c);
}

/// Relies on String::pop: removes and returns the last character, if any.
#[verifier::external_body]
fn pop_char(s: &mut String) -> (r: Option<char>)
    ensures
        old(s)@.len() == 0 ==> final(s)@ == old(s)@ && r is None,
        old(s)@.len() > 0 ==> final(s)@ == old(s)@.drop_last() && r == Some(old(s)@.last()),
{
    s.pop()
}

/// Where moving up from `hovering` lands among `len` entries: one step back,
/// wrapping from the first entry to the last.
pub open spec fn nav_up_spec(hovering: int, len: int) -> int {
    if hovering == 0 {
        len - 1
    } else {
        hovering - 1
    }
}

/// Where moving down from `hovering` lands among `len` entries: one step
/// forward, wrapping from the last entry to the first.
pub open spec fn nav_down_spec(hovering: int, len: int) -> int {
    if hovering + 1 == len {
        0
    } else {
        hovering + 1
    }
}

/// The command after `c` in the fixed cyclic order.
pub open spec fn next_command_spec(c: AccountCommands) -> AccountCommands {
    match c {
        AccountCommands::CopyPass => AccountCommands::Edit,
        AccountCommands::Edit => AccountCommands::Delete,
        AccountCommands::Delete => AccountCommands::CopyPass,
    }
}

/// The command before `c` in the fixed cyclic order.
pub open spec fn prev_command_spec(c: AccountCommands) -> AccountCommands {
    match c {
        AccountCommands::CopyPass => AccountCommands::Delete,
        AccountCommands::Edit => AccountCommands::CopyPass,
        AccountCommands::Delete => AccountCommands::Edit,
    }
}

/// The command after `c` in the fixed cyclic order.
pub fn next_command(c: AccountCommands) -> (r: AccountCommands)
    ensures
        r == next_command_spec(c),
{
    match c {
        AccountCommands::CopyPass => AccountCommands::Edit,
        AccountCommands::Edit => AccountCommands::Delete,
        AccountCommands::Delete => AccountCommands::CopyPass,
    }
}

/// The command before `c` in the fixed cyclic order.
pub fn prev_command(c: AccountCommands) -> (r: AccountCommands)
    ensures
        r == prev_command_spec(c),
{
    match c {
        AccountCommands::CopyPass => AccountCommands::Delete,
        AccountCommands::Edit => AccountCommands::CopyPass,
        AccountCommands::Delete => AccountCommands::Edit,
    }
}

/// The message shown after a successful copy command.
pub open spec fn copied_message() -> Seq<char> {
    "copied password to clipboard"@
}

/// The message shown when an empty vault offers nothing to copy or select.
pub open spec fn no_credentials_message() -> Seq<char> {
    "no credentials in the vault"@
}

/// The prefix of the message shown when the unlock attempt fails.
pub open spec fn unlock_error_prefix() -> Seq<char> {
    "password likely incorrect: "@
}

/// The prefix of the message shown when the clipboard cannot be acquired.
pub open spec fn clipboard_error_prefix() -> Seq<char> {
    "clipboard initialization failed: "@
}

/// The prefix of the message shown when a clipboard write fails.
pub open spec fn write_error_prefix() -> Seq<char> {
    "clipboard write failed: "@
}

/// Whether `p` is a prefix of `s`.
pub open spec fn has_prefix(s: Seq<char>, p: Seq<char>) -> bool {
    p.len() <= s.len() && s.subrange(0, p.len() as int) == p
}

/// The next state, for every transition that does not touch the outside
/// world; the unlock attempt and the clipboard writes are the `None` cases.
pub open spec fn transition_view(s: StateView, key: KeyInput) -> Option<StateView> {
    match s {
        StateView::Login { psd, message } => match key {
            KeyInput::Char(c) => Some(StateView::Login { psd: psd.push(c), message }),
            KeyInput::Backspace => Some(
                StateView::Login {
                    psd: if psd.len() == 0 {
                        psd
                    } else {
                        psd.drop_last()
                    },
                    message,
                },
            ),
            KeyInput::Confirm => None,
            KeyInput::Cancel => Some(StateView::Exit),
            _ => Some(s),
        },
        StateView::MainScreen { clipboard, accounts, hovering, selected_command, message } => match selected_command {
            None => match key {
                KeyInput::Confirm => if accounts.len() > 0 {
                    Some(
                        StateView::MainScreen {
                            clipboard,
                            accounts,
                            hovering,
                            selected_command: Some(AccountCommands::CopyPass),
                            message: None,
                        },
                    )
                } else {
                    Some(
                        StateView::MainScreen {
                            clipboard,
                            accounts,
                            hovering,
                            selected_command: None,
                            message: Some(MessageView::Error(no_credentials_message())),
                        },
                    )
                },
                KeyInput::Up => if accounts.len() > 0 {
                    Some(
                        StateView::MainScreen {
                            clipboard,
                            accounts,
                            hovering: nav_up_spec(hovering, accounts.len() as int),
                            selected_command: None,
                            message,
                        },
                    )
                } else {
                    Some(s)
                },
                KeyInput::Down => if accounts.len() > 0 {
                    Some(
                        StateView::MainScreen {
                            clipboard,
                            accounts,
                            hovering: nav_down_spec(hovering, accounts.len() as int),
                            selected_command: None,
                            message,
                        },
                    )
                } else {
                    Some(s)
                },
                KeyInput::QuickCopy => if accounts.len() > 0 {
                    None
                } else {
                    Some(
                        StateView::MainScreen {
                            clipboard,
                            accounts,
                            hovering,
                            selected_command: None,
                            message: Some(MessageView::Error(no_credentials_message())),
                        },
                    )
                },
                KeyInput::Cancel => Some(StateView::Exit),
                _ => Some(s),
            },
            Some(cmd) => match key {
                KeyInput::Confirm => match cmd {
                    AccountCommands::CopyPass => None,
                    AccountCommands::Edit => Some(
                        StateView::MainScreen {
                            clipboard,
                            accounts,
                            hovering,
                            selected_command,
                            message: Some(
                                MessageView::Error("Edit Account is not implemented yet"@),
                            ),
                        },
                    ),
                    AccountCommands::Delete => Some(
                        StateView::MainScreen {
                            clipboard,
                            accounts,
                            hovering,
                            selected_command,
                            message: Some(
                                MessageView::Error("Delete Account is not implemented yet"@),
                            ),
                        },
                    ),
                },
                KeyInput::Up => Some(
                    StateView::MainScreen {
                        clipboard,
                        accounts,
                        hovering,
                        selected_command: Some(prev_command_spec(cmd)),
                        message: None,
                    },
                ),
                KeyInput::Down => Some(
                    StateView::MainScreen {
                        clipboard,
                        accounts,
                        hovering,
                        selected_command: Some(next_command_spec(cmd)),
                        message: None,
                    },
                ),
                KeyInput::Cancel => Some(
                    StateView::MainScreen {
                        clipboard,
                        accounts,
                        hovering,
                        selected_command: None,
                        message: None,
                    },
                ),
                _ => Some(
                    StateView::MainScreen {
                        clipboard,
                        accounts,
                        hovering,
                        selected_command,
                        message: None,
                    },
                ),
            },
        },
        StateView::Exit => Some(StateView::Exit),
    }
}

/// What holds after a quick copy from browsing mode: either the hovered
/// secret went to the clipboard and the message is cleared, or the clipboard
/// is unchanged and a write error is shown; nothing else moves.
pub open spec fn quick_copy_post(next: StateView, s: StateView) -> bool {
    match (next, s) {
        (
            StateView::MainScreen {
                clipboard: c2,
                accounts: a2,
                hovering: h2,
                selected_command: sc2,
                message: m2,
            },
            StateView::MainScreen {
                clipboard: c1,
                accounts: a1,
                hovering: h1,
                selected_command: sc1,
                message: m1,
            },
        ) => {
            &&& a2 == a1
            &&& h2 == h1
            &&& sc2 == sc1
            &&& {
                ||| (c2 == Some(a1[h1].password) && m2 is None)
                ||| (c2 == c1 && (m2 matches Some(MessageView::Error(t)) && has_prefix(
                    t,
                    write_error_prefix(),
                )))
            }
        },
        _ => false,
    }
}

/// What holds after the copy command is executed from the submenu: either
/// the hovered secret went to the clipboard and the copied notice is shown,
/// or the clipboard is unchanged and a write error is shown; nothing else
/// moves.
pub open spec fn copy_command_post(next: StateView, s: StateView) -> bool {
    match (next, s) {
        (
            StateView::MainScreen {
                clipboard: c2,
                accounts: a2,
                hovering: h2,
                selected_command: sc2,
                message: m2,
            },
            StateView::MainScreen {
                clipboard: c1,
                accounts: a1,
                hovering: h1,
                selected_command: sc1,
                message: m1,
            },
        ) => {
            &&& a2 == a1
            &&& h2 == h1
            &&& sc2 == sc1
            &&& {
                ||| (c2 == Some(a1[h1].password) && m2 == Some(MessageView::Info(copied_message())))
                ||| (c2 == c1 && (m2 matches Some(MessageView::Error(t)) && has_prefix(
                    t,
                    write_error_prefix(),
                )))
            }
        },
        _ => false,
    }
}

/// A locked state carrying an error built from a fixed prefix and a reason.
fn login_error_with(prefix: &str, reason: &str) -> (r: AppState)
    ensures
        r@ == (StateView::Login {
            psd: Seq::<char>::empty(),
            message: Some(MessageView::Error(prefix@ + reason@)),
        }),
{
    let mut text = prefix.to_string();
    text.append(reason);
    AppState::Login { psd: String::new(), message: Some(UserMessage::Error(text)) }
}

/// The state entered once credentials are loaded and the clipboard outcome
/// is known: unlocked over the credentials when a handle was acquired, and
/// locked again behind a clipboard error otherwise.
pub fn unlock_with(accounts: Vec<Account>, clip: Result<ClipboardHandle, String>) -> (r: AppState)
    ensures
        clip matches Ok(h) ==> r@ == (StateView::MainScreen {
            clipboard: h.written(),
            accounts: accounts_view(accounts@),
            hovering: 0,
            selected_command: None,
            message: None,
        }),
        clip matches Err(e) ==> r@ == (StateView::Login {
            psd: Seq::<char>::empty(),
            message: Some(MessageView::Error(clipboard_error_prefix() + e@)),
        }),
        state_wf(r@),
{
    match clip {
        Ok(h) => AppState::MainScreen {
            clipboard: h,
            accounts,
            hovering: 0,
            selected_command: None,
            message: None,
        },
        Err(e) => login_error_with("clipboard initialization failed: ", e.as_str()),
    }
}

/// Finishes an unlock attempt from the decryption outcome: on decrypted
/// text that decodes to records, acquires the clipboard and unlocks (or
/// reports the clipboard failure); on a decryption or record failure, locks
/// again with a cleared buffer and an inline error, allowing retry.
pub fn attempt_unlock(decrypted: Result<String, String>) -> (r: AppState)
    ensures
        (match decrypted {
            Err(e) => r@ == (StateView::Login {
                psd: Seq::<char>::empty(),
                message: Some(MessageView::Error(unlock_error_prefix() + e@)),
            }),
            Ok(pt) => match records_of(pt@) {
                None => r@ matches StateView::Login { psd, message } && psd
                    == Seq::<char>::empty() && (message matches Some(MessageView::Error(t))
                    && has_prefix(t, unlock_error_prefix())),
                Some(recs) => {
                    ||| (r@ matches StateView::MainScreen {
                        clipboard,
                        accounts,
                        hovering,
                        selected_command,
                        message,
                    } && clipboard is None && accounts_match_records(accounts, recs) && hovering
                        == 0 && selected_command is None && message is None)
                    ||| (r@ matches StateView::Login { psd, message } && psd
                        == Seq::<char>::empty() && (message matches Some(MessageView::Error(t))
                        && has_prefix(t, clipboard_error_prefix())))
                },
            },
        }),
        state_wf(r@),
{
    match decrypted {
        Err(e) => {
            let r = login_error_with("password likely incorrect: ", e.as_str());
            proof {
                lemma_prefix_of_concat(unlock_error_prefix(), e@);
            }
            r
        },
        Ok(pt) => match load_accounts(pt.as_str()) {
            Err(e) => {
                let r = login_error_with("password likely incorrect: ", e.as_str());
                proof {
                    lemma_prefix_of_concat(unlock_error_prefix(), e@);
                }
                r
            },
            Ok(accs) => {
                let clip = ClipboardHandle::acquire();
                proof {
                    match &clip {
                        Ok(_) => (),
                        Err(e) => lemma_prefix_of_concat(clipboard_error_prefix(), e@),
                    }
                }
                unlock_with(accs, clip)
            },
        },
    }
}

/// A fixed prefix is a prefix of anything it is concatenated onto.
proof fn lemma_prefix_of_concat(p: Seq<char>, rest: Seq<char>)
    ensures
        has_prefix(p + rest, p),
{
    assert((p + rest).subrange(0, p.len() as int) =~= p);
}

/// The transition function: total over every well-formed state and key.
/// All failures surface as messages in the returned state. A confirm in the
/// locked state hands back an `UnlockRequest`: the caller decrypts the vault
/// and feeds the outcome to `attempt_unlock` for the rest of that
/// transition; every other transition is completed here.
pub fn transition(state: AppState, key: KeyInput) -> (r: (AppState, Option<UnlockRequest>))
    requires
        state_wf(state@),
    ensures
        transition_view(state@, key) matches Some(sv) ==> r.0@ == sv,
        (match state@ {
            StateView::Login { psd, .. } => key is Confirm ==> (r.1 matches Some(req)
                && req.passphrase@ == psd && r.0@ == state@),
            _ => true,
        }),
        !(state@ is Login && key is Confirm) ==> r.1 is None,
        (state@ matches StateView::MainScreen { selected_command: None, accounts, .. } && key
            is QuickCopy && accounts.len() > 0) ==> quick_copy_post(r.0@, state@),
        (state@ matches StateView::MainScreen {
            selected_command: Some(AccountCommands::CopyPass),
            ..
        } && key is Confirm) ==> copy_command_post(r.0@, state@),
        state_wf(r.0@),
{
    match state {
        AppState::Login { psd, message } => match key {
            KeyInput::Char(c) => {
                let mut psd = psd;
                push_char(&mut psd, c);
                (AppState::Login { psd, message }, None)
            },
            KeyInput::Backspace => {
                let mut psd = psd;
                pop_char(&mut psd);
                (AppState::Login { psd, message }, None)
            },
            KeyInput::Confirm => {
                let passphrase = psd.clone();
                (AppState::Login { psd, message }, Some(UnlockRequest { passphrase }))
            },
            KeyInput::Cancel => (AppState::Exit, None),
            _ => (AppState::Login { psd, message }, None),
        },
        AppState::MainScreen { clipboard, accounts, hovering, selected_command, message } => match selected_command {
            None => match key {
                KeyInput::Confirm => {
                    if accounts.len() > 0 {
                        (
                            AppState::MainScreen {
                                clipboard,
                                accounts,
                                hovering,
                                selected_command: Some(AccountCommands::CopyPass),
                                message: None,
                            },
                            None,
                        )
                    } else {
                        (
                            AppState::MainScreen {
                                clipboard,
                                accounts,
                                hovering,
                                selected_command: None,
                                message: Some(
                                    UserMessage::Error("no credentials in the vault".to_string()),
                                ),
                            },
                            None,
                        )
                    }
                },
                KeyInput::Up => {
                    let len = accounts.len();
                    let hovering2: usize = if len == 0 {
                        hovering
                    } else if hovering == 0 {
                        len - 1
                    } else {
                        hovering - 1
                    };
                    (
                        AppState::MainScreen {
                            clipboard,
                            accounts,
                            hovering: hovering2,
                            selected_command: None,
                            message,
                        },
                        None,
                    )
                },
                KeyInput::Down => {
                    let len = accounts.len();
                    let hovering2: usize = if len == 0 {
                        hovering
                    } else if hovering + 1 == len {
                        0
                    } else {
                        hovering + 1
                    };
                    (
                        AppState::MainScreen {
                            clipboard,
                            accounts,
                            hovering: hovering2,
                            selected_command: None,
                            message,
                        },
                        None,
                    )
                },
                KeyInput::QuickCopy => {
                    if accounts.len() > 0 {
                        let (clip2, outcome) = accounts[hovering].copy_pass(clipboard);
                        let message2: Option<UserMessage> = match outcome {
                            Ok(_) => None,
                            Err(e) => {
                                proof {
                                    lemma_prefix_of_concat(write_error_prefix(), e@);
                                }
                                let mut text = "clipboard write failed: ".to_string();
                                text.append(e.as_str());
                                Some(UserMessage::Error(text))
                            },
                        };
                        (
                            AppState::MainScreen {
                                clipboard: clip2,
                                accounts,
                                hovering,
                                selected_command: None,
                                message: message2,
                            },
                            None,
                        )
                    } else {
                        (
                            AppState::MainScreen {
                                clipboard,
                                accounts,
                                hovering,
                                selected_command: None,
                                message: Some(
                                    UserMessage::Error("no credentials in the vault".to_string()),
                                ),
                            },
                            None,
                        )
                    }
                },
                KeyInput::Cancel => (AppState::Exit, None),
                _ => (
                    AppState::MainScreen {
                        clipboard,
                        accounts,
                        hovering,
                        selected_command: None,
                        message,
                    },
                    None,
                ),
            },
            Some(cmd) => match key {
                KeyInput::Confirm => match cmd {
                    AccountCommands::CopyPass => {
                        let (clip2, outcome) = accounts[hovering].copy_pass(clipboard);
                        let message2: Option<UserMessage> = match outcome {
                            Ok(_) => Some(
                                UserMessage::Info("copied password to clipboard".to_string()),
                            ),
                            Err(e) => {
                                proof {
                                    lemma_prefix_of_concat(write_error_prefix(), e@);
                                }
                                let mut text = "clipboard write failed: ".to_string();
                                text.append(e.as_str());
                                Some(UserMessage::Error(text))
                            },
                        };
                        (
                            AppState::MainScreen {
                                clipboard: clip2,
                                accounts,
                                hovering,
                                selected_command: Some(AccountCommands::CopyPass),
                                message: message2,
                            },
                            None,
                        )
                    },
                    AccountCommands::Edit => (
                        AppState::MainScreen {
                            clipboard,
                            accounts,
                            hovering,
                            selected_command: Some(AccountCommands::Edit),
                            message: Some(
                                UserMessage::Error(
                                    "Edit Account is not implemented yet".to_string(),
                                ),
                            ),
                        },
                        None,
                    ),
                    AccountCommands::Delete => (
                        AppState::MainScreen {
                            clipboard,
                            accounts,
                            hovering,
                            selected_command: Some(AccountCommands::Delete),
                            message: Some(
                                UserMessage::Error(
                                    "Delete Account is not implemented yet".to_string(),
                                ),
                            ),
                        },
                        None,
                    ),
                },
                KeyInput::Up => (
                    AppState::MainScreen {
                        clipboard,
                        accounts,
                        hovering,
                        selected_command: Some(prev_command(cmd)),
                        message: None,
                    },
                    None,
                ),
                KeyInput::Down => (
                    AppState::MainScreen {
                        clipboard,
                        accounts,
                        hovering,
                        selected_command: Some(next_command(cmd)),
                        message: None,
                    },
                    None,
                ),
                KeyInput::Cancel => (
                    AppState::MainScreen {
                        clipboard,
                        accounts,
                        hovering,
                        selected_command: None,
                        message: None,
                    },
                    None,
                ),
                _ => (
                    AppState::MainScreen {
                        clipboard,
                        accounts,
                        hovering,
                        selected_command: Some(cmd),
                        message: None,
                    },
                    None,
                ),
            },
        },
        AppState::Exit => (AppState::Exit, None),
    }
}

/// Navigation stays in bounds: from any valid hovered index, one step in
/// either direction lands on a valid index again.
pub proof fn lemma_nav_in_bounds(hovering: int, len: int)
    requires
        0 <= hovering < len,
    ensures
        0 <= nav_up_spec(hovering, len) < len,
        0 <= nav_down_spec(hovering, len) < len,
{
}

/// Navigation wraps around: up from the first credential reaches the last,
/// and down from the last reaches the first.
pub proof fn lemma_nav_wraps(len: int)
    requires
        len > 0,
    ensures
        nav_up_spec(0, len) == len - 1,
        nav_down_spec(len - 1, len) == 0,
{
}

/// Cycling the submenu selection in one direction visits all three commands
/// and returns to the starting command after exactly three presses; the two
/// directions are inverse to each other.
pub proof fn lemma_command_cycle(c: AccountCommands)
    ensures
        next_command_spec(next_command_spec(next_command_spec(c))) == c,
        prev_command_spec(prev_command_spec(prev_command_spec(c))) == c,
        next_command_spec(c) != c,
        next_command_spec(next_command_spec(c)) != c,
        next_command_spec(next_command_spec(c)) != next_command_spec(c),
        prev_command_spec(next_command_spec(c)) == c,
        next_command_spec(prev_command_spec(c)) == c,
{
}

/// Every transition that stays inside the machine preserves
/// well-formedness.
pub proof fn lemma_transition_preserves_wf(s: StateView, key: KeyInput)
    requires
        state_wf(s),
    ensures
        transition_view(s, key) matches Some(t) ==> state_wf(t),
{
}

/// From any non-terminal well-formed state, at most two cancel presses
/// reach the terminal state.
pub proof fn lemma_cancel_reaches_exit(s: StateView)
    requires
        state_wf(s),
        !(s is Exit),
    ensures
        ({
            let s1 = transition_view(s, KeyInput::Cancel);
            s1 == Some(StateView::Exit) || (s1 matches Some(t) && transition_view(
                t,
                KeyInput::Cancel,
            ) == Some(StateView::Exit))
        }),
{
}

/// The terminal state absorbs every input: no transition leaves it.
pub proof fn lemma_exit_absorbing(key: KeyInput)
    ensures
        transition_view(StateView::Exit, key) == Some(StateView::Exit),
{
}

/// The state after a whole sequence of key presses, as long as none of them
/// touches the outside world.
pub open spec fn run_view(s: StateView, keys: Seq<KeyInput>) -> Option<StateView>
    decreases keys.len(),
{
    if keys.len() == 0 {
        Some(s)
    } else {
        match transition_view(s, keys[0]) {
            None => None,
            Some(t) => run_view(t, keys.skip(1)),
        }
    }
}

/// Whether a state is browsing the given credentials: unlocked, no submenu
/// open, hovered index in bounds.
pub open spec fn browsing_over(s: StateView, accounts: Seq<AccountV>) -> bool {
    s matches StateView::MainScreen {
        accounts: a,
        hovering,
        selected_command: None,
        ..
    } && a == accounts && 0 <= hovering < accounts.len()
}

/// For every sequence of up and down presses in browsing mode over a
/// non-empty vault, the machine keeps browsing the same credentials and the
/// hovered index stays within bounds at every step.
pub proof fn lemma_navigation_stays_in_bounds(s: StateView, accounts: Seq<AccountV>, keys: Seq<KeyInput>)
    requires
        browsing_over(s, accounts),
        accounts.len() > 0,
        forall|i: int|
            0 <= i < keys.len() ==> (#[trigger] keys[i]) == KeyInput::Up || keys[i]
                == KeyInput::Down,
    ensures
        run_view(s, keys) matches Some(t) && browsing_over(t, accounts),
    decreases keys.len(),
{
    if keys.len() > 0 {
        let t = transition_view(s, keys[0]).unwrap();
        lemma_navigation_stays_in_bounds(t, accounts, keys.skip(1));
    }
}

/// Pressing down three times in the submenu returns to the very state it
/// started from, provided no message was showing: the cycle visits all
/// three commands and closes.
pub proof fn lemma_submenu_cycle_closes(s: StateView)
    requires
        s matches StateView::MainScreen { selected_command: Some(_), message: None, .. },
    ensures
        run_view(s, seq![KeyInput::Down, KeyInput::Down, KeyInput::Down]) == Some(s),
        run_view(s, seq![KeyInput::Up, KeyInput::Up, KeyInput::Up]) == Some(s),
{
    reveal_with_fuel(run_view, 5);
    let downs = seq![KeyInput::Down, KeyInput::Down, KeyInput::Down];
    let ups = seq![KeyInput::Up, KeyInput::Up, KeyInput::Up];
    assert(downs.skip(1) =~= seq![KeyInput::Down, KeyInput::Down]);
    assert(downs.skip(1).skip(1) =~= seq![KeyInput::Down]);
    assert(downs.skip(1).skip(1).skip(1) =~= Seq::<KeyInput>::empty());
    assert(ups.skip(1) =~= seq![KeyInput::Up, KeyInput::Up]);
    assert(ups.skip(1).skip(1) =~= seq![KeyInput::Up]);
    assert(ups.skip(1).skip(1).skip(1) =~= Seq::<KeyInput>::empty());
}

} // verus!
