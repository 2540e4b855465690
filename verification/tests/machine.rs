use rsd_tui::account::{Account, JsonAccount};
use rsd_tui::clipboard::ClipboardHandle;
use rsd_tui::machine::{next_command, prev_command, transition, KeyInput};
use rsd_tui::state::{is_wf, AccountCommands, AppState, UserMessage};

fn account(name: &str, password: &str) -> Account {
    Account::from(JsonAccount { Name: name.to_string(), Password: password.to_string() })
}

fn browsing(names: &[(&str, &str)], hovering: usize) -> AppState {
    let accounts: Vec<Account> = names.iter().map(|(n, p)| account(n, p)).collect();
    AppState::MainScreen {
        clipboard: ClipboardHandle::buffered(),
        accounts,
        hovering,
        selected_command: None,
        message: None,
    }
}

fn submenu(names: &[(&str, &str)], hovering: usize, cmd: AccountCommands) -> AppState {
    let accounts: Vec<Account> = names.iter().map(|(n, p)| account(n, p)).collect();
    AppState::MainScreen {
        clipboard: ClipboardHandle::buffered(),
        accounts,
        hovering,
        selected_command: Some(cmd),
        message: None,
    }
}

const THREE: [(&str, &str); 3] = [("a", "pa"), ("b", "pb"), ("c", "pc")];

fn hovering_of(state: &AppState) -> usize {
    match state {
        AppState::MainScreen { hovering, .. } => *hovering,
        _ => panic!("expected the unlocked state"),
    }
}

#[test]
fn navigation_stays_in_bounds() {
    let presses = [
        KeyInput::Up,
        KeyInput::Up,
        KeyInput::Down,
        KeyInput::Up,
        KeyInput::Down,
        KeyInput::Down,
        KeyInput::Down,
        KeyInput::Up,
        KeyInput::Down,
        KeyInput::Down,
    ];
    let mut state = browsing(&THREE, 0);
    for key in presses {
        let (next, req) = transition(state, key);
        assert!(req.is_none());
        assert!(hovering_of(&next) < 3);
        state = next;
    }
}

#[test]
fn navigation_wraps_up_from_first() {
    let (next, _) = transition(browsing(&THREE, 0), KeyInput::Up);
    assert_eq!(hovering_of(&next), 2);
}

#[test]
fn navigation_wraps_down_from_last() {
    let (next, _) = transition(browsing(&THREE, 2), KeyInput::Down);
    assert_eq!(hovering_of(&next), 0);
}

#[test]
fn navigation_steps_without_wrap() {
    let (next, _) = transition(browsing(&THREE, 1), KeyInput::Up);
    assert_eq!(hovering_of(&next), 0);
    let (next, _) = transition(browsing(&THREE, 1), KeyInput::Down);
    assert_eq!(hovering_of(&next), 2);
}

#[test]
fn command_cycle_returns_after_three() {
    for start in [AccountCommands::CopyPass, AccountCommands::Edit, AccountCommands::Delete] {
        let one = next_command(start);
        let two = next_command(one);
        let three = next_command(two);
        assert_ne!(one, start);
        assert_ne!(two, start);
        assert_ne!(two, one);
        assert_eq!(three, start);
        let back = prev_command(prev_command(prev_command(start)));
        assert_eq!(back, start);
        assert_eq!(prev_command(next_command(start)), start);
    }
}

#[test]
fn submenu_cycles_through_states() {
    let mut state = submenu(&THREE, 0, AccountCommands::CopyPass);
    let mut seen: Vec<AccountCommands> = Vec::new();
    for _ in 0..3 {
        let (next, _) = transition(state, KeyInput::Down);
        match &next {
            AppState::MainScreen { selected_command: Some(cmd), .. } => seen.push(*cmd),
            _ => panic!("expected the submenu to stay open"),
        }
        state = next;
    }
    assert_eq!(
        seen,
        vec![AccountCommands::Edit, AccountCommands::Delete, AccountCommands::CopyPass]
    );
}

#[test]
fn confirm_enters_submenu_at_copy() {
    let (next, _) = transition(browsing(&THREE, 1), KeyInput::Confirm);
    match next {
        AppState::MainScreen { selected_command, hovering, message, .. } => {
            assert!(matches!(selected_command, Some(AccountCommands::CopyPass)));
            assert_eq!(hovering, 1);
            assert!(message.is_none());
        },
        _ => panic!("expected the unlocked state"),
    }
}

#[test]
fn cancel_leaves_submenu_for_browsing() {
    let (next, _) = transition(submenu(&THREE, 0, AccountCommands::Edit), KeyInput::Cancel);
    match next {
        AppState::MainScreen { selected_command, message, .. } => {
            assert!(selected_command.is_none());
            assert!(message.is_none());
        },
        _ => panic!("expected the unlocked state"),
    }
}

#[test]
fn cancel_terminates_from_login_and_browsing() {
    let (next, _) = transition(AppState::default(), KeyInput::Cancel);
    assert!(matches!(next, AppState::Exit));
    let (next, _) = transition(browsing(&THREE, 0), KeyInput::Cancel);
    assert!(matches!(next, AppState::Exit));
}

#[test]
fn repeated_cancel_reaches_exit_from_submenu() {
    let (one, _) = transition(submenu(&THREE, 2, AccountCommands::Delete), KeyInput::Cancel);
    let (two, _) = transition(one, KeyInput::Cancel);
    assert!(matches!(two, AppState::Exit));
}

#[test]
fn exit_absorbs_every_input() {
    for key in [
        KeyInput::Char('x'),
        KeyInput::Backspace,
        KeyInput::Confirm,
        KeyInput::Cancel,
        KeyInput::Up,
        KeyInput::Down,
        KeyInput::QuickCopy,
        KeyInput::Other,
    ] {
        let (next, req) = transition(AppState::Exit, key);
        assert!(matches!(next, AppState::Exit));
        assert!(req.is_none());
    }
}

#[test]
fn copy_command_fills_clipboard_and_reports() {
    let state = submenu(&[("github", "s3cr3t")], 0, AccountCommands::CopyPass);
    let (next, _) = transition(state, KeyInput::Confirm);
    match next {
        AppState::MainScreen { clipboard, message, selected_command, .. } => {
            assert_eq!(clipboard.last_written().map(|s| s.as_str()), Some("s3cr3t"));
            match message {
                Some(UserMessage::Info(text)) => {
                    assert_eq!(text, "copied password to clipboard");
                },
                _ => panic!("expected the copied notice"),
            }
            assert!(matches!(selected_command, Some(AccountCommands::CopyPass)));
        },
        _ => panic!("expected the unlocked state"),
    }
}

#[test]
fn quick_copy_fills_clipboard_and_clears_message() {
    let state = browsing(&THREE, 1);
    let (next, _) = transition(state, KeyInput::QuickCopy);
    match next {
        AppState::MainScreen { clipboard, message, .. } => {
            assert_eq!(clipboard.last_written().map(|s| s.as_str()), Some("pb"));
            assert!(message.is_none());
        },
        _ => panic!("expected the unlocked state"),
    }
}

#[test]
fn edit_and_delete_are_stubs() {
    let (next, _) = transition(submenu(&THREE, 0, AccountCommands::Edit), KeyInput::Confirm);
    match next {
        AppState::MainScreen { message: Some(UserMessage::Error(text)), .. } => {
            assert_eq!(text, "Edit Account is not implemented yet");
        },
        _ => panic!("expected an error message"),
    }
    let (next, _) = transition(submenu(&THREE, 0, AccountCommands::Delete), KeyInput::Confirm);
    match next {
        AppState::MainScreen { message: Some(UserMessage::Error(text)), .. } => {
            assert_eq!(text, "Delete Account is not implemented yet");
        },
        _ => panic!("expected an error message"),
    }
}

#[test]
fn typing_builds_and_backspace_trims_the_buffer() {
    let mut state = AppState::default();
    for c in ['h', 'u', 'n', 't'] {
        let (next, _) = transition(state, KeyInput::Char(c));
        state = next;
    }
    let (state, _) = transition(state, KeyInput::Backspace);
    match &state {
        AppState::Login { psd, .. } => assert_eq!(psd.as_str(), "hun"),
        _ => panic!("expected the locked state"),
    }
}

#[test]
fn backspace_on_empty_buffer_is_a_no_op() {
    let (state, _) = transition(AppState::default(), KeyInput::Backspace);
    match &state {
        AppState::Login { psd, .. } => assert_eq!(psd.as_str(), ""),
        _ => panic!("expected the locked state"),
    }
}

#[test]
fn confirm_in_login_hands_out_the_passphrase() {
    let mut state = AppState::default();
    for c in ['a', 'b', 'c'] {
        let (next, _) = transition(state, KeyInput::Char(c));
        state = next;
    }
    let (state, req) = transition(state, KeyInput::Confirm);
    let req = req.expect("expected an unlock request");
    assert_eq!(req.passphrase, "abc");
    match &state {
        AppState::Login { psd, .. } => assert_eq!(psd.as_str(), "abc"),
        _ => panic!("expected the locked state"),
    }
}

#[test]
fn empty_vault_disables_navigation_and_copy() {
    let empty: [(&str, &str); 0] = [];
    let (next, _) = transition(browsing(&empty, 0), KeyInput::Up);
    assert_eq!(hovering_of(&next), 0);
    let (next, _) = transition(browsing(&empty, 0), KeyInput::Down);
    assert_eq!(hovering_of(&next), 0);
    let (next, _) = transition(browsing(&empty, 0), KeyInput::QuickCopy);
    match next {
        AppState::MainScreen { message: Some(UserMessage::Error(text)), selected_command, .. } => {
            assert_eq!(text, "no credentials in the vault");
            assert!(selected_command.is_none());
        },
        _ => panic!("expected an error message"),
    }
    let (next, _) = transition(browsing(&empty, 0), KeyInput::Confirm);
    match next {
        AppState::MainScreen { selected_command, .. } => assert!(selected_command.is_none()),
        _ => panic!("expected the unlocked state"),
    }
}

#[test]
fn other_keys_leave_browsing_unchanged() {
    let (next, _) = transition(browsing(&THREE, 1), KeyInput::Char('q'));
    assert_eq!(hovering_of(&next), 1);
    let (next, _) = transition(browsing(&THREE, 1), KeyInput::Other);
    assert_eq!(hovering_of(&next), 1);
}

#[test]
fn other_keys_clear_the_submenu_message() {
    let (with_message, _) =
        transition(submenu(&THREE, 0, AccountCommands::Edit), KeyInput::Confirm);
    let (next, _) = transition(with_message, KeyInput::Other);
    match next {
        AppState::MainScreen { message, selected_command, .. } => {
            assert!(message.is_none());
            assert!(matches!(selected_command, Some(AccountCommands::Edit)));
        },
        _ => panic!("expected the unlocked state"),
    }
}

#[test]
fn command_labels_are_fixed() {
    assert_eq!(AccountCommands::CopyPass.label(), "Copy Password");
    assert_eq!(AccountCommands::Edit.label(), "Edit Account");
    assert_eq!(AccountCommands::Delete.label(), "Delete Account");
}

#[test]
fn well_formedness_is_decided() {
    assert!(is_wf(&AppState::default()));
    assert!(is_wf(&AppState::Exit));
    assert!(is_wf(&browsing(&THREE, 2)));
    assert!(!is_wf(&browsing(&THREE, 3)));
    let empty: [(&str, &str); 0] = [];
    assert!(is_wf(&browsing(&empty, 0)));
    assert!(!is_wf(&browsing(&empty, 1)));
    assert!(!is_wf(&submenu(&empty, 0, AccountCommands::CopyPass)));
}
