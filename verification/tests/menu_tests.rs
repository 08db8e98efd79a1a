use txrp::menu::{
    create_answer_transition, import_answer_transition, start, step, view_answer_transition, MenuEvent,
    MenuOutput, MenuState,
};

fn line(s: &str) -> MenuEvent {
    MenuEvent::Line(s.to_string())
}

fn prints(outputs: &[MenuOutput]) -> Vec<String> {
    outputs.iter().filter_map(|o| match o { MenuOutput::Print(t) => Some(t.clone()), _ => None }).collect()
}

fn last_is_read_line(outputs: &[MenuOutput]) -> bool {
    matches!(outputs.last(), Some(MenuOutput::ReadLine))
}

#[test]
fn start_shows_home_menu() {
    let (state, outputs) = start();
    assert!(matches!(state, MenuState::Home));
    assert!(matches!(outputs[0], MenuOutput::ClearScreen));
    assert_eq!(prints(&outputs)[0], "Welcome to TXRP - Rusty edition! v1.0");
    assert_eq!(prints(&outputs).len(), 9);
    assert!(last_is_read_line(&outputs));
}

#[test]
fn home_b_exits_and_unknown_retries() {
    let (state, outputs) = step(MenuState::Home, line("b\n"));
    assert!(matches!(state, MenuState::Exited));
    assert!(matches!(outputs.as_slice(), [MenuOutput::Exit]));
    let (state, outputs) = step(MenuState::Home, line("9\n"));
    assert!(matches!(state, MenuState::Home));
    assert_eq!(prints(&outputs)[0], "Try again");
    let (state, _) = step(MenuState::Home, line("B\n"));
    assert!(matches!(state, MenuState::Home));
}

#[test]
fn create_wallet_with_matching_passwords() {
    let (state, outputs) = step(MenuState::Home, line(" 1 \n"));
    assert!(matches!(state, MenuState::CreateName));
    assert_eq!(prints(&outputs), vec!["Choose a name for the wallet. Enter b or h to go back."]);
    let (state, _) = step(state, line("My Wallet\n"));
    assert!(matches!(&state, MenuState::CreateEncryptChoice { name } if name == "My Wallet"));
    let (state, _) = step(state, line("Y\n"));
    assert!(matches!(state, MenuState::CreatePassword { .. }));
    let (state, outputs) = step(state, line("secret\n"));
    assert_eq!(prints(&outputs), vec!["Confirm your password by entering it again."]);
    let (state, outputs) = step(state, line("secret \n"));
    assert!(matches!(state, MenuState::Home));
    match &outputs[0] {
        MenuOutput::CreateWallet { name, password, announce } => {
            assert_eq!(name, "My Wallet");
            assert_eq!(password.as_deref(), Some("secret \n"));
            assert!(!announce);
        }
        other => panic!("unexpected {:?}", other),
    }
}

#[test]
fn create_wallet_with_mismatched_passwords_asks_again() {
    let state = MenuState::CreatePasswordConfirm { name: "n".to_string(), password: "one\n".to_string() };
    let (state, outputs) = step(state, line("two\n"));
    assert!(matches!(state, MenuState::CreatePassword { .. }));
    assert_eq!(prints(&outputs)[0], "Passwords don't match. Try again.");
    assert!(!outputs.iter().any(|o| matches!(o, MenuOutput::CreateWallet { .. })));
}

#[test]
fn create_wallet_without_password_announces() {
    let state = MenuState::CreateEncryptChoice { name: "n".to_string() };
    let (state, outputs) = step(state, line("n\n"));
    assert!(matches!(state, MenuState::CreateAnnounced));
    assert!(matches!(&outputs[0], MenuOutput::CreateWallet { password: None, announce: true, .. }));
    assert!(last_is_read_line(&outputs));
    let (state, _) = step(state, line("\n"));
    assert!(matches!(state, MenuState::Home));
}

#[test]
fn view_wallets_checks_the_number() {
    let (state, outputs) = step(MenuState::Home, line("2\n"));
    assert!(matches!(state, MenuState::ViewWallets));
    assert!(matches!(outputs.last(), Some(MenuOutput::ListWallets)));
    let (state, outputs) = step(state, MenuEvent::WalletsListed(2));
    assert!(matches!(state, MenuState::ViewWalletsListed { count: 2 }));
    assert!(last_is_read_line(&outputs));
    let (state2, outputs) = step(state, line("5\n"));
    assert!(matches!(state2, MenuState::ViewWallets));
    assert_eq!(prints(&outputs)[0], "Error: Number entered is larger than any wallet ID. Try again.");
    let (_, outputs) = step(MenuState::ViewWalletsListed { count: 2 }, line("x\n"));
    assert_eq!(prints(&outputs)[0], "The input didn't parse into a number or menu action. Try again.");
    let (state, _) = step(MenuState::ViewWalletsListed { count: 2 }, line("H\n"));
    assert!(matches!(state, MenuState::Home));
}

#[test]
fn import_wallet_from_seed() {
    let (state, _) = step(MenuState::ImportChoice, line("1\n"));
    assert!(matches!(state, MenuState::ImportSeed));
    let (state, outputs) = step(state, line("snoPBrXtMeMyMHUVTgbuqAfg1SUTb\n"));
    assert_eq!(prints(&outputs), vec![
        "Attempting to create a wallet from this seed phrase.",
        "Enter a name for this wallet. Enter b to go back, h to go home.",
    ]);
    assert!(matches!(&state, MenuState::ImportName { address, .. } if address == "rHb9CJAWyB4rj91VRWn96DkukG4bwdtyTh"));
    let (state, _) = step(state, line("Genesis\n"));
    let (state, outputs) = step(state, line("n\n"));
    assert!(matches!(state, MenuState::ImportDone));
    assert!(matches!(&outputs[0], MenuOutput::StoreImportedWallet { password: None, .. }));
    assert_eq!(prints(&outputs), vec!["Wallet Genesis (rHb9CJAWyB4rj91VRWn96DkukG4bwdtyTh) inserted into database. Press enter to go back home."]);
}

#[test]
fn import_refuses_invalid_seed_and_takes_password() {
    let (state, outputs) = step(MenuState::ImportSeed, line("nonsense\n"));
    assert!(matches!(state, MenuState::ImportSeedRejected));
    assert_eq!(prints(&outputs)[1], "This seed phrase doesn't correlate to a valid wallet.\nPress enter to continue.");
    let (state, _) = step(state, line("\n"));
    assert!(matches!(state, MenuState::ImportSeed));
    let state = MenuState::ImportPassword { name: "g".to_string(), seed: "s".to_string(), address: "r".to_string() };
    let (state, outputs) = step(state, line(" pw \n"));
    assert!(matches!(state, MenuState::ImportDone));
    assert!(matches!(&outputs[0], MenuOutput::StoreImportedWallet { password: Some(p), .. } if p == "pw"));
    assert_eq!(prints(&outputs), vec!["Wallet g (r) imported! Press enter go go back home."]);
}

#[test]
fn every_answer_hands_control_back() {
    let answers = ["1\n", "w\n", "x\n", "b\n", "h\n", "3\n", "2\n", "b\n", "3\n", "1\n", "h\n", "1\n", "n1\n", "y\n", "a\n", "b\n"];
    let (mut state, mut outputs) = start();
    for answer in answers {
        match outputs.last() {
            Some(MenuOutput::ReadLine) => {}
            Some(MenuOutput::ListWallets) => {
                let next = step(state, MenuEvent::WalletsListed(0));
                state = next.0;
                outputs = next.1;
                assert!(last_is_read_line(&outputs));
            }
            other => panic!("menu stopped with {:?}", other),
        }
        let next = step(state, line(answer));
        state = next.0;
        outputs = next.1;
        assert!(!outputs.iter().any(|o| matches!(o, MenuOutput::Exit)) || matches!(state, MenuState::Exited));
    }
    assert!(matches!(outputs.last(), Some(MenuOutput::ReadLine)));
}

#[test]
fn answers_given_their_lower_case() {
    let (state, _) = create_answer_transition(MenuState::CreateEncryptChoice { name: "w".to_string() }, "Y\n", "y");
    assert!(matches!(&state, MenuState::CreatePassword { name } if name == "w"));
    let (state, outputs) = create_answer_transition(MenuState::CreateEncryptChoice { name: "w".to_string() }, "N\n", "n");
    assert!(matches!(state, MenuState::CreateAnnounced));
    assert!(matches!(&outputs[0], MenuOutput::CreateWallet { password: None, announce: true, .. }));
    let (state, _) = view_answer_transition(2, "1");
    assert!(matches!(state, MenuState::ViewWallets));
    let (state, outputs) = view_answer_transition(2, "5");
    assert!(matches!(state, MenuState::ViewWallets));
    assert_eq!(prints(&outputs)[0], "Error: Number entered is larger than any wallet ID. Try again.");
    let (state, _) = view_answer_transition(2, "h");
    assert!(matches!(state, MenuState::Home));
    let (state, _) = import_answer_transition(MenuState::ImportChoice, " 1\n", "1");
    assert!(matches!(state, MenuState::ImportSeed));
}
