//! The terminal menu as a state machine: each typed line (or the number of
//! wallets listed) moves the menu to its next screen and yields what the
//! terminal must do: clear, print, read a line, list or store wallets, exit.

use vstd::prelude::*;
use crate::keys::seed_address;
use crate::text::{lowercase, parse_usize, parsed_usize, str_eq, to_lowercase, trim, trimmed};
use crate::wallet::{TXRPWallet, text_of};

verus! {

/// Where the menu stands: the question it has asked, with what it has
/// gathered so far.
#[derive(Debug)]
pub enum MenuState {
    /// The main menu.
    Home,
    /// Asked for the name of a new wallet.
    CreateName,
    /// Asked whether to encrypt the new wallet `name`.
    CreateEncryptChoice { name: String },
    /// Asked for a password for the new wallet `name`.
    CreatePassword { name: String },
    /// Asked to repeat the password `password` (the line as typed).
    CreatePasswordConfirm { name: String, password: String },
    /// Showed the created wallet; waiting for enter.
    CreateAnnounced,
    /// Asked for a wallet; waiting for the listing of the stored wallets.
    ViewWallets,
    /// Listed `count` wallets; waiting for a wallet number.
    ViewWalletsListed { count: usize },
    /// Asked how to import a wallet.
    ImportChoice,
    /// Asked for the family seed to import.
    ImportSeed,
    /// Refused a seed; waiting for enter.
    ImportSeedRejected,
    /// Accepted `seed` (of `address`); asked for a name.
    ImportName { seed: String, address: String },
    /// Asked whether to encrypt the imported wallet.
    ImportEncryptChoice { name: String, seed: String, address: String },
    /// Asked for the password of the imported wallet.
    ImportPassword { name: String, seed: String, address: String },
    /// Stored the imported wallet; waiting for enter.
    ImportDone,
    /// The program ends.
    Exited,
}

/// The contents of a menu state.
pub enum MenuStateView {
    Home,
    CreateName,
    CreateEncryptChoice { name: Seq<char> },
    CreatePassword { name: Seq<char> },
    CreatePasswordConfirm { name: Seq<char>, password: Seq<char> },
    CreateAnnounced,
    ViewWallets,
    ViewWalletsListed { count: usize },
    ImportChoice,
    ImportSeed,
    ImportSeedRejected,
    ImportName { seed: Seq<char>, address: Seq<char> },
    ImportEncryptChoice { name: Seq<char>, seed: Seq<char>, address: Seq<char> },
    ImportPassword { name: Seq<char>, seed: Seq<char>, address: Seq<char> },
    ImportDone,
    Exited,
}

impl View for MenuState {
    type V = MenuStateView;

    open spec fn view(&self) -> MenuStateView {
        match self {
            MenuState::Home => MenuStateView::Home,
            MenuState::CreateName => MenuStateView::CreateName,
            MenuState::CreateEncryptChoice { name } => MenuStateView::CreateEncryptChoice { name: name@ },
            MenuState::CreatePassword { name } => MenuStateView::CreatePassword { name: name@ },
            MenuState::CreatePasswordConfirm { name, password } => MenuStateView::CreatePasswordConfirm {
                name: name@,
                password: password@,
            },
            MenuState::CreateAnnounced => MenuStateView::CreateAnnounced,
            MenuState::ViewWallets => MenuStateView::ViewWallets,
            MenuState::ViewWalletsListed { count } => MenuStateView::ViewWalletsListed { count: *count },
            MenuState::ImportChoice => MenuStateView::ImportChoice,
            MenuState::ImportSeed => MenuStateView::ImportSeed,
            MenuState::ImportSeedRejected => MenuStateView::ImportSeedRejected,
            MenuState::ImportName { seed, address } => MenuStateView::ImportName { seed: seed@, address: address@ },
            MenuState::ImportEncryptChoice { name, seed, address } => MenuStateView::ImportEncryptChoice {
                name: name@,
                seed: seed@,
                address: address@,
            },
            MenuState::ImportPassword { name, seed, address } => MenuStateView::ImportPassword {
                name: name@,
                seed: seed@,
                address: address@,
            },
            MenuState::ImportDone => MenuStateView::ImportDone,
            MenuState::Exited => MenuStateView::Exited,
        }
    }
}

/// What the menu hands the terminal.
#[derive(Debug)]
pub enum MenuEvent {
    /// A line the user typed, as read (with its line end).
    Line(String),
    /// The number of wallets just listed.
    WalletsListed(usize),
}

/// The contents of a menu event.
pub enum MenuEventView {
    Line(Seq<char>),
    WalletsListed(usize),
}

impl View for MenuEvent {
    type V = MenuEventView;

    open spec fn view(&self) -> MenuEventView {
        match self {
            MenuEvent::Line(l) => MenuEventView::Line(l@),
            MenuEvent::WalletsListed(n) => MenuEventView::WalletsListed(*n),
        }
    }
}

/// What the terminal must do for the menu.
#[derive(Debug)]
pub enum MenuOutput {
    /// Clear the screen.
    ClearScreen,
    /// Print a line.
    Print(String),
    /// Read a line and hand it back as `MenuEvent::Line`.
    ReadLine,
    /// List the stored wallets with their numbers and hand back how many
    /// there are as `MenuEvent::WalletsListed`.
    ListWallets,
    /// Create a wallet from a fresh mnemonic and store it; where `announce`
    /// holds, show its name, mnemonic, seed and address.
    CreateWallet { name: String, password: Option<String>, announce: bool },
    /// Make the wallet of a family seed and store it.
    StoreImportedWallet { name: String, seed: String, password: Option<String> },
    /// End the program.
    Exit,
}

/// The contents of a menu output.
pub enum MenuOutputView {
    ClearScreen,
    Print(Seq<char>),
    ReadLine,
    ListWallets,
    CreateWallet { name: Seq<char>, password: Option<Seq<char>>, announce: bool },
    StoreImportedWallet { name: Seq<char>, seed: Seq<char>, password: Option<Seq<char>> },
    Exit,
}

impl View for MenuOutput {
    type V = MenuOutputView;

    open spec fn view(&self) -> MenuOutputView {
        match self {
            MenuOutput::ClearScreen => MenuOutputView::ClearScreen,
            MenuOutput::Print(t) => MenuOutputView::Print(t@),
            MenuOutput::ReadLine => MenuOutputView::ReadLine,
            MenuOutput::ListWallets => MenuOutputView::ListWallets,
            MenuOutput::CreateWallet { name, password, announce } => MenuOutputView::CreateWallet {
                name: name@,
                password: text_of(*password),
                announce: *announce,
            },
            MenuOutput::StoreImportedWallet { name, seed, password } => MenuOutputView::StoreImportedWallet {
                name: name@,
                seed: seed@,
                password: text_of(*password),
            },
            MenuOutput::Exit => MenuOutputView::Exit,
        }
    }
}

/// The contents of a list of outputs.
pub open spec fn outputs_view(outputs: Seq<MenuOutput>) -> Seq<MenuOutputView> {
    outputs.map_values(|o: MenuOutput| o@)
}

/// A printed line.
pub open spec fn say(text: Seq<char>) -> MenuOutputView {
    MenuOutputView::Print(text)
}

/// What the terminal does on arriving at a question: the question itself
/// (after clearing the screen where the menu does) and reading the answer.
/// Questions that only a particular answer leads to are asked by that
/// transition, and have nothing here.
pub open spec fn prompt(state: MenuStateView) -> Seq<MenuOutputView> {
    match state {
        MenuStateView::Home => seq![
            MenuOutputView::ClearScreen,
            say("Welcome to TXRP - Rusty edition! v1.0"@),
            say("What do you want to do?"@),
            say("1. Create a wallet"@),
            say("2. View and transact with existing wallets"@),
            say("3. Import wallet via family seed or mnemonic"@),
            say("4. Delete a wallet"@),
            say("5. Options"@),
            say("6. Support the project"@),
            say("b. Exit"@),
            MenuOutputView::ReadLine,
        ],
        MenuStateView::CreateName => seq![
            say("Choose a name for the wallet. Enter b or h to go back."@),
            MenuOutputView::ReadLine,
        ],
        MenuStateView::CreateEncryptChoice { .. } => seq![
            say("Do you want to encrypt the wallet's mnemonics and seed with a password?"@),
            say("Enter y or n. Enter b to go back or h to go home."@),
            MenuOutputView::ReadLine,
        ],
        MenuStateView::CreatePassword { .. } => seq![
            MenuOutputView::ClearScreen,
            say("Create a password to encrypt the wallet's mnemonics and seed. Enter b to go back or h to go to the home menu."@),
            MenuOutputView::ReadLine,
        ],
        MenuStateView::ViewWallets => seq![
            say("Select a wallet ID. Enter b or h to go back home."@),
            MenuOutputView::ListWallets,
        ],
        MenuStateView::ImportChoice => seq![
            MenuOutputView::ClearScreen,
            say("How do you want to import your wallet?"@),
            say("1. family seed"@),
            say("2. 12 word seed phrase/mnemonic"@),
            say("b. Back"@),
            MenuOutputView::ReadLine,
        ],
        MenuStateView::ImportSeed => seq![
            MenuOutputView::ClearScreen,
            say("Enter your XRP wallet's family seed. Enter b to go back, h to go home."@),
            MenuOutputView::ReadLine,
        ],
        MenuStateView::ImportEncryptChoice { .. } => seq![
            MenuOutputView::ClearScreen,
            say("Will this wallet use encryption? Enter y or n. Enter b to go back, h to go home."@),
            MenuOutputView::ReadLine,
        ],
        MenuStateView::ImportPassword { .. } => seq![
            MenuOutputView::ClearScreen,
            say("Choose a password to encrypt the wallet's sensitive info. Enter b to go back, h to go home."@),
            MenuOutputView::ReadLine,
        ],
        _ => seq![],
    }
}

/// Move to `next`: the outputs `before`, then `next`'s question.
pub open spec fn go(next: MenuStateView, before: Seq<MenuOutputView>) -> (MenuStateView, Seq<MenuOutputView>) {
    (next, before + prompt(next))
}

/// Stay at `next` after the outputs `outputs`, which ask the question.
pub open spec fn ask(next: MenuStateView, outputs: Seq<MenuOutputView>) -> (MenuStateView, Seq<MenuOutputView>) {
    (next, outputs)
}

/// The answer `line` equals one of two texts.
pub open spec fn is_either(line: Seq<char>, a: Seq<char>, b: Seq<char>) -> bool {
    line == a || line == b
}

/// The transition of the main menu on the typed `line`.
pub open spec fn home_step(line: Seq<char>) -> (MenuStateView, Seq<MenuOutputView>) {
    let t = trimmed(line);
    if t == "1"@ {
        go(MenuStateView::CreateName, seq![MenuOutputView::ClearScreen])
    } else if t == "2"@ {
        go(MenuStateView::ViewWallets, seq![MenuOutputView::ClearScreen])
    } else if t == "3"@ {
        go(MenuStateView::ImportChoice, seq![MenuOutputView::ClearScreen])
    } else if t == "b"@ {
        ask(MenuStateView::Exited, seq![MenuOutputView::Exit])
    } else {
        go(MenuStateView::Home, seq![MenuOutputView::ClearScreen, say("Try again"@)])
    }
}

/// The transitions of wallet creation.
pub open spec fn create_step(state: MenuStateView, line: Seq<char>) -> (MenuStateView, Seq<MenuOutputView>) {
    create_answer(state, line, lowercase(trimmed(line)))
}

/// The transitions of wallet creation on the typed `line`, given `lower`,
/// the lower-cased text of the trimmed line.
pub open spec fn create_answer(state: MenuStateView, line: Seq<char>, lower: Seq<char>) -> (MenuStateView, Seq<MenuOutputView>) {
    let t = trimmed(line);
    match state {
        MenuStateView::CreateName => if is_either(lower, "b"@, "h"@) {
            go(MenuStateView::Home, seq![])
        } else {
            go(MenuStateView::CreateEncryptChoice { name: t }, seq![MenuOutputView::ClearScreen])
        },
        MenuStateView::CreateEncryptChoice { name } => if lower == "b"@ {
            go(MenuStateView::CreateName, seq![MenuOutputView::ClearScreen])
        } else if lower == "h"@ {
            go(MenuStateView::Home, seq![])
        } else if lower == "y"@ {
            go(MenuStateView::CreatePassword { name }, seq![])
        } else if lower == "n"@ {
            ask(
                MenuStateView::CreateAnnounced,
                seq![
                    MenuOutputView::CreateWallet { name, password: None, announce: true },
                    MenuOutputView::ReadLine,
                ],
            )
        } else {
            go(MenuStateView::CreateEncryptChoice { name }, seq![MenuOutputView::ClearScreen, say("Try again.\n"@)])
        },
        MenuStateView::CreatePassword { name } => if t == "b"@ {
            go(MenuStateView::CreateEncryptChoice { name }, seq![])
        } else if t == "h"@ {
            go(MenuStateView::Home, seq![])
        } else {
            ask(
                MenuStateView::CreatePasswordConfirm { name, password: line },
                seq![say("Confirm your password by entering it again."@), MenuOutputView::ReadLine],
            )
        },
        MenuStateView::CreatePasswordConfirm { name, password } => if trimmed(password) != t {
            go(MenuStateView::CreatePassword { name }, seq![MenuOutputView::ClearScreen, say("Passwords don't match. Try again."@)])
        } else {
            go(MenuStateView::Home, seq![MenuOutputView::CreateWallet { name, password: Some(line), announce: false }])
        },
        MenuStateView::CreateAnnounced => go(MenuStateView::Home, seq![MenuOutputView::ClearScreen]),
        _ => (state, seq![]),
    }
}

/// The transition of the wallet list on the typed `line`, after `count`
/// wallets were listed.
pub open spec fn view_step(count: usize, line: Seq<char>) -> (MenuStateView, Seq<MenuOutputView>) {
    view_answer(count, lowercase(trimmed(line)))
}

/// The transition of the wallet list on the lower-cased, trimmed answer
/// `lower`, after `count` wallets were listed.
pub open spec fn view_answer(count: usize, lower: Seq<char>) -> (MenuStateView, Seq<MenuOutputView>) {
    if is_either(lower, "b"@, "h"@) {
        go(MenuStateView::Home, seq![])
    } else {
        match parsed_usize(lower) {
            None => go(
                MenuStateView::ViewWallets,
                seq![MenuOutputView::ClearScreen, say("The input didn't parse into a number or menu action. Try again."@)],
            ),
            Some(index) => if index >= count {
                go(
                    MenuStateView::ViewWallets,
                    seq![
                        MenuOutputView::ClearScreen,
                        MenuOutputView::ClearScreen,
                        say("Error: Number entered is larger than any wallet ID. Try again."@),
                    ],
                )
            } else {
                go(MenuStateView::ViewWallets, seq![MenuOutputView::ClearScreen])
            },
        }
    }
}

/// The message after storing an imported wallet.
pub open spec fn imported_message(name: Seq<char>, address: Seq<char>, encrypted: bool) -> Seq<char> {
    if encrypted {
        "Wallet "@ + name + " ("@ + address + ") imported! Press enter go go back home."@
    } else {
        "Wallet "@ + name + " ("@ + address + ") inserted into database. Press enter to go back home."@
    }
}

/// The transitions of wallet import.
pub open spec fn import_step(state: MenuStateView, line: Seq<char>) -> (MenuStateView, Seq<MenuOutputView>) {
    import_answer(state, line, lowercase(trimmed(line)))
}

/// The transitions of wallet import on the typed `line`, given `lower`, the
/// lower-cased text of the trimmed line.
pub open spec fn import_answer(state: MenuStateView, line: Seq<char>, lower: Seq<char>) -> (MenuStateView, Seq<MenuOutputView>) {
    let t = trimmed(line);
    match state {
        MenuStateView::ImportChoice => if lower == "1"@ {
            go(MenuStateView::ImportSeed, seq![])
        } else if is_either(lower, "b"@, "h"@) {
            go(MenuStateView::Home, seq![])
        } else {
            go(MenuStateView::ImportChoice, seq![])
        },
        MenuStateView::ImportSeed => if is_either(lower, "b"@, "h"@) {
            go(MenuStateView::Home, seq![])
        } else {
            match seed_address(t) {
                Some(address) => ask(
                    MenuStateView::ImportName { seed: t, address },
                    seq![
                        say("Attempting to create a wallet from this seed phrase."@),
                        say("Enter a name for this wallet. Enter b to go back, h to go home."@),
                        MenuOutputView::ReadLine,
                    ],
                ),
                None => ask(
                    MenuStateView::ImportSeedRejected,
                    seq![
                        say("Attempting to create a wallet from this seed phrase."@),
                        say("This seed phrase doesn't correlate to a valid wallet.\nPress enter to continue."@),
                        MenuOutputView::ReadLine,
                    ],
                ),
            }
        },
        MenuStateView::ImportSeedRejected => go(MenuStateView::ImportSeed, seq![]),
        MenuStateView::ImportName { seed, address } => if is_either(t, "b"@, "B"@) {
            go(MenuStateView::ImportSeed, seq![])
        } else if is_either(t, "h"@, "H"@) {
            go(MenuStateView::Home, seq![])
        } else {
            go(MenuStateView::ImportEncryptChoice { name: t, seed, address }, seq![])
        },
        MenuStateView::ImportEncryptChoice { name, seed, address } => if lower == "n"@ {
            ask(
                MenuStateView::ImportDone,
                seq![
                    MenuOutputView::StoreImportedWallet { name, seed, password: None },
                    say(imported_message(name, address, false)),
                    MenuOutputView::ReadLine,
                ],
            )
        } else if lower == "y"@ {
            go(MenuStateView::ImportPassword { name, seed, address }, seq![])
        } else if lower == "h"@ {
            go(MenuStateView::Home, seq![])
        } else if lower == "b"@ {
            go(MenuStateView::ImportSeed, seq![])
        } else {
            go(MenuStateView::ImportEncryptChoice { name, seed, address }, seq![])
        },
        MenuStateView::ImportPassword { name, seed, address } => if t == "b"@ {
            go(MenuStateView::ImportPassword { name, seed, address }, seq![])
        } else if t == "h"@ {
            go(MenuStateView::Home, seq![])
        } else {
            ask(
                MenuStateView::ImportDone,
                seq![
                    MenuOutputView::StoreImportedWallet { name, seed, password: Some(t) },
                    say(imported_message(name, address, true)),
                    MenuOutputView::ReadLine,
                ],
            )
        },
        MenuStateView::ImportDone => go(MenuStateView::Home, seq![]),
        _ => (state, seq![]),
    }
}

/// The next state of the menu and the outputs for the terminal, on `event`.
/// An event the state does not wait for changes nothing.
pub open spec fn menu_step(state: MenuStateView, event: MenuEventView) -> (MenuStateView, Seq<MenuOutputView>) {
    match event {
        MenuEventView::WalletsListed(count) => match state {
            MenuStateView::ViewWallets => ask(MenuStateView::ViewWalletsListed { count }, seq![MenuOutputView::ReadLine]),
            _ => (state, seq![]),
        },
        MenuEventView::Line(line) => match state {
            MenuStateView::Home => home_step(line),
            MenuStateView::CreateName => create_step(state, line),
            MenuStateView::CreateEncryptChoice { .. } => create_step(state, line),
            MenuStateView::CreatePassword { .. } => create_step(state, line),
            MenuStateView::CreatePasswordConfirm { .. } => create_step(state, line),
            MenuStateView::CreateAnnounced => create_step(state, line),
            MenuStateView::ViewWalletsListed { count } => view_step(count, line),
            MenuStateView::ImportChoice => import_step(state, line),
            MenuStateView::ImportSeed => import_step(state, line),
            MenuStateView::ImportSeedRejected => import_step(state, line),
            MenuStateView::ImportName { .. } => import_step(state, line),
            MenuStateView::ImportEncryptChoice { .. } => import_step(state, line),
            MenuStateView::ImportPassword { .. } => import_step(state, line),
            MenuStateView::ImportDone => import_step(state, line),
            _ => (state, seq![]),
        },
    }
}

/// Appends an output.
fn emit(out: &mut Vec<MenuOutput>, o: MenuOutput)
    ensures
        outputs_view(final(out)@) == outputs_view(old(out)@).push(o@),
{
    let ghost before = out@;
    out.push(o);
    assert(outputs_view(out@) =~= outputs_view(before).push(o@));
}

/// Appends a printed line.
fn emit_text(out: &mut Vec<MenuOutput>, text: &str)
    ensures
        outputs_view(final(out)@) == outputs_view(old(out)@).push(say(text@)),
{
    emit(out, MenuOutput::Print(String::from_str(text)));
}

/// Appends the question of `state`.
fn emit_prompt(out: &mut Vec<MenuOutput>, state: &MenuState)
    ensures
        outputs_view(final(out)@) == outputs_view(old(out)@) + prompt(state@),
{
    let ghost before = outputs_view(out@);
    match state {
        MenuState::Home => {
            emit(out, MenuOutput::ClearScreen);
            emit_text(out, "Welcome to TXRP - Rusty edition! v1.0");
            emit_text(out, "What do you want to do?");
            emit_text(out, "1. Create a wallet");
            emit_text(out, "2. View and transact with existing wallets");
            emit_text(out, "3. Import wallet via family seed or mnemonic");
            emit_text(out, "4. Delete a wallet");
            emit_text(out, "5. Options");
            emit_text(out, "6. Support the project");
            emit_text(out, "b. Exit");
            emit(out, MenuOutput::ReadLine);
        },
        MenuState::CreateName => {
            emit_text(out, "Choose a name for the wallet. Enter b or h to go back.");
            emit(out, MenuOutput::ReadLine);
        },
        MenuState::CreateEncryptChoice { .. } => {
            emit_text(out, "Do you want to encrypt the wallet's mnemonics and seed with a password?");
            emit_text(out, "Enter y or n. Enter b to go back or h to go home.");
            emit(out, MenuOutput::ReadLine);
        },
        MenuState::CreatePassword { .. } => {
            emit(out, MenuOutput::ClearScreen);
            emit_text(out, "Create a password to encrypt the wallet's mnemonics and seed. Enter b to go back or h to go to the home menu.");
            emit(out, MenuOutput::ReadLine);
        },
        MenuState::ViewWallets => {
            emit_text(out, "Select a wallet ID. Enter b or h to go back home.");
            emit(out, MenuOutput::ListWallets);
        },
        MenuState::ImportChoice => {
            emit(out, MenuOutput::ClearScreen);
            emit_text(out, "How do you want to import your wallet?");
            emit_text(out, "1. family seed");
            emit_text(out, "2. 12 word seed phrase/mnemonic");
            emit_text(out, "b. Back");
            emit(out, MenuOutput::ReadLine);
        },
        MenuState::ImportSeed => {
            emit(out, MenuOutput::ClearScreen);
            emit_text(out, "Enter your XRP wallet's family seed. Enter b to go back, h to go home.");
            emit(out, MenuOutput::ReadLine);
        },
        MenuState::ImportEncryptChoice { .. } => {
            emit(out, MenuOutput::ClearScreen);
            emit_text(out, "Will this wallet use encryption? Enter y or n. Enter b to go back, h to go home.");
            emit(out, MenuOutput::ReadLine);
        },
        MenuState::ImportPassword { .. } => {
            emit(out, MenuOutput::ClearScreen);
            emit_text(out, "Choose a password to encrypt the wallet's sensitive info. Enter b to go back, h to go home.");
            emit(out, MenuOutput::ReadLine);
        },
        _ => {},
    }
    assert(outputs_view(out@) =~= before + prompt(state@));
}

/// Moves to `next` after the outputs already in `out`.
fn go_to(next: MenuState, out: Vec<MenuOutput>) -> (res: (MenuState, Vec<MenuOutput>))
    ensures
        res.0@ == go(next@, outputs_view(out@)).0,
        outputs_view(res.1@) == go(next@, outputs_view(out@)).1,
{
    let mut out = out;
    emit_prompt(&mut out, &next);
    (next, out)
}

/// The menu's first screen: the main menu.
pub fn start() -> (res: (MenuState, Vec<MenuOutput>))
    ensures
        res.0@ == MenuStateView::Home,
        outputs_view(res.1@) == prompt(MenuStateView::Home),
{
    let out: Vec<MenuOutput> = Vec::new();
    assert(outputs_view(out@) =~= seq![]);
    let res = go_to(MenuState::Home, out);
    assert(outputs_view(res.1@) =~= prompt(MenuStateView::Home));
    res
}

/// Whether `line` equals `a` or `b`.
fn either(line: &str, a: &str, b: &str) -> (res: bool)
    ensures
        res == is_either(line@, a@, b@),
{
    str_eq(line, a) || str_eq(line, b)
}

/// No outputs yet.
fn no_outputs() -> (res: Vec<MenuOutput>)
    ensures
        outputs_view(res@) == Seq::<MenuOutputView>::empty(),
{
    let out: Vec<MenuOutput> = Vec::new();
    assert(outputs_view(out@) =~= Seq::<MenuOutputView>::empty());
    out
}

/// The single output `o`.
fn one_output(o: MenuOutput) -> (res: Vec<MenuOutput>)
    ensures
        outputs_view(res@) == seq![o@],
{
    let mut out = no_outputs();
    emit(&mut out, o);
    assert(outputs_view(out@) =~= seq![o@]);
    out
}

/// The outputs `o` and then the line `text`.
fn output_and_text(o: MenuOutput, text: &str) -> (res: Vec<MenuOutput>)
    ensures
        outputs_view(res@) == seq![o@, say(text@)],
{
    let mut out = one_output(o);
    emit_text(&mut out, text);
    assert(outputs_view(out@) =~= seq![o@, say(text@)]);
    out
}

/// The main menu's transition.
fn home_transition(line: &str) -> (res: (MenuState, Vec<MenuOutput>))
    ensures
        res.0@ == home_step(line@).0,
        outputs_view(res.1@) == home_step(line@).1,
{
    let t = trim(line);
    if str_eq(t, "1") {
        go_to(MenuState::CreateName, one_output(MenuOutput::ClearScreen))
    } else if str_eq(t, "2") {
        go_to(MenuState::ViewWallets, one_output(MenuOutput::ClearScreen))
    } else if str_eq(t, "3") {
        go_to(MenuState::ImportChoice, one_output(MenuOutput::ClearScreen))
    } else if str_eq(t, "b") {
        (MenuState::Exited, one_output(MenuOutput::Exit))
    } else {
        go_to(MenuState::Home, output_and_text(MenuOutput::ClearScreen, "Try again"))
    }
}

/// The transitions of wallet creation.
fn create_transition(state: MenuState, line: &str) -> (res: (MenuState, Vec<MenuOutput>))
    ensures
        res.0@ == create_step(state@, line@).0,
        outputs_view(res.1@) == create_step(state@, line@).1,
{
    let lower = to_lowercase(trim(line));
    create_answer_transition(state, line, lower.as_str())
}

/// The transitions of wallet creation on the typed `line`, given `lower`,
/// the lower-cased text of the trimmed line.
pub fn create_answer_transition(state: MenuState, line: &str, lower: &str) -> (res: (MenuState, Vec<MenuOutput>))
    ensures
        res.0@ == create_answer(state@, line@, lower@).0,
        outputs_view(res.1@) == create_answer(state@, line@, lower@).1,
{
    let t = trim(line);
    match state {
        MenuState::CreateName => if either(lower, "b", "h") {
            go_to(MenuState::Home, no_outputs())
        } else {
            go_to(MenuState::CreateEncryptChoice { name: t.to_string() }, one_output(MenuOutput::ClearScreen))
        },
        MenuState::CreateEncryptChoice { name } => if str_eq(lower, "b") {
            go_to(MenuState::CreateName, one_output(MenuOutput::ClearScreen))
        } else if str_eq(lower, "h") {
            go_to(MenuState::Home, no_outputs())
        } else if str_eq(lower, "y") {
            go_to(MenuState::CreatePassword { name }, no_outputs())
        } else if str_eq(lower, "n") {
            let mut out = one_output(MenuOutput::CreateWallet { name, password: None, announce: true });
            emit(&mut out, MenuOutput::ReadLine);
            (MenuState::CreateAnnounced, out)
        } else {
            go_to(MenuState::CreateEncryptChoice { name }, output_and_text(MenuOutput::ClearScreen, "Try again.\n"))
        },
        MenuState::CreatePassword { name } => if str_eq(t, "b") {
            go_to(MenuState::CreateEncryptChoice { name }, no_outputs())
        } else if str_eq(t, "h") {
            go_to(MenuState::Home, no_outputs())
        } else {
            let mut out = no_outputs();
            emit_text(&mut out, "Confirm your password by entering it again.");
            emit(&mut out, MenuOutput::ReadLine);
            (MenuState::CreatePasswordConfirm { name, password: line.to_string() }, out)
        },
        MenuState::CreatePasswordConfirm { name, password } => if !str_eq(trim(password.as_str()), t) {
            go_to(MenuState::CreatePassword { name }, output_and_text(MenuOutput::ClearScreen, "Passwords don't match. Try again."))
        } else {
            go_to(
                MenuState::Home,
                one_output(MenuOutput::CreateWallet { name, password: Some(line.to_string()), announce: false }),
            )
        },
        MenuState::CreateAnnounced => go_to(MenuState::Home, one_output(MenuOutput::ClearScreen)),
        _ => (state, no_outputs()),
    }
}

/// The transition of the wallet list.
fn view_transition(count: usize, line: &str) -> (res: (MenuState, Vec<MenuOutput>))
    ensures
        res.0@ == view_step(count, line@).0,
        outputs_view(res.1@) == view_step(count, line@).1,
{
    let lower = to_lowercase(trim(line));
    view_answer_transition(count, lower.as_str())
}

/// The transition of the wallet list on the lower-cased, trimmed answer
/// `lower`, after `count` wallets were listed.
pub fn view_answer_transition(count: usize, lower: &str) -> (res: (MenuState, Vec<MenuOutput>))
    ensures
        res.0@ == view_answer(count, lower@).0,
        outputs_view(res.1@) == view_answer(count, lower@).1,
{
    if either(lower, "b", "h") {
        go_to(MenuState::Home, no_outputs())
    } else {
        match parse_usize(lower) {
            None => go_to(
                MenuState::ViewWallets,
                output_and_text(MenuOutput::ClearScreen, "The input didn't parse into a number or menu action. Try again."),
            ),
            Some(index) => if index >= count {
                let mut out = one_output(MenuOutput::ClearScreen);
                emit(&mut out, MenuOutput::ClearScreen);
                emit_text(&mut out, "Error: Number entered is larger than any wallet ID. Try again.");
                go_to(MenuState::ViewWallets, out)
            } else {
                go_to(MenuState::ViewWallets, one_output(MenuOutput::ClearScreen))
            },
        }
    }
}

/// The message after storing an imported wallet.
fn imported_text(name: &String, address: &String, encrypted: bool) -> (res: String)
    ensures
        res@ == imported_message(name@, address@, encrypted),
{
    let mut text = String::from_str("Wallet ");
    text.append(name.as_str());
    text.append(" (");
    text.append(address.as_str());
    if encrypted {
        text.append(") imported! Press enter go go back home.");
    } else {
        text.append(") inserted into database. Press enter to go back home.");
    }
    text
}

/// The transitions of wallet import.
fn import_transition(state: MenuState, line: &str) -> (res: (MenuState, Vec<MenuOutput>))
    ensures
        res.0@ == import_step(state@, line@).0,
        outputs_view(res.1@) == import_step(state@, line@).1,
{
    let lower = to_lowercase(trim(line));
    import_answer_transition(state, line, lower.as_str())
}

/// The transitions of wallet import on the typed `line`, given `lower`, the
/// lower-cased text of the trimmed line.
pub fn import_answer_transition(state: MenuState, line: &str, lower: &str) -> (res: (MenuState, Vec<MenuOutput>))
    ensures
        res.0@ == import_answer(state@, line@, lower@).0,
        outputs_view(res.1@) == import_answer(state@, line@, lower@).1,
{
    let t = trim(line);
    match state {
        MenuState::ImportChoice => if str_eq(lower, "1") {
            go_to(MenuState::ImportSeed, no_outputs())
        } else if either(lower, "b", "h") {
            go_to(MenuState::Home, no_outputs())
        } else {
            go_to(MenuState::ImportChoice, no_outputs())
        },
        MenuState::ImportSeed => if either(lower, "b", "h") {
            go_to(MenuState::Home, no_outputs())
        } else {
            let mut out = no_outputs();
            emit_text(&mut out, "Attempting to create a wallet from this seed phrase.");
            match TXRPWallet::generate_from_seed(String::from_str("Placeholder"), t, None) {
                Ok(wallet) => {
                    emit_text(&mut out, "Enter a name for this wallet. Enter b to go back, h to go home.");
                    emit(&mut out, MenuOutput::ReadLine);
                    (MenuState::ImportName { seed: wallet.seed, address: wallet.classic_address }, out)
                },
                Err(_) => {
                    emit_text(&mut out, "This seed phrase doesn't correlate to a valid wallet.\nPress enter to continue.");
                    emit(&mut out, MenuOutput::ReadLine);
                    (MenuState::ImportSeedRejected, out)
                },
            }
        },
        MenuState::ImportSeedRejected => go_to(MenuState::ImportSeed, no_outputs()),
        MenuState::ImportName { seed, address } => if either(t, "b", "B") {
            go_to(MenuState::ImportSeed, no_outputs())
        } else if either(t, "h", "H") {
            go_to(MenuState::Home, no_outputs())
        } else {
            go_to(MenuState::ImportEncryptChoice { name: t.to_string(), seed, address }, no_outputs())
        },
        MenuState::ImportEncryptChoice { name, seed, address } => if str_eq(lower, "n") {
            let message = imported_text(&name, &address, false);
            let mut out = one_output(MenuOutput::StoreImportedWallet { name, seed, password: None });
            emit(&mut out, MenuOutput::Print(message));
            emit(&mut out, MenuOutput::ReadLine);
            (MenuState::ImportDone, out)
        } else if str_eq(lower, "y") {
            go_to(MenuState::ImportPassword { name, seed, address }, no_outputs())
        } else if str_eq(lower, "h") {
            go_to(MenuState::Home, no_outputs())
        } else if str_eq(lower, "b") {
            go_to(MenuState::ImportSeed, no_outputs())
        } else {
            go_to(MenuState::ImportEncryptChoice { name, seed, address }, no_outputs())
        },
        MenuState::ImportPassword { name, seed, address } => if str_eq(t, "b") {
            go_to(MenuState::ImportPassword { name, seed, address }, no_outputs())
        } else if str_eq(t, "h") {
            go_to(MenuState::Home, no_outputs())
        } else {
            let message = imported_text(&name, &address, true);
            let mut out = one_output(MenuOutput::StoreImportedWallet { name, seed, password: Some(t.to_string()) });
            emit(&mut out, MenuOutput::Print(message));
            emit(&mut out, MenuOutput::ReadLine);
            (MenuState::ImportDone, out)
        },
        MenuState::ImportDone => go_to(MenuState::Home, no_outputs()),
        _ => (state, no_outputs()),
    }
}

/// The next state of the menu and what the terminal must do, on `event`.
pub fn step(state: MenuState, event: MenuEvent) -> (res: (MenuState, Vec<MenuOutput>))
    ensures
        res.0@ == menu_step(state@, event@).0,
        outputs_view(res.1@) == menu_step(state@, event@).1,
{
    match event {
        MenuEvent::WalletsListed(count) => match state {
            MenuState::ViewWallets => (MenuState::ViewWalletsListed { count }, one_output(MenuOutput::ReadLine)),
            _ => (state, no_outputs()),
        },
        MenuEvent::Line(line) => {
            let line = line.as_str();
            match state {
                MenuState::Home => home_transition(line),
                MenuState::CreateName => create_transition(state, line),
                MenuState::CreateEncryptChoice { .. } => create_transition(state, line),
                MenuState::CreatePassword { .. } => create_transition(state, line),
                MenuState::CreatePasswordConfirm { .. } => create_transition(state, line),
                MenuState::CreateAnnounced => create_transition(state, line),
                MenuState::ViewWalletsListed { count } => view_transition(count, line),
                MenuState::ImportChoice => import_transition(state, line),
                MenuState::ImportSeed => import_transition(state, line),
                MenuState::ImportSeedRejected => import_transition(state, line),
                MenuState::ImportName { .. } => import_transition(state, line),
                MenuState::ImportEncryptChoice { .. } => import_transition(state, line),
                MenuState::ImportPassword { .. } => import_transition(state, line),
                MenuState::ImportDone => import_transition(state, line),
                _ => (state, no_outputs()),
            }
        },
    }
}

/// The states that wait for a typed line.
pub open spec fn awaits_line(state: MenuStateView) -> bool {
    !(state is ViewWallets) && !(state is Exited)
}

/// The outputs end by handing control back in the way `next` expects: a
/// line to read for a state that waits for one, the wallet listing for the
/// wallet list, the end of the program for the exited menu.
pub open spec fn hands_back(next: MenuStateView, outputs: Seq<MenuOutputView>) -> bool {
    &&& outputs.len() > 0
    &&& match outputs.last() {
        MenuOutputView::ReadLine => awaits_line(next),
        MenuOutputView::ListWallets => next is ViewWallets,
        MenuOutputView::Exit => next is Exited,
        _ => false,
    }
}

/// The question of a state that waits for a line asks for it; the wallet
/// list asks for the listing.
proof fn lemma_prompt_hands_back(next: MenuStateView, before: Seq<MenuOutputView>)
    requires
        prompt(next).len() > 0,
    ensures
        hands_back(go(next, before).0, go(next, before).1),
{
    assert((before + prompt(next)).last() == prompt(next).last());
}

/// The menu never leaves the terminal without a next move: its first screen
/// and every transition on the event a state waits for end by asking for a
/// line, for the wallet listing, or by ending the program, as the next state
/// expects.
pub proof fn lemma_menu_hands_back(state: MenuStateView, event: MenuEventView)
    requires
        (awaits_line(state) && event is Line) || (state is ViewWallets && event is WalletsListed),
    ensures
        hands_back(MenuStateView::Home, prompt(MenuStateView::Home)),
        hands_back(menu_step(state, event).0, menu_step(state, event).1),
{
    let prompts = seq![
        MenuStateView::Home,
        MenuStateView::CreateName,
        MenuStateView::ViewWallets,
        MenuStateView::ImportChoice,
        MenuStateView::ImportSeed,
    ];
    assert forall|before: Seq<MenuOutputView>, i: int| 0 <= i < prompts.len() implies
        #[trigger] hands_back(go(prompts[i], before).0, go(prompts[i], before).1) by {
        lemma_prompt_hands_back(prompts[i], before);
    }
    assert forall|before: Seq<MenuOutputView>, name: Seq<char>|
        hands_back(#[trigger] go(MenuStateView::CreateEncryptChoice { name }, before).0,
            go(MenuStateView::CreateEncryptChoice { name }, before).1)
        && hands_back(#[trigger] go(MenuStateView::CreatePassword { name }, before).0,
            go(MenuStateView::CreatePassword { name }, before).1) by {
        lemma_prompt_hands_back(MenuStateView::CreateEncryptChoice { name }, before);
        lemma_prompt_hands_back(MenuStateView::CreatePassword { name }, before);
    }
    assert forall|before: Seq<MenuOutputView>, name: Seq<char>, seed: Seq<char>, address: Seq<char>|
        hands_back(#[trigger] go(MenuStateView::ImportEncryptChoice { name, seed, address }, before).0,
            go(MenuStateView::ImportEncryptChoice { name, seed, address }, before).1)
        && hands_back(#[trigger] go(MenuStateView::ImportPassword { name, seed, address }, before).0,
            go(MenuStateView::ImportPassword { name, seed, address }, before).1) by {
        lemma_prompt_hands_back(MenuStateView::ImportEncryptChoice { name, seed, address }, before);
        lemma_prompt_hands_back(MenuStateView::ImportPassword { name, seed, address }, before);
    }
    assert(prompts[0] == MenuStateView::Home);
    assert(prompts[1] == MenuStateView::CreateName);
    assert(prompts[2] == MenuStateView::ViewWallets);
    assert(prompts[3] == MenuStateView::ImportChoice);
    assert(prompts[4] == MenuStateView::ImportSeed);
    lemma_prompt_hands_back(MenuStateView::Home, seq![]);
    assert(seq![] + prompt(MenuStateView::Home) =~= prompt(MenuStateView::Home));
}

/// A wallet is created under a password only after the password was typed
/// twice: the step that creates it answers the confirmation question, and
/// the two typed lines agree once trimmed; the password is the second line.
#[verifier::rlimit(50)]
pub proof fn lemma_password_confirmed(state: MenuStateView, line: Seq<char>, name: Seq<char>, password: Seq<char>, i: int)
    requires
        0 <= i < menu_step(state, MenuEventView::Line(line)).1.len(),
        menu_step(state, MenuEventView::Line(line)).1[i]
            == (MenuOutputView::CreateWallet { name, password: Some(password), announce: false }),
    ensures
        state matches MenuStateView::CreatePasswordConfirm { name: n, password: first }
            && n == name && password == line && trimmed(first) == trimmed(line),
{
    let outs = menu_step(state, MenuEventView::Line(line)).1;
    assert forall|next: MenuStateView, k: int|
        0 <= k < prompt(next).len() implies !(#[trigger] prompt(next)[k] is CreateWallet) by {}
    assert forall|next: MenuStateView, before: Seq<MenuOutputView>, k: int|
        before.len() <= k < go(next, before).1.len() implies !(#[trigger] go(next, before).1[k] is CreateWallet) by {
        assert(go(next, before).1[k] == prompt(next)[k - before.len()]);
    }
}

/// The menu ends the program only from the main menu, on the answer "b".
pub proof fn lemma_exit_only_from_home(state: MenuStateView, event: MenuEventView, i: int)
    requires
        0 <= i < menu_step(state, event).1.len(),
        menu_step(state, event).1[i] is Exit,
    ensures
        state is Home,
        event matches MenuEventView::Line(line) && trimmed(line) == "b"@,
{
    assert forall|next: MenuStateView, k: int|
        0 <= k < prompt(next).len() implies !(#[trigger] prompt(next)[k] is Exit) by {}
    assert forall|next: MenuStateView, before: Seq<MenuOutputView>, k: int|
        before.len() <= k < go(next, before).1.len() implies !(#[trigger] go(next, before).1[k] is Exit) by {
        assert(go(next, before).1[k] == prompt(next)[k - before.len()]);
    }
}

/// The state the menu reaches, and everything it hands the terminal, when
/// it answers `events` in turn from `state`.
pub open spec fn menu_run(state: MenuStateView, events: Seq<MenuEventView>) -> (MenuStateView, Seq<MenuOutputView>)
    decreases events.len(),
{
    if events.len() == 0 {
        (state, seq![])
    } else {
        let before = menu_run(state, events.drop_last());
        let last = menu_step(before.0, events.last());
        (last.0, before.1 + last.1)
    }
}

/// The state of a run from `state` after its first `n` events.
pub open spec fn state_after(state: MenuStateView, events: Seq<MenuEventView>, n: int) -> MenuStateView {
    menu_run(state, events.take(n)).0
}

/// A run starts where it is started.
proof fn lemma_state_after_start(state: MenuStateView, events: Seq<MenuEventView>)
    ensures
        state_after(state, events, 0) == state,
{
    assert(events.take(0) =~= Seq::<MenuEventView>::empty());
}

/// One more event moves a run by one step.
proof fn lemma_state_after_step(state: MenuStateView, events: Seq<MenuEventView>, n: int)
    requires
        0 <= n < events.len(),
    ensures
        state_after(state, events, n + 1) == menu_step(state_after(state, events, n), events[n]).0,
{
    assert(events.take(n + 1).drop_last() =~= events.take(n));
    assert(events.take(n + 1).last() == events[n]);
}

/// Each output of a run comes from one step: the `k`-th output of the
/// answer to the `j`-th event, from the state the run had then reached.
proof fn lemma_run_output_origin(state: MenuStateView, events: Seq<MenuEventView>, i: int) -> (jk: (int, int))
    requires
        0 <= i < menu_run(state, events).1.len(),
    ensures
        0 <= jk.0 < events.len(),
        0 <= jk.1 < menu_step(state_after(state, events, jk.0), events[jk.0]).1.len(),
        menu_run(state, events).1[i] == menu_step(state_after(state, events, jk.0), events[jk.0]).1[jk.1],
    decreases events.len(),
{
    let prefix = events.drop_last();
    let before = menu_run(state, prefix);
    let n = events.len() - 1;
    assert(events.take(n) =~= prefix);
    if i < before.1.len() {
        let jk = lemma_run_output_origin(state, prefix, i);
        assert(events.take(jk.0) =~= prefix.take(jk.0));
        assert(events[jk.0] == prefix[jk.0]);
        jk
    } else {
        (n, i - before.1.len())
    }
}

/// Over any run, the menu ends the program only at a step from the main
/// menu, on a typed answer that trims to "b".
pub proof fn lemma_run_exits_only_from_home(state: MenuStateView, events: Seq<MenuEventView>, i: int)
    requires
        0 <= i < menu_run(state, events).1.len(),
        menu_run(state, events).1[i] is Exit,
    ensures
        exists|j: int| {
            &&& 0 <= j < events.len()
            &&& #[trigger] state_after(state, events, j) == MenuStateView::Home
            &&& events[j] matches MenuEventView::Line(line) && trimmed(line) == "b"@
        },
{
    let jk = lemma_run_output_origin(state, events, i);
    lemma_exit_only_from_home(state_after(state, events, jk.0), events[jk.0], jk.1);
    assert(state_after(state, events, jk.0) == MenuStateView::Home);
}

/// `s` is a typed line with its surrounding white space removed.
pub open spec fn is_trimmed_line(s: Seq<char>) -> bool {
    exists|l: Seq<char>| #[trigger] trimmed(l) == s
}

/// The fields of an import under way: a seed with `address` as its address,
/// and a name that is no answer to go back or home; both trimmed lines.
pub open spec fn import_fields(name: Seq<char>, seed: Seq<char>, address: Seq<char>) -> bool {
    &&& seed_address(seed) == Some(address)
    &&& is_trimmed_line(seed)
    &&& is_trimmed_line(name)
    &&& !is_either(name, "b"@, "B"@)
    &&& !is_either(name, "h"@, "H"@)
}

/// The import data that a state holds is as the import dialogue gathers it.
pub open spec fn import_fields_ok(state: MenuStateView) -> bool {
    match state {
        MenuStateView::ImportName { seed, address } => seed_address(seed) == Some(address) && is_trimmed_line(seed),
        MenuStateView::ImportEncryptChoice { name, seed, address } => import_fields(name, seed, address),
        MenuStateView::ImportPassword { name, seed, address } => import_fields(name, seed, address),
        _ => true,
    }
}

/// A stored imported wallet has a seed with an address, and its seed, name
/// and password (if any) are trimmed typed lines; the name is none of b, B,
/// h, H.
pub open spec fn stored_import_ok(o: MenuOutputView) -> bool {
    match o {
        MenuOutputView::StoreImportedWallet { name, seed, password } => {
            &&& seed_address(seed) is Some
            &&& is_trimmed_line(seed)
            &&& is_trimmed_line(name)
            &&& !is_either(name, "b"@, "B"@)
            &&& !is_either(name, "h"@, "H"@)
            &&& match password {
                Some(p) => is_trimmed_line(p),
                None => true,
            }
        },
        _ => true,
    }
}

/// A step keeps the import data well gathered.
#[verifier::rlimit(50)]
proof fn lemma_step_keeps_import_fields(state: MenuStateView, event: MenuEventView)
    requires
        import_fields_ok(state),
    ensures
        import_fields_ok(menu_step(state, event).0),
{
    if let MenuEventView::Line(line) = event {
        let t = trimmed(line);
        assert(is_trimmed_line(t));
    }
}

/// Every wallet a step stores is stored as `stored_import_ok` says.
#[verifier::rlimit(50)]
proof fn lemma_step_stores_trimmed_import(state: MenuStateView, event: MenuEventView, k: int)
    requires
        import_fields_ok(state),
        0 <= k < menu_step(state, event).1.len(),
    ensures
        stored_import_ok(menu_step(state, event).1[k]),
{
    assert forall|next: MenuStateView, j: int|
        0 <= j < prompt(next).len() implies !(#[trigger] prompt(next)[j] is StoreImportedWallet) by {}
    assert forall|next: MenuStateView, before: Seq<MenuOutputView>, j: int|
        before.len() <= j < go(next, before).1.len() implies !(#[trigger] go(next, before).1[j] is StoreImportedWallet) by {
        assert(go(next, before).1[j] == prompt(next)[j - before.len()]);
    }
    if let MenuEventView::Line(line) = event {
        let t = trimmed(line);
        assert(is_trimmed_line(t));
    }
}

/// A run keeps the import data well gathered.
proof fn lemma_run_keeps_import_fields(state: MenuStateView, events: Seq<MenuEventView>, n: int)
    requires
        import_fields_ok(state),
        0 <= n <= events.len(),
    ensures
        import_fields_ok(state_after(state, events, n)),
    decreases n,
{
    if n == 0 {
        lemma_state_after_start(state, events);
    } else {
        lemma_run_keeps_import_fields(state, events, n - 1);
        lemma_state_after_step(state, events, n - 1);
        lemma_step_keeps_import_fields(state_after(state, events, n - 1), events[n - 1]);
    }
}

/// Over any run from a state without half-gathered import data (the main
/// menu among them), every wallet the import dialogue stores has a seed with
/// an address, and its seed, name and password (if any) are trimmed typed
/// lines; the name is none of b, B, h, H.
pub proof fn lemma_run_stores_trimmed_imports(state: MenuStateView, events: Seq<MenuEventView>, i: int)
    requires
        import_fields_ok(state),
        0 <= i < menu_run(state, events).1.len(),
    ensures
        stored_import_ok(menu_run(state, events).1[i]),
{
    let jk = lemma_run_output_origin(state, events, i);
    lemma_run_keeps_import_fields(state, events, jk.0);
    lemma_step_stores_trimmed_import(state_after(state, events, jk.0), events[jk.0], jk.1);
}

/// The wallet list and the question that lists it.
pub open spec fn is_view_state(state: MenuStateView) -> bool {
    state is ViewWallets || state is ViewWalletsListed
}

/// An output that changes what is stored or ends the program.
pub open spec fn writes(o: MenuOutputView) -> bool {
    o is CreateWallet || o is StoreImportedWallet || o is Exit
}

/// A run whose every step starts in the wallet list creates or stores no
/// wallet and does not end the program: the wallets are only read.
pub proof fn lemma_view_run_writes_nothing(state: MenuStateView, events: Seq<MenuEventView>, i: int)
    requires
        forall|j: int| 0 <= j < events.len() ==> is_view_state(#[trigger] state_after(state, events, j)),
        0 <= i < menu_run(state, events).1.len(),
    ensures
        !writes(menu_run(state, events).1[i]),
{
    let jk = lemma_run_output_origin(state, events, i);
    assert(is_view_state(state_after(state, events, jk.0)));
    assert forall|next: MenuStateView, j: int|
        0 <= j < prompt(next).len() implies !writes(#[trigger] prompt(next)[j]) by {}
    assert forall|next: MenuStateView, before: Seq<MenuOutputView>, j: int|
        before.len() <= j < go(next, before).1.len() implies !writes(#[trigger] go(next, before).1[j]) by {
        assert(go(next, before).1[j] == prompt(next)[j - before.len()]);
    }
}

/// Some output of `outs` stores an imported wallet.
pub open spec fn stores_import(outs: Seq<MenuOutputView>) -> bool {
    exists|k: int| 0 <= k < outs.len() && (#[trigger] outs[k]) is StoreImportedWallet
}

/// No two outputs of `outs` store an imported wallet.
pub open spec fn at_most_one_import(outs: Seq<MenuOutputView>) -> bool {
    forall|k1: int, k2: int|
        0 <= k1 < k2 < outs.len() ==> !((#[trigger] outs[k1]) is StoreImportedWallet && (#[trigger] outs[k2]) is StoreImportedWallet)
}

/// A step stores at most one wallet, and ends the import dialogue where it
/// stores one; from the end of the import dialogue a step stores nothing
/// and stays there or goes home.
#[verifier::rlimit(50)]
proof fn lemma_step_imports_once(state: MenuStateView, event: MenuEventView)
    ensures
        at_most_one_import(menu_step(state, event).1),
        stores_import(menu_step(state, event).1) ==> menu_step(state, event).0 is ImportDone,
        state is ImportDone ==> !stores_import(menu_step(state, event).1)
            && (menu_step(state, event).0 is ImportDone || menu_step(state, event).0 is Home),
{
    assert forall|next: MenuStateView, j: int|
        0 <= j < prompt(next).len() implies !((#[trigger] prompt(next)[j]) is StoreImportedWallet) by {}
    assert forall|next: MenuStateView, before: Seq<MenuOutputView>, j: int|
        before.len() <= j < go(next, before).1.len() implies !((#[trigger] go(next, before).1[j]) is StoreImportedWallet) by {
        assert(go(next, before).1[j] == prompt(next)[j - before.len()]);
    }
}

/// Joining two lists of outputs, neither storing twice and not both
/// storing, stores at most once.
proof fn lemma_join_imports(a: Seq<MenuOutputView>, b: Seq<MenuOutputView>)
    requires
        at_most_one_import(a),
        at_most_one_import(b),
        !(stores_import(a) && stores_import(b)),
    ensures
        at_most_one_import(a + b),
        stores_import(a + b) == (stores_import(a) || stores_import(b)),
{
    let c = a + b;
    assert forall|k1: int, k2: int|
        0 <= k1 < k2 < c.len() implies !((#[trigger] c[k1]) is StoreImportedWallet && (#[trigger] c[k2]) is StoreImportedWallet) by {
        if c[k1] is StoreImportedWallet && c[k2] is StoreImportedWallet {
            if k2 < a.len() {
                assert(a[k1] == c[k1] && a[k2] == c[k2]);
            } else if k1 >= a.len() {
                assert(b[k1 - a.len()] == c[k1] && b[k2 - a.len()] == c[k2]);
            } else {
                assert(a[k1] == c[k1]);
                assert(b[k2 - a.len()] == c[k2]);
            }
        }
    }
    if stores_import(c) {
        let k = choose|k: int| 0 <= k < c.len() && (#[trigger] c[k]) is StoreImportedWallet;
        if k < a.len() {
            assert(a[k] == c[k]);
        } else {
            assert(b[k - a.len()] == c[k]);
        }
    }
    if stores_import(a) {
        let k = choose|k: int| 0 <= k < a.len() && (#[trigger] a[k]) is StoreImportedWallet;
        assert(c[k] == a[k]);
    }
    if stores_import(b) {
        let k = choose|k: int| 0 <= k < b.len() && (#[trigger] b[k]) is StoreImportedWallet;
        assert(c[k + a.len()] == b[k]);
    }
}

/// The first `n` steps of a run that never starts a step at the main menu
/// store at most one wallet, and after storing one the run stands at the end
/// of the import dialogue or at home.
proof fn lemma_run_imports_once_upto(state: MenuStateView, events: Seq<MenuEventView>, n: int)
    requires
        0 <= n <= events.len(),
        forall|j: int| 0 <= j < events.len() ==> #[trigger] state_after(state, events, j) != MenuStateView::Home,
    ensures
        at_most_one_import(menu_run(state, events.take(n)).1),
        stores_import(menu_run(state, events.take(n)).1)
            ==> (state_after(state, events, n) is ImportDone || state_after(state, events, n) is Home),
    decreases n,
{
    if n == 0 {
        assert(events.take(0) =~= Seq::<MenuEventView>::empty());
    } else {
        lemma_run_imports_once_upto(state, events, n - 1);
        lemma_state_after_step(state, events, n - 1);
        assert(events.take(n).drop_last() =~= events.take(n - 1));
        assert(events.take(n).last() == events[n - 1]);
        let before = state_after(state, events, n - 1);
        assert(before != MenuStateView::Home);
        lemma_step_imports_once(before, events[n - 1]);
        lemma_join_imports(menu_run(state, events.take(n - 1)).1, menu_step(before, events[n - 1]).1);
    }
}

/// One visit away from the main menu (from the import question until the
/// menu returns home) stores at most one imported wallet: a run none of whose
/// steps starts at the main menu hands the terminal at most one wallet to
/// store.
pub proof fn lemma_import_visit_stores_at_most_one(state: MenuStateView, events: Seq<MenuEventView>)
    requires
        forall|j: int| 0 <= j < events.len() ==> #[trigger] state_after(state, events, j) != MenuStateView::Home,
    ensures
        at_most_one_import(menu_run(state, events).1),
{
    lemma_run_imports_once_upto(state, events, events.len() as int);
    assert(events.take(events.len() as int) =~= events);
}

/// Tells the one-character answers of the menus apart.
proof fn lemma_answers_differ()
    ensures
        "1"@ != "2"@, "1"@ != "3"@, "1"@ != "b"@, "2"@ != "3"@, "2"@ != "b"@, "3"@ != "b"@,
        "1"@ != "h"@, "1"@ != "y"@, "1"@ != "n"@,
        "b"@ != "h"@, "b"@ != "y"@, "b"@ != "n"@, "h"@ != "y"@, "h"@ != "n"@, "y"@ != "n"@,
        "b"@ != "B"@, "b"@ != "H"@, "h"@ != "B"@, "h"@ != "H"@, "B"@ != "H"@,
{
    reveal_strlit("1");
    reveal_strlit("2");
    reveal_strlit("3");
    reveal_strlit("b");
    reveal_strlit("h");
    reveal_strlit("y");
    reveal_strlit("n");
    reveal_strlit("B");
    reveal_strlit("H");
    assert("1"@[0] != "2"@[0]);
    assert("1"@[0] != "3"@[0]);
    assert("1"@[0] != "b"@[0]);
    assert("2"@[0] != "3"@[0]);
    assert("2"@[0] != "b"@[0]);
    assert("3"@[0] != "b"@[0]);
    assert("1"@[0] != "h"@[0]);
    assert("1"@[0] != "y"@[0]);
    assert("1"@[0] != "n"@[0]);
    assert("b"@[0] != "h"@[0]);
    assert("b"@[0] != "y"@[0]);
    assert("b"@[0] != "n"@[0]);
    assert("h"@[0] != "y"@[0]);
    assert("h"@[0] != "n"@[0]);
    assert("y"@[0] != "n"@[0]);
    assert("b"@[0] != "B"@[0]);
    assert("b"@[0] != "H"@[0]);
    assert("h"@[0] != "B"@[0]);
    assert("h"@[0] != "H"@[0]);
    assert("B"@[0] != "H"@[0]);
}

/// The main menu's entries lead where their printed labels say: its lines
/// list "1. Create a wallet", "2. View and transact with existing wallets",
/// "3. Import wallet via family seed or mnemonic" and "b. Exit"; an answer
/// that trims to "1" clears the screen and asks for a new wallet's name, "2"
/// clears it and lists the wallets, "3" clears it and asks how to import,
/// "b" ends the program, and any other answer stays at the main menu.
pub proof fn lemma_home_entries(line: Seq<char>)
    ensures
        prompt(MenuStateView::Home)[3] == say("1. Create a wallet"@),
        prompt(MenuStateView::Home)[4] == say("2. View and transact with existing wallets"@),
        prompt(MenuStateView::Home)[5] == say("3. Import wallet via family seed or mnemonic"@),
        prompt(MenuStateView::Home)[9] == say("b. Exit"@),
        trimmed(line) == "1"@ ==> menu_step(MenuStateView::Home, MenuEventView::Line(line)).0 == MenuStateView::CreateName
            && menu_step(MenuStateView::Home, MenuEventView::Line(line)).1[0] == MenuOutputView::ClearScreen,
        trimmed(line) == "2"@ ==> menu_step(MenuStateView::Home, MenuEventView::Line(line)).0 == MenuStateView::ViewWallets
            && menu_step(MenuStateView::Home, MenuEventView::Line(line)).1[0] == MenuOutputView::ClearScreen,
        trimmed(line) == "3"@ ==> menu_step(MenuStateView::Home, MenuEventView::Line(line)).0 == MenuStateView::ImportChoice
            && menu_step(MenuStateView::Home, MenuEventView::Line(line)).1[0] == MenuOutputView::ClearScreen,
        trimmed(line) == "b"@ ==> menu_step(MenuStateView::Home, MenuEventView::Line(line))
            == (MenuStateView::Exited, seq![MenuOutputView::Exit]),
        !(trimmed(line) == "1"@ || trimmed(line) == "2"@ || trimmed(line) == "3"@ || trimmed(line) == "b"@)
            ==> menu_step(MenuStateView::Home, MenuEventView::Line(line)).0 == MenuStateView::Home,
{
    lemma_answers_differ();
}

/// The creation dialogue: a name that is no answer to go back asks whether
/// to encrypt the wallet of that (trimmed) name; "y" asks for a password and
/// "n" creates the wallet without one and shows it; "b" returns to the name
/// question and "h" goes home; a password is asked for again, and the
/// wallet is created with the second typed line as its password exactly
/// when the two lines agree once trimmed.
pub proof fn lemma_create_dialogue(name: Seq<char>, first: Seq<char>, line: Seq<char>)
    ensures
        ({
            let r = menu_step(MenuStateView::CreateName, MenuEventView::Line(line));
            let lower = lowercase(trimmed(line));
            &&& (lower == "b"@ || lower == "h"@) ==> r.0 == MenuStateView::Home
            &&& !(lower == "b"@ || lower == "h"@) ==> r.0 == (MenuStateView::CreateEncryptChoice { name: trimmed(line) })
        }),
        ({
            let r = menu_step(MenuStateView::CreateEncryptChoice { name }, MenuEventView::Line(line));
            let lower = lowercase(trimmed(line));
            &&& lower == "y"@ ==> r.0 == (MenuStateView::CreatePassword { name })
            &&& lower == "n"@ ==> r.0 == MenuStateView::CreateAnnounced
                && r.1[0] == (MenuOutputView::CreateWallet { name, password: None, announce: true })
            &&& lower == "b"@ ==> r.0 == MenuStateView::CreateName
            &&& lower == "h"@ ==> r.0 == MenuStateView::Home
        }),
        ({
            let r = menu_step(MenuStateView::CreatePassword { name }, MenuEventView::Line(line));
            &&& trimmed(line) == "b"@ ==> r.0 == (MenuStateView::CreateEncryptChoice { name })
            &&& trimmed(line) == "h"@ ==> r.0 == MenuStateView::Home
            &&& !(trimmed(line) == "b"@ || trimmed(line) == "h"@)
                ==> r.0 == (MenuStateView::CreatePasswordConfirm { name, password: line })
        }),
        ({
            let r = menu_step(MenuStateView::CreatePasswordConfirm { name, password: first }, MenuEventView::Line(line));
            &&& trimmed(first) == trimmed(line) ==> r.0 == MenuStateView::Home
                && r.1[0] == (MenuOutputView::CreateWallet { name, password: Some(line), announce: false })
            &&& trimmed(first) != trimmed(line) ==> r.0 == (MenuStateView::CreatePassword { name })
        }),
{
    lemma_answers_differ();
}

/// The wallet list: after `count` wallets were listed, "b" or "h" goes home;
/// a number below `count` selects that wallet and asks again; a larger one,
/// or an answer that is no number, prints an error and asks again; nothing
/// is stored. Listing `n` wallets waits for an answer about `n` wallets.
pub proof fn lemma_view_dialogue(count: usize, n: usize, line: Seq<char>)
    ensures
        menu_step(MenuStateView::ViewWallets, MenuEventView::WalletsListed(n)).0
            == (MenuStateView::ViewWalletsListed { count: n }),
        ({
            let r = menu_step(MenuStateView::ViewWalletsListed { count }, MenuEventView::Line(line));
            let lower = lowercase(trimmed(line));
            &&& (lower == "b"@ || lower == "h"@) ==> r.0 == MenuStateView::Home
            &&& !(lower == "b"@ || lower == "h"@) ==> {
                &&& r.0 == MenuStateView::ViewWallets
                &&& match parsed_usize(lower) {
                    Some(i) => if i < count {
                        r.1 == seq![MenuOutputView::ClearScreen] + prompt(MenuStateView::ViewWallets)
                    } else {
                        r.1.contains(say("Error: Number entered is larger than any wallet ID. Try again."@))
                    },
                    None => r.1.contains(say("The input didn't parse into a number or menu action. Try again."@)),
                }
            }
        }),
{
    lemma_answers_differ();
    let r = menu_step(MenuStateView::ViewWalletsListed { count }, MenuEventView::Line(line));
    let lower = lowercase(trimmed(line));
    if !(lower == "b"@ || lower == "h"@) {
        match parsed_usize(lower) {
            Some(i) => {
                if i >= count {
                    assert(r.1[2] == say("Error: Number entered is larger than any wallet ID. Try again."@));
                }
            },
            None => {
                assert(r.1[1] == say("The input didn't parse into a number or menu action. Try again."@));
            },
        }
    }
}

/// The import dialogue: at the import question "1" asks for a family seed,
/// "b" or "h" goes home; a seed (trimmed) with an address asks for a name
/// and keeps seed and address, one without is refused; a name that is none
/// of b, B, h, H asks whether to encrypt; there "y" asks for a password, "n"
/// stores the wallet of that name and seed without one, "b" asks for the
/// seed again and "h" goes home; a password that is neither "b" nor "h"
/// stores the wallet with the trimmed password.
pub proof fn lemma_import_dialogue(name: Seq<char>, seed: Seq<char>, address: Seq<char>, line: Seq<char>)
    ensures
        ({
            let r = menu_step(MenuStateView::ImportChoice, MenuEventView::Line(line));
            let lower = lowercase(trimmed(line));
            &&& lower == "1"@ ==> r.0 == MenuStateView::ImportSeed
            &&& (lower == "b"@ || lower == "h"@) ==> r.0 == MenuStateView::Home
        }),
        ({
            let r = menu_step(MenuStateView::ImportSeed, MenuEventView::Line(line));
            let lower = lowercase(trimmed(line));
            &&& (lower == "b"@ || lower == "h"@) ==> r.0 == MenuStateView::Home
            &&& !(lower == "b"@ || lower == "h"@) ==> match seed_address(trimmed(line)) {
                Some(a) => r.0 == (MenuStateView::ImportName { seed: trimmed(line), address: a }),
                None => r.0 == MenuStateView::ImportSeedRejected,
            }
        }),
        ({
            let r = menu_step(MenuStateView::ImportName { seed, address }, MenuEventView::Line(line));
            let t = trimmed(line);
            &&& (t == "b"@ || t == "B"@) ==> r.0 == MenuStateView::ImportSeed
            &&& (t == "h"@ || t == "H"@) ==> r.0 == MenuStateView::Home
            &&& !(t == "b"@ || t == "B"@ || t == "h"@ || t == "H"@)
                ==> r.0 == (MenuStateView::ImportEncryptChoice { name: t, seed, address })
        }),
        ({
            let r = menu_step(MenuStateView::ImportEncryptChoice { name, seed, address }, MenuEventView::Line(line));
            let lower = lowercase(trimmed(line));
            &&& lower == "y"@ ==> r.0 == (MenuStateView::ImportPassword { name, seed, address })
                && r.1 == prompt(MenuStateView::ImportPassword { name, seed, address })
            &&& lower == "n"@ ==> r.0 == MenuStateView::ImportDone
                && r.1[0] == (MenuOutputView::StoreImportedWallet { name, seed, password: None })
            &&& lower == "b"@ ==> r.0 == MenuStateView::ImportSeed
            &&& lower == "h"@ ==> r.0 == MenuStateView::Home
        }),
        ({
            let r = menu_step(MenuStateView::ImportPassword { name, seed, address }, MenuEventView::Line(line));
            let t = trimmed(line);
            &&& t == "b"@ ==> r.0 == (MenuStateView::ImportPassword { name, seed, address })
            &&& t == "h"@ ==> r.0 == MenuStateView::Home
            &&& !(t == "b"@ || t == "h"@) ==> r.0 == MenuStateView::ImportDone
                && r.1[0] == (MenuOutputView::StoreImportedWallet { name, seed, password: Some(t) })
        }),
        prompt(MenuStateView::ImportPassword { name, seed, address })[1]
            == say("Choose a password to encrypt the wallet's sensitive info. Enter b to go back, h to go home."@),
{
    lemma_answers_differ();
    let r = menu_step(MenuStateView::ImportEncryptChoice { name, seed, address }, MenuEventView::Line(line));
    if lowercase(trimmed(line)) == "y"@ {
        assert(r.1 =~= prompt(MenuStateView::ImportPassword { name, seed, address }));
    }
}

} // verus!
