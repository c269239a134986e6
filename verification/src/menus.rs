//! The menus of the session: what they offer, and what a selection leads to.
//!
//! Showing a menu and running a command is left to the caller.
use crate::client_set::current_screen_index;
use crate::client_set::focused_screen;
use crate::client_set::screen_indices;
use crate::decimal::decimal;
use crate::decimal::to_decimal;
use crate::scratchpads::names_of;
use penrose::pure::StackSet;
use penrose::Xid;
use vstd::prelude::*;
use vstd::string::StringExecFns;

verus! {

/// What came back from a menu.
#[derive(Debug, PartialEq, Eq)]
pub enum MenuChoice {
    /// A line of the menu was selected: its number, counted from 0, and its
    /// text.
    Line(usize, String),
    /// What was typed matches no line of the menu.
    UserInput(String),
    /// The menu was left without a selection.
    NoMatch,
}

/// What the power menu asks for.
#[derive(Debug, Clone, Copy, PartialEq, Eq)]
pub enum PowerAction {
    /// No line of the menu was selected: nothing is done.
    Nothing,
    /// This command line is run.
    Spawn(&'static str),
    /// The window manager exits, with status 0, so that it is started again.
    Exit,
    /// The selected line is none of the menu's options.
    Unknown,
}

/// The command line that an option of the power menu runs.
pub open spec fn power_command(choice: Seq<char>) -> Option<Seq<char>> {
    if choice == "lock"@ {
        Some("xflock4"@)
    } else if choice == "logout"@ {
        Some("pkill -fi wm"@)
    } else if choice == "shutdown"@ {
        Some("sudo shutdown -h now"@)
    } else if choice == "reboot"@ {
        Some("sudo reboot"@)
    } else {
        None
    }
}

/// Whether two string slices hold the same text.
fn same_text(a: &str, b: &str) -> (same: bool)
    ensures
        same == (a@ == b@),
{
    a.to_owned() == b.to_owned()
}

/// The prompt of the power menu.
pub fn power_menu_prompt() -> (prompt: &'static str)
    ensures
        prompt@ == ">>> "@,
{
    ">>> "
}

/// The options of the power menu, in the order in which it shows them.
pub fn power_menu_options() -> (options: Vec<&'static str>)
    ensures
        names_of(options@) == seq!["lock"@, "logout"@, "restart-wm"@, "shutdown"@, "reboot"@],
{
    let options: Vec<&'static str> = vec!["lock", "logout", "restart-wm", "shutdown", "reboot"];
    assert(names_of(options@) =~= seq![
        "lock"@,
        "logout"@,
        "restart-wm"@,
        "shutdown"@,
        "reboot"@,
    ]);
    options
}

/// What a selection in the power menu leads to.  Only a selected line leads
/// to anything: an option with a command runs it, `restart-wm` exits.
pub fn power_menu(selection: &MenuChoice) -> (action: PowerAction)
    ensures
        match *selection {
            MenuChoice::Line(_, choice) => match power_command(choice@) {
                Some(command) => action matches PowerAction::Spawn(c) && c@ == command,
                None => if choice@ == "restart-wm"@ {
                    action == PowerAction::Exit
                } else {
                    action == PowerAction::Unknown
                },
            },
            _ => action == PowerAction::Nothing,
        },
{
    match selection {
        MenuChoice::Line(_, choice) => {
            let choice = choice.as_str();
            if same_text(choice, "lock") {
                PowerAction::Spawn("xflock4")
            } else if same_text(choice, "logout") {
                PowerAction::Spawn("pkill -fi wm")
            } else if same_text(choice, "shutdown") {
                PowerAction::Spawn("sudo shutdown -h now")
            } else if same_text(choice, "reboot") {
                PowerAction::Spawn("sudo reboot")
            } else if same_text(choice, "restart-wm") {
                PowerAction::Exit
            } else {
                PowerAction::Unknown
            }
        },
        _ => PowerAction::Nothing,
    }
}

/// The command line that starts the program launcher on the screen that has
/// the focus.
pub fn spawn_dmenu(cs: &StackSet<Xid>) -> (command: String)
    ensures
        0 <= focused_screen(*cs) < screen_indices(*cs).len(),
        command@ == "dmenu_run -m "@ + decimal(screen_indices(*cs)[focused_screen(*cs)] as nat),
{
    let index = current_screen_index(cs);
    let mut command = String::from_str("dmenu_run -m ");
    command.append(to_decimal(index).as_str());
    command
}

/// The prompt of the menu that sets the tracing filter.
pub fn tracing_filter_prompt() -> (prompt: &'static str)
    ensures
        prompt@ == "filter: "@,
{
    "filter: "
}

/// The options of the menu that sets the tracing filter.
pub fn tracing_filter_options() -> (options: Vec<&'static str>)
    ensures
        names_of(options@) == seq!["trace"@, "debug"@, "info"@],
{
    let options: Vec<&'static str> = vec!["trace", "debug", "info"];
    assert(names_of(options@) =~= seq!["trace"@, "debug"@, "info"@]);
    options
}

/// The tracing filter that a selection asks for: the selected line, or what
/// was typed where it matches no line.  Without a selection there is none,
/// and the filter stays as it is.
pub fn set_tracing_filter(selection: MenuChoice) -> (filter: Option<String>)
    ensures
        filter == match selection {
            MenuChoice::Line(_, level) => Some(level),
            MenuChoice::UserInput(custom) => Some(custom),
            MenuChoice::NoMatch => None,
        },
{
    match selection {
        MenuChoice::Line(_, level) => Some(level),
        MenuChoice::UserInput(custom) => Some(custom),
        MenuChoice::NoMatch => None,
    }
}

} // verus!
