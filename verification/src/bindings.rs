//! The key bindings of the session, as a table from key chord to what the key
//! does.  Later entries of the table override earlier ones for the same key.
use crate::decimal::decimal;
use crate::decimal::lemma_number_of_decimal;
use crate::decimal::to_decimal;
use crate::directory::round_robin;
use crate::directory::PINNED_TAGS;
use vstd::prelude::*;
use vstd::string::StringExecFns;

verus! {

/// A program that a key starts.
#[derive(Debug, Clone, Copy, PartialEq, Eq, Structural)]
pub enum Program {
    Terminal,
    FileManager,
    Browser,
    Editor,
    PlayPause,
    PreviousTrack,
    NextTrack,
    VolumeUp,
    VolumeDown,
}

/// What a key does.
#[derive(Debug, Clone, Copy, PartialEq, Eq, Structural)]
pub enum Binding {
    SwapDown,
    SwapUp,
    KillFocused,
    FocusDown,
    FocusUp,
    /// Moves the focus to the screen with this index.
    FocusScreen(usize),
    /// Moves the focused window to the screen with this index.
    MoveFocusedToScreen(usize),
    NextLayout,
    PreviousLayout,
    /// Changes the number of windows in the main area by this much.
    IncMain(i8),
    ShrinkMain,
    ExpandMain,
    Spawn(Program),
    SpawnDmenu,
    PowerMenu,
    SetTracingFilter,
    LogCurrentState,
    /// Toggles the scratchpad `term`.
    ToggleTerminalScratchpad,
    /// Shows the workspace whose tag is this number on its home screen.
    ShowWorkspace(usize),
    /// Moves the focused window to the workspace whose tag is this number.
    MoveFocusedToTag(usize),
}

/// The command line of a program.
pub open spec fn command_line(program: Program) -> Seq<char> {
    match program {
        Program::Terminal => "tabbed alacritty --embed"@,
        Program::FileManager => "thunar"@,
        Program::Browser => "firefox"@,
        Program::Editor => "code"@,
        Program::PlayPause => "playerctl play-pause"@,
        Program::PreviousTrack => "playerctl previous"@,
        Program::NextTrack => "playerctl next"@,
        Program::VolumeUp => "amixer -D pulse sset Master 5%+"@,
        Program::VolumeDown => "amixer -D pulse sset Master 5%-"@,
    }
}

/// The command line of a program.
pub fn command(program: Program) -> (line: &'static str)
    ensures
        line@ == command_line(program),
{
    match program {
        Program::Terminal => "tabbed alacritty --embed",
        Program::FileManager => "thunar",
        Program::Browser => "firefox",
        Program::Editor => "code",
        Program::PlayPause => "playerctl play-pause",
        Program::PreviousTrack => "playerctl previous",
        Program::NextTrack => "playerctl next",
        Program::VolumeUp => "amixer -D pulse sset Master 5%+",
        Program::VolumeDown => "amixer -D pulse sset Master 5%-",
    }
}

/// The keys that are bound whatever the tags are, in the order of the table.
pub open spec fn fixed_keys() -> Seq<(Seq<char>, Binding)> {
    seq![
        ("A-Return"@, Binding::SwapDown),
        ("A-S-Return"@, Binding::SwapUp),
        ("A-S-c"@, Binding::KillFocused),
        ("A-Tab"@, Binding::FocusDown),
        ("A-S-Tab"@, Binding::FocusUp),
        ("A-w"@, Binding::FocusScreen(0)),
        ("A-e"@, Binding::FocusScreen(1)),
        ("A-S-w"@, Binding::MoveFocusedToScreen(0)),
        ("A-S-e"@, Binding::MoveFocusedToScreen(1)),
        ("A-space"@, Binding::NextLayout),
        ("A-S-space"@, Binding::PreviousLayout),
        ("A-comma"@, Binding::IncMain(1i8)),
        ("A-period"@, Binding::IncMain(-1i8)),
        ("A-h"@, Binding::ShrinkMain),
        ("A-l"@, Binding::ExpandMain),
        ("A-S-Return"@, Binding::Spawn(Program::Terminal)),
        ("A-F2"@, Binding::Spawn(Program::FileManager)),
        ("A-F3"@, Binding::Spawn(Program::Browser)),
        ("A-F4"@, Binding::Spawn(Program::Editor)),
        ("A-p"@, Binding::SpawnDmenu),
        ("A-Escape"@, Binding::PowerMenu),
        ("A-C-space"@, Binding::Spawn(Program::PlayPause)),
        ("A-C-Left"@, Binding::Spawn(Program::PreviousTrack)),
        ("A-C-Right"@, Binding::Spawn(Program::NextTrack)),
        ("C-KP_Add"@, Binding::Spawn(Program::VolumeUp)),
        ("C-KP_Subtract"@, Binding::Spawn(Program::VolumeDown)),
        ("A-M-t"@, Binding::SetTracingFilter),
        ("A-M-d"@, Binding::LogCurrentState),
        ("A-slash"@, Binding::ToggleTerminalScratchpad),
    ]
}

/// The key that stands for the tag with the number `k`: the digit for the
/// tags `1` to `9`, then `0`, `minus` and `plus` for the tags `10`, `11` and
/// `12`.
pub open spec fn tag_key(k: nat) -> Seq<char> {
    if k <= 9 {
        decimal(k)
    } else if k == 10 {
        "0"@
    } else if k == 11 {
        "minus"@
    } else {
        "plus"@
    }
}

/// The two entries for the tag with the number `k`: its key shows the
/// workspace, and with shift the key moves the focused window there.
pub open spec fn tag_entries(k: nat) -> Seq<(Seq<char>, Binding)> {
    seq![
        ("A-"@ + tag_key(k), Binding::ShowWorkspace(k as usize)),
        ("A-S-"@ + tag_key(k), Binding::MoveFocusedToTag(k as usize)),
    ]
}

/// The entries for the tags `1` to `n`, in the order of the tags.
pub open spec fn tag_keys(n: nat) -> Seq<(Seq<char>, Binding)>
    decreases n,
{
    if n == 0 {
        Seq::empty()
    } else {
        tag_keys((n - 1) as nat) + tag_entries(n)
    }
}

/// The whole table: the fixed keys, then the keys of the twelve tags.
pub open spec fn key_table() -> Seq<(Seq<char>, Binding)> {
    fixed_keys() + tag_keys(PINNED_TAGS as nat)
}

/// The table that a list of entries stands for.
pub open spec fn entries(v: Seq<(String, Binding)>) -> Seq<(Seq<char>, Binding)> {
    Seq::new(v.len(), |i: int| (v[i].0@, v[i].1))
}

/// The key that stands for the tag with the number `k`.
fn tag_key_name(k: usize) -> (key: String)
    requires
        1 <= k <= 12,
    ensures
        key@ == tag_key(k as nat),
{
    if k <= 9 {
        to_decimal(k)
    } else if k == 10 {
        String::from_str("0")
    } else if k == 11 {
        String::from_str("minus")
    } else {
        String::from_str("plus")
    }
}

/// Adds an entry to the end of a table.
fn bind(table: &mut Vec<(String, Binding)>, key: &str, binding: Binding)
    ensures
        entries(final(table)@) == entries(old(table)@).push((key@, binding)),
{
    table.push((String::from_str(key), binding));
    assert(entries(table@) =~= entries(old(table)@).push((key@, binding)));
}

/// The key bindings of the session.
pub fn raw_key_bindings() -> (table: Vec<(String, Binding)>)
    ensures
        entries(table@) == key_table(),
{
    let mut table: Vec<(String, Binding)> = Vec::new();
    assert(entries(table@) =~= Seq::<(Seq<char>, Binding)>::empty());
    bind(&mut table, "A-Return", Binding::SwapDown);
    bind(&mut table, "A-S-Return", Binding::SwapUp);
    bind(&mut table, "A-S-c", Binding::KillFocused);
    bind(&mut table, "A-Tab", Binding::FocusDown);
    bind(&mut table, "A-S-Tab", Binding::FocusUp);
    bind(&mut table, "A-w", Binding::FocusScreen(0));
    bind(&mut table, "A-e", Binding::FocusScreen(1));
    bind(&mut table, "A-S-w", Binding::MoveFocusedToScreen(0));
    bind(&mut table, "A-S-e", Binding::MoveFocusedToScreen(1));
    bind(&mut table, "A-space", Binding::NextLayout);
    bind(&mut table, "A-S-space", Binding::PreviousLayout);
    bind(&mut table, "A-comma", Binding::IncMain(1));
    bind(&mut table, "A-period", Binding::IncMain(-1));
    bind(&mut table, "A-h", Binding::ShrinkMain);
    bind(&mut table, "A-l", Binding::ExpandMain);
    bind(&mut table, "A-S-Return", Binding::Spawn(Program::Terminal));
    bind(&mut table, "A-F2", Binding::Spawn(Program::FileManager));
    bind(&mut table, "A-F3", Binding::Spawn(Program::Browser));
    bind(&mut table, "A-F4", Binding::Spawn(Program::Editor));
    bind(&mut table, "A-p", Binding::SpawnDmenu);
    bind(&mut table, "A-Escape", Binding::PowerMenu);
    bind(&mut table, "A-C-space", Binding::Spawn(Program::PlayPause));
    bind(&mut table, "A-C-Left", Binding::Spawn(Program::PreviousTrack));
    bind(&mut table, "A-C-Right", Binding::Spawn(Program::NextTrack));
    bind(&mut table, "C-KP_Add", Binding::Spawn(Program::VolumeUp));
    bind(&mut table, "C-KP_Subtract", Binding::Spawn(Program::VolumeDown));
    bind(&mut table, "A-M-t", Binding::SetTracingFilter);
    bind(&mut table, "A-M-d", Binding::LogCurrentState);
    bind(&mut table, "A-slash", Binding::ToggleTerminalScratchpad);
    assert(entries(table@) =~= fixed_keys());
    let mut k: usize = 0;
    assert(entries(table@) =~= fixed_keys() + tag_keys(0));
    while k < PINNED_TAGS
        invariant
            k <= PINNED_TAGS,
            entries(table@) == fixed_keys() + tag_keys(k as nat),
        decreases PINNED_TAGS - k,
    {
        k += 1;
        let name = tag_key_name(k);
        let mut show = String::from_str("A-");
        show.append(name.as_str());
        let mut send = String::from_str("A-S-");
        send.append(name.as_str());
        bind(&mut table, show.as_str(), Binding::ShowWorkspace(k));
        bind(&mut table, send.as_str(), Binding::MoveFocusedToTag(k));
        assert(entries(table@) =~= fixed_keys() + tag_keys(k as nat));
    }
    table
}

/// A key shows a workspace only where the directory of the session pins its
/// tag: every tag that a key asks for has a home screen as soon as there is a
/// screen at all.
pub proof fn lemma_shown_tags_are_pinned(i: int, screens: nat)
    requires
        0 <= i < key_table().len(),
        key_table()[i].1 is ShowWorkspace,
        0 < screens,
    ensures
        round_robin(PINNED_TAGS as nat, screens).contains_key(
            decimal(key_table()[i].1->ShowWorkspace_0 as nat),
        ),
{
    lemma_tag_keys(PINNED_TAGS as nat);
    let k = key_table()[i].1->ShowWorkspace_0 as nat;
    assert(i >= fixed_keys().len());
    assert(1 <= k <= PINNED_TAGS);
    lemma_number_of_decimal(k);
}

/// The entries for the tags `1` to `n` are two for each tag, and each of them
/// names its tag.
proof fn lemma_tag_keys(n: nat)
    requires
        n <= usize::MAX,
    ensures
        tag_keys(n).len() == 2 * n,
        forall|j: int|
            0 <= j < 2 * n ==> match (#[trigger] tag_keys(n)[j]).1 {
                Binding::ShowWorkspace(k) => 1 <= k <= n,
                Binding::MoveFocusedToTag(k) => 1 <= k <= n,
                _ => false,
            },
    decreases n,
{
    if n > 0 {
        lemma_tag_keys((n - 1) as nat);
    }
}

} // verus!
