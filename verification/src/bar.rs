//! The status line: one line of markup for the bar, with a token for every
//! workspace tag and a token for every scratchpad.
use crate::client_set::current_screen_index;
use crate::client_set::current_tag;
use crate::client_set::display_order;
use crate::client_set::focused_screen;
use crate::client_set::ordered_workspace_tags;
use crate::client_set::screen_indices;
use crate::client_set::screen_indices_of;
use crate::client_set::states;
use crate::client_set::texts;
use crate::client_set::workspace_states;
use crate::client_set::workspaces;
use crate::decimal::decimal;
use crate::decimal::index_of;
use crate::decimal::parse_decimal;
use crate::decimal::to_decimal;
use crate::scratchpads::is_named_scratchpad_active;
use crate::scratchpads::names_of;
use crate::scratchpads::NamedScratchpadsState;
use penrose::pure::StackSet;
use penrose::Xid;
use vstd::prelude::*;
use vstd::string::StringExecFns;

verus! {

/// What the token of a tag shows as the tag's text.
#[derive(Debug, Clone, Copy, PartialEq, Eq, Structural)]
pub enum Labels {
    /// The tag itself.
    Plain,
    /// The tag inside a region that, when clicked, switches to the tag's
    /// desktop.  Every tag then has to read as a number.
    Clickable,
}

/// Why a line could not be rendered.  The number is the position, in display
/// order, of the first tag that is at fault.
#[derive(Debug, Clone, Copy, PartialEq, Eq, Structural)]
pub enum RenderError {
    /// The tag is neither among the occupied tags nor among the empty ones.
    Unclassified(usize),
    /// The tag was to be clickable and does not read as a number.
    NotNumbered(usize),
}

/// What a rendering is made from.  It is gathered afresh for every line.
#[derive(Debug)]
pub struct Snapshot {
    /// The workspace tags in display order.
    pub tags: Vec<String>,
    /// The tag of the workspace that has the focus.
    pub active: String,
    /// The tags of the workspaces on the screens that do not have the focus.
    pub visible: Vec<String>,
    /// The tags of the workspaces without a window.
    pub empty: Vec<String>,
    /// The tags of the workspaces with at least one window.
    pub occupied: Vec<String>,
}

/// A snapshot as mathematics: the tags in order, and the three groups of tags
/// as sets.
pub struct SnapshotView {
    pub tags: Seq<Seq<char>>,
    pub active: Seq<char>,
    pub visible: Set<Seq<char>>,
    pub empty: Set<Seq<char>>,
    pub occupied: Set<Seq<char>>,
}

impl View for Snapshot {
    type V = SnapshotView;

    open spec fn view(&self) -> SnapshotView {
        SnapshotView {
            tags: texts(self.tags@),
            active: self.active@,
            visible: texts(self.visible@).to_set(),
            empty: texts(self.empty@).to_set(),
            occupied: texts(self.occupied@).to_set(),
        }
    }
}

/// Every tag of the snapshot is either occupied or empty, and not both.
pub open spec fn well_formed(s: SnapshotView) -> bool {
    forall|i: int|
        0 <= i < s.tags.len() ==> (s.occupied.contains(#[trigger] s.tags[i]) != s.empty.contains(
            s.tags[i],
        ))
}

/// The desktop that a click on the tag `ws` asks for: the tag's number less
/// one, and desktop 0 for the number 0.
pub open spec fn desktop_of(ws: Seq<char>) -> nat {
    match index_of(ws) {
        Some(n) => if n == 0 {
            0
        } else {
            (n - 1) as nat
        },
        None => 0,
    }
}

/// The tag `ws` inside a region that switches to its desktop when clicked.
pub open spec fn action_markup(ws: Seq<char>) -> Seq<char> {
    "<action=`xdotool set_desktop "@ + decimal(desktop_of(ws)) + "`>"@ + ws + "</action>"@
}

/// The text `ws` in the colour `color`, between highlighted square brackets.
pub open spec fn active_markup(ws: Seq<char>, color: Seq<char>) -> Seq<char> {
    "<fc=#42cbf5>[</fc><fc="@ + color + ">"@ + ws + "</fc><fc=#42cbf5>]</fc>"@
}

/// The text `ws` in the colour `color`.
pub open spec fn inactive_markup(ws: Seq<char>, color: Seq<char>) -> Seq<char> {
    "<fc="@ + color + ">"@ + ws + "</fc>"@
}

/// The text `ws` in the colour `color`, between muted round brackets.
pub open spec fn visible_markup(ws: Seq<char>, color: Seq<char>) -> Seq<char> {
    "<fc=gray>(</fc><fc="@ + color + ">"@ + ws + "</fc><fc=gray>)</fc>"@
}

/// The token of a scratchpad: highlighted where it is meant to be visible,
/// muted and in round brackets where it is not.
pub open spec fn scratchpad_markup(name: Seq<char>, visible: bool) -> Seq<char> {
    if visible {
        "<fc=#42cbf5>[</fc><fc=white>"@ + name + "</fc><fc=#42cbf5>]</fc>"@
    } else {
        "<fc=gray>("@ + name + ")</fc>"@
    }
}

/// The colour of a tag: white where it is occupied, else gray where it is
/// empty.  A tag that is neither has no colour.
pub open spec fn occupancy_color(s: SnapshotView, tag: Seq<char>) -> Option<Seq<char>> {
    if s.occupied.contains(tag) {
        Some("white"@)
    } else if s.empty.contains(tag) {
        Some("gray"@)
    } else {
        None
    }
}

/// The text that stands for a tag.  A clickable tag that does not read as a
/// number has none.
pub open spec fn label(tag: Seq<char>, labels: Labels) -> Option<Seq<char>> {
    match labels {
        Labels::Plain => Some(tag),
        Labels::Clickable => if index_of(tag) is Some {
            Some(action_markup(tag))
        } else {
            None
        },
    }
}

/// What is wrong with the tag at position `i`, if anything.
pub open spec fn tag_fault(s: SnapshotView, labels: Labels, i: int) -> Option<RenderError> {
    if occupancy_color(s, s.tags[i]) is None {
        Some(RenderError::Unclassified(i as usize))
    } else if label(s.tags[i], labels) is None {
        Some(RenderError::NotNumbered(i as usize))
    } else {
        None
    }
}

/// The first fault among the tags from position `from` on.
pub open spec fn first_fault_from(s: SnapshotView, labels: Labels, from: int) -> Option<
    RenderError,
>
    decreases s.tags.len() - from,
{
    if from < 0 || from >= s.tags.len() {
        None
    } else {
        match tag_fault(s, labels, from) {
            Some(e) => Some(e),
            None => first_fault_from(s, labels, from + 1),
        }
    }
}

/// The fault of the first tag, in display order, that has one.
pub open spec fn first_fault(s: SnapshotView, labels: Labels) -> Option<RenderError> {
    first_fault_from(s, labels, 0)
}

/// The token of the tag at position `i`.  The first rule that applies
/// decides: the active tag stands in square brackets, a tag that is visible
/// on another screen in round brackets, any other tag stands alone.
pub open spec fn tag_token(s: SnapshotView, labels: Labels, i: int) -> Seq<char> {
    let tag = s.tags[i];
    let color = occupancy_color(s, tag).unwrap();
    let text = label(tag, labels).unwrap();
    if tag == s.active {
        active_markup(text, color)
    } else if s.visible.contains(tag) {
        visible_markup(text, color)
    } else {
        inactive_markup(text, color)
    }
}

/// The tokens of the tags, in display order.
pub open spec fn tag_tokens(s: SnapshotView, labels: Labels) -> Seq<Seq<char>> {
    Seq::new(s.tags.len(), |i: int| tag_token(s, labels, i))
}

/// Whether the tracker has the scratchpad `name` as visible.
pub open spec fn shown(tracker: Map<Seq<char>, bool>, name: Seq<char>) -> bool {
    tracker.contains_key(name) && tracker[name]
}

/// The tokens of the scratchpads `names`, in their order.
pub open spec fn scratchpad_tokens(names: Seq<Seq<char>>, tracker: Map<Seq<char>, bool>) -> Seq<
    Seq<char>,
> {
    Seq::new(names.len(), |i: int| scratchpad_markup(names[i], shown(tracker, names[i])))
}

/// The tokens with one space between each two of them.
pub open spec fn joined(tokens: Seq<Seq<char>>) -> Seq<char>
    decreases tokens.len(),
{
    if tokens.len() == 0 {
        Seq::empty()
    } else if tokens.len() == 1 {
        tokens[0]
    } else {
        joined(tokens.drop_last()) + " "@ + tokens.last()
    }
}

/// All tokens of a line: those of the tags, then those of the scratchpads.
pub open spec fn bar_tokens(
    s: SnapshotView,
    labels: Labels,
    names: Seq<Seq<char>>,
    tracker: Map<Seq<char>, bool>,
) -> Seq<Seq<char>> {
    tag_tokens(s, labels) + scratchpad_tokens(names, tracker)
}

/// The line for the bar: the tokens with one space between each two of them,
/// and a line feed at the end.
pub open spec fn bar_line(
    s: SnapshotView,
    labels: Labels,
    names: Seq<Seq<char>>,
    tracker: Map<Seq<char>, bool>,
) -> Seq<char> {
    joined(bar_tokens(s, labels, names, tracker)) + "\n"@
}

/// The tag `ws` inside a region that switches to the tag's desktop when
/// clicked.  The desktop is the tag's number less one.
pub fn format_action(ws: &str) -> (s: String)
    requires
        index_of(ws@) is Some,
    ensures
        s@ == action_markup(ws@),
{
    let idx = match parse_decimal(ws) {
        Some(n) => if n == 0 {
            0
        } else {
            n - 1
        },
        None => 0,
    };
    let desktop = to_decimal(idx);
    let mut s = String::from_str("<action=`xdotool set_desktop ");
    s.append(desktop.as_str());
    s.append("`>");
    s.append(ws);
    s.append("</action>");
    s
}

/// The token of the active workspace.
pub fn format_active_ws(ws: &str, color: &str) -> (s: String)
    ensures
        s@ == active_markup(ws@, color@),
{
    let mut s = String::from_str("<fc=#42cbf5>[</fc><fc=");
    s.append(color);
    s.append(">");
    s.append(ws);
    s.append("</fc><fc=#42cbf5>]</fc>");
    s
}

/// The token of a workspace that is on no screen.
pub fn format_inactive_ws(ws: &str, color: &str) -> (s: String)
    ensures
        s@ == inactive_markup(ws@, color@),
{
    let mut s = String::from_str("<fc=");
    s.append(color);
    s.append(">");
    s.append(ws);
    s.append("</fc>");
    s
}

/// The token of a workspace that is on a screen without the focus.
pub fn format_inactive_but_visible_ws(ws: &str, color: &str) -> (s: String)
    ensures
        s@ == visible_markup(ws@, color@),
{
    let mut s = String::from_str("<fc=gray>(</fc><fc=");
    s.append(color);
    s.append(">");
    s.append(ws);
    s.append("</fc><fc=gray>)</fc>");
    s
}

/// The token of the scratchpad `scratchpad`, as the tracker has it.
pub fn format_named_scratchpad(state: &NamedScratchpadsState, scratchpad: &str) -> (s: String)
    ensures
        s@ == scratchpad_markup(scratchpad@, shown(state@, scratchpad@)),
{
    if is_named_scratchpad_active(state, scratchpad) {
        let mut s = String::from_str("<fc=#42cbf5>[</fc><fc=white>");
        s.append(scratchpad);
        s.append("</fc><fc=#42cbf5>]</fc>");
        s
    } else {
        let mut s = String::from_str("<fc=gray>(");
        s.append(scratchpad);
        s.append(")</fc>");
        s
    }
}

/// Whether `tag` is one of `list`.
fn has_tag(list: &Vec<String>, tag: &String) -> (found: bool)
    ensures
        found == texts(list@).to_set().contains(tag@),
{
    let mut i: usize = 0;
    while i < list.len()
        invariant
            i <= list.len(),
            forall|k: int| 0 <= k < i ==> list@[k]@ != tag@,
        decreases list.len() - i,
    {
        if list[i] == *tag {
            assert(texts(list@)[i as int] == tag@);
            return true;
        }
        i += 1;
    }
    false
}

/// The tokens of the tags of `snapshot`, in display order, or the first
/// fault that keeps them from being rendered.
pub fn render_tags(snapshot: &Snapshot, labels: Labels) -> (r: Result<Vec<String>, RenderError>)
    ensures
        match r {
            Ok(tokens) => {
                &&& first_fault(snapshot@, labels) is None
                &&& tokens.len() == snapshot.tags.len()
                &&& texts(tokens@) == tag_tokens(snapshot@, labels)
            },
            Err(e) => first_fault(snapshot@, labels) == Some(e),
        },
{
    let mut tokens: Vec<String> = Vec::new();
    let mut i: usize = 0;
    while i < snapshot.tags.len()
        invariant
            i <= snapshot.tags.len(),
            tokens.len() == i,
            first_fault(snapshot@, labels) == first_fault_from(snapshot@, labels, i as int),
            forall|k: int| 0 <= k < i ==> tokens@[k]@ == tag_token(snapshot@, labels, k),
        decreases snapshot.tags.len() - i,
    {
        let ws = &snapshot.tags[i];
        assert(snapshot@.tags[i as int] == ws@);
        let color = if has_tag(&snapshot.occupied, ws) {
            "white"
        } else if has_tag(&snapshot.empty, ws) {
            "gray"
        } else {
            return Err(RenderError::Unclassified(i));
        };
        let text = match labels {
            Labels::Plain => ws.clone(),
            Labels::Clickable => match parse_decimal(ws.as_str()) {
                Some(_) => format_action(ws.as_str()),
                None => {
                    return Err(RenderError::NotNumbered(i));
                },
            },
        };
        let token = if *ws == snapshot.active {
            format_active_ws(text.as_str(), color)
        } else if has_tag(&snapshot.visible, ws) {
            format_inactive_but_visible_ws(text.as_str(), color)
        } else {
            format_inactive_ws(text.as_str(), color)
        };
        tokens.push(token);
        i += 1;
    }
    assert(texts(tokens@) =~= tag_tokens(snapshot@, labels));
    Ok(tokens)
}

/// The tokens of the scratchpads `names`, in their order.
pub fn render_scratchpads(names: &Vec<&str>, state: &NamedScratchpadsState) -> (tokens: Vec<String>)
    ensures
        tokens.len() == names.len(),
        texts(tokens@) == scratchpad_tokens(names_of(names@), state@),
{
    let mut tokens: Vec<String> = Vec::new();
    let mut i: usize = 0;
    while i < names.len()
        invariant
            i <= names.len(),
            tokens.len() == i,
            forall|k: int|
                0 <= k < i ==> tokens@[k]@ == scratchpad_markup(
                    names@[k]@,
                    shown(state@, names@[k]@),
                ),
        decreases names.len() - i,
    {
        let name: &str = names[i];
        tokens.push(format_named_scratchpad(state, name));
        i += 1;
    }
    assert(texts(tokens@) =~= scratchpad_tokens(names_of(names@), state@));
    tokens
}

/// The tokens with one space between each two of them.
pub fn join_tokens(tokens: &Vec<String>) -> (s: String)
    ensures
        s@ == joined(texts(tokens@)),
{
    let mut s = String::new();
    let mut i: usize = 0;
    assert(texts(tokens@).subrange(0, 0) =~= Seq::<Seq<char>>::empty());
    while i < tokens.len()
        invariant
            i <= tokens.len(),
            s@ == joined(texts(tokens@).subrange(0, i as int)),
        decreases tokens.len() - i,
    {
        let ghost before = texts(tokens@).subrange(0, i as int);
        let ghost after = texts(tokens@).subrange(0, i + 1);
        assert(after.drop_last() =~= before);
        assert(after.last() == tokens@[i as int]@);
        if i > 0 {
            s.append(" ");
        }
        s.append(tokens[i].as_str());
        assert(s@ =~= joined(after));
        i += 1;
    }
    assert(texts(tokens@).subrange(0, i as int) =~= texts(tokens@));
    s
}

/// The line for the bar: a token for every tag of `snapshot`, in display
/// order, then a token for every scratchpad of `names`, in their order, with
/// one space between each two tokens and a line feed at the end.  Where a tag
/// is at fault there is no line, and the first fault is returned.
pub fn render(
    snapshot: &Snapshot,
    labels: Labels,
    names: &Vec<&str>,
    state: &NamedScratchpadsState,
) -> (r: Result<String, RenderError>)
    ensures
        match r {
            Ok(line) => first_fault(snapshot@, labels) is None && line@ == bar_line(
                snapshot@,
                labels,
                names_of(names@),
                state@,
            ),
            Err(e) => first_fault(snapshot@, labels) == Some(e),
        },
{
    let mut tokens = match render_tags(snapshot, labels) {
        Ok(tokens) => tokens,
        Err(e) => {
            return Err(e);
        },
    };
    let mut pads = render_scratchpads(names, state);
    let ghost tag_part = tokens@;
    let ghost pad_part = pads@;
    tokens.append(&mut pads);
    assert(texts(tokens@) =~= texts(tag_part) + texts(pad_part));
    let mut line = join_tokens(&tokens);
    line.append("\n");
    Ok(line)
}

/// The screen at position `k` does not have the focus and shows the workspace
/// with the tag `tag`.
pub open spec fn shows_beside_focus(cs: StackSet<Xid>, k: int, tag: Seq<char>) -> bool {
    &&& 0 <= k < screen_indices(cs).len()
    &&& screen_indices(cs)[k] != screen_indices(cs)[focused_screen(cs)]
    &&& workspaces(cs)[k].0 == tag
}

/// The tags of the workspaces on the first `n` screens, but for the screens
/// with the index of the focused one.
pub open spec fn tags_beside_focus(cs: StackSet<Xid>, n: int) -> Set<Seq<char>> {
    Set::new(|tag: Seq<char>| exists|k: int| 0 <= k < n && shows_beside_focus(cs, k, tag))
}

/// The workspace in slot `k` has the tag `tag` and is empty, or is not, as
/// `empty` says.
pub open spec fn slot_holds(cs: StackSet<Xid>, k: int, tag: Seq<char>, empty: bool) -> bool {
    0 <= k < workspaces(cs).len() && workspaces(cs)[k] == (tag, empty)
}

/// The tags of the workspaces in the first `n` slots that are empty, or are
/// not, as `empty` says.
pub open spec fn tags_in_state(cs: StackSet<Xid>, empty: bool, n: int) -> Set<Seq<char>> {
    Set::new(|tag: Seq<char>| exists|k: int| 0 <= k < n && slot_holds(cs, k, tag, empty))
}

/// What the status line shows of a client set.
pub open spec fn snapshot_of(cs: StackSet<Xid>) -> SnapshotView {
    SnapshotView {
        tags: display_order(cs),
        active: workspaces(cs)[focused_screen(cs)].0,
        visible: tags_beside_focus(cs, screen_indices(cs).len() as int),
        empty: tags_in_state(cs, true, workspaces(cs).len() as int),
        occupied: tags_in_state(cs, false, workspaces(cs).len() as int),
    }
}

/// Gathers from the client set what the status line shows of it.
pub fn snapshot(cs: &StackSet<Xid>) -> (s: Snapshot)
    ensures
        s@ == snapshot_of(*cs),
{
    let tags = ordered_workspace_tags(cs);
    let active = current_tag(cs);
    let focus_index = current_screen_index(cs);
    let indices = screen_indices_of(cs);
    let all = workspace_states(cs);

    let mut visible: Vec<String> = Vec::new();
    let mut i: usize = 0;
    assert(texts(visible@).to_set() =~= tags_beside_focus(*cs, 0));
    while i < indices.len()
        invariant
            i <= indices.len(),
            indices@ == screen_indices(*cs),
            states(all@) == workspaces(*cs),
            all.len() >= indices.len(),
            0 <= focused_screen(*cs) < screen_indices(*cs).len(),
            focus_index == screen_indices(*cs)[focused_screen(*cs)],
            texts(visible@).to_set() == tags_beside_focus(*cs, i as int),
        decreases indices.len() - i,
    {
        let ghost before = texts(visible@);
        assert(states(all@)[i as int] == (all@[i as int].0@, all@[i as int].1));
        if indices[i] != focus_index {
            let tag = all[i].0.clone();
            visible.push(tag);
            proof {
                assert(texts(visible@) =~= before.push(tag@));
                before.lemma_push_to_set_commute(tag@);
                assert(shows_beside_focus(*cs, i as int, tag@));
                assert(before.to_set().insert(tag@) =~= tags_beside_focus(*cs, i + 1));
            }
        } else {
            assert(tags_beside_focus(*cs, i as int) =~= tags_beside_focus(*cs, i + 1));
        }
        i += 1;
    }

    let mut empty: Vec<String> = Vec::new();
    let mut occupied: Vec<String> = Vec::new();
    let mut j: usize = 0;
    assert(texts(empty@).to_set() =~= tags_in_state(*cs, true, 0));
    assert(texts(occupied@).to_set() =~= tags_in_state(*cs, false, 0));
    while j < all.len()
        invariant
            j <= all.len(),
            states(all@) == workspaces(*cs),
            texts(empty@).to_set() == tags_in_state(*cs, true, j as int),
            texts(occupied@).to_set() == tags_in_state(*cs, false, j as int),
        decreases all.len() - j,
    {
        let ghost empty_before = texts(empty@);
        let ghost occupied_before = texts(occupied@);
        assert(states(all@)[j as int] == (all@[j as int].0@, all@[j as int].1));
        let tag = all[j].0.clone();
        if all[j].1 {
            empty.push(tag);
            proof {
                assert(texts(empty@) =~= empty_before.push(tag@));
                empty_before.lemma_push_to_set_commute(tag@);
                assert(slot_holds(*cs, j as int, tag@, true));
                assert(empty_before.to_set().insert(tag@) =~= tags_in_state(*cs, true, j + 1));
                assert(tags_in_state(*cs, false, j as int) =~= tags_in_state(*cs, false, j + 1));
            }
        } else {
            occupied.push(tag);
            proof {
                assert(texts(occupied@) =~= occupied_before.push(tag@));
                occupied_before.lemma_push_to_set_commute(tag@);
                assert(slot_holds(*cs, j as int, tag@, false));
                assert(occupied_before.to_set().insert(tag@) =~= tags_in_state(
                    *cs,
                    false,
                    j + 1,
                ));
                assert(tags_in_state(*cs, true, j as int) =~= tags_in_state(*cs, true, j + 1));
            }
        }
        j += 1;
    }
    Snapshot { tags, active, visible, empty, occupied }
}

/// The line that the bar shows for the client set `cs`: the tags in display
/// order, each one clickable, then the scratchpads `term` and `vpn`.  Where a
/// tag is neither occupied nor empty, or does not read as a number, there is
/// no line, and the first such fault is returned.
pub fn display_workspaces(cs: &StackSet<Xid>, state: &NamedScratchpadsState) -> (r: Result<
    String,
    RenderError,
>)
    ensures
        match r {
            Ok(line) => first_fault(snapshot_of(*cs), Labels::Clickable) is None && line@
                == bar_line(snapshot_of(*cs), Labels::Clickable, seq!["term"@, "vpn"@], state@),
            Err(e) => first_fault(snapshot_of(*cs), Labels::Clickable) == Some(e),
        },
{
    let scratchpad_names: Vec<&str> = vec!["term", "vpn"];
    assert(names_of(scratchpad_names@) =~= seq!["term"@, "vpn"@]);
    let gathered = snapshot(cs);
    render(&gathered, Labels::Clickable, &scratchpad_names, state)
}

/// No tag of a snapshot is unclassified exactly when every tag is occupied or
/// empty; in a well-formed snapshot every tag is exactly one of the two, so
/// rendering with plain labels has no fault at all.
pub proof fn lemma_classification_is_exhaustive(s: SnapshotView, labels: Labels)
    requires
        well_formed(s),
    ensures
        forall|i: int|
            0 <= i < s.tags.len() ==> #[trigger] tag_fault(s, labels, i) != Some(
                RenderError::Unclassified(i as usize),
            ),
        forall|i: int|
            0 <= i < s.tags.len() ==> (occupancy_color(s, #[trigger] s.tags[i]) == Some("white"@)
                <==> s.occupied.contains(s.tags[i])) && (occupancy_color(s, s.tags[i]) == Some(
                "gray"@,
            ) <==> s.empty.contains(s.tags[i])),
        first_fault(s, Labels::Plain) is None,
{
    assert forall|i: int| 0 <= i < s.tags.len() implies #[trigger] tag_fault(s, labels, i)
        != Some(RenderError::Unclassified(i as usize)) by {
        assert(s.occupied.contains(s.tags[i]) != s.empty.contains(s.tags[i]));
    }
    assert forall|i: int| 0 <= i < s.tags.len() implies (occupancy_color(s, #[trigger] s.tags[i])
        == Some("white"@) <==> s.occupied.contains(s.tags[i])) && (occupancy_color(s, s.tags[i])
        == Some("gray"@) <==> s.empty.contains(s.tags[i])) by {
        assert(s.occupied.contains(s.tags[i]) != s.empty.contains(s.tags[i]));
        lemma_colors_differ();
    }
    lemma_no_fault_from(s, Labels::Plain, 0);
}

/// The two colours of occupancy are different texts.
proof fn lemma_colors_differ()
    ensures
        "white"@ != "gray"@,
{
    reveal_strlit("white");
    reveal_strlit("gray");
    assert("white"@.len() != "gray"@.len());
}

/// Where no tag from position `from` on has a fault, there is no first fault
/// from there on.
proof fn lemma_no_fault_from(s: SnapshotView, labels: Labels, from: int)
    requires
        0 <= from,
        forall|i: int| from <= i < s.tags.len() ==> tag_fault(s, labels, i) is None,
    ensures
        first_fault_from(s, labels, from) is None,
    decreases s.tags.len() - from,
{
    if from < s.tags.len() {
        lemma_no_fault_from(s, labels, from + 1);
    }
}

/// A line has exactly one token for every tag, in display order, and after
/// them exactly one token for every scratchpad, in their order.
pub proof fn lemma_one_token_each(
    s: SnapshotView,
    labels: Labels,
    names: Seq<Seq<char>>,
    tracker: Map<Seq<char>, bool>,
)
    ensures
        bar_tokens(s, labels, names, tracker).len() == s.tags.len() + names.len(),
        forall|i: int|
            0 <= i < s.tags.len() ==> #[trigger] bar_tokens(s, labels, names, tracker)[i]
                == tag_token(s, labels, i),
        forall|j: int|
            0 <= j < names.len() ==> #[trigger] bar_tokens(s, labels, names, tracker)[s.tags.len()
                + j] == scratchpad_markup(names[j], shown(tracker, names[j])),
{
}

/// The text `part` stands somewhere in the text `whole`, in one piece.
pub open spec fn occurs_in(part: Seq<char>, whole: Seq<char>) -> bool {
    exists|k: int|
        0 <= k && k + part.len() <= whole.len() && #[trigger] whole.subrange(
            k,
            k + part.len(),
        ) == part
}

/// A text stands in whatever is written around it.
proof fn lemma_occurs_between(before: Seq<char>, part: Seq<char>, after: Seq<char>)
    ensures
        occurs_in(part, before + part + after),
{
    let whole = before + part + after;
    let k = before.len() as int;
    assert(whole.subrange(k, k + part.len()) =~= part);
}

/// A text that stands in a part of a whole stands in the whole.
proof fn lemma_occurs_within(part: Seq<char>, middle: Seq<char>, whole: Seq<char>)
    requires
        occurs_in(part, middle),
        occurs_in(middle, whole),
    ensures
        occurs_in(part, whole),
{
    let i = choose|i: int|
        0 <= i && i + part.len() <= middle.len() && #[trigger] middle.subrange(i, i + part.len())
            == part;
    let j = choose|j: int|
        0 <= j && j + middle.len() <= whole.len() && #[trigger] whole.subrange(
            j,
            j + middle.len(),
        ) == middle;
    assert(whole.subrange(i + j, i + j + part.len()) =~= whole.subrange(
        j,
        j + middle.len(),
    ).subrange(i, i + part.len()));
}

/// The token of a tag that has no fault shows the tag, and the token of a
/// scratchpad shows its name.
pub proof fn lemma_token_shows_its_name(
    s: SnapshotView,
    labels: Labels,
    i: int,
    name: Seq<char>,
    visible: bool,
)
    requires
        0 <= i < s.tags.len(),
        tag_fault(s, labels, i) is None,
    ensures
        occurs_in(s.tags[i], tag_token(s, labels, i)),
        occurs_in(name, scratchpad_markup(name, visible)),
{
    let tag = s.tags[i];
    let color = occupancy_color(s, tag).unwrap();
    let text = label(tag, labels).unwrap();
    match labels {
        Labels::Plain => {
            lemma_occurs_between(Seq::empty(), tag, Seq::empty());
            assert(Seq::<char>::empty() + tag + Seq::<char>::empty() =~= tag);
        },
        Labels::Clickable => {
            lemma_occurs_between(
                "<action=`xdotool set_desktop "@ + decimal(desktop_of(tag)) + "`>"@,
                tag,
                "</action>"@,
            );
        },
    }
    assert(occurs_in(tag, text));
    lemma_occurs_between("<fc=#42cbf5>[</fc><fc="@ + color + ">"@, text, "</fc><fc=#42cbf5>]</fc>"@);
    lemma_occurs_between("<fc=gray>(</fc><fc="@ + color + ">"@, text, "</fc><fc=gray>)</fc>"@);
    lemma_occurs_between("<fc="@ + color + ">"@, text, "</fc>"@);
    lemma_occurs_within(tag, text, tag_token(s, labels, i));
    lemma_occurs_between("<fc=#42cbf5>[</fc><fc=white>"@, name, "</fc><fc=#42cbf5>]</fc>"@);
    lemma_occurs_between("<fc=gray>("@, name, ")</fc>"@);
}

/// Rendering depends on nothing but what it is given: equal snapshots, labels,
/// scratchpad names and trackers give the same line, character for character.
pub proof fn lemma_render_is_deterministic(
    a: SnapshotView,
    b: SnapshotView,
    labels: Labels,
    names: Seq<Seq<char>>,
    tracker_a: Map<Seq<char>, bool>,
    tracker_b: Map<Seq<char>, bool>,
)
    requires
        a.tags == b.tags,
        a.active == b.active,
        a.visible == b.visible,
        a.empty == b.empty,
        a.occupied == b.occupied,
        forall|name: Seq<char>| shown(tracker_a, name) == shown(tracker_b, name),
    ensures
        first_fault(a, labels) == first_fault(b, labels),
        bar_line(a, labels, names, tracker_a) == bar_line(b, labels, names, tracker_b),
{
    assert(a == b);
    assert(scratchpad_tokens(names, tracker_a) =~= scratchpad_tokens(names, tracker_b));
}

} // verus!
