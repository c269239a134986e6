//! The window manager's client set, as far as pinned workspaces and the
//! status line read and change it.
//!
//! The client set is penrose's `StackSet`.  Nothing in this module is proved:
//! it states what the few methods used here do to a small model of the set,
//! and the rest of the crate is verified against these statements.
//!
//! The model has one slot for every workspace.  The slots of the workspaces
//! that are on a screen come first, one for each screen, in the order in which
//! the set walks its screens; the slots of the hidden workspaces follow.
use penrose::pure::StackSet;
use penrose::pure::Workspace;
use penrose::Xid;
use vstd::prelude::*;

verus! {

/// `penrose::pure::StackSet`, opaque to the verifier.
#[verifier::external_type_specification]
#[verifier::external_body]
#[verifier::reject_recursive_types(C)]
pub struct ExStackSet<C: Clone + PartialEq + Eq + std::hash::Hash>(StackSet<C>);

/// `penrose::pure::Workspace`, opaque to the verifier.
#[verifier::external_type_specification]
#[verifier::external_body]
#[verifier::reject_recursive_types(T)]
pub struct ExWorkspace<T>(Workspace<T>);

/// `penrose::Xid`, opaque to the verifier.
#[verifier::external_type_specification]
#[verifier::external_body]
pub struct ExXid(Xid);

/// The index of each screen, in the order in which `StackSet::screens` walks
/// the screens.
pub uninterp spec fn screen_indices(cs: StackSet<Xid>) -> Seq<usize>;

/// Tag and emptiness of each workspace, in the order in which
/// `StackSet::workspaces` walks them: first the workspace of each screen, in
/// the order of `screen_indices`, then the hidden workspaces.
pub uninterp spec fn workspaces(cs: StackSet<Xid>) -> Seq<(Seq<char>, bool)>;

/// The position in `screen_indices` of the screen that has the focus.
pub uninterp spec fn focused_screen(cs: StackSet<Xid>) -> int;

/// The tags that `StackSet::ordered_workspaces` yields, in its order.
pub uninterp spec fn display_order(cs: StackSet<Xid>) -> Seq<Seq<char>>;

/// Tag and emptiness of one workspace.
pub uninterp spec fn workspace_state(w: Workspace<Xid>) -> (Seq<char>, bool);

/// The state of a workspace that holds nothing and has no name.
pub open spec fn blank_workspace() -> (Seq<char>, bool) {
    (Seq::<char>::empty(), true)
}

/// The focus is on one of the screens, and that screen has the index `index`.
pub open spec fn focus_is_on_index(cs: StackSet<Xid>, index: usize) -> bool {
    &&& 0 <= focused_screen(cs) < screen_indices(cs).len()
    &&& screen_indices(cs)[focused_screen(cs)] == index
}

/// The focus is on one of the screens, and the workspace on that screen has
/// the tag `tag`.
pub open spec fn focus_is_on_tag(cs: StackSet<Xid>, tag: Seq<char>) -> bool {
    &&& 0 <= focused_screen(cs) < screen_indices(cs).len()
    &&& workspaces(cs)[focused_screen(cs)].0 == tag
}

/// What a walk from screen to screen leaves behind that started with the
/// focus at position `from` and was to reach a screen with the index `index`:
/// the focus is at position `to`.  Both are positions of screens.  The walk
/// stops on a screen whose index is `index` or that of the screen it started
/// from, and it is back where it started only where that screen has the index
/// `index` or no other has.
pub open spec fn focus_moved(indices: Seq<usize>, from: int, index: usize, to: int) -> bool {
    &&& 0 <= from < indices.len()
    &&& 0 <= to < indices.len()
    &&& indices[to] == index || indices[to] == indices[from]
    &&& to == from ==> indices[from] == index || forall|p: int|
        0 <= p < indices.len() && p != from ==> indices[p] != index
}

/// The texts of a list of strings.
pub open spec fn texts(v: Seq<String>) -> Seq<Seq<char>> {
    Seq::new(v.len(), |i: int| v[i]@)
}

/// The states that a list of tags with their emptiness stands for.
pub open spec fn states(v: Seq<(String, bool)>) -> Seq<(Seq<char>, bool)> {
    Seq::new(v.len(), |i: int| (v[i].0@, v[i].1))
}

/// `StackSet::screens` with `Screen::index` of each screen: the indices of
/// the screens in the order of the walk.
#[verifier::external_body]
pub(crate) fn screen_indices_of(cs: &StackSet<Xid>) -> (r: Vec<usize>)
    ensures
        r@ == screen_indices(*cs),
{
    cs.screens().map(|s| s.index()).collect()
}

/// `StackSet::workspaces` with `Workspace::tag` and `Workspace::is_empty` of
/// each workspace, in the order of the walk.  Every screen holds a workspace,
/// so there are at least as many workspaces as screens.
#[verifier::external_body]
pub(crate) fn workspace_states(cs: &StackSet<Xid>) -> (r: Vec<(String, bool)>)
    ensures
        states(r@) == workspaces(*cs),
        r.len() >= screen_indices(*cs).len(),
{
    cs.workspaces().map(|w| (w.tag().to_string(), w.is_empty())).collect()
}

/// `StackSet::ordered_workspaces` with `Workspace::tag` of each workspace: the
/// tags in display order.
#[verifier::external_body]
pub(crate) fn ordered_workspace_tags(cs: &StackSet<Xid>) -> (r: Vec<String>)
    ensures
        texts(r@) == display_order(*cs),
{
    cs.ordered_workspaces().map(|w| w.tag().to_string()).collect()
}

/// `StackSet::current_screen` with `Screen::index`: the index of the screen
/// that has the focus, which is one of the screens.
#[verifier::external_body]
pub(crate) fn current_screen_index(cs: &StackSet<Xid>) -> (r: usize)
    ensures
        focus_is_on_index(*cs, r),
{
    cs.current_screen().index()
}

/// `StackSet::current_tag`: the tag of the workspace on the screen that has
/// the focus.
#[verifier::external_body]
pub(crate) fn current_tag(cs: &StackSet<Xid>) -> (r: String)
    ensures
        focus_is_on_tag(*cs, r@),
{
    cs.current_tag().to_string()
}

/// `StackSet::focus_screen`.  It walks the focus from screen to screen, as
/// `focus_moved` says, and changes nothing else.
#[verifier::external_body]
pub(crate) fn focus_screen(cs: &mut StackSet<Xid>, index: usize)
    ensures
        screen_indices(*final(cs)) == screen_indices(*old(cs)),
        workspaces(*final(cs)) == workspaces(*old(cs)),
        focus_moved(
            screen_indices(*old(cs)),
            focused_screen(*old(cs)),
            index,
            focused_screen(*final(cs)),
        ),
{
    cs.focus_screen(index)
}

/// `std::mem::take` on the workspace that `StackSet::workspaces_mut` yields at
/// position `slot`: the workspace leaves the set and a blank one, which
/// `Workspace::default` makes, stands in its slot.  Screens and focus stay.
#[verifier::external_body]
pub(crate) fn take_workspace(cs: &mut StackSet<Xid>, slot: usize) -> (w: Workspace<Xid>)
    requires
        slot < workspaces(*old(cs)).len(),
    ensures
        workspace_state(w) == workspaces(*old(cs))[slot as int],
        workspaces(*final(cs)) == workspaces(*old(cs)).update(slot as int, blank_workspace()),
        screen_indices(*final(cs)) == screen_indices(*old(cs)),
        focused_screen(*final(cs)) == focused_screen(*old(cs)),
{
    std::mem::take(cs.workspaces_mut().nth(slot).unwrap())
}

/// `std::mem::replace` on the workspace that `StackSet::workspaces_mut` yields
/// at position `slot`: `w` enters the set in that slot and the workspace that
/// stood there leaves it.  Screens and focus stay.
#[verifier::external_body]
pub(crate) fn replace_workspace(cs: &mut StackSet<Xid>, slot: usize, w: Workspace<Xid>) -> (out:
    Workspace<Xid>)
    requires
        slot < workspaces(*old(cs)).len(),
    ensures
        workspace_state(out) == workspaces(*old(cs))[slot as int],
        workspaces(*final(cs)) == workspaces(*old(cs)).update(slot as int, workspace_state(w)),
        screen_indices(*final(cs)) == screen_indices(*old(cs)),
        focused_screen(*final(cs)) == focused_screen(*old(cs)),
{
    std::mem::replace(cs.workspaces_mut().nth(slot).unwrap(), w)
}

} // verus!
