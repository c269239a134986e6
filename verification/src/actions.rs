//! Showing a workspace on its home screen.
use crate::client_set::focus_is_on_index;
use crate::client_set::focus_is_on_tag;
use crate::client_set::focus_moved;
use crate::client_set::focus_screen;
use crate::client_set::focused_screen;
use crate::client_set::replace_workspace;
use crate::client_set::screen_indices;
use crate::client_set::screen_indices_of;
use crate::client_set::states;
use crate::client_set::take_workspace;
use crate::client_set::workspace_states;
use crate::client_set::workspaces;
use crate::directory::FixedWorkspaces;
use penrose::pure::StackSet;
use penrose::Xid;
use vstd::prelude::*;
use vstd::seq_lib::to_multiset_update;

verus! {

/// What showing a workspace did.
#[derive(Debug, Clone, Copy, PartialEq, Eq, Structural)]
pub enum ShowOutcome {
    /// The tag is not pinned: nothing was done, and there is nothing to
    /// redraw.
    NotPinned,
    /// The workspace is on its home screen and that screen has the focus: the
    /// caller asks for a refresh.
    Shown,
}

/// Why a pinned workspace could not be shown.  Neither happens while the
/// client set and the directory fit together.
#[derive(Debug, Clone, Copy, PartialEq, Eq, Structural)]
pub enum ShowError {
    /// No screen has the index that the directory gives as the tag's home.
    UnknownScreen(usize),
    /// No workspace has the tag.
    UnknownWorkspace,
}

/// `p` is the first position of `x` in `s`.
pub open spec fn is_first<A>(s: Seq<A>, x: A, p: int) -> bool {
    &&& 0 <= p < s.len()
    &&& s[p] == x
    &&& forall|k: int| 0 <= k < p ==> s[k] != x
}

/// The first position of `x` in `s`, where `s` contains `x`.
pub open spec fn first_position<A>(s: Seq<A>, x: A) -> int {
    choose|p: int| is_first(s, x, p)
}

/// The tag of every workspace of a list of workspace states.
pub open spec fn tags_of(all: Seq<(Seq<char>, bool)>) -> Seq<Seq<char>> {
    Seq::new(all.len(), |i: int| all[i].0)
}

/// The slot of the screen that is home to a tag pinned to `index`: the first
/// screen with that index.
pub open spec fn home_slot(cs: StackSet<Xid>, index: usize) -> int {
    first_position(screen_indices(cs), index)
}

/// The slot of the workspace with the tag `tag`: the first one that has it.
pub open spec fn tag_slot(cs: StackSet<Xid>, tag: Seq<char>) -> int {
    first_position(tags_of(workspaces(cs)), tag)
}

/// The list `s` with what stands at `p` and at `q` exchanged.
pub open spec fn exchanged<A>(s: Seq<A>, p: int, q: int) -> Seq<A> {
    s.update(p, s[q]).update(q, s[p])
}

/// The first position of a value is the same however it is found.
pub proof fn lemma_first_position<A>(s: Seq<A>, x: A, p: int)
    requires
        is_first(s, x, p),
    ensures
        first_position(s, x) == p,
{
    let c = first_position(s, x);
    assert(is_first(s, x, c));
    if c < p {
        assert(s[c] != x);
    }
    if p < c {
        assert(s[p] != x);
    }
}

/// Exchanging two members of a list neither loses nor duplicates a member.
pub proof fn lemma_exchanged_permutes<A>(s: Seq<A>, p: int, q: int)
    requires
        0 <= p < s.len(),
        0 <= q < s.len(),
    ensures
        exchanged(s, p, q).len() == s.len(),
        exchanged(s, p, q).to_multiset() == s.to_multiset(),
        exchanged(s, p, q)[p] == s[q],
        exchanged(s, p, q)[q] == s[p],
        forall|k: int| 0 <= k < s.len() && k != p && k != q ==> exchanged(s, p, q)[k] == s[k],
{
    let half = s.update(p, s[q]);
    to_multiset_update(s, p, s[q]);
    to_multiset_update(half, q, s[p]);
    s.to_multiset_ensures();
    assert(s.contains(s[p]));
    assert(s.contains(s[q]));
    assert(half.update(q, s[p]).to_multiset() =~= s.to_multiset());
}

/// The first position of `index` among `indices`, if it is there.
fn find_screen(indices: &Vec<usize>, index: usize) -> (found: Option<usize>)
    ensures
        match found {
            Some(p) => is_first(indices@, index, p as int),
            None => !indices@.contains(index),
        },
{
    let mut i: usize = 0;
    while i < indices.len()
        invariant
            i <= indices.len(),
            forall|k: int| 0 <= k < i ==> indices@[k] != index,
        decreases indices.len() - i,
    {
        if indices[i] == index {
            return Some(i);
        }
        i += 1;
    }
    None
}

/// The first slot among `all` whose workspace has the tag `tag`, if one has.
fn find_tag(all: &Vec<(String, bool)>, tag: &str) -> (found: Option<usize>)
    ensures
        match found {
            Some(q) => is_first(tags_of(states(all@)), tag@, q as int),
            None => !tags_of(states(all@)).contains(tag@),
        },
{
    let wanted = tag.to_owned();
    let mut i: usize = 0;
    while i < all.len()
        invariant
            i <= all.len(),
            wanted@ == tag@,
            forall|k: int| 0 <= k < i ==> tags_of(states(all@))[k] != tag@,
        decreases all.len() - i,
    {
        assert(tags_of(states(all@))[i as int] == all@[i as int].0@);
        if all[i].0 == wanted {
            return Some(i);
        }
        i += 1;
    }
    None
}

/// Shows the workspace `ws` on its home screen.
///
/// A tag without an entry in the directory is not pinned, and nothing
/// happens.  For a pinned tag the workspace on the home screen and the
/// workspace with the tag change places, whether the latter was on another
/// screen or hidden, and the focus goes to the home screen.  No workspace is
/// lost or duplicated, and no screen changes its index.  Where the home
/// screen or the workspace does not exist, nothing is changed and the error
/// says which of the two is missing; the screen is looked for first.
///
/// The screen that counts as home is the first with the home index, and the
/// workspace that counts is the first with the tag.  Where no two screens
/// share an index, the focus ends on the home screen.
pub fn show_workspace(cs: &mut StackSet<Xid>, fixed: &FixedWorkspaces, ws: &str) -> (r: Result<
    ShowOutcome,
    ShowError,
>)
    ensures
        screen_indices(*final(cs)) == screen_indices(*old(cs)),
        workspaces(*final(cs)).to_multiset() == workspaces(*old(cs)).to_multiset(),
        match r {
            Ok(ShowOutcome::NotPinned) => !fixed@.contains_key(ws@) && *final(cs) == *old(cs),
            Ok(ShowOutcome::Shown) => {
                &&& fixed@.contains_key(ws@)
                &&& screen_indices(*old(cs)).contains(fixed@[ws@])
                &&& tags_of(workspaces(*old(cs))).contains(ws@)
                &&& workspaces(*final(cs)) == exchanged(
                    workspaces(*old(cs)),
                    home_slot(*old(cs), fixed@[ws@]),
                    tag_slot(*old(cs), ws@),
                )
                &&& focus_moved(
                    screen_indices(*old(cs)),
                    focused_screen(*old(cs)),
                    fixed@[ws@],
                    focused_screen(*final(cs)),
                )
                &&& workspaces(*final(cs))[home_slot(*old(cs), fixed@[ws@])].0 == ws@
                &&& screen_indices(*old(cs)).no_duplicates() ==> focus_is_on_index(
                    *final(cs),
                    fixed@[ws@],
                ) && focus_is_on_tag(*final(cs), ws@)
            },
            Err(ShowError::UnknownScreen(index)) => {
                &&& fixed@.contains_key(ws@)
                &&& index == fixed@[ws@]
                &&& !screen_indices(*old(cs)).contains(index)
                &&& *final(cs) == *old(cs)
            },
            Err(ShowError::UnknownWorkspace) => {
                &&& fixed@.contains_key(ws@)
                &&& screen_indices(*old(cs)).contains(fixed@[ws@])
                &&& !tags_of(workspaces(*old(cs))).contains(ws@)
                &&& *final(cs) == *old(cs)
            },
        },
{
    let home = match fixed.lookup(ws) {
        Some(home) => home,
        None => {
            return Ok(ShowOutcome::NotPinned);
        },
    };
    let indices = screen_indices_of(cs);
    let p = match find_screen(&indices, home) {
        Some(p) => p,
        None => {
            return Err(ShowError::UnknownScreen(home));
        },
    };
    let all = workspace_states(cs);
    let q = match find_tag(&all, ws) {
        Some(q) => q,
        None => {
            return Err(ShowError::UnknownWorkspace);
        },
    };
    let ghost before = workspaces(*cs);
    proof {
        lemma_first_position(screen_indices(*cs), home, p as int);
        lemma_first_position(tags_of(before), ws@, q as int);
        lemma_exchanged_permutes(before, p as int, q as int);
        assert(tags_of(before)[q as int] == before[q as int].0);
    }
    if p != q {
        let mine = take_workspace(cs, q);
        let theirs = replace_workspace(cs, p, mine);
        let _blank = replace_workspace(cs, q, theirs);
    }
    assert(workspaces(*cs) =~= exchanged(before, p as int, q as int));
    focus_screen(cs, home);
    proof {
        let indices = screen_indices(*cs);
        let to = focused_screen(*cs);
        if indices.no_duplicates() {
            assert(indices[to] == home) by {
                let from = focused_screen(*old(cs));
                if indices[to] != home {
                    assert(indices[to] == indices[from]);
                    assert(to == from);
                    assert(indices[p as int] == home);
                }
            }
            assert(to == p);
        }
    }
    Ok(ShowOutcome::Shown)
}

} // verus!
