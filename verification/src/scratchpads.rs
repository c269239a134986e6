//! The scratchpad tracker: which named scratchpads are meant to be visible.
//!
//! The tracker records what was asked for, so that the status line can show
//! it.  Whether a scratchpad's window is on the screen is the window
//! manager's business; the tracker is not told when that goes wrong.
use vstd::hash_map::StringHashMap;
use vstd::prelude::*;

verus! {

/// For every configured scratchpad, whether it is meant to be visible.  The
/// names are fixed when the tracker is made.
pub struct NamedScratchpadsState {
    visible: StringHashMap<bool>,
}

impl View for NamedScratchpadsState {
    type V = Map<Seq<char>, bool>;

    /// The tracker as a map from scratchpad name to visibility.
    closed spec fn view(&self) -> Map<Seq<char>, bool> {
        self.visible@
    }
}

/// The texts of a list of string slices.
pub open spec fn names_of(v: Seq<&str>) -> Seq<Seq<char>> {
    Seq::new(v.len(), |i: int| v[i]@)
}

/// A tracker that knows exactly `names`, each of them hidden.
pub open spec fn all_hidden(names: Seq<Seq<char>>) -> Map<Seq<char>, bool> {
    Map::new(|name: Seq<char>| names.contains(name), |name: Seq<char>| false)
}

/// What toggling `class` makes of the tracker `state`: a known scratchpad
/// changes sides, and nothing else changes.
pub open spec fn toggled(state: Map<Seq<char>, bool>, class: Seq<char>) -> Map<Seq<char>, bool> {
    if state.contains_key(class) {
        state.insert(class, !state[class])
    } else {
        state
    }
}

/// The tracker of a session with the scratchpads `sratchpads`: it knows these
/// names and no others, and every scratchpad starts hidden.
pub fn add_namedscratchpads_state(sratchpads: Vec<&str>) -> (state: NamedScratchpadsState)
    ensures
        state@ == all_hidden(names_of(sratchpads@)),
{
    let mut visible: StringHashMap<bool> = StringHashMap::new();
    let mut i: usize = 0;
    assert(visible@ =~= all_hidden(names_of(sratchpads@).subrange(0, 0)));
    while i < sratchpads.len()
        invariant
            i <= sratchpads.len(),
            visible@ == all_hidden(names_of(sratchpads@).subrange(0, i as int)),
        decreases sratchpads.len() - i,
    {
        let name: &str = sratchpads[i];
        visible.insert(name.to_owned(), false);
        proof {
            let names = names_of(sratchpads@);
            let before = names.subrange(0, i as int);
            let after = names.subrange(0, i + 1);
            assert(after =~= before.push(name@));
            assert forall|n: Seq<char>| after.contains(n) <==> (before.contains(n) || n == name@) by {
                if after.contains(n) {
                    let k = choose|k: int| 0 <= k < after.len() && after[k] == n;
                    if k < i {
                        assert(before[k] == n);
                    }
                }
                if before.contains(n) {
                    let k = choose|k: int| 0 <= k < before.len() && before[k] == n;
                    assert(after[k] == n);
                }
                if n == name@ {
                    assert(after[i as int] == n);
                }
            }
            assert(visible@ =~= all_hidden(after));
        }
        i += 1;
    }
    assert(names_of(sratchpads@).subrange(0, i as int) =~= names_of(sratchpads@));
    NamedScratchpadsState { visible }
}

/// Toggles the scratchpad `class`.  A known scratchpad changes sides and its
/// new visibility is returned: the caller then has the window manager show or
/// hide the window.  For an unknown name nothing changes and nothing is
/// returned.  The set of known names never changes.
pub fn toggle_namedscratchpad(state: &mut NamedScratchpadsState, class: &str) -> (now: Option<bool>)
    ensures
        final(state)@ == toggled(old(state)@, class@),
        final(state)@.dom() == old(state)@.dom(),
        now == (if old(state)@.contains_key(class@) {
            Some(!old(state)@[class@])
        } else {
            None
        }),
{
    let known = match state.visible.get(class) {
        Some(visible) => Some(*visible),
        None => None,
    };
    match known {
        Some(visible) => {
            state.visible.insert(class.to_owned(), !visible);
            assert(final(state)@.dom() =~= old(state)@.dom());
            Some(!visible)
        },
        None => None,
    }
}

/// Whether the scratchpad `class` is meant to be visible.  An unknown name is
/// not.
pub fn is_named_scratchpad_active(state: &NamedScratchpadsState, class: &str) -> (active: bool)
    ensures
        active == (state@.contains_key(class@) && state@[class@]),
{
    match state.visible.get(class) {
        Some(visible) => *visible,
        None => false,
    }
}

/// Toggling a scratchpad twice leaves the tracker as it was.
pub proof fn lemma_toggle_twice(state: Map<Seq<char>, bool>, class: Seq<char>)
    ensures
        toggled(toggled(state, class), class) == state,
{
    assert(toggled(toggled(state, class), class) =~= state);
}

} // verus!
