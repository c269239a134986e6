//! The directory of pinned workspaces: the home screen of every tag.
use crate::client_set::screen_indices;
use crate::client_set::screen_indices_of;
use crate::decimal::decimal;
use crate::decimal::lemma_number_of_decimal;
use crate::decimal::number;
use crate::decimal::to_decimal;
use penrose::pure::StackSet;
use penrose::Xid;
use vstd::hash_map::StringHashMap;
use vstd::prelude::*;

verus! {

/// How many tags the session pins: the tags `1` to `12`.
pub const PINNED_TAGS: usize = 12;

/// The home screen of every pinned tag.  It is built once and only read
/// afterwards; a tag without an entry is not pinned.
pub struct FixedWorkspaces {
    homes: StringHashMap<usize>,
}

impl View for FixedWorkspaces {
    type V = Map<Seq<char>, usize>;

    /// The directory as a map from tag to the index of its home screen.
    closed spec fn view(&self) -> Map<Seq<char>, usize> {
        self.homes@
    }
}

/// `t` is the decimal notation of one of the numbers `1` to `tags`.
pub open spec fn is_numbered_tag(t: Seq<char>, tags: nat) -> bool {
    match number(t) {
        Some(n) => 1 <= n <= tags && decimal(n) == t,
        None => false,
    }
}

/// The directory that deals the tags `1` to `tags` out to `screens` screens in
/// turn: tag `k` goes to screen `(k - 1) % screens`.  Without a screen nothing
/// is pinned.
pub open spec fn round_robin(tags: nat, screens: nat) -> Map<Seq<char>, usize> {
    Map::new(
        |t: Seq<char>| screens > 0 && is_numbered_tag(t, tags),
        |t: Seq<char>|
            match number(t) {
                Some(n) => ((n - 1) % (screens as int)) as usize,
                None => 0,
            },
    )
}

/// In a directory dealt out in turn, tag `k` has the home screen
/// `(k - 1) % screens`, which is one of the screens.
pub proof fn lemma_round_robin_entry(k: nat, tags: nat, screens: nat)
    requires
        1 <= k <= tags,
        0 < screens <= usize::MAX,
    ensures
        round_robin(tags, screens).contains_key(decimal(k)),
        round_robin(tags, screens)[decimal(k)] == (k - 1) % (screens as int),
        round_robin(tags, screens)[decimal(k)] < screens,
{
    lemma_number_of_decimal(k);
}

/// Every home screen of a directory dealt out in turn is one of the screens.
pub proof fn lemma_round_robin_in_range(t: Seq<char>, tags: nat, screens: nat)
    requires
        screens <= usize::MAX,
        round_robin(tags, screens).contains_key(t),
    ensures
        round_robin(tags, screens)[t] < screens,
{
}

impl FixedWorkspaces {
    /// A directory without entries.
    pub fn new() -> (d: FixedWorkspaces)
        ensures
            d@ == Map::<Seq<char>, usize>::empty(),
    {
        FixedWorkspaces { homes: StringHashMap::new() }
    }

    /// Pins `tag` to the screen with index `screen`.  An earlier entry for the
    /// tag is replaced.
    pub fn pin(&mut self, tag: &str, screen: usize)
        ensures
            final(self)@ == old(self)@.insert(tag@, screen),
    {
        self.homes.insert(tag.to_owned(), screen);
    }

    /// The home screen of `tag`, or `None` where the tag is not pinned.
    pub fn lookup(&self, tag: &str) -> (home: Option<usize>)
        ensures
            home == (if self@.contains_key(tag@) {
                Some(self@[tag@])
            } else {
                None
            }),
    {
        match self.homes.get(tag) {
            Some(screen) => Some(*screen),
            None => None,
        }
    }

    /// Deals the tags `1` to `tags` out to `screens` screens in turn.
    pub fn round_robin(tags: usize, screens: usize) -> (d: FixedWorkspaces)
        ensures
            d@ == round_robin(tags as nat, screens as nat),
    {
        let mut d = FixedWorkspaces::new();
        if screens == 0 {
            assert(d@ =~= round_robin(tags as nat, screens as nat));
            return d;
        }
        let mut k: usize = 0;
        assert(d@ =~= round_robin(0, screens as nat));
        while k < tags
            invariant
                k <= tags,
                screens > 0,
                d@ == round_robin(k as nat, screens as nat),
            decreases tags - k,
        {
            let screen = k % screens;
            k += 1;
            let tag = to_decimal(k);
            d.pin(tag.as_str(), screen);
            proof {
                lemma_number_of_decimal(k as nat);
                assert(d@ =~= round_robin(k as nat, screens as nat));
            }
        }
        d
    }
}

/// The directory of a session that starts with the client set `cs`: the tags
/// `1` to `12`, dealt out in turn to the screens that `cs` has.
pub fn add_fixed_workspaces_state(cs: &StackSet<Xid>) -> (d: FixedWorkspaces)
    ensures
        d@ == round_robin(PINNED_TAGS as nat, screen_indices(*cs).len()),
{
    let screens = screen_indices_of(cs);
    FixedWorkspaces::round_robin(PINNED_TAGS, screens.len())
}

} // verus!
