use penrose::pure::geometry::Rect;
use penrose::pure::StackSet;
use penrose::Xid;
use wm::directory::{add_fixed_workspaces_state, FixedWorkspaces, PINNED_TAGS};

#[test]
fn empty_directory_pins_nothing() {
    let d = FixedWorkspaces::new();
    assert_eq!(d.lookup("1"), None);
    assert_eq!(d.lookup(""), None);
}

#[test]
fn pin_then_lookup() {
    let mut d = FixedWorkspaces::new();
    d.pin("web", 2);
    d.pin("mail", 0);
    assert_eq!(d.lookup("web"), Some(2));
    assert_eq!(d.lookup("mail"), Some(0));
    assert_eq!(d.lookup("we"), None);
}

#[test]
fn later_pin_replaces_earlier_one() {
    let mut d = FixedWorkspaces::new();
    d.pin("1", 0);
    d.pin("1", 3);
    assert_eq!(d.lookup("1"), Some(3));
}

#[test]
fn round_robin_over_two_screens() {
    let d = FixedWorkspaces::round_robin(12, 2);
    let expected = [0, 1, 0, 1, 0, 1, 0, 1, 0, 1, 0, 1];
    for k in 1..=12usize {
        assert_eq!(d.lookup(&k.to_string()), Some(expected[k - 1]));
    }
}

#[test]
fn round_robin_over_three_screens() {
    let d = FixedWorkspaces::round_robin(7, 3);
    assert_eq!(d.lookup("1"), Some(0));
    assert_eq!(d.lookup("2"), Some(1));
    assert_eq!(d.lookup("3"), Some(2));
    assert_eq!(d.lookup("4"), Some(0));
    assert_eq!(d.lookup("7"), Some(0));
    assert_eq!(d.lookup("8"), None);
}

#[test]
fn round_robin_over_one_screen() {
    let d = FixedWorkspaces::round_robin(12, 1);
    for k in 1..=12usize {
        assert_eq!(d.lookup(&k.to_string()), Some(0));
    }
}

#[test]
fn round_robin_pins_only_the_numbered_tags() {
    let d = FixedWorkspaces::round_robin(12, 2);
    assert_eq!(d.lookup("0"), None);
    assert_eq!(d.lookup("13"), None);
    assert_eq!(d.lookup("01"), None);
    assert_eq!(d.lookup("+1"), None);
    assert_eq!(d.lookup(" 1"), None);
    assert_eq!(d.lookup(""), None);
    assert_eq!(d.lookup("one"), None);
}

#[test]
fn round_robin_without_screens_pins_nothing() {
    let d = FixedWorkspaces::round_robin(12, 0);
    for k in 0..=13usize {
        assert_eq!(d.lookup(&k.to_string()), None);
    }
}

#[test]
fn round_robin_without_tags_pins_nothing() {
    let d = FixedWorkspaces::round_robin(0, 4);
    assert_eq!(d.lookup("1"), None);
}

#[test]
fn session_directory_follows_the_screens_of_the_client_set() {
    assert_eq!(PINNED_TAGS, 12);
    let tags: Vec<String> = (1..=12).map(|n: usize| n.to_string()).collect();
    let rects = vec![Rect::new(0, 0, 10, 10); 3];
    let cs: StackSet<Xid> = StackSet::try_new(Default::default(), tags, rects).unwrap();
    let d = add_fixed_workspaces_state(&cs);
    for k in 1..=12usize {
        assert_eq!(d.lookup(&k.to_string()), Some((k - 1) % 3));
    }
    assert_eq!(d.lookup("13"), None);
}

#[test]
fn session_directory_for_a_single_screen() {
    let cs: StackSet<Xid> =
        StackSet::try_new(Default::default(), ["a", "b"], vec![Rect::default()]).unwrap();
    let d = add_fixed_workspaces_state(&cs);
    assert_eq!(d.lookup("1"), Some(0));
    assert_eq!(d.lookup("12"), Some(0));
    assert_eq!(d.lookup("a"), None);
}
