use penrose::pure::geometry::Rect;
use penrose::pure::StackSet;
use penrose::Xid;
use wm::actions::{show_workspace, ShowError, ShowOutcome};
use wm::directory::FixedWorkspaces;

fn client_set(tags: &[&str], screens: usize) -> StackSet<Xid> {
    let rects: Vec<Rect> = (0..screens)
        .map(|i| Rect::new(1000 * i as u32, 0, 1000, 800))
        .collect();
    StackSet::try_new(Default::default(), tags.iter().copied(), rects).unwrap()
}

fn directory(pairs: &[(&str, usize)]) -> FixedWorkspaces {
    let mut d = FixedWorkspaces::new();
    for (tag, screen) in pairs {
        d.pin(tag, *screen);
    }
    d
}

fn on_screens(cs: &StackSet<Xid>) -> Vec<(usize, String)> {
    let mut v: Vec<(usize, String)> = cs
        .screens()
        .map(|s| (s.index(), s.workspace.tag().to_string()))
        .collect();
    v.sort();
    v
}

fn hidden(cs: &StackSet<Xid>) -> Vec<String> {
    cs.hidden_workspaces().map(|w| w.tag().to_string()).collect()
}

fn all_tags_sorted(cs: &StackSet<Xid>) -> Vec<String> {
    let mut v: Vec<String> = cs.workspaces().map(|w| w.tag().to_string()).collect();
    v.sort();
    v
}

fn pairs(v: &[(usize, &str)]) -> Vec<(usize, String)> {
    v.iter().map(|(i, t)| (*i, t.to_string())).collect()
}

#[test]
fn workspace_returns_to_its_home_screen() {
    let mut cs = client_set(&["1", "2", "3"], 2);
    cs.focus_screen(1);
    cs.pull_tag_to_screen("1");
    assert_eq!(on_screens(&cs), pairs(&[(0, "2"), (1, "1")]));
    let d = directory(&[("1", 0), ("2", 1), ("3", 0)]);

    let r = show_workspace(&mut cs, &d, "1");

    assert_eq!(r, Ok(ShowOutcome::Shown));
    assert_eq!(cs.tag_for_screen(0), Some("1"));
    assert_eq!(cs.current_screen().index(), 0);
    assert_eq!(cs.tag_for_screen(1), Some("2"));
    assert_eq!(hidden(&cs), vec!["3".to_string()]);
}

#[test]
fn unpinned_tag_changes_nothing() {
    let mut cs = client_set(&["1", "2", "3", "9"], 2);
    cs.focus_screen(1);
    let d = directory(&[("1", 0), ("2", 1), ("3", 0)]);
    let screens_before = on_screens(&cs);
    let hidden_before = hidden(&cs);

    let r = show_workspace(&mut cs, &d, "9");

    assert_eq!(r, Ok(ShowOutcome::NotPinned));
    assert_eq!(on_screens(&cs), screens_before);
    assert_eq!(hidden(&cs), hidden_before);
    assert_eq!(cs.current_screen().index(), 1);
}

#[test]
fn hidden_workspace_takes_the_place_of_the_one_on_its_home_screen() {
    let mut cs = client_set(&["1", "2", "3", "4"], 2);
    let d = directory(&[("1", 0), ("2", 1), ("3", 0), ("4", 1)]);

    let r = show_workspace(&mut cs, &d, "4");

    assert_eq!(r, Ok(ShowOutcome::Shown));
    assert_eq!(on_screens(&cs), pairs(&[(0, "1"), (1, "4")]));
    assert_eq!(cs.current_screen().index(), 1);
    assert_eq!(cs.current_tag(), "4");
    // "2" now sits in the hidden slot that "4" left
    assert_eq!(hidden(&cs), vec!["3".to_string(), "2".to_string()]);
}

#[test]
fn windows_move_with_their_workspace() {
    let mut cs = client_set(&["1", "2", "3"], 2);
    cs.insert(Xid::from(7));
    cs.insert(Xid::from(8));
    let d = directory(&[("1", 0), ("2", 1), ("3", 0)]);

    let r = show_workspace(&mut cs, &d, "3");

    assert_eq!(r, Ok(ShowOutcome::Shown));
    assert_eq!(cs.tag_for_screen(0), Some("3"));
    assert!(cs.workspace("3").unwrap().is_empty());
    let one = cs.workspace("1").unwrap();
    assert!(one.contains(&Xid::from(7)));
    assert!(one.contains(&Xid::from(8)));
    assert_eq!(one.clients().count(), 2);
    assert_eq!(cs.screen_for_client(&Xid::from(7)).map(|s| s.index()), None);
}

#[test]
fn showing_a_workspace_that_is_at_home_only_moves_the_focus() {
    let mut cs = client_set(&["1", "2", "3"], 2);
    let d = directory(&[("1", 0), ("2", 1), ("3", 0)]);
    assert_eq!(cs.current_screen().index(), 0);

    let r = show_workspace(&mut cs, &d, "2");

    assert_eq!(r, Ok(ShowOutcome::Shown));
    assert_eq!(on_screens(&cs), pairs(&[(0, "1"), (1, "2")]));
    assert_eq!(hidden(&cs), vec!["3".to_string()]);
    assert_eq!(cs.current_screen().index(), 1);
}

#[test]
fn workspace_on_another_screen_changes_places_with_the_one_at_home() {
    let mut cs = client_set(&["1", "2", "3", "4"], 3);
    // "3" is on screen 2 and is pinned to screen 0
    let d = directory(&[("3", 0)]);

    let r = show_workspace(&mut cs, &d, "3");

    assert_eq!(r, Ok(ShowOutcome::Shown));
    assert_eq!(on_screens(&cs), pairs(&[(0, "3"), (1, "2"), (2, "1")]));
    assert_eq!(hidden(&cs), vec!["4".to_string()]);
    assert_eq!(cs.current_screen().index(), 0);
}

#[test]
fn focus_reaches_the_home_screen_from_any_screen() {
    for start in 0..3 {
        for home in 0..3 {
            let mut cs = client_set(&["1", "2", "3", "4"], 3);
            cs.focus_screen(start);
            let d = directory(&[("4", home)]);
            assert_eq!(show_workspace(&mut cs, &d, "4"), Ok(ShowOutcome::Shown));
            assert_eq!(cs.current_screen().index(), home);
            assert_eq!(cs.current_tag(), "4");
            assert_eq!(cs.tag_for_screen(home), Some("4"));
        }
    }
}

#[test]
fn no_workspace_is_lost_or_duplicated() {
    let mut cs = client_set(&["1", "2", "3", "4", "5"], 2);
    let d = FixedWorkspaces::round_robin(5, 2);
    let before = all_tags_sorted(&cs);
    for tag in ["5", "2", "4", "1", "3", "3", "9", "5"] {
        let _ = show_workspace(&mut cs, &d, tag);
        assert_eq!(all_tags_sorted(&cs), before);
        assert_eq!(cs.screens().count(), 2);
    }
}

#[test]
fn missing_home_screen_is_an_error_and_changes_nothing() {
    let mut cs = client_set(&["1", "2", "3"], 2);
    let d = directory(&[("3", 5)]);

    let r = show_workspace(&mut cs, &d, "3");

    assert_eq!(r, Err(ShowError::UnknownScreen(5)));
    assert_eq!(on_screens(&cs), pairs(&[(0, "1"), (1, "2")]));
    assert_eq!(hidden(&cs), vec!["3".to_string()]);
    assert_eq!(cs.current_screen().index(), 0);
}

#[test]
fn missing_workspace_is_an_error_and_changes_nothing() {
    let mut cs = client_set(&["1", "2", "3"], 2);
    let d = directory(&[("7", 1)]);

    let r = show_workspace(&mut cs, &d, "7");

    assert_eq!(r, Err(ShowError::UnknownWorkspace));
    assert_eq!(on_screens(&cs), pairs(&[(0, "1"), (1, "2")]));
    assert_eq!(hidden(&cs), vec!["3".to_string()]);
    assert_eq!(cs.current_screen().index(), 0);
}

#[test]
fn missing_screen_is_reported_before_missing_workspace() {
    let mut cs = client_set(&["1", "2"], 1);
    let d = directory(&[("7", 3)]);
    assert_eq!(
        show_workspace(&mut cs, &d, "7"),
        Err(ShowError::UnknownScreen(3))
    );
}

#[test]
fn repeated_shows_reach_the_pinned_arrangement() {
    let mut cs = client_set(&["1", "2", "3", "4"], 2);
    // put "2" on screen 0 and "1" on screen 1
    cs.pull_tag_to_screen("2");
    assert_eq!(on_screens(&cs), pairs(&[(0, "2"), (1, "1")]));
    let d = directory(&[("1", 0), ("2", 1)]);

    assert_eq!(show_workspace(&mut cs, &d, "1"), Ok(ShowOutcome::Shown));
    assert_eq!(show_workspace(&mut cs, &d, "2"), Ok(ShowOutcome::Shown));

    assert_eq!(on_screens(&cs), pairs(&[(0, "1"), (1, "2")]));
    assert_eq!(cs.current_screen().index(), 1);
}
