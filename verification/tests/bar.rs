use penrose::pure::geometry::Rect;
use penrose::pure::StackSet;
use penrose::Xid;
use wm::actions::{show_workspace, ShowOutcome};
use wm::bar::{
    display_workspaces, format_action, format_active_ws, format_inactive_but_visible_ws,
    format_inactive_ws, format_named_scratchpad, join_tokens, render, render_scratchpads,
    render_tags, snapshot, Labels, RenderError, Snapshot,
};
use wm::directory::FixedWorkspaces;
use wm::scratchpads::{add_namedscratchpads_state, toggle_namedscratchpad};

fn strings(v: &[&str]) -> Vec<String> {
    v.iter().map(|s| s.to_string()).collect()
}

fn three_tags() -> Snapshot {
    Snapshot {
        tags: strings(&["1", "2", "3"]),
        active: "2".to_string(),
        visible: strings(&[]),
        empty: strings(&["3"]),
        occupied: strings(&["1", "2"]),
    }
}

fn client_set(tags: &[&str], screens: usize) -> StackSet<Xid> {
    let rects = vec![Rect::new(0, 0, 100, 100); screens];
    StackSet::try_new(Default::default(), tags.iter().copied(), rects).unwrap()
}

fn sorted(mut v: Vec<String>) -> Vec<String> {
    v.sort();
    v
}

#[test]
fn action_switches_to_the_desktop_before_the_tag_number() {
    assert_eq!(format_action("1"), "<action=`xdotool set_desktop 0`>1</action>");
    assert_eq!(format_action("2"), "<action=`xdotool set_desktop 1`>2</action>");
    assert_eq!(format_action("12"), "<action=`xdotool set_desktop 11`>12</action>");
    assert_eq!(format_action("100"), "<action=`xdotool set_desktop 99`>100</action>");
}

#[test]
fn action_for_tag_zero_stays_at_desktop_zero() {
    assert_eq!(format_action("0"), "<action=`xdotool set_desktop 0`>0</action>");
}

#[test]
fn action_keeps_the_tag_as_it_is_written() {
    assert_eq!(format_action("+3"), "<action=`xdotool set_desktop 2`>+3</action>");
    assert_eq!(format_action("07"), "<action=`xdotool set_desktop 6`>07</action>");
}

#[test]
fn active_workspace_stands_in_highlighted_square_brackets() {
    assert_eq!(
        format_active_ws("2", "white"),
        "<fc=#42cbf5>[</fc><fc=white>2</fc><fc=#42cbf5>]</fc>"
    );
    assert_eq!(
        format_active_ws("x", "gray"),
        "<fc=#42cbf5>[</fc><fc=gray>x</fc><fc=#42cbf5>]</fc>"
    );
}

#[test]
fn inactive_workspace_stands_alone() {
    assert_eq!(format_inactive_ws("1", "white"), "<fc=white>1</fc>");
    assert_eq!(format_inactive_ws("3", "gray"), "<fc=gray>3</fc>");
    assert_eq!(format_inactive_ws("", ""), "<fc=></fc>");
}

#[test]
fn visible_workspace_stands_in_muted_round_brackets() {
    assert_eq!(
        format_inactive_but_visible_ws("4", "white"),
        "<fc=gray>(</fc><fc=white>4</fc><fc=gray>)</fc>"
    );
}

#[test]
fn scratchpad_token_follows_the_tracker() {
    let mut state = add_namedscratchpads_state(vec!["term"]);
    assert_eq!(format_named_scratchpad(&state, "term"), "<fc=gray>(term)</fc>");
    toggle_namedscratchpad(&mut state, "term");
    assert_eq!(
        format_named_scratchpad(&state, "term"),
        "<fc=#42cbf5>[</fc><fc=white>term</fc><fc=#42cbf5>]</fc>"
    );
    assert_eq!(format_named_scratchpad(&state, "vpn"), "<fc=gray>(vpn)</fc>");
}

#[test]
fn tokens_of_three_tags_with_the_second_active() {
    let tokens = render_tags(&three_tags(), Labels::Plain).unwrap();
    assert_eq!(tokens.len(), 3);
    assert_eq!(
        join_tokens(&tokens),
        "<fc=white>1</fc> <fc=#42cbf5>[</fc><fc=white>2</fc><fc=#42cbf5>]</fc> <fc=gray>3</fc>"
    );
}

#[test]
fn line_of_three_tags_with_hidden_scratchpads() {
    let state = add_namedscratchpads_state(vec!["term"]);
    let line = render(&three_tags(), Labels::Plain, &vec!["term", "vpn"], &state).unwrap();
    assert_eq!(
        line,
        "<fc=white>1</fc> <fc=#42cbf5>[</fc><fc=white>2</fc><fc=#42cbf5>]</fc> <fc=gray>3</fc> \
         <fc=gray>(term)</fc> <fc=gray>(vpn)</fc>\n"
    );
}

#[test]
fn line_with_clickable_tags_and_a_visible_scratchpad() {
    let mut state = add_namedscratchpads_state(vec!["term"]);
    toggle_namedscratchpad(&mut state, "term");
    let line = render(&three_tags(), Labels::Clickable, &vec!["term", "vpn"], &state).unwrap();
    assert_eq!(
        line,
        "<fc=white><action=`xdotool set_desktop 0`>1</action></fc> \
         <fc=#42cbf5>[</fc><fc=white><action=`xdotool set_desktop 1`>2</action></fc><fc=#42cbf5>]</fc> \
         <fc=gray><action=`xdotool set_desktop 2`>3</action></fc> \
         <fc=#42cbf5>[</fc><fc=white>term</fc><fc=#42cbf5>]</fc> \
         <fc=gray>(vpn)</fc>\n"
    );
}

#[test]
fn active_comes_before_visible_and_visible_before_plain() {
    let s = Snapshot {
        tags: strings(&["1", "2", "3", "4"]),
        active: "1".to_string(),
        visible: strings(&["1", "2", "4"]),
        empty: strings(&["2", "3"]),
        occupied: strings(&["1", "4"]),
    };
    let tokens = render_tags(&s, Labels::Plain).unwrap();
    assert_eq!(
        tokens,
        vec![
            "<fc=#42cbf5>[</fc><fc=white>1</fc><fc=#42cbf5>]</fc>",
            "<fc=gray>(</fc><fc=gray>2</fc><fc=gray>)</fc>",
            "<fc=gray>3</fc>",
            "<fc=gray>(</fc><fc=white>4</fc><fc=gray>)</fc>",
        ]
    );
}

#[test]
fn occupied_wins_where_a_tag_is_in_both_groups() {
    let s = Snapshot {
        tags: strings(&["1"]),
        active: "9".to_string(),
        visible: strings(&[]),
        empty: strings(&["1"]),
        occupied: strings(&["1"]),
    };
    assert_eq!(
        render_tags(&s, Labels::Plain).unwrap(),
        vec!["<fc=white>1</fc>"]
    );
}

#[test]
fn unclassified_tag_stops_the_rendering() {
    let s = Snapshot {
        tags: strings(&["1", "2", "3"]),
        active: "1".to_string(),
        visible: strings(&[]),
        empty: strings(&["1"]),
        occupied: strings(&["3"]),
    };
    assert_eq!(render_tags(&s, Labels::Plain), Err(RenderError::Unclassified(1)));
    let state = add_namedscratchpads_state(vec![]);
    assert_eq!(
        render(&s, Labels::Clickable, &vec!["term"], &state),
        Err(RenderError::Unclassified(1))
    );
}

#[test]
fn clickable_tag_that_is_no_number_stops_the_rendering() {
    let s = Snapshot {
        tags: strings(&["1", "web", "3"]),
        active: "1".to_string(),
        visible: strings(&[]),
        empty: strings(&["1", "web", "3"]),
        occupied: strings(&[]),
    };
    assert_eq!(render_tags(&s, Labels::Clickable), Err(RenderError::NotNumbered(1)));
    assert_eq!(
        join_tokens(&render_tags(&s, Labels::Plain).unwrap()),
        "<fc=#42cbf5>[</fc><fc=gray>1</fc><fc=#42cbf5>]</fc> <fc=gray>web</fc> <fc=gray>3</fc>"
    );
}

#[test]
fn the_first_fault_is_the_one_reported() {
    let s = Snapshot {
        tags: strings(&["1", "web", "mail", "4"]),
        active: "1".to_string(),
        visible: strings(&[]),
        empty: strings(&["1", "web"]),
        occupied: strings(&[]),
    };
    // "web" is classified and no number; "mail" is unclassified
    assert_eq!(render_tags(&s, Labels::Clickable), Err(RenderError::NotNumbered(1)));
    assert_eq!(render_tags(&s, Labels::Plain), Err(RenderError::Unclassified(2)));
}

#[test]
fn a_tag_that_is_unclassified_and_no_number_is_unclassified() {
    let s = Snapshot {
        tags: strings(&["web"]),
        active: "web".to_string(),
        visible: strings(&[]),
        empty: strings(&[]),
        occupied: strings(&[]),
    };
    assert_eq!(render_tags(&s, Labels::Clickable), Err(RenderError::Unclassified(0)));
}

#[test]
fn line_without_tags_and_scratchpads_is_a_line_feed() {
    let s = Snapshot {
        tags: strings(&[]),
        active: "1".to_string(),
        visible: strings(&[]),
        empty: strings(&[]),
        occupied: strings(&[]),
    };
    let state = add_namedscratchpads_state(vec![]);
    assert_eq!(render(&s, Labels::Plain, &vec![], &state), Ok("\n".to_string()));
    assert_eq!(
        render(&s, Labels::Plain, &vec!["term"], &state),
        Ok("<fc=gray>(term)</fc>\n".to_string())
    );
}

#[test]
fn join_puts_one_space_between_tokens() {
    assert_eq!(join_tokens(&strings(&[])), "");
    assert_eq!(join_tokens(&strings(&["a"])), "a");
    assert_eq!(join_tokens(&strings(&["a", "b"])), "a b");
    assert_eq!(join_tokens(&strings(&["a", "", "c"])), "a  c");
}

#[test]
fn scratchpads_come_in_the_order_given() {
    let mut state = add_namedscratchpads_state(vec!["term", "vpn"]);
    toggle_namedscratchpad(&mut state, "vpn");
    assert_eq!(
        render_scratchpads(&vec!["vpn", "term", "vpn"], &state),
        vec![
            "<fc=#42cbf5>[</fc><fc=white>vpn</fc><fc=#42cbf5>]</fc>",
            "<fc=gray>(term)</fc>",
            "<fc=#42cbf5>[</fc><fc=white>vpn</fc><fc=#42cbf5>]</fc>",
        ]
    );
}

#[test]
fn every_tag_and_every_scratchpad_has_one_token() {
    let s = Snapshot {
        tags: strings(&["1", "2", "3", "4", "5"]),
        active: "4".to_string(),
        visible: strings(&["2"]),
        empty: strings(&["1", "2", "3", "4", "5"]),
        occupied: strings(&[]),
    };
    let state = add_namedscratchpads_state(vec!["term"]);
    let names = vec!["term", "vpn"];
    let line = render(&s, Labels::Plain, &names, &state).unwrap();
    assert!(line.ends_with('\n'));
    let tokens: Vec<&str> = line.trim_end_matches('\n').split(' ').collect();
    assert_eq!(tokens.len(), 7);
    for (i, tag) in s.tags.iter().enumerate() {
        assert!(tokens[i].contains(&format!(">{}</fc>", tag)));
    }
    assert_eq!(tokens[5], "<fc=gray>(term)</fc>");
    assert_eq!(tokens[6], "<fc=gray>(vpn)</fc>");
}

#[test]
fn rendering_twice_gives_the_same_line() {
    let state = add_namedscratchpads_state(vec!["term"]);
    let names = vec!["term", "vpn"];
    let a = render(&three_tags(), Labels::Clickable, &names, &state).unwrap();
    let b = render(&three_tags(), Labels::Clickable, &names, &state).unwrap();
    assert_eq!(a.as_bytes(), b.as_bytes());
}

#[test]
fn snapshot_of_a_fresh_client_set() {
    let cs = client_set(&["1", "2", "3"], 2);
    let s = snapshot(&cs);
    assert_eq!(s.tags, strings(&["1", "2", "3"]));
    assert_eq!(s.active, "1");
    assert_eq!(s.visible, strings(&["2"]));
    assert_eq!(sorted(s.empty), strings(&["1", "2", "3"]));
    assert_eq!(s.occupied, strings(&[]));
}

#[test]
fn snapshot_tells_occupied_from_empty() {
    let mut cs = client_set(&["1", "2", "3", "4"], 2);
    cs.insert(Xid::from(1));
    cs.focus_screen(1);
    cs.insert(Xid::from(2));
    cs.insert(Xid::from(3));
    cs.focus_tag("4");
    let s = snapshot(&cs);
    assert_eq!(s.tags, strings(&["1", "2", "3", "4"]));
    assert_eq!(s.active, "4");
    assert_eq!(s.visible, strings(&["1"]));
    assert_eq!(sorted(s.empty), strings(&["3", "4"]));
    assert_eq!(sorted(s.occupied), strings(&["1", "2"]));
}

#[test]
fn snapshot_keeps_the_display_order_after_a_show() {
    let mut cs = client_set(&["1", "2", "3", "4"], 2);
    let mut d = FixedWorkspaces::new();
    d.pin("4", 0);
    assert_eq!(show_workspace(&mut cs, &d, "4"), Ok(ShowOutcome::Shown));
    let s = snapshot(&cs);
    assert_eq!(s.tags, strings(&["1", "2", "3", "4"]));
    assert_eq!(s.active, "4");
    assert_eq!(s.visible, strings(&["2"]));
}

#[test]
fn line_of_a_client_set() {
    let mut cs = client_set(&["1", "2", "3"], 2);
    cs.insert(Xid::from(42));
    let mut state = add_namedscratchpads_state(vec!["term"]);
    assert_eq!(
        display_workspaces(&cs, &state),
        Ok("<fc=#42cbf5>[</fc><fc=white><action=`xdotool set_desktop 0`>1</action></fc><fc=#42cbf5>]</fc> \
            <fc=gray>(</fc><fc=gray><action=`xdotool set_desktop 1`>2</action></fc><fc=gray>)</fc> \
            <fc=gray><action=`xdotool set_desktop 2`>3</action></fc> \
            <fc=gray>(term)</fc> <fc=gray>(vpn)</fc>\n"
            .to_string())
    );
    toggle_namedscratchpad(&mut state, "term");
    cs.focus_screen(1);
    assert_eq!(
        display_workspaces(&cs, &state),
        Ok("<fc=gray>(</fc><fc=white><action=`xdotool set_desktop 0`>1</action></fc><fc=gray>)</fc> \
            <fc=#42cbf5>[</fc><fc=gray><action=`xdotool set_desktop 1`>2</action></fc><fc=#42cbf5>]</fc> \
            <fc=gray><action=`xdotool set_desktop 2`>3</action></fc> \
            <fc=#42cbf5>[</fc><fc=white>term</fc><fc=#42cbf5>]</fc> <fc=gray>(vpn)</fc>\n"
            .to_string())
    );
}

#[test]
fn line_of_a_client_set_with_a_tag_that_is_no_number() {
    let cs = client_set(&["1", "web", "3"], 1);
    let state = add_namedscratchpads_state(vec!["term"]);
    assert_eq!(display_workspaces(&cs, &state), Err(RenderError::NotNumbered(1)));
}

#[test]
fn invisible_workspace_has_no_token() {
    let mut cs = client_set(&["1", "2"], 1);
    cs.add_invisible_workspace("NSP").unwrap();
    let state = add_namedscratchpads_state(vec!["term"]);
    assert_eq!(
        display_workspaces(&cs, &state),
        Ok("<fc=#42cbf5>[</fc><fc=gray><action=`xdotool set_desktop 0`>1</action></fc><fc=#42cbf5>]</fc> \
            <fc=gray><action=`xdotool set_desktop 1`>2</action></fc> \
            <fc=gray>(term)</fc> <fc=gray>(vpn)</fc>\n"
            .to_string())
    );
}
