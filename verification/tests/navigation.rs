use zfile::navigation::{NavigationState, ViewMode};

fn loc(path: &str) -> String {
    String::from(path)
}

fn history_of(state: &NavigationState) -> Vec<&str> {
    state.history().iter().map(|s| s.as_str()).collect()
}

/// A state with history [A, B, C] and the cursor on C.
fn abc() -> NavigationState {
    let mut state = NavigationState::new(loc("/A"));
    state.navigate(loc("/B"));
    state.navigate(loc("/C"));
    state
}

#[test]
fn new_state_holds_one_entry() {
    let state = NavigationState::new(loc("/home/user"));
    assert_eq!(state.current(), "/home/user");
    assert_eq!(history_of(&state), vec!["/home/user"]);
    assert_eq!(state.cursor(), 0);
    assert_eq!(state.view_mode(), ViewMode::Grid);
    assert!(!state.can_go_back());
    assert!(!state.can_go_forward());
}

#[test]
fn navigate_appends_and_returns_the_target() {
    let mut state = NavigationState::new(loc("/home/user"));
    let now = state.navigate(loc("/home/user/Pictures"));
    assert_eq!(now, "/home/user/Pictures");
    assert_eq!(state.current(), "/home/user/Pictures");
    assert_eq!(history_of(&state), vec!["/home/user", "/home/user/Pictures"]);
    assert_eq!(state.cursor(), 1);
}

#[test]
fn current_is_under_the_cursor_after_every_navigate() {
    let mut state = NavigationState::new(loc("/"));
    let targets = ["/usr", "/usr/lib", "/", "/usr", "/usr", "/tmp/a b", ""];
    for (n, target) in targets.iter().enumerate() {
        state.navigate(loc(target));
        assert_eq!(&state.history()[state.cursor()], state.current());
        assert_eq!(state.current(), target);
        assert_eq!(state.cursor(), n + 1);
        assert_eq!(state.history().len(), n + 2);
    }
}

#[test]
fn navigate_keeps_duplicates() {
    let mut state = NavigationState::new(loc("/A"));
    state.navigate(loc("/A"));
    state.navigate(loc("/A"));
    assert_eq!(history_of(&state), vec!["/A", "/A", "/A"]);
    assert_eq!(state.cursor(), 2);
}

#[test]
fn navigate_does_not_check_the_target() {
    let mut state = NavigationState::new(loc("/"));
    let now = state.navigate(loc("/no/such/place/anywhere"));
    assert_eq!(now, "/no/such/place/anywhere");
    assert_eq!(state.cursor(), 1);
}

#[test]
fn go_back_steps_to_the_previous_entry() {
    let mut state = abc();
    assert_eq!(state.go_back(), Some(loc("/B")));
    assert_eq!(state.current(), "/B");
    assert_eq!(state.cursor(), 1);
    assert_eq!(history_of(&state), vec!["/A", "/B", "/C"]);
    assert_eq!(state.go_back(), Some(loc("/A")));
    assert_eq!(state.current(), "/A");
    assert_eq!(state.cursor(), 0);
}

#[test]
fn go_forward_steps_to_the_next_entry() {
    let mut state = abc();
    state.go_back();
    state.go_back();
    assert_eq!(state.go_forward(), Some(loc("/B")));
    assert_eq!(state.current(), "/B");
    assert_eq!(state.cursor(), 1);
    assert_eq!(state.go_forward(), Some(loc("/C")));
    assert_eq!(state.current(), "/C");
    assert_eq!(state.cursor(), 2);
    assert_eq!(history_of(&state), vec!["/A", "/B", "/C"]);
}

#[test]
fn back_then_forward_round_trip() {
    let mut state = abc();
    assert!(state.go_back().is_some());
    assert_eq!(state.go_forward(), Some(loc("/C")));
    assert_eq!(state.current(), "/C");
    assert_eq!(state.cursor(), 2);
    assert_eq!(history_of(&state), vec!["/A", "/B", "/C"]);

    state.go_back();
    // From the middle of the history as well.
    assert!(state.go_back().is_some());
    assert_eq!(state.go_forward(), Some(loc("/B")));
    assert_eq!(state.current(), "/B");
    assert_eq!(state.cursor(), 1);
}

#[test]
fn back_then_forward_on_a_single_entry_changes_nothing() {
    let mut state = NavigationState::new(loc("/A"));
    assert_eq!(state.go_back(), None);
    assert_eq!(state.go_forward(), None);
    assert_eq!(state.current(), "/A");
    assert_eq!(state.cursor(), 0);
}

#[test]
fn back_then_forward_from_the_oldest_of_several_moves_on() {
    let mut state = abc();
    state.go_back();
    state.go_back();
    assert_eq!(state.cursor(), 0);
    assert_eq!(state.go_back(), None);
    assert_eq!(state.go_forward(), Some(loc("/B")));
    assert_eq!(state.cursor(), 1);
}

#[test]
fn go_back_at_the_start_is_a_no_op() {
    let mut state = NavigationState::new(loc("/home/user"));
    state.set_view_mode(ViewMode::List);
    assert_eq!(state.go_back(), None);
    assert_eq!(state.go_back(), None);
    assert_eq!(state.current(), "/home/user");
    assert_eq!(history_of(&state), vec!["/home/user"]);
    assert_eq!(state.cursor(), 0);
    assert_eq!(state.view_mode(), ViewMode::List);
}

#[test]
fn go_forward_at_the_end_is_a_no_op() {
    let mut state = abc();
    assert_eq!(state.go_forward(), None);
    assert_eq!(state.go_forward(), None);
    assert_eq!(state.current(), "/C");
    assert_eq!(history_of(&state), vec!["/A", "/B", "/C"]);
    assert_eq!(state.cursor(), 2);
}

#[test]
fn navigate_after_back_discards_the_tail() {
    let mut state = abc();
    assert_eq!(state.go_back(), Some(loc("/B")));
    assert_eq!(state.cursor(), 1);
    assert_eq!(state.current(), "/B");
    state.navigate(loc("/D"));
    assert_eq!(history_of(&state), vec!["/A", "/B", "/D"]);
    assert_eq!(state.cursor(), 2);
    assert_eq!(state.current(), "/D");
    assert!(!state.can_go_forward());
}

#[test]
fn navigate_after_two_steps_back_discards_both() {
    let mut state = abc();
    state.go_back();
    state.go_back();
    state.navigate(loc("/D"));
    assert_eq!(history_of(&state), vec!["/A", "/D"]);
    assert_eq!(state.cursor(), 1);
}

#[test]
fn go_up_moves_to_the_parent() {
    let mut state = NavigationState::new(loc("/home/user/docs"));
    assert_eq!(state.parent(), Some(loc("/home/user")));
    assert_eq!(state.go_up(), Some(loc("/home/user")));
    assert_eq!(state.current(), "/home/user");
    assert_eq!(history_of(&state), vec!["/home/user/docs", "/home/user"]);
    assert_eq!(state.cursor(), 1);
}

#[test]
fn go_up_discards_the_tail_like_navigate() {
    let mut state = NavigationState::new(loc("/home/user"));
    state.navigate(loc("/home/user/docs"));
    state.navigate(loc("/tmp"));
    state.go_back();
    assert_eq!(state.go_up(), Some(loc("/home/user")));
    assert_eq!(history_of(&state), vec!["/home/user", "/home/user/docs", "/home/user"]);
    assert_eq!(state.cursor(), 2);
    assert!(!state.can_go_forward());
}

#[test]
fn go_up_climbs_to_the_root_and_stops() {
    let mut state = NavigationState::new(loc("/home/user"));
    assert_eq!(state.go_up(), Some(loc("/home")));
    assert_eq!(state.go_up(), Some(loc("/")));
    assert_eq!(state.go_up(), None);
    assert_eq!(state.current(), "/");
    assert_eq!(history_of(&state), vec!["/home/user", "/home", "/"]);
    assert_eq!(state.cursor(), 2);
}

#[test]
fn go_up_from_the_root_is_a_no_op() {
    let mut state = NavigationState::new(loc("/"));
    assert_eq!(state.parent(), None);
    assert_eq!(state.go_up(), None);
    assert_eq!(state.current(), "/");
    assert_eq!(history_of(&state), vec!["/"]);
    assert_eq!(state.cursor(), 0);
}

#[test]
fn go_up_to_commits_what_it_is_given() {
    let mut state = NavigationState::new(loc("/a/b"));
    assert_eq!(state.go_up_to(None), None);
    assert_eq!(history_of(&state), vec!["/a/b"]);
    assert_eq!(state.go_up_to(Some(loc("/a"))), Some(loc("/a")));
    assert_eq!(history_of(&state), vec!["/a/b", "/a"]);
    assert_eq!(state.cursor(), 1);
    assert_eq!(state.current(), "/a");
}

#[test]
fn set_view_mode_leaves_navigation_alone() {
    let mut state = abc();
    state.go_back();
    state.set_view_mode(ViewMode::List);
    assert_eq!(state.view_mode(), ViewMode::List);
    assert_eq!(state.current(), "/B");
    assert_eq!(history_of(&state), vec!["/A", "/B", "/C"]);
    assert_eq!(state.cursor(), 1);
    state.set_view_mode(ViewMode::Grid);
    assert_eq!(state.view_mode(), ViewMode::Grid);
    assert_eq!(state.cursor(), 1);
}

#[test]
fn navigation_leaves_the_view_mode_alone() {
    let mut state = NavigationState::new(loc("/a/b"));
    state.set_view_mode(ViewMode::List);
    state.navigate(loc("/c"));
    state.go_back();
    state.go_forward();
    state.go_up();
    assert_eq!(state.view_mode(), ViewMode::List);
}

#[test]
fn pictures_then_back_then_documents() {
    let mut state = NavigationState::new(loc("/home/user"));
    assert_eq!(history_of(&state), vec!["/home/user"]);
    assert_eq!(state.cursor(), 0);

    state.navigate(loc("/home/user/Pictures"));
    assert_eq!(history_of(&state), vec!["/home/user", "/home/user/Pictures"]);
    assert_eq!(state.cursor(), 1);

    assert_eq!(state.go_back(), Some(loc("/home/user")));
    assert_eq!(state.cursor(), 0);

    state.navigate(loc("/home/user/Documents"));
    assert_eq!(history_of(&state), vec!["/home/user", "/home/user/Documents"]);
    assert_eq!(state.cursor(), 1);
}

#[test]
fn targets_are_previewed_without_moving() {
    let mut state = abc();
    assert_eq!(state.back_target(), Some(loc("/B")));
    assert_eq!(state.forward_target(), None);
    assert_eq!(state.cursor(), 2);
    state.go_back();
    assert_eq!(state.back_target(), Some(loc("/A")));
    assert_eq!(state.forward_target(), Some(loc("/C")));
    assert_eq!(state.cursor(), 1);
    assert_eq!(state.current(), "/B");
    state.go_back();
    assert_eq!(state.back_target(), None);
    assert_eq!(state.forward_target(), Some(loc("/B")));
}

#[test]
fn can_go_back_and_forward_follow_the_cursor() {
    let mut state = abc();
    assert!(state.can_go_back());
    assert!(!state.can_go_forward());
    state.go_back();
    assert!(state.can_go_back());
    assert!(state.can_go_forward());
    state.go_back();
    assert!(!state.can_go_back());
    assert!(state.can_go_forward());
}

#[test]
fn the_state_stays_consistent() {
    let mut state = NavigationState::new(loc("/a/b/c"));
    assert!(state.is_consistent());
    state.navigate(loc("/x"));
    assert!(state.is_consistent());
    state.go_back();
    assert!(state.is_consistent());
    state.go_back();
    assert!(state.is_consistent());
    state.go_forward();
    assert!(state.is_consistent());
    state.go_forward();
    assert!(state.is_consistent());
    state.go_up();
    assert!(state.is_consistent());
    state.go_back();
    state.navigate(loc("/y"));
    assert!(state.is_consistent());
    state.set_view_mode(ViewMode::List);
    assert!(state.is_consistent());
}
