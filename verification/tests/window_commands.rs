use window_controls::{
    apply_command, close_window, is_window_maximized, maximize_window, minimize_window,
    resolve_label, unmaximize_window, CommandError, CommandReply, WindowCommand, WindowRegistry,
    WindowState,
};

fn registry_with(labels: &[&str]) -> WindowRegistry {
    let mut reg = WindowRegistry::new();
    for l in labels {
        assert!(reg.open_window((*l).to_string()));
    }
    reg
}

#[test]
fn resolve_label_keeps_a_given_label() {
    assert_eq!(resolve_label(Some("side".to_string())), "side");
}

#[test]
fn resolve_label_falls_back_to_main() {
    assert_eq!(resolve_label(None), "main");
}

#[test]
fn unknown_label_rejected_by_every_command() {
    let mut reg = registry_with(&["main"]);
    let ghost_label = || Some("ghost".to_string());
    assert_eq!(
        minimize_window(ghost_label(), &mut reg),
        Err(CommandError::WindowNotFound)
    );
    assert_eq!(
        maximize_window(ghost_label(), &mut reg),
        Err(CommandError::WindowNotFound)
    );
    assert_eq!(
        unmaximize_window(ghost_label(), &mut reg),
        Err(CommandError::WindowNotFound)
    );
    assert_eq!(
        close_window(ghost_label(), &mut reg),
        Err(CommandError::WindowNotFound)
    );
    assert_eq!(
        is_window_maximized(ghost_label(), &reg),
        Err(CommandError::WindowNotFound)
    );
    // the failed calls left the open window untouched
    assert_eq!(
        reg.get_state(&"main".to_string()),
        Some(WindowState::Normal)
    );
}

#[test]
fn no_label_on_an_empty_registry_is_not_found() {
    let mut reg = WindowRegistry::new();
    assert_eq!(
        minimize_window(None, &mut reg),
        Err(CommandError::WindowNotFound)
    );
    assert_eq!(is_window_maximized(None, &reg), Err(CommandError::WindowNotFound));
}

#[test]
fn no_label_behaves_like_main() {
    let mut with_none = registry_with(&["main", "side"]);
    let mut with_main = registry_with(&["main", "side"]);
    assert_eq!(
        maximize_window(None, &mut with_none),
        maximize_window(Some("main".to_string()), &mut with_main)
    );
    assert_eq!(
        is_window_maximized(None, &with_none),
        is_window_maximized(Some("main".to_string()), &with_main)
    );
    assert_eq!(
        with_none.get_state(&"main".to_string()),
        with_main.get_state(&"main".to_string())
    );
    assert_eq!(
        with_none.get_state(&"side".to_string()),
        with_main.get_state(&"side".to_string())
    );
}

#[test]
fn query_reports_true_after_maximize() {
    let mut reg = registry_with(&["main"]);
    assert_eq!(maximize_window(None, &mut reg), Ok(()));
    assert_eq!(is_window_maximized(None, &reg), Ok(true));
}

#[test]
fn query_reports_false_after_unmaximize() {
    let mut reg = registry_with(&["main"]);
    assert_eq!(maximize_window(None, &mut reg), Ok(()));
    assert_eq!(unmaximize_window(None, &mut reg), Ok(()));
    assert_eq!(is_window_maximized(None, &reg), Ok(false));
}

#[test]
fn query_reports_false_on_a_minimized_window() {
    let mut reg = registry_with(&["main"]);
    assert_eq!(minimize_window(None, &mut reg), Ok(()));
    assert_eq!(is_window_maximized(None, &reg), Ok(false));
}

#[test]
fn every_command_after_close_is_not_found() {
    let label = || Some("main".to_string());
    for step in 0..5 {
        let mut reg = registry_with(&["main", "side"]);
        assert_eq!(close_window(label(), &mut reg), Ok(()));
        let outcome = match step {
            0 => minimize_window(label(), &mut reg),
            1 => maximize_window(label(), &mut reg),
            2 => unmaximize_window(label(), &mut reg),
            3 => close_window(label(), &mut reg),
            _ => is_window_maximized(label(), &reg).map(|_| ()),
        };
        assert_eq!(outcome, Err(CommandError::WindowNotFound));
        // the other window is still there
        assert_eq!(
            reg.get_state(&"side".to_string()),
            Some(WindowState::Normal)
        );
    }
}

#[test]
fn commands_on_distinct_labels_are_independent() {
    let mut first_order = registry_with(&["left", "right"]);
    let r1 = maximize_window(Some("left".to_string()), &mut first_order);
    let r2 = minimize_window(Some("right".to_string()), &mut first_order);

    let mut second_order = registry_with(&["left", "right"]);
    let s2 = minimize_window(Some("right".to_string()), &mut second_order);
    let s1 = maximize_window(Some("left".to_string()), &mut second_order);

    assert_eq!(r1, s1);
    assert_eq!(r2, s2);
    assert_eq!(
        first_order.get_state(&"left".to_string()),
        second_order.get_state(&"left".to_string())
    );
    assert_eq!(
        first_order.get_state(&"right".to_string()),
        second_order.get_state(&"right".to_string())
    );
    assert_eq!(
        first_order.get_state(&"left".to_string()),
        Some(WindowState::Maximized)
    );
    assert_eq!(
        first_order.get_state(&"right".to_string()),
        Some(WindowState::Minimized)
    );
}

#[test]
fn window_not_found_message_is_fixed() {
    assert_eq!(CommandError::WindowNotFound.message(), "Window not found");
}

#[test]
fn platform_message_passes_through_verbatim() {
    let err = CommandError::Platform("the compositor refused".to_string());
    assert_eq!(err.message(), "the compositor refused");
}

#[test]
fn apply_command_dispatches_all_five_operations() {
    let mut reg = registry_with(&["main"]);
    assert_eq!(
        apply_command(WindowCommand::QueryMaximized, None, &mut reg),
        Ok(CommandReply::MaximizedFlag(false))
    );
    assert_eq!(
        apply_command(WindowCommand::Maximize, None, &mut reg),
        Ok(CommandReply::Done)
    );
    assert_eq!(
        apply_command(WindowCommand::QueryMaximized, None, &mut reg),
        Ok(CommandReply::MaximizedFlag(true))
    );
    assert_eq!(
        apply_command(WindowCommand::Unmaximize, None, &mut reg),
        Ok(CommandReply::Done)
    );
    assert_eq!(
        apply_command(WindowCommand::Minimize, None, &mut reg),
        Ok(CommandReply::Done)
    );
    assert_eq!(
        apply_command(WindowCommand::Close, None, &mut reg),
        Ok(CommandReply::Done)
    );
    assert_eq!(
        apply_command(WindowCommand::Minimize, None, &mut reg),
        Err(CommandError::WindowNotFound)
    );
}

#[test]
fn opening_a_taken_label_changes_nothing() {
    let mut reg = registry_with(&["main"]);
    assert_eq!(maximize_window(None, &mut reg), Ok(()));
    assert!(!reg.open_window("main".to_string()));
    assert_eq!(
        reg.get_state(&"main".to_string()),
        Some(WindowState::Maximized)
    );
}

#[test]
fn a_closed_label_can_be_reopened_in_normal_state() {
    let mut reg = registry_with(&["main"]);
    assert_eq!(maximize_window(None, &mut reg), Ok(()));
    assert_eq!(close_window(None, &mut reg), Ok(()));
    assert!(reg.open_window("main".to_string()));
    assert_eq!(is_window_maximized(None, &reg), Ok(false));
}

#[test]
fn the_empty_label_is_an_ordinary_label() {
    let mut reg = registry_with(&["", "main"]);
    assert_eq!(maximize_window(Some(String::new()), &mut reg), Ok(()));
    // the default target is "main", not the empty label
    assert_eq!(is_window_maximized(None, &reg), Ok(false));
    assert_eq!(is_window_maximized(Some(String::new()), &reg), Ok(true));
}

#[test]
fn get_state_on_a_missing_label_is_none() {
    let reg = WindowRegistry::new();
    assert_eq!(reg.get_state(&"main".to_string()), None);
}
