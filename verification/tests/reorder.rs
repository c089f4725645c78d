use niri_sidebar::commands::reorder;
use niri_sidebar::config::{Geometry, Margins};
use niri_sidebar::{Action, AppState, Config, Ctx, Snapshot, Window};

fn mock_window(id: u64, is_focused: bool, is_floating: bool, workspace_id: u64) -> Window {
    Window {
        id,
        is_focused,
        is_floating,
        workspace_id: Some(workspace_id),
        width: 1000,
        height: 800,
    }
}

fn mock_config() -> Config {
    Config {
        geometry: Geometry { width: 300, height: 200, gap: 10 },
        margins: Margins { top: 50, right: 20 },
        ..Default::default()
    }
}

fn mock_snapshot(windows: Vec<Window>) -> Snapshot {
    Snapshot { windows, active_workspace: 1, display_width: 1920, display_height: 1080 }
}

fn empty_state() -> AppState {
    AppState::default()
}

#[test]
fn test_standard_stacking_order() {
    // Scenario: Two windows, visible. Check Y-axis stacking.
    let w1 = mock_window(1, false, true, 1);
    let w2 = mock_window(2, true, true, 1);
    let snapshot = mock_snapshot(vec![w1, w2]);

    let mut state = empty_state();
    // 1 is bottom, 2 is top
    state.windows.push((1, 300, 200));
    state.windows.push((2, 300, 200));

    let mut ctx = Ctx { state, config: mock_config() };

    let outcome = reorder(&mut ctx, &snapshot);

    let actions = &outcome.actions;
    assert_eq!(actions.len(), 2);

    // Screen W: 1920, H: 1080
    // Config: W: 300, H: 200, Gap: 10, Top: 50, Right: 20
    let base_x = 1920 - 300 - 20; // 1600
    let base_y = 1080 - 200 - 50; // 830 (Bottom-most slot)

    // Window 1 (Index 0)
    assert!(actions.iter().any(|a| matches!(a,
        Action::MoveFloatingWindow { id: 1, x, y } if *x == base_x && *y == base_y
    )));

    // Window 2 (Index 1) -> Stacked above
    // Y = BaseY - (Height + Gap) = 830 - (200 + 10) = 620
    assert!(actions.iter().any(|a| matches!(a,
        Action::MoveFloatingWindow { id: 2, x, y } if *x == base_x && *y == 620
    )));
}

#[test]
fn test_hidden_mode_with_focus_peek() {
    // Scenario: Hidden mode. Focused window should stick out more.
    let w_focused = mock_window(1, true, true, 1);
    let w_bg = mock_window(2, false, true, 1);
    let snapshot = mock_snapshot(vec![w_focused, w_bg]);

    let mut state = AppState { is_hidden: true, ..Default::default() };
    state.windows.push((1, 300, 200));
    state.windows.push((2, 300, 200));

    let mut ctx = Ctx { state, config: mock_config() };

    let outcome = reorder(&mut ctx, &snapshot);
    let actions = &outcome.actions;

    // Config: Peek: 10, FocusPeek: 50
    // 1. Unfocused Window (ID 2) -> Should be at 1920 - 10 = 1910
    assert!(actions
        .iter()
        .any(|a| matches!(a, Action::MoveFloatingWindow { id: 2, x, .. } if *x == 1910)));

    // 2. Focused Window (ID 1) -> Should be at 1920 - 50 = 1870
    assert!(actions
        .iter()
        .any(|a| matches!(a, Action::MoveFloatingWindow { id: 1, x, .. } if *x == 1870)));
}

#[test]
fn test_filters_wrong_workspace_and_cleanup_zombies() {
    // Scenario:
    // - Window 1: On workspace 1 (Correct)
    // - Window 2: On workspace 99 (Should be ignored)
    // - Window 3: In State, but does not exist in the live list

    let w1 = mock_window(1, false, true, 1);
    let w2 = mock_window(2, false, true, 99);
    let snapshot = mock_snapshot(vec![w1, w2]);

    let mut state = empty_state();
    state.windows.push((1, 100, 100));
    state.windows.push((2, 100, 100));
    state.windows.push((3, 100, 100));

    let mut ctx = Ctx { state, config: mock_config() };

    let outcome = reorder(&mut ctx, &snapshot);

    let ids: Vec<u64> = ctx.state.windows.iter().map(|(id, _, _)| *id).collect();
    assert!(ids.contains(&1));
    assert!(ids.contains(&2));
    assert!(!ids.contains(&3), "Zombie window 3 should be removed from state");

    let actions = &outcome.actions;

    // Should move ID 1
    assert!(actions.iter().any(|a| matches!(a, Action::MoveFloatingWindow { id: 1, .. })));
    // Should NOT move ID 2 (Wrong WS)
    assert!(!actions.iter().any(|a| matches!(a, Action::MoveFloatingWindow { id: 2, .. })));
    // Should NOT move ID 3 (Doesn't exist)
    assert!(!actions.iter().any(|a| matches!(a, Action::MoveFloatingWindow { id: 3, .. })));
}

#[test]
fn test_flipped_order() {
    // Scenario: Flipped mode reverses the visual stack
    let w1 = mock_window(1, false, true, 1);
    let w2 = mock_window(2, false, true, 1);
    let snapshot = mock_snapshot(vec![w1, w2]);

    let mut state = AppState { is_flipped: true, ..Default::default() };
    state.windows.push((1, 300, 200));
    state.windows.push((2, 300, 200));

    let mut ctx = Ctx { state, config: mock_config() };

    let outcome = reorder(&mut ctx, &snapshot);
    let actions = &outcome.actions;

    // Normal Order: 1 is bottom (idx 0), 2 is top (idx 1)
    // Flipped Order: 2 becomes bottom (idx 0), 1 becomes top (idx 1)
    // BaseY = 1080 - 200 - 50 = 830
    assert!(actions
        .iter()
        .any(|a| matches!(a, Action::MoveFloatingWindow { id: 2, y, .. } if *y == 830)));
    // Y = 830 - (200 + 10) = 620
    assert!(actions
        .iter()
        .any(|a| matches!(a, Action::MoveFloatingWindow { id: 1, y, .. } if *y == 620)));
}

#[test]
fn reorder_asks_to_persist_and_not_to_reorder_again() {
    let mut ctx = Ctx { state: empty_state(), config: mock_config() };
    let outcome = reorder(&mut ctx, &mock_snapshot(vec![]));
    assert!(outcome.persist);
    assert!(!outcome.then_reorder);
    assert!(outcome.actions.is_empty());
}

#[test]
fn reorder_gives_the_exact_commands_in_stack_order() {
    let snapshot = mock_snapshot(vec![
        mock_window(3, false, true, 1),
        mock_window(1, true, true, 1),
        mock_window(2, false, true, 1),
    ]);
    let mut state = empty_state();
    state.windows.push((1, 10, 10));
    state.windows.push((2, 10, 10));
    state.windows.push((3, 10, 10));
    let mut ctx = Ctx { state, config: mock_config() };

    let outcome = reorder(&mut ctx, &snapshot);

    assert_eq!(
        outcome.actions,
        vec![
            Action::MoveFloatingWindow { id: 1, x: 1600, y: 830 },
            Action::MoveFloatingWindow { id: 2, x: 1600, y: 620 },
            Action::MoveFloatingWindow { id: 3, x: 1600, y: 410 },
        ]
    );
    assert_eq!(ctx.state.windows, vec![(1, 10, 10), (2, 10, 10), (3, 10, 10)]);
    assert_eq!(ctx.config, mock_config());
}

#[test]
fn reorder_flipped_and_hidden_gives_the_exact_commands() {
    let snapshot = mock_snapshot(vec![
        mock_window(1, false, true, 1),
        mock_window(2, true, true, 1),
        mock_window(3, false, true, 1),
    ]);
    let mut state = AppState { is_hidden: true, is_flipped: true, ..Default::default() };
    state.windows.push((1, 10, 10));
    state.windows.push((2, 10, 10));
    state.windows.push((3, 10, 10));
    let mut ctx = Ctx { state, config: mock_config() };

    let outcome = reorder(&mut ctx, &snapshot);

    assert_eq!(
        outcome.actions,
        vec![
            Action::MoveFloatingWindow { id: 3, x: 1910, y: 830 },
            Action::MoveFloatingWindow { id: 2, x: 1870, y: 620 },
            Action::MoveFloatingWindow { id: 1, x: 1910, y: 410 },
        ]
    );
    assert!(ctx.state.is_hidden);
    assert!(ctx.state.is_flipped);
}

#[test]
fn reorder_twice_gives_the_same_commands() {
    let snapshot = mock_snapshot(vec![
        mock_window(7, false, true, 1),
        mock_window(5, true, true, 1),
        mock_window(9, false, true, 2),
    ]);
    let mut state = empty_state();
    state.windows.push((5, 1, 2));
    state.windows.push((6, 3, 4));
    state.windows.push((7, 5, 6));
    state.windows.push((9, 7, 8));
    let mut ctx = Ctx { state, config: mock_config() };

    let first = reorder(&mut ctx, &snapshot);
    let after_first = ctx.state.clone();
    let second = reorder(&mut ctx, &snapshot);

    assert_eq!(after_first.windows, vec![(5, 1, 2), (7, 5, 6), (9, 7, 8)]);
    assert_eq!(ctx.state, after_first);
    assert_eq!(first.actions, second.actions);
    assert_eq!(
        first.actions,
        vec![
            Action::MoveFloatingWindow { id: 5, x: 1600, y: 830 },
            Action::MoveFloatingWindow { id: 7, x: 1600, y: 620 },
        ]
    );
}

#[test]
fn reorder_leaves_tiled_windows_alone() {
    let snapshot = mock_snapshot(vec![mock_window(1, false, false, 1), mock_window(2, false, true, 1)]);
    let mut state = empty_state();
    state.windows.push((1, 10, 10));
    state.windows.push((2, 10, 10));
    let mut ctx = Ctx { state, config: mock_config() };

    let outcome = reorder(&mut ctx, &snapshot);

    assert_eq!(outcome.actions, vec![Action::MoveFloatingWindow { id: 2, x: 1600, y: 830 }]);
    assert_eq!(ctx.state.windows.len(), 2);
}

#[test]
fn reorder_leaves_windows_without_workspace_and_untracked_ones_alone() {
    let mut nowhere = mock_window(1, false, true, 1);
    nowhere.workspace_id = None;
    let snapshot = mock_snapshot(vec![nowhere, mock_window(50, true, true, 1)]);
    let mut state = empty_state();
    state.windows.push((1, 10, 10));
    let mut ctx = Ctx { state, config: mock_config() };

    let outcome = reorder(&mut ctx, &snapshot);

    assert!(outcome.actions.is_empty());
    assert_eq!(ctx.state.windows, vec![(1, 10, 10)]);
}

#[test]
fn reorder_places_a_twice_listed_id_by_its_last_entry() {
    let snapshot = mock_snapshot(vec![mock_window(1, false, true, 1), mock_window(2, false, true, 1)]);
    let mut state = empty_state();
    state.windows.push((1, 10, 10));
    state.windows.push((2, 10, 10));
    state.windows.push((1, 20, 20));
    let mut ctx = Ctx { state, config: mock_config() };

    let outcome = reorder(&mut ctx, &snapshot);

    assert_eq!(
        outcome.actions,
        vec![
            Action::MoveFloatingWindow { id: 2, x: 1600, y: 830 },
            Action::MoveFloatingWindow { id: 1, x: 1600, y: 620 },
        ]
    );
}

#[test]
fn reorder_does_not_overflow_on_extreme_geometry() {
    let snapshot = Snapshot {
        windows: vec![mock_window(1, false, true, 1), mock_window(2, false, true, 1)],
        active_workspace: 1,
        display_width: i32::MIN,
        display_height: i32::MIN,
    };
    let config = Config {
        geometry: Geometry { width: i32::MAX, height: i32::MAX, gap: i32::MAX },
        margins: Margins { top: i32::MAX, right: i32::MAX },
        ..Default::default()
    };
    let mut state = empty_state();
    state.windows.push((1, 10, 10));
    state.windows.push((2, 10, 10));
    let mut ctx = Ctx { state, config };

    let outcome = reorder(&mut ctx, &snapshot);

    let x = -2147483648i64 - 2147483647 - 2147483647;
    let y0 = -2147483648i128 - 2147483647 - 2147483647;
    let y1 = y0 - (2147483647i128 + 2147483647);
    assert_eq!(
        outcome.actions,
        vec![
            Action::MoveFloatingWindow { id: 1, x, y: y0 },
            Action::MoveFloatingWindow { id: 2, x, y: y1 },
        ]
    );
}
