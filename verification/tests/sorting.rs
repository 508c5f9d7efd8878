use niri_workspaces_enhanced::order::{sort_stable, Ranked};
use niri_workspaces_enhanced::{Window, WindowLayout, WorkspaceInfo};

fn window(id: u64, pos: Option<(usize, usize)>) -> Window {
    Window {
        id,
        title: None,
        app_id: None,
        pid: None,
        workspace_id: None,
        is_focused: false,
        is_floating: false,
        is_urgent: false,
        layout: WindowLayout { pos_in_scrolling_layout: pos, window_size: (0, 0) },
    }
}

fn record(id: u64, idx: u8) -> WorkspaceInfo {
    WorkspaceInfo {
        id,
        name: String::new(),
        icons: String::new(),
        idx,
        is_focused: false,
        is_urgent: false,
        is_active: false,
    }
}

fn ids(windows: &[Window]) -> Vec<u64> {
    windows.iter().map(|window| window.id).collect()
}

#[test]
fn windows_rank_as_their_positions_do() {
    let positions = [
        None,
        Some((0, 0)),
        Some((0, 1)),
        Some((0, usize::MAX)),
        Some((1, 0)),
        Some((1, 1)),
        Some((2, 0)),
        Some((usize::MAX, 0)),
        Some((usize::MAX, usize::MAX)),
    ];
    for first in positions {
        for second in positions {
            assert_eq!(
                window(1, first).ranks_up_to(&window(2, second)),
                first <= second,
                "{:?} {:?}",
                first,
                second
            );
        }
    }
}

#[test]
fn records_rank_as_their_indices_do() {
    assert!(record(1, 0).ranks_up_to(&record(2, 0)));
    assert!(record(1, 3).ranks_up_to(&record(2, 200)));
    assert!(!record(1, 255).ranks_up_to(&record(2, 254)));
}

#[test]
fn sort_agrees_with_the_stable_sort_of_std() {
    let positions = [
        Some((3, 1)),
        None,
        Some((1, 2)),
        Some((3, 1)),
        Some((1, 1)),
        None,
        Some((0, 9)),
        Some((1, 2)),
        Some((2, 2)),
        Some((3, 0)),
    ];
    for len in 0..=positions.len() {
        for shift in 0..positions.len() {
            let mut windows: Vec<Window> = (0..len)
                .map(|i| window(i as u64, positions[(i + shift) % positions.len()]))
                .collect();
            let mut expected = windows.clone();
            expected.sort_by_key(|window| window.layout.pos_in_scrolling_layout);
            sort_stable(&mut windows);
            assert_eq!(ids(&windows), ids(&expected));
        }
    }
}

#[test]
fn sort_leaves_an_ascending_vector_as_it_is() {
    let mut windows = vec![window(1, None), window(2, None), window(3, Some((1, 1)))];
    sort_stable(&mut windows);
    assert_eq!(ids(&windows), vec![1, 2, 3]);
    let mut none: Vec<Window> = Vec::new();
    sort_stable(&mut none);
    assert!(none.is_empty());
}

#[test]
fn sort_turns_a_descending_vector_round() {
    let mut records: Vec<WorkspaceInfo> = (0..=255u8).rev().map(|idx| record(idx as u64, idx)).collect();
    sort_stable(&mut records);
    for (i, info) in records.iter().enumerate() {
        assert_eq!(info.idx as usize, i);
        assert_eq!(info.id as usize, i);
    }
}
