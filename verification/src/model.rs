//! What the window manager reports of its windows and workspaces, and what
//! the indicator shows of one workspace.

use crate::order::Ranked;
use vstd::prelude::*;

verus! {

/// Where a window stands on its workspace.
#[derive(Debug, Clone, Copy)]
pub struct WindowLayout {
    /// Column and place within the column in the scrolling layout; `None`
    /// where the window is not part of it.
    pub pos_in_scrolling_layout: Option<(usize, usize)>,
    /// Width and height of the window.
    pub window_size: (i32, i32),
}

/// A window as the window manager reports it.
#[derive(Debug, Clone)]
pub struct Window {
    pub id: u64,
    pub title: Option<String>,
    /// The application identifier, in the casing that the window manager gave.
    pub app_id: Option<String>,
    pub pid: Option<i32>,
    /// The workspace that holds the window; `None` where it is unassigned.
    pub workspace_id: Option<u64>,
    pub is_focused: bool,
    pub is_floating: bool,
    pub is_urgent: bool,
    pub layout: WindowLayout,
}

/// A workspace as the window manager reports it.
#[derive(Debug, Clone)]
pub struct Workspace {
    pub id: u64,
    /// The index under which the workspace is shown.
    pub idx: u8,
    pub name: Option<String>,
    pub output: Option<String>,
    pub is_urgent: bool,
    pub is_active: bool,
    pub is_focused: bool,
    pub active_window_id: Option<u64>,
}

/// What the indicator shows of one workspace.
#[derive(Debug, Clone)]
pub struct WorkspaceInfo {
    pub id: u64,
    /// The workspace's name; empty where it has none.
    pub name: String,
    /// The formatted icons of the workspace's windows, each parted from the
    /// one before it by a space.
    pub icons: String,
    pub idx: u8,
    pub is_focused: bool,
    pub is_urgent: bool,
    pub is_active: bool,
}

/// The rank of a position in the scrolling layout: a window without a
/// position ranks below every other, the others rank by column, and within
/// a column by place.
pub open spec fn position_rank(pos: Option<(usize, usize)>) -> int {
    match pos {
        None => -1,
        Some((column, place)) => column * 0x1_0000_0000_0000_0000 + place,
    }
}

/// `position_rank` orders positions as pairs are ordered: first by column,
/// then by place, and an absent position before all.
pub proof fn lemma_position_rank_orders_pairs(a: Option<(usize, usize)>, b: Option<(usize, usize)>)
    ensures
        position_rank(a) <= position_rank(b) <==> match (a, b) {
            (None, _) => true,
            (Some(_), None) => false,
            (Some(p), Some(q)) => p.0 < q.0 || (p.0 == q.0 && p.1 <= q.1),
        },
{
}

impl Ranked for Window {
    /// Windows are ordered by their position in the scrolling layout.
    open spec fn rank(&self) -> int {
        position_rank(self.layout.pos_in_scrolling_layout)
    }

    fn ranks_up_to(&self, other: &Self) -> (b: bool) {
        match (self.layout.pos_in_scrolling_layout, other.layout.pos_in_scrolling_layout) {
            (None, _) => true,
            (Some(_), None) => false,
            (Some(p), Some(q)) => p.0 < q.0 || (p.0 == q.0 && p.1 <= q.1),
        }
    }
}

impl Ranked for WorkspaceInfo {
    /// Workspaces are shown in the order of their display index.
    open spec fn rank(&self) -> int {
        self.idx as int
    }

    fn ranks_up_to(&self, other: &Self) -> (b: bool) {
        self.idx <= other.idx
    }
}

} // verus!
