//! Workspace indicators for a tiling window manager's status bar: icon
//! resolution, label formatting, snapshot aggregation and the decisions of
//! the synchronization loop.

pub mod aggregate;
pub mod config;
pub mod default_icons;
pub mod icon_table;
pub mod label;
pub mod model;
pub mod order;
pub mod resolve;
pub mod sync;
pub mod template;

pub use crate::aggregate::{aggregate, icons_for, sort_by_index};
pub use crate::config::{
    Config, FormatSlot, UserConfig, UserWindowIconFormats, WindowIconFormats,
    DEFAULT_FOCUSED_FORMAT, DEFAULT_FORMAT, DEFAULT_URGENT_FORMAT,
};
pub use crate::default_icons::{default_icon_table, default_icons, DEFAULT_ICON_COUNT};
pub use crate::icon_table::IconTable;
pub use crate::label::format_workspace_label;
pub use crate::model::{Window, WindowLayout, Workspace, WorkspaceInfo};
pub use crate::resolve::{format_icon, get_raw_icon, icon_source_of, IconSource};
pub use crate::sync::{
    is_relevant, step, Command, Engine, EventKind, Input, PassStep, Query, Reply, SyncError,
    SyncState,
};
pub use crate::template::{contains_placeholder, fill_template, find_placeholder};
