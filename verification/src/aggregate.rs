//! Aggregation: from the workspaces and the windows of one query to the
//! snapshot, one record per workspace with the icons of its windows.

use crate::config::Config;
use crate::model::{Window, Workspace, WorkspaceInfo};
use crate::order::{
    ascending, lemma_sort_ascending, lemma_sort_commutes_with_filter, lemma_sort_permutes,
    sort_by_rank, sort_stable,
};
use crate::resolve::{format_icon, get_raw_icon, window_icon};
use vstd::prelude::*;
use vstd::string::*;

verus! {

/// The icons of a workspace with one more icon: the icon alone where there
/// were none, else the icons, a space and the icon.
pub open spec fn append_icon(icons: Seq<char>, icon: Seq<char>) -> Seq<char> {
    if icons.len() == 0 {
        icon
    } else {
        icons + seq![' '] + icon
    }
}

/// Picks the windows that the workspace `id` holds.
pub open spec fn on_workspace(id: u64) -> spec_fn(Window) -> bool {
    |window: Window| window.workspace_id == Some(id)
}

/// The formatted icons of the windows, in the order given, each added to
/// those before it by `append_icon`.
pub open spec fn join_icons(cfg: Config, windows: Seq<Window>) -> Seq<char>
    decreases windows.len(),
{
    if windows.len() == 0 {
        Seq::empty()
    } else {
        append_icon(join_icons(cfg, windows.drop_last()), window_icon(cfg, windows.last()))
    }
}

/// The icons of the workspace `id`: the formatted icons of the windows that
/// it holds, in the order in which `windows` gives them.
pub open spec fn icons_of(cfg: Config, windows: Seq<Window>, id: u64) -> Seq<char> {
    join_icons(cfg, windows.filter(on_workspace(id)))
}

/// Some workspace of the list has the identifier `id`.
pub open spec fn has_id(workspaces: Seq<Workspace>, id: u64) -> bool {
    exists|k: int| 0 <= k < workspaces.len() && (#[trigger] workspaces[k]).id == id
}

/// `k` is the index of the last workspace of the list with identifier `id`.
pub open spec fn is_last_with_id(workspaces: Seq<Workspace>, id: u64, k: int) -> bool {
    &&& 0 <= k < workspaces.len()
    &&& workspaces[k].id == id
    &&& forall|m: int| k < m < workspaces.len() ==> (#[trigger] workspaces[m]).id != id
}

/// The last workspace of the list with identifier `id`; meaningful only
/// where `has_id(workspaces, id)`.
pub open spec fn last_with_id(workspaces: Seq<Workspace>, id: u64) -> Workspace {
    workspaces[choose|k: int| is_last_with_id(workspaces, id, k)]
}

/// The identifiers of the list, each once, in the order in which they first
/// occur.
pub open spec fn distinct_ids(workspaces: Seq<Workspace>) -> Seq<u64>
    decreases workspaces.len(),
{
    if workspaces.len() == 0 {
        Seq::empty()
    } else {
        let earlier = distinct_ids(workspaces.drop_last());
        if earlier.contains(workspaces.last().id) {
            earlier
        } else {
            earlier.push(workspaces.last().id)
        }
    }
}

/// The name shown for a workspace: its name, or nothing where it has none.
pub open spec fn shown_name(name: Option<String>) -> Seq<char> {
    match name {
        Some(text) => text@,
        None => Seq::empty(),
    }
}

/// The record shows the workspace with the given icons.
pub open spec fn shows(info: WorkspaceInfo, workspace: Workspace, icons: Seq<char>) -> bool {
    &&& info.id == workspace.id
    &&& info.name@ == shown_name(workspace.name)
    &&& info.icons@ == icons
    &&& info.idx == workspace.idx
    &&& info.is_focused == workspace.is_focused
    &&& info.is_urgent == workspace.is_urgent
    &&& info.is_active == workspace.is_active
}

/// `snapshot` is the snapshot of the given workspaces and windows: one
/// record for each identifier among the workspaces, in the order in which
/// the identifiers first occur; each shows the last workspace that carries
/// its identifier, with the icons of that workspace's windows in ascending
/// order of their position in the scrolling layout.
pub open spec fn is_snapshot(
    snapshot: Seq<WorkspaceInfo>,
    cfg: Config,
    workspaces: Seq<Workspace>,
    windows: Seq<Window>,
) -> bool {
    let ids = distinct_ids(workspaces);
    &&& snapshot.len() == ids.len()
    &&& forall|i: int|
        0 <= i < snapshot.len() ==> shows(
            #[trigger] snapshot[i],
            last_with_id(workspaces, ids[i]),
            icons_of(cfg, sort_by_rank(windows), ids[i]),
        )
}

/// The last index at which an identifier occurs is one index.
pub proof fn lemma_last_with_id_unique(workspaces: Seq<Workspace>, id: u64, k: int)
    requires
        is_last_with_id(workspaces, id, k),
    ensures
        last_with_id(workspaces, id) == workspaces[k],
{
    let c = choose|c: int| is_last_with_id(workspaces, id, c);
    assert(is_last_with_id(workspaces, id, c));
    if c < k {
        assert(workspaces[k].id != id);
    } else if k < c {
        assert(workspaces[c].id != id);
    }
}

/// The icons of the workspace `id`, from windows that are in order already.
pub fn icons_for(cfg: &Config, windows: &Vec<Window>, id: u64) -> (icons: String)
    ensures
        icons@ == icons_of(*cfg, windows@, id),
{
    proof {
        reveal_strlit(" ");
    }
    let mut icons = String::new();
    let n = windows.len();
    let mut i: usize = 0;
    assert(windows@.take(0).filter(on_workspace(id)) =~= Seq::<Window>::empty()) by {
        reveal(Seq::filter);
    }
    while i < n
        invariant
            n == windows.len(),
            i <= n,
            icons@ == icons_of(*cfg, windows@.take(i as int), id),
            " "@.len() == 1,
            " "@[0] == ' ',
        decreases n - i,
    {
        let window = &windows[i];
        proof {
            let seen = windows@.take(i as int);
            assert(windows@.take(i + 1) =~= seen.push(*window));
            seen.lemma_filter_push(*window, on_workspace(id));
            assert(seen.filter(on_workspace(id)).push(*window).drop_last() =~= seen.filter(
                on_workspace(id),
            ));
        }
        let holds = match window.workspace_id {
            Some(workspace_id) => workspace_id == id,
            None => false,
        };
        if holds {
            let raw_icon = get_raw_icon(cfg, window);
            let formatted = format_icon(cfg, raw_icon.as_str(), window.is_focused, window.is_urgent);
            let ghost earlier = icons@;
            if !icons.as_str().is_empty() {
                icons.append(" ");
                assert(icons@ =~= earlier + seq![' ']);
            }
            icons.append(formatted.as_str());
        }
        i = i + 1;
    }
    assert(windows@.take(n as int) =~= windows@);
    icons
}

/// The place of the slot whose workspace has the identifier `id`, if there
/// is one.
fn slot_of(workspaces: &Vec<Workspace>, slots: &Vec<usize>, id: u64) -> (found: Option<usize>)
    requires
        forall|j: int| 0 <= j < slots.len() ==> (#[trigger] slots[j]) < workspaces.len(),
    ensures
        match found {
            Some(j) => j < slots.len() && workspaces[slots[j as int] as int].id == id,
            None => forall|j: int|
                0 <= j < slots.len() ==> workspaces[(#[trigger] slots[j]) as int].id != id,
        },
{
    let mut j: usize = 0;
    while j < slots.len()
        invariant
            j <= slots.len(),
            forall|m: int| 0 <= m < slots.len() ==> (#[trigger] slots[m]) < workspaces.len(),
            forall|m: int| 0 <= m < j ==> workspaces[(#[trigger] slots[m]) as int].id != id,
        decreases slots.len() - j,
    {
        if workspaces[slots[j]].id == id {
            return Some(j);
        }
        j = j + 1;
    }
    None
}

/// For each identifier among the workspaces, in the order in which the
/// identifiers first occur, the index of the last workspace that carries it.
fn last_occurrences(workspaces: &Vec<Workspace>) -> (slots: Vec<usize>)
    ensures
        slots.len() == distinct_ids(workspaces@).len(),
        forall|j: int|
            0 <= j < slots.len() ==> is_last_with_id(
                workspaces@,
                distinct_ids(workspaces@)[j],
                #[trigger] slots[j] as int,
            ),
{
    let mut slots: Vec<usize> = Vec::new();
    let n = workspaces.len();
    let mut k: usize = 0;
    while k < n
        invariant
            n == workspaces.len(),
            k <= n,
            slots.len() == distinct_ids(workspaces@.take(k as int)).len(),
            forall|j: int|
                0 <= j < slots.len() ==> is_last_with_id(
                    workspaces@.take(k as int),
                    distinct_ids(workspaces@.take(k as int))[j],
                    #[trigger] slots[j] as int,
                ),
        decreases n - k,
    {
        let ghost before = workspaces@.take(k as int);
        let ghost after = workspaces@.take(k + 1);
        let ghost ids = distinct_ids(before);
        let id = workspaces[k].id;
        proof {
            assert(after.drop_last() =~= before);
            assert(after.last() == workspaces@[k as int]);
        }
        proof {
            assert forall|m: int| 0 <= m < slots.len() implies (#[trigger] slots[m]) < n
                && workspaces@[slots[m] as int].id == ids[m] by {
                assert(is_last_with_id(before, ids[m], slots[m] as int));
            }
        }
        let found = slot_of(workspaces, &slots, id);
        if let Some(j) = found {
            assert(ids[j as int] == id);
            assert(ids.contains(id));
            let ghost old_slots = slots@;
            slots.set(j, k);
            proof {
                assert forall|m: int| 0 <= m < slots.len() implies is_last_with_id(
                    after,
                    ids[m],
                    #[trigger] slots[m] as int,
                ) by {
                    if m == j {
                        assert(after[k as int].id == id);
                    } else {
                        assert(is_last_with_id(before, ids[m], old_slots[m] as int));
                        assert(is_last_with_id(before, ids[j as int], old_slots[j as int] as int));
                        lemma_distinct_ids_differ(before, m, j as int);
                        assert(after[old_slots[m] as int] == before[old_slots[m] as int]);
                        assert forall|p: int| old_slots[m] < p < after.len() implies (
                        #[trigger] after[p]).id != ids[m] by {
                            if p < k {
                                assert(before[p].id != ids[m]);
                            }
                        }
                    }
                }
            }
        } else {
            assert(!ids.contains(id)) by {
                if ids.contains(id) {
                    let m = choose|m: int| 0 <= m < ids.len() && ids[m] == id;
                    assert(workspaces@[slots[m] as int].id == ids[m]);
                }
            }
            let ghost old_slots = slots@;
            slots.push(k);
            proof {
                assert forall|m: int| 0 <= m < slots.len() implies is_last_with_id(
                    after,
                    ids.push(id)[m],
                    #[trigger] slots[m] as int,
                ) by {
                    if m < old_slots.len() {
                        assert(is_last_with_id(before, ids[m], old_slots[m] as int));
                        assert(ids.contains(ids[m]));
                        assert(after[old_slots[m] as int] == before[old_slots[m] as int]);
                        assert forall|p: int| old_slots[m] < p < after.len() implies (
                        #[trigger] after[p]).id != ids[m] by {
                            if p < k {
                                assert(before[p].id != ids[m]);
                            }
                        }
                    } else {
                        assert(after[k as int].id == id);
                    }
                }
            }
        }
        k = k + 1;
    }
    assert(workspaces@.take(n as int) =~= workspaces@);
    slots
}

/// No identifier stands twice among the distinct identifiers.
pub proof fn lemma_distinct_ids_differ(workspaces: Seq<Workspace>, i: int, j: int)
    requires
        0 <= i < distinct_ids(workspaces).len(),
        0 <= j < distinct_ids(workspaces).len(),
        i != j,
    ensures
        distinct_ids(workspaces)[i] != distinct_ids(workspaces)[j],
    decreases workspaces.len(),
{
    if workspaces.len() > 0 {
        let earlier = distinct_ids(workspaces.drop_last());
        if i < earlier.len() && j < earlier.len() {
            lemma_distinct_ids_differ(workspaces.drop_last(), i, j);
        } else if i < earlier.len() {
            assert(earlier.contains(earlier[i]));
        } else if j < earlier.len() {
            assert(earlier.contains(earlier[j]));
        }
    }
}

/// Every one of the distinct identifiers is the identifier of a workspace.
pub proof fn lemma_distinct_ids_occur(workspaces: Seq<Workspace>, i: int)
    requires
        0 <= i < distinct_ids(workspaces).len(),
    ensures
        has_id(workspaces, distinct_ids(workspaces)[i]),
    decreases workspaces.len(),
{
    if workspaces.len() > 0 {
        let front = workspaces.drop_last();
        if i < distinct_ids(front).len() {
            lemma_distinct_ids_occur(front, i);
            let k = choose|k: int|
                0 <= k < front.len() && (#[trigger] front[k]).id == distinct_ids(front)[i];
            assert(workspaces[k].id == distinct_ids(workspaces)[i]);
        } else {
            assert(workspaces[workspaces.len() - 1].id == distinct_ids(workspaces)[i]);
        }
    }
}

/// The identifier of every workspace is among the distinct identifiers.
pub proof fn lemma_distinct_ids_cover(workspaces: Seq<Workspace>, k: int)
    requires
        0 <= k < workspaces.len(),
    ensures
        distinct_ids(workspaces).contains(workspaces[k].id),
    decreases workspaces.len(),
{
    let front = workspaces.drop_last();
    let earlier = distinct_ids(front);
    if k < front.len() {
        lemma_distinct_ids_cover(front, k);
        let i = choose|i: int| 0 <= i < earlier.len() && earlier[i] == front[k].id;
        assert(distinct_ids(workspaces)[i] == workspaces[k].id);
    } else if earlier.contains(workspaces.last().id) {
    } else {
        assert(earlier.push(workspaces.last().id)[earlier.len() as int] == workspaces[k].id);
    }
}

/// A snapshot holds one record for each identifier among the workspaces and
/// no other record: the identifiers of its records differ from each other,
/// each is the identifier of a workspace, and every workspace's identifier
/// is that of a record.
pub proof fn lemma_snapshot_one_record_per_id(
    snapshot: Seq<WorkspaceInfo>,
    cfg: Config,
    workspaces: Seq<Workspace>,
    windows: Seq<Window>,
)
    requires
        is_snapshot(snapshot, cfg, workspaces, windows),
    ensures
        forall|i: int, j: int|
            0 <= i < j < snapshot.len() ==> (#[trigger] snapshot[i]).id != (
            #[trigger] snapshot[j]).id,
        forall|i: int| 0 <= i < snapshot.len() ==> has_id(workspaces, (#[trigger] snapshot[i]).id),
        forall|k: int|
            0 <= k < workspaces.len() ==> exists|i: int|
                0 <= i < snapshot.len() && (#[trigger] snapshot[i]).id == (
                #[trigger] workspaces[k]).id,
{
    let ids = distinct_ids(workspaces);
    assert forall|i: int| 0 <= i < snapshot.len() implies (#[trigger] snapshot[i]).id == ids[i]
        && has_id(workspaces, snapshot[i].id) by {
        lemma_distinct_ids_occur(workspaces, i);
        let k = choose|k: int| is_last_with_id(workspaces, ids[i], k);
        let w = choose|w: int| 0 <= w < workspaces.len() && (#[trigger] workspaces[w]).id == ids[i];
        lemma_has_id_has_last(workspaces, ids[i], w);
        assert(is_last_with_id(workspaces, ids[i], k));
    }
    assert forall|i: int, j: int| 0 <= i < j < snapshot.len() implies (#[trigger] snapshot[i]).id
        != (#[trigger] snapshot[j]).id by {
        lemma_distinct_ids_differ(workspaces, i, j);
    }
    assert forall|k: int| 0 <= k < workspaces.len() implies exists|i: int|
        0 <= i < snapshot.len() && (#[trigger] snapshot[i]).id == (#[trigger] workspaces[k]).id by {
        lemma_distinct_ids_cover(workspaces, k);
        let i = choose|i: int| 0 <= i < ids.len() && ids[i] == workspaces[k].id;
        assert(snapshot[i].id == workspaces[k].id);
    }
}

/// Where a workspace has the identifier `id`, a last one has it.
pub proof fn lemma_has_id_has_last(workspaces: Seq<Workspace>, id: u64, k: int)
    requires
        0 <= k < workspaces.len(),
        workspaces[k].id == id,
    ensures
        exists|last: int| is_last_with_id(workspaces, id, last),
        last_with_id(workspaces, id).id == id,
    decreases workspaces.len() - k,
{
    if exists|m: int| k < m < workspaces.len() && (#[trigger] workspaces[m]).id == id {
        let m = choose|m: int| k < m < workspaces.len() && (#[trigger] workspaces[m]).id == id;
        lemma_has_id_has_last(workspaces, id, m);
    } else {
        assert(is_last_with_id(workspaces, id, k));
    }
    let last = choose|last: int| is_last_with_id(workspaces, id, last);
    lemma_last_with_id_unique(workspaces, id, last);
}

/// The icons of a workspace are those of its windows in ascending order of
/// position: the windows that the workspace holds, sorted by position,
/// windows of one position in the order given.
pub proof fn lemma_icons_follow_positions(cfg: Config, windows: Seq<Window>, id: u64)
    ensures
        icons_of(cfg, sort_by_rank(windows), id) == join_icons(
            cfg,
            sort_by_rank(windows.filter(on_workspace(id))),
        ),
        ascending(sort_by_rank(windows.filter(on_workspace(id)))),
        sort_by_rank(windows.filter(on_workspace(id))).to_multiset() == windows.filter(
            on_workspace(id),
        ).to_multiset(),
{
    lemma_sort_commutes_with_filter(windows, on_workspace(id));
    lemma_sort_ascending(windows.filter(on_workspace(id)));
    lemma_sort_permutes(windows.filter(on_workspace(id)));
}

/// Each icon after the first is parted from those before it by one space,
/// as long as there are icons before it.
pub proof fn lemma_icons_parted_by_space(cfg: Config, windows: Seq<Window>, window: Window)
    ensures
        join_icons(cfg, seq![window]) == window_icon(cfg, window),
        join_icons(cfg, windows).len() > 0 ==> join_icons(cfg, windows.push(window)) == join_icons(
            cfg,
            windows,
        ) + seq![' '] + window_icon(cfg, window),
        join_icons(cfg, windows).len() == 0 ==> join_icons(cfg, windows.push(window))
            == window_icon(cfg, window),
{
    assert(join_icons(cfg, seq![window]) == window_icon(cfg, window)) by {
        reveal_with_fuel(join_icons, 2);
        assert(seq![window].drop_last() =~= Seq::<Window>::empty());
    }
    assert(windows.push(window).drop_last() =~= windows);
}

/// A window that is on no workspace, or on a workspace that the list does
/// not hold, adds nothing to any record: the snapshot with it is the
/// snapshot without it.
pub proof fn lemma_stray_window_adds_nothing(
    snapshot: Seq<WorkspaceInfo>,
    cfg: Config,
    workspaces: Seq<Workspace>,
    windows: Seq<Window>,
    k: int,
)
    requires
        0 <= k < windows.len(),
        match windows[k].workspace_id {
            Some(id) => !has_id(workspaces, id),
            None => true,
        },
    ensures
        is_snapshot(snapshot, cfg, workspaces, windows) == is_snapshot(
            snapshot,
            cfg,
            workspaces,
            windows.remove(k),
        ),
{
    let ids = distinct_ids(workspaces);
    assert forall|i: int| 0 <= i < ids.len() implies icons_of(cfg, sort_by_rank(windows), ids[i])
        == icons_of(cfg, sort_by_rank(windows.remove(k)), ids[i]) by {
        let held = on_workspace(ids[i]);
        lemma_distinct_ids_occur(workspaces, i);
        assert(!held(windows[k]));
        lemma_sort_commutes_with_filter(windows, held);
        lemma_sort_commutes_with_filter(windows.remove(k), held);
        let before = windows.take(k);
        let after = windows.skip(k + 1);
        assert(windows =~= before.push(windows[k]) + after);
        assert(windows.remove(k) =~= before + after);
        Seq::filter_distributes_over_add(before.push(windows[k]), after, held);
        Seq::filter_distributes_over_add(before, after, held);
        before.lemma_filter_push(windows[k], held);
    }
}

/// The snapshot of the given workspaces and windows. A window that is on no
/// workspace, or on one that the list does not hold, adds nothing.
pub fn aggregate(cfg: &Config, workspaces: &Vec<Workspace>, windows: Vec<Window>) -> (snapshot:
    Vec<WorkspaceInfo>)
    ensures
        is_snapshot(snapshot@, *cfg, workspaces@, windows@),
{
    let ghost given = windows@;
    let mut windows = windows;
    sort_stable(&mut windows);
    let slots = last_occurrences(workspaces);
    let mut snapshot: Vec<WorkspaceInfo> = Vec::with_capacity(slots.len());
    let mut i: usize = 0;
    while i < slots.len()
        invariant
            i <= slots.len(),
            windows@ == sort_by_rank(given),
            slots.len() == distinct_ids(workspaces@).len(),
            forall|j: int|
                0 <= j < slots.len() ==> is_last_with_id(
                    workspaces@,
                    distinct_ids(workspaces@)[j],
                    #[trigger] slots[j] as int,
                ),
            snapshot.len() == i,
            forall|j: int|
                0 <= j < i ==> shows(
                    #[trigger] snapshot[j],
                    last_with_id(workspaces@, distinct_ids(workspaces@)[j]),
                    icons_of(*cfg, sort_by_rank(given), distinct_ids(workspaces@)[j]),
                ),
        decreases slots.len() - i,
    {
        assert(is_last_with_id(workspaces@, distinct_ids(workspaces@)[i as int], slots[i as int] as int));
        let workspace = &workspaces[slots[i]];
        proof {
            lemma_last_with_id_unique(
                workspaces@,
                distinct_ids(workspaces@)[i as int],
                slots[i as int] as int,
            );
        }
        let name = match &workspace.name {
            Some(text) => text.clone(),
            None => String::new(),
        };
        let info = WorkspaceInfo {
            id: workspace.id,
            name,
            icons: icons_for(cfg, &windows, workspace.id),
            idx: workspace.idx,
            is_focused: workspace.is_focused,
            is_urgent: workspace.is_urgent,
            is_active: workspace.is_active,
        };
        snapshot.push(info);
        i = i + 1;
    }
    snapshot
}

/// The records in the order in which they are shown: by display index,
/// ascending, records of equal index in the order given.
pub fn sort_by_index(snapshot: Vec<WorkspaceInfo>) -> (shown: Vec<WorkspaceInfo>)
    ensures
        shown@ == sort_by_rank(snapshot@),
{
    let mut shown = snapshot;
    sort_stable(&mut shown);
    shown
}

} // verus!
