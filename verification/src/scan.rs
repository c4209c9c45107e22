use vstd::prelude::*;
use crate::errors::PathError;
use crate::paths::{
    lemma_vec_deep_view, mirror_path, spec_mirror_path, spec_wanted_file, wanted_file,
};

verus! {

/// One regular file found while walking the input tree, with the two
/// modification times that decide staleness: the source's own, and the
/// mirrored destination's, absent when that destination does not exist yet.
/// The caller walks the tree, asks [`mirror_path`] where the destination is,
/// probes it, and fills this in.
pub struct ScanEntry {
    pub path: Vec<String>,
    pub src_mtime: u64,
    pub dest_mtime: Option<u64>,
}

/// The mathematical value of a [`ScanEntry`].
pub struct ScanEntryView {
    pub path: Seq<Seq<char>>,
    pub src_mtime: u64,
    pub dest_mtime: Option<u64>,
}

impl View for ScanEntry {
    type V = ScanEntryView;

    open spec fn view(&self) -> ScanEntryView {
        ScanEntryView {
            path: self.path.deep_view(),
            src_mtime: self.src_mtime,
            dest_mtime: self.dest_mtime,
        }
    }
}

impl DeepView for ScanEntry {
    type V = ScanEntryView;

    open spec fn deep_view(&self) -> ScanEntryView {
        self.view()
    }
}

/// One unit of transcode work: a source file and its mirrored destination.
/// Created by the scan, consumed once by the transcode stage.
pub struct ConversionTask {
    pub source: Vec<String>,
    pub dest: Vec<String>,
}

/// The mathematical value of a [`ConversionTask`].
pub struct TaskView {
    pub source: Seq<Seq<char>>,
    pub dest: Seq<Seq<char>>,
}

impl View for ConversionTask {
    type V = TaskView;

    open spec fn view(&self) -> TaskView {
        TaskView { source: self.source.deep_view(), dest: self.dest.deep_view() }
    }
}

impl DeepView for ConversionTask {
    type V = TaskView;

    open spec fn deep_view(&self) -> TaskView {
        self.view()
    }
}

// ---------------------------------------------------------------------------
// The staleness rule
// ---------------------------------------------------------------------------

/// The one staleness rule of the whole build, shared by image transcoding and
/// asset mirroring: a destination is regenerated iff it does not exist, or it
/// is strictly older than its source.
pub open spec fn spec_stale(src_mtime: u64, dest_mtime: Option<u64>) -> bool {
    match dest_mtime {
        None => true,
        Some(d) => d < src_mtime,
    }
}

/// Decides staleness: true iff the destination is missing or strictly older
/// than the source.
pub fn needs_rebuild(src_mtime: u64, dest_mtime: Option<u64>) -> (r: bool)
    ensures
        r == spec_stale(src_mtime, dest_mtime),
{
    match dest_mtime {
        None => true,
        Some(d) => d < src_mtime,
    }
}

// ---------------------------------------------------------------------------
// Planning conversions
// ---------------------------------------------------------------------------

/// The task that converting one scanned entry means: the entry's own path,
/// and its mirrored destination.
pub open spec fn spec_task_of(e: ScanEntryView, output_root: Seq<Seq<char>>) -> TaskView {
    TaskView { source: e.path, dest: spec_mirror_path(e.path, output_root) }
}

/// What the scan decides for one entry: a file whose name passes the
/// extension filter, whose path has a component to strip, and whose mirrored
/// destination is stale becomes a task; every other entry produces none.
pub open spec fn spec_plan_entry(
    e: ScanEntryView,
    output_root: Seq<Seq<char>>,
    exts: Seq<Seq<char>>,
) -> Option<TaskView> {
    if e.path.len() == 0 {
        None
    } else if !spec_wanted_file(e.path.last(), exts) {
        None
    } else if !spec_stale(e.src_mtime, e.dest_mtime) {
        None
    } else {
        Some(spec_task_of(e, output_root))
    }
}

/// Plans one scanned entry. An unmirrorable path (no leading component) is a
/// per-entry failure: the entry is skipped, never the whole scan.
pub fn plan_entry(
    entry: &ScanEntry,
    output_root: &Vec<String>,
    extensions: &Vec<String>,
) -> (r: Option<ConversionTask>)
    ensures
        match r {
            Some(t) => spec_plan_entry(entry@, output_root.deep_view(), extensions.deep_view())
                == Some(t@),
            None => spec_plan_entry(entry@, output_root.deep_view(), extensions.deep_view())
                is None,
        },
{
    if entry.path.len() == 0 {
        return None;
    }
    proof {
        lemma_vec_deep_view(&entry.path);
    }
    let name = &entry.path[entry.path.len() - 1];
    if !wanted_file(name, extensions) {
        return None;
    }
    if !needs_rebuild(entry.src_mtime, entry.dest_mtime) {
        return None;
    }
    let dest = match mirror_path(&entry.path, output_root) {
        Ok(d) => d,
        Err(PathError) => {
            return None;
        },
    };
    Some(ConversionTask { source: entry.path.clone(), dest })
}

/// The work a whole scan plans: the tasks of its entries, in scan order,
/// entries that plan nothing left out.
pub open spec fn spec_planned(
    entries: Seq<ScanEntryView>,
    output_root: Seq<Seq<char>>,
    exts: Seq<Seq<char>>,
) -> Seq<TaskView>
    decreases entries.len(),
{
    if entries.len() == 0 {
        Seq::empty()
    } else {
        let rest = spec_planned(entries.drop_last(), output_root, exts);
        match spec_plan_entry(entries.last(), output_root, exts) {
            Some(t) => rest.push(t),
            None => rest,
        }
    }
}

/// Plans a whole scan: the conversion tasks of all stale, accepted entries,
/// in scan order.
pub fn plan_conversions(
    entries: &Vec<ScanEntry>,
    output_root: &Vec<String>,
    extensions: &Vec<String>,
) -> (r: Vec<ConversionTask>)
    ensures
        r.deep_view() == spec_planned(
            entries.deep_view(),
            output_root.deep_view(),
            extensions.deep_view(),
        ),
{
    let ghost out_v = output_root.deep_view();
    let ghost exts_v = extensions.deep_view();
    let mut r: Vec<ConversionTask> = Vec::new();
    let mut i: usize = 0;
    while i < entries.len()
        invariant
            i <= entries.len(),
            out_v == output_root.deep_view(),
            exts_v == extensions.deep_view(),
            r.deep_view() =~= spec_planned(entries.deep_view().take(i as int), out_v, exts_v),
        decreases entries.len() - i,
    {
        proof {
            lemma_vec_deep_view(entries);
            lemma_vec_deep_view(&r);
        }
        match plan_entry(&entries[i], output_root, extensions) {
            Some(t) => {
                r.push(t);
            },
            None => {},
        }
        i = i + 1;
        proof {
            lemma_vec_deep_view(&r);
            let dv = entries.deep_view();
            assert(dv.take(i as int).drop_last() =~= dv.take(i - 1));
            assert(dv.take(i as int).last() == dv[i - 1]);
            assert(r.deep_view() =~= spec_planned(dv.take(i as int), out_v, exts_v));
        }
    }
    proof {
        assert(entries.deep_view().take(entries.len() as int) =~= entries.deep_view());
    }
    r
}

// ---------------------------------------------------------------------------
// What the staleness rule guarantees across builds
// ---------------------------------------------------------------------------

/// An entry whose destination exists and is at least as new as its source:
/// what every entry looks like right after a completed build.
pub open spec fn spec_up_to_date(e: ScanEntryView) -> bool {
    e.dest_mtime is Some && e.src_mtime <= e.dest_mtime->0
}

/// Idempotence of the build: a scan over a tree whose destinations all exist
/// and are at least as new as their sources plans no conversion at all, so
/// the second of two builds with no change between them transcodes nothing.
pub proof fn lemma_fresh_tree_plans_nothing(
    entries: Seq<ScanEntryView>,
    output_root: Seq<Seq<char>>,
    exts: Seq<Seq<char>>,
)
    requires
        forall|i: int| 0 <= i < entries.len() ==> spec_up_to_date(#[trigger] entries[i]),
    ensures
        spec_planned(entries, output_root, exts) =~= Seq::<TaskView>::empty(),
    decreases entries.len(),
{
    if entries.len() > 0 {
        lemma_fresh_tree_plans_nothing(entries.drop_last(), output_root, exts);
    }
}

/// Staleness re-trigger: if, after a completed build, exactly one source file
/// is touched (its modification time advanced past its destination's), the
/// next scan plans exactly that file's conversion and nothing else.
pub proof fn lemma_touch_replans_only_touched(
    entries: Seq<ScanEntryView>,
    j: int,
    output_root: Seq<Seq<char>>,
    exts: Seq<Seq<char>>,
)
    requires
        0 <= j < entries.len(),
        forall|i: int|
            0 <= i < entries.len() && i != j ==> spec_up_to_date(#[trigger] entries[i]),
        !spec_up_to_date(entries[j]),
        entries[j].path.len() > 0,
        spec_wanted_file(entries[j].path.last(), exts),
    ensures
        spec_planned(entries, output_root, exts) =~= seq![spec_task_of(entries[j], output_root)],
    decreases entries.len(),
{
    if j == entries.len() - 1 {
        lemma_fresh_tree_plans_nothing(entries.drop_last(), output_root, exts);
    } else {
        lemma_touch_replans_only_touched(entries.drop_last(), j, output_root, exts);
    }
}

} // verus!
