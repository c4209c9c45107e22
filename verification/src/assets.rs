use vstd::prelude::*;
use crate::paths::lemma_vec_deep_view;
use crate::scan::{needs_rebuild, spec_stale};

verus! {

/// What the asset mirror does with one walked entry of the theme's static
/// tree.
#[derive(Clone, Copy, Debug, PartialEq, Eq, Structural)]
pub enum AssetAction {
    /// The entry is a directory and its mirror is missing: create it.
    EnsureDir,
    /// The entry is a file and its mirror is stale: copy the bytes verbatim.
    Copy,
    /// The mirror is already in place and fresh enough.
    Skip,
}

/// The destination of a theme asset: the same relative path, under the
/// reserved `static` directory of the output root.
pub open spec fn spec_asset_dest(rel: Seq<Seq<char>>, output_root: Seq<Seq<char>>) -> Seq<
    Seq<char>,
> {
    output_root + seq!["static"@] + rel
}

/// Where a theme asset at `rel` (relative to the theme's static root) lands
/// in the output tree.
pub fn asset_dest(rel: &Vec<String>, output_root: &Vec<String>) -> (r: Vec<String>)
    ensures
        r.deep_view() == spec_asset_dest(rel.deep_view(), output_root.deep_view()),
{
    let mut r: Vec<String> = Vec::new();
    let mut i: usize = 0;
    while i < output_root.len()
        invariant
            i <= output_root.len(),
            r@ =~= output_root@.take(i as int),
        decreases output_root.len() - i,
    {
        r.push(output_root[i].clone());
        i = i + 1;
        assert(r@ =~= output_root@.take(i as int));
    }
    r.push(String::from_str("static"));
    let ghost mid = r@;
    let mut j: usize = 0;
    while j < rel.len()
        invariant
            j <= rel.len(),
            r@ =~= mid + rel@.take(j as int),
            mid.len() == output_root@.len() + 1,
        decreases rel.len() - j,
    {
        r.push(rel[j].clone());
        j = j + 1;
        assert(r@ =~= mid + rel@.take(j as int));
    }
    proof {
        lemma_vec_deep_view(&r);
        lemma_vec_deep_view(rel);
        lemma_vec_deep_view(output_root);
        assert(r.deep_view() =~= spec_asset_dest(rel.deep_view(), output_root.deep_view()));
    }
    r
}

/// The mirroring decision for one walked entry: a directory is created when
/// its mirror is missing; a file is copied under the same staleness rule as
/// image sources; everything else is left alone.
pub open spec fn spec_plan_asset(is_dir: bool, src_mtime: u64, dest_mtime: Option<u64>) -> AssetAction {
    if is_dir {
        if dest_mtime is None {
            AssetAction::EnsureDir
        } else {
            AssetAction::Skip
        }
    } else {
        if spec_stale(src_mtime, dest_mtime) {
            AssetAction::Copy
        } else {
            AssetAction::Skip
        }
    }
}

/// Decides what to do with one theme entry. `dest_mtime` is the mirror's
/// modification time, absent when the mirror does not exist.
pub fn plan_asset(is_dir: bool, src_mtime: u64, dest_mtime: Option<u64>) -> (r: AssetAction)
    ensures
        r == spec_plan_asset(is_dir, src_mtime, dest_mtime),
{
    if is_dir {
        match dest_mtime {
            None => AssetAction::EnsureDir,
            Some(_) => AssetAction::Skip,
        }
    } else {
        if needs_rebuild(src_mtime, dest_mtime) {
            AssetAction::Copy
        } else {
            AssetAction::Skip
        }
    }
}

/// Idempotence of the asset mirror: an entry whose mirror exists and is at
/// least as new as its source is skipped, whether directory or file, so the
/// second of two mirror passes with no change between them copies nothing.
pub proof fn lemma_fresh_asset_skipped(is_dir: bool, src_mtime: u64, dest_mtime: Option<u64>)
    requires
        dest_mtime is Some,
        src_mtime <= dest_mtime->0,
    ensures
        spec_plan_asset(is_dir, src_mtime, dest_mtime) == AssetAction::Skip,
{
}

} // verus!
