//! Which files differ, how, and how many.

use vstd::prelude::*;
use crate::config::{MergedConfig, texts};
use crate::error::{AppError, ErrorView};
use crate::glob::{
    builder_add, builder_build, builder_patterns, glob_new, glob_set_build_failure, glob_set_builder,
    glob_set_builds, glob_syntax_ok, globs_match, set_is_match, set_patterns,
};
use crate::git::{TreeEntry, TreeListing, lemma_entries_view_at, opt_view};
use crate::text::{chars_of, has_prefix, starts_with};
use crate::types::{
    DiffFile, FileStatus, Statistics, ThreeWayDiffFile, ThreeWayStatistics, ThreeWayStatus,
    fresh_diff_file, fresh_three_way_file, is_conflict_status, permission_only, statistics_total,
    three_way_conflicts, three_way_total,
};

verus! {

/// Finds the differences between revisions, leaving out excluded paths.
#[derive(Debug, Clone)]
pub struct DiffDetector {
    /// Glob patterns of paths left out.
    pub exclude: Vec<String>,
    /// Whether unchanged files are listed too.
    pub show_unchanged: bool,
}

/// The first position from `i` on of a pattern that `Glob::new` rejects.
pub open spec fn first_invalid_from(patterns: Seq<Seq<char>>, i: int) -> Option<int>
    decreases patterns.len() - i,
{
    if i < 0 || i >= patterns.len() {
        None
    } else if !glob_syntax_ok(patterns[i]) {
        Some(i)
    } else {
        first_invalid_from(patterns, i + 1)
    }
}

/// Why a list of exclusion patterns cannot be used: the first invalid
/// pattern, or the message of a set that does not build.
pub open spec fn exclusion_failure(patterns: Seq<Seq<char>>) -> Option<Seq<char>> {
    match first_invalid_from(patterns, 0) {
        Some(i) => Some(patterns[i]),
        None => if glob_set_builds(patterns) {
            None
        } else {
            Some(glob_set_build_failure(patterns))
        },
    }
}

/// A path is excluded: there are patterns and one of them matches.
pub open spec fn is_excluded_path(patterns: Seq<Seq<char>>, path: Seq<char>) -> bool {
    patterns.len() > 0 && globs_match(patterns, path)
}

/// The files whose paths no pattern matches, in order.
pub open spec fn files_not_excluded(files: Seq<DiffFile>, patterns: Seq<Seq<char>>) -> Seq<DiffFile>
    decreases files.len(),
{
    if files.len() == 0 {
        Seq::empty()
    } else {
        let prev = files_not_excluded(files.drop_last(), patterns);
        if is_excluded_path(patterns, files.last().path@) {
            prev
        } else {
            prev.push(files.last())
        }
    }
}

/// Builds the set of exclusion patterns.
fn build_exclusions(patterns: &Vec<String>) -> (r: Result<globset::GlobSet, AppError>)
    ensures
        match exclusion_failure(texts(patterns@)) {
            Some(m) => r matches Err(e) && e@ == ErrorView::InvalidGlobPattern(m),
            None => r matches Ok(s) && set_patterns(s) == texts(patterns@),
        },
{
    let ghost ps = texts(patterns@);
    let mut b = glob_set_builder();
    let mut i: usize = 0;
    while i < patterns.len()
        invariant
            i <= patterns@.len(),
            ps == texts(patterns@),
            builder_patterns(b) == ps.take(i as int),
            first_invalid_from(ps, 0) == first_invalid_from(ps, i as int),
        decreases patterns@.len() - i,
    {
        match glob_new(patterns[i].as_str()) {
            Some(g) => {
                builder_add(&mut b, g);
                assert(ps.take(i + 1) =~= ps.take(i as int).push(ps[i as int]));
            },
            None => {
                return Err(AppError::InvalidGlobPattern(patterns[i].clone()));
            },
        }
        i += 1;
    }
    assert(ps.take(patterns@.len() as int) =~= ps);
    match builder_build(&b) {
        Ok(s) => Ok(s),
        Err(m) => Err(AppError::InvalidGlobPattern(m)),
    }
}

/// Counts of a list of files by status and by mark.
pub open spec fn count_status(files: Seq<DiffFile>, st: FileStatus) -> nat
    decreases files.len(),
{
    if files.len() == 0 {
        0
    } else {
        count_status(files.drop_last(), st) + if files.last().status == st { 1nat } else { 0nat }
    }
}

/// Number of files marked as symbolic links.
pub open spec fn count_symlinks(files: Seq<DiffFile>) -> nat
    decreases files.len(),
{
    if files.len() == 0 {
        0
    } else {
        count_symlinks(files.drop_last()) + if files.last().is_symlink { 1nat } else { 0nat }
    }
}

/// Number of files marked as submodules.
pub open spec fn count_submodules(files: Seq<DiffFile>) -> nat
    decreases files.len(),
{
    if files.len() == 0 {
        0
    } else {
        count_submodules(files.drop_last()) + if files.last().is_submodule { 1nat } else { 0nat }
    }
}

/// Number of files whose mode alone changed.
pub open spec fn count_permission_only(files: Seq<DiffFile>) -> nat
    decreases files.len(),
{
    if files.len() == 0 {
        0
    } else {
        count_permission_only(files.drop_last()) + if permission_only(files.last()) { 1nat } else { 0nat }
    }
}

/// Number of files that carry an error.
pub open spec fn count_errors(files: Seq<DiffFile>) -> nat
    decreases files.len(),
{
    if files.len() == 0 {
        0
    } else {
        count_errors(files.drop_last()) + if files.last().error is Some { 1nat } else { 0nat }
    }
}

/// The statistics of a list of files: one count per status, plus marks.
pub open spec fn statistics_of(files: Seq<DiffFile>, s: Statistics) -> bool {
    &&& s.added == count_status(files, FileStatus::Added)
    &&& s.modified == count_status(files, FileStatus::Modified)
    &&& s.deleted == count_status(files, FileStatus::Deleted)
    &&& s.renamed == count_status(files, FileStatus::Renamed)
    &&& s.copied == count_status(files, FileStatus::Copied)
    &&& s.type_changed == count_status(files, FileStatus::TypeChanged)
    &&& s.unchanged == count_status(files, FileStatus::Unchanged)
    &&& s.symlinks == count_symlinks(files)
    &&& s.submodules == count_submodules(files)
    &&& s.permission_changes == count_permission_only(files)
    &&& s.errors == count_errors(files)
    &&& s.copy_failed == 0
}

/// Each file has exactly one status, so the status counts add up to the
/// number of files.
pub proof fn law_statistics_total(files: Seq<DiffFile>)
    ensures
        count_status(files, FileStatus::Added) + count_status(files, FileStatus::Modified)
            + count_status(files, FileStatus::Deleted) + count_status(files, FileStatus::Renamed)
            + count_status(files, FileStatus::Copied) + count_status(files, FileStatus::TypeChanged)
            + count_status(files, FileStatus::Unchanged) == files.len(),
    decreases files.len(),
{
    if files.len() > 0 {
        law_statistics_total(files.drop_last());
    }
}

/// A count never exceeds the number of files.
proof fn lemma_counts_bounded(files: Seq<DiffFile>, st: FileStatus)
    ensures
        count_status(files, st) <= files.len(),
        count_symlinks(files) <= files.len(),
        count_submodules(files) <= files.len(),
        count_permission_only(files) <= files.len(),
        count_errors(files) <= files.len(),
    decreases files.len(),
{
    if files.len() > 0 {
        lemma_counts_bounded(files.drop_last(), st);
    }
}

/// Number of three-way records with the given status.
pub open spec fn count_three_way(files: Seq<ThreeWayDiffFile>, st: ThreeWayStatus) -> nat
    decreases files.len(),
{
    if files.len() == 0 {
        0
    } else {
        count_three_way(files.drop_last(), st) + if files.last().status == st { 1nat } else { 0nat }
    }
}

/// Number of three-way records whose status is a conflict.
pub open spec fn count_conflicting(files: Seq<ThreeWayDiffFile>) -> nat
    decreases files.len(),
{
    if files.len() == 0 {
        0
    } else {
        count_conflicting(files.drop_last()) + if is_conflict_status(files.last().status) {
            1nat
        } else {
            0nat
        }
    }
}

/// The three-way statistics of a list of records: one count per status.
pub open spec fn three_way_statistics_of(files: Seq<ThreeWayDiffFile>, s: ThreeWayStatistics) -> bool {
    &&& s.unchanged == count_three_way(files, ThreeWayStatus::Unchanged)
    &&& s.ours_only == count_three_way(files, ThreeWayStatus::OursOnly)
    &&& s.theirs_only == count_three_way(files, ThreeWayStatus::TheirsOnly)
    &&& s.both_same == count_three_way(files, ThreeWayStatus::BothSame)
    &&& s.conflict == count_three_way(files, ThreeWayStatus::Conflict)
    &&& s.added_ours == count_three_way(files, ThreeWayStatus::AddedOurs)
    &&& s.added_theirs == count_three_way(files, ThreeWayStatus::AddedTheirs)
    &&& s.added_both_same == count_three_way(files, ThreeWayStatus::AddedBothSame)
    &&& s.added_both_diff == count_three_way(files, ThreeWayStatus::AddedBothDiff)
    &&& s.deleted_ours == count_three_way(files, ThreeWayStatus::DeletedOurs)
    &&& s.deleted_theirs == count_three_way(files, ThreeWayStatus::DeletedTheirs)
    &&& s.deleted_both == count_three_way(files, ThreeWayStatus::DeletedBoth)
    &&& s.modify_delete == count_three_way(files, ThreeWayStatus::ModifyDelete)
    &&& s.delete_modify == count_three_way(files, ThreeWayStatus::DeleteModify)
}

/// Each record has exactly one of the fourteen statuses, so the counts add
/// up to the number of records, and the four conflict counts add up to the
/// number of conflicting records.
pub proof fn law_three_way_statistics_total(files: Seq<ThreeWayDiffFile>)
    ensures
        count_three_way(files, ThreeWayStatus::Unchanged) + count_three_way(files, ThreeWayStatus::OursOnly)
            + count_three_way(files, ThreeWayStatus::TheirsOnly) + count_three_way(files, ThreeWayStatus::BothSame)
            + count_three_way(files, ThreeWayStatus::Conflict) + count_three_way(files, ThreeWayStatus::AddedOurs)
            + count_three_way(files, ThreeWayStatus::AddedTheirs)
            + count_three_way(files, ThreeWayStatus::AddedBothSame)
            + count_three_way(files, ThreeWayStatus::AddedBothDiff)
            + count_three_way(files, ThreeWayStatus::DeletedOurs)
            + count_three_way(files, ThreeWayStatus::DeletedTheirs)
            + count_three_way(files, ThreeWayStatus::DeletedBoth)
            + count_three_way(files, ThreeWayStatus::ModifyDelete)
            + count_three_way(files, ThreeWayStatus::DeleteModify) == files.len(),
        count_three_way(files, ThreeWayStatus::Conflict) + count_three_way(files, ThreeWayStatus::AddedBothDiff)
            + count_three_way(files, ThreeWayStatus::ModifyDelete)
            + count_three_way(files, ThreeWayStatus::DeleteModify) == count_conflicting(files),
    decreases files.len(),
{
    if files.len() > 0 {
        law_three_way_statistics_total(files.drop_last());
    }
}

/// A three-way count never exceeds the number of records.
proof fn lemma_three_way_count_bounded(files: Seq<ThreeWayDiffFile>, st: ThreeWayStatus)
    ensures
        count_three_way(files, st) <= files.len(),
    decreases files.len(),
{
    if files.len() > 0 {
        lemma_three_way_count_bounded(files.drop_last(), st);
    }
}

/// The paths of a list of changed files.
pub open spec fn changed_paths(changed: Seq<DiffFile>) -> Set<Seq<char>> {
    Set::new(|p: Seq<char>| exists|i: int| 0 <= i < changed.len() && #[trigger] changed[i].path@ == p)
}

/// Mode of a listed path.
pub open spec fn listed_mode(m: Map<Seq<char>, (Seq<char>, Seq<char>)>, p: Seq<char>) -> Option<Seq<char>> {
    if m.contains_key(p) {
        Some(m[p].0)
    } else {
        None
    }
}

/// Blob id of a listed path.
pub open spec fn listed_blob(m: Map<Seq<char>, (Seq<char>, Seq<char>)>, p: Seq<char>) -> Option<Seq<char>> {
    if m.contains_key(p) {
        Some(m[p].1)
    } else {
        None
    }
}

/// A mode of a symbolic link.
pub open spec fn symlink_mode(m: Seq<char>) -> bool {
    has_prefix(m, "120"@)
}

/// A mode of a submodule.
pub open spec fn submodule_mode(m: Seq<char>) -> bool {
    has_prefix(m, "160"@)
}

/// A source entry that is reported as unchanged: not among the changed
/// files, present in the target with the same blob id, and neither a
/// symbolic link nor a submodule on the source side.
pub open spec fn stays_unchanged(
    e: TreeEntry,
    target: Map<Seq<char>, (Seq<char>, Seq<char>)>,
    changed: Seq<DiffFile>,
) -> bool {
    &&& !changed_paths(changed).contains(e.path@)
    &&& target.contains_key(e.path@)
    &&& target[e.path@].1 == e.blob@
    &&& !symlink_mode(e.mode@)
    &&& !submodule_mode(e.mode@)
}

/// The source entries reported as unchanged, in listing order.
pub open spec fn unchanged_entries(
    entries: Seq<TreeEntry>,
    target: Map<Seq<char>, (Seq<char>, Seq<char>)>,
    changed: Seq<DiffFile>,
) -> Seq<TreeEntry>
    decreases entries.len(),
{
    if entries.len() == 0 {
        Seq::empty()
    } else {
        let prev = unchanged_entries(entries.drop_last(), target, changed);
        if stays_unchanged(entries.last(), target, changed) {
            prev.push(entries.last())
        } else {
            prev
        }
    }
}

/// The record of an unchanged file: its path, both modes and both blob ids.
pub open spec fn unchanged_record(f: DiffFile, e: TreeEntry, target: Map<Seq<char>, (Seq<char>, Seq<char>)>) -> bool {
    &&& f.path@ == e.path@
    &&& f.status == FileStatus::Unchanged
    &&& opt_view(f.source_mode) == Some(e.mode@)
    &&& opt_view(f.target_mode) == Some(target[e.path@].0)
    &&& opt_view(f.source_blob) == Some(e.blob@)
    &&& opt_view(f.target_blob) == Some(target[e.path@].1)
    &&& f.original_path is None
    &&& f.similarity is None
    &&& !f.is_symlink
    &&& f.symlink_target is None
    &&& !f.is_submodule
    &&& f.source_content is None
    &&& f.target_content is None
    &&& f.error is None
}

/// A file record after its modes were looked up: `sm` and `tm` are the
/// modes of its path in the source and the target, `om` that of its
/// original path in the source (`None` where a lookup found nothing).
/// A found mode replaces the one known, the original path's taking
/// precedence on the source side; the link and submodule marks follow the
/// source mode where one was found, and are set by the target mode.
pub open spec fn modes_applied(
    before: DiffFile,
    after: DiffFile,
    sm: Option<Seq<char>>,
    tm: Option<Seq<char>>,
    om: Option<Seq<char>>,
) -> bool {
    &&& after.path == before.path
    &&& after.original_path == before.original_path
    &&& after.status == before.status
    &&& after.similarity == before.similarity
    &&& after.symlink_target == before.symlink_target
    &&& after.source_blob == before.source_blob
    &&& after.target_blob == before.target_blob
    &&& after.source_content == before.source_content
    &&& after.target_content == before.target_content
    &&& after.error == before.error
    &&& opt_view(after.source_mode) == (if before.original_path is Some && om is Some {
        om
    } else if sm is Some {
        sm
    } else {
        opt_view(before.source_mode)
    })
    &&& opt_view(after.target_mode) == (if tm is Some { tm } else { opt_view(before.target_mode) })
    &&& after.is_symlink == ((match sm {
        Some(m) => symlink_mode(m),
        None => before.is_symlink,
    }) || (tm matches Some(m) && symlink_mode(m)))
    &&& after.is_submodule == ((match sm {
        Some(m) => submodule_mode(m),
        None => before.is_submodule,
    }) || (tm matches Some(m) && submodule_mode(m)))
}

/// The modes of a file looked up in the source and target listings.
pub open spec fn fetched_from(
    before: DiffFile,
    after: DiffFile,
    source: Map<Seq<char>, (Seq<char>, Seq<char>)>,
    target: Map<Seq<char>, (Seq<char>, Seq<char>)>,
) -> bool {
    modes_applied(
        before,
        after,
        listed_mode(source, before.path@),
        listed_mode(target, before.path@),
        match before.original_path {
            Some(op) => listed_mode(source, op@),
            None => None,
        },
    )
}

/// An unchanged file after its modes were looked up.
pub open spec fn fetched_unchanged(
    f: DiffFile,
    e: TreeEntry,
    target: Map<Seq<char>, (Seq<char>, Seq<char>)>,
) -> bool {
    &&& f.path@ == e.path@
    &&& f.status == FileStatus::Unchanged
    &&& opt_view(f.source_mode) == Some(e.mode@)
    &&& opt_view(f.target_mode) == Some(target[e.path@].0)
    &&& opt_view(f.source_blob) == Some(e.blob@)
    &&& opt_view(f.target_blob) == Some(target[e.path@].1)
    &&& f.original_path is None
    &&& f.similarity is None
    &&& f.is_symlink == symlink_mode(target[e.path@].0)
    &&& f.symlink_target is None
    &&& f.is_submodule == submodule_mode(target[e.path@].0)
    &&& f.source_content is None
    &&& f.target_content is None
    &&& f.error is None
}

/// Whether a path is among the changed files.
fn is_changed_path(changed: &[DiffFile], path: &str) -> (r: bool)
    ensures
        r == changed_paths(changed@).contains(path@),
{
    let p = path.to_owned();
    let mut i: usize = 0;
    while i < changed.len()
        invariant
            i <= changed@.len(),
            p@ == path@,
            forall|j: int| 0 <= j < i ==> changed@[j].path@ != path@,
        decreases changed@.len() - i,
    {
        if changed[i].path.eq(&p) {
            assert(changed@[i as int].path@ == path@);
            return true;
        }
        i += 1;
    }
    false
}

/// Whether a mode starts with the given digits.
fn mode_starts(mode: &String, digits: &str) -> (r: bool)
    ensures
        r == has_prefix(mode@, digits@),
{
    let cs = chars_of(mode.as_str());
    starts_with(&cs, digits)
}

/// Every unchanged entry comes from the listing.
proof fn lemma_unchanged_entry_listed(
    entries: Seq<TreeEntry>,
    target: Map<Seq<char>, (Seq<char>, Seq<char>)>,
    changed: Seq<DiffFile>,
    j: int,
)
    requires
        0 <= j < unchanged_entries(entries, target, changed).len(),
    ensures
        exists|k: int| 0 <= k < entries.len() && entries[k] == unchanged_entries(entries, target, changed)[j],
        stays_unchanged(unchanged_entries(entries, target, changed)[j], target, changed),
    decreases entries.len(),
{
    let prev = unchanged_entries(entries.drop_last(), target, changed);
    if j < prev.len() {
        lemma_unchanged_entry_listed(entries.drop_last(), target, changed, j);
        let k = choose|k: int| 0 <= k < entries.drop_last().len() && entries.drop_last()[k] == prev[j];
        assert(entries[k] == prev[j]);
    } else {
        assert(entries[entries.len() - 1] == entries.last());
    }
}

/// The files of a two-way comparison: the changed files that were kept,
/// then (when unchanged files are listed) the unchanged source entries,
/// each with its modes looked up.
pub open spec fn two_way_files(
    out: Seq<DiffFile>,
    kept: Seq<DiffFile>,
    source: &TreeListing,
    target: &TreeListing,
    show_unchanged: bool,
) -> bool {
    let ue = if show_unchanged {
        unchanged_entries(source.entries@, target@, kept)
    } else {
        Seq::empty()
    };
    &&& out.len() == kept.len() + ue.len()
    &&& forall|i: int| 0 <= i < kept.len() ==> fetched_from(kept[i], #[trigger] out[i], source@, target@)
    &&& forall|j: int| 0 <= j < ue.len() ==> fetched_unchanged(#[trigger] out[kept.len() + j], ue[j], target@)
}

/// The changes that the exclusion patterns keep (all of them when there is
/// no pattern).
pub open spec fn kept_changes(changes: Seq<DiffFile>, patterns: Seq<Seq<char>>) -> Seq<DiffFile> {
    if patterns.len() == 0 {
        changes
    } else {
        files_not_excluded(changes, patterns)
    }
}

/// A two-way result: the listed files, and statistics that count every
/// file, the unchanged ones included whether or not they are listed.
pub open spec fn two_way_outcome(
    files: Seq<DiffFile>,
    stats: Statistics,
    kept: Seq<DiffFile>,
    source: &TreeListing,
    target: &TreeListing,
    show_unchanged: bool,
) -> bool {
    &&& two_way_files(files, kept, source, target, show_unchanged)
    &&& statistics_total(stats) <= usize::MAX
    &&& exists|all: Seq<DiffFile>|
        #[trigger] two_way_files(all, kept, source, target, true) && statistics_of(all, stats)
            && statistics_total(stats) == all.len()
}

/// The paths of the entries that are not in `seen`, in listing order.
pub open spec fn fresh_paths(entries: Seq<TreeEntry>, seen: Set<Seq<char>>) -> Seq<Seq<char>>
    decreases entries.len(),
{
    if entries.len() == 0 {
        Seq::empty()
    } else {
        let prev = fresh_paths(entries.drop_last(), seen);
        if seen.contains(entries.last().path@) {
            prev
        } else {
            prev.push(entries.last().path@)
        }
    }
}

/// The paths of an optional listing.
pub open spec fn listed_paths(l: Option<&TreeListing>) -> Set<Seq<char>> {
    match l {
        Some(x) => x@.dom(),
        None => Set::empty(),
    }
}

/// Every path of the three listings once: those of base, then those of
/// ours not in base, then those of theirs in neither.
pub open spec fn all_paths(base: &TreeListing, ours: &TreeListing, theirs: &TreeListing) -> Seq<Seq<char>> {
    fresh_paths(base.entries@, Set::empty()) + fresh_paths(ours.entries@, base@.dom()) + fresh_paths(
        theirs.entries@,
        base@.dom().union(ours@.dom()),
    )
}

/// The three-way status of a path from the three listings.
pub open spec fn path_status(
    p: Seq<char>,
    base: Map<Seq<char>, (Seq<char>, Seq<char>)>,
    ours: Map<Seq<char>, (Seq<char>, Seq<char>)>,
    theirs: Map<Seq<char>, (Seq<char>, Seq<char>)>,
) -> ThreeWayStatus {
    three_way_status_of(listed_blob(base, p), listed_blob(ours, p), listed_blob(theirs, p))
}

/// Every reported path escapes the exclusion patterns, and is changed
/// unless unchanged paths are listed.
proof fn lemma_reported_paths_kept(
    paths: Seq<Seq<char>>,
    base: Map<Seq<char>, (Seq<char>, Seq<char>)>,
    ours: Map<Seq<char>, (Seq<char>, Seq<char>)>,
    theirs: Map<Seq<char>, (Seq<char>, Seq<char>)>,
    patterns: Seq<Seq<char>>,
    show_unchanged: bool,
)
    ensures
        forall|i: int|
            0 <= i < reported_paths(paths, base, ours, theirs, patterns, show_unchanged).len() ==> {
                let p = #[trigger] reported_paths(paths, base, ours, theirs, patterns, show_unchanged)[i];
                &&& !is_excluded_path(patterns, p)
                &&& (show_unchanged || path_status(p, base, ours, theirs) != ThreeWayStatus::Unchanged)
            },
    decreases paths.len(),
{
    if paths.len() > 0 {
        lemma_reported_paths_kept(paths.drop_last(), base, ours, theirs, patterns, show_unchanged);
    }
}

/// The paths reported by a three-way comparison: those that no exclusion
/// pattern matches, and only changed ones unless unchanged files are listed.
pub open spec fn reported_paths(
    paths: Seq<Seq<char>>,
    base: Map<Seq<char>, (Seq<char>, Seq<char>)>,
    ours: Map<Seq<char>, (Seq<char>, Seq<char>)>,
    theirs: Map<Seq<char>, (Seq<char>, Seq<char>)>,
    patterns: Seq<Seq<char>>,
    show_unchanged: bool,
) -> Seq<Seq<char>>
    decreases paths.len(),
{
    if paths.len() == 0 {
        Seq::empty()
    } else {
        let prev = reported_paths(paths.drop_last(), base, ours, theirs, patterns, show_unchanged);
        let p = paths.last();
        if !is_excluded_path(patterns, p) && (show_unchanged || path_status(p, base, ours, theirs)
            != ThreeWayStatus::Unchanged) {
            prev.push(p)
        } else {
            prev
        }
    }
}

/// The three-way record of a path: its status and its blob id on each side.
pub open spec fn three_way_record(
    f: ThreeWayDiffFile,
    p: Seq<char>,
    base: Map<Seq<char>, (Seq<char>, Seq<char>)>,
    ours: Map<Seq<char>, (Seq<char>, Seq<char>)>,
    theirs: Map<Seq<char>, (Seq<char>, Seq<char>)>,
) -> bool {
    &&& f.path@ == p
    &&& f.status == path_status(p, base, ours, theirs)
    &&& opt_view(f.base_blob) == listed_blob(base, p)
    &&& opt_view(f.ours_blob) == listed_blob(ours, p)
    &&& opt_view(f.theirs_blob) == listed_blob(theirs, p)
    &&& f.base_content is None
    &&& f.ours_content is None
    &&& f.theirs_content is None
    &&& f.base_size is None
    &&& f.ours_size is None
    &&& f.theirs_size is None
    &&& f.error is None
}

/// Whether a path is listed in an optional listing.
fn listed_in(l: Option<&TreeListing>, path: &str) -> (r: bool)
    requires
        l matches Some(x) ==> x.wf(),
    ensures
        r == listed_paths(l).contains(path@),
{
    match l {
        Some(x) => match x.find(path) {
            Some(i) => {
                proof {
                    lemma_entries_view_at(x.entries@, i as int);
                }
                true
            },
            None => false,
        },
        None => false,
    }
}

/// Appends the paths of a listing that neither `a` nor `b` lists.
fn push_fresh_paths(out: &mut Vec<String>, l: &TreeListing, a: Option<&TreeListing>, b: Option<&TreeListing>)
    requires
        a matches Some(x) ==> x.wf(),
        b matches Some(x) ==> x.wf(),
    ensures
        texts(final(out)@) == texts(old(out)@) + fresh_paths(
            l.entries@,
            listed_paths(a).union(listed_paths(b)),
        ),
{
    let ghost es = l.entries@;
    let ghost seen = listed_paths(a).union(listed_paths(b));
    let ghost start = texts(out@);
    let mut i: usize = 0;
    while i < l.entries.len()
        invariant
            i <= es.len(),
            es == l.entries@,
            seen == listed_paths(a).union(listed_paths(b)),
            a matches Some(x) ==> x.wf(),
            b matches Some(x) ==> x.wf(),
            texts(out@) == start + fresh_paths(es.take(i as int), seen),
        decreases es.len() - i,
    {
        proof {
            assert(es.take(i + 1).drop_last() =~= es.take(i as int));
            assert(es.take(i + 1).last() == es[i as int]);
        }
        let p = l.entries[i].path.as_str();
        if !listed_in(a, p) && !listed_in(b, p) {
            let ghost before = out@;
            out.push(l.entries[i].path.clone());
            proof {
                assert(texts(out@) =~= texts(before).push(es[i as int].path@));
            }
        }
        i += 1;
    }
    assert(es.take(es.len() as int) =~= es);
}

/// Every path of the three listings once, as `all_paths` orders them.
fn union_paths(base: &TreeListing, ours: &TreeListing, theirs: &TreeListing) -> (r: Vec<String>)
    requires
        base.wf(),
        ours.wf(),
        theirs.wf(),
    ensures
        texts(r@) == all_paths(base, ours, theirs),
{
    let mut r: Vec<String> = Vec::new();
    assert(texts(r@) =~= Seq::<Seq<char>>::empty());
    push_fresh_paths(&mut r, base, None, None);
    push_fresh_paths(&mut r, ours, Some(base), None);
    push_fresh_paths(&mut r, theirs, Some(base), Some(ours));
    proof {
        assert(listed_paths(None).union(listed_paths(None)) =~= Set::<Seq<char>>::empty());
        assert(listed_paths(Some(base)).union(listed_paths(None)) =~= base@.dom());
        assert(Seq::<Seq<char>>::empty() + fresh_paths(base.entries@, Set::empty()) =~= fresh_paths(
            base.entries@,
            Set::empty(),
        ));
    }
    r
}

/// The blob id of a looked-up (mode, blob id) pair.
fn blob_of_pair(p: &Option<(String, String)>) -> (r: Option<String>)
    ensures
        opt_view(r) == match p {
            Some(x) => Some(x.1@),
            None => None,
        },
{
    match p {
        Some(x) => Some(x.1.clone()),
        None => None,
    }
}

/// The three-way status of a path from its blob ids in base, ours and theirs
/// (`None` where the path is absent).
pub open spec fn three_way_status_of(
    base: Option<Seq<char>>,
    ours: Option<Seq<char>>,
    theirs: Option<Seq<char>>,
) -> ThreeWayStatus {
    match (base, ours, theirs) {
        (Some(b), Some(o), Some(t)) => if b == o && b == t {
            ThreeWayStatus::Unchanged
        } else if b != o && b == t {
            ThreeWayStatus::OursOnly
        } else if b == o && b != t {
            ThreeWayStatus::TheirsOnly
        } else if o == t {
            ThreeWayStatus::BothSame
        } else {
            ThreeWayStatus::Conflict
        },
        (Some(b), None, Some(t)) => if b == t {
            ThreeWayStatus::DeletedOurs
        } else {
            ThreeWayStatus::DeleteModify
        },
        (Some(b), Some(o), None) => if b == o {
            ThreeWayStatus::DeletedTheirs
        } else {
            ThreeWayStatus::ModifyDelete
        },
        (Some(_), None, None) => ThreeWayStatus::DeletedBoth,
        (None, Some(_), None) => ThreeWayStatus::AddedOurs,
        (None, None, Some(_)) => ThreeWayStatus::AddedTheirs,
        (None, Some(o), Some(t)) => if o == t {
            ThreeWayStatus::AddedBothSame
        } else {
            ThreeWayStatus::AddedBothDiff
        },
        (None, None, None) => ThreeWayStatus::Unchanged,
    }
}

/// The status seen from the other side: ours and theirs trade places.
pub open spec fn mirrored(s: ThreeWayStatus) -> ThreeWayStatus {
    match s {
        ThreeWayStatus::OursOnly => ThreeWayStatus::TheirsOnly,
        ThreeWayStatus::TheirsOnly => ThreeWayStatus::OursOnly,
        ThreeWayStatus::AddedOurs => ThreeWayStatus::AddedTheirs,
        ThreeWayStatus::AddedTheirs => ThreeWayStatus::AddedOurs,
        ThreeWayStatus::DeletedOurs => ThreeWayStatus::DeletedTheirs,
        ThreeWayStatus::DeletedTheirs => ThreeWayStatus::DeletedOurs,
        ThreeWayStatus::ModifyDelete => ThreeWayStatus::DeleteModify,
        ThreeWayStatus::DeleteModify => ThreeWayStatus::ModifyDelete,
        other => other,
    }
}

/// A path conflicts exactly when both sides changed it (a change being any
/// difference from base, absence included) and the two results differ; it
/// is unchanged exactly when all three agree.
pub proof fn law_conflict_means_both_changed_differently(
    base: Option<Seq<char>>,
    ours: Option<Seq<char>>,
    theirs: Option<Seq<char>>,
)
    ensures
        is_conflict_status(three_way_status_of(base, ours, theirs)) <==> (ours != base && theirs != base
            && ours != theirs),
        (three_way_status_of(base, ours, theirs) == ThreeWayStatus::Unchanged) <==> (base == ours && ours
            == theirs),
{
}

/// Swapping ours and theirs swaps the roles in the status and nothing else.
pub proof fn law_three_way_status_mirror(
    base: Option<Seq<char>>,
    ours: Option<Seq<char>>,
    theirs: Option<Seq<char>>,
)
    ensures
        three_way_status_of(base, theirs, ours) == mirrored(three_way_status_of(base, ours, theirs)),
{
}

/// The blob id of an optional (mode, blob id) pair.
pub open spec fn blob_of(e: Option<(String, String)>) -> Option<Seq<char>> {
    match e {
        Some(p) => Some(p.1@),
        None => None,
    }
}

impl DiffDetector {
    /// A detector with the exclusion patterns and the unchanged-files switch of the settings.
    pub fn new(config: &MergedConfig) -> (r: DiffDetector)
        ensures
            r.exclude@ == config.exclude@,
            r.show_unchanged == config.show_unchanged,
    {
        let mut exclude: Vec<String> = Vec::new();
        let mut i: usize = 0;
        while i < config.exclude.len()
            invariant
                i <= config.exclude@.len(),
                exclude@ == config.exclude@.take(i as int),
            decreases config.exclude@.len() - i,
        {
            exclude.push(config.exclude[i].clone());
            assert(config.exclude@.take(i + 1) =~= config.exclude@.take(i as int).push(config.exclude@[i as int]));
            i += 1;
        }
        assert(config.exclude@.take(config.exclude@.len() as int) =~= config.exclude@);
        DiffDetector { exclude, show_unchanged: config.show_unchanged }
    }

    /// The files whose paths no exclusion pattern matches, in order, or the
    /// first unusable pattern.
    pub fn filter_excluded(&self, files: Vec<DiffFile>) -> (r: Result<Vec<DiffFile>, AppError>)
        ensures
            self.exclude@.len() == 0 ==> (r matches Ok(kept) && kept@ == files@),
            self.exclude@.len() > 0 ==> match exclusion_failure(texts(self.exclude@)) {
                Some(m) => r matches Err(e) && e@ == ErrorView::InvalidGlobPattern(m),
                None => r matches Ok(kept) && kept@ == files_not_excluded(files@, texts(self.exclude@)),
            },
    {
        if self.exclude.len() == 0 {
            return Ok(files);
        }
        let set = build_exclusions(&self.exclude)?;
        let ghost ps = texts(self.exclude@);
        let ghost all = files@;
        let mut kept: Vec<DiffFile> = Vec::new();
        for f in it: files
            invariant
                ps == texts(self.exclude@),
                ps.len() > 0,
                set_patterns(set) == ps,
                it.seq() == all,
                kept@ == files_not_excluded(all.take(it.index() as int), ps),
        {
            proof {
                assert(all.take(it.index() + 1).drop_last() =~= all.take(it.index() as int));
            }
            if !set_is_match(&set, f.path.as_str()) {
                kept.push(f);
            }
        }
        assert(all.take(all.len() as int) =~= all);
        Ok(kept)
    }

    /// Whether a path is excluded, or the first unusable pattern.
    pub fn is_excluded(&self, path: &str) -> (r: Result<bool, AppError>)
        ensures
            self.exclude@.len() == 0 ==> r == Ok::<bool, AppError>(false),
            self.exclude@.len() > 0 ==> match exclusion_failure(texts(self.exclude@)) {
                Some(m) => r matches Err(e) && e@ == ErrorView::InvalidGlobPattern(m),
                None => r == Ok::<bool, AppError>(globs_match(texts(self.exclude@), path@)),
            },
    {
        if self.exclude.len() == 0 {
            return Ok(false);
        }
        let set = build_exclusions(&self.exclude)?;
        Ok(set_is_match(&set, path))
    }

    /// Counts the files by status and by mark.
    pub fn calculate_statistics(files: &[DiffFile]) -> (r: Statistics)
        ensures
            statistics_of(files@, r),
            statistics_total(r) == files@.len(),
    {
        let mut s = Statistics::default();
        let mut i: usize = 0;
        while i < files.len()
            invariant
                i <= files@.len(),
                statistics_of(files@.take(i as int), s),
            decreases files@.len() - i,
        {
            let f = &files[i];
            proof {
                assert(files@.take(i + 1).drop_last() =~= files@.take(i as int));
                assert(files@.take(i + 1).last() == files@[i as int]);
                lemma_counts_bounded(files@.take(i as int), f.status);
                lemma_counts_bounded(files@.take(i as int), FileStatus::Added);
                lemma_counts_bounded(files@.take(i as int), FileStatus::Modified);
                lemma_counts_bounded(files@.take(i as int), FileStatus::Deleted);
                lemma_counts_bounded(files@.take(i as int), FileStatus::Renamed);
                lemma_counts_bounded(files@.take(i as int), FileStatus::Copied);
                lemma_counts_bounded(files@.take(i as int), FileStatus::TypeChanged);
                lemma_counts_bounded(files@.take(i as int), FileStatus::Unchanged);
            }
            match f.status {
                FileStatus::Added => s.added = s.added + 1,
                FileStatus::Modified => s.modified = s.modified + 1,
                FileStatus::Deleted => s.deleted = s.deleted + 1,
                FileStatus::Renamed => s.renamed = s.renamed + 1,
                FileStatus::Copied => s.copied = s.copied + 1,
                FileStatus::TypeChanged => s.type_changed = s.type_changed + 1,
                FileStatus::Unchanged => s.unchanged = s.unchanged + 1,
            }
            if f.is_symlink {
                s.symlinks = s.symlinks + 1;
            }
            if f.is_submodule {
                s.submodules = s.submodules + 1;
            }
            if f.is_permission_only_change() {
                s.permission_changes = s.permission_changes + 1;
            }
            if f.error.is_some() {
                s.errors = s.errors + 1;
            }
            i += 1;
        }
        assert(files@.take(files@.len() as int) =~= files@);
        proof {
            law_statistics_total(files@);
        }
        s
    }

    /// The three-way status of a path from its (mode, blob id) in base, ours
    /// and theirs; only the blob ids count.
    pub fn determine_three_way_status(
        base: Option<&(String, String)>,
        ours: Option<&(String, String)>,
        theirs: Option<&(String, String)>,
    ) -> (r: ThreeWayStatus)
        ensures
            r == three_way_status_of(
                match base { Some(p) => Some(p.1@), None => None },
                match ours { Some(p) => Some(p.1@), None => None },
                match theirs { Some(p) => Some(p.1@), None => None },
            ),
    {
        match (base, ours, theirs) {
            (Some(b), Some(o), Some(t)) => {
                let bo = b.1.eq(&o.1);
                let bt = b.1.eq(&t.1);
                if bo && bt {
                    ThreeWayStatus::Unchanged
                } else if !bo && bt {
                    ThreeWayStatus::OursOnly
                } else if bo && !bt {
                    ThreeWayStatus::TheirsOnly
                } else if o.1.eq(&t.1) {
                    ThreeWayStatus::BothSame
                } else {
                    ThreeWayStatus::Conflict
                }
            },
            (Some(b), None, Some(t)) => {
                if b.1.eq(&t.1) {
                    ThreeWayStatus::DeletedOurs
                } else {
                    ThreeWayStatus::DeleteModify
                }
            },
            (Some(b), Some(o), None) => {
                if b.1.eq(&o.1) {
                    ThreeWayStatus::DeletedTheirs
                } else {
                    ThreeWayStatus::ModifyDelete
                }
            },
            (Some(_), None, None) => ThreeWayStatus::DeletedBoth,
            (None, Some(_), None) => ThreeWayStatus::AddedOurs,
            (None, None, Some(_)) => ThreeWayStatus::AddedTheirs,
            (None, Some(o), Some(t)) => {
                if o.1.eq(&t.1) {
                    ThreeWayStatus::AddedBothSame
                } else {
                    ThreeWayStatus::AddedBothDiff
                }
            },
            (None, None, None) => ThreeWayStatus::Unchanged,
        }
    }

    /// Counts the three-way records by status.
    pub fn calculate_three_way_statistics(files: &[ThreeWayDiffFile]) -> (r: ThreeWayStatistics)
        ensures
            three_way_statistics_of(files@, r),
            three_way_total(r) == files@.len(),
            three_way_conflicts(r) == count_conflicting(files@),
    {
        let mut s = ThreeWayStatistics::default();
        let mut i: usize = 0;
        while i < files.len()
            invariant
                i <= files@.len(),
                three_way_statistics_of(files@.take(i as int), s),
            decreases files@.len() - i,
        {
            let st = files[i].status;
            proof {
                let t = files@.take(i as int);
                assert(files@.take(i + 1).drop_last() =~= t);
                assert(files@.take(i + 1).last() == files@[i as int]);
                lemma_three_way_count_bounded(t, st);
            }
            match st {
                ThreeWayStatus::Unchanged => s.unchanged = s.unchanged + 1,
                ThreeWayStatus::OursOnly => s.ours_only = s.ours_only + 1,
                ThreeWayStatus::TheirsOnly => s.theirs_only = s.theirs_only + 1,
                ThreeWayStatus::BothSame => s.both_same = s.both_same + 1,
                ThreeWayStatus::Conflict => s.conflict = s.conflict + 1,
                ThreeWayStatus::AddedOurs => s.added_ours = s.added_ours + 1,
                ThreeWayStatus::AddedTheirs => s.added_theirs = s.added_theirs + 1,
                ThreeWayStatus::AddedBothSame => s.added_both_same = s.added_both_same + 1,
                ThreeWayStatus::AddedBothDiff => s.added_both_diff = s.added_both_diff + 1,
                ThreeWayStatus::DeletedOurs => s.deleted_ours = s.deleted_ours + 1,
                ThreeWayStatus::DeletedTheirs => s.deleted_theirs = s.deleted_theirs + 1,
                ThreeWayStatus::DeletedBoth => s.deleted_both = s.deleted_both + 1,
                ThreeWayStatus::ModifyDelete => s.modify_delete = s.modify_delete + 1,
                ThreeWayStatus::DeleteModify => s.delete_modify = s.delete_modify + 1,
            }
            i += 1;
        }
        assert(files@.take(files@.len() as int) =~= files@);
        proof {
            law_three_way_statistics_total(files@);
        }
        s
    }

    /// The files of the source listing that are not among the changed
    /// files and have the same blob id in the target, symbolic links and
    /// submodules left out, in listing order.
    pub fn detect_unchanged(source: &TreeListing, target: &TreeListing, changed_files: &[DiffFile]) -> (r: Vec<DiffFile>)
        requires
            source.wf(),
            target.wf(),
        ensures
            r@.len() == unchanged_entries(source.entries@, target@, changed_files@).len(),
            forall|i: int|
                0 <= i < r@.len() ==> unchanged_record(
                    #[trigger] r@[i],
                    unchanged_entries(source.entries@, target@, changed_files@)[i],
                    target@,
                ),
    {
        let ghost es = source.entries@;
        let mut out: Vec<DiffFile> = Vec::new();
        let mut i: usize = 0;
        while i < source.entries.len()
            invariant
                i <= es.len(),
                es == source.entries@,
                target.wf(),
                out@.len() == unchanged_entries(es.take(i as int), target@, changed_files@).len(),
                forall|k: int|
                    0 <= k < out@.len() ==> unchanged_record(
                        #[trigger] out@[k],
                        unchanged_entries(es.take(i as int), target@, changed_files@)[k],
                        target@,
                    ),
            decreases es.len() - i,
        {
            let e = &source.entries[i];
            proof {
                assert(es.take(i + 1).drop_last() =~= es.take(i as int));
                assert(es.take(i + 1).last() == es[i as int]);
            }
            if !is_changed_path(changed_files, e.path.as_str()) {
                match target.get(e.path.as_str()) {
                    Some(t) => {
                        let (tmode, tblob) = t;
                        if e.blob.eq(&tblob) && !mode_starts(&e.mode, "120") && !mode_starts(&e.mode, "160") {
                            let mut f = DiffFile::new(e.path.clone(), FileStatus::Unchanged);
                            f.source_mode = Some(e.mode.clone());
                            f.target_mode = Some(tmode);
                            f.source_blob = Some(e.blob.clone());
                            f.target_blob = Some(tblob);
                            out.push(f);
                        }
                    },
                    None => {},
                }
            }
            i += 1;
        }
        assert(es.take(es.len() as int) =~= es);
        out
    }

    /// A file with the modes found for it: `source_mode` and `target_mode`
    /// for its path in the source and the target, `original_mode` for its
    /// original path in the source, each `None` where nothing was found.
    pub fn apply_modes(
        file: DiffFile,
        source_mode: Option<String>,
        target_mode: Option<String>,
        original_mode: Option<String>,
    ) -> (r: DiffFile)
        ensures
            modes_applied(file, r, opt_view(source_mode), opt_view(target_mode), opt_view(original_mode)),
    {
        let mut file = file;
        match source_mode {
            Some(m) => {
                file.is_symlink = mode_starts(&m, "120");
                file.is_submodule = mode_starts(&m, "160");
                file.source_mode = Some(m);
            },
            None => {},
        }
        match target_mode {
            Some(m) => {
                if mode_starts(&m, "120") {
                    file.is_symlink = true;
                }
                if mode_starts(&m, "160") {
                    file.is_submodule = true;
                }
                file.target_mode = Some(m);
            },
            None => {},
        }
        if file.original_path.is_some() {
            match original_mode {
                Some(m) => {
                    file.source_mode = Some(m);
                },
                None => {},
            }
        }
        file
    }

    /// Each file with its modes looked up in the source and target listings.
    pub fn fetch_file_info(files: Vec<DiffFile>, source: &TreeListing, target: &TreeListing) -> (r: Vec<DiffFile>)
        requires
            source.wf(),
            target.wf(),
        ensures
            r@.len() == files@.len(),
            forall|i: int| 0 <= i < r@.len() ==> fetched_from(files@[i], #[trigger] r@[i], source@, target@),
    {
        let ghost all = files@;
        let mut out: Vec<DiffFile> = Vec::new();
        for f in it: files
            invariant
                source.wf(),
                target.wf(),
                it.seq() == all,
                out@.len() == it.index(),
                forall|k: int| 0 <= k < out@.len() ==> fetched_from(all[k], #[trigger] out@[k], source@, target@),
        {
            let ghost before = f;
            let sm = match source.get(f.path.as_str()) {
                Some(p) => Some(p.0),
                None => None,
            };
            let tm = match target.get(f.path.as_str()) {
                Some(p) => Some(p.0),
                None => None,
            };
            let om = match &f.original_path {
                Some(op) => match source.get(op.as_str()) {
                    Some(p) => Some(p.0),
                    None => None,
                },
                None => None,
            };
            let g = Self::apply_modes(f, sm, tm, om);
            out.push(g);
        }
        out
    }

    /// The differences between two revisions: the changed files that no
    /// exclusion pattern matches, then the unchanged files when they are
    /// listed, each with its modes; and the statistics, which always count
    /// the unchanged files, listed or not. Fails on the first unusable
    /// exclusion pattern.
    pub fn detect_two_way(&self, changes: Vec<DiffFile>, source: &TreeListing, target: &TreeListing) -> (r: Result<
        (Vec<DiffFile>, Statistics),
        AppError,
    >)
        requires
            source.wf(),
            target.wf(),
        ensures
            (self.exclude@.len() > 0 && exclusion_failure(texts(self.exclude@)) is Some) ==> (r matches Err(e)
                && e@ == ErrorView::InvalidGlobPattern(exclusion_failure(texts(self.exclude@))->0)),
            !(self.exclude@.len() > 0 && exclusion_failure(texts(self.exclude@)) is Some) ==> (r matches Ok(res)
                && two_way_outcome(
                res.0@,
                res.1,
                kept_changes(changes@, texts(self.exclude@)),
                source,
                target,
                self.show_unchanged,
            )),
    {
        let kept = match self.filter_excluded(changes) {
            Ok(k) => k,
            Err(e) => {
                return Err(e);
            },
        };
        let ghost kv = kept@;
        let n = kept.len();
        let mut all = kept;
        let mut un = Self::detect_unchanged(source, target, &all);
        all.append(&mut un);
        let ghost ue = unchanged_entries(source.entries@, target@, kv);
        let ghost before = all@;
        let mut fetched = Self::fetch_file_info(all, source, target);
        proof {
            assert forall|j: int| 0 <= j < ue.len() implies fetched_unchanged(
                #[trigger] fetched@[kv.len() + j],
                ue[j],
                target@,
            ) by {
                lemma_unchanged_entry_listed(source.entries@, target@, kv, j);
                let k = choose|k: int| 0 <= k < source.entries@.len() && source.entries@[k] == ue[j];
                lemma_entries_view_at(source.entries@, k);
                assert(before[kv.len() + j] == before.subrange(kv.len() as int, before.len() as int)[j]);
                assert(fetched_from(before[kv.len() + j], fetched@[kv.len() + j], source@, target@));
            }
            assert forall|i: int| 0 <= i < kv.len() implies fetched_from(kv[i], #[trigger] fetched@[i], source@, target@) by {
                assert(before[i] == kv[i]);
                assert(fetched_from(before[i], fetched@[i], source@, target@));
            }
            assert(two_way_files(fetched@, kv, source, target, true));
        }
        let listed = fetched.len();
        let stats = Self::calculate_statistics(&fetched);
        let ghost full = fetched@;
        assert(statistics_total(stats) == listed);
        if !self.show_unchanged {
            fetched.truncate(n);
            proof {
                assert forall|i: int| 0 <= i < kv.len() implies fetched_from(kv[i], #[trigger] fetched@[i], source@, target@) by {
                    assert(fetched@[i] == full[i]);
                }
            }
        }
        proof {
            assert(two_way_files(full, kv, source, target, true));
            assert(statistics_of(full, stats) && statistics_total(stats) == full.len());
            assert(two_way_files(fetched@, kv, source, target, self.show_unchanged));
            assert(kv == kept_changes(changes@, texts(self.exclude@)));
            assert(two_way_outcome(fetched@, stats, kv, source, target, self.show_unchanged));
        }
        Ok((fetched, stats))
    }

    /// The three-way comparison of base, ours and theirs: for every listed
    /// path that no exclusion pattern matches, its status and blob ids
    /// (unchanged paths only when they are listed); and the statistics.
    /// Fails on the first unusable exclusion pattern when there is a path.
    pub fn detect_three_way(&self, base: &TreeListing, ours: &TreeListing, theirs: &TreeListing) -> (r: Result<
        (Vec<ThreeWayDiffFile>, ThreeWayStatistics),
        AppError,
    >)
        requires
            base.wf(),
            ours.wf(),
            theirs.wf(),
        ensures
            ({
                let fails = self.exclude@.len() > 0 && all_paths(base, ours, theirs).len() > 0
                    && exclusion_failure(texts(self.exclude@)) is Some;
                let rp = reported_paths(
                    all_paths(base, ours, theirs),
                    base@,
                    ours@,
                    theirs@,
                    texts(self.exclude@),
                    self.show_unchanged,
                );
                &&& fails ==> (r matches Err(e) && e@ == ErrorView::InvalidGlobPattern(
                    exclusion_failure(texts(self.exclude@))->0,
                ))
                &&& !fails ==> (r matches Ok(res) && res.0@.len() == rp.len() && (forall|i: int|
                    0 <= i < rp.len() ==> three_way_record(#[trigger] res.0@[i], rp[i], base@, ours@, theirs@))
                    && three_way_statistics_of(res.0@, res.1) && three_way_total(res.1) == res.0@.len()
                    && three_way_conflicts(res.1) == count_conflicting(res.0@))
            }),
            r matches Ok(res) ==> forall|i: int|
                0 <= i < res.0@.len() ==> !is_excluded_path(texts(self.exclude@), (#[trigger] res.0@[i]).path@),
            r matches Ok(res) ==> forall|i: int|
                0 <= i < res.0@.len() ==> (self.show_unchanged || (#[trigger] res.0@[i]).status
                    != ThreeWayStatus::Unchanged),
    {
        let paths = union_paths(base, ours, theirs);
        let ghost ap = all_paths(base, ours, theirs);
        let ghost ps = texts(self.exclude@);
        assert(paths@.len() == ap.len());
        let set = if self.exclude.len() > 0 && paths.len() > 0 {
            match build_exclusions(&self.exclude) {
                Ok(s) => Some(s),
                Err(e) => {
                    return Err(e);
                },
            }
        } else {
            None
        };
        let mut files: Vec<ThreeWayDiffFile> = Vec::new();
        let mut i: usize = 0;
        while i < paths.len()
            invariant
                i <= paths@.len(),
                texts(paths@) == ap,
                ps == texts(self.exclude@),
                base.wf(),
                ours.wf(),
                theirs.wf(),
                paths@.len() > 0 ==> (set is Some <==> ps.len() > 0),
                set matches Some(st) ==> set_patterns(st) == ps,
                files@.len() == reported_paths(ap.take(i as int), base@, ours@, theirs@, ps, self.show_unchanged).len(),
                forall|k: int|
                    0 <= k < files@.len() ==> three_way_record(
                        #[trigger] files@[k],
                        reported_paths(ap.take(i as int), base@, ours@, theirs@, ps, self.show_unchanged)[k],
                        base@,
                        ours@,
                        theirs@,
                    ),
            decreases paths@.len() - i,
        {
            let p = paths[i].as_str();
            proof {
                assert(ap.take(i + 1).drop_last() =~= ap.take(i as int));
                assert(ap.take(i + 1).last() == ap[i as int]);
                assert(ap[i as int] == paths@[i as int]@);
            }
            let excluded = match &set {
                Some(st) => set_is_match(st, p),
                None => false,
            };
            if !excluded {
                let b = base.get(p);
                let o = ours.get(p);
                let t = theirs.get(p);
                let status = Self::determine_three_way_status(
                    match &b { Some(x) => Some(x), None => None },
                    match &o { Some(x) => Some(x), None => None },
                    match &t { Some(x) => Some(x), None => None },
                );
                if self.show_unchanged || status != ThreeWayStatus::Unchanged {
                    let mut f = ThreeWayDiffFile::new(paths[i].clone(), status);
                    f.base_blob = blob_of_pair(&b);
                    f.ours_blob = blob_of_pair(&o);
                    f.theirs_blob = blob_of_pair(&t);
                    files.push(f);
                }
            }
            i += 1;
        }
        assert(ap.take(ap.len() as int) =~= ap);
        proof {
            lemma_reported_paths_kept(ap, base@, ours@, theirs@, ps, self.show_unchanged);
        }
        let stats = Self::calculate_three_way_statistics(&files);
        Ok((files, stats))
    }
}

} // verus!

verus! {

/// Two records that the statistics cannot tell apart.
pub open spec fn stats_alike(a: DiffFile, b: DiffFile) -> bool {
    &&& a.status == b.status
    &&& a.is_symlink == b.is_symlink
    &&& a.is_submodule == b.is_submodule
    &&& permission_only(a) == permission_only(b)
    &&& (a.error is Some) == (b.error is Some)
}

proof fn lemma_alike_counts(a: Seq<DiffFile>, b: Seq<DiffFile>)
    requires
        a.len() == b.len(),
        forall|i: int| 0 <= i < a.len() ==> stats_alike(#[trigger] a[i], b[i]),
    ensures
        forall|st: FileStatus| #[trigger] count_status(a, st) == count_status(b, st),
        count_symlinks(a) == count_symlinks(b),
        count_submodules(a) == count_submodules(b),
        count_permission_only(a) == count_permission_only(b),
        count_errors(a) == count_errors(b),
    decreases a.len(),
{
    if a.len() > 0 {
        let n = a.len() - 1;
        assert forall|i: int| 0 <= i < a.drop_last().len() implies stats_alike(
            #[trigger] a.drop_last()[i],
            b.drop_last()[i],
        ) by {
            assert(a.drop_last()[i] == a[i] && b.drop_last()[i] == b[i]);
        }
        lemma_alike_counts(a.drop_last(), b.drop_last());
        assert(stats_alike(a[n], b[n]));
        assert(a.last() == a[n] && b.last() == b[n]);
        assert forall|st: FileStatus| #[trigger] count_status(a, st) == count_status(b, st) by {
            assert(count_status(a.drop_last(), st) == count_status(b.drop_last(), st));
        }
    } else {
        assert forall|st: FileStatus| #[trigger] count_status(a, st) == count_status(b, st) by {}
    }
}

/// Listing the unchanged files of a two-way comparison or not changes
/// nothing in its statistics: the unchanged files are counted either way.
pub proof fn law_unchanged_counted_either_way(
    unlisted: Seq<DiffFile>,
    unlisted_stats: Statistics,
    listed: Seq<DiffFile>,
    listed_stats: Statistics,
    kept: Seq<DiffFile>,
    source: &TreeListing,
    target: &TreeListing,
)
    requires
        two_way_outcome(unlisted, unlisted_stats, kept, source, target, false),
        two_way_outcome(listed, listed_stats, kept, source, target, true),
    ensures
        unlisted_stats == listed_stats,
{
    let a = choose|all: Seq<DiffFile>|
        #[trigger] two_way_files(all, kept, source, target, true) && statistics_of(all, unlisted_stats)
            && statistics_total(unlisted_stats) == all.len();
    let b = choose|all: Seq<DiffFile>|
        #[trigger] two_way_files(all, kept, source, target, true) && statistics_of(all, listed_stats)
            && statistics_total(listed_stats) == all.len();
    let ue = unchanged_entries(source.entries@, target@, kept);
    assert forall|i: int| 0 <= i < a.len() implies stats_alike(#[trigger] a[i], b[i]) by {
        if i < kept.len() {
            assert(fetched_from(kept[i], a[i], source@, target@));
            assert(fetched_from(kept[i], b[i], source@, target@));
        } else {
            let j = i - kept.len();
            assert(fetched_unchanged(a[kept.len() + j], ue[j], target@));
            assert(fetched_unchanged(b[kept.len() + j], ue[j], target@));
        }
    }
    lemma_alike_counts(a, b);
    assert(count_status(a, FileStatus::Added) == count_status(b, FileStatus::Added));
    assert(count_status(a, FileStatus::Modified) == count_status(b, FileStatus::Modified));
    assert(count_status(a, FileStatus::Deleted) == count_status(b, FileStatus::Deleted));
    assert(count_status(a, FileStatus::Renamed) == count_status(b, FileStatus::Renamed));
    assert(count_status(a, FileStatus::Copied) == count_status(b, FileStatus::Copied));
    assert(count_status(a, FileStatus::TypeChanged) == count_status(b, FileStatus::TypeChanged));
    assert(count_status(a, FileStatus::Unchanged) == count_status(b, FileStatus::Unchanged));
}

/// The files kept by the exclusion patterns are exactly those, in order,
/// whose paths no pattern matches.
pub proof fn law_exclusion_keeps_unmatched(files: Seq<DiffFile>, patterns: Seq<Seq<char>>)
    ensures
        forall|i: int|
            0 <= i < files_not_excluded(files, patterns).len() ==> !is_excluded_path(
                patterns,
                (#[trigger] files_not_excluded(files, patterns)[i]).path@,
            ),
        files_not_excluded(files, patterns).len() + count_excluded(files, patterns) == files.len(),
    decreases files.len(),
{
    if files.len() > 0 {
        law_exclusion_keeps_unmatched(files.drop_last(), patterns);
    }
}

/// Number of files whose paths a pattern matches.
pub open spec fn count_excluded(files: Seq<DiffFile>, patterns: Seq<Seq<char>>) -> nat
    decreases files.len(),
{
    if files.len() == 0 {
        0
    } else {
        count_excluded(files.drop_last(), patterns) + if is_excluded_path(patterns, files.last().path@) {
            1nat
        } else {
            0nat
        }
    }
}

} // verus!
