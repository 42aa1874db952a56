//! Which files are copied, from which revision, and where to.

use vstd::prelude::*;
use crate::config::{MergedConfig, texts};
use crate::diff::three_way_status_of;
use crate::git::opt_view;
use crate::text::{chars_of, push_char, slice_chars};
use crate::types::{
    DiffFile, FileStatus, MergeStyle, ThreeWayDiffFile, ThreeWayStatus, expand_filter_status_three_way,
    file_status_from_chars, file_status_of_filter, filter_allows, is_conflict_status,
};

verus! {

/// The revision a copied file is read from.
#[derive(Debug, Clone, Copy, PartialEq, Eq, Structural)]
pub enum Side {
    Source,
    Target,
    Base,
    Ours,
    Theirs,
}

/// The commit a side reads from: the source (ours in a three-way
/// comparison), the target (theirs), or the base.
pub open spec fn side_commit(side: Side, source: Seq<char>, target: Seq<char>, base: Seq<char>) -> Seq<char> {
    match side {
        Side::Source | Side::Ours => source,
        Side::Target | Side::Theirs => target,
        Side::Base => base,
    }
}

/// The commit a side reads from, among the commits of a comparison.
pub fn commit_of<'a>(side: Side, source: &'a str, target: &'a str, base: &'a str) -> (r: &'a str)
    ensures
        r@ == side_commit(side, source@, target@, base@),
{
    match side {
        Side::Source | Side::Ours => source,
        Side::Target | Side::Theirs => target,
        Side::Base => base,
    }
}

/// One file to write: the content of `repo_path` at the revision of
/// `side`, written to `dest` under the output directory, with the
/// modification time of its last commit when `set_timestamp` is on.
#[derive(Debug, Clone)]
pub struct CopyStep {
    pub side: Side,
    pub repo_path: String,
    pub dest: String,
    pub set_timestamp: bool,
}

/// The steps for one compared file, run in order until one fails. The
/// file counts as copied when they all succeed and `counts` is on.
#[derive(Debug, Clone)]
pub struct FilePlan {
    pub path: String,
    pub steps: Vec<CopyStep>,
    pub counts: bool,
}

/// Copies the files that a comparison found, as the settings ask.
#[derive(Debug, Clone)]
pub struct FileCopier {
    pub dry_run: bool,
    pub copy_deleted: bool,
    pub both_versions: bool,
    pub preserve_timestamps: bool,
    pub filter_status: Vec<String>,
    pub conflict_only: bool,
    pub merge_style: MergeStyle,
}

/// `path` followed by a dot and `ext`.
pub open spec fn with_extension(path: Seq<char>, ext: Seq<char>) -> Seq<char> {
    path + seq!['.'] + ext
}

/// A step as plain values.
pub open spec fn step_is(s: CopyStep, side: Side, repo_path: Seq<char>, dest: Seq<char>, ts: bool) -> bool {
    s.side == side && s.repo_path@ == repo_path && s.dest@ == dest && s.set_timestamp == ts
}

/// A two-way filter word that excludes the status it names after a `^`.
pub open spec fn two_way_excludes(entry: Seq<char>, st: FileStatus) -> bool {
    entry.len() > 0 && entry[0] == '^' && file_status_of_filter(entry.drop_first()) == Some(st)
}

/// A two-way filter word that excludes some status.
pub open spec fn two_way_exclusion(entry: Seq<char>) -> bool {
    entry.len() > 0 && entry[0] == '^' && file_status_of_filter(entry.drop_first()) is Some
}

/// A two-way status filter lets a status through: it is empty, or one of
/// its words names the status or it names none and excludes some (then it
/// starts from every status), and no `^` word excludes the status.
pub open spec fn status_filter_allows(filter: Seq<Seq<char>>, st: FileStatus) -> bool {
    filter.len() == 0 || ({
        let named = exists|i: int| 0 <= i < filter.len() && file_status_of_filter(#[trigger] filter[i]) == Some(st);
        let names_any = exists|i: int| 0 <= i < filter.len() && (#[trigger] file_status_of_filter(filter[i])) is Some;
        let excludes_any = exists|i: int| 0 <= i < filter.len() && two_way_exclusion(#[trigger] filter[i]);
        let excluded = exists|i: int| 0 <= i < filter.len() && two_way_excludes(#[trigger] filter[i], st);
        (named || (!names_any && excludes_any)) && !excluded
    })
}

/// A file of a two-way comparison is copied: it has no error, is neither a
/// link nor a submodule, passes the status filter, and is not unchanged
/// (a deleted one only when deleted files are copied).
pub open spec fn copy_wanted(f: DiffFile, filter: Seq<Seq<char>>, copy_deleted: bool) -> bool {
    &&& f.error is None
    &&& !f.is_symlink
    &&& !f.is_submodule
    &&& status_filter_allows(filter, f.status)
    &&& match f.status {
        FileStatus::Deleted => copy_deleted,
        FileStatus::Unchanged => false,
        _ => true,
    }
}

/// A file of a three-way comparison is copied: it conflicts when only
/// conflicts are copied, passes the status filter, and is not unchanged.
pub open spec fn copy_wanted_three_way(f: ThreeWayDiffFile, filter: Seq<Seq<char>>, conflict_only: bool) -> bool {
    &&& !conflict_only || is_conflict_status(f.status)
    &&& filter.len() == 0 || filter_allows(filter, f.status)
    &&& f.status != ThreeWayStatus::Unchanged
}

/// The steps that copy one file of a two-way comparison. A deleted file is
/// read from the source and gets `.deleted`; with both versions, an added
/// file is read from the target, a modified or retyped one gets `.old`
/// from the source and `.new` from the target, and a renamed or copied one
/// gets `.old` from its original path; otherwise the target version is
/// written under the file's own path.
pub open spec fn two_way_steps_ok(
    f: DiffFile,
    steps: Seq<CopyStep>,
    copy_deleted: bool,
    both_versions: bool,
    ts: bool,
) -> bool {
    let p = f.path@;
    let op = match f.original_path {
        Some(o) => o@,
        None => p,
    };
    match f.status {
        FileStatus::Deleted => if copy_deleted {
            steps.len() == 1 && step_is(steps[0], Side::Source, p, with_extension(p, "deleted"@), ts)
        } else {
            steps.len() == 0
        },
        FileStatus::Unchanged => steps.len() == 0,
        FileStatus::Added => steps.len() == 1 && step_is(steps[0], Side::Target, p, p, ts),
        FileStatus::Modified | FileStatus::TypeChanged => if both_versions {
            steps.len() == 2 && step_is(steps[0], Side::Source, p, with_extension(p, "old"@), ts) && step_is(
                steps[1],
                Side::Target,
                p,
                with_extension(p, "new"@),
                ts,
            )
        } else {
            steps.len() == 1 && step_is(steps[0], Side::Target, p, p, ts)
        },
        FileStatus::Renamed | FileStatus::Copied => if both_versions {
            steps.len() == 2 && step_is(steps[0], Side::Source, op, with_extension(p, "old"@), ts) && step_is(
                steps[1],
                Side::Target,
                p,
                with_extension(p, "new"@),
                ts,
            )
        } else {
            steps.len() == 1 && step_is(steps[0], Side::Target, p, p, ts)
        },
    }
}

/// The suffix a three-way status gives the name of a copied file.
pub open spec fn copy_suffix(st: ThreeWayStatus) -> Seq<char> {
    match st {
        ThreeWayStatus::Unchanged => "unchanged"@,
        ThreeWayStatus::OursOnly => "ours-only"@,
        ThreeWayStatus::TheirsOnly => "theirs-only"@,
        ThreeWayStatus::BothSame => "both-same"@,
        ThreeWayStatus::Conflict => "conflict"@,
        ThreeWayStatus::AddedOurs => "added-ours"@,
        ThreeWayStatus::AddedTheirs => "added-theirs"@,
        ThreeWayStatus::AddedBothSame => "added-both-same"@,
        ThreeWayStatus::AddedBothDiff => "added-both-diff"@,
        ThreeWayStatus::DeletedOurs => "deleted-ours"@,
        ThreeWayStatus::DeletedTheirs => "deleted-theirs"@,
        ThreeWayStatus::DeletedBoth => "deleted-both"@,
        ThreeWayStatus::ModifyDelete => "modify-delete"@,
        ThreeWayStatus::DeleteModify => "delete-modify"@,
    }
}

/// The revision a three-way status is copied from, for the statuses that
/// are copied as one file: one-sided and agreeing changes from the side
/// that has them, a deletion on one side from base.
pub open spec fn three_way_target(st: ThreeWayStatus) -> Option<Side> {
    match st {
        ThreeWayStatus::OursOnly | ThreeWayStatus::AddedOurs => Some(Side::Ours),
        ThreeWayStatus::TheirsOnly | ThreeWayStatus::AddedTheirs => Some(Side::Theirs),
        ThreeWayStatus::BothSame | ThreeWayStatus::AddedBothSame => Some(Side::Ours),
        ThreeWayStatus::DeletedOurs | ThreeWayStatus::DeletedTheirs => Some(Side::Base),
        _ => None,
    }
}

/// The versions of a conflicting file that are written, as (side,
/// extension, present): base, ours and theirs for `All`, one side otherwise;
/// a version is written only where the side has the file.
pub open spec fn conflict_versions(f: ThreeWayDiffFile, style: MergeStyle) -> Seq<(Side, Seq<char>, bool)> {
    match style {
        MergeStyle::All => seq![
            (Side::Base, "base"@, f.base_blob is Some),
            (Side::Ours, "ours"@, f.ours_blob is Some),
            (Side::Theirs, "theirs"@, f.theirs_blob is Some),
        ],
        MergeStyle::Ours => seq![(Side::Ours, "ours"@, f.ours_blob is Some)],
        MergeStyle::Theirs => seq![(Side::Theirs, "theirs"@, f.theirs_blob is Some)],
    }
}

/// The versions of `vs` that are present, as steps to `stem` with the
/// version's extension.
pub open spec fn conflict_steps_ok(
    p: Seq<char>,
    stem: Seq<char>,
    vs: Seq<(Side, Seq<char>, bool)>,
    steps: Seq<CopyStep>,
) -> bool
    decreases vs.len(),
{
    if vs.len() == 0 {
        steps.len() == 0
    } else {
        let v = vs.last();
        if v.2 {
            steps.len() > 0 && step_is(steps.last(), v.0, p, with_extension(stem, v.1), false)
                && conflict_steps_ok(p, stem, vs.drop_last(), steps.drop_last())
        } else {
            conflict_steps_ok(p, stem, vs.drop_last(), steps)
        }
    }
}

/// The steps that copy one file of a three-way comparison, and whether it
/// counts as copied. The copy keeps the file's place in the tree and adds
/// the status to its name (`a.txt.ours-only`); a conflict adds the version
/// too (`a.txt.conflict.ours`), for the versions the merge style asks for.
/// Deletions on both sides and unchanged files are not copied.
pub open spec fn three_way_plan_ok(f: ThreeWayDiffFile, style: MergeStyle, steps: Seq<CopyStep>, counts: bool) -> bool {
    let p = f.path@;
    let stem = with_extension(p, copy_suffix(f.status));
    match three_way_target(f.status) {
        Some(side) => counts && steps.len() == 1 && step_is(steps[0], side, p, stem, false),
        None => if is_conflict_status(f.status) {
            counts && conflict_steps_ok(p, stem, conflict_versions(f, style), steps)
        } else {
            !counts && steps.len() == 0
        },
    }
}

/// Adding a version adds its step when it is present.
proof fn lemma_conflict_steps_push(
    p: Seq<char>,
    stem: Seq<char>,
    vs: Seq<(Side, Seq<char>, bool)>,
    steps: Seq<CopyStep>,
    v: (Side, Seq<char>, bool),
    step: CopyStep,
)
    requires
        conflict_steps_ok(p, stem, vs, steps),
        step_is(step, v.0, p, with_extension(stem, v.1), false),
    ensures
        conflict_steps_ok(p, stem, vs.push(v), if v.2 { steps.push(step) } else { steps }),
{
    assert(vs.push(v).drop_last() =~= vs);
    assert(steps.push(step).drop_last() =~= steps);
}

/// The files of a two-way comparison that are copied, in order.
pub open spec fn wanted_files(files: Seq<DiffFile>, filter: Seq<Seq<char>>, copy_deleted: bool) -> Seq<DiffFile>
    decreases files.len(),
{
    if files.len() == 0 {
        Seq::empty()
    } else {
        let prev = wanted_files(files.drop_last(), filter, copy_deleted);
        if copy_wanted(files.last(), filter, copy_deleted) {
            prev.push(files.last())
        } else {
            prev
        }
    }
}

/// The files of a three-way comparison that are copied, in order.
pub open spec fn wanted_three_way(files: Seq<ThreeWayDiffFile>, filter: Seq<Seq<char>>, conflict_only: bool) -> Seq<
    ThreeWayDiffFile,
>
    decreases files.len(),
{
    if files.len() == 0 {
        Seq::empty()
    } else {
        let prev = wanted_three_way(files.drop_last(), filter, conflict_only);
        if copy_wanted_three_way(files.last(), filter, conflict_only) {
            prev.push(files.last())
        } else {
            prev
        }
    }
}

/// The suffix of a three-way status, as text.
fn copy_suffix_text(st: ThreeWayStatus) -> (r: &'static str)
    ensures
        r@ == copy_suffix(st),
{
    match st {
        ThreeWayStatus::Unchanged => "unchanged",
        ThreeWayStatus::OursOnly => "ours-only",
        ThreeWayStatus::TheirsOnly => "theirs-only",
        ThreeWayStatus::BothSame => "both-same",
        ThreeWayStatus::Conflict => "conflict",
        ThreeWayStatus::AddedOurs => "added-ours",
        ThreeWayStatus::AddedTheirs => "added-theirs",
        ThreeWayStatus::AddedBothSame => "added-both-same",
        ThreeWayStatus::AddedBothDiff => "added-both-diff",
        ThreeWayStatus::DeletedOurs => "deleted-ours",
        ThreeWayStatus::DeletedTheirs => "deleted-theirs",
        ThreeWayStatus::DeletedBoth => "deleted-both",
        ThreeWayStatus::ModifyDelete => "modify-delete",
        ThreeWayStatus::DeleteModify => "delete-modify",
    }
}

/// Appends the characters of `s` to `out`.
fn push_text(out: &mut String, s: &str)
    ensures
        final(out)@ == old(out)@ + s@,
{
    let ghost start = out@;
    for c in it: s.chars()
        invariant
            it.seq() == s@,
            out@ == start + it.seq().take(it.index() as int),
    {
        proof {
            assert(it.seq().take(it.index() + 1) =~= it.seq().take(it.index() as int).push(c));
        }
        push_char(out, c);
    }
    assert(s@.take(s@.len() as int) =~= s@);
}

impl FileCopier {
    /// A copier with the copy settings of the configuration.
    pub fn new(config: &MergedConfig) -> (r: FileCopier)
        ensures
            r.dry_run == config.dry_run,
            r.copy_deleted == config.copy_deleted,
            r.both_versions == config.both_versions,
            r.preserve_timestamps == config.preserve_timestamps,
            r.filter_status@ == config.filter_status@,
            r.conflict_only == config.conflict_only,
            r.merge_style == config.merge_style,
    {
        let mut filter: Vec<String> = Vec::new();
        let mut i: usize = 0;
        while i < config.filter_status.len()
            invariant
                i <= config.filter_status@.len(),
                filter@ == config.filter_status@.take(i as int),
            decreases config.filter_status@.len() - i,
        {
            filter.push(config.filter_status[i].clone());
            assert(config.filter_status@.take(i + 1) =~= config.filter_status@.take(i as int).push(
                config.filter_status@[i as int],
            ));
            i += 1;
        }
        assert(config.filter_status@.take(config.filter_status@.len() as int) =~= config.filter_status@);
        FileCopier {
            dry_run: config.dry_run,
            copy_deleted: config.copy_deleted,
            both_versions: config.both_versions,
            preserve_timestamps: config.preserve_timestamps,
            filter_status: filter,
            conflict_only: config.conflict_only,
            merge_style: config.merge_style,
        }
    }

    /// `path` followed by a dot and `ext`, as in `file.txt.old`.
    pub fn add_extension(path: &str, ext: &str) -> (r: String)
        ensures
            r@ == with_extension(path@, ext@),
    {
        let mut r = String::new();
        push_text(&mut r, path);
        push_char(&mut r, '.');
        push_text(&mut r, ext);
        assert(r@ =~= with_extension(path@, ext@));
        r
    }

    /// Whether the status filter lets a status through.
    fn status_allowed(&self, st: FileStatus) -> (r: bool)
        ensures
            r == status_filter_allows(self.filter_status@.map_values(|e: String| e@), st),
    {
        let ghost f = self.filter_status@.map_values(|e: String| e@);
        if self.filter_status.len() == 0 {
            return true;
        }
        let mut named = false;
        let mut names_any = false;
        let mut excludes_any = false;
        let mut excluded = false;
        let mut i: usize = 0;
        while i < self.filter_status.len()
            invariant
                i <= self.filter_status@.len(),
                f == self.filter_status@.map_values(|e: String| e@),
                named == exists|j: int| 0 <= j < i && file_status_of_filter(#[trigger] f[j]) == Some(st),
                names_any == exists|j: int| 0 <= j < i && (#[trigger] file_status_of_filter(f[j])) is Some,
                excludes_any == exists|j: int| 0 <= j < i && two_way_exclusion(#[trigger] f[j]),
                excluded == exists|j: int| 0 <= j < i && two_way_excludes(#[trigger] f[j], st),
            decreases self.filter_status@.len() - i,
        {
            let v = chars_of(self.filter_status[i].as_str());
            assert(v@ == f[i as int]);
            let here = file_status_from_chars(&v);
            let there = if v.len() > 0 && v[0] == '^' {
                let rest = slice_chars(&v, 1, v.len());
                assert(rest@ =~= v@.drop_first());
                file_status_from_chars(&rest)
            } else {
                None
            };
            assert(there is Some <==> two_way_exclusion(f[i as int]));
            assert(forall|s: FileStatus| there == Some(s) <==> two_way_excludes(f[i as int], s));
            match here {
                Some(s) => {
                    names_any = true;
                    if s == st {
                        named = true;
                    }
                },
                None => {},
            }
            match there {
                Some(s) => {
                    excludes_any = true;
                    if s == st {
                        excluded = true;
                    }
                },
                None => {},
            }
            proof {
                assert(file_status_of_filter(f[i as int]) == here);
            }
            i += 1;
        }
        (named || (!names_any && excludes_any)) && !excluded
    }

    /// Whether a file of a two-way comparison is copied.
    pub fn should_copy(&self, file: &DiffFile) -> (r: bool)
        ensures
            r == copy_wanted(*file, self.filter_status@.map_values(|e: String| e@), self.copy_deleted),
    {
        if file.error.is_some() {
            return false;
        }
        if file.is_symlink || file.is_submodule {
            return false;
        }
        if !self.status_allowed(file.status) {
            return false;
        }
        match file.status {
            FileStatus::Deleted => self.copy_deleted,
            FileStatus::Unchanged => false,
            _ => true,
        }
    }

    /// Whether a file of a three-way comparison is copied.
    pub fn should_copy_three_way(&self, file: &ThreeWayDiffFile) -> (r: bool)
        ensures
            r == copy_wanted_three_way(*file, self.filter_status@.map_values(|e: String| e@), self.conflict_only),
    {
        if self.conflict_only && !file.status.is_conflict() {
            return false;
        }
        if self.filter_status.len() > 0 {
            let allowed = expand_filter_status_three_way(self.filter_status.as_slice());
            let mut found = false;
            let mut i: usize = 0;
            while i < allowed.len()
                invariant
                    i <= allowed@.len(),
                    found <==> exists|j: int| 0 <= j < i && allowed@[j] == file.status,
                decreases allowed@.len() - i,
            {
                if allowed[i] == file.status {
                    found = true;
                }
                i += 1;
            }
            proof {
                if allowed@.contains(file.status) {
                    let j = choose|j: int| 0 <= j < allowed@.len() && allowed@[j] == file.status;
                    assert(found);
                }
            }
            if !found {
                return false;
            }
        }
        file.status != ThreeWayStatus::Unchanged
    }

    /// The steps that copy one file of a two-way comparison.
    pub fn copy_file_steps(&self, file: &DiffFile) -> (r: Vec<CopyStep>)
        ensures
            two_way_steps_ok(*file, r@, self.copy_deleted, self.both_versions, self.preserve_timestamps),
    {
        let ts = self.preserve_timestamps;
        let p = file.path.as_str();
        let mut steps: Vec<CopyStep> = Vec::new();
        match file.status {
            FileStatus::Deleted => {
                if self.copy_deleted {
                    steps.push(CopyStep {
                        side: Side::Source,
                        repo_path: file.path.clone(),
                        dest: Self::add_extension(p, "deleted"),
                        set_timestamp: ts,
                    });
                }
            },
            FileStatus::Unchanged => {},
            FileStatus::Added => {
                steps.push(CopyStep { side: Side::Target, repo_path: file.path.clone(), dest: file.path.clone(), set_timestamp: ts });
            },
            FileStatus::Modified | FileStatus::TypeChanged | FileStatus::Renamed | FileStatus::Copied => {
                if self.both_versions {
                    let source_path = match (&file.status, &file.original_path) {
                        (FileStatus::Renamed, Some(o)) => o.clone(),
                        (FileStatus::Copied, Some(o)) => o.clone(),
                        _ => file.path.clone(),
                    };
                    steps.push(CopyStep {
                        side: Side::Source,
                        repo_path: source_path,
                        dest: Self::add_extension(p, "old"),
                        set_timestamp: ts,
                    });
                    steps.push(CopyStep {
                        side: Side::Target,
                        repo_path: file.path.clone(),
                        dest: Self::add_extension(p, "new"),
                        set_timestamp: ts,
                    });
                } else {
                    steps.push(
                        CopyStep { side: Side::Target, repo_path: file.path.clone(), dest: file.path.clone(), set_timestamp: ts },
                    );
                }
            },
        }
        steps
    }

    /// The steps that copy one file of a three-way comparison, and whether
    /// it counts as copied.
    pub fn copy_three_way_steps(&self, file: &ThreeWayDiffFile) -> (r: (Vec<CopyStep>, bool))
        ensures
            three_way_plan_ok(*file, self.merge_style, r.0@, r.1),
    {
        let p = file.path.as_str();
        let mut steps: Vec<CopyStep> = Vec::new();
        let whole = match file.status {
            ThreeWayStatus::OursOnly | ThreeWayStatus::AddedOurs => Some(Side::Ours),
            ThreeWayStatus::TheirsOnly | ThreeWayStatus::AddedTheirs => Some(Side::Theirs),
            ThreeWayStatus::BothSame | ThreeWayStatus::AddedBothSame => Some(Side::Ours),
            ThreeWayStatus::DeletedOurs | ThreeWayStatus::DeletedTheirs => Some(Side::Base),
            _ => None,
        };
        let stem = Self::add_extension(p, copy_suffix_text(file.status));
        match whole {
            Some(side) => {
                steps.push(CopyStep { side, repo_path: file.path.clone(), dest: stem, set_timestamp: false });
                return (steps, true);
            },
            None => {},
        }
        if !file.status.is_conflict() {
            return (steps, false);
        }
        let ghost q = stem@;
        let ghost vs = conflict_versions(*file, self.merge_style);
        let ghost e = Seq::<(Side, Seq<char>, bool)>::empty();
        match self.merge_style {
            MergeStyle::All => {
                let b = CopyStep { side: Side::Base, repo_path: file.path.clone(), dest: Self::add_extension(stem.as_str(), "base"), set_timestamp: false };
                let o = CopyStep { side: Side::Ours, repo_path: file.path.clone(), dest: Self::add_extension(stem.as_str(), "ours"), set_timestamp: false };
                let t = CopyStep { side: Side::Theirs, repo_path: file.path.clone(), dest: Self::add_extension(stem.as_str(), "theirs"), set_timestamp: false };
                let ghost s0 = steps@;
                proof {
                    lemma_conflict_steps_push(file.path@, q, e, s0, vs[0], b);
                }
                if file.base_blob.is_some() {
                    steps.push(b);
                }
                let ghost s1 = steps@;
                proof {
                    assert(e.push(vs[0]) =~= vs.take(1));
                    lemma_conflict_steps_push(file.path@, q, vs.take(1), s1, vs[1], o);
                }
                if file.ours_blob.is_some() {
                    steps.push(o);
                }
                let ghost s2 = steps@;
                proof {
                    assert(vs.take(1).push(vs[1]) =~= vs.take(2));
                    lemma_conflict_steps_push(file.path@, q, vs.take(2), s2, vs[2], t);
                }
                if file.theirs_blob.is_some() {
                    steps.push(t);
                }
                assert(vs.take(2).push(vs[2]) =~= vs);
            },
            MergeStyle::Ours => {
                let o = CopyStep { side: Side::Ours, repo_path: file.path.clone(), dest: Self::add_extension(stem.as_str(), "ours"), set_timestamp: false };
                proof {
                    lemma_conflict_steps_push(file.path@, q, e, steps@, vs[0], o);
                    assert(e.push(vs[0]) =~= vs);
                }
                if file.ours_blob.is_some() {
                    steps.push(o);
                }
            },
            MergeStyle::Theirs => {
                let t = CopyStep { side: Side::Theirs, repo_path: file.path.clone(), dest: Self::add_extension(stem.as_str(), "theirs"), set_timestamp: false };
                proof {
                    lemma_conflict_steps_push(file.path@, q, e, steps@, vs[0], t);
                    assert(e.push(vs[0]) =~= vs);
                }
                if file.theirs_blob.is_some() {
                    steps.push(t);
                }
            },
        }
        (steps, true)
    }
}

} // verus!

verus! {

/// What `chrono::DateTime::parse_from_str(s, fmt)` gives, as seconds since
/// the epoch (`timestamp`), or `None` when it refuses the text.
pub uninterp spec fn parsed_timestamp(s: Seq<char>, fmt: Seq<char>) -> Option<i64>;

/// `chrono::DateTime::parse_from_str`, then `DateTime::timestamp`: the
/// instant a text names in the given format, or `None`. Claims that the
/// answer depends on the text and the format alone.
#[verifier::external_body]
fn parse_timestamp(s: &str, fmt: &str) -> (r: Option<i64>)
    ensures
        r == parsed_timestamp(s@, fmt@),
{
    match chrono::DateTime::parse_from_str(s, fmt) {
        Ok(dt) => Some(dt.timestamp()),
        Err(_) => None,
    }
}

/// The files of a two-way comparison that are copied, with their steps.
pub open spec fn two_way_plans_ok(c: FileCopier, files: Seq<DiffFile>, plans: Seq<FilePlan>) -> bool {
    let wanted = wanted_files(files, c.filter_status@.map_values(|e: String| e@), c.copy_deleted);
    if c.dry_run {
        plans.len() == 0
    } else {
        &&& plans.len() == wanted.len()
        &&& forall|i: int|
            0 <= i < wanted.len() ==> {
                &&& (#[trigger] plans[i]).path@ == wanted[i].path@
                &&& plans[i].counts
                &&& two_way_steps_ok(
                    wanted[i],
                    plans[i].steps@,
                    c.copy_deleted,
                    c.both_versions,
                    c.preserve_timestamps,
                )
            }
    }
}

/// The files of a three-way comparison that are copied, with their steps.
pub open spec fn three_way_plans_ok(c: FileCopier, files: Seq<ThreeWayDiffFile>, plans: Seq<FilePlan>) -> bool {
    let wanted = wanted_three_way(files, c.filter_status@.map_values(|e: String| e@), c.conflict_only);
    if c.dry_run {
        plans.len() == 0
    } else {
        &&& plans.len() == wanted.len()
        &&& forall|i: int|
            0 <= i < wanted.len() ==> {
                &&& (#[trigger] plans[i]).path@ == wanted[i].path@
                &&& three_way_plan_ok(wanted[i], c.merge_style, plans[i].steps@, plans[i].counts)
            }
    }
}

/// Number of plans that count and whose steps all succeeded (`None`).
pub open spec fn copied_count(plans: Seq<FilePlan>, outcomes: Seq<Option<String>>) -> nat
    decreases plans.len(),
{
    if plans.len() == 0 {
        0
    } else {
        copied_count(plans.drop_last(), outcomes.drop_last()) + if plans.last().counts && outcomes.last() is None {
            1nat
        } else {
            0nat
        }
    }
}

/// One message per failed file, `path: error`, in order.
pub open spec fn failure_messages(plans: Seq<FilePlan>, outcomes: Seq<Option<String>>) -> Seq<Seq<char>>
    decreases plans.len(),
{
    if plans.len() == 0 {
        Seq::empty()
    } else {
        let prev = failure_messages(plans.drop_last(), outcomes.drop_last());
        match outcomes.last() {
            Some(e) => prev.push(plans.last().path@ + ": "@ + e@),
            None => prev,
        }
    }
}

impl FileCopier {
    /// The instant of a commit date as `git log --format=%ci` writes it,
    /// or `None` when the text is not such a date.
    pub fn commit_timestamp(date: &str) -> (r: Option<i64>)
        ensures
            r == parsed_timestamp(date@, "%Y-%m-%d %H:%M:%S %z"@),
    {
        parse_timestamp(date, "%Y-%m-%d %H:%M:%S %z")
    }

    /// What copying a two-way comparison writes: nothing in a dry run;
    /// otherwise the steps of each file that is copied, in order.
    pub fn plan_two_way(&self, files: &[DiffFile]) -> (r: Vec<FilePlan>)
        ensures
            two_way_plans_ok(*self, files@, r@),
    {
        let mut plans: Vec<FilePlan> = Vec::new();
        if self.dry_run {
            return plans;
        }
        let ghost f = self.filter_status@.map_values(|e: String| e@);
        let mut i: usize = 0;
        while i < files.len()
            invariant
                i <= files@.len(),
                !self.dry_run,
                f == self.filter_status@.map_values(|e: String| e@),
                plans@.len() == wanted_files(files@.take(i as int), f, self.copy_deleted).len(),
                forall|k: int|
                    0 <= k < plans@.len() ==> {
                        let w = wanted_files(files@.take(i as int), f, self.copy_deleted);
                        &&& (#[trigger] plans@[k]).path@ == w[k].path@
                        &&& plans@[k].counts
                        &&& two_way_steps_ok(
                            w[k],
                            plans@[k].steps@,
                            self.copy_deleted,
                            self.both_versions,
                            self.preserve_timestamps,
                        )
                    },
            decreases files@.len() - i,
        {
            proof {
                assert(files@.take(i + 1).drop_last() =~= files@.take(i as int));
                assert(files@.take(i + 1).last() == files@[i as int]);
            }
            let file = &files[i];
            if self.should_copy(file) {
                let steps = self.copy_file_steps(file);
                plans.push(FilePlan { path: file.path.clone(), steps, counts: true });
            }
            i += 1;
        }
        assert(files@.take(files@.len() as int) =~= files@);
        plans
    }

    /// What copying a three-way comparison writes: nothing in a dry run;
    /// otherwise the steps of each file that is copied, in order.
    pub fn plan_three_way(&self, files: &[ThreeWayDiffFile]) -> (r: Vec<FilePlan>)
        ensures
            three_way_plans_ok(*self, files@, r@),
    {
        let mut plans: Vec<FilePlan> = Vec::new();
        if self.dry_run {
            return plans;
        }
        let ghost f = self.filter_status@.map_values(|e: String| e@);
        let mut i: usize = 0;
        while i < files.len()
            invariant
                i <= files@.len(),
                !self.dry_run,
                f == self.filter_status@.map_values(|e: String| e@),
                plans@.len() == wanted_three_way(files@.take(i as int), f, self.conflict_only).len(),
                forall|k: int|
                    0 <= k < plans@.len() ==> {
                        let w = wanted_three_way(files@.take(i as int), f, self.conflict_only);
                        &&& (#[trigger] plans@[k]).path@ == w[k].path@
                        &&& three_way_plan_ok(w[k], self.merge_style, plans@[k].steps@, plans@[k].counts)
                    },
            decreases files@.len() - i,
        {
            proof {
                assert(files@.take(i + 1).drop_last() =~= files@.take(i as int));
                assert(files@.take(i + 1).last() == files@[i as int]);
            }
            let file = &files[i];
            if self.should_copy_three_way(file) {
                let (steps, counts) = self.copy_three_way_steps(file);
                plans.push(FilePlan { path: file.path.clone(), steps, counts });
            }
            i += 1;
        }
        assert(files@.take(files@.len() as int) =~= files@);
        plans
    }

    /// The number of files copied and the messages of those that failed,
    /// from the outcome of each plan (`None` when all its steps succeeded,
    /// else the error's text).
    pub fn tally(plans: &[FilePlan], outcomes: &[Option<String>]) -> (r: (usize, Vec<String>))
        requires
            plans@.len() == outcomes@.len(),
        ensures
            r.0 == copied_count(plans@, outcomes@),
            texts(r.1@) == failure_messages(plans@, outcomes@),
    {
        let mut count: usize = 0;
        let mut errors: Vec<String> = Vec::new();
        let mut i: usize = 0;
        while i < plans.len()
            invariant
                i <= plans@.len(),
                plans@.len() == outcomes@.len(),
                count == copied_count(plans@.take(i as int), outcomes@.take(i as int)),
                count <= i,
                texts(errors@) == failure_messages(plans@.take(i as int), outcomes@.take(i as int)),
            decreases plans@.len() - i,
        {
            proof {
                assert(plans@.take(i + 1).drop_last() =~= plans@.take(i as int));
                assert(outcomes@.take(i + 1).drop_last() =~= outcomes@.take(i as int));
                assert(plans@.take(i + 1).last() == plans@[i as int]);
                assert(outcomes@.take(i + 1).last() == outcomes@[i as int]);
            }
            match &outcomes[i] {
                Some(e) => {
                    let mut m = String::new();
                    push_text(&mut m, plans[i].path.as_str());
                    push_text(&mut m, ": ");
                    push_text(&mut m, e.as_str());
                    let ghost before = errors@;
                    errors.push(m);
                    assert(texts(errors@) =~= texts(before).push(plans@[i as int].path@ + ": "@ + e@));
                },
                None => {
                    if plans[i].counts {
                        count = count + 1;
                    }
                },
            }
            i += 1;
        }
        assert(plans@.take(plans@.len() as int) =~= plans@);
        assert(outcomes@.take(outcomes@.len() as int) =~= outcomes@);
        (count, errors)
    }
}

} // verus!

verus! {

/// The blob a file has on a side of a three-way comparison.
pub open spec fn blob_on(f: ThreeWayDiffFile, side: Side) -> Option<Seq<char>> {
    match side {
        Side::Ours => opt_view(f.ours_blob),
        Side::Theirs => opt_view(f.theirs_blob),
        _ => opt_view(f.base_blob),
    }
}

/// The other side of a three-way comparison.
pub open spec fn other_side(side: Side) -> Side {
    match side {
        Side::Ours => Side::Theirs,
        Side::Theirs => Side::Ours,
        other => other,
    }
}

/// A file changed on one side only is copied once, from the side that
/// changed it: that side's blob differs from base while the other side
/// still has base's. In particular theirs' one-sided changes are read from
/// theirs and ours' from ours, so swapping the sides swaps where the copy
/// is read from.
pub proof fn law_one_sided_change_read_from_changed_side(
    f: ThreeWayDiffFile,
    style: MergeStyle,
    steps: Seq<CopyStep>,
    counts: bool,
)
    requires
        three_way_plan_ok(f, style, steps, counts),
        f.status == three_way_status_of(opt_view(f.base_blob), opt_view(f.ours_blob), opt_view(f.theirs_blob)),
        f.status == ThreeWayStatus::OursOnly || f.status == ThreeWayStatus::TheirsOnly
            || f.status == ThreeWayStatus::AddedOurs || f.status == ThreeWayStatus::AddedTheirs,
    ensures
        counts,
        steps.len() == 1,
        steps[0].side == Side::Ours || steps[0].side == Side::Theirs,
        blob_on(f, steps[0].side) != opt_view(f.base_blob),
        blob_on(f, other_side(steps[0].side)) == opt_view(f.base_blob),
        (f.status == ThreeWayStatus::TheirsOnly || f.status == ThreeWayStatus::AddedTheirs) ==> steps[0].side
            == Side::Theirs,
        (f.status == ThreeWayStatus::OursOnly || f.status == ThreeWayStatus::AddedOurs) ==> steps[0].side
            == Side::Ours,
        steps[0].repo_path@ == f.path@,
{
}

/// Outside both-versions mode a two-way copy of a file that is not deleted
/// writes the target revision's content under the file's own path; a
/// deleted file, the only one read from the source, goes to `.deleted`.
pub proof fn law_plain_copy_reads_target(
    f: DiffFile,
    steps: Seq<CopyStep>,
    copy_deleted: bool,
    ts: bool,
)
    requires
        two_way_steps_ok(f, steps, copy_deleted, false, ts),
    ensures
        f.status != FileStatus::Deleted ==> forall|k: int|
            0 <= k < steps.len() ==> (#[trigger] steps[k]).side == Side::Target && steps[k].dest@ == f.path@
                && steps[k].repo_path@ == f.path@,
        f.status == FileStatus::Deleted ==> forall|k: int|
            0 <= k < steps.len() ==> (#[trigger] steps[k]).side == Side::Source && steps[k].dest@ == f.path@
                + ".deleted"@,
        (f.status != FileStatus::Deleted && f.status != FileStatus::Unchanged) ==> steps.len() == 1,
{
    reveal_strlit(".deleted");
    reveal_strlit("deleted");
    if f.status == FileStatus::Deleted && steps.len() > 0 {
        assert(with_extension(f.path@, "deleted"@) =~= f.path@ + ".deleted"@);
    }
}

/// With both versions a changed file that is neither added nor deleted is
/// copied twice under its new path: the source revision as `.old` and the
/// target revision as `.new`.
pub proof fn law_both_versions_old_from_source_new_from_target(
    f: DiffFile,
    steps: Seq<CopyStep>,
    copy_deleted: bool,
    ts: bool,
)
    requires
        two_way_steps_ok(f, steps, copy_deleted, true, ts),
        f.status == FileStatus::Modified || f.status == FileStatus::TypeChanged || f.status == FileStatus::Renamed
            || f.status == FileStatus::Copied,
    ensures
        steps.len() == 2,
        steps[0].side == Side::Source && steps[0].dest@ == f.path@ + ".old"@,
        steps[1].side == Side::Target && steps[1].dest@ == f.path@ + ".new"@ && steps[1].repo_path@ == f.path@,
{
    reveal_strlit(".old");
    reveal_strlit("old");
    reveal_strlit(".new");
    reveal_strlit("new");
    assert(with_extension(f.path@, "old"@) =~= f.path@ + ".old"@);
    assert(with_extension(f.path@, "new"@) =~= f.path@ + ".new"@);
}

/// With conflicts only, every file that a three-way copy takes conflicts.
pub proof fn law_conflict_only_copies_conflicts(files: Seq<ThreeWayDiffFile>, filter: Seq<Seq<char>>)
    ensures
        forall|i: int|
            0 <= i < wanted_three_way(files, filter, true).len() ==> is_conflict_status(
                #[trigger] wanted_three_way(files, filter, true)[i].status,
            ),
    decreases files.len(),
{
    if files.len() > 0 {
        law_conflict_only_copies_conflicts(files.drop_last(), filter);
    }
}

/// A two-way copy never takes an unchanged file, a link, a submodule or a
/// file with an error, and takes a deleted one only when asked.
pub proof fn law_copied_files_are_changes(files: Seq<DiffFile>, filter: Seq<Seq<char>>, copy_deleted: bool)
    ensures
        forall|i: int|
            0 <= i < wanted_files(files, filter, copy_deleted).len() ==> {
                let f = #[trigger] wanted_files(files, filter, copy_deleted)[i];
                &&& f.status != FileStatus::Unchanged
                &&& !f.is_symlink
                &&& !f.is_submodule
                &&& f.error is None
                &&& (f.status == FileStatus::Deleted ==> copy_deleted)
            },
    decreases files.len(),
{
    if files.len() > 0 {
        law_copied_files_are_changes(files.drop_last(), filter, copy_deleted);
    }
}

} // verus!
