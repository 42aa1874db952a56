//! The decisions of a run: whether the output folder may be used, where
//! the repository is, which files the reports show, and the exit code.

use vstd::prelude::*;
use crate::config::{MergedConfig, texts};
use crate::error::{AppError, ErrorView, ExitCode};
use crate::git::{Git, remote_url};
use crate::safety::{TargetOs, check_output_path, protected_path, validate_output_path};
use crate::types::{
    Statistics, ThreeWayDiffFile, ThreeWayStatistics, expand_filter_status_three_way, filter_allows,
    statistics_total, three_way_conflicts, three_way_total,
};

verus! {

/// What to do with the output folder before copying.
#[derive(Debug, Clone, Copy, PartialEq, Eq, Structural)]
pub enum OutputAction {
    /// Go on: the folder is new, or nothing is written.
    Proceed,
    /// Ask, then remove the existing folder.
    ConfirmAndRemove,
}

/// The decision on the output folder: with `--force`, a protected folder is
/// refused; an existing folder is removed after confirmation with
/// `--force` and refused without, unless nothing is written.
pub open spec fn output_decision(
    force: bool,
    dry_run: bool,
    exists: bool,
    output: Seq<char>,
    protected: bool,
) -> Result<OutputAction, ErrorView> {
    if force && protected {
        Err(ErrorView::ProtectedPath(output))
    } else if exists && !dry_run {
        if force {
            Ok(OutputAction::ConfirmAndRemove)
        } else {
            Err(ErrorView::OutputExists(output))
        }
    } else {
        Ok(OutputAction::Proceed)
    }
}

/// A result with its error viewed.
pub open spec fn result_view<T>(r: Result<T, AppError>) -> Result<T, ErrorView> {
    match r {
        Ok(v) => Ok(v),
        Err(e) => Err(e@),
    }
}

/// Where the repository is.
#[derive(Debug, Clone, PartialEq, Eq)]
pub enum RepoLocation {
    /// The current folder.
    CurrentDir,
    /// A local folder.
    Local(String),
}

/// What to do about the output folder, given the home directory: refuse
/// a protected folder when it is to be removed, refuse an existing one
/// unless it may be removed or nothing is written, and ask before removing.
pub fn decide_output_with_home(
    config: &MergedConfig,
    exists: bool,
    canonical: &str,
    home: Option<&str>,
    os: TargetOs,
) -> (r: Result<OutputAction, AppError>)
    ensures
        result_view(r) == output_decision(
            config.force,
            config.dry_run,
            exists,
            config.output@,
            protected_path(canonical@, match home { Some(h) => Some(h@), None => None }, os),
        ),
{
    if config.force {
        match check_output_path(config.output.as_str(), canonical, home, os) {
            Ok(()) => {},
            Err(e) => {
                return Err(e);
            },
        }
    }
    if exists && !config.dry_run {
        if config.force {
            Ok(OutputAction::ConfirmAndRemove)
        } else {
            Err(AppError::OutputExists(config.output.clone()))
        }
    } else {
        Ok(OutputAction::Proceed)
    }
}

/// What to do about the output folder, by the protection rule for the
/// home directory read from the environment.
pub fn decide_output(config: &MergedConfig, exists: bool, canonical: &str, os: TargetOs) -> (r: Result<
    OutputAction,
    AppError,
>)
    ensures
        exists|home: Option<Seq<char>>|
            result_view(r) == #[trigger] output_decision(
                config.force,
                config.dry_run,
                exists,
                config.output@,
                protected_path(canonical@, home, os),
            ),
{
    if config.force {
        let v = validate_output_path(config.output.as_str(), canonical, os);
        let ghost home = choose|home: Option<Seq<char>>| (#[trigger] protected_path(canonical@, home, os)) == (v is Err);
        match v {
            Ok(()) => {
                let r = if exists && !config.dry_run {
                    Ok(OutputAction::ConfirmAndRemove)
                } else {
                    Ok(OutputAction::Proceed)
                };
                assert(result_view(r) == output_decision(
                    config.force,
                    config.dry_run,
                    exists,
                    config.output@,
                    protected_path(canonical@, home, os),
                ));
                return r;
            },
            Err(e) => {
                let r: Result<OutputAction, AppError> = Err(e);
                assert(result_view(r) == output_decision(
                    config.force,
                    config.dry_run,
                    exists,
                    config.output@,
                    protected_path(canonical@, home, os),
                ));
                return r;
            },
        }
    }
    let r = if exists && !config.dry_run {
        Err(AppError::OutputExists(config.output.clone()))
    } else {
        Ok(OutputAction::Proceed)
    };
    assert(result_view(r) == output_decision(
        config.force,
        config.dry_run,
        exists,
        config.output@,
        protected_path(canonical@, None, os),
    ));
    r
}

/// Where the repository of the settings is: the given folder, or the
/// current one; a remote address is refused.
pub fn repo_location(repository: Option<&str>) -> (r: Result<RepoLocation, AppError>)
    ensures
        match repository {
            None => r == Ok::<RepoLocation, AppError>(RepoLocation::CurrentDir),
            Some(p) => if remote_url(p@) {
                r matches Err(e) && e@ == ErrorView::Other("Remote repository support is not yet implemented."@)
            } else {
                r matches Ok(RepoLocation::Local(l)) && l@ == p@
            },
        },
{
    match repository {
        Some(p) => {
            if Git::is_remote_url(p) {
                Err(AppError::Other("Remote repository support is not yet implemented.".to_owned()))
            } else {
                Ok(RepoLocation::Local(p.to_owned()))
            }
        },
        None => Ok(RepoLocation::CurrentDir),
    }
}

/// Where the combined patch is written: nowhere in a dry run, else the
/// file asked for, if any.
pub fn combined_patch_path(config: &MergedConfig) -> (r: Option<&str>)
    ensures
        match r {
            Some(p) => !config.dry_run && (config.patch_file matches Some(q) && p@ == q@),
            None => config.dry_run || config.patch_file is None,
        },
{
    if config.dry_run {
        return None;
    }
    match &config.patch_file {
        Some(p) => Some(p.as_str()),
        None => None,
    }
}

/// The exit code of a two-way comparison: no difference when every file
/// is unchanged, success otherwise.
pub fn two_way_exit(stats: &Statistics) -> (r: ExitCode)
    requires
        statistics_total(*stats) <= usize::MAX,
    ensures
        r == (if statistics_total(*stats) == stats.unchanged {
            ExitCode::NoDifference
        } else {
            ExitCode::Success
        }),
{
    if stats.total() == stats.unchanged {
        ExitCode::NoDifference
    } else {
        ExitCode::Success
    }
}

/// The exit code of a three-way comparison: no difference when every file
/// is unchanged, a conflict when some file conflicts, success otherwise.
pub fn three_way_exit(stats: &ThreeWayStatistics) -> (r: ExitCode)
    requires
        three_way_total(*stats) <= usize::MAX,
    ensures
        r == (if three_way_total(*stats) == stats.unchanged {
            ExitCode::NoDifference
        } else if three_way_conflicts(*stats) > 0 {
            ExitCode::Conflict
        } else {
            ExitCode::Success
        }),
{
    if stats.total() == stats.unchanged {
        ExitCode::NoDifference
    } else if stats.conflicts() > 0 {
        ExitCode::Conflict
    } else {
        ExitCode::Success
    }
}

/// The files a status filter shows, in order.
pub open spec fn shown_files(files: Seq<ThreeWayDiffFile>, filter: Seq<Seq<char>>) -> Seq<ThreeWayDiffFile>
    decreases files.len(),
{
    if files.len() == 0 {
        Seq::empty()
    } else {
        let prev = shown_files(files.drop_last(), filter);
        if filter_allows(filter, files.last().status) {
            prev.push(files.last())
        } else {
            prev
        }
    }
}

/// Optional bytes as a sequence.
pub open spec fn bytes_view(b: Option<Vec<u8>>) -> Option<Seq<u8>> {
    match b {
        Some(v) => Some(v@),
        None => None,
    }
}

/// Two records hold the same values.
pub open spec fn same_record(a: ThreeWayDiffFile, b: ThreeWayDiffFile) -> bool {
    &&& a.path == b.path
    &&& a.status == b.status
    &&& a.base_blob == b.base_blob
    &&& a.ours_blob == b.ours_blob
    &&& a.theirs_blob == b.theirs_blob
    &&& bytes_view(a.base_content) == bytes_view(b.base_content)
    &&& bytes_view(a.ours_content) == bytes_view(b.ours_content)
    &&& bytes_view(a.theirs_content) == bytes_view(b.theirs_content)
    &&& a.base_size == b.base_size
    &&& a.ours_size == b.ours_size
    &&& a.theirs_size == b.theirs_size
    &&& a.error == b.error
}

/// The records of `a` hold the values of those of `b`, in order.
pub open spec fn same_records(a: Seq<ThreeWayDiffFile>, b: Seq<ThreeWayDiffFile>) -> bool {
    a.len() == b.len() && forall|i: int| 0 <= i < a.len() ==> same_record(#[trigger] a[i], b[i])
}

/// A copy of some bytes.
fn copy_bytes(b: &Option<Vec<u8>>) -> (r: Option<Vec<u8>>)
    ensures
        bytes_view(r) == bytes_view(*b),
{
    match b {
        Some(v) => {
            let mut out: Vec<u8> = Vec::new();
            let mut i: usize = 0;
            while i < v.len()
                invariant
                    i <= v@.len(),
                    out@ == v@.take(i as int),
                decreases v@.len() - i,
            {
                out.push(v[i]);
                assert(v@.take(i + 1) =~= v@.take(i as int).push(v@[i as int]));
                i += 1;
            }
            assert(v@.take(v@.len() as int) =~= v@);
            Some(out)
        },
        None => None,
    }
}

/// A copy of an optional text.
fn copy_text(t: &Option<String>) -> (r: Option<String>)
    ensures
        r == *t,
{
    match t {
        Some(s) => Some(s.clone()),
        None => None,
    }
}

/// A copy of a three-way record.
fn copy_record(f: &ThreeWayDiffFile) -> (r: ThreeWayDiffFile)
    ensures
        same_record(r, *f),
{
    ThreeWayDiffFile {
        path: f.path.clone(),
        status: f.status,
        base_blob: copy_text(&f.base_blob),
        ours_blob: copy_text(&f.ours_blob),
        theirs_blob: copy_text(&f.theirs_blob),
        base_content: copy_bytes(&f.base_content),
        ours_content: copy_bytes(&f.ours_content),
        theirs_content: copy_bytes(&f.theirs_content),
        base_size: f.base_size,
        ours_size: f.ours_size,
        theirs_size: f.theirs_size,
        error: copy_text(&f.error),
    }
}

/// The files the reports of a three-way comparison show: all of them, or
/// those whose status the filter lets through.
pub fn display_files(files: &[ThreeWayDiffFile], filter_status: &[String]) -> (r: Vec<ThreeWayDiffFile>)
    ensures
        filter_status@.len() == 0 ==> same_records(r@, files@),
        filter_status@.len() > 0 ==> same_records(r@, shown_files(files@, texts(filter_status@))),
{
    let ghost fl = texts(filter_status@);
    let mut out: Vec<ThreeWayDiffFile> = Vec::new();
    if filter_status.len() == 0 {
        let mut i: usize = 0;
        while i < files.len()
            invariant
                i <= files@.len(),
                same_records(out@, files@.take(i as int)),
            decreases files@.len() - i,
        {
            out.push(copy_record(&files[i]));
            assert(files@.take(i + 1) =~= files@.take(i as int).push(files@[i as int]));
            i += 1;
        }
        assert(files@.take(files@.len() as int) =~= files@);
        return out;
    }
    let allowed = expand_filter_status_three_way(filter_status);
    assert(filter_status@.map_values(|e: String| e@) =~= fl);
    let mut i: usize = 0;
    while i < files.len()
        invariant
            i <= files@.len(),
            fl == texts(filter_status@),
            forall|s| #[trigger] allowed@.contains(s) <==> filter_allows(fl, s),
            same_records(out@, shown_files(files@.take(i as int), fl)),
        decreases files@.len() - i,
    {
        proof {
            assert(files@.take(i + 1).drop_last() =~= files@.take(i as int));
            assert(files@.take(i + 1).last() == files@[i as int]);
        }
        let st = files[i].status;
        let mut found = false;
        let mut j: usize = 0;
        while j < allowed.len()
            invariant
                j <= allowed@.len(),
                found <==> exists|k: int| 0 <= k < j && allowed@[k] == st,
            decreases allowed@.len() - j,
        {
            if allowed[j] == st {
                found = true;
            }
            j += 1;
        }
        proof {
            if allowed@.contains(st) {
                let k = choose|k: int| 0 <= k < allowed@.len() && allowed@[k] == st;
                assert(found);
            }
        }
        if found {
            out.push(copy_record(&files[i]));
        }
        i += 1;
    }
    assert(files@.take(files@.len() as int) =~= files@);
    out
}

} // verus!
