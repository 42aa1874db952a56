//! What the tool asks git and how it reads the answers. Running the
//! commands is left to the caller, which hands back each command's output.

use vstd::prelude::*;
use crate::error::{AppError, ErrorView};
use crate::text::{
    before_first, contains_str, contains_text, cut_before, find_text, first_occurrence, slice_chars,
    chars_of, has_prefix, is_space, lines, lines_of, parse_u8, parsed_u8, push_chars, push_str,
    split_chars, split_on, splitn_blank, splitn_blanks, starts_with, string_of, trim, trimmed,
    words, words_of,
};
use crate::types::{DiffFile, FileStatus, fresh_diff_file, status_from_letter, status_of_field};

verus! {

/// What a finished git command left: whether it succeeded, its standard
/// output (raw and decoded, invalid UTF-8 replaced) and its standard error
/// (decoded).
#[derive(Debug, Clone)]
pub struct CommandOutput {
    pub success: bool,
    pub stdout: String,
    pub raw_stdout: Vec<u8>,
    pub stderr: String,
}

/// The git executable and the top directory of the repository it works in.
#[derive(Debug, Clone)]
pub struct Git {
    git_path: String,
    repo_path: String,
}

/// A parsed `git diff --name-status` line: status, path, original path of a
/// rename or copy, similarity.
pub type DiffLine = (FileStatus, String, Option<String>, Option<u8>);

/// The view of an optional string.
pub open spec fn opt_view(o: Option<String>) -> Option<Seq<char>> {
    match o {
        Some(s) => Some(s@),
        None => None,
    }
}

/// What a `git diff --name-status` line says: the status letter, then the
/// path, or for a rename or copy the similarity digits after the letter,
/// the old path and the new path, all separated by tabs.
pub open spec fn diff_line_meaning(line: Seq<char>) -> Option<(FileStatus, Seq<char>, Option<Seq<char>>, Option<u8>)> {
    if line.len() == 0 {
        None
    } else {
        let parts = split_on(line, '\t');
        let field = parts[0];
        match status_of_field(field) {
            None => None,
            Some(st) => if st == FileStatus::Renamed || st == FileStatus::Copied {
                if parts.len() >= 3 {
                    Some((st, parts[2], Some(parts[1]), parsed_u8(field.drop_first())))
                } else {
                    None
                }
            } else {
                if parts.len() >= 2 {
                    Some((st, parts[1], None, None))
                } else {
                    None
                }
            },
        }
    }
}

/// A parsed line matches its meaning.
pub open spec fn diff_line_agrees(
    r: (FileStatus, String, Option<String>, Option<u8>),
    m: (FileStatus, Seq<char>, Option<Seq<char>>, Option<u8>),
) -> bool {
    r.0 == m.0 && r.1@ == m.1 && opt_view(r.2) == m.2 && r.3 == m.3
}

/// What a `git ls-tree` line says: mode, object type, id and path split at
/// the first three blanks; the mode, the id and the trimmed path are kept.
pub open spec fn ls_tree_line_meaning(line: Seq<char>) -> Option<(Seq<char>, Seq<char>, Seq<char>)> {
    let parts = splitn_blank(line, 4);
    if parts.len() >= 4 {
        Some((parts[0], parts[2], trimmed(parts[3])))
    } else {
        None
    }
}

/// The git executable to use: the one given, when it exists; otherwise
/// the trimmed output of a successful `which git`; otherwise the first line,
/// trimmed, of a successful `where git`, when not blank.
pub open spec fn resolved_git_path(
    specified: Option<&str>,
    specified_exists: bool,
    which: Option<&CommandOutput>,
    where_output: Option<&CommandOutput>,
) -> Option<Seq<char>> {
    match specified {
        Some(p) => if specified_exists {
            Some(p@)
        } else {
            None
        },
        None => if which is Some && which.unwrap().success {
            Some(trimmed(which.unwrap().stdout@))
        } else if where_output is Some && where_output.unwrap().success && lines_of(
            where_output.unwrap().stdout@,
        ).len() > 0 && trimmed(lines_of(where_output.unwrap().stdout@)[0]).len() > 0 {
            Some(trimmed(lines_of(where_output.unwrap().stdout@)[0]))
        } else {
            None
        },
    }
}

/// URLs of remote repositories.
pub open spec fn remote_url(url: Seq<char>) -> bool {
    has_prefix(url, "https://"@) || has_prefix(url, "http://"@) || has_prefix(url, "git://"@)
        || has_prefix(url, "git@"@) || has_prefix(url, "ssh://"@)
}

/// The answer of a command whose output is wanted: the decoded standard
/// output when it succeeded, otherwise its standard error as a failure.
pub open spec fn command_answer(out: CommandOutput) -> Result<Seq<char>, AppError> {
    if out.success {
        Ok(out.stdout@)
    } else {
        Err(AppError::GitCommandFailed(out.stderr))
    }
}

/// A vector of strings matches a sequence of texts.
pub open spec fn strings_are(v: Seq<String>, s: Seq<Seq<char>>) -> bool {
    v.len() == s.len() && forall|i: int| 0 <= i < v.len() ==> #[trigger] v[i]@ == s[i]
}

/// Builds a vector of strings from literals.
fn strings(parts: &[&str]) -> (r: Vec<String>)
    ensures
        r@.len() == parts@.len(),
        forall|i: int| 0 <= i < parts@.len() ==> #[trigger] r@[i]@ == parts@[i]@,
{
    let mut r: Vec<String> = Vec::new();
    let mut i: usize = 0;
    while i < parts.len()
        invariant
            i <= parts@.len(),
            r@.len() == i,
            forall|j: int| 0 <= j < i ==> #[trigger] r@[j]@ == parts@[j]@,
        decreases parts@.len() - i,
    {
        let cs = chars_of(parts[i]);
        r.push(string_of(&cs));
        i += 1;
    }
    r
}

/// A copy of a string.
fn copy_string(s: &str) -> (r: String)
    ensures
        r@ == s@,
{
    let cs = chars_of(s);
    string_of(&cs)
}

impl Git {
    /// The git executable, as text.
    pub closed spec fn git_path_text(&self) -> Seq<char> {
        self.git_path@
    }

    /// The repository's top directory, as text.
    pub closed spec fn repo_path_text(&self) -> Seq<char> {
        self.repo_path@
    }

    /// A git instance for the repository whose top directory
    /// `git rev-parse --show-toplevel` reported in `toplevel`.
    pub fn new(git_path: String, toplevel: &CommandOutput) -> (r: Result<Git, AppError>)
        ensures
            toplevel.success ==> (r matches Ok(g) && g.git_path_text() == git_path@ && g.repo_path_text() == trimmed(toplevel.stdout@)),
            !toplevel.success ==> r == Err::<Git, AppError>(AppError::NotGitRepository),
    {
        if toplevel.success {
            let cs = chars_of(toplevel.stdout.as_str());
            let t = trim(&cs);
            Ok(Git { git_path, repo_path: string_of(&t) })
        } else {
            Err(AppError::NotGitRepository)
        }
    }

    /// The arguments that ask git for the repository's top directory.
    pub fn find_repo_root_args() -> (r: Vec<String>)
        ensures
            strings_are(r@, seq!["rev-parse"@, "--show-toplevel"@]),
    {
        let r = strings(&["rev-parse", "--show-toplevel"]);
        assert(strings_are(r@, seq!["rev-parse"@, "--show-toplevel"@]));
        r
    }

    /// The git executable to use: the one given, when it exists; otherwise
    /// the path that `which git` printed (or, failing that, the first line
    /// that `where git` printed, when not blank).
    pub fn resolve_git_path(
        specified: Option<&str>,
        specified_exists: bool,
        which: Option<&CommandOutput>,
        where_output: Option<&CommandOutput>,
    ) -> (r: Result<String, AppError>)
        ensures
            match resolved_git_path(specified, specified_exists, which, where_output) {
                Some(p) => r matches Ok(x) && x@ == p,
                None => r == Err::<String, AppError>(AppError::GitNotFound),
            },
    {
        match specified {
            Some(p) => {
                if specified_exists {
                    return Ok(copy_string(p));
                }
                return Err(AppError::GitNotFound);
            },
            None => {},
        }
        match which {
            Some(w) => {
                if w.success {
                    let cs = chars_of(w.stdout.as_str());
                    let t = trim(&cs);
                    return Ok(string_of(&t));
                }
            },
            None => {},
        }
        match where_output {
            Some(w) => {
                if w.success {
                    let cs = chars_of(w.stdout.as_str());
                    let ls = lines(&cs);
                    if ls.len() > 0 {
                        let t = trim(&ls[0]);
                        if t.len() > 0 {
                            return Ok(string_of(&t));
                        }
                    }
                }
            },
            None => {},
        }
        Err(AppError::GitNotFound)
    }

    /// The git executable.
    pub fn git_path(&self) -> (r: &str)
        ensures
            r@ == self.git_path_text(),
    {
        self.git_path.as_str()
    }

    /// The top directory of the repository.
    pub fn repo_path(&self) -> (r: &str)
        ensures
            r@ == self.repo_path_text(),
    {
        self.repo_path.as_str()
    }

    /// The standard output of a command that had to succeed, or its
    /// standard error as a failure.
    pub fn run_success(output: &CommandOutput) -> (r: Result<String, AppError>)
        ensures
            match command_answer(*output) {
                Ok(s) => r matches Ok(t) && t@ == s,
                Err(e) => r == Err::<String, AppError>(e),
            },
    {
        if output.success {
            Ok(output.stdout.clone())
        } else {
            Err(AppError::GitCommandFailed(output.stderr.clone()))
        }
    }

    /// The arguments that resolve a ref to a commit id.
    pub fn resolve_ref_args(ref_name: &str) -> (r: Vec<String>)
        ensures
            strings_are(r@, seq!["rev-parse"@, ref_name@]),
    {
        let mut r = strings(&["rev-parse"]);
        r.push(copy_string(ref_name));
        assert(strings_are(r@, seq!["rev-parse"@, ref_name@]));
        r
    }

    /// The commit id that `git rev-parse <ref>` printed: its output trimmed.
    /// A failed rev-parse, or an empty answer, means the ref is unknown.
    pub fn resolve_ref(ref_name: &str, output: &CommandOutput) -> (r: Result<String, AppError>)
        ensures
            match command_answer(*output) {
                Ok(s) => if trimmed(s).len() == 0 {
                    r matches Err(AppError::UnknownRevision(n)) && n@ == ref_name@
                } else {
                    r matches Ok(h) && h@ == trimmed(s)
                },
                Err(_) => r matches Err(AppError::UnknownRevision(n)) && n@ == ref_name@,
            },
    {
        let out = match Git::run_success(output) {
            Ok(o) => o,
            Err(_) => {
                return Err(AppError::UnknownRevision(copy_string(ref_name)));
            },
        };
        let cs = chars_of(out.as_str());
        let t = trim(&cs);
        if t.len() == 0 {
            return Err(AppError::UnknownRevision(copy_string(ref_name)));
        }
        Ok(string_of(&t))
    }

    /// The arguments of `git diff --name-status -M -C <source> <target>`.
    pub fn diff_name_status_args(source: &str, target: &str) -> (r: Vec<String>)
        ensures
            strings_are(r@, seq!["diff"@, "--name-status"@, "-M"@, "-C"@, source@, target@]),
    {
        let mut r = strings(&["diff", "--name-status", "-M", "-C"]);
        r.push(copy_string(source));
        r.push(copy_string(target));
        assert(strings_are(r@, seq!["diff"@, "--name-status"@, "-M"@, "-C"@, source@, target@]));
        r
    }

    /// The changed files that `git diff --name-status` listed, one per line
    /// that parses, in order.
    pub fn diff_name_status(output: &CommandOutput) -> (r: Result<Vec<DiffFile>, AppError>)
        ensures
            match command_answer(*output) {
                Ok(s) => r matches Ok(files) && diff_files_from(files@, name_status_entries(lines_of(s))),
                Err(e) => r == Err::<Vec<DiffFile>, AppError>(e),
            },
    {
        let out = Git::run_success(output)?;
        let cs = chars_of(out.as_str());
        let ls = lines(&cs);
        let ghost all = lines_of(out@);
        let mut files: Vec<DiffFile> = Vec::new();
        let mut i: usize = 0;
        while i < ls.len()
            invariant
                i <= ls@.len(),
                ls@.len() == all.len(),
                forall|j: int| 0 <= j < ls@.len() ==> #[trigger] ls@[j]@ == all[j],
                diff_files_from(files@, name_status_entries(all.take(i as int))),
            decreases ls@.len() - i,
        {
            assert(all.take(i + 1).drop_last() =~= all.take(i as int));
            assert(all.take(i + 1).last() == ls@[i as int]@);
            if ls[i].len() > 0 {
                match parse_diff_chars(&ls[i]) {
                    Some(entry) => {
                        let (status, path, original_path, similarity) = entry;
                        let mut file = DiffFile::new(path, status);
                        file.original_path = original_path;
                        file.similarity = similarity;
                        files.push(file);
                    },
                    None => {},
                }
            }
            i += 1;
        }
        assert(all.take(ls@.len() as int) =~= all);
        Ok(files)
    }

    /// The arguments of `git show <commit>:<path>`.
    pub fn show_args(commit: &str, path: &str) -> (r: Vec<String>)
        ensures
            strings_are(r@, seq!["show"@, commit@ + ":"@ + path@]),
    {
        let mut r = strings(&["show"]);
        let mut spec_chars: Vec<char> = Vec::new();
        push_str(&mut spec_chars, commit);
        push_str(&mut spec_chars, ":");
        push_str(&mut spec_chars, path);
        r.push(string_of(&spec_chars));
        assert(strings_are(r@, seq!["show"@, commit@ + ":"@ + path@]));
        r
    }

    /// The content that `git show` printed, or which file could not be had.
    pub fn show(commit: &str, path: &str, output: &CommandOutput) -> (r: Result<Vec<u8>, AppError>)
        ensures
            output.success ==> (r matches Ok(bytes) && bytes@ == output.raw_stdout@),
            !output.success ==> (r matches Err(AppError::FileGetFailed { path: p, commit: c }) && p@ == path@
                && c@ == commit@),
    {
        if output.success {
            Ok(output.raw_stdout.clone())
        } else {
            Err(AppError::FileGetFailed { path: copy_string(path), commit: copy_string(commit) })
        }
    }

    /// The arguments of `git ls-tree <commit> <path>`.
    pub fn ls_tree_args(commit: &str, path: &str) -> (r: Vec<String>)
        ensures
            strings_are(r@, seq!["ls-tree"@, commit@, path@]),
    {
        let mut r = strings(&["ls-tree"]);
        r.push(copy_string(commit));
        r.push(copy_string(path));
        assert(strings_are(r@, seq!["ls-tree"@, commit@, path@]));
        r
    }

    /// The mode that `git ls-tree <commit> <path>` printed: the first of at
    /// least four words, or `None` for an empty or shorter answer.
    pub fn ls_tree(output: &CommandOutput) -> (r: Result<Option<String>, AppError>)
        ensures
            match command_answer(*output) {
                Ok(s) => r matches Ok(m) && opt_view(m) == (if s.len() > 0 && words_of(s).len() >= 4 {
                    Some(words_of(s)[0])
                } else {
                    None::<Seq<char>>
                }),
                Err(e) => r == Err::<Option<String>, AppError>(e),
            },
    {
        let out = Git::run_success(output)?;
        let cs = chars_of(out.as_str());
        if cs.len() == 0 {
            return Ok(None);
        }
        let ws = words(&cs);
        if ws.len() >= 4 {
            Ok(Some(string_of(&ws[0])))
        } else {
            Ok(None)
        }
    }

    /// The arguments of `git ls-tree -r <commit>`.
    pub fn ls_tree_recursive_args(commit: &str) -> (r: Vec<String>)
        ensures
            strings_are(r@, seq!["ls-tree"@, "-r"@, commit@]),
    {
        let mut r = strings(&["ls-tree", "-r"]);
        r.push(copy_string(commit));
        assert(strings_are(r@, seq!["ls-tree"@, "-r"@, commit@]));
        r
    }

    /// The files of a commit that `git ls-tree -r` listed: each path with
    /// its mode and blob id, a later line for a path replacing an earlier one.
    pub fn ls_tree_recursive(output: &CommandOutput) -> (r: Result<TreeListing, AppError>)
        ensures
            match command_answer(*output) {
                Ok(s) => r matches Ok(t) && t.wf() && t@ == listing_of(lines_of(s)),
                Err(e) => r == Err::<TreeListing, AppError>(e),
            },
    {
        let out = Git::run_success(output)?;
        let cs = chars_of(out.as_str());
        let ls = lines(&cs);
        let ghost all = lines_of(out@);
        let mut listing = TreeListing::new();
        let mut i: usize = 0;
        while i < ls.len()
            invariant
                i <= ls@.len(),
                ls@.len() == all.len(),
                forall|j: int| 0 <= j < ls@.len() ==> #[trigger] ls@[j]@ == all[j],
                listing.wf(),
                listing@ == listing_of(all.take(i as int)),
            decreases ls@.len() - i,
        {
            assert(all.take(i + 1).drop_last() =~= all.take(i as int));
            assert(all.take(i + 1).last() == ls@[i as int]@);
            match parse_ls_tree_chars(&ls[i]) {
                Some(entry) => {
                    let (mode, blob, path) = entry;
                    listing.insert(path, mode, blob);
                },
                None => {},
            }
            i += 1;
        }
        assert(all.take(ls@.len() as int) =~= all);
        Ok(listing)
    }

    /// The arguments of `git log -1 --format=%ci <commit> [-- <path>]`.
    pub fn get_commit_date_args(commit: &str, path: Option<&str>) -> (r: Vec<String>)
        ensures
            path is None ==> strings_are(r@, seq!["log"@, "-1"@, "--format=%ci"@, commit@]),
            path matches Some(p) ==> strings_are(
                r@,
                seq!["log"@, "-1"@, "--format=%ci"@, commit@, "--"@, p@],
            ),
    {
        let mut r = strings(&["log", "-1", "--format=%ci"]);
        r.push(copy_string(commit));
        match path {
            Some(p) => {
                r.push(copy_string("--"));
                r.push(copy_string(p));
                assert(strings_are(r@, seq!["log"@, "-1"@, "--format=%ci"@, commit@, "--"@, p@]));
            },
            None => {
                assert(strings_are(r@, seq!["log"@, "-1"@, "--format=%ci"@, commit@]));
            },
        }
        r
    }

    /// The commit date that `git log` printed, trimmed.
    pub fn get_commit_date(output: &CommandOutput) -> (r: Result<String, AppError>)
        ensures
            match command_answer(*output) {
                Ok(s) => r matches Ok(d) && d@ == trimmed(s),
                Err(e) => r == Err::<String, AppError>(e),
            },
    {
        let out = Git::run_success(output)?;
        let cs = chars_of(out.as_str());
        let t = trim(&cs);
        Ok(string_of(&t))
    }

    /// The arguments of `git diff -M -C <source> <target> -- <path>`.
    pub fn diff_patch_args(source: &str, target: &str, path: &str) -> (r: Vec<String>)
        ensures
            strings_are(r@, seq!["diff"@, "-M"@, "-C"@, source@, target@, "--"@, path@]),
    {
        let mut r = strings(&["diff", "-M", "-C"]);
        r.push(copy_string(source));
        r.push(copy_string(target));
        r.push(copy_string("--"));
        r.push(copy_string(path));
        assert(strings_are(r@, seq!["diff"@, "-M"@, "-C"@, source@, target@, "--"@, path@]));
        r
    }

    /// The patch of one file: the output of `git diff` as it is.
    pub fn diff_patch(output: &CommandOutput) -> (r: Result<String, AppError>)
        ensures
            match command_answer(*output) {
                Ok(s) => r matches Ok(p) && p@ == s,
                Err(e) => r == Err::<String, AppError>(e),
            },
    {
        Git::run_success(output)
    }

    /// The arguments of `git diff -M -C <source> <target>`.
    pub fn diff_patch_all_args(source: &str, target: &str) -> (r: Vec<String>)
        ensures
            strings_are(r@, seq!["diff"@, "-M"@, "-C"@, source@, target@]),
    {
        let mut r = strings(&["diff", "-M", "-C"]);
        r.push(copy_string(source));
        r.push(copy_string(target));
        assert(strings_are(r@, seq!["diff"@, "-M"@, "-C"@, source@, target@]));
        r
    }

    /// The patch of all changes: the output of `git diff` as it is.
    pub fn diff_patch_all(output: &CommandOutput) -> (r: Result<String, AppError>)
        ensures
            match command_answer(*output) {
                Ok(s) => r matches Ok(p) && p@ == s,
                Err(e) => r == Err::<String, AppError>(e),
            },
    {
        Git::run_success(output)
    }

    /// Whether `url` names a remote repository (https, http, git, ssh or `git@`).
    pub fn is_remote_url(url: &str) -> (r: bool)
        ensures
            r == remote_url(url@),
    {
        let cs = chars_of(url);
        starts_with(&cs, "https://") || starts_with(&cs, "http://") || starts_with(&cs, "git://")
            || starts_with(&cs, "git@") || starts_with(&cs, "ssh://")
    }

    /// The arguments of `git clone`, shallow and without checkout unless a
    /// full clone is wanted.
    pub fn clone_remote_args(url: &str, dest: &str, shallow: bool) -> (r: Vec<String>)
        ensures
            shallow ==> strings_are(r@, seq!["clone"@, "--depth=1"@, "--no-checkout"@, url@, dest@]),
            !shallow ==> strings_are(r@, seq!["clone"@, url@, dest@]),
    {
        let mut r = strings(&["clone"]);
        if shallow {
            r.push(copy_string("--depth=1"));
            r.push(copy_string("--no-checkout"));
        }
        r.push(copy_string(url));
        r.push(copy_string(dest));
        proof {
            if shallow {
                assert(strings_are(r@, seq!["clone"@, "--depth=1"@, "--no-checkout"@, url@, dest@]));
            } else {
                assert(strings_are(r@, seq!["clone"@, url@, dest@]));
            }
        }
        r
    }

    /// The repository that `git clone` made in `dest`, or why the clone
    /// failed, as its standard error tells.
    pub fn clone_remote(git_path: String, url: &str, dest: &str, output: &CommandOutput) -> (r: Result<Git, AppError>)
        ensures
            output.success ==> (r matches Ok(g) && g.git_path_text() == git_path@ && g.repo_path_text() == dest@),
            !output.success ==> (r matches Err(e) && e@ == clone_failure(url@, output.stderr@)),
    {
        if output.success {
            return Ok(Git { git_path, repo_path: copy_string(dest) });
        }
        let err = chars_of(output.stderr.as_str());
        if contains_str(&err, "Authentication") || contains_str(&err, "Permission denied") {
            return Err(AppError::AuthenticationFailed(copy_string(url)));
        }
        if contains_str(&err, "Could not resolve host") {
            let u = chars_of(url);
            let h = host_of_url(&u);
            return Err(AppError::HostResolveFailed(string_of(&h)));
        }
        Err(AppError::CloneFailed(copy_string(url)))
    }

    /// The arguments of `git fetch [--depth=1] origin <ref>`.
    pub fn fetch_ref_args(ref_name: &str, shallow: bool) -> (r: Vec<String>)
        ensures
            shallow ==> strings_are(r@, seq!["fetch"@, "--depth=1"@, "origin"@, ref_name@]),
            !shallow ==> strings_are(r@, seq!["fetch"@, "origin"@, ref_name@]),
    {
        let mut r = strings(&["fetch"]);
        if shallow {
            r.push(copy_string("--depth=1"));
        }
        r.push(copy_string("origin"));
        r.push(copy_string(ref_name));
        proof {
            if shallow {
                assert(strings_are(r@, seq!["fetch"@, "--depth=1"@, "origin"@, ref_name@]));
            } else {
                assert(strings_are(r@, seq!["fetch"@, "origin"@, ref_name@]));
            }
        }
        r
    }

    /// Whether `git fetch` got the ref: a missing remote ref and other
    /// failures are told apart by the standard error.
    pub fn fetch_ref(ref_name: &str, output: &CommandOutput) -> (r: Result<(), AppError>)
        ensures
            output.success ==> r is Ok,
            !output.success && contains_text(output.stderr@, "couldn't find remote ref"@) ==> (r matches Err(
                AppError::RemoteRefFetchFailed(n),
            ) && n@ == ref_name@),
            !output.success && !contains_text(output.stderr@, "couldn't find remote ref"@) ==> (r matches Err(
                AppError::GitCommandFailed(m),
            ) && m@ == output.stderr@),
    {
        if output.success {
            return Ok(());
        }
        let err = chars_of(output.stderr.as_str());
        if contains_str(&err, "couldn't find remote ref") {
            return Err(AppError::RemoteRefFetchFailed(copy_string(ref_name)));
        }
        Err(AppError::GitCommandFailed(output.stderr.clone()))
    }

    /// Whether `git rev-parse --git-dir` ran and succeeded.
    pub fn is_valid_repository(output: Option<&CommandOutput>) -> (r: bool)
        ensures
            r == (output matches Some(o) && o.success),
    {
        match output {
            Some(o) => o.success,
            None => false,
        }
    }

    /// The arguments that check the repository.
    pub fn is_valid_repository_args() -> (r: Vec<String>)
        ensures
            strings_are(r@, seq!["rev-parse"@, "--git-dir"@]),
    {
        let r = strings(&["rev-parse", "--git-dir"]);
        assert(strings_are(r@, seq!["rev-parse"@, "--git-dir"@]));
        r
    }

    /// Parses one `git diff --name-status` line.
    pub fn parse_diff_line(line: &str) -> (r: Option<DiffLine>)
        ensures
            match diff_line_meaning(line@) {
                Some(m) => r matches Some(p) && diff_line_agrees(p, m),
                None => r is None,
            },
    {
        let cs = chars_of(line);
        parse_diff_chars(&cs)
    }

    /// Parses one `git ls-tree` line into mode, blob id and path.
    pub fn parse_ls_tree_line(line: &str) -> (r: Option<(String, String, String)>)
        ensures
            match ls_tree_line_meaning(line@) {
                Some(m) => r matches Some(p) && p.0@ == m.0 && p.1@ == m.1 && p.2@ == m.2,
                None => r is None,
            },
    {
        let cs = chars_of(line);
        parse_ls_tree_chars(&cs)
    }
}

/// The host of a URL, as a failed clone names it: the text after the
/// first `://` up to the next `://`, cut at the first `/`; the whole URL
/// when it has no `://`.
pub open spec fn url_host(url: Seq<char>) -> Seq<char> {
    match first_occurrence(url, "://"@) {
        None => url,
        Some(i) => before_first(before_first(url.skip(i + "://"@.len()), "://"@), "/"@),
    }
}

/// Why a clone failed, by its standard error: authentication, an unknown
/// host, or anything else.
pub open spec fn clone_failure(url: Seq<char>, stderr: Seq<char>) -> ErrorView {
    if contains_text(stderr, "Authentication"@) || contains_text(stderr, "Permission denied"@) {
        ErrorView::AuthenticationFailed(url)
    } else if contains_text(stderr, "Could not resolve host"@) {
        ErrorView::HostResolveFailed(url_host(url))
    } else {
        ErrorView::CloneFailed(url)
    }
}

/// The host of a URL, computed.
fn host_of_url(u: &Vec<char>) -> (r: Vec<char>)
    ensures
        r@ == url_host(u@),
{
    let n = u.len();
    match find_text(u, "://") {
        None => {
            let h = slice_chars(u, 0, n);
            assert(h@ =~= u@);
            h
        },
        Some(i) => {
            let sep = chars_of("://");
            let rest = slice_chars(u, i + sep.len(), u.len());
            assert(rest@ =~= u@.skip(i + "://"@.len()));
            let piece = cut_before(&rest, "://");
            cut_before(&piece, "/")
        },
    }
}

/// Parses a `git diff --name-status` line given as characters.
fn parse_diff_chars(cs: &Vec<char>) -> (r: Option<DiffLine>)
    ensures
        match diff_line_meaning(cs@) {
            Some(m) => r matches Some(p) && diff_line_agrees(p, m),
            None => r is None,
        },
{
    if cs.len() == 0 {
        return None;
    }
    let parts = split_chars(cs, '\t');
    let ghost ps = split_on(cs@, '\t');
    proof {
        crate::text::lemma_split_on_nonempty(cs@, '\t');
    }
    assert(parts@[0]@ == ps[0]);
    let field = &parts[0];
    if field.len() == 0 {
        return None;
    }
    let status = match status_from_letter(field[0]) {
        Some(s) => s,
        None => return None,
    };
    match status {
        FileStatus::Renamed | FileStatus::Copied => {
            if parts.len() >= 3 {
                let digits = crate::text::slice_chars(field, 1, field.len());
                assert(digits@ =~= ps[0].drop_first());
                let sim = parse_u8(&digits);
                assert(parts@[1]@ == ps[1]);
                assert(parts@[2]@ == ps[2]);
                Some((status, string_of(&parts[2]), Some(string_of(&parts[1])), sim))
            } else {
                None
            }
        },
        _ => {
            if parts.len() >= 2 {
                assert(parts@[1]@ == ps[1]);
                Some((status, string_of(&parts[1]), None, None))
            } else {
                None
            }
        },
    }
}

/// Parses a `git ls-tree` line given as characters.
fn parse_ls_tree_chars(cs: &Vec<char>) -> (r: Option<(String, String, String)>)
    ensures
        match ls_tree_line_meaning(cs@) {
            Some(m) => r matches Some(p) && p.0@ == m.0 && p.1@ == m.1 && p.2@ == m.2,
            None => r is None,
        },
{
    let parts = splitn_blanks(cs, 4);
    if parts.len() >= 4 {
        let path = trim(&parts[3]);
        Some((string_of(&parts[0]), string_of(&parts[2]), string_of(&path)))
    } else {
        None
    }
}

/// The meanings of the lines that parse, in order.
pub open spec fn name_status_entries(ls: Seq<Seq<char>>) -> Seq<(FileStatus, Seq<char>, Option<Seq<char>>, Option<u8>)>
    decreases ls.len(),
{
    if ls.len() == 0 {
        Seq::empty()
    } else {
        let prev = name_status_entries(ls.drop_last());
        match diff_line_meaning(ls.last()) {
            Some(m) => prev.push(m),
            None => prev,
        }
    }
}

/// The files are the entries, each a fresh record with its original path
/// and similarity set.
pub open spec fn diff_files_from(
    files: Seq<DiffFile>,
    entries: Seq<(FileStatus, Seq<char>, Option<Seq<char>>, Option<u8>)>,
) -> bool {
    &&& files.len() == entries.len()
    &&& forall|i: int| 0 <= i < files.len() ==> {
        let f = #[trigger] files[i];
        let e = entries[i];
        &&& f.path@ == e.1
        &&& f.status == e.0
        &&& opt_view(f.original_path) == e.2
        &&& f.similarity == e.3
        &&& f.source_mode is None
        &&& f.target_mode is None
        &&& !f.is_symlink
        &&& f.symlink_target is None
        &&& !f.is_submodule
        &&& f.source_blob is None
        &&& f.target_blob is None
        &&& f.source_content is None
        &&& f.target_content is None
        &&& f.error is None
    }
}

/// One file of a commit's tree.
#[derive(Debug, Clone)]
pub struct TreeEntry {
    pub path: String,
    pub mode: String,
    pub blob: String,
}

/// The files of a commit's tree, by path, each path at most once.
#[derive(Debug, Clone)]
pub struct TreeListing {
    pub entries: Vec<TreeEntry>,
}

/// The listing after the given lines: each parsed line sets its path's
/// mode and blob id.
pub open spec fn listing_of(ls: Seq<Seq<char>>) -> Map<Seq<char>, (Seq<char>, Seq<char>)>
    decreases ls.len(),
{
    if ls.len() == 0 {
        Map::empty()
    } else {
        let prev = listing_of(ls.drop_last());
        match ls_tree_line_meaning(ls.last()) {
            Some(m) => prev.insert(m.2, (m.0, m.1)),
            None => prev,
        }
    }
}

/// The map that a list of entries stands for.
pub open spec fn entries_view(entries: Seq<TreeEntry>) -> Map<Seq<char>, (Seq<char>, Seq<char>)> {
    Map::new(
        |p: Seq<char>| exists|i: int| 0 <= i < entries.len() && #[trigger] entries[i].path@ == p,
        |p: Seq<char>| {
            let i = choose|i: int| 0 <= i < entries.len() && #[trigger] entries[i].path@ == p;
            (entries[i].mode@, entries[i].blob@)
        },
    )
}

/// No path occurs twice among the entries.
pub open spec fn entries_unique(entries: Seq<TreeEntry>) -> bool {
    forall|i: int, j: int|
        0 <= i < entries.len() && 0 <= j < entries.len() && i != j
            ==> #[trigger] entries[i].path@ != #[trigger] entries[j].path@
}

/// With unique paths, the map holds each entry's mode and blob id.
pub proof fn lemma_entries_view_at(entries: Seq<TreeEntry>, i: int)
    requires
        entries_unique(entries),
        0 <= i < entries.len(),
    ensures
        entries_view(entries).contains_key(entries[i].path@),
        entries_view(entries)[entries[i].path@] == (entries[i].mode@, entries[i].blob@),
{
    let p = entries[i].path@;
    assert(entries_view(entries).dom().contains(p));
    let k = choose|k: int| 0 <= k < entries.len() && #[trigger] entries[k].path@ == p;
    assert(k == i);
}

impl View for TreeListing {
    type V = Map<Seq<char>, (Seq<char>, Seq<char>)>;

    open spec fn view(&self) -> Map<Seq<char>, (Seq<char>, Seq<char>)> {
        entries_view(self.entries@)
    }
}

impl TreeListing {
    /// No path occurs twice.
    pub open spec fn wf(&self) -> bool {
        entries_unique(self.entries@)
    }

    /// An empty listing.
    pub fn new() -> (r: TreeListing)
        ensures
            r.wf(),
            r@ == Map::<Seq<char>, (Seq<char>, Seq<char>)>::empty(),
    {
        let r = TreeListing { entries: Vec::new() };
        assert(r@ =~= Map::<Seq<char>, (Seq<char>, Seq<char>)>::empty());
        r
    }

    /// Position of `path` among the entries.
    pub fn find(&self, path: &str) -> (r: Option<usize>)
        requires
            self.wf(),
        ensures
            r matches Some(i) ==> i < self.entries@.len() && self.entries@[i as int].path@ == path@,
            r is None ==> !self@.contains_key(path@),
    {
        let mut i: usize = 0;
        while i < self.entries.len()
            invariant
                i <= self.entries@.len(),
                forall|j: int| 0 <= j < i ==> self.entries@[j].path@ != path@,
            decreases self.entries@.len() - i,
        {
            if self.entries[i].path.eq(&copy_string(path)) {
                return Some(i);
            }
            i += 1;
        }
        None
    }

    /// Mode and blob id of `path`, when listed.
    pub fn get(&self, path: &str) -> (r: Option<(String, String)>)
        requires
            self.wf(),
        ensures
            match r {
                Some(p) => self@.contains_key(path@) && self@[path@] == (p.0@, p.1@),
                None => !self@.contains_key(path@),
            },
    {
        match self.find(path) {
            Some(i) => {
                proof {
                    lemma_entries_view_at(self.entries@, i as int);
                }
                Some((self.entries[i].mode.clone(), self.entries[i].blob.clone()))
            },
            None => None,
        }
    }

    /// Sets the mode and blob id of `path`.
    pub fn insert(&mut self, path: String, mode: String, blob: String)
        requires
            old(self).wf(),
        ensures
            final(self).wf(),
            final(self)@ == old(self)@.insert(path@, (mode@, blob@)),
    {
        let ghost p = path@;
        let ghost m = mode@;
        let ghost b = blob@;
        let ghost before = self@;
        match self.find(path.as_str()) {
            Some(i) => {
                let ghost old_entries = self.entries@;
                self.entries.set(i, TreeEntry { path, mode, blob });
                proof {
                    assert(self.wf()) by {
                        assert forall|x: int, y: int|
                            0 <= x < self.entries@.len() && 0 <= y < self.entries@.len() && x != y
                                implies #[trigger] self.entries@[x].path@ != #[trigger] self.entries@[y].path@ by {
                            if x != i && y != i {
                                assert(old_entries[x].path@ != old_entries[y].path@);
                            } else if x == i {
                                assert(old_entries[i as int].path@ != old_entries[y].path@);
                            } else {
                                assert(old_entries[x].path@ != old_entries[i as int].path@);
                            }
                        }
                    }
                    assert forall|q: Seq<char>| #[trigger] self@.contains_key(q) == before.insert(p, (m, b)).contains_key(q) by {
                        if before.contains_key(q) {
                            let k = choose|k: int| 0 <= k < old_entries.len() && #[trigger] old_entries[k].path@ == q;
                            if k == i {
                                assert(self.entries@[i as int].path@ == q);
                            } else {
                                assert(self.entries@[k].path@ == q);
                            }
                        }
                        if self@.contains_key(q) {
                            let k = choose|k: int| 0 <= k < self.entries@.len() && #[trigger] self.entries@[k].path@ == q;
                            if k != i {
                                assert(old_entries[k].path@ == q);
                            }
                        }
                        if q == p {
                            assert(self.entries@[i as int].path@ == q);
                        }
                    }
                    assert forall|q: Seq<char>| #[trigger] self@.contains_key(q) implies self@[q] == before.insert(p, (m, b))[q] by {
                        let k = choose|k: int| 0 <= k < self.entries@.len() && #[trigger] self.entries@[k].path@ == q;
                        lemma_entries_view_at(self.entries@, k);
                        if k != i {
                            lemma_entries_view_at(old_entries, k);
                        }
                    }
                    assert(self@ =~= before.insert(p, (m, b)));
                }
            },
            None => {
                let ghost old_entries = self.entries@;
                self.entries.push(TreeEntry { path, mode, blob });
                proof {
                    assert(self.wf()) by {
                        assert forall|x: int, y: int|
                            0 <= x < self.entries@.len() && 0 <= y < self.entries@.len() && x != y
                                implies #[trigger] self.entries@[x].path@ != #[trigger] self.entries@[y].path@ by {
                            let n = old_entries.len() as int;
                            if x == n {
                                assert(before.contains_key(old_entries[y].path@));
                            } else if y == n {
                                assert(before.contains_key(old_entries[x].path@));
                            } else {
                                assert(old_entries[x].path@ != old_entries[y].path@);
                            }
                        }
                    }
                    let n = old_entries.len() as int;
                    assert forall|q: Seq<char>| #[trigger] self@.contains_key(q) == before.insert(p, (m, b)).contains_key(q) by {
                        if before.contains_key(q) {
                            let k = choose|k: int| 0 <= k < old_entries.len() && #[trigger] old_entries[k].path@ == q;
                            assert(self.entries@[k].path@ == q);
                        }
                        if self@.contains_key(q) {
                            let k = choose|k: int| 0 <= k < self.entries@.len() && #[trigger] self.entries@[k].path@ == q;
                            if k != n {
                                assert(old_entries[k].path@ == q);
                            }
                        }
                        if q == p {
                            assert(self.entries@[n].path@ == q);
                        }
                    }
                    assert forall|q: Seq<char>| #[trigger] self@.contains_key(q) implies self@[q] == before.insert(p, (m, b))[q] by {
                        let k = choose|k: int| 0 <= k < self.entries@.len() && #[trigger] self.entries@[k].path@ == q;
                        lemma_entries_view_at(self.entries@, k);
                        if k != n {
                            lemma_entries_view_at(old_entries, k);
                        }
                    }
                    assert(self@ =~= before.insert(p, (m, b)));
                }
            },
        }
    }
}

} // verus!
