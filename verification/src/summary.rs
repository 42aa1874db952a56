//! The text summary of a comparison.

use vstd::prelude::*;
use crate::config::{MergedConfig, texts};
use crate::diff::{count_conflicting, count_status, statistics_of};
use crate::git::opt_view;
use crate::text::{chars_of, decimal_string, push_chars, push_decimal, push_str, string_of, trim};
use crate::tree::{
    FileTree, file_paths, items_shape, lemma_items_shape, render, render_items, three_way_paths, tree_of,
    tree_of_strings, tree_width, width_of,
};
use colored::Colorize;
use crate::types::{
    ColorMode, DiffFile, FileStatus, PermissionCheckMode, Statistics, ThreeWayDiffFile, ThreeWayStatistics,
    ThreeWayStatus, entry_is_exclusion, file_status_tag, is_conflict_status, permission_only, statistics_total, three_way_conflicts,
    three_way_indicator, three_way_tag, three_way_total,
};

verus! {

/// Number of bytes of a character in UTF-8.
pub open spec fn utf8_len(c: char) -> nat {
    if (c as u32) < 0x80 {
        1
    } else if (c as u32) < 0x800 {
        2
    } else if (c as u32) < 0x1_0000 {
        3
    } else {
        4
    }
}

/// The characters of `s` that fit in its first `n` bytes.
pub open spec fn byte_prefix(s: Seq<char>, n: nat) -> Seq<char>
    decreases s.len(),
{
    if s.len() == 0 || utf8_len(s[0]) > n {
        Seq::empty()
    } else {
        seq![s[0]] + byte_prefix(s.drop_first(), (n - utf8_len(s[0])) as nat)
    }
}

/// Byte `n` of `s` (or its end, if shorter) falls between characters, so
/// that `&s[..n.min(s.len())]` does not panic.
pub open spec fn prefix_on_boundary(s: Seq<char>, n: nat) -> bool
    decreases s.len(),
{
    if s.len() == 0 || n == 0 {
        true
    } else if utf8_len(s[0]) > n {
        false
    } else {
        prefix_on_boundary(s.drop_first(), (n - utf8_len(s[0])) as nat)
    }
}

/// The first `n` bytes of `s` (all of it when shorter).
pub fn short_prefix(s: &str, n: usize) -> (r: String)
    requires
        prefix_on_boundary(s@, n as nat),
    ensures
        r@ == byte_prefix(s@, n as nat),
{
    let cs = chars_of(s);
    let mut out: Vec<char> = Vec::new();
    let mut budget: usize = n;
    let mut i: usize = 0;
    assert(s@.skip(0) =~= s@);
    assert(Seq::<char>::empty() + byte_prefix(s@, n as nat) =~= byte_prefix(s@, n as nat));
    while i < cs.len()
        invariant_except_break
            cs@ == s@,
            i <= cs@.len(),
            out@ + byte_prefix(s@.skip(i as int), budget as nat) == byte_prefix(s@, n as nat),
            prefix_on_boundary(s@.skip(i as int), budget as nat),
        ensures
            out@ == byte_prefix(s@, n as nat),
        decreases cs@.len() - i,
    {
        let c = cs[i];
        let w: usize = if (c as u32) < 0x80 {
            1
        } else if (c as u32) < 0x800 {
            2
        } else if (c as u32) < 0x1_0000 {
            3
        } else {
            4
        };
        let ghost rest = s@.skip(i as int);
        proof {
            assert(rest[0] == c);
            assert(rest.drop_first() =~= s@.skip(i + 1));
            assert(w == utf8_len(c));
        }
        if w > budget {
            assert(byte_prefix(rest, budget as nat) =~= Seq::<char>::empty());
            assert(out@ + Seq::<char>::empty() =~= out@);
            break;
        }
        let ghost before = out@;
        out.push(c);
        budget = budget - w;
        proof {
            assert(before + byte_prefix(rest, (budget + w) as nat) =~= out@ + byte_prefix(
                s@.skip(i + 1),
                budget as nat,
            ));
        }
        i += 1;
    }
    proof {
        if i == cs@.len() {
            assert(s@.skip(i as int) =~= Seq::<char>::empty());
            assert(out@ + Seq::<char>::empty() =~= out@);
        }
    }
    string_of(&out)
}

} // verus!

verus! {

/// `k` spaces.
pub open spec fn spaces(k: nat) -> Seq<char> {
    Seq::new(k, |i: int| ' ')
}

/// `d` right-aligned in a field of `w` characters (`{:>w}`).
pub open spec fn right_aligned(d: Seq<char>, w: nat) -> Seq<char> {
    if d.len() < w {
        spaces((w - d.len()) as nat) + d
    } else {
        d
    }
}

/// A line of text when `on` holds, nothing otherwise.
pub open spec fn line_if(on: bool, line: Seq<char>) -> Seq<char> {
    if on {
        line
    } else {
        Seq::empty()
    }
}

/// The items joined with `sep` between them.
pub open spec fn joined(items: Seq<Seq<char>>, sep: Seq<char>) -> Seq<char>
    decreases items.len(),
{
    if items.len() == 0 {
        Seq::empty()
    } else if items.len() == 1 {
        items[0]
    } else {
        joined(items.drop_last(), sep) + sep + items.last()
    }
}

/// One line per exclusion pattern, as `    - pattern`.
pub open spec fn pattern_lines(ps: Seq<Seq<char>>) -> Seq<char>
    decreases ps.len(),
{
    if ps.len() == 0 {
        Seq::empty()
    } else {
        pattern_lines(ps.drop_last()) + "    - "@ + ps.last() + "\n"@
    }
}

/// How a permission-check mode is named in the summary.
pub open spec fn permission_mode_name(m: PermissionCheckMode) -> Seq<char> {
    match m {
        PermissionCheckMode::Off => "None"@,
        PermissionCheckMode::Scripts => "Scripts"@,
        PermissionCheckMode::All => "All"@,
    }
}

/// The switches among the options: dry run, both versions, deleted
/// files, timestamps.
pub open spec fn switch_lines(c: MergedConfig) -> Seq<char> {
    line_if(c.dry_run, "  Mode: Dry run (no files copied)\n"@) + line_if(
        c.both_versions,
        "  Copy mode: Both versions (.old/.new)\n"@,
    ) + line_if(c.copy_deleted, "  Copy deleted: Yes (.deleted)\n"@) + line_if(
        c.preserve_timestamps,
        "  Preserve timestamps: Yes\n"@,
    )
}

/// The permission check and the patch options.
pub open spec fn check_and_patch_lines(c: MergedConfig) -> Seq<char> {
    line_if(
        c.check_permissions != PermissionCheckMode::Off,
        "  Permission check: "@ + permission_mode_name(c.check_permissions) + "\n"@,
    ) + line_if(c.patch, "  Patch mode: Individual files (.patch)\n"@) + (match c.patch_file {
        Some(p) => "  Combined patch file: "@ + p@ + "\n"@,
        None => Seq::empty(),
    })
}

/// A status filter made only of exclusions (`^deleted`), which starts
/// from every status.
pub open spec fn only_exclusions(f: Seq<Seq<char>>) -> bool {
    f.len() > 0 && forall|i: int| 0 <= i < f.len() ==> entry_is_exclusion(#[trigger] f[i])
}

/// The status filter as the options show it; a filter of exclusions only
/// is shown after the `all` it starts from.
pub open spec fn filter_shown(f: Seq<Seq<char>>) -> Seq<char> {
    (if only_exclusions(f) {
        "all (implied), "@
    } else {
        Seq::empty()
    }) + joined(f, ", "@)
}

/// The status filter and the exclusion patterns.
pub open spec fn filter_lines(c: MergedConfig) -> Seq<char> {
    line_if(
        c.filter_status@.len() > 0,
        "  Filter status: "@ + filter_shown(texts(c.filter_status@)) + "\n"@,
    ) + line_if(c.exclude@.len() > 0, "  Exclude patterns:\n"@ + pattern_lines(texts(c.exclude@)))
}

/// The options section: one line per option that departs from the
/// default, then an empty line.
pub open spec fn options_text(c: MergedConfig) -> Seq<char> {
    "Options:\n"@ + switch_lines(c) + check_and_patch_lines(c) + filter_lines(c) + "\n"@
}

/// A count line such as `Added:         3 files`.
pub open spec fn count_line(label: Seq<char>, n: nat, unit: Seq<char>) -> Seq<char> {
    label + decimal_string(n) + unit
}

/// The statistics section of a two-way summary; the rarer counts appear
/// only when they are not zero.
pub open spec fn statistics_text(s: Statistics) -> Seq<char> {
    count_line("Added:         "@, s.added as nat, " files\n"@) + count_line(
        "Modified:      "@,
        s.modified as nat,
        " files\n"@,
    ) + count_line("Deleted:       "@, s.deleted as nat, " files\n"@) + count_line(
        "Renamed:       "@,
        s.renamed as nat,
        " files\n"@,
    ) + line_if(s.copied > 0, count_line("Copied:        "@, s.copied as nat, " files\n"@)) + line_if(
        s.type_changed > 0,
        count_line("Type changed:  "@, s.type_changed as nat, " files\n"@),
    ) + line_if(s.symlinks > 0, count_line("Symlinks:      "@, s.symlinks as nat, " files\n"@)) + line_if(
        s.submodules > 0,
        count_line("Submodules:    "@, s.submodules as nat, "\n"@),
    ) + line_if(
        s.permission_changes > 0,
        count_line("Permission changes: "@, s.permission_changes as nat, " files\n"@),
    ) + count_line("Unchanged:     "@, s.unchanged as nat, " files\n"@) + "--------------------------\n"@
        + count_line("Total:        "@, statistics_total(s) as nat, " items\n"@) + "\n"@
}

/// A row of the change matrix: the label, then the count right-aligned in
/// five columns.
pub open spec fn matrix_row(label: Seq<char>, n: nat) -> Seq<char> {
    label + right_aligned(decimal_string(n), 5) + "\n"@
}

/// The change matrix of a three-way summary.
pub open spec fn matrix_text(s: ThreeWayStatistics) -> Seq<char> {
    "================\nChange Matrix\n================\n"@ + "Status          | Count\n"@
        + "----------------|------\n"@ + matrix_row("Unchanged       | "@, s.unchanged as nat) + matrix_row(
        "Ours only       | "@,
        s.ours_only as nat,
    ) + matrix_row("Theirs only     | "@, s.theirs_only as nat) + matrix_row(
        "Both same       | "@,
        s.both_same as nat,
    ) + matrix_row("Conflict        | "@, s.conflict as nat) + matrix_row(
        "Added (ours)    | "@,
        s.added_ours as nat,
    ) + matrix_row("Added (theirs)  | "@, s.added_theirs as nat) + matrix_row(
        "Added (both)    | "@,
        (s.added_both_same + s.added_both_diff) as nat,
    ) + matrix_row("Deleted (ours)  | "@, s.deleted_ours as nat) + matrix_row(
        "Deleted (theirs)| "@,
        s.deleted_theirs as nat,
    ) + matrix_row("Deleted (both)  | "@, s.deleted_both as nat) + "--------------------------\n"@
        + matrix_row("Total           | "@, three_way_total(s) as nat) + matrix_row(
        "Conflicts       | "@,
        three_way_conflicts(s) as nat,
    ) + "\n"@
}

/// Appends `label`, the decimal count, and `unit`.
fn push_count(out: &mut Vec<char>, label: &str, n: usize, unit: &str)
    ensures
        final(out)@ == old(out)@ + count_line(label@, n as nat, unit@),
{
    let ghost start = out@;
    push_str(out, label);
    push_decimal(out, n as u64);
    push_str(out, unit);
    assert(out@ =~= start + count_line(label@, n as nat, unit@));
}

/// Appends a row of the change matrix.
fn push_matrix_row(out: &mut Vec<char>, label: &str, n: usize)
    ensures
        final(out)@ == old(out)@ + matrix_row(label@, n as nat),
{
    let ghost start = out@;
    let mut digits: Vec<char> = Vec::new();
    push_decimal(&mut digits, n as u64);
    assert(digits@ =~= decimal_string(n as nat));
    push_str(out, label);
    let mut k: usize = digits.len();
    while k < 5
        invariant
            digits@.len() <= k <= 5 || (digits@.len() > 5 && k == digits@.len()),
            out@ == start + label@ + spaces((k - digits@.len()) as nat),
        decreases 5 - k,
    {
        out.push(' ');
        assert(spaces((k + 1 - digits@.len()) as nat) =~= spaces((k - digits@.len()) as nat).push(' '));
        k += 1;
    }
    push_chars(out, &digits);
    push_str(out, "\n");
    assert(out@ =~= start + matrix_row(label@, n as nat));
}

/// Appends the lines of the exclusion patterns.
fn push_pattern_lines(out: &mut Vec<char>, ps: &Vec<String>)
    ensures
        final(out)@ == old(out)@ + pattern_lines(texts(ps@)),
{
    let ghost start = out@;
    let mut i: usize = 0;
    while i < ps.len()
        invariant
            i <= ps@.len(),
            out@ == start + pattern_lines(texts(ps@.take(i as int))),
        decreases ps@.len() - i,
    {
        let ghost before = out@;
        push_str(out, "    - ");
        push_str(out, ps[i].as_str());
        push_str(out, "\n");
        proof {
            let t = texts(ps@.take(i + 1));
            assert(t.drop_last() =~= texts(ps@.take(i as int)));
            assert(t.last() == ps@[i as int]@);
            assert(out@ =~= start + pattern_lines(t));
        }
        i += 1;
    }
    assert(ps@.take(ps@.len() as int) =~= ps@);
}

/// Appends the items joined with `, `.
fn push_joined(out: &mut Vec<char>, items: &Vec<String>)
    ensures
        final(out)@ == old(out)@ + joined(texts(items@), ", "@),
{
    let ghost start = out@;
    let mut i: usize = 0;
    while i < items.len()
        invariant
            i <= items@.len(),
            out@ == start + joined(texts(items@.take(i as int)), ", "@),
        decreases items@.len() - i,
    {
        if i > 0 {
            push_str(out, ", ");
        }
        push_str(out, items[i].as_str());
        proof {
            let t = texts(items@.take(i + 1));
            assert(t.drop_last() =~= texts(items@.take(i as int)));
            assert(t.last() == items@[i as int]@);
            if i == 0 {
                assert(t.len() == 1);
                assert(t[0] == items@[0]@);
            }
            assert(out@ =~= start + joined(t, ", "@));
        }
        i += 1;
    }
    assert(items@.take(items@.len() as int) =~= items@);
}

/// The switch lines of the options.
fn switch_chars(c: &MergedConfig) -> (r: Vec<char>)
    ensures
        r@ == switch_lines(*c),
{
    let mut out: Vec<char> = Vec::new();
    let ghost a = out@;
    assert(a =~= Seq::<char>::empty());
    if c.dry_run {
        push_str(&mut out, "  Mode: Dry run (no files copied)\n");
    }
    assert(out@ =~= a + line_if(c.dry_run, "  Mode: Dry run (no files copied)\n"@));
    let ghost a = out@;
    if c.both_versions {
        push_str(&mut out, "  Copy mode: Both versions (.old/.new)\n");
    }
    assert(out@ =~= a + line_if(c.both_versions, "  Copy mode: Both versions (.old/.new)\n"@));
    let ghost a = out@;
    if c.copy_deleted {
        push_str(&mut out, "  Copy deleted: Yes (.deleted)\n");
    }
    assert(out@ =~= a + line_if(c.copy_deleted, "  Copy deleted: Yes (.deleted)\n"@));
    let ghost a = out@;
    if c.preserve_timestamps {
        push_str(&mut out, "  Preserve timestamps: Yes\n");
    }
    assert(out@ =~= a + line_if(c.preserve_timestamps, "  Preserve timestamps: Yes\n"@));
    assert(out@ =~= switch_lines(*c));
    out
}

/// The permission and patch lines of the options.
fn check_and_patch_chars(c: &MergedConfig) -> (r: Vec<char>)
    ensures
        r@ == check_and_patch_lines(*c),
{
    let mut out: Vec<char> = Vec::new();
    let ghost a = out@;
    assert(a =~= Seq::<char>::empty());
    match c.check_permissions {
        PermissionCheckMode::Off => {},
        PermissionCheckMode::Scripts => {
            push_str(&mut out, "  Permission check: ");
            push_str(&mut out, "Scripts");
            push_str(&mut out, "\n");
        },
        PermissionCheckMode::All => {
            push_str(&mut out, "  Permission check: ");
            push_str(&mut out, "All");
            push_str(&mut out, "\n");
        },
    }
    assert(out@ =~= a + line_if(
        c.check_permissions != PermissionCheckMode::Off,
        "  Permission check: "@ + permission_mode_name(c.check_permissions) + "\n"@,
    ));
    let ghost a = out@;
    if c.patch {
        push_str(&mut out, "  Patch mode: Individual files (.patch)\n");
    }
    assert(out@ =~= a + line_if(c.patch, "  Patch mode: Individual files (.patch)\n"@));
    let ghost a = out@;
    match &c.patch_file {
        Some(p) => {
            push_str(&mut out, "  Combined patch file: ");
            push_str(&mut out, p.as_str());
            push_str(&mut out, "\n");
        },
        None => {},
    }
    assert(out@ =~= a + (match c.patch_file {
        Some(p) => "  Combined patch file: "@ + p@ + "\n"@,
        None => Seq::empty(),
    }));
    assert(out@ =~= check_and_patch_lines(*c));
    out
}

/// Whether every entry of a non-empty status filter is an exclusion.
fn all_exclusions(items: &Vec<String>) -> (r: bool)
    ensures
        r == only_exclusions(texts(items@)),
{
    if items.len() == 0 {
        return false;
    }
    let ghost f = texts(items@);
    let mut i: usize = 0;
    while i < items.len()
        invariant
            i <= items@.len(),
            f == texts(items@),
            forall|k: int| 0 <= k < i ==> entry_is_exclusion(#[trigger] f[k]),
        decreases items@.len() - i,
    {
        let e = chars_of(items[i].as_str());
        let t = trim(&e);
        assert(e@ == f[i as int]);
        if t.len() == 0 || t[0] != '^' {
            return false;
        }
        i += 1;
    }
    true
}

/// The filter and exclusion lines of the options.
fn filter_chars(c: &MergedConfig) -> (r: Vec<char>)
    ensures
        r@ == filter_lines(*c),
{
    let mut out: Vec<char> = Vec::new();
    let ghost a = out@;
    assert(a =~= Seq::<char>::empty());
    if c.filter_status.len() > 0 {
        push_str(&mut out, "  Filter status: ");
        if all_exclusions(&c.filter_status) {
            push_str(&mut out, "all (implied), ");
        }
        push_joined(&mut out, &c.filter_status);
        push_str(&mut out, "\n");
    }
    assert(out@ =~= a + line_if(
        c.filter_status@.len() > 0,
        "  Filter status: "@ + filter_shown(texts(c.filter_status@)) + "\n"@,
    ));
    let ghost a = out@;
    if c.exclude.len() > 0 {
        push_str(&mut out, "  Exclude patterns:\n");
        push_pattern_lines(&mut out, &c.exclude);
    }
    assert(out@ =~= a + line_if(c.exclude@.len() > 0, "  Exclude patterns:\n"@ + pattern_lines(texts(c.exclude@))));
    assert(out@ =~= filter_lines(*c));
    out
}

/// The options section.
pub fn options_chars(c: &MergedConfig) -> (r: Vec<char>)
    ensures
        r@ == options_text(*c),
{
    let mut out: Vec<char> = Vec::new();
    push_str(&mut out, "Options:\n");
    assert(out@ =~= "Options:\n"@);
    push_chars(&mut out, &switch_chars(c));
    push_chars(&mut out, &check_and_patch_chars(c));
    push_chars(&mut out, &filter_chars(c));
    push_str(&mut out, "\n");
    out
}

/// The statistics section of a two-way summary.
pub fn statistics_chars(s: &Statistics) -> (r: Vec<char>)
    requires
        statistics_total(*s) <= usize::MAX,
    ensures
        r@ == statistics_text(*s),
{
    let mut out: Vec<char> = Vec::new();
    push_count(&mut out, "Added:         ", s.added, " files\n");
    assert(out@ =~= count_line("Added:         "@, s.added as nat, " files\n"@));
    push_count(&mut out, "Modified:      ", s.modified, " files\n");
    push_count(&mut out, "Deleted:       ", s.deleted, " files\n");
    push_count(&mut out, "Renamed:       ", s.renamed, " files\n");
    let ghost a = out@;
    if s.copied > 0 {
        push_count(&mut out, "Copied:        ", s.copied, " files\n");
    }
    assert(out@ =~= a + line_if(s.copied > 0, count_line("Copied:        "@, s.copied as nat, " files\n"@)));
    let ghost a = out@;
    if s.type_changed > 0 {
        push_count(&mut out, "Type changed:  ", s.type_changed, " files\n");
    }
    assert(out@ =~= a + line_if(
        s.type_changed > 0,
        count_line("Type changed:  "@, s.type_changed as nat, " files\n"@),
    ));
    let ghost a = out@;
    if s.symlinks > 0 {
        push_count(&mut out, "Symlinks:      ", s.symlinks, " files\n");
    }
    assert(out@ =~= a + line_if(s.symlinks > 0, count_line("Symlinks:      "@, s.symlinks as nat, " files\n"@)));
    let ghost a = out@;
    if s.submodules > 0 {
        push_count(&mut out, "Submodules:    ", s.submodules, "\n");
    }
    assert(out@ =~= a + line_if(s.submodules > 0, count_line("Submodules:    "@, s.submodules as nat, "\n"@)));
    let ghost a = out@;
    if s.permission_changes > 0 {
        push_count(&mut out, "Permission changes: ", s.permission_changes, " files\n");
    }
    assert(out@ =~= a + line_if(
        s.permission_changes > 0,
        count_line("Permission changes: "@, s.permission_changes as nat, " files\n"@),
    ));
    push_count(&mut out, "Unchanged:     ", s.unchanged, " files\n");
    push_str(&mut out, "--------------------------\n");
    push_count(&mut out, "Total:        ", s.total(), " items\n");
    push_str(&mut out, "\n");
    out
}

/// The change matrix of a three-way summary.
pub fn matrix_chars(s: &ThreeWayStatistics) -> (r: Vec<char>)
    requires
        three_way_total(*s) <= usize::MAX,
    ensures
        r@ == matrix_text(*s),
{
    let mut out: Vec<char> = Vec::new();
    push_str(&mut out, "================\nChange Matrix\n================\n");
    assert(out@ =~= "================\nChange Matrix\n================\n"@);
    push_str(&mut out, "Status          | Count\n");
    push_str(&mut out, "----------------|------\n");
    push_matrix_row(&mut out, "Unchanged       | ", s.unchanged);
    push_matrix_row(&mut out, "Ours only       | ", s.ours_only);
    push_matrix_row(&mut out, "Theirs only     | ", s.theirs_only);
    push_matrix_row(&mut out, "Both same       | ", s.both_same);
    push_matrix_row(&mut out, "Conflict        | ", s.conflict);
    push_matrix_row(&mut out, "Added (ours)    | ", s.added_ours);
    push_matrix_row(&mut out, "Added (theirs)  | ", s.added_theirs);
    push_matrix_row(&mut out, "Added (both)    | ", s.added_both_same + s.added_both_diff);
    push_matrix_row(&mut out, "Deleted (ours)  | ", s.deleted_ours);
    push_matrix_row(&mut out, "Deleted (theirs)| ", s.deleted_theirs);
    push_matrix_row(&mut out, "Deleted (both)  | ", s.deleted_both);
    push_str(&mut out, "--------------------------\n");
    push_matrix_row(&mut out, "Total           | ", s.total());
    push_matrix_row(&mut out, "Conflicts       | ", s.conflicts());
    push_str(&mut out, "\n");
    out
}

} // verus!

verus! {

/// The sections of the details of a two-way summary, in their order.
#[derive(Debug, Clone, Copy, PartialEq, Eq, Structural)]
pub enum DetailKind {
    Added,
    Modified,
    Deleted,
    Renamed,
    Copied,
    Symlinks,
    Submodules,
    Permissions,
    Errors,
}

/// The heading of a details section.
pub open spec fn detail_title(k: DetailKind) -> Seq<char> {
    match k {
        DetailKind::Added => "Added Files"@,
        DetailKind::Modified => "Modified Files"@,
        DetailKind::Deleted => "Deleted Files"@,
        DetailKind::Renamed => "Renamed Files"@,
        DetailKind::Copied => "Copied Files"@,
        DetailKind::Symlinks => "Symlink Details"@,
        DetailKind::Submodules => "Submodule Details"@,
        DetailKind::Permissions => "Permission Changes"@,
        DetailKind::Errors => "Errors"@,
    }
}

/// A section heading between two rules, after an empty line.
pub open spec fn banner(title: Seq<char>) -> Seq<char> {
    "\n================\n"@ + title + "\n================\n"@
}

/// The file belongs in the section.
pub open spec fn in_section(f: DiffFile, k: DetailKind) -> bool {
    match k {
        DetailKind::Added => f.status == FileStatus::Added,
        DetailKind::Modified => f.status == FileStatus::Modified,
        DetailKind::Deleted => f.status == FileStatus::Deleted,
        DetailKind::Renamed => f.status == FileStatus::Renamed,
        DetailKind::Copied => f.status == FileStatus::Copied,
        DetailKind::Symlinks => f.is_symlink,
        DetailKind::Submodules => f.is_submodule,
        DetailKind::Permissions => permission_only(f),
        DetailKind::Errors => f.error is Some,
    }
}

/// The similarity note of a rename or copy, as ` (87% similar)`.
pub open spec fn similarity_note(s: Option<u8>) -> Seq<char> {
    match s {
        Some(n) => " ("@ + decimal_string(n as nat) + "% similar)"@,
        None => Seq::empty(),
    }
}

/// The line of a file in a section (nothing where the section needs a
/// value that the file lacks).
pub open spec fn detail_line(f: DiffFile, k: DetailKind) -> Seq<char> {
    match k {
        DetailKind::Renamed | DetailKind::Copied => match f.original_path {
            Some(o) => "  "@ + o@ + " -> "@ + f.path@ + similarity_note(f.similarity) + "\n"@,
            None => Seq::empty(),
        },
        DetailKind::Symlinks => match f.symlink_target {
            Some(t) => "  "@ + f.path@ + " -> "@ + t@ + "\n"@,
            None => Seq::empty(),
        },
        DetailKind::Submodules => "  "@ + f.path@ + "/\n"@,
        DetailKind::Permissions => match (f.source_mode, f.target_mode) {
            (Some(a), Some(b)) => f.path@ + ": "@ + a@ + " -> "@ + b@ + "\n"@,
            _ => Seq::empty(),
        },
        DetailKind::Errors => match f.error {
            Some(e) => "  "@ + f.path@ + " ("@ + e@ + ")\n"@,
            None => Seq::empty(),
        },
        _ => "  "@ + f.path@ + "\n"@,
    }
}

/// Some file belongs in the section.
pub open spec fn any_in_section(files: Seq<DiffFile>, k: DetailKind) -> bool
    decreases files.len(),
{
    files.len() > 0 && (any_in_section(files.drop_last(), k) || in_section(files.last(), k))
}

/// The lines of the files in the section, in order.
pub open spec fn section_lines(files: Seq<DiffFile>, k: DetailKind) -> Seq<char>
    decreases files.len(),
{
    if files.len() == 0 {
        Seq::empty()
    } else {
        section_lines(files.drop_last(), k) + line_if(in_section(files.last(), k), detail_line(files.last(), k))
    }
}

/// A details section: its heading and lines, when some file belongs in it.
pub open spec fn section_text(files: Seq<DiffFile>, k: DetailKind) -> Seq<char> {
    if any_in_section(files, k) {
        banner(detail_title(k)) + section_lines(files, k)
    } else {
        Seq::empty()
    }
}

/// The details of a two-way summary: added, modified, deleted, renamed and
/// copied files, then links, submodules, mode changes and errors.
pub open spec fn details_text(files: Seq<DiffFile>) -> Seq<char> {
    section_text(files, DetailKind::Added) + section_text(files, DetailKind::Modified) + section_text(
        files,
        DetailKind::Deleted,
    ) + section_text(files, DetailKind::Renamed) + section_text(files, DetailKind::Copied) + section_text(
        files,
        DetailKind::Symlinks,
    ) + section_text(files, DetailKind::Submodules) + section_text(files, DetailKind::Permissions)
        + section_text(files, DetailKind::Errors)
}

/// Whether a file belongs in a section.
fn belongs(f: &DiffFile, k: DetailKind) -> (r: bool)
    ensures
        r == in_section(*f, k),
{
    match k {
        DetailKind::Added => f.status == FileStatus::Added,
        DetailKind::Modified => f.status == FileStatus::Modified,
        DetailKind::Deleted => f.status == FileStatus::Deleted,
        DetailKind::Renamed => f.status == FileStatus::Renamed,
        DetailKind::Copied => f.status == FileStatus::Copied,
        DetailKind::Symlinks => f.is_symlink,
        DetailKind::Submodules => f.is_submodule,
        DetailKind::Permissions => f.is_permission_only_change(),
        DetailKind::Errors => f.error.is_some(),
    }
}

/// Appends the line of a file in a section.
fn push_detail_line(out: &mut Vec<char>, f: &DiffFile, k: DetailKind)
    ensures
        final(out)@ == old(out)@ + detail_line(*f, k),
{
    let ghost start = out@;
    match k {
        DetailKind::Renamed | DetailKind::Copied => {
            match &f.original_path {
                Some(o) => {
                    push_str(out, "  ");
                    push_str(out, o.as_str());
                    push_str(out, " -> ");
                    push_str(out, f.path.as_str());
                    let ghost mid = out@;
                    match f.similarity {
                        Some(n) => {
                            push_str(out, " (");
                            push_decimal(out, n as u64);
                            push_str(out, "% similar)");
                        },
                        None => {},
                    }
                    assert(out@ =~= mid + similarity_note(f.similarity));
                    push_str(out, "\n");
                },
                None => {},
            }
        },
        DetailKind::Symlinks => {
            match &f.symlink_target {
                Some(t) => {
                    push_str(out, "  ");
                    push_str(out, f.path.as_str());
                    push_str(out, " -> ");
                    push_str(out, t.as_str());
                    push_str(out, "\n");
                },
                None => {},
            }
        },
        DetailKind::Submodules => {
            push_str(out, "  ");
            push_str(out, f.path.as_str());
            push_str(out, "/\n");
        },
        DetailKind::Permissions => {
            match (&f.source_mode, &f.target_mode) {
                (Some(a), Some(b)) => {
                    push_str(out, f.path.as_str());
                    push_str(out, ": ");
                    push_str(out, a.as_str());
                    push_str(out, " -> ");
                    push_str(out, b.as_str());
                    push_str(out, "\n");
                },
                _ => {},
            }
        },
        DetailKind::Errors => {
            match &f.error {
                Some(e) => {
                    push_str(out, "  ");
                    push_str(out, f.path.as_str());
                    push_str(out, " (");
                    push_str(out, e.as_str());
                    push_str(out, ")\n");
                },
                None => {},
            }
        },
        _ => {
            push_str(out, "  ");
            push_str(out, f.path.as_str());
            push_str(out, "\n");
        },
    }
    assert(out@ =~= start + detail_line(*f, k));
}

/// One details section.
fn section_chars(files: &[DiffFile], k: DetailKind) -> (r: Vec<char>)
    ensures
        r@ == section_text(files@, k),
{
    let mut lines: Vec<char> = Vec::new();
    let mut any = false;
    let mut i: usize = 0;
    while i < files.len()
        invariant
            i <= files@.len(),
            lines@ == section_lines(files@.take(i as int), k),
            any == any_in_section(files@.take(i as int), k),
        decreases files@.len() - i,
    {
        proof {
            assert(files@.take(i + 1).drop_last() =~= files@.take(i as int));
            assert(files@.take(i + 1).last() == files@[i as int]);
        }
        let ghost before = lines@;
        if belongs(&files[i], k) {
            any = true;
            push_detail_line(&mut lines, &files[i], k);
        }
        assert(lines@ =~= before + line_if(in_section(files@[i as int], k), detail_line(files@[i as int], k)));
        i += 1;
    }
    assert(files@.take(files@.len() as int) =~= files@);
    let mut out: Vec<char> = Vec::new();
    if any {
        push_str(&mut out, "\n================\n");
        match k {
            DetailKind::Added => push_str(&mut out, "Added Files"),
            DetailKind::Modified => push_str(&mut out, "Modified Files"),
            DetailKind::Deleted => push_str(&mut out, "Deleted Files"),
            DetailKind::Renamed => push_str(&mut out, "Renamed Files"),
            DetailKind::Copied => push_str(&mut out, "Copied Files"),
            DetailKind::Symlinks => push_str(&mut out, "Symlink Details"),
            DetailKind::Submodules => push_str(&mut out, "Submodule Details"),
            DetailKind::Permissions => push_str(&mut out, "Permission Changes"),
            DetailKind::Errors => push_str(&mut out, "Errors"),
        }
        push_str(&mut out, "\n================\n");
        push_chars(&mut out, &lines);
        assert(out@ =~= banner(detail_title(k)) + section_lines(files@, k));
    } else {
        assert(out@ =~= Seq::<char>::empty());
    }
    out
}

/// The details of a two-way summary.
pub fn details_chars(files: &[DiffFile]) -> (r: Vec<char>)
    ensures
        r@ == details_text(files@),
{
    let mut out = section_chars(files, DetailKind::Added);
    push_chars(&mut out, &section_chars(files, DetailKind::Modified));
    push_chars(&mut out, &section_chars(files, DetailKind::Deleted));
    push_chars(&mut out, &section_chars(files, DetailKind::Renamed));
    push_chars(&mut out, &section_chars(files, DetailKind::Copied));
    push_chars(&mut out, &section_chars(files, DetailKind::Symlinks));
    push_chars(&mut out, &section_chars(files, DetailKind::Submodules));
    push_chars(&mut out, &section_chars(files, DetailKind::Permissions));
    push_chars(&mut out, &section_chars(files, DetailKind::Errors));
    out
}

/// The name of a three-way status as `{:?}` writes it.
pub open spec fn status_name(s: ThreeWayStatus) -> Seq<char> {
    match s {
        ThreeWayStatus::Unchanged => "Unchanged"@,
        ThreeWayStatus::OursOnly => "OursOnly"@,
        ThreeWayStatus::TheirsOnly => "TheirsOnly"@,
        ThreeWayStatus::BothSame => "BothSame"@,
        ThreeWayStatus::Conflict => "Conflict"@,
        ThreeWayStatus::AddedOurs => "AddedOurs"@,
        ThreeWayStatus::AddedTheirs => "AddedTheirs"@,
        ThreeWayStatus::AddedBothSame => "AddedBothSame"@,
        ThreeWayStatus::AddedBothDiff => "AddedBothDiff"@,
        ThreeWayStatus::DeletedOurs => "DeletedOurs"@,
        ThreeWayStatus::DeletedTheirs => "DeletedTheirs"@,
        ThreeWayStatus::DeletedBoth => "DeletedBoth"@,
        ThreeWayStatus::ModifyDelete => "ModifyDelete"@,
        ThreeWayStatus::DeleteModify => "DeleteModify"@,
    }
}

/// A blob line of a conflict: the label, the first eight bytes of the
/// blob id, and the size when known.
pub open spec fn blob_line(label: Seq<char>, blob: Option<String>, size: Option<usize>) -> Seq<char> {
    match blob {
        Some(b) => label + byte_prefix(b@, 8) + "..."@ + (match size {
            Some(n) => " ("@ + decimal_string(n as nat) + " bytes)"@,
            None => Seq::empty(),
        }) + "\n"@,
        None => Seq::empty(),
    }
}

/// The entry of the `n`-th conflict.
pub open spec fn conflict_entry(f: ThreeWayDiffFile, n: nat) -> Seq<char> {
    decimal_string(n) + ". "@ + f.path@ + "\n"@ + "   Type: "@ + status_name(f.status) + "\n"@ + blob_line(
        "   Base:   "@,
        f.base_blob,
        f.base_size,
    ) + blob_line("   Ours:   "@, f.ours_blob, f.ours_size) + blob_line("   Theirs: "@, f.theirs_blob, f.theirs_size)
        + "\n"@
}

/// The entries of the conflicting files, numbered from one.
pub open spec fn conflict_entries(files: Seq<ThreeWayDiffFile>) -> Seq<char>
    decreases files.len(),
{
    if files.len() == 0 {
        Seq::empty()
    } else {
        conflict_entries(files.drop_last()) + line_if(
            is_conflict_status(files.last().status),
            conflict_entry(files.last(), count_conflicting(files.drop_last()) + 1),
        )
    }
}

/// The conflict details of a three-way summary, when there is a conflict.
pub open spec fn conflict_details_text(files: Seq<ThreeWayDiffFile>) -> Seq<char> {
    if count_conflicting(files) > 0 {
        banner("Conflict Details"@) + conflict_entries(files)
    } else {
        Seq::empty()
    }
}

/// The blob ids of the conflicting files can be cut after eight bytes.
pub open spec fn conflict_blobs_cut(files: Seq<ThreeWayDiffFile>) -> bool {
    forall|i: int|
        0 <= i < files.len() ==> {
            &&& (#[trigger] files[i]).base_blob matches Some(b) ==> prefix_on_boundary(b@, 8)
            &&& files[i].ours_blob matches Some(b) ==> prefix_on_boundary(b@, 8)
            &&& files[i].theirs_blob matches Some(b) ==> prefix_on_boundary(b@, 8)
        }
}

/// Appends a blob line of a conflict.
fn push_blob_line(out: &mut Vec<char>, label: &str, blob: &Option<String>, size: Option<usize>)
    requires
        blob matches Some(b) ==> prefix_on_boundary(b@, 8),
    ensures
        final(out)@ == old(out)@ + blob_line(label@, *blob, size),
{
    let ghost start = out@;
    match blob {
        Some(b) => {
            push_str(out, label);
            let short = short_prefix(b.as_str(), 8);
            push_str(out, short.as_str());
            push_str(out, "...");
            let ghost mid = out@;
            match size {
                Some(n) => {
                    push_str(out, " (");
                    push_decimal(out, n as u64);
                    push_str(out, " bytes)");
                },
                None => {},
            }
            assert(out@ =~= mid + (match size {
                Some(n) => " ("@ + decimal_string(n as nat) + " bytes)"@,
                None => Seq::<char>::empty(),
            }));
            push_str(out, "\n");
        },
        None => {},
    }
    assert(out@ =~= start + blob_line(label@, *blob, size));
}

/// Appends the `{:?}` name of a three-way status.
fn push_status_name(out: &mut Vec<char>, s: ThreeWayStatus)
    ensures
        final(out)@ == old(out)@ + status_name(s),
{
    match s {
        ThreeWayStatus::Unchanged => push_str(out, "Unchanged"),
        ThreeWayStatus::OursOnly => push_str(out, "OursOnly"),
        ThreeWayStatus::TheirsOnly => push_str(out, "TheirsOnly"),
        ThreeWayStatus::BothSame => push_str(out, "BothSame"),
        ThreeWayStatus::Conflict => push_str(out, "Conflict"),
        ThreeWayStatus::AddedOurs => push_str(out, "AddedOurs"),
        ThreeWayStatus::AddedTheirs => push_str(out, "AddedTheirs"),
        ThreeWayStatus::AddedBothSame => push_str(out, "AddedBothSame"),
        ThreeWayStatus::AddedBothDiff => push_str(out, "AddedBothDiff"),
        ThreeWayStatus::DeletedOurs => push_str(out, "DeletedOurs"),
        ThreeWayStatus::DeletedTheirs => push_str(out, "DeletedTheirs"),
        ThreeWayStatus::DeletedBoth => push_str(out, "DeletedBoth"),
        ThreeWayStatus::ModifyDelete => push_str(out, "ModifyDelete"),
        ThreeWayStatus::DeleteModify => push_str(out, "DeleteModify"),
    }
}

/// The entry of the `n`-th conflict.
fn conflict_entry_chars(f: &ThreeWayDiffFile, n: usize) -> (r: Vec<char>)
    requires
        f.base_blob matches Some(b) ==> prefix_on_boundary(b@, 8),
        f.ours_blob matches Some(b) ==> prefix_on_boundary(b@, 8),
        f.theirs_blob matches Some(b) ==> prefix_on_boundary(b@, 8),
    ensures
        r@ == conflict_entry(*f, n as nat),
{
    let mut out: Vec<char> = Vec::new();
    push_decimal(&mut out, n as u64);
    assert(out@ =~= decimal_string(n as nat));
    push_str(&mut out, ". ");
    push_str(&mut out, f.path.as_str());
    push_str(&mut out, "\n");
    push_str(&mut out, "   Type: ");
    push_status_name(&mut out, f.status);
    push_str(&mut out, "\n");
    push_blob_line(&mut out, "   Base:   ", &f.base_blob, f.base_size);
    push_blob_line(&mut out, "   Ours:   ", &f.ours_blob, f.ours_size);
    push_blob_line(&mut out, "   Theirs: ", &f.theirs_blob, f.theirs_size);
    push_str(&mut out, "\n");
    out
}

/// The conflict details of a three-way summary.
pub fn conflict_details_chars(files: &[ThreeWayDiffFile]) -> (r: Vec<char>)
    requires
        conflict_blobs_cut(files@),
    ensures
        r@ == conflict_details_text(files@),
{
    let mut entries: Vec<char> = Vec::new();
    let mut count: usize = 0;
    let mut i: usize = 0;
    while i < files.len()
        invariant
            i <= files@.len(),
            conflict_blobs_cut(files@),
            entries@ == conflict_entries(files@.take(i as int)),
            count == count_conflicting(files@.take(i as int)),
            count <= i,
        decreases files@.len() - i,
    {
        proof {
            assert(files@.take(i + 1).drop_last() =~= files@.take(i as int));
            assert(files@.take(i + 1).last() == files@[i as int]);
        }
        let ghost before = entries@;
        if files[i].status.is_conflict() {
            count = count + 1;
            let e = conflict_entry_chars(&files[i], count);
            push_chars(&mut entries, &e);
        }
        assert(entries@ =~= before + line_if(
            is_conflict_status(files@[i as int].status),
            conflict_entry(files@[i as int], count_conflicting(files@.take(i as int)) + 1),
        ));
        i += 1;
    }
    assert(files@.take(files@.len() as int) =~= files@);
    let mut out: Vec<char> = Vec::new();
    if count > 0 {
        push_str(&mut out, "\n================\n");
        push_str(&mut out, "Conflict Details");
        push_str(&mut out, "\n================\n");
        push_chars(&mut out, &entries);
        assert(out@ =~= banner("Conflict Details"@) + conflict_entries(files@));
    } else {
        assert(out@ =~= Seq::<char>::empty());
    }
    out
}

/// The failed copies, when there are any.
pub open spec fn copy_errors_text(errors: Seq<Seq<char>>) -> Seq<char> {
    if errors.len() > 0 {
        "\n================\nCopy Failed\n================\n"@ + error_lines(errors)
    } else {
        Seq::empty()
    }
}

/// One indented line per failed copy.
pub open spec fn error_lines(errors: Seq<Seq<char>>) -> Seq<char>
    decreases errors.len(),
{
    if errors.len() == 0 {
        Seq::empty()
    } else {
        error_lines(errors.drop_last()) + "  "@ + errors.last() + "\n"@
    }
}

/// The section of failed copies.
pub fn copy_errors_chars(errors: &[String]) -> (r: Vec<char>)
    ensures
        r@ == copy_errors_text(texts(errors@)),
{
    let mut out: Vec<char> = Vec::new();
    if errors.len() == 0 {
        assert(out@ =~= copy_errors_text(texts(errors@)));
        return out;
    }
    push_str(&mut out, "\n================\nCopy Failed\n================\n");
    let ghost head = out@;
    let mut i: usize = 0;
    while i < errors.len()
        invariant
            i <= errors@.len(),
            out@ == head + error_lines(texts(errors@.take(i as int))),
        decreases errors@.len() - i,
    {
        let ghost before = out@;
        push_str(&mut out, "  ");
        push_str(&mut out, errors[i].as_str());
        push_str(&mut out, "\n");
        proof {
            let t = texts(errors@.take(i + 1));
            assert(t.drop_last() =~= texts(errors@.take(i as int)));
            assert(t.last() == errors@[i as int]@);
            assert(out@ =~= head + error_lines(t));
        }
        i += 1;
    }
    assert(errors@.take(errors@.len() as int) =~= errors@);
    out
}

} // verus!

verus! {

/// The width of a character by `unicode_width::UnicodeWidthChar::width`.
pub uninterp spec fn unicode_width_of(c: char) -> Option<usize>;

/// `UnicodeWidthChar::width` (unicode-width 0.1): the columns a character
/// takes, or `None` for a control character. Claims, as its source shows,
/// that the answer depends on the character alone, that it is at most 3,
/// that printable ASCII takes one column and that the C0 and C1 controls
/// have no width.
#[verifier::external_body]
fn char_width(c: char) -> (r: Option<usize>)
    ensures
        r == unicode_width_of(c),
        r matches Some(w) ==> w <= 3,
        0x20 <= (c as u32) < 0x7F ==> r == Some(1usize),
        ((c as u32) < 0x20 || (0x7F <= (c as u32) < 0xA0)) ==> r is None,
{
    unicode_width::UnicodeWidthChar::width(c)
}

/// The columns of a character on screen: box-drawing characters take two
/// columns, others what `unicode-width` says, controls none.
pub open spec fn char_columns(c: char) -> nat {
    if 0x2500 <= (c as u32) <= 0x257F {
        2
    } else {
        match unicode_width_of(c) {
            Some(w) => w as nat,
            None => 0,
        }
    }
}

/// The columns of a text: the sum over its characters.
pub open spec fn text_columns(s: Seq<char>) -> nat
    decreases s.len(),
{
    if s.len() == 0 {
        0
    } else {
        text_columns(s.drop_last()) + char_columns(s.last())
    }
}

/// The columns of a text as a `usize`, at most `usize::MAX`.
pub open spec fn display_columns(s: Seq<char>) -> nat {
    if text_columns(s) <= usize::MAX {
        text_columns(s)
    } else {
        usize::MAX as nat
    }
}

/// The columns of the given characters.
pub fn display_width_chars(s: &Vec<char>) -> (r: usize)
    ensures
        r == display_columns(s@),
{
    let mut total: usize = 0;
    let mut i: usize = 0;
    while i < s.len()
        invariant
            i <= s@.len(),
            total == display_columns(s@.take(i as int)),
        decreases s@.len() - i,
    {
        let c = s[i];
        let w: usize = if 0x2500 <= (c as u32) && (c as u32) <= 0x257F {
            2
        } else {
            match char_width(c) {
                Some(w) => w,
                None => 0,
            }
        };
        proof {
            assert(s@.take(i + 1).drop_last() =~= s@.take(i as int));
            assert(s@.take(i + 1).last() == c);
        }
        total = total.saturating_add(w);
        i += 1;
    }
    assert(s@.take(s@.len() as int) =~= s@);
    total
}

/// The columns a text takes on screen, box-drawing characters counted as
/// two (at most `usize::MAX`).
pub fn display_width(s: &str) -> (r: usize)
    ensures
        r == display_columns(s@),
{
    let cs = chars_of(s);
    display_width_chars(&cs)
}

} // verus!

verus! {

/// The foreground colors of the status tags.
#[derive(Debug, Clone, Copy, PartialEq, Eq, Structural)]
pub enum TagColor {
    Green,
    Blue,
    Red,
    Yellow,
    Cyan,
    Magenta,
}

/// The ANSI code of a foreground color.
pub open spec fn color_code(c: TagColor) -> Seq<char> {
    match c {
        TagColor::Red => "31"@,
        TagColor::Green => "32"@,
        TagColor::Yellow => "33"@,
        TagColor::Blue => "34"@,
        TagColor::Magenta => "35"@,
        TagColor::Cyan => "36"@,
    }
}

/// `s` between the escape sequence that sets style `code` and the one that
/// resets it.
pub open spec fn ansi_wrapped(s: Seq<char>, code: Seq<char>) -> Seq<char> {
    "\u{1b}["@ + code + "m"@ + s + "\u{1b}[0m"@
}

/// `Colorize::color` on a text, then `to_string`: the text itself when the
/// environment turns colors off (`NO_COLOR`, `CLICOLOR`), or wrapped in the
/// color's escape sequences. What comes out for a text that holds an escape
/// character is not stated.
#[verifier::external_body]
fn colored_text(s: &str, c: TagColor) -> (r: String)
    ensures
        !s@.contains('\u{1b}') ==> (r@ == s@ || r@ == ansi_wrapped(s@, color_code(c))),
{
    let col = match c {
        TagColor::Green => colored::Color::Green,
        TagColor::Blue => colored::Color::Blue,
        TagColor::Red => colored::Color::Red,
        TagColor::Yellow => colored::Color::Yellow,
        TagColor::Cyan => colored::Color::Cyan,
        TagColor::Magenta => colored::Color::Magenta,
    };
    s.color(col).to_string()
}

/// `Colorize::dimmed` on a text, then `to_string`: the text itself when the
/// environment turns colors off, or wrapped in the dim style's escape
/// sequences. What comes out for a text that holds an escape character is
/// not stated.
#[verifier::external_body]
fn dimmed_text(s: &str) -> (r: String)
    ensures
        !s@.contains('\u{1b}') ==> (r@ == s@ || r@ == ansi_wrapped(s@, "2"@)),
{
    s.dimmed().to_string()
}

/// `atty::is(Stream::Stdout)`: whether standard output is a terminal. It
/// depends on how the process was started; nothing is claimed.
#[verifier::external_body]
fn stdout_is_terminal() -> bool {
    atty::is(atty::Stream::Stdout)
}

/// The local time in a `chrono` format (`Local::now().format`, then
/// `to_string`). Only the date-and-time format of the reports is admitted:
/// chrono accepts it, while `to_string` panics on a format chrono refuses.
/// The text depends on the clock and the time zone; nothing is claimed.
#[verifier::external_body]
pub(crate) fn local_time_text(fmt: &str) -> String
    requires
        fmt@ == "%Y-%m-%d %H:%M:%S"@,
{
    chrono::Local::now().format(fmt).to_string()
}

/// The escape code of a status's color: green, blue, red, yellow, cyan and
/// magenta for the changes, dim for unchanged.
pub open spec fn status_code(s: FileStatus) -> Seq<char> {
    match s {
        FileStatus::Added => color_code(TagColor::Green),
        FileStatus::Modified => color_code(TagColor::Blue),
        FileStatus::Deleted => color_code(TagColor::Red),
        FileStatus::Renamed => color_code(TagColor::Yellow),
        FileStatus::Copied => color_code(TagColor::Cyan),
        FileStatus::TypeChanged => color_code(TagColor::Magenta),
        FileStatus::Unchanged => "2"@,
    }
}

/// A status tag as shown: plain without color; with color, plain or wrapped
/// in the status's color, as the environment decides.
pub open spec fn tag_shown(label: Seq<char>, s: FileStatus, use_color: bool) -> bool {
    if use_color {
        label == file_status_tag(s) || label == ansi_wrapped(file_status_tag(s), status_code(s))
    } else {
        label == file_status_tag(s)
    }
}

/// The plain status tags of the files.
pub open spec fn plain_tags(files: Seq<DiffFile>) -> Seq<Seq<char>> {
    files.map_values(|f: DiffFile| file_status_tag(f.status))
}

/// The label of a file in the three-way tree: its indicator and its tag.
pub open spec fn three_way_label(f: ThreeWayDiffFile) -> Seq<char> {
    three_way_indicator(f.status) + " "@ + three_way_tag(f.status)
}

/// No status tag holds an escape character.
proof fn lemma_tags_plain(s: FileStatus)
    ensures
        !file_status_tag(s).contains('\u{1b}'),
{
    reveal_strlit("[added]");
    reveal_strlit("[modified]");
    reveal_strlit("[deleted]");
    reveal_strlit("[renamed]");
    reveal_strlit("[copied]");
    reveal_strlit("[type-changed]");
    reveal_strlit("[unchanged]");
    let t = file_status_tag(s);
    assert forall|i: int| 0 <= i < t.len() implies t[i] != '\u{1b}' by {}
}

/// The first part of a two-way summary: title, revisions, output and date.
pub open spec fn two_way_header(
    c: MergedConfig,
    repo: Seq<char>,
    source_ref: Seq<char>,
    source_commit: Seq<char>,
    target_ref: Seq<char>,
    target_commit: Seq<char>,
    date: Seq<char>,
) -> Seq<char> {
    "rs_gitdiffcopy Summary\n"@ + "======================\n"@ + "Repository: "@ + repo + "\n"@ + "Source ref: "@
        + source_ref + " ("@ + byte_prefix(source_commit, 7) + ")\n"@ + "Target ref: "@ + target_ref + " ("@
        + byte_prefix(target_commit, 7) + ")\n"@ + "Output: "@ + c.output@ + "\n"@ + "Date: "@ + date + "\n"@
        + "\n"@
}

/// The first part of a three-way summary.
pub open spec fn three_way_header(
    c: MergedConfig,
    repo: Seq<char>,
    base_ref: Seq<char>,
    base_commit: Seq<char>,
    ours_ref: Seq<char>,
    ours_commit: Seq<char>,
    theirs_ref: Seq<char>,
    theirs_commit: Seq<char>,
    date: Seq<char>,
) -> Seq<char> {
    "rs_gitdiffcopy Summary (Three-way)\n"@ + "==================================\n"@ + "Repository: "@ + repo
        + "\n"@ + "Base ref: "@ + base_ref + " ("@ + byte_prefix(base_commit, 7) + ")\n"@ + "Ours ref: "@
        + ours_ref + " ("@ + byte_prefix(ours_commit, 7) + ")\n"@ + "Theirs ref: "@ + theirs_ref + " ("@
        + byte_prefix(theirs_commit, 7) + ")\n"@ + "Output: "@ + c.output@ + "\n"@ + "Date: "@ + date + "\n"@
        + "\n"@
}

/// The file-tree section, drawn with the given labels; lines are padded to
/// the widest when the summary goes to a file.
pub open spec fn tree_section(
    legend: Seq<char>,
    paths: Seq<Seq<char>>,
    labels: Seq<Seq<char>>,
    to_file: bool,
) -> Seq<char> {
    let t = tree_of(paths);
    let max = if to_file {
        tree_width(t, t.len(), Seq::empty())
    } else {
        0
    };
    "\n================\nFile Tree\n================\n"@ + legend + ".\n"@ + render_items(
        t,
        t.len(),
        Seq::empty(),
        max,
        labels,
    )
}

/// The legend of the three-way tree.
pub open spec fn three_way_legend() -> Seq<char> {
    "Legend: [Base|Ours|Theirs] ○=exists -=missing ==same M=modified A=added D=deleted\n"@
}

/// A two-way summary with the given tag labels and date. Asking for the
/// statistics only trims the console copy; the file copy stays complete.
pub open spec fn two_way_text(
    c: MergedConfig,
    files: Seq<DiffFile>,
    stats: Statistics,
    repo: Seq<char>,
    source_ref: Seq<char>,
    source_commit: Seq<char>,
    target_ref: Seq<char>,
    target_commit: Seq<char>,
    copy_errors: Seq<Seq<char>>,
    labels: Seq<Seq<char>>,
    to_file: bool,
    date: Seq<char>,
) -> Seq<char> {
    two_way_header(c, repo, source_ref, source_commit, target_ref, target_commit, date) + options_text(c)
        + statistics_text(stats) + line_if(
        !c.no_tree && !(c.stats_only && !to_file),
        tree_section(Seq::empty(), file_paths(files), labels, to_file),
    ) + line_if(!c.no_details && !(c.stats_only && !to_file), details_text(files)) + copy_errors_text(copy_errors)
}

/// A three-way summary with the given date. Asking for the statistics only
/// trims the console copy; the file copy stays complete.
pub open spec fn three_way_text(
    c: MergedConfig,
    files: Seq<ThreeWayDiffFile>,
    stats: ThreeWayStatistics,
    repo: Seq<char>,
    base_ref: Seq<char>,
    base_commit: Seq<char>,
    ours_ref: Seq<char>,
    ours_commit: Seq<char>,
    theirs_ref: Seq<char>,
    theirs_commit: Seq<char>,
    copy_errors: Seq<Seq<char>>,
    to_file: bool,
    date: Seq<char>,
) -> Seq<char> {
    three_way_header(c, repo, base_ref, base_commit, ours_ref, ours_commit, theirs_ref, theirs_commit, date)
        + options_text(c) + matrix_text(stats) + line_if(
        !c.no_tree && !(c.stats_only && !to_file),
        tree_section(
            three_way_legend(),
            three_way_paths(files),
            files.map_values(|f: ThreeWayDiffFile| three_way_label(f)),
            to_file,
        ),
    ) + line_if(!c.no_details && !(c.stats_only && !to_file), conflict_details_text(files)) + copy_errors_text(copy_errors)
}

/// Writes the summary of a comparison, to the console with colors and
/// compact, and to a file plain and aligned.
pub struct SummaryWriter<'a> {
    pub config: &'a MergedConfig,
    pub use_color: bool,
}

/// Appends the first `n` bytes of `s`.
fn push_short(out: &mut Vec<char>, s: &str, n: usize)
    requires
        prefix_on_boundary(s@, n as nat),
    ensures
        final(out)@ == old(out)@ + byte_prefix(s@, n as nat),
{
    let p = short_prefix(s, n);
    push_str(out, p.as_str());
}

/// The file-tree section.
fn tree_chars(legend: &str, paths: &Vec<String>, labels: &Vec<String>, to_file: bool) -> (r: Vec<char>)
    ensures
        r@ == tree_section(legend@, texts(paths@), texts(labels@), to_file),
{
    let tree = tree_of_strings(paths);
    let empty: Vec<char> = Vec::new();
    let max = if to_file {
        width_of(&tree.items, &empty)
    } else {
        0
    };
    proof {
        lemma_items_shape(tree.items@);
    }
    let mut out: Vec<char> = Vec::new();
    push_str(&mut out, "\n================\nFile Tree\n================\n");
    assert(out@ =~= "\n================\nFile Tree\n================\n"@);
    push_str(&mut out, legend);
    push_str(&mut out, ".\n");
    render(&tree.items, &empty, max, labels, &mut out);
    assert(empty@ =~= Seq::<char>::empty());
    out
}

impl<'a> SummaryWriter<'a> {
    /// The folder tree of the files of a two-way comparison.
    pub fn build_tree(&self, files: &[DiffFile]) -> (r: FileTree)
        ensures
            r@ == tree_of(file_paths(files@)),
    {
        let paths = paths_of(files);
        tree_of_strings(&paths)
    }

    /// The folder tree of the files of a three-way comparison.
    pub fn build_three_way_tree(&self, files: &[ThreeWayDiffFile]) -> (r: FileTree)
        ensures
            r@ == tree_of(three_way_paths(files@)),
    {
        let (paths, _labels) = three_way_paths_and_labels(files);
        tree_of_strings(&paths)
    }

    /// The widest line of a tree drawn after `prefix`, as the aligned
    /// summary pads to.
    pub fn calculate_max_tree_width(&self, tree: &FileTree, prefix: &str) -> (r: usize)
        ensures
            r == tree_width(tree@, tree.items@.len() as nat, prefix@),
    {
        let p = chars_of(prefix);
        width_of(&tree.items, &p)
    }

    /// A writer for the settings; colors are on when asked for, off when
    /// refused, and follow the terminal otherwise.
    pub fn new(config: &'a MergedConfig) -> (r: SummaryWriter<'a>)
        ensures
            r.config == config,
            config.color == ColorMode::Always ==> r.use_color,
            config.color == ColorMode::Never ==> !r.use_color,
    {
        let use_color = match config.color {
            ColorMode::Always => true,
            ColorMode::Never => false,
            ColorMode::Auto => stdout_is_terminal(),
        };
        SummaryWriter { config, use_color }
    }

    /// The status tag of a file, colored when asked and the environment allows.
    pub fn format_status_tag(&self, file: &DiffFile, use_color: bool) -> (r: String)
        ensures
            tag_shown(r@, file.status, use_color),
    {
        let tag = file.status.tag();
        proof {
            lemma_tags_plain(file.status);
        }
        if use_color {
            match file.status {
                FileStatus::Added => colored_text(tag, TagColor::Green),
                FileStatus::Modified => colored_text(tag, TagColor::Blue),
                FileStatus::Deleted => colored_text(tag, TagColor::Red),
                FileStatus::Renamed => colored_text(tag, TagColor::Yellow),
                FileStatus::Copied => colored_text(tag, TagColor::Cyan),
                FileStatus::TypeChanged => colored_text(tag, TagColor::Magenta),
                FileStatus::Unchanged => dimmed_text(tag),
            }
        } else {
            tag.to_owned()
        }
    }

    /// The tag labels of the files.
    pub fn status_labels(&self, files: &[DiffFile], use_color: bool) -> (r: Vec<String>)
        ensures
            r@.len() == files@.len(),
            forall|i: int| 0 <= i < files@.len() ==> tag_shown(#[trigger] r@[i]@, files@[i].status, use_color),
    {
        let mut out: Vec<String> = Vec::new();
        let mut i: usize = 0;
        while i < files.len()
            invariant
                i <= files@.len(),
                out@.len() == i,
                forall|k: int| 0 <= k < i ==> tag_shown(#[trigger] out@[k]@, files@[k].status, use_color),
            decreases files@.len() - i,
        {
            out.push(self.format_status_tag(&files[i], use_color));
            i += 1;
        }
        out
    }
}

} // verus!

verus! {

/// The paths of the files, as strings.
fn paths_of(files: &[DiffFile]) -> (r: Vec<String>)
    ensures
        texts(r@) == file_paths(files@),
{
    let mut out: Vec<String> = Vec::new();
    let mut i: usize = 0;
    while i < files.len()
        invariant
            i <= files@.len(),
            out@.len() == i,
            forall|k: int| 0 <= k < i ==> #[trigger] out@[k]@ == files@[k].path@,
        decreases files@.len() - i,
    {
        out.push(files[i].path.clone());
        i += 1;
    }
    assert(texts(out@) =~= file_paths(files@));
    out
}

/// The paths and tree labels of the three-way files.
fn three_way_paths_and_labels(files: &[ThreeWayDiffFile]) -> (r: (Vec<String>, Vec<String>))
    ensures
        texts(r.0@) == three_way_paths(files@),
        texts(r.1@) == files@.map_values(|f: ThreeWayDiffFile| three_way_label(f)),
{
    let mut paths: Vec<String> = Vec::new();
    let mut labels: Vec<String> = Vec::new();
    let mut i: usize = 0;
    while i < files.len()
        invariant
            i <= files@.len(),
            paths@.len() == i,
            labels@.len() == i,
            forall|k: int| 0 <= k < i ==> #[trigger] paths@[k]@ == files@[k].path@,
            forall|k: int| 0 <= k < i ==> #[trigger] labels@[k]@ == three_way_label(files@[k]),
        decreases files@.len() - i,
    {
        paths.push(files[i].path.clone());
        let mut l: Vec<char> = Vec::new();
        push_str(&mut l, files[i].status.indicator());
        push_str(&mut l, " ");
        push_str(&mut l, files[i].status.tag());
        assert(l@ =~= three_way_label(files@[i as int]));
        labels.push(string_of(&l));
        i += 1;
    }
    assert(texts(paths@) =~= three_way_paths(files@));
    assert(texts(labels@) =~= files@.map_values(|f: ThreeWayDiffFile| three_way_label(f)));
    (paths, labels)
}

impl<'a> SummaryWriter<'a> {
    /// The header of a two-way summary.
    fn two_way_header_chars(
        &self,
        repo: &str,
        source_ref: &str,
        source_commit: &str,
        target_ref: &str,
        target_commit: &str,
        date: &str,
    ) -> (r: Vec<char>)
        requires
            prefix_on_boundary(source_commit@, 7),
            prefix_on_boundary(target_commit@, 7),
        ensures
            r@ == two_way_header(*self.config, repo@, source_ref@, source_commit@, target_ref@, target_commit@, date@),
    {
        let mut out: Vec<char> = Vec::new();
        push_str(&mut out, "rs_gitdiffcopy Summary\n");
        assert(out@ =~= "rs_gitdiffcopy Summary\n"@);
        push_str(&mut out, "======================\n");
        push_str(&mut out, "Repository: ");
        push_str(&mut out, repo);
        push_str(&mut out, "\n");
        push_str(&mut out, "Source ref: ");
        push_str(&mut out, source_ref);
        push_str(&mut out, " (");
        push_short(&mut out, source_commit, 7);
        push_str(&mut out, ")\n");
        push_str(&mut out, "Target ref: ");
        push_str(&mut out, target_ref);
        push_str(&mut out, " (");
        push_short(&mut out, target_commit, 7);
        push_str(&mut out, ")\n");
        push_str(&mut out, "Output: ");
        push_str(&mut out, self.config.output.as_str());
        push_str(&mut out, "\n");
        push_str(&mut out, "Date: ");
        push_str(&mut out, date);
        push_str(&mut out, "\n");
        push_str(&mut out, "\n");
        out
    }

    /// The header of a three-way summary.
    fn three_way_header_chars(
        &self,
        repo: &str,
        base_ref: &str,
        base_commit: &str,
        ours_ref: &str,
        ours_commit: &str,
        theirs_ref: &str,
        theirs_commit: &str,
        date: &str,
    ) -> (r: Vec<char>)
        requires
            prefix_on_boundary(base_commit@, 7),
            prefix_on_boundary(ours_commit@, 7),
            prefix_on_boundary(theirs_commit@, 7),
        ensures
            r@ == three_way_header(
                *self.config,
                repo@,
                base_ref@,
                base_commit@,
                ours_ref@,
                ours_commit@,
                theirs_ref@,
                theirs_commit@,
                date@,
            ),
    {
        let mut out: Vec<char> = Vec::new();
        push_str(&mut out, "rs_gitdiffcopy Summary (Three-way)\n");
        assert(out@ =~= "rs_gitdiffcopy Summary (Three-way)\n"@);
        push_str(&mut out, "==================================\n");
        push_str(&mut out, "Repository: ");
        push_str(&mut out, repo);
        push_str(&mut out, "\n");
        push_str(&mut out, "Base ref: ");
        push_str(&mut out, base_ref);
        push_str(&mut out, " (");
        push_short(&mut out, base_commit, 7);
        push_str(&mut out, ")\n");
        push_str(&mut out, "Ours ref: ");
        push_str(&mut out, ours_ref);
        push_str(&mut out, " (");
        push_short(&mut out, ours_commit, 7);
        push_str(&mut out, ")\n");
        push_str(&mut out, "Theirs ref: ");
        push_str(&mut out, theirs_ref);
        push_str(&mut out, " (");
        push_short(&mut out, theirs_commit, 7);
        push_str(&mut out, ")\n");
        push_str(&mut out, "Output: ");
        push_str(&mut out, self.config.output.as_str());
        push_str(&mut out, "\n");
        push_str(&mut out, "Date: ");
        push_str(&mut out, date);
        push_str(&mut out, "\n");
        push_str(&mut out, "\n");
        out
    }

    /// A two-way summary with the given tag labels and date; aligned when
    /// it goes to a file.
    pub fn two_way_report(
        &self,
        files: &[DiffFile],
        stats: &Statistics,
        source_ref: &str,
        source_commit: &str,
        target_ref: &str,
        target_commit: &str,
        repo: &str,
        copy_errors: &[String],
        labels: &Vec<String>,
        to_file: bool,
        date: &str,
    ) -> (r: String)
        requires
            statistics_total(*stats) <= usize::MAX,
            prefix_on_boundary(source_commit@, 7),
            prefix_on_boundary(target_commit@, 7),
        ensures
            r@ == two_way_text(
                *self.config,
                files@,
                *stats,
                repo@,
                source_ref@,
                source_commit@,
                target_ref@,
                target_commit@,
                texts(copy_errors@),
                texts(labels@),
                to_file,
                date@,
            ),
    {
        let c = self.config;
        let mut out = self.two_way_header_chars(repo, source_ref, source_commit, target_ref, target_commit, date);
        push_chars(&mut out, &options_chars(c));
        push_chars(&mut out, &statistics_chars(stats));
        let ghost a = out@;
        if !c.no_tree && !(c.stats_only && !to_file) {
            let paths = paths_of(files);
            push_chars(&mut out, &tree_chars("", &paths, labels, to_file));
            proof {
                reveal_strlit("");
            }
        }
        assert(out@ =~= a + line_if(
            !c.no_tree && !(c.stats_only && !to_file),
            tree_section(Seq::empty(), file_paths(files@), texts(labels@), to_file),
        ));
        let ghost a = out@;
        if !c.no_details && !(c.stats_only && !to_file) {
            push_chars(&mut out, &details_chars(files));
        }
        assert(out@ =~= a + line_if(!c.no_details && !(c.stats_only && !to_file), details_text(files@)));
        push_chars(&mut out, &copy_errors_chars(copy_errors));
        string_of(&out)
    }

    /// A three-way summary with the given date; aligned when it goes to a
    /// file.
    pub fn three_way_report(
        &self,
        files: &[ThreeWayDiffFile],
        stats: &ThreeWayStatistics,
        base_ref: &str,
        base_commit: &str,
        ours_ref: &str,
        ours_commit: &str,
        theirs_ref: &str,
        theirs_commit: &str,
        repo: &str,
        copy_errors: &[String],
        to_file: bool,
        date: &str,
    ) -> (r: String)
        requires
            three_way_total(*stats) <= usize::MAX,
            prefix_on_boundary(base_commit@, 7),
            prefix_on_boundary(ours_commit@, 7),
            prefix_on_boundary(theirs_commit@, 7),
            conflict_blobs_cut(files@),
        ensures
            r@ == three_way_text(
                *self.config,
                files@,
                *stats,
                repo@,
                base_ref@,
                base_commit@,
                ours_ref@,
                ours_commit@,
                theirs_ref@,
                theirs_commit@,
                texts(copy_errors@),
                to_file,
                date@,
            ),
    {
        let c = self.config;
        let mut out = self.three_way_header_chars(
            repo,
            base_ref,
            base_commit,
            ours_ref,
            ours_commit,
            theirs_ref,
            theirs_commit,
            date,
        );
        push_chars(&mut out, &options_chars(c));
        push_chars(&mut out, &matrix_chars(stats));
        let ghost a = out@;
        if !c.no_tree && !(c.stats_only && !to_file) {
            let (paths, labels) = three_way_paths_and_labels(files);
            push_chars(
                &mut out,
                &tree_chars(
                    "Legend: [Base|Ours|Theirs] ○=exists -=missing ==same M=modified A=added D=deleted\n",
                    &paths,
                    &labels,
                    to_file,
                ),
            );
        }
        assert(out@ =~= a + line_if(
            !c.no_tree && !(c.stats_only && !to_file),
            tree_section(
                three_way_legend(),
                three_way_paths(files@),
                files@.map_values(|f: ThreeWayDiffFile| three_way_label(f)),
                to_file,
            ),
        ));
        let ghost a = out@;
        if !c.no_details && !(c.stats_only && !to_file) {
            push_chars(&mut out, &conflict_details_chars(files));
        }
        assert(out@ =~= a + line_if(!c.no_details && !(c.stats_only && !to_file), conflict_details_text(files@)));
        push_chars(&mut out, &copy_errors_chars(copy_errors));
        string_of(&out)
    }

    /// The two summaries of a two-way comparison: for the console (colored
    /// as set, compact) and for a file (plain, aligned), each dated when
    /// it is made.
    pub fn write_two_way(
        &self,
        files: &[DiffFile],
        stats: &Statistics,
        source_ref: &str,
        source_commit: &str,
        target_ref: &str,
        target_commit: &str,
        repo: &str,
        copy_errors: &[String],
    ) -> (r: (String, String))
        requires
            statistics_total(*stats) <= usize::MAX,
            prefix_on_boundary(source_commit@, 7),
            prefix_on_boundary(target_commit@, 7),
        ensures
            exists|labels: Seq<Seq<char>>, date: Seq<char>|
                labels.len() == files@.len() && (forall|i: int|
                    0 <= i < files@.len() ==> tag_shown(#[trigger] labels[i], files@[i].status, self.use_color))
                    && r.0@ == #[trigger] two_way_text(
                    *self.config,
                    files@,
                    *stats,
                    repo@,
                    source_ref@,
                    source_commit@,
                    target_ref@,
                    target_commit@,
                    texts(copy_errors@),
                    labels,
                    false,
                    date,
                ),
            exists|date: Seq<char>|
                r.1@ == #[trigger] two_way_text(
                    *self.config,
                    files@,
                    *stats,
                    repo@,
                    source_ref@,
                    source_commit@,
                    target_ref@,
                    target_commit@,
                    texts(copy_errors@),
                    plain_tags(files@),
                    true,
                    date,
                ),
    {
        let console_labels = self.status_labels(files, self.use_color);
        let d1 = local_time_text("%Y-%m-%d %H:%M:%S");
        let console = self.two_way_report(
            files,
            stats,
            source_ref,
            source_commit,
            target_ref,
            target_commit,
            repo,
            copy_errors,
            &console_labels,
            false,
            d1.as_str(),
        );
        let plain_labels = self.status_labels(files, false);
        let d2 = local_time_text("%Y-%m-%d %H:%M:%S");
        let file = self.two_way_report(
            files,
            stats,
            source_ref,
            source_commit,
            target_ref,
            target_commit,
            repo,
            copy_errors,
            &plain_labels,
            true,
            d2.as_str(),
        );
        proof {
            assert(texts(plain_labels@) =~= plain_tags(files@));
            assert(forall|i: int| 0 <= i < files@.len() ==> tag_shown(#[trigger] texts(console_labels@)[i], files@[i].status, self.use_color));
        }
        (console, file)
    }

    /// The two summaries of a three-way comparison: for the console and
    /// for a file (aligned), each dated when it is made.
    pub fn write_three_way(
        &self,
        files: &[ThreeWayDiffFile],
        stats: &ThreeWayStatistics,
        base_ref: &str,
        base_commit: &str,
        ours_ref: &str,
        ours_commit: &str,
        theirs_ref: &str,
        theirs_commit: &str,
        repo: &str,
        copy_errors: &[String],
    ) -> (r: (String, String))
        requires
            three_way_total(*stats) <= usize::MAX,
            prefix_on_boundary(base_commit@, 7),
            prefix_on_boundary(ours_commit@, 7),
            prefix_on_boundary(theirs_commit@, 7),
            conflict_blobs_cut(files@),
        ensures
            exists|date: Seq<char>|
                r.0@ == #[trigger] three_way_text(
                    *self.config,
                    files@,
                    *stats,
                    repo@,
                    base_ref@,
                    base_commit@,
                    ours_ref@,
                    ours_commit@,
                    theirs_ref@,
                    theirs_commit@,
                    texts(copy_errors@),
                    false,
                    date,
                ),
            exists|date: Seq<char>|
                r.1@ == #[trigger] three_way_text(
                    *self.config,
                    files@,
                    *stats,
                    repo@,
                    base_ref@,
                    base_commit@,
                    ours_ref@,
                    ours_commit@,
                    theirs_ref@,
                    theirs_commit@,
                    texts(copy_errors@),
                    true,
                    date,
                ),
    {
        let d1 = local_time_text("%Y-%m-%d %H:%M:%S");
        let console = self.three_way_report(
            files,
            stats,
            base_ref,
            base_commit,
            ours_ref,
            ours_commit,
            theirs_ref,
            theirs_commit,
            repo,
            copy_errors,
            false,
            d1.as_str(),
        );
        let d2 = local_time_text("%Y-%m-%d %H:%M:%S");
        let file = self.three_way_report(
            files,
            stats,
            base_ref,
            base_commit,
            ours_ref,
            ours_commit,
            theirs_ref,
            theirs_commit,
            repo,
            copy_errors,
            true,
            d2.as_str(),
        );
        (console, file)
    }
}

} // verus!

verus! {

/// The columns of two texts one after the other add up.
pub proof fn law_columns_add_up(a: Seq<char>, b: Seq<char>)
    ensures
        text_columns(a + b) == text_columns(a) + text_columns(b),
    decreases b.len(),
{
    if b.len() == 0 {
        assert(a + b =~= a);
    } else {
        law_columns_add_up(a, b.drop_last());
        assert((a + b).drop_last() =~= a + b.drop_last());
        assert((a + b).last() == b.last());
    }
}

/// Asking for the statistics only changes nothing in the summary file of a
/// two-way comparison: it is the one written without that option.
pub proof fn law_stats_only_keeps_two_way_file(
    c: MergedConfig,
    files: Seq<DiffFile>,
    stats: Statistics,
    repo: Seq<char>,
    source_ref: Seq<char>,
    source_commit: Seq<char>,
    target_ref: Seq<char>,
    target_commit: Seq<char>,
    copy_errors: Seq<Seq<char>>,
    labels: Seq<Seq<char>>,
    date: Seq<char>,
)
    ensures
        two_way_text(
            c,
            files,
            stats,
            repo,
            source_ref,
            source_commit,
            target_ref,
            target_commit,
            copy_errors,
            labels,
            true,
            date,
        ) == two_way_text(
            (MergedConfig { stats_only: false, ..c }),
            files,
            stats,
            repo,
            source_ref,
            source_commit,
            target_ref,
            target_commit,
            copy_errors,
            labels,
            true,
            date,
        ),
{
}

/// Asking for the statistics only changes nothing in the summary file of a
/// three-way comparison: it is the one written without that option.
pub proof fn law_stats_only_keeps_three_way_file(
    c: MergedConfig,
    files: Seq<ThreeWayDiffFile>,
    stats: ThreeWayStatistics,
    repo: Seq<char>,
    base_ref: Seq<char>,
    base_commit: Seq<char>,
    ours_ref: Seq<char>,
    ours_commit: Seq<char>,
    theirs_ref: Seq<char>,
    theirs_commit: Seq<char>,
    copy_errors: Seq<Seq<char>>,
    date: Seq<char>,
)
    ensures
        three_way_text(
            c,
            files,
            stats,
            repo,
            base_ref,
            base_commit,
            ours_ref,
            ours_commit,
            theirs_ref,
            theirs_commit,
            copy_errors,
            true,
            date,
        ) == three_way_text(
            (MergedConfig { stats_only: false, ..c }),
            files,
            stats,
            repo,
            base_ref,
            base_commit,
            ours_ref,
            ours_commit,
            theirs_ref,
            theirs_commit,
            copy_errors,
            true,
            date,
        ),
{
}

/// Each count line of a two-way summary shows the number of files with its
/// status: the line labelled `Added:` shows how many files were added, the
/// one labelled `Deleted:` how many were deleted, and so on.
#[verifier::spinoff_prover]
#[verifier::rlimit(100)]
pub proof fn law_statistics_lines_show_counts(files: Seq<DiffFile>, s: Statistics)
    requires
        statistics_of(files, s),
    ensures
        exists|pre: Seq<char>, post: Seq<char>|
            #![trigger pre.len(), post.len()]
            statistics_text(s) == pre + "Added:         "@ + decimal_string(count_status(files, FileStatus::Added)) + " files\n"@
                + post,
        exists|pre: Seq<char>, post: Seq<char>|
            #![trigger pre.len(), post.len()]
            statistics_text(s) == pre + "Modified:      "@ + decimal_string(count_status(files, FileStatus::Modified)) + " files\n"@
                + post,
        exists|pre: Seq<char>, post: Seq<char>|
            #![trigger pre.len(), post.len()]
            statistics_text(s) == pre + "Deleted:       "@ + decimal_string(count_status(files, FileStatus::Deleted)) + " files\n"@
                + post,
        exists|pre: Seq<char>, post: Seq<char>|
            #![trigger pre.len(), post.len()]
            statistics_text(s) == pre + "Renamed:       "@ + decimal_string(count_status(files, FileStatus::Renamed)) + " files\n"@
                + post,
        exists|pre: Seq<char>, post: Seq<char>|
            #![trigger pre.len(), post.len()]
            statistics_text(s) == pre + "Unchanged:     "@ + decimal_string(count_status(files, FileStatus::Unchanged)) + " files\n"@
                + post,
{
    let a = count_line("Added:         "@, s.added as nat, " files\n"@);
    let m = count_line("Modified:      "@, s.modified as nat, " files\n"@);
    let d = count_line("Deleted:       "@, s.deleted as nat, " files\n"@);
    let n = count_line("Renamed:       "@, s.renamed as nat, " files\n"@);
    let rest = line_if(s.copied > 0, count_line("Copied:        "@, s.copied as nat, " files\n"@)) + line_if(
        s.type_changed > 0,
        count_line("Type changed:  "@, s.type_changed as nat, " files\n"@),
    ) + line_if(s.symlinks > 0, count_line("Symlinks:      "@, s.symlinks as nat, " files\n"@)) + line_if(
        s.submodules > 0,
        count_line("Submodules:    "@, s.submodules as nat, "\n"@),
    ) + line_if(
        s.permission_changes > 0,
        count_line("Permission changes: "@, s.permission_changes as nat, " files\n"@),
    );
    let u = count_line("Unchanged:     "@, s.unchanged as nat, " files\n"@);
    let tail = "--------------------------\n"@ + count_line("Total:        "@, statistics_total(s) as nat, " items\n"@)
        + "\n"@;
    assert(statistics_text(s) == a + m + d + n + rest + u + tail);
    lemma_regroup(a, m, d, n, rest, u, tail);
    let e = Seq::<char>::empty();
    lemma_piece(e, "Added:         "@, decimal_string(s.added as nat), " files\n"@, m + d + n + rest + u + tail);
    lemma_piece(a, "Modified:      "@, decimal_string(s.modified as nat), " files\n"@, d + n + rest + u + tail);
    lemma_piece(a + m, "Deleted:       "@, decimal_string(s.deleted as nat), " files\n"@, n + rest + u + tail);
    lemma_piece(a + m + d, "Renamed:       "@, decimal_string(s.renamed as nat), " files\n"@, rest + u + tail);
    lemma_piece(a + m + d + n + rest, "Unchanged:     "@, decimal_string(s.unchanged as nat), " files\n"@, tail);
    assert(e + a == a);
}

/// Seven pieces in a row, grouped around each of their count lines.
proof fn lemma_regroup(
    x1: Seq<char>,
    x2: Seq<char>,
    x3: Seq<char>,
    x4: Seq<char>,
    x5: Seq<char>,
    x6: Seq<char>,
    x7: Seq<char>,
)
    ensures
        x1 + x2 + x3 + x4 + x5 + x6 + x7 == Seq::<char>::empty() + x1 + (x2 + x3 + x4 + x5 + x6 + x7),
        x1 + x2 + x3 + x4 + x5 + x6 + x7 == x1 + x2 + (x3 + x4 + x5 + x6 + x7),
        x1 + x2 + x3 + x4 + x5 + x6 + x7 == (x1 + x2) + x3 + (x4 + x5 + x6 + x7),
        x1 + x2 + x3 + x4 + x5 + x6 + x7 == (x1 + x2 + x3) + x4 + (x5 + x6 + x7),
        x1 + x2 + x3 + x4 + x5 + x6 + x7 == (x1 + x2 + x3 + x4 + x5) + x6 + x7,
{
    assert(x1 + x2 + x3 + x4 + x5 + x6 + x7 =~= Seq::<char>::empty() + x1 + (x2 + x3 + x4 + x5 + x6 + x7));
    assert(x1 + x2 + x3 + x4 + x5 + x6 + x7 =~= x1 + x2 + (x3 + x4 + x5 + x6 + x7));
    assert(x1 + x2 + x3 + x4 + x5 + x6 + x7 =~= (x1 + x2) + x3 + (x4 + x5 + x6 + x7));
    assert(x1 + x2 + x3 + x4 + x5 + x6 + x7 =~= (x1 + x2 + x3) + x4 + (x5 + x6 + x7));
}

/// A line between two texts, opened up into its label, number and unit.
proof fn lemma_piece(pre: Seq<char>, label: Seq<char>, num: Seq<char>, unit: Seq<char>, post: Seq<char>)
    ensures
        pre + (label + num + unit) + post == pre + label + num + unit + post,
{
    assert(pre + (label + num + unit) + post =~= pre + label + num + unit + post);
}

} // verus!
