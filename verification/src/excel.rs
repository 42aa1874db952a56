//! The workbook report: which text or number goes in which cell, and how
//! it is styled.

use vstd::prelude::*;
use crate::config::MergedConfig;
use crate::diff::{count_conflicting, count_status, statistics_of};
use crate::summary::{
    byte_prefix, conflict_blobs_cut, local_time_text, prefix_on_boundary, short_prefix, similarity_note,
};
use crate::text::{chars_of, push_decimal, push_str, string_of};
use crate::tree::{char_texts, component_list, component_names, file_paths, text_less, text_less_exec};
use crate::types::{
    DiffFile, FileStatus, Statistics, ThreeWayDiffFile, ThreeWayStatistics, ThreeWayStatus, is_conflict_status,
    statistics_total, three_way_conflicts, three_way_tag, three_way_total,
};

verus! {

/// How a cell looks.
#[derive(Debug, Clone, Copy, PartialEq, Eq, Structural)]
pub enum CellStyle {
    /// Bold, large, blue: the sheet's title.
    Title,
    /// Bold on blue, white: a section heading.
    SectionHeader,
    /// Bold.
    Label,
    /// No format.
    Plain,
    /// The status's color, no border.
    StatusText(FileStatus),
    /// Bold on blue, white, thin border: a column heading.
    TableHeader,
    /// Monospace with a thin border.
    Mono,
    /// A thin border.
    Bordered,
    /// The status's color with a thin border.
    StatusCell(FileStatus),
    /// Bold red.
    ConflictLabel,
}

/// What a cell holds.
#[derive(Debug, Clone)]
pub enum CellValue {
    Text(String),
    Number(usize),
}

/// One cell of a sheet.
#[derive(Debug, Clone)]
pub struct Cell {
    pub row: u32,
    pub col: u16,
    pub value: CellValue,
    pub style: CellStyle,
}

/// A sheet: its name, its cells in the order they are written, and the
/// widths of its columns.
#[derive(Debug, Clone)]
pub struct SheetPlan {
    pub name: String,
    pub cells: Vec<Cell>,
    pub widths: Vec<(u16, u16)>,
}

/// The content of a cell as plain values.
pub enum CellContent {
    Text(Seq<char>),
    Number(nat),
}

/// A cell as plain values.
pub struct CellSpec {
    pub row: nat,
    pub col: nat,
    pub content: CellContent,
    pub style: CellStyle,
}

impl View for Cell {
    type V = CellSpec;

    open spec fn view(&self) -> CellSpec {
        CellSpec {
            row: self.row as nat,
            col: self.col as nat,
            content: match self.value {
                CellValue::Text(s) => CellContent::Text(s@),
                CellValue::Number(n) => CellContent::Number(n as nat),
            },
            style: self.style,
        }
    }
}

/// The cells of a sheet as plain values.
pub open spec fn cells_view(cells: Seq<Cell>) -> Seq<CellSpec> {
    cells.map_values(|c: Cell| c@)
}

/// A text cell.
pub open spec fn tc(row: nat, col: nat, text: Seq<char>, style: CellStyle) -> CellSpec {
    CellSpec { row, col, content: CellContent::Text(text), style }
}

/// A number cell without format.
pub open spec fn nc(row: nat, col: nat, n: nat) -> CellSpec {
    CellSpec { row, col, content: CellContent::Number(n), style: CellStyle::Plain }
}

/// A text cell.
fn text_cell(row: u32, col: u16, text: String, style: CellStyle) -> (r: Cell)
    ensures
        r@ == tc(row as nat, col as nat, text@, style),
{
    Cell { row, col, value: CellValue::Text(text), style }
}

/// A text cell from a literal.
fn lit_cell(row: u32, col: u16, text: &str, style: CellStyle) -> (r: Cell)
    ensures
        r@ == tc(row as nat, col as nat, text@, style),
{
    Cell { row, col, value: CellValue::Text(text.to_owned()), style }
}

/// A number cell.
fn number_cell(row: u32, col: u16, n: usize) -> (r: Cell)
    ensures
        r@ == nc(row as nat, col as nat, n as nat),
{
    Cell { row, col, value: CellValue::Number(n), style: CellStyle::Plain }
}

/// A revision as `ref (abcdef1)`.
pub open spec fn ref_text(r: Seq<char>, commit: Seq<char>) -> Seq<char> {
    r + " ("@ + byte_prefix(commit, 7) + ")"@
}

/// A revision as `ref (abcdef1)`.
fn ref_cell_text(r: &str, commit: &str) -> (t: String)
    requires
        prefix_on_boundary(commit@, 7),
    ensures
        t@ == ref_text(r@, commit@),
{
    let mut out: Vec<char> = Vec::new();
    push_str(&mut out, r);
    assert(out@ =~= r@);
    push_str(&mut out, " (");
    let p = short_prefix(commit, 7);
    push_str(&mut out, p.as_str());
    push_str(&mut out, ")");
    string_of(&out)
}

/// The cells of the summary sheet of a two-way comparison.
pub open spec fn summary_cells(
    output: Seq<char>,
    s: Statistics,
    repo: Seq<char>,
    source_ref: Seq<char>,
    source_commit: Seq<char>,
    target_ref: Seq<char>,
    target_commit: Seq<char>,
    date: Seq<char>,
) -> Seq<CellSpec> {
    seq![
        tc(0, 0, "rs_gitdiffcopy Summary"@, CellStyle::Title),
        tc(2, 0, "Repository:"@, CellStyle::Label),
        tc(2, 1, repo, CellStyle::Plain),
        tc(3, 0, "Source ref:"@, CellStyle::Label),
        tc(3, 1, ref_text(source_ref, source_commit), CellStyle::Plain),
        tc(4, 0, "Target ref:"@, CellStyle::Label),
        tc(4, 1, ref_text(target_ref, target_commit), CellStyle::Plain),
        tc(5, 0, "Output:"@, CellStyle::Label),
        tc(5, 1, output, CellStyle::Plain),
        tc(6, 0, "Date:"@, CellStyle::Label),
        tc(6, 1, date, CellStyle::Plain),
        tc(8, 0, "Statistics"@, CellStyle::SectionHeader),
        tc(8, 1, ""@, CellStyle::SectionHeader),
        tc(9, 0, "Added:"@, CellStyle::StatusText(FileStatus::Added)),
        nc(9, 1, s.added as nat),
        tc(10, 0, "Modified:"@, CellStyle::StatusText(FileStatus::Modified)),
        nc(10, 1, s.modified as nat),
        tc(11, 0, "Deleted:"@, CellStyle::StatusText(FileStatus::Deleted)),
        nc(11, 1, s.deleted as nat),
        tc(12, 0, "Renamed:"@, CellStyle::StatusText(FileStatus::Renamed)),
        nc(12, 1, s.renamed as nat),
        tc(13, 0, "Unchanged:"@, CellStyle::Plain),
        nc(13, 1, s.unchanged as nat),
        tc(14, 0, "Total:"@, CellStyle::Label),
        nc(14, 1, statistics_total(s) as nat),
    ]
}

/// The summary sheet of a two-way comparison, dated `date`.
pub fn summary_sheet(
    config: &MergedConfig,
    stats: &Statistics,
    source_ref: &str,
    source_commit: &str,
    target_ref: &str,
    target_commit: &str,
    repo: &str,
    date: &str,
) -> (r: SheetPlan)
    requires
        statistics_total(*stats) <= usize::MAX,
        prefix_on_boundary(source_commit@, 7),
        prefix_on_boundary(target_commit@, 7),
    ensures
        r.name@ == "Summary"@,
        cells_view(r.cells@) == summary_cells(
            config.output@,
            *stats,
            repo@,
            source_ref@,
            source_commit@,
            target_ref@,
            target_commit@,
            date@,
        ),
        r.widths@ == seq![(0u16, 20u16), (1u16, 50u16)],
{
    let mut cells: Vec<Cell> = Vec::new();
    cells.push(lit_cell(0, 0, "rs_gitdiffcopy Summary", CellStyle::Title));
    cells.push(lit_cell(2, 0, "Repository:", CellStyle::Label));
    cells.push(lit_cell(2, 1, repo, CellStyle::Plain));
    cells.push(lit_cell(3, 0, "Source ref:", CellStyle::Label));
    cells.push(text_cell(3, 1, ref_cell_text(source_ref, source_commit), CellStyle::Plain));
    cells.push(lit_cell(4, 0, "Target ref:", CellStyle::Label));
    cells.push(text_cell(4, 1, ref_cell_text(target_ref, target_commit), CellStyle::Plain));
    cells.push(lit_cell(5, 0, "Output:", CellStyle::Label));
    cells.push(lit_cell(5, 1, config.output.as_str(), CellStyle::Plain));
    cells.push(lit_cell(6, 0, "Date:", CellStyle::Label));
    cells.push(lit_cell(6, 1, date, CellStyle::Plain));
    cells.push(lit_cell(8, 0, "Statistics", CellStyle::SectionHeader));
    cells.push(lit_cell(8, 1, "", CellStyle::SectionHeader));
    cells.push(lit_cell(9, 0, "Added:", CellStyle::StatusText(FileStatus::Added)));
    cells.push(number_cell(9, 1, stats.added));
    cells.push(lit_cell(10, 0, "Modified:", CellStyle::StatusText(FileStatus::Modified)));
    cells.push(number_cell(10, 1, stats.modified));
    cells.push(lit_cell(11, 0, "Deleted:", CellStyle::StatusText(FileStatus::Deleted)));
    cells.push(number_cell(11, 1, stats.deleted));
    cells.push(lit_cell(12, 0, "Renamed:", CellStyle::StatusText(FileStatus::Renamed)));
    cells.push(number_cell(12, 1, stats.renamed));
    cells.push(lit_cell(13, 0, "Unchanged:", CellStyle::Plain));
    cells.push(number_cell(13, 1, stats.unchanged));
    cells.push(lit_cell(14, 0, "Total:", CellStyle::Label));
    cells.push(number_cell(14, 1, stats.total()));
    let mut widths: Vec<(u16, u16)> = Vec::new();
    widths.push((0, 20));
    widths.push((1, 50));
    assert(cells_view(cells@) =~= summary_cells(
        config.output@,
        *stats,
        repo@,
        source_ref@,
        source_commit@,
        target_ref@,
        target_commit@,
        date@,
    ));
    assert(widths@ =~= seq![(0u16, 20u16), (1u16, 50u16)]);
    SheetPlan { name: "Summary".to_owned(), cells, widths }
}

} // verus!

verus! {

/// Position of the last slash of a path.
pub open spec fn last_slash(p: Seq<char>) -> Option<int>
    decreases p.len(),
{
    if p.len() == 0 {
        None
    } else if p.last() == '/' {
        Some(p.len() - 1)
    } else {
        last_slash(p.drop_last())
    }
}

/// The folder part of a path: the text before its last slash. Paths listed
/// by git have no empty or `.` components and no trailing slash, so this
/// is what `Path::parent` gives for them.
pub open spec fn dir_part(p: Seq<char>) -> Seq<char> {
    match last_slash(p) {
        Some(i) => p.take(i),
        None => Seq::empty(),
    }
}

/// The file-name part of a path: the text after its last slash.
pub open spec fn name_part(p: Seq<char>) -> Seq<char> {
    match last_slash(p) {
        Some(i) => p.skip(i + 1),
        None => p,
    }
}

/// The folder and file-name parts of a path.
fn split_path(p: &str) -> (r: (String, String))
    ensures
        r.0@ == dir_part(p@),
        r.1@ == name_part(p@),
{
    let cs = chars_of(p);
    let mut i: usize = cs.len();
    assert(p@.take(i as int) =~= p@);
    while i > 0
        invariant_except_break
            i <= cs@.len(),
            cs@ == p@,
            last_slash(p@) == last_slash(p@.take(i as int)),
        ensures
            cs@ == p@,
            i <= cs@.len(),
            (i > 0 && cs@[i - 1] == '/' && last_slash(p@) == Some(i - 1)) || (i == 0 && last_slash(p@) is None),
        decreases i,
    {
        proof {
            assert(p@.take(i as int).drop_last() =~= p@.take(i - 1));
            assert(p@.take(i as int).last() == p@[i - 1]);
        }
        if cs[i - 1] == '/' {
            break;
        }
        i -= 1;
    }
    if i == 0 {
        assert(p@.take(0) =~= Seq::<char>::empty());
        (String::new(), p.to_owned())
    } else {
        let mut d: Vec<char> = Vec::new();
        let mut k: usize = 0;
        while k < i - 1
            invariant
                k <= i - 1,
                i <= cs@.len(),
                d@ == cs@.take(k as int),
            decreases i - 1 - k,
        {
            d.push(cs[k]);
            assert(cs@.take(k + 1) =~= cs@.take(k as int).push(cs@[k as int]));
            k += 1;
        }
        let mut n: Vec<char> = Vec::new();
        let mut m: usize = i;
        while m < cs.len()
            invariant
                i <= m <= cs@.len(),
                n@ == cs@.subrange(i as int, m as int),
            decreases cs@.len() - m,
        {
            n.push(cs[m]);
            assert(cs@.subrange(i as int, m + 1) =~= cs@.subrange(i as int, m as int).push(cs@[m as int]));
            m += 1;
        }
        assert(n@ =~= p@.skip(i as int));
        (string_of(&d), string_of(&n))
    }
}

/// The status as the details sheet names it.
pub open spec fn status_title(s: FileStatus) -> Seq<char> {
    match s {
        FileStatus::Added => "Added"@,
        FileStatus::Modified => "Modified"@,
        FileStatus::Deleted => "Deleted"@,
        FileStatus::Renamed => "Renamed"@,
        FileStatus::Copied => "Copied"@,
        FileStatus::TypeChanged => "Type Changed"@,
        FileStatus::Unchanged => "Unchanged"@,
    }
}

/// The status as the file-tree sheet names it.
pub open spec fn status_word(s: FileStatus) -> Seq<char> {
    match s {
        FileStatus::Added => "added"@,
        FileStatus::Modified => "modified"@,
        FileStatus::Deleted => "deleted"@,
        FileStatus::Renamed => "renamed"@,
        FileStatus::Copied => "copied"@,
        FileStatus::TypeChanged => "type-changed"@,
        FileStatus::Unchanged => "unchanged"@,
    }
}

/// The status as the details sheet names it.
fn status_title_text(s: FileStatus) -> (r: &'static str)
    ensures
        r@ == status_title(s),
{
    match s {
        FileStatus::Added => "Added",
        FileStatus::Modified => "Modified",
        FileStatus::Deleted => "Deleted",
        FileStatus::Renamed => "Renamed",
        FileStatus::Copied => "Copied",
        FileStatus::TypeChanged => "Type Changed",
        FileStatus::Unchanged => "Unchanged",
    }
}

/// The status as the file-tree sheet names it.
fn status_word_text(s: FileStatus) -> (r: &'static str)
    ensures
        r@ == status_word(s),
{
    match s {
        FileStatus::Added => "added",
        FileStatus::Modified => "modified",
        FileStatus::Deleted => "deleted",
        FileStatus::Renamed => "renamed",
        FileStatus::Copied => "copied",
        FileStatus::TypeChanged => "type-changed",
        FileStatus::Unchanged => "unchanged",
    }
}

/// Where a renamed or copied file came from, with its similarity.
pub open spec fn origin_note(f: DiffFile) -> Seq<char> {
    match f.status {
        FileStatus::Renamed | FileStatus::Copied => match f.original_path {
            Some(o) => "from: "@ + o@ + similarity_note(f.similarity),
            None => Seq::empty(),
        },
        _ => Seq::empty(),
    }
}

/// Where a renamed or copied file came from.
fn origin_note_text(f: &DiffFile) -> (r: String)
    ensures
        r@ == origin_note(*f),
{
    let mut out: Vec<char> = Vec::new();
    match f.status {
        FileStatus::Renamed | FileStatus::Copied => {
            match &f.original_path {
                Some(o) => {
                    push_str(&mut out, "from: ");
                    push_str(&mut out, o.as_str());
                    let ghost mid = out@;
                    match f.similarity {
                        Some(n) => {
                            push_str(&mut out, " (");
                            push_decimal(&mut out, n as u64);
                            push_str(&mut out, "% similar)");
                        },
                        None => {},
                    }
                    assert(out@ =~= mid + similarity_note(f.similarity));
                },
                None => {},
            }
        },
        _ => {},
    }
    assert(out@ =~= origin_note(*f));
    string_of(&out)
}

/// The row of a file in the details sheet.
pub open spec fn details_row(f: DiffFile, row: nat) -> Seq<CellSpec> {
    seq![
        tc(row, 0, status_title(f.status), CellStyle::StatusCell(f.status)),
        tc(row, 1, dir_part(f.path@), CellStyle::Bordered),
        tc(row, 2, name_part(f.path@), CellStyle::Bordered),
        tc(row, 3, origin_note(f), CellStyle::Bordered),
    ]
}

/// The rows of the files in the details sheet, one per file from row 1.
pub open spec fn details_rows(files: Seq<DiffFile>) -> Seq<CellSpec>
    decreases files.len(),
{
    if files.len() == 0 {
        Seq::empty()
    } else {
        details_rows(files.drop_last()) + details_row(files.last(), files.len())
    }
}

/// The column headings of a sheet, from column 0.
pub open spec fn headings(titles: Seq<Seq<char>>) -> Seq<CellSpec> {
    Seq::new(titles.len(), |i: int| tc(0, i as nat, titles[i], CellStyle::TableHeader))
}

/// The details sheet of a two-way comparison.
pub fn details_sheet(files: &[DiffFile]) -> (r: SheetPlan)
    requires
        files@.len() < u32::MAX,
    ensures
        r.name@ == "Details"@,
        cells_view(r.cells@) == headings(seq!["Status"@, "Directory"@, "File"@, "Details"@]) + details_rows(files@),
        r.widths@ == seq![(0u16, 12u16), (1u16, 40u16), (2u16, 30u16), (3u16, 50u16)],
{
    let mut cells: Vec<Cell> = Vec::new();
    cells.push(lit_cell(0, 0, "Status", CellStyle::TableHeader));
    cells.push(lit_cell(0, 1, "Directory", CellStyle::TableHeader));
    cells.push(lit_cell(0, 2, "File", CellStyle::TableHeader));
    cells.push(lit_cell(0, 3, "Details", CellStyle::TableHeader));
    let ghost head = headings(seq!["Status"@, "Directory"@, "File"@, "Details"@]);
    assert(cells_view(cells@) =~= head + details_rows(files@.take(0)));
    let mut i: usize = 0;
    while i < files.len()
        invariant
            i <= files@.len(),
            files@.len() < u32::MAX,
            cells_view(cells@) == head + details_rows(files@.take(i as int)),
        decreases files@.len() - i,
    {
        let f = &files[i];
        let row: u32 = (i + 1) as u32;
        let (dir, name) = split_path(f.path.as_str());
        let ghost before = cells@;
        cells.push(lit_cell(row, 0, status_title_text(f.status), CellStyle::StatusCell(f.status)));
        cells.push(text_cell(row, 1, dir, CellStyle::Bordered));
        cells.push(text_cell(row, 2, name, CellStyle::Bordered));
        cells.push(text_cell(row, 3, origin_note_text(f), CellStyle::Bordered));
        proof {
            assert(files@.take(i + 1).drop_last() =~= files@.take(i as int));
            assert(files@.take(i + 1).last() == files@[i as int]);
            assert(cells_view(cells@) =~= cells_view(before) + details_row(files@[i as int], (i + 1) as nat));
        }
        i += 1;
    }
    assert(files@.take(files@.len() as int) =~= files@);
    let mut widths: Vec<(u16, u16)> = Vec::new();
    widths.push((0, 12));
    widths.push((1, 40));
    widths.push((2, 30));
    widths.push((3, 50));
    assert(widths@ =~= seq![(0u16, 12u16), (1u16, 40u16), (2u16, 30u16), (3u16, 50u16)]);
    SheetPlan { name: "Details".to_owned(), cells, widths }
}

} // verus!

verus! {

/// The rank of a path component in `Path`'s order: the root, then `.`,
/// then `..`, then names.
pub open spec fn component_rank(c: Seq<char>) -> nat {
    if c == seq!['/'] {
        0
    } else if c == seq!['.'] {
        1
    } else if c == seq!['.', '.'] {
        2
    } else {
        3
    }
}

/// Component `a` comes before component `b`.
pub open spec fn component_less(a: Seq<char>, b: Seq<char>) -> bool {
    if component_rank(a) != component_rank(b) {
        component_rank(a) < component_rank(b)
    } else {
        component_rank(a) == 3 && text_less(a, b)
    }
}

/// The components `a` come before the components `b`, the first that
/// differ deciding, a proper prefix first.
pub open spec fn components_less(a: Seq<Seq<char>>, b: Seq<Seq<char>>) -> bool
    decreases a.len(),
{
    if a.len() == 0 {
        b.len() > 0
    } else if b.len() == 0 {
        false
    } else if component_less(a[0], b[0]) {
        true
    } else if component_less(b[0], a[0]) {
        false
    } else {
        components_less(a.drop_first(), b.drop_first())
    }
}

/// Path `a` comes before path `b` in the order of `Path`: component by
/// component.
pub open spec fn path_less(a: Seq<char>, b: Seq<char>) -> bool {
    components_less(component_names(a), component_names(b))
}

/// The rank of a component.
fn rank_of(c: &Vec<char>) -> (r: u8)
    ensures
        r == component_rank(c@),
{
    if c.len() == 1 && c[0] == '/' {
        assert(c@ =~= seq!['/']);
        0
    } else if c.len() == 1 && c[0] == '.' {
        assert(c@ =~= seq!['.']);
        1
    } else if c.len() == 2 && c[0] == '.' && c[1] == '.' {
        assert(c@ =~= seq!['.', '.']);
        2
    } else {
        proof {
            if c@ == seq!['/'] {
                assert(c@[0] == '/');
            }
            if c@ == seq!['.'] {
                assert(c@[0] == '.');
            }
            if c@ == seq!['.', '.'] {
                assert(c@[0] == '.' && c@[1] == '.');
            }
        }
        3
    }
}

/// Whether component `a` comes before component `b`.
fn component_lt(a: &Vec<char>, b: &Vec<char>) -> (r: bool)
    ensures
        r == component_less(a@, b@),
{
    let ra = rank_of(a);
    let rb = rank_of(b);
    if ra != rb {
        ra < rb
    } else {
        ra == 3 && text_less_exec(a, b)
    }
}

/// Whether the components `a` come before the components `b`.
fn components_lt(a: &Vec<Vec<char>>, b: &Vec<Vec<char>>) -> (r: bool)
    ensures
        r == components_less(char_texts(a@), char_texts(b@)),
{
    let ghost ta = char_texts(a@);
    let ghost tb = char_texts(b@);
    let mut i: usize = 0;
    assert(ta.skip(0) =~= ta);
    assert(tb.skip(0) =~= tb);
    while i < a.len() && i < b.len()
        invariant
            i <= a@.len(),
            i <= b@.len(),
            ta == char_texts(a@),
            tb == char_texts(b@),
            components_less(ta, tb) == components_less(ta.skip(i as int), tb.skip(i as int)),
        decreases a@.len() - i,
    {
        proof {
            assert(ta.skip(i as int)[0] == a@[i as int]@);
            assert(tb.skip(i as int)[0] == b@[i as int]@);
            assert(ta.skip(i as int).drop_first() =~= ta.skip(i + 1));
            assert(tb.skip(i as int).drop_first() =~= tb.skip(i + 1));
        }
        if component_lt(&a[i], &b[i]) {
            return true;
        }
        if component_lt(&b[i], &a[i]) {
            return false;
        }
        i += 1;
    }
    b.len() > i
}

/// The order of the files by path, as a stable sort leaves it: each file
/// goes before the first earlier one whose path comes after its own.
pub open spec fn first_after(order: Seq<int>, paths: Seq<Seq<char>>, p: Seq<char>) -> nat
    decreases order.len(),
{
    if order.len() == 0 || path_less(p, paths[order[0]]) {
        0
    } else {
        1 + first_after(order.drop_first(), paths, p)
    }
}

/// The positions of the first `n` paths in sorted order (stable).
pub open spec fn path_order(paths: Seq<Seq<char>>, n: nat) -> Seq<int>
    decreases n,
{
    if n == 0 {
        Seq::empty()
    } else {
        let o = path_order(paths, (n - 1) as nat);
        o.insert(first_after(o, paths, paths[n - 1]) as int, n - 1)
    }
}

/// Every position in the order is below `n`.
proof fn lemma_path_order_bounds(paths: Seq<Seq<char>>, n: nat)
    ensures
        path_order(paths, n).len() == n,
        forall|k: int| 0 <= k < n ==> 0 <= #[trigger] path_order(paths, n)[k] < n,
    decreases n,
{
    if n > 0 {
        lemma_path_order_bounds(paths, (n - 1) as nat);
        let o = path_order(paths, (n - 1) as nat);
        lemma_first_after_bound(o, paths, paths[n - 1]);
    }
}

/// The insertion point is within the order.
proof fn lemma_first_after_bound(order: Seq<int>, paths: Seq<Seq<char>>, p: Seq<char>)
    ensures
        first_after(order, paths, p) <= order.len(),
    decreases order.len(),
{
    if order.len() > 0 {
        lemma_first_after_bound(order.drop_first(), paths, p);
    }
}

/// The file-tree sheet rows, in the given order from row 1.
pub open spec fn tree_rows(files: Seq<DiffFile>, order: Seq<int>) -> Seq<CellSpec>
    decreases order.len(),
{
    if order.len() == 0 {
        Seq::empty()
    } else {
        let f = files[order.last()];
        tree_rows(files, order.drop_last()) + seq![
            tc(order.len(), 0, f.path@, CellStyle::Mono),
            tc(order.len(), 1, status_word(f.status), CellStyle::StatusCell(f.status)),
        ]
    }
}

/// The sorted order of the files by path.
fn sorted_positions(files: &[DiffFile]) -> (r: Vec<usize>)
    ensures
        r@.len() == files@.len(),
        forall|k: int| 0 <= k < r@.len() ==> #[trigger] r@[k] as int == path_order(file_paths(files@), files@.len() as nat)[k],
        forall|k: int| 0 <= k < r@.len() ==> #[trigger] r@[k] < files@.len(),
{
    let ghost paths = file_paths(files@);
    let mut comps: Vec<Vec<Vec<char>>> = Vec::new();
    let mut i: usize = 0;
    while i < files.len()
        invariant
            i <= files@.len(),
            paths == file_paths(files@),
            comps@.len() == i,
            forall|k: int| 0 <= k < i ==> char_texts(#[trigger] comps@[k]@) == component_names(paths[k]),
        decreases files@.len() - i,
    {
        let c = component_list(files[i].path.as_str());
        assert(char_texts(c@) =~= component_names(paths[i as int]));
        comps.push(c);
        i += 1;
    }
    let mut order: Vec<usize> = Vec::new();
    let mut n: usize = 0;
    while n < files.len()
        invariant
            n <= files@.len(),
            paths == file_paths(files@),
            comps@.len() == files@.len(),
            forall|k: int| 0 <= k < files@.len() ==> char_texts(#[trigger] comps@[k]@) == component_names(paths[k]),
            order@.len() == n,
            forall|k: int| 0 <= k < n ==> #[trigger] order@[k] as int == path_order(paths, n as nat)[k],
            forall|k: int| 0 <= k < n ==> #[trigger] order@[k] < n,
        decreases files@.len() - n,
    {
        let ghost o = path_order(paths, n as nat);
        proof {
            lemma_path_order_bounds(paths, n as nat);
            assert(o.skip(0) =~= o);
        }
        let mut j: usize = 0;
        while j < order.len()
            invariant_except_break
                j <= order@.len(),
                order@.len() == n,
                o.len() == n,
                n < files@.len(),
                comps@.len() == files@.len(),
                forall|k: int| 0 <= k < files@.len() ==> char_texts(#[trigger] comps@[k]@) == component_names(paths[k]),
                forall|k: int| 0 <= k < n ==> #[trigger] order@[k] as int == o[k],
                forall|k: int| 0 <= k < n ==> #[trigger] order@[k] < n,
                first_after(o, paths, paths[n as int]) == j + first_after(o.skip(j as int), paths, paths[n as int]),
            ensures
                j <= order@.len(),
                first_after(o, paths, paths[n as int]) == j,
            decreases order@.len() - j,
        {
            proof {
                assert(o.skip(j as int)[0] == o[j as int]);
                assert(o.skip(j as int).drop_first() =~= o.skip(j + 1));
            }
            if components_lt(&comps[n], &comps[order[j]]) {
                break;
            }
            j += 1;
        }
        proof {
            if j == order@.len() {
                assert(o.skip(j as int).len() == 0);
            }
        }
        let ghost before = order@;
        order.insert(j, n);
        proof {
            let o2 = path_order(paths, (n + 1) as nat);
            assert(o2 == o.insert(j as int, n as int));
            assert forall|k: int| 0 <= k < n + 1 implies #[trigger] order@[k] as int == o2[k] && order@[k] < n + 1 by {
                if k < j {
                    assert(order@[k] == before[k]);
                } else if k > j {
                    assert(order@[k] == before[k - 1]);
                }
            }
        }
        n += 1;
    }
    order
}

} // verus!

verus! {

/// The file-tree sheet of a two-way comparison: each file's path and
/// status, sorted by path.
pub fn file_tree_sheet(files: &[DiffFile]) -> (r: SheetPlan)
    requires
        files@.len() < u32::MAX,
    ensures
        r.name@ == "File Tree"@,
        cells_view(r.cells@) == headings(seq!["Path"@, "Status"@]) + tree_rows(
            files@,
            path_order(file_paths(files@), files@.len() as nat),
        ),
        r.widths@ == seq![(0u16, 60u16), (1u16, 15u16)],
{
    let order = sorted_positions(files);
    let ghost o = path_order(file_paths(files@), files@.len() as nat);
    let mut cells: Vec<Cell> = Vec::new();
    cells.push(lit_cell(0, 0, "Path", CellStyle::TableHeader));
    cells.push(lit_cell(0, 1, "Status", CellStyle::TableHeader));
    let ghost head = headings(seq!["Path"@, "Status"@]);
    proof {
        lemma_path_order_bounds(file_paths(files@), files@.len() as nat);
    }
    assert(cells_view(cells@) =~= head + tree_rows(files@, o.take(0)));
    let mut i: usize = 0;
    while i < order.len()
        invariant
            i <= order@.len(),
            order@.len() == files@.len(),
            files@.len() < u32::MAX,
            o.len() == files@.len(),
            forall|k: int| 0 <= k < order@.len() ==> #[trigger] order@[k] as int == o[k],
            forall|k: int| 0 <= k < order@.len() ==> #[trigger] order@[k] < files@.len(),
            cells_view(cells@) == head + tree_rows(files@, o.take(i as int)),
        decreases order@.len() - i,
    {
        let f = &files[order[i]];
        let row: u32 = (i + 1) as u32;
        let ghost before = cells@;
        cells.push(lit_cell(row, 0, f.path.as_str(), CellStyle::Mono));
        cells.push(lit_cell(row, 1, status_word_text(f.status), CellStyle::StatusCell(f.status)));
        proof {
            let t = o.take(i + 1);
            assert(t.drop_last() =~= o.take(i as int));
            assert(t.last() == o[i as int]);
            assert(t.len() == i + 1);
            assert(files@[t.last()] == *f);
            assert(row as nat == t.len());
            assert(cells_view(cells@) =~= cells_view(before) + seq![
                tc(t.len(), 0, f.path@, CellStyle::Mono),
                tc(t.len(), 1, status_word(f.status), CellStyle::StatusCell(f.status)),
            ]);
            assert(cells_view(cells@) =~= head + tree_rows(files@, t));
        }
        i += 1;
    }
    assert(o.take(o.len() as int) =~= o);
    let mut widths: Vec<(u16, u16)> = Vec::new();
    widths.push((0, 60));
    widths.push((1, 15));
    assert(widths@ =~= seq![(0u16, 60u16), (1u16, 15u16)]);
    SheetPlan { name: "File Tree".to_owned(), cells, widths }
}

} // verus!

verus! {

/// The cells of the summary sheet of a three-way comparison.
pub open spec fn three_way_summary_cells(
    s: ThreeWayStatistics,
    repo: Seq<char>,
    base_ref: Seq<char>,
    base_commit: Seq<char>,
    ours_ref: Seq<char>,
    ours_commit: Seq<char>,
    theirs_ref: Seq<char>,
    theirs_commit: Seq<char>,
) -> Seq<CellSpec> {
    seq![
        tc(0, 0, "rs_gitdiffcopy Summary (Three-way)"@, CellStyle::Title),
        tc(2, 0, "Repository:"@, CellStyle::Label),
        tc(2, 1, repo, CellStyle::Plain),
        tc(3, 0, "Base ref:"@, CellStyle::Label),
        tc(3, 1, ref_text(base_ref, base_commit), CellStyle::Plain),
        tc(4, 0, "Ours ref:"@, CellStyle::Label),
        tc(4, 1, ref_text(ours_ref, ours_commit), CellStyle::Plain),
        tc(5, 0, "Theirs ref:"@, CellStyle::Label),
        tc(5, 1, ref_text(theirs_ref, theirs_commit), CellStyle::Plain),
        tc(7, 0, "Statistics"@, CellStyle::SectionHeader),
        tc(7, 1, ""@, CellStyle::SectionHeader),
        tc(8, 0, "Unchanged:"@, CellStyle::Plain),
        nc(8, 1, s.unchanged as nat),
        tc(9, 0, "Ours only:"@, CellStyle::Plain),
        nc(9, 1, s.ours_only as nat),
        tc(10, 0, "Theirs only:"@, CellStyle::Plain),
        nc(10, 1, s.theirs_only as nat),
        tc(11, 0, "Both same:"@, CellStyle::Plain),
        nc(11, 1, s.both_same as nat),
        tc(12, 0, "Conflict:"@, CellStyle::Plain),
        nc(12, 1, s.conflict as nat),
        tc(13, 0, "Added (ours):"@, CellStyle::Plain),
        nc(13, 1, s.added_ours as nat),
        tc(14, 0, "Added (theirs):"@, CellStyle::Plain),
        nc(14, 1, s.added_theirs as nat),
        tc(15, 0, "Deleted (ours):"@, CellStyle::Plain),
        nc(15, 1, s.deleted_ours as nat),
        tc(16, 0, "Deleted (theirs):"@, CellStyle::Plain),
        nc(16, 1, s.deleted_theirs as nat),
        tc(17, 0, "Total:"@, CellStyle::Label),
        nc(17, 1, three_way_total(s) as nat),
        tc(18, 0, "Total Conflicts:"@, CellStyle::ConflictLabel),
        nc(18, 1, three_way_conflicts(s) as nat),
    ]
}

/// The summary sheet of a three-way comparison.
pub fn three_way_summary_sheet(
    stats: &ThreeWayStatistics,
    base_ref: &str,
    base_commit: &str,
    ours_ref: &str,
    ours_commit: &str,
    theirs_ref: &str,
    theirs_commit: &str,
    repo: &str,
) -> (r: SheetPlan)
    requires
        three_way_total(*stats) <= usize::MAX,
        prefix_on_boundary(base_commit@, 7),
        prefix_on_boundary(ours_commit@, 7),
        prefix_on_boundary(theirs_commit@, 7),
    ensures
        r.name@ == "Summary"@,
        cells_view(r.cells@) == three_way_summary_cells(
            *stats,
            repo@,
            base_ref@,
            base_commit@,
            ours_ref@,
            ours_commit@,
            theirs_ref@,
            theirs_commit@,
        ),
        r.widths@ == seq![(0u16, 20u16), (1u16, 50u16)],
{
    let mut cells: Vec<Cell> = Vec::new();
    cells.push(lit_cell(0, 0, "rs_gitdiffcopy Summary (Three-way)", CellStyle::Title));
    cells.push(lit_cell(2, 0, "Repository:", CellStyle::Label));
    cells.push(lit_cell(2, 1, repo, CellStyle::Plain));
    cells.push(lit_cell(3, 0, "Base ref:", CellStyle::Label));
    cells.push(text_cell(3, 1, ref_cell_text(base_ref, base_commit), CellStyle::Plain));
    cells.push(lit_cell(4, 0, "Ours ref:", CellStyle::Label));
    cells.push(text_cell(4, 1, ref_cell_text(ours_ref, ours_commit), CellStyle::Plain));
    cells.push(lit_cell(5, 0, "Theirs ref:", CellStyle::Label));
    cells.push(text_cell(5, 1, ref_cell_text(theirs_ref, theirs_commit), CellStyle::Plain));
    cells.push(lit_cell(7, 0, "Statistics", CellStyle::SectionHeader));
    cells.push(lit_cell(7, 1, "", CellStyle::SectionHeader));
    cells.push(lit_cell(8, 0, "Unchanged:", CellStyle::Plain));
    cells.push(number_cell(8, 1, stats.unchanged));
    cells.push(lit_cell(9, 0, "Ours only:", CellStyle::Plain));
    cells.push(number_cell(9, 1, stats.ours_only));
    cells.push(lit_cell(10, 0, "Theirs only:", CellStyle::Plain));
    cells.push(number_cell(10, 1, stats.theirs_only));
    cells.push(lit_cell(11, 0, "Both same:", CellStyle::Plain));
    cells.push(number_cell(11, 1, stats.both_same));
    cells.push(lit_cell(12, 0, "Conflict:", CellStyle::Plain));
    cells.push(number_cell(12, 1, stats.conflict));
    cells.push(lit_cell(13, 0, "Added (ours):", CellStyle::Plain));
    cells.push(number_cell(13, 1, stats.added_ours));
    cells.push(lit_cell(14, 0, "Added (theirs):", CellStyle::Plain));
    cells.push(number_cell(14, 1, stats.added_theirs));
    cells.push(lit_cell(15, 0, "Deleted (ours):", CellStyle::Plain));
    cells.push(number_cell(15, 1, stats.deleted_ours));
    cells.push(lit_cell(16, 0, "Deleted (theirs):", CellStyle::Plain));
    cells.push(number_cell(16, 1, stats.deleted_theirs));
    cells.push(lit_cell(17, 0, "Total:", CellStyle::Label));
    cells.push(number_cell(17, 1, stats.total()));
    proof {
        assert(three_way_conflicts(*stats) <= three_way_total(*stats));
    }
    cells.push(lit_cell(18, 0, "Total Conflicts:", CellStyle::ConflictLabel));
    cells.push(number_cell(18, 1, stats.conflicts()));
    let mut widths: Vec<(u16, u16)> = Vec::new();
    widths.push((0, 20));
    widths.push((1, 50));
    assert(cells_view(cells@) =~= three_way_summary_cells(
        *stats,
        repo@,
        base_ref@,
        base_commit@,
        ours_ref@,
        ours_commit@,
        theirs_ref@,
        theirs_commit@,
    ));
    assert(widths@ =~= seq![(0u16, 20u16), (1u16, 50u16)]);
    SheetPlan { name: "Summary".to_owned(), cells, widths }
}

/// The rows of the three-way file-tree sheet, in the files' order.
pub open spec fn three_way_tree_rows(files: Seq<ThreeWayDiffFile>) -> Seq<CellSpec>
    decreases files.len(),
{
    if files.len() == 0 {
        Seq::empty()
    } else {
        let f = files.last();
        three_way_tree_rows(files.drop_last()) + seq![
            tc(files.len(), 0, f.path@, CellStyle::Bordered),
            tc(files.len(), 1, three_way_tag(f.status), CellStyle::Bordered),
        ]
    }
}

/// The file-tree sheet of a three-way comparison.
pub fn three_way_tree_sheet(files: &[ThreeWayDiffFile]) -> (r: SheetPlan)
    requires
        files@.len() < u32::MAX,
    ensures
        r.name@ == "File Tree"@,
        cells_view(r.cells@) == headings(seq!["Path"@, "Status"@]) + three_way_tree_rows(files@),
        r.widths@ == seq![(0u16, 60u16), (1u16, 20u16)],
{
    let mut cells: Vec<Cell> = Vec::new();
    cells.push(lit_cell(0, 0, "Path", CellStyle::TableHeader));
    cells.push(lit_cell(0, 1, "Status", CellStyle::TableHeader));
    let ghost head = headings(seq!["Path"@, "Status"@]);
    assert(cells_view(cells@) =~= head + three_way_tree_rows(files@.take(0)));
    let mut i: usize = 0;
    while i < files.len()
        invariant
            i <= files@.len(),
            files@.len() < u32::MAX,
            cells_view(cells@) == head + three_way_tree_rows(files@.take(i as int)),
        decreases files@.len() - i,
    {
        let f = &files[i];
        let row: u32 = (i + 1) as u32;
        let ghost before = cells@;
        cells.push(lit_cell(row, 0, f.path.as_str(), CellStyle::Bordered));
        cells.push(lit_cell(row, 1, f.status.tag(), CellStyle::Bordered));
        proof {
            let t = files@.take(i + 1);
            assert(t.drop_last() =~= files@.take(i as int));
            assert(t.last() == *f);
            assert(t.len() == i + 1);
            assert(row as nat == t.len());
            assert(cells_view(cells@) =~= cells_view(before) + seq![
                tc(t.len(), 0, f.path@, CellStyle::Bordered),
                tc(t.len(), 1, three_way_tag(f.status), CellStyle::Bordered),
            ]);
            assert(cells_view(cells@) =~= head + three_way_tree_rows(t));
        }
        i += 1;
    }
    assert(files@.take(files@.len() as int) =~= files@);
    let mut widths: Vec<(u16, u16)> = Vec::new();
    widths.push((0, 60));
    widths.push((1, 20));
    assert(widths@ =~= seq![(0u16, 60u16), (1u16, 20u16)]);
    SheetPlan { name: "File Tree".to_owned(), cells, widths }
}

/// The first eight bytes of a blob id, or nothing.
pub open spec fn short_blob(b: Option<String>) -> Seq<char> {
    match b {
        Some(s) => byte_prefix(s@, 8),
        None => Seq::empty(),
    }
}

/// The row of the `row`-th conflict.
pub open spec fn conflict_row(f: ThreeWayDiffFile, row: nat) -> Seq<CellSpec> {
    seq![
        tc(row, 0, dir_part(f.path@), CellStyle::Bordered),
        tc(row, 1, name_part(f.path@), CellStyle::Bordered),
        tc(row, 2, three_way_tag(f.status), CellStyle::Bordered),
        tc(row, 3, short_blob(f.base_blob), CellStyle::Bordered),
        tc(row, 4, short_blob(f.ours_blob), CellStyle::Bordered),
        tc(row, 5, short_blob(f.theirs_blob), CellStyle::Bordered),
    ]
}

/// The rows of the conflicting files, numbered from one.
pub open spec fn conflict_rows(files: Seq<ThreeWayDiffFile>) -> Seq<CellSpec>
    decreases files.len(),
{
    if files.len() == 0 {
        Seq::empty()
    } else if is_conflict_status(files.last().status) {
        conflict_rows(files.drop_last()) + conflict_row(files.last(), count_conflicting(files.drop_last()) + 1)
    } else {
        conflict_rows(files.drop_last())
    }
}

/// The first eight bytes of a blob id, or nothing.
fn short_blob_text(b: &Option<String>) -> (r: String)
    requires
        b matches Some(s) ==> prefix_on_boundary(s@, 8),
    ensures
        r@ == short_blob(*b),
{
    match b {
        Some(s) => short_prefix(s.as_str(), 8),
        None => String::new(),
    }
}

/// The conflicts sheet of a three-way comparison.
pub fn conflicts_sheet(files: &[ThreeWayDiffFile]) -> (r: SheetPlan)
    requires
        files@.len() < u32::MAX,
        conflict_blobs_cut(files@),
    ensures
        r.name@ == "Conflicts"@,
        cells_view(r.cells@) == headings(
            seq!["Directory"@, "Filename"@, "Type"@, "Base Hash"@, "Ours Hash"@, "Theirs Hash"@],
        ) + conflict_rows(files@),
        r.widths@ == seq![(0u16, 20u16), (1u16, 20u16), (2u16, 20u16), (3u16, 20u16), (4u16, 20u16), (5u16, 20u16)],
{
    let mut cells: Vec<Cell> = Vec::new();
    cells.push(lit_cell(0, 0, "Directory", CellStyle::TableHeader));
    cells.push(lit_cell(0, 1, "Filename", CellStyle::TableHeader));
    cells.push(lit_cell(0, 2, "Type", CellStyle::TableHeader));
    cells.push(lit_cell(0, 3, "Base Hash", CellStyle::TableHeader));
    cells.push(lit_cell(0, 4, "Ours Hash", CellStyle::TableHeader));
    cells.push(lit_cell(0, 5, "Theirs Hash", CellStyle::TableHeader));
    let ghost head = headings(seq!["Directory"@, "Filename"@, "Type"@, "Base Hash"@, "Ours Hash"@, "Theirs Hash"@]);
    assert(cells_view(cells@) =~= head + conflict_rows(files@.take(0)));
    let mut count: u32 = 0;
    let mut i: usize = 0;
    while i < files.len()
        invariant
            i <= files@.len(),
            files@.len() < u32::MAX,
            conflict_blobs_cut(files@),
            count == count_conflicting(files@.take(i as int)),
            count <= i,
            cells_view(cells@) == head + conflict_rows(files@.take(i as int)),
        decreases files@.len() - i,
    {
        let f = &files[i];
        let ghost before = cells@;
        proof {
            let t = files@.take(i + 1);
            assert(t.drop_last() =~= files@.take(i as int));
            assert(t.last() == *f);
            lemma_conflicts_bounded(files@.take(i as int));
        }
        if f.status.is_conflict() {
            count = count + 1;
            let (dir, name) = split_path(f.path.as_str());
            cells.push(text_cell(count, 0, dir, CellStyle::Bordered));
            cells.push(text_cell(count, 1, name, CellStyle::Bordered));
            cells.push(lit_cell(count, 2, f.status.tag(), CellStyle::Bordered));
            cells.push(text_cell(count, 3, short_blob_text(&f.base_blob), CellStyle::Bordered));
            cells.push(text_cell(count, 4, short_blob_text(&f.ours_blob), CellStyle::Bordered));
            cells.push(text_cell(count, 5, short_blob_text(&f.theirs_blob), CellStyle::Bordered));
            assert(cells_view(cells@) =~= cells_view(before) + conflict_row(*f, count as nat));
        }
        i += 1;
    }
    assert(files@.take(files@.len() as int) =~= files@);
    let mut widths: Vec<(u16, u16)> = Vec::new();
    let mut col: u16 = 0;
    while col < 6
        invariant
            col <= 6,
            widths@ == Seq::new(col as nat, |k: int| (k as u16, 20u16)),
        decreases 6 - col,
    {
        widths.push((col, 20));
        assert(widths@ =~= Seq::new((col + 1) as nat, |k: int| (k as u16, 20u16)));
        col += 1;
    }
    assert(widths@ =~= seq![(0u16, 20u16), (1u16, 20u16), (2u16, 20u16), (3u16, 20u16), (4u16, 20u16), (5u16, 20u16)]);
    SheetPlan { name: "Conflicts".to_owned(), cells, widths }
}

/// The number of conflicting files never exceeds the number of files.
proof fn lemma_conflicts_bounded(files: Seq<ThreeWayDiffFile>)
    ensures
        count_conflicting(files) <= files.len(),
    decreases files.len(),
{
    if files.len() > 0 {
        lemma_conflicts_bounded(files.drop_last());
    }
}

/// The files listed on the copied-files sheet: all but the unchanged ones
/// and those deleted on both sides.
pub open spec fn listed_as_copied(s: ThreeWayStatus) -> bool {
    !(s == ThreeWayStatus::Unchanged || s == ThreeWayStatus::DeletedBoth)
}

/// Where a copied file was taken from.
pub open spec fn copy_source(s: ThreeWayStatus) -> Seq<char> {
    match s {
        ThreeWayStatus::OursOnly | ThreeWayStatus::AddedOurs => "ours"@,
        ThreeWayStatus::TheirsOnly | ThreeWayStatus::AddedTheirs => "theirs"@,
        ThreeWayStatus::BothSame | ThreeWayStatus::AddedBothSame => "ours (same)"@,
        ThreeWayStatus::DeletedOurs | ThreeWayStatus::DeletedTheirs => "base"@,
        _ => if is_conflict_status(s) {
            "conflict"@
        } else {
            ""@
        },
    }
}

/// Number of files listed on the copied-files sheet.
pub open spec fn count_listed(files: Seq<ThreeWayDiffFile>) -> nat
    decreases files.len(),
{
    if files.len() == 0 {
        0
    } else {
        count_listed(files.drop_last()) + if listed_as_copied(files.last().status) {
            1nat
        } else {
            0nat
        }
    }
}

/// The row of the `row`-th listed file.
pub open spec fn copied_row(f: ThreeWayDiffFile, row: nat) -> Seq<CellSpec> {
    seq![
        tc(row, 0, dir_part(f.path@), CellStyle::Bordered),
        tc(row, 1, name_part(f.path@), CellStyle::Bordered),
        tc(row, 2, three_way_tag(f.status), CellStyle::Bordered),
        tc(row, 3, copy_source(f.status), CellStyle::Bordered),
    ]
}

/// The rows of the listed files, numbered from one.
pub open spec fn copied_rows(files: Seq<ThreeWayDiffFile>) -> Seq<CellSpec>
    decreases files.len(),
{
    if files.len() == 0 {
        Seq::empty()
    } else if listed_as_copied(files.last().status) {
        copied_rows(files.drop_last()) + copied_row(files.last(), count_listed(files.drop_last()) + 1)
    } else {
        copied_rows(files.drop_last())
    }
}

/// The number of listed files never exceeds the number of files.
proof fn lemma_listed_bounded(files: Seq<ThreeWayDiffFile>)
    ensures
        count_listed(files) <= files.len(),
    decreases files.len(),
{
    if files.len() > 0 {
        lemma_listed_bounded(files.drop_last());
    }
}

/// Where a copied file was taken from.
fn copy_source_text(s: ThreeWayStatus) -> (r: &'static str)
    ensures
        r@ == copy_source(s),
{
    match s {
        ThreeWayStatus::OursOnly | ThreeWayStatus::AddedOurs => "ours",
        ThreeWayStatus::TheirsOnly | ThreeWayStatus::AddedTheirs => "theirs",
        ThreeWayStatus::BothSame | ThreeWayStatus::AddedBothSame => "ours (same)",
        ThreeWayStatus::DeletedOurs | ThreeWayStatus::DeletedTheirs => "base",
        _ => if s.is_conflict() {
            "conflict"
        } else {
            ""
        },
    }
}

/// The copied-files sheet of a three-way comparison.
pub fn copied_files_sheet(files: &[ThreeWayDiffFile]) -> (r: SheetPlan)
    requires
        files@.len() < u32::MAX,
    ensures
        r.name@ == "Copied Files"@,
        cells_view(r.cells@) == headings(seq!["Directory"@, "Filename"@, "Status"@, "Source"@]) + copied_rows(files@),
        r.widths@ == seq![(0u16, 40u16), (1u16, 30u16), (2u16, 15u16), (3u16, 15u16)],
{
    let mut cells: Vec<Cell> = Vec::new();
    cells.push(lit_cell(0, 0, "Directory", CellStyle::TableHeader));
    cells.push(lit_cell(0, 1, "Filename", CellStyle::TableHeader));
    cells.push(lit_cell(0, 2, "Status", CellStyle::TableHeader));
    cells.push(lit_cell(0, 3, "Source", CellStyle::TableHeader));
    let ghost head = headings(seq!["Directory"@, "Filename"@, "Status"@, "Source"@]);
    assert(cells_view(cells@) =~= head + copied_rows(files@.take(0)));
    let mut count: u32 = 0;
    let mut i: usize = 0;
    while i < files.len()
        invariant
            i <= files@.len(),
            files@.len() < u32::MAX,
            count == count_listed(files@.take(i as int)),
            count <= i,
            cells_view(cells@) == head + copied_rows(files@.take(i as int)),
        decreases files@.len() - i,
    {
        let f = &files[i];
        let ghost before = cells@;
        proof {
            let t = files@.take(i + 1);
            assert(t.drop_last() =~= files@.take(i as int));
            assert(t.last() == *f);
            lemma_listed_bounded(files@.take(i as int));
        }
        let listed = match f.status {
            ThreeWayStatus::Unchanged | ThreeWayStatus::DeletedBoth => false,
            _ => true,
        };
        if listed {
            count = count + 1;
            let (dir, name) = split_path(f.path.as_str());
            cells.push(text_cell(count, 0, dir, CellStyle::Bordered));
            cells.push(text_cell(count, 1, name, CellStyle::Bordered));
            cells.push(lit_cell(count, 2, f.status.tag(), CellStyle::Bordered));
            cells.push(lit_cell(count, 3, copy_source_text(f.status), CellStyle::Bordered));
            assert(cells_view(cells@) =~= cells_view(before) + copied_row(*f, count as nat));
        }
        i += 1;
    }
    assert(files@.take(files@.len() as int) =~= files@);
    let mut widths: Vec<(u16, u16)> = Vec::new();
    widths.push((0, 40));
    widths.push((1, 30));
    widths.push((2, 15));
    widths.push((3, 15));
    assert(widths@ =~= seq![(0u16, 40u16), (1u16, 30u16), (2u16, 15u16), (3u16, 15u16)]);
    SheetPlan { name: "Copied Files".to_owned(), cells, widths }
}

} // verus!

verus! {

/// The sheet is the file-tree sheet of a two-way comparison.
pub open spec fn is_file_tree_sheet(p: SheetPlan, files: Seq<DiffFile>) -> bool {
    &&& p.name@ == "File Tree"@
    &&& cells_view(p.cells@) == headings(seq!["Path"@, "Status"@]) + tree_rows(
        files,
        path_order(file_paths(files), files.len() as nat),
    )
    &&& p.widths@ == seq![(0u16, 60u16), (1u16, 15u16)]
}

/// The sheet is the details sheet of a two-way comparison.
pub open spec fn is_details_sheet(p: SheetPlan, files: Seq<DiffFile>) -> bool {
    &&& p.name@ == "Details"@
    &&& cells_view(p.cells@) == headings(seq!["Status"@, "Directory"@, "File"@, "Details"@]) + details_rows(files)
    &&& p.widths@ == seq![(0u16, 12u16), (1u16, 40u16), (2u16, 30u16), (3u16, 50u16)]
}

/// Writes the workbook report of a comparison.
pub struct ExcelWriter<'a> {
    pub config: &'a MergedConfig,
}

impl<'a> ExcelWriter<'a> {
    /// A writer for the settings.
    pub fn new(config: &'a MergedConfig) -> (r: ExcelWriter<'a>)
        ensures
            r.config == config,
    {
        ExcelWriter { config }
    }

    /// The sheets of a two-way comparison: the summary (dated when it is
    /// made), the file tree and the details.
    pub fn write_two_way(
        &self,
        files: &[DiffFile],
        stats: &Statistics,
        source_ref: &str,
        source_commit: &str,
        target_ref: &str,
        target_commit: &str,
        repo: &str,
    ) -> (r: Vec<SheetPlan>)
        requires
            statistics_total(*stats) <= usize::MAX,
            prefix_on_boundary(source_commit@, 7),
            prefix_on_boundary(target_commit@, 7),
            files@.len() < u32::MAX,
        ensures
            r@.len() == 3,
            r@[0].name@ == "Summary"@,
            exists|date: Seq<char>|
                cells_view(r@[0].cells@) == #[trigger] summary_cells(
                    self.config.output@,
                    *stats,
                    repo@,
                    source_ref@,
                    source_commit@,
                    target_ref@,
                    target_commit@,
                    date,
                ),
            r@[0].widths@ == seq![(0u16, 20u16), (1u16, 50u16)],
            is_file_tree_sheet(r@[1], files@),
            is_details_sheet(r@[2], files@),
    {
        let date = local_time_text("%Y-%m-%d %H:%M:%S");
        let mut sheets: Vec<SheetPlan> = Vec::new();
        sheets.push(
            summary_sheet(
                self.config,
                stats,
                source_ref,
                source_commit,
                target_ref,
                target_commit,
                repo,
                date.as_str(),
            ),
        );
        sheets.push(file_tree_sheet(files));
        sheets.push(details_sheet(files));
        sheets
    }

    /// The sheets of a three-way comparison: the summary, the file tree,
    /// the conflicts and the copied files.
    pub fn write_three_way(
        &self,
        files: &[ThreeWayDiffFile],
        stats: &ThreeWayStatistics,
        base_ref: &str,
        base_commit: &str,
        ours_ref: &str,
        ours_commit: &str,
        theirs_ref: &str,
        theirs_commit: &str,
        repo: &str,
    ) -> (r: Vec<SheetPlan>)
        requires
            three_way_total(*stats) <= usize::MAX,
            prefix_on_boundary(base_commit@, 7),
            prefix_on_boundary(ours_commit@, 7),
            prefix_on_boundary(theirs_commit@, 7),
            conflict_blobs_cut(files@),
            files@.len() < u32::MAX,
        ensures
            r@.len() == 4,
            r@[0].name@ == "Summary"@,
            cells_view(r@[0].cells@) == three_way_summary_cells(
                *stats,
                repo@,
                base_ref@,
                base_commit@,
                ours_ref@,
                ours_commit@,
                theirs_ref@,
                theirs_commit@,
            ),
            r@[0].widths@ == seq![(0u16, 20u16), (1u16, 50u16)],
            r@[1].name@ == "File Tree"@,
            cells_view(r@[1].cells@) == headings(seq!["Path"@, "Status"@]) + three_way_tree_rows(files@),
            r@[2].name@ == "Conflicts"@,
            cells_view(r@[2].cells@) == headings(
                seq!["Directory"@, "Filename"@, "Type"@, "Base Hash"@, "Ours Hash"@, "Theirs Hash"@],
            ) + conflict_rows(files@),
            r@[3].name@ == "Copied Files"@,
            cells_view(r@[3].cells@) == headings(seq!["Directory"@, "Filename"@, "Status"@, "Source"@])
                + copied_rows(files@),
    {
        let mut sheets: Vec<SheetPlan> = Vec::new();
        sheets.push(
            three_way_summary_sheet(stats, base_ref, base_commit, ours_ref, ours_commit, theirs_ref, theirs_commit, repo),
        );
        sheets.push(three_way_tree_sheet(files));
        sheets.push(conflicts_sheet(files));
        sheets.push(copied_files_sheet(files));
        sheets
    }
}

/// In the row of the label `label`, every number in the column beside it is `n`.
pub open spec fn count_beside(cells: Seq<CellSpec>, label: Seq<char>, n: nat) -> bool {
    exists|i: int|
        0 <= i < cells.len() && (#[trigger] cells[i]).col == 0 && cells[i].content == CellContent::Text(label)
            && forall|j: int|
            0 <= j < cells.len() && (#[trigger] cells[j]).row == cells[i].row && cells[j].col == 1 ==> cells[j].content
                == CellContent::Number(n)
}

/// On the Summary sheet the number beside each status label is the number
/// of files with that status: beside `Added:` the added files, beside
/// `Deleted:` the deleted ones, and so on.
#[verifier::spinoff_prover]
#[verifier::rlimit(100)]
pub proof fn law_summary_sheet_counts_beside_labels(
    files: Seq<DiffFile>,
    s: Statistics,
    output: Seq<char>,
    repo: Seq<char>,
    source_ref: Seq<char>,
    source_commit: Seq<char>,
    target_ref: Seq<char>,
    target_commit: Seq<char>,
    date: Seq<char>,
)
    requires
        statistics_of(files, s),
    ensures
        ({
            let c = summary_cells(output, s, repo, source_ref, source_commit, target_ref, target_commit, date);
            &&& count_beside(c, "Added:"@, count_status(files, FileStatus::Added))
            &&& count_beside(c, "Modified:"@, count_status(files, FileStatus::Modified))
            &&& count_beside(c, "Deleted:"@, count_status(files, FileStatus::Deleted))
            &&& count_beside(c, "Renamed:"@, count_status(files, FileStatus::Renamed))
            &&& count_beside(c, "Unchanged:"@, count_status(files, FileStatus::Unchanged))
        }),
{
    let c = summary_cells(output, s, repo, source_ref, source_commit, target_ref, target_commit, date);
    assert(c.len() == 25);
    assert(c[13].col == 0 && c[13].content == CellContent::Text("Added:"@));
    assert forall|j: int| 0 <= j < c.len() && (#[trigger] c[j]).row == c[13].row && c[j].col == 1 implies c[j].content
        == CellContent::Number(count_status(files, FileStatus::Added)) by {
        assert(0 <= j < 25);
        if j == 0 {} else if j == 1 {} else if j == 2 {} else if j == 3 {} else if j == 4 {} else if j == 5 {} else if j == 6 {} else if j == 7 {} else if j == 8 {} else if j == 9 {} else if j == 10 {} else if j == 11 {} else if j == 12 {} else if j == 13 {} else if j == 14 {} else if j == 15 {} else if j == 16 {} else if j == 17 {} else if j == 18 {} else if j == 19 {} else if j == 20 {} else if j == 21 {} else if j == 22 {} else if j == 23 {} else if j == 24 {}
    }
    assert(count_beside(c, "Added:"@, count_status(files, FileStatus::Added)));
    assert(c[15].col == 0 && c[15].content == CellContent::Text("Modified:"@));
    assert forall|j: int| 0 <= j < c.len() && (#[trigger] c[j]).row == c[15].row && c[j].col == 1 implies c[j].content
        == CellContent::Number(count_status(files, FileStatus::Modified)) by {
        assert(0 <= j < 25);
        if j == 0 {} else if j == 1 {} else if j == 2 {} else if j == 3 {} else if j == 4 {} else if j == 5 {} else if j == 6 {} else if j == 7 {} else if j == 8 {} else if j == 9 {} else if j == 10 {} else if j == 11 {} else if j == 12 {} else if j == 13 {} else if j == 14 {} else if j == 15 {} else if j == 16 {} else if j == 17 {} else if j == 18 {} else if j == 19 {} else if j == 20 {} else if j == 21 {} else if j == 22 {} else if j == 23 {} else if j == 24 {}
    }
    assert(count_beside(c, "Modified:"@, count_status(files, FileStatus::Modified)));
    assert(c[17].col == 0 && c[17].content == CellContent::Text("Deleted:"@));
    assert forall|j: int| 0 <= j < c.len() && (#[trigger] c[j]).row == c[17].row && c[j].col == 1 implies c[j].content
        == CellContent::Number(count_status(files, FileStatus::Deleted)) by {
        assert(0 <= j < 25);
        if j == 0 {} else if j == 1 {} else if j == 2 {} else if j == 3 {} else if j == 4 {} else if j == 5 {} else if j == 6 {} else if j == 7 {} else if j == 8 {} else if j == 9 {} else if j == 10 {} else if j == 11 {} else if j == 12 {} else if j == 13 {} else if j == 14 {} else if j == 15 {} else if j == 16 {} else if j == 17 {} else if j == 18 {} else if j == 19 {} else if j == 20 {} else if j == 21 {} else if j == 22 {} else if j == 23 {} else if j == 24 {}
    }
    assert(count_beside(c, "Deleted:"@, count_status(files, FileStatus::Deleted)));
    assert(c[19].col == 0 && c[19].content == CellContent::Text("Renamed:"@));
    assert forall|j: int| 0 <= j < c.len() && (#[trigger] c[j]).row == c[19].row && c[j].col == 1 implies c[j].content
        == CellContent::Number(count_status(files, FileStatus::Renamed)) by {
        assert(0 <= j < 25);
        if j == 0 {} else if j == 1 {} else if j == 2 {} else if j == 3 {} else if j == 4 {} else if j == 5 {} else if j == 6 {} else if j == 7 {} else if j == 8 {} else if j == 9 {} else if j == 10 {} else if j == 11 {} else if j == 12 {} else if j == 13 {} else if j == 14 {} else if j == 15 {} else if j == 16 {} else if j == 17 {} else if j == 18 {} else if j == 19 {} else if j == 20 {} else if j == 21 {} else if j == 22 {} else if j == 23 {} else if j == 24 {}
    }
    assert(count_beside(c, "Renamed:"@, count_status(files, FileStatus::Renamed)));
    assert(c[21].col == 0 && c[21].content == CellContent::Text("Unchanged:"@));
    assert forall|j: int| 0 <= j < c.len() && (#[trigger] c[j]).row == c[21].row && c[j].col == 1 implies c[j].content
        == CellContent::Number(count_status(files, FileStatus::Unchanged)) by {
        assert(0 <= j < 25);
        if j == 0 {} else if j == 1 {} else if j == 2 {} else if j == 3 {} else if j == 4 {} else if j == 5 {} else if j == 6 {} else if j == 7 {} else if j == 8 {} else if j == 9 {} else if j == 10 {} else if j == 11 {} else if j == 12 {} else if j == 13 {} else if j == 14 {} else if j == 15 {} else if j == 16 {} else if j == 17 {} else if j == 18 {} else if j == 19 {} else if j == 20 {} else if j == 21 {} else if j == 22 {} else if j == 23 {} else if j == 24 {}
    }
    assert(count_beside(c, "Unchanged:"@, count_status(files, FileStatus::Unchanged)));
}

} // verus!
