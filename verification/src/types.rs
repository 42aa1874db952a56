//! Statuses of compared files, their filters, file records and statistics.

use vstd::prelude::*;
use crate::text::{
    ascii_lower, chars_of, eq_ignoring_case, has_prefix, matches_ignoring_case, push_str, slice_chars,
    string_of, trim, trimmed,
};

verus! {

/// Status of a file between two revisions.
#[derive(Debug, Clone, Copy, PartialEq, Eq, Hash, Structural)]
pub enum FileStatus {
    Added,
    Modified,
    Deleted,
    Renamed,
    Copied,
    TypeChanged,
    Unchanged,
}

/// The status that a `git diff --name-status` status field names by its
/// first character.
pub open spec fn status_of_letter(c: char) -> Option<FileStatus> {
    if c == 'A' {
        Some(FileStatus::Added)
    } else if c == 'M' {
        Some(FileStatus::Modified)
    } else if c == 'D' {
        Some(FileStatus::Deleted)
    } else if c == 'R' {
        Some(FileStatus::Renamed)
    } else if c == 'C' {
        Some(FileStatus::Copied)
    } else if c == 'T' {
        Some(FileStatus::TypeChanged)
    } else {
        None
    }
}

/// The status that a status field such as `M` or `R100` stands for.
pub open spec fn status_of_field(s: Seq<char>) -> Option<FileStatus> {
    if s.len() == 0 {
        None
    } else {
        status_of_letter(s[0])
    }
}

/// Tag printed for a two-way status.
pub open spec fn file_status_tag(s: FileStatus) -> Seq<char> {
    match s {
        FileStatus::Added => "[added]"@,
        FileStatus::Modified => "[modified]"@,
        FileStatus::Deleted => "[deleted]"@,
        FileStatus::Renamed => "[renamed]"@,
        FileStatus::Copied => "[copied]"@,
        FileStatus::TypeChanged => "[type-changed]"@,
        FileStatus::Unchanged => "[unchanged]"@,
    }
}

/// The two-way status that a filter word names, ignoring ASCII case.
pub open spec fn file_status_of_filter(s: Seq<char>) -> Option<FileStatus> {
    if matches_ignoring_case(s, "added"@) || matches_ignoring_case(s, "add"@)
        || matches_ignoring_case(s, "a"@) {
        Some(FileStatus::Added)
    } else if matches_ignoring_case(s, "modified"@) || matches_ignoring_case(s, "modify"@)
        || matches_ignoring_case(s, "m"@) {
        Some(FileStatus::Modified)
    } else if matches_ignoring_case(s, "deleted"@) || matches_ignoring_case(s, "delete"@)
        || matches_ignoring_case(s, "d"@) {
        Some(FileStatus::Deleted)
    } else if matches_ignoring_case(s, "renamed"@) || matches_ignoring_case(s, "rename"@)
        || matches_ignoring_case(s, "r"@) {
        Some(FileStatus::Renamed)
    } else if matches_ignoring_case(s, "copied"@) || matches_ignoring_case(s, "copy"@)
        || matches_ignoring_case(s, "c"@) {
        Some(FileStatus::Copied)
    } else if matches_ignoring_case(s, "type-changed"@) || matches_ignoring_case(s, "typechanged"@)
        || matches_ignoring_case(s, "type_changed"@) || matches_ignoring_case(s, "t"@) {
        Some(FileStatus::TypeChanged)
    } else if matches_ignoring_case(s, "unchanged"@) || matches_ignoring_case(s, "same"@)
        || matches_ignoring_case(s, "u"@) {
        Some(FileStatus::Unchanged)
    } else {
        None
    }
}

impl FileStatus {
    /// The status whose letter starts a `git diff --name-status` status field.
    pub fn from_git_status(status: &str) -> (r: Option<FileStatus>)
        ensures
            r == status_of_field(status@),
    {
        let cs = chars_of(status);
        if cs.len() == 0 {
            None
        } else {
            status_from_letter(cs[0])
        }
    }

    /// The tag printed for this status.
    pub fn tag(&self) -> (r: &'static str)
        ensures
            r@ == file_status_tag(*self),
    {
        match self {
            FileStatus::Added => "[added]",
            FileStatus::Modified => "[modified]",
            FileStatus::Deleted => "[deleted]",
            FileStatus::Renamed => "[renamed]",
            FileStatus::Copied => "[copied]",
            FileStatus::TypeChanged => "[type-changed]",
            FileStatus::Unchanged => "[unchanged]",
        }
    }

    /// The status named by a filter word, its aliases accepted and ASCII case ignored.
    pub fn from_filter_str(s: &str) -> (r: Option<FileStatus>)
        ensures
            r == file_status_of_filter(s@),
    {
        let v = chars_of(s);
        file_status_from_chars(&v)
    }
}

/// The status named by a filter word given as characters.
pub(crate) fn file_status_from_chars(v: &Vec<char>) -> (r: Option<FileStatus>)
    ensures
        r == file_status_of_filter(v@),
{
    if eq_ignoring_case(v, "added") || eq_ignoring_case(v, "add") || eq_ignoring_case(v, "a") {
        Some(FileStatus::Added)
    } else if eq_ignoring_case(v, "modified") || eq_ignoring_case(v, "modify")
        || eq_ignoring_case(v, "m") {
        Some(FileStatus::Modified)
    } else if eq_ignoring_case(v, "deleted") || eq_ignoring_case(v, "delete")
        || eq_ignoring_case(v, "d") {
        Some(FileStatus::Deleted)
    } else if eq_ignoring_case(v, "renamed") || eq_ignoring_case(v, "rename")
        || eq_ignoring_case(v, "r") {
        Some(FileStatus::Renamed)
    } else if eq_ignoring_case(v, "copied") || eq_ignoring_case(v, "copy")
        || eq_ignoring_case(v, "c") {
        Some(FileStatus::Copied)
    } else if eq_ignoring_case(v, "type-changed") || eq_ignoring_case(v, "typechanged")
        || eq_ignoring_case(v, "type_changed") || eq_ignoring_case(v, "t") {
        Some(FileStatus::TypeChanged)
    } else if eq_ignoring_case(v, "unchanged") || eq_ignoring_case(v, "same")
        || eq_ignoring_case(v, "u") {
        Some(FileStatus::Unchanged)
    } else {
        None
    }
}

/// The status named by a status letter.
pub fn status_from_letter(c: char) -> (r: Option<FileStatus>)
    ensures
        r == status_of_letter(c),
{
    if c == 'A' {
        Some(FileStatus::Added)
    } else if c == 'M' {
        Some(FileStatus::Modified)
    } else if c == 'D' {
        Some(FileStatus::Deleted)
    } else if c == 'R' {
        Some(FileStatus::Renamed)
    } else if c == 'C' {
        Some(FileStatus::Copied)
    } else if c == 'T' {
        Some(FileStatus::TypeChanged)
    } else {
        None
    }
}

/// Status of a file in a three-way comparison of base, ours and theirs.
#[derive(Debug, Clone, Copy, PartialEq, Eq, Hash, Structural)]
pub enum ThreeWayStatus {
    Unchanged,
    OursOnly,
    TheirsOnly,
    BothSame,
    Conflict,
    AddedOurs,
    AddedTheirs,
    AddedBothSame,
    AddedBothDiff,
    DeletedOurs,
    DeletedTheirs,
    DeletedBoth,
    ModifyDelete,
    DeleteModify,
}

/// The statuses that need a decision between the two sides.
pub open spec fn is_conflict_status(s: ThreeWayStatus) -> bool {
    s == ThreeWayStatus::Conflict || s == ThreeWayStatus::AddedBothDiff
        || s == ThreeWayStatus::ModifyDelete || s == ThreeWayStatus::DeleteModify
}

/// Tag printed for a three-way status.
pub open spec fn three_way_tag(s: ThreeWayStatus) -> Seq<char> {
    match s {
        ThreeWayStatus::Unchanged => "unchanged"@,
        ThreeWayStatus::OursOnly => "ours-only"@,
        ThreeWayStatus::TheirsOnly => "theirs-only"@,
        ThreeWayStatus::BothSame => "both-same"@,
        ThreeWayStatus::Conflict => "CONFLICT"@,
        ThreeWayStatus::AddedOurs => "added-ours"@,
        ThreeWayStatus::AddedTheirs => "added-theirs"@,
        ThreeWayStatus::AddedBothSame => "added-both-same"@,
        ThreeWayStatus::AddedBothDiff => "CONFLICT"@,
        ThreeWayStatus::DeletedOurs => "deleted-ours"@,
        ThreeWayStatus::DeletedTheirs => "deleted-theirs"@,
        ThreeWayStatus::DeletedBoth => "deleted-both"@,
        ThreeWayStatus::ModifyDelete => "CONFLICT"@,
        ThreeWayStatus::DeleteModify => "CONFLICT"@,
    }
}

/// Indicator printed for a three-way status: existence in base, then the
/// change in ours and in theirs.
pub open spec fn three_way_indicator(s: ThreeWayStatus) -> Seq<char> {
    match s {
        ThreeWayStatus::Unchanged => "[○==]"@,
        ThreeWayStatus::OursOnly => "[○M=]"@,
        ThreeWayStatus::TheirsOnly => "[○=M]"@,
        ThreeWayStatus::BothSame => "[○MM]"@,
        ThreeWayStatus::Conflict => "[○MM]"@,
        ThreeWayStatus::AddedOurs => "[-A-]"@,
        ThreeWayStatus::AddedTheirs => "[--A]"@,
        ThreeWayStatus::AddedBothSame => "[-AA]"@,
        ThreeWayStatus::AddedBothDiff => "[-AA]"@,
        ThreeWayStatus::DeletedOurs => "[○D=]"@,
        ThreeWayStatus::DeletedTheirs => "[○=D]"@,
        ThreeWayStatus::DeletedBoth => "[○DD]"@,
        ThreeWayStatus::ModifyDelete => "[○MD]"@,
        ThreeWayStatus::DeleteModify => "[○DM]"@,
    }
}

/// The three-way status that a filter word names, ignoring ASCII case.
pub open spec fn three_way_status_of_filter(s: Seq<char>) -> Option<ThreeWayStatus> {
    if matches_ignoring_case(s, "unchanged"@) || matches_ignoring_case(s, "same"@) {
        Some(ThreeWayStatus::Unchanged)
    } else if matches_ignoring_case(s, "ours-only"@) || matches_ignoring_case(s, "ours_only"@)
        || matches_ignoring_case(s, "oursonly"@) {
        Some(ThreeWayStatus::OursOnly)
    } else if matches_ignoring_case(s, "theirs-only"@) || matches_ignoring_case(s, "theirs_only"@)
        || matches_ignoring_case(s, "theirsonly"@) {
        Some(ThreeWayStatus::TheirsOnly)
    } else if matches_ignoring_case(s, "both-same"@) || matches_ignoring_case(s, "both_same"@)
        || matches_ignoring_case(s, "bothsame"@) {
        Some(ThreeWayStatus::BothSame)
    } else if matches_ignoring_case(s, "conflict"@) {
        Some(ThreeWayStatus::Conflict)
    } else if matches_ignoring_case(s, "added-ours"@) || matches_ignoring_case(s, "added_ours"@)
        || matches_ignoring_case(s, "addedours"@) {
        Some(ThreeWayStatus::AddedOurs)
    } else if matches_ignoring_case(s, "added-theirs"@) || matches_ignoring_case(s, "added_theirs"@)
        || matches_ignoring_case(s, "addedtheirs"@) {
        Some(ThreeWayStatus::AddedTheirs)
    } else if matches_ignoring_case(s, "added-both-same"@) || matches_ignoring_case(
        s,
        "added_both_same"@,
    ) || matches_ignoring_case(s, "addedbothsame"@) {
        Some(ThreeWayStatus::AddedBothSame)
    } else if matches_ignoring_case(s, "added-both-diff"@) || matches_ignoring_case(
        s,
        "added_both_diff"@,
    ) || matches_ignoring_case(s, "addedbothdiff"@) {
        Some(ThreeWayStatus::AddedBothDiff)
    } else if matches_ignoring_case(s, "deleted-ours"@) || matches_ignoring_case(s, "deleted_ours"@)
        || matches_ignoring_case(s, "deletedours"@) {
        Some(ThreeWayStatus::DeletedOurs)
    } else if matches_ignoring_case(s, "deleted-theirs"@) || matches_ignoring_case(
        s,
        "deleted_theirs"@,
    ) || matches_ignoring_case(s, "deletedtheirs"@) {
        Some(ThreeWayStatus::DeletedTheirs)
    } else if matches_ignoring_case(s, "deleted-both"@) || matches_ignoring_case(s, "deleted_both"@)
        || matches_ignoring_case(s, "deletedboth"@) {
        Some(ThreeWayStatus::DeletedBoth)
    } else if matches_ignoring_case(s, "modify-delete"@) || matches_ignoring_case(
        s,
        "modify_delete"@,
    ) || matches_ignoring_case(s, "modifydelete"@) {
        Some(ThreeWayStatus::ModifyDelete)
    } else if matches_ignoring_case(s, "delete-modify"@) || matches_ignoring_case(
        s,
        "delete_modify"@,
    ) || matches_ignoring_case(s, "deletemodify"@) {
        Some(ThreeWayStatus::DeleteModify)
    } else {
        None
    }
}

/// Every three-way status, in declaration order.
pub open spec fn all_three_way() -> Seq<ThreeWayStatus> {
    seq![
        ThreeWayStatus::Unchanged,
        ThreeWayStatus::OursOnly,
        ThreeWayStatus::TheirsOnly,
        ThreeWayStatus::BothSame,
        ThreeWayStatus::Conflict,
        ThreeWayStatus::AddedOurs,
        ThreeWayStatus::AddedTheirs,
        ThreeWayStatus::AddedBothSame,
        ThreeWayStatus::AddedBothDiff,
        ThreeWayStatus::DeletedOurs,
        ThreeWayStatus::DeletedTheirs,
        ThreeWayStatus::DeletedBoth,
        ThreeWayStatus::ModifyDelete,
        ThreeWayStatus::DeleteModify,
    ]
}

/// Position of a status in `all_three_way()`.
pub open spec fn three_way_index(s: ThreeWayStatus) -> int {
    match s {
        ThreeWayStatus::Unchanged => 0,
        ThreeWayStatus::OursOnly => 1,
        ThreeWayStatus::TheirsOnly => 2,
        ThreeWayStatus::BothSame => 3,
        ThreeWayStatus::Conflict => 4,
        ThreeWayStatus::AddedOurs => 5,
        ThreeWayStatus::AddedTheirs => 6,
        ThreeWayStatus::AddedBothSame => 7,
        ThreeWayStatus::AddedBothDiff => 8,
        ThreeWayStatus::DeletedOurs => 9,
        ThreeWayStatus::DeletedTheirs => 10,
        ThreeWayStatus::DeletedBoth => 11,
        ThreeWayStatus::ModifyDelete => 12,
        ThreeWayStatus::DeleteModify => 13,
    }
}

/// `all_three_way()` lists each status once, at its index.
pub proof fn lemma_all_three_way()
    ensures
        all_three_way().len() == 14,
        forall|s: ThreeWayStatus| 0 <= #[trigger] three_way_index(s) < 14,
        forall|s: ThreeWayStatus| all_three_way()[#[trigger] three_way_index(s)] == s,
        forall|i: int| 0 <= i < 14 ==> three_way_index(#[trigger] all_three_way()[i]) == i,
        all_three_way().no_duplicates(),
        forall|s: ThreeWayStatus| #[trigger] all_three_way().contains(s),
{
    assert forall|s: ThreeWayStatus| #[trigger] all_three_way().contains(s) by {
        assert(all_three_way()[three_way_index(s)] == s);
    }
}

impl ThreeWayStatus {
    /// Whether the status needs a decision between the two sides.
    pub fn is_conflict(&self) -> (r: bool)
        ensures
            r == is_conflict_status(*self),
    {
        match self {
            ThreeWayStatus::Conflict | ThreeWayStatus::AddedBothDiff | ThreeWayStatus::ModifyDelete
            | ThreeWayStatus::DeleteModify => true,
            _ => false,
        }
    }

    /// The tag printed for this status.
    pub fn tag(&self) -> (r: &'static str)
        ensures
            r@ == three_way_tag(*self),
    {
        match self {
            ThreeWayStatus::Unchanged => "unchanged",
            ThreeWayStatus::OursOnly => "ours-only",
            ThreeWayStatus::TheirsOnly => "theirs-only",
            ThreeWayStatus::BothSame => "both-same",
            ThreeWayStatus::Conflict => "CONFLICT",
            ThreeWayStatus::AddedOurs => "added-ours",
            ThreeWayStatus::AddedTheirs => "added-theirs",
            ThreeWayStatus::AddedBothSame => "added-both-same",
            ThreeWayStatus::AddedBothDiff => "CONFLICT",
            ThreeWayStatus::DeletedOurs => "deleted-ours",
            ThreeWayStatus::DeletedTheirs => "deleted-theirs",
            ThreeWayStatus::DeletedBoth => "deleted-both",
            ThreeWayStatus::ModifyDelete => "CONFLICT",
            ThreeWayStatus::DeleteModify => "CONFLICT",
        }
    }

    /// The indicator printed for this status, such as `[○M=]`.
    pub fn indicator(&self) -> (r: &'static str)
        ensures
            r@ == three_way_indicator(*self),
    {
        match self {
            ThreeWayStatus::Unchanged => "[○==]",
            ThreeWayStatus::OursOnly => "[○M=]",
            ThreeWayStatus::TheirsOnly => "[○=M]",
            ThreeWayStatus::BothSame => "[○MM]",
            ThreeWayStatus::Conflict => "[○MM]",
            ThreeWayStatus::AddedOurs => "[-A-]",
            ThreeWayStatus::AddedTheirs => "[--A]",
            ThreeWayStatus::AddedBothSame => "[-AA]",
            ThreeWayStatus::AddedBothDiff => "[-AA]",
            ThreeWayStatus::DeletedOurs => "[○D=]",
            ThreeWayStatus::DeletedTheirs => "[○=D]",
            ThreeWayStatus::DeletedBoth => "[○DD]",
            ThreeWayStatus::ModifyDelete => "[○MD]",
            ThreeWayStatus::DeleteModify => "[○DM]",
        }
    }

    /// The status named by a filter word (kebab, snake or joined form), ASCII case ignored.
    pub fn from_filter_str(s: &str) -> (r: Option<ThreeWayStatus>)
        ensures
            r == three_way_status_of_filter(s@),
    {
        let v = chars_of(s);
        three_way_status_from_chars(&v)
    }

    /// Every status, in declaration order.
    pub fn all() -> (r: Vec<ThreeWayStatus>)
        ensures
            r@ == all_three_way(),
    {
        let r = vec![
            ThreeWayStatus::Unchanged,
            ThreeWayStatus::OursOnly,
            ThreeWayStatus::TheirsOnly,
            ThreeWayStatus::BothSame,
            ThreeWayStatus::Conflict,
            ThreeWayStatus::AddedOurs,
            ThreeWayStatus::AddedTheirs,
            ThreeWayStatus::AddedBothSame,
            ThreeWayStatus::AddedBothDiff,
            ThreeWayStatus::DeletedOurs,
            ThreeWayStatus::DeletedTheirs,
            ThreeWayStatus::DeletedBoth,
            ThreeWayStatus::ModifyDelete,
            ThreeWayStatus::DeleteModify,
        ];
        assert(r@ =~= all_three_way());
        r
    }

    /// Position of the status in `all()`.
    pub fn index(&self) -> (r: usize)
        ensures
            r == three_way_index(*self),
    {
        match self {
            ThreeWayStatus::Unchanged => 0,
            ThreeWayStatus::OursOnly => 1,
            ThreeWayStatus::TheirsOnly => 2,
            ThreeWayStatus::BothSame => 3,
            ThreeWayStatus::Conflict => 4,
            ThreeWayStatus::AddedOurs => 5,
            ThreeWayStatus::AddedTheirs => 6,
            ThreeWayStatus::AddedBothSame => 7,
            ThreeWayStatus::AddedBothDiff => 8,
            ThreeWayStatus::DeletedOurs => 9,
            ThreeWayStatus::DeletedTheirs => 10,
            ThreeWayStatus::DeletedBoth => 11,
            ThreeWayStatus::ModifyDelete => 12,
            ThreeWayStatus::DeleteModify => 13,
        }
    }
}

/// The three-way status named by a filter word given as characters.
fn three_way_status_from_chars(v: &Vec<char>) -> (r: Option<ThreeWayStatus>)
    ensures
        r == three_way_status_of_filter(v@),
{
    if eq_ignoring_case(v, "unchanged") || eq_ignoring_case(v, "same") {
        Some(ThreeWayStatus::Unchanged)
    } else if eq_ignoring_case(v, "ours-only") || eq_ignoring_case(v, "ours_only")
        || eq_ignoring_case(v, "oursonly") {
        Some(ThreeWayStatus::OursOnly)
    } else if eq_ignoring_case(v, "theirs-only") || eq_ignoring_case(v, "theirs_only")
        || eq_ignoring_case(v, "theirsonly") {
        Some(ThreeWayStatus::TheirsOnly)
    } else if eq_ignoring_case(v, "both-same") || eq_ignoring_case(v, "both_same")
        || eq_ignoring_case(v, "bothsame") {
        Some(ThreeWayStatus::BothSame)
    } else if eq_ignoring_case(v, "conflict") {
        Some(ThreeWayStatus::Conflict)
    } else if eq_ignoring_case(v, "added-ours") || eq_ignoring_case(v, "added_ours")
        || eq_ignoring_case(v, "addedours") {
        Some(ThreeWayStatus::AddedOurs)
    } else if eq_ignoring_case(v, "added-theirs") || eq_ignoring_case(v, "added_theirs")
        || eq_ignoring_case(v, "addedtheirs") {
        Some(ThreeWayStatus::AddedTheirs)
    } else if eq_ignoring_case(v, "added-both-same") || eq_ignoring_case(v, "added_both_same")
        || eq_ignoring_case(v, "addedbothsame") {
        Some(ThreeWayStatus::AddedBothSame)
    } else if eq_ignoring_case(v, "added-both-diff") || eq_ignoring_case(v, "added_both_diff")
        || eq_ignoring_case(v, "addedbothdiff") {
        Some(ThreeWayStatus::AddedBothDiff)
    } else if eq_ignoring_case(v, "deleted-ours") || eq_ignoring_case(v, "deleted_ours")
        || eq_ignoring_case(v, "deletedours") {
        Some(ThreeWayStatus::DeletedOurs)
    } else if eq_ignoring_case(v, "deleted-theirs") || eq_ignoring_case(v, "deleted_theirs")
        || eq_ignoring_case(v, "deletedtheirs") {
        Some(ThreeWayStatus::DeletedTheirs)
    } else if eq_ignoring_case(v, "deleted-both") || eq_ignoring_case(v, "deleted_both")
        || eq_ignoring_case(v, "deletedboth") {
        Some(ThreeWayStatus::DeletedBoth)
    } else if eq_ignoring_case(v, "modify-delete") || eq_ignoring_case(v, "modify_delete")
        || eq_ignoring_case(v, "modifydelete") {
        Some(ThreeWayStatus::ModifyDelete)
    } else if eq_ignoring_case(v, "delete-modify") || eq_ignoring_case(v, "delete_modify")
        || eq_ignoring_case(v, "deletemodify") {
        Some(ThreeWayStatus::DeleteModify)
    } else {
        None
    }
}

} // verus!

verus! {

/// Group keywords of three-way filters.
#[derive(Debug, Clone, Copy, PartialEq, Eq, Structural)]
pub enum FilterGroup {
    Added,
    Modified,
    Deleted,
    Conflicts,
    All,
}

/// The group that a filter word names, ignoring ASCII case.
pub open spec fn group_of_word(s: Seq<char>) -> Option<FilterGroup> {
    if matches_ignoring_case(s, "added"@) {
        Some(FilterGroup::Added)
    } else if matches_ignoring_case(s, "modified"@) {
        Some(FilterGroup::Modified)
    } else if matches_ignoring_case(s, "deleted"@) {
        Some(FilterGroup::Deleted)
    } else if matches_ignoring_case(s, "conflicts"@) {
        Some(FilterGroup::Conflicts)
    } else if matches_ignoring_case(s, "all"@) {
        Some(FilterGroup::All)
    } else {
        None
    }
}

/// The statuses that a group stands for.
pub open spec fn group_members(g: FilterGroup) -> Seq<ThreeWayStatus> {
    match g {
        FilterGroup::Added => seq![
            ThreeWayStatus::AddedOurs,
            ThreeWayStatus::AddedTheirs,
            ThreeWayStatus::AddedBothSame,
            ThreeWayStatus::AddedBothDiff,
        ],
        FilterGroup::Modified => seq![
            ThreeWayStatus::OursOnly,
            ThreeWayStatus::TheirsOnly,
            ThreeWayStatus::BothSame,
            ThreeWayStatus::Conflict,
        ],
        FilterGroup::Deleted => seq![
            ThreeWayStatus::DeletedOurs,
            ThreeWayStatus::DeletedTheirs,
            ThreeWayStatus::DeletedBoth,
        ],
        FilterGroup::Conflicts => seq![
            ThreeWayStatus::Conflict,
            ThreeWayStatus::AddedBothDiff,
            ThreeWayStatus::ModifyDelete,
            ThreeWayStatus::DeleteModify,
        ],
        FilterGroup::All => all_three_way(),
    }
}

impl FilterGroup {
    /// The group named by a word, ASCII case ignored.
    pub fn from_str(s: &str) -> (r: Option<FilterGroup>)
        ensures
            r == group_of_word(s@),
    {
        let v = chars_of(s);
        group_from_chars(&v)
    }

    /// The statuses of the group.
    pub fn expand(&self) -> (r: Vec<ThreeWayStatus>)
        ensures
            r@ == group_members(*self),
    {
        let r = match self {
            FilterGroup::Added => vec![
                ThreeWayStatus::AddedOurs,
                ThreeWayStatus::AddedTheirs,
                ThreeWayStatus::AddedBothSame,
                ThreeWayStatus::AddedBothDiff,
            ],
            FilterGroup::Modified => vec![
                ThreeWayStatus::OursOnly,
                ThreeWayStatus::TheirsOnly,
                ThreeWayStatus::BothSame,
                ThreeWayStatus::Conflict,
            ],
            FilterGroup::Deleted => vec![
                ThreeWayStatus::DeletedOurs,
                ThreeWayStatus::DeletedTheirs,
                ThreeWayStatus::DeletedBoth,
            ],
            FilterGroup::Conflicts => vec![
                ThreeWayStatus::Conflict,
                ThreeWayStatus::AddedBothDiff,
                ThreeWayStatus::ModifyDelete,
                ThreeWayStatus::DeleteModify,
            ],
            FilterGroup::All => ThreeWayStatus::all(),
        };
        assert(r@ =~= group_members(*self));
        r
    }
}

/// The group named by a word given as characters.
fn group_from_chars(v: &Vec<char>) -> (r: Option<FilterGroup>)
    ensures
        r == group_of_word(v@),
{
    if eq_ignoring_case(v, "added") {
        Some(FilterGroup::Added)
    } else if eq_ignoring_case(v, "modified") {
        Some(FilterGroup::Modified)
    } else if eq_ignoring_case(v, "deleted") {
        Some(FilterGroup::Deleted)
    } else if eq_ignoring_case(v, "conflicts") {
        Some(FilterGroup::Conflicts)
    } else if eq_ignoring_case(v, "all") {
        Some(FilterGroup::All)
    } else {
        None
    }
}

/// The statuses a filter keyword stands for: the members of a group, a
/// single status, or `None` for a word that names neither.
pub open spec fn keyword_statuses(kw: Seq<char>) -> Option<Seq<ThreeWayStatus>> {
    match group_of_word(kw) {
        Some(g) => Some(group_members(g)),
        None => match three_way_status_of_filter(kw) {
            Some(s) => Some(seq![s]),
            None => None,
        },
    }
}

/// A filter entry, trimmed, marks an exclusion when it starts with `^`.
pub open spec fn entry_is_exclusion(entry: Seq<char>) -> bool {
    let t = trimmed(entry);
    t.len() > 0 && t[0] == '^'
}

/// The keyword of a filter entry: trimmed, without a leading `^`.
pub open spec fn entry_keyword(entry: Seq<char>) -> Seq<char> {
    let t = trimmed(entry);
    if t.len() > 0 && t[0] == '^' {
        t.drop_first()
    } else {
        t
    }
}

/// The entry counts: it is not blank and its keyword names statuses.
pub open spec fn entry_counts(entry: Seq<char>) -> bool {
    trimmed(entry).len() > 0 && keyword_statuses(entry_keyword(entry)) is Some
}

/// The entry includes status `s`.
pub open spec fn entry_includes(entry: Seq<char>, s: ThreeWayStatus) -> bool {
    entry_counts(entry) && !entry_is_exclusion(entry) && keyword_statuses(
        entry_keyword(entry),
    ).unwrap().contains(s)
}

/// The entry excludes status `s`.
pub open spec fn entry_excludes(entry: Seq<char>, s: ThreeWayStatus) -> bool {
    entry_counts(entry) && entry_is_exclusion(entry) && keyword_statuses(
        entry_keyword(entry),
    ).unwrap().contains(s)
}

/// Some entry of `f` includes `s`.
pub open spec fn some_entry_includes(f: Seq<Seq<char>>, s: ThreeWayStatus) -> bool
    decreases f.len(),
{
    f.len() > 0 && (some_entry_includes(f.drop_last(), s) || entry_includes(f.last(), s))
}

/// Some entry of `f` excludes `s`.
pub open spec fn some_entry_excludes(f: Seq<Seq<char>>, s: ThreeWayStatus) -> bool
    decreases f.len(),
{
    f.len() > 0 && (some_entry_excludes(f.drop_last(), s) || entry_excludes(f.last(), s))
}

/// Some entry of `f` is a counting inclusion.
pub open spec fn has_inclusion(f: Seq<Seq<char>>) -> bool
    decreases f.len(),
{
    f.len() > 0 && (has_inclusion(f.drop_last()) || (entry_counts(f.last()) && !entry_is_exclusion(
        f.last(),
    )))
}

/// Some entry of `f` is a counting exclusion.
pub open spec fn has_exclusion(f: Seq<Seq<char>>) -> bool
    decreases f.len(),
{
    f.len() > 0 && (has_exclusion(f.drop_last()) || (entry_counts(f.last()) && entry_is_exclusion(
        f.last(),
    )))
}

/// Whether a three-way filter list lets status `s` through: an empty list
/// lets everything through; otherwise the included statuses (all of them
/// when the list only excludes) minus the excluded ones. Blank entries and
/// words that name nothing are ignored.
pub open spec fn filter_allows(f: Seq<Seq<char>>, s: ThreeWayStatus) -> bool {
    if f.len() == 0 {
        true
    } else {
        (some_entry_includes(f, s) || (!has_inclusion(f) && has_exclusion(f)))
            && !some_entry_excludes(f, s)
    }
}

/// The statuses a list of three-way filter entries selects, such as
/// `["added", "^added-both-diff"]`: group keywords expand to their members,
/// a leading `^` excludes, and a list of exclusions only starts from all
/// statuses. Each status comes once.
pub fn expand_filter_status_three_way(filter_status: &[String]) -> (r: Vec<ThreeWayStatus>)
    ensures
        r@.no_duplicates(),
        forall|s: ThreeWayStatus| #[trigger] r@.contains(s) <==> filter_allows(
            filter_status@.map_values(|e: String| e@),
            s,
        ),
{
    let ghost f = filter_status@.map_values(|e: String| e@);
    proof {
        lemma_all_three_way();
    }
    if filter_status.len() == 0 {
        let r = ThreeWayStatus::all();
        return r;
    }
    let mut included: Vec<bool> = vec![false; 14];
    let mut excluded: Vec<bool> = vec![false; 14];
    let mut has_include = false;
    let mut has_exclude = false;
    let mut i: usize = 0;
    while i < filter_status.len()
        invariant
            i <= filter_status.len(),
            f == filter_status@.map_values(|e: String| e@),
            included@.len() == 14,
            excluded@.len() == 14,
            forall|s: ThreeWayStatus| #[trigger] included@[three_way_index(s)] == some_entry_includes(f.take(i as int), s),
            forall|s: ThreeWayStatus| #[trigger] excluded@[three_way_index(s)] == some_entry_excludes(f.take(i as int), s),
            has_include == has_inclusion(f.take(i as int)),
            has_exclude == has_exclusion(f.take(i as int)),
            forall|s: ThreeWayStatus| 0 <= #[trigger] three_way_index(s) < 14,
        decreases filter_status.len() - i,
    {
        let entry = chars_of(filter_status[i].as_str());
        assert(entry@ == f[i as int]);
        assert(f.take(i + 1).drop_last() =~= f.take(i as int));
        assert(f.take(i + 1).last() == f[i as int]);
        let t = trim(&entry);
        if t.len() == 0 {
            i += 1;
            continue;
        }
        let is_exclude = t[0] == '^';
        let kw = if is_exclude { slice_chars(&t, 1, t.len()) } else { slice_chars(&t, 0, t.len()) };
        assert(kw@ == entry_keyword(f[i as int])) by {
            assert(t@.subrange(1, t@.len() as int) =~= t@.drop_first());
            assert(t@.subrange(0, t@.len() as int) =~= t@);
        }
        let statuses: Vec<ThreeWayStatus> = match group_from_chars(&kw) {
            Some(g) => g.expand(),
            None => match three_way_status_from_chars(&kw) {
                Some(s) => {
                    let v = vec![s];
                    assert(v@ =~= seq![s]);
                    v
                },
                None => {
                    i += 1;
                    continue;
                },
            },
        };
        assert(keyword_statuses(kw@) == Some(statuses@));
        if is_exclude {
            has_exclude = true;
            mark_all(&mut excluded, &statuses);
        } else {
            has_include = true;
            mark_all(&mut included, &statuses);
        }
        i += 1;
    }
    assert(f.take(filter_status.len() as int) =~= f);
    let all = ThreeWayStatus::all();
    let mut r: Vec<ThreeWayStatus> = Vec::new();
    let mut k: usize = 0;
    while k < 14
        invariant
            k <= 14,
            all@ == all_three_way(),
            included@.len() == 14,
            excluded@.len() == 14,
            f.len() > 0,
            forall|s: ThreeWayStatus| #[trigger] included@[three_way_index(s)] == some_entry_includes(f, s),
            forall|s: ThreeWayStatus| #[trigger] excluded@[three_way_index(s)] == some_entry_excludes(f, s),
            has_include == has_inclusion(f),
            has_exclude == has_exclusion(f),
            r@.no_duplicates(),
            forall|s: ThreeWayStatus| #[trigger] r@.contains(s) <==> (three_way_index(s) < k && filter_allows(f, s)),
            forall|s: ThreeWayStatus| 0 <= #[trigger] three_way_index(s) < 14,
            forall|s: ThreeWayStatus| all_three_way()[#[trigger] three_way_index(s)] == s,
            forall|j: int| 0 <= j < 14 ==> three_way_index(#[trigger] all_three_way()[j]) == j,
        decreases 14 - k,
    {
        let s = all[k];
        assert(three_way_index(s) == k);
        let ghost old_r = r@;
        if (included[k] || (!has_include && has_exclude)) && !excluded[k] {
            r.push(s);
            proof {
                assert(!old_r.contains(s));
                lemma_push_no_duplicates(old_r, s);
                assert forall|t: ThreeWayStatus| #[trigger] r@.contains(t) <==> (three_way_index(t) < k + 1
                    && filter_allows(f, t)) by {
                    lemma_push_contains(old_r, s, t);
                    if three_way_index(t) == k {
                        assert(t == s);
                    }
                }
            }
        } else {
            proof {
                assert forall|t: ThreeWayStatus| #[trigger] r@.contains(t) <==> (three_way_index(t) < k + 1
                    && filter_allows(f, t)) by {
                    if three_way_index(t) == k {
                        assert(t == s);
                    }
                }
            }
        }
        k += 1;
    }
    r
}

/// Sets the flag of each given status.
fn mark_all(flags: &mut Vec<bool>, statuses: &Vec<ThreeWayStatus>)
    requires
        old(flags)@.len() == 14,
    ensures
        final(flags)@.len() == 14,
        forall|s: ThreeWayStatus| 0 <= three_way_index(s) < 14 ==> #[trigger] final(flags)@[three_way_index(s)] == (
        old(flags)@[three_way_index(s)] || statuses@.contains(s)),
{
    proof {
        lemma_all_three_way();
    }
    let ghost start = flags@;
    let mut j: usize = 0;
    while j < statuses.len()
        invariant
            j <= statuses.len(),
            flags@.len() == 14,
            start.len() == 14,
            forall|s: ThreeWayStatus| 0 <= #[trigger] three_way_index(s) < 14,
            forall|s: ThreeWayStatus| #[trigger] flags@[three_way_index(s)] == (start[three_way_index(s)]
                || statuses@.take(j as int).contains(s)),
        decreases statuses.len() - j,
    {
        let s = statuses[j];
        let k = s.index();
        flags.set(k, true);
        proof {
            assert forall|t: ThreeWayStatus| #[trigger] flags@[three_way_index(t)] == (start[three_way_index(t)]
                || statuses@.take(j + 1).contains(t)) by {
                if statuses@.take(j as int).contains(t) {
                    let q = choose|q: int| 0 <= q < j && #[trigger] statuses@.take(j as int)[q] == t;
                    assert(statuses@.take(j + 1)[q] == t);
                }
                if statuses@.take(j + 1).contains(t) && t != s {
                    let q = choose|q: int| 0 <= q < j + 1 && #[trigger] statuses@.take(j + 1)[q] == t;
                    assert(q != j);
                    assert(statuses@.take(j as int)[q] == t);
                }
                if t == s {
                    assert(statuses@.take(j + 1)[j as int] == s);
                }
                if t != s {
                    assert(three_way_index(t) != three_way_index(s)) by {
                        lemma_all_three_way();
                    }
                }
            }
        }
        j += 1;
    }
    assert(statuses@.take(statuses.len() as int) =~= statuses@);
}

} // verus!

verus! {

/// An element is in a sequence after a push exactly when it was before or is the pushed one.
pub proof fn lemma_push_contains<A>(s: Seq<A>, x: A, t: A)
    ensures
        s.push(x).contains(t) <==> (s.contains(t) || t == x),
{
    if s.contains(t) {
        let j = choose|j: int| 0 <= j < s.len() && s[j] == t;
        assert(s.push(x)[j] == t);
    }
    if t == x {
        assert(s.push(x)[s.len() as int] == x);
    }
    if s.push(x).contains(t) && t != x {
        let j = choose|j: int| 0 <= j < s.push(x).len() && s.push(x)[j] == t;
        assert(j < s.len());
        assert(s[j] == t);
    }
}

/// Pushing a new element keeps a sequence free of duplicates.
pub proof fn lemma_push_no_duplicates<A>(s: Seq<A>, x: A)
    requires
        s.no_duplicates(),
        !s.contains(x),
    ensures
        s.push(x).no_duplicates(),
{
    assert forall|i: int, j: int| 0 <= i < s.push(x).len() && 0 <= j < s.push(x).len() && i != j implies s.push(x)[i] != s.push(x)[j] by {
        if i == s.len() {
            assert(s[j] == s.push(x)[j]);
        } else if j == s.len() {
            assert(s[i] == s.push(x)[i]);
        }
    }
}

} // verus!

verus! {

/// A file that differs between the source and the target revision.
#[derive(Debug, Clone)]
pub struct DiffFile {
    /// Path on the target side.
    pub path: String,
    /// Path on the source side, for renames and copies.
    pub original_path: Option<String>,
    pub status: FileStatus,
    /// Similarity percentage of a rename or copy.
    pub similarity: Option<u8>,
    /// Mode (such as `100644`) on the source side.
    pub source_mode: Option<String>,
    /// Mode on the target side.
    pub target_mode: Option<String>,
    pub is_symlink: bool,
    pub symlink_target: Option<String>,
    pub is_submodule: bool,
    /// Blob id on the source side.
    pub source_blob: Option<String>,
    /// Blob id on the target side.
    pub target_blob: Option<String>,
    pub source_content: Option<Vec<u8>>,
    pub target_content: Option<Vec<u8>>,
    /// Why the file could not be fetched.
    pub error: Option<String>,
}

/// A fresh record: only the path and the status are set.
pub open spec fn fresh_diff_file(f: DiffFile, path: Seq<char>, status: FileStatus) -> bool {
    &&& f.path@ == path
    &&& f.status == status
    &&& f.original_path is None
    &&& f.similarity is None
    &&& f.source_mode is None
    &&& f.target_mode is None
    &&& !f.is_symlink
    &&& f.symlink_target is None
    &&& !f.is_submodule
    &&& f.source_blob is None
    &&& f.target_blob is None
    &&& f.source_content is None
    &&& f.target_content is None
    &&& f.error is None
}

/// Only the mode changed: both modes and both blob ids are known, the
/// modes differ and the blob ids are equal.
pub open spec fn permission_only(f: DiffFile) -> bool {
    match (f.source_mode, f.target_mode, f.source_blob, f.target_blob) {
        (Some(sm), Some(tm), Some(sb), Some(tb)) => sm@ != tm@ && sb@ == tb@,
        _ => false,
    }
}

impl DiffFile {
    /// A record with the given path and status and nothing else known.
    pub fn new(path: String, status: FileStatus) -> (r: DiffFile)
        ensures
            fresh_diff_file(r, path@, status),
    {
        DiffFile {
            path,
            original_path: None,
            status,
            similarity: None,
            source_mode: None,
            target_mode: None,
            is_symlink: false,
            symlink_target: None,
            is_submodule: false,
            source_blob: None,
            target_blob: None,
            source_content: None,
            target_content: None,
            error: None,
        }
    }

    /// Whether only the file mode changed (same blob, different modes).
    pub fn is_permission_only_change(&self) -> (r: bool)
        ensures
            r == permission_only(*self),
    {
        match (&self.source_mode, &self.target_mode) {
            (Some(src), Some(tgt)) => {
                if !src.eq(tgt) {
                    match (&self.source_blob, &self.target_blob) {
                        (Some(sb), Some(tb)) => sb.eq(tb),
                        _ => false,
                    }
                } else {
                    false
                }
            },
            _ => false,
        }
    }
}

/// A file compared across base, ours and theirs.
#[derive(Debug, Clone)]
pub struct ThreeWayDiffFile {
    pub path: String,
    pub status: ThreeWayStatus,
    pub base_blob: Option<String>,
    pub ours_blob: Option<String>,
    pub theirs_blob: Option<String>,
    pub base_content: Option<Vec<u8>>,
    pub ours_content: Option<Vec<u8>>,
    pub theirs_content: Option<Vec<u8>>,
    pub base_size: Option<usize>,
    pub ours_size: Option<usize>,
    pub theirs_size: Option<usize>,
    pub error: Option<String>,
}

/// A fresh three-way record: only the path and the status are set.
pub open spec fn fresh_three_way_file(f: ThreeWayDiffFile, path: Seq<char>, status: ThreeWayStatus) -> bool {
    &&& f.path@ == path
    &&& f.status == status
    &&& f.base_blob is None
    &&& f.ours_blob is None
    &&& f.theirs_blob is None
    &&& f.base_content is None
    &&& f.ours_content is None
    &&& f.theirs_content is None
    &&& f.base_size is None
    &&& f.ours_size is None
    &&& f.theirs_size is None
    &&& f.error is None
}

impl ThreeWayDiffFile {
    /// A record with the given path and status and nothing else known.
    pub fn new(path: String, status: ThreeWayStatus) -> (r: ThreeWayDiffFile)
        ensures
            fresh_three_way_file(r, path@, status),
    {
        ThreeWayDiffFile {
            path,
            status,
            base_blob: None,
            ours_blob: None,
            theirs_blob: None,
            base_content: None,
            ours_content: None,
            theirs_content: None,
            base_size: None,
            ours_size: None,
            theirs_size: None,
            error: None,
        }
    }
}

/// Which mode changes are checked.
#[derive(Debug, Clone, Copy, PartialEq, Eq, Structural)]
pub enum PermissionCheckMode {
    /// No check (named `none` on the command line).
    Off,
    Scripts,
    All,
}

/// Which versions of a conflicting file are copied.
#[derive(Debug, Clone, Copy, PartialEq, Eq, Structural)]
pub enum MergeStyle {
    All,
    Ours,
    Theirs,
}

/// When output is colored.
#[derive(Debug, Clone, Copy, PartialEq, Eq, Structural)]
pub enum ColorMode {
    Auto,
    Always,
    Never,
}

/// How much is logged.
#[derive(Debug, Clone, Copy, PartialEq, Eq, Structural)]
pub enum LogLevel {
    Error,
    Warn,
    Info,
    Debug,
}

impl Default for PermissionCheckMode {
    fn default() -> (r: Self)
        ensures
            r == PermissionCheckMode::Off,
    {
        PermissionCheckMode::Off
    }
}

impl Default for MergeStyle {
    fn default() -> (r: Self)
        ensures
            r == MergeStyle::All,
    {
        MergeStyle::All
    }
}

impl Default for ColorMode {
    fn default() -> (r: Self)
        ensures
            r == ColorMode::Auto,
    {
        ColorMode::Auto
    }
}

impl Default for LogLevel {
    fn default() -> (r: Self)
        ensures
            r == LogLevel::Warn,
    {
        LogLevel::Warn
    }
}

/// The message of a rejected option value: `prefix` followed by the value.
pub open spec fn invalid_value_message(prefix: Seq<char>, value: Seq<char>) -> Seq<char> {
    prefix + value
}

/// `prefix` followed by `value`, as a string.
fn message_with(prefix: &str, value: &str) -> (r: String)
    ensures
        r@ == invalid_value_message(prefix@, value@),
{
    let mut out: Vec<char> = Vec::new();
    push_str(&mut out, prefix);
    push_str(&mut out, value);
    string_of(&out)
}

/// The permission check mode named by a word, ASCII case ignored.
pub open spec fn permission_mode_of(s: Seq<char>) -> Option<PermissionCheckMode> {
    if matches_ignoring_case(s, "none"@) {
        Some(PermissionCheckMode::Off)
    } else if matches_ignoring_case(s, "scripts"@) {
        Some(PermissionCheckMode::Scripts)
    } else if matches_ignoring_case(s, "all"@) {
        Some(PermissionCheckMode::All)
    } else {
        None
    }
}

/// The merge style named by a word, ASCII case ignored.
pub open spec fn merge_style_of(s: Seq<char>) -> Option<MergeStyle> {
    if matches_ignoring_case(s, "all"@) {
        Some(MergeStyle::All)
    } else if matches_ignoring_case(s, "ours"@) {
        Some(MergeStyle::Ours)
    } else if matches_ignoring_case(s, "theirs"@) {
        Some(MergeStyle::Theirs)
    } else {
        None
    }
}

/// The color mode named by a word, ASCII case ignored.
pub open spec fn color_mode_of(s: Seq<char>) -> Option<ColorMode> {
    if matches_ignoring_case(s, "auto"@) {
        Some(ColorMode::Auto)
    } else if matches_ignoring_case(s, "always"@) {
        Some(ColorMode::Always)
    } else if matches_ignoring_case(s, "never"@) {
        Some(ColorMode::Never)
    } else {
        None
    }
}

/// The log level named by a word, ASCII case ignored.
pub open spec fn log_level_of(s: Seq<char>) -> Option<LogLevel> {
    if matches_ignoring_case(s, "error"@) {
        Some(LogLevel::Error)
    } else if matches_ignoring_case(s, "warn"@) {
        Some(LogLevel::Warn)
    } else if matches_ignoring_case(s, "info"@) {
        Some(LogLevel::Info)
    } else if matches_ignoring_case(s, "debug"@) {
        Some(LogLevel::Debug)
    } else {
        None
    }
}

impl PermissionCheckMode {
    /// Parses `none`, `scripts` or `all`, ASCII case ignored.
    pub fn from_str(s: &str) -> (r: Result<PermissionCheckMode, String>)
        ensures
            permission_mode_of(s@) matches Some(m) ==> r == Ok::<PermissionCheckMode, String>(m),
            permission_mode_of(s@) is None ==> (r matches Err(msg) && msg@ == invalid_value_message(
                "Invalid permission check mode: "@,
                s@,
            )),
    {
        let v = chars_of(s);
        if eq_ignoring_case(&v, "none") {
            Ok(PermissionCheckMode::Off)
        } else if eq_ignoring_case(&v, "scripts") {
            Ok(PermissionCheckMode::Scripts)
        } else if eq_ignoring_case(&v, "all") {
            Ok(PermissionCheckMode::All)
        } else {
            Err(message_with("Invalid permission check mode: ", s))
        }
    }
}

impl MergeStyle {
    /// Parses `all`, `ours` or `theirs`, ASCII case ignored.
    pub fn from_str(s: &str) -> (r: Result<MergeStyle, String>)
        ensures
            merge_style_of(s@) matches Some(m) ==> r == Ok::<MergeStyle, String>(m),
            merge_style_of(s@) is None ==> (r matches Err(msg) && msg@ == invalid_value_message(
                "Invalid merge style: "@,
                s@,
            )),
    {
        let v = chars_of(s);
        if eq_ignoring_case(&v, "all") {
            Ok(MergeStyle::All)
        } else if eq_ignoring_case(&v, "ours") {
            Ok(MergeStyle::Ours)
        } else if eq_ignoring_case(&v, "theirs") {
            Ok(MergeStyle::Theirs)
        } else {
            Err(message_with("Invalid merge style: ", s))
        }
    }
}

impl ColorMode {
    /// Parses `auto`, `always` or `never`, ASCII case ignored.
    pub fn from_str(s: &str) -> (r: Result<ColorMode, String>)
        ensures
            color_mode_of(s@) matches Some(m) ==> r == Ok::<ColorMode, String>(m),
            color_mode_of(s@) is None ==> (r matches Err(msg) && msg@ == invalid_value_message(
                "Invalid color mode: "@,
                s@,
            )),
    {
        let v = chars_of(s);
        if eq_ignoring_case(&v, "auto") {
            Ok(ColorMode::Auto)
        } else if eq_ignoring_case(&v, "always") {
            Ok(ColorMode::Always)
        } else if eq_ignoring_case(&v, "never") {
            Ok(ColorMode::Never)
        } else {
            Err(message_with("Invalid color mode: ", s))
        }
    }
}

impl LogLevel {
    /// Parses `error`, `warn`, `info` or `debug`, ASCII case ignored.
    pub fn from_str(s: &str) -> (r: Result<LogLevel, String>)
        ensures
            log_level_of(s@) matches Some(m) ==> r == Ok::<LogLevel, String>(m),
            log_level_of(s@) is None ==> (r matches Err(msg) && msg@ == invalid_value_message(
                "Invalid log level: "@,
                s@,
            )),
    {
        let v = chars_of(s);
        if eq_ignoring_case(&v, "error") {
            Ok(LogLevel::Error)
        } else if eq_ignoring_case(&v, "warn") {
            Ok(LogLevel::Warn)
        } else if eq_ignoring_case(&v, "info") {
            Ok(LogLevel::Info)
        } else if eq_ignoring_case(&v, "debug") {
            Ok(LogLevel::Debug)
        } else {
            Err(message_with("Invalid log level: ", s))
        }
    }
}

/// Counts of a two-way comparison.
#[derive(Debug, Clone)]
pub struct Statistics {
    pub added: usize,
    pub modified: usize,
    pub deleted: usize,
    pub renamed: usize,
    pub copied: usize,
    pub type_changed: usize,
    pub symlinks: usize,
    pub submodules: usize,
    pub permission_changes: usize,
    pub unchanged: usize,
    pub errors: usize,
    pub copy_failed: usize,
}

/// Files counted by status (symlinks, submodules and the like are extra marks).
pub open spec fn statistics_total(s: Statistics) -> int {
    s.added + s.modified + s.deleted + s.renamed + s.copied + s.type_changed + s.unchanged
}

impl Default for Statistics {
    fn default() -> (r: Self)
        ensures
            r.added == 0 && r.modified == 0 && r.deleted == 0 && r.renamed == 0 && r.copied == 0
                && r.type_changed == 0 && r.symlinks == 0 && r.submodules == 0
                && r.permission_changes == 0 && r.unchanged == 0 && r.errors == 0 && r.copy_failed
                == 0,
    {
        Statistics {
            added: 0,
            modified: 0,
            deleted: 0,
            renamed: 0,
            copied: 0,
            type_changed: 0,
            symlinks: 0,
            submodules: 0,
            permission_changes: 0,
            unchanged: 0,
            errors: 0,
            copy_failed: 0,
        }
    }
}

impl Statistics {
    /// Number of files counted by status.
    pub fn total(&self) -> (r: usize)
        requires
            statistics_total(*self) <= usize::MAX,
        ensures
            r == statistics_total(*self),
    {
        self.added + self.modified + self.deleted + self.renamed + self.copied + self.type_changed
            + self.unchanged
    }
}

/// Counts of a three-way comparison.
#[derive(Debug, Clone)]
pub struct ThreeWayStatistics {
    pub unchanged: usize,
    pub ours_only: usize,
    pub theirs_only: usize,
    pub both_same: usize,
    pub conflict: usize,
    pub added_ours: usize,
    pub added_theirs: usize,
    pub added_both_same: usize,
    pub added_both_diff: usize,
    pub deleted_ours: usize,
    pub deleted_theirs: usize,
    pub deleted_both: usize,
    pub modify_delete: usize,
    pub delete_modify: usize,
}

/// Sum of all fourteen counts.
pub open spec fn three_way_total(s: ThreeWayStatistics) -> int {
    s.unchanged + s.ours_only + s.theirs_only + s.both_same + s.conflict + s.added_ours
        + s.added_theirs + s.added_both_same + s.added_both_diff + s.deleted_ours
        + s.deleted_theirs + s.deleted_both + s.modify_delete + s.delete_modify
}

/// Sum of the four conflict counts.
pub open spec fn three_way_conflicts(s: ThreeWayStatistics) -> int {
    s.conflict + s.added_both_diff + s.modify_delete + s.delete_modify
}

impl Default for ThreeWayStatistics {
    fn default() -> (r: Self)
        ensures
            three_way_total(r) == 0,
            r.unchanged == 0 && r.ours_only == 0 && r.theirs_only == 0 && r.both_same == 0
                && r.conflict == 0 && r.added_ours == 0 && r.added_theirs == 0
                && r.added_both_same == 0 && r.added_both_diff == 0 && r.deleted_ours == 0
                && r.deleted_theirs == 0 && r.deleted_both == 0 && r.modify_delete == 0
                && r.delete_modify == 0,
    {
        ThreeWayStatistics {
            unchanged: 0,
            ours_only: 0,
            theirs_only: 0,
            both_same: 0,
            conflict: 0,
            added_ours: 0,
            added_theirs: 0,
            added_both_same: 0,
            added_both_diff: 0,
            deleted_ours: 0,
            deleted_theirs: 0,
            deleted_both: 0,
            modify_delete: 0,
            delete_modify: 0,
        }
    }
}

impl ThreeWayStatistics {
    /// Number of files compared.
    pub fn total(&self) -> (r: usize)
        requires
            three_way_total(*self) <= usize::MAX,
        ensures
            r == three_way_total(*self),
    {
        self.unchanged + self.ours_only + self.theirs_only + self.both_same + self.conflict
            + self.added_ours + self.added_theirs + self.added_both_same + self.added_both_diff
            + self.deleted_ours + self.deleted_theirs + self.deleted_both + self.modify_delete
            + self.delete_modify
    }

    /// Number of conflicting files.
    pub fn conflicts(&self) -> (r: usize)
        requires
            three_way_conflicts(*self) <= usize::MAX,
        ensures
            r == three_way_conflicts(*self),
    {
        self.conflict + self.added_both_diff + self.modify_delete + self.delete_modify
    }
}

} // verus!

verus! {

/// A filter made only of exclusions starts from every status: it lets
/// through exactly the statuses that none of its entries excludes.
pub proof fn law_exclusions_start_from_all(f: Seq<Seq<char>>, s: ThreeWayStatus)
    requires
        has_exclusion(f),
        !has_inclusion(f),
    ensures
        filter_allows(f, s) <==> !some_entry_excludes(f, s),
{
}

/// An empty filter lets every status through.
pub proof fn law_empty_filter_allows_all(s: ThreeWayStatus)
    ensures
        filter_allows(Seq::empty(), s),
{
}

/// A text with its ASCII letters folded to lower case.
pub open spec fn folded(s: Seq<char>) -> Seq<char> {
    s.map_values(|c: char| ascii_lower(c))
}

/// Two filter entries that differ at most in letter case and surrounding
/// blanks.
pub open spec fn same_entry(a: Seq<char>, b: Seq<char>) -> bool {
    folded(trimmed(a)) == folded(trimmed(b))
}

proof fn lemma_lower_caret(c: char)
    ensures
        (ascii_lower(c) == '^') == (c == '^'),
{
    if 'A' <= c && c <= 'Z' {
        assert(65 <= (c as u32) <= 90);
        assert(ascii_lower(c) as u32 == (c as u32) + 32);
    }
}

/// Texts that fold alike match the same words.
proof fn lemma_folded_matches(a: Seq<char>, b: Seq<char>)
    requires
        folded(a) == folded(b),
    ensures
        forall|w: Seq<char>| #[trigger] matches_ignoring_case(a, w) == matches_ignoring_case(b, w),
{
    assert(a.len() == folded(a).len() && b.len() == folded(b).len());
    assert forall|w: Seq<char>| #[trigger] matches_ignoring_case(a, w) implies matches_ignoring_case(b, w) by {
        assert forall|i: int| 0 <= i < b.len() implies #[trigger] ascii_lower(b[i]) == w[i] by {
            assert(folded(a)[i] == ascii_lower(a[i]) && folded(b)[i] == ascii_lower(b[i]));
        }
    }
    assert forall|w: Seq<char>| #[trigger] matches_ignoring_case(b, w) implies matches_ignoring_case(a, w) by {
        assert forall|i: int| 0 <= i < a.len() implies #[trigger] ascii_lower(a[i]) == w[i] by {
            assert(folded(a)[i] == ascii_lower(a[i]) && folded(b)[i] == ascii_lower(b[i]));
        }
    }
}

/// Entries that differ only in letter case and blanks act alike.
proof fn lemma_same_entry_acts_alike(a: Seq<char>, b: Seq<char>)
    requires
        same_entry(a, b),
    ensures
        entry_counts(a) == entry_counts(b),
        entry_is_exclusion(a) == entry_is_exclusion(b),
        forall|s: ThreeWayStatus| #[trigger] entry_includes(a, s) == entry_includes(b, s),
        forall|s: ThreeWayStatus| #[trigger] entry_excludes(a, s) == entry_excludes(b, s),
{
    let ta = trimmed(a);
    let tb = trimmed(b);
    assert(ta.len() == folded(ta).len() && tb.len() == folded(tb).len());
    if ta.len() > 0 {
        assert(folded(ta)[0] == ascii_lower(ta[0]) && folded(tb)[0] == ascii_lower(tb[0]));
        lemma_lower_caret(ta[0]);
        lemma_lower_caret(tb[0]);
    }
    let ka = entry_keyword(a);
    let kb = entry_keyword(b);
    if ta.len() > 0 && ta[0] == '^' {
        assert(folded(ka) =~= folded(ta).drop_first());
        assert(folded(kb) =~= folded(tb).drop_first());
    } else {
        assert(ka == ta && kb == tb);
    }
    lemma_folded_matches(ka, kb);
    assert(group_of_word(ka) == group_of_word(kb));
    assert(three_way_status_of_filter(ka) == three_way_status_of_filter(kb));
    assert(keyword_statuses(ka) == keyword_statuses(kb));
}

proof fn lemma_includes_some(f: Seq<Seq<char>>, s: ThreeWayStatus)
    ensures
        some_entry_includes(f, s) == exists|i: int| 0 <= i < f.len() && #[trigger] entry_includes(f[i], s),
    decreases f.len(),
{
    if f.len() > 0 {
        lemma_includes_some(f.drop_last(), s);
        if exists|i: int| 0 <= i < f.len() && #[trigger] entry_includes(f[i], s) {
            let i = choose|i: int| 0 <= i < f.len() && #[trigger] entry_includes(f[i], s);
            if i < f.len() - 1 {
                assert(f.drop_last()[i] == f[i]);
            }
        }
        if exists|i: int| 0 <= i < f.drop_last().len() && #[trigger] entry_includes(f.drop_last()[i], s) {
            let i = choose|i: int| 0 <= i < f.drop_last().len() && #[trigger] entry_includes(f.drop_last()[i], s);
            assert(f[i] == f.drop_last()[i]);
        }
    }
}

proof fn lemma_excludes_some(f: Seq<Seq<char>>, s: ThreeWayStatus)
    ensures
        some_entry_excludes(f, s) == exists|i: int| 0 <= i < f.len() && #[trigger] entry_excludes(f[i], s),
    decreases f.len(),
{
    if f.len() > 0 {
        lemma_excludes_some(f.drop_last(), s);
        if exists|i: int| 0 <= i < f.len() && #[trigger] entry_excludes(f[i], s) {
            let i = choose|i: int| 0 <= i < f.len() && #[trigger] entry_excludes(f[i], s);
            if i < f.len() - 1 {
                assert(f.drop_last()[i] == f[i]);
            }
        }
        if exists|i: int| 0 <= i < f.drop_last().len() && #[trigger] entry_excludes(f.drop_last()[i], s) {
            let i = choose|i: int| 0 <= i < f.drop_last().len() && #[trigger] entry_excludes(f.drop_last()[i], s);
            assert(f[i] == f.drop_last()[i]);
        }
    }
}

/// A counting inclusion entry.
pub open spec fn is_inclusion_entry(e: Seq<char>) -> bool {
    entry_counts(e) && !entry_is_exclusion(e)
}

/// A counting exclusion entry.
pub open spec fn is_exclusion_entry(e: Seq<char>) -> bool {
    entry_counts(e) && entry_is_exclusion(e)
}

proof fn lemma_inclusion_some(f: Seq<Seq<char>>)
    ensures
        has_inclusion(f) == exists|i: int| 0 <= i < f.len() && #[trigger] is_inclusion_entry(f[i]),
    decreases f.len(),
{
    if f.len() > 0 {
        lemma_inclusion_some(f.drop_last());
        let n = f.len() - 1;
        assert(f.last() == f[n]);
        assert(is_inclusion_entry(f[n]) == (entry_counts(f.last()) && !entry_is_exclusion(f.last())));
        if exists|i: int| 0 <= i < f.len() && #[trigger] is_inclusion_entry(f[i]) {
            let i = choose|i: int| 0 <= i < f.len() && #[trigger] is_inclusion_entry(f[i]);
            if i < f.len() - 1 {
                assert(f.drop_last()[i] == f[i]);
            }
        }
        if exists|i: int| 0 <= i < f.drop_last().len() && #[trigger] is_inclusion_entry(f.drop_last()[i]) {
            let i = choose|i: int| 0 <= i < f.drop_last().len() && #[trigger] is_inclusion_entry(f.drop_last()[i]);
            assert(f[i] == f.drop_last()[i]);
        }
    }
}

proof fn lemma_exclusion_some(f: Seq<Seq<char>>)
    ensures
        has_exclusion(f) == exists|i: int| 0 <= i < f.len() && #[trigger] is_exclusion_entry(f[i]),
    decreases f.len(),
{
    if f.len() > 0 {
        lemma_exclusion_some(f.drop_last());
        let n = f.len() - 1;
        assert(f.last() == f[n]);
        assert(is_exclusion_entry(f[n]) == (entry_counts(f.last()) && entry_is_exclusion(f.last())));
        if exists|i: int| 0 <= i < f.len() && #[trigger] is_exclusion_entry(f[i]) {
            let i = choose|i: int| 0 <= i < f.len() && #[trigger] is_exclusion_entry(f[i]);
            if i < f.len() - 1 {
                assert(f.drop_last()[i] == f[i]);
            }
        }
        if exists|i: int| 0 <= i < f.drop_last().len() && #[trigger] is_exclusion_entry(f.drop_last()[i]) {
            let i = choose|i: int| 0 <= i < f.drop_last().len() && #[trigger] is_exclusion_entry(f.drop_last()[i]);
            assert(f[i] == f.drop_last()[i]);
        }
    }
}

/// Every entry of `f` has an entry of `g` that differs from it at most in
/// letter case and blanks.
pub open spec fn entries_covered(f: Seq<Seq<char>>, g: Seq<Seq<char>>) -> bool {
    forall|i: int| 0 <= i < f.len() ==> #[trigger] entry_covered(f, g, i)
}

/// The `i`-th entry of `f` has an entry of `g` that differs from it at most
/// in letter case and blanks.
pub open spec fn entry_covered(f: Seq<Seq<char>>, g: Seq<Seq<char>>, i: int) -> bool {
    exists|j: int| 0 <= j < g.len() && #[trigger] same_entry(f[i], g[j])
}

proof fn lemma_covered_one_way(f: Seq<Seq<char>>, g: Seq<Seq<char>>, s: ThreeWayStatus)
    requires
        entries_covered(f, g),
    ensures
        some_entry_includes(f, s) ==> some_entry_includes(g, s),
        some_entry_excludes(f, s) ==> some_entry_excludes(g, s),
        has_inclusion(f) ==> has_inclusion(g),
        has_exclusion(f) ==> has_exclusion(g),
        f.len() > 0 ==> g.len() > 0,
{
    lemma_includes_some(f, s);
    lemma_includes_some(g, s);
    lemma_excludes_some(f, s);
    lemma_excludes_some(g, s);
    lemma_inclusion_some(f);
    lemma_inclusion_some(g);
    lemma_exclusion_some(f);
    lemma_exclusion_some(g);
    if f.len() > 0 {
        assert(entry_covered(f, g, 0));
    }
    if some_entry_includes(f, s) {
        let i = choose|i: int| 0 <= i < f.len() && #[trigger] entry_includes(f[i], s);
        assert(entry_covered(f, g, i));
        let j = choose|j: int| 0 <= j < g.len() && same_entry(f[i], g[j]);
        lemma_same_entry_acts_alike(f[i], g[j]);
        assert(entry_includes(g[j], s));
    }
    if some_entry_excludes(f, s) {
        let i = choose|i: int| 0 <= i < f.len() && #[trigger] entry_excludes(f[i], s);
        assert(entry_covered(f, g, i));
        let j = choose|j: int| 0 <= j < g.len() && same_entry(f[i], g[j]);
        lemma_same_entry_acts_alike(f[i], g[j]);
        assert(entry_excludes(g[j], s));
    }
    if has_inclusion(f) {
        let i = choose|i: int| 0 <= i < f.len() && #[trigger] is_inclusion_entry(f[i]);
        assert(entry_covered(f, g, i));
        let j = choose|j: int| 0 <= j < g.len() && same_entry(f[i], g[j]);
        lemma_same_entry_acts_alike(f[i], g[j]);
        assert(is_inclusion_entry(g[j]));
    }
    if has_exclusion(f) {
        let i = choose|i: int| 0 <= i < f.len() && #[trigger] is_exclusion_entry(f[i]);
        assert(entry_covered(f, g, i));
        let j = choose|j: int| 0 <= j < g.len() && same_entry(f[i], g[j]);
        lemma_same_entry_acts_alike(f[i], g[j]);
        assert(is_exclusion_entry(g[j]));
    }
}

/// A text matches at most one word.
proof fn lemma_matches_one(t: Seq<char>, w: Seq<char>, v: Seq<char>)
    requires
        matches_ignoring_case(t, w),
    ensures
        matches_ignoring_case(t, v) ==> v == w,
{
    if matches_ignoring_case(t, v) {
        assert forall|i: int| 0 <= i < v.len() implies v[i] == w[i] by {
            assert(ascii_lower(t[i]) == v[i] && ascii_lower(t[i]) == w[i]);
        }
        assert(v =~= w);
    }
}

/// The name inside a two-way tag: `added` for `[added]`.
pub open spec fn tag_name(s: FileStatus) -> Seq<char> {
    file_status_tag(s).subrange(1, file_status_tag(s).len() - 1)
}

/// The name of each two-way tag, written in any letter case, is a filter
/// word for that status.
pub proof fn law_tag_names_parse_back(s: FileStatus, t: Seq<char>)
    requires
        matches_ignoring_case(t, tag_name(s)),
    ensures
        file_status_of_filter(t) == Some(s),
{
    reveal_strlit("[added]");
    reveal_strlit("[modified]");
    reveal_strlit("[deleted]");
    reveal_strlit("[renamed]");
    reveal_strlit("[copied]");
    reveal_strlit("[type-changed]");
    reveal_strlit("[unchanged]");
    reveal_strlit("added");
    reveal_strlit("add");
    reveal_strlit("a");
    reveal_strlit("modified");
    reveal_strlit("modify");
    reveal_strlit("m");
    reveal_strlit("deleted");
    reveal_strlit("delete");
    reveal_strlit("d");
    reveal_strlit("renamed");
    reveal_strlit("rename");
    reveal_strlit("r");
    reveal_strlit("copied");
    reveal_strlit("copy");
    reveal_strlit("c");
    reveal_strlit("type-changed");
    reveal_strlit("typechanged");
    reveal_strlit("type_changed");
    reveal_strlit("t");
    reveal_strlit("unchanged");
    reveal_strlit("same");
    reveal_strlit("u");
    let w = tag_name(s);
    match s {
        FileStatus::Added => assert(w =~= "added"@),
        FileStatus::Modified => assert(w =~= "modified"@),
        FileStatus::Deleted => assert(w =~= "deleted"@),
        FileStatus::Renamed => {
            assert(w =~= "renamed"@);
            assert("renamed"@[0] != "deleted"@[0]);
        },
        FileStatus::Copied => {
            assert(w =~= "copied"@);
            assert("copied"@[0] != "modify"@[0] && "copied"@[0] != "delete"@[0] && "copied"@[0] != "rename"@[0]);
        },
        FileStatus::TypeChanged => assert(w =~= "type-changed"@),
        FileStatus::Unchanged => assert(w =~= "unchanged"@),
    }
    lemma_matches_one(t, w, "added"@);
    lemma_matches_one(t, w, "add"@);
    lemma_matches_one(t, w, "a"@);
    lemma_matches_one(t, w, "modified"@);
    lemma_matches_one(t, w, "modify"@);
    lemma_matches_one(t, w, "m"@);
    lemma_matches_one(t, w, "deleted"@);
    lemma_matches_one(t, w, "delete"@);
    lemma_matches_one(t, w, "d"@);
    lemma_matches_one(t, w, "renamed"@);
    lemma_matches_one(t, w, "rename"@);
    lemma_matches_one(t, w, "r"@);
    lemma_matches_one(t, w, "copied"@);
    lemma_matches_one(t, w, "copy"@);
    lemma_matches_one(t, w, "c"@);
    lemma_matches_one(t, w, "type-changed"@);
    lemma_matches_one(t, w, "typechanged"@);
    lemma_matches_one(t, w, "type_changed"@);
    lemma_matches_one(t, w, "t"@);
    lemma_matches_one(t, w, "unchanged"@);
    lemma_matches_one(t, w, "same"@);
    lemma_matches_one(t, w, "u"@);
}

/// A name with its hyphens written as underscores.
pub open spec fn snake(w: Seq<char>) -> Seq<char> {
    w.map_values(|c: char| if c == '-' { '_' } else { c })
}

/// The tag of each three-way status that is no conflict, written in any
/// letter case and with hyphens or underscores, is a filter word for that
/// status.
pub proof fn law_three_way_names_parse_back(s: ThreeWayStatus, t: Seq<char>)
    requires
        !is_conflict_status(s),
        matches_ignoring_case(t, three_way_tag(s)) || matches_ignoring_case(t, snake(three_way_tag(s))),
    ensures
        three_way_status_of_filter(t) == Some(s),
{
    reveal_strlit("unchanged");
    reveal_strlit("same");
    reveal_strlit("ours-only");
    reveal_strlit("ours_only");
    reveal_strlit("oursonly");
    reveal_strlit("theirs-only");
    reveal_strlit("theirs_only");
    reveal_strlit("theirsonly");
    reveal_strlit("both-same");
    reveal_strlit("both_same");
    reveal_strlit("bothsame");
    reveal_strlit("conflict");
    reveal_strlit("added-ours");
    reveal_strlit("added_ours");
    reveal_strlit("addedours");
    reveal_strlit("added-theirs");
    reveal_strlit("added_theirs");
    reveal_strlit("addedtheirs");
    reveal_strlit("added-both-same");
    reveal_strlit("added_both_same");
    reveal_strlit("addedbothsame");
    reveal_strlit("added-both-diff");
    reveal_strlit("added_both_diff");
    reveal_strlit("addedbothdiff");
    reveal_strlit("deleted-ours");
    reveal_strlit("deleted_ours");
    reveal_strlit("deletedours");
    reveal_strlit("deleted-theirs");
    reveal_strlit("deleted_theirs");
    reveal_strlit("deletedtheirs");
    reveal_strlit("deleted-both");
    reveal_strlit("deleted_both");
    reveal_strlit("deletedboth");
    reveal_strlit("modify-delete");
    reveal_strlit("modify_delete");
    reveal_strlit("modifydelete");
    reveal_strlit("delete-modify");
    reveal_strlit("delete_modify");
    reveal_strlit("deletemodify");
    let w = three_way_tag(s);
    match s {
        ThreeWayStatus::Unchanged => {
            assert(w =~= "unchanged"@);
            assert(snake(w) =~= "unchanged"@);
        },
        ThreeWayStatus::OursOnly => {
            assert(w =~= "ours-only"@);
            assert(snake(w) =~= "ours_only"@);
            assert("ours-only"@[0] != "unchanged"@[0]);
            assert("ours_only"@[0] != "unchanged"@[0]);
        },
        ThreeWayStatus::TheirsOnly => {
            assert(w =~= "theirs-only"@);
            assert(snake(w) =~= "theirs_only"@);
        },
        ThreeWayStatus::BothSame => {
            assert(w =~= "both-same"@);
            assert(snake(w) =~= "both_same"@);
            assert("both-same"@[0] != "unchanged"@[0]);
            assert("both-same"@[0] != "ours-only"@[0]);
            assert("both-same"@[0] != "ours_only"@[0]);
            assert("both_same"@[0] != "unchanged"@[0]);
            assert("both_same"@[0] != "ours-only"@[0]);
            assert("both_same"@[0] != "ours_only"@[0]);
        },
        ThreeWayStatus::AddedOurs => {
            assert(w =~= "added-ours"@);
            assert(snake(w) =~= "added_ours"@);
            assert("added-ours"@[0] != "theirsonly"@[0]);
            assert("added_ours"@[0] != "theirsonly"@[0]);
        },
        ThreeWayStatus::AddedTheirs => {
            assert(w =~= "added-theirs"@);
            assert(snake(w) =~= "added_theirs"@);
        },
        ThreeWayStatus::AddedBothSame => {
            assert(w =~= "added-both-same"@);
            assert(snake(w) =~= "added_both_same"@);
        },
        ThreeWayStatus::DeletedOurs => {
            assert(w =~= "deleted-ours"@);
            assert(snake(w) =~= "deleted_ours"@);
            assert("deleted-ours"@[0] != "added-theirs"@[0]);
            assert("deleted-ours"@[0] != "added_theirs"@[0]);
            assert("deleted_ours"@[0] != "added-theirs"@[0]);
            assert("deleted_ours"@[0] != "added_theirs"@[0]);
        },
        ThreeWayStatus::DeletedTheirs => {
            assert(w =~= "deleted-theirs"@);
            assert(snake(w) =~= "deleted_theirs"@);
        },
        ThreeWayStatus::DeletedBoth => {
            assert(w =~= "deleted-both"@);
            assert(snake(w) =~= "deleted_both"@);
            assert("deleted-both"@[0] != "added-theirs"@[0]);
            assert("deleted-both"@[0] != "added_theirs"@[0]);
            assert("deleted-both"@[8] != "deleted-ours"@[8]);
            assert("deleted-both"@[7] != "deleted_ours"@[7]);
            assert("deleted_both"@[0] != "added-theirs"@[0]);
            assert("deleted_both"@[0] != "added_theirs"@[0]);
            assert("deleted_both"@[7] != "deleted-ours"@[7]);
            assert("deleted_both"@[8] != "deleted_ours"@[8]);
        },
        _ => {},
    }
    let u = if matches_ignoring_case(t, w) {
        w
    } else {
        snake(w)
    };
    lemma_matches_one(t, u, "unchanged"@);
    lemma_matches_one(t, u, "same"@);
    lemma_matches_one(t, u, "ours-only"@);
    lemma_matches_one(t, u, "ours_only"@);
    lemma_matches_one(t, u, "oursonly"@);
    lemma_matches_one(t, u, "theirs-only"@);
    lemma_matches_one(t, u, "theirs_only"@);
    lemma_matches_one(t, u, "theirsonly"@);
    lemma_matches_one(t, u, "both-same"@);
    lemma_matches_one(t, u, "both_same"@);
    lemma_matches_one(t, u, "bothsame"@);
    lemma_matches_one(t, u, "conflict"@);
    lemma_matches_one(t, u, "added-ours"@);
    lemma_matches_one(t, u, "added_ours"@);
    lemma_matches_one(t, u, "addedours"@);
    lemma_matches_one(t, u, "added-theirs"@);
    lemma_matches_one(t, u, "added_theirs"@);
    lemma_matches_one(t, u, "addedtheirs"@);
    lemma_matches_one(t, u, "added-both-same"@);
    lemma_matches_one(t, u, "added_both_same"@);
    lemma_matches_one(t, u, "addedbothsame"@);
    lemma_matches_one(t, u, "added-both-diff"@);
    lemma_matches_one(t, u, "added_both_diff"@);
    lemma_matches_one(t, u, "addedbothdiff"@);
    lemma_matches_one(t, u, "deleted-ours"@);
    lemma_matches_one(t, u, "deleted_ours"@);
    lemma_matches_one(t, u, "deletedours"@);
    lemma_matches_one(t, u, "deleted-theirs"@);
    lemma_matches_one(t, u, "deleted_theirs"@);
    lemma_matches_one(t, u, "deletedtheirs"@);
    lemma_matches_one(t, u, "deleted-both"@);
    lemma_matches_one(t, u, "deleted_both"@);
    lemma_matches_one(t, u, "deletedboth"@);
    lemma_matches_one(t, u, "modify-delete"@);
    lemma_matches_one(t, u, "modify_delete"@);
    lemma_matches_one(t, u, "modifydelete"@);
    lemma_matches_one(t, u, "delete-modify"@);
    lemma_matches_one(t, u, "delete_modify"@);
    lemma_matches_one(t, u, "deletemodify"@);
}

/// A three-way status filter does not depend on the order of its entries,
/// on repeated entries, on letter case or on blanks around an entry: two
/// lists whose entries match each other up to case and blanks let the same
/// statuses through.
pub proof fn law_filter_ignores_order_case_and_blanks(f: Seq<Seq<char>>, g: Seq<Seq<char>>, s: ThreeWayStatus)
    requires
        entries_covered(f, g),
        entries_covered(g, f),
    ensures
        filter_allows(f, s) == filter_allows(g, s),
{
    lemma_covered_one_way(f, g, s);
    lemma_covered_one_way(g, f, s);
}

/// A character with its ASCII letter raised to upper case.
pub open spec fn ascii_upper(c: char) -> char {
    if 'a' <= c && c <= 'z' {
        ((c as u32) - 32) as char
    } else {
        c
    }
}

/// A text with its ASCII letters raised to upper case.
pub open spec fn upper_text(s: Seq<char>) -> Seq<char> {
    s.map_values(|c: char| ascii_upper(c))
}

/// A text without upper-case ASCII letters.
pub open spec fn no_upper(w: Seq<char>) -> bool {
    forall|i: int| 0 <= i < w.len() ==> !('A' <= #[trigger] w[i] && w[i] <= 'Z')
}

proof fn lemma_lower_upper(c: char)
    requires
        !('A' <= c && c <= 'Z'),
    ensures
        ascii_lower(ascii_upper(c)) == c,
        ascii_lower(c) == c,
{
    if 'a' <= c && c <= 'z' {
        assert(97 <= (c as u32) <= 122);
        assert(ascii_upper(c) as u32 == (c as u32) - 32);
    }
}

/// A word without capitals matches itself, and its upper-case spelling.
proof fn lemma_matches_self(w: Seq<char>)
    requires
        no_upper(w),
    ensures
        matches_ignoring_case(w, w),
        matches_ignoring_case(upper_text(w), w),
{
    assert forall|i: int| 0 <= i < w.len() implies #[trigger] ascii_lower(w[i]) == w[i] by {
        lemma_lower_upper(w[i]);
    }
    assert forall|i: int| 0 <= i < upper_text(w).len() implies #[trigger] ascii_lower(upper_text(w)[i]) == w[i] by {
        lemma_lower_upper(w[i]);
    }
}

/// The name inside each two-way tag is a filter word for its status, as
/// it is and in upper case.
pub proof fn law_tag_names_name_their_status(s: FileStatus)
    ensures
        file_status_of_filter(tag_name(s)) == Some(s),
        file_status_of_filter(upper_text(tag_name(s))) == Some(s),
{
    let w = tag_name(s);
    match s {
        FileStatus::Added => {
            reveal_strlit("added");
            reveal_strlit("[added]");
            assert(w =~= "added"@);
            assert forall|i: int| 0 <= i < "added"@.len() implies !('A' <= #[trigger] "added"@[i] && "added"@[i] <= 'Z') by {
                assert(0 <= i < 5);
                if i == 0 {} else if i == 1 {} else if i == 2 {} else if i == 3 {} else if i == 4 {}
            }
        },
        FileStatus::Modified => {
            reveal_strlit("modified");
            reveal_strlit("[modified]");
            assert(w =~= "modified"@);
            assert forall|i: int| 0 <= i < "modified"@.len() implies !('A' <= #[trigger] "modified"@[i] && "modified"@[i] <= 'Z') by {
                assert(0 <= i < 8);
                if i == 0 {} else if i == 1 {} else if i == 2 {} else if i == 3 {} else if i == 4 {} else if i == 5 {} else if i == 6 {} else if i == 7 {}
            }
        },
        FileStatus::Deleted => {
            reveal_strlit("deleted");
            reveal_strlit("[deleted]");
            assert(w =~= "deleted"@);
            assert forall|i: int| 0 <= i < "deleted"@.len() implies !('A' <= #[trigger] "deleted"@[i] && "deleted"@[i] <= 'Z') by {
                assert(0 <= i < 7);
                if i == 0 {} else if i == 1 {} else if i == 2 {} else if i == 3 {} else if i == 4 {} else if i == 5 {} else if i == 6 {}
            }
        },
        FileStatus::Renamed => {
            reveal_strlit("renamed");
            reveal_strlit("[renamed]");
            assert(w =~= "renamed"@);
            assert forall|i: int| 0 <= i < "renamed"@.len() implies !('A' <= #[trigger] "renamed"@[i] && "renamed"@[i] <= 'Z') by {
                assert(0 <= i < 7);
                if i == 0 {} else if i == 1 {} else if i == 2 {} else if i == 3 {} else if i == 4 {} else if i == 5 {} else if i == 6 {}
            }
        },
        FileStatus::Copied => {
            reveal_strlit("copied");
            reveal_strlit("[copied]");
            assert(w =~= "copied"@);
            assert forall|i: int| 0 <= i < "copied"@.len() implies !('A' <= #[trigger] "copied"@[i] && "copied"@[i] <= 'Z') by {
                assert(0 <= i < 6);
                if i == 0 {} else if i == 1 {} else if i == 2 {} else if i == 3 {} else if i == 4 {} else if i == 5 {}
            }
        },
        FileStatus::TypeChanged => {
            reveal_strlit("type-changed");
            reveal_strlit("[type-changed]");
            assert(w =~= "type-changed"@);
            assert forall|i: int| 0 <= i < "type-changed"@.len() implies !('A' <= #[trigger] "type-changed"@[i] && "type-changed"@[i] <= 'Z') by {
                assert(0 <= i < 12);
                if i == 0 {} else if i == 1 {} else if i == 2 {} else if i == 3 {} else if i == 4 {} else if i == 5 {} else if i == 6 {} else if i == 7 {} else if i == 8 {} else if i == 9 {} else if i == 10 {} else if i == 11 {}
            }
        },
        FileStatus::Unchanged => {
            reveal_strlit("unchanged");
            reveal_strlit("[unchanged]");
            assert(w =~= "unchanged"@);
            assert forall|i: int| 0 <= i < "unchanged"@.len() implies !('A' <= #[trigger] "unchanged"@[i] && "unchanged"@[i] <= 'Z') by {
                assert(0 <= i < 9);
                if i == 0 {} else if i == 1 {} else if i == 2 {} else if i == 3 {} else if i == 4 {} else if i == 5 {} else if i == 6 {} else if i == 7 {} else if i == 8 {}
            }
        },
    }
    lemma_matches_self(w);
    law_tag_names_parse_back(s, w);
    law_tag_names_parse_back(s, upper_text(w));
}

/// Each three-way tag that is no conflict is a filter word for its status,
/// as it is, in upper case, and with underscores for hyphens.
pub proof fn law_three_way_tags_name_their_status(s: ThreeWayStatus)
    requires
        !is_conflict_status(s),
    ensures
        three_way_status_of_filter(three_way_tag(s)) == Some(s),
        three_way_status_of_filter(upper_text(three_way_tag(s))) == Some(s),
        three_way_status_of_filter(snake(three_way_tag(s))) == Some(s),
{
    let w = three_way_tag(s);
    match s {
        ThreeWayStatus::Unchanged => {
            reveal_strlit("unchanged");
            reveal_strlit("unchanged");
            assert(w =~= "unchanged"@);
            assert(snake(w) =~= "unchanged"@);
            assert forall|i: int| 0 <= i < "unchanged"@.len() implies !('A' <= #[trigger] "unchanged"@[i] && "unchanged"@[i] <= 'Z') by {
                assert(0 <= i < 9);
                if i == 0 {} else if i == 1 {} else if i == 2 {} else if i == 3 {} else if i == 4 {} else if i == 5 {} else if i == 6 {} else if i == 7 {} else if i == 8 {}
            }
            assert forall|i: int| 0 <= i < "unchanged"@.len() implies !('A' <= #[trigger] "unchanged"@[i] && "unchanged"@[i] <= 'Z') by {
                assert(0 <= i < 9);
                if i == 0 {} else if i == 1 {} else if i == 2 {} else if i == 3 {} else if i == 4 {} else if i == 5 {} else if i == 6 {} else if i == 7 {} else if i == 8 {}
            }
        },
        ThreeWayStatus::OursOnly => {
            reveal_strlit("ours-only");
            reveal_strlit("ours_only");
            assert(w =~= "ours-only"@);
            assert(snake(w) =~= "ours_only"@);
            assert forall|i: int| 0 <= i < "ours-only"@.len() implies !('A' <= #[trigger] "ours-only"@[i] && "ours-only"@[i] <= 'Z') by {
                assert(0 <= i < 9);
                if i == 0 {} else if i == 1 {} else if i == 2 {} else if i == 3 {} else if i == 4 {} else if i == 5 {} else if i == 6 {} else if i == 7 {} else if i == 8 {}
            }
            assert forall|i: int| 0 <= i < "ours_only"@.len() implies !('A' <= #[trigger] "ours_only"@[i] && "ours_only"@[i] <= 'Z') by {
                assert(0 <= i < 9);
                if i == 0 {} else if i == 1 {} else if i == 2 {} else if i == 3 {} else if i == 4 {} else if i == 5 {} else if i == 6 {} else if i == 7 {} else if i == 8 {}
            }
        },
        ThreeWayStatus::TheirsOnly => {
            reveal_strlit("theirs-only");
            reveal_strlit("theirs_only");
            assert(w =~= "theirs-only"@);
            assert(snake(w) =~= "theirs_only"@);
            assert forall|i: int| 0 <= i < "theirs-only"@.len() implies !('A' <= #[trigger] "theirs-only"@[i] && "theirs-only"@[i] <= 'Z') by {
                assert(0 <= i < 11);
                if i == 0 {} else if i == 1 {} else if i == 2 {} else if i == 3 {} else if i == 4 {} else if i == 5 {} else if i == 6 {} else if i == 7 {} else if i == 8 {} else if i == 9 {} else if i == 10 {}
            }
            assert forall|i: int| 0 <= i < "theirs_only"@.len() implies !('A' <= #[trigger] "theirs_only"@[i] && "theirs_only"@[i] <= 'Z') by {
                assert(0 <= i < 11);
                if i == 0 {} else if i == 1 {} else if i == 2 {} else if i == 3 {} else if i == 4 {} else if i == 5 {} else if i == 6 {} else if i == 7 {} else if i == 8 {} else if i == 9 {} else if i == 10 {}
            }
        },
        ThreeWayStatus::BothSame => {
            reveal_strlit("both-same");
            reveal_strlit("both_same");
            assert(w =~= "both-same"@);
            assert(snake(w) =~= "both_same"@);
            assert forall|i: int| 0 <= i < "both-same"@.len() implies !('A' <= #[trigger] "both-same"@[i] && "both-same"@[i] <= 'Z') by {
                assert(0 <= i < 9);
                if i == 0 {} else if i == 1 {} else if i == 2 {} else if i == 3 {} else if i == 4 {} else if i == 5 {} else if i == 6 {} else if i == 7 {} else if i == 8 {}
            }
            assert forall|i: int| 0 <= i < "both_same"@.len() implies !('A' <= #[trigger] "both_same"@[i] && "both_same"@[i] <= 'Z') by {
                assert(0 <= i < 9);
                if i == 0 {} else if i == 1 {} else if i == 2 {} else if i == 3 {} else if i == 4 {} else if i == 5 {} else if i == 6 {} else if i == 7 {} else if i == 8 {}
            }
        },
        ThreeWayStatus::AddedOurs => {
            reveal_strlit("added-ours");
            reveal_strlit("added_ours");
            assert(w =~= "added-ours"@);
            assert(snake(w) =~= "added_ours"@);
            assert forall|i: int| 0 <= i < "added-ours"@.len() implies !('A' <= #[trigger] "added-ours"@[i] && "added-ours"@[i] <= 'Z') by {
                assert(0 <= i < 10);
                if i == 0 {} else if i == 1 {} else if i == 2 {} else if i == 3 {} else if i == 4 {} else if i == 5 {} else if i == 6 {} else if i == 7 {} else if i == 8 {} else if i == 9 {}
            }
            assert forall|i: int| 0 <= i < "added_ours"@.len() implies !('A' <= #[trigger] "added_ours"@[i] && "added_ours"@[i] <= 'Z') by {
                assert(0 <= i < 10);
                if i == 0 {} else if i == 1 {} else if i == 2 {} else if i == 3 {} else if i == 4 {} else if i == 5 {} else if i == 6 {} else if i == 7 {} else if i == 8 {} else if i == 9 {}
            }
        },
        ThreeWayStatus::AddedTheirs => {
            reveal_strlit("added-theirs");
            reveal_strlit("added_theirs");
            assert(w =~= "added-theirs"@);
            assert(snake(w) =~= "added_theirs"@);
            assert forall|i: int| 0 <= i < "added-theirs"@.len() implies !('A' <= #[trigger] "added-theirs"@[i] && "added-theirs"@[i] <= 'Z') by {
                assert(0 <= i < 12);
                if i == 0 {} else if i == 1 {} else if i == 2 {} else if i == 3 {} else if i == 4 {} else if i == 5 {} else if i == 6 {} else if i == 7 {} else if i == 8 {} else if i == 9 {} else if i == 10 {} else if i == 11 {}
            }
            assert forall|i: int| 0 <= i < "added_theirs"@.len() implies !('A' <= #[trigger] "added_theirs"@[i] && "added_theirs"@[i] <= 'Z') by {
                assert(0 <= i < 12);
                if i == 0 {} else if i == 1 {} else if i == 2 {} else if i == 3 {} else if i == 4 {} else if i == 5 {} else if i == 6 {} else if i == 7 {} else if i == 8 {} else if i == 9 {} else if i == 10 {} else if i == 11 {}
            }
        },
        ThreeWayStatus::AddedBothSame => {
            reveal_strlit("added-both-same");
            reveal_strlit("added_both_same");
            assert(w =~= "added-both-same"@);
            assert(snake(w) =~= "added_both_same"@);
            assert forall|i: int| 0 <= i < "added-both-same"@.len() implies !('A' <= #[trigger] "added-both-same"@[i] && "added-both-same"@[i] <= 'Z') by {
                assert(0 <= i < 15);
                if i == 0 {} else if i == 1 {} else if i == 2 {} else if i == 3 {} else if i == 4 {} else if i == 5 {} else if i == 6 {} else if i == 7 {} else if i == 8 {} else if i == 9 {} else if i == 10 {} else if i == 11 {} else if i == 12 {} else if i == 13 {} else if i == 14 {}
            }
            assert forall|i: int| 0 <= i < "added_both_same"@.len() implies !('A' <= #[trigger] "added_both_same"@[i] && "added_both_same"@[i] <= 'Z') by {
                assert(0 <= i < 15);
                if i == 0 {} else if i == 1 {} else if i == 2 {} else if i == 3 {} else if i == 4 {} else if i == 5 {} else if i == 6 {} else if i == 7 {} else if i == 8 {} else if i == 9 {} else if i == 10 {} else if i == 11 {} else if i == 12 {} else if i == 13 {} else if i == 14 {}
            }
        },
        ThreeWayStatus::DeletedOurs => {
            reveal_strlit("deleted-ours");
            reveal_strlit("deleted_ours");
            assert(w =~= "deleted-ours"@);
            assert(snake(w) =~= "deleted_ours"@);
            assert forall|i: int| 0 <= i < "deleted-ours"@.len() implies !('A' <= #[trigger] "deleted-ours"@[i] && "deleted-ours"@[i] <= 'Z') by {
                assert(0 <= i < 12);
                if i == 0 {} else if i == 1 {} else if i == 2 {} else if i == 3 {} else if i == 4 {} else if i == 5 {} else if i == 6 {} else if i == 7 {} else if i == 8 {} else if i == 9 {} else if i == 10 {} else if i == 11 {}
            }
            assert forall|i: int| 0 <= i < "deleted_ours"@.len() implies !('A' <= #[trigger] "deleted_ours"@[i] && "deleted_ours"@[i] <= 'Z') by {
                assert(0 <= i < 12);
                if i == 0 {} else if i == 1 {} else if i == 2 {} else if i == 3 {} else if i == 4 {} else if i == 5 {} else if i == 6 {} else if i == 7 {} else if i == 8 {} else if i == 9 {} else if i == 10 {} else if i == 11 {}
            }
        },
        ThreeWayStatus::DeletedTheirs => {
            reveal_strlit("deleted-theirs");
            reveal_strlit("deleted_theirs");
            assert(w =~= "deleted-theirs"@);
            assert(snake(w) =~= "deleted_theirs"@);
            assert forall|i: int| 0 <= i < "deleted-theirs"@.len() implies !('A' <= #[trigger] "deleted-theirs"@[i] && "deleted-theirs"@[i] <= 'Z') by {
                assert(0 <= i < 14);
                if i == 0 {} else if i == 1 {} else if i == 2 {} else if i == 3 {} else if i == 4 {} else if i == 5 {} else if i == 6 {} else if i == 7 {} else if i == 8 {} else if i == 9 {} else if i == 10 {} else if i == 11 {} else if i == 12 {} else if i == 13 {}
            }
            assert forall|i: int| 0 <= i < "deleted_theirs"@.len() implies !('A' <= #[trigger] "deleted_theirs"@[i] && "deleted_theirs"@[i] <= 'Z') by {
                assert(0 <= i < 14);
                if i == 0 {} else if i == 1 {} else if i == 2 {} else if i == 3 {} else if i == 4 {} else if i == 5 {} else if i == 6 {} else if i == 7 {} else if i == 8 {} else if i == 9 {} else if i == 10 {} else if i == 11 {} else if i == 12 {} else if i == 13 {}
            }
        },
        ThreeWayStatus::DeletedBoth => {
            reveal_strlit("deleted-both");
            reveal_strlit("deleted_both");
            assert(w =~= "deleted-both"@);
            assert(snake(w) =~= "deleted_both"@);
            assert forall|i: int| 0 <= i < "deleted-both"@.len() implies !('A' <= #[trigger] "deleted-both"@[i] && "deleted-both"@[i] <= 'Z') by {
                assert(0 <= i < 12);
                if i == 0 {} else if i == 1 {} else if i == 2 {} else if i == 3 {} else if i == 4 {} else if i == 5 {} else if i == 6 {} else if i == 7 {} else if i == 8 {} else if i == 9 {} else if i == 10 {} else if i == 11 {}
            }
            assert forall|i: int| 0 <= i < "deleted_both"@.len() implies !('A' <= #[trigger] "deleted_both"@[i] && "deleted_both"@[i] <= 'Z') by {
                assert(0 <= i < 12);
                if i == 0 {} else if i == 1 {} else if i == 2 {} else if i == 3 {} else if i == 4 {} else if i == 5 {} else if i == 6 {} else if i == 7 {} else if i == 8 {} else if i == 9 {} else if i == 10 {} else if i == 11 {}
            }
        },
        _ => {},
    }
    lemma_matches_self(w);
    lemma_matches_self(snake(w));
    law_three_way_names_parse_back(s, w);
    law_three_way_names_parse_back(s, upper_text(w));
    law_three_way_names_parse_back(s, snake(w));
}

/// No word names both a status group and a single three-way status.
pub proof fn law_group_and_status_words_differ(w: Seq<char>)
    ensures
        !(group_of_word(w) is Some && three_way_status_of_filter(w) is Some),
{
    reveal_strlit("added");
    reveal_strlit("modified");
    reveal_strlit("deleted");
    reveal_strlit("conflicts");
    reveal_strlit("all");
    reveal_strlit("unchanged");
    reveal_strlit("same");
    reveal_strlit("ours-only");
    reveal_strlit("ours_only");
    reveal_strlit("oursonly");
    reveal_strlit("theirs-only");
    reveal_strlit("theirs_only");
    reveal_strlit("theirsonly");
    reveal_strlit("both-same");
    reveal_strlit("both_same");
    reveal_strlit("bothsame");
    reveal_strlit("conflict");
    reveal_strlit("added-ours");
    reveal_strlit("added_ours");
    reveal_strlit("addedours");
    reveal_strlit("added-theirs");
    reveal_strlit("added_theirs");
    reveal_strlit("addedtheirs");
    reveal_strlit("added-both-same");
    reveal_strlit("added_both_same");
    reveal_strlit("addedbothsame");
    reveal_strlit("added-both-diff");
    reveal_strlit("added_both_diff");
    reveal_strlit("addedbothdiff");
    reveal_strlit("deleted-ours");
    reveal_strlit("deleted_ours");
    reveal_strlit("deletedours");
    reveal_strlit("deleted-theirs");
    reveal_strlit("deleted_theirs");
    reveal_strlit("deletedtheirs");
    reveal_strlit("deleted-both");
    reveal_strlit("deleted_both");
    reveal_strlit("deletedboth");
    reveal_strlit("modify-delete");
    reveal_strlit("modify_delete");
    reveal_strlit("modifydelete");
    reveal_strlit("delete-modify");
    reveal_strlit("delete_modify");
    reveal_strlit("deletemodify");
    if matches_ignoring_case(w, "added"@) {
        lemma_matches_one(w, "added"@, "unchanged"@);
        lemma_matches_one(w, "added"@, "same"@);
        lemma_matches_one(w, "added"@, "ours-only"@);
        lemma_matches_one(w, "added"@, "ours_only"@);
        lemma_matches_one(w, "added"@, "oursonly"@);
        lemma_matches_one(w, "added"@, "theirs-only"@);
        lemma_matches_one(w, "added"@, "theirs_only"@);
        lemma_matches_one(w, "added"@, "theirsonly"@);
        lemma_matches_one(w, "added"@, "both-same"@);
        lemma_matches_one(w, "added"@, "both_same"@);
        lemma_matches_one(w, "added"@, "bothsame"@);
        lemma_matches_one(w, "added"@, "conflict"@);
        lemma_matches_one(w, "added"@, "added-ours"@);
        lemma_matches_one(w, "added"@, "added_ours"@);
        lemma_matches_one(w, "added"@, "addedours"@);
        lemma_matches_one(w, "added"@, "added-theirs"@);
        lemma_matches_one(w, "added"@, "added_theirs"@);
        lemma_matches_one(w, "added"@, "addedtheirs"@);
        lemma_matches_one(w, "added"@, "added-both-same"@);
        lemma_matches_one(w, "added"@, "added_both_same"@);
        lemma_matches_one(w, "added"@, "addedbothsame"@);
        lemma_matches_one(w, "added"@, "added-both-diff"@);
        lemma_matches_one(w, "added"@, "added_both_diff"@);
        lemma_matches_one(w, "added"@, "addedbothdiff"@);
        lemma_matches_one(w, "added"@, "deleted-ours"@);
        lemma_matches_one(w, "added"@, "deleted_ours"@);
        lemma_matches_one(w, "added"@, "deletedours"@);
        lemma_matches_one(w, "added"@, "deleted-theirs"@);
        lemma_matches_one(w, "added"@, "deleted_theirs"@);
        lemma_matches_one(w, "added"@, "deletedtheirs"@);
        lemma_matches_one(w, "added"@, "deleted-both"@);
        lemma_matches_one(w, "added"@, "deleted_both"@);
        lemma_matches_one(w, "added"@, "deletedboth"@);
        lemma_matches_one(w, "added"@, "modify-delete"@);
        lemma_matches_one(w, "added"@, "modify_delete"@);
        lemma_matches_one(w, "added"@, "modifydelete"@);
        lemma_matches_one(w, "added"@, "delete-modify"@);
        lemma_matches_one(w, "added"@, "delete_modify"@);
        lemma_matches_one(w, "added"@, "deletemodify"@);
    }
    if matches_ignoring_case(w, "modified"@) {
        lemma_matches_one(w, "modified"@, "unchanged"@);
        lemma_matches_one(w, "modified"@, "same"@);
        lemma_matches_one(w, "modified"@, "ours-only"@);
        lemma_matches_one(w, "modified"@, "ours_only"@);
        lemma_matches_one(w, "modified"@, "oursonly"@);
        assert("modified"@[0] != "oursonly"@[0]);
        lemma_matches_one(w, "modified"@, "theirs-only"@);
        lemma_matches_one(w, "modified"@, "theirs_only"@);
        lemma_matches_one(w, "modified"@, "theirsonly"@);
        lemma_matches_one(w, "modified"@, "both-same"@);
        lemma_matches_one(w, "modified"@, "both_same"@);
        lemma_matches_one(w, "modified"@, "bothsame"@);
        assert("modified"@[0] != "bothsame"@[0]);
        lemma_matches_one(w, "modified"@, "conflict"@);
        assert("modified"@[0] != "conflict"@[0]);
        lemma_matches_one(w, "modified"@, "added-ours"@);
        lemma_matches_one(w, "modified"@, "added_ours"@);
        lemma_matches_one(w, "modified"@, "addedours"@);
        lemma_matches_one(w, "modified"@, "added-theirs"@);
        lemma_matches_one(w, "modified"@, "added_theirs"@);
        lemma_matches_one(w, "modified"@, "addedtheirs"@);
        lemma_matches_one(w, "modified"@, "added-both-same"@);
        lemma_matches_one(w, "modified"@, "added_both_same"@);
        lemma_matches_one(w, "modified"@, "addedbothsame"@);
        lemma_matches_one(w, "modified"@, "added-both-diff"@);
        lemma_matches_one(w, "modified"@, "added_both_diff"@);
        lemma_matches_one(w, "modified"@, "addedbothdiff"@);
        lemma_matches_one(w, "modified"@, "deleted-ours"@);
        lemma_matches_one(w, "modified"@, "deleted_ours"@);
        lemma_matches_one(w, "modified"@, "deletedours"@);
        lemma_matches_one(w, "modified"@, "deleted-theirs"@);
        lemma_matches_one(w, "modified"@, "deleted_theirs"@);
        lemma_matches_one(w, "modified"@, "deletedtheirs"@);
        lemma_matches_one(w, "modified"@, "deleted-both"@);
        lemma_matches_one(w, "modified"@, "deleted_both"@);
        lemma_matches_one(w, "modified"@, "deletedboth"@);
        lemma_matches_one(w, "modified"@, "modify-delete"@);
        lemma_matches_one(w, "modified"@, "modify_delete"@);
        lemma_matches_one(w, "modified"@, "modifydelete"@);
        lemma_matches_one(w, "modified"@, "delete-modify"@);
        lemma_matches_one(w, "modified"@, "delete_modify"@);
        lemma_matches_one(w, "modified"@, "deletemodify"@);
    }
    if matches_ignoring_case(w, "deleted"@) {
        lemma_matches_one(w, "deleted"@, "unchanged"@);
        lemma_matches_one(w, "deleted"@, "same"@);
        lemma_matches_one(w, "deleted"@, "ours-only"@);
        lemma_matches_one(w, "deleted"@, "ours_only"@);
        lemma_matches_one(w, "deleted"@, "oursonly"@);
        lemma_matches_one(w, "deleted"@, "theirs-only"@);
        lemma_matches_one(w, "deleted"@, "theirs_only"@);
        lemma_matches_one(w, "deleted"@, "theirsonly"@);
        lemma_matches_one(w, "deleted"@, "both-same"@);
        lemma_matches_one(w, "deleted"@, "both_same"@);
        lemma_matches_one(w, "deleted"@, "bothsame"@);
        lemma_matches_one(w, "deleted"@, "conflict"@);
        lemma_matches_one(w, "deleted"@, "added-ours"@);
        lemma_matches_one(w, "deleted"@, "added_ours"@);
        lemma_matches_one(w, "deleted"@, "addedours"@);
        lemma_matches_one(w, "deleted"@, "added-theirs"@);
        lemma_matches_one(w, "deleted"@, "added_theirs"@);
        lemma_matches_one(w, "deleted"@, "addedtheirs"@);
        lemma_matches_one(w, "deleted"@, "added-both-same"@);
        lemma_matches_one(w, "deleted"@, "added_both_same"@);
        lemma_matches_one(w, "deleted"@, "addedbothsame"@);
        lemma_matches_one(w, "deleted"@, "added-both-diff"@);
        lemma_matches_one(w, "deleted"@, "added_both_diff"@);
        lemma_matches_one(w, "deleted"@, "addedbothdiff"@);
        lemma_matches_one(w, "deleted"@, "deleted-ours"@);
        lemma_matches_one(w, "deleted"@, "deleted_ours"@);
        lemma_matches_one(w, "deleted"@, "deletedours"@);
        lemma_matches_one(w, "deleted"@, "deleted-theirs"@);
        lemma_matches_one(w, "deleted"@, "deleted_theirs"@);
        lemma_matches_one(w, "deleted"@, "deletedtheirs"@);
        lemma_matches_one(w, "deleted"@, "deleted-both"@);
        lemma_matches_one(w, "deleted"@, "deleted_both"@);
        lemma_matches_one(w, "deleted"@, "deletedboth"@);
        lemma_matches_one(w, "deleted"@, "modify-delete"@);
        lemma_matches_one(w, "deleted"@, "modify_delete"@);
        lemma_matches_one(w, "deleted"@, "modifydelete"@);
        lemma_matches_one(w, "deleted"@, "delete-modify"@);
        lemma_matches_one(w, "deleted"@, "delete_modify"@);
        lemma_matches_one(w, "deleted"@, "deletemodify"@);
    }
    if matches_ignoring_case(w, "conflicts"@) {
        lemma_matches_one(w, "conflicts"@, "unchanged"@);
        assert("conflicts"@[0] != "unchanged"@[0]);
        lemma_matches_one(w, "conflicts"@, "same"@);
        lemma_matches_one(w, "conflicts"@, "ours-only"@);
        assert("conflicts"@[0] != "ours-only"@[0]);
        lemma_matches_one(w, "conflicts"@, "ours_only"@);
        assert("conflicts"@[0] != "ours_only"@[0]);
        lemma_matches_one(w, "conflicts"@, "oursonly"@);
        lemma_matches_one(w, "conflicts"@, "theirs-only"@);
        lemma_matches_one(w, "conflicts"@, "theirs_only"@);
        lemma_matches_one(w, "conflicts"@, "theirsonly"@);
        lemma_matches_one(w, "conflicts"@, "both-same"@);
        assert("conflicts"@[0] != "both-same"@[0]);
        lemma_matches_one(w, "conflicts"@, "both_same"@);
        assert("conflicts"@[0] != "both_same"@[0]);
        lemma_matches_one(w, "conflicts"@, "bothsame"@);
        lemma_matches_one(w, "conflicts"@, "conflict"@);
        lemma_matches_one(w, "conflicts"@, "added-ours"@);
        lemma_matches_one(w, "conflicts"@, "added_ours"@);
        lemma_matches_one(w, "conflicts"@, "addedours"@);
        assert("conflicts"@[0] != "addedours"@[0]);
        lemma_matches_one(w, "conflicts"@, "added-theirs"@);
        lemma_matches_one(w, "conflicts"@, "added_theirs"@);
        lemma_matches_one(w, "conflicts"@, "addedtheirs"@);
        lemma_matches_one(w, "conflicts"@, "added-both-same"@);
        lemma_matches_one(w, "conflicts"@, "added_both_same"@);
        lemma_matches_one(w, "conflicts"@, "addedbothsame"@);
        lemma_matches_one(w, "conflicts"@, "added-both-diff"@);
        lemma_matches_one(w, "conflicts"@, "added_both_diff"@);
        lemma_matches_one(w, "conflicts"@, "addedbothdiff"@);
        lemma_matches_one(w, "conflicts"@, "deleted-ours"@);
        lemma_matches_one(w, "conflicts"@, "deleted_ours"@);
        lemma_matches_one(w, "conflicts"@, "deletedours"@);
        lemma_matches_one(w, "conflicts"@, "deleted-theirs"@);
        lemma_matches_one(w, "conflicts"@, "deleted_theirs"@);
        lemma_matches_one(w, "conflicts"@, "deletedtheirs"@);
        lemma_matches_one(w, "conflicts"@, "deleted-both"@);
        lemma_matches_one(w, "conflicts"@, "deleted_both"@);
        lemma_matches_one(w, "conflicts"@, "deletedboth"@);
        lemma_matches_one(w, "conflicts"@, "modify-delete"@);
        lemma_matches_one(w, "conflicts"@, "modify_delete"@);
        lemma_matches_one(w, "conflicts"@, "modifydelete"@);
        lemma_matches_one(w, "conflicts"@, "delete-modify"@);
        lemma_matches_one(w, "conflicts"@, "delete_modify"@);
        lemma_matches_one(w, "conflicts"@, "deletemodify"@);
    }
    if matches_ignoring_case(w, "all"@) {
        lemma_matches_one(w, "all"@, "unchanged"@);
        lemma_matches_one(w, "all"@, "same"@);
        lemma_matches_one(w, "all"@, "ours-only"@);
        lemma_matches_one(w, "all"@, "ours_only"@);
        lemma_matches_one(w, "all"@, "oursonly"@);
        lemma_matches_one(w, "all"@, "theirs-only"@);
        lemma_matches_one(w, "all"@, "theirs_only"@);
        lemma_matches_one(w, "all"@, "theirsonly"@);
        lemma_matches_one(w, "all"@, "both-same"@);
        lemma_matches_one(w, "all"@, "both_same"@);
        lemma_matches_one(w, "all"@, "bothsame"@);
        lemma_matches_one(w, "all"@, "conflict"@);
        lemma_matches_one(w, "all"@, "added-ours"@);
        lemma_matches_one(w, "all"@, "added_ours"@);
        lemma_matches_one(w, "all"@, "addedours"@);
        lemma_matches_one(w, "all"@, "added-theirs"@);
        lemma_matches_one(w, "all"@, "added_theirs"@);
        lemma_matches_one(w, "all"@, "addedtheirs"@);
        lemma_matches_one(w, "all"@, "added-both-same"@);
        lemma_matches_one(w, "all"@, "added_both_same"@);
        lemma_matches_one(w, "all"@, "addedbothsame"@);
        lemma_matches_one(w, "all"@, "added-both-diff"@);
        lemma_matches_one(w, "all"@, "added_both_diff"@);
        lemma_matches_one(w, "all"@, "addedbothdiff"@);
        lemma_matches_one(w, "all"@, "deleted-ours"@);
        lemma_matches_one(w, "all"@, "deleted_ours"@);
        lemma_matches_one(w, "all"@, "deletedours"@);
        lemma_matches_one(w, "all"@, "deleted-theirs"@);
        lemma_matches_one(w, "all"@, "deleted_theirs"@);
        lemma_matches_one(w, "all"@, "deletedtheirs"@);
        lemma_matches_one(w, "all"@, "deleted-both"@);
        lemma_matches_one(w, "all"@, "deleted_both"@);
        lemma_matches_one(w, "all"@, "deletedboth"@);
        lemma_matches_one(w, "all"@, "modify-delete"@);
        lemma_matches_one(w, "all"@, "modify_delete"@);
        lemma_matches_one(w, "all"@, "modifydelete"@);
        lemma_matches_one(w, "all"@, "delete-modify"@);
        lemma_matches_one(w, "all"@, "delete_modify"@);
        lemma_matches_one(w, "all"@, "deletemodify"@);
    }
}

/// Reordering the entries of a three-way status filter lets the same
/// statuses through.
pub proof fn law_filter_ignores_order(f: Seq<Seq<char>>, g: Seq<Seq<char>>, s: ThreeWayStatus)
    requires
        f.to_multiset() == g.to_multiset(),
    ensures
        filter_allows(f, s) == filter_allows(g, s),
{
    broadcast use vstd::seq_lib::group_to_multiset_ensures;

    assert forall|i: int| 0 <= i < f.len() implies #[trigger] entry_covered(f, g, i) by {
        assert(f.contains(f[i]));
        assert(f.to_multiset().count(f[i]) > 0);
        assert(g.to_multiset().count(f[i]) > 0);
        assert(g.contains(f[i]));
        let j = choose|j: int| 0 <= j < g.len() && g[j] == f[i];
        assert(same_entry(f[i], g[j]));
    }
    assert forall|i: int| 0 <= i < g.len() implies #[trigger] entry_covered(g, f, i) by {
        assert(g.contains(g[i]));
        assert(g.to_multiset().count(g[i]) > 0);
        assert(f.to_multiset().count(g[i]) > 0);
        assert(f.contains(g[i]));
        let j = choose|j: int| 0 <= j < f.len() && f[j] == g[i];
        assert(same_entry(g[i], f[j]));
    }
    law_filter_ignores_order_case_and_blanks(f, g, s);
}

/// Changing the letter case of the entries of a three-way status filter, or
/// the blanks around them, lets the same statuses through.
pub proof fn law_filter_ignores_case_and_blanks(f: Seq<Seq<char>>, g: Seq<Seq<char>>, s: ThreeWayStatus)
    requires
        f.len() == g.len(),
        forall|i: int| 0 <= i < f.len() ==> same_entry(#[trigger] f[i], g[i]),
    ensures
        filter_allows(f, s) == filter_allows(g, s),
{
    assert forall|i: int| 0 <= i < f.len() implies #[trigger] entry_covered(f, g, i) by {
        assert(same_entry(f[i], g[i]));
    }
    assert forall|i: int| 0 <= i < g.len() implies #[trigger] entry_covered(g, f, i) by {
        assert(same_entry(f[i], g[i]));
        assert(same_entry(g[i], f[i]));
    }
    law_filter_ignores_order_case_and_blanks(f, g, s);
}

} // verus!

verus! {

#[verifier::external_type_specification]
#[verifier::external_body]
pub struct ExLevelFilter(log::LevelFilter);

impl From<LogLevel> for log::LevelFilter {
    /// The `log` filter of a level: each level lets through itself and
    /// the more severe ones.
    #[verifier::external_body]
    fn from(level: LogLevel) -> log::LevelFilter {
        match level {
            LogLevel::Error => log::LevelFilter::Error,
            LogLevel::Warn => log::LevelFilter::Warn,
            LogLevel::Info => log::LevelFilter::Info,
            LogLevel::Debug => log::LevelFilter::Debug,
        }
    }
}

} // verus!
