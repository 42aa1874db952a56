//! The folder tree of the compared files, as the summary draws it.

use vstd::prelude::*;
use crate::config::texts;
use crate::safety::{components, path_components, rooted};
use crate::summary::{display_columns, display_width_chars, spaces};
use crate::text::{chars_of, push_chars, push_str, string_of};
use crate::types::{DiffFile, ThreeWayDiffFile};

verus! {

/// The shape of a tree: a file, by its position in the list of files, or
/// a folder of named entries.
pub enum Shape {
    Leaf(nat),
    Folder(Seq<(Seq<char>, Shape)>),
}

/// `a` comes before `b` in the order of `String` (character by character,
/// a proper prefix first).
pub open spec fn text_less(a: Seq<char>, b: Seq<char>) -> bool
    decreases a.len(),
{
    if a.len() == 0 {
        b.len() > 0
    } else if b.len() == 0 {
        false
    } else if a[0] != b[0] {
        (a[0] as u32) < (b[0] as u32)
    } else {
        text_less(a.drop_first(), b.drop_first())
    }
}

/// Where `name` goes among `items`: after the leading entries whose names
/// come before it.
pub open spec fn position_of(items: Seq<(Seq<char>, Shape)>, name: Seq<char>) -> nat
    decreases items.len(),
{
    if items.len() > 0 && text_less(items[0].0, name) {
        1 + position_of(items.drop_first(), name)
    } else {
        0
    }
}

/// `items` after adding the file `leaf` at the path made of `comps`: an
/// entry that exists is kept (a file stays a file, and a file in its way
/// drops the path); a missing one is put in name order.
pub open spec fn insert_path(items: Seq<(Seq<char>, Shape)>, comps: Seq<Seq<char>>, leaf: nat) -> Seq<
    (Seq<char>, Shape),
>
    decreases comps.len(),
{
    if comps.len() == 0 {
        items
    } else {
        let name = comps[0];
        let j = position_of(items, name);
        if j < items.len() && items[j as int].0 == name {
            if comps.len() == 1 {
                items
            } else {
                match items[j as int].1 {
                    Shape::Leaf(_) => items,
                    Shape::Folder(children) => items.update(
                        j as int,
                        (name, Shape::Folder(insert_path(children, comps.drop_first(), leaf))),
                    ),
                }
            }
        } else {
            let node = if comps.len() == 1 {
                Shape::Leaf(leaf)
            } else {
                Shape::Folder(insert_path(Seq::empty(), comps.drop_first(), leaf))
            };
            items.insert(j as int, (name, node))
        }
    }
}

/// The names of the components of a path, the root (if any) first.
pub open spec fn component_names(p: Seq<char>) -> Seq<Seq<char>> {
    if rooted(p) {
        seq![seq!['/']] + path_components(p)
    } else {
        path_components(p)
    }
}

/// The tree of a list of paths, each added in turn.
pub open spec fn tree_of(paths: Seq<Seq<char>>) -> Seq<(Seq<char>, Shape)>
    decreases paths.len(),
{
    if paths.len() == 0 {
        Seq::empty()
    } else {
        insert_path(tree_of(paths.drop_last()), component_names(paths.last()), (paths.len() - 1) as nat)
    }
}

/// A folder of the tree: its entries, in name order.
pub struct FileTree {
    pub items: Vec<TreeItem>,
}

/// A named entry of a folder.
pub struct TreeItem {
    pub name: String,
    pub node: TreeNode,
}

/// A file (by its position in the list of files) or a subfolder.
pub enum TreeNode {
    File(usize),
    Dir(FileTree),
}

/// The shape of a list of entries.
pub open spec fn items_shape(items: Seq<TreeItem>) -> Seq<(Seq<char>, Shape)>
    decreases items,
{
    if items.len() == 0 {
        Seq::empty()
    } else {
        items_shape(items.drop_last()).push((items.last().name@, node_shape(items.last().node)))
    }
}

/// The shape of an entry.
pub open spec fn node_shape(n: TreeNode) -> Shape
    decreases n,
{
    match n {
        TreeNode::File(i) => Shape::Leaf(i as nat),
        TreeNode::Dir(t) => Shape::Folder(items_shape(t.items@)),
    }
}

impl View for FileTree {
    type V = Seq<(Seq<char>, Shape)>;

    open spec fn view(&self) -> Seq<(Seq<char>, Shape)> {
        items_shape(self.items@)
    }
}

/// The shape of a list of entries holds the shape of each entry.
pub proof fn lemma_items_shape(items: Seq<TreeItem>)
    ensures
        items_shape(items).len() == items.len(),
        forall|i: int|
            0 <= i < items.len() ==> #[trigger] items_shape(items)[i] == (items[i].name@, node_shape(
                items[i].node,
            )),
    decreases items.len(),
{
    if items.len() > 0 {
        lemma_items_shape(items.drop_last());
        assert forall|i: int| 0 <= i < items.len() implies #[trigger] items_shape(items)[i] == (
            items[i].name@,
            node_shape(items[i].node),
        ) by {
            if i < items.len() - 1 {
                assert(items.drop_last()[i] == items[i]);
            }
        }
    }
}

/// Equal shapes entry by entry make equal shapes.
proof fn lemma_shape_ext(items: Seq<TreeItem>, s: Seq<(Seq<char>, Shape)>)
    requires
        s.len() == items.len(),
        forall|i: int| 0 <= i < items.len() ==> s[i] == (#[trigger] items[i].name@, node_shape(items[i].node)),
    ensures
        items_shape(items) == s,
{
    lemma_items_shape(items);
    assert(items_shape(items) =~= s);
}

/// `a` comes before `b`, compared from position `i` on, where they agree
/// before `i`.
proof fn lemma_text_less_from(a: Seq<char>, b: Seq<char>, i: int)
    requires
        0 <= i <= a.len(),
        i <= b.len(),
        forall|j: int| 0 <= j < i ==> a[j] == b[j],
    ensures
        text_less(a, b) == text_less(a.skip(i), b.skip(i)),
    decreases i,
{
    if i > 0 {
        assert(a[0] == b[0]);
        lemma_text_less_from(a.drop_first(), b.drop_first(), i - 1);
        assert(a.drop_first().skip(i - 1) =~= a.skip(i));
        assert(b.drop_first().skip(i - 1) =~= b.skip(i));
    } else {
        assert(a.skip(0) =~= a);
        assert(b.skip(0) =~= b);
    }
}

/// Whether `a` comes before `b`.
pub(crate) fn text_less_exec(a: &Vec<char>, b: &Vec<char>) -> (r: bool)
    ensures
        r == text_less(a@, b@),
{
    let mut i: usize = 0;
    while i < a.len() && i < b.len()
        invariant
            i <= a@.len(),
            i <= b@.len(),
            forall|j: int| 0 <= j < i ==> a@[j] == b@[j],
        decreases a@.len() - i,
    {
        if a[i] != b[i] {
            proof {
                lemma_text_less_from(a@, b@, i as int);
                assert(a@.skip(i as int)[0] == a@[i as int]);
                assert(b@.skip(i as int)[0] == b@[i as int]);
            }
            return (a[i] as u32) < (b[i] as u32);
        }
        i += 1;
    }
    proof {
        lemma_text_less_from(a@, b@, i as int);
    }
    b.len() > i
}

/// Whether two character vectors are equal.
fn same_chars(a: &Vec<char>, b: &Vec<char>) -> (r: bool)
    ensures
        r == (a@ == b@),
{
    if a.len() != b.len() {
        return false;
    }
    let mut i: usize = 0;
    while i < a.len()
        invariant
            a@.len() == b@.len(),
            i <= a@.len(),
            forall|j: int| 0 <= j < i ==> a@[j] == b@[j],
        decreases a@.len() - i,
    {
        if a[i] != b[i] {
            return false;
        }
        i += 1;
    }
    assert(a@ =~= b@);
    true
}

/// Where `name` goes among the entries.
fn find_position(items: &Vec<TreeItem>, name: &Vec<char>) -> (r: usize)
    ensures
        r == position_of(items_shape(items@), name@),
        r <= items@.len(),
{
    proof {
        lemma_items_shape(items@);
    }
    let ghost sh = items_shape(items@);
    assert(sh.skip(0) =~= sh);
    let mut i: usize = 0;
    while i < items.len()
        invariant_except_break
            i <= items@.len(),
            sh == items_shape(items@),
            sh.len() == items@.len(),
            forall|k: int| 0 <= k < items@.len() ==> #[trigger] sh[k] == (items@[k].name@, node_shape(items@[k].node)),
            position_of(sh, name@) == i + position_of(sh.skip(i as int), name@),
        ensures
            i <= items@.len(),
            position_of(sh, name@) == i,
        decreases items@.len() - i,
    {
        let cs = chars_of(items[i].name.as_str());
        proof {
            assert(sh.skip(i as int)[0] == sh[i as int]);
            assert(sh.skip(i as int).drop_first() =~= sh.skip(i + 1));
        }
        if !text_less_exec(&cs, name) {
            break;
        }
        i += 1;
    }
    proof {
        if i == items@.len() {
            assert(sh.skip(i as int).len() == 0);
        }
    }
    i
}

/// The component names of a path.
pub(crate) fn component_list(p: &str) -> (r: Vec<Vec<char>>)
    ensures
        r@.len() == component_names(p@).len(),
        forall|i: int| 0 <= i < r@.len() ==> #[trigger] r@[i]@ == component_names(p@)[i],
{
    let cs = chars_of(p);
    let rest = components(p);
    if cs.len() > 0 && cs[0] == '/' {
        let mut out: Vec<Vec<char>> = Vec::new();
        let mut root: Vec<char> = Vec::new();
        root.push('/');
        out.push(root);
        let mut i: usize = 0;
        while i < rest.len()
            invariant
                i <= rest@.len(),
                rest@.len() == path_components(p@).len(),
                forall|k: int| 0 <= k < rest@.len() ==> #[trigger] rest@[k]@ == path_components(p@)[k],
                out@.len() == i + 1,
                out@[0]@ == seq!['/'],
                forall|k: int| 0 < k < out@.len() ==> #[trigger] out@[k]@ == path_components(p@)[k - 1],
            decreases rest@.len() - i,
        {
            out.push(rest[i].clone());
            i += 1;
        }
        proof {
            assert(rooted(p@));
            assert forall|k: int| 0 <= k < out@.len() implies #[trigger] out@[k]@ == component_names(p@)[k] by {
                if k == 0 {
                    assert(component_names(p@)[0] == seq!['/']);
                }
            }
        }
        out
    } else {
        rest
    }
}

/// The character views of a list of character vectors.
pub open spec fn char_texts(v: Seq<Vec<char>>) -> Seq<Seq<char>> {
    v.map_values(|c: Vec<char>| c@)
}

/// Adds the file `leaf` at the path made of `comps[k..]`.
fn insert_components(items: &mut Vec<TreeItem>, comps: &Vec<Vec<char>>, k: usize, leaf: usize)
    requires
        k <= comps@.len(),
    ensures
        items_shape(final(items)@) == insert_path(items_shape(old(items)@), char_texts(comps@).skip(k as int), leaf as nat),
    decreases comps@.len() - k,
{
    let ghost before = items@;
    let ghost cs = char_texts(comps@).skip(k as int);
    proof {
        lemma_items_shape(before);
    }
    if k >= comps.len() {
        assert(cs.len() == 0);
        return;
    }
    assert(cs[0] == comps@[k as int]@);
    assert(cs.drop_first() =~= char_texts(comps@).skip(k + 1));
    let name = &comps[k];
    let j = find_position(items, name);
    let found = if j < items.len() {
        let cur = chars_of(items[j].name.as_str());
        same_chars(&cur, name)
    } else {
        false
    };
    let last = k + 1 == comps.len();
    if found {
        if last {
            return;
        }
        let mut item = items.remove(j);
        let ghost removed = items@;
        let ghost old_item = item;
        match item.node {
            TreeNode::File(i) => {
                item.node = TreeNode::File(i);
                items.insert(j, item);
                assert(items@ =~= before);
            },
            TreeNode::Dir(t) => {
                let mut children = t.items;
                insert_components(&mut children, comps, k + 1, leaf);
                item.node = TreeNode::Dir(FileTree { items: children });
                items.insert(j, item);
                proof {
                    lemma_items_shape(items@);
                    let target = items_shape(before).update(
                        j as int,
                        (name@, Shape::Folder(insert_path(items_shape(t.items@), cs.drop_first(), leaf as nat))),
                    );
                    assert forall|x: int| 0 <= x < items@.len() implies target[x] == (
                        #[trigger] items@[x].name@,
                        node_shape(items@[x].node),
                    ) by {
                        if x != j {
                            assert(items@[x] == before[x]);
                        }
                    }
                    lemma_shape_ext(items@, target);
                }
            },
        }
    } else {
        let s = string_of(name);
        let node = if last {
            TreeNode::File(leaf)
        } else {
            let mut children: Vec<TreeItem> = Vec::new();
            proof {
                assert(items_shape(children@) =~= Seq::<(Seq<char>, Shape)>::empty());
            }
            insert_components(&mut children, comps, k + 1, leaf);
            TreeNode::Dir(FileTree { items: children })
        };
        items.insert(j, TreeItem { name: s, node });
        proof {
            lemma_items_shape(items@);
            let target = items_shape(before).insert(
                j as int,
                (name@, if last {
                    Shape::Leaf(leaf as nat)
                } else {
                    Shape::Folder(insert_path(Seq::empty(), cs.drop_first(), leaf as nat))
                }),
            );
            assert forall|x: int| 0 <= x < items@.len() implies target[x] == (
                #[trigger] items@[x].name@,
                node_shape(items@[x].node),
            ) by {
                if x < j {
                    assert(items@[x] == before[x]);
                } else if x > j {
                    assert(items@[x] == before[x - 1]);
                }
            }
            lemma_shape_ext(items@, target);
        }
    }
}

/// The tree of a list of paths.
pub fn tree_of_strings(get: &Vec<String>) -> (r: FileTree)
    ensures
        r@ == tree_of(texts(get@)),
{
    let ghost paths = texts(get@);
    let mut items: Vec<TreeItem> = Vec::new();
    assert(items_shape(items@) =~= tree_of(paths.take(0)));
    let mut i: usize = 0;
    while i < get.len()
        invariant
            i <= get@.len(),
            get@.len() == paths.len(),
            forall|k: int| 0 <= k < paths.len() ==> #[trigger] get@[k]@ == paths[k],
            items_shape(items@) == tree_of(paths.take(i as int)),
        decreases get@.len() - i,
    {
        let comps = component_list(get[i].as_str());
        proof {
            assert(char_texts(comps@).skip(0) =~= component_names(paths[i as int]));
            assert(paths.take(i + 1).drop_last() =~= paths.take(i as int));
            assert(paths.take(i + 1).last() == paths[i as int]);
        }
        insert_components(&mut items, &comps, 0, i);
        i += 1;
    }
    assert(paths.take(paths.len() as int) =~= paths);
    FileTree { items }
}

/// The paths of a list of files.
pub open spec fn file_paths(files: Seq<DiffFile>) -> Seq<Seq<char>> {
    files.map_values(|f: DiffFile| f.path@)
}

/// The paths of a list of three-way files.
pub open spec fn three_way_paths(files: Seq<ThreeWayDiffFile>) -> Seq<Seq<char>> {
    files.map_values(|f: ThreeWayDiffFile| f.path@)
}

} // verus!

verus! {

/// The connector drawn before an entry: the last entry of a folder closes it.
pub open spec fn connector(last: bool) -> Seq<char> {
    if last {
        "└── "@
    } else {
        "├── "@
    }
}

/// What the entries below an entry are indented with.
pub open spec fn indent(last: bool) -> Seq<char> {
    if last {
        "    "@
    } else {
        "│   "@
    }
}

/// The label of the file at `i`, when there is one.
pub open spec fn label_at(labels: Seq<Seq<char>>, i: nat) -> Seq<char> {
    if i < labels.len() {
        labels[i as int]
    } else {
        Seq::empty()
    }
}

/// The spaces that bring a line of `w` columns to `max` columns.
pub open spec fn padding(max: nat, w: nat) -> Seq<char> {
    if max > w {
        spaces((max - w) as nat)
    } else {
        Seq::empty()
    }
}

/// The lines of the first `items.len()` of `total` entries of a folder:
/// a file gets its label after padding to `max` columns; a folder gets a
/// slash, then its own entries, indented.
pub open spec fn render_items(
    items: Seq<(Seq<char>, Shape)>,
    total: nat,
    prefix: Seq<char>,
    max: nat,
    labels: Seq<Seq<char>>,
) -> Seq<char>
    decreases items,
{
    if items.len() == 0 {
        Seq::empty()
    } else {
        let init = render_items(items.drop_last(), total, prefix, max, labels);
        let entry = items.last();
        let last = items.len() == total;
        let head = prefix + connector(last) + entry.0;
        init + match entry.1 {
            Shape::Leaf(i) => head + padding(max, display_columns(head)) + " "@ + label_at(labels, i) + "\n"@,
            Shape::Folder(children) => head + "/\n"@ + render_items(
                children,
                children.len(),
                prefix + indent(last),
                max,
                labels,
            ),
        }
    }
}

/// The widest line among the first `items.len()` of `total` entries of a
/// folder and below (a folder's line with its slash).
pub open spec fn tree_width(items: Seq<(Seq<char>, Shape)>, total: nat, prefix: Seq<char>) -> nat
    decreases items,
{
    if items.len() == 0 {
        0
    } else {
        let init = tree_width(items.drop_last(), total, prefix);
        let entry = items.last();
        let last = items.len() == total;
        let head = prefix + connector(last) + entry.0;
        let here = match entry.1 {
            Shape::Leaf(_) => display_columns(head),
            Shape::Folder(children) => {
                let own = display_columns(head + "/"@);
                let below = tree_width(children, children.len(), prefix + indent(last));
                if own >= below {
                    own
                } else {
                    below
                }
            },
        };
        if init >= here {
            init
        } else {
            here
        }
    }
}

/// Appends the connector of an entry.
fn push_connector(out: &mut Vec<char>, last: bool)
    ensures
        final(out)@ == old(out)@ + connector(last),
{
    if last {
        push_str(out, "└── ");
    } else {
        push_str(out, "├── ");
    }
}

/// The indentation below an entry, after `prefix`.
fn indented(prefix: &Vec<char>, last: bool) -> (r: Vec<char>)
    ensures
        r@ == prefix@ + indent(last),
{
    let mut p = prefix.clone();
    assert(p@ == prefix@);
    if last {
        push_str(&mut p, "    ");
    } else {
        push_str(&mut p, "│   ");
    }
    p
}

/// Appends the lines of a folder's entries.
#[verifier::rlimit(50)]
#[verifier::spinoff_prover]
pub fn render(items: &Vec<TreeItem>, prefix: &Vec<char>, max: usize, labels: &Vec<String>, out: &mut Vec<char>)
    ensures
        final(out)@ == old(out)@ + render_items(items_shape(items@), items@.len() as nat, prefix@, max as nat, texts(labels@)),
    decreases items@,
{
    let ghost start = out@;
    let ghost sh = items_shape(items@);
    let ghost ls = texts(labels@);
    proof {
        lemma_items_shape(items@);
        assert(sh.take(0) =~= Seq::<(Seq<char>, Shape)>::empty());
    }
    let n = items.len();
    let mut i: usize = 0;
    while i < n
        invariant
            n == items@.len(),
            i <= n,
            sh == items_shape(items@),
            sh.len() == n,
            forall|k: int| 0 <= k < n ==> #[trigger] sh[k] == (items@[k].name@, node_shape(items@[k].node)),
            ls == texts(labels@),
            out@ == start + render_items(sh.take(i as int), n as nat, prefix@, max as nat, ls),
        decreases n - i,
    {
        let last = i + 1 == n;
        let item = &items[i];
        let mut head = prefix.clone();
        assert(head@ == prefix@);
        push_connector(&mut head, last);
        push_chars(&mut head, &chars_of(item.name.as_str()));
        proof {
            assert(sh.take(i + 1).drop_last() =~= sh.take(i as int));
            assert(sh.take(i + 1).last() == sh[i as int]);
        }
        let ghost before = out@;
        match &item.node {
            TreeNode::File(idx) => {
                let w = display_width_chars(&head);
                push_chars(out, &head);
                let ghost mid = out@;
                if max > w {
                    let mut k: usize = 0;
                    while k < max - w
                        invariant
                            k <= max - w,
                            max > w,
                            out@ == mid + spaces(k as nat),
                        decreases max - w - k,
                    {
                        out.push(' ');
                        assert(spaces((k + 1) as nat) =~= spaces(k as nat).push(' '));
                        k += 1;
                    }
                } else {
                    assert(out@ =~= mid + Seq::<char>::empty());
                }
                push_str(out, " ");
                let ghost mid2 = out@;
                if *idx < labels.len() {
                    push_str(out, labels[*idx].as_str());
                } else {
                    assert(out@ =~= mid2 + Seq::<char>::empty());
                }
                push_str(out, "\n");
                assert(out@ =~= before + (head@ + padding(max as nat, display_columns(head@)) + " "@ + label_at(
                    ls,
                    *idx as nat,
                ) + "\n"@));
            },
            TreeNode::Dir(t) => {
                push_chars(out, &head);
                push_str(out, "/\n");
                let child_prefix = indented(prefix, last);
                let ghost mid = out@;
                proof {
                    lemma_items_shape(t.items@);
                }
                render(&t.items, &child_prefix, max, labels, out);
                assert(out@ =~= before + (head@ + "/\n"@ + render_items(
                    items_shape(t.items@),
                    t.items@.len() as nat,
                    prefix@ + indent(last),
                    max as nat,
                    ls,
                )));
            },
        }
        i += 1;
    }
    assert(sh.take(n as int) =~= sh);
}

/// The widest line of a folder's entries and below.
#[verifier::rlimit(50)]
#[verifier::spinoff_prover]
pub fn width_of(items: &Vec<TreeItem>, prefix: &Vec<char>) -> (r: usize)
    ensures
        r == tree_width(items_shape(items@), items@.len() as nat, prefix@),
    decreases items@,
{
    let ghost sh = items_shape(items@);
    proof {
        lemma_items_shape(items@);
    }
    let n = items.len();
    let mut best: usize = 0;
    let mut i: usize = 0;
    while i < n
        invariant
            n == items@.len(),
            i <= n,
            sh == items_shape(items@),
            sh.len() == n,
            forall|k: int| 0 <= k < n ==> #[trigger] sh[k] == (items@[k].name@, node_shape(items@[k].node)),
            best == tree_width(sh.take(i as int), n as nat, prefix@),
        decreases n - i,
    {
        let last = i + 1 == n;
        let item = &items[i];
        let mut head = prefix.clone();
        assert(head@ == prefix@);
        push_connector(&mut head, last);
        push_chars(&mut head, &chars_of(item.name.as_str()));
        proof {
            assert(sh.take(i + 1).drop_last() =~= sh.take(i as int));
            assert(sh.take(i + 1).last() == sh[i as int]);
        }
        let here = match &item.node {
            TreeNode::File(_) => display_width_chars(&head),
            TreeNode::Dir(t) => {
                let mut with_slash = head.clone();
                assert(with_slash@ == head@);
                push_str(&mut with_slash, "/");
                let own = display_width_chars(&with_slash);
                let child_prefix = indented(prefix, last);
                proof {
                    lemma_items_shape(t.items@);
                }
                let below = width_of(&t.items, &child_prefix);
                if own >= below {
                    own
                } else {
                    below
                }
            },
        };
        if here > best {
            best = here;
        }
        i += 1;
    }
    assert(sh.take(n as int) =~= sh);
    best
}

} // verus!

verus! {

impl FileTree {
    /// Position of the first entry named `name`.
    fn position(&self, name: &str) -> (r: Option<usize>)
        ensures
            r matches Some(i) ==> i < self.items@.len() && self.items@[i as int].name@ == name@ && forall|k: int|
                0 <= k < i ==> self.items@[k].name@ != name@,
            r is None ==> forall|k: int| 0 <= k < self.items@.len() ==> self.items@[k].name@ != name@,
    {
        let target = name.to_owned();
        let mut i: usize = 0;
        while i < self.items.len()
            invariant
                i <= self.items@.len(),
                target@ == name@,
                forall|k: int| 0 <= k < i ==> self.items@[k].name@ != name@,
            decreases self.items@.len() - i,
        {
            if self.items[i].name.eq(&target) {
                return Some(i);
            }
            i += 1;
        }
        None
    }

    /// Whether the folder has an entry named `name`.
    pub fn contains_key(&self, name: &str) -> (r: bool)
        ensures
            r == exists|k: int| 0 <= k < self@.len() && #[trigger] self@[k].0 == name@,
    {
        proof {
            lemma_items_shape(self.items@);
        }
        match self.position(name) {
            Some(i) => {
                assert(self@[i as int].0 == name@);
                true
            },
            None => false,
        }
    }

    /// The entry named `name`.
    pub fn get(&self, name: &str) -> (r: Option<&TreeNode>)
        ensures
            r matches Some(n) ==> exists|k: int|
                0 <= k < self.items@.len() && #[trigger] self.items@[k].name@ == name@ && self.items@[k].node == *n,
            r is None <==> forall|k: int| 0 <= k < self.items@.len() ==> #[trigger] self.items@[k].name@ != name@,
    {
        match self.position(name) {
            Some(i) => Some(&self.items[i].node),
            None => None,
        }
    }
}

} // verus!
