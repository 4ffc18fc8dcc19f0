use vstd::prelude::*;
use vstd::multiset::Multiset;
use crate::text::{chars_of, owned};

verus! {

/// One node of a vault's file tree: a note file, or a folder with its
/// children.
pub struct FileTreeNode {
    pub name: String,
    pub path: String,
    pub node_type: String,
    pub children: Option<Vec<FileTreeNode>>,
}

/// The file extension of notes.
pub const NOTE_EXTENSION: &'static str = "md";

/// Names starting with this character are hidden.
pub const HIDDEN_MARK: char = '.';

pub open spec fn is_folder(n: FileTreeNode) -> bool {
    n.node_type@ == "folder"@
}

/// Code-point order on names: a proper prefix comes first.
pub open spec fn name_lt(a: Seq<char>, b: Seq<char>) -> bool
    decreases a.len(),
{
    if a.len() == 0 {
        b.len() > 0
    } else if b.len() == 0 {
        false
    } else if a[0] != b[0] {
        (a[0] as u32) < (b[0] as u32)
    } else {
        name_lt(a.drop_first(), b.drop_first())
    }
}

/// `a` is listed before `b`: folders before files, then by name.
pub open spec fn before(a: FileTreeNode, b: FileTreeNode) -> bool {
    (is_folder(a) && !is_folder(b)) || (is_folder(a) == is_folder(b) && name_lt(a.name@, b.name@))
}

/// No node is listed after one that should follow it.
pub open spec fn tree_ordered(s: Seq<FileTreeNode>) -> bool {
    forall|i: int, j: int| 0 <= i < j < s.len() ==> !before(#[trigger] s[j], #[trigger] s[i])
}

/// Whether a directory entry appears in the tree: it has a name, the name is
/// not hidden, and it is a folder or a note file.
pub open spec fn entry_listed(
    name: Option<Seq<char>>,
    is_dir: bool,
    is_file: bool,
    extension: Option<Seq<char>>,
) -> bool {
    &&& name is Some
    &&& (name->0.len() == 0 || name->0[0] != HIDDEN_MARK)
    &&& (is_dir || (is_file && extension == Some(NOTE_EXTENSION@)))
}

proof fn lemma_name_lt_transitive(a: Seq<char>, b: Seq<char>, c: Seq<char>)
    requires
        name_lt(a, b),
        name_lt(b, c),
    ensures
        name_lt(a, c),
    decreases a.len(),
{
    if a.len() > 0 && b.len() > 0 && c.len() > 0 && a[0] == b[0] && b[0] == c[0] {
        lemma_name_lt_transitive(a.drop_first(), b.drop_first(), c.drop_first());
    }
}

proof fn lemma_name_lt_asymmetric(a: Seq<char>, b: Seq<char>)
    requires
        name_lt(a, b),
    ensures
        !name_lt(b, a),
    decreases a.len(),
{
    if a.len() > 0 && b.len() > 0 && a[0] == b[0] {
        lemma_name_lt_asymmetric(a.drop_first(), b.drop_first());
    }
}

proof fn lemma_before_irreflexive(n: FileTreeNode)
    ensures
        !before(n, n),
{
    if name_lt(n.name@, n.name@) {
        lemma_name_lt_asymmetric(n.name@, n.name@);
    }
}

proof fn lemma_before_transitive(a: FileTreeNode, b: FileTreeNode, c: FileTreeNode)
    requires
        before(a, b),
        before(b, c),
    ensures
        before(a, c),
{
    if is_folder(a) == is_folder(b) && is_folder(b) == is_folder(c) {
        lemma_name_lt_transitive(a.name@, b.name@, c.name@);
    }
}

/// Whether `a`'s name comes before `b`'s.
fn name_less(a: &String, b: &String) -> (r: bool)
    ensures
        r == name_lt(a@, b@),
{
    let x = chars_of(a.as_str());
    let y = chars_of(b.as_str());
    let mut i: usize = 0;
    assert(x@.skip(0) =~= x@);
    assert(y@.skip(0) =~= y@);
    while i < x.len() && i < y.len() && x[i] == y[i]
        invariant
            x@ == a@,
            y@ == b@,
            i <= x@.len(),
            i <= y@.len(),
            name_lt(x@.skip(i as int), y@.skip(i as int)) == name_lt(a@, b@),
        decreases x@.len() - i,
    {
        assert(x@.skip(i as int).drop_first() =~= x@.skip(i + 1));
        assert(y@.skip(i as int).drop_first() =~= y@.skip(i + 1));
        i = i + 1;
    }
    if i == x.len() {
        i < y.len()
    } else if i == y.len() {
        false
    } else {
        (x[i] as u32) < (y[i] as u32)
    }
}

fn folder_check(n: &FileTreeNode) -> (r: bool)
    ensures
        r == is_folder(*n),
{
    let f = owned("folder");
    n.node_type == f
}

/// Whether `a` is listed before `b`.
pub fn listed_before(a: &FileTreeNode, b: &FileTreeNode) -> (r: bool)
    ensures
        r == before(*a, *b),
{
    let fa = folder_check(a);
    let fb = folder_check(b);
    if fa != fb {
        fa
    } else {
        name_less(&a.name, &b.name)
    }
}

/// Whether a directory entry appears in the tree.
pub fn is_listed_entry(name: Option<&str>, is_dir: bool, is_file: bool, extension: Option<&str>) -> (r:
    bool)
    ensures
        r == entry_listed(
            match name {
                Some(s) => Some(s@),
                None => None,
            },
            is_dir,
            is_file,
            match extension {
                Some(e) => Some(e@),
                None => None,
            },
        ),
{
    let visible = match name {
        Some(s) => {
            let cs = chars_of(s);
            cs.len() == 0 || cs[0] != HIDDEN_MARK
        },
        None => {
            return false;
        },
    };
    if !visible {
        return false;
    }
    if is_dir {
        return true;
    }
    if !is_file {
        return false;
    }
    match extension {
        Some(e) => {
            let cs = chars_of(e);
            proof {
                reveal_strlit("md");
            }
            let same = cs.len() == 2 && cs[0] == 'm' && cs[1] == 'd';
            proof {
                if same {
                    assert(e@ =~= NOTE_EXTENSION@);
                } else if cs@.len() == 2 {
                    assert(e@[0] != NOTE_EXTENSION@[0] || e@[1] != NOTE_EXTENSION@[1]);
                }
            }
            same
        },
        None => false,
    }
}

/// The nodes of `v` in tree order: folders first, then files, each group by
/// name.
pub fn order_nodes(v: Vec<FileTreeNode>) -> (r: Vec<FileTreeNode>)
    ensures
        r@.to_multiset() == v@.to_multiset(),
        tree_ordered(r@),
{
    broadcast use vstd::seq_lib::group_to_multiset_ensures;

    let mut rest = v;
    let mut out: Vec<FileTreeNode> = Vec::new();
    while rest.len() > 0
        invariant
            out@.to_multiset().add(rest@.to_multiset()) == v@.to_multiset(),
            tree_ordered(out@),
            forall|i: int, j: int|
                0 <= i < out@.len() && 0 <= j < rest@.len() ==> !before(
                    #[trigger] rest@[j],
                    #[trigger] out@[i],
                ),
        decreases rest@.len(),
    {
        // the first node that no other remaining node precedes
        let mut m: usize = 0;
        let mut k: usize = 1;
        proof {
            lemma_before_irreflexive(rest@[0]);
        }
        while k < rest.len()
            invariant
                0 <= m < k <= rest@.len(),
                forall|j: int| 0 <= j < k ==> !before(#[trigger] rest@[j], rest@[m as int]),
            decreases rest@.len() - k,
        {
            if listed_before(&rest[k], &rest[m]) {
                proof {
                    assert forall|j: int| 0 <= j <= k implies !before(
                        #[trigger] rest@[j],
                        rest@[k as int],
                    ) by {
                        if j < k && before(rest@[j], rest@[k as int]) {
                            lemma_before_transitive(rest@[j], rest@[k as int], rest@[m as int]);
                        }
                        if j == k {
                            lemma_before_irreflexive(rest@[j]);
                        }
                    }
                }
                m = k;
            }
            k = k + 1;
        }
        let ghost old_rest = rest@;
        let ghost old_out = out@;
        let x = rest.remove(m);
        proof {
            assert(x == old_rest[m as int]);
            assert(rest@ == old_rest.remove(m as int));
        }
        out.push(x);
        proof {
            assert(out@ == old_out.push(x));
            old_rest.to_multiset_ensures();
            old_out.to_multiset_ensures();
            assert(old_rest.remove(m as int).to_multiset() == old_rest.to_multiset().remove(
                old_rest[m as int],
            ));
            assert(out@.to_multiset() == old_out.to_multiset().insert(x));
            assert(rest@.to_multiset() == old_rest.to_multiset().remove(x));
            assert(old_rest.to_multiset().count(x) > 0) by {
                assert(old_rest.contains(x));
            }
            assert(out@.to_multiset().add(rest@.to_multiset()) =~= old_out.to_multiset().add(
                old_rest.to_multiset(),
            ));
            assert forall|i: int, j: int| 0 <= i < j < out@.len() implies !before(
                #[trigger] out@[j],
                #[trigger] out@[i],
            ) by {
                if j == old_out.len() {
                    assert(out@[j] == old_rest[m as int]);
                    assert(out@[i] == old_out[i]);
                } else {
                    assert(out@[j] == old_out[j]);
                    assert(out@[i] == old_out[i]);
                }
            }
            assert forall|i: int, j: int|
                0 <= i < out@.len() && 0 <= j < rest@.len() implies !before(
                #[trigger] rest@[j],
                #[trigger] out@[i],
            ) by {
                let jj = if j < m { j } else { j + 1 };
                assert(rest@[j] == old_rest[jj]);
                if i < old_out.len() {
                    assert(out@[i] == old_out[i]);
                } else {
                    assert(out@[i] == old_rest[m as int]);
                    if jj >= k {
                        assert(jj < old_rest.len());
                    }
                }
            }
        }
    }
    assert(rest@.to_multiset() =~= Multiset::<FileTreeNode>::empty());
    assert(out@.to_multiset().add(rest@.to_multiset()) =~= out@.to_multiset());
    out
}

/// `"folder"` for a directory, `"file"` for anything else.
pub open spec fn kind_name(is_dir: bool) -> Seq<char> {
    if is_dir {
        "folder"@
    } else {
        "file"@
    }
}

/// A file node.
pub fn file_node(name: String, path: String) -> (r: FileTreeNode)
    ensures
        r.name == name,
        r.path == path,
        r.node_type@ == kind_name(false),
        r.children is None,
{
    FileTreeNode { name, path, node_type: owned("file"), children: None }
}

/// A folder node over `children`, which it holds in tree order.
pub fn folder_node(name: String, path: String, children: Vec<FileTreeNode>) -> (r: FileTreeNode)
    ensures
        r.name == name,
        r.path == path,
        r.node_type@ == kind_name(true),
        r.children matches Some(c) && c@.to_multiset() == children@.to_multiset() && tree_ordered(
            c@,
        ),
{
    FileTreeNode { name, path, node_type: owned("folder"), children: Some(order_nodes(children)) }
}

} // verus!
