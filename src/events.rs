use vstd::prelude::*;
use crate::text::{chars_of, owned, push_char};

verus! {

/// The kind of a file-system change, as the watcher reports it.
#[derive(Clone, Copy, PartialEq, Eq, Structural)]
pub enum ChangeKind {
    Create,
    Modify,
    Remove,
    Other,
}

/// A change under the vault, relative to its root, with `/` as separator.
pub struct FileChangeEvent {
    pub event_type: String,
    pub path: String,
    pub old_path: Option<String>,
}

/// The label a change of kind `k` is reported under; other kinds are not
/// reported.
pub open spec fn kind_label(k: ChangeKind) -> Option<Seq<char>> {
    match k {
        ChangeKind::Create => Some("create"@),
        ChangeKind::Modify => Some("modify"@),
        ChangeKind::Remove => Some("delete"@),
        ChangeKind::Other => None,
    }
}

pub open spec fn is_sep(c: char) -> bool {
    c == '/' || c == '\\'
}

/// `s` without its trailing separators.
pub open spec fn trim_end_seps(s: Seq<char>) -> Seq<char>
    decreases s.len(),
{
    if s.len() > 0 && is_sep(s.last()) {
        trim_end_seps(s.drop_last())
    } else {
        s
    }
}

/// How many separators `s` starts with.
pub open spec fn leading_seps(s: Seq<char>) -> nat
    decreases s.len(),
{
    if s.len() > 0 && is_sep(s[0]) {
        1 + leading_seps(s.drop_first())
    } else {
        0
    }
}

/// `path` relative to `root`: what follows `root` (trailing separators of
/// `root` aside) and the separators after it; `None` where `path` does not
/// lie under `root`, or only shares a partial name with it. An empty root
/// leaves the path as it is.
pub open spec fn relative_to(root: Seq<char>, path: Seq<char>) -> Option<Seq<char>> {
    let r = trim_end_seps(root);
    if root.len() == 0 {
        Some(path)
    } else if r.len() <= path.len() && path.take(r.len() as int) == r {
        let rest = path.skip(r.len() as int);
        if rest.len() == 0 || is_sep(rest[0]) {
            Some(rest.skip(leading_seps(rest) as int))
        } else {
            None
        }
    } else {
        None
    }
}

/// `s` with every `\` turned into `/`.
pub open spec fn with_slashes(s: Seq<char>) -> Seq<char> {
    s.map_values(|c: char| if c == '\\' { '/' } else { c })
}

/// The path an event reports for `path` under `root`: relative and with `/`
/// separators, or empty where `path` is not under `root`.
pub open spec fn event_path(root: Seq<char>, path: Seq<char>) -> Seq<char> {
    match relative_to(root, path) {
        Some(rel) => with_slashes(rel),
        None => Seq::<char>::empty(),
    }
}

/// The path an event reports for `path` under `root`.
pub fn relative_event_path(root: &str, path: &str) -> (r: String)
    ensures
        r@ == event_path(root@, path@),
{
    let rs = chars_of(root);
    let ps = chars_of(path);
    if rs.len() == 0 {
        return slashed(&ps, 0);
    }
    // the root without its trailing separators
    let mut n: usize = rs.len();
    assert(rs@.take(n as int) =~= rs@);
    while n > 0 && (rs[n - 1] == '/' || rs[n - 1] == '\\')
        invariant
            rs@ == root@,
            n <= rs@.len(),
            trim_end_seps(rs@.take(n as int)) == trim_end_seps(rs@),
        decreases n,
    {
        assert(rs@.take(n as int).drop_last() =~= rs@.take(n - 1));
        n = n - 1;
    }
    proof {
        if n > 0 {
            assert(!is_sep(rs@.take(n as int).last()));
        }
        assert(trim_end_seps(rs@.take(n as int)) == rs@.take(n as int));
    }
    if n > ps.len() {
        return String::new();
    }
    let mut i: usize = 0;
    while i < n
        invariant
            rs@ == root@,
            ps@ == path@,
            rs@.len() > 0,
            trim_end_seps(rs@) == rs@.take(n as int),
            n <= rs@.len(),
            n <= ps@.len(),
            i <= n,
            forall|j: int| 0 <= j < i ==> ps@[j] == rs@[j],
        decreases n - i,
    {
        if ps[i] != rs[i] {
            proof {
                assert(ps@.take(n as int)[i as int] != rs@.take(n as int)[i as int]);
                assert(ps@.take(n as int) != rs@.take(n as int));
            }
            return String::new();
        }
        i = i + 1;
    }
    assert(ps@.take(n as int) =~= rs@.take(n as int));
    let ghost rest = ps@.skip(n as int);
    if n < ps.len() && ps[n] != '/' && ps[n] != '\\' {
        return String::new();
    }
    let mut k: usize = n;
    while k < ps.len() && (ps[k] == '/' || ps[k] == '\\')
        invariant
            n <= k <= ps@.len(),
            rest == ps@.skip(n as int),
            (k - n) + leading_seps(ps@.skip(k as int)) == leading_seps(rest),
        decreases ps@.len() - k,
    {
        assert(ps@.skip(k as int).drop_first() =~= ps@.skip(k + 1));
        k = k + 1;
    }
    proof {
        assert(leading_seps(ps@.skip(k as int)) == 0);
        assert(rest.skip(leading_seps(rest) as int) =~= ps@.skip(k as int));
    }
    slashed(&ps, k)
}

/// The characters of `cs` from `start` on, with `/` for every `\`.
fn slashed(cs: &Vec<char>, start: usize) -> (r: String)
    requires
        start <= cs@.len(),
    ensures
        r@ == with_slashes(cs@.skip(start as int)),
{
    let mut out = String::new();
    let mut i: usize = start;
    while i < cs.len()
        invariant
            start <= i <= cs@.len(),
            out@ == with_slashes(cs@.subrange(start as int, i as int)),
        decreases cs@.len() - i,
    {
        let c = cs[i];
        if c == '\\' {
            push_char(&mut out, '/');
        } else {
            push_char(&mut out, c);
        }
        assert(out@ =~= with_slashes(cs@.subrange(start as int, i + 1)));
        i = i + 1;
    }
    assert(cs@.subrange(start as int, i as int) =~= cs@.skip(start as int));
    out
}

/// The event to report for a change of kind `kind` at `path` under `root`,
/// or `None` for a kind that is not reported.
pub fn change_event(kind: ChangeKind, root: &str, path: &str) -> (r: Option<FileChangeEvent>)
    ensures
        r is None <==> kind_label(kind) is None,
        r matches Some(e) ==> {
            &&& Some(e.event_type@) == kind_label(kind)
            &&& e.path@ == event_path(root@, path@)
            &&& e.old_path is None
        },
{
    let label = match kind {
        ChangeKind::Create => owned("create"),
        ChangeKind::Modify => owned("modify"),
        ChangeKind::Remove => owned("delete"),
        ChangeKind::Other => {
            return None;
        },
    };
    Some(FileChangeEvent { event_type: label, path: relative_event_path(root, path), old_path: None })
}

} // verus!
