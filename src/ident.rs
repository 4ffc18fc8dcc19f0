use vstd::prelude::*;
use crate::text::{chars_of, owned, push_char, push_text};

verus! {

/// The code word that one character of a path becomes inside a document id.
/// A separator `/` becomes `_`; `_`, `%` and `\` are percent-escaped, so that
/// no code word is a prefix of another.
pub open spec fn escape_char(c: char) -> Seq<char> {
    if c == '/' {
        seq!['_']
    } else if c == '_' {
        seq!['%', '5', 'F']
    } else if c == '%' {
        seq!['%', '2', '5']
    } else if c == '\\' {
        seq!['%', '5', 'C']
    } else {
        seq![c]
    }
}

/// The escaped form of a whole path: the code words of its characters, in order.
pub open spec fn escape_path(s: Seq<char>) -> Seq<char>
    decreases s.len(),
{
    if s.len() == 0 {
        Seq::<char>::empty()
    } else {
        escape_char(s[0]) + escape_path(s.drop_first())
    }
}

/// The prefix every document id starts with.
pub open spec fn id_prefix() -> Seq<char> {
    seq!['n', 'o', 't', 'e', '_']
}

/// The document id of a note stored at `path`.
pub open spec fn note_id_of(path: Seq<char>) -> Seq<char> {
    id_prefix() + escape_path(path)
}

proof fn lemma_escape_append(a: Seq<char>, b: Seq<char>)
    ensures
        escape_path(a + b) == escape_path(a) + escape_path(b),
    decreases a.len(),
{
    if a.len() == 0 {
        assert(a + b =~= b);
        assert(escape_path(a) + escape_path(b) =~= escape_path(b));
    } else {
        assert((a + b).drop_first() =~= a.drop_first() + b);
        lemma_escape_append(a.drop_first(), b);
        assert(escape_path(a + b) =~= escape_char(a[0]) + (escape_path(a.drop_first())
            + escape_path(b)));
    }
}

proof fn lemma_escape_push(s: Seq<char>, c: char)
    ensures
        escape_path(s.push(c)) == escape_path(s) + escape_char(c),
{
    lemma_escape_append(s, seq![c]);
    assert(s + seq![c] =~= s.push(c));
    let one = seq![c];
    assert(one.drop_first() =~= Seq::<char>::empty());
    assert(escape_path(one) == escape_char(one[0]) + escape_path(one.drop_first()));
    assert(escape_path(Seq::<char>::empty()) =~= Seq::<char>::empty());
    assert(escape_path(one) =~= escape_char(c));
}

proof fn lemma_escape_char_decodes(a: char, b: char, x: Seq<char>, y: Seq<char>)
    requires
        escape_char(a) + x == escape_char(b) + y,
    ensures
        a == b,
        x == y,
{
    let ea = escape_char(a);
    let eb = escape_char(b);
    assert((ea + x)[0] == (eb + y)[0]);
    if ea.len() == 3 {
        assert((ea + x)[1] == (eb + y)[1]);
        assert((ea + x)[2] == (eb + y)[2]);
    }
    assert(ea.len() == eb.len());
    assert(ea =~= eb) by {
        assert forall|i: int| 0 <= i < ea.len() implies ea[i] == eb[i] by {
            assert((ea + x)[i] == (eb + y)[i]);
        }
    }
    assert(x =~= (ea + x).subrange(ea.len() as int, (ea + x).len() as int));
    assert(y =~= (eb + y).subrange(eb.len() as int, (eb + y).len() as int));
}

proof fn lemma_escape_injective(a: Seq<char>, b: Seq<char>)
    requires
        escape_path(a) == escape_path(b),
    ensures
        a == b,
    decreases a.len(),
{
    if a.len() == 0 {
        if b.len() != 0 {
            assert(escape_path(b).len() > 0);
        }
        assert(a =~= b);
    } else {
        if b.len() == 0 {
            assert(escape_path(a).len() > 0);
        } else {
            lemma_escape_char_decodes(
                a[0],
                b[0],
                escape_path(a.drop_first()),
                escape_path(b.drop_first()),
            );
            lemma_escape_injective(a.drop_first(), b.drop_first());
            assert(a =~= seq![a[0]] + a.drop_first());
            assert(b =~= seq![b[0]] + b.drop_first());
        }
    }
}

/// Two notes share a document id only when they share a path: the id is an
/// injective function of the path.
pub proof fn lemma_note_id_injective(p: Seq<char>, q: Seq<char>)
    requires
        note_id_of(p) == note_id_of(q),
    ensures
        p == q,
{
    let n = id_prefix().len() as int;
    assert(escape_path(p) =~= note_id_of(p).subrange(n, note_id_of(p).len() as int));
    assert(escape_path(q) =~= note_id_of(q).subrange(n, note_id_of(q).len() as int));
    lemma_escape_injective(p, q);
}

/// The document id of the note stored at `path`.
pub fn note_id(path: &str) -> (r: String)
    ensures
        r@ == note_id_of(path@),
{
    let cs = chars_of(path);
    let mut out = owned("note_");
    proof {
        reveal_strlit("note_");
        assert(out@ =~= id_prefix());
    }
    let mut i: usize = 0;
    while i < cs.len()
        invariant
            cs@ == path@,
            i <= cs.len(),
            out@ == id_prefix() + escape_path(cs@.take(i as int)),
        decreases cs.len() - i,
    {
        let c = cs[i];
        proof {
            lemma_escape_push(cs@.take(i as int), c);
            assert(cs@.take(i as int).push(c) =~= cs@.take(i + 1));
            reveal_strlit("%5F");
            reveal_strlit("%25");
            reveal_strlit("%5C");
        }
        if c == '/' {
            push_char(&mut out, '_');
        } else if c == '_' {
            push_text(&mut out, "%5F");
        } else if c == '%' {
            push_text(&mut out, "%25");
        } else if c == '\\' {
            push_text(&mut out, "%5C");
        } else {
            push_char(&mut out, c);
        }
        proof {
            assert(out@ =~= id_prefix() + escape_path(cs@.take(i + 1)));
        }
        i = i + 1;
    }
    proof {
        assert(cs@.take(cs@.len() as int) =~= cs@);
    }
    out
}

} // verus!
