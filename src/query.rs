use vstd::prelude::*;
use crate::text::{chars_of, owned, push_char, push_text};

verus! {

/// The number of results a search returns when the caller names no limit.
pub const DEFAULT_LIMIT: i32 = 50;

/// The statement that runs a ranked full-text search. It binds the match
/// expression, then the limit. The score is the negated BM25 rank, so that a
/// higher score means a better match; the excerpt comes from the content
/// column, with matches wrapped in `<mark>`/`</mark>`, elisions shown as
/// `...`, and about 32 tokens of context.
pub const SEARCH_SQL: &'static str = "SELECT n.id AS id, n.path AS path, n.title AS title, -bm25(notes_fts) AS score, snippet(notes_fts, 1, '<mark>', '</mark>', '...', 32) AS snippet FROM notes_fts JOIN notes n ON notes_fts.rowid = n.rowid WHERE notes_fts MATCH ? ORDER BY score DESC LIMIT ?";

/// Unicode `White_Space`: the characters a search query is split on.
pub open spec fn is_space(c: char) -> bool {
    let u = c as u32;
    (0x9 <= u && u <= 0xd) || u == 0x20 || u == 0x85 || u == 0xa0 || u == 0x1680 || (0x2000 <= u
        && u <= 0x200a) || u == 0x2028 || u == 0x2029 || u == 0x202f || u == 0x205f || u == 0x3000
}

/// The pending word `cur`, as a list of zero or one words.
pub open spec fn flush(cur: Seq<char>) -> Seq<Seq<char>> {
    if cur.len() == 0 {
        Seq::<Seq<char>>::empty()
    } else {
        seq![cur]
    }
}

/// The words of `s`, where `cur` is a word already begun before `s`.
pub open spec fn split_words(s: Seq<char>, cur: Seq<char>) -> Seq<Seq<char>>
    decreases s.len(),
{
    if s.len() == 0 {
        flush(cur)
    } else if is_space(s[0]) {
        flush(cur) + split_words(s.drop_first(), Seq::<char>::empty())
    } else {
        split_words(s.drop_first(), cur.push(s[0]))
    }
}

/// The maximal runs of non-space characters of `s`, in order.
pub open spec fn words(s: Seq<char>) -> Seq<Seq<char>> {
    split_words(s, Seq::<char>::empty())
}

/// `s` with each double quote doubled, as an FTS string literal needs.
pub open spec fn double_quotes(s: Seq<char>) -> Seq<char>
    decreases s.len(),
{
    if s.len() == 0 {
        Seq::<char>::empty()
    } else if s.last() == '"' {
        double_quotes(s.drop_last()) + seq!['"', '"']
    } else {
        double_quotes(s.drop_last()).push(s.last())
    }
}

/// One query word as an FTS prefix term: quoted, then starred.
pub open spec fn prefix_term(w: Seq<char>) -> Seq<char> {
    seq!['"'] + double_quotes(w) + seq!['"', '*']
}

/// The terms joined by ` OR `.
pub open spec fn join_or(ts: Seq<Seq<char>>) -> Seq<char>
    decreases ts.len(),
{
    if ts.len() == 0 {
        Seq::<char>::empty()
    } else if ts.len() == 1 {
        ts[0]
    } else {
        join_or(ts.drop_last()) + seq![' ', 'O', 'R', ' '] + ts.last()
    }
}

/// The FTS match expression for a query: each word as a prefix term, any of
/// which may match.
pub open spec fn match_expr_of(q: Seq<char>) -> Seq<char> {
    join_or(words(q).map_values(|w: Seq<char>| prefix_term(w)))
}

/// The text of each string.
pub open spec fn string_views(v: Seq<String>) -> Seq<Seq<char>> {
    v.map_values(|w: String| w@)
}

/// Whether `c` is Unicode white space.
pub fn is_space_char(c: char) -> (r: bool)
    ensures
        r == is_space(c),
{
    let u = c as u32;
    (0x9 <= u && u <= 0xd) || u == 0x20 || u == 0x85 || u == 0xa0 || u == 0x1680 || (0x2000 <= u
        && u <= 0x200a) || u == 0x2028 || u == 0x2029 || u == 0x202f || u == 0x205f || u == 0x3000
}

/// The words of a query: its maximal runs of non-space characters, in order.
pub fn query_words(q: &str) -> (r: Vec<String>)
    ensures
        string_views(r@) == words(q@),
{
    let cs = chars_of(q);
    let mut out: Vec<String> = Vec::new();
    let mut cur = String::new();
    let mut i: usize = 0;
    assert(cs@.skip(0) =~= cs@);
    assert(string_views(out@) + split_words(cs@, cur@) =~= words(q@));
    while i < cs.len()
        invariant
            cs@ == q@,
            i <= cs.len(),
            string_views(out@) + split_words(cs@.skip(i as int), cur@) == words(q@),
        decreases cs.len() - i,
    {
        let c = cs[i];
        let ghost rest = cs@.skip(i as int);
        assert(rest.drop_first() =~= cs@.skip(i + 1));
        assert(rest[0] == c);
        if is_space_char(c) {
            if !cur.as_str().is_empty() {
                let ghost before = string_views(out@);
                let w = cur;
                out.push(w);
                cur = String::new();
                assert(string_views(out@) =~= before + flush(w@));
            } else {
                assert(flush(cur@) =~= Seq::<Seq<char>>::empty());
            }
            assert(cur@ =~= Seq::<char>::empty());
            assert(string_views(out@) + split_words(cs@.skip(i + 1), cur@) =~= words(q@));
        } else {
            push_char(&mut cur, c);
        }
        i = i + 1;
    }
    assert(cs@.skip(i as int) =~= Seq::<char>::empty());
    if !cur.as_str().is_empty() {
        let ghost before = string_views(out@);
        out.push(cur);
        assert(string_views(out@) =~= before + flush(out@.last()@));
    } else {
        assert(flush(cur@) =~= Seq::<Seq<char>>::empty());
        assert(string_views(out@) + flush(cur@) =~= string_views(out@));
    }
    out
}

/// The limit a search runs with: the caller's, or `DEFAULT_LIMIT` when none
/// is given. It is bound to the statement's `LIMIT` as it is, so a negative
/// limit places no cap, as the store reads a negative `LIMIT`.
pub open spec fn limit_of(limit: Option<i32>) -> i32 {
    match limit {
        None => DEFAULT_LIMIT,
        Some(n) => n,
    }
}

/// The limit a search runs with.
pub fn effective_limit(limit: Option<i32>) -> (r: i32)
    ensures
        r == limit_of(limit),
{
    match limit {
        None => DEFAULT_LIMIT,
        Some(n) => n,
    }
}

/// One word as an FTS prefix term.
pub fn quote_term(w: &String) -> (r: String)
    ensures
        r@ == prefix_term(w@),
{
    let cs = chars_of(w.as_str());
    let mut out = owned("\"");
    proof {
        reveal_strlit("\"");
        reveal_strlit("\"*");
        assert(cs@.take(0) =~= Seq::<char>::empty());
        assert(out@ =~= seq!['"'] + double_quotes(cs@.take(0)));
    }
    let mut i: usize = 0;
    while i < cs.len()
        invariant
            cs@ == w@,
            i <= cs.len(),
            out@ == seq!['"'] + double_quotes(cs@.take(i as int)),
        decreases cs.len() - i,
    {
        let c = cs[i];
        proof {
            let t = cs@.take(i + 1);
            assert(t.drop_last() =~= cs@.take(i as int));
            assert(t.last() == c);
        }
        proof {
            reveal_strlit("\"\"");
        }
        if c == '"' {
            push_text(&mut out, "\"\"");
            assert(double_quotes(cs@.take(i + 1)) == double_quotes(cs@.take(i as int)) + seq![
                '"',
                '"',
            ]);
        } else {
            push_char(&mut out, c);
            assert(double_quotes(cs@.take(i + 1)) == double_quotes(cs@.take(i as int)).push(c));
        }
        assert(out@ =~= seq!['"'] + double_quotes(cs@.take(i + 1)));
        i = i + 1;
    }
    assert(cs@.take(cs@.len() as int) =~= cs@);
    push_text(&mut out, "\"*");
    assert(out@ =~= prefix_term(w@));
    out
}

/// The FTS match expression for a query: each of its words as a prefix
/// term, joined by ` OR `, so that a note matching any word is found.
pub fn match_expression(q: &str) -> (r: String)
    ensures
        r@ == match_expr_of(q@),
{
    let ws = query_words(q);
    let ghost terms = words(q@).map_values(|w: Seq<char>| prefix_term(w));
    let mut out = String::new();
    proof {
        reveal_strlit(" OR ");
        assert(terms.take(0) =~= Seq::<Seq<char>>::empty());
    }
    let mut i: usize = 0;
    while i < ws.len()
        invariant
            string_views(ws@) == words(q@),
            terms == words(q@).map_values(|w: Seq<char>| prefix_term(w)),
            terms.len() == ws.len(),
            i <= ws.len(),
            out@ == join_or(terms.take(i as int)),
        decreases ws.len() - i,
    {
        proof {
            assert(string_views(ws@)[i as int] == ws@[i as int]@);
            assert(terms.take(i + 1).drop_last() =~= terms.take(i as int));
        }
        if i > 0 {
            push_text(&mut out, " OR ");
        }
        let t = quote_term(&ws[i]);
        push_text(&mut out, t.as_str());
        proof {
            reveal_strlit(" OR ");
            assert(terms[i as int] == prefix_term(words(q@)[i as int]));
            assert(t@ == terms[i as int]);
            assert(terms.take(i + 1).last() == terms[i as int]);
            assert(terms.take(i + 1).len() == i + 1);
            if i == 0 {
                assert(join_or(terms.take(0)) =~= Seq::<char>::empty());
            }
            assert(out@ =~= join_or(terms.take(i + 1)));
        }
        i = i + 1;
    }
    assert(terms.take(terms.len() as int) =~= terms);
    out
}

/// What a search runs with: the match expression and the limit.
pub struct SearchPlan {
    pub match_expr: String,
    pub limit: i32,
}

/// The search to run for a query, or `None` when the query has no words, in
/// which case nothing can match and the result is empty.
pub fn plan_search(query: &str, limit: Option<i32>) -> (r: Option<SearchPlan>)
    ensures
        r is None <==> words(query@).len() == 0,
        r matches Some(p) ==> p.match_expr@ == match_expr_of(query@) && p.limit == limit_of(
            limit,
        ),
{
    let ws = query_words(query);
    if ws.len() == 0 {
        return None;
    }
    Some(SearchPlan { match_expr: match_expression(query), limit: effective_limit(limit) })
}

/// One search result, as read back from the store (the score stays with the
/// caller).
pub struct SearchHit {
    pub id: String,
    pub path: String,
    pub title: String,
    pub snippet: String,
}

impl SearchHit {
    /// A result from the columns of one row; a missing excerpt reads as empty.
    pub fn from_row(id: String, path: String, title: String, snippet: Option<String>) -> (r:
        SearchHit)
        ensures
            r.id == id,
            r.path == path,
            r.title == title,
            snippet matches Some(s) ==> r.snippet == s,
            snippet is None ==> r.snippet@.len() == 0,
    {
        let snippet = match snippet {
            Some(s) => s,
            None => String::new(),
        };
        SearchHit { id, path, title, snippet }
    }
}

} // verus!
