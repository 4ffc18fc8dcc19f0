use vstd::prelude::*;
use crate::store::{params_view, statement_is, Param, SqlValue, Statement};
use crate::text::{owned, push_text};

verus! {

/// Selects the summary of every note, with its outgoing and incoming link
/// counts taken from the link table.
pub const LIST_SELECT_SQL: &'static str = "SELECT id, path, title, created, updated, tags, aliases, word_count, is_starred, is_template, (SELECT COUNT(*) FROM note_links l WHERE l.source_note_path = notes.path) AS link_count, (SELECT COUNT(*) FROM note_links l WHERE l.target_note_path = notes.path) AS backlink_count FROM notes";

/// Most recently updated first.
pub const LIST_ORDER_SQL: &'static str = " ORDER BY updated DESC";

pub const WHERE_STARRED: &'static str = " WHERE is_starred = ?";

pub const WHERE_TEMPLATE: &'static str = " WHERE is_template = ?";

pub const WHERE_BOTH: &'static str = " WHERE is_starred = ? AND is_template = ?";

/// Which notes a listing returns: with `Some(b)`, only those whose flag
/// equals `b`; with `None`, any.
#[derive(Clone, Copy)]
pub struct NoteFilter {
    pub starred: Option<bool>,
    pub template: Option<bool>,
}

impl NoteFilter {
    /// The filter that admits every note.
    pub fn all() -> (r: NoteFilter)
        ensures
            r.starred is None,
            r.template is None,
    {
        NoteFilter { starred: None, template: None }
    }
}

/// A stored flag as the store holds it.
pub open spec fn flag_value(b: bool) -> int {
    if b {
        1
    } else {
        0
    }
}

/// The condition the listing adds for `f`.
pub open spec fn where_sql(f: NoteFilter) -> Seq<char> {
    if f.starred is Some && f.template is Some {
        WHERE_BOTH@
    } else if f.starred is Some {
        WHERE_STARRED@
    } else if f.template is Some {
        WHERE_TEMPLATE@
    } else {
        Seq::<char>::empty()
    }
}

/// The values that condition binds: the starred flag, then the template
/// flag, each only where `f` names it.
pub open spec fn filter_params(f: NoteFilter) -> Seq<Param> {
    (if f.starred is Some {
        seq![Param::Int(flag_value(f.starred->0))]
    } else {
        Seq::<Param>::empty()
    }) + (if f.template is Some {
        seq![Param::Int(flag_value(f.template->0))]
    } else {
        Seq::<Param>::empty()
    })
}

fn flag(b: bool) -> (r: SqlValue)
    ensures
        r@ == Param::Int(flag_value(b)),
{
    if b {
        SqlValue::Int(1)
    } else {
        SqlValue::Int(0)
    }
}

/// The listing for `f`: its condition as bound placeholders, never as text
/// taken from the caller.
pub fn list_statement(f: NoteFilter) -> (r: Statement)
    ensures
        statement_is(r, LIST_SELECT_SQL@ + where_sql(f) + LIST_ORDER_SQL@, filter_params(f)),
{
    let mut sql = owned(LIST_SELECT_SQL);
    let mut params: Vec<SqlValue> = Vec::new();
    match (f.starred, f.template) {
        (Some(s), Some(t)) => {
            push_text(&mut sql, WHERE_BOTH);
            params.push(flag(s));
            params.push(flag(t));
        },
        (Some(s), None) => {
            push_text(&mut sql, WHERE_STARRED);
            params.push(flag(s));
        },
        (None, Some(t)) => {
            push_text(&mut sql, WHERE_TEMPLATE);
            params.push(flag(t));
        },
        (None, None) => {
            assert(sql@ + where_sql(f) =~= sql@);
        },
    }
    push_text(&mut sql, LIST_ORDER_SQL);
    assert(params_view(params@) =~= filter_params(f));
    Statement { sql, params }
}

/// A count as an `i32`: negative counts read as 0, larger ones saturate.
pub open spec fn count_of(n: i64) -> i32 {
    if n < 0 {
        0
    } else if n > i32::MAX as i64 {
        i32::MAX
    } else {
        n as i32
    }
}

/// The summary of one note that a listing returns.
pub struct NoteResult {
    pub id: String,
    pub path: String,
    pub title: String,
    pub created: String,
    pub updated: String,
    pub tags: String,
    pub aliases: String,
    pub link_count: i32,
    pub backlink_count: i32,
    pub word_count: i32,
    pub is_starred: bool,
    pub is_template: bool,
}

impl NoteResult {
    /// A summary from the columns of one row. Missing timestamps read as
    /// empty, missing tag and alias lists as `[]`, a missing word count as 0,
    /// and a flag is set when its stored value is present and not 0.
    pub fn from_row(
        id: String,
        path: String,
        title: String,
        created: Option<String>,
        updated: Option<String>,
        tags: Option<String>,
        aliases: Option<String>,
        word_count: Option<i32>,
        is_starred: Option<i64>,
        is_template: Option<i64>,
        link_count: i64,
        backlink_count: i64,
    ) -> (r: NoteResult)
        ensures
            r.id == id,
            r.path == path,
            r.title == title,
            created matches Some(c) ==> r.created == c,
            created is None ==> r.created@.len() == 0,
            updated matches Some(u) ==> r.updated == u,
            updated is None ==> r.updated@.len() == 0,
            tags matches Some(t) ==> r.tags == t,
            tags is None ==> r.tags@ == "[]"@,
            aliases matches Some(a) ==> r.aliases == a,
            aliases is None ==> r.aliases@ == "[]"@,
            word_count matches Some(w) ==> r.word_count == w,
            word_count is None ==> r.word_count == 0,
            r.is_starred == (is_starred matches Some(s) && s != 0),
            r.is_template == (is_template matches Some(t) && t != 0),
            r.link_count == count_of(link_count),
            r.backlink_count == count_of(backlink_count),
    {
        let created = match created {
            Some(c) => c,
            None => String::new(),
        };
        let updated = match updated {
            Some(u) => u,
            None => String::new(),
        };
        let tags = match tags {
            Some(t) => t,
            None => owned("[]"),
        };
        let aliases = match aliases {
            Some(a) => a,
            None => owned("[]"),
        };
        let word_count = match word_count {
            Some(w) => w,
            None => 0,
        };
        let is_starred = match is_starred {
            Some(s) => s != 0,
            None => false,
        };
        let is_template = match is_template {
            Some(t) => t != 0,
            None => false,
        };
        NoteResult {
            id,
            path,
            title,
            created,
            updated,
            tags,
            aliases,
            link_count: count(link_count),
            backlink_count: count(backlink_count),
            word_count,
            is_starred,
            is_template,
        }
    }
}

fn count(n: i64) -> (r: i32)
    ensures
        r == count_of(n),
{
    if n < 0 {
        0
    } else if n > i32::MAX as i64 {
        i32::MAX
    } else {
        n as i32
    }
}

} // verus!
