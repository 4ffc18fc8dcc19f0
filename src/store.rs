use vstd::prelude::*;
use crate::ident::{lemma_note_id_injective, note_id, note_id_of};
use crate::text::{owned, push_text};

verus! {

/// A value bound to a `?` placeholder of a statement.
pub enum SqlValue {
    Text(String),
    Int(i64),
}

/// What a bound value stands for.
pub enum Param {
    Text(Seq<char>),
    Int(int),
}

impl View for SqlValue {
    type V = Param;

    open spec fn view(&self) -> Param {
        match self {
            SqlValue::Text(s) => Param::Text(s@),
            SqlValue::Int(n) => Param::Int(*n as int),
        }
    }
}

/// A statement for the store: its text and the values of its placeholders,
/// in order.
pub struct Statement {
    pub sql: String,
    pub params: Vec<SqlValue>,
}

pub open spec fn params_view(v: Seq<SqlValue>) -> Seq<Param> {
    v.map_values(|x: SqlValue| x@)
}

/// `s` has the text `sql` and binds exactly `params`.
pub open spec fn statement_is(s: Statement, sql: Seq<char>, params: Seq<Param>) -> bool {
    s.sql@ == sql && params_view(s.params@) == params
}

fn text(s: &str) -> (r: SqlValue)
    ensures
        r@ == Param::Text(s@),
{
    SqlValue::Text(owned(s))
}

// ---- schema ----

/// A structure of the schema.
#[derive(Clone, Copy, PartialEq, Eq, Structural)]
pub enum Structure {
    NotesTable,
    FtsTable,
    LinksTable,
    SourceIndex,
    TargetIndex,
}

/// One statement of the schema, with the structure it creates.
pub struct SchemaStep {
    pub structure: Structure,
    pub sql: String,
}

pub const NOTES_KIND: &'static str = "TABLE";

pub const NOTES_BODY: &'static str = "notes (id TEXT PRIMARY KEY, path TEXT UNIQUE NOT NULL, title TEXT NOT NULL, content TEXT NOT NULL, frontmatter TEXT, tags TEXT, aliases TEXT, word_count INTEGER, checksum TEXT, created TEXT, updated TEXT, is_starred INTEGER DEFAULT 0, is_template INTEGER DEFAULT 0)";

pub const FTS_KIND: &'static str = "VIRTUAL TABLE";

pub const FTS_BODY: &'static str = "notes_fts USING fts5(title, content, tags, aliases)";

pub const LINKS_KIND: &'static str = "TABLE";

pub const LINKS_BODY: &'static str = "note_links (id TEXT PRIMARY KEY, source_note_path TEXT NOT NULL, target_note_path TEXT, target_path TEXT NOT NULL, link_type TEXT NOT NULL, position_line INTEGER)";

pub const SOURCE_INDEX_KIND: &'static str = "INDEX";

pub const SOURCE_INDEX_BODY: &'static str = "idx_links_source ON note_links(source_note_path)";

pub const TARGET_INDEX_KIND: &'static str = "INDEX";

pub const TARGET_INDEX_BODY: &'static str = "idx_links_target ON note_links(target_note_path)";

/// `CREATE <kind> IF NOT EXISTS <body>`: a statement that leaves an existing
/// structure of that name as it is.
pub open spec fn create_if_absent(kind: Seq<char>, body: Seq<char>) -> Seq<char> {
    "CREATE "@ + kind + " IF NOT EXISTS "@ + body
}

/// `s` creates a structure only where none of its name exists yet.
pub open spec fn creates_only_if_absent(s: Seq<char>) -> bool {
    exists|kind: Seq<char>, body: Seq<char>| s == create_if_absent(kind, body)
}

/// The structures of the schema, in the order they are created.
pub open spec fn schema_structures() -> Seq<Structure> {
    seq![
        Structure::NotesTable,
        Structure::FtsTable,
        Structure::LinksTable,
        Structure::SourceIndex,
        Structure::TargetIndex,
    ]
}

/// The statements that set up an index: the document table, its full-text
/// shadow table, the link table and its two indexes, in that order.
pub open spec fn schema_spec() -> Seq<Seq<char>> {
    seq![
        create_if_absent(NOTES_KIND@, NOTES_BODY@),
        create_if_absent(FTS_KIND@, FTS_BODY@),
        create_if_absent(LINKS_KIND@, LINKS_BODY@),
        create_if_absent(SOURCE_INDEX_KIND@, SOURCE_INDEX_BODY@),
        create_if_absent(TARGET_INDEX_KIND@, TARGET_INDEX_BODY@),
    ]
}

fn create_statement(kind: &str, body: &str) -> (r: String)
    ensures
        r@ == create_if_absent(kind@, body@),
{
    let mut s = owned("CREATE ");
    push_text(&mut s, kind);
    push_text(&mut s, " IF NOT EXISTS ");
    push_text(&mut s, body);
    s
}

fn schema_step(structure: Structure, kind: &str, body: &str) -> (r: SchemaStep)
    ensures
        r.structure == structure,
        r.sql@ == create_if_absent(kind@, body@),
{
    SchemaStep { structure, sql: create_statement(kind, body) }
}

/// The statements that set up an index, each with the structure it creates,
/// to run in order; a failure stops the set.
pub fn schema_statements() -> (r: Vec<SchemaStep>)
    ensures
        r@.len() == schema_spec().len(),
        forall|i: int|
            0 <= i < r@.len() ==> #[trigger] r@[i].sql@ == schema_spec()[i] && r@[i].structure
                == schema_structures()[i],
{
    let mut v: Vec<SchemaStep> = Vec::new();
    v.push(schema_step(Structure::NotesTable, NOTES_KIND, NOTES_BODY));
    v.push(schema_step(Structure::FtsTable, FTS_KIND, FTS_BODY));
    v.push(schema_step(Structure::LinksTable, LINKS_KIND, LINKS_BODY));
    v.push(schema_step(Structure::SourceIndex, SOURCE_INDEX_KIND, SOURCE_INDEX_BODY));
    v.push(schema_step(Structure::TargetIndex, TARGET_INDEX_KIND, TARGET_INDEX_BODY));
    v
}

/// Setting an index up is idempotent: every statement of the schema creates
/// its structure only where none of that name exists, so running the set a
/// second time adds nothing and fails on nothing already there.
pub proof fn lemma_schema_idempotent()
    ensures
        forall|i: int| 0 <= i < schema_spec().len() ==> creates_only_if_absent(
            #[trigger] schema_spec()[i],
        ),
{
    assert forall|i: int| 0 <= i < schema_spec().len() implies creates_only_if_absent(
        #[trigger] schema_spec()[i],
    ) by {
        let kinds = seq![NOTES_KIND@, FTS_KIND@, LINKS_KIND@, SOURCE_INDEX_KIND@, TARGET_INDEX_KIND@];
        let bodies = seq![NOTES_BODY@, FTS_BODY@, LINKS_BODY@, SOURCE_INDEX_BODY@, TARGET_INDEX_BODY@];
        assert(schema_spec()[i] == create_if_absent(kinds[i], bodies[i]));
    }
}

// ---- writes ----

/// Inserts a document, or, where one is stored at its path already, updates
/// that row with the assignments that follow this text. Binds: id, path,
/// title, content, frontmatter, tags, aliases, word count, checksum,
/// created, updated.
pub const UPSERT_HEAD: &'static str = "INSERT INTO notes (id, path, title, content, frontmatter, tags, aliases, word_count, checksum, created, updated) VALUES (?, ?, ?, ?, ?, ?, ?, ?, ?, ?, ?) ON CONFLICT(path) DO UPDATE SET ";

/// The columns an upsert rewrites when the path is stored already.
pub open spec fn rewritten_columns() -> Seq<Seq<char>> {
    seq![
        "title"@,
        "content"@,
        "frontmatter"@,
        "tags"@,
        "aliases"@,
        "word_count"@,
        "checksum"@,
        "updated"@,
    ]
}

/// `c = excluded.c`: the column takes the value the upsert offered.
pub open spec fn assignment(c: Seq<char>) -> Seq<char> {
    c + " = excluded."@ + c
}

/// The assignments of the columns `cs`, separated by `, `.
pub open spec fn assignments(cs: Seq<Seq<char>>) -> Seq<char>
    decreases cs.len(),
{
    if cs.len() == 0 {
        Seq::<char>::empty()
    } else if cs.len() == 1 {
        assignment(cs[0])
    } else {
        assignments(cs.drop_last()) + ", "@ + assignment(cs.last())
    }
}

/// The text of the upsert.
pub open spec fn upsert_sql_spec() -> Seq<char> {
    UPSERT_HEAD@ + assignments(rewritten_columns())
}

/// Re-indexing a stored path rewrites its update time and leaves its
/// creation time, its id and its path as they were: none of those three is
/// among the columns the upsert rewrites.
pub proof fn lemma_reindex_keeps_created()
    ensures
        rewritten_columns().contains("updated"@),
        !rewritten_columns().contains("created"@),
        !rewritten_columns().contains("id"@),
        !rewritten_columns().contains("path"@),
{
    reveal_strlit("title");
    reveal_strlit("content");
    reveal_strlit("frontmatter");
    reveal_strlit("tags");
    reveal_strlit("aliases");
    reveal_strlit("word_count");
    reveal_strlit("checksum");
    reveal_strlit("updated");
    reveal_strlit("created");
    reveal_strlit("id");
    reveal_strlit("path");
    let cs = rewritten_columns();
    assert(cs[7] == "updated"@);
    assert forall|i: int| 0 <= i < cs.len() implies cs[i] != "created"@ && cs[i] != "id"@
        && cs[i] != "path"@ by {
        assert(cs[i][0] != "created"@[0] || cs[i][1] != "created"@[1] || cs[i].len() != 7);
        assert(cs[i].len() != 2);
        assert(cs[i][0] != "path"@[0] || cs[i].len() != 4);
    }
}

/// The text of the upsert.
pub fn upsert_sql() -> (r: String)
    ensures
        r@ == upsert_sql_spec(),
{
    let cols: Vec<&str> = vec![
        "title",
        "content",
        "frontmatter",
        "tags",
        "aliases",
        "word_count",
        "checksum",
        "updated",
    ];
    let ghost cs = rewritten_columns();
    assert(cols@.map_values(|c: &str| c@) =~= cs);
    let mut out = owned(UPSERT_HEAD);
    assert(cs.take(0) =~= Seq::<Seq<char>>::empty());
    assert(out@ =~= UPSERT_HEAD@ + assignments(cs.take(0)));
    let mut i: usize = 0;
    while i < cols.len()
        invariant
            cs == rewritten_columns(),
            cols@.map_values(|c: &str| c@) == cs,
            i <= cols@.len(),
            out@ == UPSERT_HEAD@ + assignments(cs.take(i as int)),
        decreases cols@.len() - i,
    {
        let c = cols[i];
        assert(c@ == cs[i as int]);
        assert(cs.take(i + 1).drop_last() =~= cs.take(i as int));
        assert(cs.take(i + 1).last() == cs[i as int]);
        if i > 0 {
            push_text(&mut out, ", ");
        }
        push_text(&mut out, c);
        push_text(&mut out, " = excluded.");
        push_text(&mut out, c);
        proof {
            if i == 0 {
                assert(assignments(cs.take(0)) =~= Seq::<char>::empty());
            }
            assert(out@ =~= UPSERT_HEAD@ + assignments(cs.take(i + 1)));
        }
        i = i + 1;
    }
    assert(cs.take(cs.len() as int) =~= cs);
    out
}

/// Drops the shadow entry of the document at a path. Binds: path.
pub const SHADOW_CLEAR_SQL: &'static str = "DELETE FROM notes_fts WHERE rowid = (SELECT rowid FROM notes WHERE path = ?)";

/// Writes the shadow entry of the document at a path from its stored row,
/// under the same row identity. Binds: path.
pub const SHADOW_FILL_SQL: &'static str = "INSERT INTO notes_fts (rowid, title, content, tags, aliases) SELECT rowid, title, content, tags, aliases FROM notes WHERE path = ?";

/// Deletes the document at a path. Binds: path.
pub const NOTE_DELETE_SQL: &'static str = "DELETE FROM notes WHERE path = ?";

/// The fields of a note that its caller supplies; the id and the two
/// timestamps are derived.
pub struct NoteFields {
    pub path: String,
    pub title: String,
    pub content: String,
    pub frontmatter: String,
    pub tags: String,
    pub aliases: String,
    pub word_count: i32,
    pub checksum: String,
}

/// The values the upsert binds for `f` at time `now`: `now` is offered as
/// the creation time (kept only for a new path) and as the update time.
pub open spec fn upsert_params(f: NoteFields, now: Seq<char>) -> Seq<Param> {
    seq![
        Param::Text(note_id_of(f.path@)),
        Param::Text(f.path@),
        Param::Text(f.title@),
        Param::Text(f.content@),
        Param::Text(f.frontmatter@),
        Param::Text(f.tags@),
        Param::Text(f.aliases@),
        Param::Int(f.word_count as int),
        Param::Text(f.checksum@),
        Param::Text(now),
        Param::Text(now),
    ]
}

/// The statements that index `f` at time `now`, to run as one transaction:
/// the document row, then its shadow entry dropped and written anew.
pub open spec fn upsert_plan_is(r: Seq<Statement>, f: NoteFields, now: Seq<char>) -> bool {
    &&& r.len() == 3
    &&& statement_is(r[0], upsert_sql_spec(), upsert_params(f, now))
    &&& statement_is(r[1], SHADOW_CLEAR_SQL@, seq![Param::Text(f.path@)])
    &&& statement_is(r[2], SHADOW_FILL_SQL@, seq![Param::Text(f.path@)])
}

/// The statements that remove the note at `path`, to run as one transaction:
/// its shadow entry, then its row.
pub open spec fn remove_plan_is(r: Seq<Statement>, path: Seq<char>) -> bool {
    &&& r.len() == 2
    &&& statement_is(r[0], SHADOW_CLEAR_SQL@, seq![Param::Text(path)])
    &&& statement_is(r[1], NOTE_DELETE_SQL@, seq![Param::Text(path)])
}

/// Indexing keys a document by its path alone: two upserts bind the same
/// document id exactly when they index the same path, whatever their other
/// fields and time stamps. Re-indexing a path thus targets its existing row,
/// and indexing a new path can never replace the row of another.
pub proof fn lemma_upsert_key_is_path(f: NoteFields, g: NoteFields, t1: Seq<char>, t2: Seq<char>)
    ensures
        upsert_params(f, t1)[0] == upsert_params(g, t2)[0] <==> f.path@ == g.path@,
{
    if upsert_params(f, t1)[0] == upsert_params(g, t2)[0] {
        lemma_note_id_injective(f.path@, g.path@);
    }
}

fn path_statement(sql: &str, path: &str) -> (r: Statement)
    ensures
        statement_is(r, sql@, seq![Param::Text(path@)]),
{
    let mut params: Vec<SqlValue> = Vec::new();
    params.push(text(path));
    let r = Statement { sql: owned(sql), params };
    assert(params_view(r.params@) =~= seq![Param::Text(path@)]);
    r
}

/// The statements that index `f`, stamped with the time `now`.
pub fn upsert_statements(f: &NoteFields, now: &str) -> (r: Vec<Statement>)
    ensures
        upsert_plan_is(r@, *f, now@),
{
    let mut params: Vec<SqlValue> = Vec::new();
    params.push(SqlValue::Text(note_id(f.path.as_str())));
    params.push(text(f.path.as_str()));
    params.push(text(f.title.as_str()));
    params.push(text(f.content.as_str()));
    params.push(text(f.frontmatter.as_str()));
    params.push(text(f.tags.as_str()));
    params.push(text(f.aliases.as_str()));
    params.push(SqlValue::Int(f.word_count as i64));
    params.push(text(f.checksum.as_str()));
    params.push(text(now));
    params.push(text(now));
    assert(params_view(params@) =~= upsert_params(*f, now@));
    let mut r: Vec<Statement> = Vec::new();
    r.push(Statement { sql: upsert_sql(), params });
    r.push(path_statement(SHADOW_CLEAR_SQL, f.path.as_str()));
    r.push(path_statement(SHADOW_FILL_SQL, f.path.as_str()));
    r
}

/// Relies on `chrono::Utc::now` and `DateTime::to_rfc3339`: the current UTC
/// time as RFC 3339 text, which always holds a date. Nothing more is claimed
/// of the value, which depends on the clock.
#[verifier::external_body]
fn now_rfc3339() -> (r: String)
    ensures
        r@.len() > 0,
{
    chrono::Utc::now().to_rfc3339()
}

/// The plan that indexes `f` now: the time stamp used, and the statements
/// stamped with it.
pub fn plan_index_note(f: &NoteFields) -> (r: (String, Vec<Statement>))
    ensures
        r.0@.len() > 0,
        upsert_plan_is(r.1@, *f, r.0@),
{
    let now = now_rfc3339();
    let stmts = upsert_statements(f, now.as_str());
    (now, stmts)
}

/// The statements that remove the note at `path` from the index.
pub fn remove_statements(path: &str) -> (r: Vec<Statement>)
    ensures
        remove_plan_is(r@, path@),
{
    let mut r: Vec<Statement> = Vec::new();
    r.push(path_statement(SHADOW_CLEAR_SQL, path));
    r.push(path_statement(NOTE_DELETE_SQL, path));
    r
}

} // verus!
