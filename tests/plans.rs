use note_index::error::IndexError;
use note_index::events::{change_event, relative_event_path, ChangeKind};
use note_index::ident::note_id;
use note_index::listing::{list_statement, NoteFilter, NoteResult, LIST_ORDER_SQL, LIST_SELECT_SQL};
use note_index::query::{effective_limit, match_expression, plan_search, query_words, quote_term, SearchHit};
use note_index::registry::PoolRegistry;
use note_index::store::{
    remove_statements, schema_statements, upsert_sql, upsert_statements, NoteFields, SqlValue, Structure,
    NOTE_DELETE_SQL, SHADOW_CLEAR_SQL, SHADOW_FILL_SQL,
};
use note_index::tree::{file_node, folder_node, is_listed_entry, order_nodes, FileTreeNode};

fn text(v: &SqlValue) -> String {
    match v {
        SqlValue::Text(s) => s.clone(),
        SqlValue::Int(n) => format!("#{}", n),
    }
}

fn fields(path: &str) -> NoteFields {
    NoteFields {
        path: path.to_string(),
        title: "Title".to_string(),
        content: "Body".to_string(),
        frontmatter: "{}".to_string(),
        tags: "[\"a\"]".to_string(),
        aliases: "[]".to_string(),
        word_count: 7,
        checksum: "abc".to_string(),
    }
}

#[test]
fn note_id_replaces_separators() {
    assert_eq!(note_id("notes/daily/today.md"), "note_notes_daily_today.md");
    assert_eq!(note_id(""), "note_");
}

#[test]
fn note_id_escapes_underscore_percent_backslash() {
    assert_eq!(note_id("a_b.md"), "note_a%5Fb.md");
    assert_eq!(note_id("100%.md"), "note_100%25.md");
    assert_eq!(note_id("a\\b.md"), "note_a%5Cb.md");
}

#[test]
fn note_id_distinguishes_paths_that_once_collided() {
    assert_ne!(note_id("a/b.md"), note_id("a_b.md"));
    assert_ne!(note_id("a/b.md"), note_id("a\\b.md"));
    assert_eq!(note_id("a/b.md"), note_id("a/b.md"));
}

#[test]
fn query_words_split_on_any_whitespace() {
    assert_eq!(query_words("  kube \t net\nes  "), vec!["kube", "net", "es"]);
    assert_eq!(query_words("one\u{3000}two"), vec!["one", "two"]);
    assert!(query_words("").is_empty());
    assert!(query_words(" \t ").is_empty());
}

#[test]
fn match_expression_joins_prefix_terms() {
    assert_eq!(match_expression("kube"), "\"kube\"*");
    assert_eq!(match_expression(" kube  docker "), "\"kube\"* OR \"docker\"*");
    assert_eq!(match_expression(""), "");
}

#[test]
fn quote_term_doubles_quotes() {
    assert_eq!(quote_term(&"a\"b".to_string()), "\"a\"\"b\"*");
}

#[test]
fn limit_defaults_to_fifty() {
    assert_eq!(effective_limit(None), 50);
    assert_eq!(effective_limit(Some(10)), 10);
    assert_eq!(effective_limit(Some(0)), 0);
    assert_eq!(effective_limit(Some(-4)), -4);
}

#[test]
fn plan_search_skips_empty_queries() {
    assert!(plan_search("   ", Some(5)).is_none());
    let p = plan_search("kube", Some(5)).unwrap();
    assert_eq!(p.match_expr, "\"kube\"*");
    assert_eq!(p.limit, 5);
    let q = plan_search("a b", None).unwrap();
    assert_eq!(q.limit, 50);
}

#[test]
fn search_hit_defaults_snippet() {
    let h = SearchHit::from_row("i".to_string(), "p".to_string(), "t".to_string(), None);
    assert_eq!(h.snippet, "");
    let h = SearchHit::from_row("i".to_string(), "p".to_string(), "t".to_string(), Some("s".to_string()));
    assert_eq!(h.snippet, "s");
    assert_eq!(h.path, "p");
}

#[test]
fn schema_statements_create_only_if_absent() {
    let steps = schema_statements();
    assert_eq!(steps.len(), 5);
    assert!(steps[0].structure == Structure::NotesTable);
    assert!(steps[1].structure == Structure::FtsTable);
    assert!(steps[2].structure == Structure::LinksTable);
    assert!(steps[3].structure == Structure::SourceIndex);
    assert!(steps[4].structure == Structure::TargetIndex);
    let s: Vec<String> = steps.into_iter().map(|st| st.sql).collect();
    assert!(s[0].starts_with("CREATE TABLE IF NOT EXISTS notes ("));
    assert!(s[1].starts_with("CREATE VIRTUAL TABLE IF NOT EXISTS notes_fts USING fts5("));
    assert!(s[2].starts_with("CREATE TABLE IF NOT EXISTS note_links ("));
    assert_eq!(s[3], "CREATE INDEX IF NOT EXISTS idx_links_source ON note_links(source_note_path)");
    assert_eq!(s[4], "CREATE INDEX IF NOT EXISTS idx_links_target ON note_links(target_note_path)");
}

#[test]
fn upsert_statements_bind_all_fields() {
    let s = upsert_statements(&fields("dir/n_1.md"), "2024-01-01T00:00:00+00:00");
    assert_eq!(s.len(), 3);
    assert_eq!(s[0].sql, upsert_sql());
    let got: Vec<String> = s[0].params.iter().map(text).collect();
    assert_eq!(
        got,
        vec![
            "note_dir_n%5F1.md",
            "dir/n_1.md",
            "Title",
            "Body",
            "{}",
            "[\"a\"]",
            "[]",
            "#7",
            "abc",
            "2024-01-01T00:00:00+00:00",
            "2024-01-01T00:00:00+00:00",
        ]
    );
    assert_eq!(s[1].sql, SHADOW_CLEAR_SQL);
    assert_eq!(s[2].sql, SHADOW_FILL_SQL);
    assert_eq!(text(&s[2].params[0]), "dir/n_1.md");
}

#[test]
fn upsert_sql_updates_all_but_created() {
    assert_eq!(
        upsert_sql(),
        "INSERT INTO notes (id, path, title, content, frontmatter, tags, aliases, word_count, checksum, created, updated) \
         VALUES (?, ?, ?, ?, ?, ?, ?, ?, ?, ?, ?) ON CONFLICT(path) DO UPDATE SET \
         title = excluded.title, content = excluded.content, frontmatter = excluded.frontmatter, \
         tags = excluded.tags, aliases = excluded.aliases, word_count = excluded.word_count, \
         checksum = excluded.checksum, updated = excluded.updated"
    );
}

#[test]
fn remove_statements_clear_shadow_then_row() {
    let s = remove_statements("x.md");
    assert_eq!(s.len(), 2);
    assert_eq!(s[0].sql, SHADOW_CLEAR_SQL);
    assert_eq!(s[1].sql, NOTE_DELETE_SQL);
    assert_eq!(text(&s[1].params[0]), "x.md");
}

#[test]
fn list_statement_builds_parameterized_filters() {
    let all = list_statement(NoteFilter::all());
    assert_eq!(all.sql, format!("{}{}", LIST_SELECT_SQL, LIST_ORDER_SQL));
    assert!(all.params.is_empty());
    let starred = list_statement(NoteFilter { starred: Some(true), template: None });
    assert_eq!(starred.sql, format!("{} WHERE is_starred = ?{}", LIST_SELECT_SQL, LIST_ORDER_SQL));
    assert_eq!(text(&starred.params[0]), "#1");
    let both = list_statement(NoteFilter { starred: Some(false), template: Some(true) });
    assert_eq!(
        both.sql,
        format!("{} WHERE is_starred = ? AND is_template = ?{}", LIST_SELECT_SQL, LIST_ORDER_SQL)
    );
    let got: Vec<String> = both.params.iter().map(text).collect();
    assert_eq!(got, vec!["#0", "#1"]);
    let tmpl = list_statement(NoteFilter { starred: None, template: Some(false) });
    assert_eq!(tmpl.sql, format!("{} WHERE is_template = ?{}", LIST_SELECT_SQL, LIST_ORDER_SQL));
}

#[test]
fn note_result_defaults_missing_columns() {
    let r = NoteResult::from_row(
        "id".to_string(),
        "p.md".to_string(),
        "T".to_string(),
        None,
        None,
        None,
        None,
        None,
        None,
        Some(3),
        2,
        5_000_000_000,
    );
    assert_eq!(r.created, "");
    assert_eq!(r.updated, "");
    assert_eq!(r.tags, "[]");
    assert_eq!(r.aliases, "[]");
    assert_eq!(r.word_count, 0);
    assert!(!r.is_starred);
    assert!(r.is_template);
    assert_eq!(r.link_count, 2);
    assert_eq!(r.backlink_count, i32::MAX);
}

#[test]
fn registry_keeps_first_pool_per_identifier() {
    let mut reg: PoolRegistry<u32> = PoolRegistry::new();
    let id = "/tmp/a.db".to_string();
    assert!(reg.get(&id).is_none());
    reg.register(id.clone(), 1);
    reg.register(id.clone(), 2);
    reg.register("/tmp/b.db".to_string(), 3);
    assert_eq!(reg.get(&id), Some(&1));
    assert_eq!(reg.get(&"/tmp/b.db".to_string()), Some(&3));
    assert!(reg.get(&"/tmp/c.db".to_string()).is_none());
}

#[test]
fn change_events_are_relative_and_slashed() {
    let e = change_event(ChangeKind::Create, "/vault", "/vault/a/b.md").unwrap();
    assert_eq!(e.event_type, "create");
    assert_eq!(e.path, "a/b.md");
    assert!(e.old_path.is_none());
    let e = change_event(ChangeKind::Modify, "/vault/", "/vault/b.md").unwrap();
    assert_eq!(e.event_type, "modify");
    assert_eq!(e.path, "b.md");
    let e = change_event(ChangeKind::Remove, "C:\\vault", "C:\\vault\\x\\y.md").unwrap();
    assert_eq!(e.event_type, "delete");
    assert_eq!(e.path, "x/y.md");
    assert!(change_event(ChangeKind::Other, "/vault", "/vault/a.md").is_none());
}

#[test]
fn relative_paths_outside_root_are_empty() {
    assert_eq!(relative_event_path("/vault", "/other/a.md"), "");
    assert_eq!(relative_event_path("/vault", "/vaulted/a.md"), "");
    assert_eq!(relative_event_path("/vault", "/vault"), "");
    assert_eq!(relative_event_path("", "a\\b"), "a/b");
}

#[test]
fn listed_entries_are_visible_notes_and_folders() {
    assert!(is_listed_entry(Some("notes"), true, false, None));
    assert!(is_listed_entry(Some("a.md"), false, true, Some("md")));
    assert!(!is_listed_entry(Some("a.txt"), false, true, Some("txt")));
    assert!(!is_listed_entry(Some(".git"), true, false, None));
    assert!(!is_listed_entry(Some(".hidden.md"), false, true, Some("md")));
    assert!(!is_listed_entry(None, true, false, None));
    assert!(!is_listed_entry(Some("a.md"), false, false, Some("md")));
}

fn names(v: &[FileTreeNode]) -> Vec<String> {
    v.iter().map(|n| n.name.clone()).collect()
}

#[test]
fn tree_lists_folders_first_then_by_name() {
    let v = vec![
        file_node("b.md".to_string(), "b.md".to_string()),
        folder_node("zeta".to_string(), "zeta".to_string(), vec![]),
        file_node("a.md".to_string(), "a.md".to_string()),
        folder_node("Alpha".to_string(), "Alpha".to_string(), vec![]),
        file_node("B.md".to_string(), "B.md".to_string()),
    ];
    let r = order_nodes(v);
    assert_eq!(names(&r), vec!["Alpha", "zeta", "B.md", "a.md", "b.md"]);
    assert_eq!(r[0].node_type, "folder");
    assert_eq!(r[4].node_type, "file");
}

#[test]
fn folder_node_orders_its_children() {
    let f = folder_node(
        "root".to_string(),
        "".to_string(),
        vec![
            file_node("b.md".to_string(), "b.md".to_string()),
            file_node("ab.md".to_string(), "ab.md".to_string()),
            folder_node("sub".to_string(), "sub".to_string(), vec![]),
        ],
    );
    let c = f.children.unwrap();
    assert_eq!(names(&c), vec!["sub", "ab.md", "b.md"]);
    assert!(order_nodes(vec![]).is_empty());
}


#[test]
fn error_messages_name_their_operation() {
    assert_eq!(IndexError::Connection("disk".to_string()).message(), "Failed to connect to database: disk");
    assert_eq!(IndexError::Schema(Structure::NotesTable, "x".to_string()).message(), "Failed to create notes table: x");
    assert_eq!(IndexError::Schema(Structure::FtsTable, "x".to_string()).message(), "Failed to create FTS table: x");
    assert_eq!(
        IndexError::Schema(Structure::LinksTable, "x".to_string()).message(),
        "Failed to create note_links table: x"
    );
    assert_eq!(IndexError::Schema(Structure::SourceIndex, "x".to_string()).message(), "Failed to create source index: x");
    assert_eq!(IndexError::Schema(Structure::TargetIndex, "x".to_string()).message(), "Failed to create target index: x");
    assert_eq!(IndexError::Index("a.md: full".to_string()).message(), "Failed to index note: a.md: full");
    assert_eq!(IndexError::Remove("a.md: busy".to_string()).message(), "Failed to remove note: a.md: busy");
    assert_eq!(IndexError::Query("bad".to_string()).message(), "Query failed: bad");
    assert_eq!(IndexError::Search("bad".to_string()).message(), "Search failed: bad");
}
