use rustpad_server::database::{
    Counted, Database, Executed, Fetched, LoadError, Progress, Statement, StepOutcome, StoreError,
};
use rustpad_server::document::PersistedDocument;
use rustpad_server::table::DocumentTable;

fn ready_database() -> Database {
    let mut startup = Database::new("postgres://localhost/rustpad");
    loop {
        match startup.advance(StepOutcome::Succeeded) {
            Progress::Continue(next) => startup = next,
            Progress::Ready(database) => return database,
            Progress::Failed(error) => panic!("startup failed: {:?}", error),
        }
    }
}

fn store(db: &Database, table: &mut DocumentTable, id: &str, document: &PersistedDocument) -> Result<(), StoreError> {
    let statement = db.store(id, document);
    db.stored(table.execute(&statement))
}

fn load(db: &Database, table: &DocumentTable, id: &str) -> Result<PersistedDocument, LoadError> {
    let statement = db.load(id);
    db.loaded(table.fetch_one(&statement))
}

fn count(db: &Database, table: &DocumentTable) -> Result<usize, StoreError> {
    let statement = db.count();
    db.counted(table.fetch_count(&statement))
}

#[test]
fn store_then_load_returns_the_document() {
    let db = ready_database();
    let mut table = DocumentTable::new();
    let document = PersistedDocument::new("hello", Some("rust"));
    assert_eq!(store(&db, &mut table, "abc", &document), Ok(()));
    let loaded = load(&db, &table, "abc").unwrap();
    assert_eq!(loaded.text, "hello");
    assert_eq!(loaded.language, Some(String::from("rust")));
    assert_eq!(loaded, document);
}

#[test]
fn storing_twice_overwrites_text_and_language() {
    let db = ready_database();
    let mut table = DocumentTable::new();
    let first = PersistedDocument::new("fn main() {}", Some("rust"));
    let second = PersistedDocument::new("print('hi')", None);
    assert_eq!(store(&db, &mut table, "abc", &first), Ok(()));
    assert_eq!(store(&db, &mut table, "abc", &second), Ok(()));
    let loaded = load(&db, &table, "abc").unwrap();
    assert_eq!(loaded.text, "print('hi')");
    assert_eq!(loaded.language, None);

    let third = PersistedDocument::new("", Some(""));
    assert_eq!(store(&db, &mut table, "abc", &third), Ok(()));
    let loaded = load(&db, &table, "abc").unwrap();
    assert_eq!(loaded.text, "");
    assert_eq!(loaded.language, Some(String::new()));
}

#[test]
fn absent_language_is_not_the_empty_string() {
    let absent = PersistedDocument::new("x", None);
    let empty = PersistedDocument::new("x", Some(""));
    assert_ne!(absent, empty);
    let db = ready_database();
    let mut table = DocumentTable::new();
    assert_eq!(store(&db, &mut table, "a", &absent), Ok(()));
    assert_eq!(store(&db, &mut table, "b", &empty), Ok(()));
    assert_eq!(load(&db, &table, "a").unwrap().language, None);
    assert_eq!(load(&db, &table, "b").unwrap().language, Some(String::new()));
}

#[test]
fn loading_an_unknown_id_is_not_found() {
    let db = ready_database();
    let mut table = DocumentTable::new();
    assert_eq!(load(&db, &table, "abc"), Err(LoadError::NotFound));
    let document = PersistedDocument::new("hello", None);
    assert_eq!(store(&db, &mut table, "abc", &document), Ok(()));
    assert_eq!(load(&db, &table, "abd"), Err(LoadError::NotFound));
    assert_eq!(load(&db, &table, ""), Err(LoadError::NotFound));
    assert_eq!(load(&db, &table, "ABC"), Err(LoadError::NotFound));
}

#[test]
fn storing_one_id_leaves_the_others() {
    let db = ready_database();
    let mut table = DocumentTable::new();
    let one = PersistedDocument::new("one", Some("text"));
    let two = PersistedDocument::new("two", None);
    assert_eq!(store(&db, &mut table, "1", &one), Ok(()));
    assert_eq!(store(&db, &mut table, "2", &two), Ok(()));
    let changed = PersistedDocument::new("uno", None);
    assert_eq!(store(&db, &mut table, "1", &changed), Ok(()));
    assert_eq!(load(&db, &table, "2"), Ok(two));
    assert_eq!(load(&db, &table, "1"), Ok(changed));
}

#[test]
fn count_is_the_number_of_distinct_ids() {
    let db = ready_database();
    let mut table = DocumentTable::new();
    assert_eq!(count(&db, &table), Ok(0));
    let ids = ["a", "b", "c", "d", "e"];
    for (n, id) in ids.iter().enumerate() {
        let document = PersistedDocument::new(id, None);
        assert_eq!(store(&db, &mut table, id, &document), Ok(()));
        assert_eq!(count(&db, &table), Ok(n + 1));
    }
    for round in 0..4 {
        let document = PersistedDocument::new(&format!("round {}", round), Some("md"));
        assert_eq!(store(&db, &mut table, "c", &document), Ok(()));
        assert_eq!(count(&db, &table), Ok(5));
    }
    assert_eq!(load(&db, &table, "c").unwrap().text, "round 3");
}

#[test]
fn an_upsert_that_touches_no_row_is_a_store_error() {
    let db = ready_database();
    let mut table = DocumentTable::new();
    let committed = PersistedDocument::new("committed", Some("rust"));
    assert_eq!(store(&db, &mut table, "abc", &committed), Ok(()));

    // The fault: the statement is swallowed and reports no row.
    let _lost = db.store("abc", &PersistedDocument::new("lost", None));
    assert_eq!(
        db.stored(Executed::Done { rows_affected: 0 }),
        Err(StoreError::RowCount(0))
    );
    assert_eq!(load(&db, &table, "abc"), Ok(committed));
    assert_eq!(count(&db, &table), Ok(1));
}

#[test]
fn an_upsert_that_touches_several_rows_is_a_store_error() {
    let db = ready_database();
    let mut table = DocumentTable::new();
    let committed = PersistedDocument::new("committed", None);
    assert_eq!(store(&db, &mut table, "abc", &committed), Ok(()));
    assert_eq!(
        db.stored(Executed::Done { rows_affected: 2 }),
        Err(StoreError::RowCount(2))
    );
    assert_eq!(
        db.stored(Executed::Done { rows_affected: u64::MAX }),
        Err(StoreError::RowCount(u64::MAX))
    );
    assert_eq!(load(&db, &table, "abc"), Ok(committed));
}

#[test]
fn exactly_one_row_is_a_successful_store() {
    let db = ready_database();
    assert_eq!(db.stored(Executed::Done { rows_affected: 1 }), Ok(()));
}

#[test]
fn a_failed_statement_is_a_store_error_with_its_cause() {
    let db = ready_database();
    assert_eq!(
        db.stored(Executed::Failed(String::from("connection reset"))),
        Err(StoreError::Query(String::from("connection reset")))
    );
    assert_eq!(
        db.loaded(Fetched::Failed(String::from("pool timed out"))),
        Err(LoadError::Store(StoreError::Query(String::from("pool timed out"))))
    );
    assert_eq!(
        db.counted(Counted::Failed(String::from("relation missing"))),
        Err(StoreError::Query(String::from("relation missing")))
    );
}

#[test]
fn fetch_replies_are_told_apart() {
    let db = ready_database();
    let document = PersistedDocument::new("body", Some("go"));
    assert_eq!(db.loaded(Fetched::Row(document.clone())), Ok(document));
    assert_eq!(db.loaded(Fetched::NoRow), Err(LoadError::NotFound));
}

#[test]
fn count_reply_becomes_a_usize() {
    let db = ready_database();
    assert_eq!(db.counted(Counted::Rows(0)), Ok(0));
    assert_eq!(db.counted(Counted::Rows(7)), Ok(7));
    assert_eq!(db.counted(Counted::Rows(1_000_000)), Ok(1_000_000));
}

#[test]
fn a_negative_count_wraps_as_the_cast_does() {
    let db = ready_database();
    assert_eq!(db.counted(Counted::Rows(-1)), Ok(usize::MAX));
    assert_eq!(db.counted(Counted::Rows(-1)), Ok(-1i64 as usize));
}

#[test]
fn store_error_messages() {
    assert_eq!(
        StoreError::RowCount(0).message(),
        "expected store() to receive 1 row affected, but it affected 0 rows instead"
    );
    assert_eq!(
        StoreError::RowCount(2).message(),
        "expected store() to receive 1 row affected, but it affected 2 rows instead"
    );
    assert_eq!(
        StoreError::RowCount(18446744073709551615).message(),
        "expected store() to receive 1 row affected, but it affected 18446744073709551615 rows instead"
    );
    assert_eq!(StoreError::Query(String::from("boom")).message(), "boom");
}

#[test]
fn statements_carry_their_sql_and_binds() {
    let db = ready_database();
    let load = db.load("abc");
    assert_eq!(load, Statement::Select { id: String::from("abc") });
    assert_eq!(load.sql(), "SELECT text, language FROM document WHERE id = $1");
    assert_eq!(load.binds(), vec![Some(String::from("abc"))]);

    let document = PersistedDocument::new("hello", None);
    let store = db.store("abc", &document);
    assert_eq!(
        store,
        Statement::Upsert { id: String::from("abc"), document: document.clone() }
    );
    assert_eq!(
        store.sql(),
        "INSERT INTO document (id, text, language) VALUES ($1, $2, $3) ON CONFLICT(id) DO UPDATE SET text = excluded.text, language = excluded.language"
    );
    assert_eq!(
        store.binds(),
        vec![Some(String::from("abc")), Some(String::from("hello")), None]
    );
    let with_language = db.store("x", &PersistedDocument::new("t", Some("rust")));
    assert_eq!(
        with_language.binds(),
        vec![Some(String::from("x")), Some(String::from("t")), Some(String::from("rust"))]
    );

    let count = db.count();
    assert_eq!(count, Statement::Count);
    assert_eq!(count.sql(), "SELECT count(*) FROM document");
    assert!(count.binds().is_empty());

    assert_eq!(Statement::Probe.sql(), "SELECT 1");
    assert_eq!(
        Statement::EnsureSchema.sql(),
        "CREATE TABLE IF NOT EXISTS document (id TEXT PRIMARY KEY, text TEXT NOT NULL, language TEXT)"
    );
    assert_eq!(Statement::CheckTable.sql(), "SELECT COUNT(*) FROM document");
    assert!(Statement::Probe.binds().is_empty());
}

#[test]
fn the_table_answers_each_statement_in_one_way_only() {
    let db = ready_database();
    let mut table = DocumentTable::new();
    let document = PersistedDocument::new("hello", None);
    assert_eq!(store(&db, &mut table, "abc", &document), Ok(()));

    assert!(matches!(table.execute(&db.load("abc")), Executed::Failed(_)));
    assert!(matches!(table.execute(&db.count()), Executed::Failed(_)));
    assert!(matches!(table.execute(&Statement::Probe), Executed::Failed(_)));
    assert!(matches!(table.fetch_one(&db.count()), Fetched::Failed(_)));
    assert!(matches!(table.fetch_one(&db.store("abc", &document)), Fetched::Failed(_)));
    assert!(matches!(table.fetch_count(&db.load("abc")), Counted::Failed(_)));
    assert_eq!(table.fetch_count(&db.count()), Counted::Rows(1));
    assert_eq!(table.fetch_one(&db.load("abc")), Fetched::Row(document));
    assert_eq!(table.fetch_one(&db.load("nope")), Fetched::NoRow);
}

#[test]
fn a_clone_is_equal_to_the_document() {
    let with = PersistedDocument::new("text", Some("lang"));
    let without = PersistedDocument::new("text", None);
    assert_eq!(with.clone(), with);
    assert_eq!(without.clone(), without);
    assert_ne!(with, without);
}
