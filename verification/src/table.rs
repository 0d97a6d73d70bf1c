//! The document table as the store expects it to behave, held in memory.
//!
//! The store's statements are meant for a table keyed by document id in which an
//! upsert leaves exactly one row per id. This module states that behaviour as
//! functions on a map from id to document, and offers a table in memory that
//! answers the statements accordingly: a backend for running the store where no
//! database server is at hand.

use vstd::prelude::*;
use vstd::string::*;
use crate::database::{
    count_verdict, load_verdict, store_verdict, Counted, Executed, Fetched, LoadError, Statement,
    StatementView, StoreError,
};
use crate::document::{DocumentView, PersistedDocument};

verus! {

/// The table after `statement` was executed on it: an upsert puts the whole
/// document under its id, replacing what was there; nothing else changes it.
pub open spec fn table_after(
    table: Map<Seq<char>, DocumentView>,
    statement: StatementView,
) -> Map<Seq<char>, DocumentView> {
    match statement {
        StatementView::Upsert { id, document } => table.insert(id, document),
        _ => table,
    }
}

/// Whether `reply` is the table's answer to executing `statement`: an upsert
/// touches exactly one row; no other statement is executed here.
pub open spec fn answers_execute(statement: StatementView, reply: Executed) -> bool {
    match statement {
        StatementView::Upsert { .. } => reply == (Executed::Done { rows_affected: 1 }),
        _ => reply is Failed,
    }
}

/// Whether `reply` is the table's answer to fetching one row with `statement`:
/// the document under the id, or no row where the id was never stored.
pub open spec fn answers_fetch(
    table: Map<Seq<char>, DocumentView>,
    statement: StatementView,
    reply: Fetched,
) -> bool {
    match statement {
        StatementView::Select { id } => if table.dom().contains(id) {
            reply matches Fetched::Row(document) && document@ == table[id]
        } else {
            reply == Fetched::NoRow
        },
        _ => reply is Failed,
    }
}

/// Whether `reply` is the table's answer to counting with `statement`: the
/// number of ids stored, where the reply can hold it.
pub open spec fn answers_count(
    table: Map<Seq<char>, DocumentView>,
    statement: StatementView,
    reply: Counted,
) -> bool {
    match statement {
        StatementView::Count => if table.dom().len() <= i64::MAX {
            reply == Counted::Rows(table.dom().len() as i64)
        } else {
            reply is Failed
        },
        _ => reply is Failed,
    }
}

/// One row of the table.
struct Row {
    id: String,
    document: PersistedDocument,
}

/// The id of the row at `i`.
spec fn id_at(rows: Seq<Row>, i: int) -> Seq<char> {
    rows[i].id@
}

/// No two rows have the same id.
spec fn distinct_ids(rows: Seq<Row>) -> bool {
    forall|i: int, j: int|
        0 <= i < j < rows.len() ==> #[trigger] id_at(rows, i) != #[trigger] id_at(rows, j)
}

/// The map that the rows stand for; a later row wins over an earlier one.
spec fn rows_model(rows: Seq<Row>) -> Map<Seq<char>, DocumentView>
    decreases rows.len(),
{
    if rows.len() == 0 {
        Map::empty()
    } else {
        rows_model(rows.drop_last()).insert(rows.last().id@, rows.last().document@)
    }
}

/// The ids of the map are the ids of the rows, and there are finitely many.
proof fn lemma_model_domain(rows: Seq<Row>)
    ensures
        rows_model(rows).dom().finite(),
        forall|id: Seq<char>| #[trigger]
            rows_model(rows).dom().contains(id) <==> exists|i: int|
                0 <= i < rows.len() && #[trigger] id_at(rows, i) == id,
    decreases rows.len(),
{
    if rows.len() > 0 {
        let front = rows.drop_last();
        lemma_model_domain(front);
        assert forall|id: Seq<char>| #[trigger]
            rows_model(rows).dom().contains(id) <==> exists|i: int|
                0 <= i < rows.len() && #[trigger] id_at(rows, i) == id by {
            if rows_model(rows).dom().contains(id) {
                if id == rows.last().id@ {
                    assert(id_at(rows, rows.len() - 1) == id);
                } else {
                    let i = choose|i: int| 0 <= i < front.len() && #[trigger] id_at(front, i) == id;
                    assert(id_at(rows, i) == id);
                }
            }
            if exists|i: int| 0 <= i < rows.len() && #[trigger] id_at(rows, i) == id {
                let i = choose|i: int| 0 <= i < rows.len() && #[trigger] id_at(rows, i) == id;
                if i < front.len() {
                    assert(id_at(front, i) == id);
                }
            }
        }
    }
}

/// With distinct ids, the map holds each row's document under its id, and as
/// many ids as there are rows.
proof fn lemma_model_rows(rows: Seq<Row>)
    requires
        distinct_ids(rows),
    ensures
        rows_model(rows).dom().len() == rows.len(),
        forall|i: int|
            0 <= i < rows.len() ==> rows_model(rows).dom().contains(#[trigger] id_at(rows, i))
                && rows_model(rows)[id_at(rows, i)] == rows[i].document@,
    decreases rows.len(),
{
    if rows.len() > 0 {
        let front = rows.drop_last();
        let last = rows.len() - 1;
        assert forall|i: int, j: int| 0 <= i < j < front.len() implies #[trigger] id_at(front, i)
            != #[trigger] id_at(front, j) by {
            assert(id_at(rows, i) != id_at(rows, j));
        }
        lemma_model_rows(front);
        lemma_model_domain(front);
        assert(!rows_model(front).dom().contains(rows.last().id@)) by {
            if rows_model(front).dom().contains(rows.last().id@) {
                let i = choose|i: int|
                    0 <= i < front.len() && #[trigger] id_at(front, i) == rows.last().id@;
                assert(id_at(rows, i) != id_at(rows, last));
            }
        }
        assert forall|i: int| 0 <= i < rows.len() implies rows_model(rows).dom().contains(
            #[trigger] id_at(rows, i),
        ) && rows_model(rows)[id_at(rows, i)] == rows[i].document@ by {
            if i < last {
                assert(id_at(front, i) == id_at(rows, i));
            }
        }
    }
}

/// Putting another document in the place of the row at `at`, under the same
/// id, is an upsert of that id on the map, and keeps the ids distinct.
proof fn lemma_model_replace(rows: Seq<Row>, at: int, row: Row)
    requires
        distinct_ids(rows),
        0 <= at < rows.len(),
        row.id@ == rows[at].id@,
    ensures
        distinct_ids(rows.update(at, row)),
        rows_model(rows.update(at, row)) == rows_model(rows).insert(row.id@, row.document@),
    decreases rows.len(),
{
    let changed = rows.update(at, row);
    assert forall|i: int, j: int| 0 <= i < j < changed.len() implies #[trigger] id_at(changed, i)
        != #[trigger] id_at(changed, j) by {
        assert(id_at(rows, i) != id_at(rows, j));
    }
    let front = rows.drop_last();
    let last = rows.len() - 1;
    if at == last {
        assert(changed.drop_last() =~= front);
    } else {
        assert forall|i: int, j: int| 0 <= i < j < front.len() implies #[trigger] id_at(front, i)
            != #[trigger] id_at(front, j) by {
            assert(id_at(rows, i) != id_at(rows, j));
        }
        lemma_model_replace(front, at, row);
        assert(changed.drop_last() =~= front.update(at, row));
        assert(id_at(rows, at) != id_at(rows, last));
    }
}

/// A document table in memory: one row per id, in the order the ids first came.
pub struct DocumentTable {
    rows: Vec<Row>,
}

impl View for DocumentTable {
    type V = Map<Seq<char>, DocumentView>;

    closed spec fn view(&self) -> Map<Seq<char>, DocumentView> {
        rows_model(self.rows@)
    }
}

impl DocumentTable {
    /// The table's invariant: it holds one row per id. Every table that
    /// `new` made and `execute` changed has it.
    pub closed spec fn well_formed(&self) -> bool {
        distinct_ids(self.rows@)
    }

    /// An empty table.
    pub fn new() -> (table: DocumentTable)
        ensures
            table.well_formed(),
            table@ == Map::<Seq<char>, DocumentView>::empty(),
            table@.dom().finite(),
    {
        DocumentTable { rows: Vec::new() }
    }

    /// Where the row with this id is, if there is one.
    fn position(&self, id: &String) -> (found: Option<usize>)
        ensures
            match found {
                Some(i) => i < self.rows@.len() && id_at(self.rows@, i as int) == id@,
                None => forall|i: int|
                    0 <= i < self.rows@.len() ==> #[trigger] id_at(self.rows@, i) != id@,
            },
    {
        let mut i: usize = 0;
        while i < self.rows.len()
            invariant
                i <= self.rows@.len(),
                forall|k: int| 0 <= k < i ==> #[trigger] id_at(self.rows@, k) != id@,
            decreases self.rows@.len() - i,
        {
            if self.rows[i].id == *id {
                return Some(i);
            }
            i = i + 1;
        }
        None
    }

    /// Executes `statement` on the table. An upsert stores the whole document
    /// under its id and reports one row; any other statement is refused and
    /// changes nothing.
    pub fn execute(&mut self, statement: &Statement) -> (reply: Executed)
        requires
            old(self).well_formed(),
        ensures
            final(self).well_formed(),
            final(self)@ == table_after(old(self)@, statement@),
            final(self)@.dom().finite(),
            answers_execute(statement@, reply),
    {
        proof {
            lemma_model_domain(self.rows@);
        }
        match statement {
            Statement::Upsert { id, document } => {
                let row = Row { id: id.clone(), document: document.clone() };
                match self.position(id) {
                    Some(at) => {
                        proof {
                            lemma_model_replace(self.rows@, at as int, row);
                        }
                        self.rows.set(at, row);
                    },
                    None => {
                        let ghost before = self.rows@;
                        assert forall|i: int, j: int|
                            0 <= i < j < before.push(row).len() implies #[trigger] id_at(
                            before.push(row),
                            i,
                        ) != #[trigger] id_at(before.push(row), j) by {
                            if j < before.len() {
                                assert(id_at(before, i) != id_at(before, j));
                            } else {
                                assert(id_at(before, i) != id@);
                            }
                        }
                        assert(before.push(row).drop_last() =~= before);
                        self.rows.push(row);
                    },
                }
                Executed::Done { rows_affected: 1 }
            },
            _ => Executed::Failed(String::from_str("the table executes upserts only")),
        }
    }

    /// Fetches the one row that `statement` selects: the document stored under
    /// the id, or no row. Any statement but a select is refused.
    pub fn fetch_one(&self, statement: &Statement) -> (reply: Fetched)
        requires
            self.well_formed(),
        ensures
            answers_fetch(self@, statement@, reply),
    {
        proof {
            lemma_model_rows(self.rows@);
            lemma_model_domain(self.rows@);
        }
        match statement {
            Statement::Select { id } => match self.position(id) {
                Some(at) => Fetched::Row(self.rows[at].document.clone()),
                None => Fetched::NoRow,
            },
            _ => Fetched::Failed(String::from_str("the table fetches rows for selects only")),
        }
    }

    /// Answers the count statement with the number of ids stored. Any other
    /// statement is refused, and so is a count that the reply cannot hold.
    pub fn fetch_count(&self, statement: &Statement) -> (reply: Counted)
        requires
            self.well_formed(),
        ensures
            answers_count(self@, statement@, reply),
    {
        proof {
            lemma_model_rows(self.rows@);
        }
        match statement {
            Statement::Count => {
                let rows: u64 = self.rows.len() as u64;
                if rows <= 0x7fff_ffff_ffff_ffff {
                    Counted::Rows(rows as i64)
                } else {
                    Counted::Failed(String::from_str("the count does not fit the reply"))
                }
            },
            _ => Counted::Failed(String::from_str("the table counts for the count statement only")),
        }
    }
}

/// The table that storing `entries` in order, each an id with its document,
/// makes of an empty one.
pub open spec fn table_of_stores(entries: Seq<(Seq<char>, DocumentView)>) -> Map<
    Seq<char>,
    DocumentView,
>
    decreases entries.len(),
{
    if entries.len() == 0 {
        Map::empty()
    } else {
        table_after(
            table_of_stores(entries.drop_last()),
            StatementView::Upsert { id: entries.last().0, document: entries.last().1 },
        )
    }
}

/// Storing a document and then loading its id gives exactly that document,
/// text and language, whatever the table held before.
pub proof fn law_load_gives_what_was_stored(
    table: Map<Seq<char>, DocumentView>,
    id: Seq<char>,
    document: DocumentView,
    fetched: Fetched,
)
    requires
        answers_fetch(
            table_after(table, StatementView::Upsert { id, document }),
            StatementView::Select { id },
            fetched,
        ),
    ensures
        load_verdict(fetched) matches Ok(loaded) && loaded@ == document,
{
}

/// Storing twice under one id overwrites fully: the table is as if only the
/// later document had been stored, and a load gives the later text and the
/// later language, an absent language included. Nothing of the earlier one is
/// merged in.
pub proof fn law_store_overwrites(
    table: Map<Seq<char>, DocumentView>,
    id: Seq<char>,
    earlier: DocumentView,
    later: DocumentView,
    fetched: Fetched,
)
    requires
        answers_fetch(
            table_after(
                table_after(table, StatementView::Upsert { id, document: earlier }),
                StatementView::Upsert { id, document: later },
            ),
            StatementView::Select { id },
            fetched,
        ),
    ensures
        table_after(
            table_after(table, StatementView::Upsert { id, document: earlier }),
            StatementView::Upsert { id, document: later },
        ) == table_after(table, StatementView::Upsert { id, document: later }),
        load_verdict(fetched) matches Ok(loaded) && loaded@.text == later.text && loaded@.language
            == later.language,
{
}

/// Storing under one id changes no other id: what a load of another id gives
/// is what it gave before.
pub proof fn law_store_leaves_other_ids(
    table: Map<Seq<char>, DocumentView>,
    id: Seq<char>,
    document: DocumentView,
    other: Seq<char>,
)
    requires
        other != id,
    ensures
        table_after(table, StatementView::Upsert { id, document }).dom().contains(other)
            == table.dom().contains(other),
        table.dom().contains(other) ==> table_after(
            table,
            StatementView::Upsert { id, document },
        )[other] == table[other],
{
}

/// Loading an id that was never stored is "not found": no document comes
/// back, not even an empty one.
pub proof fn law_never_stored_is_not_found(
    table: Map<Seq<char>, DocumentView>,
    id: Seq<char>,
    fetched: Fetched,
)
    requires
        !table.dom().contains(id),
        answers_fetch(table, StatementView::Select { id }, fetched),
    ensures
        load_verdict(fetched) == Err::<PersistedDocument, LoadError>(LoadError::NotFound),
{
}

/// After storing documents under pairwise different ids into an empty table,
/// the table holds as many documents as were stored.
pub proof fn law_count_of_distinct_ids(entries: Seq<(Seq<char>, DocumentView)>)
    requires
        forall|i: int, j: int| 0 <= i < j < entries.len() ==> entries[i].0 != entries[j].0,
    ensures
        table_of_stores(entries).dom().finite(),
        table_of_stores(entries).dom().len() == entries.len(),
        forall|id: Seq<char>| #[trigger]
            table_of_stores(entries).dom().contains(id) ==> exists|i: int|
                0 <= i < entries.len() && entries[i].0 == id,
    decreases entries.len(),
{
    if entries.len() > 0 {
        let front = entries.drop_last();
        let last = entries.len() - 1;
        law_count_of_distinct_ids(front);
        assert(!table_of_stores(front).dom().contains(entries.last().0)) by {
            if table_of_stores(front).dom().contains(entries.last().0) {
                let i = choose|i: int| 0 <= i < front.len() && front[i].0 == entries.last().0;
                assert(entries[i].0 != entries[last].0);
            }
        }
        assert forall|id: Seq<char>| #[trigger]
            table_of_stores(entries).dom().contains(id) implies exists|i: int|
            0 <= i < entries.len() && entries[i].0 == id by {
            if id == entries.last().0 {
                assert(entries[last].0 == id);
            } else {
                let i = choose|i: int| 0 <= i < front.len() && front[i].0 == id;
                assert(entries[i].0 == id);
            }
        }
    }
}

/// Storing again under an id that the table holds does not change how many
/// documents it holds, however often it is done.
pub proof fn law_count_unchanged_by_storing_again(
    table: Map<Seq<char>, DocumentView>,
    id: Seq<char>,
    document: DocumentView,
)
    requires
        table.dom().finite(),
        table.dom().contains(id),
    ensures
        table_after(table, StatementView::Upsert { id, document }).dom().finite(),
        table_after(table, StatementView::Upsert { id, document }).dom().len()
            == table.dom().len(),
{
}

/// Storing under an id that the table does not hold makes it hold one
/// document more.
pub proof fn law_count_grows_by_new_id(
    table: Map<Seq<char>, DocumentView>,
    id: Seq<char>,
    document: DocumentView,
)
    requires
        table.dom().finite(),
        !table.dom().contains(id),
    ensures
        table_after(table, StatementView::Upsert { id, document }).dom().finite(),
        table_after(table, StatementView::Upsert { id, document }).dom().len()
            == table.dom().len() + 1,
{
}

/// A count gives exactly the number of ids stored, where that number fits
/// both the reply and a `usize`.
pub proof fn law_count_reports_stored_ids(table: Map<Seq<char>, DocumentView>, reply: Counted)
    requires
        table.dom().len() <= i64::MAX,
        table.dom().len() <= usize::MAX,
        answers_count(table, StatementView::Count, reply),
    ensures
        count_verdict(reply) matches Ok(number) && number == table.dom().len(),
{
}

/// An upsert that reports any number of rows but one is a store error, though
/// the statement raised none; and the table, which that verdict does not touch,
/// still gives the document it held under the id.
pub proof fn law_miscounted_store_keeps_value(
    table: Map<Seq<char>, DocumentView>,
    id: Seq<char>,
    rows_affected: u64,
    fetched: Fetched,
)
    requires
        rows_affected != 1,
        table.dom().contains(id),
        answers_fetch(table, StatementView::Select { id }, fetched),
    ensures
        store_verdict(Executed::Done { rows_affected }) == Err::<(), StoreError>(
            StoreError::RowCount(rows_affected),
        ),
        load_verdict(fetched) matches Ok(loaded) && loaded@ == table[id],
{
}

} // verus!
