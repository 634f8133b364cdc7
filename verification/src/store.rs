//! The SQLite-backed application: a storage handle kept beside the verified
//! in-memory list, with every mutation written through before it is shown.

use vstd::prelude::*;

use crate::tasks::Task;
use crate::tasks::TaskList;
use crate::tasks::has_id;
use crate::tasks::remove_id;
use crate::text::is_blank;
use crate::text::is_blank_str;

verus! {

/// An error surfaced by the storage layer, carrying the storage engine's
/// message. Every storage failure is reported this way; the caller decides
/// whether it is fatal.
#[derive(Debug)]
pub struct StoreError {
    pub message: String,
}

#[verifier::external_type_specification]
#[verifier::external_body]
pub struct ExConnection(rusqlite::Connection);

#[verifier::external_type_specification]
#[verifier::external_body]
pub struct ExError(rusqlite::Error);

/// Relies on rusqlite::Error's Display impl: carries the storage engine's
/// message into the library's own error type.
#[verifier::external_body]
fn store_err(e: rusqlite::Error) -> (r: StoreError) {
    StoreError { message: e.to_string() }
}

/// Relies on rusqlite::Connection::open: opens the database file at `path`,
/// creating it if absent.
#[verifier::external_body]
fn open_file(path: &str) -> (r: Result<rusqlite::Connection, StoreError>) {
    rusqlite::Connection::open(path).map_err(store_err)
}

/// Relies on rusqlite::Connection::execute: runs the one statement it is
/// given; here that statement creates the task table if it does not exist,
/// never destructively.
#[verifier::external_body]
fn create_table(conn: &rusqlite::Connection) -> (r: Result<(), StoreError>) {
    conn.execute("CREATE TABLE IF NOT EXISTS app (id INTEGER PRIMARY KEY, name TEXT NOT NULL)", ())
        .map(|_| ())
        .map_err(store_err)
}

/// Relies on rusqlite::Connection::execute and last_insert_rowid: inserts one
/// row with the given name and returns the rowid SQLite assigned to it.
#[verifier::external_body]
fn insert_row(conn: &rusqlite::Connection, name: &str) -> (r: Result<i64, StoreError>) {
    match conn.execute("INSERT INTO app (name) VALUES (?1)", [name]) {
        Ok(_) => Ok(conn.last_insert_rowid()),
        Err(e) => Err(store_err(e)),
    }
}

/// Relies on rusqlite::Connection::execute: deletes every row whose id equals
/// the argument — at most one, since id is the table's primary key — and does
/// nothing when no row has it.
#[verifier::external_body]
fn delete_row(conn: &rusqlite::Connection, id: i64) -> (r: Result<(), StoreError>) {
    match conn.execute("DELETE FROM app WHERE id = ?1", [id]) {
        Ok(_) => Ok(()),
        Err(e) => Err(store_err(e)),
    }
}

/// Relies on rusqlite's Statement::query, Rows::next and Row::get: reads
/// every row of the task table, in storage order, as a task per row.
#[verifier::external_body]
fn select_rows(conn: &rusqlite::Connection) -> (r: Result<Vec<Task>, StoreError>) {
    let mut out: Vec<Task> = Vec::new();
    let mut stmt = conn.prepare("SELECT id, name FROM app").map_err(store_err)?;
    let mut rows = stmt.query(()).map_err(store_err)?;
    while let Some(row) = rows.next().map_err(store_err)? {
        out.push(Task { id: row.get(0).map_err(store_err)?, name: row.get(1).map_err(store_err)? });
    }
    Ok(out)
}

/// The application: the open storage handle and the displayed snapshot.
/// Every mutation is written to storage first and shown only once the write
/// succeeded, so the snapshot never shows a task the store refused.
pub struct TodoApp {
    conn: rusqlite::Connection,
    list: TaskList,
}

impl View for TodoApp {
    type V = Seq<Task>;

    closed spec fn view(&self) -> Seq<Task> {
        self.list@
    }
}

impl TodoApp {
    /// The displayed list never shows two tasks with one identifier.
    pub closed spec fn wf(&self) -> bool {
        self.list.wf()
    }

    /// Opens (creating if absent) the database file at `path`, ensures the
    /// task table exists, and loads the stored tasks as the first snapshot.
    /// Fails exactly when one of those storage operations fails.
    pub fn open(path: &str) -> (r: Result<TodoApp, StoreError>)
        ensures
            r matches Ok(app) ==> app.wf(),
    {
        let conn = open_file(path)?;
        create_table(&conn)?;
        let rows = select_rows(&conn)?;
        let list = TaskList::load(&rows);
        Ok(TodoApp { conn, list })
    }

    /// Submitting a name. A blank name is refused: nothing is written and
    /// nothing changes. Any other name is written to storage and, once the
    /// write succeeded, shown as one new task at the end of the list, under
    /// the fresh identifier storage assigned. `Ok(true)` says the task was
    /// added, `Ok(false)` that the name was blank; on `Err` the write (or the
    /// identifier storage handed back) failed and the list is unchanged.
    pub fn submit(&mut self, name: String) -> (r: Result<bool, StoreError>)
        requires
            old(self).wf(),
        ensures
            final(self).wf(),
            is_blank(name@) ==> (r matches Ok(added) && added == false
                && final(self)@ == old(self)@),
            !is_blank(name@) ==> match r {
                Ok(added) => added == true
                    && final(self)@.len() == old(self)@.len() + 1
                    && final(self)@.last().name == name
                    && !has_id(old(self)@, final(self)@.last().id)
                    && final(self)@.drop_last() == old(self)@,
                Err(_) => final(self)@ == old(self)@,
            },
    {
        if is_blank_str(name.as_str()) {
            return Ok(false);
        }
        let id = match insert_row(&self.conn, name.as_str()) {
            Ok(id) => id,
            Err(e) => return Err(e),
        };
        let r = self.record(id, name);
        proof {
            if r is Ok {
                assert(self.list@.drop_last() =~= old(self)@);
            }
        }
        r
    }

    /// Shows a non-blank task that storage just accepted. Under an identifier
    /// not yet displayed the task is appended at the end of the list and
    /// `Ok(true)` returned; an identifier already displayed is refused with
    /// the library's own error and no change, since the list never shows two
    /// tasks with one identifier.
    pub fn record(&mut self, id: i64, name: String) -> (r: Result<bool, StoreError>)
        requires
            old(self).wf(),
            !is_blank(name@),
        ensures
            final(self).wf(),
            has_id(old(self)@, id) ==> (r matches Err(_) && final(self)@ == old(self)@),
            !has_id(old(self)@, id) ==> (r matches Ok(added) && added == true
                && final(self)@ == old(self)@.push((Task { id, name }))),
    {
        if self.list.contains_id(id) {
            return Err(StoreError {
                message: String::from_str("storage assigned an identifier already displayed"),
            });
        }
        self.list.submit(id, name);
        Ok(true)
    }

    /// Deleting an identifier. On success exactly the task that carried it
    /// leaves the list and every other task stays, in order; an identifier no
    /// task carries changes nothing, as the delete statement then touches no
    /// row. `Ok(removed)` says whether a task left the list; on `Err` the
    /// write failed and the list is unchanged.
    pub fn delete(&mut self, id: i64) -> (r: Result<bool, StoreError>)
        requires
            old(self).wf(),
        ensures
            final(self).wf(),
            match r {
                Ok(removed) => final(self)@ == remove_id(old(self)@, id)
                    && removed == has_id(old(self)@, id)
                    && (removed ==> final(self)@.len() == old(self)@.len() - 1)
                    && (!removed ==> final(self)@ == old(self)@),
                Err(_) => final(self)@ == old(self)@,
            },
    {
        match delete_row(&self.conn, id) {
            Ok(_) => Ok(self.list.delete(id)),
            Err(e) => Err(e),
        }
    }

    /// Discards the snapshot and reloads every stored row, as the refresh
    /// cycle does after each mutation. Rows are shown in storage order; a row
    /// whose identifier is already displayed (impossible under the table's
    /// primary key) would be dropped to keep the list well formed. On failure
    /// the old snapshot stays.
    pub fn refresh(&mut self) -> (r: Result<(), StoreError>)
        requires
            old(self).wf(),
        ensures
            final(self).wf(),
            r matches Err(_) ==> final(self)@ == old(self)@,
    {
        let rows = match select_rows(&self.conn) {
            Ok(rows) => rows,
            Err(e) => return Err(e),
        };
        self.list = TaskList::load(&rows);
        Ok(())
    }

    /// How many tasks are displayed.
    pub fn count(&self) -> (n: usize)
        ensures
            n == self@.len(),
    {
        self.list.len()
    }

    /// Whether the list shows no task at all.
    pub fn is_empty(&self) -> (r: bool)
        ensures
            r == (self@.len() == 0),
    {
        self.list.is_empty()
    }

    /// The task at display position `i`.
    pub fn get(&self, i: usize) -> (t: &Task)
        requires
            i < self@.len(),
        ensures
            *t == self@[i as int],
    {
        self.list.get(i)
    }

    /// Whether some displayed task carries `id`.
    pub fn contains_id(&self, id: i64) -> (r: bool)
        ensures
            r == has_id(self@, id),
    {
        self.list.contains_id(id)
    }

    /// The line shown above the list region: the empty-state placeholder when
    /// no task exists, the list header otherwise.
    pub fn heading(&self) -> (r: &'static str)
        ensures
            self@.len() == 0 ==> r@ == "No tasks available. Add a task to get started!"@,
            self@.len() != 0 ==> r@ == "List of tasks"@,
    {
        if self.list.is_empty() {
            "No tasks available. Add a task to get started!"
        } else {
            "List of tasks"
        }
    }
}

} // verus!
