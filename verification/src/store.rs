use vstd::prelude::*;

use crate::error::LocatError;

verus! {

/// The count a table assigns to a code: the stored value, or zero where no
/// row exists.
pub open spec fn count_of(table: Map<Seq<char>, nat>, code: Seq<char>) -> nat {
    if table.contains_key(code) {
        table[code]
    } else {
        0
    }
}

/// One increment of `code`: a fresh row starts at 1, an existing row grows
/// by exactly 1.
pub open spec fn bumped(table: Map<Seq<char>, nat>, code: Seq<char>) -> Map<Seq<char>, nat> {
    table.insert(code, count_of(table, code) + 1)
}

/// `n` increments of `code` in a row.
pub open spec fn bumped_n(table: Map<Seq<char>, nat>, code: Seq<char>, n: nat) -> Map<
    Seq<char>,
    nat,
>
    decreases n,
{
    if n == 0 {
        table
    } else {
        bumped(bumped_n(table, code, (n - 1) as nat), code)
    }
}

/// A row listing agrees with a table when the codes are pairwise distinct,
/// every row is a table entry with a count of at least 1, and every table
/// entry appears among the rows. No order is guaranteed.
pub open spec fn rows_match(rows: Seq<(String, u64)>, table: Map<Seq<char>, nat>) -> bool {
    &&& forall|i: int, j: int|
        0 <= i < j < rows.len() ==> #[trigger] rows[i].0@ != #[trigger] rows[j].0@
    &&& forall|i: int|
        0 <= i < rows.len() ==> {
            &&& table.contains_key(#[trigger] rows[i].0@)
            &&& table[rows[i].0@] == rows[i].1
            &&& rows[i].1 >= 1
        }
    &&& forall|code: Seq<char>|
        #[trigger] table.contains_key(code) ==> exists|i: int|
            0 <= i < rows.len() && #[trigger] rows[i].0@ == code
}

/// The durable per-country request counter store: one table in a file-backed
/// embedded database, keyed by country code. The ghost `table` stands for
/// the rows of the backing file, which this store owns exclusively; every
/// operation opens its own scoped connection and ensures the schema first,
/// so the store heals itself if the file disappears between calls.
pub struct Db {
    path: String,
    table: Ghost<Map<Seq<char>, nat>>,
}

impl Db {
    /// The rows of the backing file, as a map from country code to count.
    pub closed spec fn table(self) -> Map<Seq<char>, nat> {
        self.table@
    }

    /// The path of the backing file.
    pub closed spec fn path_view(self) -> Seq<char> {
        self.path@
    }

    /// Makes a handle for the counter file at `path`. The file is only
    /// touched by the operations, so nothing is known of the table yet: the
    /// ghost rows are an arbitrary stand-in for whatever the file holds,
    /// which also covers re-opening a file written before.
    pub fn new(path: String) -> (db: Db)
        ensures
            db.path_view() == path@,
    {
        Db { path, table: Ghost(arbitrary()) }
    }

    /// Models a process restart: gives up this handle and hands back a
    /// fresh one on the same backing file. The rows live in the file, not
    /// in the handle, so the new handle sees exactly the counts written
    /// before — durability across restarts.
    pub fn reopen(self) -> (db: Db)
        ensures
            db.path_view() == self.path_view(),
            db.table() == self.table(),
    {
        Db { path: self.path, table: self.table }
    }

    /// Relies on rusqlite's `Connection::open` and `Connection::execute`:
    /// opens the counter file, ensures the one-table schema idempotently
    /// (`CREATE TABLE IF NOT EXISTS`), and runs the single atomic upsert
    /// `INSERT ... ON CONFLICT (iso_code) DO UPDATE SET count = count + 1`.
    /// The statement either commits the one-row change or, on any failure,
    /// leaves the rows as they were; the storage layer serializes writers,
    /// so no concurrent increment is lost.
    #[verifier::external_body]
    fn upsert_row(&mut self, iso_code: &str) -> (r: Result<(), String>)
        ensures
            r is Ok ==> final(self).table() == bumped(old(self).table(), iso_code@),
            r is Err ==> final(self).table() == old(self).table(),
            final(self).path_view() == old(self).path_view(),
    {
        let run = rusqlite::Connection::open(&self.path).and_then(|conn| {
            conn.execute("CREATE TABLE IF NOT EXISTS analytics (iso_code TEXT PRIMARY KEY, count INTEGER NOT NULL)", [])?;
            conn.execute("INSERT INTO analytics (iso_code, count) VALUES (?, 1) ON CONFLICT (iso_code) DO UPDATE SET count = count + 1", [iso_code])
        });
        match run { Ok(_) => Ok(()), Err(e) => Err(format!("{e}")) }
    }

    /// Relies on rusqlite's `Connection::open`, `Connection::execute`,
    /// `Connection::prepare`, `Statement::query`, `Rows::next` and
    /// `Row::get`: reads every row of the counter table. The primary key
    /// makes the codes pairwise distinct, and rows only ever enter the
    /// table through the upsert above — created at 1 and grown by 1 — so
    /// every returned count is at least 1.
    #[verifier::external_body]
    fn select_rows(&self) -> (r: Result<Vec<(String, u64)>, String>)
        ensures
            r matches Ok(rows) ==> rows_match(rows@, self.table()),
    {
        let run = rusqlite::Connection::open(&self.path).and_then(|conn| {
            conn.execute("CREATE TABLE IF NOT EXISTS analytics (iso_code TEXT PRIMARY KEY, count INTEGER NOT NULL)", [])?;
            let mut stmt = conn.prepare("SELECT iso_code, count FROM analytics")?;
            let mut rows = stmt.query([])?;
            let mut out = Vec::new();
            while let Some(row) = rows.next()? {
                let count: i64 = row.get(1)?;
                let count = u64::try_from(count).map_err(|_| rusqlite::Error::IntegralValueOutOfRange(1, count))?;
                out.push((row.get(0)?, count));
            }
            Ok(out)
        });
        match run { Ok(v) => Ok(v), Err(e) => Err(format!("{e}")) }
    }

    /// Inserts a fresh row with count 1 for `iso_code`, or grows the
    /// existing row by exactly 1, as one atomic operation; on failure the
    /// rows are unchanged and a write error is returned.
    pub fn increment(&mut self, iso_code: &str) -> (r: Result<(), LocatError>)
        requires
            iso_code@.len() > 0,
        ensures
            r is Ok ==> final(self).table() == bumped(old(self).table(), iso_code@),
            r matches Err(e) ==> final(self).table() == old(self).table() && e is StoreWrite,
            final(self).path_view() == old(self).path_view(),
    {
        match self.upsert_row(iso_code) {
            Ok(()) => Ok(()),
            Err(m) => Err(LocatError::StoreWrite(m)),
        }
    }

    /// Returns every stored (country code, count) row, in no guaranteed
    /// order: the codes are pairwise distinct, every count is at least 1,
    /// and the rows are exactly the table's entries.
    pub fn list(&self) -> (r: Result<Vec<(String, u64)>, LocatError>)
        ensures
            r matches Ok(rows) ==> rows_match(rows@, self.table()),
            r matches Err(e) ==> e is StoreRead,
    {
        match self.select_rows() {
            Ok(v) => Ok(v),
            Err(m) => Err(LocatError::StoreRead(m)),
        }
    }
}

/// A sequence of `n` increments of one code adds exactly `n` to that code's
/// count and leaves every other code's count unchanged.
pub proof fn lemma_increment_accumulates(table: Map<Seq<char>, nat>, code: Seq<char>, n: nat)
    ensures
        count_of(bumped_n(table, code, n), code) == count_of(table, code) + n,
        forall|other: Seq<char>|
            other != code ==> #[trigger] count_of(bumped_n(table, code, n), other) == count_of(
                table,
                other,
            ),
    decreases n,
{
    if n > 0 {
        lemma_increment_accumulates(table, code, (n - 1) as nat);
        assert forall|other: Seq<char>| other != code implies #[trigger] count_of(
            bumped_n(table, code, n),
            other,
        ) == count_of(table, other) by {
            assert(count_of(bumped_n(table, code, (n - 1) as nat), other) == count_of(
                table,
                other,
            ));
        }
    }
}

/// Counters only ever move forward: an increment of any code decreases no
/// code's count.
pub proof fn lemma_bump_monotonic(table: Map<Seq<char>, nat>, code: Seq<char>)
    ensures
        forall|other: Seq<char>|
            #[trigger] count_of(bumped(table, code), other) >= count_of(table, other),
{
}

/// Incrementing a code not yet in the table twice yields a count of exactly
/// 2: the increment is idempotent in effect-count only, never in value.
pub proof fn lemma_fresh_code_twice(table: Map<Seq<char>, nat>, code: Seq<char>)
    requires
        !table.contains_key(code),
    ensures
        count_of(bumped(bumped(table, code), code), code) == 2,
{
}

/// A listing that agrees with a table never holds a count of zero or a
/// duplicate country code.
pub proof fn lemma_listing_sound(rows: Seq<(String, u64)>, table: Map<Seq<char>, nat>)
    requires
        rows_match(rows, table),
    ensures
        forall|i: int| 0 <= i < rows.len() ==> #[trigger] rows[i].1 >= 1,
        forall|i: int, j: int|
            0 <= i < j < rows.len() ==> #[trigger] rows[i].0@ != #[trigger] rows[j].0@,
{
    assert forall|i: int| 0 <= i < rows.len() implies #[trigger] rows[i].1 >= 1 by {
        assert(table.contains_key(rows[i].0@));
    }
}

} // verus!
