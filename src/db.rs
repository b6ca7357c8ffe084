//! The durable record store: credentials keyed by service, and a small
//! key/value meta table, both in one SQLite database.
use rusqlite::{Connection, Error, OptionalExtension};
use vstd::prelude::*;

verus! {

#[verifier::external_type_specification]
#[verifier::external_body]
pub struct ExConnection(Connection);

#[verifier::external_type_specification]
#[verifier::external_body]
pub struct ExError(Error);

/// The rows of the `records` table: service to (ciphertext, note). A missing
/// table holds no rows.
pub uninterp spec fn stored_records(conn: Connection) -> Map<Seq<char>, (Seq<char>, Seq<char>)>;

/// The rows of the `meta` table: key to value. A missing table holds no rows.
pub uninterp spec fn stored_meta(conn: Connection) -> Map<Seq<char>, Seq<char>>;

/// One stored credential. `pass` holds the ciphertext of the secret.
pub struct Entry {
    pub service: String,
    pub pass: String,
    pub note: String,
}

/// One entry of the meta table.
pub struct MetaEntry {
    pub key: String,
    pub value: String,
}

/// Whether both tables exist: `records(service PRIMARY KEY, secret, note)` and
/// `meta(key PRIMARY KEY, value)`.
pub uninterp spec fn has_schema(conn: Connection) -> bool;

/// A failure of the underlying database.
#[derive(Debug)]
pub struct StorageError {
    pub cause: Error,
}

/// The row an entry stands for.
pub open spec fn entry_row(e: Entry) -> (Seq<char>, Seq<char>) {
    (e.pass@, e.note@)
}

/// Relies on `Connection::execute_batch` running `CREATE TABLE IF NOT EXISTS`
/// for both tables: on success both exist; rows already stored are kept.
#[verifier::external_body]
fn create_tables(conn: &mut Connection) -> (r: Result<(), Error>)
    ensures
        r is Ok ==> has_schema(*final(conn)),
        stored_records(*final(conn)) == stored_records(*old(conn)),
        stored_meta(*final(conn)) == stored_meta(*old(conn)),
{
    conn.execute_batch(
        "CREATE TABLE IF NOT EXISTS records (
            service TEXT PRIMARY KEY, secret TEXT NOT NULL, note TEXT NOT NULL);
        CREATE TABLE IF NOT EXISTS meta (key TEXT PRIMARY KEY, value TEXT NOT NULL);",
    )
}

/// Relies on `Connection::query_row` with `OptionalExtension::optional`: the row
/// of `service`, if there is one.
#[verifier::external_body]
fn select_record(conn: &Connection, service: &str) -> (r: Result<Option<(String, String)>, Error>)
    ensures
        r matches Ok(o) ==> match o {
            Some(row) => stored_records(*conn).contains_key(service@) && stored_records(
                *conn,
            )[service@] == (row.0@, row.1@),
            None => !stored_records(*conn).contains_key(service@),
        },
{
    conn.query_row(
        "SELECT secret, note FROM records WHERE service = ?1",
        [service],
        |row| <(String, String)>::try_from(row),
    ).optional()
}

/// Relies on `Connection::execute` of an `INSERT`: on success the row is added;
/// a failed statement is rolled back.
#[verifier::external_body]
fn insert_record(conn: &mut Connection, service: &str, secret: &str, note: &str) -> (r: Result<
    usize,
    Error,
>)
    ensures
        has_schema(*final(conn)) == has_schema(*old(conn)),
        r is Ok ==> stored_records(*final(conn)) == stored_records(*old(conn)).insert(
            service@,
            (secret@, note@),
        ),
        r is Err ==> stored_records(*final(conn)) == stored_records(*old(conn)),
        stored_meta(*final(conn)) == stored_meta(*old(conn)),
{
    conn.execute(
        "INSERT INTO records (service, secret, note) VALUES (?1, ?2, ?3)",
        [service, secret, note],
    )
}

/// Relies on `Connection::execute` of a `DELETE` by primary key: on success the
/// row of `service` is gone; a failed statement is rolled back.
#[verifier::external_body]
fn delete_record(conn: &mut Connection, service: &str) -> (r: Result<usize, Error>)
    ensures
        has_schema(*final(conn)) == has_schema(*old(conn)),
        r is Ok ==> stored_records(*final(conn)) == stored_records(*old(conn)).remove(service@),
        r is Err ==> stored_records(*final(conn)) == stored_records(*old(conn)),
        stored_meta(*final(conn)) == stored_meta(*old(conn)),
{
    conn.execute("DELETE FROM records WHERE service = ?1", [service])
}

/// Relies on `Connection::prepare` and `Statement::query_map`: every service
/// in the table, once each, in the order SQLite returns them.
#[verifier::external_body]
fn select_services(conn: &Connection) -> (r: Result<Vec<String>, Error>)
    ensures
        r matches Ok(v) ==> lists_keys(v@.map_values(|s: String| s@), stored_records(*conn).dom()),
{
    let mut stmt = conn.prepare("SELECT service FROM records")?;
    let rows = stmt.query_map([], |row| row.get::<usize, String>(0))?;
    rows.collect()
}

/// Relies on `Connection::query_row` with `OptionalExtension::optional`: the
/// value under `key`, if there is one.
#[verifier::external_body]
fn select_meta(conn: &Connection, key: &str) -> (r: Result<Option<String>, Error>)
    ensures
        r matches Ok(o) ==> match o {
            Some(v) => stored_meta(*conn).contains_key(key@) && stored_meta(*conn)[key@] == v@,
            None => !stored_meta(*conn).contains_key(key@),
        },
{
    conn.query_row("SELECT value FROM meta WHERE key = ?1", [key], |row| row.get(0)).optional()
}

/// Relies on `Connection::execute` of an `INSERT`: on success the entry is
/// added; a failed statement is rolled back.
#[verifier::external_body]
fn insert_meta(conn: &mut Connection, key: &str, value: &str) -> (r: Result<usize, Error>)
    ensures
        has_schema(*final(conn)) == has_schema(*old(conn)),
        r is Ok ==> stored_meta(*final(conn)) == stored_meta(*old(conn)).insert(key@, value@),
        r is Err ==> stored_meta(*final(conn)) == stored_meta(*old(conn)),
        stored_records(*final(conn)) == stored_records(*old(conn)),
{
    conn.execute("INSERT INTO meta (key, value) VALUES (?1, ?2)", [key, value])
}

/// Relies on `Connection::execute` of an `UPDATE` by primary key: on success the
/// value under `key` is replaced where there is one; a failed statement is
/// rolled back.
#[verifier::external_body]
fn update_meta_row(conn: &mut Connection, key: &str, value: &str) -> (r: Result<usize, Error>)
    ensures
        has_schema(*final(conn)) == has_schema(*old(conn)),
        r is Ok ==> stored_meta(*final(conn)) == (if stored_meta(*old(conn)).contains_key(key@) {
            stored_meta(*old(conn)).insert(key@, value@)
        } else {
            stored_meta(*old(conn))
        }),
        r is Err ==> stored_meta(*final(conn)) == stored_meta(*old(conn)),
        stored_records(*final(conn)) == stored_records(*old(conn)),
{
    conn.execute("UPDATE meta SET value = ?1 WHERE key = ?2", [value, key])
}

/// `names` holds each key of `keys` exactly once, and nothing else.
pub open spec fn lists_keys(names: Seq<Seq<char>>, keys: Set<Seq<char>>) -> bool {
    &&& names.no_duplicates()
    &&& names.to_set() == keys
}

/// What adding a row does to the records: it is refused (`false`, nothing
/// changes) where the service name is empty or already present.
pub open spec fn add_outcome(
    records: Map<Seq<char>, (Seq<char>, Seq<char>)>,
    service: Seq<char>,
    row: (Seq<char>, Seq<char>),
) -> (bool, Map<Seq<char>, (Seq<char>, Seq<char>)>) {
    if service.len() == 0 || records.contains_key(service) {
        (false, records)
    } else {
        (true, records.insert(service, row))
    }
}

/// What deleting a service does to the records: it is refused (`false`,
/// nothing changes) where the service is absent.
pub open spec fn delete_outcome(
    records: Map<Seq<char>, (Seq<char>, Seq<char>)>,
    service: Seq<char>,
) -> (bool, Map<Seq<char>, (Seq<char>, Seq<char>)>) {
    if records.contains_key(service) {
        (true, records.remove(service))
    } else {
        (false, records)
    }
}

/// Creates both tables where they are missing; rows already stored are kept.
pub fn create_schema(conn: &mut Connection) -> (r: Result<(), StorageError>)
    ensures
        r is Ok ==> has_schema(*final(conn)),
        stored_records(*final(conn)) == stored_records(*old(conn)),
        stored_meta(*final(conn)) == stored_meta(*old(conn)),
{
    match create_tables(conn) {
        Ok(()) => Ok(()),
        Err(e) => Err(StorageError { cause: e }),
    }
}

/// Adds a credential unless its service is empty or already stored.
pub fn add_to_table(conn: &mut Connection, entry: Entry) -> (r: Result<bool, StorageError>)
    ensures
        entry.service@.len() == 0 ==> r matches Ok(false),
        has_schema(*final(conn)) == has_schema(*old(conn)),
        match r {
            Ok(added) => (added, stored_records(*final(conn))) == add_outcome(
                stored_records(*old(conn)),
                entry.service@,
                entry_row(entry),
            ),
            Err(_) => stored_records(*final(conn)) == stored_records(*old(conn)),
        },
        stored_meta(*final(conn)) == stored_meta(*old(conn)),
{
    if entry.service.as_str().unicode_len() == 0 {
        return Ok(false);
    }
    match select_record(conn, entry.service.as_str()) {
        Err(e) => { return Err(StorageError { cause: e }); },
        Ok(Some(_)) => { return Ok(false); },
        Ok(None) => {},
    }
    match insert_record(conn, entry.service.as_str(), entry.pass.as_str(), entry.note.as_str()) {
        Ok(_) => Ok(true),
        Err(e) => Err(StorageError { cause: e }),
    }
}

/// The stored credential of `service`, if there is one.
pub fn get_from_table(conn: &Connection, service: String) -> (r: Result<Option<Entry>, StorageError>)
    ensures
        r matches Ok(o) ==> match o {
            Some(e) => e.service@ == service@ && stored_records(*conn).contains_key(service@)
                && stored_records(*conn)[service@] == entry_row(e),
            None => !stored_records(*conn).contains_key(service@),
        },
{
    match select_record(conn, service.as_str()) {
        Ok(Some((pass, note))) => Ok(Some(Entry { service, pass, note })),
        Ok(None) => Ok(None),
        Err(e) => Err(StorageError { cause: e }),
    }
}

/// Whether a credential is stored under `service`.
pub fn exists_in_table(conn: &Connection, service: String) -> (r: Result<bool, StorageError>)
    ensures
        r matches Ok(b) ==> b == stored_records(*conn).contains_key(service@),
{
    match select_record(conn, service.as_str()) {
        Ok(o) => Ok(o.is_some()),
        Err(e) => Err(StorageError { cause: e }),
    }
}

/// Removes the credential of `service`, if there is one.
pub fn delete_from_table(conn: &mut Connection, service: String) -> (r: Result<bool, StorageError>)
    ensures
        has_schema(*final(conn)) == has_schema(*old(conn)),
        match r {
            Ok(deleted) => (deleted, stored_records(*final(conn))) == delete_outcome(
                stored_records(*old(conn)),
                service@,
            ),
            Err(_) => stored_records(*final(conn)) == stored_records(*old(conn)),
        },
        stored_meta(*final(conn)) == stored_meta(*old(conn)),
{
    match select_record(conn, service.as_str()) {
        Err(e) => { return Err(StorageError { cause: e }); },
        Ok(None) => { return Ok(false); },
        Ok(Some(_)) => {},
    }
    match delete_record(conn, service.as_str()) {
        Ok(_) => Ok(true),
        Err(e) => Err(StorageError { cause: e }),
    }
}

/// Every stored service name, once each, in the order the database gives.
pub fn list_services(conn: &Connection) -> (r: Result<Vec<String>, StorageError>)
    ensures
        r matches Ok(v) ==> lists_keys(v@.map_values(|s: String| s@), stored_records(*conn).dom()),
{
    match select_services(conn) {
        Ok(v) => Ok(v),
        Err(e) => Err(StorageError { cause: e }),
    }
}

/// Adds a meta entry unless its key is already stored.
pub fn add_to_meta(conn: &mut Connection, entry: MetaEntry) -> (r: Result<bool, StorageError>)
    ensures
        has_schema(*final(conn)) == has_schema(*old(conn)),
        match r {
            Ok(added) => {
                &&& added == !stored_meta(*old(conn)).contains_key(entry.key@)
                &&& stored_meta(*final(conn)) == if added {
                    stored_meta(*old(conn)).insert(entry.key@, entry.value@)
                } else {
                    stored_meta(*old(conn))
                }
            },
            Err(_) => stored_meta(*final(conn)) == stored_meta(*old(conn)),
        },
        stored_records(*final(conn)) == stored_records(*old(conn)),
{
    match select_meta(conn, entry.key.as_str()) {
        Err(e) => { return Err(StorageError { cause: e }); },
        Ok(Some(_)) => { return Ok(false); },
        Ok(None) => {},
    }
    match insert_meta(conn, entry.key.as_str(), entry.value.as_str()) {
        Ok(_) => Ok(true),
        Err(e) => Err(StorageError { cause: e }),
    }
}

/// The meta entry under `key`, if there is one.
pub fn get_from_meta(conn: &Connection, key: String) -> (r: Result<Option<MetaEntry>, StorageError>)
    ensures
        r matches Ok(o) ==> match o {
            Some(e) => e.key@ == key@ && stored_meta(*conn).contains_key(key@)
                && stored_meta(*conn)[key@] == e.value@,
            None => !stored_meta(*conn).contains_key(key@),
        },
{
    match select_meta(conn, key.as_str()) {
        Ok(Some(value)) => Ok(Some(MetaEntry { key, value })),
        Ok(None) => Ok(None),
        Err(e) => Err(StorageError { cause: e }),
    }
}

/// Replaces the value of an existing meta entry; refused where the key is absent.
pub fn update_meta(conn: &mut Connection, entry: MetaEntry) -> (r: Result<bool, StorageError>)
    ensures
        has_schema(*final(conn)) == has_schema(*old(conn)),
        match r {
            Ok(updated) => {
                &&& updated == stored_meta(*old(conn)).contains_key(entry.key@)
                &&& stored_meta(*final(conn)) == if updated {
                    stored_meta(*old(conn)).insert(entry.key@, entry.value@)
                } else {
                    stored_meta(*old(conn))
                }
            },
            Err(_) => stored_meta(*final(conn)) == stored_meta(*old(conn)),
        },
        stored_records(*final(conn)) == stored_records(*old(conn)),
{
    match select_meta(conn, entry.key.as_str()) {
        Err(e) => { return Err(StorageError { cause: e }); },
        Ok(None) => { return Ok(false); },
        Ok(Some(_)) => {},
    }
    match update_meta_row(conn, entry.key.as_str(), entry.value.as_str()) {
        Ok(_) => Ok(true),
        Err(e) => Err(StorageError { cause: e }),
    }
}

/// Adding a second credential under a service already added is refused, and
/// the first credential stays as it was.
pub proof fn lemma_add_twice_keeps_first(
    records: Map<Seq<char>, (Seq<char>, Seq<char>)>,
    service: Seq<char>,
    first: (Seq<char>, Seq<char>),
    second: (Seq<char>, Seq<char>),
)
    ensures
        ({
            let after_first = add_outcome(records, service, first).1;
            add_outcome(after_first, service, second) == (false, after_first)
        }),
        add_outcome(records, service, first).0 ==> add_outcome(records, service, first).1[service]
            == first,
{
}

/// Deleting an absent service is refused and changes nothing; deleting a
/// present one removes exactly that service, which is then absent.
pub proof fn lemma_delete_removes_exactly(
    records: Map<Seq<char>, (Seq<char>, Seq<char>)>,
    service: Seq<char>,
)
    ensures
        !records.contains_key(service) ==> delete_outcome(records, service) == (false, records),
        records.contains_key(service) ==> {
            let (deleted, after) = delete_outcome(records, service);
            &&& deleted
            &&& !after.contains_key(service)
            &&& forall|k: Seq<char>| k != service ==> (after.contains_key(k) == records.contains_key(k)
                && (records.contains_key(k) ==> after[k] == records[k]))
        },
{
}

} // verus!
