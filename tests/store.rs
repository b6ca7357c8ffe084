use clipass::db::{
    add_to_meta, add_to_table, create_schema, delete_from_table, exists_in_table, get_from_meta,
    get_from_table, list_services, update_meta, Entry, MetaEntry,
};
use rusqlite::Connection;

fn fresh() -> Connection {
    let mut conn = Connection::open_in_memory().unwrap();
    create_schema(&mut conn).unwrap();
    conn
}

fn entry(service: &str, pass: &str, note: &str) -> Entry {
    Entry { service: service.to_string(), pass: pass.to_string(), note: note.to_string() }
}

#[test]
fn add_then_get() {
    let mut conn = fresh();
    assert!(add_to_table(&mut conn, entry("github", "c1", "work")).unwrap());
    let e = get_from_table(&conn, "github".to_string()).unwrap().unwrap();
    assert_eq!((e.service.as_str(), e.pass.as_str(), e.note.as_str()), ("github", "c1", "work"));
    assert!(get_from_table(&conn, "gitlab".to_string()).unwrap().is_none());
}

#[test]
fn second_add_is_refused_and_keeps_first() {
    let mut conn = fresh();
    assert!(add_to_table(&mut conn, entry("github", "c1", "")).unwrap());
    assert!(!add_to_table(&mut conn, entry("github", "c2", "other")).unwrap());
    let e = get_from_table(&conn, "github".to_string()).unwrap().unwrap();
    assert_eq!(e.pass, "c1");
    assert_eq!(e.note, "");
    assert_eq!(list_services(&conn).unwrap(), vec!["github".to_string()]);
}

#[test]
fn empty_service_is_refused() {
    let mut conn = fresh();
    assert!(!add_to_table(&mut conn, entry("", "c", "n")).unwrap());
    assert!(list_services(&conn).unwrap().is_empty());
}

#[test]
fn delete_absent_is_refused() {
    let mut conn = fresh();
    add_to_table(&mut conn, entry("a", "1", "")).unwrap();
    assert!(!delete_from_table(&mut conn, "b".to_string()).unwrap());
    assert_eq!(list_services(&conn).unwrap(), vec!["a".to_string()]);
}

#[test]
fn delete_removes_exactly_that_record() {
    let mut conn = fresh();
    add_to_table(&mut conn, entry("a", "1", "")).unwrap();
    add_to_table(&mut conn, entry("b", "2", "x")).unwrap();
    assert!(exists_in_table(&conn, "a".to_string()).unwrap());
    assert!(delete_from_table(&mut conn, "a".to_string()).unwrap());
    assert!(!exists_in_table(&conn, "a".to_string()).unwrap());
    assert!(exists_in_table(&conn, "b".to_string()).unwrap());
    let b = get_from_table(&conn, "b".to_string()).unwrap().unwrap();
    assert_eq!((b.pass.as_str(), b.note.as_str()), ("2", "x"));
}

#[test]
fn list_holds_each_service_once() {
    let mut conn = fresh();
    for s in ["x", "y", "z"] {
        add_to_table(&mut conn, entry(s, "c", "")).unwrap();
    }
    let mut names = list_services(&conn).unwrap();
    names.sort();
    assert_eq!(names, vec!["x".to_string(), "y".to_string(), "z".to_string()]);
}

#[test]
fn meta_add_get_update() {
    let mut conn = fresh();
    let m = |k: &str, v: &str| MetaEntry { key: k.to_string(), value: v.to_string() };
    assert!(!update_meta(&mut conn, m("k", "v0")).unwrap());
    assert!(get_from_meta(&conn, "k".to_string()).unwrap().is_none());
    assert!(add_to_meta(&mut conn, m("k", "v1")).unwrap());
    assert!(!add_to_meta(&mut conn, m("k", "v2")).unwrap());
    assert_eq!(get_from_meta(&conn, "k".to_string()).unwrap().unwrap().value, "v1");
    assert!(update_meta(&mut conn, m("k", "v3")).unwrap());
    assert_eq!(get_from_meta(&conn, "k".to_string()).unwrap().unwrap().value, "v3");
}

#[test]
fn schema_creation_keeps_rows() {
    let mut conn = fresh();
    add_to_table(&mut conn, entry("a", "1", "")).unwrap();
    create_schema(&mut conn).unwrap();
    assert_eq!(list_services(&conn).unwrap(), vec!["a".to_string()]);
}

#[test]
fn missing_tables_are_a_storage_error() {
    let mut conn = Connection::open_in_memory().unwrap();
    assert!(list_services(&conn).is_err());
    assert!(add_to_table(&mut conn, entry("a", "1", "")).is_err());
}
