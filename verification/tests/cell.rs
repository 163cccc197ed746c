use dbcell::dispatch;
use dbcell::BackendConnection;
use dbcell::Connection;
use dbcell::ErrorKind;

type Handle = BackendConnection<u8, u16, u32>;

#[test]
fn cell_starts_empty_by_default() {
    let cell: Connection<u8, u16, u32> = Connection::new(None);
    assert_eq!(cell.initialized().unwrap(), false);
}

#[test]
fn cell_with_initial_handle_is_initialized() {
    let cell: Connection<u8, u16, u32> = Connection::new(Some(Handle::mysql(7)));
    assert_eq!(cell.initialized().unwrap(), true);
}

#[test]
fn cell_lock_hands_contents_to_the_closure() {
    let cell: Connection<u8, u16, u32> = Connection::new(Some(Handle::sqlite(3)));

    // Read the live value under the lock, putting it back unchanged.
    let seen = cell
        .lock(|v: Option<Handle>| {
            let tag = match &v {
                Some(h) => h.variant_str(),
                None => "empty",
            };
            (v, tag)
        })
        .unwrap();
    assert_eq!(seen, "SqliteConnection");

    // Replace the contents; a later probe sees the new state.
    cell.lock(|_v: Option<Handle>| (None, ())).unwrap();
    assert_eq!(cell.initialized().unwrap(), false);
}

#[test]
fn dispatch_runs_the_matching_closure() {
    let (c1, r) = dispatch(
        Handle::mysql(5),
        |m: u8| (m, Ok::<u8, String>(m)),
        |p: u16| (p, Err("pg must not run".to_string())),
        |s: u32| (s, Err("sqlite must not run".to_string())),
    );
    assert!(c1.is_mysql());
    assert_eq!(r.ok().unwrap(), 5);
}

#[test]
fn dispatch_on_unknown_handle_fails() {
    let (c1, r) = dispatch(
        Handle::default(),
        |m: u8| (m, Ok::<u8, String>(m)),
        |p: u16| (p, Ok(0)),
        |s: u32| (s, Ok(0)),
    );
    assert!(c1.is_unknown());
    let e = r.err().unwrap();
    assert_eq!(e.kind(), ErrorKind::Other);
    assert_eq!(e.description(), "database is not ready");
}

#[test]
fn handle_variant_names() {
    assert_eq!(Handle::default().variant_str(), "Unknown");
    assert_eq!(Handle::mysql(0).variant_str(), "MysqlConnection");
    assert_eq!(Handle::pg(0).variant_str(), "PgConnection");
    assert_eq!(Handle::sqlite(0).variant_str(), "SqliteConnection");
}
