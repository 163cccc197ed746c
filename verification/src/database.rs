//! The database facade: lazy establishment, scheme dispatch, and the
//! multi-closure `interact` entry point.
//!
//! A facade owns a shared, lock-protected optional [`Settings`] value,
//! set at most once, and a shared connection cell. The first
//! interaction attempt after configuration establishes exactly one
//! native connection of the backend matching the URL scheme; repeated
//! interactions reuse it. Cloning the facade is cheap and every clone
//! observes the same underlying state.

use vstd::prelude::*;
use vstd::rwlock::RwLock;

use std::sync::Arc;

use crate::connection::Connection;
use crate::error::Error;
use crate::error::ErrorKind;
use crate::locked_connection::Connection as BackendConnection;
use crate::result::DbResult;
use crate::settings::scheme_of;
use crate::settings::Scheme;
use crate::settings::Settings;
use crate::settings::url_ok;
use crate::settings::url_path;
use crate::settings::url_scheme;
use crate::settings::url_serialization;

verus! {

/// The connection URL entry of an external configuration source, as
/// the source hands it over: a plain string, or a value of some other
/// shape.
pub enum ConfigValue {
    /// The entry is a string.
    Text(String),
    /// The entry is present but not representable as a string.
    Malformed,
}

/// Derives validated [`Settings`] from the connection URL entry of a
/// configuration source. Fails with `MissingValue` when the entry is
/// absent, with `FormatError` when it is not a string, and with `Other`
/// when the string is not a valid URL.
pub fn settings_from_config(url_value: Option<ConfigValue>) -> (r: DbResult<Settings>)
    ensures
        url_value is None ==> (r matches Err(e) && e.spec_kind() == ErrorKind::MissingValue),
        url_value matches Some(ConfigValue::Malformed) ==> (r matches Err(e) && e.spec_kind()
            == ErrorKind::FormatError),
        url_value matches Some(ConfigValue::Text(s)) ==> {
            &&& (r is Ok <==> url_ok(s@))
            &&& (r matches Ok(st) ==> st.spec_raw() == s@ && st.spec_url() == url_serialization(s@)
                && st.spec_scheme() == url_scheme(s@) && st.spec_path() == url_path(s@))
            &&& (r matches Err(e) ==> e.spec_kind() == ErrorKind::Other)
        },
{
    match url_value {
        None => Err(Error::new(ErrorKind::MissingValue, "no `url` value in configuration")),
        Some(ConfigValue::Malformed) => Err(
            Error::new(ErrorKind::FormatError, "invalid format for `url` in configuration."),
        ),
        Some(ConfigValue::Text(s)) => Settings::new(s),
    }
}

/// What the lifecycle hook does before an interaction, given what it
/// observes of the facade.
#[derive(Clone, Copy, Debug, Eq, PartialEq, Structural)]
pub enum HookAction {
    /// The connection is live: nothing to do.
    Nothing,
    /// Settings are present but no connection is: establish one.
    Establish,
    /// No settings yet: obtain them from the configuration source,
    /// store them, then establish. If the source cannot supply them,
    /// leave the facade unconfigured and let `interact` surface the
    /// error.
    FetchThenEstablish,
}

/// Decides the lifecycle hook's next step from what it observes: an
/// uninitialized facade is established, after first pulling settings
/// from the configuration source when none are present yet.
pub fn on_request_action(initialized: bool, has_configuration: bool) -> (a: HookAction)
    ensures
        a == (if !initialized {
            if !has_configuration {
                HookAction::FetchThenEstablish
            } else {
                HookAction::Establish
            }
        } else {
            HookAction::Nothing
        }),
{
    if !initialized {
        if !has_configuration {
            HookAction::FetchThenEstablish
        } else {
            HookAction::Establish
        }
    } else {
        HookAction::Nothing
    }
}

/// How a backend closure's outcome is surfaced through `interact`: a
/// success is handed through unchanged, and a backend error is wrapped
/// into the unified error type with its description preserved.
pub open spec fn mapped_result<T>(t: Result<T, String>, r: DbResult<T>) -> bool {
    match t {
        Ok(v) => r == Ok::<T, Error>(v),
        Err(d) => r matches Err(e) && e.spec_kind() == ErrorKind::Other && e.spec_payload()
            == Some(d@),
    }
}

/// Wraps a backend closure's outcome into the unified error type,
/// preserving the description of a backend error.
fn map_backend_result<T>(t: Result<T, String>) -> (r: DbResult<T>)
    ensures
        mapped_result(t, r),
{
    match t {
        Ok(v) => Ok(v),
        Err(d) => Err(Error::new(ErrorKind::Other, d.as_str())),
    }
}

/// What dispatching over a backend handle guarantees: exactly the
/// closure matching the live variant ran, on the live connection; the
/// handle keeps its variant, now holding whatever connection value that
/// closure returned; and the closure's outcome is surfaced through
/// `mapped_result`. An empty `Unknown` handle yields an error of kind
/// `Other` and is left as it is.
pub open spec fn dispatch_post<
    M,
    P,
    S,
    T,
    FM: FnOnce(M) -> (M, Result<T, String>),
    FP: FnOnce(P) -> (P, Result<T, String>),
    FS: FnOnce(S) -> (S, Result<T, String>),
>(
    conn: BackendConnection<M, P, S>,
    mysql_f: FM,
    pg_f: FP,
    sqlite_f: FS,
    out_conn: BackendConnection<M, P, S>,
    r: DbResult<T>,
) -> bool {
    match conn {
        BackendConnection::Unknown => out_conn is Unknown && (r matches Err(e) && e.spec_kind()
            == ErrorKind::Other && e.spec_payload() == Some("database is not ready"@)),
        BackendConnection::Mysql(m) => exists|m1: M, t: Result<T, String>|
            #[trigger] call_ensures(mysql_f, (m,), (m1, t)) && out_conn == BackendConnection::<
                M,
                P,
                S,
            >::Mysql(m1) && mapped_result(t, r),
        BackendConnection::Pg(p) => exists|p1: P, t: Result<T, String>|
            #[trigger] call_ensures(pg_f, (p,), (p1, t)) && out_conn == BackendConnection::<
                M,
                P,
                S,
            >::Pg(p1) && mapped_result(t, r),
        BackendConnection::Sqlite(s) => exists|s1: S, t: Result<T, String>|
            #[trigger] call_ensures(sqlite_f, (s,), (s1, t)) && out_conn == BackendConnection::<
                M,
                P,
                S,
            >::Sqlite(s1) && mapped_result(t, r),
    }
}

/// Dispatches to exactly one of the three supplied closures, the one
/// matching the handle's live variant; the other two are never invoked.
pub fn dispatch<M, P, S, T, FM, FP, FS>(
    conn: BackendConnection<M, P, S>,
    mysql_f: FM,
    pg_f: FP,
    sqlite_f: FS,
) -> (res: (BackendConnection<M, P, S>, DbResult<T>)) where
    FM: FnOnce(M) -> (M, Result<T, String>),
    FP: FnOnce(P) -> (P, Result<T, String>),
    FS: FnOnce(S) -> (S, Result<T, String>),

    requires
        conn matches BackendConnection::Mysql(m) ==> call_requires(mysql_f, (m,)),
        conn matches BackendConnection::Pg(p) ==> call_requires(pg_f, (p,)),
        conn matches BackendConnection::Sqlite(s) ==> call_requires(sqlite_f, (s,)),
    ensures
        dispatch_post(conn, mysql_f, pg_f, sqlite_f, res.0, res.1),
{
    match conn {
        BackendConnection::Unknown => (
            BackendConnection::Unknown,
            Err(Error::new(ErrorKind::Other, "database is not ready")),
        ),
        BackendConnection::Mysql(m) => {
            let (m1, t) = mysql_f(m);
            let r = map_backend_result(t);
            (BackendConnection::Mysql(m1), r)
        },
        BackendConnection::Pg(p) => {
            let (p1, t) = pg_f(p);
            let r = map_backend_result(t);
            (BackendConnection::Pg(p1), r)
        },
        BackendConnection::Sqlite(s) => {
            let (s1, t) = sqlite_f(s);
            let r = map_backend_result(t);
            (BackendConnection::Sqlite(s1), r)
        },
    }
}

/// A successful interaction's value came from exactly one of the three
/// supplied closures, applied to some connection value of its backend.
pub open spec fn interact_ok<
    M,
    P,
    S,
    T,
    FM: FnOnce(M) -> (M, Result<T, String>),
    FP: FnOnce(P) -> (P, Result<T, String>),
    FS: FnOnce(S) -> (S, Result<T, String>),
>(mysql_f: FM, pg_f: FP, sqlite_f: FS, t: T) -> bool {
    ||| exists|m: M, m1: M, tr: Result<T, String>|
        #[trigger] call_ensures(mysql_f, (m,), (m1, tr)) && tr == Ok::<T, String>(t)
    ||| exists|p: P, p1: P, tr: Result<T, String>|
        #[trigger] call_ensures(pg_f, (p,), (p1, tr)) && tr == Ok::<T, String>(t)
    ||| exists|s: S, s1: S, tr: Result<T, String>|
        #[trigger] call_ensures(sqlite_f, (s,), (s1, tr)) && tr == Ok::<T, String>(t)
}

/// Every error of an interaction: no settings yet, a poisoned lock, an
/// empty slot, or an error the matching closure returned, wrapped with
/// its description preserved.
pub open spec fn interact_err<
    M,
    P,
    S,
    T,
    FM: FnOnce(M) -> (M, Result<T, String>),
    FP: FnOnce(P) -> (P, Result<T, String>),
    FS: FnOnce(S) -> (S, Result<T, String>),
>(mysql_f: FM, pg_f: FP, sqlite_f: FS, e: Error) -> bool {
    ||| e.spec_payload() == Some("no configuration available"@)
    ||| e.spec_payload() == Some("database got poisoned"@)
    ||| e.spec_payload() == Some("database is not ready"@)
    ||| exists|m: M, m1: M, tr: Result<T, String>|
        #[trigger] call_ensures(mysql_f, (m,), (m1, tr)) && tr is Err && e.spec_payload() == Some(
            tr->Err_0@,
        )
    ||| exists|p: P, p1: P, tr: Result<T, String>|
        #[trigger] call_ensures(pg_f, (p,), (p1, tr)) && tr is Err && e.spec_payload() == Some(
            tr->Err_0@,
        )
    ||| exists|s: S, s1: S, tr: Result<T, String>|
        #[trigger] call_ensures(sqlite_f, (s,), (s1, tr)) && tr is Err && e.spec_payload() == Some(
            tr->Err_0@,
        )
}

/// What one locked interaction step guarantees, given the slot's
/// contents: an empty slot is left empty and reported as not ready;
/// a full slot is dispatched over, and stays full.
pub open spec fn interact_step_post<
    M,
    P,
    S,
    T,
    FM: FnOnce(M) -> (M, Result<T, String>),
    FP: FnOnce(P) -> (P, Result<T, String>),
    FS: FnOnce(S) -> (S, Result<T, String>),
>(
    mysql_f: FM,
    pg_f: FP,
    sqlite_f: FS,
    v: Option<BackendConnection<M, P, S>>,
    out: (Option<BackendConnection<M, P, S>>, DbResult<T>),
) -> bool {
    match v {
        None => out.0 is None && (out.1 matches Err(e) && e.spec_kind() == ErrorKind::Other
            && e.spec_payload() == Some("database is not ready"@)),
        Some(c) => out.0 matches Some(c1) && dispatch_post(
            c,
            mysql_f,
            pg_f,
            sqlite_f,
            c1,
            out.1,
        ),
    }
}

/// Law: an interaction never changes which backend is live — dispatch
/// hands back a handle carrying the same variant it was given.
pub proof fn lemma_dispatch_preserves_variant<
    M,
    P,
    S,
    T,
    FM: FnOnce(M) -> (M, Result<T, String>),
    FP: FnOnce(P) -> (P, Result<T, String>),
    FS: FnOnce(S) -> (S, Result<T, String>),
>(
    conn: BackendConnection<M, P, S>,
    mysql_f: FM,
    pg_f: FP,
    sqlite_f: FS,
    out_conn: BackendConnection<M, P, S>,
    r: DbResult<T>,
)
    requires
        dispatch_post(conn, mysql_f, pg_f, sqlite_f, out_conn, r),
    ensures
        conn.same_variant(&out_conn),
{
}

/// Law: an interaction leaves the slot's state consistent, whatever it
/// returns — the slot is full after the step exactly when it was full
/// before it, so an error never leaves a partial replacement behind.
pub proof fn lemma_interact_step_preserves_presence<
    M,
    P,
    S,
    T,
    FM: FnOnce(M) -> (M, Result<T, String>),
    FP: FnOnce(P) -> (P, Result<T, String>),
    FS: FnOnce(S) -> (S, Result<T, String>),
>(
    mysql_f: FM,
    pg_f: FP,
    sqlite_f: FS,
    v: Option<BackendConnection<M, P, S>>,
    out: (Option<BackendConnection<M, P, S>>, DbResult<T>),
)
    requires
        interact_step_post(mysql_f, pg_f, sqlite_f, v, out),
    ensures
        v is Some <==> out.0 is Some,
        match (v, out.0) {
            (Some(c), Some(c1)) => c.same_variant(&c1),
            _ => true,
        },
{
}

/// What establishment guarantees, given the settings it read: the
/// opener matching the URL scheme ran on the backend's address form
/// (the full URL for the TCP engines, the path for the embedded one),
/// and its connection came back wrapped in the matching variant; an
/// opener that could not connect, or a scheme matching no known
/// backend, yields an error of kind `Other`.
pub open spec fn establish_post<
    M,
    P,
    S,
    EM: FnOnce(&str) -> Option<M>,
    EP: FnOnce(&str) -> Option<P>,
    ES: FnOnce(&str) -> Option<S>,
>(
    settings: Settings,
    open_mysql: EM,
    open_pg: EP,
    open_sqlite: ES,
    r: DbResult<BackendConnection<M, P, S>>,
) -> bool {
    match scheme_of(settings.spec_scheme()) {
        Scheme::Mysql => match r {
            Ok(c) => exists|u: &str, m: M|
                u@ == settings.spec_url() && #[trigger] call_ensures(open_mysql, (u,), Some(m))
                    && c == BackendConnection::<M, P, S>::Mysql(m),
            Err(e) => e.spec_kind() == ErrorKind::Other && e.spec_payload() == Some(
                "failed to establish database connection"@,
            ) && exists|u: &str|
                u@ == settings.spec_url() && #[trigger] call_ensures(open_mysql, (u,), None::<M>),
        },
        Scheme::Postgres => match r {
            Ok(c) => exists|u: &str, p: P|
                u@ == settings.spec_url() && #[trigger] call_ensures(open_pg, (u,), Some(p)) && c
                    == BackendConnection::<M, P, S>::Pg(p),
            Err(e) => e.spec_kind() == ErrorKind::Other && e.spec_payload() == Some(
                "failed to establish database connection"@,
            ) && exists|u: &str|
                u@ == settings.spec_url() && #[trigger] call_ensures(open_pg, (u,), None::<P>),
        },
        Scheme::Sqlite => match r {
            Ok(c) => exists|u: &str, s: S|
                u@ == settings.spec_path() && #[trigger] call_ensures(open_sqlite, (u,), Some(s))
                    && c == BackendConnection::<M, P, S>::Sqlite(s),
            Err(e) => e.spec_kind() == ErrorKind::Other && e.spec_payload() == Some(
                "failed to establish database connection"@,
            ) && exists|u: &str|
                u@ == settings.spec_path() && #[trigger] call_ensures(
                    open_sqlite,
                    (u,),
                    None::<S>,
                ),
        },
        Scheme::Unknown => r matches Err(e) && e.spec_kind() == ErrorKind::Other
            && e.spec_payload() == Some("no backend matches the URL scheme"@),
    }
}

/// Every error of an establishment attempt: no settings yet, a scheme
/// matching no known backend, an opener that could not connect, or a
/// poisoned cell lock.
pub open spec fn initialize_err(e: Error) -> bool {
    ||| e.spec_payload() == Some("no configuration available"@)
    ||| e.spec_payload() == Some("no backend matches the URL scheme"@)
    ||| e.spec_payload() == Some("failed to establish database connection"@)
    ||| e.spec_payload() == Some("failed to update database connection"@)
}

/// The predicate of a facade's settings lock: any settings value may
/// be stored.
pub struct ConfigPred;

impl vstd::rwlock::RwLockPredicate<Option<Settings>> for ConfigPred {
    open spec fn inv(self, v: Option<Settings>) -> bool {
        true
    }
}

/// Owns the connection cell and a shared settings value, and exposes
/// the callback-based `interact` entry point.
///
/// `M`, `P` and `S` are the native connection types of the three
/// supported backends.
#[verifier::reject_recursive_types(M)]
#[verifier::reject_recursive_types(P)]
#[verifier::reject_recursive_types(S)]
pub struct Database<M, P, S> {
    configuration: Arc<RwLock<Option<Settings>, ConfigPred>>,
    database: Arc<Connection<M, P, S>>,
}

impl<M, P, S> Clone for Database<M, P, S> {
    /// A clone shares the same settings value and the same connection
    /// cell as the original.
    fn clone(&self) -> Self {
        Database { configuration: self.configuration.clone(), database: self.database.clone() }
    }
}

impl<M, P, S> Default for Database<M, P, S> {
    /// A facade with no settings and an empty connection cell.
    fn default() -> Self {
        Database {
            configuration: Arc::new(RwLock::new(None, Ghost(ConfigPred))),
            database: Arc::new(Connection::new(None)),
        }
    }
}

impl<M, P, S> Database<M, P, S> {
    /// A facade with no settings and an empty connection cell.
    pub fn new() -> Self {
        Self::default()
    }

    /// Whether settings have been supplied to this facade.
    pub fn has_configuration(&self) -> bool {
        let handle = self.configuration.acquire_read();
        let present = handle.borrow().is_some();
        handle.release_read();
        present
    }

    /// Supplies settings from the configuration source. The first call
    /// stores them and reports `true`; a later call leaves the stored
    /// value unchanged and reports `false`.
    pub fn configure(&self, settings: Settings) -> bool {
        let (current, write_handle) = self.configuration.acquire_write();
        match current {
            Some(existing) => {
                write_handle.release_write(Some(existing));
                false
            },
            None => {
                write_handle.release_write(Some(settings));
                true
            },
        }
    }

    /// The settings of this facade. Fails with kind `Other` when none
    /// have been supplied yet.
    fn settings(&self) -> (r: DbResult<Settings>)
        ensures
            r matches Err(e) ==> e.spec_kind() == ErrorKind::Other && e.spec_payload() == Some(
                "no configuration available"@,
            ),
    {
        let handle = self.configuration.acquire_read();
        let r = match handle.borrow() {
            Some(s) => Ok(s.clone()),
            None => Err(Error::new(ErrorKind::Other, "no configuration available")),
        };
        handle.release_read();
        r
    }

    /// Whether a connection has been established. Fails with kind
    /// `Other` when the cell's lock is poisoned.
    pub fn initialized(&self) -> (r: DbResult<bool>)
        ensures
            r matches Err(e) ==> e.spec_kind() == ErrorKind::Other,
    {
        self.database.initialized()
    }

    /// Opens one native connection of the backend matching the URL
    /// scheme of `settings`, through the opener supplied for it.
    pub fn establish<EM, EP, ES>(
        settings: &Settings,
        open_mysql: EM,
        open_pg: EP,
        open_sqlite: ES,
    ) -> (r: DbResult<BackendConnection<M, P, S>>) where
        EM: FnOnce(&str) -> Option<M>,
        EP: FnOnce(&str) -> Option<P>,
        ES: FnOnce(&str) -> Option<S>,

        requires
            forall|u: &str| #[trigger] call_requires(open_mysql, (u,)),
            forall|u: &str| #[trigger] call_requires(open_pg, (u,)),
            forall|u: &str| #[trigger] call_requires(open_sqlite, (u,)),
        ensures
            establish_post(*settings, open_mysql, open_pg, open_sqlite, r),
    {
        match settings.scheme_kind() {
            Scheme::Mysql => match open_mysql(settings.url().as_str()) {
                Some(m) => Ok(BackendConnection::mysql(m)),
                None => Err(
                    Error::new(ErrorKind::Other, "failed to establish database connection"),
                ),
            },
            Scheme::Postgres => match open_pg(settings.url().as_str()) {
                Some(p) => Ok(BackendConnection::pg(p)),
                None => Err(
                    Error::new(ErrorKind::Other, "failed to establish database connection"),
                ),
            },
            Scheme::Sqlite => match open_sqlite(settings.path().as_str()) {
                Some(s) => Ok(BackendConnection::sqlite(s)),
                None => Err(
                    Error::new(ErrorKind::Other, "failed to establish database connection"),
                ),
            },
            Scheme::Unknown => Err(
                Error::new(ErrorKind::Other, "no backend matches the URL scheme"),
            ),
        }
    }

    /// Establishes the connection if the cell is still empty: reads the
    /// settings, opens one native connection of the backend matching
    /// the URL scheme, and stores it under the cell's lock. When
    /// another caller established first, the already-present handle is
    /// kept and the fresh one is discarded. Fails with kind `Other` —
    /// leaving the cell unchanged, so a later call retries — when no
    /// settings are present, when the scheme matches no known backend,
    /// when the opener cannot connect, or when the cell's lock is
    /// poisoned.
    pub fn initialize<EM, EP, ES>(&self, open_mysql: EM, open_pg: EP, open_sqlite: ES) -> (r:
        DbResult<()>) where
        EM: FnOnce(&str) -> Option<M>,
        EP: FnOnce(&str) -> Option<P>,
        ES: FnOnce(&str) -> Option<S>,

        requires
            forall|u: &str| #[trigger] call_requires(open_mysql, (u,)),
            forall|u: &str| #[trigger] call_requires(open_pg, (u,)),
            forall|u: &str| #[trigger] call_requires(open_sqlite, (u,)),
        ensures
            r is Ok ==> exists|s: Settings, c: BackendConnection<M, P, S>|
                #[trigger] establish_post(s, open_mysql, open_pg, open_sqlite, Ok(c)),
            r matches Err(e) ==> e.spec_kind() == ErrorKind::Other && initialize_err(e),
    {
        let settings = match self.settings() {
            Ok(s) => s,
            Err(e) => {
                return Err(e);
            },
        };
        let connection = match Self::establish(&settings, open_mysql, open_pg, open_sqlite) {
            Ok(c) => c,
            Err(e) => {
                return Err(e);
            },
        };
        let store_step = (move |v: Option<BackendConnection<M, P, S>>| -> (out: (
            Option<BackendConnection<M, P, S>>,
            bool,
        ))
            ensures
                v is Some ==> out == (v, false),
                v is None ==> out == (Some(connection), true),
            {
                match v {
                    Some(existing) => (Some(existing), false),
                    None => (Some(connection), true),
                }
            });
        match self.database.lock(store_step) {
            Ok(_stored) => Ok(()),
            Err(_msg) => Err(Error::new(ErrorKind::Other, "failed to update database connection")),
        }
    }

    /// The single public entry point for doing work against whichever
    /// backend is active: dispatches, under the cell's lock, to exactly
    /// one of the three supplied closures, the one matching the live
    /// connection's backend; the other two are never invoked, and no
    /// other interaction runs against the connection meanwhile. A
    /// closure's error is wrapped into kind `Other` with its
    /// description preserved. Fails with kind `Other` when no settings
    /// are present, when no connection is established (the cell is left
    /// empty, so a later call retries), or when the cell's lock is
    /// poisoned.
    pub fn interact<T, FM, FP, FS>(&self, mysql_f: FM, pg_f: FP, sqlite_f: FS) -> (r: DbResult<
        T,
    >) where
        FM: FnOnce(M) -> (M, Result<T, String>),
        FP: FnOnce(P) -> (P, Result<T, String>),
        FS: FnOnce(S) -> (S, Result<T, String>),

        requires
            forall|m: M| #[trigger] call_requires(mysql_f, (m,)),
            forall|p: P| #[trigger] call_requires(pg_f, (p,)),
            forall|s: S| #[trigger] call_requires(sqlite_f, (s,)),
        ensures
            r matches Ok(t) ==> interact_ok(mysql_f, pg_f, sqlite_f, t),
            r matches Err(e) ==> e.spec_kind() == ErrorKind::Other && interact_err(
                mysql_f,
                pg_f,
                sqlite_f,
                e,
            ),
    {
        if let Err(e) = self.settings() {
            return Err(e);
        }
        let step = (move |v: Option<BackendConnection<M, P, S>>| -> (out: (
            Option<BackendConnection<M, P, S>>,
            DbResult<T>,
        ))
            ensures
                interact_step_post(mysql_f, pg_f, sqlite_f, v, out),
            {
                match v {
                    None => (None, Err(Error::new(ErrorKind::Other, "database is not ready"))),
                    Some(c) => {
                        let (c1, r) = dispatch(c, mysql_f, pg_f, sqlite_f);
                        (Some(c1), r)
                    },
                }
            });
        match self.database.lock(step) {
            Ok(r) => {
                proof {
                    let (v0, v1) = choose|
                        v0: Option<BackendConnection<M, P, S>>,
                        v1: Option<BackendConnection<M, P, S>>,
                    | call_ensures(step, (v0,), (v1, r));
                    assert(interact_step_post(mysql_f, pg_f, sqlite_f, v0, (v1, r)));
                }
                r
            },
            Err(_msg) => Err(Error::new(ErrorKind::Other, "database got poisoned")),
        }
    }

    /// Interacts with the active backend, first establishing the
    /// connection when the slot is still empty: the combined entry
    /// point for callers that do not run the lifecycle hook
    /// themselves. The three openers are used only when no connection
    /// is live yet; the three interaction closures behave as in
    /// [`Database::interact`].
    pub fn interact_establishing<T, EM, EP, ES, FM, FP, FS>(
        &self,
        open_mysql: EM,
        open_pg: EP,
        open_sqlite: ES,
        mysql_f: FM,
        pg_f: FP,
        sqlite_f: FS,
    ) -> (r: DbResult<T>) where
        EM: FnOnce(&str) -> Option<M>,
        EP: FnOnce(&str) -> Option<P>,
        ES: FnOnce(&str) -> Option<S>,
        FM: FnOnce(M) -> (M, Result<T, String>),
        FP: FnOnce(P) -> (P, Result<T, String>),
        FS: FnOnce(S) -> (S, Result<T, String>),

        requires
            forall|u: &str| #[trigger] call_requires(open_mysql, (u,)),
            forall|u: &str| #[trigger] call_requires(open_pg, (u,)),
            forall|u: &str| #[trigger] call_requires(open_sqlite, (u,)),
            forall|m: M| #[trigger] call_requires(mysql_f, (m,)),
            forall|p: P| #[trigger] call_requires(pg_f, (p,)),
            forall|s: S| #[trigger] call_requires(sqlite_f, (s,)),
        ensures
            r matches Ok(t) ==> interact_ok(mysql_f, pg_f, sqlite_f, t),
            r matches Err(e) ==> e.spec_kind() == ErrorKind::Other && (interact_err(
                mysql_f,
                pg_f,
                sqlite_f,
                e,
            ) || initialize_err(e)),
    {
        let live = match self.initialized() {
            Ok(live) => live,
            // A poisoned lock: let the interaction report it.
            Err(_) => true,
        };
        if !live {
            if let Err(e) = self.initialize(open_mysql, open_pg, open_sqlite) {
                return Err(e);
            }
        }
        self.interact(mysql_f, pg_f, sqlite_f)
    }
}

} // verus!
