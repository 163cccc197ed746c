//! The tagged union over the supported backend connection types.
//!
//! The connection cell stores at most one live backend connection. Its
//! payload is this closed tagged union, so the backend tag always
//! travels with the value: dispatch reads the tag, never a separate
//! record of which backend was established.

use vstd::prelude::*;

verus! {

/// Exactly one of the supported backend connection types, or none.
///
/// `M`, `P` and `S` are the native connection types of the three
/// supported backends: a MySQL-style engine, a PostgreSQL-style engine,
/// and an embedded SQLite-style engine.
pub enum Connection<M, P, S> {
    /// No backend selected.
    Unknown,
    /// A live MySQL-style connection.
    Mysql(M),
    /// A live PostgreSQL-style connection.
    Pg(P),
    /// A live SQLite-style connection.
    Sqlite(S),
}

impl<M, P, S> Connection<M, P, S> {
    /// Wraps a MySQL-style connection.
    pub fn mysql(mysql: M) -> (r: Self)
        ensures
            r == Connection::<M, P, S>::Mysql(mysql),
    {
        Connection::Mysql(mysql)
    }

    /// Wraps a PostgreSQL-style connection.
    pub fn pg(pg: P) -> (r: Self)
        ensures
            r == Connection::<M, P, S>::Pg(pg),
    {
        Connection::Pg(pg)
    }

    /// Wraps a SQLite-style connection.
    pub fn sqlite(sqlite: S) -> (r: Self)
        ensures
            r == Connection::<M, P, S>::Sqlite(sqlite),
    {
        Connection::Sqlite(sqlite)
    }

    /// Whether no backend is selected.
    pub fn is_unknown(&self) -> (r: bool)
        ensures
            r == (self is Unknown),
    {
        match self {
            Connection::Unknown => true,
            _ => false,
        }
    }

    /// Whether the MySQL-style backend is live.
    pub fn is_mysql(&self) -> (r: bool)
        ensures
            r == (self is Mysql),
    {
        match self {
            Connection::Mysql(_) => true,
            _ => false,
        }
    }

    /// Whether the PostgreSQL-style backend is live.
    pub fn is_pg(&self) -> (r: bool)
        ensures
            r == (self is Pg),
    {
        match self {
            Connection::Pg(_) => true,
            _ => false,
        }
    }

    /// Whether the SQLite-style backend is live.
    pub fn is_sqlite(&self) -> (r: bool)
        ensures
            r == (self is Sqlite),
    {
        match self {
            Connection::Sqlite(_) => true,
            _ => false,
        }
    }

    /// The diagnostic name of the live variant.
    pub fn variant_str(&self) -> (r: &'static str)
        ensures
            self is Unknown ==> r@ == "Unknown"@,
            self is Mysql ==> r@ == "MysqlConnection"@,
            self is Pg ==> r@ == "PgConnection"@,
            self is Sqlite ==> r@ == "SqliteConnection"@,
    {
        match self {
            Connection::Unknown => "Unknown",
            Connection::Mysql(_) => "MysqlConnection",
            Connection::Pg(_) => "PgConnection",
            Connection::Sqlite(_) => "SqliteConnection",
        }
    }

    /// Whether two values carry the same tag.
    pub open spec fn same_variant(&self, other: &Self) -> bool {
        (self is Unknown && other is Unknown) || (self is Mysql && other is Mysql) || (self is Pg
            && other is Pg) || (self is Sqlite && other is Sqlite)
    }
}

/// Equality between two backend handles is defined purely by variant
/// identity, not by the connection values.
impl<M, P, S> PartialEq for Connection<M, P, S> {
    fn eq(&self, other: &Self) -> (r: bool) {
        (self.is_unknown() && other.is_unknown()) || (self.is_mysql() && other.is_mysql()) || (
        self.is_pg() && other.is_pg()) || (self.is_sqlite() && other.is_sqlite())
    }
}

impl<M, P, S> vstd::std_specs::cmp::PartialEqSpecImpl for Connection<M, P, S> {
    open spec fn obeys_eq_spec() -> bool {
        true
    }

    open spec fn eq_spec(&self, other: &Self) -> bool {
        self.same_variant(other)
    }
}

impl<M, P, S> Eq for Connection<M, P, S> {

}

impl<M, P, S> Default for Connection<M, P, S> {
    /// The default status of a connection slot: no backend selected.
    fn default() -> (r: Self)
        ensures
            r is Unknown,
    {
        Connection::Unknown
    }
}

} // verus!
