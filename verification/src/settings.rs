//! Parses and holds a validated connection URL.
//!
//! A [`Settings`] value is immutable after construction and always
//! holds a syntactically valid URL; its scheme determines which backend
//! the connection cell selects.

use vstd::prelude::*;

use crate::error::Error;
use crate::error::ErrorKind;
use crate::result::DbResult;

verus! {

/// Whether URL parsing accepts `s` as an absolute URL.
pub uninterp spec fn url_ok(s: Seq<char>) -> bool;

/// The serialization of the URL parsed from `s`.
pub uninterp spec fn url_serialization(s: Seq<char>) -> Seq<char>;

/// The scheme of the URL parsed from `s`, lower-cased, without the `:`
/// delimiter.
pub uninterp spec fn url_scheme(s: Seq<char>) -> Seq<char>;

/// The path of the URL parsed from `s`.
pub uninterp spec fn url_path(s: Seq<char>) -> Seq<char>;

/// Relies on `url::Url::parse`, and on `Url::as_str`, `Url::scheme` and
/// `Url::path` of the parsed value: each is a function of the input
/// string alone. On failure, the parse error's text is returned.
#[verifier::external_body]
fn parse_url(raw: &str) -> (r: Result<(String, String, String), String>)
    ensures
        r is Ok <==> url_ok(raw@),
        r matches Ok(parts) ==> parts.0@ == url_serialization(raw@) && parts.1@ == url_scheme(
            raw@,
        ) && parts.2@ == url_path(raw@),
{
    match url::Url::parse(raw) {
        Ok(u) => Ok((u.as_str().to_owned(), u.scheme().to_owned(), u.path().to_owned())),
        Err(e) => Err(format!("{}", e)),
    }
}

/// Relies on `str`'s `==` (`PartialEq::eq`): true exactly when the two
/// strings hold the same characters.
#[verifier::external_body]
fn str_eq(a: &str, b: &str) -> (r: bool)
    ensures
        r == (a@ == b@),
{
    a == b
}

/// The backend selected by a URL scheme.
#[derive(Clone, Copy, Debug, Eq, PartialEq, Structural)]
pub enum Scheme {
    /// The `mysql` scheme.
    Mysql,
    /// The `postgres` or `postgresql` scheme.
    Postgres,
    /// The `sqlite` scheme.
    Sqlite,
    /// A scheme matching no known backend.
    Unknown,
}

/// The backend that the scheme string `s` selects.
pub open spec fn scheme_of(s: Seq<char>) -> Scheme {
    if s == "mysql"@ {
        Scheme::Mysql
    } else if s == "postgres"@ || s == "postgresql"@ {
        Scheme::Postgres
    } else if s == "sqlite"@ {
        Scheme::Sqlite
    } else {
        Scheme::Unknown
    }
}

/// A validated connection URL, together with the parts of it that
/// backend selection reads: its scheme and its path.
pub struct Settings {
    url: String,
    scheme: String,
    path: String,
    raw: Ghost<Seq<char>>,
}

impl Settings {
    /// The URL string this value was parsed from.
    pub closed spec fn spec_raw(&self) -> Seq<char> {
        self.raw@
    }

    /// The serialization of the held URL.
    pub closed spec fn spec_url(&self) -> Seq<char> {
        self.url@
    }

    /// The scheme of the held URL.
    pub closed spec fn spec_scheme(&self) -> Seq<char> {
        self.scheme@
    }

    /// The path of the held URL.
    pub closed spec fn spec_path(&self) -> Seq<char> {
        self.path@
    }

    /// The held URL is always syntactically valid, and the scheme and
    /// path fields are exactly those of the parsed URL.
    #[verifier::type_invariant]
    spec fn wf(self) -> bool {
        &&& url_ok(self.raw@)
        &&& self.url@ == url_serialization(self.raw@)
        &&& self.scheme@ == url_scheme(self.raw@)
        &&& self.path@ == url_path(self.raw@)
    }

    /// Parses `url` and holds the result. Fails with kind `Other`,
    /// wrapping the parse error's text, exactly when the string is not
    /// a valid URL.
    pub fn new(url: String) -> (r: DbResult<Settings>)
        ensures
            r is Ok <==> url_ok(url@),
            r matches Ok(s) ==> s.spec_raw() == url@ && s.spec_url() == url_serialization(url@)
                && s.spec_scheme() == url_scheme(url@) && s.spec_path() == url_path(url@),
            r matches Err(e) ==> e.spec_kind() == ErrorKind::Other,
    {
        match parse_url(url.as_str()) {
            Ok(parts) => {
                let (serialization, scheme, path) = parts;
                Ok(Settings { url: serialization, scheme, path, raw: Ghost(url@) })
            },
            Err(msg) => Err(Error::new(ErrorKind::Other, msg.as_str())),
        }
    }

    /// Replaces the held URL, for advanced adjustment such as
    /// appending query parameters: the new string is parsed, and on
    /// success it takes the old URL's place, with the scheme and path
    /// re-derived from it. On failure — exactly when the string is not
    /// a valid URL — the settings are left unchanged and the error has
    /// kind `Other`. Callers must not change the scheme after a
    /// connection was established without re-establishing it.
    pub fn set_url(&mut self, url: String) -> (r: DbResult<()>)
        ensures
            r is Ok <==> url_ok(url@),
            r is Ok ==> final(self).spec_raw() == url@ && final(self).spec_url()
                == url_serialization(url@) && final(self).spec_scheme() == url_scheme(url@)
                && final(self).spec_path() == url_path(url@),
            r matches Err(e) ==> e.spec_kind() == ErrorKind::Other && *final(self) == *old(self),
    {
        match parse_url(url.as_str()) {
            Ok(parts) => {
                let (serialization, scheme, path) = parts;
                *self = Settings { url: serialization, scheme, path, raw: Ghost(url@) };
                Ok(())
            },
            Err(msg) => Err(Error::new(ErrorKind::Other, msg.as_str())),
        }
    }

    /// Read-only access to the held URL's serialization.
    pub fn url(&self) -> (r: &String)
        ensures
            r@ == self.spec_url(),
    {
        &self.url
    }

    /// Read-only access to the held URL's scheme.
    pub fn scheme(&self) -> (r: &String)
        ensures
            r@ == self.spec_scheme(),
    {
        &self.scheme
    }

    /// Read-only access to the held URL's path.
    pub fn path(&self) -> (r: &String)
        ensures
            r@ == self.spec_path(),
    {
        &self.path
    }

    /// The backend that the held URL's scheme selects.
    pub fn scheme_kind(&self) -> (k: Scheme)
        ensures
            k == scheme_of(self.spec_scheme()),
    {
        let s = self.scheme.as_str();
        if str_eq(s, "mysql") {
            Scheme::Mysql
        } else if str_eq(s, "postgres") || str_eq(s, "postgresql") {
            Scheme::Postgres
        } else if str_eq(s, "sqlite") {
            Scheme::Sqlite
        } else {
            Scheme::Unknown
        }
    }
}

impl Clone for Settings {
    /// A clone holds the same URL, scheme and path.
    fn clone(&self) -> (r: Self)
        ensures
            r == *self,
    {
        proof {
            use_type_invariant(self);
        }
        Settings {
            url: self.url.clone(),
            scheme: self.scheme.clone(),
            path: self.path.clone(),
            raw: Ghost(self.raw@),
        }
    }
}

} // verus!
