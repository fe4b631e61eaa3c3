use vstd::prelude::*;

use crate::error::Error;
use crate::parameters::opt_str_view;
use crate::urls::{resolve_url, resolved_url_of};

verus! {

/// The default base URL for requests: the provider's versioned API root.
pub const TMDB_BASE_URL: &'static str = "https://api.themoviedb.org/3/";

/// A builder for `Tmdb`.
pub struct TmdbBuilder {
    token: String,
    base_url: Option<String>,
}

impl TmdbBuilder {
    /// The access token handed in at construction.
    pub closed spec fn token_spec(&self) -> Seq<char> {
        self.token@
    }

    /// The base URL override, if one was set.
    pub closed spec fn base_url_spec(&self) -> Option<Seq<char>> {
        opt_str_view(self.base_url)
    }

    /// The base URL that `build` will use: the override, or the default.
    pub open spec fn effective_base_spec(&self) -> Seq<char> {
        match self.base_url_spec() {
            Some(b) => b,
            None => "https://api.themoviedb.org/3/"@,
        }
    }

    /// Constructs a new `TmdbBuilder` from the given token.
    pub fn new(token: &str) -> (r: TmdbBuilder)
        ensures
            r.token_spec() == token@,
            r.base_url_spec() is None,
    {
        TmdbBuilder { token: token.to_owned(), base_url: None }
    }

    /// Sets the base URL for requests.
    pub fn base_url(self, base_url: &str) -> (r: TmdbBuilder)
        ensures
            r.token_spec() == self.token_spec(),
            r.base_url_spec() == Some(base_url@),
    {
        TmdbBuilder { token: self.token, base_url: Some(base_url.to_owned()) }
    }

    /// Builds a new `Tmdb` based on the current configuration. The base URL
    /// must resolve as an absolute URL; an invalid one fails fast, before
    /// any network call could be attempted.
    pub fn build(&self) -> (r: Result<Tmdb, Error>)
        ensures
            match r {
                Ok(t) => resolved_url_of(self.effective_base_spec(), ""@) is Some
                    && t.base_url_spec() == self.effective_base_spec() && t.auth_value_spec()
                    == "Bearer "@ + self.token_spec(),
                Err(e) => e == Error::UrlConstruction && resolved_url_of(
                    self.effective_base_spec(),
                    ""@,
                ) is None,
            },
    {
        let base: String = match &self.base_url {
            Some(b) => b.clone(),
            None => String::from_str(TMDB_BASE_URL),
        };
        match resolve_url(base.as_str(), "") {
            Some(_) => {},
            None => {
                return Err(Error::UrlConstruction);
            },
        }
        let auth_value = String::from_str("Bearer ").concat(self.token.as_str());
        Ok(Tmdb { base_url: base, auth_value })
    }
}

/// The request-time configuration of a client for the TMDB API: the
/// validated base URL and the authorization header value carrying the
/// caller's bearer token. A transport wraps this value and attaches the
/// header to every request; the configuration itself is never mutated
/// after construction.
pub struct Tmdb {
    base_url: String,
    auth_value: String,
}

impl Tmdb {
    /// The base URL for requests.
    pub closed spec fn base_url_spec(&self) -> Seq<char> {
        self.base_url@
    }

    /// The value of the authorization header sent with every request.
    pub closed spec fn auth_value_spec(&self) -> Seq<char> {
        self.auth_value@
    }

    /// Constructs a new `Tmdb` from the given token, with the default base
    /// URL. Failure can come only from the default base URL not resolving,
    /// which an actual resolution of it refutes.
    ///
    /// Use `Tmdb::builder` to configure the base URL for requests.
    pub fn new(token: &str) -> (r: Result<Tmdb, Error>)
        ensures
            match r {
                Ok(t) => resolved_url_of("https://api.themoviedb.org/3/"@, ""@) is Some
                    && t.base_url_spec() == "https://api.themoviedb.org/3/"@
                    && t.auth_value_spec() == "Bearer "@ + token@,
                Err(e) => e == Error::UrlConstruction && resolved_url_of(
                    "https://api.themoviedb.org/3/"@,
                    ""@,
                ) is None,
            },
    {
        TmdbBuilder::new(token).build()
    }

    /// Constructs a new `TmdbBuilder` from the given token.
    pub fn builder(token: &str) -> (r: TmdbBuilder)
        ensures
            r.token_spec() == token@,
            r.base_url_spec() is None,
    {
        TmdbBuilder::new(token)
    }

    /// Returns the base URL for requests.
    pub fn base_url(&self) -> (r: &str)
        ensures
            r@ == self.base_url_spec(),
    {
        self.base_url.as_str()
    }

    /// Returns the authorization header value for requests.
    pub fn auth_header_value(&self) -> (r: &str)
        ensures
            r@ == self.auth_value_spec(),
    {
        self.auth_value.as_str()
    }
}

} // verus!
