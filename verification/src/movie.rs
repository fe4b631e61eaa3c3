use vstd::prelude::*;

use crate::endpoint::Endpoint;
use crate::http::Method;
use crate::parameters::{clone_opt_string, opt_pair, opt_str_view, Parameters};
use crate::text::{dec_str, u64_to_string};

verus! {

/// The movie details endpoint.
pub struct Details {
    id: u32,
    language: Option<String>,
    append_to_response: Option<String>,
}

impl Details {
    /// The movie ID this endpoint was made for.
    pub closed spec fn id_spec(&self) -> u32 {
        self.id
    }

    /// The language set so far, if any.
    pub closed spec fn language_spec(&self) -> Option<Seq<char>> {
        opt_str_view(self.language)
    }

    /// The appended sub-requests set so far, if any.
    pub closed spec fn append_to_response_spec(&self) -> Option<Seq<char>> {
        opt_str_view(self.append_to_response)
    }

    /// Constructs a new `Details` from the given movie ID.
    pub fn new(id: u32) -> (r: Details)
        ensures
            r.id_spec() == id,
            r.language_spec() is None,
            r.append_to_response_spec() is None,
    {
        Details { id, language: None, append_to_response: None }
    }

    /// Sets the `language` query string parameter.
    pub fn language(self, language: &str) -> (r: Details)
        ensures
            r.id_spec() == self.id_spec(),
            r.language_spec() == Some(language@),
            r.append_to_response_spec() == self.append_to_response_spec(),
    {
        Details { language: Some(language.to_owned()), ..self }
    }

    /// Sets the `append_to_response` query string parameter.
    pub fn append_to_response(self, append_to_response: &str) -> (r: Details)
        ensures
            r.id_spec() == self.id_spec(),
            r.language_spec() == self.language_spec(),
            r.append_to_response_spec() == Some(append_to_response@),
    {
        Details { append_to_response: Some(append_to_response.to_owned()), ..self }
    }
}

/// How a movie details request appears on the wire: a GET of the movie's
/// path, the optional `language` and `append_to_response` pairs in that
/// order, and no body.
pub proof fn lemma_details_endpoint(d: &Details)
    ensures
        d.spec_method() == Method::Get,
        d.spec_path() == "movie/"@ + dec_str(d.id_spec() as nat),
        d.spec_parameters() == opt_pair("language"@, d.language_spec()) + opt_pair(
            "append_to_response"@,
            d.append_to_response_spec(),
        ),
        d.spec_body() is None,
{
}

impl Endpoint for Details {
    closed spec fn spec_method(&self) -> Method {
        Method::Get
    }

    closed spec fn spec_path(&self) -> Seq<char> {
        "movie/"@ + dec_str(self.id as nat)
    }

    closed spec fn spec_parameters(&self) -> Seq<(Seq<char>, Seq<char>)> {
        opt_pair("language"@, opt_str_view(self.language)) + opt_pair(
            "append_to_response"@,
            opt_str_view(self.append_to_response),
        )
    }

    closed spec fn spec_body(&self) -> Option<Seq<u8>> {
        None
    }

    fn method(&self) -> (m: Method) {
        Method::Get
    }

    fn path(&self) -> (p: String) {
        String::from_str("movie/").concat(u64_to_string(self.id as u64).as_str())
    }

    fn parameters(&self) -> (ps: Parameters) {
        let mut ps = Parameters::new();
        ps.push("language", self.language.as_ref());
        ps.push("append_to_response", self.append_to_response.as_ref());
        proof {
            assert(ps@ =~= self.spec_parameters());
        }
        ps
    }

    fn body(&self) -> (b: Option<Vec<u8>>) {
        None
    }
}

/// The alternative movie titles endpoint.
pub struct AlternativeTitles {
    id: u32,
    country: Option<String>,
}

impl AlternativeTitles {
    /// Constructs a new `AlternativeTitles` from the given movie ID.
    pub fn new(id: u32) -> (r: AlternativeTitles)
        ensures
            r.spec_method() == Method::Get,
            r.spec_path() == "movie/"@ + dec_str(id as nat) + "/alternative_titles"@,
            r.spec_parameters() == Seq::<(Seq<char>, Seq<char>)>::empty(),
            r.spec_body() is None,
    {
        AlternativeTitles { id, country: None }
    }

    /// Sets the `country` query string parameter.
    pub fn country(self, country: &str) -> (r: AlternativeTitles)
        ensures
            r.spec_method() == self.spec_method(),
            r.spec_path() == self.spec_path(),
            r.spec_parameters() == seq![("country"@, country@)],
            r.spec_body() is None,
    {
        let r = AlternativeTitles { id: self.id, country: Some(country.to_owned()) };
        proof {
            assert(r.spec_parameters() =~= seq![("country"@, country@)]);
        }
        r
    }
}

impl Endpoint for AlternativeTitles {
    closed spec fn spec_method(&self) -> Method {
        Method::Get
    }

    closed spec fn spec_path(&self) -> Seq<char> {
        "movie/"@ + dec_str(self.id as nat) + "/alternative_titles"@
    }

    closed spec fn spec_parameters(&self) -> Seq<(Seq<char>, Seq<char>)> {
        opt_pair("country"@, opt_str_view(self.country))
    }

    closed spec fn spec_body(&self) -> Option<Seq<u8>> {
        None
    }

    fn method(&self) -> (m: Method) {
        Method::Get
    }

    fn path(&self) -> (p: String) {
        String::from_str("movie/").concat(u64_to_string(self.id as u64).as_str()).concat(
            "/alternative_titles",
        )
    }

    fn parameters(&self) -> (ps: Parameters) {
        let mut ps = Parameters::new();
        ps.push("country", self.country.as_ref());
        proof {
            assert(ps@ =~= self.spec_parameters());
        }
        ps
    }

    fn body(&self) -> (b: Option<Vec<u8>>) {
        None
    }
}

/// The movie credits endpoint.
pub struct Credits {
    id: u64,
    language: Option<String>,
}

impl Credits {
    /// Constructs a new `Credits` from the given movie ID.
    pub fn new(id: u64) -> (r: Credits)
        ensures
            r.spec_method() == Method::Get,
            r.spec_path() == "movie/"@ + dec_str(id as nat) + "/credits"@,
            r.spec_parameters() == Seq::<(Seq<char>, Seq<char>)>::empty(),
            r.spec_body() is None,
    {
        Credits { id, language: None }
    }

    /// Sets the `language` query string parameter.
    pub fn language(self, language: &str) -> (r: Credits)
        ensures
            r.spec_method() == self.spec_method(),
            r.spec_path() == self.spec_path(),
            r.spec_parameters() == seq![("language"@, language@)],
            r.spec_body() is None,
    {
        let r = Credits { id: self.id, language: Some(language.to_owned()) };
        proof {
            assert(r.spec_parameters() =~= seq![("language"@, language@)]);
        }
        r
    }
}

impl Endpoint for Credits {
    closed spec fn spec_method(&self) -> Method {
        Method::Get
    }

    closed spec fn spec_path(&self) -> Seq<char> {
        "movie/"@ + dec_str(self.id as nat) + "/credits"@
    }

    closed spec fn spec_parameters(&self) -> Seq<(Seq<char>, Seq<char>)> {
        opt_pair("language"@, opt_str_view(self.language))
    }

    closed spec fn spec_body(&self) -> Option<Seq<u8>> {
        None
    }

    fn method(&self) -> (m: Method) {
        Method::Get
    }

    fn path(&self) -> (p: String) {
        String::from_str("movie/").concat(u64_to_string(self.id).as_str()).concat("/credits")
    }

    fn parameters(&self) -> (ps: Parameters) {
        let mut ps = Parameters::new();
        ps.push("language", self.language.as_ref());
        proof {
            assert(ps@ =~= self.spec_parameters());
        }
        ps
    }

    fn body(&self) -> (b: Option<Vec<u8>>) {
        None
    }
}

/// A builder for `Movie`.
pub struct MovieBuilder {
    id: u32,
    language: Option<String>,
}

impl MovieBuilder {
    /// Constructs a new `MovieBuilder` from the given movie ID.
    pub fn new(id: u32) -> (r: MovieBuilder)
        ensures
            r.id_spec() == id,
            r.language_spec() is None,
    {
        MovieBuilder { id, language: None }
    }

    /// The movie ID this builder was made for.
    pub closed spec fn id_spec(&self) -> u32 {
        self.id
    }

    /// The language set so far, if any.
    pub closed spec fn language_spec(&self) -> Option<Seq<char>> {
        opt_str_view(self.language)
    }

    /// Sets the `language` query string parameter.
    pub fn language(self, language: &str) -> (r: MovieBuilder)
        ensures
            r.id_spec() == self.id_spec(),
            r.language_spec() == Some(language@),
    {
        MovieBuilder { id: self.id, language: Some(language.to_owned()) }
    }

    /// Builds a new `Movie` based on the current configuration.
    pub fn build(&self) -> (r: Movie)
        ensures
            r.spec_method() == Method::Get,
            r.spec_path() == "movie/"@ + dec_str(self.id_spec() as nat),
            r.spec_parameters() == opt_pair("language"@, self.language_spec()),
            r.spec_body() is None,
    {
        Movie { id: self.id, language: clone_opt_string(&self.language) }
    }
}

/// The endpoint to fetch the details of a movie.
pub struct Movie {
    id: u32,
    language: Option<String>,
}

impl Movie {
    /// Constructs a new `MovieBuilder` from the given movie ID.
    pub fn builder(id: u32) -> (r: MovieBuilder)
        ensures
            r.id_spec() == id,
            r.language_spec() is None,
    {
        MovieBuilder::new(id)
    }
}

impl Endpoint for Movie {
    closed spec fn spec_method(&self) -> Method {
        Method::Get
    }

    closed spec fn spec_path(&self) -> Seq<char> {
        "movie/"@ + dec_str(self.id as nat)
    }

    closed spec fn spec_parameters(&self) -> Seq<(Seq<char>, Seq<char>)> {
        opt_pair("language"@, opt_str_view(self.language))
    }

    closed spec fn spec_body(&self) -> Option<Seq<u8>> {
        None
    }

    fn method(&self) -> (m: Method) {
        Method::Get
    }

    fn path(&self) -> (p: String) {
        String::from_str("movie/").concat(u64_to_string(self.id as u64).as_str())
    }

    fn parameters(&self) -> (ps: Parameters) {
        let mut ps = Parameters::new();
        ps.push("language", self.language.as_ref());
        proof {
            assert(ps@ =~= self.spec_parameters());
        }
        ps
    }

    fn body(&self) -> (b: Option<Vec<u8>>) {
        None
    }
}

/// A builder for `MovieCredits`.
pub struct MovieCreditsBuilder {
    id: u32,
    language: Option<String>,
}

impl MovieCreditsBuilder {
    /// Constructs a new `MovieCreditsBuilder` from the given movie ID.
    pub fn new(id: u32) -> (r: MovieCreditsBuilder)
        ensures
            r.id_spec() == id,
            r.language_spec() is None,
    {
        MovieCreditsBuilder { id, language: None }
    }

    /// The movie ID this builder was made for.
    pub closed spec fn id_spec(&self) -> u32 {
        self.id
    }

    /// The language set so far, if any.
    pub closed spec fn language_spec(&self) -> Option<Seq<char>> {
        opt_str_view(self.language)
    }

    /// Sets the `language` query string parameter.
    pub fn language(self, language: &str) -> (r: MovieCreditsBuilder)
        ensures
            r.id_spec() == self.id_spec(),
            r.language_spec() == Some(language@),
    {
        MovieCreditsBuilder { id: self.id, language: Some(language.to_owned()) }
    }

    /// Builds a new `MovieCredits` based on the current configuration.
    pub fn build(&self) -> (r: MovieCredits)
        ensures
            r.spec_method() == Method::Get,
            r.spec_path() == "movie/"@ + dec_str(self.id_spec() as nat) + "/credits"@,
            r.spec_parameters() == opt_pair("language"@, self.language_spec()),
            r.spec_body() is None,
    {
        MovieCredits { id: self.id, language: clone_opt_string(&self.language) }
    }
}

/// The endpoint to fetch the credits for a movie.
pub struct MovieCredits {
    id: u32,
    language: Option<String>,
}

impl MovieCredits {
    /// Constructs a new `MovieCreditsBuilder` from the given movie ID.
    pub fn builder(id: u32) -> (r: MovieCreditsBuilder)
        ensures
            r.id_spec() == id,
            r.language_spec() is None,
    {
        MovieCreditsBuilder::new(id)
    }
}

impl Endpoint for MovieCredits {
    closed spec fn spec_method(&self) -> Method {
        Method::Get
    }

    closed spec fn spec_path(&self) -> Seq<char> {
        "movie/"@ + dec_str(self.id as nat) + "/credits"@
    }

    closed spec fn spec_parameters(&self) -> Seq<(Seq<char>, Seq<char>)> {
        opt_pair("language"@, opt_str_view(self.language))
    }

    closed spec fn spec_body(&self) -> Option<Seq<u8>> {
        None
    }

    fn method(&self) -> (m: Method) {
        Method::Get
    }

    fn path(&self) -> (p: String) {
        String::from_str("movie/").concat(u64_to_string(self.id as u64).as_str()).concat("/credits")
    }

    fn parameters(&self) -> (ps: Parameters) {
        let mut ps = Parameters::new();
        ps.push("language", self.language.as_ref());
        proof {
            assert(ps@ =~= self.spec_parameters());
        }
        ps
    }

    fn body(&self) -> (b: Option<Vec<u8>>) {
        None
    }
}

} // verus!
