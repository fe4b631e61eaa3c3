use vstd::prelude::*;

use crate::endpoint::Endpoint;
use crate::http::Method;
use crate::page::Pageable;
use crate::parameters::{
    clone_opt_string, opt_bool_text, opt_dec_u32, opt_dec_u64, opt_pair, opt_str_view, Parameters,
};

verus! {

/// The optional query string pairs a movie search sends, in their wire
/// order.
pub open spec fn spec_search_optional(
    language: Option<Seq<char>>,
    page: Option<Seq<char>>,
    include_adult: Option<Seq<char>>,
    region: Option<Seq<char>>,
    year: Option<Seq<char>>,
    primary_release_year: Option<Seq<char>>,
) -> Seq<(Seq<char>, Seq<char>)> {
    opt_pair("language"@, language) + opt_pair("page"@, page) + opt_pair(
        "include_adult"@,
        include_adult,
    ) + opt_pair("region"@, region) + opt_pair("year"@, year) + opt_pair(
        "primary_release_year"@,
        primary_release_year,
    )
}

/// The query string pairs a movie search sends, in their wire order.
pub open spec fn spec_search_pairs(
    query: Seq<char>,
    language: Option<Seq<char>>,
    page: Option<Seq<char>>,
    include_adult: Option<Seq<char>>,
    region: Option<Seq<char>>,
    year: Option<Seq<char>>,
    primary_release_year: Option<Seq<char>>,
) -> Seq<(Seq<char>, Seq<char>)> {
    seq![("query"@, query)] + spec_search_optional(
        language,
        page,
        include_adult,
        region,
        year,
        primary_release_year,
    )
}

/// A builder for `SearchMovie`.
pub struct SearchMovieBuilder {
    query: String,
    language: Option<String>,
    page: Option<u32>,
    include_adult: Option<bool>,
    region: Option<String>,
    year: Option<u32>,
    primary_release_year: Option<u32>,
}

impl SearchMovieBuilder {
    /// The search query this builder was made for.
    pub closed spec fn query_spec(&self) -> Seq<char> {
        self.query@
    }

    /// Constructs a new `SearchMovieBuilder` from the given query.
    pub fn new(query: &str) -> (r: SearchMovieBuilder)
        ensures
            r.query_spec() == query@,
            r.language_spec() is None,
            r.page_spec() is None,
            r.include_adult_spec() is None,
            r.region_spec() is None,
            r.year_spec() is None,
            r.primary_release_year_spec() is None,
    {
        SearchMovieBuilder {
            query: query.to_owned(),
            language: None,
            page: None,
            include_adult: None,
            region: None,
            year: None,
            primary_release_year: None,
        }
    }

    /// Sets the `language` query string parameter.
    pub fn language(self, language: &str) -> (r: SearchMovieBuilder)
        ensures
            r.query_spec() == self.query_spec(),
            r.language_spec() == Some(language@),
            r.page_spec() == self.page_spec(),
            r.include_adult_spec() == self.include_adult_spec(),
            r.region_spec() == self.region_spec(),
            r.year_spec() == self.year_spec(),
            r.primary_release_year_spec() == self.primary_release_year_spec(),
    {
        SearchMovieBuilder { language: Some(language.to_owned()), ..self }
    }

    /// Sets the `page` query string parameter.
    pub fn page(self, page: u32) -> (r: SearchMovieBuilder)
        ensures
            r.query_spec() == self.query_spec(),
            r.page_spec() == Some(page),
            r.language_spec() == self.language_spec(),
            r.include_adult_spec() == self.include_adult_spec(),
            r.region_spec() == self.region_spec(),
            r.year_spec() == self.year_spec(),
            r.primary_release_year_spec() == self.primary_release_year_spec(),
    {
        SearchMovieBuilder { page: Some(page), ..self }
    }

    /// Sets the `include_adult` query string parameter.
    pub fn include_adult(self, include_adult: bool) -> (r: SearchMovieBuilder)
        ensures
            r.query_spec() == self.query_spec(),
            r.include_adult_spec() == Some(include_adult),
            r.language_spec() == self.language_spec(),
            r.page_spec() == self.page_spec(),
            r.region_spec() == self.region_spec(),
            r.year_spec() == self.year_spec(),
            r.primary_release_year_spec() == self.primary_release_year_spec(),
    {
        SearchMovieBuilder { include_adult: Some(include_adult), ..self }
    }

    /// Sets the `region` query string parameter.
    pub fn region(self, region: &str) -> (r: SearchMovieBuilder)
        ensures
            r.query_spec() == self.query_spec(),
            r.region_spec() == Some(region@),
            r.language_spec() == self.language_spec(),
            r.page_spec() == self.page_spec(),
            r.include_adult_spec() == self.include_adult_spec(),
            r.year_spec() == self.year_spec(),
            r.primary_release_year_spec() == self.primary_release_year_spec(),
    {
        SearchMovieBuilder { region: Some(region.to_owned()), ..self }
    }

    /// Sets the `year` query string parameter.
    pub fn year(self, year: u32) -> (r: SearchMovieBuilder)
        ensures
            r.query_spec() == self.query_spec(),
            r.year_spec() == Some(year),
            r.language_spec() == self.language_spec(),
            r.page_spec() == self.page_spec(),
            r.include_adult_spec() == self.include_adult_spec(),
            r.region_spec() == self.region_spec(),
            r.primary_release_year_spec() == self.primary_release_year_spec(),
    {
        SearchMovieBuilder { year: Some(year), ..self }
    }

    /// Sets the `primary_release_year` query string parameter.
    pub fn primary_release_year(self, primary_release_year: u32) -> (r: SearchMovieBuilder)
        ensures
            r.query_spec() == self.query_spec(),
            r.primary_release_year_spec() == Some(primary_release_year),
            r.language_spec() == self.language_spec(),
            r.page_spec() == self.page_spec(),
            r.include_adult_spec() == self.include_adult_spec(),
            r.region_spec() == self.region_spec(),
            r.year_spec() == self.year_spec(),
    {
        SearchMovieBuilder { primary_release_year: Some(primary_release_year), ..self }
    }

    /// The language set so far, if any.
    pub closed spec fn language_spec(&self) -> Option<Seq<char>> {
        opt_str_view(self.language)
    }

    /// The page set so far, if any.
    pub closed spec fn page_spec(&self) -> Option<u32> {
        self.page
    }

    /// The adult-content flag set so far, if any.
    pub closed spec fn include_adult_spec(&self) -> Option<bool> {
        self.include_adult
    }

    /// The region set so far, if any.
    pub closed spec fn region_spec(&self) -> Option<Seq<char>> {
        opt_str_view(self.region)
    }

    /// The year set so far, if any.
    pub closed spec fn year_spec(&self) -> Option<u32> {
        self.year
    }

    /// The primary release year set so far, if any.
    pub closed spec fn primary_release_year_spec(&self) -> Option<u32> {
        self.primary_release_year
    }

    /// Builds a new `SearchMovie` based on the current configuration.
    pub fn build(&self) -> (r: SearchMovie)
        ensures
            r.spec_method() == Method::Get,
            r.spec_path() == "search/movie"@,
            r.spec_parameters() == spec_search_pairs(
                self.query_spec(),
                self.language_spec(),
                opt_dec_u32(self.page_spec()),
                opt_bool_text(self.include_adult_spec()),
                self.region_spec(),
                opt_dec_u32(self.year_spec()),
                opt_dec_u32(self.primary_release_year_spec()),
            ),
            r.spec_body() is None,
    {
        let r = SearchMovie {
            query: self.query.clone(),
            language: clone_opt_string(&self.language),
            page: self.page,
            include_adult: self.include_adult,
            region: clone_opt_string(&self.region),
            year: self.year,
            primary_release_year: self.primary_release_year,
        };
        r
    }
}

/// The endpoint to search for movies.
pub struct SearchMovie {
    query: String,
    language: Option<String>,
    page: Option<u32>,
    include_adult: Option<bool>,
    region: Option<String>,
    year: Option<u32>,
    primary_release_year: Option<u32>,
}

impl SearchMovie {
    /// Constructs a new `SearchMovieBuilder` from the given query.
    pub fn builder(query: &str) -> (r: SearchMovieBuilder)
        ensures
            r.query_spec() == query@,
            r.language_spec() is None,
            r.page_spec() is None,
            r.include_adult_spec() is None,
            r.region_spec() is None,
            r.year_spec() is None,
            r.primary_release_year_spec() is None,
    {
        SearchMovieBuilder::new(query)
    }
}

impl Endpoint for SearchMovie {
    closed spec fn spec_method(&self) -> Method {
        Method::Get
    }

    closed spec fn spec_path(&self) -> Seq<char> {
        "search/movie"@
    }

    closed spec fn spec_parameters(&self) -> Seq<(Seq<char>, Seq<char>)> {
        spec_search_pairs(
            self.query@,
            opt_str_view(self.language),
            opt_dec_u32(self.page),
            opt_bool_text(self.include_adult),
            opt_str_view(self.region),
            opt_dec_u32(self.year),
            opt_dec_u32(self.primary_release_year),
        )
    }

    closed spec fn spec_body(&self) -> Option<Seq<u8>> {
        None
    }

    fn method(&self) -> (m: Method) {
        Method::Get
    }

    fn path(&self) -> (p: String) {
        String::from_str("search/movie")
    }

    fn parameters(&self) -> (ps: Parameters) {
        let mut ps = Parameters::with_capacity(7);
        ps.push("query", Some(&self.query));
        ps.push("language", self.language.as_ref());
        ps.push("page", self.page.as_ref());
        ps.push("include_adult", self.include_adult.as_ref());
        ps.push("region", self.region.as_ref());
        ps.push("year", self.year.as_ref());
        ps.push("primary_release_year", self.primary_release_year.as_ref());
        proof {
            assert(ps@ =~= self.spec_parameters());
        }
        ps
    }

    fn body(&self) -> (b: Option<Vec<u8>>) {
        None
    }
}

/// The pageable movie search endpoint.
pub struct Movies {
    query: String,
    language: Option<String>,
    page: Option<u64>,
    include_adult: Option<bool>,
    region: Option<String>,
    year: Option<u64>,
    primary_release_year: Option<u64>,
}

impl Movies {
    /// Constructs a new `Movies` from the given query.
    pub fn new(query: &str) -> (r: Movies)
        ensures
            r.query_spec() == query@,
            r.language_spec() is None,
            r.page_spec() is None,
            r.include_adult_spec() is None,
            r.region_spec() is None,
            r.year_spec() is None,
            r.primary_release_year_spec() is None,
    {
        Movies {
            query: query.to_owned(),
            language: None,
            page: None,
            include_adult: None,
            region: None,
            year: None,
            primary_release_year: None,
        }
    }

    /// Sets the `language` query string parameter.
    pub fn language(self, language: &str) -> (r: Movies)
        ensures
            r.query_spec() == self.query_spec(),
            r.language_spec() == Some(language@),
            r.page_spec() == self.page_spec(),
            r.include_adult_spec() == self.include_adult_spec(),
            r.region_spec() == self.region_spec(),
            r.year_spec() == self.year_spec(),
            r.primary_release_year_spec() == self.primary_release_year_spec(),
    {
        Movies { language: Some(language.to_owned()), ..self }
    }

    /// Sets the `page` query string parameter, which is also the starting
    /// page of a pagination iterator over this endpoint.
    pub fn page(self, page: u64) -> (r: Movies)
        ensures
            r.query_spec() == self.query_spec(),
            r.language_spec() == self.language_spec(),
            r.page_spec() == Some(page),
            r.include_adult_spec() == self.include_adult_spec(),
            r.region_spec() == self.region_spec(),
            r.year_spec() == self.year_spec(),
            r.primary_release_year_spec() == self.primary_release_year_spec(),
    {
        Movies { page: Some(page), ..self }
    }

    /// Sets the `include_adult` query string parameter.
    pub fn include_adult(self, include_adult: bool) -> (r: Movies)
        ensures
            r.query_spec() == self.query_spec(),
            r.language_spec() == self.language_spec(),
            r.page_spec() == self.page_spec(),
            r.include_adult_spec() == Some(include_adult),
            r.region_spec() == self.region_spec(),
            r.year_spec() == self.year_spec(),
            r.primary_release_year_spec() == self.primary_release_year_spec(),
    {
        Movies { include_adult: Some(include_adult), ..self }
    }

    /// Sets the `region` query string parameter.
    pub fn region(self, region: &str) -> (r: Movies)
        ensures
            r.query_spec() == self.query_spec(),
            r.language_spec() == self.language_spec(),
            r.page_spec() == self.page_spec(),
            r.include_adult_spec() == self.include_adult_spec(),
            r.region_spec() == Some(region@),
            r.year_spec() == self.year_spec(),
            r.primary_release_year_spec() == self.primary_release_year_spec(),
    {
        Movies { region: Some(region.to_owned()), ..self }
    }

    /// Sets the `year` query string parameter.
    pub fn year(self, year: u64) -> (r: Movies)
        ensures
            r.query_spec() == self.query_spec(),
            r.language_spec() == self.language_spec(),
            r.page_spec() == self.page_spec(),
            r.include_adult_spec() == self.include_adult_spec(),
            r.region_spec() == self.region_spec(),
            r.year_spec() == Some(year),
            r.primary_release_year_spec() == self.primary_release_year_spec(),
    {
        Movies { year: Some(year), ..self }
    }

    /// Sets the `primary_release_year` query string parameter.
    pub fn primary_release_year(self, primary_release_year: u64) -> (r: Movies)
        ensures
            r.query_spec() == self.query_spec(),
            r.language_spec() == self.language_spec(),
            r.page_spec() == self.page_spec(),
            r.include_adult_spec() == self.include_adult_spec(),
            r.region_spec() == self.region_spec(),
            r.year_spec() == self.year_spec(),
            r.primary_release_year_spec() == Some(primary_release_year),
    {
        Movies { primary_release_year: Some(primary_release_year), ..self }
    }

    /// The search query this endpoint was made for.
    pub closed spec fn query_spec(&self) -> Seq<char> {
        self.query@
    }

    /// The language set so far, if any.
    pub closed spec fn language_spec(&self) -> Option<Seq<char>> {
        opt_str_view(self.language)
    }

    /// The page set so far, if any.
    pub closed spec fn page_spec(&self) -> Option<u64> {
        self.page
    }

    /// The adult-content flag set so far, if any.
    pub closed spec fn include_adult_spec(&self) -> Option<bool> {
        self.include_adult
    }

    /// The region set so far, if any.
    pub closed spec fn region_spec(&self) -> Option<Seq<char>> {
        opt_str_view(self.region)
    }

    /// The year set so far, if any.
    pub closed spec fn year_spec(&self) -> Option<u64> {
        self.year
    }

    /// The primary release year set so far, if any.
    pub closed spec fn primary_release_year_spec(&self) -> Option<u64> {
        self.primary_release_year
    }
}

impl Endpoint for Movies {
    closed spec fn spec_method(&self) -> Method {
        Method::Get
    }

    closed spec fn spec_path(&self) -> Seq<char> {
        "search/movie"@
    }

    closed spec fn spec_parameters(&self) -> Seq<(Seq<char>, Seq<char>)> {
        spec_search_pairs(
            self.query@,
            opt_str_view(self.language),
            opt_dec_u64(self.page),
            opt_bool_text(self.include_adult),
            opt_str_view(self.region),
            opt_dec_u64(self.year),
            opt_dec_u64(self.primary_release_year),
        )
    }

    closed spec fn spec_body(&self) -> Option<Seq<u8>> {
        None
    }

    fn method(&self) -> (m: Method) {
        Method::Get
    }

    fn path(&self) -> (p: String) {
        String::from_str("search/movie")
    }

    fn parameters(&self) -> (ps: Parameters) {
        let mut ps = Parameters::new();
        ps.push("query", Some(&self.query));
        ps.push("language", self.language.as_ref());
        ps.push("page", self.page.as_ref());
        ps.push("include_adult", self.include_adult.as_ref());
        ps.push("region", self.region.as_ref());
        ps.push("year", self.year.as_ref());
        ps.push("primary_release_year", self.primary_release_year.as_ref());
        proof {
            assert(ps@ =~= self.spec_parameters());
        }
        ps
    }

    fn body(&self) -> (b: Option<Vec<u8>>) {
        None
    }
}

impl Pageable for Movies {
    closed spec fn spec_start_page(&self) -> Option<u64> {
        self.page
    }

    fn start_page(&self) -> (p: Option<u64>) {
        self.page
    }
}

/// How a pageable movie search appears on the wire: a GET of the search
/// path, its query pairs assembled from its parts in their wire order, no
/// body, and the `page` parameter doubling as the starting page.
pub proof fn lemma_movies_endpoint(m: &Movies)
    ensures
        m.spec_method() == Method::Get,
        m.spec_path() == "search/movie"@,
        m.spec_parameters() == spec_search_pairs(
            m.query_spec(),
            m.language_spec(),
            opt_dec_u64(m.page_spec()),
            opt_bool_text(m.include_adult_spec()),
            m.region_spec(),
            opt_dec_u64(m.year_spec()),
            opt_dec_u64(m.primary_release_year_spec()),
        ),
        m.spec_body() is None,
        m.spec_start_page() == m.page_spec(),
{
}

} // verus!
