use vstd::prelude::*;

verus! {

/// A movie genre.
#[derive(Clone, Debug, PartialEq)]
pub struct Genre {
    pub id: Option<u64>,
    pub name: Option<String>,
}

/// A company that produced a movie.
#[derive(Clone, Debug, PartialEq)]
pub struct ProductionCompany {
    pub name: Option<String>,
    pub id: Option<u64>,
    pub logo_path: Option<String>,
    pub origin_country: Option<String>,
}

/// A country a movie was produced in.
#[derive(Clone, Debug, PartialEq)]
pub struct ProductionCountry {
    pub iso_3166_1: Option<String>,
    pub name: Option<String>,
}

/// A language spoken in a movie.
#[derive(Clone, Debug, PartialEq)]
pub struct SpokenLanguage {
    pub iso_639_1: Option<String>,
    pub name: Option<String>,
}

/// One alternative title of a movie.
#[derive(Clone, Debug, PartialEq)]
pub struct Title {
    pub iso_3166_1: Option<String>,
    pub title: Option<String>,
    pub title_type: Option<String>,
}

/// The alternative titles of a movie.
#[derive(Clone, Debug, PartialEq)]
pub struct AlternativeTitles {
    pub id: Option<u64>,
    pub titles: Option<Vec<Title>>,
}

/// The details of a television network.
#[derive(Clone, Debug, PartialEq)]
pub struct NetworkDetails {
    pub headquarters: Option<String>,
    pub homepage: Option<String>,
    pub id: Option<u64>,
    pub logo_path: Option<String>,
    pub name: Option<String>,
    pub origin_country: Option<String>,
}

/// One alternative name of a television network.
#[derive(Clone, Debug, PartialEq)]
pub struct AlternativeNameResult {
    pub name: Option<String>,
    pub name_type: Option<String>,
}

/// The alternative names of a television network.
#[derive(Clone, Debug, PartialEq)]
pub struct AlternativeNames {
    pub id: Option<u64>,
    pub results: Option<Vec<AlternativeNameResult>>,
}

} // verus!
