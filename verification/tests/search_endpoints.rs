use eiga::search;
use eiga::{render_query, Endpoint, Pageable};

#[test]
fn get_movies_search() {
    let search_movies_endpoint = search::Movies::new("Samurai Spy")
        .language("en-US")
        .page(1)
        .include_adult(false)
        .region("US")
        .year(1965)
        .primary_release_year(1965);

    assert_eq!(search_movies_endpoint.method().name(), "GET");
    assert_eq!(search_movies_endpoint.path(), "search/movie");
    assert_eq!(
        render_query(&search_movies_endpoint.parameters()),
        "query=Samurai%20Spy&language=en-US&page=1&include_adult=false&region=US&year=1965&primary_release_year=1965"
    );
}

#[test]
fn movies_start_page_follows_page_parameter() {
    let without_page = search::Movies::new("Ringu");
    assert_eq!(without_page.start_page(), None);

    let with_page = search::Movies::new("Ringu").page(3);
    assert_eq!(with_page.start_page(), Some(3));
}

#[test]
fn search_movie_query_is_always_first() {
    let endpoint = search::SearchMovie::builder("Kwaidan").page(2).build();

    let parameters = endpoint.parameters();
    assert_eq!(parameters.len(), 2);
    assert_eq!(parameters.key_at(0), "query");
    assert_eq!(parameters.value_at(0).as_str(), "Kwaidan");
    assert_eq!(parameters.key_at(1), "page");
    assert_eq!(parameters.value_at(1).as_str(), "2");
}
