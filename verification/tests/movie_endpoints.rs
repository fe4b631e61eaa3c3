use eiga::movie;
use eiga::{render_query, Endpoint};

#[test]
fn get_details() {
    let movie_details_endpoint = movie::Details::new(500).language("en-US");

    assert_eq!(movie_details_endpoint.method().name(), "GET");
    assert_eq!(movie_details_endpoint.path(), "movie/500");
    assert_eq!(
        render_query(&movie_details_endpoint.parameters()),
        "language=en-US"
    );
    assert!(movie_details_endpoint.body().is_none());
}

#[test]
fn get_alternative_titles() {
    let movie_alternative_titles_endpoint = movie::AlternativeTitles::new(500).country("US");

    assert_eq!(movie_alternative_titles_endpoint.method().name(), "GET");
    assert_eq!(
        movie_alternative_titles_endpoint.path(),
        "movie/500/alternative_titles"
    );
    assert_eq!(
        render_query(&movie_alternative_titles_endpoint.parameters()),
        "country=US"
    );
    assert!(movie_alternative_titles_endpoint.body().is_none());
}

#[test]
fn get_credits() {
    let movie_credits_endpoint = movie::Credits::new(500).language("en-US");

    assert_eq!(movie_credits_endpoint.method().name(), "GET");
    assert_eq!(movie_credits_endpoint.path(), "movie/500/credits");
    assert_eq!(
        render_query(&movie_credits_endpoint.parameters()),
        "language=en-US"
    );
    assert!(movie_credits_endpoint.body().is_none());
}

#[test]
fn details_can_append_sub_requests() {
    let endpoint = movie::Details::new(500)
        .language("en-US")
        .append_to_response("videos,images");

    assert_eq!(endpoint.path(), "movie/500");
    assert_eq!(
        render_query(&endpoint.parameters()),
        "language=en-US&append_to_response=videos%2Cimages"
    );

    let alone = movie::Details::new(500).append_to_response("videos");
    assert_eq!(render_query(&alone.parameters()), "append_to_response=videos");
}

#[test]
fn movie_builder_matches_details() {
    let endpoint = movie::Movie::builder(5030).language("en").build();

    assert_eq!(endpoint.method().name(), "GET");
    assert_eq!(endpoint.path(), "movie/5030");
    assert_eq!(render_query(&endpoint.parameters()), "language=en");
}

#[test]
fn movie_endpoints_without_options_have_empty_queries() {
    let details = movie::Details::new(42);
    let titles = movie::AlternativeTitles::new(42);
    let credits = movie::MovieCredits::builder(42).build();

    assert_eq!(details.parameters().len(), 0);
    assert_eq!(titles.parameters().len(), 0);
    assert_eq!(credits.parameters().len(), 0);
}
