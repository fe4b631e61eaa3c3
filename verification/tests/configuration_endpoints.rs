use eiga::configuration;
use eiga::Endpoint;

#[test]
fn get_api_configuration() {
    let api_configuration_endpoint = configuration::ApiConfiguration::new();

    assert_eq!(api_configuration_endpoint.method().name(), "GET");
    assert_eq!(api_configuration_endpoint.path(), "configuration");
    assert_eq!(api_configuration_endpoint.parameters().len(), 0);
    assert!(api_configuration_endpoint.body().is_none());
}

#[test]
fn get_countries() {
    let countries_endpoint = configuration::Countries::new();

    assert_eq!(countries_endpoint.method().name(), "GET");
    assert_eq!(countries_endpoint.path(), "configuration/countries");
    assert_eq!(countries_endpoint.parameters().len(), 0);
}

#[test]
fn get_jobs() {
    let jobs_endpoint = configuration::Jobs::new();

    assert_eq!(jobs_endpoint.method().name(), "GET");
    assert_eq!(jobs_endpoint.path(), "configuration/jobs");
    assert_eq!(jobs_endpoint.parameters().len(), 0);
}

#[test]
fn get_languages() {
    let languages_endpoint = configuration::Languages::new();

    assert_eq!(languages_endpoint.method().name(), "GET");
    assert_eq!(languages_endpoint.path(), "configuration/languages");
    assert_eq!(languages_endpoint.parameters().len(), 0);
}

#[test]
fn get_primary_translations() {
    let primary_translations_endpoint = configuration::PrimaryTranslations::new();

    assert_eq!(primary_translations_endpoint.method().name(), "GET");
    assert_eq!(
        primary_translations_endpoint.path(),
        "configuration/primary_translations"
    );
    assert_eq!(primary_translations_endpoint.parameters().len(), 0);
}

#[test]
fn get_timezones() {
    let timezones_endpoint = configuration::Timezones::new();

    assert_eq!(timezones_endpoint.method().name(), "GET");
    assert_eq!(timezones_endpoint.path(), "configuration/timezones");
    assert_eq!(timezones_endpoint.parameters().len(), 0);
}
