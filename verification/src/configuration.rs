use vstd::prelude::*;

use crate::endpoint::Endpoint;
use crate::http::Method;
use crate::parameters::Parameters;

verus! {

/// The API configuration endpoint.
pub struct ApiConfiguration {}

/// The countries configuration endpoint.
pub struct Countries {}

/// The jobs configuration endpoint.
pub struct Jobs {}

/// The languages configuration endpoint.
pub struct Languages {}

/// The primary translations configuration endpoint.
pub struct PrimaryTranslations {}

/// The timezones configuration endpoint.
pub struct Timezones {}

impl ApiConfiguration {
    /// Constructs a new `ApiConfiguration`.
    pub fn new() -> (r: ApiConfiguration)
        ensures
            r.spec_method() == Method::Get,
            r.spec_path() == "configuration"@,
            r.spec_parameters() == Seq::<(Seq<char>, Seq<char>)>::empty(),
            r.spec_body() is None,
    {
        ApiConfiguration {  }
    }
}

impl Endpoint for ApiConfiguration {
    open spec fn spec_method(&self) -> Method {
        Method::Get
    }

    open spec fn spec_path(&self) -> Seq<char> {
        "configuration"@
    }

    open spec fn spec_parameters(&self) -> Seq<(Seq<char>, Seq<char>)> {
        Seq::empty()
    }

    open spec fn spec_body(&self) -> Option<Seq<u8>> {
        None
    }

    fn method(&self) -> (m: Method) {
        Method::Get
    }

    fn path(&self) -> (p: String) {
        String::from_str("configuration")
    }

    fn parameters(&self) -> (ps: Parameters) {
        Parameters::new()
    }

    fn body(&self) -> (b: Option<Vec<u8>>) {
        None
    }
}

impl Countries {
    /// Constructs a new `Countries`.
    pub fn new() -> (r: Countries)
        ensures
            r.spec_method() == Method::Get,
            r.spec_path() == "configuration/countries"@,
            r.spec_parameters() == Seq::<(Seq<char>, Seq<char>)>::empty(),
            r.spec_body() is None,
    {
        Countries {  }
    }
}

impl Endpoint for Countries {
    open spec fn spec_method(&self) -> Method {
        Method::Get
    }

    open spec fn spec_path(&self) -> Seq<char> {
        "configuration/countries"@
    }

    open spec fn spec_parameters(&self) -> Seq<(Seq<char>, Seq<char>)> {
        Seq::empty()
    }

    open spec fn spec_body(&self) -> Option<Seq<u8>> {
        None
    }

    fn method(&self) -> (m: Method) {
        Method::Get
    }

    fn path(&self) -> (p: String) {
        String::from_str("configuration/countries")
    }

    fn parameters(&self) -> (ps: Parameters) {
        Parameters::new()
    }

    fn body(&self) -> (b: Option<Vec<u8>>) {
        None
    }
}

impl Jobs {
    /// Constructs a new `Jobs`.
    pub fn new() -> (r: Jobs)
        ensures
            r.spec_method() == Method::Get,
            r.spec_path() == "configuration/jobs"@,
            r.spec_parameters() == Seq::<(Seq<char>, Seq<char>)>::empty(),
            r.spec_body() is None,
    {
        Jobs {  }
    }
}

impl Endpoint for Jobs {
    open spec fn spec_method(&self) -> Method {
        Method::Get
    }

    open spec fn spec_path(&self) -> Seq<char> {
        "configuration/jobs"@
    }

    open spec fn spec_parameters(&self) -> Seq<(Seq<char>, Seq<char>)> {
        Seq::empty()
    }

    open spec fn spec_body(&self) -> Option<Seq<u8>> {
        None
    }

    fn method(&self) -> (m: Method) {
        Method::Get
    }

    fn path(&self) -> (p: String) {
        String::from_str("configuration/jobs")
    }

    fn parameters(&self) -> (ps: Parameters) {
        Parameters::new()
    }

    fn body(&self) -> (b: Option<Vec<u8>>) {
        None
    }
}

impl Languages {
    /// Constructs a new `Languages`.
    pub fn new() -> (r: Languages)
        ensures
            r.spec_method() == Method::Get,
            r.spec_path() == "configuration/languages"@,
            r.spec_parameters() == Seq::<(Seq<char>, Seq<char>)>::empty(),
            r.spec_body() is None,
    {
        Languages {  }
    }
}

impl Endpoint for Languages {
    open spec fn spec_method(&self) -> Method {
        Method::Get
    }

    open spec fn spec_path(&self) -> Seq<char> {
        "configuration/languages"@
    }

    open spec fn spec_parameters(&self) -> Seq<(Seq<char>, Seq<char>)> {
        Seq::empty()
    }

    open spec fn spec_body(&self) -> Option<Seq<u8>> {
        None
    }

    fn method(&self) -> (m: Method) {
        Method::Get
    }

    fn path(&self) -> (p: String) {
        String::from_str("configuration/languages")
    }

    fn parameters(&self) -> (ps: Parameters) {
        Parameters::new()
    }

    fn body(&self) -> (b: Option<Vec<u8>>) {
        None
    }
}

impl PrimaryTranslations {
    /// Constructs a new `PrimaryTranslations`.
    pub fn new() -> (r: PrimaryTranslations)
        ensures
            r.spec_method() == Method::Get,
            r.spec_path() == "configuration/primary_translations"@,
            r.spec_parameters() == Seq::<(Seq<char>, Seq<char>)>::empty(),
            r.spec_body() is None,
    {
        PrimaryTranslations {  }
    }
}

impl Endpoint for PrimaryTranslations {
    open spec fn spec_method(&self) -> Method {
        Method::Get
    }

    open spec fn spec_path(&self) -> Seq<char> {
        "configuration/primary_translations"@
    }

    open spec fn spec_parameters(&self) -> Seq<(Seq<char>, Seq<char>)> {
        Seq::empty()
    }

    open spec fn spec_body(&self) -> Option<Seq<u8>> {
        None
    }

    fn method(&self) -> (m: Method) {
        Method::Get
    }

    fn path(&self) -> (p: String) {
        String::from_str("configuration/primary_translations")
    }

    fn parameters(&self) -> (ps: Parameters) {
        Parameters::new()
    }

    fn body(&self) -> (b: Option<Vec<u8>>) {
        None
    }
}

impl Timezones {
    /// Constructs a new `Timezones`.
    pub fn new() -> (r: Timezones)
        ensures
            r.spec_method() == Method::Get,
            r.spec_path() == "configuration/timezones"@,
            r.spec_parameters() == Seq::<(Seq<char>, Seq<char>)>::empty(),
            r.spec_body() is None,
    {
        Timezones {  }
    }
}

impl Endpoint for Timezones {
    open spec fn spec_method(&self) -> Method {
        Method::Get
    }

    open spec fn spec_path(&self) -> Seq<char> {
        "configuration/timezones"@
    }

    open spec fn spec_parameters(&self) -> Seq<(Seq<char>, Seq<char>)> {
        Seq::empty()
    }

    open spec fn spec_body(&self) -> Option<Seq<u8>> {
        None
    }

    fn method(&self) -> (m: Method) {
        Method::Get
    }

    fn path(&self) -> (p: String) {
        String::from_str("configuration/timezones")
    }

    fn parameters(&self) -> (ps: Parameters) {
        Parameters::new()
    }

    fn body(&self) -> (b: Option<Vec<u8>>) {
        None
    }
}

} // verus!
