//! A verified client library for a paginated REST API.
//!
//! The crate centers on the generic request/response protocol core: an
//! ordered query-parameter collection with a verified percent-encoding
//! codec, a capability interface for endpoint descriptors, the dispatch
//! contract that prepares one network exchange and decides what its wire
//! answer means, a pagination state machine that walks pages strictly in
//! order, and a closed error taxonomy. The network round trip itself is
//! the one thing left to the transport around the library.

mod client;
mod codec;
pub mod configuration;
mod country;
mod dispatch;
mod endpoint;
mod error;
mod http;
mod language;
pub mod models;
pub mod movie;
mod page;
mod parameters;
pub mod search;
mod text;
mod tmdb;
mod urls;
mod wire;

pub use client::Client;
pub use codec::{
    dec_bytes, enc_byte, enc_bytes, enc_pair, enc_value, find_char, hex_char_val, hex_digit_char,
    is_hex_char, is_unreserved_byte, lemma_query_round_trip, parse_query, query_safe_key,
    render_query, spec_parse, spec_parse_pair, spec_render,
};
pub use country::Country;
pub use dispatch::{
    build_request, interpret_response, is_success_status, lemma_interpretation_deterministic,
    spec_interpretation, spec_join, spec_request_url, HttpRequest,
};
pub use endpoint::Endpoint;
pub use error::Error;
pub use http::Method;
pub use language::Language;
pub use page::{
    fetches_to_exhaustion, lemma_pagination_exhausts, lemma_pagination_terminates, pages_visited,
    spec_advance, Page, PageIter, Pageable,
};
pub use parameters::{
    has_key, key_index, lemma_key_index, lemma_push_none_is_identity,
    lemma_replace_absent_is_push, lemma_replace_preserves_shape, opt_bool_text, opt_dec_u32,
    opt_dec_u64, opt_pair, opt_str_view, spec_push, spec_replace, Parameters, ToValue, Value,
};
pub use text::{dec_digit, dec_str, str_eq, string_views, u64_to_string};
pub use tmdb::{Tmdb, TmdbBuilder, TMDB_BASE_URL};
pub use urls::resolved_url_of;
pub use wire::{error_list_of, page_envelope_of, status_message_of};
