mod method;
mod request;
mod response;
mod statuscode;
mod uri;
mod version;

pub use method::Method;
pub use request::{blank_request, Request, RequestView};
pub use response::{
    head_text, header_lines, lemma_only_the_date_varies, not_found_body, plain_response, wire_bytes, Response, ResponseView,
};
pub use statuscode::StatusCode;
pub use uri::{fields_of_pairs, lemma_path_has_no_query, pair_entry, query_fields, uri_of, Uri, UriView};
pub use version::Version;
