//! A small HTTP greeting service, as a library: the routes it registers, the
//! decoding of its one query parameter, its two handlers, and the API
//! description generated from the registered routes.

pub mod docs;
pub mod handlers;
pub mod query;
pub mod routes;

pub use docs::{gen_api_doc, ApiDoc, DocError};
pub use handlers::{hello_with_name, hello_world};
pub use query::{MyQueryParams, QueryRejection};
pub use routes::{dispatch, lookup, routes, Handler, Response, Route, Status};
