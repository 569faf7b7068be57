//! Cross-origin resource sharing policies: a declarative policy, how it is
//! read from and written to a configuration document, and the response
//! headers that it yields for a request.

pub mod document;
pub mod error;
pub mod guarantees;
pub mod header_name;
pub mod max_age;
pub mod method;
pub mod pattern;
pub mod policy;
pub mod resolve;
pub mod serde_header_name;
pub mod serde_method;
pub mod serde_regex_set;
pub mod text;

pub use document::{Document, ExposeDocument, HeadersDocument, MethodsDocument, OriginsDocument};
pub use error::PolicyError;
pub use header_name::{HeaderName, HeaderSet};
pub use method::{Method, MethodSet};
pub use pattern::SerdeRegexSet;
pub use policy::{AllowedHeaders, AllowedMethods, AllowedOrigins, Config, ExposeHeaders, Vary};
pub use resolve::{HeaderLine, Preflight, Request, ResponseHeader};
