//! A typed client library for a document-management REST service.
//!
//! The library states, and proves, the request-dispatch pipeline: how a
//! request is framed, how a reply is classified, which error each failure
//! becomes, and how a paginated collection reaches its neighbouring pages.
//! The network itself is driven by the caller, which hands the library what
//! it observed and does what the library decides.
pub mod auth;
pub mod client;
pub mod dispatch;
pub mod error;
pub mod method;
pub mod pagination;
pub mod response;
pub mod schema;
pub mod share_links;

pub use auth::Auth;
pub use client::{Client, Extra, Request};
pub use dispatch::{Shape, Step};
pub use error::{Content, Error};
pub use method::Method;
pub use pagination::Paginated;
pub use response::Response;
pub use schema::{Correspondent, ImapSecurity, MatchingAlgorithm, PermissionSet, Permissions};
