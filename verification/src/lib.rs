//! Bridging layer between an immediate-mode user interface and one HTTP
//! request: the slot that tracks the request's lifecycle, the response model
//! shown once the request completes, and the cookie jar rendering.

pub mod cookies;
pub mod page;
pub mod request;
pub mod response;
pub mod routes;
pub mod slot;
