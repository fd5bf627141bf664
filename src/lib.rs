//! A small HTTP service with a single route: `GET /hello` answers with the JSON
//! object `{"message":"Hello, world!"}`; every other request is not found.
//!
//! The library holds what the service decides: which route a request takes, the
//! JSON text of the greeting, and the response that goes back. Sockets and the
//! server loop live outside it.
pub mod http;
pub mod json;
pub mod service;
