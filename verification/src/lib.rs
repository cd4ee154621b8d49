//! Verified core of the tanoshi manga reader: the decisions of its web
//! components (what each message does to a component's state and which
//! requests, DOM changes and renders follow), the grammar of its routes, and
//! the request decoding of its favorites endpoint.

pub mod fetch;
pub mod route;
pub mod model;
pub mod app;
pub mod favorites;
pub mod catalogue;
