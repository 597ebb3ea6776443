//! Response finishing for routed services: the `Allow` and
//! `Content-Length` headers that a route adds to the response it produced,
//! and the state that a route's response future carries.

pub mod headers;
pub mod decimal;
pub mod finish;
pub mod route_future;
pub mod test_helpers;
pub mod laws;
