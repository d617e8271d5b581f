//! An HTTP edge server library: request routing between static files and an
//! upstream API, header sanitising, URL composition and request correlation.

pub mod colors;
pub mod paths;
pub mod handlers;
pub mod headers;
pub mod router;
pub mod state;
pub mod middleware;
