//! The subscription endpoint of a web backend.
//!
//! A decoded form submission (an email address and a name) is answered with an empty
//! `200 OK`. The handler logic lives here on plain values; the response itself is built
//! by `actix-web`.

pub mod form;
pub mod response;
pub mod routes;

pub use form::FormData;
pub use response::Response;
pub use routes::subscribe;
