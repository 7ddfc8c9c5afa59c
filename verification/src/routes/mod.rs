//! What the routes answer that needs no service behind it.

pub mod protected_route;
