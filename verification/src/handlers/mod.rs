//! What the endpoints send back for what the services found.

pub mod payment_handlers;
