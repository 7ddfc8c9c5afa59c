//! The operations behind the endpoints.

pub mod driver_service;
pub mod login_service;
pub mod payment_service;
pub mod rules;
pub mod transport_company_service;
pub mod user_service;
