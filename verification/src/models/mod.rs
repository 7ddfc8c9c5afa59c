//! The values that requests carry in and responses carry out.

pub mod login_model;
pub mod payment_model;
pub mod transport_company_model;
pub mod user_model;
