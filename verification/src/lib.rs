//! Request authentication and failure classification for a small account and
//! loyalty-card service.

pub mod decimal;
pub mod error;
pub mod handlers;
pub mod models;
pub mod reply;
pub mod requests;
pub mod session;
