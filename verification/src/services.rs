//! The handlers of the service's endpoints.

pub mod add;
pub mod weather;
