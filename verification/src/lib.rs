//! Kiro CLI access-token handling and the hook/janitor coordination lock,
//! with their decision logic stated and proved.

pub mod clock;
pub mod config;
pub mod coord_lock;
pub mod flow;
pub mod region;
pub mod rfc3339;
pub mod token;
