pub mod executor;
pub mod headers;
pub mod model;
pub mod persist;
pub mod session;
