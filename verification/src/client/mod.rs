pub mod session;
pub mod handler;
