pub mod listener;
pub mod serve;
