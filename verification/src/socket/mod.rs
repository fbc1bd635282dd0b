pub mod errors;
pub mod addr;
pub mod utils;
pub mod socket;
