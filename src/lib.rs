pub mod admin;
pub mod error;
pub mod governance;
pub mod lp;
pub mod math;
pub mod pool;
pub mod state;
pub mod swap;
