//! The three requests that the vault serves.

pub mod deposit;
pub mod initialize;
pub mod withdraw;

pub use deposit::Deposit;
pub use initialize::{Initialize, InitializeBumps};
pub use withdraw::WithDraw;
