pub mod cli;
pub mod decimal;
pub mod endpoint;
pub mod error;
pub mod network;
pub mod percent;
pub mod text;

pub use error::Error;
