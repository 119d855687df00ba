pub mod error_handler;

pub use error_handler::error_handler;
