pub mod client_error;

pub use client_error::ClientError;
