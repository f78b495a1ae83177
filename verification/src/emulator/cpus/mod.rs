pub mod w65c02;
