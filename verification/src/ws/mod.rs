pub mod connection;
pub mod echo;
pub mod frames;
pub mod hub;
pub mod payload;
pub mod session;
pub mod session_laws;
