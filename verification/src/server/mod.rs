pub mod network;
pub mod session;
