pub mod configuration;
pub mod protocol;
pub mod queue;
pub mod server;
