pub mod mutation;
pub mod server_config;

pub use mutation::ConfigMutation;
pub use server_config::{ConfigManager, LoadedConfig, ServerConfig};
