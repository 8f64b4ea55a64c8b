pub mod client;
pub mod config;
pub mod decimal;
pub mod facade;
pub mod json;
pub mod live;
pub mod pagination;
pub mod resources;

pub use crate::config::{get_api_base, get_api_key, set_config, ApiConfig, SwarmNodeConfig};
