pub mod address;
pub mod agent_config;
pub mod codec;
pub mod crypto;
pub mod error;
pub mod fetcher;
pub mod flow;
pub mod message;
pub mod payload;
pub mod proxy_config;
pub mod relay;
pub mod server;
pub mod service;
pub mod socks5;
pub mod text;
pub mod wire;
