//! A small core library for backend services: configuration assembly,
//! signed-token issuance and verification, distributed unique identifiers,
//! and structured-log configuration, under one error type.
//!
//! The heart of the library is the identifier generator: a state machine
//! over a last-seen timestamp and a per-millisecond sequence counter, whose
//! bit-level packing, monotonicity and rollback handling are stated in the
//! contracts of [`snowflake`].

pub mod config;
pub mod decimal;
pub mod error;
pub mod snowflake;
pub mod snowflake_utils;
pub mod token;
pub mod tracing_logs;

pub use error::ClamberError;

pub use tracing_logs::{LogConfig, LogLevel};

pub use token::{is_valid_token, JwtConfig, JwtManager};

pub use snowflake::{SnowflakeConfig, SnowflakeIdInfo, SnowflakeManager};

pub use config::{ConfigBuilder, ConfigFormat, ConfigManager, ConfigValue};
