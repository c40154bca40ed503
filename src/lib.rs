//! Resolves a connection configuration into an authenticated client for a
//! remote analytical database, choosing exactly one authentication method.
pub mod auth;
pub mod config;
pub mod connection;

pub use auth::{mask_password, password_record, plan_connection, AuthMethod, ConnectionPlan, Field, ResolutionError};
pub use config::{
    get_model_output_dirpath, get_passphrase, get_pydantic_options, Config, ConnectionConfig,
    ModelConfig, PydanticConfig, PydanticOptions,
};
pub use connection::{establish, ConnectError, Connection, Credentials};
