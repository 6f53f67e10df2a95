//! Configuration resolution for a flake publishing tool: raw flag and
//! environment text becomes one typed configuration value.
pub mod backfill;
pub mod config;
pub mod decimal;
mod outside;
pub mod schema;
pub mod sentinel;

pub use decimal::{parse_decimal_u64, NumberError};
pub use sentinel::{
    parse_empty_bool, parse_option_path, parse_option_spdx, parse_option_string, parse_option_u64,
    OptionPathBuf, OptionSpdxExpression, OptionString, OptionU64, ValidationError,
};
pub use schema::{
    choose_raw, env_names, parse_list, parse_visibility, Field, RawSource, Visibility,
};
pub use config::{resolve, ConfigError, FlakeHubPushCli, RawInputs, DEFAULT_HOST};
pub use backfill::{EnvVars, Platform};
