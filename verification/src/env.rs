//! The environment variables that configure the services, and how each is read.

use vstd::prelude::*;

use crate::text::{parse_u16, u16_text_value};

verus! {

/// An environment variable that a service reads at start.
#[derive(Clone, Copy, Debug, PartialEq, Eq, Structural)]
pub enum EnvVar {
    ApiPort,
    PaymentProcessorDefaultUrl,
    PaymentProcessorFallbackUrl,
    PostgresHost,
    PostgresPort,
    PostgresDb,
    PostgresUser,
    PostgresPassword,
    RedisUrl,
}

/// The name under which each variable is looked up.
pub open spec fn env_var_name(var: EnvVar) -> Seq<char> {
    match var {
        EnvVar::ApiPort => "API_PORT"@,
        EnvVar::PaymentProcessorDefaultUrl => "PAYMENT_PROCESSOR_DEFAULT_URL"@,
        EnvVar::PaymentProcessorFallbackUrl => "PAYMENT_PROCESSOR_FALLBACK_URL"@,
        EnvVar::PostgresHost => "POSTGRES_HOST"@,
        EnvVar::PostgresPort => "POSTGRES_PORT"@,
        EnvVar::PostgresDb => "POSTGRES_DB"@,
        EnvVar::PostgresUser => "POSTGRES_USER"@,
        EnvVar::PostgresPassword => "POSTGRES_PASSWORD"@,
        EnvVar::RedisUrl => "REDIS_URL"@,
    }
}

impl EnvVar {
    /// The name under which the variable is looked up.
    pub fn name(&self) -> (r: &'static str)
        ensures
            r@ == env_var_name(*self),
    {
        match self {
            EnvVar::ApiPort => "API_PORT",
            EnvVar::PaymentProcessorDefaultUrl => "PAYMENT_PROCESSOR_DEFAULT_URL",
            EnvVar::PaymentProcessorFallbackUrl => "PAYMENT_PROCESSOR_FALLBACK_URL",
            EnvVar::PostgresHost => "POSTGRES_HOST",
            EnvVar::PostgresPort => "POSTGRES_PORT",
            EnvVar::PostgresDb => "POSTGRES_DB",
            EnvVar::PostgresUser => "POSTGRES_USER",
            EnvVar::PostgresPassword => "POSTGRES_PASSWORD",
            EnvVar::RedisUrl => "REDIS_URL",
        }
    }
}

/// Why a service cannot start with the environment it was given.
#[derive(Clone, Copy, Debug, PartialEq, Eq, Structural)]
pub enum ConfigError {
    /// The variable is not set.
    Missing(EnvVar),
    /// The variable holds no number from 0 to 65535.
    InvalidPort(EnvVar),
}

/// The message with which a service refuses to start.
pub open spec fn config_error_message(e: ConfigError) -> Seq<char> {
    match e {
        ConfigError::Missing(var) => env_var_name(var) + " env must be set"@,
        ConfigError::InvalidPort(var) => env_var_name(var) + " env must be a valid u16"@,
    }
}

impl ConfigError {
    /// The message with which a service refuses to start.
    pub fn message(&self) -> (r: String)
        ensures
            r@ == config_error_message(*self),
    {
        match self {
            ConfigError::Missing(var) => {
                let mut r = String::from_str(var.name());
                r.append(" env must be set");
                r
            },
            ConfigError::InvalidPort(var) => {
                let mut r = String::from_str(var.name());
                r.append(" env must be a valid u16");
                r
            },
        }
    }
}

/// The text of a variable that may be unset.
pub open spec fn var_text(value: Option<String>) -> Option<Seq<char>> {
    match value {
        Some(s) => Some(s@),
        None => None,
    }
}

/// The refusal that a text variable gives, if any.
pub open spec fn text_var_error(value: Option<Seq<char>>, var: EnvVar) -> Option<ConfigError> {
    match value {
        Some(_) => None,
        None => Some(ConfigError::Missing(var)),
    }
}

/// The refusal that a port variable gives, if any.
pub open spec fn port_var_error(value: Option<Seq<char>>, var: EnvVar) -> Option<ConfigError> {
    match value {
        Some(t) => match u16_text_value(t) {
            Some(_) => None,
            None => Some(ConfigError::InvalidPort(var)),
        },
        None => Some(ConfigError::Missing(var)),
    }
}

/// The port that a variable holds, where it holds one.
pub open spec fn port_var_value(value: Option<Seq<char>>) -> u16 {
    u16_text_value(value->0)->0
}

/// The first refusal of two, where there is one.
pub open spec fn first_error(a: Option<ConfigError>, b: Option<ConfigError>) -> Option<ConfigError> {
    match a {
        Some(e) => Some(e),
        None => b,
    }
}

/// Takes the text of a variable that must be set.
pub fn required_text(value: Option<String>, var: EnvVar) -> (r: Result<String, ConfigError>)
    ensures
        text_var_error(var_text(value), var) matches Some(e) ==> r == Err::<String, ConfigError>(e),
        text_var_error(var_text(value), var) is None ==> (r matches Ok(s) && s@ == var_text(value)->0),
{
    match value {
        Some(s) => Ok(s),
        None => Err(ConfigError::Missing(var)),
    }
}

/// Reads the port that a variable must hold.
pub fn required_port(value: Option<String>, var: EnvVar) -> (r: Result<u16, ConfigError>)
    ensures
        port_var_error(var_text(value), var) matches Some(e) ==> r == Err::<u16, ConfigError>(e),
        port_var_error(var_text(value), var) is None ==> r == Ok::<u16, ConfigError>(
            port_var_value(var_text(value)),
        ),
{
    match value {
        Some(s) => match parse_u16(s.as_str()) {
            Some(port) => Ok(port),
            None => Err(ConfigError::InvalidPort(var)),
        },
        None => Err(ConfigError::Missing(var)),
    }
}

} // verus!
