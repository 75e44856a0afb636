//! The configuration of the HTTP service.

use vstd::prelude::*;

use crate::env::{
    first_error, port_var_error, port_var_value, required_port, required_text, text_var_error,
    var_text, ConfigError, EnvVar,
};
use crate::text::u16_text_value;

verus! {

/// Where the PostgreSQL server is and how to sign in.
#[derive(Clone, Debug)]
pub struct PostgresConfig {
    pub host: String,
    pub port: u16,
    pub db: String,
    pub user: String,
    pub password: String,
}

/// Where the Redis server is.
#[derive(Clone, Debug)]
pub struct RedisConfig {
    pub url: String,
}

/// The configuration of the HTTP service.
#[derive(Clone, Debug)]
pub struct Config {
    pub api_port: u16,
    pub postgres: PostgresConfig,
    pub redis: RedisConfig,
}

/// The first refusal among the variables, in the order in which the service reads them.
pub open spec fn api_config_error(
    api_port: Option<Seq<char>>,
    postgres_host: Option<Seq<char>>,
    postgres_port: Option<Seq<char>>,
    postgres_db: Option<Seq<char>>,
    postgres_user: Option<Seq<char>>,
    postgres_password: Option<Seq<char>>,
    redis_url: Option<Seq<char>>,
) -> Option<ConfigError> {
    first_error(
        port_var_error(api_port, EnvVar::ApiPort),
        first_error(
            text_var_error(postgres_host, EnvVar::PostgresHost),
            first_error(
                port_var_error(postgres_port, EnvVar::PostgresPort),
                first_error(
                    text_var_error(postgres_db, EnvVar::PostgresDb),
                    first_error(
                        text_var_error(postgres_user, EnvVar::PostgresUser),
                        first_error(
                            text_var_error(postgres_password, EnvVar::PostgresPassword),
                            text_var_error(redis_url, EnvVar::RedisUrl),
                        ),
                    ),
                ),
            ),
        ),
    )
}

impl Config {
    /// Builds the configuration from the values of `API_PORT`, `POSTGRES_HOST`,
    /// `POSTGRES_PORT`, `POSTGRES_DB`, `POSTGRES_USER`, `POSTGRES_PASSWORD` and
    /// `REDIS_URL` (`None` where one is unset). Refused at the first variable, in that
    /// order, that is unset or, for a port, holds no `u16`.
    pub fn from_vars(
        api_port: Option<String>,
        postgres_host: Option<String>,
        postgres_port: Option<String>,
        postgres_db: Option<String>,
        postgres_user: Option<String>,
        postgres_password: Option<String>,
        redis_url: Option<String>,
    ) -> (r: Result<Config, ConfigError>)
        ensures
            api_config_error(
                var_text(api_port),
                var_text(postgres_host),
                var_text(postgres_port),
                var_text(postgres_db),
                var_text(postgres_user),
                var_text(postgres_password),
                var_text(redis_url),
            ) matches Some(e) ==> r == Err::<Config, ConfigError>(e),
            api_config_error(
                var_text(api_port),
                var_text(postgres_host),
                var_text(postgres_port),
                var_text(postgres_db),
                var_text(postgres_user),
                var_text(postgres_password),
                var_text(redis_url),
            ) is None ==> (r matches Ok(c) && c.api_port == port_var_value(var_text(api_port))
                && c.postgres.host@ == var_text(postgres_host)->0
                && c.postgres.port == port_var_value(var_text(postgres_port))
                && c.postgres.db@ == var_text(postgres_db)->0
                && c.postgres.user@ == var_text(postgres_user)->0
                && c.postgres.password@ == var_text(postgres_password)->0
                && c.redis.url@ == var_text(redis_url)->0),
    {
        let api_port = required_port(api_port, EnvVar::ApiPort)?;
        let host = required_text(postgres_host, EnvVar::PostgresHost)?;
        let port = required_port(postgres_port, EnvVar::PostgresPort)?;
        let db = required_text(postgres_db, EnvVar::PostgresDb)?;
        let user = required_text(postgres_user, EnvVar::PostgresUser)?;
        let password = required_text(postgres_password, EnvVar::PostgresPassword)?;
        let url = required_text(redis_url, EnvVar::RedisUrl)?;
        Ok(Config {
            api_port,
            postgres: PostgresConfig { host, port, db, user, password },
            redis: RedisConfig { url },
        })
    }
}

/// The service starts exactly when every variable is set and both port variables hold
/// a number from 0 to 65535.
pub proof fn lemma_api_config_accepted(
    api_port: Option<Seq<char>>,
    postgres_host: Option<Seq<char>>,
    postgres_port: Option<Seq<char>>,
    postgres_db: Option<Seq<char>>,
    postgres_user: Option<Seq<char>>,
    postgres_password: Option<Seq<char>>,
    redis_url: Option<Seq<char>>,
)
    ensures
        api_config_error(
            api_port,
            postgres_host,
            postgres_port,
            postgres_db,
            postgres_user,
            postgres_password,
            redis_url,
        ) is None <==> (api_port is Some && u16_text_value(api_port->0) is Some && postgres_host is Some
            && postgres_port is Some && u16_text_value(postgres_port->0) is Some && postgres_db is Some
            && postgres_user is Some && postgres_password is Some && redis_url is Some),
{
}

} // verus!
