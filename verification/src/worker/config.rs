//! The configuration of the worker.

use vstd::prelude::*;

use crate::env::{
    first_error, port_var_error, port_var_value, required_port, required_text, text_var_error,
    var_text, ConfigError, EnvVar,
};
use crate::text::u16_text_value;

verus! {

/// The configuration of the worker: the two payment processors, PostgreSQL and Redis.
#[derive(Clone, Debug)]
pub struct Config {
    pub payment_processor_default_url: String,
    pub payment_processor_fallback_url: String,
    pub postgres_host: String,
    pub postgres_port: u16,
    pub postgres_db: String,
    pub postgres_user: String,
    pub postgres_password: String,
    pub redis_url: String,
}

/// The first refusal among the variables, in the order in which the worker reads them.
pub open spec fn worker_config_error(
    default_url: Option<Seq<char>>,
    fallback_url: Option<Seq<char>>,
    postgres_host: Option<Seq<char>>,
    postgres_port: Option<Seq<char>>,
    postgres_db: Option<Seq<char>>,
    postgres_user: Option<Seq<char>>,
    postgres_password: Option<Seq<char>>,
    redis_url: Option<Seq<char>>,
) -> Option<ConfigError> {
    first_error(
        text_var_error(default_url, EnvVar::PaymentProcessorDefaultUrl),
        first_error(
            text_var_error(fallback_url, EnvVar::PaymentProcessorFallbackUrl),
            first_error(
                text_var_error(postgres_host, EnvVar::PostgresHost),
                first_error(
                    port_var_error(postgres_port, EnvVar::PostgresPort),
                    first_error(
                        text_var_error(postgres_db, EnvVar::PostgresDb),
                        first_error(
                            text_var_error(postgres_user, EnvVar::PostgresUser),
                            first_error(
                                text_var_error(postgres_password, EnvVar::PostgresPassword),
                                text_var_error(redis_url, EnvVar::RedisUrl),
                            ),
                        ),
                    ),
                ),
            ),
        ),
    )
}

impl Config {
    /// Builds the configuration from the values of `PAYMENT_PROCESSOR_DEFAULT_URL`,
    /// `PAYMENT_PROCESSOR_FALLBACK_URL`, `POSTGRES_HOST`, `POSTGRES_PORT`, `POSTGRES_DB`,
    /// `POSTGRES_USER`, `POSTGRES_PASSWORD` and `REDIS_URL` (`None` where one is unset).
    /// Refused at the first variable, in that order, that is unset or, for the port,
    /// holds no `u16`.
    pub fn from_vars(
        payment_processor_default_url: Option<String>,
        payment_processor_fallback_url: Option<String>,
        postgres_host: Option<String>,
        postgres_port: Option<String>,
        postgres_db: Option<String>,
        postgres_user: Option<String>,
        postgres_password: Option<String>,
        redis_url: Option<String>,
    ) -> (r: Result<Config, ConfigError>)
        ensures
            worker_config_error(
                var_text(payment_processor_default_url),
                var_text(payment_processor_fallback_url),
                var_text(postgres_host),
                var_text(postgres_port),
                var_text(postgres_db),
                var_text(postgres_user),
                var_text(postgres_password),
                var_text(redis_url),
            ) matches Some(e) ==> r == Err::<Config, ConfigError>(e),
            worker_config_error(
                var_text(payment_processor_default_url),
                var_text(payment_processor_fallback_url),
                var_text(postgres_host),
                var_text(postgres_port),
                var_text(postgres_db),
                var_text(postgres_user),
                var_text(postgres_password),
                var_text(redis_url),
            ) is None ==> (r matches Ok(c) && c.payment_processor_default_url@ == var_text(
                payment_processor_default_url,
            )->0 && c.payment_processor_fallback_url@ == var_text(
                payment_processor_fallback_url,
            )->0 && c.postgres_host@ == var_text(postgres_host)->0 && c.postgres_port
                == port_var_value(var_text(postgres_port)) && c.postgres_db@ == var_text(
                postgres_db,
            )->0 && c.postgres_user@ == var_text(postgres_user)->0 && c.postgres_password@
                == var_text(postgres_password)->0 && c.redis_url@ == var_text(redis_url)->0),
    {
        let payment_processor_default_url = required_text(
            payment_processor_default_url,
            EnvVar::PaymentProcessorDefaultUrl,
        )?;
        let payment_processor_fallback_url = required_text(
            payment_processor_fallback_url,
            EnvVar::PaymentProcessorFallbackUrl,
        )?;
        let postgres_host = required_text(postgres_host, EnvVar::PostgresHost)?;
        let postgres_port = required_port(postgres_port, EnvVar::PostgresPort)?;
        let postgres_db = required_text(postgres_db, EnvVar::PostgresDb)?;
        let postgres_user = required_text(postgres_user, EnvVar::PostgresUser)?;
        let postgres_password = required_text(postgres_password, EnvVar::PostgresPassword)?;
        let redis_url = required_text(redis_url, EnvVar::RedisUrl)?;
        Ok(Config {
            payment_processor_default_url,
            payment_processor_fallback_url,
            postgres_host,
            postgres_port,
            postgres_db,
            postgres_user,
            postgres_password,
            redis_url,
        })
    }
}

/// The worker starts exactly when every variable is set and the port variable holds a
/// number from 0 to 65535.
pub proof fn lemma_worker_config_accepted(
    default_url: Option<Seq<char>>,
    fallback_url: Option<Seq<char>>,
    postgres_host: Option<Seq<char>>,
    postgres_port: Option<Seq<char>>,
    postgres_db: Option<Seq<char>>,
    postgres_user: Option<Seq<char>>,
    postgres_password: Option<Seq<char>>,
    redis_url: Option<Seq<char>>,
)
    ensures
        worker_config_error(
            default_url,
            fallback_url,
            postgres_host,
            postgres_port,
            postgres_db,
            postgres_user,
            postgres_password,
            redis_url,
        ) is None <==> (default_url is Some && fallback_url is Some && postgres_host is Some
            && postgres_port is Some && u16_text_value(postgres_port->0) is Some && postgres_db is Some
            && postgres_user is Some && postgres_password is Some && redis_url is Some),
{
}

} // verus!
