//! What every part of the service shares while it runs, besides the
//! database: the settings of the session tokens and the one issuer of
//! identifiers.

use crate::common::error::{id_failure_message, AppError, IdFailure};
use crate::common::snowflake::{issued_under, one_generation, SnowflakeError, SnowflakeIdBucket};
use crate::config::JwtConfig;
use std::sync::Arc;
use vstd::prelude::*;

verus! {

/// The shared state of the service.
pub struct AppState {
    pub jwt_config: JwtConfig,
    pub id_generator: Arc<SnowflakeIdBucket>,
}

impl AppState {
    /// The state made of its parts.
    pub fn new(jwt_config: JwtConfig, id_generator: Arc<SnowflakeIdBucket>) -> (state: Self)
        ensures
            state.jwt_config == jwt_config,
            state.id_generator == id_generator,
    {
        Self { jwt_config, id_generator }
    }

    /// A fresh identifier for a new entity, or the generator's failure: one
    /// generation of the shared issuer.
    pub fn generate_id(&self) -> (outcome: Result<i64, SnowflakeError>)
        ensures
            one_generation(
                outcome,
                self.id_generator.datacenter_id(),
                self.id_generator.machine_id(),
                self.id_generator.epoch(),
            ),
            match outcome {
                Ok(id) => issued_under(
                    id as int,
                    self.id_generator.datacenter_id(),
                    self.id_generator.machine_id(),
                    self.id_generator.epoch(),
                ),
                Err(error) => error == SnowflakeError::ClockMovedBackwards,
            },
    {
        self.id_generator.get_id()
    }

    /// A fresh identifier for a new entity. A failure of the generator is a
    /// fault of the service, not of the request: the client is answered with
    /// an internal error of one fixed text, and the log keeps `context` and
    /// the generator's message.
    pub fn generate_id_for(&self, context: &str) -> (outcome: Result<i64, IdFailure>)
        ensures
            match outcome {
                Ok(id) => issued_under(
                    id as int,
                    self.id_generator.datacenter_id(),
                    self.id_generator.machine_id(),
                    self.id_generator.epoch(),
                ),
                Err(failure) => {
                    &&& failure.answer matches AppError::InternalError(message) && message@
                        == id_failure_message()
                    &&& failure.log@ == context@ + ": "@
                        + SnowflakeError::ClockMovedBackwards.message()
                },
            },
    {
        match self.generate_id() {
            Ok(id) => Ok(id),
            Err(error) => Err(AppError::from_id_failure(context, error)),
        }
    }

    /// As many fresh identifiers as `count`, or what the first failure comes
    /// to; then none of them is handed out.
    pub fn generate_ids_for(&self, count: usize, context: &str) -> (outcome: Result<
        Vec<i64>,
        IdFailure,
    >)
        ensures
            match outcome {
                Ok(ids) => {
                    &&& ids@.len() == count
                    &&& forall|i: int|
                        0 <= i < count ==> issued_under(
                            #[trigger] ids@[i] as int,
                            self.id_generator.datacenter_id(),
                            self.id_generator.machine_id(),
                            self.id_generator.epoch(),
                        )
                },
                Err(failure) => {
                    &&& failure.answer matches AppError::InternalError(message) && message@
                        == id_failure_message()
                    &&& failure.log@ == context@ + ": "@
                        + SnowflakeError::ClockMovedBackwards.message()
                },
            },
    {
        match self.id_generator.get_ids(count) {
            Ok(ids) => Ok(ids),
            Err(error) => Err(AppError::from_id_failure(context, error)),
        }
    }
}

} // verus!
