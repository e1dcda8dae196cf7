//! Pipeline configuration and the driver's wiring plan.
//!
//! The driver creates the two channels, spawns the workers and the
//! collector, feeds the URL list in, and shuts down in order. The channels
//! and tasks are outside work; what is verified here is every number the
//! driver wires with: the worker count is exactly the configured
//! concurrency, the input channel keeps its hand-off capacity, and the URL
//! list reaches the input stage unchanged.

use vstd::prelude::*;
use crate::errors::ConfigError;
use crate::retry::{FetchPolicy, DEFAULT_BASE_DELAY_MS, DEFAULT_MAX_ATTEMPTS};
use crate::text::{all_digits, dec_val, parse_decimal};

verus! {

/// Default number of concurrent workers.
pub const DEFAULT_CONCURRENCY: usize = 128;

/// Capacity of the bounded input channel: hand-off semantics, the sole
/// backpressure point of the pipeline.
pub const INPUT_CHANNEL_CAPACITY: usize = 1;

/// Everything the pipeline runs with, built once at startup and passed
/// down; no worker consults ambient configuration.
#[derive(Debug, Clone, Copy, PartialEq, Eq, Structural)]
pub struct PipelineConfig {
    /// Number of workers pulling from the input channel.
    pub concurrency: usize,
    /// Capacity of the bounded input channel.
    pub input_capacity: usize,
    /// The per-request retry policy every worker applies.
    pub policy: FetchPolicy,
}

/// The policy the pipeline uses unless configured otherwise.
pub open spec fn default_policy_spec() -> FetchPolicy {
    FetchPolicy { max_attempts: DEFAULT_MAX_ATTEMPTS, base_delay_ms: DEFAULT_BASE_DELAY_MS, jitter: true }
}

impl PipelineConfig {
    /// Build the configuration from the optional concurrency override (the
    /// value of an environment variable, when set).
    ///
    /// No override means the default concurrency. An override that is not a
    /// decimal number fitting a machine word is a fatal configuration
    /// error, exactly as stated: nothing is guessed or clamped.
    pub fn from_override(raw: Option<&str>) -> (r: Result<PipelineConfig, ConfigError>)
        ensures
            match raw {
                None => r == Ok::<PipelineConfig, ConfigError>(
                    PipelineConfig {
                        concurrency: DEFAULT_CONCURRENCY,
                        input_capacity: INPUT_CHANNEL_CAPACITY,
                        policy: default_policy_spec(),
                    },
                ),
                Some(s) => if s@.len() > 0 && all_digits(s@) && dec_val(s@) <= usize::MAX {
                    r matches Ok(c) && c.concurrency == dec_val(s@) && c.input_capacity
                        == INPUT_CHANNEL_CAPACITY && c.policy == default_policy_spec()
                } else {
                    r == Err::<PipelineConfig, ConfigError>(ConfigError::InvalidConcurrency)
                },
            },
    {
        let policy = FetchPolicy {
            max_attempts: DEFAULT_MAX_ATTEMPTS,
            base_delay_ms: DEFAULT_BASE_DELAY_MS,
            jitter: true,
        };
        match raw {
            None => Ok(
                PipelineConfig {
                    concurrency: DEFAULT_CONCURRENCY,
                    input_capacity: INPUT_CHANNEL_CAPACITY,
                    policy,
                },
            ),
            Some(s) => match parse_decimal(s) {
                Some(n) => Ok(
                    PipelineConfig { concurrency: n, input_capacity: INPUT_CHANNEL_CAPACITY, policy },
                ),
                None => Err(ConfigError::InvalidConcurrency),
            },
        }
    }
}

/// The driver's wiring plan for one run.
pub struct PipelinePlan {
    /// How many workers to spawn.
    pub worker_count: usize,
    /// Capacity of the bounded input channel to create.
    pub input_capacity: usize,
    /// The URLs to enqueue, in input order.
    pub urls: Vec<String>,
}

/// Lay out one run: the number of workers launched is exactly the
/// configured concurrency — not one more, not one fewer — the input channel
/// keeps its configured bound, and the URL list is passed through whole and
/// in order.
pub fn plan_pipeline(config: &PipelineConfig, urls: Vec<String>) -> (p: PipelinePlan)
    ensures
        p.worker_count == config.concurrency,
        p.input_capacity == config.input_capacity,
        p.urls == urls,
{
    PipelinePlan { worker_count: config.concurrency, input_capacity: config.input_capacity, urls }
}

/// Where the driver stands in one run's startup and shutdown.
///
/// The order is fixed: spawn everything, enqueue every URL (blocking on the
/// bounded channel is the pipeline's backpressure), close the input so the
/// workers exit after draining it, await every worker, only then close the
/// output, and last await the collector. Closing the output after all
/// workers have finished is what guarantees no record is dropped.
#[derive(Debug, Clone, Copy, PartialEq, Eq, Structural)]
pub enum DriverPhase {
    /// Create both channels, spawn the workers and the collector.
    Spawn,
    /// Enqueue the URL at `next` into the input channel.
    Feed { next: usize },
    /// Every URL is enqueued: close the input channel.
    CloseInput,
    /// Wait until every worker has exited.
    AwaitWorkers,
    /// No worker can produce a record any more: close the output channel.
    CloseOutput,
    /// Wait until the collector has drained the output channel.
    AwaitCollector,
    /// The run is complete.
    Finished,
}

/// Advance the driver by one step of its fixed order.
pub fn drive(plan: &PipelinePlan, phase: DriverPhase) -> (r: DriverPhase)
    ensures
        match phase {
            DriverPhase::Spawn => r == (DriverPhase::Feed { next: 0 }),
            DriverPhase::Feed { next } => if next < plan.urls@.len() {
                r == (DriverPhase::Feed { next: (next + 1) as usize })
            } else {
                r == DriverPhase::CloseInput
            },
            DriverPhase::CloseInput => r == DriverPhase::AwaitWorkers,
            DriverPhase::AwaitWorkers => r == DriverPhase::CloseOutput,
            DriverPhase::CloseOutput => r == DriverPhase::AwaitCollector,
            DriverPhase::AwaitCollector => r == DriverPhase::Finished,
            DriverPhase::Finished => r == DriverPhase::Finished,
        },
{
    match phase {
        DriverPhase::Spawn => DriverPhase::Feed { next: 0 },
        DriverPhase::Feed { next } => {
            if next < plan.urls.len() {
                DriverPhase::Feed { next: next + 1 }
            } else {
                DriverPhase::CloseInput
            }
        },
        DriverPhase::CloseInput => DriverPhase::AwaitWorkers,
        DriverPhase::AwaitWorkers => DriverPhase::CloseOutput,
        DriverPhase::CloseOutput => DriverPhase::AwaitCollector,
        DriverPhase::AwaitCollector => DriverPhase::Finished,
        DriverPhase::Finished => DriverPhase::Finished,
    }
}

} // verus!
