use crate::config::Config;
use crate::time::duration_of_secs;
use deadpool::managed::{PoolConfig, QueueMode, Timeouts};
use vstd::prelude::*;

verus! {

/// deadpool's `PoolConfig`, with its fields as deadpool declares them.
#[verifier::external_type_specification]
pub struct ExPoolConfig(PoolConfig);

/// deadpool's `Timeouts`, with its fields as deadpool declares them.
#[verifier::external_type_specification]
pub struct ExTimeouts(Timeouts);

/// deadpool's `QueueMode`, with its variants as deadpool declares them.
#[verifier::external_type_specification]
pub struct ExQueueMode(QueueMode);

impl Config {
    /// The settings of the pool that this configuration asks for: as many
    /// connections as `max_connections`, the connect timeout both for waiting
    /// for a free connection and for creating one, the idle timeout for
    /// re-validating one, and connections reused in the order of their return.
    pub fn pool_config(&self) -> (settings: PoolConfig)
        ensures
            settings.max_size == self.max_connections,
            settings.timeouts.wait == Some(duration_of_secs(self.connect_timeout)),
            settings.timeouts.create == Some(duration_of_secs(self.connect_timeout)),
            settings.timeouts.recycle == Some(duration_of_secs(self.idle_timeout)),
            settings.queue_mode is Fifo,
    {
        PoolConfig {
            max_size: self.max_connections as usize,
            timeouts: Timeouts {
                wait: Some(self.connect_timeout()),
                create: Some(self.connect_timeout()),
                recycle: Some(self.idle_timeout()),
            },
            queue_mode: QueueMode::Fifo,
        }
    }
}

} // verus!
