//! Building a generator from its configuration.
use vstd::prelude::*;
use crate::generator::{initial_state, IdError, IdGenerator};
use crate::layout::{MAX_DATACENTER_ID, MAX_WORKER_ID};

verus! {

/// The three values a generator is built from.
#[derive(Debug, Clone, Copy, PartialEq, Eq, Structural)]
pub struct IdGeneratorConfig {
    pub worker_id: u64,
    pub data_center_id: u64,
    /// The custom epoch, in milliseconds since the Unix epoch.
    pub timestamp_offset: i64,
}

/// Builds the generator that `config` describes, or `InvalidConfiguration`
/// when its worker id or datacenter id does not fit five bits.
pub fn create_id_generator(config: IdGeneratorConfig) -> (r: Result<IdGenerator, IdError>)
    ensures
        config.worker_id <= MAX_WORKER_ID && config.data_center_id <= MAX_DATACENTER_ID <==> r is Ok,
        r is Err ==> r == Err::<IdGenerator, IdError>(IdError::InvalidConfiguration),
        r is Ok ==> r->Ok_0.wf() && r->Ok_0@ == initial_state(
            config.worker_id as int,
            config.data_center_id as int,
            config.timestamp_offset as int,
        ),
{
    IdGenerator::new(config.worker_id, config.data_center_id, config.timestamp_offset)
}

} // verus!
