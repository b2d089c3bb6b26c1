//! The identifier generator: a clock/sequence state machine whose step takes
//! the wall-clock reading as an argument, so that every decision it makes is
//! verified for every reading.
use vstd::prelude::*;
use std::time::{Duration, SystemTime};
use crate::layout::{
    compose, fields_in_range, pack, sequence_field, timestamp_field, MAX_DATACENTER_ID,
    MAX_SEQUENCE, MAX_TIMESTAMP, MAX_WORKER_ID,
};

verus! {

/// Why a generator cannot be built or cannot issue an identifier now.
#[derive(Debug, Clone, Copy, PartialEq, Eq, Structural)]
pub enum IdError {
    /// A worker id or datacenter id lies outside its bit width.
    InvalidConfiguration,
    /// The clock reads earlier than the last issued timestamp, by `drift_ms`.
    ClockMovedBackward { drift_ms: u128 },
    /// The wall clock cannot be read as milliseconds since the Unix epoch
    /// that fit an `i64`.
    ClockUnavailable,
    /// The clock reads before the epoch offset, or past the last millisecond
    /// that the timestamp field can hold.
    TimestampOutOfRange,
}

/// What one attempt to issue an identifier gave.
#[derive(Debug, Clone, Copy, PartialEq, Eq, Structural)]
pub enum Attempt {
    /// An identifier was issued.
    Issued(u64),
    /// All sequence values of the current millisecond are spent: try again
    /// once the clock has moved on.
    SequenceExhausted,
}

/// The mathematical state of a generator.
pub struct GeneratorState {
    pub worker_id: int,
    pub datacenter_id: int,
    pub epoch_offset: int,
    /// Milliseconds since the epoch offset of the last issued identifier, or
    /// -1 before the first one.
    pub last_timestamp: int,
    /// Number of identifiers issued within `last_timestamp`, less one.
    pub sequence: int,
}

pub open spec fn state_wf(s: GeneratorState) -> bool {
    &&& 0 <= s.worker_id <= MAX_WORKER_ID
    &&& 0 <= s.datacenter_id <= MAX_DATACENTER_ID
    &&& i64::MIN <= s.epoch_offset <= i64::MAX
    &&& -1 <= s.last_timestamp <= MAX_TIMESTAMP
    &&& 0 <= s.sequence <= MAX_SEQUENCE
    &&& s.last_timestamp == -1 ==> s.sequence == 0
}

/// The last identifier issued, or -1 before the first one.
pub open spec fn last_issued(s: GeneratorState) -> int {
    if s.last_timestamp < 0 {
        -1
    } else {
        compose(s.last_timestamp, s.datacenter_id, s.worker_id, s.sequence)
    }
}

/// The state a freshly built generator is in.
pub open spec fn initial_state(worker_id: int, datacenter_id: int, epoch_offset: int) -> GeneratorState {
    GeneratorState {
        worker_id,
        datacenter_id,
        epoch_offset,
        last_timestamp: -1,
        sequence: 0,
    }
}

/// One step of the generator on a clock reading `now` (milliseconds since the
/// Unix epoch): the next state and what the caller gets.
pub open spec fn step(s: GeneratorState, now: int) -> (GeneratorState, Result<Attempt, IdError>) {
    let ts = now - s.epoch_offset;
    if 0 <= s.last_timestamp && ts < s.last_timestamp {
        (s, Err(IdError::ClockMovedBackward { drift_ms: (s.last_timestamp - ts) as u128 }))
    } else if ts < 0 || ts > MAX_TIMESTAMP {
        (s, Err(IdError::TimestampOutOfRange))
    } else if ts == s.last_timestamp {
        if s.sequence < MAX_SEQUENCE {
            let next = GeneratorState { sequence: s.sequence + 1, ..s };
            (next, Ok(Attempt::Issued(last_issued(next) as u64)))
        } else {
            (s, Ok(Attempt::SequenceExhausted))
        }
    } else {
        let next = GeneratorState { last_timestamp: ts, sequence: 0, ..s };
        (next, Ok(Attempt::Issued(last_issued(next) as u64)))
    }
}

/// Runs the generator over the clock readings `nows`, one attempt each, and
/// gives the final state and the identifiers issued, in order.
pub open spec fn run(s: GeneratorState, nows: Seq<int>) -> (GeneratorState, Seq<u64>)
    decreases nows.len(),
{
    if nows.len() == 0 {
        (s, Seq::empty())
    } else {
        let (s1, r) = step(s, nows[0]);
        let (s2, ids) = run(s1, nows.drop_first());
        match r {
            Ok(Attempt::Issued(id)) => (s2, seq![id] + ids),
            _ => (s2, ids),
        }
    }
}

/// A generator of unique identifiers for one (datacenter, worker) pair.
///
/// `next_id_at` and `try_next_id` take `&mut self`: each is one critical
/// section, and callers that share a generator between threads hold it behind
/// a lock.
pub struct IdGenerator {
    worker_id: u64,
    datacenter_id: u64,
    epoch_offset: i64,
    last_timestamp: i64,
    sequence: u64,
}

impl View for IdGenerator {
    type V = GeneratorState;

    closed spec fn view(&self) -> GeneratorState {
        GeneratorState {
            worker_id: self.worker_id as int,
            datacenter_id: self.datacenter_id as int,
            epoch_offset: self.epoch_offset as int,
            last_timestamp: self.last_timestamp as int,
            sequence: self.sequence as int,
        }
    }
}

#[verifier::external_type_specification]
#[verifier::external_body]
pub struct ExSystemTime(std::time::SystemTime);

/// Relies on `std::time::SystemTime::now`: a reading of the system clock.
/// Nothing is promised of its value.
#[verifier::external_body]
fn system_now() -> (r: SystemTime) {
    SystemTime::now()
}

/// Relies on `std::time::SystemTime::duration_since`: the time elapsed from
/// the Unix epoch to `t`, or `None` when `t` is earlier than the Unix epoch.
#[verifier::external_body]
fn since_unix_epoch(t: &SystemTime) -> (r: Option<Duration>) {
    t.duration_since(std::time::UNIX_EPOCH).ok()
}

/// Relies on `std::time::Duration::as_millis`: the whole milliseconds in `d`.
#[verifier::external_body]
fn whole_millis(d: &Duration) -> (r: u128) {
    d.as_millis()
}

impl IdGenerator {
    pub open spec fn wf(&self) -> bool {
        state_wf(self@)
    }

    /// Builds a generator, refusing a worker id or datacenter id that does not
    /// fit its five bits.
    pub fn new(worker_id: u64, datacenter_id: u64, epoch_offset: i64) -> (r: Result<IdGenerator, IdError>)
        ensures
            worker_id <= MAX_WORKER_ID && datacenter_id <= MAX_DATACENTER_ID <==> r is Ok,
            r is Err ==> r == Err::<IdGenerator, IdError>(IdError::InvalidConfiguration),
            r is Ok ==> r->Ok_0.wf() && r->Ok_0@ == initial_state(
                worker_id as int,
                datacenter_id as int,
                epoch_offset as int,
            ),
    {
        if worker_id > MAX_WORKER_ID || datacenter_id > MAX_DATACENTER_ID {
            Err(IdError::InvalidConfiguration)
        } else {
            Ok(IdGenerator { worker_id, datacenter_id, epoch_offset, last_timestamp: -1, sequence: 0 })
        }
    }

    pub fn worker_id(&self) -> (r: u64)
        ensures
            r as int == self@.worker_id,
    {
        self.worker_id
    }

    pub fn datacenter_id(&self) -> (r: u64)
        ensures
            r as int == self@.datacenter_id,
    {
        self.datacenter_id
    }

    pub fn epoch_offset(&self) -> (r: i64)
        ensures
            r as int == self@.epoch_offset,
    {
        self.epoch_offset
    }

    /// One attempt to issue an identifier, with the clock reading `now_ms`
    /// (milliseconds since the Unix epoch). A reading earlier than the last
    /// issued timestamp is refused with `ClockMovedBackward` and changes
    /// nothing; a spent millisecond gives `SequenceExhausted`, and the caller
    /// tries again once the clock has moved on.
    pub fn next_id_at(&mut self, now_ms: i64) -> (r: Result<Attempt, IdError>)
        requires
            old(self).wf(),
        ensures
            final(self).wf(),
            (final(self)@, r) == step(old(self)@, now_ms as int),
    {
        let ts: i128 = now_ms as i128 - self.epoch_offset as i128;
        if 0 <= self.last_timestamp && ts < self.last_timestamp as i128 {
            return Err(IdError::ClockMovedBackward { drift_ms: (self.last_timestamp as i128 - ts) as u128 });
        }
        if ts < 0 || ts > MAX_TIMESTAMP as i128 {
            return Err(IdError::TimestampOutOfRange);
        }
        let ts: i64 = ts as i64;
        if ts == self.last_timestamp {
            if self.sequence < MAX_SEQUENCE {
                self.sequence = self.sequence + 1;
            } else {
                return Ok(Attempt::SequenceExhausted);
            }
        } else {
            self.last_timestamp = ts;
            self.sequence = 0;
        }
        let id = pack(ts as u64, self.datacenter_id, self.worker_id, self.sequence);
        Ok(Attempt::Issued(id))
    }

    /// One attempt to issue an identifier, with the wall clock read as
    /// `millis` milliseconds since the Unix epoch; `None` stands for a clock
    /// that reads before the Unix epoch. A reading that does not fit an `i64`
    /// gives `ClockUnavailable` and changes nothing.
    pub fn next_id_from_millis(&mut self, millis: Option<u128>) -> (r: Result<Attempt, IdError>)
        requires
            old(self).wf(),
        ensures
            final(self).wf(),
            millis is Some && millis->Some_0 <= i64::MAX as u128 ==> (final(self)@, r) == step(
                old(self)@,
                millis->Some_0 as int,
            ),
            !(millis is Some && millis->Some_0 <= i64::MAX as u128) ==> r == Err::<Attempt, IdError>(
                IdError::ClockUnavailable,
            ) && final(self)@ == old(self)@,
    {
        match millis {
            Some(ms) => {
                if ms <= i64::MAX as u128 {
                    self.next_id_at(ms as i64)
                } else {
                    Err(IdError::ClockUnavailable)
                }
            },
            None => Err(IdError::ClockUnavailable),
        }
    }

    /// One attempt to issue an identifier, with a fresh reading of the wall
    /// clock. Whatever the clock read, the step taken is the one `step` gives
    /// for that reading; a clock that cannot be read as milliseconds since the
    /// Unix epoch gives `ClockUnavailable` and changes nothing.
    pub fn try_next_id(&mut self) -> (r: Result<Attempt, IdError>)
        requires
            old(self).wf(),
        ensures
            final(self).wf(),
            r == Err::<Attempt, IdError>(IdError::ClockUnavailable) ==> final(self)@ == old(self)@,
            r != Err::<Attempt, IdError>(IdError::ClockUnavailable) ==> exists|now: int|
                i64::MIN <= now <= i64::MAX && (final(self)@, r) == #[trigger] step(old(self)@, now),
    {
        let now = system_now();
        let millis = match since_unix_epoch(&now) {
            Some(elapsed) => Some(whole_millis(&elapsed)),
            None => None,
        };
        self.next_id_from_millis(millis)
    }
}

} // verus!
