use idgen::config::{create_id_generator, IdGeneratorConfig};
use idgen::generator::{Attempt, IdError, IdGenerator};
use idgen::layout::{
    datacenter_of, pack, sequence_of, timestamp_of, worker_of, MAX_SEQUENCE, MAX_TIMESTAMP,
    MAX_WORKER_ID,
};
use idgen::time::split_millis;

const EPOCH_2021: i64 = 1609459200000;

fn issued(r: Result<Attempt, IdError>) -> u64 {
    match r {
        Ok(Attempt::Issued(id)) => id,
        other => panic!("expected an identifier, got {:?}", other),
    }
}

#[test]
fn frozen_clock_first_and_second_call() {
    let mut g = IdGenerator::new(1, 1, EPOCH_2021).unwrap();
    let first = issued(g.next_id_at(EPOCH_2021 + 5000));
    assert_eq!(timestamp_of(first), 5000);
    assert_eq!(sequence_of(first), 0);
    assert_eq!(datacenter_of(first), 1);
    assert_eq!(worker_of(first), 1);
    assert_eq!(first, (5000u64 << 22) | (1 << 17) | (1 << 12));
    let second = issued(g.next_id_at(EPOCH_2021 + 5000));
    assert_eq!(timestamp_of(second), 5000);
    assert_eq!(sequence_of(second), 1);
    assert_eq!(datacenter_of(second), 1);
    assert_eq!(worker_of(second), 1);
    assert_eq!(second, first + 1);
}

#[test]
fn worker_id_one_past_maximum_is_refused() {
    assert_eq!(IdGenerator::new(32, 0, 0).err(), Some(IdError::InvalidConfiguration));
    assert!(IdGenerator::new(MAX_WORKER_ID, 0, 0).is_ok());
    assert!(IdGenerator::new(31, 31, 0).is_ok());
}

#[test]
fn datacenter_id_one_past_maximum_is_refused() {
    assert_eq!(IdGenerator::new(0, 32, 0).err(), Some(IdError::InvalidConfiguration));
    assert_eq!(IdGenerator::new(u64::MAX, u64::MAX, 0).err(), Some(IdError::InvalidConfiguration));
}

#[test]
fn clock_rollback_is_reported_and_never_reuses_an_older_timestamp() {
    let mut g = IdGenerator::new(3, 2, EPOCH_2021).unwrap();
    let before = issued(g.next_id_at(EPOCH_2021 + 5000));
    assert_eq!(g.next_id_at(EPOCH_2021 + 4990), Err(IdError::ClockMovedBackward { drift_ms: 10 }));
    let after = issued(g.next_id_at(EPOCH_2021 + 5000));
    assert!(after > before);
    assert!(timestamp_of(after) >= timestamp_of(before));
    assert_eq!(sequence_of(after), 1);
}

#[test]
fn clock_rollback_to_before_the_epoch_is_reported_as_rollback() {
    let mut g = IdGenerator::new(1, 1, EPOCH_2021).unwrap();
    let before = issued(g.next_id_at(EPOCH_2021 + 5));
    assert_eq!(g.next_id_at(EPOCH_2021 - 5), Err(IdError::ClockMovedBackward { drift_ms: 10 }));
    assert_eq!(
        g.next_id_at(i64::MIN),
        Err(IdError::ClockMovedBackward { drift_ms: (5 + EPOCH_2021 as i128 - i64::MIN as i128) as u128 })
    );
    let after = issued(g.next_id_at(EPOCH_2021 + 5));
    assert_eq!(after, before + 1);
}

#[test]
fn millisecond_budget_then_wait() {
    let mut g = IdGenerator::new(7, 9, 0).unwrap();
    let mut last: Option<u64> = None;
    for k in 0..=MAX_SEQUENCE {
        let id = issued(g.next_id_at(42));
        assert_eq!(sequence_of(id), k);
        assert_eq!(timestamp_of(id), 42);
        if let Some(prev) = last {
            assert!(prev < id);
        }
        last = Some(id);
    }
    assert_eq!(g.next_id_at(42), Ok(Attempt::SequenceExhausted));
    assert_eq!(g.next_id_at(42), Ok(Attempt::SequenceExhausted));
    let next = issued(g.next_id_at(43));
    assert_eq!(timestamp_of(next), 43);
    assert_eq!(sequence_of(next), 0);
    assert!(next > last.unwrap());
}

#[test]
fn identifiers_increase_and_are_distinct() {
    let mut g = IdGenerator::new(5, 6, 1000).unwrap();
    let clock = [1000i64, 1000, 1001, 1001, 1001, 1005, 1003, 1005, 2000, 2000, 999, 2001];
    let mut ids: Vec<u64> = Vec::new();
    for now in clock {
        if let Ok(Attempt::Issued(id)) = g.next_id_at(now) {
            ids.push(id);
        }
    }
    assert_eq!(ids.len(), 10);
    for w in ids.windows(2) {
        assert!(w[0] < w[1]);
    }
    let mut sorted = ids.clone();
    sorted.dedup();
    assert_eq!(sorted.len(), ids.len());
}

#[test]
fn decoded_fields_match_configuration() {
    let mut g = IdGenerator::new(17, 29, EPOCH_2021).unwrap();
    let id = issued(g.next_id_at(EPOCH_2021 + 123_456_789));
    assert_eq!(datacenter_of(id), 29);
    assert_eq!(worker_of(id), 17);
    assert_eq!(timestamp_of(id), 123_456_789);
    assert_eq!(sequence_of(id), 0);
}

#[test]
fn clock_before_epoch_or_past_field_is_out_of_range() {
    let mut g = IdGenerator::new(1, 1, EPOCH_2021).unwrap();
    assert_eq!(g.next_id_at(EPOCH_2021 - 1), Err(IdError::TimestampOutOfRange));
    assert_eq!(g.next_id_at(i64::MAX), Err(IdError::TimestampOutOfRange));
    assert_eq!(g.next_id_at(i64::MIN), Err(IdError::TimestampOutOfRange));
    assert_eq!(
        g.next_id_at(EPOCH_2021 + MAX_TIMESTAMP as i64 + 1),
        Err(IdError::TimestampOutOfRange)
    );
    let top = issued(g.next_id_at(EPOCH_2021 + MAX_TIMESTAMP as i64));
    assert_eq!(timestamp_of(top), MAX_TIMESTAMP);
    assert!(top < 1u64 << 63);
    let mut h = IdGenerator::new(0, 0, i64::MIN).unwrap();
    assert_eq!(h.next_id_at(i64::MAX), Err(IdError::TimestampOutOfRange));
}

#[test]
fn pack_gives_exact_values() {
    assert_eq!(pack(0, 0, 0, 0), 0);
    assert_eq!(pack(1, 1, 1, 1), 4_194_304 + 131_072 + 4_096 + 1);
    assert_eq!(pack(MAX_TIMESTAMP, 31, 31, 4095), (1u64 << 63) - 1);
    let id = pack(77, 3, 4, 5);
    assert_eq!((timestamp_of(id), datacenter_of(id), worker_of(id), sequence_of(id)), (77, 3, 4, 5));
}

#[test]
fn wall_clock_attempt_issues_from_current_time() {
    let mut g = IdGenerator::new(2, 3, 0).unwrap();
    let a = issued(g.try_next_id());
    let b = loop {
        match g.try_next_id() {
            Ok(Attempt::SequenceExhausted) => continue,
            r => break issued(r),
        }
    };
    assert!(a < b);
    assert!(timestamp_of(a) > 1_600_000_000_000);
    assert_eq!(worker_of(b), 2);
    assert_eq!(datacenter_of(b), 3);
}

#[test]
fn config_builds_generator() {
    let config = IdGeneratorConfig { worker_id: 4, data_center_id: 8, timestamp_offset: EPOCH_2021 };
    let g = create_id_generator(config).unwrap();
    assert_eq!((g.worker_id(), g.datacenter_id(), g.epoch_offset()), (4, 8, EPOCH_2021));
    let bad = IdGeneratorConfig { worker_id: 4, data_center_id: 32, timestamp_offset: 0 };
    assert_eq!(create_id_generator(bad).err(), Some(IdError::InvalidConfiguration));
}

#[test]
fn split_millis_gives_seconds_and_remainder() {
    assert_eq!(split_millis(1500), (1, 500));
    assert_eq!(split_millis(0), (0, 0));
    assert_eq!(split_millis(u64::MAX), ((u64::MAX / 1000) as i64, 615));
}

#[test]
fn reading_from_millis_steps_or_reports_unavailable_clock() {
    let mut g = IdGenerator::new(1, 2, EPOCH_2021).unwrap();
    let first = issued(g.next_id_from_millis(Some(EPOCH_2021 as u128 + 5000)));
    assert_eq!(timestamp_of(first), 5000);
    assert_eq!(g.next_id_from_millis(None), Err(IdError::ClockUnavailable));
    assert_eq!(
        g.next_id_from_millis(Some(i64::MAX as u128 + 1)),
        Err(IdError::ClockUnavailable)
    );
    assert_eq!(g.next_id_from_millis(Some(u128::MAX)), Err(IdError::ClockUnavailable));
    let second = issued(g.next_id_from_millis(Some(EPOCH_2021 as u128 + 5000)));
    assert_eq!(second, first + 1);
    assert_eq!(
        g.next_id_from_millis(Some(EPOCH_2021 as u128 + 4000)),
        Err(IdError::ClockMovedBackward { drift_ms: 1000 })
    );
}
