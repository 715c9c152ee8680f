use demeter::common::snowflake::{
    SnowflakeError, SnowflakeIdBucket, SnowflakeIdGenerator, DEFAULT_EPOCH,
};
use std::collections::HashSet;
use std::sync::Arc;

#[test]
fn test_snowflake_generator() {
    let mut generator = SnowflakeIdGenerator::new(1, 1).unwrap();
    let id1 = generator.real_time_generate().unwrap();
    let id2 = generator.real_time_generate().unwrap();

    assert!(id2 > id1);
    println!("Generated ID 1: {}", id1);
    println!("Generated ID 2: {}", id2);
}

#[test]
fn test_snowflake_bucket() {
    let bucket = SnowflakeIdBucket::new(1, 1).unwrap();
    let id1 = bucket.get_id().unwrap();
    let id2 = bucket.get_id().unwrap();

    assert!(id2 > id1);
    println!("Bucket ID 1: {}", id1);
    println!("Bucket ID 2: {}", id2);
}

#[test]
fn test_parse_id() {
    let mut generator = SnowflakeIdGenerator::new(5, 10).unwrap();
    let id = generator.real_time_generate().unwrap();

    let (timestamp, datacenter_id, machine_id, sequence) = SnowflakeIdGenerator::parse_id(id);

    println!("ID: {}", id);
    println!("Timestamp: {}", timestamp);
    println!("Datacenter ID: {}", datacenter_id);
    println!("Machine ID: {}", machine_id);
    println!("Sequence: {}", sequence);

    assert_eq!(datacenter_id, 5);
    assert_eq!(machine_id, 10);
}

#[test]
fn test_invalid_ids() {
    let result = SnowflakeIdGenerator::new(32, 1);
    assert!(result.is_err());

    let result = SnowflakeIdGenerator::new(1, 32);
    assert!(result.is_err());
}

#[test]
fn test_multiple_ids() {
    let mut generator = SnowflakeIdGenerator::new(1, 1).unwrap();
    let mut ids = Vec::new();
    for _ in 0..1000 {
        let id = generator.real_time_generate().unwrap();
        ids.push(id);
    }
    let mut sorted_ids = ids.clone();
    sorted_ids.sort();
    sorted_ids.dedup();
    assert_eq!(ids.len(), sorted_ids.len());
}

#[test]
fn range_validation_names_the_offending_field() {
    assert_eq!(
        SnowflakeIdGenerator::new(32, 1).err(),
        Some(SnowflakeError::InvalidDatacenterId)
    );
    assert_eq!(
        SnowflakeIdGenerator::new(-1, 1).err(),
        Some(SnowflakeError::InvalidDatacenterId)
    );
    assert_eq!(
        SnowflakeIdGenerator::new(1, 32).err(),
        Some(SnowflakeError::InvalidMachineId)
    );
    assert_eq!(
        SnowflakeIdGenerator::new(1, -1).err(),
        Some(SnowflakeError::InvalidMachineId)
    );
    assert_eq!(
        SnowflakeIdGenerator::new(32, 32).err(),
        Some(SnowflakeError::InvalidDatacenterId)
    );
    assert!(SnowflakeIdGenerator::new(0, 0).is_ok());
    assert!(SnowflakeIdGenerator::new(31, 31).is_ok());
    assert!(SnowflakeIdGenerator::new(0, 31).is_ok());
    assert!(SnowflakeIdGenerator::new(31, 0).is_ok());
    assert_eq!(
        SnowflakeIdGenerator::with_epoch(32, 0, 0).err(),
        Some(SnowflakeError::InvalidDatacenterId)
    );
    assert_eq!(
        SnowflakeIdGenerator::with_epoch(0, 32, 0).err(),
        Some(SnowflakeError::InvalidMachineId)
    );
    assert_eq!(
        SnowflakeIdBucket::new(32, 0).err().map(|e| e.to_string()),
        Some("Invalid datacenter ID".to_string())
    );
    assert_eq!(
        SnowflakeIdBucket::with_epoch(0, 32, 5).err().map(|e| e.to_string()),
        Some("Invalid machine ID".to_string())
    );
    assert!(SnowflakeIdBucket::new(31, 31).is_ok());
}

#[test]
fn error_messages() {
    assert_eq!(
        SnowflakeError::ClockMovedBackwards.to_string(),
        "Clock moved backwards"
    );
    assert_eq!(SnowflakeError::InvalidMachineId.to_string(), "Invalid machine ID");
    assert_eq!(
        SnowflakeError::InvalidDatacenterId.to_string(),
        "Invalid datacenter ID"
    );
}

#[test]
fn generate_at_packs_the_documented_layout() {
    let mut generator = SnowflakeIdGenerator::new(5, 10).unwrap();
    let now = DEFAULT_EPOCH + 1000;
    let id = generator.generate_at(now).unwrap().unwrap();
    assert_eq!(id, (1000 << 22) | (5 << 17) | (10 << 12));
    assert_eq!(id, 4_194_304_000 + 655_360 + 40_960);
    let next = generator.generate_at(now).unwrap().unwrap();
    assert_eq!(next, id + 1);
    let later = generator.generate_at(now + 1).unwrap().unwrap();
    assert_eq!(later, (1001 << 22) | (5 << 17) | (10 << 12));
    assert_eq!(
        SnowflakeIdGenerator::parse_id(next),
        (DEFAULT_EPOCH + 1000, 5, 10, 1)
    );
}

#[test]
fn custom_epoch_changes_the_offset_but_not_the_decoder() {
    let mut generator = SnowflakeIdGenerator::with_epoch(3, 4, 1_000).unwrap();
    let id = generator.generate_at(1_500).unwrap().unwrap();
    assert_eq!(id, (500 << 22) | (3 << 17) | (4 << 12));
    let (timestamp, datacenter_id, machine_id, sequence) = SnowflakeIdBucket::parse_id(id);
    assert_eq!(timestamp, 500 + DEFAULT_EPOCH);
    assert_eq!(datacenter_id, 3);
    assert_eq!(machine_id, 4);
    assert_eq!(sequence, 0);
}

#[test]
fn parse_id_reads_known_values() {
    assert_eq!(SnowflakeIdGenerator::parse_id(0), (DEFAULT_EPOCH, 0, 0, 0));
    assert_eq!(
        SnowflakeIdGenerator::parse_id((7 << 22) | (31 << 17) | (1 << 12) | 4095),
        (DEFAULT_EPOCH + 7, 31, 1, 4095)
    );
    assert_eq!(
        SnowflakeIdGenerator::parse_id(-1),
        (DEFAULT_EPOCH - 1, 31, 31, 4095)
    );
    assert_eq!(
        SnowflakeIdGenerator::parse_id(i64::MAX),
        (DEFAULT_EPOCH + (1 << 41) - 1, 31, 31, 4095)
    );
}

#[test]
fn backward_clock_fails_and_changes_nothing() {
    let mut generator = SnowflakeIdGenerator::new(1, 1).unwrap();
    let now = DEFAULT_EPOCH + 50;
    let first = generator.generate_at(now).unwrap().unwrap();
    assert_eq!(
        generator.generate_at(now - 1),
        Err(SnowflakeError::ClockMovedBackwards)
    );
    assert_eq!(
        generator.generate_at(now - 50),
        Err(SnowflakeError::ClockMovedBackwards)
    );
    // The state is untouched: the same millisecond goes on with sequence 1.
    let second = generator.generate_at(now).unwrap().unwrap();
    assert_eq!(second, first + 1);
}

#[test]
fn first_reading_before_the_initial_timestamp_is_a_backward_clock() {
    let mut generator = SnowflakeIdGenerator::new(1, 1).unwrap();
    assert_eq!(
        generator.generate_at(-2),
        Err(SnowflakeError::ClockMovedBackwards)
    );
    assert!(generator.generate_at(-1).unwrap().is_some());
}

#[test]
fn sequence_overflow_issues_nothing_until_the_clock_advances() {
    let mut generator = SnowflakeIdGenerator::new(2, 3).unwrap();
    let now = DEFAULT_EPOCH + 7;
    let mut seen = HashSet::new();
    for expected_sequence in 0..4096 {
        let id = generator.generate_at(now).unwrap().unwrap();
        let (timestamp, _, _, sequence) = SnowflakeIdGenerator::parse_id(id);
        assert_eq!(timestamp, now);
        assert_eq!(sequence, expected_sequence);
        assert!(seen.insert((timestamp, sequence)));
    }
    // The 4097th call in the same millisecond yields no identifier.
    assert_eq!(generator.generate_at(now), Ok(None));
    assert_eq!(generator.generate_at(now), Ok(None));
    let id = generator.generate_at(now + 1).unwrap().unwrap();
    let (timestamp, datacenter_id, machine_id, sequence) = SnowflakeIdGenerator::parse_id(id);
    assert_eq!((timestamp, datacenter_id, machine_id, sequence), (now + 1, 2, 3, 0));
    assert!(seen.insert((timestamp, sequence)));
    assert_eq!(seen.len(), 4097);
}

#[test]
fn ids_increase_under_a_simulated_clock() {
    let mut generator = SnowflakeIdGenerator::new(31, 31).unwrap();
    let mut last = -1;
    let mut now = DEFAULT_EPOCH;
    for step in 0..10_000 {
        if step % 3 == 0 {
            now += step % 5;
        }
        match generator.generate_at(now).unwrap() {
            Some(id) => {
                assert!(id > last);
                last = id;
            }
            None => now += 1,
        }
    }
}

#[test]
fn offsets_beyond_the_window_wrap() {
    // The offset 2^41 no longer fits the field: its top bit lands on the sign.
    let mut generator = SnowflakeIdGenerator::with_epoch(0, 0, 0).unwrap();
    let id = generator.generate_at(1 << 41).unwrap().unwrap();
    assert_eq!(id, i64::MIN);
    // An epoch in the future gives a negative offset and a negative id.
    let mut generator = SnowflakeIdGenerator::with_epoch(1, 1, 10).unwrap();
    let id = generator.generate_at(9).unwrap().unwrap();
    assert_eq!(id, (-1 << 22) | (1 << 17) | (1 << 12));
    // A difference that overflows 64 bits keeps its low 42 bits.
    let mut generator = SnowflakeIdGenerator::with_epoch(1, 1, i64::MIN).unwrap();
    let id = generator.generate_at(5).unwrap().unwrap();
    assert_eq!(id, (5 << 22) | (1 << 17) | (1 << 12));
}

#[test]
fn real_clock_ids_carry_the_configuration() {
    let mut generator = SnowflakeIdGenerator::new(17, 29).unwrap();
    let before = generator.current_timestamp().unwrap();
    let id = generator.real_time_generate().unwrap();
    let (timestamp, datacenter_id, machine_id, sequence) = SnowflakeIdGenerator::parse_id(id);
    assert!(timestamp >= before);
    assert!(timestamp > DEFAULT_EPOCH);
    assert_eq!(datacenter_id, 17);
    assert_eq!(machine_id, 29);
    assert_eq!(sequence, 0);
    assert!(id > 0);
}

#[test]
fn wait_next_millis_returns_a_later_reading() {
    let generator = SnowflakeIdGenerator::new(0, 0).unwrap();
    let now = generator.current_timestamp().unwrap();
    let later = generator.wait_next_millis(now).unwrap();
    assert!(later > now);
}

#[test]
fn burst_through_the_bucket_is_unique_and_increasing() {
    let bucket = SnowflakeIdBucket::new(9, 8).unwrap();
    let mut previous = -1;
    let mut seen = HashSet::new();
    for _ in 0..10_000 {
        let id = bucket.get_id().unwrap();
        assert!(id > previous);
        previous = id;
        assert!(seen.insert(id));
        let (_, datacenter_id, machine_id, _) = SnowflakeIdBucket::parse_id(id);
        assert_eq!((datacenter_id, machine_id), (9, 8));
    }
}

#[test]
fn concurrent_callers_get_distinct_ids() {
    let bucket = Arc::new(SnowflakeIdBucket::new(4, 6).unwrap());
    let runtime = tokio::runtime::Builder::new_multi_thread()
        .worker_threads(4)
        .max_blocking_threads(8)
        .build()
        .unwrap();
    let mut workers = Vec::new();
    for _ in 0..8 {
        let bucket = Arc::clone(&bucket);
        workers.push(runtime.spawn_blocking(move || {
            let mut ids = Vec::new();
            for _ in 0..2_000 {
                ids.push(bucket.get_id().unwrap());
            }
            ids
        }));
    }
    let mut all = Vec::new();
    for worker in workers {
        let ids = runtime.block_on(worker).unwrap();
        // Each caller sees its own ids in increasing order.
        assert!(ids.windows(2).all(|pair| pair[0] < pair[1]));
        all.extend(ids);
    }
    assert_eq!(all.len(), 16_000);
    let mut sorted = all.clone();
    sorted.sort();
    sorted.dedup();
    assert_eq!(sorted.len(), 16_000);
}

#[test]
fn only_a_later_reading_ends_the_wait() {
    assert_eq!(SnowflakeIdGenerator::accept_later(Some(11), 10), Some(11));
    assert_eq!(SnowflakeIdGenerator::accept_later(Some(i64::MAX), i64::MAX - 1), Some(i64::MAX));
    assert_eq!(SnowflakeIdGenerator::accept_later(Some(10), 10), None);
    assert_eq!(SnowflakeIdGenerator::accept_later(Some(9), 10), None);
    assert_eq!(SnowflakeIdGenerator::accept_later(Some(0), -1), Some(0));
    assert_eq!(SnowflakeIdGenerator::accept_later(Some(i64::MIN), i64::MIN), None);
    assert_eq!(SnowflakeIdGenerator::accept_later(None, 10), None);
    assert_eq!(SnowflakeIdGenerator::accept_later(None, i64::MIN), None);
}

#[test]
fn no_reading_counts_as_a_clock_gone_backwards() {
    let mut generator = SnowflakeIdGenerator::new(1, 1).unwrap();
    assert_eq!(generator.generate_from(None), Err(SnowflakeError::ClockMovedBackwards));
    let now = DEFAULT_EPOCH + 5;
    let first = generator.generate_from(Some(now)).unwrap().unwrap();
    assert_eq!(first, (5 << 22) | (1 << 17) | (1 << 12));
    assert_eq!(generator.generate_from(None), Err(SnowflakeError::ClockMovedBackwards));
    assert_eq!(generator.generate_from(Some(now - 1)), Err(SnowflakeError::ClockMovedBackwards));
    // Nothing changed meanwhile: the millisecond goes on with sequence 1.
    assert_eq!(generator.generate_from(Some(now)), Ok(Some(first + 1)));
    for _ in 2..4096 {
        assert!(generator.generate_from(Some(now)).unwrap().is_some());
    }
    assert_eq!(generator.generate_from(Some(now)), Ok(None));
    assert_eq!(generator.generate_from(None), Err(SnowflakeError::ClockMovedBackwards));
    assert_eq!(generator.generate_from(Some(now + 3)), Ok(Some((8 << 22) | (1 << 17) | (1 << 12))));
}

#[test]
fn a_held_clock_gives_4097_identifiers_with_distinct_timestamp_and_sequence() {
    let mut generator = SnowflakeIdGenerator::with_epoch(7, 9, 1_000).unwrap();
    let held = 5_000;
    let moved = 5_002;
    let mut pairs = HashSet::new();
    for call in 0..4097 {
        // Every call reads the held clock first; the last one gets nothing
        // for it and takes what the clock moved on to.
        let id = match generator.generate_from(Some(held)).unwrap() {
            Some(id) => {
                assert!(call < 4096);
                id
            }
            None => {
                assert_eq!(call, 4096);
                let later = SnowflakeIdGenerator::accept_later(Some(moved), held);
                generator.generate_from(later).unwrap().unwrap()
            }
        };
        assert!(pairs.insert((id >> 22, id & 4095)));
        let expected = if call < 4096 { (4_000, call) } else { (4_002, 0) };
        assert_eq!((id >> 22, id & 4095), expected);
    }
    assert_eq!(pairs.len(), 4097);
}

#[test]
fn a_clock_that_moves_by_a_multiple_of_two_to_the_42_repeats_its_timestamp_bits() {
    let mut generator = SnowflakeIdGenerator::with_epoch(0, 0, 0).unwrap();
    let first = generator.generate_at(1).unwrap().unwrap();
    let second = generator.generate_at(1 + (1 << 42)).unwrap().unwrap();
    assert_eq!((first >> 22, first & 4095), (second >> 22, second & 4095));
}
