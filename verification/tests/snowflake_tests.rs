use clamber_core::snowflake::{
    compose_id, DEFAULT_EPOCH_MILLIS, MAX_SEQUENCE, MAX_TIMESTAMP_DELTA, MAX_WORKER_ID,
};
use clamber_core::snowflake_utils::{generate_id, generate_ids, generate_string_id, parse_id,
    parse_string_id};
use clamber_core::{ClamberError, SnowflakeConfig, SnowflakeIdInfo, SnowflakeManager};
use std::collections::HashSet;

#[test]
fn test_snowflake_config_creation() {
    let config = SnowflakeConfig::new(1).unwrap();
    assert_eq!(config.worker_id, 1);
    assert!(config.epoch.is_none());

    let config_with_epoch = SnowflakeConfig::with_epoch(3, 1609459200000).unwrap();
    assert_eq!(config_with_epoch.worker_id, 3);
    assert_eq!(config_with_epoch.epoch, Some(1609459200000));

    assert!(SnowflakeConfig::new(1024).is_err());
}

#[test]
fn test_snowflake_manager_creation() {
    let config = SnowflakeConfig::new(1).unwrap();
    let manager = SnowflakeManager::new(config).unwrap();
    assert_eq!(manager.worker_id(), 1);
}

#[test]
fn test_id_generation() {
    let config = SnowflakeConfig::new(1).unwrap();
    let mut manager = SnowflakeManager::new(config).unwrap();

    let id = manager.generate_id().unwrap();
    assert!(id > 0);

    let ids = manager.generate_ids(100).unwrap();
    assert_eq!(ids.len(), 100);

    let unique_ids: HashSet<u64> = ids.into_iter().collect();
    assert_eq!(unique_ids.len(), 100);
}

#[test]
fn test_id_parsing() {
    let config = SnowflakeConfig::new(1).unwrap();
    let mut manager = SnowflakeManager::new(config).unwrap();

    let id = manager.generate_id().unwrap();
    let info = manager.parse_id(id);

    assert_eq!(info.id, id);
    assert!(info.timestamp > 0);
}

#[test]
fn test_convenience_functions() {
    let id = generate_id().unwrap();
    assert!(id > 0);

    let ids = generate_ids(10).unwrap();
    assert_eq!(ids.len(), 10);

    let info = parse_id(id).unwrap();
    assert_eq!(info.id, id);
}

#[test]
fn test_string_functions() {
    let id = generate_string_id().unwrap();
    assert!(!id.is_empty());

    let info = parse_string_id(&id).unwrap();
    assert_eq!(info.to_string(), id);
}

#[test]
fn test_id_info_time_functions() {
    let id = generate_id().unwrap();
    let info = parse_id(id).unwrap();

    let gen_time = info.generation_time(None);
    assert!(gen_time > 0);

    let time_str = info.generation_time_string(None);
    assert!(!time_str.is_empty());
    assert!(time_str.contains("-"));
}

#[test]
fn test_generation_time_string_bounds() {
    let info = SnowflakeIdInfo {
        id: 0,
        timestamp: u64::MAX,
        worker_id: 0,
        sequence: 0,
    };
    // The sum leaves the representable range in both directions.
    assert_eq!(info.generation_time_string(None), "Invalid timestamp");
    assert_eq!(info.generation_time_string(Some(u64::MAX)), "Invalid timestamp");

    // A known instant renders exactly.
    let info = SnowflakeIdInfo {
        id: 0,
        timestamp: 123,
        worker_id: 0,
        sequence: 0,
    };
    assert_eq!(
        info.generation_time_string(Some(1609459200000)),
        "2021-01-01 00:00:00.123"
    );
}

#[test]
fn test_empty_batch_always_succeeds() {
    let config = SnowflakeConfig::new(1).unwrap();
    let mut manager = SnowflakeManager::new(config).unwrap();
    assert_eq!(manager.generate_ids(0).unwrap(), Vec::<u64>::new());
    assert_eq!(generate_ids(0).unwrap(), Vec::<u64>::new());
}

#[test]
fn test_worker_id_boundaries() {
    for worker_id in [0u64, 1, 512, 1023] {
        let config = SnowflakeConfig::new(worker_id).unwrap();
        assert_eq!(config.worker_id, worker_id);
    }
    for worker_id in [1024u64, 4096, u64::MAX] {
        match SnowflakeConfig::new(worker_id) {
            Err(ClamberError::InvalidWorkerId { worker_id: w }) => assert_eq!(w, worker_id),
            other => panic!("expected InvalidWorkerId, got {:?}", other),
        }
        assert!(SnowflakeConfig::with_epoch(worker_id, 0).is_err());
        assert!(SnowflakeManager::new(SnowflakeConfig {
            worker_id,
            epoch: None
        })
        .is_err());
    }
    assert_eq!(MAX_WORKER_ID, 1023);
    assert_eq!(MAX_SEQUENCE, 4095);
}

#[test]
fn test_injected_clock_example() {
    // worker 5 with epoch 1609459200000, observed at epoch + 123 ms.
    let config = SnowflakeConfig::with_epoch(5, 1609459200000).unwrap();
    let mut manager = SnowflakeManager::new(config).unwrap();

    let first = manager
        .try_generate_at(1609459200123)
        .unwrap()
        .expect("an identifier at a fresh millisecond");
    let first_info = manager.parse_id(first);
    assert_eq!(first_info.timestamp, 123);
    assert_eq!(first_info.sequence, 0);
    assert_eq!(first_info.worker_id, 5);

    let second = manager
        .try_generate_at(1609459200123)
        .unwrap()
        .expect("an identifier within the same millisecond");
    let second_info = manager.parse_id(second);
    assert_eq!(second_info.timestamp, 123);
    assert_eq!(second_info.sequence, 1);
    assert_eq!(second_info.worker_id, 5);
}

#[test]
fn test_sequential_ids_strictly_increase() {
    let config = SnowflakeConfig::with_epoch(9, 1_000_000).unwrap();
    let mut manager = SnowflakeManager::new(config).unwrap();

    // A monotonically non-decreasing clock: some readings repeat, some jump.
    let readings = [
        1_000_001u64, 1_000_001, 1_000_001, 1_000_002, 1_000_002, 1_000_007, 1_000_007, 1_000_007,
        1_000_900,
    ];
    let mut previous: Option<u64> = None;
    for now in readings {
        let id = manager.try_generate_at(now).unwrap().unwrap();
        if let Some(p) = previous {
            assert!(id > p, "{} should exceed {}", id, p);
        }
        previous = Some(id);
    }
}

#[test]
fn test_sequence_wraps_to_next_millisecond() {
    let epoch = 1609459200000u64;
    let t = epoch + 50;
    let config = SnowflakeConfig::with_epoch(7, epoch).unwrap();
    let mut manager = SnowflakeManager::new(config).unwrap();

    // 4096 identifiers fit within one millisecond: sequences 0..=4095.
    for expected_seq in 0..=4095u16 {
        let id = manager.try_generate_at(t).unwrap().unwrap();
        let info = manager.parse_id(id);
        assert_eq!(info.sequence, expected_seq);
        assert_eq!(info.timestamp, 50);
    }

    // The 4097th observation of the same millisecond issues nothing.
    assert_eq!(manager.try_generate_at(t).unwrap(), None);

    // Once the clock advances, the sequence restarts with a greater
    // timestamp field.
    let id = manager.try_generate_at(t + 1).unwrap().unwrap();
    let info = manager.parse_id(id);
    assert_eq!(info.sequence, 0);
    assert_eq!(info.timestamp, 51);
}

#[test]
fn test_clock_rollback_leaves_state_unchanged() {
    let epoch = 1609459200000u64;
    let config = SnowflakeConfig::with_epoch(2, epoch).unwrap();
    let mut manager = SnowflakeManager::new(config).unwrap();

    let id = manager.try_generate_at(epoch + 100).unwrap().unwrap();
    let info = manager.parse_id(id);
    assert_eq!((info.timestamp, info.sequence), (100, 0));

    // An observation before the last issued timestamp is a hard failure.
    match manager.try_generate_at(epoch + 99) {
        Err(ClamberError::ClockRollback {
            now_millis,
            last_timestamp_millis,
        }) => {
            assert_eq!(now_millis, epoch + 99);
            assert_eq!(last_timestamp_millis, epoch + 100);
        }
        other => panic!("expected ClockRollback, got {:?}", other),
    }

    // The failed call left the state untouched: generation at the previous
    // timestamp continues the same millisecond's sequence.
    let id = manager.try_generate_at(epoch + 100).unwrap().unwrap();
    let info = manager.parse_id(id);
    assert_eq!((info.timestamp, info.sequence), (100, 1));
}

#[test]
fn test_timestamp_overflow() {
    // An observation before the epoch cannot be represented.
    let config = SnowflakeConfig::with_epoch(1, 5_000).unwrap();
    let mut manager = SnowflakeManager::new(config).unwrap();
    match manager.try_generate_at(4_999) {
        Err(ClamberError::TimestampOverflow {
            now_millis,
            epoch_millis,
        }) => {
            assert_eq!(now_millis, 4_999);
            assert_eq!(epoch_millis, 5_000);
        }
        other => panic!("expected TimestampOverflow, got {:?}", other),
    }

    // An observation more than 2^41 - 1 ms after the epoch does not fit.
    let config = SnowflakeConfig::with_epoch(1, 0).unwrap();
    let mut manager = SnowflakeManager::new(config).unwrap();
    assert!(matches!(
        manager.try_generate_at(MAX_TIMESTAMP_DELTA + 1),
        Err(ClamberError::TimestampOverflow { .. })
    ));
    // The last representable millisecond still works.
    assert!(manager
        .try_generate_at(MAX_TIMESTAMP_DELTA)
        .unwrap()
        .is_some());
}

#[test]
fn test_compose_decode_round_trip() {
    for &(ts, worker, seq) in &[
        (0u64, 0u64, 0u64),
        (123, 5, 1),
        (MAX_TIMESTAMP_DELTA, MAX_WORKER_ID, MAX_SEQUENCE),
        (1_234_567_890, 1023, 4095),
    ] {
        let id = compose_id(ts, worker, seq);
        let info = parse_id(id).unwrap();
        assert_eq!(info.timestamp, ts);
        assert_eq!(info.worker_id, worker);
        assert_eq!(u64::from(info.sequence), seq);
        assert_eq!(compose_id(info.timestamp, info.worker_id, u64::from(info.sequence)), id);
    }

    // The exact packing of the worked example: ((123 << 22) | (5 << 12) | 0).
    assert_eq!(compose_id(123, 5, 0), (123u64 << 22) | (5u64 << 12));
}

#[test]
fn test_parse_id_of_known_value() {
    let id = (77u64 << 22) | (42u64 << 12) | 7;
    let info = parse_id(id).unwrap();
    assert_eq!(info.id, id);
    assert_eq!(info.timestamp, 77);
    assert_eq!(info.worker_id, 42);
    assert_eq!(info.sequence, 7);
}

#[test]
fn test_generation_time() {
    let info = SnowflakeIdInfo {
        id: 0,
        timestamp: 1_000,
        worker_id: 1,
        sequence: 0,
    };
    assert_eq!(info.generation_time(None), 1_000 + DEFAULT_EPOCH_MILLIS);
    assert_eq!(info.generation_time(Some(500)), 1_500);
}

#[test]
fn test_id_string_round_trip() {
    let info = SnowflakeIdInfo {
        id: 1234567890123456789,
        timestamp: 0,
        worker_id: 0,
        sequence: 0,
    };
    assert_eq!(info.to_string(), "1234567890123456789");
    assert_eq!(
        SnowflakeIdInfo::from_string("1234567890123456789").unwrap(),
        1234567890123456789
    );
    assert!(matches!(
        SnowflakeIdInfo::from_string(""),
        Err(ClamberError::SnowflakeConfigError { .. })
    ));
    assert!(matches!(
        SnowflakeIdInfo::from_string("12x4"),
        Err(ClamberError::SnowflakeConfigError { .. })
    ));
    assert!(matches!(
        // One more than u64::MAX.
        SnowflakeIdInfo::from_string("18446744073709551616"),
        Err(ClamberError::SnowflakeConfigError { .. })
    ));
}

#[test]
fn test_batch_uses_custom_config() {
    let config = SnowflakeConfig::with_epoch(321, 1_000_000_000_000).unwrap();
    let mut manager = SnowflakeManager::new(config).unwrap();
    let ids = manager.generate_ids(50).unwrap();
    assert_eq!(ids.len(), 50);
    for window in ids.windows(2) {
        assert!(window[0] < window[1]);
    }
    for id in ids {
        assert_eq!(parse_id(id).unwrap().worker_id, 321);
    }
}

#[test]
fn test_get_config() {
    let config = SnowflakeConfig::with_epoch(11, 99).unwrap();
    let manager = SnowflakeManager::new(config).unwrap();
    assert_eq!(manager.get_config().worker_id, 11);
    assert_eq!(manager.get_config().epoch, Some(99));
}
