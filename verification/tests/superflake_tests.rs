use superflake::{Superflake, SuperflakeError, DEFAULT_EPOCH};

fn current_millis() -> u64 {
    std::time::SystemTime::now()
        .duration_since(std::time::UNIX_EPOCH)
        .expect("clock reads after the Unix epoch")
        .as_millis() as u64
}

#[test]
fn gen_superflake() {
    let mut superflake: Superflake = Superflake::new_with_node_id(1023, None).unwrap();

    let id = superflake.gen().unwrap();

    let decoded = superflake.decode(id);

    assert_eq!(decoded.id, id);
    assert_eq!(decoded.node_id, 1023);
}

#[test]
fn gen_multiple_superflakes() {
    let mut superflake = Superflake::new_with_node_id(1023, None).unwrap();

    let ids: Vec<u64> = (0..4096).map(|_| superflake.gen().unwrap()).collect();
    let last_superflake = superflake.gen().unwrap();

    for (sequence, &id) in ids.iter().enumerate() {
        let decoded = superflake.decode(id);

        assert_eq!(decoded.inc, sequence as u64);
    }

    let decoded = superflake.decode(last_superflake);
    assert_eq!(decoded.inc, 0);
}

#[test]
fn round_trip_keeps_the_id() {
    let mut flake = Superflake::new_with_node_id(12, Some(1_000)).unwrap();
    let id = flake.gen_with_timestamp(5_000).unwrap();
    assert_eq!(flake.decode(id).id, id);
}

#[test]
fn node_fidelity_across_nodes() {
    for node_id in [0u32, 1, 2, 511, 512, 1022, 1023] {
        let mut flake = Superflake::new_with_node_id(node_id, Some(7)).unwrap();
        let id = flake.gen_with_timestamp(9_999).unwrap();
        assert_eq!(flake.decode(id).node_id, node_id);
    }
}

#[test]
fn sequence_counts_through_a_millisecond() {
    let ts: u64 = DEFAULT_EPOCH + 1;
    let mut flake = Superflake::new_with_node_id(42, None).unwrap();
    let mut previous: Option<u64> = None;
    for expected in 0u64..4096 {
        let id = flake.gen_with_timestamp(ts).unwrap();
        assert_eq!(flake.decode(id).inc, expected);
        if let Some(p) = previous {
            assert!(p < id);
        }
        previous = Some(id);
    }
}

#[test]
fn wrap_waits_for_a_fresh_millisecond() {
    let ts: u64 = current_millis();
    let mut flake = Superflake::new_with_node_id(7, Some(0)).unwrap();
    for _ in 0..4096 {
        flake.gen_with_timestamp(ts).unwrap();
    }
    let id = flake.gen_with_timestamp(ts).unwrap();
    assert!(current_millis() > ts);
    assert_eq!(flake.decode(id).inc, 0);
}

#[test]
fn epoch_sensitivity_shifts_the_timestamp() {
    let epoch1: u64 = 1_000_000;
    let epoch2: u64 = 4_500_000;
    let mut source = Superflake::new_with_node_id(1, Some(epoch1)).unwrap();
    let id = source.gen_with_timestamp(2_000_000).unwrap();

    let reader1 = Superflake::new_with_node_id(1, Some(epoch1)).unwrap();
    let reader2 = Superflake::new_with_node_id(1, Some(epoch2)).unwrap();
    let t1 = reader1.decode(id).timestamp;
    let t2 = reader2.decode(id).timestamp;

    assert_ne!(t1, t2);
    assert_eq!(t2 - t1, epoch2 - epoch1);
}

#[test]
fn default_epoch_generator() {
    let mut flake = Superflake::new_with_node_id(1023, None).unwrap();
    let id = flake.gen().unwrap();
    let decoded = flake.decode(id);
    assert_eq!(decoded.node_id, 1023);
    assert_eq!(decoded.inc, 0);
    assert_eq!(decoded.epoch, DEFAULT_EPOCH);
}

#[test]
fn earlier_timestamp_gives_smaller_id() {
    let t1: u64 = DEFAULT_EPOCH + 10;
    let t2: u64 = DEFAULT_EPOCH + 11;
    let mut flake = Superflake::new_with_node_id(900, None).unwrap();
    let id1 = flake.gen_with_timestamp(t1).unwrap();
    let id2 = flake.gen_with_timestamp(t2).unwrap();
    assert!(id1 < id2);
}

#[test]
fn exact_bit_layout() {
    let mut flake = Superflake::new_with_node_id(3, Some(1_000)).unwrap();
    let first = flake.gen_with_timestamp(1_005).unwrap();
    let second = flake.gen_with_timestamp(1_005).unwrap();
    assert_eq!(first, (5u64 << 22) | (3u64 << 12));
    assert_eq!(second, (5u64 << 22) | (3u64 << 12) | 1u64);
}

#[test]
fn decode_reconstructs_the_timestamp() {
    let ts: u64 = DEFAULT_EPOCH + 123_456;
    let mut flake = Superflake::new_with_node_id(77, None).unwrap();
    let id = flake.gen_with_timestamp(ts).unwrap();
    assert_eq!(flake.decode(id).timestamp, ts);
}

#[test]
fn decode_masks_an_arbitrary_value() {
    let flake = Superflake::new_with_node_id(0, Some(0)).unwrap();
    let decoded = flake.decode(u64::MAX);
    assert_eq!(decoded.id, u64::MAX);
    assert_eq!(decoded.inc, 0xFFF);
    assert_eq!(decoded.node_id, 0x3FF);
    assert_eq!(decoded.timestamp, u64::MAX >> 22);
}

#[test]
fn oversized_node_id_is_rejected() {
    assert_eq!(
        Superflake::new_with_node_id(1024, None).unwrap_err(),
        SuperflakeError::InvalidNodeId
    );
    assert_eq!(
        Superflake::new_with_node_id(u32::MAX, Some(5)).unwrap_err(),
        SuperflakeError::InvalidNodeId
    );
    assert!(Superflake::new_with_node_id(1023, None).is_ok());
}

#[test]
fn timestamp_before_epoch_is_rejected() {
    let mut flake = Superflake::new_with_node_id(9, Some(10_000)).unwrap();
    assert_eq!(
        flake.gen_with_timestamp(9_999).unwrap_err(),
        SuperflakeError::ClockBeforeEpoch
    );
    // The rejected call left the counter alone: the next identifier still
    // carries sequence value 0.
    let id = flake.gen_with_timestamp(10_000).unwrap();
    assert_eq!(flake.decode(id).inc, 0);
}
