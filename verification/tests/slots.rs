use preflight::error::PreflightError;
use preflight::slot::block_time_to_block_slot;

#[test]
fn slot_of_a_time() {
    assert_eq!(block_time_to_block_slot(1_606_824_023, 1_606_824_023, 12), Ok(0));
    assert_eq!(block_time_to_block_slot(1_606_824_034, 1_606_824_023, 12), Ok(0));
    assert_eq!(block_time_to_block_slot(1_606_824_035, 1_606_824_023, 12), Ok(1));
    assert_eq!(block_time_to_block_slot(u64::MAX, 1, 1), Ok(u64::MAX - 1));
}

#[test]
fn slot_needs_a_genesis_time() {
    assert_eq!(block_time_to_block_slot(100, 0, 12), Err(PreflightError::GenesisTimeZero));
    assert_eq!(block_time_to_block_slot(0, 0, 0), Err(PreflightError::GenesisTimeZero));
}

#[test]
fn slot_needs_a_time_after_genesis() {
    assert_eq!(block_time_to_block_slot(99, 100, 12), Err(PreflightError::BlockTimeBeforeGenesis));
    assert_eq!(block_time_to_block_slot(99, 100, 0), Err(PreflightError::BlockTimeBeforeGenesis));
}

#[test]
fn time_lies_in_its_slot() {
    let (genesis, length) = (1_000u64, 12u64);
    for time in 1_000..1_100u64 {
        let slot = block_time_to_block_slot(time, genesis, length).unwrap();
        assert!(genesis + slot * length <= time);
        assert!(time < genesis + (slot + 1) * length);
    }
}

#[test]
fn slots_do_not_go_back() {
    let mut last = 0u64;
    for time in 500..900u64 {
        let slot = block_time_to_block_slot(time, 500, 7).unwrap();
        assert!(last <= slot);
        last = slot;
    }
}

#[test]
fn slots_pass_one_by_one() {
    let slot = block_time_to_block_slot(1_031, 1_000, 12).unwrap();
    assert_eq!(slot, 2);
    for slots in 0..50u64 {
        assert_eq!(block_time_to_block_slot(1_031 + slots * 12, 1_000, 12), Ok(slot + slots));
    }
}

#[test]
fn slot_counts_from_genesis() {
    for shift in [0u64, 1, 11, 12, 1_000_000] {
        assert_eq!(block_time_to_block_slot(1_031 + shift, 1_000 + shift, 12), Ok(2));
    }
}
