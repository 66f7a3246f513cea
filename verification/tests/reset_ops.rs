use bst_reset::map::{ResetMap, NUM_BLOCKS, NUM_LINES};
use bst_reset::ops::{
    assert_line, deassert_line, reset_line, status_line, ResetPulse, RST_HOLD_TIME,
};
use bst_reset::regs::RegisterBank;
use bst_reset::ResetError;

const BASES: [usize; 5] = [0x1000, 0x2000, 0x3000, 0x4000, 0x5000];

fn make_map() -> ResetMap {
    ResetMap::new(BASES).expect("all bases are non-null")
}

fn expected_valid(id: u64) -> bool {
    id <= 12 || (16..=29).contains(&id) || (32..=49).contains(&id)
}

fn snapshot(bank: &RegisterBank) -> [u32; 5] {
    [bank.read(0), bank.read(1), bank.read(2), bank.read(3), bank.read(4)]
}

#[test]
fn lookup_is_total_over_valid_ids_and_none_elsewhere() {
    let map = make_map();
    for id in 0..(NUM_LINES as u64) {
        match map.lookup(id) {
            Some(entry) => {
                assert!(expected_valid(id), "unexpected entry for id {}", id);
                assert!(entry.bit_index < 32);
                assert!(entry.block < NUM_BLOCKS);
                assert_eq!(entry.address, map.base_address(entry.block));
                assert_eq!(entry.address, BASES[entry.block]);
            }
            None => assert!(!expected_valid(id), "missing entry for id {}", id),
        }
    }
    assert!(map.lookup(NUM_LINES as u64).is_none());
    assert!(map.lookup(999).is_none());
    assert!(map.lookup(u64::MAX).is_none());
}

#[test]
fn lookup_resolves_layout_fields() {
    let map = make_map();
    let e0 = map.lookup(0).unwrap();
    assert_eq!((e0.block, e0.bit_index, e0.zero_asserts, e0.long_hold), (0, 0, true, false));
    let e29 = map.lookup(29).unwrap();
    assert_eq!((e29.block, e29.bit_index, e29.zero_asserts, e29.long_hold), (1, 13, true, false));
    let e33 = map.lookup(33).unwrap();
    assert_eq!((e33.block, e33.bit_index, e33.zero_asserts, e33.long_hold), (2, 1, true, true));
    let e43 = map.lookup(43).unwrap();
    assert_eq!((e43.block, e43.bit_index, e43.zero_asserts, e43.long_hold), (3, 3, false, false));
    let e45 = map.lookup(45).unwrap();
    assert_eq!((e45.block, e45.bit_index, e45.zero_asserts, e45.long_hold), (4, 0, false, true));
}

#[test]
fn construction_reports_mapping_failure_on_null_base() {
    assert_eq!(
        ResetMap::new([0x1000, 0, 0x3000, 0x4000, 0x5000]).err(),
        Some(ResetError::MappingFailure)
    );
    assert_eq!(
        ResetMap::new([0, 0, 0, 0, 0]).err(),
        Some(ResetError::MappingFailure)
    );
    assert!(ResetMap::new(BASES).is_ok());
}

#[test]
fn status_follows_assert_and_deassert_for_both_polarities() {
    let map = make_map();
    let mut bank = RegisterBank::from_values([0xDEAD_BEEF, 0x1234_5678, 0, 0xFFFF_FFFF, 7]);
    // lines of every block: zero-asserts (0..=2) and one-asserts (3, 4)
    for id in [0u64, 5, 12, 16, 29, 32, 39, 40, 43, 45, 49] {
        assert_line(&map, &mut bank, id).unwrap();
        assert_eq!(status_line(&map, &bank, id), Ok(true), "id {} after assert", id);
        deassert_line(&map, &mut bank, id).unwrap();
        assert_eq!(status_line(&map, &bank, id), Ok(false), "id {} after deassert", id);
    }
}

#[test]
fn assert_and_deassert_are_idempotent() {
    let map = make_map();
    let mut bank = RegisterBank::from_values([0xA5A5_A5A5, 0, 0x5A5A_5A5A, 1, 2]);
    for id in [3u64, 20, 35, 42, 48] {
        assert_line(&map, &mut bank, id).unwrap();
        let once = snapshot(&bank);
        assert_line(&map, &mut bank, id).unwrap();
        assert_eq!(snapshot(&bank), once, "second assert changed id {}", id);
        deassert_line(&map, &mut bank, id).unwrap();
        let released = snapshot(&bank);
        deassert_line(&map, &mut bank, id).unwrap();
        assert_eq!(snapshot(&bank), released, "second deassert changed id {}", id);
    }
}

#[test]
fn zero_asserts_polarity_clears_on_assert_and_sets_on_deassert() {
    let map = make_map();
    // line 3: block 0, bit 3, zero asserts
    let mut bank = RegisterBank::from_values([0xFFFF_FFFF, 0, 0, 0, 0]);
    assert_line(&map, &mut bank, 3).unwrap();
    assert_eq!(bank.read(0), 0xFFFF_FFF7);
    deassert_line(&map, &mut bank, 3).unwrap();
    assert_eq!(bank.read(0), 0xFFFF_FFFF);
}

#[test]
fn one_asserts_polarity_sets_on_assert_and_clears_on_deassert() {
    let map = make_map();
    // line 43: block 3, bit 3, one asserts
    let mut bank = RegisterBank::from_values([0, 0, 0, 0x0000_0000, 0]);
    assert_line(&map, &mut bank, 43).unwrap();
    assert_eq!(bank.read(3), 0x0000_0008);
    deassert_line(&map, &mut bank, 43).unwrap();
    assert_eq!(bank.read(3), 0x0000_0000);
}

#[test]
fn reset_pulse_waits_two_units_on_short_hold_lines() {
    let map = make_map();
    let mut bank = RegisterBank::new();
    let pulse = reset_line(&map, &mut bank, 5).unwrap();
    assert_eq!(pulse, ResetPulse { holds_after_assert: 1, holds_after_deassert: 1 });
    assert_eq!(pulse.total_holds(), 2);
    assert_eq!(pulse.total_holds() * RST_HOLD_TIME, 20);
    // the pulse ends with the line released
    assert_eq!(status_line(&map, &bank, 5), Ok(false));
}

#[test]
fn reset_pulse_waits_four_units_on_long_hold_lines() {
    let map = make_map();
    let mut bank = RegisterBank::new();
    for id in [33u64, 47] {
        let pulse = reset_line(&map, &mut bank, id).unwrap();
        assert_eq!(pulse, ResetPulse { holds_after_assert: 2, holds_after_deassert: 2 });
        assert_eq!(pulse.total_holds(), 4);
        assert_eq!(status_line(&map, &bank, id), Ok(false));
    }
}

#[test]
fn invalid_id_fails_without_touching_any_register() {
    let map = make_map();
    let mut bank = RegisterBank::from_values([1, 2, 3, 4, 5]);
    let before = snapshot(&bank);
    for id in [13u64, 14, 15, 30, 31, 50, 999, u64::MAX] {
        assert_eq!(assert_line(&map, &mut bank, id), Err(ResetError::InvalidId));
        assert_eq!(deassert_line(&map, &mut bank, id), Err(ResetError::InvalidId));
        assert_eq!(status_line(&map, &bank, id), Err(ResetError::InvalidId));
        assert_eq!(reset_line(&map, &mut bank, id), Err(ResetError::InvalidId));
        assert_eq!(snapshot(&bank), before, "id {} touched a register", id);
    }
}

#[test]
fn interleaved_operations_on_distinct_registers_do_not_interfere() {
    let map = make_map();
    // line 2 lives in register 0, line 42 in register 3
    let start: [u32; 5] = [0xFFFF_FFFF, 0x1111_1111, 0x2222_2222, 0, 0x3333_3333];

    let mut interleaved = RegisterBank::from_values(start);
    assert_line(&map, &mut interleaved, 2).unwrap();
    assert_line(&map, &mut interleaved, 42).unwrap();
    assert_eq!(status_line(&map, &interleaved, 2), Ok(true));
    assert_eq!(status_line(&map, &interleaved, 42), Ok(true));
    deassert_line(&map, &mut interleaved, 2).unwrap();
    assert_eq!(status_line(&map, &interleaved, 42), Ok(true), "line 42 lost its state");
    deassert_line(&map, &mut interleaved, 42).unwrap();

    // the same operations grouped per line end in the same bank
    let mut grouped = RegisterBank::from_values(start);
    assert_line(&map, &mut grouped, 42).unwrap();
    deassert_line(&map, &mut grouped, 42).unwrap();
    assert_line(&map, &mut grouped, 2).unwrap();
    deassert_line(&map, &mut grouped, 2).unwrap();
    assert_eq!(snapshot(&interleaved), snapshot(&grouped));

    // registers of uninvolved blocks never moved
    assert_eq!(interleaved.read(1), 0x1111_1111);
    assert_eq!(interleaved.read(2), 0x2222_2222);
    assert_eq!(interleaved.read(4), 0x3333_3333);
}

#[test]
fn fresh_bank_starts_cleared_and_from_values_keeps_contents() {
    let bank = RegisterBank::new();
    assert_eq!(snapshot(&bank), [0; 5]);
    let loaded = RegisterBank::from_values([9, 8, 7, 6, 5]);
    assert_eq!(snapshot(&loaded), [9, 8, 7, 6, 5]);
}
