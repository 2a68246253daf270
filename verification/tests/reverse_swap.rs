use bamboo_swap::{AssetId, AssetTransfer, BambooSwap, SwapError, SwapResponse, BAMBOO_PER_PANDA};

const MYSELF: AssetId = AssetId { collection: 2, serial: 9000 };

const A: AssetId = AssetId { collection: 2, serial: 11 };

const B: AssetId = AssetId { collection: 2, serial: 22 };

const C: AssetId = AssetId { collection: 2, serial: 33 };

fn one(id: AssetId) -> AssetTransfer {
    AssetTransfer { id, amount: 1 }
}

fn bamboo(amount: u128) -> Vec<AssetTransfer> {
    vec![AssetTransfer { id: MYSELF, amount }]
}

/// An engine that has taken in `A`, `B` and `C`, in that order.
fn stocked() -> BambooSwap {
    let mut engine = BambooSwap::new(vec![11, 22, 33, 44]);
    engine
        .forward_swap(&[0u8; 32], &vec![one(A), one(B), one(C)], &MYSELF)
        .unwrap();
    engine
}

#[test]
fn two_rates_hand_back_the_two_most_recent() {
    let mut engine = stocked();
    assert_eq!(engine.panda_stack(), Ok(vec![A, B, C]));
    assert_eq!(engine.instances_count(), 3);
    let settled = engine.reverse_swap(&[1u8; 32], &bamboo(2 * BAMBOO_PER_PANDA), &MYSELF);
    assert_eq!(
        settled,
        Ok(SwapResponse { transfers: vec![one(C), one(B)], data: vec![] })
    );
    assert_eq!(engine.panda_stack(), Ok(vec![A]));
    assert_eq!(engine.instances_count(), 1);
    assert_eq!(engine.total_supply(), BAMBOO_PER_PANDA);
    assert_eq!(engine.instance_record(2), Vec::<u8>::new());
    assert_eq!(engine.instance_record(3), Vec::<u8>::new());
    assert!(engine.has_tx_hash(&[1u8; 32]));
}

#[test]
fn a_deposit_and_its_redemption_hand_the_collectible_back() {
    let mut engine = stocked();
    let supply = engine.total_supply();
    let x = AssetId { collection: 2, serial: 44 };
    engine.forward_swap(&[1u8; 32], &vec![one(x)], &MYSELF).unwrap();
    assert_eq!(engine.total_supply(), supply + BAMBOO_PER_PANDA);
    let settled = engine.reverse_swap(&[2u8; 32], &bamboo(BAMBOO_PER_PANDA), &MYSELF);
    assert_eq!(settled, Ok(SwapResponse { transfers: vec![one(x)], data: vec![] }));
    assert_eq!(engine.total_supply(), supply);
    assert_eq!(engine.panda_stack(), Ok(vec![A, B, C]));
}

#[test]
fn a_deposit_and_its_redemption_on_a_new_engine() {
    let mut engine = BambooSwap::new(vec![44]);
    let x = AssetId { collection: 2, serial: 44 };
    engine.forward_swap(&[1u8; 32], &vec![one(x)], &MYSELF).unwrap();
    let settled = engine.reverse_swap(&[2u8; 32], &bamboo(10_000_000_000_000), &MYSELF);
    assert_eq!(settled, Ok(SwapResponse { transfers: vec![one(x)], data: vec![] }));
    assert_eq!(engine.total_supply(), 0);
    assert_eq!(engine.instances_count(), 0);
}

#[test]
fn one_and_a_half_rates_hand_back_one_and_the_change() {
    let mut engine = stocked();
    let settled = engine.reverse_swap(&[1u8; 32], &bamboo(15_000_000_000_000), &MYSELF);
    assert_eq!(
        settled,
        Ok(SwapResponse {
            transfers: vec![one(C), AssetTransfer { id: MYSELF, amount: 5_000_000_000_000 }],
            data: vec![],
        })
    );
    assert_eq!(engine.total_supply(), 2 * BAMBOO_PER_PANDA);
    assert_eq!(engine.panda_stack(), Ok(vec![A, B]));
}

#[test]
fn one_unit_short_of_two_rates_hands_back_one() {
    let mut engine = stocked();
    let settled = engine.reverse_swap(&[1u8; 32], &bamboo(19_999_999_999_999), &MYSELF);
    assert_eq!(
        settled,
        Ok(SwapResponse {
            transfers: vec![one(C), AssetTransfer { id: MYSELF, amount: 9_999_999_999_999 }],
            data: vec![],
        })
    );
    assert_eq!(engine.total_supply(), 20_000_000_000_000);
}

#[test]
fn all_that_is_held_can_be_redeemed() {
    let mut engine = stocked();
    let settled = engine.reverse_swap(&[1u8; 32], &bamboo(3 * BAMBOO_PER_PANDA), &MYSELF);
    assert_eq!(
        settled,
        Ok(SwapResponse { transfers: vec![one(C), one(B), one(A)], data: vec![] })
    );
    assert_eq!(engine.total_supply(), 0);
    assert_eq!(engine.instances_count(), 0);
    assert_eq!(engine.panda_stack(), Ok(vec![]));
}

#[test]
fn no_transfer_or_two_are_refused() {
    let mut engine = stocked();
    assert_eq!(
        engine.reverse_swap(&[1u8; 32], &vec![], &MYSELF),
        Err(SwapError::WrongInputShape)
    );
    let two = vec![
        AssetTransfer { id: MYSELF, amount: BAMBOO_PER_PANDA },
        AssetTransfer { id: MYSELF, amount: BAMBOO_PER_PANDA },
    ];
    assert_eq!(
        engine.reverse_swap(&[1u8; 32], &two, &MYSELF),
        Err(SwapError::WrongInputShape)
    );
    assert_eq!(engine.instances_count(), 3);
    assert!(!engine.has_tx_hash(&[1u8; 32]));
}

#[test]
fn another_asset_is_refused() {
    let mut engine = stocked();
    let other = vec![AssetTransfer { id: A, amount: BAMBOO_PER_PANDA }];
    assert_eq!(
        engine.reverse_swap(&[1u8; 32], &other, &MYSELF),
        Err(SwapError::WrongAssetSupplied)
    );
    let other = vec![AssetTransfer {
        id: AssetId { collection: 3, serial: 9000 },
        amount: BAMBOO_PER_PANDA,
    }];
    assert_eq!(
        engine.reverse_swap(&[1u8; 32], &other, &MYSELF),
        Err(SwapError::WrongAssetSupplied)
    );
}

#[test]
fn less_than_one_rate_is_refused() {
    let mut engine = stocked();
    assert_eq!(
        engine.reverse_swap(&[1u8; 32], &bamboo(BAMBOO_PER_PANDA - 1), &MYSELF),
        Err(SwapError::InsufficientAmount)
    );
    assert_eq!(
        engine.reverse_swap(&[1u8; 32], &bamboo(0), &MYSELF),
        Err(SwapError::InsufficientAmount)
    );
    assert_eq!(engine.total_supply(), 3 * BAMBOO_PER_PANDA);
}

#[test]
fn more_than_is_held_is_refused_and_the_ledger_is_left() {
    let mut engine = stocked();
    let settled = engine.reverse_swap(&[1u8; 32], &bamboo(4 * BAMBOO_PER_PANDA), &MYSELF);
    assert_eq!(settled, Err(SwapError::InsufficientInventory));
    assert_eq!(engine.total_supply(), 3 * BAMBOO_PER_PANDA);
    assert_eq!(engine.instances_count(), 3);
    assert_eq!(engine.panda_stack(), Ok(vec![A, B, C]));
    assert!(!engine.has_tx_hash(&[1u8; 32]));
}

#[test]
fn an_empty_registry_has_nothing_to_hand_back() {
    let mut engine = BambooSwap::new(vec![11]);
    engine.set_total_supply(BAMBOO_PER_PANDA);
    assert_eq!(
        engine.reverse_swap(&[1u8; 32], &bamboo(BAMBOO_PER_PANDA), &MYSELF),
        Err(SwapError::InsufficientInventory)
    );
}

#[test]
fn more_credit_than_was_issued_is_refused_and_nothing_changes() {
    let mut engine = stocked();
    engine.set_total_supply(2 * BAMBOO_PER_PANDA - 1);
    let settled = engine.reverse_swap(&[1u8; 32], &bamboo(2 * BAMBOO_PER_PANDA), &MYSELF);
    assert_eq!(settled, Err(SwapError::ArithmeticUnderflow));
    assert_eq!(engine.total_supply(), 2 * BAMBOO_PER_PANDA - 1);
    assert_eq!(engine.instances_count(), 3);
    assert!(!engine.has_tx_hash(&[1u8; 32]));
}

#[test]
fn a_slot_without_a_record_is_refused_and_nothing_changes() {
    let mut engine = stocked();
    engine.set_instance_record(2, vec![1, 2, 3]);
    let settled = engine.reverse_swap(&[1u8; 32], &bamboo(2 * BAMBOO_PER_PANDA), &MYSELF);
    assert_eq!(settled, Err(SwapError::CorruptState));
    assert_eq!(engine.total_supply(), 3 * BAMBOO_PER_PANDA);
    assert_eq!(engine.instances_count(), 3);
    assert_eq!(engine.instance_record(3), C.to_record());
    assert_eq!(engine.instance_record(2), vec![1, 2, 3]);
    assert!(!engine.has_tx_hash(&[1u8; 32]));
    let settled = engine.reverse_swap(&[1u8; 32], &bamboo(BAMBOO_PER_PANDA), &MYSELF);
    assert_eq!(settled, Ok(SwapResponse { transfers: vec![one(C)], data: vec![] }));
}

#[test]
fn a_transaction_that_took_collectibles_in_cannot_hand_them_back() {
    let mut engine = stocked();
    let settled = engine.reverse_swap(&[0u8; 32], &bamboo(BAMBOO_PER_PANDA), &MYSELF);
    assert_eq!(settled, Err(SwapError::ReplayDetected));
    assert_eq!(engine.total_supply(), 3 * BAMBOO_PER_PANDA);
    assert_eq!(engine.panda_stack(), Ok(vec![A, B, C]));
}

#[test]
fn a_second_reverse_swap_of_a_transaction_is_a_replay() {
    let mut engine = stocked();
    engine.reverse_swap(&[1u8; 32], &bamboo(BAMBOO_PER_PANDA), &MYSELF).unwrap();
    assert_eq!(
        engine.reverse_swap(&[1u8; 32], &bamboo(BAMBOO_PER_PANDA), &MYSELF),
        Err(SwapError::ReplayDetected)
    );
    assert_eq!(
        engine.reverse_swap(&[1u8; 32], &vec![], &MYSELF),
        Err(SwapError::ReplayDetected)
    );
    assert_eq!(
        engine.forward_swap(&[1u8; 32], &vec![one(A)], &MYSELF),
        Err(SwapError::ReplayDetected)
    );
    assert_eq!(engine.total_supply(), 2 * BAMBOO_PER_PANDA);
    assert_eq!(engine.panda_stack(), Ok(vec![A, B]));
}

#[test]
fn the_number_of_collectibles_that_credit_pays_for() {
    assert_eq!(BambooSwap::pandas_for(0), 0);
    assert_eq!(BambooSwap::pandas_for(9_999_999_999_999), 0);
    assert_eq!(BambooSwap::pandas_for(10_000_000_000_000), 1);
    assert_eq!(BambooSwap::pandas_for(25_000_000_000_000), 2);
    assert_eq!(
        BambooSwap::pandas_for(u128::MAX),
        34_028_236_692_093_846_346_337_460
    );
}

#[test]
fn a_reverse_swap_looks_only_at_the_slots_it_empties() {
    let mut engine = BambooSwap::new(vec![]);
    engine.set_instances_count(9);
    engine.set_total_supply(9 * BAMBOO_PER_PANDA);
    engine.set_instance_record(9, C.to_record());
    engine.set_instance_record(8, B.to_record());
    let settled = engine.reverse_swap(&[1u8; 32], &bamboo(2 * BAMBOO_PER_PANDA), &MYSELF);
    assert_eq!(
        settled,
        Ok(SwapResponse { transfers: vec![one(C), one(B)], data: vec![] })
    );
    assert_eq!(engine.instances_count(), 7);
    assert_eq!(engine.total_supply(), 7 * BAMBOO_PER_PANDA);
    assert_eq!(engine.instance_record(8), Vec::<u8>::new());
    assert_eq!(engine.instance_record(9), Vec::<u8>::new());
}
