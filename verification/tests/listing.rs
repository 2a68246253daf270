use bamboo_swap::text::{instance_label, push_decimal};
use bamboo_swap::{AssetId, AssetTransfer, BambooSwap, SwapError, SwapResponse};

const MYSELF: AssetId = AssetId { collection: 2, serial: 9000 };

fn one(id: AssetId) -> AssetTransfer {
    AssetTransfer { id, amount: 1 }
}

fn stocked() -> BambooSwap {
    let mut engine = BambooSwap::new(vec![1, 5, 614]);
    let batch = vec![
        one(AssetId { collection: 2, serial: 1 }),
        one(AssetId { collection: 2, serial: 614 }),
        one(AssetId { collection: 2, serial: 5 }),
    ];
    engine.forward_swap(&[0u8; 32], &batch, &MYSELF).unwrap();
    engine
}

fn le(value: u128) -> Vec<u8> {
    value.to_le_bytes().to_vec()
}

#[test]
fn a_number_in_decimal() {
    let mut text = String::new();
    push_decimal(&mut text, 0);
    assert_eq!(text, "0");
    push_decimal(&mut text, 7);
    push_decimal(&mut text, 10);
    push_decimal(&mut text, 1_000_209);
    assert_eq!(text, "07101000209");
    let mut text = String::from("x");
    push_decimal(&mut text, u128::MAX);
    assert_eq!(text, "x340282366920938463463374607431768211455");
}

#[test]
fn a_label_is_two_numbers_and_a_colon() {
    assert_eq!(instance_label(&AssetId { collection: 2, serial: 614 }), "2:614");
    assert_eq!(instance_label(&AssetId { collection: 0, serial: 0 }), "0:0");
    assert_eq!(
        instance_label(&AssetId { collection: u128::MAX, serial: 10 }),
        "340282366920938463463374607431768211455:10"
    );
}

#[test]
fn the_first_call_sends_the_transfers_back() {
    let engine = BambooSwap::new(vec![]);
    let incoming = vec![one(MYSELF), AssetTransfer { id: MYSELF, amount: 7 }];
    assert_eq!(
        engine.initialize(&incoming),
        SwapResponse { transfers: incoming.clone(), data: vec![] }
    );
    assert_eq!(
        SwapResponse::forward(&vec![]),
        SwapResponse { transfers: vec![], data: vec![] }
    );
}

#[test]
fn the_name_and_the_symbol() {
    let engine = BambooSwap::new(vec![]);
    assert_eq!(engine.name(), "BAMBOO");
    assert_eq!(engine.symbol(), "BAMBOO");
    let incoming = vec![one(MYSELF)];
    assert_eq!(
        engine.get_name(&incoming),
        SwapResponse { transfers: incoming.clone(), data: b"BAMBOO".to_vec() }
    );
    assert_eq!(
        engine.get_symbol(&incoming),
        SwapResponse { transfers: incoming.clone(), data: vec![66, 65, 77, 66, 79, 79] }
    );
}

#[test]
fn the_numbers_are_sixteen_little_endian_bytes() {
    let engine = stocked();
    let incoming = vec![one(MYSELF)];
    let mut supply = vec![0u8; 16];
    // 30_000_000_000_000 is 0x1b48_eb57_e000
    supply[0] = 0x00;
    supply[1] = 0xe0;
    supply[2] = 0x57;
    supply[3] = 0xeb;
    supply[4] = 0x48;
    supply[5] = 0x1b;
    assert_eq!(
        engine.get_total_supply(&incoming),
        SwapResponse { transfers: incoming.clone(), data: supply }
    );
    assert_eq!(engine.get_cap(&incoming).data, le(100_000_000_000_000_000));
    assert_eq!(engine.get_value_per_mint(&incoming).data, le(10_000_000_000_000));
    let mut three = vec![0u8; 16];
    three[0] = 3;
    assert_eq!(
        engine.get_minted(&incoming),
        SwapResponse { transfers: incoming.clone(), data: three.clone() }
    );
    assert_eq!(
        engine.get_panda_stack_count(&incoming),
        SwapResponse { transfers: incoming.clone(), data: three }
    );
}

#[test]
fn the_stack_as_bytes_is_the_records_in_order() {
    let engine = stocked();
    let incoming = vec![one(MYSELF)];
    let mut data = vec![0u8; 96];
    data[0] = 2;
    data[16] = 1;
    data[32] = 2;
    data[48] = 0x66;
    data[49] = 0x02;
    data[64] = 2;
    data[80] = 5;
    assert_eq!(
        engine.get_panda_stack(&incoming),
        Ok(SwapResponse { transfers: incoming.clone(), data })
    );
}

#[test]
fn the_stack_of_an_empty_registry_is_empty() {
    let engine = BambooSwap::new(vec![]);
    assert_eq!(engine.panda_stack(), Ok(vec![]));
    assert_eq!(
        engine.get_panda_stack(&vec![]),
        Ok(SwapResponse { transfers: vec![], data: vec![] })
    );
    assert_eq!(engine.panda_stack_labels(), Ok(vec![]));
    assert_eq!(
        engine.get_panda_stack_json(&vec![]),
        Ok(SwapResponse { transfers: vec![], data: b"[]".to_vec() })
    );
}

#[test]
fn the_stack_as_json_is_an_array_of_labels() {
    let engine = stocked();
    let incoming = vec![one(MYSELF)];
    assert_eq!(
        engine.panda_stack_labels(),
        Ok(vec!["2:1".to_string(), "2:614".to_string(), "2:5".to_string()])
    );
    assert_eq!(
        engine.get_panda_stack_json(&incoming),
        Ok(SwapResponse {
            transfers: incoming.clone(),
            data: b"[\"2:1\",\"2:614\",\"2:5\"]".to_vec(),
        })
    );
}

#[test]
fn the_stack_with_one_collectible_has_no_comma() {
    let mut engine = BambooSwap::new(vec![]);
    engine.add_instance(&AssetId { collection: 7, serial: 8 }).unwrap();
    assert_eq!(
        engine.get_panda_stack_json(&vec![]).map(|response| response.data),
        Ok(b"[\"7:8\"]".to_vec())
    );
}

#[test]
fn a_slot_without_a_record_stops_every_listing() {
    let mut engine = stocked();
    engine.set_instance_record(2, vec![0u8; 16]);
    assert_eq!(engine.panda_stack(), Err(SwapError::CorruptState));
    assert_eq!(engine.get_panda_stack(&vec![]), Err(SwapError::CorruptState));
    assert_eq!(engine.panda_stack_labels(), Err(SwapError::CorruptState));
    assert_eq!(engine.get_panda_stack_json(&vec![]), Err(SwapError::CorruptState));
}

#[test]
fn a_count_beyond_the_records_stops_the_listing() {
    let mut engine = stocked();
    engine.set_instances_count(4);
    assert_eq!(engine.get_panda_stack(&vec![]), Err(SwapError::CorruptState));
    engine.set_instances_count(2);
    assert_eq!(
        engine.panda_stack(),
        Ok(vec![
            AssetId { collection: 2, serial: 1 },
            AssetId { collection: 2, serial: 614 }
        ])
    );
}

#[test]
fn what_the_encoder_gave_becomes_the_response() {
    let incoming = vec![one(MYSELF)];
    assert_eq!(
        BambooSwap::json_response(&incoming, Ok("[\"2:1\"]".to_string())),
        Ok(SwapResponse { transfers: incoming.clone(), data: b"[\"2:1\"]".to_vec() })
    );
    let failure = serde_json::from_str::<u32>("x").unwrap_err();
    assert_eq!(
        BambooSwap::json_response(&incoming, Err(failure)),
        Err(SwapError::EncodingFailed)
    );
}

#[test]
fn two_collectibles_as_json_are_thirteen_bytes() {
    let mut engine = BambooSwap::new(vec![]);
    engine.add_instance(&AssetId { collection: 2, serial: 1 }).unwrap();
    engine.add_instance(&AssetId { collection: 2, serial: 3 }).unwrap();
    let listed = engine.get_panda_stack_json(&vec![]).unwrap();
    assert_eq!(listed.transfers, vec![]);
    assert_eq!(listed.data.len(), 13);
    assert_eq!(
        listed.data,
        vec![0x5b, 0x22, 0x32, 0x3a, 0x31, 0x22, 0x2c, 0x22, 0x32, 0x3a, 0x33, 0x22, 0x5d]
    );
    assert_eq!(engine.instances_count(), 2);
}

#[test]
fn the_json_lists_what_the_bytes_list_in_the_same_order() {
    let engine = stocked();
    let held = engine.panda_stack().unwrap();
    let bytes = engine.get_panda_stack(&vec![]).unwrap().data;
    let json = engine.get_panda_stack_json(&vec![]).unwrap().data;
    let labels: Vec<String> = serde_json::from_slice(&json).unwrap();
    assert_eq!(labels.len(), held.len());
    for (i, id) in held.iter().enumerate() {
        assert_eq!(labels[i], format!("{}:{}", id.collection, id.serial));
        assert_eq!(bytes[32 * i..32 * i + 32].to_vec(), id.to_record());
    }
}
