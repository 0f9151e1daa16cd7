use ore_boost::pubkey::Pubkey;
use ore_boost::worker::lookup_tables::{
    parse_lookup_tables, plan_extend, plan_sync, untabled_accounts, LookupTable,
};

fn key(n: u32) -> Pubkey {
    let mut bytes = [0u8; 32];
    bytes[..4].copy_from_slice(&n.to_le_bytes());
    Pubkey::new_from_array(bytes)
}

fn keys(range: std::ops::Range<u32>) -> Vec<Pubkey> {
    range.map(key).collect()
}

fn table(id: u32, addresses: Vec<Pubkey>) -> LookupTable {
    LookupTable { key: key(1_000_000 + id), addresses }
}

#[test]
fn untabled_keeps_order() {
    let tables = vec![table(0, keys(0..3)), table(1, keys(5..6))];
    let stakes = keys(0..8);
    assert!(untabled_accounts(&tables, &stakes).iter().eq(keys(3..5).iter().chain(keys(6..8).iter())));
}

#[test]
fn sync_does_nothing_when_all_are_tabled() {
    let tables = vec![table(0, keys(0..10))];
    let plan = plan_sync(&tables, &keys(2..9));
    assert!(plan.extend.is_none());
    assert!(plan.allocate.is_empty());
}

#[test]
fn sync_fills_the_first_table_with_room_then_allocates() {
    let tables = vec![table(0, keys(0..256)), table(1, keys(256..506)), table(2, keys(506..510))];
    let stakes = keys(0..1_000);
    let plan = plan_sync(&tables, &stakes);
    let (lut, added) = plan.extend.unwrap();
    assert_eq!(lut, key(1_000_001));
    assert!(added.iter().eq(keys(510..516).iter()));
    assert_eq!(plan.allocate.len(), 2);
    assert!(plan.allocate[0].iter().eq(keys(516..772).iter()));
    assert!(plan.allocate[1].iter().eq(keys(772..1_000).iter()));
}

#[test]
fn sync_without_room_allocates_everything() {
    let tables = vec![table(0, keys(0..256))];
    let plan = plan_sync(&tables, &keys(0..300));
    assert!(plan.extend.is_none());
    assert_eq!(plan.allocate.len(), 1);
    assert!(plan.allocate[0].iter().eq(keys(256..300).iter()));
    let fresh = plan_sync(&vec![], &keys(0..3));
    assert!(fresh.extend.is_none());
    assert_eq!(fresh.allocate.len(), 1);
}

#[test]
fn sync_room_exactly_enough() {
    let tables = vec![table(0, keys(0..250))];
    let plan = plan_sync(&tables, &keys(0..256));
    let (_, added) = plan.extend.unwrap();
    assert_eq!(added.len(), 6);
    assert!(plan.allocate.is_empty());
}

#[test]
fn extend_groups_instructions_and_bundles() {
    let plan = plan_extend(&keys(0..200));
    // 200 addresses: 8 instructions (7 of 26, 1 of 18), bundles of at most 5.
    assert_eq!(plan.len(), 2);
    assert_eq!(plan[0].len(), 5);
    assert_eq!(plan[1].len(), 3);
    assert_eq!(plan[1][2].len(), 18);
    assert!(plan_extend(&vec![]).is_empty());
}

#[test]
fn lookup_table_file_lines() {
    let lines = vec![
        "BooST9jdDtrg3THn5fo2D4XAtKtciBRi7H2muxVK4JS".to_string(),
        "garbage".to_string(),
        String::new(),
        "11111111111111111111111111111111".to_string(),
    ];
    let parsed = parse_lookup_tables(&lines);
    assert_eq!(parsed.len(), 2);
    assert_eq!(parsed[0].bytes, ore_boost::consts::PROGRAM_ID);
    assert_eq!(parsed[1], Pubkey::default());
}

#[test]
fn sync_plan_tables_every_stake() {
    let tables = vec![table(0, keys(0..256)), table(1, keys(300..310))];
    let stakes = keys(0..700);
    let plan = plan_sync(&tables, &stakes);
    let (_, added) = plan.extend.clone().unwrap();
    for s in &stakes {
        let tabled = tables.iter().any(|t| t.addresses.contains(s));
        let extended = added.contains(s);
        let allocated = plan.allocate.iter().any(|c| c.contains(s));
        assert!(tabled || extended || allocated);
    }
    assert!(plan.allocate.iter().all(|c| c.len() <= 256));
    assert!(added.len() <= 256 - 10);
}
