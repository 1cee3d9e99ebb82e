use archipelago_sync::stage_data::{all_locations, generate_tsc};
use archipelago_sync::ITEM_BASE;

#[test]
fn generate_tsc_remote_player_block() {
    let mut buf: Vec<u8> = Vec::new();
    generate_tsc(&mut buf, 100, 200, 5, "Missile".to_owned(), Some("Alice".to_owned()));
    let expected =
        b"0200\r\n<FL+0100\r\n<MSG<CLR<GIT1005\r\n<CMU0010Got Alice's\r\n =Missile=.<WAI0160<NOD\r\n";
    assert_eq!(buf, expected.to_vec());
}

#[test]
fn generate_tsc_local_item_jumps_to_event() {
    let mut buf: Vec<u8> = Vec::new();
    generate_tsc(&mut buf, 581, 581, ITEM_BASE + 205, "Life Capsule".to_owned(), None);
    // The full network id renders with all its digits.
    let expected = b"0581\r\n<FL+0581\r\n<EVE13631693\r\n";
    assert_eq!(buf, expected.to_vec());
}

#[test]
fn generate_tsc_pads_small_numbers() {
    let mut buf: Vec<u8> = Vec::new();
    generate_tsc(&mut buf, 7, 42, 30, "Panties".to_owned(), None);
    let expected = b"0042\r\n<FL+0007\r\n<EVE0030\r\n";
    assert_eq!(buf, expected.to_vec());
}

#[test]
fn generate_tsc_replaces_buffer_contents() {
    let mut buf: Vec<u8> = vec![9, 9, 9];
    generate_tsc(&mut buf, 1, 1, 1, "X".to_owned(), None);
    assert_eq!(buf, b"0001\r\n<FL+0001\r\n<EVE0001\r\n".to_vec());
}

#[test]
fn all_locations_cover_the_local_game() {
    let locs = all_locations();
    assert_eq!(locs.len(), 27);
    assert_eq!(locs[0], 101 + ITEM_BASE);
    assert!(locs.contains(&(581 + ITEM_BASE)));
    assert_eq!(locs[26], 1700 + ITEM_BASE);
    // All entries carry the fixed base offset.
    for l in &locs {
        assert!(*l >= ITEM_BASE);
    }
}
