use archipelago_sync::generator::{
    concat_events, parse_npc_table, patch_stage, serialize_npc_table, split_events, NPCData,
};
use archipelago_sync::protocol::{
    ConnectionInfo, DataPackage, GameData, NetworkItem, PlayerData,
};
use archipelago_sync::ITEM_BASE;

fn npc(flag: u16, event: u16, npc_type: u16) -> NPCData {
    NPCData { x: 10, y: -4, id: 0, flag_num: flag, event_num: event, npc_type, flags: 0, layer: 0 }
}

fn scout(flag: u16, item: i32, player: i32) -> NetworkItem {
    NetworkItem { item, location: flag as i32 + ITEM_BASE, player, flags: 0 }
}

fn stage_data_package() -> DataPackage {
    DataPackage {
        games: vec![(
            "Cave Story".to_owned(),
            GameData {
                item_name_to_id: vec![
                    ("Life Capsule".to_owned(), ITEM_BASE + 205),
                    ("Missile Launcher".to_owned(), ITEM_BASE + 104),
                ],
                location_name_to_id: Vec::new(),
            },
        )],
    }
}

fn stage_connection() -> ConnectionInfo {
    ConnectionInfo {
        team: 0,
        slot: 1,
        players: vec![
            PlayerData { team: 0, slot: 1, name: "Quote".to_owned() },
            PlayerData { team: 0, slot: 2, name: "Bob".to_owned() },
        ],
        slot_games: vec![(1, "Cave Story".to_owned()), (2, "Cave Story".to_owned())],
    }
}

#[test]
fn npc_table_round_trips_through_its_bytes() {
    let npcs = vec![npc(581, 42, 0), npc(101, 100, 16), npc(7, 8, 21)];
    let bytes = serialize_npc_table(&npcs);
    assert_eq!(bytes.len(), 4 + 15 * 3);
    let parsed = parse_npc_table(&bytes).unwrap();
    assert_eq!(parsed, npcs);
}

#[test]
fn npc_table_with_wrong_length_is_rejected() {
    let npcs = vec![npc(1, 2, 3)];
    let mut bytes = serialize_npc_table(&npcs);
    bytes.pop();
    assert!(parse_npc_table(&bytes).is_none());
    assert!(parse_npc_table(&vec![1, 2]).is_none());
}

#[test]
fn remote_item_rewrites_the_record_to_a_chest() {
    // A null record under the one excepted flag, scouted as a remote player's
    // item: the record becomes a chest, gains a paired open-chest
    // placeholder, and the injected block names the remote player.
    let dp = stage_data_package();
    let conn = stage_connection();
    let locs = vec![scout(581, ITEM_BASE + 104, 2)];
    let tsc: Vec<u8> = b"#0042\r\nvanilla text<END".to_vec();
    let npcs = vec![npc(581, 42, 0)];
    let (tsc_out, npcs_out) = patch_stage(&dp, &conn, &locs, &tsc, &npcs);
    assert_eq!(npcs_out.len(), 2);
    assert_eq!(npcs_out[0].npc_type, 21);
    assert_eq!(npcs_out[0].flags, 0x2800);
    assert_eq!(npcs_out[1].npc_type, 15);
    assert_eq!(npcs_out[1].flags, 0x6000);
    assert_eq!(npcs_out[1].flag_num, 581);
    let text = String::from_utf8(tsc_out).unwrap();
    assert!(text.contains("Got Bob's"));
    assert!(text.contains("=Missile Launcher=."));
    assert!(text.starts_with("#0042\r\n<FL+0581\r\n"));
}

#[test]
fn local_capsule_becomes_a_capsule_object() {
    let dp = stage_data_package();
    let conn = stage_connection();
    let locs = vec![scout(101, ITEM_BASE + 205, 1)];
    let tsc: Vec<u8> = b"#0100\r\nold<END#0200\r\nkeep<END".to_vec();
    let npcs = vec![npc(101, 100, 17)];
    let (tsc_out, npcs_out) = patch_stage(&dp, &conn, &locs, &tsc, &npcs);
    assert_eq!(npcs_out.len(), 1);
    assert_eq!(npcs_out[0].npc_type, 32);
    assert_eq!(npcs_out[0].flags, 0x6000);
    let text = String::from_utf8(tsc_out).unwrap();
    // The local player's own item jumps to its native award event.
    assert!(text.contains("<EVE13631693"));
    assert!(text.contains("#0200\r\nkeep<END"));
    assert!(!text.contains("old"));
}

#[test]
fn unscouted_records_pass_through_vanilla() {
    let dp = stage_data_package();
    let conn = stage_connection();
    let locs = vec![scout(581, ITEM_BASE + 104, 2)];
    let tsc: Vec<u8> = b"#0100\r\nkeep<END".to_vec();
    let npcs = vec![npc(101, 100, 17)];
    let (tsc_out, npcs_out) = patch_stage(&dp, &conn, &locs, &tsc, &npcs);
    assert_eq!(npcs_out, npcs);
    assert_eq!(tsc_out, tsc);
}

#[test]
fn null_records_outside_the_exception_stay_vanilla() {
    let dp = stage_data_package();
    let conn = stage_connection();
    let locs = vec![scout(101, ITEM_BASE + 104, 2)];
    let tsc: Vec<u8> = b"#0100\r\nkeep<END".to_vec();
    // Null and save-point records under a scouted flag stay as they are,
    // except under the one special-cased flag.
    let npcs = vec![npc(101, 100, 0), npc(101, 100, 16)];
    let (tsc_out, npcs_out) = patch_stage(&dp, &conn, &locs, &tsc, &npcs);
    assert_eq!(npcs_out, npcs);
    assert_eq!(tsc_out, tsc);
}

#[test]
fn open_chest_placeholders_under_scouted_flags_are_dropped() {
    let dp = stage_data_package();
    let conn = stage_connection();
    let locs = vec![scout(101, ITEM_BASE + 104, 2)];
    let tsc: Vec<u8> = b"#0100\r\nkeep<END".to_vec();
    let npcs = vec![npc(101, 100, 21)];
    let (_, npcs_out) = patch_stage(&dp, &conn, &locs, &tsc, &npcs);
    assert!(npcs_out.is_empty());
}

#[test]
fn missing_event_block_leaves_the_script_unmodified() {
    let dp = stage_data_package();
    let conn = stage_connection();
    let locs = vec![scout(101, ITEM_BASE + 104, 2)];
    let tsc: Vec<u8> = b"#0500\r\nkeep<END".to_vec();
    let npcs = vec![npc(101, 100, 17)];
    let (tsc_out, npcs_out) = patch_stage(&dp, &conn, &locs, &tsc, &npcs);
    // The record is still rewritten, but no block carries its event header.
    assert_eq!(npcs_out.len(), 2);
    assert_eq!(tsc_out, tsc);
}

#[test]
fn unresolvable_scout_skips_the_record() {
    let dp = stage_data_package();
    let conn = stage_connection();
    // Slot 3 is not in the roster, so the owner cannot be named.
    let locs = vec![scout(101, ITEM_BASE + 104, 3)];
    let tsc: Vec<u8> = b"#0100\r\nkeep<END".to_vec();
    let npcs = vec![npc(101, 100, 17)];
    let (tsc_out, npcs_out) = patch_stage(&dp, &conn, &locs, &tsc, &npcs);
    assert_eq!(npcs_out, npcs);
    assert_eq!(tsc_out, tsc);
}

#[test]
fn patch_generation_is_deterministic() {
    let dp = stage_data_package();
    let conn = stage_connection();
    let locs = vec![scout(581, ITEM_BASE + 104, 2), scout(101, ITEM_BASE + 205, 1)];
    let tsc: Vec<u8> = b"#0042\r\none<END#0100\r\ntwo<END#0200\r\nthree<END".to_vec();
    let npcs = vec![npc(581, 42, 0), npc(101, 100, 17), npc(7, 200, 17)];
    let first = patch_stage(&dp, &conn, &locs, &tsc, &npcs);
    let second = patch_stage(&dp, &conn, &locs, &tsc, &npcs);
    assert_eq!(first.0, second.0);
    assert_eq!(first.1, second.1);
}

#[test]
fn empty_table_round_trips() {
    let npcs: Vec<NPCData> = Vec::new();
    let bytes = serialize_npc_table(&npcs);
    assert_eq!(bytes, vec![0, 0, 0, 0]);
    assert_eq!(parse_npc_table(&bytes), Some(Vec::new()));
}

#[test]
fn empty_stage_passes_through() {
    let dp = stage_data_package();
    let conn = stage_connection();
    let locs: Vec<NetworkItem> = Vec::new();
    let tsc: Vec<u8> = Vec::new();
    let npcs: Vec<NPCData> = Vec::new();
    let (tsc_out, npcs_out) = patch_stage(&dp, &conn, &locs, &tsc, &npcs);
    assert!(tsc_out.is_empty());
    assert!(npcs_out.is_empty());
}

#[test]
fn event_scripts_split_into_runs_and_join_back() {
    let script: Vec<u8> = b"#0100\r\nfirst<END##0200\r\nsecond<END".to_vec();
    let blocks = split_events(&script);
    assert_eq!(blocks.len(), 4);
    assert_eq!(blocks[0], b"#".to_vec());
    assert_eq!(blocks[1], b"0100\r\nfirst<END".to_vec());
    assert_eq!(blocks[2], b"##".to_vec());
    assert_eq!(blocks[3], b"0200\r\nsecond<END".to_vec());
    assert_eq!(concat_events(&blocks), script);
}
