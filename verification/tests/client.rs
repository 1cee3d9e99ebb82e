use archipelago_sync::client::{handle_flag, Archipelago, ArchipelagoState};
use archipelago_sync::effects::ItemEffectKind;
use archipelago_sync::protocol::{
    ClientMessage, ConnectError, ConnectionInfo, DataPackage, GameData, NetworkItem, PlayerData,
    ServerMessage,
};
use archipelago_sync::ITEM_BASE;

fn sample_data_package() -> DataPackage {
    DataPackage {
        games: vec![(
            "Cave Story".to_owned(),
            GameData {
                item_name_to_id: vec![
                    ("Life Capsule".to_owned(), ITEM_BASE + 205),
                    ("Polar Star".to_owned(), ITEM_BASE + 105),
                    ("Missile Launcher".to_owned(), ITEM_BASE + 104),
                ],
                location_name_to_id: vec![
                    ("First Cave - Chest".to_owned(), ITEM_BASE + 101),
                    ("Sand Zone - Small Room".to_owned(), ITEM_BASE + 581),
                ],
            },
        )],
    }
}

fn sample_connection() -> ConnectionInfo {
    ConnectionInfo {
        team: 0,
        slot: 1,
        players: vec![
            PlayerData { team: 0, slot: 1, name: "Quote".to_owned() },
            PlayerData { team: 0, slot: 2, name: "Bob".to_owned() },
        ],
        slot_games: vec![(1, "Cave Story".to_owned()), (2, "Cave Story".to_owned())],
    }
}

fn connected_session() -> Archipelago {
    let mut ap = Archipelago::new();
    ap.data_package = Some(sample_data_package());
    ap.connection_info = Some(sample_connection());
    ap
}

fn received(index: i32, ids: &[i32], player: i32) -> ServerMessage {
    ServerMessage::ReceivedItems {
        index,
        items: ids
            .iter()
            .map(|id| NetworkItem { item: *id, location: 0, player, flags: 0 })
            .collect(),
    }
}

#[test]
fn new_session_is_inactive_and_not_ready() {
    let ap = Archipelago::new();
    assert!(matches!(ap.state, ArchipelagoState::Inactive));
    assert!(!ap.is_ready());
    assert!(ap.server.is_empty() && ap.slot_name.is_empty() && ap.password.is_empty());
}

#[test]
fn is_ready_needs_both_caches() {
    let mut ap = Archipelago::new();
    ap.data_package = Some(sample_data_package());
    assert!(!ap.is_ready());
    ap.loc_info = Some(Vec::new());
    assert!(ap.is_ready());
}

#[test]
fn health_capsule_effect_is_classified_with_magnitude() {
    // An item five steps into the health-capacity range gives magnitude
    // (id - ITEM_BASE) % 200 == 5.
    let mut ap = connected_session();
    let effects = ap.handle_packet(received(0, &[ITEM_BASE + 205], 1));
    assert_eq!(effects.len(), 1);
    assert_eq!(effects[0].kind, ItemEffectKind::Health { amount: 5 });
    assert_eq!(effects[0].item_name, "Life Capsule");
    assert_eq!(effects[0].player_name, "Quote");
}

#[test]
fn duplicate_notification_applies_effects_once() {
    let mut ap = connected_session();
    let first = ap.handle_packet(received(0, &[ITEM_BASE + 205, ITEM_BASE + 104], 2));
    assert_eq!(first.len(), 2);
    let second = ap.handle_packet(received(0, &[ITEM_BASE + 205, ITEM_BASE + 104], 2));
    assert_eq!(second.len(), 0);
}

#[test]
fn overlapping_replay_applies_only_fresh_instances() {
    let mut ap = connected_session();
    let first = ap.handle_packet(received(0, &[ITEM_BASE + 205, ITEM_BASE + 104], 2));
    assert_eq!(first.len(), 2);
    // The second notification re-sends the item at index 1 and adds one more.
    let second = ap.handle_packet(received(1, &[ITEM_BASE + 104, ITEM_BASE + 105], 2));
    assert_eq!(second.len(), 1);
    assert_eq!(second[0].item_name, "Polar Star");
}

#[test]
fn same_item_id_at_new_index_is_a_new_instance() {
    let mut ap = connected_session();
    let first = ap.handle_packet(received(0, &[ITEM_BASE + 205], 1));
    assert_eq!(first.len(), 1);
    let second = ap.handle_packet(received(1, &[ITEM_BASE + 205], 1));
    assert_eq!(second.len(), 1);
}

#[test]
fn unresolvable_item_degrades_to_unknown_effect() {
    let mut ap = connected_session();
    let effects = ap.handle_packet(received(0, &[ITEM_BASE + 9999], 1));
    assert_eq!(effects.len(), 1);
    assert_eq!(effects[0].kind, ItemEffectKind::Unknown);
    assert_eq!(effects[0].item_name, "");
}

#[test]
fn data_package_message_fills_the_cache() {
    let mut ap = Archipelago::new();
    let effects = ap.handle_packet(ServerMessage::DataPackage(sample_data_package()));
    assert!(effects.is_empty());
    assert!(ap.data_package.is_some());
    let effects = ap.handle_packet(ServerMessage::LocationInfo(Vec::new()));
    assert!(effects.is_empty());
    assert!(ap.is_ready());
}

#[test]
fn bounced_and_unknown_messages_are_no_ops() {
    let mut ap = connected_session();
    assert!(ap.handle_packet(ServerMessage::Bounced).is_empty());
    assert!(ap.handle_packet(ServerMessage::Other).is_empty());
    assert!(matches!(ap.state, ArchipelagoState::Inactive));
}

#[test]
fn poll_on_closed_channel_disconnects_exactly_once() {
    let mut ap = connected_session();
    let (in_send, _out_recv) = ap.open_channels();
    ap.startup();
    assert!(matches!(ap.state, ArchipelagoState::Active));
    drop(in_send);
    assert!(ap.poll().is_none());
    assert!(matches!(ap.state, ArchipelagoState::Disconnected));
    // The session caches are torn down, never silently reused.
    assert!(ap.data_package.is_none());
    assert!(ap.connection_info.is_none());
    // Every further poll returns nothing and changes nothing.
    assert!(ap.poll().is_none());
    assert!(ap.poll().is_none());
    assert!(matches!(ap.state, ArchipelagoState::Disconnected));
}

#[test]
fn poll_returns_messages_in_arrival_order() {
    let mut ap = connected_session();
    let (in_send, _out_recv) = ap.open_channels();
    in_send.try_send(ServerMessage::Bounced).unwrap();
    in_send.try_send(ServerMessage::Other).unwrap();
    assert!(matches!(ap.poll(), Some(ServerMessage::Bounced)));
    assert!(matches!(ap.poll(), Some(ServerMessage::Other)));
    assert!(ap.poll().is_none());
    assert!(!matches!(ap.state, ArchipelagoState::Disconnected));
}

#[test]
fn tick_handles_one_message_per_call() {
    let mut ap = connected_session();
    let (in_send, _out_recv) = ap.open_channels();
    in_send.try_send(received(0, &[ITEM_BASE + 205], 1)).unwrap();
    let effects = ap.tick();
    assert_eq!(effects.len(), 1);
    assert_eq!(effects[0].kind, ItemEffectKind::Health { amount: 5 });
    assert!(ap.tick().is_empty());
}

#[test]
fn poll_without_channels_is_a_no_op() {
    let mut ap = Archipelago::new();
    assert!(ap.poll().is_none());
    assert!(matches!(ap.state, ArchipelagoState::Inactive));
}

fn drain_checks(out_recv: &mut tokio::sync::mpsc::Receiver<ClientMessage>) -> Vec<Vec<i32>> {
    let mut checks = Vec::new();
    while let Ok(msg) = out_recv.try_recv() {
        if let ClientMessage::LocationChecks { locations } = msg {
            checks.push(locations);
        }
    }
    checks
}

#[test]
fn known_flag_is_reported_exactly_once() {
    let mut ap = connected_session();
    let (_in_send, mut out_recv) = ap.open_channels();
    ap.startup();
    assert_eq!(ap.report_flag_changed(581, true), Some(ITEM_BASE + 581));
    assert_eq!(ap.report_flag_changed(581, true), None);
    assert_eq!(ap.report_flag_changed(581, true), None);
    let checks = drain_checks(&mut out_recv);
    assert_eq!(checks, vec![vec![ITEM_BASE + 581]]);
}

#[test]
fn unknown_flag_is_never_reported() {
    let mut ap = connected_session();
    let (_in_send, mut out_recv) = ap.open_channels();
    ap.startup();
    assert_eq!(ap.report_flag_changed(999, true), None);
    assert!(drain_checks(&mut out_recv).is_empty());
}

#[test]
fn false_flag_is_never_reported() {
    let mut ap = connected_session();
    let (_in_send, mut out_recv) = ap.open_channels();
    ap.startup();
    assert_eq!(ap.report_flag_changed(581, false), None);
    assert!(drain_checks(&mut out_recv).is_empty());
}

#[test]
fn inactive_session_reports_nothing() {
    let mut ap = connected_session();
    let (_in_send, mut out_recv) = ap.open_channels();
    // Connected but not Active: gameplay-affecting sends are deferred.
    ap.complete_connect(sample_connection(), None);
    assert_eq!(ap.report_flag_changed(581, true), None);
    assert!(drain_checks(&mut out_recv).is_empty());
}

#[test]
fn handle_flag_reports_through_the_session() {
    let mut ap = connected_session();
    let (_in_send, mut out_recv) = ap.open_channels();
    ap.startup();
    handle_flag(&mut ap, 101, true);
    handle_flag(&mut ap, 101, true);
    let checks = drain_checks(&mut out_recv);
    assert_eq!(checks, vec![vec![ITEM_BASE + 101]]);
}

#[test]
fn startup_and_shutdown_toggle_item_handling() {
    let mut ap = connected_session();
    let (_in_send, mut out_recv) = ap.open_channels();
    ap.startup();
    assert!(matches!(ap.state, ArchipelagoState::Active));
    ap.shutdown();
    // An explicitly ended session is Disconnected; Inactive means none was
    // ever attempted.
    assert!(matches!(ap.state, ArchipelagoState::Disconnected));
    assert!(ap.data_package.is_none());
    assert!(ap.connection_info.is_none());
    let mut handlings = Vec::new();
    while let Ok(msg) = out_recv.try_recv() {
        if let ClientMessage::ConnectUpdate { items_handling, .. } = msg {
            handlings.push(items_handling);
        }
    }
    assert_eq!(handlings, vec![0x101, 0x000]);
    // The channel ends are gone; further sends and polls are no-ops.
    assert!(ap.poll().is_none());
}

#[test]
fn complete_connect_enters_connected_and_asks_for_data() {
    let mut ap = Archipelago::new();
    let (_in_send, mut out_recv) = ap.open_channels();
    ap.complete_connect(sample_connection(), Some(vec!["Cave Story".to_owned()]));
    assert!(matches!(ap.state, ArchipelagoState::Connected));
    assert!(ap.connection_info.is_some());
    let mut saw_get_data_package = false;
    let mut saw_scouts = false;
    while let Ok(msg) = out_recv.try_recv() {
        match msg {
            ClientMessage::GetDataPackage { games } => {
                saw_get_data_package = true;
                assert_eq!(games, Some(vec!["Cave Story".to_owned()]));
            }
            ClientMessage::LocationScouts { locations, create_as_hint } => {
                saw_scouts = true;
                assert_eq!(create_as_hint, 0);
                assert_eq!(locations.len(), 27);
            }
            _ => {}
        }
    }
    assert!(saw_get_data_package && saw_scouts);
}

#[test]
fn stub_requests_succeed_without_sending() {
    let mut ap = Archipelago::new();
    assert!(ap.status_update().is_ok());
    assert!(ap.bounce().is_ok());
    assert!(ap.get_data_package(None).is_ok());
    assert!(ap.location_scouts().is_ok());
    assert!(ap.location_checks(vec![1]).is_ok());
}

#[test]
fn connect_error_carries_its_message() {
    let e = ConnectError::Transport("no route".to_owned());
    assert_eq!(e.message(), "no route");
    let e = ConnectError::Refused("bad slot".to_owned());
    assert_eq!(e.message(), "bad slot");
}

#[test]
fn process_flag_reports_through_the_session() {
    let mut ap = connected_session();
    let (_in_send, mut out_recv) = ap.open_channels();
    ap.startup();
    ap.process_flag(581, true);
    ap.process_flag(581, true);
    let checks = drain_checks(&mut out_recv);
    assert_eq!(checks, vec![vec![ITEM_BASE + 581]]);
}

#[test]
fn refused_check_joins_the_backlog_and_is_rehanded() {
    let mut ap = connected_session();
    let (_in_send, mut out_recv) = ap.open_channels();
    ap.startup();
    // `startup` already used one slot; fill the rest of the 16-slot queue.
    for _ in 0..15 {
        let _ = ap.location_checks(vec![0]);
    }
    // The queue is full: the check is decided and recorded, and the message
    // waits in the backlog rather than being lost.
    assert_eq!(ap.report_flag_changed(581, true), Some(ITEM_BASE + 581));
    assert_eq!(ap.report_flag_changed(581, true), None);
    // Nothing with the real id has reached the channel yet.
    let checks = drain_checks(&mut out_recv);
    assert!(!checks.contains(&vec![ITEM_BASE + 581]));
    // The next tick re-hands the backlog; the check arrives exactly once.
    let _ = ap.tick();
    let checks = drain_checks(&mut out_recv);
    assert_eq!(checks, vec![vec![ITEM_BASE + 581]]);
    let _ = ap.tick();
    assert!(drain_checks(&mut out_recv).is_empty());
}
