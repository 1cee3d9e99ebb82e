use archipelago_sync::effects::{classify_item, render_effect, ItemEffect, ItemEffectKind};
use archipelago_sync::ITEM_BASE;

#[test]
fn classification_follows_the_relative_id_ranges() {
    assert_eq!(classify_item(ITEM_BASE + 3), ItemEffectKind::Inventory { id: 3 });
    assert_eq!(classify_item(ITEM_BASE + 99), ItemEffectKind::Inventory { id: 99 });
    assert_eq!(classify_item(ITEM_BASE + 104), ItemEffectKind::Weapon { id: 4, ammo: 100 });
    assert_eq!(classify_item(ITEM_BASE + 107), ItemEffectKind::Weapon { id: 7, ammo: 100 });
    assert_eq!(classify_item(ITEM_BASE + 110), ItemEffectKind::Weapon { id: 10, ammo: 0 });
    assert_eq!(classify_item(ITEM_BASE + 105), ItemEffectKind::WeaponSpecial);
    assert_eq!(classify_item(ITEM_BASE + 200), ItemEffectKind::Health { amount: 0 });
    assert_eq!(classify_item(ITEM_BASE + 205), ItemEffectKind::Health { amount: 5 });
    assert_eq!(classify_item(ITEM_BASE + 299), ItemEffectKind::Health { amount: 99 });
    assert_eq!(classify_item(ITEM_BASE + 305), ItemEffectKind::KeyItem);
    assert_eq!(classify_item(ITEM_BASE + 420), ItemEffectKind::Pickup);
    assert_eq!(classify_item(ITEM_BASE + 500), ItemEffectKind::OutOfRange);
    assert_eq!(classify_item(ITEM_BASE - 1), ItemEffectKind::OutOfRange);
    assert_eq!(classify_item(5), ItemEffectKind::OutOfRange);
}

fn effect(kind: ItemEffectKind) -> ItemEffect {
    ItemEffect { kind, item_name: "Missiles".to_owned(), player_name: "Bob".to_owned() }
}

#[test]
fn inventory_effect_renders_the_item_grant() {
    let v = render_effect(&effect(ItemEffectKind::Inventory { id: 5 }));
    assert_eq!(v, b"#9990\n<MSG<GIT1005<IT+0005Received Missiles from Bob<WAI0160".to_vec());
}

#[test]
fn weapon_effect_renders_the_arms_grant_with_ammo() {
    let v = render_effect(&effect(ItemEffectKind::Weapon { id: 4, ammo: 100 }));
    assert_eq!(
        v,
        b"#9990\n<MSG<GIT0004<AM+0004:0100Received Missiles from Bob<WAI0160".to_vec()
    );
}

#[test]
fn special_weapon_effect_defers_to_its_event() {
    let v = render_effect(&effect(ItemEffectKind::WeaponSpecial));
    assert_eq!(v, b"#9990\n<MSGReceived Missiles from Bob<WAI0080<EVE0030".to_vec());
}

#[test]
fn health_effect_renders_the_capacity_increase() {
    let v = render_effect(&effect(ItemEffectKind::Health { amount: 5 }));
    assert_eq!(
        v,
        b"#9990\n<SOU0022<MSG<GIT1006<ML+0005Received Missiles from Bob<WAI0160".to_vec()
    );
}

#[test]
fn key_item_effect_defers_to_its_event() {
    let v = render_effect(&effect(ItemEffectKind::KeyItem));
    assert_eq!(v, b"#9990\n<MSGReceived Missiles from Bob<WAI0080<EVE0030".to_vec());
}

#[test]
fn pickup_effect_runs_nothing() {
    let v = render_effect(&effect(ItemEffectKind::Pickup));
    assert!(v.is_empty());
}

#[test]
fn out_of_range_effect_runs_nothing() {
    // A resolvable id outside every classification range produces no local
    // effect; only an unresolvable one shows the generic message.
    let v = render_effect(&effect(ItemEffectKind::OutOfRange));
    assert!(v.is_empty());
}

#[test]
fn unknown_effect_renders_the_generic_message() {
    let v = render_effect(&effect(ItemEffectKind::Unknown));
    assert_eq!(v, b"#9990\n<MSGReceived unknown item<WAI0160".to_vec());
}
