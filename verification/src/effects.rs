//! Classification of received items and rendering of their in-game effects.
//!
//! Every item the server awards is classified by where its network id falls
//! relative to `ITEM_BASE`, giving a tagged effect descriptor: kind plus the
//! display names involved. A single renderer turns a descriptor into the
//! script command the game runs, so the mapping from classification to effect
//! is data, not string concatenation scattered through the handler.

use vstd::prelude::*;
use vstd::utf8::encode_utf8;

use crate::ITEM_BASE;
use crate::protocol::{ConnectionInfo, DataPackage, NetworkItem};
use crate::protocol::{spec_game_of_title, spec_name_of_id, spec_player_name};
use crate::stage_data::{
    push_bytes, push_dec, push_dec_pad, push_text, spec_dec, spec_dec_pad, text_bytes,
};

verus! {

/// What a received item does in the local game, keyed by its id range
/// relative to `ITEM_BASE`.
#[derive(Clone, Copy, Debug, PartialEq, Eq, Structural)]
pub enum ItemEffectKind {
    /// Relative ids 0 through 99: an inventory item with that id.
    Inventory { id: u16 },
    /// Relative ids 100 through 199 except 105: the weapon `id` (the relative
    /// id modulo 100), granted with `ammo` rounds.
    Weapon { id: u16, ammo: u16 },
    /// Relative id 105: a weapon the game awards through its own event.
    WeaponSpecial,
    /// Relative ids 200 through 299: a health-capacity increase by `amount`
    /// (the relative id modulo 200).
    Health { amount: u16 },
    /// Relative ids 300 through 399: a key item awarded through an event.
    KeyItem,
    /// Relative ids 400 through 499: a pickup with no in-game effect.
    Pickup,
    /// A resolvable id outside every range: no in-game effect.
    OutOfRange,
    /// An item whose name or sender could not be resolved.
    Unknown,
}

/// The classification of relative id `cs`.
pub open spec fn spec_classify(cs: int) -> ItemEffectKind {
    if 0 <= cs <= 99 {
        ItemEffectKind::Inventory { id: cs as u16 }
    } else if cs == 105 {
        ItemEffectKind::WeaponSpecial
    } else if 100 <= cs <= 199 {
        ItemEffectKind::Weapon {
            id: (cs % 100) as u16,
            ammo: if cs == 104 || cs == 107 {
                100
            } else {
                0
            },
        }
    } else if 200 <= cs <= 299 {
        ItemEffectKind::Health { amount: (cs % 200) as u16 }
    } else if 300 <= cs <= 399 {
        ItemEffectKind::KeyItem
    } else if 400 <= cs <= 499 {
        ItemEffectKind::Pickup
    } else {
        ItemEffectKind::OutOfRange
    }
}

/// Classify the item with network id `item_id` by its id range relative to
/// `ITEM_BASE`.
pub fn classify_item(item_id: i32) -> (k: ItemEffectKind)
    ensures
        k == spec_classify(item_id - ITEM_BASE),
{
    let cs: i64 = item_id as i64 - ITEM_BASE as i64;
    if 0 <= cs && cs <= 99 {
        ItemEffectKind::Inventory { id: cs as u16 }
    } else if cs == 105 {
        ItemEffectKind::WeaponSpecial
    } else if 100 <= cs && cs <= 199 {
        let ammo: u16 = if cs == 104 || cs == 107 {
            100
        } else {
            0
        };
        ItemEffectKind::Weapon { id: (cs % 100) as u16, ammo }
    } else if 200 <= cs && cs <= 299 {
        ItemEffectKind::Health { amount: (cs % 200) as u16 }
    } else if 300 <= cs && cs <= 399 {
        ItemEffectKind::KeyItem
    } else if 400 <= cs && cs <= 499 {
        ItemEffectKind::Pickup
    } else {
        ItemEffectKind::OutOfRange
    }
}

/// One local effect to apply for one received item instance: the kind and the
/// display names the renderer interpolates.
pub struct ItemEffect {
    pub kind: ItemEffectKind,
    /// Display name of the item; empty when it could not be resolved.
    pub item_name: String,
    /// Display name of the sending player; empty when it could not be resolved.
    pub player_name: String,
}

/// The display name of `item` in the local game's table, if the data package
/// is present and has it.
pub open spec fn spec_resolved_item_name(dp: Option<DataPackage>, item: NetworkItem) -> Option<
    Seq<char>,
> {
    match dp {
        Some(d) => match spec_game_of_title(d.games@, "Cave Story"@) {
            Some(i) => spec_name_of_id(d.games@[i].1.item_name_to_id@, item.item),
            None => None,
        },
        None => None,
    }
}

/// The display name of the player who sent `item`, if the roster is present
/// and has them.
pub open spec fn spec_resolved_player_name(ci: Option<ConnectionInfo>, item: NetworkItem) -> Option<
    Seq<char>,
> {
    match ci {
        Some(c) => spec_player_name(c.players@, c.team, item.player),
        None => None,
    }
}

/// Whether both lookups for `item` succeed.
pub open spec fn spec_item_resolved(
    dp: Option<DataPackage>,
    ci: Option<ConnectionInfo>,
    item: NetworkItem,
) -> bool {
    spec_resolved_item_name(dp, item) is Some && spec_resolved_player_name(ci, item) is Some
}

/// The effect kind for `item`: its classification when both lookups succeed,
/// and the generic unknown-item effect otherwise.
pub open spec fn spec_item_kind(
    dp: Option<DataPackage>,
    ci: Option<ConnectionInfo>,
    item: NetworkItem,
) -> ItemEffectKind {
    if spec_item_resolved(dp, ci, item) {
        spec_classify(item.item - ITEM_BASE)
    } else {
        ItemEffectKind::Unknown
    }
}

/// The item display name carried by the effect for `item`.
pub open spec fn spec_item_name_view(
    dp: Option<DataPackage>,
    ci: Option<ConnectionInfo>,
    item: NetworkItem,
) -> Seq<char> {
    if spec_item_resolved(dp, ci, item) {
        spec_resolved_item_name(dp, item)->Some_0
    } else {
        Seq::empty()
    }
}

/// The player display name carried by the effect for `item`.
pub open spec fn spec_player_name_view(
    dp: Option<DataPackage>,
    ci: Option<ConnectionInfo>,
    item: NetworkItem,
) -> Seq<char> {
    if spec_item_resolved(dp, ci, item) {
        spec_resolved_player_name(ci, item)->Some_0
    } else {
        Seq::empty()
    }
}

/// Whether an effect descriptor is the one prescribed for `item` under the
/// given data package and roster.
pub open spec fn spec_effect_matches(
    dp: Option<DataPackage>,
    ci: Option<ConnectionInfo>,
    item: NetworkItem,
    e: ItemEffect,
) -> bool {
    &&& e.kind == spec_item_kind(dp, ci, item)
    &&& e.item_name@ == spec_item_name_view(dp, ci, item)
    &&& e.player_name@ == spec_player_name_view(dp, ci, item)
}

/// Build the effect descriptor for one received item: resolve the item's
/// display name in the local game's table and the sender's name in the
/// roster; when either lookup fails, fall back to the generic unknown-item
/// effect rather than failing.
pub fn item_effect(dp: &Option<DataPackage>, ci: &Option<ConnectionInfo>, item: &NetworkItem) -> (e:
    ItemEffect)
    ensures
        spec_effect_matches(*dp, *ci, *item, e),
{
    let title: String = "Cave Story".to_owned();
    let resolved: Option<(String, String)> = match dp {
        Some(d) => match d.game(&title) {
            Some(g) => match g.item_name_of_id(item.item) {
                Some(iname) => match ci {
                    Some(c) => match c.player_name(item.player) {
                        Some(pname) => Some((iname, pname)),
                        None => None,
                    },
                    None => None,
                },
                None => None,
            },
            None => None,
        },
        None => None,
    };
    match resolved {
        Some((iname, pname)) => ItemEffect {
            kind: classify_item(item.item),
            item_name: iname,
            player_name: pname,
        },
        None => ItemEffect {
            kind: ItemEffectKind::Unknown,
            item_name: String::new(),
            player_name: String::new(),
        },
    }
}

/// The script command that applies an effect: `kind` interpolated with the
/// UTF-8 bytes of the two display names. `Pickup` runs nothing.
pub open spec fn spec_render_effect(
    kind: ItemEffectKind,
    item_name: Seq<u8>,
    player_name: Seq<u8>,
) -> Seq<u8> {
    match kind {
        ItemEffectKind::Inventory { id } => text_bytes("#9990\n<MSG<GIT10") + spec_dec_pad(
            id as nat,
            2,
        ) + text_bytes("<IT+00") + spec_dec_pad(id as nat, 2) + text_bytes("Received ") + item_name
            + text_bytes(" from ") + player_name + text_bytes("<WAI0160"),
        ItemEffectKind::Weapon { id, ammo } => text_bytes("#9990\n<MSG<GIT00") + spec_dec_pad(
            id as nat,
            2,
        ) + text_bytes("<AM+00") + spec_dec_pad(id as nat, 2) + text_bytes(":") + spec_dec_pad(
            ammo as nat,
            4,
        ) + text_bytes("Received ") + item_name + text_bytes(" from ") + player_name + text_bytes(
            "<WAI0160",
        ),
        ItemEffectKind::WeaponSpecial => text_bytes("#9990\n<MSGReceived ") + item_name
            + text_bytes(" from ") + player_name + text_bytes("<WAI0080<EVE0030"),
        ItemEffectKind::Health { amount } => text_bytes("#9990\n<SOU0022<MSG<GIT1006<ML+000")
            + spec_dec(amount as nat) + text_bytes("Received ") + item_name + text_bytes(" from ")
            + player_name + text_bytes("<WAI0160"),
        ItemEffectKind::KeyItem => text_bytes("#9990\n<MSGReceived ") + item_name + text_bytes(
            " from ",
        ) + player_name + text_bytes("<WAI0080<EVE0030"),
        ItemEffectKind::Pickup => Seq::empty(),
        ItemEffectKind::OutOfRange => Seq::empty(),
        ItemEffectKind::Unknown => text_bytes("#9990\n<MSGReceived unknown item<WAI0160"),
    }
}

/// Render an effect descriptor into the script command the game runs.
pub fn render_effect(e: &ItemEffect) -> (v: Vec<u8>)
    ensures
        v@ == spec_render_effect(e.kind, encode_utf8(e.item_name@), encode_utf8(e.player_name@)),
{
    let mut v: Vec<u8> = Vec::new();
    match e.kind {
        ItemEffectKind::Inventory { id } => {
            push_text(&mut v, "#9990\n<MSG<GIT10");
            push_dec_pad(&mut v, id as u32, 2);
            push_text(&mut v, "<IT+00");
            push_dec_pad(&mut v, id as u32, 2);
            push_text(&mut v, "Received ");
            push_bytes(&mut v, e.item_name.as_str().as_bytes());
            push_text(&mut v, " from ");
            push_bytes(&mut v, e.player_name.as_str().as_bytes());
            push_text(&mut v, "<WAI0160");
        },
        ItemEffectKind::Weapon { id, ammo } => {
            push_text(&mut v, "#9990\n<MSG<GIT00");
            push_dec_pad(&mut v, id as u32, 2);
            push_text(&mut v, "<AM+00");
            push_dec_pad(&mut v, id as u32, 2);
            push_text(&mut v, ":");
            push_dec_pad(&mut v, ammo as u32, 4);
            push_text(&mut v, "Received ");
            push_bytes(&mut v, e.item_name.as_str().as_bytes());
            push_text(&mut v, " from ");
            push_bytes(&mut v, e.player_name.as_str().as_bytes());
            push_text(&mut v, "<WAI0160");
        },
        ItemEffectKind::WeaponSpecial => {
            push_text(&mut v, "#9990\n<MSGReceived ");
            push_bytes(&mut v, e.item_name.as_str().as_bytes());
            push_text(&mut v, " from ");
            push_bytes(&mut v, e.player_name.as_str().as_bytes());
            push_text(&mut v, "<WAI0080<EVE0030");
        },
        ItemEffectKind::Health { amount } => {
            push_text(&mut v, "#9990\n<SOU0022<MSG<GIT1006<ML+000");
            push_dec(&mut v, amount as u32);
            push_text(&mut v, "Received ");
            push_bytes(&mut v, e.item_name.as_str().as_bytes());
            push_text(&mut v, " from ");
            push_bytes(&mut v, e.player_name.as_str().as_bytes());
            push_text(&mut v, "<WAI0160");
        },
        ItemEffectKind::KeyItem => {
            push_text(&mut v, "#9990\n<MSGReceived ");
            push_bytes(&mut v, e.item_name.as_str().as_bytes());
            push_text(&mut v, " from ");
            push_bytes(&mut v, e.player_name.as_str().as_bytes());
            push_text(&mut v, "<WAI0080<EVE0030");
        },
        ItemEffectKind::Pickup => {},
        ItemEffectKind::OutOfRange => {},
        ItemEffectKind::Unknown => {
            push_text(&mut v, "#9990\n<MSGReceived unknown item<WAI0160");
        },
    }
    assert(v@ =~= spec_render_effect(e.kind, encode_utf8(e.item_name@), encode_utf8(
        e.player_name@,
    )));
    v
}

} // verus!
