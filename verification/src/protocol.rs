//! The library's view of the wire protocol: plain-value mirrors of the
//! messages and session data the server provides, and the lookups the rest of
//! the crate performs on them.
//!
//! The transport library marshals its own message structs; the unverified rim
//! of the process converts those into these types before they reach the game
//! loop. All name/id tables are kept as vectors of pairs, looked up by first
//! match in table order, so every lookup is deterministic.

use vstd::prelude::*;

verus! {

/// One item placed at (or received from) a location, as the server reports it.
#[derive(Clone, Copy, Debug, PartialEq, Eq, Structural)]
pub struct NetworkItem {
    /// Network id of the item itself.
    pub item: i32,
    /// Network id of the location it sits at.
    pub location: i32,
    /// Slot number of the player who will find or did find it.
    pub player: i32,
    /// Server-side classification flags; carried through, never interpreted.
    pub flags: i32,
}

/// The name/id tables of one game title in the data package.
pub struct GameData {
    /// Item display name to network item id.
    pub item_name_to_id: Vec<(String, i32)>,
    /// Location display name to network location id.
    pub location_name_to_id: Vec<(String, i32)>,
}

/// The server-provided mapping from game title to that game's name/id tables.
/// Immutable once received; replaced wholesale on reconnect.
pub struct DataPackage {
    pub games: Vec<(String, GameData)>,
}

/// One player in the connected room's roster.
pub struct PlayerData {
    pub team: i32,
    pub slot: i32,
    pub name: String,
}

/// The handshake result: the local slot, the roster, and each slot's game.
pub struct ConnectionInfo {
    /// The local player's team.
    pub team: i32,
    /// The local player's slot number.
    pub slot: i32,
    /// All players in the room.
    pub players: Vec<PlayerData>,
    /// For each slot number, the game title that slot plays.
    pub slot_games: Vec<(i32, String)>,
}

/// An inbound server message, reduced to the fields this client reads. The
/// unverified rim converts the transport library's message structs into this
/// before they cross into the game loop.
pub enum ServerMessage {
    /// The full name/id mapping for every game in the room.
    DataPackage(DataPackage),
    /// The scouted-location list: for each known location, the item there.
    LocationInfo(Vec<NetworkItem>),
    /// Items awarded to the local slot. `index` is the position of the first
    /// entry in the cumulative list of everything this slot ever received.
    ReceivedItems { index: i32, items: Vec<NetworkItem> },
    /// A cross-client signal; deliberately a no-op until given a contract.
    Bounced,
    /// Any message this client does not interpret; ignored.
    Other,
}

/// An outbound client message.
pub enum ClientMessage {
    /// Ask for the name/id tables of the named games, or of all of them.
    GetDataPackage { games: Option<Vec<String>> },
    /// Ask which item sits at each of these locations.
    LocationScouts { locations: Vec<i32>, create_as_hint: i32 },
    /// Report these locations as checked.
    LocationChecks { locations: Vec<i32> },
    /// Toggle which remote item notifications the server should send.
    ConnectUpdate { items_handling: i32, tags: Vec<String> },
}

/// An error surfaced to the caller when a connection attempt fails.
pub enum ConnectError {
    /// The server could not be reached.
    Transport(String),
    /// The server refused the slot, password, or game.
    Refused(String),
}

impl ConnectError {
    /// A short description of the failure.
    pub fn message(&self) -> (r: &String)
        ensures
            r@ == match self {
                ConnectError::Transport(m) => m@,
                ConnectError::Refused(m) => m@,
            },
    {
        match self {
            ConnectError::Transport(m) => m,
            ConnectError::Refused(m) => m,
        }
    }
}

/// First name paired with `id` in a name/id table, in table order.
pub open spec fn spec_name_of_id(pairs: Seq<(String, i32)>, id: i32) -> Option<Seq<char>>
    decreases pairs.len(),
{
    if pairs.len() == 0 {
        None
    } else if pairs[0].1 == id {
        Some(pairs[0].0@)
    } else {
        spec_name_of_id(pairs.drop_first(), id)
    }
}

/// Whether some name is paired with `id` in a name/id table.
pub open spec fn spec_has_id(pairs: Seq<(String, i32)>, id: i32) -> bool {
    exists|i: int| 0 <= i < pairs.len() && pairs[i].1 == id
}

/// The view of an optional owned string.
pub open spec fn opt_string_view(o: Option<String>) -> Option<Seq<char>> {
    match o {
        Some(s) => Some(s@),
        None => None,
    }
}

proof fn lemma_name_of_id_hit(pairs: Seq<(String, i32)>, id: i32, i: int)
    requires
        0 <= i < pairs.len(),
        pairs[i].1 == id,
        forall|j: int| 0 <= j < i ==> pairs[j].1 != id,
    ensures
        spec_name_of_id(pairs, id) == Some(pairs[i].0@),
    decreases i,
{
    if i > 0 {
        lemma_name_of_id_hit(pairs.drop_first(), id, i - 1);
    }
}

proof fn lemma_name_of_id_miss(pairs: Seq<(String, i32)>, id: i32)
    requires
        forall|j: int| 0 <= j < pairs.len() ==> pairs[j].1 != id,
    ensures
        spec_name_of_id(pairs, id) is None,
    decreases pairs.len(),
{
    if pairs.len() > 0 {
        lemma_name_of_id_miss(pairs.drop_first(), id);
    }
}

/// Look `id` up in a name/id table; first match in table order wins.
fn name_of_id(pairs: &Vec<(String, i32)>, id: i32) -> (r: Option<String>)
    ensures
        opt_string_view(r) == spec_name_of_id(pairs@, id),
        r is Some <==> spec_has_id(pairs@, id),
{
    let n = pairs.len();
    let mut i: usize = 0;
    while i < n
        invariant
            i <= n,
            n == pairs@.len(),
            forall|j: int| 0 <= j < i ==> pairs@[j].1 != id,
        decreases n - i,
    {
        if pairs[i].1 == id {
            proof {
                lemma_name_of_id_hit(pairs@, id, i as int);
            }
            return Some(pairs[i].0.clone());
        }
        i += 1;
    }
    proof {
        lemma_name_of_id_miss(pairs@, id);
    }
    None
}

/// Whether `id` appears in a name/id table.
fn has_id(pairs: &Vec<(String, i32)>, id: i32) -> (r: bool)
    ensures
        r == spec_has_id(pairs@, id),
{
    let n = pairs.len();
    let mut i: usize = 0;
    while i < n
        invariant
            i <= n,
            n == pairs@.len(),
            forall|j: int| 0 <= j < i ==> pairs@[j].1 != id,
        decreases n - i,
    {
        if pairs[i].1 == id {
            return true;
        }
        i += 1;
    }
    false
}

impl GameData {
    /// The display name of the item with network id `id`, if the table has it.
    pub fn item_name_of_id(&self, id: i32) -> (r: Option<String>)
        ensures
            opt_string_view(r) == spec_name_of_id(self.item_name_to_id@, id),
            r is Some <==> spec_has_id(self.item_name_to_id@, id),
    {
        name_of_id(&self.item_name_to_id, id)
    }

    /// Whether `id` is one of this game's known location ids.
    pub fn knows_location_id(&self, id: i32) -> (r: bool)
        ensures
            r == spec_has_id(self.location_name_to_id@, id),
    {
        has_id(&self.location_name_to_id, id)
    }
}

/// First game data paired with `title`, in package order.
pub open spec fn spec_game_of_title(games: Seq<(String, GameData)>, title: Seq<char>) -> Option<
    int,
>
    decreases games.len(),
{
    if games.len() == 0 {
        None
    } else if games[0].0@ == title {
        Some(0)
    } else {
        match spec_game_of_title(games.drop_first(), title) {
            Some(i) => Some(i + 1),
            None => None,
        }
    }
}

proof fn lemma_game_of_title_hit(games: Seq<(String, GameData)>, title: Seq<char>, i: int)
    requires
        0 <= i < games.len(),
        games[i].0@ == title,
        forall|j: int| 0 <= j < i ==> games[j].0@ != title,
    ensures
        spec_game_of_title(games, title) == Some(i),
    decreases i,
{
    if i > 0 {
        lemma_game_of_title_hit(games.drop_first(), title, i - 1);
    }
}

proof fn lemma_game_of_title_miss(games: Seq<(String, GameData)>, title: Seq<char>)
    requires
        forall|j: int| 0 <= j < games.len() ==> games[j].0@ != title,
    ensures
        spec_game_of_title(games, title) is None,
    decreases games.len(),
{
    if games.len() > 0 {
        lemma_game_of_title_miss(games.drop_first(), title);
    }
}

impl DataPackage {
    /// The tables of the game called `title`, if the package has them.
    pub fn game(&self, title: &String) -> (r: Option<&GameData>)
        ensures
            match spec_game_of_title(self.games@, title@) {
                Some(i) => r is Some && *r->Some_0 == self.games@[i].1,
                None => r is None,
            },
    {
        let n = self.games.len();
        let mut i: usize = 0;
        while i < n
            invariant
                i <= n,
                n == self.games@.len(),
                forall|j: int| 0 <= j < i ==> self.games@[j].0@ != title@,
            decreases n - i,
        {
            if self.games[i].0.eq(title) {
                proof {
                    lemma_game_of_title_hit(self.games@, title@, i as int);
                }
                return Some(&self.games[i].1);
            }
            i += 1;
        }
        proof {
            lemma_game_of_title_miss(self.games@, title@);
        }
        None
    }
}

/// First roster entry for (`team`, `slot`), in roster order.
pub open spec fn spec_player_name(players: Seq<PlayerData>, team: i32, slot: i32) -> Option<
    Seq<char>,
>
    decreases players.len(),
{
    if players.len() == 0 {
        None
    } else if players[0].team == team && players[0].slot == slot {
        Some(players[0].name@)
    } else {
        spec_player_name(players.drop_first(), team, slot)
    }
}

proof fn lemma_player_name_hit(players: Seq<PlayerData>, team: i32, slot: i32, i: int)
    requires
        0 <= i < players.len(),
        players[i].team == team && players[i].slot == slot,
        forall|j: int| 0 <= j < i ==> !(players[j].team == team && players[j].slot == slot),
    ensures
        spec_player_name(players, team, slot) == Some(players[i].name@),
    decreases i,
{
    if i > 0 {
        lemma_player_name_hit(players.drop_first(), team, slot, i - 1);
    }
}

proof fn lemma_player_name_miss(players: Seq<PlayerData>, team: i32, slot: i32)
    requires
        forall|j: int|
            0 <= j < players.len() ==> !(players[j].team == team && players[j].slot == slot),
    ensures
        spec_player_name(players, team, slot) is None,
    decreases players.len(),
{
    if players.len() > 0 {
        lemma_player_name_miss(players.drop_first(), team, slot);
    }
}

/// First game title declared for `slot`, in table order.
pub open spec fn spec_game_of_slot(slot_games: Seq<(i32, String)>, slot: i32) -> Option<Seq<char>>
    decreases slot_games.len(),
{
    if slot_games.len() == 0 {
        None
    } else if slot_games[0].0 == slot {
        Some(slot_games[0].1@)
    } else {
        spec_game_of_slot(slot_games.drop_first(), slot)
    }
}

proof fn lemma_game_of_slot_hit(slot_games: Seq<(i32, String)>, slot: i32, i: int)
    requires
        0 <= i < slot_games.len(),
        slot_games[i].0 == slot,
        forall|j: int| 0 <= j < i ==> slot_games[j].0 != slot,
    ensures
        spec_game_of_slot(slot_games, slot) == Some(slot_games[i].1@),
    decreases i,
{
    if i > 0 {
        lemma_game_of_slot_hit(slot_games.drop_first(), slot, i - 1);
    }
}

proof fn lemma_game_of_slot_miss(slot_games: Seq<(i32, String)>, slot: i32)
    requires
        forall|j: int| 0 <= j < slot_games.len() ==> slot_games[j].0 != slot,
    ensures
        spec_game_of_slot(slot_games, slot) is None,
    decreases slot_games.len(),
{
    if slot_games.len() > 0 {
        lemma_game_of_slot_miss(slot_games.drop_first(), slot);
    }
}

impl ConnectionInfo {
    /// The display name of the player in `slot` on the local team.
    pub fn player_name(&self, slot: i32) -> (r: Option<String>)
        ensures
            opt_string_view(r) == spec_player_name(self.players@, self.team, slot),
    {
        let n = self.players.len();
        let mut i: usize = 0;
        while i < n
            invariant
                i <= n,
                n == self.players@.len(),
                forall|j: int|
                    0 <= j < i ==> !(self.players@[j].team == self.team && self.players@[j].slot
                        == slot),
            decreases n - i,
        {
            if self.players[i].team == self.team && self.players[i].slot == slot {
                proof {
                    lemma_player_name_hit(self.players@, self.team, slot, i as int);
                }
                return Some(self.players[i].name.clone());
            }
            i += 1;
        }
        proof {
            lemma_player_name_miss(self.players@, self.team, slot);
        }
        None
    }

    /// The game title declared for `slot`.
    pub fn game_of_slot(&self, slot: i32) -> (r: Option<String>)
        ensures
            opt_string_view(r) == spec_game_of_slot(self.slot_games@, slot),
    {
        let n = self.slot_games.len();
        let mut i: usize = 0;
        while i < n
            invariant
                i <= n,
                n == self.slot_games@.len(),
                forall|j: int| 0 <= j < i ==> self.slot_games@[j].0 != slot,
            decreases n - i,
        {
            if self.slot_games[i].0 == slot {
                proof {
                    lemma_game_of_slot_hit(self.slot_games@, slot, i as int);
                }
                return Some(self.slot_games[i].1.clone());
            }
            i += 1;
        }
        proof {
            lemma_game_of_slot_miss(self.slot_games@, slot);
        }
        None
    }
}

} // verus!
