//! Static engine constants: the physics, sprite-sheet and text-box tables
//! the game engine is built from, and the patches applied for the enhanced
//! ports. The fractional font metrics of those ports belong to the rendering
//! layer, outside this crate.
//!
//! The texture-size table is a vector of name/size pairs looked up by first
//! match in table order, so its whole contents — and with them the value of
//! every table here — are pinned by the contracts: building the defaults or
//! applying a patch is deterministic.

use vstd::prelude::*;

verus! {

/// An axis-aligned rectangle in sprite-sheet or world coordinates.
#[derive(Debug, Copy, Clone, PartialEq, Eq, Structural)]
pub struct Rect<T> {
    pub left: T,
    pub top: T,
    pub right: T,
    pub bottom: T,
}

/// How the player character is steered.
#[derive(Debug, Copy, Clone, PartialEq, Eq, Structural)]
pub enum ControlMode {
    Normal,
    IronHead,
}

/// The byte encoding of a stage's event script.
#[derive(Debug, Copy, Clone, PartialEq, Eq, Structural)]
pub enum TextScriptEncoding {
    UTF8,
    ShiftJIS,
}

#[derive(Debug, Copy, Clone)]
pub struct PhysicsConsts {
    pub max_dash: isize,
    pub max_move: isize,
    pub gravity_ground: isize,
    pub gravity_air: isize,
    pub dash_ground: isize,
    pub dash_air: isize,
    pub resist: isize,
    pub jump: isize,
}


#[derive(Debug, Copy, Clone)]
pub struct BoosterConsts {
    pub fuel: usize,
    pub b2_0_up: isize,
    pub b2_0_up_nokey: isize,
    pub b2_0_down: isize,
    pub b2_0_left: isize,
    pub b2_0_right: isize,
}

#[derive(Debug, Copy, Clone)]
pub struct MyCharConsts {
    pub display_bounds: Rect<usize>,
    pub hit_bounds: Rect<usize>,
    pub life: usize,
    pub max_life: usize,
    pub control_mode: ControlMode,
    pub air_physics: PhysicsConsts,
    pub water_physics: PhysicsConsts,
    pub animations_left: [Rect<usize>; 12],
    pub animations_right: [Rect<usize>; 12],
}

#[derive(Debug)]
pub struct CaretConsts {
    pub offsets: [(isize, isize); 18],
    pub bubble_left_rects: Vec<Rect<usize>>,
    pub bubble_right_rects: Vec<Rect<usize>>,
    pub zzz_rects: Vec<Rect<usize>>,
    pub drowned_quote_left_rect: Rect<usize>,
    pub drowned_quote_right_rect: Rect<usize>,
    pub level_up_rects: Vec<Rect<usize>>,
    pub level_down_rects: Vec<Rect<usize>>,
    pub little_particles_rects: Vec<Rect<usize>>,
    pub exhaust_rects: Vec<Rect<usize>>,
    pub question_left_rect: Rect<usize>,
    pub question_right_rect: Rect<usize>,
}

#[derive(Debug, Copy, Clone)]
pub struct WorldConsts {
    pub snack_rect: Rect<usize>,
}

#[derive(Debug, Copy, Clone)]
pub struct NPCConsts {
    pub n016_save_point: [Rect<usize>; 8],
    pub n017_health_refill: [Rect<usize>; 2],
    pub n018_door: [Rect<usize>; 2],
    pub n020_computer: [Rect<usize>; 4],
    pub n021_chest_open: Rect<usize>,
    pub n022_teleporter: [Rect<usize>; 2],
    pub n023_teleporter_lights: [Rect<usize>; 8],
    pub n027_death_trap: Rect<usize>,
    pub n029_cthulhu: [Rect<usize>; 4],
    pub n030_hermit_gunsmith: [Rect<usize>; 3],
    pub n032_life_capsule: [Rect<usize>; 2],
    pub n034_bed: [Rect<usize>; 2],
    pub n035_mannan: [Rect<usize>; 8],
    pub n037_sign: [Rect<usize>; 2],
    pub n038_fireplace: [Rect<usize>; 4],
    pub n039_save_sign: [Rect<usize>; 2],
    pub n040_santa: [Rect<usize>; 14],
    pub n041_busted_door: Rect<usize>,
    pub n042_sue: [Rect<usize>; 26],
    pub n043_chalkboard: [Rect<usize>; 2],
    pub n044_polish: [Rect<usize>; 6],
    pub n045_baby: [Rect<usize>; 3],
    pub n047_sandcroc: [Rect<usize>; 5],
    pub n048_omega_projectiles: [Rect<usize>; 4],
    pub n049_skullhead: [Rect<usize>; 6],
    pub n052_sitting_blue_robot: Rect<usize>,
    pub n055_kazuma: [Rect<usize>; 12],
    pub n059_eye_door: [Rect<usize>; 4],
    pub n060_toroko: [Rect<usize>; 16],
    pub n061_king: [Rect<usize>; 20],
    pub n062_kazuma_computer: [Rect<usize>; 3],
    pub n070_sparkle: [Rect<usize>; 4],
    pub n063_toroko_stick: [Rect<usize>; 12],
    pub n071_chinfish: [Rect<usize>; 6],
    pub n072_sprinkler: [Rect<usize>; 2],
    pub n073_water_droplet: [Rect<usize>; 5],
    pub n074_jack: [Rect<usize>; 12],
    pub n075_kanpachi: [Rect<usize>; 2],
    pub n077_yamashita: [Rect<usize>; 3],
    pub n078_pot: [Rect<usize>; 2],
    pub n079_mahin: [Rect<usize>; 6],
}

#[derive(Debug, Copy, Clone)]
pub struct TextScriptConsts {
    pub encoding: TextScriptEncoding,
    pub textbox_rect_top: Rect<usize>,
    pub textbox_rect_middle: Rect<usize>,
    pub textbox_rect_bottom: Rect<usize>,
    pub textbox_rect_yes_no: Rect<usize>,
    pub textbox_rect_cursor: Rect<usize>,
}

/// Everything the engine reads as a constant table. The fractional font
/// metrics of the enhanced ports are rendering-layer data and are not held
/// here.
#[derive(Debug)]
pub struct EngineConstants {
    pub is_cs_plus: bool,
    pub my_char: MyCharConsts,
    pub booster: BoosterConsts,
    pub caret: CaretConsts,
    pub world: WorldConsts,
    pub npc: NPCConsts,
    /// Texture name to sprite-sheet size, first match in table order.
    pub tex_sizes: Vec<(String, (usize, usize))>,
    pub textscript: TextScriptConsts,
    pub font_path: String,
    pub organya_paths: Vec<String>,
}

/// Two caret tables hold the same data.
pub open spec fn spec_caret_eq(a: CaretConsts, b: CaretConsts) -> bool {
    &&& a.offsets == b.offsets
    &&& a.bubble_left_rects@ == b.bubble_left_rects@
    &&& a.bubble_right_rects@ == b.bubble_right_rects@
    &&& a.zzz_rects@ == b.zzz_rects@
    &&& a.drowned_quote_left_rect == b.drowned_quote_left_rect
    &&& a.drowned_quote_right_rect == b.drowned_quote_right_rect
    &&& a.level_up_rects@ == b.level_up_rects@
    &&& a.level_down_rects@ == b.level_down_rects@
    &&& a.little_particles_rects@ == b.little_particles_rects@
    &&& a.exhaust_rects@ == b.exhaust_rects@
    &&& a.question_left_rect == b.question_left_rect
    &&& a.question_right_rect == b.question_right_rect
}

/// The entry at position `k` of a texture-size table.
pub open spec fn tex_entry(
    t: Seq<(String, (usize, usize))>,
    k: int,
    name: &str,
    w: usize,
    h: usize,
) -> bool {
    &&& 0 <= k < t.len()
    &&& t[k].0@ == name@
    &&& t[k].1 == (w, h)
}

/// The position of the first entry named `name`, in table order.
pub open spec fn spec_tex_index(t: Seq<(String, (usize, usize))>, name: Seq<char>) -> Option<int>
    decreases t.len(),
{
    if t.len() == 0 {
        None
    } else if t[0].0@ == name {
        Some(0)
    } else {
        match spec_tex_index(t.drop_first(), name) {
            Some(i) => Some(i + 1),
            None => None,
        }
    }
}

/// The size recorded for `name`, first match in table order.
pub open spec fn spec_tex_lookup(t: Seq<(String, (usize, usize))>, name: Seq<char>) -> Option<
    (usize, usize),
> {
    match spec_tex_index(t, name) {
        Some(i) => Some(t[i].1),
        None => None,
    }
}

/// What setting one texture size does: the first entry of that name is
/// replaced, keeping its key and every other entry in place; a name not in
/// the table is appended.
pub open spec fn spec_set_tex_post(
    pre: Seq<(String, (usize, usize))>,
    post: Seq<(String, (usize, usize))>,
    name: Seq<char>,
    size: (usize, usize),
) -> bool {
    match spec_tex_index(pre, name) {
        Some(i) => post == pre.update(i, (pre[i].0, size)),
        None => post.len() == pre.len() + 1 && post.drop_last() == pre && post.last().0@ == name
            && post.last().1 == size,
    }
}

proof fn lemma_tex_index_hit(t: Seq<(String, (usize, usize))>, name: Seq<char>, i: int)
    requires
        0 <= i < t.len(),
        t[i].0@ == name,
        forall|j: int| 0 <= j < i ==> t[j].0@ != name,
    ensures
        spec_tex_index(t, name) == Some(i),
    decreases i,
{
    if i > 0 {
        lemma_tex_index_hit(t.drop_first(), name, i - 1);
    }
}

proof fn lemma_tex_index_miss(t: Seq<(String, (usize, usize))>, name: Seq<char>)
    requires
        forall|j: int| 0 <= j < t.len() ==> t[j].0@ != name,
    ensures
        spec_tex_index(t, name) is None,
    decreases t.len(),
{
    if t.len() > 0 {
        lemma_tex_index_miss(t.drop_first(), name);
    }
}

proof fn lemma_tex_index_bounds(t: Seq<(String, (usize, usize))>, name: Seq<char>)
    ensures
        spec_tex_index(t, name) matches Some(i) ==> 0 <= i < t.len() && t[i].0@ == name,
    decreases t.len(),
{
    if t.len() > 0 {
        lemma_tex_index_bounds(t.drop_first(), name);
    }
}

proof fn lemma_tex_index_none_no_match(t: Seq<(String, (usize, usize))>, name: Seq<char>)
    requires
        spec_tex_index(t, name) is None,
    ensures
        forall|j: int| 0 <= j < t.len() ==> t[j].0@ != name,
    decreases t.len(),
{
    if t.len() > 0 {
        lemma_tex_index_none_no_match(t.drop_first(), name);
        assert forall|j: int| 0 <= j < t.len() implies t[j].0@ != name by {
            if j > 0 {
                assert(t.drop_first()[j - 1] == t[j]);
            }
        }
    }
}

proof fn lemma_tex_index_same_keys(
    a: Seq<(String, (usize, usize))>,
    b: Seq<(String, (usize, usize))>,
    name: Seq<char>,
)
    requires
        a.len() == b.len(),
        forall|j: int| 0 <= j < a.len() ==> a[j].0 == b[j].0,
    ensures
        spec_tex_index(a, name) == spec_tex_index(b, name),
    decreases a.len(),
{
    if a.len() > 0 {
        assert forall|j: int| 0 <= j < a.drop_first().len() implies a.drop_first()[j].0
            == b.drop_first()[j].0 by {
            assert(a.drop_first()[j] == a[j + 1] && b.drop_first()[j] == b[j + 1]);
        }
        lemma_tex_index_same_keys(a.drop_first(), b.drop_first(), name);
    }
}

/// Setting the same texture size twice is the same as setting it once.
pub proof fn lemma_set_tex_idempotent(
    pre: Seq<(String, (usize, usize))>,
    mid: Seq<(String, (usize, usize))>,
    post: Seq<(String, (usize, usize))>,
    name: Seq<char>,
    size: (usize, usize),
)
    requires
        spec_set_tex_post(pre, mid, name, size),
        spec_set_tex_post(mid, post, name, size),
    ensures
        post == mid,
{
    match spec_tex_index(pre, name) {
        Some(i) => {
            lemma_tex_index_bounds(pre, name);
            assert forall|j: int| 0 <= j < pre.len() implies pre[j].0 == mid[j].0 by {
                if j != i {
                    assert(mid[j] == pre[j]);
                }
            }
            lemma_tex_index_same_keys(pre, mid, name);
            lemma_tex_index_bounds(mid, name);
            assert(mid[i] == (pre[i].0, size));
            assert(post =~= mid);
        },
        None => {
            lemma_tex_index_none_no_match(pre, name);
            assert forall|j: int| 0 <= j < mid.len() - 1 implies mid[j].0@ != name by {
                assert(mid.drop_last()[j] == mid[j]);
            }
            lemma_tex_index_hit(mid, name, mid.len() - 1);
            assert(mid[mid.len() - 1] == (mid.last().0, size));
            assert(post =~= mid);
        },
    }
}

/// Set the size recorded for `name`: replace the first entry of that name,
/// or append one.
fn set_tex(table: &mut Vec<(String, (usize, usize))>, name: &String, size: (usize, usize))
    ensures
        spec_set_tex_post(old(table)@, final(table)@, name@, size),
{
    let n = table.len();
    let mut i: usize = 0;
    while i < n
        invariant
            i <= n,
            n == table@.len(),
            table@ == old(table)@,
            forall|j: int| 0 <= j < i ==> table@[j].0@ != name@,
        decreases n - i,
    {
        if table[i].0.eq(name) {
            proof {
                lemma_tex_index_hit(table@, name@, i as int);
            }
            let key = table[i].0.clone();
            table.set(i, (key, size));
            return ;
        }
        i += 1;
    }
    proof {
        lemma_tex_index_miss(table@, name@);
    }
    table.push((name.clone(), size));
    proof {
        assert(table@.drop_last() =~= old(table)@);
    }
}

fn tex_part_0() -> (v: Vec<(String, (usize, usize))>)
    ensures
        v@.len() == 25,
        tex_entry(v@, 0, "ArmsImage", 256, 16),
        tex_entry(v@, 1, "Arms", 320, 200),
        tex_entry(v@, 2, "bk0", 64, 64),
        tex_entry(v@, 3, "bkBlack", 64, 64),
        tex_entry(v@, 4, "bkBlue", 64, 64),
        tex_entry(v@, 5, "bkFall", 64, 64),
        tex_entry(v@, 6, "bkFog", 320, 240),
        tex_entry(v@, 7, "bkFog480fix", 480, 272),
        tex_entry(v@, 8, "bkGard", 48, 64),
        tex_entry(v@, 9, "bkGray", 64, 64),
        tex_entry(v@, 10, "bkGreen", 64, 64),
        tex_entry(v@, 11, "bkHellish", 320, 240),
        tex_entry(v@, 12, "bkHellish480fix", 480, 272),
        tex_entry(v@, 13, "bkLight", 320, 240),
        tex_entry(v@, 14, "bkLight480fix", 480, 272),
        tex_entry(v@, 15, "bkMaze", 64, 64),
        tex_entry(v@, 16, "bkMoon", 320, 240),
        tex_entry(v@, 17, "bkMoon480fix", 480, 272),
        tex_entry(v@, 18, "bkRed", 32, 32),
        tex_entry(v@, 19, "bkSunset", 320, 240),
        tex_entry(v@, 20, "bkSunset480fix", 480, 272),
        tex_entry(v@, 21, "bkWater", 32, 48),
        tex_entry(v@, 22, "Bullet", 320, 176),
        tex_entry(v@, 23, "Caret", 320, 240),
        tex_entry(v@, 24, "casts", 320, 240),
{
    let mut v: Vec<(String, (usize, usize))> = Vec::new();
    v.push(("ArmsImage".to_owned(), (256, 16)));
    v.push(("Arms".to_owned(), (320, 200)));
    v.push(("bk0".to_owned(), (64, 64)));
    v.push(("bkBlack".to_owned(), (64, 64)));
    v.push(("bkBlue".to_owned(), (64, 64)));
    v.push(("bkFall".to_owned(), (64, 64)));
    v.push(("bkFog".to_owned(), (320, 240)));
    v.push(("bkFog480fix".to_owned(), (480, 272)));
    v.push(("bkGard".to_owned(), (48, 64)));
    v.push(("bkGray".to_owned(), (64, 64)));
    v.push(("bkGreen".to_owned(), (64, 64)));
    v.push(("bkHellish".to_owned(), (320, 240)));
    v.push(("bkHellish480fix".to_owned(), (480, 272)));
    v.push(("bkLight".to_owned(), (320, 240)));
    v.push(("bkLight480fix".to_owned(), (480, 272)));
    v.push(("bkMaze".to_owned(), (64, 64)));
    v.push(("bkMoon".to_owned(), (320, 240)));
    v.push(("bkMoon480fix".to_owned(), (480, 272)));
    v.push(("bkRed".to_owned(), (32, 32)));
    v.push(("bkSunset".to_owned(), (320, 240)));
    v.push(("bkSunset480fix".to_owned(), (480, 272)));
    v.push(("bkWater".to_owned(), (32, 48)));
    v.push(("Bullet".to_owned(), (320, 176)));
    v.push(("Caret".to_owned(), (320, 240)));
    v.push(("casts".to_owned(), (320, 240)));
    v
}

fn tex_part_1() -> (v: Vec<(String, (usize, usize))>)
    ensures
        v@.len() == 25,
        tex_entry(v@, 0, "Face", 288, 240),
        tex_entry(v@, 1, "Face_0", 288, 240),
        tex_entry(v@, 2, "Face_1", 288, 240),
        tex_entry(v@, 3, "Face_2", 288, 240),
        tex_entry(v@, 4, "Fade", 256, 32),
        tex_entry(v@, 5, "ItemImage", 256, 128),
        tex_entry(v@, 6, "Loading", 64, 8),
        tex_entry(v@, 7, "MyChar", 200, 64),
        tex_entry(v@, 8, "Npc/Npc0", 32, 32),
        tex_entry(v@, 9, "Npc/NpcAlmo1", 320, 240),
        tex_entry(v@, 10, "Npc/NpcAlmo2", 320, 240),
        tex_entry(v@, 11, "Npc/NpcBallos", 320, 240),
        tex_entry(v@, 12, "Npc/NpcBllg", 320, 96),
        tex_entry(v@, 13, "Npc/NpcCemet", 320, 112),
        tex_entry(v@, 14, "Npc/NpcCent", 320, 192),
        tex_entry(v@, 15, "Npc/NpcCurly", 256, 80),
        tex_entry(v@, 16, "Npc/NpcDark", 160, 64),
        tex_entry(v@, 17, "Npc/NpcDr", 320, 240),
        tex_entry(v@, 18, "Npc/NpcEggs1", 320, 112),
        tex_entry(v@, 19, "Npc/NpcEggs2", 320, 128),
        tex_entry(v@, 20, "Npc/NpcFrog", 320, 240),
        tex_entry(v@, 21, "Npc/NpcGuest", 320, 184),
        tex_entry(v@, 22, "Npc/NpcHell", 320, 160),
        tex_entry(v@, 23, "Npc/NpcHeri", 320, 128),
        tex_entry(v@, 24, "Npc/NpcIronH", 320, 72),
{
    let mut v: Vec<(String, (usize, usize))> = Vec::new();
    v.push(("Face".to_owned(), (288, 240)));
    v.push(("Face_0".to_owned(), (288, 240)));
    v.push(("Face_1".to_owned(), (288, 240)));
    v.push(("Face_2".to_owned(), (288, 240)));
    v.push(("Fade".to_owned(), (256, 32)));
    v.push(("ItemImage".to_owned(), (256, 128)));
    v.push(("Loading".to_owned(), (64, 8)));
    v.push(("MyChar".to_owned(), (200, 64)));
    v.push(("Npc/Npc0".to_owned(), (32, 32)));
    v.push(("Npc/NpcAlmo1".to_owned(), (320, 240)));
    v.push(("Npc/NpcAlmo2".to_owned(), (320, 240)));
    v.push(("Npc/NpcBallos".to_owned(), (320, 240)));
    v.push(("Npc/NpcBllg".to_owned(), (320, 96)));
    v.push(("Npc/NpcCemet".to_owned(), (320, 112)));
    v.push(("Npc/NpcCent".to_owned(), (320, 192)));
    v.push(("Npc/NpcCurly".to_owned(), (256, 80)));
    v.push(("Npc/NpcDark".to_owned(), (160, 64)));
    v.push(("Npc/NpcDr".to_owned(), (320, 240)));
    v.push(("Npc/NpcEggs1".to_owned(), (320, 112)));
    v.push(("Npc/NpcEggs2".to_owned(), (320, 128)));
    v.push(("Npc/NpcFrog".to_owned(), (320, 240)));
    v.push(("Npc/NpcGuest".to_owned(), (320, 184)));
    v.push(("Npc/NpcHell".to_owned(), (320, 160)));
    v.push(("Npc/NpcHeri".to_owned(), (320, 128)));
    v.push(("Npc/NpcIronH".to_owned(), (320, 72)));
    v
}

fn tex_part_2() -> (v: Vec<(String, (usize, usize))>)
    ensures
        v@.len() == 25,
        tex_entry(v@, 0, "Npc/NpcIsland", 320, 80),
        tex_entry(v@, 1, "Npc/NpcKings", 96, 48),
        tex_entry(v@, 2, "Npc/NpcMaze", 320, 192),
        tex_entry(v@, 3, "Npc/NpcMiza", 320, 240),
        tex_entry(v@, 4, "Npc/NpcMoon", 320, 128),
        tex_entry(v@, 5, "Npc/NpcOmg", 320, 120),
        tex_entry(v@, 6, "Npc/NpcPlant", 320, 48),
        tex_entry(v@, 7, "Npc/NpcPress", 320, 240),
        tex_entry(v@, 8, "Npc/NpcPriest", 320, 240),
        tex_entry(v@, 9, "Npc/NpcRavil", 320, 168),
        tex_entry(v@, 10, "Npc/NpcRed", 320, 144),
        tex_entry(v@, 11, "Npc/NpcRegu", 320, 240),
        tex_entry(v@, 12, "Npc/NpcSand", 320, 176),
        tex_entry(v@, 13, "Npc/NpcStream", 64, 32),
        tex_entry(v@, 14, "Npc/NpcSym", 320, 240),
        tex_entry(v@, 15, "Npc/NpcToro", 320, 144),
        tex_entry(v@, 16, "Npc/NpcTwinD", 320, 144),
        tex_entry(v@, 17, "Npc/NpcWeed", 320, 240),
        tex_entry(v@, 18, "Npc/NpcX", 320, 240),
        tex_entry(v@, 19, "Resource/BITMAP/Credit01", 160, 240),
        tex_entry(v@, 20, "Resource/BITMAP/Credit02", 160, 240),
        tex_entry(v@, 21, "Resource/BITMAP/Credit03", 160, 240),
        tex_entry(v@, 22, "Resource/BITMAP/Credit04", 160, 240),
        tex_entry(v@, 23, "Resource/BITMAP/Credit05", 160, 240),
        tex_entry(v@, 24, "Resource/BITMAP/Credit06", 160, 240),
{
    let mut v: Vec<(String, (usize, usize))> = Vec::new();
    v.push(("Npc/NpcIsland".to_owned(), (320, 80)));
    v.push(("Npc/NpcKings".to_owned(), (96, 48)));
    v.push(("Npc/NpcMaze".to_owned(), (320, 192)));
    v.push(("Npc/NpcMiza".to_owned(), (320, 240)));
    v.push(("Npc/NpcMoon".to_owned(), (320, 128)));
    v.push(("Npc/NpcOmg".to_owned(), (320, 120)));
    v.push(("Npc/NpcPlant".to_owned(), (320, 48)));
    v.push(("Npc/NpcPress".to_owned(), (320, 240)));
    v.push(("Npc/NpcPriest".to_owned(), (320, 240)));
    v.push(("Npc/NpcRavil".to_owned(), (320, 168)));
    v.push(("Npc/NpcRed".to_owned(), (320, 144)));
    v.push(("Npc/NpcRegu".to_owned(), (320, 240)));
    v.push(("Npc/NpcSand".to_owned(), (320, 176)));
    v.push(("Npc/NpcStream".to_owned(), (64, 32)));
    v.push(("Npc/NpcSym".to_owned(), (320, 240)));
    v.push(("Npc/NpcToro".to_owned(), (320, 144)));
    v.push(("Npc/NpcTwinD".to_owned(), (320, 144)));
    v.push(("Npc/NpcWeed".to_owned(), (320, 240)));
    v.push(("Npc/NpcX".to_owned(), (320, 240)));
    v.push(("Resource/BITMAP/Credit01".to_owned(), (160, 240)));
    v.push(("Resource/BITMAP/Credit02".to_owned(), (160, 240)));
    v.push(("Resource/BITMAP/Credit03".to_owned(), (160, 240)));
    v.push(("Resource/BITMAP/Credit04".to_owned(), (160, 240)));
    v.push(("Resource/BITMAP/Credit05".to_owned(), (160, 240)));
    v.push(("Resource/BITMAP/Credit06".to_owned(), (160, 240)));
    v
}

fn tex_part_3() -> (v: Vec<(String, (usize, usize))>)
    ensures
        v@.len() == 25,
        tex_entry(v@, 0, "Resource/BITMAP/Credit07", 160, 240),
        tex_entry(v@, 1, "Resource/BITMAP/Credit08", 160, 240),
        tex_entry(v@, 2, "Resource/BITMAP/Credit09", 160, 240),
        tex_entry(v@, 3, "Resource/BITMAP/Credit10", 160, 240),
        tex_entry(v@, 4, "Resource/BITMAP/Credit11", 160, 240),
        tex_entry(v@, 5, "Resource/BITMAP/Credit12", 160, 240),
        tex_entry(v@, 6, "Resource/BITMAP/Credit14", 160, 240),
        tex_entry(v@, 7, "Resource/BITMAP/Credit15", 160, 240),
        tex_entry(v@, 8, "Resource/BITMAP/Credit16", 160, 240),
        tex_entry(v@, 9, "Resource/BITMAP/Credit17", 160, 240),
        tex_entry(v@, 10, "Resource/BITMAP/Credit18", 160, 240),
        tex_entry(v@, 11, "Resource/BITMAP/pixel", 160, 16),
        tex_entry(v@, 12, "Resource/CURSOR/CURSOR_IKA", 32, 32),
        tex_entry(v@, 13, "Resource/CURSOR/CURSOR_NORMAL", 32, 32),
        tex_entry(v@, 14, "StageImage", 256, 16),
        tex_entry(v@, 15, "Stage/Prt0", 32, 32),
        tex_entry(v@, 16, "Stage/PrtAlmond", 256, 96),
        tex_entry(v@, 17, "Stage/PrtBarr", 256, 88),
        tex_entry(v@, 18, "Stage/PrtCave", 256, 80),
        tex_entry(v@, 19, "Stage/PrtCent", 256, 128),
        tex_entry(v@, 20, "Stage/PrtEggIn", 256, 80),
        tex_entry(v@, 21, "Stage/PrtEggs", 256, 240),
        tex_entry(v@, 22, "Stage/PrtEggX", 256, 240),
        tex_entry(v@, 23, "Stage/PrtFall", 256, 128),
        tex_entry(v@, 24, "Stage/PrtGard", 256, 97),
{
    let mut v: Vec<(String, (usize, usize))> = Vec::new();
    v.push(("Resource/BITMAP/Credit07".to_owned(), (160, 240)));
    v.push(("Resource/BITMAP/Credit08".to_owned(), (160, 240)));
    v.push(("Resource/BITMAP/Credit09".to_owned(), (160, 240)));
    v.push(("Resource/BITMAP/Credit10".to_owned(), (160, 240)));
    v.push(("Resource/BITMAP/Credit11".to_owned(), (160, 240)));
    v.push(("Resource/BITMAP/Credit12".to_owned(), (160, 240)));
    v.push(("Resource/BITMAP/Credit14".to_owned(), (160, 240)));
    v.push(("Resource/BITMAP/Credit15".to_owned(), (160, 240)));
    v.push(("Resource/BITMAP/Credit16".to_owned(), (160, 240)));
    v.push(("Resource/BITMAP/Credit17".to_owned(), (160, 240)));
    v.push(("Resource/BITMAP/Credit18".to_owned(), (160, 240)));
    v.push(("Resource/BITMAP/pixel".to_owned(), (160, 16)));
    v.push(("Resource/CURSOR/CURSOR_IKA".to_owned(), (32, 32)));
    v.push(("Resource/CURSOR/CURSOR_NORMAL".to_owned(), (32, 32)));
    v.push(("StageImage".to_owned(), (256, 16)));
    v.push(("Stage/Prt0".to_owned(), (32, 32)));
    v.push(("Stage/PrtAlmond".to_owned(), (256, 96)));
    v.push(("Stage/PrtBarr".to_owned(), (256, 88)));
    v.push(("Stage/PrtCave".to_owned(), (256, 80)));
    v.push(("Stage/PrtCent".to_owned(), (256, 128)));
    v.push(("Stage/PrtEggIn".to_owned(), (256, 80)));
    v.push(("Stage/PrtEggs".to_owned(), (256, 240)));
    v.push(("Stage/PrtEggX".to_owned(), (256, 240)));
    v.push(("Stage/PrtFall".to_owned(), (256, 128)));
    v.push(("Stage/PrtGard".to_owned(), (256, 97)));
    v
}

fn tex_part_4() -> (v: Vec<(String, (usize, usize))>)
    ensures
        v@.len() == 14,
        tex_entry(v@, 0, "Stage/PrtHell", 256, 240),
        tex_entry(v@, 1, "Stage/PrtJail", 256, 128),
        tex_entry(v@, 2, "Stage/PrtLabo", 128, 64),
        tex_entry(v@, 3, "Stage/PrtMaze", 256, 160),
        tex_entry(v@, 4, "Stage/PrtMimi", 256, 160),
        tex_entry(v@, 5, "Stage/PrtOside", 256, 64),
        tex_entry(v@, 6, "Stage/PrtPens", 256, 64),
        tex_entry(v@, 7, "Stage/PrtRiver", 256, 96),
        tex_entry(v@, 8, "Stage/PrtSand", 256, 112),
        tex_entry(v@, 9, "Stage/PrtStore", 256, 112),
        tex_entry(v@, 10, "Stage/PrtWeed", 256, 128),
        tex_entry(v@, 11, "Stage/PrtWhite", 256, 240),
        tex_entry(v@, 12, "TextBox", 244, 144),
        tex_entry(v@, 13, "Title", 320, 48),
{
    let mut v: Vec<(String, (usize, usize))> = Vec::new();
    v.push(("Stage/PrtHell".to_owned(), (256, 240)));
    v.push(("Stage/PrtJail".to_owned(), (256, 128)));
    v.push(("Stage/PrtLabo".to_owned(), (128, 64)));
    v.push(("Stage/PrtMaze".to_owned(), (256, 160)));
    v.push(("Stage/PrtMimi".to_owned(), (256, 160)));
    v.push(("Stage/PrtOside".to_owned(), (256, 64)));
    v.push(("Stage/PrtPens".to_owned(), (256, 64)));
    v.push(("Stage/PrtRiver".to_owned(), (256, 96)));
    v.push(("Stage/PrtSand".to_owned(), (256, 112)));
    v.push(("Stage/PrtStore".to_owned(), (256, 112)));
    v.push(("Stage/PrtWeed".to_owned(), (256, 128)));
    v.push(("Stage/PrtWhite".to_owned(), (256, 240)));
    v.push(("TextBox".to_owned(), (244, 144)));
    v.push(("Title".to_owned(), (320, 48)));
    v
}

/// The default texture-size table, assembled in table order.
#[verifier::rlimit(100)]
fn default_tex_sizes() -> (v: Vec<(String, (usize, usize))>)
    ensures
        v@.len() == 114,
        tex_entry(v@, 0, "ArmsImage", 256, 16),
        tex_entry(v@, 1, "Arms", 320, 200),
        tex_entry(v@, 2, "bk0", 64, 64),
        tex_entry(v@, 3, "bkBlack", 64, 64),
        tex_entry(v@, 4, "bkBlue", 64, 64),
        tex_entry(v@, 5, "bkFall", 64, 64),
        tex_entry(v@, 6, "bkFog", 320, 240),
        tex_entry(v@, 7, "bkFog480fix", 480, 272),
        tex_entry(v@, 8, "bkGard", 48, 64),
        tex_entry(v@, 9, "bkGray", 64, 64),
        tex_entry(v@, 10, "bkGreen", 64, 64),
        tex_entry(v@, 11, "bkHellish", 320, 240),
        tex_entry(v@, 12, "bkHellish480fix", 480, 272),
        tex_entry(v@, 13, "bkLight", 320, 240),
        tex_entry(v@, 14, "bkLight480fix", 480, 272),
        tex_entry(v@, 15, "bkMaze", 64, 64),
        tex_entry(v@, 16, "bkMoon", 320, 240),
        tex_entry(v@, 17, "bkMoon480fix", 480, 272),
        tex_entry(v@, 18, "bkRed", 32, 32),
        tex_entry(v@, 19, "bkSunset", 320, 240),
        tex_entry(v@, 20, "bkSunset480fix", 480, 272),
        tex_entry(v@, 21, "bkWater", 32, 48),
        tex_entry(v@, 22, "Bullet", 320, 176),
        tex_entry(v@, 23, "Caret", 320, 240),
        tex_entry(v@, 24, "casts", 320, 240),
        tex_entry(v@, 25, "Face", 288, 240),
        tex_entry(v@, 26, "Face_0", 288, 240),
        tex_entry(v@, 27, "Face_1", 288, 240),
        tex_entry(v@, 28, "Face_2", 288, 240),
        tex_entry(v@, 29, "Fade", 256, 32),
        tex_entry(v@, 30, "ItemImage", 256, 128),
        tex_entry(v@, 31, "Loading", 64, 8),
        tex_entry(v@, 32, "MyChar", 200, 64),
        tex_entry(v@, 33, "Npc/Npc0", 32, 32),
        tex_entry(v@, 34, "Npc/NpcAlmo1", 320, 240),
        tex_entry(v@, 35, "Npc/NpcAlmo2", 320, 240),
        tex_entry(v@, 36, "Npc/NpcBallos", 320, 240),
        tex_entry(v@, 37, "Npc/NpcBllg", 320, 96),
        tex_entry(v@, 38, "Npc/NpcCemet", 320, 112),
        tex_entry(v@, 39, "Npc/NpcCent", 320, 192),
        tex_entry(v@, 40, "Npc/NpcCurly", 256, 80),
        tex_entry(v@, 41, "Npc/NpcDark", 160, 64),
        tex_entry(v@, 42, "Npc/NpcDr", 320, 240),
        tex_entry(v@, 43, "Npc/NpcEggs1", 320, 112),
        tex_entry(v@, 44, "Npc/NpcEggs2", 320, 128),
        tex_entry(v@, 45, "Npc/NpcFrog", 320, 240),
        tex_entry(v@, 46, "Npc/NpcGuest", 320, 184),
        tex_entry(v@, 47, "Npc/NpcHell", 320, 160),
        tex_entry(v@, 48, "Npc/NpcHeri", 320, 128),
        tex_entry(v@, 49, "Npc/NpcIronH", 320, 72),
        tex_entry(v@, 50, "Npc/NpcIsland", 320, 80),
        tex_entry(v@, 51, "Npc/NpcKings", 96, 48),
        tex_entry(v@, 52, "Npc/NpcMaze", 320, 192),
        tex_entry(v@, 53, "Npc/NpcMiza", 320, 240),
        tex_entry(v@, 54, "Npc/NpcMoon", 320, 128),
        tex_entry(v@, 55, "Npc/NpcOmg", 320, 120),
        tex_entry(v@, 56, "Npc/NpcPlant", 320, 48),
        tex_entry(v@, 57, "Npc/NpcPress", 320, 240),
        tex_entry(v@, 58, "Npc/NpcPriest", 320, 240),
        tex_entry(v@, 59, "Npc/NpcRavil", 320, 168),
        tex_entry(v@, 60, "Npc/NpcRed", 320, 144),
        tex_entry(v@, 61, "Npc/NpcRegu", 320, 240),
        tex_entry(v@, 62, "Npc/NpcSand", 320, 176),
        tex_entry(v@, 63, "Npc/NpcStream", 64, 32),
        tex_entry(v@, 64, "Npc/NpcSym", 320, 240),
        tex_entry(v@, 65, "Npc/NpcToro", 320, 144),
        tex_entry(v@, 66, "Npc/NpcTwinD", 320, 144),
        tex_entry(v@, 67, "Npc/NpcWeed", 320, 240),
        tex_entry(v@, 68, "Npc/NpcX", 320, 240),
        tex_entry(v@, 69, "Resource/BITMAP/Credit01", 160, 240),
        tex_entry(v@, 70, "Resource/BITMAP/Credit02", 160, 240),
        tex_entry(v@, 71, "Resource/BITMAP/Credit03", 160, 240),
        tex_entry(v@, 72, "Resource/BITMAP/Credit04", 160, 240),
        tex_entry(v@, 73, "Resource/BITMAP/Credit05", 160, 240),
        tex_entry(v@, 74, "Resource/BITMAP/Credit06", 160, 240),
        tex_entry(v@, 75, "Resource/BITMAP/Credit07", 160, 240),
        tex_entry(v@, 76, "Resource/BITMAP/Credit08", 160, 240),
        tex_entry(v@, 77, "Resource/BITMAP/Credit09", 160, 240),
        tex_entry(v@, 78, "Resource/BITMAP/Credit10", 160, 240),
        tex_entry(v@, 79, "Resource/BITMAP/Credit11", 160, 240),
        tex_entry(v@, 80, "Resource/BITMAP/Credit12", 160, 240),
        tex_entry(v@, 81, "Resource/BITMAP/Credit14", 160, 240),
        tex_entry(v@, 82, "Resource/BITMAP/Credit15", 160, 240),
        tex_entry(v@, 83, "Resource/BITMAP/Credit16", 160, 240),
        tex_entry(v@, 84, "Resource/BITMAP/Credit17", 160, 240),
        tex_entry(v@, 85, "Resource/BITMAP/Credit18", 160, 240),
        tex_entry(v@, 86, "Resource/BITMAP/pixel", 160, 16),
        tex_entry(v@, 87, "Resource/CURSOR/CURSOR_IKA", 32, 32),
        tex_entry(v@, 88, "Resource/CURSOR/CURSOR_NORMAL", 32, 32),
        tex_entry(v@, 89, "StageImage", 256, 16),
        tex_entry(v@, 90, "Stage/Prt0", 32, 32),
        tex_entry(v@, 91, "Stage/PrtAlmond", 256, 96),
        tex_entry(v@, 92, "Stage/PrtBarr", 256, 88),
        tex_entry(v@, 93, "Stage/PrtCave", 256, 80),
        tex_entry(v@, 94, "Stage/PrtCent", 256, 128),
        tex_entry(v@, 95, "Stage/PrtEggIn", 256, 80),
        tex_entry(v@, 96, "Stage/PrtEggs", 256, 240),
        tex_entry(v@, 97, "Stage/PrtEggX", 256, 240),
        tex_entry(v@, 98, "Stage/PrtFall", 256, 128),
        tex_entry(v@, 99, "Stage/PrtGard", 256, 97),
        tex_entry(v@, 100, "Stage/PrtHell", 256, 240),
        tex_entry(v@, 101, "Stage/PrtJail", 256, 128),
        tex_entry(v@, 102, "Stage/PrtLabo", 128, 64),
        tex_entry(v@, 103, "Stage/PrtMaze", 256, 160),
        tex_entry(v@, 104, "Stage/PrtMimi", 256, 160),
        tex_entry(v@, 105, "Stage/PrtOside", 256, 64),
        tex_entry(v@, 106, "Stage/PrtPens", 256, 64),
        tex_entry(v@, 107, "Stage/PrtRiver", 256, 96),
        tex_entry(v@, 108, "Stage/PrtSand", 256, 112),
        tex_entry(v@, 109, "Stage/PrtStore", 256, 112),
        tex_entry(v@, 110, "Stage/PrtWeed", 256, 128),
        tex_entry(v@, 111, "Stage/PrtWhite", 256, 240),
        tex_entry(v@, 112, "TextBox", 244, 144),
        tex_entry(v@, 113, "Title", 320, 48),
{
    let mut v = tex_part_0();
    let mut p1 = tex_part_1();
    v.append(&mut p1);
    let mut p2 = tex_part_2();
    v.append(&mut p2);
    let mut p3 = tex_part_3();
    v.append(&mut p3);
    let mut p4 = tex_part_4();
    v.append(&mut p4);
    v
}

/// Copy a table of rectangles.
fn clone_rects(v: &Vec<Rect<usize>>) -> (r: Vec<Rect<usize>>)
    ensures
        r@ == v@,
{
    let mut r: Vec<Rect<usize>> = Vec::new();
    let n = v.len();
    let mut i: usize = 0;
    while i < n
        invariant
            i <= n,
            n == v@.len(),
            r@ == v@.take(i as int),
        decreases n - i,
    {
        r.push(v[i]);
        assert(r@ =~= v@.take(i as int + 1));
        i += 1;
    }
    proof {
        assert(v@.take(n as int) =~= v@);
    }
    r
}

/// Copy a list of paths.
fn clone_paths(v: &Vec<String>) -> (r: Vec<String>)
    ensures
        r@ == v@,
{
    let mut r: Vec<String> = Vec::new();
    let n = v.len();
    let mut i: usize = 0;
    while i < n
        invariant
            i <= n,
            n == v@.len(),
            r@ == v@.take(i as int),
        decreases n - i,
    {
        r.push(v[i].clone());
        assert(r@ =~= v@.take(i as int + 1));
        i += 1;
    }
    proof {
        assert(v@.take(n as int) =~= v@);
    }
    r
}

/// Copy a texture-size table.
fn clone_tex(v: &Vec<(String, (usize, usize))>) -> (r: Vec<(String, (usize, usize))>)
    ensures
        r@ == v@,
{
    let mut r: Vec<(String, (usize, usize))> = Vec::new();
    let n = v.len();
    let mut i: usize = 0;
    while i < n
        invariant
            i <= n,
            n == v@.len(),
            r@ == v@.take(i as int),
        decreases n - i,
    {
        r.push((v[i].0.clone(), v[i].1));
        assert(r@ =~= v@.take(i as int + 1));
        i += 1;
    }
    proof {
        assert(v@.take(n as int) =~= v@);
    }
    r
}

impl Clone for CaretConsts {
    /// A field-for-field copy.
    fn clone(&self) -> (r: Self)
        ensures
            spec_caret_eq(*self, r),
    {
        Self {
            offsets: self.offsets,
            bubble_left_rects: clone_rects(&self.bubble_left_rects),
            bubble_right_rects: clone_rects(&self.bubble_right_rects),
            zzz_rects: clone_rects(&self.zzz_rects),
            drowned_quote_left_rect: self.drowned_quote_left_rect,
            drowned_quote_right_rect: self.drowned_quote_right_rect,
            level_up_rects: clone_rects(&self.level_up_rects),
            level_down_rects: clone_rects(&self.level_down_rects),
            little_particles_rects: clone_rects(&self.little_particles_rects),
            exhaust_rects: clone_rects(&self.exhaust_rects),
            question_left_rect: self.question_left_rect,
            question_right_rect: self.question_right_rect,
        }
    }
}

impl Clone for EngineConstants {
    /// A field-for-field copy.
    fn clone(&self) -> (r: Self)
        ensures
            r.is_cs_plus == self.is_cs_plus,
            r.my_char == self.my_char,
            r.booster == self.booster,
            spec_caret_eq(r.caret, self.caret),
            r.world == self.world,
            r.npc == self.npc,
            r.tex_sizes@ == self.tex_sizes@,
            r.textscript == self.textscript,
            r.font_path@ == self.font_path@,
            r.organya_paths@ == self.organya_paths@,
    {
        Self {
            is_cs_plus: self.is_cs_plus,
            my_char: self.my_char,
            booster: self.booster,
            caret: self.caret.clone(),
            world: self.world,
            npc: self.npc,
            tex_sizes: clone_tex(&self.tex_sizes),
            textscript: self.textscript,
            font_path: self.font_path.clone(),
            organya_paths: clone_paths(&self.organya_paths),
        }
    }
}

impl EngineConstants {
    /// The size recorded for texture `name`, first match in table order.
    pub fn tex_size(&self, name: &String) -> (r: Option<(usize, usize)>)
        ensures
            r == spec_tex_lookup(self.tex_sizes@, name@),
    {
        let n = self.tex_sizes.len();
        let mut i: usize = 0;
        while i < n
            invariant
                i <= n,
                n == self.tex_sizes@.len(),
                forall|j: int| 0 <= j < i ==> self.tex_sizes@[j].0@ != name@,
            decreases n - i,
        {
            if self.tex_sizes[i].0.eq(name) {
                proof {
                    lemma_tex_index_hit(self.tex_sizes@, name@, i as int);
                }
                return Some(self.tex_sizes[i].1);
            }
            i += 1;
        }
        proof {
            lemma_tex_index_miss(self.tex_sizes@, name@);
        }
        None
    }

    /// The freeware game's constant tables: every table is pinned, so every
    /// call returns the same value.
    #[verifier::rlimit(100)]
    pub fn defaults() -> (r: Self)
        ensures
            r.is_cs_plus == false,
            r.my_char.display_bounds == (Rect::<usize> { left: 4096, top: 4096, right: 4096, bottom: 4096 }),
            r.my_char.hit_bounds == (Rect::<usize> { left: 2560, top: 4096, right: 2560, bottom: 4096 }),
            r.my_char.life == 3,
            r.my_char.max_life == 3,
            r.my_char.control_mode is Normal,
            r.my_char.air_physics == (PhysicsConsts { max_dash: 0x32c, max_move: 0x5ff, gravity_air: 0x20, gravity_ground: 0x50, dash_air: 0x20, dash_ground: 0x55, resist: 0x33, jump: 0x500, }),
            r.my_char.water_physics == (PhysicsConsts { max_dash: 0x196, max_move: 0x2ff, gravity_air: 0x10, gravity_ground: 0x28, dash_air: 0x10, dash_ground: 0x2a, resist: 0x19, jump: 0x280, }),
            r.my_char.animations_left == [ Rect::<usize> { left: 0, top: 0, right: 16, bottom: 16 }, Rect::<usize> { left: 16, top: 0, right: 32, bottom: 16 }, Rect::<usize> { left: 0, top: 0, right: 16, bottom: 16 }, Rect::<usize> { left: 32, top: 0, right: 48, bottom: 16 }, Rect::<usize> { left: 0, top: 0, right: 16, bottom: 16 }, Rect::<usize> { left: 48, top: 0, right: 64, bottom: 16 }, Rect::<usize> { left: 64, top: 0, right: 80, bottom: 16 }, Rect::<usize> { left: 48, top: 0, right: 64, bottom: 16 }, Rect::<usize> { left: 80, top: 0, right: 96, bottom: 16 }, Rect::<usize> { left: 48, top: 0, right: 64, bottom: 16 }, Rect::<usize> { left: 96, top: 0, right: 112, bottom: 16 }, Rect::<usize> { left: 112, top: 0, right: 128, bottom: 16 }, ],
            r.my_char.animations_right == [ Rect::<usize> { left: 0, top: 16, right: 16, bottom: 32 }, Rect::<usize> { left: 16, top: 16, right: 32, bottom: 32 }, Rect::<usize> { left: 0, top: 16, right: 16, bottom: 32 }, Rect::<usize> { left: 32, top: 16, right: 48, bottom: 32 }, Rect::<usize> { left: 0, top: 16, right: 16, bottom: 32 }, Rect::<usize> { left: 48, top: 16, right: 64, bottom: 32 }, Rect::<usize> { left: 64, top: 16, right: 80, bottom: 32 }, Rect::<usize> { left: 48, top: 16, right: 64, bottom: 32 }, Rect::<usize> { left: 80, top: 16, right: 96, bottom: 32 }, Rect::<usize> { left: 48, top: 16, right: 64, bottom: 32 }, Rect::<usize> { left: 96, top: 16, right: 112, bottom: 32 }, Rect::<usize> { left: 112, top: 16, right: 128, bottom: 32 }, ],
            r.booster.fuel == 50,
            r.booster.b2_0_up == -0x5ff as isize,
            r.booster.b2_0_up_nokey == -0x5ff as isize,
            r.booster.b2_0_down == 0x5ff,
            r.booster.b2_0_left == -0x5ff as isize,
            r.booster.b2_0_right == 0x5ff,
            r.caret.offsets == [ (0 as isize, 0 as isize), (2048, 2048), (4096, 4096), (4096, 4096), (4096, 4096), (2048, 2048), (4096, 4096), (2048, 2048), (4096, 4096), (4096, 4096), (14336, 4096), (2048, 2048), (8192, 8192), (2048, 2048), (10240, 10240), (2048, 2048), (10240, 2048), (26624, 2048), ],
            r.caret.bubble_left_rects@ == seq![ Rect::<usize> { left: 0, top: 64, right: 8, bottom: 72 }, Rect::<usize> { left: 8, top: 64, right: 16, bottom: 72 }, Rect::<usize> { left: 16, top: 64, right: 24, bottom: 72 }, Rect::<usize> { left: 24, top: 64, right: 32, bottom: 72 }, ],
            r.caret.bubble_right_rects@ == seq![ Rect::<usize> { left: 64, top: 24, right: 72, bottom: 32 }, Rect::<usize> { left: 72, top: 24, right: 80, bottom: 32 }, Rect::<usize> { left: 80, top: 24, right: 88, bottom: 32 }, Rect::<usize> { left: 88, top: 24, right: 96, bottom: 32 }, ],
            r.caret.zzz_rects@ == seq![ Rect::<usize> { left: 32, top: 64, right: 40, bottom: 72 }, Rect::<usize> { left: 32, top: 72, right: 40, bottom: 80 }, Rect::<usize> { left: 40, top: 64, right: 48, bottom: 72 }, Rect::<usize> { left: 40, top: 72, right: 48, bottom: 80 }, Rect::<usize> { left: 40, top: 64, right: 48, bottom: 72 }, Rect::<usize> { left: 40, top: 72, right: 48, bottom: 80 }, Rect::<usize> { left: 40, top: 64, right: 48, bottom: 72 }, ],
            r.caret.drowned_quote_left_rect == (Rect::<usize> { left: 16, top: 80, right: 32, bottom: 96 }),
            r.caret.drowned_quote_right_rect == (Rect::<usize> { left: 32, top: 80, right: 48, bottom: 96 }),
            r.caret.level_up_rects@ == seq![ Rect::<usize> { left: 0, top: 0, right: 56, bottom: 16 }, Rect::<usize> { left: 0, top: 16, right: 56, bottom: 32 }, ],
            r.caret.level_down_rects@ == seq![ Rect::<usize> { left: 0, top: 96, right: 56, bottom: 112 }, Rect::<usize> { left: 0, top: 112, right: 56, bottom: 128 }, ],
            r.caret.little_particles_rects@ == seq![ Rect::<usize> { left: 56, top: 24, right: 64, bottom: 32 }, Rect::<usize> { left: 0, top: 0, right: 0, bottom: 0 }, ],
            r.caret.exhaust_rects@ == seq![ Rect::<usize> { left: 56, top: 0, right: 64, bottom: 8 }, Rect::<usize> { left: 64, top: 0, right: 72, bottom: 8 }, Rect::<usize> { left: 72, top: 0, right: 80, bottom: 8 }, Rect::<usize> { left: 80, top: 0, right: 88, bottom: 8 }, Rect::<usize> { left: 88, top: 0, right: 96, bottom: 8 }, Rect::<usize> { left: 96, top: 0, right: 104, bottom: 8 }, Rect::<usize> { left: 104, top: 0, right: 112, bottom: 8 }, ],
            r.caret.question_left_rect == (Rect::<usize> { left: 0, top: 80, right: 16, bottom: 96 }),
            r.caret.question_right_rect == (Rect::<usize> { left: 48, top: 64, right: 64, bottom: 80 }),
            r.world == (WorldConsts { snack_rect: Rect::<usize> { left: 256, top: 48, right: 272, bottom: 64 } }),
            r.npc.n016_save_point == [ Rect::<usize> { left: 96, top: 16, right: 112, bottom: 32 }, Rect::<usize> { left: 112, top: 16, right: 128, bottom: 32 }, Rect::<usize> { left: 128, top: 16, right: 144, bottom: 32 }, Rect::<usize> { left: 144, top: 16, right: 160, bottom: 32 }, Rect::<usize> { left: 160, top: 16, right: 176, bottom: 32 }, Rect::<usize> { left: 176, top: 16, right: 192, bottom: 32 }, Rect::<usize> { left: 192, top: 16, right: 208, bottom: 32 }, Rect::<usize> { left: 208, top: 16, right: 224, bottom: 32 }, ],
            r.npc.n017_health_refill == [ Rect::<usize> { left: 288, top: 0, right: 304, bottom: 16 }, Rect::<usize> { left: 304, top: 0, right: 320, bottom: 16 }, ],
            r.npc.n018_door == [ Rect::<usize> { left: 224, top: 16, right: 240, bottom: 40 }, Rect::<usize> { left: 192, top: 112, right: 208, bottom: 136 }, ],
            r.npc.n020_computer == [ Rect::<usize> { left: 288, top: 16, right: 320, bottom: 40 }, Rect::<usize> { left: 288, top: 40, right: 320, bottom: 64 }, Rect::<usize> { left: 288, top: 40, right: 320, bottom: 64 }, Rect::<usize> { left: 288, top: 64, right: 320, bottom: 88 }, ],
            r.npc.n021_chest_open == (Rect::<usize> { left: 224, top: 40, right: 240, bottom: 48 }),
            r.npc.n022_teleporter == [ Rect::<usize> { left: 240, top: 16, right: 264, bottom: 48 }, Rect::<usize> { left: 248, top: 152, right: 272, bottom: 184 }, ],
            r.npc.n023_teleporter_lights == [ Rect::<usize> { left: 264, top: 16, right: 288, bottom: 20 }, Rect::<usize> { left: 264, top: 20, right: 288, bottom: 24 }, Rect::<usize> { left: 264, top: 24, right: 288, bottom: 28 }, Rect::<usize> { left: 264, top: 28, right: 288, bottom: 32 }, Rect::<usize> { left: 264, top: 32, right: 288, bottom: 36 }, Rect::<usize> { left: 264, top: 36, right: 288, bottom: 40 }, Rect::<usize> { left: 264, top: 40, right: 288, bottom: 44 }, Rect::<usize> { left: 264, top: 44, right: 288, bottom: 48 }, ],
            r.npc.n027_death_trap == (Rect::<usize> { left: 96, top: 64, right: 128, bottom: 88 }),
            r.npc.n029_cthulhu == [ Rect::<usize> { left: 0, top: 192, right: 16, bottom: 216 }, Rect::<usize> { left: 16, top: 192, right: 32, bottom: 216 }, Rect::<usize> { left: 0, top: 216, right: 16, bottom: 240 }, Rect::<usize> { left: 16, top: 216, right: 32, bottom: 240 }, ],
            r.npc.n030_hermit_gunsmith == [ Rect::<usize> { left: 48, top: 0, right: 64, bottom: 16 }, Rect::<usize> { left: 48, top: 16, right: 64, bottom: 32 }, Rect::<usize> { left: 0, top: 32, right: 16, bottom: 48 }, ],
            r.npc.n032_life_capsule == [ Rect::<usize> { left: 32, top: 96, right: 48, bottom: 112 }, Rect::<usize> { left: 48, top: 96, right: 64, bottom: 112 }, ],
            r.npc.n034_bed == [ Rect::<usize> { left: 192, top: 48, right: 224, bottom: 64 }, Rect::<usize> { left: 192, top: 184, right: 224, bottom: 200 }, ],
            r.npc.n035_mannan == [ Rect::<usize> { left: 96, top: 64, right: 120, bottom: 96 }, Rect::<usize> { left: 120, top: 64, right: 144, bottom: 96 }, Rect::<usize> { left: 144, top: 64, right: 168, bottom: 96 }, Rect::<usize> { left: 168, top: 64, right: 192, bottom: 96 }, Rect::<usize> { left: 96, top: 96, right: 120, bottom: 128 }, Rect::<usize> { left: 120, top: 96, right: 144, bottom: 128 }, Rect::<usize> { left: 144, top: 96, right: 168, bottom: 128 }, Rect::<usize> { left: 168, top: 96, right: 192, bottom: 128 }, ],
            r.npc.n037_sign == [ Rect::<usize> { left: 192, top: 64, right: 208, bottom: 80 }, Rect::<usize> { left: 208, top: 64, right: 224, bottom: 80 }, ],
            r.npc.n038_fireplace == [ Rect::<usize> { left: 128, top: 64, right: 144, bottom: 80 }, Rect::<usize> { left: 144, top: 64, right: 160, bottom: 80 }, Rect::<usize> { left: 160, top: 64, right: 176, bottom: 80 }, Rect::<usize> { left: 176, top: 64, right: 192, bottom: 80 }, ],
            r.npc.n039_save_sign == [ Rect::<usize> { left: 224, top: 64, right: 240, bottom: 80 }, Rect::<usize> { left: 240, top: 64, right: 256, bottom: 80 }, ],
            r.npc.n040_santa == [ Rect::<usize> { left: 0, top: 32, right: 16, bottom: 48 }, Rect::<usize> { left: 16, top: 32, right: 32, bottom: 48 }, Rect::<usize> { left: 32, top: 32, right: 48, bottom: 48 }, Rect::<usize> { left: 0, top: 32, right: 16, bottom: 48 }, Rect::<usize> { left: 48, top: 32, right: 64, bottom: 48 }, Rect::<usize> { left: 0, top: 32, right: 16, bottom: 48 }, Rect::<usize> { left: 64, top: 32, right: 80, bottom: 48 }, Rect::<usize> { left: 0, top: 48, right: 16, bottom: 64 }, Rect::<usize> { left: 16, top: 48, right: 32, bottom: 64 }, Rect::<usize> { left: 32, top: 48, right: 48, bottom: 64 }, Rect::<usize> { left: 0, top: 48, right: 16, bottom: 64 }, Rect::<usize> { left: 48, top: 48, right: 64, bottom: 64 }, Rect::<usize> { left: 0, top: 48, right: 16, bottom: 64 }, Rect::<usize> { left: 64, top: 48, right: 80, bottom: 64 }, ],
            r.npc.n041_busted_door == (Rect::<usize> { left: 0, top: 80, right: 48, bottom: 112 }),
            r.npc.n042_sue == [ Rect::<usize> { left: 0, top: 0, right: 16, bottom: 16 }, Rect::<usize> { left: 16, top: 0, right: 32, bottom: 16 }, Rect::<usize> { left: 32, top: 0, right: 48, bottom: 16 }, Rect::<usize> { left: 0, top: 0, right: 16, bottom: 16 }, Rect::<usize> { left: 48, top: 0, right: 64, bottom: 16 }, Rect::<usize> { left: 0, top: 0, right: 16, bottom: 16 }, Rect::<usize> { left: 64, top: 0, right: 80, bottom: 16 }, Rect::<usize> { left: 80, top: 32, right: 96, bottom: 48 }, Rect::<usize> { left: 96, top: 32, right: 112, bottom: 48 }, Rect::<usize> { left: 128, top: 32, right: 144, bottom: 48 }, Rect::<usize> { left: 0, top: 0, right: 16, bottom: 16 }, Rect::<usize> { left: 112, top: 32, right: 128, bottom: 48 }, Rect::<usize> { left: 160, top: 32, right: 176, bottom: 48 }, Rect::<usize> { left: 0, top: 16, right: 16, bottom: 32 }, Rect::<usize> { left: 16, top: 16, right: 32, bottom: 32 }, Rect::<usize> { left: 32, top: 16, right: 48, bottom: 32 }, Rect::<usize> { left: 0, top: 16, right: 16, bottom: 32 }, Rect::<usize> { left: 48, top: 16, right: 64, bottom: 32 }, Rect::<usize> { left: 0, top: 16, right: 16, bottom: 32 }, Rect::<usize> { left: 64, top: 16, right: 80, bottom: 32 }, Rect::<usize> { left: 80, top: 48, right: 96, bottom: 64 }, Rect::<usize> { left: 96, top: 48, right: 112, bottom: 64 }, Rect::<usize> { left: 128, top: 48, right: 144, bottom: 64 }, Rect::<usize> { left: 0, top: 16, right: 16, bottom: 32 }, Rect::<usize> { left: 112, top: 48, right: 128, bottom: 64 }, Rect::<usize> { left: 160, top: 48, right: 176, bottom: 64 }, ],
            r.npc.n043_chalkboard == [ Rect::<usize> { left: 128, top: 80, right: 168, bottom: 112 }, Rect::<usize> { left: 168, top: 80, right: 208, bottom: 112 }, ],
            r.npc.n044_polish == [ Rect::<usize> { left: 0, top: 0, right: 32, bottom: 32 }, Rect::<usize> { left: 96, top: 0, right: 128, bottom: 32 }, Rect::<usize> { left: 128, top: 0, right: 160, bottom: 32 }, Rect::<usize> { left: 0, top: 0, right: 32, bottom: 32 }, Rect::<usize> { left: 32, top: 0, right: 64, bottom: 32 }, Rect::<usize> { left: 64, top: 0, right: 96, bottom: 32 }, ],
            r.npc.n045_baby == [ Rect::<usize> { left: 0, top: 32, right: 16, bottom: 48 }, Rect::<usize> { left: 16, top: 32, right: 32, bottom: 48 }, Rect::<usize> { left: 32, top: 32, right: 48, bottom: 48 }, ],
            r.npc.n047_sandcroc == [ Rect::<usize> { left: 0, top: 48, right: 48, bottom: 80 }, Rect::<usize> { left: 48, top: 48, right: 96, bottom: 80 }, Rect::<usize> { left: 96, top: 48, right: 144, bottom: 80 }, Rect::<usize> { left: 144, top: 48, right: 192, bottom: 80 }, Rect::<usize> { left: 192, top: 48, right: 240, bottom: 80 }, ],
            r.npc.n048_omega_projectiles == [ Rect::<usize> { left: 288, top: 88, right: 304, bottom: 104 }, Rect::<usize> { left: 304, top: 88, right: 320, bottom: 104 }, Rect::<usize> { left: 288, top: 104, right: 304, bottom: 120 }, Rect::<usize> { left: 304, top: 104, right: 320, bottom: 120 }, ],
            r.npc.n049_skullhead == [ Rect::<usize> { left: 0, top: 80, right: 32, bottom: 104 }, Rect::<usize> { left: 32, top: 80, right: 64, bottom: 104 }, Rect::<usize> { left: 64, top: 80, right: 96, bottom: 104 }, Rect::<usize> { left: 0, top: 104, right: 32, bottom: 128 }, Rect::<usize> { left: 32, top: 104, right: 64, bottom: 128 }, Rect::<usize> { left: 64, top: 104, right: 96, bottom: 128 }, ],
            r.npc.n052_sitting_blue_robot == (Rect::<usize> { left: 240, top: 96, right: 256, bottom: 112 }),
            r.npc.n055_kazuma == [ Rect::<usize> { left: 192, top: 192, right: 208, bottom: 216 }, Rect::<usize> { left: 208, top: 192, right: 224, bottom: 216 }, Rect::<usize> { left: 192, top: 192, right: 208, bottom: 216 }, Rect::<usize> { left: 224, top: 192, right: 240, bottom: 216 }, Rect::<usize> { left: 192, top: 192, right: 208, bottom: 216 }, Rect::<usize> { left: 240, top: 192, right: 256, bottom: 216 }, Rect::<usize> { left: 192, top: 216, right: 208, bottom: 240 }, Rect::<usize> { left: 208, top: 216, right: 224, bottom: 240 }, Rect::<usize> { left: 192, top: 216, right: 208, bottom: 240 }, Rect::<usize> { left: 224, top: 216, right: 240, bottom: 240 }, Rect::<usize> { left: 192, top: 216, right: 208, bottom: 240 }, Rect::<usize> { left: 240, top: 216, right: 256, bottom: 240 }, ],
            r.npc.n059_eye_door == [ Rect::<usize> { left: 224, top: 16, right: 240, bottom: 40 }, Rect::<usize> { left: 208, top: 80, right: 224, bottom: 104 }, Rect::<usize> { left: 224, top: 80, right: 240, bottom: 104 }, Rect::<usize> { left: 240, top: 80, right: 256, bottom: 104 }, ],
            r.npc.n060_toroko == [ Rect::<usize> { left: 0, top: 64, right: 16, bottom: 80 }, Rect::<usize> { left: 16, top: 64, right: 32, bottom: 80 }, Rect::<usize> { left: 32, top: 64, right: 48, bottom: 80 }, Rect::<usize> { left: 16, top: 64, right: 32, bottom: 80 }, Rect::<usize> { left: 48, top: 64, right: 64, bottom: 80 }, Rect::<usize> { left: 16, top: 64, right: 32, bottom: 80 }, Rect::<usize> { left: 112, top: 64, right: 128, bottom: 80 }, Rect::<usize> { left: 128, top: 64, right: 144, bottom: 80 }, Rect::<usize> { left: 0, top: 80, right: 16, bottom: 96 }, Rect::<usize> { left: 16, top: 80, right: 32, bottom: 96 }, Rect::<usize> { left: 32, top: 80, right: 48, bottom: 96 }, Rect::<usize> { left: 16, top: 80, right: 32, bottom: 96 }, Rect::<usize> { left: 48, top: 80, right: 64, bottom: 96 }, Rect::<usize> { left: 16, top: 80, right: 32, bottom: 96 }, Rect::<usize> { left: 112, top: 80, right: 128, bottom: 96 }, Rect::<usize> { left: 128, top: 80, right: 144, bottom: 96 }, ],
            r.npc.n061_king == [ Rect::<usize> { left: 224, top: 32, right: 240, bottom: 48 }, Rect::<usize> { left: 240, top: 32, right: 256, bottom: 48 }, Rect::<usize> { left: 256, top: 32, right: 272, bottom: 48 }, Rect::<usize> { left: 272, top: 32, right: 288, bottom: 48 }, Rect::<usize> { left: 288, top: 32, right: 304, bottom: 48 }, Rect::<usize> { left: 224, top: 32, right: 240, bottom: 48 }, Rect::<usize> { left: 304, top: 32, right: 320, bottom: 48 }, Rect::<usize> { left: 224, top: 32, right: 240, bottom: 48 }, Rect::<usize> { left: 272, top: 32, right: 288, bottom: 48 }, Rect::<usize> { left: 0, top: 0, right: 0, bottom: 0 }, Rect::<usize> { left: 224, top: 48, right: 240, bottom: 64 }, Rect::<usize> { left: 240, top: 48, right: 256, bottom: 64 }, Rect::<usize> { left: 256, top: 48, right: 272, bottom: 64 }, Rect::<usize> { left: 272, top: 48, right: 288, bottom: 64 }, Rect::<usize> { left: 288, top: 48, right: 304, bottom: 64 }, Rect::<usize> { left: 224, top: 48, right: 240, bottom: 64 }, Rect::<usize> { left: 304, top: 48, right: 320, bottom: 64 }, Rect::<usize> { left: 224, top: 48, right: 240, bottom: 64 }, Rect::<usize> { left: 272, top: 48, right: 288, bottom: 64 }, Rect::<usize> { left: 0, top: 0, right: 0, bottom: 0 }, ],
            r.npc.n062_kazuma_computer == [ Rect::<usize> { left: 272, top: 192, right: 288, bottom: 216 }, Rect::<usize> { left: 288, top: 192, right: 304, bottom: 216 }, Rect::<usize> { left: 304, top: 192, right: 320, bottom: 216 }, ],
            r.npc.n063_toroko_stick == [ Rect::<usize> { left: 64, top: 64, right: 80, bottom: 80 }, Rect::<usize> { left: 80, top: 64, right: 96, bottom: 80 }, Rect::<usize> { left: 64, top: 64, right: 80, bottom: 80 }, Rect::<usize> { left: 96, top: 64, right: 112, bottom: 80 }, Rect::<usize> { left: 112, top: 64, right: 128, bottom: 80 }, Rect::<usize> { left: 128, top: 64, right: 144, bottom: 80 }, Rect::<usize> { left: 64, top: 80, right: 80, bottom: 96 }, Rect::<usize> { left: 80, top: 80, right: 96, bottom: 96 }, Rect::<usize> { left: 64, top: 80, right: 80, bottom: 96 }, Rect::<usize> { left: 96, top: 80, right: 112, bottom: 96 }, Rect::<usize> { left: 112, top: 80, right: 128, bottom: 96 }, Rect::<usize> { left: 128, top: 80, right: 144, bottom: 96 }, ],
            r.npc.n070_sparkle == [ Rect::<usize> { left: 96, top: 48, right: 112, bottom: 64 }, Rect::<usize> { left: 112, top: 48, right: 128, bottom: 64 }, Rect::<usize> { left: 128, top: 48, right: 144, bottom: 64 }, Rect::<usize> { left: 144, top: 48, right: 160, bottom: 64 }, ],
            r.npc.n071_chinfish == [ Rect::<usize> { left: 64, top: 32, right: 80, bottom: 48 }, Rect::<usize> { left: 80, top: 32, right: 96, bottom: 48 }, Rect::<usize> { left: 96, top: 32, right: 112, bottom: 48 }, Rect::<usize> { left: 64, top: 48, right: 80, bottom: 64 }, Rect::<usize> { left: 80, top: 48, right: 96, bottom: 64 }, Rect::<usize> { left: 96, top: 48, right: 112, bottom: 64 }, ],
            r.npc.n072_sprinkler == [ Rect::<usize> { left: 224, top: 48, right: 240, bottom: 64 }, Rect::<usize> { left: 240, top: 48, right: 256, bottom: 64 }, ],
            r.npc.n073_water_droplet == [ Rect::<usize> { left: 72, top: 16, right: 74, bottom: 18 }, Rect::<usize> { left: 74, top: 16, right: 76, bottom: 18 }, Rect::<usize> { left: 76, top: 16, right: 78, bottom: 18 }, Rect::<usize> { left: 78, top: 16, right: 80, bottom: 18 }, Rect::<usize> { left: 80, top: 16, right: 82, bottom: 18 }, ],
            r.npc.n074_jack == [ Rect::<usize> { left: 64, top: 0, right: 80, bottom: 16 }, Rect::<usize> { left: 80, top: 0, right: 96, bottom: 16 }, Rect::<usize> { left: 96, top: 0, right: 112, bottom: 16 }, Rect::<usize> { left: 64, top: 0, right: 80, bottom: 16 }, Rect::<usize> { left: 112, top: 0, right: 128, bottom: 16 }, Rect::<usize> { left: 64, top: 0, right: 80, bottom: 16 }, Rect::<usize> { left: 64, top: 16, right: 80, bottom: 32 }, Rect::<usize> { left: 80, top: 16, right: 96, bottom: 32 }, Rect::<usize> { left: 96, top: 16, right: 112, bottom: 32 }, Rect::<usize> { left: 64, top: 16, right: 80, bottom: 32 }, Rect::<usize> { left: 112, top: 16, right: 128, bottom: 32 }, Rect::<usize> { left: 64, top: 16, right: 80, bottom: 32 }, ],
            r.npc.n075_kanpachi == [ Rect::<usize> { left: 272, top: 32, right: 296, bottom: 56 }, Rect::<usize> { left: 296, top: 32, right: 320, bottom: 56 }, ],
            r.npc.n077_yamashita == [ Rect::<usize> { left: 0, top: 16, right: 48, bottom: 48 }, Rect::<usize> { left: 48, top: 16, right: 96, bottom: 48 }, Rect::<usize> { left: 96, top: 16, right: 144, bottom: 48 }, ],
            r.npc.n078_pot == [ Rect::<usize> { left: 160, top: 48, right: 176, bottom: 64 }, Rect::<usize> { left: 176, top: 48, right: 192, bottom: 64 }, ],
            r.npc.n079_mahin == [ Rect::<usize> { left: 0, top: 0, right: 16, bottom: 16 }, Rect::<usize> { left: 16, top: 0, right: 32, bottom: 16 }, Rect::<usize> { left: 32, top: 0, right: 48, bottom: 16 }, Rect::<usize> { left: 0, top: 16, right: 16, bottom: 32 }, Rect::<usize> { left: 16, top: 16, right: 32, bottom: 32 }, Rect::<usize> { left: 32, top: 16, right: 48, bottom: 32 }, ],
            r.tex_sizes@.len() == 114,
            tex_entry(r.tex_sizes@, 0, "ArmsImage", 256, 16),
            tex_entry(r.tex_sizes@, 1, "Arms", 320, 200),
            tex_entry(r.tex_sizes@, 2, "bk0", 64, 64),
            tex_entry(r.tex_sizes@, 3, "bkBlack", 64, 64),
            tex_entry(r.tex_sizes@, 4, "bkBlue", 64, 64),
            tex_entry(r.tex_sizes@, 5, "bkFall", 64, 64),
            tex_entry(r.tex_sizes@, 6, "bkFog", 320, 240),
            tex_entry(r.tex_sizes@, 7, "bkFog480fix", 480, 272),
            tex_entry(r.tex_sizes@, 8, "bkGard", 48, 64),
            tex_entry(r.tex_sizes@, 9, "bkGray", 64, 64),
            tex_entry(r.tex_sizes@, 10, "bkGreen", 64, 64),
            tex_entry(r.tex_sizes@, 11, "bkHellish", 320, 240),
            tex_entry(r.tex_sizes@, 12, "bkHellish480fix", 480, 272),
            tex_entry(r.tex_sizes@, 13, "bkLight", 320, 240),
            tex_entry(r.tex_sizes@, 14, "bkLight480fix", 480, 272),
            tex_entry(r.tex_sizes@, 15, "bkMaze", 64, 64),
            tex_entry(r.tex_sizes@, 16, "bkMoon", 320, 240),
            tex_entry(r.tex_sizes@, 17, "bkMoon480fix", 480, 272),
            tex_entry(r.tex_sizes@, 18, "bkRed", 32, 32),
            tex_entry(r.tex_sizes@, 19, "bkSunset", 320, 240),
            tex_entry(r.tex_sizes@, 20, "bkSunset480fix", 480, 272),
            tex_entry(r.tex_sizes@, 21, "bkWater", 32, 48),
            tex_entry(r.tex_sizes@, 22, "Bullet", 320, 176),
            tex_entry(r.tex_sizes@, 23, "Caret", 320, 240),
            tex_entry(r.tex_sizes@, 24, "casts", 320, 240),
            tex_entry(r.tex_sizes@, 25, "Face", 288, 240),
            tex_entry(r.tex_sizes@, 26, "Face_0", 288, 240),
            tex_entry(r.tex_sizes@, 27, "Face_1", 288, 240),
            tex_entry(r.tex_sizes@, 28, "Face_2", 288, 240),
            tex_entry(r.tex_sizes@, 29, "Fade", 256, 32),
            tex_entry(r.tex_sizes@, 30, "ItemImage", 256, 128),
            tex_entry(r.tex_sizes@, 31, "Loading", 64, 8),
            tex_entry(r.tex_sizes@, 32, "MyChar", 200, 64),
            tex_entry(r.tex_sizes@, 33, "Npc/Npc0", 32, 32),
            tex_entry(r.tex_sizes@, 34, "Npc/NpcAlmo1", 320, 240),
            tex_entry(r.tex_sizes@, 35, "Npc/NpcAlmo2", 320, 240),
            tex_entry(r.tex_sizes@, 36, "Npc/NpcBallos", 320, 240),
            tex_entry(r.tex_sizes@, 37, "Npc/NpcBllg", 320, 96),
            tex_entry(r.tex_sizes@, 38, "Npc/NpcCemet", 320, 112),
            tex_entry(r.tex_sizes@, 39, "Npc/NpcCent", 320, 192),
            tex_entry(r.tex_sizes@, 40, "Npc/NpcCurly", 256, 80),
            tex_entry(r.tex_sizes@, 41, "Npc/NpcDark", 160, 64),
            tex_entry(r.tex_sizes@, 42, "Npc/NpcDr", 320, 240),
            tex_entry(r.tex_sizes@, 43, "Npc/NpcEggs1", 320, 112),
            tex_entry(r.tex_sizes@, 44, "Npc/NpcEggs2", 320, 128),
            tex_entry(r.tex_sizes@, 45, "Npc/NpcFrog", 320, 240),
            tex_entry(r.tex_sizes@, 46, "Npc/NpcGuest", 320, 184),
            tex_entry(r.tex_sizes@, 47, "Npc/NpcHell", 320, 160),
            tex_entry(r.tex_sizes@, 48, "Npc/NpcHeri", 320, 128),
            tex_entry(r.tex_sizes@, 49, "Npc/NpcIronH", 320, 72),
            tex_entry(r.tex_sizes@, 50, "Npc/NpcIsland", 320, 80),
            tex_entry(r.tex_sizes@, 51, "Npc/NpcKings", 96, 48),
            tex_entry(r.tex_sizes@, 52, "Npc/NpcMaze", 320, 192),
            tex_entry(r.tex_sizes@, 53, "Npc/NpcMiza", 320, 240),
            tex_entry(r.tex_sizes@, 54, "Npc/NpcMoon", 320, 128),
            tex_entry(r.tex_sizes@, 55, "Npc/NpcOmg", 320, 120),
            tex_entry(r.tex_sizes@, 56, "Npc/NpcPlant", 320, 48),
            tex_entry(r.tex_sizes@, 57, "Npc/NpcPress", 320, 240),
            tex_entry(r.tex_sizes@, 58, "Npc/NpcPriest", 320, 240),
            tex_entry(r.tex_sizes@, 59, "Npc/NpcRavil", 320, 168),
            tex_entry(r.tex_sizes@, 60, "Npc/NpcRed", 320, 144),
            tex_entry(r.tex_sizes@, 61, "Npc/NpcRegu", 320, 240),
            tex_entry(r.tex_sizes@, 62, "Npc/NpcSand", 320, 176),
            tex_entry(r.tex_sizes@, 63, "Npc/NpcStream", 64, 32),
            tex_entry(r.tex_sizes@, 64, "Npc/NpcSym", 320, 240),
            tex_entry(r.tex_sizes@, 65, "Npc/NpcToro", 320, 144),
            tex_entry(r.tex_sizes@, 66, "Npc/NpcTwinD", 320, 144),
            tex_entry(r.tex_sizes@, 67, "Npc/NpcWeed", 320, 240),
            tex_entry(r.tex_sizes@, 68, "Npc/NpcX", 320, 240),
            tex_entry(r.tex_sizes@, 69, "Resource/BITMAP/Credit01", 160, 240),
            tex_entry(r.tex_sizes@, 70, "Resource/BITMAP/Credit02", 160, 240),
            tex_entry(r.tex_sizes@, 71, "Resource/BITMAP/Credit03", 160, 240),
            tex_entry(r.tex_sizes@, 72, "Resource/BITMAP/Credit04", 160, 240),
            tex_entry(r.tex_sizes@, 73, "Resource/BITMAP/Credit05", 160, 240),
            tex_entry(r.tex_sizes@, 74, "Resource/BITMAP/Credit06", 160, 240),
            tex_entry(r.tex_sizes@, 75, "Resource/BITMAP/Credit07", 160, 240),
            tex_entry(r.tex_sizes@, 76, "Resource/BITMAP/Credit08", 160, 240),
            tex_entry(r.tex_sizes@, 77, "Resource/BITMAP/Credit09", 160, 240),
            tex_entry(r.tex_sizes@, 78, "Resource/BITMAP/Credit10", 160, 240),
            tex_entry(r.tex_sizes@, 79, "Resource/BITMAP/Credit11", 160, 240),
            tex_entry(r.tex_sizes@, 80, "Resource/BITMAP/Credit12", 160, 240),
            tex_entry(r.tex_sizes@, 81, "Resource/BITMAP/Credit14", 160, 240),
            tex_entry(r.tex_sizes@, 82, "Resource/BITMAP/Credit15", 160, 240),
            tex_entry(r.tex_sizes@, 83, "Resource/BITMAP/Credit16", 160, 240),
            tex_entry(r.tex_sizes@, 84, "Resource/BITMAP/Credit17", 160, 240),
            tex_entry(r.tex_sizes@, 85, "Resource/BITMAP/Credit18", 160, 240),
            tex_entry(r.tex_sizes@, 86, "Resource/BITMAP/pixel", 160, 16),
            tex_entry(r.tex_sizes@, 87, "Resource/CURSOR/CURSOR_IKA", 32, 32),
            tex_entry(r.tex_sizes@, 88, "Resource/CURSOR/CURSOR_NORMAL", 32, 32),
            tex_entry(r.tex_sizes@, 89, "StageImage", 256, 16),
            tex_entry(r.tex_sizes@, 90, "Stage/Prt0", 32, 32),
            tex_entry(r.tex_sizes@, 91, "Stage/PrtAlmond", 256, 96),
            tex_entry(r.tex_sizes@, 92, "Stage/PrtBarr", 256, 88),
            tex_entry(r.tex_sizes@, 93, "Stage/PrtCave", 256, 80),
            tex_entry(r.tex_sizes@, 94, "Stage/PrtCent", 256, 128),
            tex_entry(r.tex_sizes@, 95, "Stage/PrtEggIn", 256, 80),
            tex_entry(r.tex_sizes@, 96, "Stage/PrtEggs", 256, 240),
            tex_entry(r.tex_sizes@, 97, "Stage/PrtEggX", 256, 240),
            tex_entry(r.tex_sizes@, 98, "Stage/PrtFall", 256, 128),
            tex_entry(r.tex_sizes@, 99, "Stage/PrtGard", 256, 97),
            tex_entry(r.tex_sizes@, 100, "Stage/PrtHell", 256, 240),
            tex_entry(r.tex_sizes@, 101, "Stage/PrtJail", 256, 128),
            tex_entry(r.tex_sizes@, 102, "Stage/PrtLabo", 128, 64),
            tex_entry(r.tex_sizes@, 103, "Stage/PrtMaze", 256, 160),
            tex_entry(r.tex_sizes@, 104, "Stage/PrtMimi", 256, 160),
            tex_entry(r.tex_sizes@, 105, "Stage/PrtOside", 256, 64),
            tex_entry(r.tex_sizes@, 106, "Stage/PrtPens", 256, 64),
            tex_entry(r.tex_sizes@, 107, "Stage/PrtRiver", 256, 96),
            tex_entry(r.tex_sizes@, 108, "Stage/PrtSand", 256, 112),
            tex_entry(r.tex_sizes@, 109, "Stage/PrtStore", 256, 112),
            tex_entry(r.tex_sizes@, 110, "Stage/PrtWeed", 256, 128),
            tex_entry(r.tex_sizes@, 111, "Stage/PrtWhite", 256, 240),
            tex_entry(r.tex_sizes@, 112, "TextBox", 244, 144),
            tex_entry(r.tex_sizes@, 113, "Title", 320, 48),
            r.textscript.encoding is UTF8,
            r.textscript.textbox_rect_top == (Rect::<usize> { left: 0, top: 0, right: 244, bottom: 8 }),
            r.textscript.textbox_rect_middle == (Rect::<usize> { left: 0, top: 8, right: 244, bottom: 16 }),
            r.textscript.textbox_rect_bottom == (Rect::<usize> { left: 0, top: 16, right: 244, bottom: 24 }),
            r.textscript.textbox_rect_yes_no == (Rect::<usize> { left: 152, top: 48, right: 244, bottom: 80 }),
            r.textscript.textbox_rect_cursor == (Rect::<usize> { left: 112, top: 88, right: 128, bottom: 104 }),
            r.font_path@ == "builtin/builtin_font.fnt"@,
            r.organya_paths@.len() == 3,
            r.organya_paths@[0]@ == "/org/"@,
            r.organya_paths@[1]@ == "/base/Org/"@,
            r.organya_paths@[2]@ == "/Resource/ORG/"@,
    {
        let tex_sizes = default_tex_sizes();
        EngineConstants {
                is_cs_plus: false,
                my_char: MyCharConsts {
                display_bounds: Rect { left: 8 * 0x200, top: 8 * 0x200, right: 8 * 0x200, bottom: 8 * 0x200 },
                hit_bounds: Rect { left: 5 * 0x200, top: 8 * 0x200, right: 5 * 0x200, bottom: 8 * 0x200 },
                life: 3,
                max_life: 3,
                control_mode: ControlMode::Normal,
                air_physics: PhysicsConsts {
                    max_dash: 0x32c,
                    max_move: 0x5ff,
                    gravity_air: 0x20,
                    gravity_ground: 0x50,
                    dash_air: 0x20,
                    dash_ground: 0x55,
                    resist: 0x33,
                    jump: 0x500,
                },
                water_physics: PhysicsConsts {
                    max_dash: 0x196,
                    max_move: 0x2ff,
                    gravity_air: 0x10,
                    gravity_ground: 0x28,
                    dash_air: 0x10,
                    dash_ground: 0x2a,
                    resist: 0x19,
                    jump: 0x280,
                },
                animations_left: [
                    Rect { left: 0, top: 0, right: 16, bottom: 16 },
                    Rect { left: 16, top: 0, right: 32, bottom: 16 },
                    Rect { left: 0, top: 0, right: 16, bottom: 16 },
                    Rect { left: 32, top: 0, right: 48, bottom: 16 },
                    Rect { left: 0, top: 0, right: 16, bottom: 16 },
                    Rect { left: 48, top: 0, right: 64, bottom: 16 },
                    Rect { left: 64, top: 0, right: 80, bottom: 16 },
                    Rect { left: 48, top: 0, right: 64, bottom: 16 },
                    Rect { left: 80, top: 0, right: 96, bottom: 16 },
                    Rect { left: 48, top: 0, right: 64, bottom: 16 },
                    Rect { left: 96, top: 0, right: 112, bottom: 16 },
                    Rect { left: 112, top: 0, right: 128, bottom: 16 },
                ],
                animations_right: [
                    Rect { left: 0, top: 16, right: 16, bottom: 32 },
                    Rect { left: 16, top: 16, right: 32, bottom: 32 },
                    Rect { left: 0, top: 16, right: 16, bottom: 32 },
                    Rect { left: 32, top: 16, right: 48, bottom: 32 },
                    Rect { left: 0, top: 16, right: 16, bottom: 32 },
                    Rect { left: 48, top: 16, right: 64, bottom: 32 },
                    Rect { left: 64, top: 16, right: 80, bottom: 32 },
                    Rect { left: 48, top: 16, right: 64, bottom: 32 },
                    Rect { left: 80, top: 16, right: 96, bottom: 32 },
                    Rect { left: 48, top: 16, right: 64, bottom: 32 },
                    Rect { left: 96, top: 16, right: 112, bottom: 32 },
                    Rect { left: 112, top: 16, right: 128, bottom: 32 },
                ],
            },
                booster: BoosterConsts {
                fuel: 50,
                b2_0_up: -0x5ff,
                b2_0_up_nokey: -0x5ff,
                b2_0_down: 0x5ff,
                b2_0_left: -0x5ff,
                b2_0_right: 0x5ff,
            },
                caret: CaretConsts {
                offsets: [
                    (0, 0),
                    (4 * 0x200, 4 * 0x200),
                    (8 * 0x200, 8 * 0x200),
                    (8 * 0x200, 8 * 0x200),
                    (8 * 0x200, 8 * 0x200),
                    (4 * 0x200, 4 * 0x200),
                    (8 * 0x200, 8 * 0x200),
                    (4 * 0x200, 4 * 0x200),
                    (8 * 0x200, 8 * 0x200),
                    (8 * 0x200, 8 * 0x200),
                    (28 * 0x200, 8 * 0x200),
                    (4 * 0x200, 4 * 0x200),
                    (16 * 0x200, 16 * 0x200),
                    (4 * 0x200, 4 * 0x200),
                    (20 * 0x200, 20 * 0x200),
                    (4 * 0x200, 4 * 0x200),
                    (20 * 0x200, 4 * 0x200),
                    (52 * 0x200, 4 * 0x200),
                ],
                bubble_left_rects: vec![
                    Rect { left: 0, top: 64, right: 8, bottom: 72 },
                    Rect { left: 8, top: 64, right: 16, bottom: 72 },
                    Rect { left: 16, top: 64, right: 24, bottom: 72 },
                    Rect { left: 24, top: 64, right: 32, bottom: 72 },
                ],
                bubble_right_rects: vec![
                    Rect { left: 64, top: 24, right: 72, bottom: 32 },
                    Rect { left: 72, top: 24, right: 80, bottom: 32 },
                    Rect { left: 80, top: 24, right: 88, bottom: 32 },
                    Rect { left: 88, top: 24, right: 96, bottom: 32 },
                ],
                zzz_rects: vec![
                    Rect { left: 32, top: 64, right: 40, bottom: 72 },
                    Rect { left: 32, top: 72, right: 40, bottom: 80 },
                    Rect { left: 40, top: 64, right: 48, bottom: 72 },
                    Rect { left: 40, top: 72, right: 48, bottom: 80 },
                    Rect { left: 40, top: 64, right: 48, bottom: 72 },
                    Rect { left: 40, top: 72, right: 48, bottom: 80 },
                    Rect { left: 40, top: 64, right: 48, bottom: 72 },
                ],
                drowned_quote_left_rect: Rect { left: 16, top: 80, right: 32, bottom: 96 },
                drowned_quote_right_rect: Rect { left: 32, top: 80, right: 48, bottom: 96 },
                level_up_rects: vec![
                    Rect { left: 0, top: 0, right: 56, bottom: 16 },
                    Rect { left: 0, top: 16, right: 56, bottom: 32 },
                ],
                level_down_rects: vec![
                    Rect { left: 0, top: 96, right: 56, bottom: 112 },
                    Rect { left: 0, top: 112, right: 56, bottom: 128 },
                ],
                little_particles_rects: vec![
                    Rect { left: 56, top: 24, right: 64, bottom: 32 },
                    Rect { left: 0, top: 0, right: 0, bottom: 0 },
                ],
                exhaust_rects: vec![
                    Rect { left: 56, top: 0, right: 64, bottom: 8 },
                    Rect { left: 64, top: 0, right: 72, bottom: 8 },
                    Rect { left: 72, top: 0, right: 80, bottom: 8 },
                    Rect { left: 80, top: 0, right: 88, bottom: 8 },
                    Rect { left: 88, top: 0, right: 96, bottom: 8 },
                    Rect { left: 96, top: 0, right: 104, bottom: 8 },
                    Rect { left: 104, top: 0, right: 112, bottom: 8 },
                ],
                question_left_rect: Rect { left: 0, top: 80, right: 16, bottom: 96 },
                question_right_rect: Rect { left: 48, top: 64, right: 64, bottom: 80 },
            },
                world: WorldConsts {
                snack_rect: Rect { left: 256, top: 48, right: 272, bottom: 64 },
            },
                npc: NPCConsts {
                n016_save_point: [
                    Rect { left: 96, top: 16, right: 112, bottom: 32 },
                    Rect { left: 112, top: 16, right: 128, bottom: 32 },
                    Rect { left: 128, top: 16, right: 144, bottom: 32 },
                    Rect { left: 144, top: 16, right: 160, bottom: 32 },
                    Rect { left: 160, top: 16, right: 176, bottom: 32 },
                    Rect { left: 176, top: 16, right: 192, bottom: 32 },
                    Rect { left: 192, top: 16, right: 208, bottom: 32 },
                    Rect { left: 208, top: 16, right: 224, bottom: 32 },
                ],
                n017_health_refill: [
                    Rect { left: 288, top: 0, right: 304, bottom: 16 },
                    Rect { left: 304, top: 0, right: 320, bottom: 16 },
                ],
                n018_door: [
                    Rect { left: 224, top: 16, right: 240, bottom: 40 },
                    Rect { left: 192, top: 112, right: 208, bottom: 136 },
                ],
                n020_computer: [
                    Rect { left: 288, top: 16, right: 320, bottom: 40 }, // left

                    Rect { left: 288, top: 40, right: 320, bottom: 64 }, // right
                    Rect { left: 288, top: 40, right: 320, bottom: 64 },
                    Rect { left: 288, top: 64, right: 320, bottom: 88 },
                ],
                n021_chest_open: Rect { left: 224, top: 40, right: 240, bottom: 48 },
                n022_teleporter: [
                    Rect { left: 240, top: 16, right: 264, bottom: 48 },
                    Rect { left: 248, top: 152, right: 272, bottom: 184 },
                ],
                n023_teleporter_lights: [
                    Rect { left: 264, top: 16, right: 288, bottom: 20 },
                    Rect { left: 264, top: 20, right: 288, bottom: 24 },
                    Rect { left: 264, top: 24, right: 288, bottom: 28 },
                    Rect { left: 264, top: 28, right: 288, bottom: 32 },
                    Rect { left: 264, top: 32, right: 288, bottom: 36 },
                    Rect { left: 264, top: 36, right: 288, bottom: 40 },
                    Rect { left: 264, top: 40, right: 288, bottom: 44 },
                    Rect { left: 264, top: 44, right: 288, bottom: 48 },
                ],
                n027_death_trap: Rect { left: 96, top: 64, right: 128, bottom: 88 },
                n029_cthulhu: [
                    Rect { left: 0, top: 192, right: 16, bottom: 216 }, // left
                    Rect { left: 16, top: 192, right: 32, bottom: 216 },
                    Rect { left: 0, top: 216, right: 16, bottom: 240 }, // right
                    Rect { left: 16, top: 216, right: 32, bottom: 240 },
                ],
                n030_hermit_gunsmith: [
                    Rect { left: 48, top: 0, right: 64, bottom: 16 },
                    Rect { left: 48, top: 16, right: 64, bottom: 32 },
                    Rect { left: 0, top: 32, right: 16, bottom: 48 },
                ],
                n032_life_capsule: [
                    Rect { left: 32, top: 96, right: 48, bottom: 112 },
                    Rect { left: 48, top: 96, right: 64, bottom: 112 },
                ],
                n034_bed: [
                    Rect { left: 192, top: 48, right: 224, bottom: 64 },
                    Rect { left: 192, top: 184, right: 224, bottom: 200 },
                ],
                n035_mannan: [
                    Rect { left: 96, top: 64, right: 120, bottom: 96 }, // left
                    Rect { left: 120, top: 64, right: 144, bottom: 96 },
                    Rect { left: 144, top: 64, right: 168, bottom: 96 },
                    Rect { left: 168, top: 64, right: 192, bottom: 96 },
                    Rect { left: 96, top: 96, right: 120, bottom: 128 }, // right
                    Rect { left: 120, top: 96, right: 144, bottom: 128 },
                    Rect { left: 144, top: 96, right: 168, bottom: 128 },
                    Rect { left: 168, top: 96, right: 192, bottom: 128 },
                ],
                n037_sign: [
                    Rect { left: 192, top: 64, right: 208, bottom: 80 },
                    Rect { left: 208, top: 64, right: 224, bottom: 80 },
                ],
                n038_fireplace: [
                    Rect { left: 128, top: 64, right: 144, bottom: 80 },
                    Rect { left: 144, top: 64, right: 160, bottom: 80 },
                    Rect { left: 160, top: 64, right: 176, bottom: 80 },
                    Rect { left: 176, top: 64, right: 192, bottom: 80 },
                ],
                n039_save_sign: [
                    Rect { left: 224, top: 64, right: 240, bottom: 80 },
                    Rect { left: 240, top: 64, right: 256, bottom: 80 },
                ],
                n040_santa: [
                    Rect { left: 0, top: 32, right: 16, bottom: 48 }, // left
                    Rect { left: 16, top: 32, right: 32, bottom: 48 },
                    Rect { left: 32, top: 32, right: 48, bottom: 48 },
                    Rect { left: 0, top: 32, right: 16, bottom: 48 },
                    Rect { left: 48, top: 32, right: 64, bottom: 48 },
                    Rect { left: 0, top: 32, right: 16, bottom: 48 },
                    Rect { left: 64, top: 32, right: 80, bottom: 48 },
                    Rect { left: 0, top: 48, right: 16, bottom: 64 }, // right
                    Rect { left: 16, top: 48, right: 32, bottom: 64 },
                    Rect { left: 32, top: 48, right: 48, bottom: 64 },
                    Rect { left: 0, top: 48, right: 16, bottom: 64 },
                    Rect { left: 48, top: 48, right: 64, bottom: 64 },
                    Rect { left: 0, top: 48, right: 16, bottom: 64 },
                    Rect { left: 64, top: 48, right: 80, bottom: 64 },
                ],
                n041_busted_door: Rect { left: 0, top: 80, right: 48, bottom: 112 },
                n042_sue: [
                    Rect { left: 0, top: 0, right: 16, bottom: 16 }, // left
                    Rect { left: 16, top: 0, right: 32, bottom: 16 },
                    Rect { left: 32, top: 0, right: 48, bottom: 16 },
                    Rect { left: 0, top: 0, right: 16, bottom: 16 },
                    Rect { left: 48, top: 0, right: 64, bottom: 16 },
                    Rect { left: 0, top: 0, right: 16, bottom: 16 },
                    Rect { left: 64, top: 0, right: 80, bottom: 16 },
                    Rect { left: 80, top: 32, right: 96, bottom: 48 },
                    Rect { left: 96, top: 32, right: 112, bottom: 48 },
                    Rect { left: 128, top: 32, right: 144, bottom: 48 },
                    Rect { left: 0, top: 0, right: 16, bottom: 16 },
                    Rect { left: 112, top: 32, right: 128, bottom: 48 },
                    Rect { left: 160, top: 32, right: 176, bottom: 48 },
                    Rect { left: 0, top: 16, right: 16, bottom: 32 }, // right
                    Rect { left: 16, top: 16, right: 32, bottom: 32 },
                    Rect { left: 32, top: 16, right: 48, bottom: 32 },
                    Rect { left: 0, top: 16, right: 16, bottom: 32 },
                    Rect { left: 48, top: 16, right: 64, bottom: 32 },
                    Rect { left: 0, top: 16, right: 16, bottom: 32 },
                    Rect { left: 64, top: 16, right: 80, bottom: 32 },
                    Rect { left: 80, top: 48, right: 96, bottom: 64 },
                    Rect { left: 96, top: 48, right: 112, bottom: 64 },
                    Rect { left: 128, top: 48, right: 144, bottom: 64 },
                    Rect { left: 0, top: 16, right: 16, bottom: 32 },
                    Rect { left: 112, top: 48, right: 128, bottom: 64 },
                    Rect { left: 160, top: 48, right: 176, bottom: 64 },
                ],
                n043_chalkboard: [
                    Rect { left: 128, top: 80, right: 168, bottom: 112 },
                    Rect { left: 168, top: 80, right: 208, bottom: 112 },
                ],
                n044_polish: [
                    Rect { left: 0, top: 0, right: 32, bottom: 32 }, // left
                    Rect { left: 96, top: 0, right: 128, bottom: 32 },
                    Rect { left: 128, top: 0, right: 160, bottom: 32 },
                    Rect { left: 0, top: 0, right: 32, bottom: 32 }, // right
                    Rect { left: 32, top: 0, right: 64, bottom: 32 },
                    Rect { left: 64, top: 0, right: 96, bottom: 32 },
                ],
                n045_baby: [
                    Rect { left: 0, top: 32, right: 16, bottom: 48 },
                    Rect { left: 16, top: 32, right: 32, bottom: 48 },
                    Rect { left: 32, top: 32, right: 48, bottom: 48 },
                ],
                n047_sandcroc: [
                    Rect { left: 0, top: 48, right: 48, bottom: 80 },
                    Rect { left: 48, top: 48, right: 96, bottom: 80 },
                    Rect { left: 96, top: 48, right: 144, bottom: 80 },
                    Rect { left: 144, top: 48, right: 192, bottom: 80 },
                    Rect { left: 192, top: 48, right: 240, bottom: 80 },
                ],
                n048_omega_projectiles: [
                    Rect { left: 288, top: 88, right: 304, bottom: 104 }, // left
                    Rect { left: 304, top: 88, right: 320, bottom: 104 },
                    Rect { left: 288, top: 104, right: 304, bottom: 120 }, // right
                    Rect { left: 304, top: 104, right: 320, bottom: 120 },
                ],
                n049_skullhead: [
                    Rect { left: 0, top: 80, right: 32, bottom: 104 }, // left
                    Rect { left: 32, top: 80, right: 64, bottom: 104 },
                    Rect { left: 64, top: 80, right: 96, bottom: 104 },
                    Rect { left: 0, top: 104, right: 32, bottom: 128 }, // right
                    Rect { left: 32, top: 104, right: 64, bottom: 128 },
                    Rect { left: 64, top: 104, right: 96, bottom: 128 },
                ],
                n052_sitting_blue_robot: Rect { left: 240, top: 96, right: 256, bottom: 112 },
                n055_kazuma: [
                    Rect { left: 192, top: 192, right: 208, bottom: 216 }, // left
                    Rect { left: 208, top: 192, right: 224, bottom: 216 },
                    Rect { left: 192, top: 192, right: 208, bottom: 216 },
                    Rect { left: 224, top: 192, right: 240, bottom: 216 },
                    Rect { left: 192, top: 192, right: 208, bottom: 216 },
                    Rect { left: 240, top: 192, right: 256, bottom: 216 },
                    Rect { left: 192, top: 216, right: 208, bottom: 240 }, // right
                    Rect { left: 208, top: 216, right: 224, bottom: 240 },
                    Rect { left: 192, top: 216, right: 208, bottom: 240 },
                    Rect { left: 224, top: 216, right: 240, bottom: 240 },
                    Rect { left: 192, top: 216, right: 208, bottom: 240 },
                    Rect { left: 240, top: 216, right: 256, bottom: 240 },
                ],
                n059_eye_door: [
                    Rect { left: 224, top: 16, right: 240, bottom: 40 },
                    Rect { left: 208, top: 80, right: 224, bottom: 104 },
                    Rect { left: 224, top: 80, right: 240, bottom: 104 },
                    Rect { left: 240, top: 80, right: 256, bottom: 104 },
                ],
                n060_toroko: [
                    Rect { left: 0, top: 64, right: 16, bottom: 80 }, // left
                    Rect { left: 16, top: 64, right: 32, bottom: 80 },
                    Rect { left: 32, top: 64, right: 48, bottom: 80 },
                    Rect { left: 16, top: 64, right: 32, bottom: 80 },
                    Rect { left: 48, top: 64, right: 64, bottom: 80 },
                    Rect { left: 16, top: 64, right: 32, bottom: 80 },
                    Rect { left: 112, top: 64, right: 128, bottom: 80 },
                    Rect { left: 128, top: 64, right: 144, bottom: 80 },
                    Rect { left: 0, top: 80, right: 16, bottom: 96 }, // right
                    Rect { left: 16, top: 80, right: 32, bottom: 96 },
                    Rect { left: 32, top: 80, right: 48, bottom: 96 },
                    Rect { left: 16, top: 80, right: 32, bottom: 96 },
                    Rect { left: 48, top: 80, right: 64, bottom: 96 },
                    Rect { left: 16, top: 80, right: 32, bottom: 96 },
                    Rect { left: 112, top: 80, right: 128, bottom: 96 },
                    Rect { left: 128, top: 80, right: 144, bottom: 96 },
                ],
                n061_king: [
                    Rect { left: 224, top: 32, right: 240, bottom: 48 }, // left
                    Rect { left: 240, top: 32, right: 256, bottom: 48 },
                    Rect { left: 256, top: 32, right: 272, bottom: 48 },
                    Rect { left: 272, top: 32, right: 288, bottom: 48 },
                    Rect { left: 288, top: 32, right: 304, bottom: 48 },
                    Rect { left: 224, top: 32, right: 240, bottom: 48 },
                    Rect { left: 304, top: 32, right: 320, bottom: 48 },
                    Rect { left: 224, top: 32, right: 240, bottom: 48 },
                    Rect { left: 272, top: 32, right: 288, bottom: 48 },
                    Rect { left: 0, top: 0, right: 0, bottom: 0 },
                    Rect { left: 224, top: 48, right: 240, bottom: 64 }, // right
                    Rect { left: 240, top: 48, right: 256, bottom: 64 },
                    Rect { left: 256, top: 48, right: 272, bottom: 64 },
                    Rect { left: 272, top: 48, right: 288, bottom: 64 },
                    Rect { left: 288, top: 48, right: 304, bottom: 64 },
                    Rect { left: 224, top: 48, right: 240, bottom: 64 },
                    Rect { left: 304, top: 48, right: 320, bottom: 64 },
                    Rect { left: 224, top: 48, right: 240, bottom: 64 },
                    Rect { left: 272, top: 48, right: 288, bottom: 64 },
                    Rect { left: 0, top: 0, right: 0, bottom: 0 },
                ],
                n062_kazuma_computer: [
                    Rect { left: 272, top: 192, right: 288, bottom: 216 },
                    Rect { left: 288, top: 192, right: 304, bottom: 216 },
                    Rect { left: 304, top: 192, right: 320, bottom: 216 },
                ],
                n063_toroko_stick: [
                    Rect { left: 64, top: 64, right: 80, bottom: 80 }, // left
                    Rect { left: 80, top: 64, right: 96, bottom: 80 },
                    Rect { left: 64, top: 64, right: 80, bottom: 80 },
                    Rect { left: 96, top: 64, right: 112, bottom: 80 },
                    Rect { left: 112, top: 64, right: 128, bottom: 80 },
                    Rect { left: 128, top: 64, right: 144, bottom: 80 },

                    Rect { left: 64, top: 80, right: 80, bottom: 96 }, // right
                    Rect { left: 80, top: 80, right: 96, bottom: 96 },
                    Rect { left: 64, top: 80, right: 80, bottom: 96 },
                    Rect { left: 96, top: 80, right: 112, bottom: 96 },
                    Rect { left: 112, top: 80, right: 128, bottom: 96 },
                    Rect { left: 128, top: 80, right: 144, bottom: 96 },
                ],
                n070_sparkle: [
                    Rect { left: 96, top: 48, right: 112, bottom: 64 },
                    Rect { left: 112, top: 48, right: 128, bottom: 64 },
                    Rect { left: 128, top: 48, right: 144, bottom: 64 },
                    Rect { left: 144, top: 48, right: 160, bottom: 64 },
                ],
                n071_chinfish: [
                    Rect { left: 64, top: 32, right: 80, bottom: 48 }, // left
                    Rect { left: 80, top: 32, right: 96, bottom: 48 },
                    Rect { left: 96, top: 32, right: 112, bottom: 48 },

                    Rect { left: 64, top: 48, right: 80, bottom: 64 }, // right
                    Rect { left: 80, top: 48, right: 96, bottom: 64 },
                    Rect { left: 96, top: 48, right: 112, bottom: 64 },
                ],
                n072_sprinkler: [
                    Rect { left: 224, top: 48, right: 240, bottom: 64 },
                    Rect { left: 240, top: 48, right: 256, bottom: 64 },
                ],
                n073_water_droplet: [
                    Rect { left: 72, top: 16, right: 74, bottom: 18 },
                    Rect { left: 74, top: 16, right: 76, bottom: 18 },
                    Rect { left: 76, top: 16, right: 78, bottom: 18 },
                    Rect { left: 78, top: 16, right: 80, bottom: 18 },
                    Rect { left: 80, top: 16, right: 82, bottom: 18 },
                ],
                n074_jack: [
                    Rect { left: 64, top: 0, right: 80, bottom: 16 }, // left
                    Rect { left: 80, top: 0, right: 96, bottom: 16 },
                    Rect { left: 96, top: 0, right: 112, bottom: 16 },
                    Rect { left: 64, top: 0, right: 80, bottom: 16 },
                    Rect { left: 112, top: 0, right: 128, bottom: 16 },
                    Rect { left: 64, top: 0, right: 80, bottom: 16 },

                    Rect { left: 64, top: 16, right: 80, bottom: 32 }, // right
                    Rect { left: 80, top: 16, right: 96, bottom: 32 },
                    Rect { left: 96, top: 16, right: 112, bottom: 32 },
                    Rect { left: 64, top: 16, right: 80, bottom: 32 },
                    Rect { left: 112, top: 16, right: 128, bottom: 32 },
                    Rect { left: 64, top: 16, right: 80, bottom: 32 },
                ],
                n075_kanpachi: [
                    Rect { left: 272, top: 32, right: 296, bottom: 56 },
                    Rect { left: 296, top: 32, right: 320, bottom: 56 },
                ],
                n077_yamashita: [
                    Rect { left: 0, top: 16, right: 48, bottom: 48 },
                    Rect { left: 48, top: 16, right: 96, bottom: 48 },
                    Rect { left: 96, top: 16, right: 144, bottom: 48 },
                ],
                n078_pot: [
                    Rect { left: 160, top: 48, right: 176, bottom: 64 },
                    Rect { left: 176, top: 48, right: 192, bottom: 64 },
                ],
                n079_mahin: [
                    Rect { left: 0, top: 0, right: 16, bottom: 16 }, // left
                    Rect { left: 16, top: 0, right: 32, bottom: 16 },
                    Rect { left: 32, top: 0, right: 48, bottom: 16 },

                    Rect { left: 0, top: 16, right: 16, bottom: 32 }, // right
                    Rect { left: 16, top: 16, right: 32, bottom: 32 },
                    Rect { left: 32, top: 16, right: 48, bottom: 32 },
                ],
            },
            tex_sizes,
                textscript: TextScriptConsts {
                encoding: TextScriptEncoding::UTF8,
                textbox_rect_top: Rect { left: 0, top: 0, right: 244, bottom: 8 },
                textbox_rect_middle: Rect { left: 0, top: 8, right: 244, bottom: 16 },
                textbox_rect_bottom: Rect { left: 0, top: 16, right: 244, bottom: 24 },
                textbox_rect_yes_no: Rect { left: 152, top: 48, right: 244, bottom: 80 },
                textbox_rect_cursor: Rect { left: 112, top: 88, right: 128, bottom: 104 },
            },
            font_path: "builtin/builtin_font.fnt".to_owned(),
                organya_paths: vec![
                "/org/".to_owned(), // NXEngine
                "/base/Org/".to_owned(), // CS+
                "/Resource/ORG/".to_owned(), // CSE2E
            ],
        }
    }

    /// The constant patches of the enhanced port: three texture sizes are
    /// overwritten in place and the font path changes; the fractional font
    /// metrics are the rendering layer's. Every update is an overwrite, so
    /// applying the patches twice leaves the same state as applying them
    /// once (see [`lemma_set_tex_idempotent`]).
    pub fn apply_csplus_patches(&mut self)
        ensures
            final(self).is_cs_plus == true,
            final(self).font_path@ == "csfont.fnt"@,
            final(self).my_char == old(self).my_char,
            final(self).booster == old(self).booster,
            spec_caret_eq(final(self).caret, old(self).caret),
            final(self).world == old(self).world,
            final(self).npc == old(self).npc,
            final(self).textscript == old(self).textscript,
            final(self).organya_paths@ == old(self).organya_paths@,
            exists|t1: Seq<(String, (usize, usize))>, t2: Seq<(String, (usize, usize))>|
                #![trigger spec_set_tex_post(old(self).tex_sizes@, t1, "Caret"@, (320, 320)),
                    spec_set_tex_post(t1, t2, "MyChar"@, (200, 384))]
                spec_set_tex_post(old(self).tex_sizes@, t1, "Caret"@, (320, 320))
                    && spec_set_tex_post(t1, t2, "MyChar"@, (200, 384)) && spec_set_tex_post(
                    t2,
                    final(self).tex_sizes@,
                    "Npc/NpcRegu"@,
                    (320, 410),
                ),
    {
        self.is_cs_plus = true;
        set_tex(&mut self.tex_sizes, &"Caret".to_owned(), (320, 320));
        let ghost t1 = self.tex_sizes@;
        set_tex(&mut self.tex_sizes, &"MyChar".to_owned(), (200, 384));
        let ghost t2 = self.tex_sizes@;
        set_tex(&mut self.tex_sizes, &"Npc/NpcRegu".to_owned(), (320, 410));
        self.font_path = "csfont.fnt".to_owned();
        proof {
            assert(spec_set_tex_post(old(self).tex_sizes@, t1, "Caret"@, (320, 320))
                && spec_set_tex_post(t1, t2, "MyChar"@, (200, 384)) && spec_set_tex_post(
                t2,
                self.tex_sizes@,
                "Npc/NpcRegu"@,
                (320, 410),
            ));
        }
    }

    /// The console port changes nothing in these tables.
    pub fn apply_csplus_nx_patches(&mut self)
        ensures
            *final(self) == *old(self),
    {
    }
}

} // verus!
