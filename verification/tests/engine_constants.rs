use archipelago_sync::engine_constants::{ControlMode, EngineConstants, Rect};

#[test]
fn defaults_hold_the_freeware_values() {
    let c = EngineConstants::defaults();
    assert!(!c.is_cs_plus);
    assert_eq!(c.my_char.life, 3);
    assert_eq!(c.my_char.max_life, 3);
    assert!(matches!(c.my_char.control_mode, ControlMode::Normal));
    assert_eq!(c.my_char.air_physics.max_dash, 0x32c);
    assert_eq!(c.my_char.air_physics.jump, 0x500);
    assert_eq!(c.my_char.water_physics.max_dash, 0x196);
    assert_eq!(c.booster.fuel, 50);
    assert_eq!(c.booster.b2_0_up, -0x5ff);
    assert_eq!(c.npc.n021_chest_open, Rect { left: 224, top: 40, right: 240, bottom: 48 });
    assert_eq!(
        c.npc.n032_life_capsule[0],
        Rect { left: 32, top: 96, right: 48, bottom: 112 }
    );
    assert_eq!(c.font_path, "builtin/builtin_font.fnt");
    assert_eq!(c.organya_paths.len(), 3);
    assert_eq!(c.organya_paths[0], "/org/");
    assert_eq!(c.tex_size(&"MyChar".to_owned()), Some((200, 64)));
    assert_eq!(c.tex_size(&"Npc/NpcSand".to_owned()), Some((320, 176)));
}

#[test]
fn csplus_patches_change_textures_and_font() {
    let mut c = EngineConstants::defaults();
    c.apply_csplus_patches();
    assert!(c.is_cs_plus);
    assert_eq!(c.font_path, "csfont.fnt");
    assert_eq!(c.tex_size(&"Caret".to_owned()), Some((320, 320)));
    assert_eq!(c.tex_size(&"MyChar".to_owned()), Some((200, 384)));
    assert_eq!(c.tex_size(&"Npc/NpcRegu".to_owned()), Some((320, 410)));
    // Untouched tables keep their values.
    assert_eq!(c.my_char.life, 3);
    assert_eq!(c.tex_size(&"Npc/NpcSand".to_owned()), Some((320, 176)));
}

#[test]
fn nx_patches_change_nothing_here() {
    let mut c = EngineConstants::defaults();
    c.apply_csplus_nx_patches();
    assert!(!c.is_cs_plus);
    assert_eq!(c.font_path, "builtin/builtin_font.fnt");
}

#[test]
fn csplus_patches_are_idempotent() {
    let mut once = EngineConstants::defaults();
    once.apply_csplus_patches();
    let mut twice = EngineConstants::defaults();
    twice.apply_csplus_patches();
    twice.apply_csplus_patches();
    assert_eq!(twice.is_cs_plus, once.is_cs_plus);
    assert_eq!(twice.font_path, once.font_path);
    assert_eq!(twice.tex_sizes, once.tex_sizes);
}

#[test]
fn unknown_texture_has_no_size() {
    let c = EngineConstants::defaults();
    assert_eq!(c.tex_size(&"NoSuchSheet".to_owned()), None);
}

#[test]
fn clones_copy_every_table() {
    let c = EngineConstants::defaults();
    let d = c.clone();
    assert_eq!(d.my_char.life, c.my_char.life);
    assert_eq!(d.caret.offsets, c.caret.offsets);
    assert_eq!(d.caret.bubble_left_rects, c.caret.bubble_left_rects);
    assert_eq!(d.caret.exhaust_rects, c.caret.exhaust_rects);
    assert_eq!(d.font_path, c.font_path);
    assert_eq!(d.organya_paths, c.organya_paths);
    assert_eq!(d.tex_sizes.len(), c.tex_sizes.len());
}
