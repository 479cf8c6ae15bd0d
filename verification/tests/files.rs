use animosity::anim::{
    Anim, Frame, MainSd, SpriteData, SpriteValues, TexChanges, Texture, ValuesOrRef,
};
use animosity::edit::{Edit, EditValues};
use animosity::error::Error;
use animosity::files::{separate_file_path, AnimFiles, Files, SpriteFiles, DEFAULT_SPRITE_COUNT};
use animosity::view::{File, FileLocation, FormatSource, TextureSource};
use animosity::save::next_rename;
use animosity::{anim, SpriteType};

fn values(n: u16) -> SpriteValues {
    SpriteValues { unk2: n, width: 10 * n, height: 20 * n }
}

fn frame(n: u16) -> Frame {
    Frame { tex_x: n, tex_y: n + 1, x_off: -1, y_off: 2, width: 8, height: 9, unknown: 0 }
}

fn texture(n: u16) -> Texture {
    Texture { offset: 100 * n as u32, size: 64, width: 16 * n, height: 32 * n }
}

fn data(n: u16) -> SpriteData {
    SpriteData {
        values: values(n),
        frames: vec![frame(n), frame(n + 100)],
        textures: vec![Some(texture(n)), None],
    }
}

fn layers() -> Vec<String> {
    vec!["diffuse".to_string(), "teamcolor".to_string()]
}

/// Slot 0 and 1 own data, slot 2 refers to 1, slot 3 to 2, slot 4 to itself.
fn mainsd() -> MainSd {
    MainSd {
        sprites: vec![
            anim::SpriteType::Data(data(1)),
            anim::SpriteType::Data(data(2)),
            anim::SpriteType::Ref(1),
            anim::SpriteType::Ref(2),
            anim::SpriteType::Ref(4),
        ],
        layer_names: layers(),
    }
}

fn hd_anim(n: u16) -> Anim {
    Anim {
        values: values(n),
        frames: vec![frame(n)],
        textures: vec![Some(texture(n))],
        layer_names: vec!["hd".to_string()],
    }
}

fn tree() -> Files {
    Files::init("root/SD/mainSD.anim", Some(mainsd())).unwrap()
}

fn tex_changes(n: u16) -> TexChanges {
    TexChanges {
        frames: vec![frame(n), frame(n + 1), frame(n + 2)],
        textures: vec![Some((texture(n), vec![1, 2, 3])), None],
    }
}

#[test]
fn empty_session_has_nothing() {
    let files = Files::empty();
    assert!(files.sprites().is_empty());
    assert!(files.mainsd().is_none());
    assert!(files.root_path().is_none());
    assert!(!files.has_changes());
    assert!(files.file(0, SpriteType::Sd).unwrap().is_none());
    assert!(files.file(0, SpriteType::Hd).unwrap().is_none());
}

#[test]
fn init_in_a_tree_lists_a_file_set_per_sprite() {
    let files = tree();
    assert_eq!(files.root_path(), Some("root"));
    assert_eq!(files.sprites().len(), 5);
    assert_eq!(
        files.sprites()[3],
        SpriteFiles::AnimSet(AnimFiles {
            image_id: 3,
            hd_filename: "root/anim/main_003.anim".to_string(),
            hd2_filename: "root/HD2/anim/main_003.anim".to_string(),
            name: "#003".to_string(),
        })
    );
    assert_eq!(files.mainsd(), Some(&mainsd()));
    assert!(!files.has_changes());
}

#[test]
fn init_in_a_tree_without_container_guesses_the_sprites() {
    let files = Files::init("root/anim/main_005.anim", None).unwrap();
    assert_eq!(files.root_path(), Some("root"));
    assert_eq!(DEFAULT_SPRITE_COUNT, 999);
    assert_eq!(files.sprites().len(), 999);
    assert!(files.mainsd().is_none());
    assert_eq!(
        files.sprites()[998],
        SpriteFiles::AnimSet(AnimFiles {
            image_id: 998,
            hd_filename: "root/anim/main_998.anim".to_string(),
            hd2_filename: "root/HD2/anim/main_998.anim".to_string(),
            name: "#998".to_string(),
        })
    );
    assert!(files.file(0, SpriteType::Sd).unwrap().is_none());
}

#[test]
fn init_on_a_container_alone_lists_its_sprites() {
    let files = Files::init("some/mainsd.anim", Some(mainsd())).unwrap();
    assert_eq!(files.root_path(), Some("some/mainsd.anim"));
    assert_eq!(files.sprites().len(), 5);
    assert_eq!(
        files.sprites()[4],
        SpriteFiles::MainSdOnly { image_id: 4, name: "#004".to_string() }
    );
    assert_eq!(files.mainsd(), Some(&mainsd()));
    assert_eq!(separate_file_path(files.sprites(), 4, SpriteType::Hd), None);
}

#[test]
fn init_on_a_container_alone_needs_the_container() {
    assert_eq!(Files::init("some/mainsd.anim", None).err(), Some(Error::NoMainSd));
}

#[test]
fn init_on_any_other_file_lists_that_file() {
    let files = Files::init("some/unit.anim", Some(mainsd())).unwrap();
    assert_eq!(files.root_path(), Some("some/unit.anim"));
    assert_eq!(files.sprites(), &[SpriteFiles::SingleFile("some/unit.anim".to_string())]);
    assert!(files.mainsd().is_none());
}

#[test]
fn separate_file_path_picks_the_variant() {
    let files = tree();
    assert_eq!(
        separate_file_path(files.sprites(), 1, SpriteType::Hd),
        Some(&"root/anim/main_001.anim".to_string())
    );
    assert_eq!(
        separate_file_path(files.sprites(), 1, SpriteType::Hd2),
        Some(&"root/HD2/anim/main_001.anim".to_string())
    );
    assert_eq!(separate_file_path(files.sprites(), 5, SpriteType::Hd), None);
}

#[test]
fn hd_containers_are_opened_once() {
    let mut files = tree();
    assert!(files.location(1, SpriteType::Hd).is_none());
    assert_eq!(
        files.path_to_open(1, SpriteType::Hd),
        Some(&"root/anim/main_001.anim".to_string())
    );
    assert_eq!(files.path_to_open(1, SpriteType::Sd), None);
    assert_eq!(files.path_to_open(7, SpriteType::Hd), None);
    assert!(files.insert_opened(hd_anim(7), 1, SpriteType::Hd));
    assert_eq!(files.path_to_open(1, SpriteType::Hd), None);
    // A second container for the same key is not taken.
    assert!(!files.insert_opened(hd_anim(8), 1, SpriteType::Hd));
    assert!(!files.insert_opened(hd_anim(8), 1, SpriteType::Sd));
    assert!(!files.insert_opened(hd_anim(8), 9, SpriteType::Hd));
    let file = files.file(1, SpriteType::Hd).unwrap().unwrap();
    assert_eq!(file.sprite_values(), Some(values(7)));
    assert!(files.file(1, SpriteType::Hd2).unwrap().is_none());
    files.close_opened();
    assert!(files.file(1, SpriteType::Hd).unwrap().is_none());
}

#[test]
fn location_reads_the_original() {
    let mut files = tree();
    files.insert_opened(hd_anim(7), 0, SpriteType::Hd2);
    let sd = files.location(0, SpriteType::Sd).unwrap();
    assert_eq!(sd.values_or_ref(), Some(ValuesOrRef::Values(values(1))));
    assert_eq!(sd.sprite_values(), Some(values(1)));
    assert_eq!(sd.frames(), Some(&[frame(1), frame(101)][..]));
    assert_eq!(sd.texture_sizes(), Some(&[Some(texture(1)), None][..]));
    assert_eq!(sd.image_ref(), None);
    assert_eq!(sd.layer_names(), &layers()[..]);
    let hd2 = files.location(0, SpriteType::Hd2).unwrap();
    assert!(matches!(hd2, FileLocation::Separate(_)));
    assert_eq!(hd2.values_or_ref(), Some(ValuesOrRef::Values(values(7))));
    assert_eq!(hd2.frames(), Some(&[frame(7)][..]));
    assert_eq!(hd2.image_ref(), None);
    let past = files.location(77, SpriteType::Sd).unwrap();
    assert_eq!(past.values_or_ref(), None);
    assert_eq!(past.sprite_values(), None);
    assert_eq!(past.frames(), None);
    assert_eq!(past.image_ref(), None);
}

#[test]
fn unedited_view_equals_the_original() {
    let mut files = tree();
    files.insert_opened(hd_anim(7), 0, SpriteType::Hd);
    for (sprite, ty) in [(0, SpriteType::Sd), (2, SpriteType::Sd), (0, SpriteType::Hd)] {
        let location = files.location(sprite, ty).unwrap();
        let file = files.file(sprite, ty).unwrap().unwrap();
        assert_eq!(file.sprite_values(), location.sprite_values());
        assert_eq!(file.frames(), location.frames());
        assert_eq!(file.image_ref(), location.image_ref());
        assert_eq!(file.layer_names(), location.layer_names());
        for layer in 0..3 {
            let original = location.texture_sizes().and_then(|t| t.get(layer).copied().flatten());
            assert_eq!(file.texture_size(layer), original);
        }
    }
}

#[test]
fn original_reference_is_followed_once() {
    let files = tree();
    // Slot 2 refers to slot 1, which owns data.
    let file = files.file(2, SpriteType::Sd).unwrap().unwrap();
    assert_eq!(file.image_ref(), Some(1));
    assert_eq!(file.sprite_values(), Some(values(2)));
    assert_eq!(file.frames(), Some(&[frame(2), frame(102)][..]));
    assert_eq!(file.texture_size(0), Some(texture(2)));
    // Slot 3 refers to slot 2, which is a reference itself.
    let file = files.file(3, SpriteType::Sd).unwrap().unwrap();
    assert_eq!(file.image_ref(), Some(2));
    assert_eq!(file.sprite_values(), None);
    assert_eq!(file.frames(), None);
    assert_eq!(file.texture_size(0), None);
    // Slot 4 refers to itself.
    let file = files.file(4, SpriteType::Sd).unwrap().unwrap();
    assert_eq!(file.image_ref(), Some(4));
    assert_eq!(file.sprite_values(), None);
    assert_eq!(file.frames(), None);
}

#[test]
fn container_follows_a_reference_once() {
    let m = mainsd();
    assert_eq!(m.image_ref(2), Some(1));
    assert_eq!(m.sprite_data(2), Some(&data(2)));
    assert_eq!(m.own_data(2), None);
    assert_eq!(m.sprite_data(3), None);
    assert_eq!(m.sprite_data(4), None);
    assert_eq!(m.sprite_data(5), None);
    assert_eq!(m.values_or_ref(3), Some(ValuesOrRef::Ref(2)));
    assert_eq!(m.values_or_ref(5), None);
    assert_eq!(m.sprites().len(), 5);
    assert_eq!(m.layer_names(), &layers()[..]);
}

#[test]
fn set_ref_img_to_the_original_target_leaves_no_edit() {
    let mut files = tree();
    files.set_ref_img(2, SpriteType::Sd, 1);
    assert!(!files.has_changes());
    assert_eq!(files.edit(2, SpriteType::Sd), None);
}

#[test]
fn set_ref_img_stores_one_reference_and_the_view_shows_it() {
    let mut files = tree();
    files.set_ref_img(2, SpriteType::Sd, 0);
    assert!(files.has_changes());
    assert_eq!(files.edit(2, SpriteType::Sd), Some(&Edit::Ref(0)));
    let file = files.file(2, SpriteType::Sd).unwrap().unwrap();
    assert_eq!(file.image_ref(), Some(0));
    assert_eq!(file.sprite_values(), Some(values(1)));
    assert_eq!(file.frames(), Some(&[frame(1), frame(101)][..]));
    assert_eq!(file.texture_size(0), Some(texture(1)));
    assert_eq!(file.texture_size(1), None);
    // Back to the original target: the edit goes.
    files.set_ref_img(2, SpriteType::Sd, 1);
    assert!(!files.has_changes());
    // A sprite that owns its data takes a reference too.
    files.set_ref_img(0, SpriteType::Sd, 1);
    assert_eq!(files.edit(0, SpriteType::Sd), Some(&Edit::Ref(1)));
    assert_eq!(files.file(0, SpriteType::Sd).unwrap().unwrap().image_ref(), Some(1));
}

#[test]
fn setters_ignore_what_cannot_be_resolved() {
    let mut files = tree();
    files.set_ref_img(0, SpriteType::Hd, 1);
    files.set_ref_enabled(77, SpriteType::Sd, true);
    files.set_tex_changes(77, SpriteType::Sd, tex_changes(1));
    files.set_tex_changes(0, SpriteType::Hd2, tex_changes(1));
    files.set_values(77, SpriteType::Sd, values(9));
    files.update_file(0, SpriteType::Hd, |_| panic!("not to be called"));
    assert!(!files.has_changes());
}

#[test]
fn set_ref_enabled_switches_between_reference_and_values() {
    let mut files = tree();
    files.set_ref_enabled(0, SpriteType::Sd, true);
    assert_eq!(files.edit(0, SpriteType::Sd), Some(&Edit::Ref(0)));
    files.set_ref_enabled(0, SpriteType::Sd, false);
    assert!(!files.has_changes());

    files.set_ref_enabled(2, SpriteType::Sd, false);
    assert_eq!(
        files.edit(2, SpriteType::Sd),
        Some(&Edit::Values(EditValues {
            values: SpriteValues { unk2: 0xffff, width: 0, height: 0 },
            tex_changes: None,
        }))
    );
    let file = files.file(2, SpriteType::Sd).unwrap().unwrap();
    assert_eq!(file.image_ref(), None);
    assert_eq!(file.sprite_values(), Some(SpriteValues { unk2: 0xffff, width: 0, height: 0 }));
    files.set_ref_enabled(2, SpriteType::Sd, true);
    assert!(!files.has_changes());
}

#[test]
fn set_ref_enabled_is_for_sd_only() {
    let mut files = tree();
    files.insert_opened(hd_anim(7), 0, SpriteType::Hd);
    files.set_ref_enabled(0, SpriteType::Hd, true);
    assert!(!files.has_changes());
}

#[test]
fn set_ref_enabled_to_the_original_drops_any_edit() {
    let mut files = tree();
    files.set_ref_img(2, SpriteType::Sd, 0);
    files.set_ref_enabled(2, SpriteType::Sd, true);
    assert!(!files.has_changes());
    files.set_values(0, SpriteType::Sd, values(9));
    files.set_ref_enabled(0, SpriteType::Sd, false);
    assert!(!files.has_changes());
}

#[test]
fn set_values_and_back_leaves_no_edit() {
    let mut files = tree();
    files.set_values(0, SpriteType::Sd, values(9));
    assert!(files.has_changes());
    assert_eq!(
        files.edit(0, SpriteType::Sd),
        Some(&Edit::Values(EditValues { values: values(9), tex_changes: None }))
    );
    assert_eq!(files.file(0, SpriteType::Sd).unwrap().unwrap().sprite_values(), Some(values(9)));
    files.set_values(0, SpriteType::Sd, values(1));
    assert!(!files.has_changes());
    assert_eq!(files.edit(0, SpriteType::Sd), None);
}

#[test]
fn update_file_changes_one_field() {
    let mut files = tree();
    files.insert_opened(hd_anim(7), 1, SpriteType::Hd);
    files.update_file(1, SpriteType::Hd, |mut v| {
        v.width = 500;
        v
    });
    assert_eq!(
        files.edit(1, SpriteType::Hd),
        Some(&Edit::Values(EditValues {
            values: SpriteValues { unk2: 7, width: 500, height: 140 },
            tex_changes: None,
        }))
    );
    assert_eq!(files.editable_values(1, SpriteType::Hd), Some(SpriteValues { unk2: 7, width: 500, height: 140 }));
    files.update_file(1, SpriteType::Hd, |mut v| {
        v.width = 70;
        v
    });
    assert!(!files.has_changes());
}

#[test]
fn update_file_leaves_a_reference_alone() {
    let mut files = tree();
    files.update_file(2, SpriteType::Sd, |_| panic!("not to be called"));
    assert!(!files.has_changes());
    files.set_ref_img(0, SpriteType::Sd, 1);
    files.update_file(0, SpriteType::Sd, |_| panic!("not to be called"));
    assert_eq!(files.edit(0, SpriteType::Sd), Some(&Edit::Ref(1)));
    assert_eq!(files.editable_values(0, SpriteType::Sd), None);
    files.set_values(0, SpriteType::Sd, values(9));
    assert_eq!(files.edit(0, SpriteType::Sd), Some(&Edit::Ref(1)));
}

#[test]
fn set_tex_changes_seeds_the_values_from_the_original() {
    let mut files = tree();
    files.set_tex_changes(0, SpriteType::Sd, tex_changes(5));
    assert_eq!(
        files.edit(0, SpriteType::Sd),
        Some(&Edit::Values(EditValues { values: values(1), tex_changes: Some(tex_changes(5)) }))
    );
    let file = files.file(0, SpriteType::Sd).unwrap().unwrap();
    assert_eq!(file.sprite_values(), Some(values(1)));
    assert_eq!(file.frames(), Some(&[frame(5), frame(6), frame(7)][..]));
    assert_eq!(file.texture_size(0), Some(texture(5)));
    assert_eq!(file.texture_size(1), None);
    assert_eq!(file.texture_size(2), None);
    assert_eq!(file.layer_names(), &layers()[..]);
    // An edit with a texture replacement stays when the values go back.
    files.set_values(0, SpriteType::Sd, values(1));
    assert!(files.has_changes());
    // A second replacement takes the place of the first.
    files.set_tex_changes(0, SpriteType::Sd, tex_changes(8));
    assert_eq!(
        files.edit(0, SpriteType::Sd),
        Some(&Edit::Values(EditValues { values: values(1), tex_changes: Some(tex_changes(8)) }))
    );
}

#[test]
fn set_tex_changes_on_a_reference_changes_nothing() {
    let mut files = tree();
    files.set_ref_img(0, SpriteType::Sd, 1);
    files.set_tex_changes(0, SpriteType::Sd, tex_changes(5));
    assert_eq!(files.edit(0, SpriteType::Sd), Some(&Edit::Ref(1)));
    // A sprite whose original is a reference gets no edit either.
    files.set_tex_changes(2, SpriteType::Sd, tex_changes(5));
    assert_eq!(files.edit(2, SpriteType::Sd), None);
}

#[test]
fn view_through_a_reference_shows_the_edit_of_the_target() {
    let mut files = tree();
    files.set_tex_changes(1, SpriteType::Sd, tex_changes(5));
    files.set_values(1, SpriteType::Sd, values(9));
    // Slot 2 refers to slot 1 by its original.
    let file = files.file(2, SpriteType::Sd).unwrap().unwrap();
    assert_eq!(file.image_ref(), Some(1));
    assert_eq!(file.sprite_values(), Some(values(9)));
    assert_eq!(file.frames(), Some(&[frame(5), frame(6), frame(7)][..]));
    assert_eq!(file.texture_size(0), Some(texture(5)));
    // Slot 0 refers to slot 1 by an edit.
    files.set_ref_img(0, SpriteType::Sd, 1);
    let file = files.file(0, SpriteType::Sd).unwrap().unwrap();
    assert_eq!(file.image_ref(), Some(1));
    assert_eq!(file.sprite_values(), Some(values(9)));
    assert_eq!(file.frames(), Some(&[frame(5), frame(6), frame(7)][..]));
}

#[test]
fn view_of_an_edited_reference_to_a_reference_ends_there() {
    let mut files = tree();
    files.set_ref_img(0, SpriteType::Sd, 2);
    let file = files.file(0, SpriteType::Sd).unwrap().unwrap();
    assert_eq!(file.image_ref(), Some(2));
    // Slot 2 owns nothing, and nothing of the sprite's own slot is shown.
    assert_eq!(file.sprite_values(), None);
    assert_eq!(file.frames(), None);
    assert_eq!(file.texture_size(0), None);
    assert_eq!(file.texture(0), Err(Error::NoSprite { sprite: 2 }));
    // A reference past the last slot is shown, not followed.
    files.set_ref_img(0, SpriteType::Sd, 4000);
    let file = files.file(0, SpriteType::Sd).unwrap().unwrap();
    assert_eq!(file.image_ref(), Some(4000));
    assert_eq!(file.texture(0), Err(Error::NoSprite { sprite: 4000 }));
    assert_eq!(file.texture_formats(), FormatSource::Nothing);
}

#[test]
fn texture_names_its_source() {
    let mut files = tree();
    files.insert_opened(hd_anim(7), 0, SpriteType::Hd);
    let file = files.file(0, SpriteType::Sd).unwrap().unwrap();
    assert_eq!(file.texture(0), Ok(TextureSource::MainSd(0, 0)));
    assert_eq!(file.texture(1), Err(Error::NoTexture { layer: 1 }));
    assert_eq!(file.texture(2), Err(Error::NoTexture { layer: 2 }));
    assert_eq!(file.texture_formats(), FormatSource::MainSd(0));
    // A slot that is a reference shows the pixels of its target.
    let file = files.file(2, SpriteType::Sd).unwrap().unwrap();
    assert_eq!(file.texture(0), Ok(TextureSource::MainSd(1, 0)));
    assert_eq!(file.texture_formats(), FormatSource::MainSd(1));
    let file = files.file(3, SpriteType::Sd).unwrap().unwrap();
    assert_eq!(file.texture(0), Err(Error::NoSprite { sprite: 2 }));
    assert_eq!(file.texture_formats(), FormatSource::Nothing);
    let file = files.file(4, SpriteType::Sd).unwrap().unwrap();
    assert_eq!(file.texture(0), Err(Error::NoSprite { sprite: 4 }));
    let file = files.file(0, SpriteType::Hd).unwrap().unwrap();
    assert_eq!(file.texture(0), Ok(TextureSource::Separate(0)));
    assert_eq!(file.texture(1), Err(Error::NoTexture { layer: 1 }));
    assert_eq!(file.texture_formats(), FormatSource::Separate);
    files.set_ref_img(0, SpriteType::Sd, 1);
    let file = files.file(0, SpriteType::Sd).unwrap().unwrap();
    assert_eq!(file.texture(0), Ok(TextureSource::MainSd(1, 0)));
    assert_eq!(file.texture(1), Err(Error::NoTexture { layer: 1 }));
    assert_eq!(file.texture_formats(), FormatSource::MainSd(1));
    files.set_tex_changes(1, SpriteType::Sd, tex_changes(5));
    let changes = tex_changes(5);
    let file = files.file(1, SpriteType::Sd).unwrap().unwrap();
    assert_eq!(file.texture(0), Ok(TextureSource::Edited(&texture(5), &vec![1, 2, 3])));
    assert_eq!(file.texture(1), Err(Error::NoTexture { layer: 1 }));
    assert_eq!(file.texture(2), Err(Error::NoTexture { layer: 2 }));
    assert_eq!(file.texture_formats(), FormatSource::Edited(&changes.textures));
}

#[test]
fn reference_edit_outside_sd_is_refused() {
    let mut files = tree();
    files.insert_opened(hd_anim(7), 0, SpriteType::Hd);
    files.set_ref_img(0, SpriteType::Hd, 1);
    assert_eq!(files.edit(0, SpriteType::Hd), Some(&Edit::Ref(1)));
    assert_eq!(
        files.file(0, SpriteType::Hd).err(),
        Some(Error::RefNotSd { sprite: 0, ty: SpriteType::Hd })
    );
    assert_eq!(
        files.write_separate(0, SpriteType::Hd).err(),
        Some(Error::RefNotSd { sprite: 0, ty: SpriteType::Hd })
    );
    assert_eq!(files.save().err(), Some(Error::RefNotSd { sprite: 0, ty: SpriteType::Hd }));
    // The refused save keeps the edits.
    assert!(files.has_changes());
}

#[test]
fn save_without_edits_writes_nothing() {
    let mut files = tree();
    files.insert_opened(hd_anim(7), 0, SpriteType::Hd);
    {
        let plan = files.save().unwrap();
        assert!(plan.separate.is_empty());
        assert!(plan.mainsd.is_none());
    }
    files.finish_save(true, None);
    assert_eq!(files.mainsd(), Some(&mainsd()));
    assert!(!files.has_changes());
    // The opened containers are closed by every save.
    assert!(files.location(0, SpriteType::Hd).is_none());
}

#[test]
fn save_plans_one_write_per_file() {
    let mut files = tree();
    files.insert_opened(hd_anim(7), 1, SpriteType::Hd);
    files.insert_opened(hd_anim(8), 3, SpriteType::Hd2);
    files.set_values(1, SpriteType::Hd, values(9));
    files.set_ref_img(0, SpriteType::Sd, 1);
    files.set_tex_changes(3, SpriteType::Hd2, tex_changes(5));
    files.set_tex_changes(1, SpriteType::Sd, tex_changes(6));
    let changes5 = tex_changes(5);
    let changes6 = tex_changes(6);
    {
        let plan = files.save().unwrap();
        assert_eq!(plan.separate.len(), 2);
        let w = &plan.separate[0];
        assert_eq!((w.sprite, w.ty, w.scale, w.values), (1, SpriteType::Hd, 4, values(9)));
        assert_eq!(w.path, "root/anim/main_001.anim");
        assert_eq!(w.temp_path(), "root/anim/__temp__main_001.anim");
        assert_eq!(w.tex_changes, None);
        let w = &plan.separate[1];
        assert_eq!((w.sprite, w.ty, w.scale, w.values), (3, SpriteType::Hd2, 2, values(8)));
        assert_eq!(w.path, "root/HD2/anim/main_003.anim");
        assert_eq!(w.temp_path(), "root/HD2/anim/__temp__main_003.anim");
        assert_eq!(w.tex_changes, Some(&changes5));
        let w = plan.mainsd.as_ref().unwrap();
        assert_eq!(w.path, "root/SD/mainSD.anim");
        assert_eq!(w.temp_path(), "root/SD/__temp__mainSD.anim");
        assert_eq!(w.sprite_count, 5);
        assert_eq!(w.layer_names, &layers());
        assert_eq!(
            w.data_changes,
            vec![(0, ValuesOrRef::Ref(1)), (1, ValuesOrRef::Values(values(2)))]
        );
        assert_eq!(w.tex_changes, vec![(1, &changes6)]);
    }
    // A failed commit keeps the edits.
    files.finish_save(false, None);
    assert!(files.has_changes());
    assert_eq!(files.edit(0, SpriteType::Sd), Some(&Edit::Ref(1)));
    files.finish_save(true, None);
    assert!(!files.has_changes());
}

#[test]
fn save_refuses_an_edit_without_a_file() {
    let mut files = Files::init("some/mainsd.anim", Some(mainsd())).unwrap();
    // No sprite of a container alone has a file of its own, so no HD edit
    // can come about; SD edits are planned as ever.
    files.set_values(0, SpriteType::Sd, values(9));
    let plan = files.save().unwrap();
    assert!(plan.separate.is_empty());
    let w = plan.mainsd.as_ref().unwrap();
    assert_eq!(w.path, "some/mainsd.anim");
    assert_eq!(w.data_changes, vec![(0, ValuesOrRef::Values(values(9)))]);
    assert!(w.tex_changes.is_empty());
}

#[test]
fn write_mainsd_needs_a_container() {
    let files = Files::init("some/unit.anim", None).unwrap();
    assert_eq!(files.write_mainsd().err(), Some(Error::NoMainSd));
    let files = tree();
    let w = files.write_mainsd().unwrap();
    assert_eq!(w.sprite_count, 5);
    assert!(w.data_changes.is_empty());
}

#[test]
fn write_separate_patches_an_opened_container() {
    let mut files = tree();
    assert_eq!(files.write_separate(1, SpriteType::Hd).err(), Some(Error::NoFile));
    // An SD sprite has no container of its own.
    assert_eq!(files.write_separate(1, SpriteType::Sd).err(), Some(Error::NoAnimFile));
    // A reference to a reference has no values.
    assert_eq!(files.write_separate(3, SpriteType::Sd).err(), Some(Error::NoSpriteValues));
    files.insert_opened(hd_anim(7), 1, SpriteType::Hd);
    files.insert_opened(hd_anim(8), 1, SpriteType::Hd2);
    let patch = files.write_separate(1, SpriteType::Hd).unwrap();
    assert_eq!((patch.scale, patch.values, patch.tex_changes), (4, values(7), None));
    assert_eq!(patch.layer_names, &["hd".to_string()][..]);
    files.set_tex_changes(1, SpriteType::Hd2, tex_changes(5));
    files.set_values(1, SpriteType::Hd2, values(9));
    let changes = tex_changes(5);
    let patch = files.write_separate(1, SpriteType::Hd2).unwrap();
    assert_eq!((patch.scale, patch.values, patch.tex_changes), (2, values(9), Some(&changes)));
}

#[test]
fn reference_survives_a_save_and_reload() {
    // Two sprites with data of their own, each with an HD and an HD2 file.
    let before = MainSd {
        sprites: vec![anim::SpriteType::Data(data(1)), anim::SpriteType::Data(data(2))],
        layer_names: layers(),
    };
    let mut files = Files::init("root/SD/mainSD.anim", Some(before)).unwrap();
    files.set_ref_enabled(0, SpriteType::Sd, true);
    files.set_ref_img(0, SpriteType::Sd, 1);
    {
        let plan = files.save().unwrap();
        // No HD or HD2 file is written.
        assert!(plan.separate.is_empty());
        let w = plan.mainsd.as_ref().unwrap();
        assert_eq!(w.sprite_count, 2);
        assert_eq!(w.data_changes, vec![(0, ValuesOrRef::Ref(1))]);
        assert!(w.tex_changes.is_empty());
    }
    // What the patched container reads as.
    let after = MainSd {
        sprites: vec![anim::SpriteType::Ref(1), anim::SpriteType::Data(data(2))],
        layer_names: layers(),
    };
    files.finish_save(true, Some(after.clone()));
    assert!(!files.has_changes());
    assert_eq!(files.mainsd(), Some(&after));
    let file = files.file(0, SpriteType::Sd).unwrap().unwrap();
    assert_eq!(file.image_ref(), Some(1));
    assert_eq!(file.sprite_values(), Some(values(2)));
    assert_eq!(file.frames(), Some(&[frame(2), frame(102)][..]));
    assert_eq!(file.texture_size(0), Some(texture(2)));
    assert_eq!(file.texture(0), Ok(TextureSource::MainSd(1, 0)));
    let file = files.file(1, SpriteType::Sd).unwrap().unwrap();
    assert_eq!(file.image_ref(), None);
    assert_eq!(file.sprite_values(), Some(values(2)));
    assert_eq!(file.frames(), Some(&[frame(2), frame(102)][..]));
}

#[test]
fn finish_save_takes_a_reloaded_container_only_in_place_of_one() {
    let mut files = Files::init("some/unit.anim", None).unwrap();
    files.finish_save(true, Some(mainsd()));
    assert!(files.mainsd().is_none());
}

#[test]
fn an_edit_that_is_changed_keeps_its_place() {
    let mut files = tree();
    files.insert_opened(hd_anim(7), 1, SpriteType::Hd);
    files.insert_opened(hd_anim(8), 3, SpriteType::Hd);
    files.set_values(1, SpriteType::Hd, values(9));
    files.set_values(3, SpriteType::Hd, values(9));
    files.set_values(1, SpriteType::Hd, values(10));
    files.set_tex_changes(1, SpriteType::Hd, tex_changes(5));
    {
        let plan = files.save().unwrap();
        let order: Vec<usize> = plan.separate.iter().map(|w| w.sprite).collect();
        assert_eq!(order, vec![1, 3]);
        assert_eq!(plan.separate[0].values, values(10));
    }
    // An edit that was dropped and comes again goes to the end.
    files.insert_opened(hd_anim(7), 1, SpriteType::Hd);
    files.insert_opened(hd_anim(8), 3, SpriteType::Hd);
    files.set_tex_changes(4, SpriteType::Sd, tex_changes(5));
    files.set_values(0, SpriteType::Sd, values(9));
    files.set_values(0, SpriteType::Sd, values(1));
    files.set_values(0, SpriteType::Sd, values(9));
    files.set_ref_img(2, SpriteType::Sd, 0);
    files.set_ref_img(2, SpriteType::Sd, 3);
    let plan = files.save().unwrap();
    let w = plan.mainsd.as_ref().unwrap();
    assert_eq!(
        w.data_changes,
        vec![(0, ValuesOrRef::Values(values(9))), (2, ValuesOrRef::Ref(3))]
    );
}

#[test]
fn a_file_of_its_own_cannot_refer_to_a_sprite() {
    let anim = hd_anim(7);
    let file = File {
        location: FileLocation::Separate(&anim),
        sprite_values: None,
        frames: None,
        textures: None,
        texture_sizes: None,
        image_ref: Some(Some(1)),
    };
    assert_eq!(file.texture(0), Err(Error::RefInSeparate));
    assert_eq!(file.texture_formats(), FormatSource::Nothing);
    assert_eq!(file.image_ref(), Some(1));
    assert!(file.refers());
    assert_eq!(file.sprite_values(), None);
    assert_eq!(file.frames(), None);
    assert_eq!(file.texture_size(0), None);
}

#[test]
fn view_through_a_pending_reference_shows_the_target() {
    let mut files = tree();
    // Slot 1 gets pending values without a texture replacement.
    files.set_values(1, SpriteType::Sd, values(9));
    files.set_ref_img(0, SpriteType::Sd, 1);
    let file = files.file(0, SpriteType::Sd).unwrap().unwrap();
    assert_eq!(file.image_ref(), Some(1));
    // The values are those of the target's edit, the frames and textures
    // those that the target's slot owns, not those of slot 0.
    assert_eq!(file.sprite_values(), Some(values(9)));
    assert_eq!(file.frames(), Some(&[frame(2), frame(102)][..]));
    assert_eq!(file.texture_size(0), Some(texture(2)));
    assert_eq!(file.texture_size(1), None);
    assert_eq!(file.texture(0), Ok(TextureSource::MainSd(1, 0)));
    // A texture replacement of the target overrules its slot.
    files.set_tex_changes(1, SpriteType::Sd, tex_changes(5));
    let file = files.file(0, SpriteType::Sd).unwrap().unwrap();
    assert_eq!(file.sprite_values(), Some(values(9)));
    assert_eq!(file.frames(), Some(&[frame(5), frame(6), frame(7)][..]));
    assert_eq!(file.texture_size(0), Some(texture(5)));
    assert_eq!(file.texture(0), Ok(TextureSource::Edited(&texture(5), &vec![1, 2, 3])));
    // A target whose own edit is a reference is shown by what its slot owns.
    let mut files = tree();
    files.set_ref_img(1, SpriteType::Sd, 0);
    files.set_ref_img(0, SpriteType::Sd, 1);
    let file = files.file(0, SpriteType::Sd).unwrap().unwrap();
    assert_eq!(file.sprite_values(), Some(values(2)));
    assert_eq!(file.frames(), Some(&[frame(2), frame(102)][..]));
}

#[test]
fn set_ref_img_takes_a_slot_past_the_last() {
    let mut files = tree();
    files.set_ref_img(77, SpriteType::Sd, 1);
    assert_eq!(files.edit(77, SpriteType::Sd), Some(&Edit::Ref(1)));
    {
        let file = files.file(77, SpriteType::Sd).unwrap().unwrap();
        assert_eq!(file.image_ref(), Some(1));
        assert_eq!(file.sprite_values(), Some(values(2)));
    }
    let plan = files.save().unwrap();
    assert_eq!(plan.mainsd.as_ref().unwrap().data_changes, vec![(77, ValuesOrRef::Ref(1))]);
    // Without a container nothing is stored.
    let mut files = Files::init("root/anim/main_005.anim", None).unwrap();
    files.set_ref_img(0, SpriteType::Sd, 1);
    assert!(!files.has_changes());
}

#[test]
fn renames_follow_the_plan() {
    let mut files = tree();
    files.insert_opened(hd_anim(7), 1, SpriteType::Hd);
    files.insert_opened(hd_anim(8), 3, SpriteType::Hd2);
    files.set_values(3, SpriteType::Hd2, values(9));
    files.set_values(0, SpriteType::Sd, values(9));
    files.set_values(1, SpriteType::Hd, values(9));
    {
        let plan = files.save().unwrap();
        assert_eq!(
            plan.renames(),
            vec![
                (
                    "root/HD2/anim/__temp__main_003.anim".to_string(),
                    "root/HD2/anim/main_003.anim".to_string()
                ),
                ("root/anim/__temp__main_001.anim".to_string(), "root/anim/main_001.anim".to_string()),
                ("root/SD/__temp__mainSD.anim".to_string(), "root/SD/mainSD.anim".to_string()),
            ]
        );
    }
    files.finish_save(true, None);
    let plan = files.save().unwrap();
    assert!(plan.renames().is_empty());
}

#[test]
fn next_rename_stops_at_the_first_failure() {
    assert_eq!(next_rename(3, 0, true), Some(0));
    assert_eq!(next_rename(3, 1, true), Some(1));
    assert_eq!(next_rename(3, 2, true), Some(2));
    assert_eq!(next_rename(3, 3, true), None);
    assert_eq!(next_rename(3, 1, false), None);
    assert_eq!(next_rename(0, 0, true), None);
}

#[test]
fn mainsd_path_is_where_the_container_came_from() {
    assert_eq!(tree().mainsd_path(), Some(&"root/SD/mainSD.anim".to_string()));
    let files = Files::init("some/mainsd.anim", Some(mainsd())).unwrap();
    assert_eq!(files.mainsd_path(), Some(&"some/mainsd.anim".to_string()));
    assert_eq!(Files::empty().mainsd_path(), None);
}
