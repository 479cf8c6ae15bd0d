use animosity::layout::{
    anim_file_name, file_root_from_file, image_name, is_anim_name, is_mainsd, layout,
    temp_file_path, tree_file, Layout, TreeFile,
};

#[test]
fn test_file_root_from_file() {
    let root = "a/b/c";
    assert_eq!(file_root_from_file("a/b/c/sd/mainsd.anim"), Some(root));
    assert_eq!(file_root_from_file("a/b/c/anim/main_000.anim"), Some(root));
    assert_eq!(file_root_from_file("a/b/c/hd2/anim/main_000.anim"), Some(root));
    assert_eq!(file_root_from_file("a/b/c/mainsd.anim"), None);
    assert_eq!(file_root_from_file("a/b/c/a/main_000.anim"), None);
}

#[test]
fn file_root_ignores_case_of_directories() {
    assert_eq!(file_root_from_file("r/SD/mainSD.anim"), Some("r"));
    assert_eq!(file_root_from_file("r/HD2/anim/main_012.anim"), Some("r"));
    assert_eq!(file_root_from_file("r/Anim/main_012.anim"), Some("r"));
}

#[test]
fn file_root_needs_a_directory_above() {
    assert_eq!(file_root_from_file("mainsd.anim"), None);
    assert_eq!(file_root_from_file(""), None);
    assert_eq!(file_root_from_file("sd/mainsd.anim"), Some(""));
}

#[test]
fn file_root_wants_the_sprite_file_pattern() {
    assert_eq!(file_root_from_file("r/anim/other_000.anim"), None);
    assert_eq!(file_root_from_file("r/anim/main_000.txt"), None);
    assert_eq!(file_root_from_file("r/anim/MAIN_000.anim"), None);
    assert_eq!(file_root_from_file("a/b/c/anim/main_xyz.anim"), None);
    assert_eq!(file_root_from_file("a/b/c/anim/main_00.anim"), None);
    assert_eq!(file_root_from_file("a/b/c/hd2/anim/main_.anim"), None);
}

#[test]
fn tree_file_tells_the_two_kinds_apart() {
    assert_eq!(tree_file("mainsd.anim", "sd"), Some(TreeFile::MainSd));
    assert_eq!(tree_file("MAINSD.ANIM", "Sd"), Some(TreeFile::MainSd));
    assert_eq!(tree_file("mainsd.anim", "anim"), None);
    assert_eq!(tree_file("main_001.anim", "anim"), Some(TreeFile::Anim));
    assert_eq!(tree_file("main_001.anim", "ANIM"), Some(TreeFile::Anim));
    assert_eq!(tree_file("main_001.anim", "sd"), None);
    assert_eq!(tree_file("main_1000.anim", "anim"), Some(TreeFile::Anim));
    assert_eq!(tree_file("main_.anim", "anim"), None);
    assert_eq!(tree_file("main_12.anim", "anim"), None);
    assert_eq!(tree_file("main_xyz.anim", "anim"), None);
    assert_eq!(tree_file("main_12a.anim", "anim"), None);
    assert_eq!(tree_file("main_٠٠٠.anim", "anim"), None);
    assert_eq!(tree_file("main.anim", "anim"), None);
    assert_eq!(tree_file("readme.txt", "anim"), None);
}

#[test]
fn is_mainsd_goes_by_the_file_name() {
    assert!(is_mainsd("mainsd.anim"));
    assert!(is_mainsd("x/y/MainSD.Anim"));
    assert!(!is_mainsd("x/y/main_000.anim"));
    assert!(!is_mainsd("x/mainsd.anim/other"));
    assert!(!is_mainsd(""));
}

#[test]
fn temp_file_path_prefixes_the_file_name() {
    assert_eq!(temp_file_path("a/b/main_000.anim"), "a/b/__temp__main_000.anim");
    assert_eq!(temp_file_path("mainSD.anim"), "__temp__mainSD.anim");
    assert_eq!(temp_file_path("r/SD/mainSD.anim"), "r/SD/__temp__mainSD.anim");
}

#[test]
fn image_name_has_three_digits_at_least() {
    assert_eq!(image_name(0), "#000");
    assert_eq!(image_name(7), "#007");
    assert_eq!(image_name(42), "#042");
    assert_eq!(image_name(999), "#999");
    assert_eq!(image_name(1000), "#1000");
    assert_eq!(image_name(u32::MAX), "#4294967295");
}

#[test]
fn anim_file_name_has_three_digits_at_least() {
    assert_eq!(anim_file_name(0), "main_000.anim");
    assert_eq!(anim_file_name(28), "main_028.anim");
    assert_eq!(anim_file_name(100), "main_100.anim");
    assert_eq!(anim_file_name(65535), "main_65535.anim");
}

#[test]
fn layout_of_a_tree_file() {
    assert_eq!(
        layout("r/anim/main_000.anim"),
        Layout::Tree { root: "r".to_string(), mainsd_path: "r/SD/mainSD.anim".to_string() }
    );
    assert_eq!(
        layout("r/q/HD2/anim/main_000.anim"),
        Layout::Tree { root: "r/q".to_string(), mainsd_path: "r/q/SD/mainSD.anim".to_string() }
    );
}

#[test]
fn layout_outside_a_tree() {
    assert_eq!(layout("r/mainsd.anim"), Layout::MainSd);
    assert_eq!(layout("r/main_000.anim"), Layout::SingleFile);
    assert_eq!(layout("r/other.anim"), Layout::SingleFile);
}

#[test]
fn sprite_file_names_have_three_digits_at_least() {
    assert!(is_anim_name("main_000.anim"));
    assert!(is_anim_name("main_999.anim"));
    assert!(is_anim_name("main_65535.anim"));
    assert!(!is_anim_name("main_99.anim"));
    assert!(!is_anim_name("main_.anim"));
    assert!(!is_anim_name("main_0x0.anim"));
    assert!(!is_anim_name("main_000.anim.bak"));
    assert!(!is_anim_name("xmain_000.anim"));
    assert!(!is_anim_name("main_-01.anim"));
    assert!(!is_anim_name(""));
    // Every name that the catalogue gives is one.
    for id in [0, 7, 42, 100, 998, 1000, u32::MAX] {
        assert!(is_anim_name(&anim_file_name(id)));
    }
}
