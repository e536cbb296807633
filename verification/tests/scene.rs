use tuxmix::scene::scenes_dir;
use tuxmix::error::Error;
use tuxmix::scene::{
    auto_scene_path, check_compatible, join_path, layout_file_name, scene_file_name,
    scene_name_of_file, snapshot_name, str_equal, written_by_other,
};

#[test]
fn scene_model_must_match_unless_blank() {
    assert!(check_compatible("Babyface Pro FS", "Babyface Pro FS").is_ok());
    assert!(check_compatible("", "Babyface Pro FS").is_ok());
    match check_compatible("Some Other RME Device", "Babyface Pro FS (mock)") {
        Err(e @ Error::SceneModelMismatch { .. }) => assert_eq!(
            e.message(),
            "Scene captured on 'Some Other RME Device' cannot be applied to 'Babyface Pro FS (mock)'"
        ),
        other => panic!("unexpected {other:?}"),
    }
}

#[test]
fn auto_scene_other_write_decision() {
    let ours = "{\"name\": \"ours\"}";
    let theirs = "{\"name\": \"theirs\"}";
    // No file yet: nothing written by the other interface.
    assert!(!written_by_other(None, None));
    assert!(!written_by_other(Some(ours), None));
    // We wrote, then the other interface overwrote: detected.
    assert!(written_by_other(Some(ours), Some(theirs)));
    // Disk still holds our write: not the other's.
    assert!(!written_by_other(Some(ours), Some(ours)));
    // Our last write unknown (restarted) but a file exists: the other's.
    assert!(written_by_other(None, Some(theirs)));
}

#[test]
fn scene_and_layout_file_names() {
    assert_eq!(scene_file_name("Mix 3"), "Mix 3.json");
    assert_eq!(scene_name_of_file("Mix 3.json"), Some("Mix 3"));
    assert_eq!(scene_name_of_file(".json"), Some(""));
    assert_eq!(scene_name_of_file("notes.txt"), None);
    assert_eq!(scene_name_of_file("json"), None);
    assert_eq!(layout_file_name(4), "Layout 4.json");
    assert_eq!(snapshot_name(7), "Mix 7");
}

#[test]
fn paths_join_with_one_separator() {
    assert_eq!(join_path("/home/u/scenes", "auto.json"), "/home/u/scenes/auto.json");
    assert_eq!(join_path("/home/u/scenes/", "auto.json"), "/home/u/scenes/auto.json");
    assert_eq!(join_path("", "auto.json"), "auto.json");
    assert_eq!(auto_scene_path("/s"), "/s/auto.json");
    assert!(str_equal("abc", "abc"));
    assert!(!str_equal("abc", "abd"));
}

#[test]
fn scenes_dir_lives_under_home_or_working_dir() {
    assert_eq!(scenes_dir(Some("/home/ann")), "/home/ann/.local/share/tuxmix/scenes");
    assert_eq!(scenes_dir(Some("/home/ann/")), "/home/ann/.local/share/tuxmix/scenes");
    assert_eq!(scenes_dir(None), "./.local/share/tuxmix/scenes");
}
