use plugin_installer::paths::{
    dalamud_config_path, dalamud_config_path_in, install_dir, manifest_file_name, manifest_path,
    plugin_config_path, plugin_config_path_in, xl_path, xl_path_in, LauncherPath,
};
use std::path::PathBuf;

fn names(path: &LauncherPath) -> Vec<&str> {
    path.segments.iter().map(|s| s.as_str()).collect()
}

#[test]
fn launcher_root_sits_below_the_config_dir() {
    let root = xl_path_in(Some(PathBuf::from("/home/alice/.config"))).unwrap();
    assert_eq!(root.base, PathBuf::from("/home/alice/.config"));
    assert_eq!(names(&root), vec!["XIVLauncher"]);
}

#[test]
fn no_config_dir_means_no_paths() {
    assert_eq!(xl_path_in(None), None);
    assert_eq!(dalamud_config_path_in(None), None);
    assert_eq!(plugin_config_path_in(None, "foo"), None);
}

#[test]
fn dalamud_config_file_location() {
    let file = dalamud_config_path_in(Some(PathBuf::from("/cfg"))).unwrap();
    assert_eq!(file.base, PathBuf::from("/cfg"));
    assert_eq!(names(&file), vec!["XIVLauncher", "dalamudConfig.json"]);
}

#[test]
fn plugin_config_file_location() {
    let file = plugin_config_path_in(Some(PathBuf::from("/cfg")), "heliosphere").unwrap();
    assert_eq!(file.base, PathBuf::from("/cfg"));
    assert_eq!(
        names(&file),
        vec!["XIVLauncher", "pluginConfigs", "heliosphere.json"]
    );
}

#[test]
fn machine_paths_agree_with_the_platform_directory() {
    let platform = dirs::config_dir();
    assert_eq!(xl_path(), xl_path_in(platform.clone()));
    assert_eq!(dalamud_config_path(), dalamud_config_path_in(platform.clone()));
    assert_eq!(
        plugin_config_path("foo"),
        plugin_config_path_in(platform, "foo")
    );
}

#[test]
fn manifest_file_name_appends_json() {
    assert_eq!(manifest_file_name("foo"), "foo.json");
    assert_eq!(manifest_file_name(""), ".json");
    assert_eq!(manifest_file_name("a.b"), "a.b.json");
}

#[test]
fn install_dir_is_versioned() {
    let root = xl_path_in(Some(PathBuf::from("/cfg"))).unwrap();
    let dir = install_dir(root, "foo", "1.2.3");
    assert_eq!(
        names(&dir),
        vec!["XIVLauncher", "installedPlugins", "foo", "1.2.3"]
    );
    let copy = dir.duplicate();
    assert_eq!(copy, dir);
    let file = manifest_path(dir, "foo");
    assert_eq!(
        names(&file),
        vec!["XIVLauncher", "installedPlugins", "foo", "1.2.3", "foo.json"]
    );
}
