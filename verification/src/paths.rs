//! Locations below the launcher's configuration root.

use std::path::PathBuf;
use vstd::prelude::*;
use vstd::string::StringExecFns;

verus! {

/// `std::path::PathBuf`, carried through as an opaque value: the library never
/// looks inside one.
#[verifier::external_type_specification]
#[verifier::external_body]
pub struct ExPathBuf(std::path::PathBuf);

/// `PathBuf::clone`: the copy is the same path as the one it was made from.
pub assume_specification[ <PathBuf as Clone>::clone ](path: &PathBuf) -> (copy: PathBuf)
    ensures
        copy == *path,
;

/// A path written as a base directory followed by the names that are joined
/// onto it, in order.
#[derive(Debug, PartialEq, Eq)]
pub struct LauncherPath {
    pub base: PathBuf,
    pub segments: Vec<String>,
}

/// The mathematical value of a [`LauncherPath`].
pub struct LauncherPathView {
    pub base: PathBuf,
    pub segments: Seq<Seq<char>>,
}

/// The texts of a sequence of strings.
pub open spec fn texts(strings: Seq<String>) -> Seq<Seq<char>> {
    strings.map_values(|s: String| s@)
}

impl View for LauncherPath {
    type V = LauncherPathView;

    open spec fn view(&self) -> LauncherPathView {
        LauncherPathView { base: self.base, segments: texts(self.segments@) }
    }
}

impl LauncherPathView {
    /// The path with one more name joined onto it.
    pub open spec fn join(self, name: Seq<char>) -> LauncherPathView {
        LauncherPathView { base: self.base, segments: self.segments.push(name) }
    }
}

impl LauncherPath {
    /// The base directory itself.
    pub fn at(base: PathBuf) -> (path: LauncherPath)
        ensures
            path@ == (LauncherPathView { base, segments: Seq::empty() }),
    {
        let path = LauncherPath { base, segments: Vec::new() };
        assert(path@.segments =~= Seq::empty());
        path
    }

    /// A second copy of the path.
    pub fn duplicate(&self) -> (copy: LauncherPath)
        ensures
            copy@ == self@,
    {
        let mut segments: Vec<String> = Vec::new();
        let mut i: usize = 0;
        while i < self.segments.len()
            invariant
                i <= self.segments.len(),
                segments@.len() == i,
                forall|j: int| 0 <= j < i ==> segments@[j]@ == self.segments@[j]@,
            decreases self.segments.len() - i,
        {
            segments.push(self.segments[i].clone());
            i += 1;
        }
        let copy = LauncherPath { base: self.base.clone(), segments };
        assert(copy@.segments =~= self@.segments);
        copy
    }

    /// Joins `name` onto the path.
    pub fn join(self, name: &str) -> (path: LauncherPath)
        ensures
            path@ == self@.join(name@),
    {
        let mut segments = self.segments;
        segments.push(String::from_str(name));
        let path = LauncherPath { base: self.base, segments };
        assert(path@.segments =~= self@.segments.push(name@));
        path
    }
}

/// Name of the launcher's directory below the platform's configuration
/// directory.
pub open spec fn launcher_dir_name() -> Seq<char> {
    "XIVLauncher"@
}

/// The launcher's configuration root for a given platform configuration
/// directory.
pub open spec fn spec_xl_path(config_dir: Option<PathBuf>) -> Option<LauncherPathView> {
    match config_dir {
        Some(base) => Some(LauncherPathView { base, segments: seq![launcher_dir_name()] }),
        None => None,
    }
}

/// The platform's per-user configuration directory, as `dirs::config_dir`
/// reports it. The answer depends on the operating system and the process
/// environment, so nothing is promised about it.
#[verifier::external_body]
pub(crate) fn config_dir() -> (dir: Option<PathBuf>) {
    dirs::config_dir()
}

/// Views an optional path.
pub open spec fn view_of(path: Option<LauncherPath>) -> Option<LauncherPathView> {
    match path {
        Some(p) => Some(p@),
        None => None,
    }
}

/// The launcher's configuration root below `config_dir`, if there is one.
pub fn xl_path_in(config_dir: Option<PathBuf>) -> (root: Option<LauncherPath>)
    ensures
        view_of(root) == spec_xl_path(config_dir),
{
    match config_dir {
        Some(base) => Some(LauncherPath::at(base).join("XIVLauncher")),
        None => None,
    }
}

/// The launcher's configuration root on this machine: `XIVLauncher` below the
/// platform's configuration directory. `None` when the platform reports no
/// such directory.
pub fn xl_path() -> (root: Option<LauncherPath>)
    ensures
        root matches Some(path) ==> path@.segments == seq![launcher_dir_name()],
{
    xl_path_in(config_dir())
}

/// Name of the launcher's own configuration file.
pub open spec fn dalamud_config_name() -> Seq<char> {
    "dalamudConfig.json"@
}

/// Where the launcher's configuration file lives for a given platform
/// configuration directory.
pub open spec fn spec_dalamud_config_path(config_dir: Option<PathBuf>) -> Option<LauncherPathView> {
    match spec_xl_path(config_dir) {
        Some(root) => Some(root.join(dalamud_config_name())),
        None => None,
    }
}

/// The launcher's configuration file below `config_dir`.
pub fn dalamud_config_path_in(config_dir: Option<PathBuf>) -> (file: Option<LauncherPath>)
    ensures
        view_of(file) == spec_dalamud_config_path(config_dir),
{
    match xl_path_in(config_dir) {
        Some(root) => Some(root.join("dalamudConfig.json")),
        None => None,
    }
}

/// The launcher's configuration file on this machine:
/// `XIVLauncher/dalamudConfig.json` below the platform's configuration
/// directory.
pub fn dalamud_config_path() -> (file: Option<LauncherPath>)
    ensures
        file matches Some(path) ==> path@.segments == seq![
            launcher_dir_name(),
            dalamud_config_name(),
        ],
{
    dalamud_config_path_in(config_dir())
}

/// Name of the directory that holds one configuration file per plugin.
pub open spec fn plugin_configs_dir_name() -> Seq<char> {
    "pluginConfigs"@
}

/// Name of the JSON file that belongs to a plugin: its internal name followed
/// by `.json`. A plugin's manifest, inside an archive and in its install
/// directory, and its configuration file all carry this name.
pub open spec fn json_file_name(internal_name: Seq<char>) -> Seq<char> {
    internal_name + ".json"@
}

/// The JSON file name of the plugin `internal_name`.
pub fn manifest_file_name(internal_name: &str) -> (name: String)
    ensures
        name@ == json_file_name(internal_name@),
{
    String::from_str(internal_name).concat(".json")
}

/// Where a plugin's configuration file lives for a given platform
/// configuration directory.
pub open spec fn spec_plugin_config_path(
    config_dir: Option<PathBuf>,
    internal_name: Seq<char>,
) -> Option<LauncherPathView> {
    match spec_xl_path(config_dir) {
        Some(root) => Some(
            root.join(plugin_configs_dir_name()).join(json_file_name(internal_name)),
        ),
        None => None,
    }
}

/// The configuration file of the plugin `internal_name` below `config_dir`.
pub fn plugin_config_path_in(config_dir: Option<PathBuf>, internal_name: &str) -> (file: Option<
    LauncherPath,
>)
    ensures
        view_of(file) == spec_plugin_config_path(config_dir, internal_name@),
{
    match xl_path_in(config_dir) {
        Some(root) => {
            let name = manifest_file_name(internal_name);
            Some(root.join("pluginConfigs").join(name.as_str()))
        },
        None => None,
    }
}

/// The configuration file of the plugin `internal_name` on this machine:
/// `XIVLauncher/pluginConfigs/<internal_name>.json` below the platform's
/// configuration directory.
pub fn plugin_config_path(internal_name: &str) -> (file: Option<LauncherPath>)
    ensures
        file matches Some(path) ==> path@.segments == seq![
            launcher_dir_name(),
            plugin_configs_dir_name(),
            json_file_name(internal_name@),
        ],
{
    plugin_config_path_in(config_dir(), internal_name)
}

/// Name of the directory that holds the installed plugins.
pub open spec fn installed_plugins_dir_name() -> Seq<char> {
    "installedPlugins"@
}

/// The install directory of one version of one plugin, below the launcher's
/// configuration root.
pub open spec fn spec_install_dir(
    root: LauncherPathView,
    internal_name: Seq<char>,
    version: Seq<char>,
) -> LauncherPathView {
    root.join(installed_plugins_dir_name()).join(internal_name).join(version)
}

/// The install directory `installedPlugins/<internal_name>/<version>` below
/// the configuration root `root`.
pub fn install_dir(root: LauncherPath, internal_name: &str, version: &str) -> (dir: LauncherPath)
    ensures
        dir@ == spec_install_dir(root@, internal_name@, version@),
{
    root.join("installedPlugins").join(internal_name).join(version)
}

/// Where the manifest of the plugin `internal_name` lives inside its install
/// directory `dir`.
pub fn manifest_path(dir: LauncherPath, internal_name: &str) -> (file: LauncherPath)
    ensures
        file@ == dir@.join(json_file_name(internal_name@)),
{
    let name = manifest_file_name(internal_name);
    dir.join(name.as_str())
}

} // verus!
