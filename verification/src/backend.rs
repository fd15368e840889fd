//! Backend-side data: account records, the launcher's directory layout,
//! filesystem-watch targets and events, and mod-metadata vocabulary.
//! Paths are carried as plain strings with `/` separators.

use vstd::prelude::*;
use vstd::string::*;
use crate::bridge::InstanceID;
use crate::models::MinecraftProfileResponse;

verus! {

/// A stored account: the profile name and the cached head icons.
#[derive(Clone, Debug)]
pub struct BackendAccount {
    pub username: String,
    pub head: Option<Vec<u8>>,
    pub head_32x: Option<Vec<u8>>,
    pub downloaded_head: bool,
}

impl BackendAccount {
    /// A fresh record for a profile: its name, no head image yet.
    pub fn new_from_profile(profile: &MinecraftProfileResponse) -> (r: Self)
        ensures
            r.username@ == profile.name@,
            r.head is None,
            r.head_32x is None,
            !r.downloaded_head,
    {
        BackendAccount {
            username: profile.name.clone(),
            head: None,
            head_32x: None,
            downloaded_head: false,
        }
    }
}

/// What a watched filesystem path stands for.
#[derive(Clone, Copy, Debug)]
pub enum WatchTarget {
    InstancesDir,
    InvalidInstanceDir,
    InstanceDir { id: InstanceID },
    InstanceDotMinecraftDir { id: InstanceID },
    InstanceWorldDir { id: InstanceID },
    InstanceSavesDir { id: InstanceID },
    ServersDat { id: InstanceID },
    InstanceModsDir { id: InstanceID },
}

/// A debounced filesystem event, reduced to what the backend acts on.
#[derive(Clone, Debug)]
pub enum FilesystemEvent {
    Change(String),
    Remove(String),
    Rename(String, String),
}

impl FilesystemEvent {
    /// The single path of a change or removal; a rename has none.
    pub fn change_or_remove_path(&self) -> (r: Option<&String>)
        ensures
            match self {
                FilesystemEvent::Change(p) => r == Some(p),
                FilesystemEvent::Remove(p) => r == Some(p),
                FilesystemEvent::Rename(..) => r is None,
            },
    {
        match self {
            FilesystemEvent::Change(path) => Some(path),
            FilesystemEvent::Remove(path) => Some(path),
            FilesystemEvent::Rename(..) => None,
        }
    }
}

/// `base` and `child` joined with a single separator.
pub open spec fn joined(base: Seq<char>, child: Seq<char>) -> Seq<char> {
    base + "/"@ + child
}

/// Join one path component onto a base path.
pub fn join_path(base: &str, child: &str) -> (r: String)
    ensures
        r@ == joined(base@, child@),
{
    let mut s = String::from_str(base);
    s.push('/');
    s.append(child);
    proof {
        reveal_strlit("/");
        assert(s@ =~= joined(base@, child@));
    }
    s
}

/// Every path the launcher uses, derived from its root directory.
#[derive(Clone, Debug)]
pub struct LauncherDirectories {
    pub instances_dir: String,
    pub metadata_dir: String,
    pub assets_root_dir: String,
    pub assets_index_dir: String,
    pub assets_objects_dir: String,
    pub virtual_legacy_assets_dir: String,
    pub libraries_dir: String,
    pub log_configs_dir: String,
    pub runtime_base_dir: String,
    pub content_library_dir: String,
    pub temp_dir: String,
    pub temp_natives_base_dir: String,
    pub accounts_json: String,
    pub accounts_json_backup: String,
}

impl LauncherDirectories {
    /// Lay out every directory under the launcher's root.
    pub fn new(launcher_dir: &str) -> (r: Self)
        ensures
            r.instances_dir@ == joined(launcher_dir@, "instances"@),
            r.metadata_dir@ == joined(launcher_dir@, "metadata"@),
            r.assets_root_dir@ == joined(launcher_dir@, "assets"@),
            r.assets_index_dir@ == joined(r.assets_root_dir@, "indexes"@),
            r.assets_objects_dir@ == joined(r.assets_root_dir@, "objects"@),
            r.virtual_legacy_assets_dir@ == joined(joined(r.assets_index_dir@, "virtual"@), "legacy"@),
            r.libraries_dir@ == joined(launcher_dir@, "libraries"@),
            r.log_configs_dir@ == joined(launcher_dir@, "logconfigs"@),
            r.runtime_base_dir@ == joined(launcher_dir@, "runtime"@),
            r.content_library_dir@ == joined(launcher_dir@, "contentlibrary"@),
            r.temp_dir@ == joined(launcher_dir@, "temp"@),
            r.temp_natives_base_dir@ == joined(r.temp_dir@, "natives"@),
            r.accounts_json@ == joined(launcher_dir@, "accounts.json"@),
            r.accounts_json_backup@ == joined(launcher_dir@, "accounts.json.old"@),
    {
        let instances_dir = join_path(launcher_dir, "instances");
        let metadata_dir = join_path(launcher_dir, "metadata");
        let assets_root_dir = join_path(launcher_dir, "assets");
        let assets_index_dir = join_path(assets_root_dir.as_str(), "indexes");
        let assets_objects_dir = join_path(assets_root_dir.as_str(), "objects");
        let virtual_half = join_path(assets_index_dir.as_str(), "virtual");
        let virtual_legacy_assets_dir = join_path(virtual_half.as_str(), "legacy");
        let libraries_dir = join_path(launcher_dir, "libraries");
        let log_configs_dir = join_path(launcher_dir, "logconfigs");
        let runtime_base_dir = join_path(launcher_dir, "runtime");
        let content_library_dir = join_path(launcher_dir, "contentlibrary");
        let temp_dir = join_path(launcher_dir, "temp");
        let temp_natives_base_dir = join_path(temp_dir.as_str(), "natives");
        let accounts_json = join_path(launcher_dir, "accounts.json");
        let accounts_json_backup = join_path(launcher_dir, "accounts.json.old");
        LauncherDirectories {
            instances_dir,
            metadata_dir,
            assets_root_dir,
            assets_index_dir,
            assets_objects_dir,
            virtual_legacy_assets_dir,
            libraries_dir,
            log_configs_dir,
            runtime_base_dir,
            content_library_dir,
            temp_dir,
            temp_natives_base_dir,
            accounts_json,
            accounts_json_backup,
        }
    }
}

/// Whether a string names exactly one normal path component: nonempty,
/// no separators, and not a relative-navigation component. Used to keep
/// a server-supplied hash from walking out of the cache directory.
pub open spec fn single_component_spec(s: Seq<char>) -> bool {
    s.len() > 0 && s != "."@ && s != ".."@ && forall|i: int|
        0 <= i < s.len() ==> (#[trigger] s[i]) != '/' && s[i] != '\\'
}

/// Check that a string is a single normal path component.
pub fn is_single_component_path(path: &str) -> (r: bool)
    ensures
        r == single_component_spec(path@),
{
    let l = path.unicode_len();
    if l == 0 {
        return false;
    }
    if crate::strutil::str_eq(path, ".") || crate::strutil::str_eq(path, "..") {
        return false;
    }
    let mut i: usize = 0;
    while i < l
        invariant
            i <= l,
            l == path@.len(),
            forall|j: int| 0 <= j < i ==> (#[trigger] path@[j]) != '/' && path@[j] != '\\',
        decreases l - i,
    {
        let c = path.get_char(i);
        if c == '/' || c == '\\' {
            return false;
        }
        i = i + 1;
    }
    true
}

/// How a created or removed path was reported.
#[derive(Clone, Copy, Debug, PartialEq, Eq, Structural)]
pub enum WatchPathKind {
    Any,
    File,
    Folder,
    Other,
}

/// What part of a file a modification touched.
#[derive(Clone, Copy, Debug, PartialEq, Eq, Structural)]
pub enum WatchDataChange {
    Any,
    Size,
    Content,
    Other,
}

/// How much of a rename one event carries.
#[derive(Clone, Copy, Debug, PartialEq, Eq, Structural)]
pub enum WatchRenameMode {
    Any,
    To,
    From,
    Both,
    Other,
}

/// The shape of a modification event.
#[derive(Clone, Copy, Debug, PartialEq, Eq, Structural)]
pub enum WatchModifyKind {
    Any,
    Data(WatchDataChange),
    Metadata,
    Name(WatchRenameMode),
    Other,
}

/// The kind of a raw watcher event.
#[derive(Clone, Copy, Debug, PartialEq, Eq, Structural)]
pub enum WatchEventKind {
    Any,
    Access,
    Create(WatchPathKind),
    Modify(WatchModifyKind),
    Remove(WatchPathKind),
    Other,
}

/// A raw watcher event: its kind and the paths it names.
#[derive(Clone, Debug)]
pub struct WatchEvent {
    pub kind: WatchEventKind,
    pub paths: Vec<String>,
}

/// How many paths an event kind must carry to be acted on.
pub open spec fn watch_paths_needed(kind: WatchEventKind) -> int {
    match kind {
        WatchEventKind::Create(k) => if k == WatchPathKind::Other {
            0
        } else {
            1
        },
        WatchEventKind::Remove(k) => if k == WatchPathKind::Other {
            0
        } else {
            1
        },
        WatchEventKind::Modify(m) => match m {
            WatchModifyKind::Any => 1,
            WatchModifyKind::Data(d) => if d == WatchDataChange::Any || d
                == WatchDataChange::Content {
                1
            } else {
                0
            },
            WatchModifyKind::Name(r) => match r {
                WatchRenameMode::To => 1,
                WatchRenameMode::From => 1,
                WatchRenameMode::Both => 2,
                _ => 0,
            },
            _ => 0,
        },
        _ => 0,
    }
}

/// Reduce a raw watcher event to the one the backend acts on: creations
/// and content modifications are changes, removals and rename sources
/// are removals, a complete rename stays a rename, and everything else
/// (metadata, access, unclassified shapes) is dropped.
pub fn get_simple_event(event: WatchEvent) -> (r: Option<FilesystemEvent>)
    requires
        watch_paths_needed(event.kind) <= event.paths@.len(),
    ensures
        ({
            let paths = event.paths@;
            match event.kind {
                WatchEventKind::Create(k) => if k == WatchPathKind::Other {
                    r is None
                } else {
                    r matches Some(FilesystemEvent::Change(p)) && p@ == paths[0]@
                },
                WatchEventKind::Remove(k) => if k == WatchPathKind::Other {
                    r is None
                } else {
                    r matches Some(FilesystemEvent::Remove(p)) && p@ == paths[0]@
                },
                WatchEventKind::Modify(m) => match m {
                    WatchModifyKind::Any => r matches Some(FilesystemEvent::Change(p)) && p@
                        == paths[0]@,
                    WatchModifyKind::Data(d) => if d == WatchDataChange::Any || d
                        == WatchDataChange::Content {
                        r matches Some(FilesystemEvent::Change(p)) && p@ == paths[0]@
                    } else {
                        r is None
                    },
                    WatchModifyKind::Name(mode) => match mode {
                        WatchRenameMode::To => r matches Some(FilesystemEvent::Change(p)) && p@
                            == paths[0]@,
                        WatchRenameMode::From => r matches Some(FilesystemEvent::Remove(p)) && p@
                            == paths[0]@,
                        WatchRenameMode::Both => r matches Some(
                            FilesystemEvent::Rename(from, to),
                        ) && from@ == paths[0]@ && to@ == paths[1]@,
                        _ => r is None,
                    },
                    _ => r is None,
                },
                _ => r is None,
            }
        }),
{
    match event.kind {
        WatchEventKind::Create(kind) => {
            if kind == WatchPathKind::Other {
                None
            } else {
                Some(FilesystemEvent::Change(event.paths[0].clone()))
            }
        },
        WatchEventKind::Modify(modify_kind) => match modify_kind {
            WatchModifyKind::Any => Some(FilesystemEvent::Change(event.paths[0].clone())),
            WatchModifyKind::Data(data_change) => {
                if data_change == WatchDataChange::Any || data_change == WatchDataChange::Content {
                    Some(FilesystemEvent::Change(event.paths[0].clone()))
                } else {
                    None
                }
            },
            WatchModifyKind::Metadata => None,
            WatchModifyKind::Name(rename_mode) => match rename_mode {
                WatchRenameMode::Any => None,
                WatchRenameMode::To => Some(FilesystemEvent::Change(event.paths[0].clone())),
                WatchRenameMode::From => Some(FilesystemEvent::Remove(event.paths[0].clone())),
                WatchRenameMode::Both => Some(
                    FilesystemEvent::Rename(event.paths[0].clone(), event.paths[1].clone()),
                ),
                WatchRenameMode::Other => None,
            },
            WatchModifyKind::Other => None,
        },
        WatchEventKind::Remove(kind) => {
            if kind == WatchPathKind::Other {
                None
            } else {
                Some(FilesystemEvent::Remove(event.paths[0].clone()))
            }
        },
        WatchEventKind::Any => None,
        WatchEventKind::Access => None,
        WatchEventKind::Other => None,
    }
}

/// An author of a mod, as its metadata declares them.
#[derive(Clone, Debug)]
pub enum Person {
    Name(String),
    NameAndContact { name: String },
}

impl Person {
    /// The person's name, whichever form the declaration took.
    pub fn name(&self) -> (r: &str)
        ensures
            match self {
                Person::Name(n) => r@ == n@,
                Person::NameAndContact { name } => r@ == name@,
            },
    {
        match self {
            Person::Name(name) => name.as_str(),
            Person::NameAndContact { name } => name.as_str(),
        }
    }
}

} // verus!
