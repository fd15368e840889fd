use pandora_core::backend::{
    get_simple_event, is_single_component_path, join_path, BackendAccount, FilesystemEvent,
    LauncherDirectories, Person, WatchDataChange, WatchEvent, WatchEventKind, WatchModifyKind,
    WatchPathKind, WatchRenameMode,
};
use pandora_core::bridge::{BridgeDataLoadState, InstanceID, InstanceModID, KeepAlive};
use pandora_core::frontend::ProgressBarColor;
use pandora_core::metadata::{
    FabricLaunchMetadata, FabricLoaderManifestMetadata, ForgeInstallerMavenMetadataItem,
    MinecraftVersionManifestMetadata, ModrinthProjectVersionsMetadataItem,
    ModrinthSearchMetadataItem, ModrinthVersionMetadataItem, MojangJavaRuntimesMetadata,
    NeoforgeInstallerMavenMetadataItem,
};
use pandora_core::schema::{
    ModrinthProjectVersionsRequest, ModrinthSearchIndex, ModrinthSearchRequest,
};
use pandora_core::models::MinecraftProfileResponse;

#[test]
fn new_account_carries_the_profile_name_and_no_head() {
    let p = MinecraftProfileResponse { id: "uuid".to_string(), name: "Alex".to_string() };
    let a = BackendAccount::new_from_profile(&p);
    assert_eq!(a.username, "Alex");
    assert!(a.head.is_none());
    assert!(a.head_32x.is_none());
    assert!(!a.downloaded_head);
}

#[test]
fn change_and_remove_events_expose_their_path() {
    let change = FilesystemEvent::Change("/a/b".to_string());
    let remove = FilesystemEvent::Remove("/a/c".to_string());
    let rename = FilesystemEvent::Rename("/a".to_string(), "/b".to_string());
    assert_eq!(change.change_or_remove_path().unwrap(), "/a/b");
    assert_eq!(remove.change_or_remove_path().unwrap(), "/a/c");
    assert!(rename.change_or_remove_path().is_none());
}

#[test]
fn directories_derive_from_the_launcher_root() {
    let d = LauncherDirectories::new("/home/user/.launcher");
    assert_eq!(d.instances_dir, "/home/user/.launcher/instances");
    assert_eq!(d.metadata_dir, "/home/user/.launcher/metadata");
    assert_eq!(d.assets_root_dir, "/home/user/.launcher/assets");
    assert_eq!(d.assets_index_dir, "/home/user/.launcher/assets/indexes");
    assert_eq!(d.assets_objects_dir, "/home/user/.launcher/assets/objects");
    assert_eq!(
        d.virtual_legacy_assets_dir,
        "/home/user/.launcher/assets/indexes/virtual/legacy"
    );
    assert_eq!(d.libraries_dir, "/home/user/.launcher/libraries");
    assert_eq!(d.log_configs_dir, "/home/user/.launcher/logconfigs");
    assert_eq!(d.runtime_base_dir, "/home/user/.launcher/runtime");
    assert_eq!(d.content_library_dir, "/home/user/.launcher/contentlibrary");
    assert_eq!(d.temp_dir, "/home/user/.launcher/temp");
    assert_eq!(d.temp_natives_base_dir, "/home/user/.launcher/temp/natives");
    assert_eq!(d.accounts_json, "/home/user/.launcher/accounts.json");
    assert_eq!(d.accounts_json_backup, "/home/user/.launcher/accounts.json.old");
}

#[test]
fn join_path_uses_a_single_separator() {
    assert_eq!(join_path("a", "b"), "a/b");
}

#[test]
fn single_component_paths_reject_traversal() {
    assert!(is_single_component_path("2ec0cc96"));
    assert!(is_single_component_path("file.json"));
    assert!(!is_single_component_path(""));
    assert!(!is_single_component_path("."));
    assert!(!is_single_component_path(".."));
    assert!(!is_single_component_path("a/b"));
    assert!(!is_single_component_path("a\\b"));
    assert!(!is_single_component_path("../etc"));
}

#[test]
fn person_name_is_taken_from_either_form() {
    assert_eq!(Person::Name("ada".to_string()).name(), "ada");
    assert_eq!(Person::NameAndContact { name: "grace".to_string() }.name(), "grace");
}

#[test]
fn dangling_handles_point_nowhere() {
    let id = InstanceID::dangling();
    assert_eq!(id.index, usize::MAX);
    assert_eq!(id.generation, usize::MAX);
    let mid = InstanceModID::dangling();
    assert_eq!(mid.index, usize::MAX);
    assert_eq!(mid.generation, usize::MAX);
}

#[test]
fn load_requests_go_out_only_when_stale_or_unloaded() {
    assert!(BridgeDataLoadState::Unloaded.should_send_load_request());
    assert!(BridgeDataLoadState::LoadedDirty.should_send_load_request());
    assert!(!BridgeDataLoadState::Loading.should_send_load_request());
    assert!(!BridgeDataLoadState::LoadingDirty.should_send_load_request());
    assert!(!BridgeDataLoadState::Loaded.should_send_load_request());
}

#[test]
fn progress_bars_default_to_the_normal_tint() {
    assert_eq!(ProgressBarColor::default(), ProgressBarColor::Normal);
}

#[test]
fn metadata_endpoints_are_fixed() {
    assert_eq!(
        MinecraftVersionManifestMetadata.url(),
        "https://piston-meta.mojang.com/mc/game/version_manifest_v2.json"
    );
    assert!(MojangJavaRuntimesMetadata.url().starts_with("https://launchermeta.mojang.com/"));
    assert_eq!(FabricLoaderManifestMetadata.url(), "https://meta.fabricmc.net/v2/versions/loader");
}

#[test]
fn parametric_metadata_urls_embed_their_arguments() {
    let fabric = FabricLaunchMetadata {
        minecraft_version: "1.20.1".to_string(),
        loader_version: "0.15.11".to_string(),
    };
    assert_eq!(fabric.url(), "https://meta.fabricmc.net/v2/versions/loader/1.20.1/0.15.11");
    let version = ModrinthVersionMetadataItem("AABBCCDD".to_string());
    assert_eq!(version.url(), "https://api.modrinth.com/v2/version/AABBCCDD");
}

#[test]
fn keep_alive_handles_outlive_their_owner_observably() {
    let keep_alive = KeepAlive::new();
    let handle = keep_alive.create_handle();
    let second = keep_alive.create_handle();
    assert!(handle.is_alive());
    assert!(second.is_alive());
    drop(keep_alive);
    assert!(!handle.is_alive());
    assert!(!second.is_alive());
}

#[test]
fn maven_and_modrinth_items_carry_their_endpoints() {
    assert!(NeoforgeInstallerMavenMetadataItem.url().starts_with("https://maven.neoforged.net/"));
    assert!(NeoforgeInstallerMavenMetadataItem.expires());
    assert!(
        ForgeInstallerMavenMetadataItem.url().starts_with("https://maven.minecraftforge.net/")
    );
    let search = ModrinthSearchRequest {
        query: Some("sodium".to_string()),
        facets: None,
        index: ModrinthSearchIndex::Relevance,
        offset: 0,
        limit: 20,
    };
    assert_eq!(ModrinthSearchMetadataItem(&search).url(), "https://api.modrinth.com/v2/search");
    let versions = ModrinthProjectVersionsRequest { project_id: "AANobbMI".to_string() };
    assert_eq!(
        ModrinthProjectVersionsMetadataItem(&versions).url(),
        "https://api.modrinth.com/v2/project/AANobbMI/version"
    );
}

fn watch_event(kind: WatchEventKind, paths: &[&str]) -> WatchEvent {
    WatchEvent { kind, paths: paths.iter().map(|p| p.to_string()).collect() }
}

#[test]
fn watcher_events_reduce_to_backend_events() {
    let r = get_simple_event(watch_event(WatchEventKind::Create(WatchPathKind::File), &["/a"]));
    assert!(matches!(r, Some(FilesystemEvent::Change(p)) if p == "/a"));
    let r = get_simple_event(watch_event(WatchEventKind::Create(WatchPathKind::Other), &[]));
    assert!(r.is_none());
    let r = get_simple_event(watch_event(
        WatchEventKind::Modify(WatchModifyKind::Data(WatchDataChange::Content)),
        &["/a"],
    ));
    assert!(matches!(r, Some(FilesystemEvent::Change(_))));
    let r = get_simple_event(watch_event(
        WatchEventKind::Modify(WatchModifyKind::Data(WatchDataChange::Size)),
        &["/a"],
    ));
    assert!(r.is_none());
    let r = get_simple_event(watch_event(WatchEventKind::Modify(WatchModifyKind::Metadata), &[]));
    assert!(r.is_none());
    let r = get_simple_event(watch_event(
        WatchEventKind::Modify(WatchModifyKind::Name(WatchRenameMode::From)),
        &["/a"],
    ));
    assert!(matches!(r, Some(FilesystemEvent::Remove(p)) if p == "/a"));
    let r = get_simple_event(watch_event(
        WatchEventKind::Modify(WatchModifyKind::Name(WatchRenameMode::Both)),
        &["/a", "/b"],
    ));
    assert!(matches!(r, Some(FilesystemEvent::Rename(from, to)) if from == "/a" && to == "/b"));
    let r = get_simple_event(watch_event(WatchEventKind::Remove(WatchPathKind::Folder), &["/a"]));
    assert!(matches!(r, Some(FilesystemEvent::Remove(_))));
    let r = get_simple_event(watch_event(WatchEventKind::Access, &[]));
    assert!(r.is_none());
}
