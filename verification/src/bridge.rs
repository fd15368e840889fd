//! The vocabulary shared between the backend and the frontend: instance
//! handles and summaries, install requests, notifications, load states,
//! and metadata requests.

use vstd::prelude::*;
use std::sync::atomic::AtomicBool;
use std::sync::atomic::Ordering;
use std::sync::Arc;
use crate::schema::{ModrinthProjectVersionsRequest, ModrinthSearchRequest};

verus! {

/// Keeps a window or task marked alive while it exists: dropping the
/// owner flips the shared flag that its handles observe. The flag is
/// shared across tasks, so nothing can be promised of the instant a
/// handle sees the change.
#[derive(Debug)]
pub struct KeepAlive {
    alive: Arc<AtomicBool>,
}

impl KeepAlive {
    pub fn new() -> Self {
        KeepAlive { alive: Arc::new(AtomicBool::new(true)) }
    }

    /// A handle observing this owner's liveness.
    pub fn create_handle(&self) -> KeepAliveHandle {
        KeepAliveHandle { alive: Arc::clone(&self.alive) }
    }
}

/// Relies on `core::sync::atomic::AtomicBool::store`: publishes the
/// value to the shared flag without panicking. Verified drop handlers
/// may not unwind, and the specification vstd gives the call leaves
/// that open.
#[verifier::external_body]
fn store_flag(flag: &AtomicBool, value: bool)
    opens_invariants none
    no_unwind
{
    flag.store(value, Ordering::SeqCst);
}

impl Drop for KeepAlive {
    fn drop(&mut self)
        opens_invariants none
        no_unwind
    {
        store_flag(&self.alive, false);
    }
}

/// Observes whether the matching [`KeepAlive`] still exists.
#[derive(Debug)]
pub struct KeepAliveHandle {
    alive: Arc<AtomicBool>,
}

impl KeepAliveHandle {
    /// Whether the owner had not been dropped when the flag was read.
    pub fn is_alive(&self) -> bool {
        self.alive.load(Ordering::SeqCst)
    }
}

/// Generational handle of an instance.
#[derive(Clone, Copy, Debug, PartialEq, Eq, Structural, PartialOrd, Ord, Hash)]
pub struct InstanceID {
    pub index: usize,
    pub generation: usize,
}

impl InstanceID {
    /// A handle that can never point at a live instance.
    pub fn dangling() -> (r: Self)
        ensures
            r.index == usize::MAX,
            r.generation == usize::MAX,
    {
        InstanceID { index: usize::MAX, generation: usize::MAX }
    }
}

/// Generational handle of a mod within an instance.
#[derive(Clone, Copy, Debug, PartialEq, Eq, Structural, PartialOrd, Ord, Hash)]
pub struct InstanceModID {
    pub index: usize,
    pub generation: usize,
}

impl InstanceModID {
    /// A handle that can never point at a live mod.
    pub fn dangling() -> (r: Self)
        ensures
            r.index == usize::MAX,
            r.generation == usize::MAX,
    {
        InstanceModID { index: usize::MAX, generation: usize::MAX }
    }
}

/// Whether an instance's game process is running.
#[derive(Clone, Copy, Debug, PartialEq, Eq, Structural)]
pub enum InstanceStatus {
    NotRunning,
    Launching,
    Running,
}

/// One world of an instance, as shown in its list.
#[derive(Clone, Debug)]
pub struct InstanceWorldSummary {
    pub title: String,
    pub subtitle: String,
    pub level_path: String,
    pub last_played: i64,
    pub png_icon: Option<Vec<u8>>,
}

/// One server of an instance, as shown in its list.
#[derive(Clone, Debug)]
pub struct InstanceServerSummary {
    pub name: String,
    pub ip: String,
    pub png_icon: Option<Vec<u8>>,
}

/// One installed mod of an instance.
#[derive(Clone, Debug)]
pub struct InstanceModSummary {
    pub mod_summary: ModSummary,
    pub id: InstanceModID,
    pub filename: String,
    pub filename_hash: u64,
    pub path: String,
    pub enabled: bool,
}

/// What a mod file declares about itself.
#[derive(Clone, Debug)]
pub struct ModSummary {
    pub id: String,
    pub name: String,
    pub version_str: String,
    pub authors: String,
    pub png_icon: Option<Vec<u8>>,
}

/// Where installed content goes.
#[derive(Clone, Copy, Debug)]
pub enum InstallTarget {
    Instance(InstanceID),
    Library,
    NewInstance,
}

/// What kind of content a file is.
#[derive(Clone, Copy, Debug, PartialEq, Eq, Structural)]
pub enum ContentType {
    Mod,
    Modpack,
    Resourcepack,
    Shader,
}

/// A request to install a set of files.
#[derive(Clone, Debug)]
pub struct ContentInstall {
    pub target: InstallTarget,
    pub files: Vec<ContentInstallFile>,
}

/// One file of an install request.
#[derive(Clone, Debug)]
pub struct ContentInstallFile {
    pub url: String,
    pub filename: String,
    pub sha1: String,
    pub size: usize,
    pub content_type: ContentType,
}

/// The kind of a notification shown to the user.
#[derive(Clone, Copy, Debug, PartialEq, Eq, Structural)]
pub enum BridgeNotificationType {
    Success,
    Info,
    Error,
    Warning,
}

/// Where a lazily-loaded list stands, and whether its data is stale.
#[derive(Clone, Copy, Debug, PartialEq, Eq, Structural)]
pub enum BridgeDataLoadState {
    Unloaded,
    LoadingDirty,
    LoadedDirty,
    Loading,
    Loaded,
}

impl BridgeDataLoadState {
    /// Whether a load request should go out: yes exactly when nothing is
    /// loaded yet or the loaded data is stale and no load is under way.
    pub fn should_send_load_request(self) -> (r: bool)
        ensures
            r == (self == BridgeDataLoadState::Unloaded || self
                == BridgeDataLoadState::LoadedDirty),
    {
        match self {
            BridgeDataLoadState::Unloaded => true,
            BridgeDataLoadState::LoadingDirty => false,
            BridgeDataLoadState::LoadedDirty => true,
            BridgeDataLoadState::Loading => false,
            BridgeDataLoadState::Loaded => false,
        }
    }
}

/// A piece of metadata the frontend can ask for.
#[derive(Clone, Debug, PartialEq, Eq, PartialOrd, Ord, Hash)]
pub enum MetadataRequest {
    MinecraftVersionManifest,
    FabricLoaderManifest,
    ForgeMavenManifest,
    NeoforgeMavenManifest,
    ModrinthSearch(ModrinthSearchRequest),
    ModrinthProjectVersions(ModrinthProjectVersionsRequest),
}

/// The "visit this URL to continue" prompt raised while an `Initial`
/// login attempt waits for the browser.
#[derive(Clone, Debug)]
pub struct ModalActionVisitUrl {
    pub message: String,
    pub url: String,
}

} // verus!
