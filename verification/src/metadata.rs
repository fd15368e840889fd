//! The cacheable metadata documents the launcher fetches, each with its
//! fixed endpoint where it has one. Fetching, caching and deserializing
//! happen outside the library.

use vstd::prelude::*;
use vstd::string::*;

verus! {

/// The Mojang version manifest.
#[derive(Clone, Copy, Debug)]
pub struct MinecraftVersionManifestMetadata;

impl MinecraftVersionManifestMetadata {
    /// The manifest's fixed endpoint.
    pub fn url(&self) -> (r: &'static str)
        ensures
            r@ == "https://piston-meta.mojang.com/mc/game/version_manifest_v2.json"@,
    {
        "https://piston-meta.mojang.com/mc/game/version_manifest_v2.json"
    }
}

/// The Mojang Java runtimes listing.
#[derive(Clone, Copy, Debug)]
pub struct MojangJavaRuntimesMetadata;

impl MojangJavaRuntimesMetadata {
    /// The listing's fixed endpoint.
    pub fn url(&self) -> (r: &'static str)
        ensures
            r@
                == "https://launchermeta.mojang.com/v1/products/java-runtime/2ec0cc96c44e5a76b9c8b7c39df7210883d12871/all.json"@,
    {
        "https://launchermeta.mojang.com/v1/products/java-runtime/2ec0cc96c44e5a76b9c8b7c39df7210883d12871/all.json"
    }
}

/// The Fabric loader manifest.
#[derive(Clone, Copy, Debug)]
pub struct FabricLoaderManifestMetadata;

impl FabricLoaderManifestMetadata {
    /// The manifest's fixed endpoint.
    pub fn url(&self) -> (r: &'static str)
        ensures
            r@ == "https://meta.fabricmc.net/v2/versions/loader"@,
    {
        "https://meta.fabricmc.net/v2/versions/loader"
    }
}

/// The launch metadata of one Fabric loader on one Minecraft version.
#[derive(Clone, Debug)]
pub struct FabricLaunchMetadata {
    pub minecraft_version: String,
    pub loader_version: String,
}

impl FabricLaunchMetadata {
    /// The endpoint for this version pair.
    pub fn url(&self) -> (r: String)
        ensures
            r@ == "https://meta.fabricmc.net/v2/versions/loader/"@ + self.minecraft_version@
                + "/"@ + self.loader_version@,
    {
        let mut url = String::from_str("https://meta.fabricmc.net/v2/versions/loader/");
        url.append(self.minecraft_version.as_str());
        url.push('/');
        url.append(self.loader_version.as_str());
        proof {
            reveal_strlit("/");
            assert(url@ =~= "https://meta.fabricmc.net/v2/versions/loader/"@
                + self.minecraft_version@ + "/"@ + self.loader_version@);
        }
        url
    }
}

/// One Modrinth project version, fetched by its id.
#[derive(Clone, Debug)]
pub struct ModrinthVersionMetadataItem(pub String);

impl ModrinthVersionMetadataItem {
    /// The endpoint for this version id.
    pub fn url(&self) -> (r: String)
        ensures
            r@ == "https://api.modrinth.com/v2/version/"@ + self.0@,
    {
        let mut url = String::from_str("https://api.modrinth.com/v2/version/");
        url.append(self.0.as_str());
        proof {
            assert(url@ =~= "https://api.modrinth.com/v2/version/"@ + self.0@);
        }
        url
    }
}

/// The version manifest as an item of the download queue.
#[derive(Clone, Copy, Debug)]
pub struct MinecraftVersionManifestMetadataItem;

impl MinecraftVersionManifestMetadataItem {
    /// The manifest's fixed endpoint.
    pub fn url(&self) -> (r: &'static str)
        ensures
            r@ == "https://piston-meta.mojang.com/mc/game/version_manifest_v2.json"@,
    {
        "https://piston-meta.mojang.com/mc/game/version_manifest_v2.json"
    }

    /// The manifest changes over time and must be refreshed.
    pub fn expires(&self) -> (r: bool)
        ensures
            r,
    {
        true
    }
}

/// The Java runtimes listing as an item of the download queue.
#[derive(Clone, Copy, Debug)]
pub struct MojangJavaRuntimesMetadataItem;

impl MojangJavaRuntimesMetadataItem {
    /// The listing's fixed endpoint.
    pub fn url(&self) -> (r: &'static str)
        ensures
            r@
                == "https://launchermeta.mojang.com/v1/products/java-runtime/2ec0cc96c44e5a76b9c8b7c39df7210883d12871/all.json"@,
    {
        "https://launchermeta.mojang.com/v1/products/java-runtime/2ec0cc96c44e5a76b9c8b7c39df7210883d12871/all.json"
    }

    /// The listing changes over time and must be refreshed.
    pub fn expires(&self) -> (r: bool)
        ensures
            r,
    {
        true
    }
}

/// The Fabric loader manifest as an item of the download queue.
#[derive(Clone, Copy, Debug)]
pub struct FabricLoaderManifestMetadataItem;

impl FabricLoaderManifestMetadataItem {
    /// The manifest's fixed endpoint.
    pub fn url(&self) -> (r: &'static str)
        ensures
            r@ == "https://meta.fabricmc.net/v2/versions/loader"@,
    {
        "https://meta.fabricmc.net/v2/versions/loader"
    }

    /// The manifest changes over time and must be refreshed.
    pub fn expires(&self) -> (r: bool)
        ensures
            r,
    {
        true
    }
}

/// The NeoForge installer listing of its Maven repository.
#[derive(Clone, Copy, Debug)]
pub struct NeoforgeInstallerMavenMetadataItem;

impl NeoforgeInstallerMavenMetadataItem {
    /// The repository's fixed metadata document.
    pub fn url(&self) -> (r: &'static str)
        ensures
            r@
                == "https://maven.neoforged.net/releases/net/neoforged/neoforge/maven-metadata.xml"@,
    {
        "https://maven.neoforged.net/releases/net/neoforged/neoforge/maven-metadata.xml"
    }

    /// The listing changes over time and must be refreshed.
    pub fn expires(&self) -> (r: bool)
        ensures
            r,
    {
        true
    }
}

/// The Forge installer listing of its Maven repository.
#[derive(Clone, Copy, Debug)]
pub struct ForgeInstallerMavenMetadataItem;

impl ForgeInstallerMavenMetadataItem {
    /// The repository's fixed metadata document.
    pub fn url(&self) -> (r: &'static str)
        ensures
            r@ == "https://maven.minecraftforge.net/net/minecraftforge/forge/maven-metadata.xml"@,
    {
        "https://maven.minecraftforge.net/net/minecraftforge/forge/maven-metadata.xml"
    }

    /// The listing changes over time and must be refreshed.
    pub fn expires(&self) -> (r: bool)
        ensures
            r,
    {
        true
    }
}

/// A Modrinth search as an item of the download queue; the request's
/// parameters travel as the query string, serialized outside the
/// library.
#[derive(Clone, Copy, Debug)]
pub struct ModrinthSearchMetadataItem<'a>(pub &'a crate::schema::ModrinthSearchRequest);

impl<'a> ModrinthSearchMetadataItem<'a> {
    /// The search endpoint the parameters are appended to.
    pub fn url(&self) -> (r: &'static str)
        ensures
            r@ == "https://api.modrinth.com/v2/search"@,
    {
        "https://api.modrinth.com/v2/search"
    }

    /// Search results change over time and must be refreshed.
    pub fn expires(&self) -> (r: bool)
        ensures
            r,
    {
        true
    }
}

/// The versions of one Modrinth project as an item of the download
/// queue.
#[derive(Clone, Copy, Debug)]
pub struct ModrinthProjectVersionsMetadataItem<'a>(
    pub &'a crate::schema::ModrinthProjectVersionsRequest,
);

impl<'a> ModrinthProjectVersionsMetadataItem<'a> {
    /// The endpoint for this project's versions.
    pub fn url(&self) -> (r: String)
        ensures
            r@ == "https://api.modrinth.com/v2/project/"@ + self.0.project_id@ + "/version"@,
    {
        let mut url = String::from_str("https://api.modrinth.com/v2/project/");
        url.append(self.0.project_id.as_str());
        url.append("/version");
        proof {
            assert(url@ =~= "https://api.modrinth.com/v2/project/"@ + self.0.project_id@
                + "/version"@);
        }
        url
    }

    /// A project's version list changes over time and must be refreshed.
    pub fn expires(&self) -> (r: bool)
        ensures
            r,
    {
        true
    }
}

} // verus!
