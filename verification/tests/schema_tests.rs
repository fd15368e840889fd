use pandora_core::schema::{
    is_default_jvm_binary_configuration, is_default_jvm_flags_configuration,
    is_default_memory_configuration, InstanceJvmBinaryConfiguration, InstanceJvmFlagsConfiguration,
    InstanceMemoryConfiguration, Loader, ModrinthLoader, ModrinthProjectType, VersionFragment,
    DEFAULT_MEMORY_MAX, DEFAULT_MEMORY_MIN,
};

#[test]
fn loader_names_round_trip() {
    for l in [Loader::Vanilla, Loader::Fabric, Loader::Forge, Loader::NeoForge, Loader::Unknown] {
        assert_eq!(Loader::from_name(l.name()), l);
    }
    assert_eq!(Loader::from_name("fabric"), Loader::Fabric);
    assert_eq!(Loader::from_name("neoforge"), Loader::NeoForge);
    assert_eq!(Loader::from_name("quilt"), Loader::Unknown);
    assert_eq!(Loader::Vanilla.name(), "Vanilla");
}

#[test]
fn loader_maps_to_modrinth_facet() {
    assert_eq!(Loader::Fabric.as_modrinth_loader(), ModrinthLoader::Fabric);
    assert_eq!(Loader::Forge.as_modrinth_loader(), ModrinthLoader::Forge);
    assert_eq!(Loader::NeoForge.as_modrinth_loader(), ModrinthLoader::NeoForge);
    assert_eq!(Loader::Vanilla.as_modrinth_loader(), ModrinthLoader::Unknown);
}

#[test]
fn modrinth_loader_names_round_trip() {
    for l in [
        ModrinthLoader::Fabric,
        ModrinthLoader::Forge,
        ModrinthLoader::NeoForge,
        ModrinthLoader::Minecraft,
        ModrinthLoader::Iris,
        ModrinthLoader::Optifine,
        ModrinthLoader::Canvas,
        ModrinthLoader::Unknown,
    ] {
        assert_eq!(ModrinthLoader::from_name(l.name()), l);
    }
    assert_eq!(ModrinthLoader::from_name("iris"), ModrinthLoader::Iris);
    assert_eq!(ModrinthLoader::from_name("datapack"), ModrinthLoader::Unknown);
}

#[test]
fn project_types_spell_like_modrinth() {
    assert_eq!(ModrinthProjectType::Mod.as_str(), "mod");
    assert_eq!(ModrinthProjectType::ModPack.as_str(), "modpack");
    assert_eq!(ModrinthProjectType::ResourcePack.as_str(), "resourcepack");
    assert_eq!(ModrinthProjectType::Shader.as_str(), "shader");
    assert_eq!(ModrinthProjectType::Other.as_str(), "other");
}

#[test]
fn release_versions_split_into_numbers() {
    let parts = VersionFragment::string_to_parts("1.20.1");
    assert_eq!(
        parts,
        vec![
            VersionFragment::Number(1),
            VersionFragment::Number(20),
            VersionFragment::Number(1),
        ]
    );
}

#[test]
fn named_prerelease_fragments_are_recognized_case_insensitively() {
    let parts = VersionFragment::string_to_parts("1.0-ALPHA+Beta.snapshot");
    assert_eq!(
        parts,
        vec![
            VersionFragment::Number(1),
            VersionFragment::Number(0),
            VersionFragment::Alpha,
            VersionFragment::Beta,
            VersionFragment::Snapshot,
        ]
    );
}

#[test]
fn unparsable_fragments_stay_strings() {
    let parts = VersionFragment::string_to_parts("foo..2");
    assert_eq!(
        parts,
        vec![
            VersionFragment::String("foo".to_string()),
            VersionFragment::String("".to_string()),
            VersionFragment::Number(2),
        ]
    );
}

#[test]
fn oversized_numbers_stay_strings() {
    let big = "99999999999999999999999999999";
    let parts = VersionFragment::string_to_parts(big);
    assert_eq!(parts, vec![VersionFragment::String(big.to_string())]);
}

#[test]
fn plus_signed_numbers_parse_but_split_first() {
    // `+` is a separator, so a leading plus only survives inside a
    // fragment that was not split, which cannot happen; the digit parse
    // still accepts it for completeness of the number grammar.
    let parts = VersionFragment::string_to_parts("+42");
    assert_eq!(parts, vec![VersionFragment::String("".to_string()), VersionFragment::Number(42)]);
}

#[test]
fn empty_version_is_one_empty_fragment() {
    let parts = VersionFragment::string_to_parts("");
    assert_eq!(parts, vec![VersionFragment::String("".to_string())]);
}

#[test]
fn prerelease_fragments_order_before_strings_and_numbers() {
    assert!(VersionFragment::Alpha < VersionFragment::Beta);
    assert!(VersionFragment::Beta < VersionFragment::Snapshot);
    assert!(VersionFragment::Number(1) < VersionFragment::Number(2));
}

#[test]
fn memory_configuration_defaults() {
    let d = InstanceMemoryConfiguration::default();
    assert!(!d.enabled);
    assert_eq!(d.min, DEFAULT_MEMORY_MIN);
    assert_eq!(d.max, DEFAULT_MEMORY_MAX);
    assert!(is_default_memory_configuration(&None));
    assert!(is_default_memory_configuration(&Some(d)));
    assert!(!is_default_memory_configuration(&Some(InstanceMemoryConfiguration {
        enabled: false,
        min: 1024,
        max: DEFAULT_MEMORY_MAX,
    })));
}

#[test]
fn jvm_flags_configuration_defaults() {
    assert!(is_default_jvm_flags_configuration(&None));
    assert!(is_default_jvm_flags_configuration(&Some(InstanceJvmFlagsConfiguration {
        enabled: false,
        flags: " \t\n".to_string(),
    })));
    assert!(!is_default_jvm_flags_configuration(&Some(InstanceJvmFlagsConfiguration {
        enabled: false,
        flags: " -Xmx1G".to_string(),
    })));
    assert!(!is_default_jvm_flags_configuration(&Some(InstanceJvmFlagsConfiguration {
        enabled: true,
        flags: "".to_string(),
    })));
}

#[test]
fn jvm_binary_configuration_defaults() {
    assert!(is_default_jvm_binary_configuration(&None));
    assert!(is_default_jvm_binary_configuration(&Some(InstanceJvmBinaryConfiguration {
        enabled: false,
        path: None,
    })));
    assert!(!is_default_jvm_binary_configuration(&Some(InstanceJvmBinaryConfiguration {
        enabled: false,
        path: Some("/usr/bin/java".to_string()),
    })));
}
