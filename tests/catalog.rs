use ctftools::registry::{
    CatalogEntry, PackageMap, ToolPlatformDownloads, ToolType, ToolWindowsMetadata, Toolkit,
};

fn entry(command: &str, name: &str, description: &str, pairs: &[(&str, &str)]) -> CatalogEntry {
    let mut packages = PackageMap::new();
    for (k, v) in pairs {
        packages.insert(k.to_string(), v.to_string());
    }
    CatalogEntry {
        command: command.to_string(),
        name: name.to_string(),
        description: description.to_string(),
        examples: Vec::new(),
        url: None,
        packages,
        windows: ToolWindowsMetadata::new(),
        downloads: ToolPlatformDownloads::new(),
    }
}

#[test]
fn should_load_builtin_toolkit() {
    _ = Toolkit::default();
}

#[test]
fn loading_normalises_entries() {
    let mut site = entry("site", "Site", "", &[]);
    site.url = Some("https://example.com".to_string());
    let toolkit = Toolkit::from_entries(vec![
        entry("_comment", "", "ignored", &[]),
        entry("nmap", "   ", "  Network mapper \n", &[("apt", "nmap")]),
        entry("gdb", "GDB", "debugger", &[("default", "gdb-multiarch")]),
        site,
    ]);
    let tools = toolkit.tools();
    assert_eq!(tools.len(), 3);

    assert_eq!(tools[0].command, "nmap");
    assert_eq!(tools[0].name, "nmap");
    assert_eq!(tools[0].description, "Network mapper");
    assert_eq!(tools[0].packages.get("default"), Some(&"nmap".to_string()));
    assert_eq!(tools[0].packages.get("apt"), Some(&"nmap".to_string()));
    assert_eq!(tools[0].kind, ToolType::Executable);

    assert_eq!(tools[1].name, "GDB");
    assert_eq!(tools[1].packages.get("default"), Some(&"gdb-multiarch".to_string()));

    assert_eq!(tools[2].kind, ToolType::Website);
}

#[test]
fn catalog_round_trip_keeps_tools() {
    let first = Toolkit::from_entries(vec![
        entry("foo", "", "first", &[("pacman", "foo-p")]),
        entry("bar", "Bar", "second", &[("aur", "bar-bin"), ("default", "bar")]),
    ]);
    let reloaded = Toolkit::from_entries(first.clone().into_entries());
    assert_eq!(reloaded, first);
}

#[test]
fn package_map_lookup() {
    let mut map = PackageMap::new();
    assert_eq!(map.get("apt"), None);
    map.insert("apt".to_string(), "a".to_string());
    map.insert("apt".to_string(), "b".to_string());
    assert_eq!(map.get("apt"), Some(&"b".to_string()));
    assert!(map.contains_key("apt"));
    assert!(!map.contains_key("dnf"));
    let rebuilt = PackageMap::from_pairs(map.pairs().clone());
    assert_eq!(rebuilt.get("apt"), Some(&"b".to_string()));
}
