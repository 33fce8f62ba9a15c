use gallery_core::instance::config::AppConfig;
use gallery_core::instance::library::{Library, LibraryError};
use gallery_core::instance::manifest::{LibDatabase, LibManifest, LibStorage, ManifestError};
use std::path::PathBuf;

#[test]
fn default_config_values() {
    let config = AppConfig::default();
    assert_eq!(config.selected_lib_path(), None);
    assert!(!config.telemetry_enabled());
    assert!(config.video_enabled());
    assert_eq!(config.max_file_size_mb(), 512);
    assert_eq!(config.max_file_size_bytes(), 536870912);
    assert_eq!(config.listen_port(), 8080);
}

#[test]
fn selecting_a_library_path() {
    let mut config = AppConfig::default();
    config.set_selected_lib_path("/data/lib".to_string());
    assert_eq!(config.selected_lib_path(), Some(PathBuf::from("/data/lib")));
    assert_eq!(config.selected_lib_text(), Some("/data/lib"));
    assert_eq!(config.listen_port(), 8080);
}

#[test]
fn config_from_settings() {
    let config = AppConfig::from_settings(None, true, false, 3, 9000);
    assert!(config.telemetry_enabled());
    assert!(!config.video_enabled());
    assert_eq!(config.max_file_size_bytes(), 3 * 1024 * 1024);
    assert_eq!(config.listen_port(), 9000);
}

#[test]
fn builder_defaults_and_overrides() {
    let m = LibManifest::builder().build(7);
    assert_eq!(m.lib_version(), "0.1.0");
    assert_eq!(m.lib_name(), "unnamed");
    assert_eq!(m.config_path(), PathBuf::from("config.toml"));
    assert_eq!(m.storage(), LibStorage::Native);
    assert_eq!(m.database(), LibDatabase::Sqlite);
    assert_eq!(m.lib_id(), 7);

    let m = LibManifest::builder()
        .with_version("2.0")
        .with_name("photos")
        .with_config("lib.toml")
        .with_storage(LibStorage::Native)
        .with_database(LibDatabase::Sqlite)
        .build(3);
    assert_eq!(m.lib_version(), "2.0");
    assert_eq!(m.lib_name(), "photos");
    assert_eq!(m.config_path_text(), "lib.toml");
    assert_eq!(m.lib_id(), 3);
}

#[test]
fn default_library() {
    let lib = Library::default();
    assert_eq!(lib.dir, PathBuf::from("./storage"));
    assert_eq!(lib.manifest.lib_id(), 0);
    let lib = Library::new(PathBuf::from("/x"), LibManifest::builder().build(2));
    assert_eq!(lib.dir, PathBuf::from("/x"));
    assert_eq!(lib.manifest.lib_id(), 2);
}

#[test]
fn manifest_errors_map_to_library_errors() {
    assert!(matches!(LibraryError::from(ManifestError::FileNotFound), LibraryError::ManifestNotFound));
    assert!(matches!(
        LibraryError::from(ManifestError::DeserializationFailed),
        LibraryError::DeserializationFailed
    ));
    assert!(matches!(
        LibraryError::from(ManifestError::SerializationFailed),
        LibraryError::SerializationFailed
    ));
    assert!(matches!(
        LibraryError::from(ManifestError::Io(std::io::Error::other("x"))),
        LibraryError::Io(_)
    ));
}

#[test]
fn scanning_admits_found_manifests_and_skips_missing_ones() {
    let mut found = Vec::new();
    let ok = Library::admit_entry(&mut found, PathBuf::from("/a"), Ok(LibManifest::builder().build(1)));
    assert!(ok.is_ok());
    assert_eq!(found.len(), 1);
    let skipped = Library::admit_entry(&mut found, PathBuf::from("/b"), Err(LibraryError::ManifestNotFound));
    assert!(skipped.is_ok());
    assert_eq!(found.len(), 1);
    let failed = Library::admit_entry(&mut found, PathBuf::from("/c"), Err(LibraryError::InvalidLibraryConfig));
    assert!(matches!(failed, Err(LibraryError::InvalidLibraryConfig)));
    assert_eq!(found.len(), 1);
    assert_eq!(found[0].dir, PathBuf::from("/a"));
}
