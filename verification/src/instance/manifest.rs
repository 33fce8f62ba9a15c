//! Application library manifest.

use std::path::PathBuf;
use vstd::prelude::*;
use crate::fs::path::{path_buf_from, path_of};

verus! {

/// The name of the manifest file inside a library directory.
pub const MANIFEST_FILE_NAME: &'static str = "manifest";

/// The library version written by a fresh manifest builder: the version of this
/// package, as `[package]` in Cargo.toml gives it.
pub const DEFAULT_LIB_VERSION: &'static str = "0.1.0";

/// The library name written by a fresh manifest builder.
pub const DEFAULT_LIB_NAME: &'static str = "unnamed";

/// The configuration path written by a fresh manifest builder.
pub const DEFAULT_CONFIG_PATH: &'static str = "config.toml";

/// Library file storage backend
#[derive(Debug, Clone, Copy, PartialEq, Eq, Structural)]
pub enum LibStorage {
    /// Native file storage backend
    Native,
}

/// Library database driver
#[derive(Debug, Clone, Copy, PartialEq, Eq, Structural)]
pub enum LibDatabase {
    /// Sqlite database driver
    Sqlite,
}

/// Application Library Manifest
#[derive(Debug, Clone)]
pub struct LibManifest {
    /// Library version
    lib_version: String,
    /// Library name
    lib_name: String,
    /// Library id
    lib_id: u8,
    /// Path to the library configuration file
    config_path: String,
    /// Selected file storage backend
    storage: LibStorage,
    /// Selected database driver
    database: LibDatabase,
}

/// The settings of a manifest, as plain values.
pub struct ManifestView {
    pub lib_version: Seq<char>,
    pub lib_name: Seq<char>,
    pub lib_id: u8,
    pub config_path: Seq<char>,
    pub storage: LibStorage,
    pub database: LibDatabase,
}

impl View for LibManifest {
    type V = ManifestView;

    closed spec fn view(&self) -> ManifestView {
        ManifestView {
            lib_version: self.lib_version@,
            lib_name: self.lib_name@,
            lib_id: self.lib_id,
            config_path: self.config_path@,
            storage: self.storage,
            database: self.database,
        }
    }
}

impl LibManifest {
    /// The settings of a manifest built with identifier `id` by a fresh builder.
    pub open spec fn builder_default_build(id: u8) -> ManifestView {
        ManifestView {
            lib_version: DEFAULT_LIB_VERSION@,
            lib_name: DEFAULT_LIB_NAME@,
            lib_id: id,
            config_path: DEFAULT_CONFIG_PATH@,
            storage: LibStorage::Native,
            database: LibDatabase::Sqlite,
        }
    }

    /// Creates a new [`LibManifest`] builder
    pub fn builder() -> (r: ManifestBuilder)
        ensures
            r@ == ManifestBuilder::initial(),
    {
        ManifestBuilder::default()
    }

    /// Returns the version of this [`LibManifest`]
    pub fn lib_version(&self) -> (r: &str)
        ensures
            r@ == self@.lib_version,
    {
        self.lib_version.as_str()
    }

    /// Returns the name of this [`LibManifest`]
    pub fn lib_name(&self) -> (r: &str)
        ensures
            r@ == self@.lib_name,
    {
        self.lib_name.as_str()
    }

    /// Returns the config path of this [`LibManifest`]
    pub fn config_path(&self) -> (r: PathBuf)
        ensures
            r == path_of(self@.config_path),
    {
        path_buf_from(self.config_path.clone())
    }

    /// Returns the config path of this [`LibManifest`] as text
    pub fn config_path_text(&self) -> (r: &str)
        ensures
            r@ == self@.config_path,
    {
        self.config_path.as_str()
    }

    /// Returns the storage of this [`LibManifest`]
    pub fn storage(&self) -> (r: LibStorage)
        ensures
            r == self@.storage,
    {
        self.storage
    }

    /// Returns the database of this [`LibManifest`]
    pub fn database(&self) -> (r: LibDatabase)
        ensures
            r == self@.database,
    {
        self.database
    }

    /// Returns the lib id of this [`LibManifest`]
    pub fn lib_id(&self) -> (r: u8)
        ensures
            r == self@.lib_id,
    {
        self.lib_id
    }
}

/// Manifest Builder Structure
pub struct ManifestBuilder {
    lib_version: String,
    lib_name: String,
    config_path: String,
    storage: LibStorage,
    database: LibDatabase,
}

/// The settings collected by a manifest builder, as plain values.
pub struct BuilderView {
    pub lib_version: Seq<char>,
    pub lib_name: Seq<char>,
    pub config_path: Seq<char>,
    pub storage: LibStorage,
    pub database: LibDatabase,
}

impl View for ManifestBuilder {
    type V = BuilderView;

    closed spec fn view(&self) -> BuilderView {
        BuilderView {
            lib_version: self.lib_version@,
            lib_name: self.lib_name@,
            config_path: self.config_path@,
            storage: self.storage,
            database: self.database,
        }
    }
}

impl ManifestBuilder {
    /// The settings of a fresh builder.
    pub open spec fn initial() -> BuilderView {
        BuilderView {
            lib_version: DEFAULT_LIB_VERSION@,
            lib_name: DEFAULT_LIB_NAME@,
            config_path: DEFAULT_CONFIG_PATH@,
            storage: LibStorage::Native,
            database: LibDatabase::Sqlite,
        }
    }

    pub fn with_version(self, version: &str) -> (r: Self)
        ensures
            r@ == (BuilderView { lib_version: version@, ..self@ }),
    {
        ManifestBuilder { lib_version: String::from(version), ..self }
    }

    pub fn with_name(self, name: &str) -> (r: Self)
        ensures
            r@ == (BuilderView { lib_name: name@, ..self@ }),
    {
        ManifestBuilder { lib_name: String::from(name), ..self }
    }

    pub fn with_config(self, path: &str) -> (r: Self)
        ensures
            r@ == (BuilderView { config_path: path@, ..self@ }),
    {
        ManifestBuilder { config_path: String::from(path), ..self }
    }

    pub fn with_storage(self, storage: LibStorage) -> (r: Self)
        ensures
            r@ == (BuilderView { storage, ..self@ }),
    {
        ManifestBuilder { storage, ..self }
    }

    pub fn with_database(self, database: LibDatabase) -> (r: Self)
        ensures
            r@ == (BuilderView { database, ..self@ }),
    {
        ManifestBuilder { database, ..self }
    }

    pub fn build(self, id: u8) -> (r: LibManifest)
        ensures
            r@ == (ManifestView {
                lib_version: self@.lib_version,
                lib_name: self@.lib_name,
                lib_id: id,
                config_path: self@.config_path,
                storage: self@.storage,
                database: self@.database,
            }),
    {
        LibManifest {
            lib_version: self.lib_version,
            lib_name: self.lib_name,
            lib_id: id,
            config_path: self.config_path,
            storage: self.storage,
            database: self.database,
        }
    }
}

impl Default for ManifestBuilder {
    fn default() -> (r: Self)
        ensures
            r@ == ManifestBuilder::initial(),
    {
        ManifestBuilder {
            lib_version: String::from(DEFAULT_LIB_VERSION),
            lib_name: String::from(DEFAULT_LIB_NAME),
            config_path: String::from(DEFAULT_CONFIG_PATH),
            storage: LibStorage::Native,
            database: LibDatabase::Sqlite,
        }
    }
}

/// Error interacting with manifest
#[derive(Debug)]
pub enum ManifestError {
    /// Manifest deserialization error
    DeserializationFailed,
    /// Manifest serialization error
    SerializationFailed,
    /// The manifest file at the specified path was not found
    FileNotFound,
    Io(std::io::Error),
}

} // verus!
