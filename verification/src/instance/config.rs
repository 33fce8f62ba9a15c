//! Global application configuration.

use std::path::PathBuf;
use vstd::prelude::*;
use crate::fs::path::{path_buf_from, path_of};

verus! {

/// One mebibyte, the unit of the configured maximum file size.
pub const MEBIBYTE: usize = 1048576;

/// Global application configuration
#[derive(Debug)]
pub struct AppConfig {
    /// Path to the selected library
    ///
    /// If [`None`] - only the instance control panel will be available on the server
    selected_lib_path: Option<String>,
    /// If `true`, the application will collect local telemetry
    telemetry_enabled: bool,
    /// If `true`, allows video downloading and uses ffmpeg to process it
    video_enabled: bool,
    /// Maximum file size that can be uploaded to instance storage (in MB)
    max_file_size_mb: usize,
    /// Server listen port
    listen_port: u16,
}

impl AppConfig {
    /// Path to the selected library, as text
    pub closed spec fn selected_lib(&self) -> Option<Seq<char>> {
        match self.selected_lib_path {
            Some(p) => Some(p@),
            None => None,
        }
    }

    /// The application collects local telemetry
    pub closed spec fn telemetry(&self) -> bool {
        self.telemetry_enabled
    }

    /// Video downloading is allowed
    pub closed spec fn video(&self) -> bool {
        self.video_enabled
    }

    /// Maximum file size that can be uploaded (in MB)
    pub closed spec fn max_file_mb(&self) -> usize {
        self.max_file_size_mb
    }

    /// Server listen port
    pub closed spec fn port(&self) -> u16 {
        self.listen_port
    }

    /// Makes a configuration from its settings
    pub fn from_settings(
        selected_lib_path: Option<String>,
        telemetry_enabled: bool,
        video_enabled: bool,
        max_file_size_mb: usize,
        listen_port: u16,
    ) -> (r: Self)
        ensures
            r.selected_lib() == (match selected_lib_path {
                Some(p) => Some(p@),
                None => None::<Seq<char>>,
            }),
            r.telemetry() == telemetry_enabled,
            r.video() == video_enabled,
            r.max_file_mb() == max_file_size_mb,
            r.port() == listen_port,
    {
        AppConfig {
            selected_lib_path,
            telemetry_enabled,
            video_enabled,
            max_file_size_mb,
            listen_port,
        }
    }

    /// Returns the `selected_lib_path` of this [`AppConfig`]
    pub fn selected_lib_path(&self) -> (r: Option<PathBuf>)
        ensures
            r == (match self.selected_lib() {
                Some(t) => Some(path_of(t)),
                None => None::<PathBuf>,
            }),
    {
        match &self.selected_lib_path {
            Some(p) => Some(path_buf_from(p.clone())),
            None => None,
        }
    }

    /// Returns the `selected_lib_path` of this [`AppConfig`] as text
    pub fn selected_lib_text(&self) -> (r: Option<&str>)
        ensures
            r is Some <==> self.selected_lib() is Some,
            r matches Some(p) ==> self.selected_lib() == Some(p@),
    {
        match &self.selected_lib_path {
            Some(p) => Some(p.as_str()),
            None => None,
        }
    }

    /// Sets the selected lib path of this [`AppConfig`]
    pub fn set_selected_lib_path(&mut self, selected_lib_path: String)
        ensures
            final(self).selected_lib() == Some(selected_lib_path@),
            final(self).telemetry() == old(self).telemetry(),
            final(self).video() == old(self).video(),
            final(self).max_file_mb() == old(self).max_file_mb(),
            final(self).port() == old(self).port(),
    {
        self.selected_lib_path = Some(selected_lib_path);
    }

    /// Returns the `telemetry_enabled` of this [`AppConfig`]
    pub fn telemetry_enabled(&self) -> (r: bool)
        ensures
            r == self.telemetry(),
    {
        self.telemetry_enabled
    }

    /// Returns the `max_file_size` of this [`AppConfig`] in MB
    pub fn max_file_size_mb(&self) -> (r: usize)
        ensures
            r == self.max_file_mb(),
    {
        self.max_file_size_mb
    }

    /// Returns the `max_file_size` of this [`AppConfig`] in bytes
    pub fn max_file_size_bytes(&self) -> (r: usize)
        requires
            self.max_file_mb() * MEBIBYTE <= usize::MAX,
        ensures
            r == self.max_file_mb() * MEBIBYTE,
    {
        self.max_file_size_mb * 1024 * 1024
    }

    /// Returns the video enabled of this [`AppConfig`]
    pub fn video_enabled(&self) -> (r: bool)
        ensures
            r == self.video(),
    {
        self.video_enabled
    }

    /// Returns the listen port of this [`AppConfig`]
    pub fn listen_port(&self) -> (r: u16)
        ensures
            r == self.port(),
    {
        self.listen_port
    }
}

impl Default for AppConfig {
    fn default() -> (r: Self)
        ensures
            r.selected_lib() is None,
            !r.telemetry(),
            r.video(),
            r.max_file_mb() == 512,
            r.port() == 8080,
    {
        AppConfig {
            selected_lib_path: None,
            telemetry_enabled: false,
            video_enabled: true,
            max_file_size_mb: 512,
            listen_port: 8080,
        }
    }
}

/// Application configuration error
#[derive(Debug)]
pub enum ConfigError {
    /// Config deserialization error
    DeserializationFailed,
    /// Config serialization error
    SerializationFailed,
    Io(std::io::Error),
}

} // verus!
