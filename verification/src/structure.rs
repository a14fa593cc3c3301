//! The data model of the service: the start-request configuration, the
//! file-writer configuration, and the wire response envelope.

use vstd::prelude::*;

verus! {

/// The body of a start request: where the child binary lives and how its
/// output is written to disk.
#[derive(Debug)]
pub struct ClashConfig {
    pub core_config: CoreConfig,
    pub log_config: WriterConfig,
}

/// How the child process is spawned: the executable and the two values passed
/// to it verbatim as `-d <config_dir> -f <config_path>`.
#[derive(Debug)]
pub struct CoreConfig {
    pub core_path: String,
    pub config_path: String,
    pub config_dir: String,
}

/// Governs the rotating file log writer: base directory, the size at which the
/// current file is rotated, and how many rotated files are retained.
#[derive(Debug)]
pub struct WriterConfig {
    pub directory: String,
    pub max_log_size: u64,
    pub max_log_files: usize,
}

/// The JSON response envelope: `code == 0` means success; any non-zero code is
/// a domain error. The HTTP status carries the transport-level outcome
/// independently.
#[derive(Debug)]
pub struct Response<T> {
    pub code: u16,
    pub message: String,
    pub data: Option<T>,
}

impl Clone for CoreConfig {
    fn clone(&self) -> (r: Self)
        ensures
            r == *self,
    {
        CoreConfig {
            core_path: self.core_path.clone(),
            config_path: self.config_path.clone(),
            config_dir: self.config_dir.clone(),
        }
    }
}

impl Clone for WriterConfig {
    fn clone(&self) -> (r: Self)
        ensures
            r == *self,
    {
        WriterConfig {
            directory: self.directory.clone(),
            max_log_size: self.max_log_size,
            max_log_files: self.max_log_files,
        }
    }
}

impl Clone for ClashConfig {
    fn clone(&self) -> (r: Self)
        ensures
            r == *self,
    {
        ClashConfig { core_config: self.core_config.clone(), log_config: self.log_config.clone() }
    }
}

impl core::default::Default for CoreConfig {
    /// Placeholder paths, only meaningful for tests.
    fn default() -> (r: Self)
        ensures
            r.core_path@ == "./clash"@,
            r.config_path@ == "./config.yaml"@,
            r.config_dir@ == "./configs"@,
    {
        CoreConfig {
            core_path: "./clash".to_owned(),
            config_path: "./config.yaml".to_owned(),
            config_dir: "./configs".to_owned(),
        }
    }
}

impl core::default::Default for WriterConfig {
    /// Ten-megabyte rotation threshold, eight retained files.
    fn default() -> (r: Self)
        ensures
            r.directory@ == "./logs"@,
            r.max_log_size == 10485760,
            r.max_log_files == 8,
    {
        WriterConfig {
            directory: "./logs".to_owned(),
            max_log_size: 10 * 1024 * 1024,
            max_log_files: 8,
        }
    }
}

impl core::default::Default for ClashConfig {
    fn default() -> (r: Self)
        ensures
            r.core_config.core_path@ == "./clash"@,
            r.core_config.config_path@ == "./config.yaml"@,
            r.core_config.config_dir@ == "./configs"@,
            r.log_config.directory@ == "./logs"@,
            r.log_config.max_log_size == 10485760,
            r.log_config.max_log_files == 8,
    {
        ClashConfig { core_config: CoreConfig::default(), log_config: WriterConfig::default() }
    }
}

} // verus!
