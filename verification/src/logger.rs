//! The process-wide file-writer slot and the rotating-writer build plan.
//!
//! The file writer itself is an external collaborator that writes to disk; the
//! library decides everything about it: the build plan derived from a
//! [`WriterConfig`], and the slot discipline — first initialization creates
//! the writer, later updates replace it in place, and the slot, once
//! initialized, is never nulled.

use crate::structure::WriterConfig;
use vstd::prelude::*;

verus! {

/// Everything the shell needs to build the rotating file writer: base name
/// `service`, the current file carries the infix `latest`, rotated files a
/// timestamp, rotation at `rotate_size` bytes, at most `keep_files` retained.
pub struct WriterPlan {
    pub directory: String,
    pub basename: String,
    pub current_infix: String,
    pub timestamp_format: String,
    pub rotate_size: u64,
    pub keep_files: usize,
}

/// Derive the build plan of the rotating file writer from its configuration.
pub fn service_writer(config: &WriterConfig) -> (r: WriterPlan)
    ensures
        r.directory@ == config.directory@,
        r.basename@ == "service"@,
        r.current_infix@ == "latest"@,
        r.timestamp_format@ == "%Y-%m-%d_%H-%M-%S"@,
        r.rotate_size == config.max_log_size,
        r.keep_files == config.max_log_files,
{
    WriterPlan {
        directory: config.directory.clone(),
        basename: "service".to_owned(),
        current_infix: "latest".to_owned(),
        timestamp_format: "%Y-%m-%d_%H-%M-%S".to_owned(),
        rotate_size: config.max_log_size,
        keep_files: config.max_log_files,
    }
}

/// The holder of the current file-writer configuration. `None` only before
/// the first successful initialization.
pub struct WriterSlot {
    pub current: Option<WriterConfig>,
}

/// What an update attempt does to the slot: a successfully built writer
/// replaces the current one; a failed build leaves the slot untouched.
pub open spec fn spec_writer_update(
    cur: Option<WriterConfig>,
    config: WriterConfig,
    built_ok: bool,
) -> Option<WriterConfig> {
    if built_ok {
        Some(config)
    } else {
        cur
    }
}

impl WriterSlot {
    pub fn new() -> (r: WriterSlot)
        ensures
            r.current is None,
    {
        WriterSlot { current: None }
    }

    /// Install a newly built writer, or report why none could be built.
    ///
    /// `built` is the outcome of the shell's attempt to build a writer from
    /// `config`; the slot is replaced exactly when that attempt succeeded.
    pub fn set_or_update_writer(&mut self, config: &WriterConfig, built: Result<(), String>) -> (r:
        Result<(), String>)
        ensures
            final(self).current == spec_writer_update(old(self).current, *config, built is Ok),
            r is Ok <==> built is Ok,
            built is Err ==> r == built,
    {
        match built {
            Ok(()) => {
                self.current = Some(config.clone());
                Ok(())
            },
            Err(e) => Err(e),
        }
    }

    /// The configuration governing the current writer, if one was installed.
    pub fn get_writer(&self) -> (r: Option<&WriterConfig>)
        ensures
            match r {
                Some(c) => self.current == Some(*c),
                None => self.current is None,
            },
    {
        self.current.as_ref()
    }
}

/// Once the slot is initialized it is never nulled: every update leaves it
/// holding some configuration.
pub proof fn lemma_writer_never_nulled(
    cur: Option<WriterConfig>,
    config: WriterConfig,
    built_ok: bool,
)
    requires
        cur is Some,
    ensures
        spec_writer_update(cur, config, built_ok) is Some,
{
}

} // verus!
