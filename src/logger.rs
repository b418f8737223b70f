//! Settings of the intrusion log: where lines go and when the log file is
//! to be opened.
use vstd::prelude::*;

verus! {

#[derive(Clone, Copy, Debug, PartialEq, Eq, Structural)]
pub enum OutputMode {
    All,
    FileOnly,
    ConsoleOnly,
    Disabled,
}

/// Whether lines go to the log file.
pub open spec fn spec_writes_file(m: OutputMode) -> bool {
    m == OutputMode::All || m == OutputMode::FileOnly
}

/// Whether lines go to the console.
pub open spec fn spec_writes_console(m: OutputMode) -> bool {
    m == OutputMode::All || m == OutputMode::ConsoleOnly
}

pub fn writes_file(m: OutputMode) -> (r: bool)
    ensures
        r == spec_writes_file(m),
{
    match m {
        OutputMode::All | OutputMode::FileOnly => true,
        _ => false,
    }
}

pub fn writes_console(m: OutputMode) -> (r: bool)
    ensures
        r == spec_writes_console(m),
{
    match m {
        OutputMode::All | OutputMode::ConsoleOnly => true,
        _ => false,
    }
}

/// The log's mode, its file path if one was given, and whether a file is open.
pub struct LogSettings {
    pub mode: OutputMode,
    pub file_path: Option<String>,
    pub file_open: bool,
}

impl LogSettings {
    /// Both outputs, no file yet.
    pub fn new() -> (r: LogSettings)
        ensures
            r.mode == OutputMode::All,
            r.file_path is None,
            !r.file_open,
    {
        LogSettings { mode: OutputMode::All, file_path: None, file_open: false }
    }

    /// Records the file opened (or not) for the current path.
    pub fn file_opened(&mut self, ok: bool)
        ensures
            final(self).file_open == ok,
            final(self).mode == old(self).mode,
            final(self).file_path == old(self).file_path,
    {
        self.file_open = ok;
    }
}

/// Switches the mode. Returns whether the caller is to open the file at the
/// recorded path now: the mode writes to a file, none is open, and a path
/// is known.
pub fn set_output_mode(settings: &mut LogSettings, mode: OutputMode) -> (r: bool)
    ensures
        final(settings).mode == mode,
        final(settings).file_path == old(settings).file_path,
        final(settings).file_open == old(settings).file_open,
        r == (spec_writes_file(mode) && !old(settings).file_open && old(settings).file_path is Some),
{
    settings.mode = mode;
    writes_file(mode) && !settings.file_open && settings.file_path.is_some()
}

/// Records the file path. Returns whether the caller is to (re)open the
/// file at it now: the current mode writes to a file.
pub fn set_log_file(settings: &mut LogSettings, file_path: String) -> (r: bool)
    ensures
        final(settings).mode == old(settings).mode,
        final(settings).file_path == Some(file_path),
        final(settings).file_open == old(settings).file_open,
        r == spec_writes_file(old(settings).mode),
{
    settings.file_path = Some(file_path);
    writes_file(settings.mode)
}

} // verus!
