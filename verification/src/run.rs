//! What a run does with its root path and with each file it finds.
//!
//! Nothing here touches the filesystem or the console: the functions take
//! what the caller has found out and say what is to be done.

use vstd::prelude::*;

verus! {

/// What a run is started on.
#[derive(Clone, Copy, Debug, PartialEq, Eq, Structural)]
pub enum RootKind {
    /// A single file: it is the only one processed.
    File,
    /// A directory: the files below it are processed.
    Directory,
}

/// Why a run cannot start. Either ends the whole run.
#[derive(Clone, Copy, Debug, PartialEq, Eq, Structural)]
pub enum Fatal {
    /// The root path does not exist.
    Missing,
    /// The root path is neither a file nor a directory.
    Unsupported,
}

/// What is done for one file once its date is resolved.
#[derive(Debug, PartialEq, Eq)]
pub enum Action {
    /// Rename the file to a name made from this date.
    Commit(String),
    /// Report this date and change nothing.
    ReportDate(String),
    /// Report that the file has no date and change nothing.
    ReportMissing,
    /// Do nothing.
    Pass,
}

impl Action {
    /// Whether the action changes the filesystem.
    pub open spec fn mutates(self) -> bool {
        self is Commit
    }
}

/// The kind of a root path with these properties, or why there is none.
pub open spec fn root_kind(exists: bool, is_file: bool, is_directory: bool) -> Result<
    RootKind,
    Fatal,
> {
    if !exists {
        Err(Fatal::Missing)
    } else if is_file {
        Ok(RootKind::File)
    } else if is_directory {
        Ok(RootKind::Directory)
    } else {
        Err(Fatal::Unsupported)
    }
}

/// Whether `action` is what is done for a file whose date resolved to
/// `resolved`. A date is committed only where the run writes; without
/// writing, a verbose run reports and a quiet one does nothing.
pub open spec fn decided(
    resolved: Option<Seq<char>>,
    write: bool,
    verbose: bool,
    action: Action,
) -> bool {
    match resolved {
        Some(date) => if write {
            action matches Action::Commit(d) && d@ == date
        } else if verbose {
            action matches Action::ReportDate(d) && d@ == date
        } else {
            action is Pass
        },
        None => if verbose {
            action is ReportMissing
        } else {
            action is Pass
        },
    }
}

/// Decides how a run starts from what is known of its root path.
pub fn classify_root(exists: bool, is_file: bool, is_directory: bool) -> (r: Result<
    RootKind,
    Fatal,
>)
    ensures
        r == root_kind(exists, is_file, is_directory),
{
    if !exists {
        Err(Fatal::Missing)
    } else if is_file {
        Ok(RootKind::File)
    } else if is_directory {
        Ok(RootKind::Directory)
    } else {
        Err(Fatal::Unsupported)
    }
}

/// Decides what is done for a file whose date resolved to `resolved`.
///
/// A run that does not write never changes the filesystem.
pub fn decide(resolved: Option<String>, write: bool, verbose: bool) -> (action: Action)
    ensures
        decided(resolved.deep_view(), write, verbose, action),
        !write ==> !action.mutates(),
{
    match resolved {
        Some(date) => {
            if write {
                Action::Commit(date)
            } else if verbose {
                Action::ReportDate(date)
            } else {
                Action::Pass
            }
        },
        None => {
            if verbose {
                Action::ReportMissing
            } else {
                Action::Pass
            }
        },
    }
}

} // verus!
