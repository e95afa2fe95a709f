//! Which source the date of a file is taken from.

use vstd::prelude::*;
use crate::metadata::capture_date_of;
use crate::metadata::format_exif_date;
use crate::metadata::metadata_date;
use crate::modified::format_modified_date;
use crate::modified::modified_date_allows;
use crate::timestamp::CaptureDate;

verus! {

/// The source that the date of a file is taken from.
#[derive(Clone, Copy, Debug, PartialEq, Eq, Structural)]
pub enum Mode {
    /// The embedded capture date where there is one, else the
    /// last-modification time.
    Auto,
    /// The embedded capture date only.
    MetadataOnly,
    /// The last-modification time only.
    FilesystemOnly,
}

impl Mode {
    /// The mode that two switches select, of which at most one is meant to
    /// be set. The first wins where both are.
    pub open spec fn of_flags(metadata_only: bool, filesystem_only: bool) -> Mode {
        if metadata_only {
            Mode::MetadataOnly
        } else if filesystem_only {
            Mode::FilesystemOnly
        } else {
            Mode::Auto
        }
    }

    /// Whether resolving under this mode looks at the contents of a file.
    pub open spec fn reads_contents(self) -> bool {
        self != Mode::FilesystemOnly
    }

    /// Whether resolving under this mode looks at the modification time.
    pub open spec fn reads_modified(self) -> bool {
        self != Mode::MetadataOnly
    }

    /// Tells whether the contents of a file are needed under this mode.
    pub fn wants_contents(self) -> (r: bool)
        ensures
            r == self.reads_contents(),
    {
        match self {
            Mode::FilesystemOnly => false,
            _ => true,
        }
    }

    /// Tells whether the modification time of a file is needed under this
    /// mode.
    pub fn wants_modified(self) -> (r: bool)
        ensures
            r == self.reads_modified(),
    {
        match self {
            Mode::MetadataOnly => false,
            _ => true,
        }
    }

    /// Turns the two switches of a command line into a mode.
    pub fn from_flags(metadata_only: bool, filesystem_only: bool) -> (mode: Mode)
        ensures
            mode == Mode::of_flags(metadata_only, filesystem_only),
    {
        if metadata_only {
            Mode::MetadataOnly
        } else if filesystem_only {
            Mode::FilesystemOnly
        } else {
            Mode::Auto
        }
    }
}

impl Default for Mode {
    fn default() -> (mode: Mode)
        ensures
            mode == Mode::Auto,
    {
        Mode::Auto
    }
}

/// What was read of one file before its date is resolved.
#[derive(Debug, PartialEq, Eq)]
pub struct Snapshot {
    /// The bytes of the file; `None` where it could not be opened or read.
    pub contents: Option<Vec<u8>>,
    /// The last-modification time in whole seconds since the epoch; `None`
    /// where it could not be read or lies before the epoch.
    pub modified: Option<u64>,
}

impl Snapshot {
    /// The capture date embedded in the file, if it could be read.
    pub open spec fn capture_date(self) -> Option<CaptureDate> {
        match self.contents {
            None => None,
            Some(contents) => capture_date_of(contents@),
        }
    }

    /// The date that the metadata resolver gives for the file.
    pub open spec fn metadata_date(self, template: Seq<char>) -> Option<Seq<char>> {
        match self.contents {
            None => None,
            Some(contents) => metadata_date(contents@, template),
        }
    }

    /// Whether `outcome` is a date that resolving the file under `mode` may
    /// give. The metadata resolver has one outcome; the filesystem resolver
    /// has one for each offset that the local time zone may have.
    pub open spec fn resolves_to(
        self,
        mode: Mode,
        template: Seq<char>,
        outcome: Option<Seq<char>>,
    ) -> bool {
        match mode {
            Mode::MetadataOnly => outcome == self.metadata_date(template),
            Mode::FilesystemOnly => modified_date_allows(self.modified, template, outcome),
            Mode::Auto => if self.metadata_date(template) is Some {
                outcome == self.metadata_date(template)
            } else {
                modified_date_allows(self.modified, template, outcome)
            },
        }
    }

    /// The date of the file from its embedded metadata alone.
    pub fn exif_date(&self, date_format: &str) -> (r: Option<String>)
        ensures
            r.deep_view() == self.metadata_date(date_format@),
    {
        match &self.contents {
            None => None,
            Some(contents) => format_exif_date(contents.as_slice(), date_format),
        }
    }
}

/// Resolves the date of a file: from its embedded capture date where the
/// metadata resolver gives one, and else from its last-modification time.
pub fn get_formatted_date(file: &Snapshot, date_format: &str) -> (r: Option<String>)
    ensures
        file.resolves_to(Mode::Auto, date_format@, r.deep_view()),
{
    match file.exif_date(date_format) {
        Some(date) => Some(date),
        None => format_modified_date(file.modified, date_format),
    }
}

/// Resolves the date of a file under `mode`. `None` means that the file has
/// no date under this mode and is to be left alone.
pub fn resolve(file: &Snapshot, mode: Mode, date_format: &str) -> (r: Option<String>)
    ensures
        file.resolves_to(mode, date_format@, r.deep_view()),
{
    match mode {
        Mode::MetadataOnly => file.exif_date(date_format),
        Mode::FilesystemOnly => format_modified_date(file.modified, date_format),
        Mode::Auto => get_formatted_date(file, date_format),
    }
}

/// What a mode does not read does not matter: two snapshots that agree in
/// what the mode reads resolve to the same dates.
pub proof fn lemma_unread_parts_do_not_matter(
    a: Snapshot,
    b: Snapshot,
    mode: Mode,
    template: Seq<char>,
    outcome: Option<Seq<char>>,
)
    requires
        mode.reads_contents() ==> a.contents == b.contents,
        mode.reads_modified() ==> a.modified == b.modified,
    ensures
        a.resolves_to(mode, template, outcome) <==> b.resolves_to(mode, template, outcome),
{
}

/// Metadata takes precedence: for a file whose capture date can be read and
/// rendered, automatic resolution gives what metadata-only resolution
/// gives, and that is the rendered capture date.
pub proof fn lemma_auto_prefers_metadata(
    file: Snapshot,
    template: Seq<char>,
    outcome: Option<Seq<char>>,
)
    requires
        file.capture_date() is Some,
        file.metadata_date(template) is Some,
    ensures
        file.resolves_to(Mode::Auto, template, outcome) <==> file.resolves_to(
            Mode::MetadataOnly,
            template,
            outcome,
        ),
        file.resolves_to(Mode::Auto, template, outcome) <==> outcome == file.metadata_date(
            template,
        ),
{
}

/// For a file without a capture date that can be read, automatic resolution
/// gives what filesystem-only resolution gives.
pub proof fn lemma_auto_falls_back(
    file: Snapshot,
    template: Seq<char>,
    outcome: Option<Seq<char>>,
)
    requires
        file.capture_date() is None,
    ensures
        file.resolves_to(Mode::Auto, template, outcome) <==> file.resolves_to(
            Mode::FilesystemOnly,
            template,
            outcome,
        ),
{
}

} // verus!
