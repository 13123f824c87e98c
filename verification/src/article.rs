//! The records that are imported and the settings of one run.

use vstd::prelude::*;

verus! {

/// The settings of one run: the credential and the file that holds the records.
#[derive(Clone, Debug, PartialEq, Eq)]
pub struct Arguments {
    /// Credential that authorizes the calls to the remote service.
    pub key: String,
    /// Path of the file that holds the exported records.
    pub file_path: String,
}

impl Arguments {
    /// Settings with the given credential and path.
    pub fn new(key: String, file_path: String) -> (r: Self)
        ensures
            r.key == key,
            r.file_path == file_path,
    {
        Arguments { key, file_path }
    }
}

impl Default for Arguments {
    fn default() -> (r: Self)
        ensures
            r.key@ == Seq::<char>::empty(),
            r.file_path@ == Seq::<char>::empty(),
    {
        Arguments { key: String::new(), file_path: String::new() }
    }
}

/// One bookmark record of the export. Every field is kept as the text the
/// export holds.
#[derive(Clone, Debug, PartialEq, Eq)]
pub struct Article {
    pub title: String,
    pub url: String,
    /// Free-form, comma-separated tags.
    pub document_tags: String,
    /// Timestamp of the export, not interpreted here.
    pub saved_date: String,
    pub reading_progress: String,
    /// Where the record lived in the exporting service, such as `archive` or `inbox`.
    pub location: String,
    pub seen: String,
}

/// The location token of a record that was archived in the exporting service.
pub open spec fn archive_location() -> Seq<char> {
    "archive"@
}

impl Article {
    /// Whether the record has to be archived after it was saved.
    pub open spec fn needs_archive(&self) -> bool {
        self.location@ == archive_location()
    }

    /// Whether the record's location is the archive.
    pub fn is_archived(&self) -> (r: bool)
        ensures
            r == self.needs_archive(),
    {
        let token = String::from_str("archive");
        self.location == token
    }

    /// A copy of the record.
    pub fn duplicate(&self) -> (r: Article)
        ensures
            r == *self,
    {
        Article {
            title: self.title.clone(),
            url: self.url.clone(),
            document_tags: self.document_tags.clone(),
            saved_date: self.saved_date.clone(),
            reading_progress: self.reading_progress.clone(),
            location: self.location.clone(),
            seen: self.seen.clone(),
        }
    }
}

} // verus!
