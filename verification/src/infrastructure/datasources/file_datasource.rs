//! A pricing list in a local file.

use crate::domain::ports::outgoing::DataSource;
use vstd::prelude::*;

verus! {

/// The name of the kind of source, for the log.
pub const FILE_SOURCE_NAME: &'static str = "file";

/// A pricing list in a local file.
#[derive(Debug, Clone)]
pub struct FileDataSource {
    path: String,
}

impl FileDataSource {
    /// The path of the file.
    pub closed spec fn path_view(&self) -> Seq<char> {
        self.path@
    }

    /// The source that reads the file at `path`.
    pub fn new(path: String) -> (source: Self)
        ensures
            source.path_view() == path@,
    {
        Self { path }
    }

    /// The path of the file.
    pub fn path(&self) -> (path: &str)
        ensures
            path@ == self.path_view(),
    {
        self.path.as_str()
    }
}

impl DataSource for FileDataSource {
    fn name(&self) -> (name: &str)
        ensures
            name@ == FILE_SOURCE_NAME@,
    {
        FILE_SOURCE_NAME
    }
}

} // verus!
