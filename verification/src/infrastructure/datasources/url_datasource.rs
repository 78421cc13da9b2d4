//! A pricing list behind a URL.

use crate::domain::ports::outgoing::DataSource;
use vstd::prelude::*;

verus! {

/// The name of the kind of source, for the log.
pub const URL_SOURCE_NAME: &'static str = "url";

/// A pricing list that a GET request to a URL returns.
#[derive(Debug, Clone)]
pub struct UrlDataSource {
    url: String,
}

impl UrlDataSource {
    /// The URL that is requested.
    pub closed spec fn url_view(&self) -> Seq<char> {
        self.url@
    }

    /// The source that requests `url`.
    pub fn new(url: String) -> (source: Self)
        ensures
            source.url_view() == url@,
    {
        Self { url }
    }

    /// The URL that is requested.
    pub fn url(&self) -> (url: &str)
        ensures
            url@ == self.url_view(),
    {
        self.url.as_str()
    }
}

impl DataSource for UrlDataSource {
    fn name(&self) -> (name: &str)
        ensures
            name@ == URL_SOURCE_NAME@,
    {
        URL_SOURCE_NAME
    }
}

} // verus!
