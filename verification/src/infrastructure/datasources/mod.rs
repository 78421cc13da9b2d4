//! Where the pricing list is read from.

pub mod file_datasource;
pub mod url_datasource;

pub use file_datasource::FileDataSource;
pub use url_datasource::UrlDataSource;
