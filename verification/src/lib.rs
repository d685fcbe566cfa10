//! A client for the query interface of a MediaWiki encyclopedia.

pub mod client;
pub mod error;
pub mod http;
pub mod images;
pub mod json;
pub mod page;
pub mod params;
pub mod text;

pub use client::Wikipedia;
pub use error::{Error, Result};
pub use images::Iter as ImagesIter;
pub use page::Page;
