//! A change notifier for remote content sources.
//!
//! The library keeps a registry of monitored sources, decides for each one
//! whether it has published something newer than the last recorded check,
//! and models the durable-write discipline of the backing store.

pub mod check;
pub mod connection;
pub mod model;
pub mod repository;
pub mod rss;
pub mod source_type;
pub mod store;

pub use check::{CheckError, CheckOutcome, FeedEvent};
pub use connection::{ConnectionFactory, RSSConnection};
pub use model::{Source, SourceView, Timestamp};
pub use repository::SourceRepository;
pub use source_type::SourceType;
pub use store::StoreFiles;
