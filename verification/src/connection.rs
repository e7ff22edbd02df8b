//! Per-type fetcher selection.
//!
//! `ConnectionFactory` picks the fetcher configuration for a source by its
//! type tag. The RSS fetcher carries the check endpoint to fetch, the date
//! pattern, and the fixed UTC offset; the transport layer outside the
//! library fetches the endpoint's text and parses the feed, and `get_new`
//! turns the first entry's published-date string into the canonical UTC
//! timestamp. A type with no implementation fails fast with an explicit
//! error, never with a sentinel timestamp.

use vstd::prelude::*;

use crate::check::CheckError;
use crate::model::{Source, Timestamp};
use crate::rss;
use crate::source_type::SourceType;

verus! {

/// The RSS fetcher configuration for one source.
pub struct RSSConnection {
    pub url: String,
    pub datetime_format: String,
    pub offset: i32,
}

impl RSSConnection {
    /// The most recent publication timestamp of the feed at `url`, from the
    /// published-date string its first entry carries, normalized to UTC
    /// under this connection's pattern and offset.
    pub fn get_new(&self, published: &str) -> (r: Result<Timestamp, CheckError>)
        ensures
            match r {
                Ok(t) => rss::extracted_utc(published@, self.datetime_format@, self.offset as int)
                    == Some(t@),
                Err(e) => e == CheckError::Format && rss::extracted_utc(
                    published@,
                    self.datetime_format@,
                    self.offset as int,
                ) is None,
            },
    {
        rss::get_last_update_date(published, self.datetime_format.as_str(), self.offset)
    }
}

/// Selects the fetcher for a source by its type tag.
pub struct ConnectionFactory();

impl ConnectionFactory {
    /// The fetcher for `s`: an RSS connection carrying the source's check
    /// endpoint, pattern and offset — or, for the unimplemented HTML type,
    /// an explicit unsupported error before anything is fetched.
    pub fn create(&self, s: &Source) -> (r: Result<RSSConnection, CheckError>)
        ensures
            match r {
                Ok(c) => s@.typ == SourceType::RSS && c.url@ == s@.check_url
                    && c.datetime_format@ == s@.datetime_format && c.offset as int == s@.offset,
                Err(e) => s@.typ == SourceType::HTML && e == CheckError::Unsupported,
            },
    {
        match *s.typ() {
            SourceType::RSS => Ok(
                RSSConnection {
                    url: s.check_url().clone(),
                    datetime_format: s.datetime_format().clone(),
                    offset: *s.offset(),
                },
            ),
            SourceType::HTML => Err(CheckError::Unsupported),
        }
    }
}

} // verus!
