//! One source's check step, and the laws of the check cycle.
//!
//! The cycle walks every stored source; for each one the transport layer
//! outside the library fetches the check endpoint, runs the feed parser over
//! the text, and hands `check_step` the event that came of it: the first
//! entry's published-date string, or the fact of a transport or feed-parse
//! failure. `check_step` decides everything else: turn the string into the
//! current publication timestamp, compare it with the recorded baseline,
//! emit the notification verdict, and persist the derived record. Each
//! source is handled independently: a failure is reported against that
//! source alone and leaves the registry untouched.

use vstd::prelude::*;

use crate::model::{Source, SourceView};
use crate::repository::SourceRepository;
use crate::rss;
use crate::rss::extracted_utc;
use crate::source_type::SourceType;

verus! {

/// Why one source's check failed. Transport: the endpoint could not be
/// fetched. Format: the fetched text is not a recognized feed, has no dated
/// entry, or its date does not match the source's pattern. Unsupported: the
/// source's type has no fetcher implementation.
#[derive(Clone, Copy, Debug, PartialEq, Eq, Structural)]
pub enum CheckError {
    Transport,
    Format,
    Unsupported,
}

/// What one source's check step came to: the feed moved forward, it did
/// not, or the step failed for the given reason.
#[derive(Clone, Copy, Debug, PartialEq, Eq, Structural)]
pub enum CheckOutcome {
    Notified,
    Unchanged,
    Failed(CheckError),
}

/// A notification is owed exactly when a baseline exists and is strictly
/// older than the current timestamp. A first successful check has no
/// baseline and never notifies.
pub open spec fn should_notify(last: Option<int>, current: int) -> bool {
    last is Some && last.unwrap() < current
}

/// The record the cycle persists after a successful fetch: the same source,
/// with the current timestamp as its new baseline. Persistence is
/// unconditional on the comparison: an older timestamp is recorded verbatim.
pub open spec fn recorded(s: SourceView, current: int) -> SourceView {
    SourceView { last_at: Some(current), ..s }
}

/// Registry contents after one source's step: a successful fetch upserts the
/// derived record under the source's name; any failure leaves the registry
/// untouched.
pub open spec fn step_map(
    m: Map<Seq<char>, SourceView>,
    s: SourceView,
    fetched: Option<int>,
) -> Map<Seq<char>, SourceView> {
    match fetched {
        Some(t) => m.insert(s.name, recorded(s, t)),
        None => m,
    }
}

/// What the transport layer and the feed parser came back with for one
/// source: the first entry's published-date string, or the failure of the
/// fetch itself, or of the feed parse — no recognized feed, no entry, or no
/// publish date on the first entry.
#[derive(Clone, Debug, PartialEq, Eq)]
pub enum FeedEvent {
    TransportFailed,
    ParseFailed,
    Published(String),
}

/// The published-date string an event carries, if any.
pub open spec fn event_published(e: FeedEvent) -> Option<Seq<char>> {
    match e {
        FeedEvent::Published(d) => Some(d@),
        _ => None,
    }
}

/// The timestamp one source's step works with: `None` on an unsupported
/// type, a transport or feed-parse failure, or a pattern mismatch.
pub open spec fn fetched_of(s: SourceView, published: Option<Seq<char>>) -> Option<int> {
    if s.typ != SourceType::RSS {
        None
    } else {
        match published {
            None => None,
            Some(d) => extracted_utc(d, s.datetime_format, s.offset),
        }
    }
}

/// One source, checked to completion on the event its fetch produced.
pub fn check_step(repo: &mut SourceRepository, s: &Source, event: &FeedEvent) -> (r: CheckOutcome)
    requires
        old(repo).wf(),
    ensures
        final(repo).wf(),
        final(repo)@ == step_map(old(repo)@, s@, fetched_of(s@, event_published(*event))),
        match fetched_of(s@, event_published(*event)) {
            Some(t) => r == (if should_notify(s@.last_at, t) {
                CheckOutcome::Notified
            } else {
                CheckOutcome::Unchanged
            }),
            None => r == (if s@.typ != SourceType::RSS {
                CheckOutcome::Failed(CheckError::Unsupported)
            } else if *event is TransportFailed {
                CheckOutcome::Failed(CheckError::Transport)
            } else {
                CheckOutcome::Failed(CheckError::Format)
            }),
        },
{
    match *s.typ() {
        SourceType::HTML => CheckOutcome::Failed(CheckError::Unsupported),
        SourceType::RSS => {
            match event {
                FeedEvent::TransportFailed => CheckOutcome::Failed(CheckError::Transport),
                FeedEvent::ParseFailed => CheckOutcome::Failed(CheckError::Format),
                FeedEvent::Published(d) => {
                    match rss::get_last_update_date(
                        d.as_str(),
                        s.datetime_format().as_str(),
                        *s.offset(),
                    ) {
                        Err(e) => CheckOutcome::Failed(e),
                        Ok(current) => {
                            let notify = match s.last_at() {
                                Some(prev) => prev.lt(&current),
                                None => false,
                            };
                            repo.save(&s.with_last_checked_at(current));
                            if notify {
                                CheckOutcome::Notified
                            } else {
                                CheckOutcome::Unchanged
                            }
                        },
                    }
                },
            }
        },
    }
}

/// Law: a source with no baseline never notifies on its first successful
/// check, and that check records the fetched timestamp.
pub proof fn lemma_first_check_silent(m: Map<Seq<char>, SourceView>, s: SourceView, t: int)
    requires
        s.last_at is None,
    ensures
        !should_notify(s.last_at, t),
        step_map(m, s, Some(t)).contains_key(s.name),
        step_map(m, s, Some(t))[s.name].last_at == Some(t),
{
}

/// Law: a current timestamp strictly newer than the baseline notifies —
/// once, since one step yields one verdict — and the baseline advances to
/// the current timestamp.
pub proof fn lemma_newer_notifies(m: Map<Seq<char>, SourceView>, s: SourceView, prev: int, t: int)
    requires
        s.last_at == Some(prev),
        prev < t,
    ensures
        should_notify(s.last_at, t),
        step_map(m, s, Some(t))[s.name] == recorded(s, t),
        step_map(m, s, Some(t))[s.name].last_at == Some(t),
{
}

/// Law: a current timestamp at or behind the baseline does not notify, yet
/// is still recorded verbatim — persistence is unconditional on success, and
/// timestamps are not forced to be monotone.
pub proof fn lemma_stale_still_recorded(
    m: Map<Seq<char>, SourceView>,
    s: SourceView,
    prev: int,
    t: int,
)
    requires
        s.last_at == Some(prev),
        prev >= t,
    ensures
        !should_notify(s.last_at, t),
        step_map(m, s, Some(t))[s.name] == recorded(s, t),
        step_map(m, s, Some(t))[s.name].last_at == Some(t),
{
}

/// Law: per-source isolation. A failed source leaves the registry exactly as
/// it was, so a later source's successful step lands exactly as if the
/// failure had never happened.
pub proof fn lemma_isolation(m: Map<Seq<char>, SourceView>, a: SourceView, b: SourceView, t: int)
    ensures
        step_map(m, a, None) == m,
        step_map(step_map(m, a, None), b, Some(t)) == step_map(m, b, Some(t)),
        step_map(step_map(m, a, None), b, Some(t))[b.name] == recorded(b, t),
{
}

} // verus!
