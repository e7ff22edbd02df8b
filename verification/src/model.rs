//! The source value record and the timestamp model.
//!
//! A `Source` describes one monitored target. It is immutable by convention:
//! the check cycle never mutates a stored record in place but derives a new
//! one with a different `last_at` through `with_last_checked_at`.

use vstd::prelude::*;

use crate::source_type::SourceType;

verus! {

/// A UTC instant, counted in whole seconds since the Unix epoch.
#[derive(Clone, Copy, Debug, PartialEq, Eq, Structural)]
pub struct Timestamp {
    pub secs: i64,
}

impl View for Timestamp {
    type V = int;

    open spec fn view(&self) -> int {
        self.secs as int
    }
}

impl Timestamp {
    pub fn new(secs: i64) -> (r: Timestamp)
        ensures
            r@ == secs as int,
    {
        Timestamp { secs }
    }

    /// Strictly-before comparison; the freshness test of the check cycle.
    pub fn lt(&self, other: &Timestamp) -> (r: bool)
        ensures
            r == (self@ < other@),
    {
        self.secs < other.secs
    }
}

/// The mathematical value of an optional timestamp.
pub open spec fn opt_view(o: Option<Timestamp>) -> Option<int> {
    match o {
        Some(t) => Some(t@),
        None => None,
    }
}

/// Mathematical value of one source record.
pub ghost struct SourceView {
    pub name: Seq<char>,
    pub target_url: Seq<char>,
    pub check_url: Seq<char>,
    pub typ: SourceType,
    pub offset: int,
    pub datetime_format: Seq<char>,
    pub last_at: Option<int>,
}

/// One monitored target: identity, endpoints, type, fixed UTC offset of the
/// source's local clock (seconds east of UTC), the date pattern used to parse
/// its feed dates, and the timestamp recorded by the last successful check.
#[derive(Debug)]
pub struct Source {
    name: String,
    target_url: String,
    check_url: String,
    typ: SourceType,
    offset: i32,
    datetime_format: String,
    last_at: Option<Timestamp>,
}

impl View for Source {
    type V = SourceView;

    closed spec fn view(&self) -> SourceView {
        SourceView {
            name: self.name@,
            target_url: self.target_url@,
            check_url: self.check_url@,
            typ: self.typ,
            offset: self.offset as int,
            datetime_format: self.datetime_format@,
            last_at: opt_view(self.last_at),
        }
    }
}

impl Clone for Source {
    fn clone(&self) -> (r: Source)
        ensures
            r@ == self@,
    {
        Source {
            name: self.name.clone(),
            target_url: self.target_url.clone(),
            check_url: self.check_url.clone(),
            typ: self.typ,
            offset: self.offset,
            datetime_format: self.datetime_format.clone(),
            last_at: self.last_at,
        }
    }
}

impl Source {
    /// A freshly added source carries no baseline: `last_at` is absent until
    /// the first successful check.
    pub fn new(
        name: String,
        target_url: String,
        check_url: String,
        typ: SourceType,
        datetime_format: String,
        offset: i32,
    ) -> (r: Source)
        ensures
            r@ == (SourceView {
                name: name@,
                target_url: target_url@,
                check_url: check_url@,
                typ,
                offset: offset as int,
                datetime_format: datetime_format@,
                last_at: None,
            }),
    {
        Source { name, target_url, check_url, typ, offset, datetime_format, last_at: None }
    }

    pub fn name(&self) -> (r: &String)
        ensures
            r@ == self@.name,
    {
        &self.name
    }

    pub fn target_url(&self) -> (r: &String)
        ensures
            r@ == self@.target_url,
    {
        &self.target_url
    }

    pub fn check_url(&self) -> (r: &String)
        ensures
            r@ == self@.check_url,
    {
        &self.check_url
    }

    pub fn typ(&self) -> (r: &SourceType)
        ensures
            *r == self@.typ,
    {
        &self.typ
    }

    pub fn offset(&self) -> (r: &i32)
        ensures
            *r as int == self@.offset,
    {
        &self.offset
    }

    pub fn datetime_format(&self) -> (r: &String)
        ensures
            r@ == self@.datetime_format,
    {
        &self.datetime_format
    }

    pub fn last_at(&self) -> (r: Option<Timestamp>)
        ensures
            opt_view(r) == self@.last_at,
    {
        self.last_at
    }

    /// Derives the record the check cycle persists: every field is kept,
    /// only the recorded timestamp changes. The receiver is untouched.
    pub fn with_last_checked_at(&self, date: Timestamp) -> (r: Source)
        ensures
            r@ == (SourceView { last_at: Some(date@), ..self@ }),
    {
        Source {
            name: self.name.clone(),
            target_url: self.target_url.clone(),
            check_url: self.check_url.clone(),
            typ: self.typ,
            offset: self.offset,
            datetime_format: self.datetime_format.clone(),
            last_at: Some(date),
        }
    }
}

} // verus!
