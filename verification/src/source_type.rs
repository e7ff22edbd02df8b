//! The closed set of source kinds the notifier can monitor.

use vstd::prelude::*;

verus! {

/// Kind of a monitored source. Exactly these two variants exist; an unknown
/// type string is a hard parse error, never silently coerced.
#[derive(Clone, Copy, Debug, PartialEq, Eq, Structural)]
pub enum SourceType {
    RSS,
    HTML,
}

/// String-slice equality, decided through the owned-string comparison that
/// the standard library provides.
pub(crate) fn str_eq(a: &str, b: &str) -> (r: bool)
    ensures
        r == (a@ == b@),
{
    a.to_owned() == b.to_owned()
}

/// The Unicode lowercase folding of `s`: a function of the characters alone.
pub uninterp spec fn lower_of(s: Seq<char>) -> Seq<char>;

/// Relies on `str::to_lowercase`: the result depends on the characters
/// alone, with no locale involved.
#[verifier::external_body]
fn lowercase(s: &str) -> (r: String)
    ensures
        r@ == lower_of(s@),
{
    s.to_lowercase()
}

impl SourceType {
    /// Parses a type tag. Only the exact strings `"rss"` and `"html"` are
    /// accepted; anything else is rejected before any record is built.
    pub fn from_str(s: &str) -> (r: Result<SourceType, &'static str>)
        ensures
            s@ == "rss"@ ==> r == Ok::<SourceType, &'static str>(SourceType::RSS),
            s@ == "html"@ ==> r == Ok::<SourceType, &'static str>(SourceType::HTML),
            s@ != "rss"@ && s@ != "html"@ ==> (r matches Err(m) && m@ == "no match"@),
    {
        proof {
            reveal_strlit("rss");
            reveal_strlit("html");
            assert("rss"@.len() == 3);
            assert("html"@.len() == 4);
        }
        if str_eq(s, "rss") {
            Ok(SourceType::RSS)
        } else if str_eq(s, "html") {
            Ok(SourceType::HTML)
        } else {
            Err("no match")
        }
    }

    /// Conversion from a tag already known to be valid up to letter case:
    /// unlike `from_str`, the tag is folded to lowercase first.
    pub fn from(s: &str) -> (r: SourceType)
        requires
            lower_of(s@) == "rss"@ || lower_of(s@) == "html"@,
        ensures
            lower_of(s@) == "rss"@ ==> r == SourceType::RSS,
            lower_of(s@) == "html"@ ==> r == SourceType::HTML,
    {
        proof {
            reveal_strlit("rss");
            reveal_strlit("html");
            assert("rss"@.len() == 3);
            assert("html"@.len() == 4);
        }
        let t = lowercase(s);
        if str_eq(t.as_str(), "rss") {
            SourceType::RSS
        } else {
            SourceType::HTML
        }
    }

    /// `from`, made total: folds the tag to lowercase, converts where the
    /// folding is a known tag, and answers `None` where it is neither.
    pub fn from_folded(s: &str) -> (r: Option<SourceType>)
        ensures
            lower_of(s@) == "rss"@ ==> r == Some(SourceType::RSS),
            lower_of(s@) == "html"@ ==> r == Some(SourceType::HTML),
            lower_of(s@) != "rss"@ && lower_of(s@) != "html"@ ==> r is None,
    {
        proof {
            reveal_strlit("rss");
            reveal_strlit("html");
            assert("rss"@.len() == 3);
            assert("html"@.len() == 4);
        }
        let t = lowercase(s);
        if str_eq(t.as_str(), "rss") || str_eq(t.as_str(), "html") {
            Some(SourceType::from(s))
        } else {
            None
        }
    }

    /// The canonical tag of this type, the inverse of `from_str`.
    pub fn to_string(&self) -> (r: String)
        ensures
            *self == SourceType::RSS ==> r@ == "rss"@,
            *self == SourceType::HTML ==> r@ == "html"@,
    {
        match self {
            SourceType::RSS => "rss".to_owned(),
            SourceType::HTML => "html".to_owned(),
        }
    }
}


} // verus!
