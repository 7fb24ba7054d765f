//! Named patterns for common date formats, and how each is rendered.
use vstd::prelude::*;
use crate::fixup::{has_placeholder, placeholder, insert_offset_colon, ms_text, replace_placeholder, substitute_ms, with_offset_colon};

verus! {

/// Which calendar breakdown a timestamp is rendered in.
#[derive(Debug, Clone, Copy, PartialEq, Eq, Structural, Hash)]
pub enum Zone {
    Utc,
    Local,
}

/// Format types for common date strings
///
/// This enum provides common date and time format patterns.
#[derive(Debug, Clone, Copy, PartialEq, Eq, Hash)]
pub enum DateFormat {
    /// RFC 3339 (similar to ISO 8601) format: "2025-05-20T14:30:45Z" or "2025-05-20T14:30:45-05:00"
    RFC3339,
    /// RFC 2822 format: "Tue, 20 May 2025 14:30:45 -0500"
    RFC2822,
    /// HTTP format (RFC 7231): "Tue, 20 May 2025 14:30:45 GMT"
    HTTP,
    /// SQL format: "2025-05-20 14:30:45"
    SQL,
    /// US date format: "05/20/2025 02:30:45 PM"
    US,
    /// European date format: "20/05/2025 14:30:45"
    European,
    /// Short date: "05/20/25"
    ShortDate,
    /// Long date: "Tuesday, May 20, 2025"
    LongDate,
    /// Short time: "14:30"
    ShortTime,
    /// Long time: "14:30:45"
    LongTime,
    /// Date and time: "2025-05-20 14:30:45"
    DateTime,
    /// Custom format string
    Custom(&'static str),
}

impl DateFormat {
    /// The pattern used at seconds resolution.
    pub open spec fn spec_pattern(&self) -> Seq<char> {
        match self {
            DateFormat::RFC3339 => "%Y-%m-%dT%H:%M:%S%z"@,
            DateFormat::RFC2822 => "%a, %d %b %Y %H:%M:%S %z"@,
            DateFormat::HTTP => "%a, %d %b %Y %H:%M:%S GMT"@,
            DateFormat::SQL => "%Y-%m-%d %H:%M:%S"@,
            DateFormat::US => "%m/%d/%Y %I:%M:%S %p"@,
            DateFormat::European => "%d/%m/%Y %H:%M:%S"@,
            DateFormat::ShortDate => "%m/%d/%y"@,
            DateFormat::LongDate => "%A, %B %d, %Y"@,
            DateFormat::ShortTime => "%H:%M"@,
            DateFormat::LongTime => "%H:%M:%S"@,
            DateFormat::DateTime => "%Y-%m-%d %H:%M:%S"@,
            DateFormat::Custom(p) => p@,
        }
    }

    /// The pattern used at millisecond resolution: RFC 3339, SQL, DateTime
    /// and LongTime gain a `.{ms}` after the seconds; the others keep their
    /// seconds pattern.
    pub open spec fn spec_ms_pattern(&self) -> Seq<char> {
        match self {
            DateFormat::RFC3339 => "%Y-%m-%dT%H:%M:%S.{ms}%z"@,
            DateFormat::SQL => "%Y-%m-%d %H:%M:%S.{ms}"@,
            DateFormat::DateTime => "%Y-%m-%d %H:%M:%S.{ms}"@,
            DateFormat::LongTime => "%H:%M:%S.{ms}"@,
            _ => self.spec_pattern(),
        }
    }

    /// HTTP dates are always rendered in UTC; the others in the zone asked for.
    pub open spec fn spec_zone_for(&self, requested: Zone) -> Zone {
        match self {
            DateFormat::HTTP => Zone::Utc,
            _ => requested,
        }
    }

    /// Only RFC 3339 output gets the colon put into its trailing offset.
    pub open spec fn spec_fixes_offset(&self) -> bool {
        self is RFC3339
    }

    /// Get the format string for this format
    pub fn get_format_string(&self) -> (r: &'static str)
        ensures
            r@ == self.spec_pattern(),
    {
        match self {
            DateFormat::RFC3339 => "%Y-%m-%dT%H:%M:%S%z",
            DateFormat::RFC2822 => "%a, %d %b %Y %H:%M:%S %z",
            DateFormat::HTTP => "%a, %d %b %Y %H:%M:%S GMT",
            DateFormat::SQL => "%Y-%m-%d %H:%M:%S",
            DateFormat::US => "%m/%d/%Y %I:%M:%S %p",
            DateFormat::European => "%d/%m/%Y %H:%M:%S",
            DateFormat::ShortDate => "%m/%d/%y",
            DateFormat::LongDate => "%A, %B %d, %Y",
            DateFormat::ShortTime => "%H:%M",
            DateFormat::LongTime => "%H:%M:%S",
            DateFormat::DateTime => "%Y-%m-%d %H:%M:%S",
            DateFormat::Custom(p) => p,
        }
    }

    /// Get the format string for this format at millisecond resolution.
    pub fn get_ms_format_string(&self) -> (r: &'static str)
        ensures
            r@ == self.spec_ms_pattern(),
    {
        match self {
            DateFormat::RFC3339 => "%Y-%m-%dT%H:%M:%S.{ms}%z",
            DateFormat::SQL => "%Y-%m-%d %H:%M:%S.{ms}",
            DateFormat::DateTime => "%Y-%m-%d %H:%M:%S.{ms}",
            DateFormat::LongTime => "%H:%M:%S.{ms}",
            _ => self.get_format_string(),
        }
    }

    /// The zone a timestamp is rendered in when `requested` is asked for.
    pub fn zone_for(&self, requested: Zone) -> (r: Zone)
        ensures
            r == self.spec_zone_for(requested),
    {
        match self {
            DateFormat::HTTP => Zone::Utc,
            _ => requested,
        }
    }

    /// Turn what the primitive rendered from this format's seconds pattern
    /// into the final string: RFC 3339 output gets the colon put into its
    /// offset, any other output is returned as it is (a `{ms}` in it stays).
    pub fn finish(&self, rendered: String) -> (r: String)
        ensures
            r@ == if self.spec_fixes_offset() {
                with_offset_colon(rendered@)
            } else {
                rendered@
            },
    {
        if self.fixes_offset() {
            insert_offset_colon(rendered)
        } else {
            rendered
        }
    }

    /// Turn what the primitive rendered from this format's millisecond
    /// pattern into the final string: the `{ms}` placeholder is replaced by
    /// the milliseconds when the pattern holds it, then RFC 3339 output gets
    /// the colon put into its offset.
    pub fn finish_ms(&self, rendered: String, milliseconds: u16) -> (r: String)
        ensures
            ({
                let subst = if has_placeholder(self.spec_ms_pattern()) {
                    replace_placeholder(rendered@, ms_text(milliseconds as nat))
                } else {
                    rendered@
                };
                r@ == if self.spec_fixes_offset() {
                    with_offset_colon(subst)
                } else {
                    subst
                }
            }),
    {
        let pattern = self.get_ms_format_string();
        let s = substitute_ms(rendered, pattern, milliseconds);
        self.finish(s)
    }

    /// Whether rendered output gets the colon put into its trailing offset.
    pub fn fixes_offset(&self) -> (r: bool)
        ensures
            r == self.spec_fixes_offset(),
    {
        match self {
            DateFormat::RFC3339 => true,
            _ => false,
        }
    }
}

/// HTTP dates are rendered in UTC whatever zone is asked for, at either
/// resolution, from a pattern that ends in the literal text ` GMT` and that
/// the finishing step leaves as rendered.
pub proof fn http_dates_end_in_gmt(requested: Zone)
    ensures
        DateFormat::HTTP.spec_zone_for(requested) == Zone::Utc,
        DateFormat::HTTP.spec_ms_pattern() == DateFormat::HTTP.spec_pattern(),
        !DateFormat::HTTP.spec_fixes_offset(),
        ({
            let p = DateFormat::HTTP.spec_pattern();
            &&& p.len() >= 4
            &&& p.subrange(p.len() - 4, p.len() as int) == " GMT"@
            &&& !has_placeholder(p)
        }),
{
    reveal_strlit("%a, %d %b %Y %H:%M:%S GMT");
    reveal_strlit(" GMT");
    let p = DateFormat::HTTP.spec_pattern();
    assert(p.subrange(p.len() - 4, p.len() as int) =~= " GMT"@);
    assert forall|i: int| 0 <= i && i + 4 <= p.len() implies #[trigger] p.subrange(i, i + 4)
        != placeholder() by {
        assert(p.subrange(i, i + 4)[0] == p[i]);
    }
}

/// The ISO 8601 pattern: `Z`-suffixed in UTC, with a numeric offset in
/// local time, and with `.{ms}` after the seconds when `with_ms` holds.
pub open spec fn spec_iso8601_pattern(zone: Zone, with_ms: bool) -> Seq<char> {
    match (zone, with_ms) {
        (Zone::Utc, false) => "%Y-%m-%dT%H:%M:%SZ"@,
        (Zone::Utc, true) => "%Y-%m-%dT%H:%M:%S.{ms}Z"@,
        (Zone::Local, false) => "%Y-%m-%dT%H:%M:%S%z"@,
        (Zone::Local, true) => "%Y-%m-%dT%H:%M:%S.{ms}%z"@,
    }
}

/// The ISO 8601 pattern for `zone`, with or without milliseconds.
pub fn iso8601_pattern(zone: Zone, with_ms: bool) -> (r: &'static str)
    ensures
        r@ == spec_iso8601_pattern(zone, with_ms),
{
    match (zone, with_ms) {
        (Zone::Utc, false) => "%Y-%m-%dT%H:%M:%SZ",
        (Zone::Utc, true) => "%Y-%m-%dT%H:%M:%S.{ms}Z",
        (Zone::Local, false) => "%Y-%m-%dT%H:%M:%S%z",
        (Zone::Local, true) => "%Y-%m-%dT%H:%M:%S.{ms}%z",
    }
}

} // verus!
