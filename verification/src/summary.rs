//! The finding counts that a scan reports.

use crate::json::{parse, parsed_json, Json, JsonValue};
use vstd::prelude::*;

verus! {

/// Finding counts by severity, as the tool's JSON output gives them.
#[derive(Debug, Clone, Copy, PartialEq, Eq)]
pub struct ScanSummary {
    pub total: i32,
    pub critical: i32,
    pub high: i32,
    pub medium: i32,
    pub low: i32,
}

impl ScanSummary {
    /// No count is negative. Every summary that is read from a document is
    /// such a summary.
    pub open spec fn wf(self) -> bool {
        &&& self.total >= 0
        &&& self.critical >= 0
        &&& self.high >= 0
        &&& self.medium >= 0
        &&& self.low >= 0
    }
}

/// Whether `n` can stand as a count: it is not negative and fits the 32
/// signed bits of a count.
pub open spec fn countable(n: i64) -> bool {
    0 <= n <= i32::MAX
}

/// The count that the summary object `summary` gives under `key`: the
/// member's value where it is an integer that can stand as a count, and zero
/// where the member is missing or is anything else.
pub open spec fn count(summary: JsonValue, key: Seq<char>) -> i32 {
    match summary.get(key) {
        Some(member) => match member.as_i64() {
            Some(n) => if countable(n) {
                n as i32
            } else {
                0
            },
            None => 0,
        },
        None => 0,
    }
}

/// The counts that the summary object `summary` gives.
pub open spec fn counts(summary: JsonValue) -> ScanSummary {
    ScanSummary {
        total: count(summary, "total"@),
        critical: count(summary, "critical"@),
        high: count(summary, "high"@),
        medium: count(summary, "medium"@),
        low: count(summary, "low"@),
    }
}

/// The summary that a decoded document carries: the counts of its `summary`
/// member, where the document was decoded and has that member, and the
/// member is an object.
pub open spec fn decoded_summary(document: Option<JsonValue>) -> Option<ScanSummary> {
    match document {
        Some(root) => match root.get("summary"@) {
            Some(summary) => if summary is Object {
                Some(counts(summary))
            } else {
                None
            },
            None => None,
        },
        None => None,
    }
}

/// A summary object decides each count by itself. A count that it gives as an
/// integer from zero to the largest of 32 signed bits is decoded as that
/// integer. A count that it lacks, or gives as anything else, is zero. So no
/// count is negative.
pub proof fn count_follows_member(summary: JsonValue, key: Seq<char>)
    ensures
        count(summary, key) >= 0,
        summary.get(key) is None ==> count(summary, key) == 0,
        summary.get(key) matches Some(member) ==> (member.as_i64() is None ==> count(summary, key)
            == 0),
        summary.get(key) matches Some(member) ==> (member.as_i64() matches Some(n) ==> (countable(n)
            ==> count(summary, key) == n)),
        summary.get(key) matches Some(member) ==> (member.as_i64() matches Some(n) ==> (!countable(
            n,
        ) ==> count(summary, key) == 0)),
{
}

/// A document whose `summary` member is an object has a summary, whichever
/// of the five counts the object holds: each count follows its own member,
/// as [`count_follows_member`] says, and the ones that are missing are zero.
pub proof fn summary_follows_members(root: JsonValue, summary: JsonValue)
    requires
        root.get("summary"@) == Some(summary),
        summary is Object,
    ensures
        decoded_summary(Some(root)) matches Some(decoded) && {
            &&& decoded.total == count(summary, "total"@)
            &&& decoded.critical == count(summary, "critical"@)
            &&& decoded.high == count(summary, "high"@)
            &&& decoded.medium == count(summary, "medium"@)
            &&& decoded.low == count(summary, "low"@)
            &&& summary.get("total"@) is None ==> decoded.total == 0
            &&& summary.get("critical"@) is None ==> decoded.critical == 0
            &&& summary.get("high"@) is None ==> decoded.high == 0
            &&& summary.get("medium"@) is None ==> decoded.medium == 0
            &&& summary.get("low"@) is None ==> decoded.low == 0
        },
{
}

/// A document has a summary if and only if it was decoded and its `summary`
/// member is an object. Output that is not JSON, JSON without a `summary`
/// member, and JSON whose `summary` member is anything but an object have
/// none.
pub proof fn summary_needs_object(document: Option<JsonValue>)
    ensures
        decoded_summary(document) is Some <==> (document matches Some(root) && (root.get(
            "summary"@,
        ) matches Some(summary) && summary is Object)),
{
}

/// No count of a summary that a document carries is negative.
pub proof fn summary_is_well_formed(document: Option<JsonValue>)
    ensures
        decoded_summary(document) matches Some(summary) ==> summary.wf(),
{
}

/// Reads one count of a summary object.
fn read_count(summary: &Json, key: &str) -> (n: i32)
    ensures
        n == count(summary@, key@),
{
    match summary.get(key) {
        Some(member) => match member.as_i64() {
            Some(n) => if 0 <= n && n <= 2147483647 {
                n as i32
            } else {
                0
            },
            None => 0,
        },
        None => 0,
    }
}

/// Reads the summary out of a decoded document; `None` stands for output
/// that is not JSON.
pub fn read_summary(document: &Option<Json>) -> (summary: Option<ScanSummary>)
    ensures
        summary == decoded_summary(document.deep_view()),
        summary matches Some(read) ==> read.wf(),
{
    match document {
        Some(root) => match root.get("summary") {
            Some(summary) => if summary.is_object() {
                Some(
                    ScanSummary {
                        total: read_count(summary, "total"),
                        critical: read_count(summary, "critical"),
                        high: read_count(summary, "high"),
                        medium: read_count(summary, "medium"),
                        low: read_count(summary, "low"),
                    },
                )
            } else {
                None
            },
            None => None,
        },
        None => None,
    }
}

/// Decodes the tool's output and reads its summary. Output that is not JSON,
/// or whose `summary` member is missing or is not an object, has none.
pub fn parse_summary(output: &str) -> (summary: Option<ScanSummary>)
    ensures
        summary == decoded_summary(parsed_json(output@)),
        summary matches Some(read) ==> read.wf(),
{
    let document = parse(output);
    read_summary(&document)
}

} // verus!
