//! From what a finished run left behind to what the caller is told.
//!
//! A run leaves an exit status and two captured streams, both taken as text.
//! The text that counts is standard output, or standard error where standard
//! output is empty. That text is shown to the caller as it is, and the finding
//! counts are read from it where it is JSON.

use crate::json::{parse, parsed_json};
use crate::summary::{decoded_summary, read_summary, ScanSummary};
use crate::text::{trim, trimmed};
use vstd::prelude::*;
use vstd::string::StringExecFns;

verus! {

/// What a scan came to.
#[derive(Debug, PartialEq, Eq)]
pub struct ScanResult {
    /// Whether the tool exited successfully.
    pub success: bool,
    /// The text that the tool printed.
    pub output: String,
    /// The finding counts, where the output is JSON whose `summary` member is
    /// an object.
    pub summary: Option<ScanSummary>,
}

/// The mathematical value of a [`ScanResult`].
pub ghost struct ScanResultView {
    pub success: bool,
    pub output: Seq<char>,
    pub summary: Option<ScanSummary>,
}

impl View for ScanResult {
    type V = ScanResultView;

    open spec fn view(&self) -> ScanResultView {
        ScanResultView { success: self.success, output: self.output@, summary: self.summary }
    }
}

impl Clone for ScanResult {
    fn clone(&self) -> (copy: ScanResult)
        ensures
            copy@ == self@,
    {
        ScanResult { success: self.success, output: self.output.clone(), summary: self.summary }
    }
}

impl DeepView for ScanResult {
    type V = ScanResultView;

    open spec fn deep_view(&self) -> ScanResultView {
        self@
    }
}

/// The mathematical value of a result or the message in its place.
pub open spec fn result_view(outcome: Result<ScanResult, String>) -> Result<
    ScanResultView,
    Seq<char>,
> {
    match outcome {
        Ok(result) => Ok(result@),
        Err(message) => Err(message@),
    }
}

/// The mathematical value of a text or the message in its place.
pub open spec fn text_view(outcome: Result<String, String>) -> Result<Seq<char>, Seq<char>> {
    match outcome {
        Ok(text) => Ok(text@),
        Err(message) => Err(message@),
    }
}

/// The text that counts: standard output, or standard error where standard
/// output is empty.
pub open spec fn selected_output(stdout: Seq<char>, stderr: Seq<char>) -> Seq<char> {
    if stdout.len() > 0 {
        stdout
    } else {
        stderr
    }
}

/// The result that a run with this exit status and these streams comes to.
pub open spec fn structured_result(
    success: bool,
    stdout: Seq<char>,
    stderr: Seq<char>,
) -> ScanResultView {
    let output = selected_output(stdout, stderr);
    ScanResultView { success, output, summary: decoded_summary(parsed_json(output)) }
}

/// Whether a plain scan counts as failed: the tool exited with a failure
/// and printed nothing on standard output.
pub open spec fn scan_failed(success: bool, stdout: Seq<char>) -> bool {
    !success && stdout.len() == 0
}

/// The message for a failed scan, which carries standard error.
pub open spec fn scan_failure(stderr: Seq<char>) -> Seq<char> {
    "Scan failed: "@ + stderr
}

/// The outcome of a plain scan: the failure message where the scan counts as
/// failed, and the structured result otherwise.
pub open spec fn scan_outcome(success: bool, stdout: Seq<char>, stderr: Seq<char>) -> Result<
    ScanResultView,
    Seq<char>,
> {
    if scan_failed(success, stdout) {
        Err(scan_failure(stderr))
    } else {
        Ok(structured_result(success, stdout, stderr))
    }
}

/// The outcome of a scan in report format: the failure message where the
/// scan counts as failed, and otherwise the text that counts, as it is.
pub open spec fn report_outcome(success: bool, stdout: Seq<char>, stderr: Seq<char>) -> Result<
    Seq<char>,
    Seq<char>,
> {
    if scan_failed(success, stdout) {
        Err(scan_failure(stderr))
    } else {
        Ok(selected_output(stdout, stderr))
    }
}

/// Picks the text that counts.
pub fn select_output(stdout: String, stderr: String) -> (output: String)
    ensures
        output@ == selected_output(stdout@, stderr@),
        stdout@.len() > 0 ==> output@ == stdout@,
        stdout@.len() == 0 ==> output@ == stderr@,
{
    if stdout.as_str().is_empty() {
        stderr
    } else {
        stdout
    }
}

/// Builds the structured result of a run, whatever its exit status.
fn structure(success: bool, stdout: String, stderr: String) -> (result: ScanResult)
    ensures
        result@ == structured_result(success, stdout@, stderr@),
        result.summary matches Some(summary) ==> summary.wf(),
{
    let output = select_output(stdout, stderr);
    let document = parse(output.as_str());
    let summary = read_summary(&document);
    ScanResult { success, output, summary }
}

/// Builds the message for a failed scan.
fn failure_message(stderr: &str) -> (message: String)
    ensures
        message@ == scan_failure(stderr@),
{
    String::from_str("Scan failed: ").concat(stderr)
}

/// Normalizes a plain scan.
///
/// A run that exited with a failure and printed nothing on standard output is
/// an error, which carries standard error. Any other run gives a result: its
/// exit status, the text that counts, and the summary read from that text.
pub fn normalize_scan(success: bool, stdout: String, stderr: String) -> (outcome: Result<
    ScanResult,
    String,
>)
    ensures
        result_view(outcome) == scan_outcome(success, stdout@, stderr@),
        outcome is Err <==> !success && stdout@.len() == 0,
        outcome matches Ok(result) ==> result.success == success && result.output@
            == selected_output(stdout@, stderr@),
        outcome matches Ok(result) ==> (stdout@.len() > 0 ==> result.output@ == stdout@),
        outcome matches Ok(result) ==> (stdout@.len() == 0 ==> result.output@ == stderr@),
        outcome matches Ok(result) ==> (parsed_json(result.output@) is None ==> result.summary
            is None),
        outcome matches Ok(result) ==> (result.summary matches Some(summary) ==> summary.wf()),
{
    if !success && stdout.as_str().is_empty() {
        Err(failure_message(stderr.as_str()))
    } else {
        Ok(structure(success, stdout, stderr))
    }
}

/// Normalizes a run that was asked to fix what it finds.
///
/// Such a run always gives a result, also where the tool exited with a
/// failure and printed nothing on standard output.
pub fn normalize_fix(success: bool, stdout: String, stderr: String) -> (result: ScanResult)
    ensures
        result@ == structured_result(success, stdout@, stderr@),
        result.success == success,
        result.output@ == selected_output(stdout@, stderr@),
        stdout@.len() > 0 ==> result.output@ == stdout@,
        stdout@.len() == 0 ==> result.output@ == stderr@,
        parsed_json(result.output@) is None ==> result.summary is None,
        result.summary matches Some(summary) ==> summary.wf(),
{
    structure(success, stdout, stderr)
}

/// Normalizes a scan in report format: the text that counts is handed on as
/// it is, and nothing is decoded.
pub fn normalize_report(success: bool, stdout: String, stderr: String) -> (outcome: Result<
    String,
    String,
>)
    ensures
        text_view(outcome) == report_outcome(success, stdout@, stderr@),
        outcome is Err <==> !success && stdout@.len() == 0,
{
    if !success && stdout.as_str().is_empty() {
        Err(failure_message(stderr.as_str()))
    } else {
        Ok(select_output(stdout, stderr))
    }
}

/// The version text of a version query: what the tool printed on standard
/// output, without the white space at either end.
pub fn version_text(stdout: &str) -> (version: String)
    ensures
        version@ == trimmed(stdout@),
{
    trim(stdout)
}

} // verus!
