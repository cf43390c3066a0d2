//! How the tool is invoked, and what a run leaves behind.

use vstd::prelude::*;
use vstd::string::StringExecFns;

verus! {

/// The format in which the tool is asked to print.
#[derive(Debug, Clone, Copy, PartialEq, Eq)]
pub enum OutputFormat {
    /// Structured data, from which the finding counts are read.
    Json,
    /// A report for people to read.
    Markdown,
}

/// What a finished run left behind: its exit status and both captured
/// streams, taken as text.
#[derive(Debug, PartialEq, Eq)]
pub struct ProcessOutput {
    /// Whether the process exited successfully.
    pub success: bool,
    pub stdout: String,
    pub stderr: String,
}

/// The mathematical value of a [`ProcessOutput`].
pub ghost struct ProcessOutputView {
    pub success: bool,
    pub stdout: Seq<char>,
    pub stderr: Seq<char>,
}

impl View for ProcessOutput {
    type V = ProcessOutputView;

    open spec fn view(&self) -> ProcessOutputView {
        ProcessOutputView { success: self.success, stdout: self.stdout@, stderr: self.stderr@ }
    }
}

/// The value that the format flag takes for `format`.
pub open spec fn format_name(format: OutputFormat) -> Seq<char> {
    match format {
        OutputFormat::Json => "json"@,
        OutputFormat::Markdown => "markdown"@,
    }
}

/// The arguments of a check: the subcommand, the project path, the format
/// flag with its value, and the fix flag where fixing is asked for.
pub open spec fn check_template(path: Seq<char>, format: OutputFormat, fix: bool) -> Seq<
    Seq<char>,
> {
    let plain = seq!["check"@, path, "--format"@, format_name(format)];
    if fix {
        plain.push("--fix"@)
    } else {
        plain
    }
}

/// The arguments of a fix request, which names the fix flag before the
/// format.
pub open spec fn fix_template(path: Seq<char>) -> Seq<Seq<char>> {
    seq!["check"@, path, "--fix"@, "--format"@, "json"@]
}

/// The arguments of a version query, which also serves as the health check
/// of a candidate.
pub open spec fn version_template() -> Seq<Seq<char>> {
    seq!["--version"@]
}

/// The message for a tool that could not be started, which carries the
/// system's error.
pub open spec fn execution_failure(error: Seq<char>) -> Seq<char> {
    "Failed to execute ohmybug: "@ + error
}

/// The message for a version query that could not be started, which carries
/// the system's error.
pub open spec fn version_failure(error: Seq<char>) -> Seq<char> {
    "Failed to get version: "@ + error
}

/// Names the value that the format flag takes for `format`.
pub fn format_flag(format: OutputFormat) -> (name: String)
    ensures
        name@ == format_name(format),
{
    match format {
        OutputFormat::Json => String::from_str("json"),
        OutputFormat::Markdown => String::from_str("markdown"),
    }
}

/// Builds the arguments of a check of the project at `path`.
pub fn check_arguments(path: &str, format: OutputFormat, fix: bool) -> (arguments: Vec<String>)
    ensures
        arguments.deep_view() == check_template(path@, format, fix),
{
    let mut arguments: Vec<String> = Vec::new();
    arguments.push(String::from_str("check"));
    arguments.push(String::from_str(path));
    arguments.push(String::from_str("--format"));
    arguments.push(format_flag(format));
    if fix {
        arguments.push(String::from_str("--fix"));
    }
    assert(arguments.deep_view() =~= check_template(path@, format, fix));
    arguments
}

/// Builds the arguments of a fix request for the project at `path`.
pub fn fix_arguments(path: &str) -> (arguments: Vec<String>)
    ensures
        arguments.deep_view() == fix_template(path@),
{
    let mut arguments: Vec<String> = Vec::new();
    arguments.push(String::from_str("check"));
    arguments.push(String::from_str(path));
    arguments.push(String::from_str("--fix"));
    arguments.push(String::from_str("--format"));
    arguments.push(String::from_str("json"));
    assert(arguments.deep_view() =~= fix_template(path@));
    arguments
}

/// Builds the arguments of a version query.
pub fn version_arguments() -> (arguments: Vec<String>)
    ensures
        arguments.deep_view() == version_template(),
{
    let mut arguments: Vec<String> = Vec::new();
    arguments.push(String::from_str("--version"));
    assert(arguments.deep_view() =~= version_template());
    arguments
}

/// Builds the message for a tool that could not be started.
pub fn execution_failure_message(error: &str) -> (message: String)
    ensures
        message@ == execution_failure(error@),
{
    String::from_str("Failed to execute ohmybug: ").concat(error)
}

/// Builds the message for a version query that could not be started.
pub fn version_failure_message(error: &str) -> (message: String)
    ensures
        message@ == version_failure(error@),
{
    String::from_str("Failed to get version: ").concat(error)
}

} // verus!
