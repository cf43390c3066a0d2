//! Where the tool is looked for.
//!
//! The candidates are fixed and tried in order: a path below the user's home
//! directory, two system install locations, and the bare command name, which
//! the operating system resolves through the search path. They are computed
//! anew for every discovery, so a tool that is installed later is found by
//! the next attempt.

use std::path::PathBuf;
use vstd::prelude::*;
use vstd::string::StringExecFns;

verus! {

/// `std::path::PathBuf`, in which the home directory comes. Its name need
/// not be Unicode text, so it is carried as it is and never looked into.
#[verifier::external_type_specification]
#[verifier::external_body]
pub struct ExPathBuf(PathBuf);

/// `PathBuf::clone` gives a copy that equals the path.
pub assume_specification[ <PathBuf as Clone>::clone ](path: &PathBuf) -> (copy: PathBuf)
    ensures
        copy == *path,
;

/// One location at which the tool may be found.
#[derive(Debug, PartialEq, Eq)]
pub enum Candidate {
    /// The file at `relative`, taken from the directory `home`.
    UnderHome { home: PathBuf, relative: String },
    /// The file at a fixed path.
    Installed { path: String },
    /// A command name for the search path. Nothing on disk says whether it
    /// resolves, so it is tried without asking.
    Command { name: String },
}

/// The mathematical value of a [`Candidate`].
pub ghost enum CandidateView {
    UnderHome { home: PathBuf, relative: Seq<char> },
    Installed { path: Seq<char> },
    Command { name: Seq<char> },
}

impl View for Candidate {
    type V = CandidateView;

    open spec fn view(&self) -> CandidateView {
        match self {
            Candidate::UnderHome { home, relative } => CandidateView::UnderHome {
                home: *home,
                relative: relative@,
            },
            Candidate::Installed { path } => CandidateView::Installed { path: path@ },
            Candidate::Command { name } => CandidateView::Command { name: name@ },
        }
    }
}

impl DeepView for Candidate {
    type V = CandidateView;

    open spec fn deep_view(&self) -> CandidateView {
        self@
    }
}

impl Clone for Candidate {
    fn clone(&self) -> (copy: Candidate)
        ensures
            copy@ == self@,
    {
        match self {
            Candidate::UnderHome { home, relative } => Candidate::UnderHome {
                home: home.clone(),
                relative: relative.clone(),
            },
            Candidate::Installed { path } => Candidate::Installed { path: path.clone() },
            Candidate::Command { name } => Candidate::Command { name: name.clone() },
        }
    }
}

impl Candidate {
    /// Whether the candidate is tried without asking whether it exists.
    pub fn is_command(&self) -> (b: bool)
        ensures
            b == (self@ is Command),
    {
        match self {
            Candidate::Command { .. } => true,
            _ => false,
        }
    }
}

/// The candidates in the order in which they are tried, for a home directory
/// that is known or not.
pub open spec fn candidate_list(home: Option<PathBuf>) -> Seq<CandidateView> {
    let fixed = seq![
        CandidateView::Installed { path: "/usr/local/bin/ohmybug"@ },
        CandidateView::Installed { path: "/opt/homebrew/bin/ohmybug"@ },
        CandidateView::Command { name: "ohmybug"@ },
    ];
    match home {
        Some(home) => seq![CandidateView::UnderHome { home, relative: "bin/ohmybug"@ }] + fixed,
        None => fixed,
    }
}

/// The message for a tool that no candidate gave.
pub open spec fn not_found() -> Seq<char> {
    "ohmybug CLI not found"@
}

/// Asks `dirs::home_dir` for the user's home directory.
///
/// The answer depends on the environment and on the user database, so
/// nothing is claimed of it.
#[verifier::external_body]
fn home_dir() -> (home: Option<PathBuf>) {
    dirs::home_dir()
}

/// Lists the candidates for a home directory that is known or not. An
/// unknown home directory leaves its candidate out.
pub fn candidates(home: Option<PathBuf>) -> (list: Vec<Candidate>)
    ensures
        list.deep_view() == candidate_list(home),
{
    let mut list: Vec<Candidate> = Vec::new();
    match home {
        Some(home) => {
            list.push(Candidate::UnderHome { home, relative: String::from_str("bin/ohmybug") });
        },
        None => {},
    }
    list.push(Candidate::Installed { path: String::from_str("/usr/local/bin/ohmybug") });
    list.push(Candidate::Installed { path: String::from_str("/opt/homebrew/bin/ohmybug") });
    list.push(Candidate::Command { name: String::from_str("ohmybug") });
    assert(list.deep_view() =~= candidate_list(home));
    list
}

/// Lists the candidates for the home directory of the user who runs the
/// process, whatever it is.
pub fn discover_candidates() -> (list: Vec<Candidate>)
    ensures
        exists|home: Option<PathBuf>| list.deep_view() == candidate_list(home),
{
    let home = home_dir();
    candidates(home)
}

/// Turns what discovery found into the tool's path or the message that
/// none was found.
pub fn get_cli_path(found: Option<Candidate>) -> (path: Result<Candidate, String>)
    ensures
        found matches Some(candidate) ==> path == Ok::<Candidate, String>(candidate),
        found is None ==> (path matches Err(message) && message@ == not_found()),
{
    match found {
        Some(candidate) => Ok(candidate),
        None => Err(String::from_str("ohmybug CLI not found")),
    }
}

} // verus!
