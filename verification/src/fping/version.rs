//! Finding out which version of the probe is installed.

use crate::text::{
    decimal_up_to, groups_view, names_view, parse_u64, regex_captures, Groups, Matcher,
};
use vstd::prelude::*;

verus! {

/// `<program>: Version <major>.<minor>` and, optionally, `.<patch>`.
pub const VERSION_PATTERN: &'static str =
    r"^.+: Version (?P<major>\d+)\.(?P<minor>\d+)(?:\.(?P<patch>\d+))?";

/// The groups of `VERSION_PATTERN`.
pub open spec fn version_groups() -> Seq<Seq<char>> {
    seq!["major"@, "minor"@, "patch"@]
}

/// What is said when the probe does not exit in time.
pub const TIMED_OUT: &'static str =
    "fping failed to exit in a reasonable timespan, please ensure FPING_BIN points to a valid version of fping";

/// A version of the probe.
#[derive(Clone, Copy, Debug, PartialEq, Eq, Structural)]
pub struct Version {
    pub major: u64,
    pub minor: u64,
    pub patch: u64,
}

impl Version {
    pub fn new(major: u64, minor: u64, patch: u64) -> (version: Self)
        ensures
            version == (Version { major, minor, patch }),
    {
        Version { major, minor, patch }
    }
}

/// The number of 64 bits that a captured text denotes.
pub open spec fn component_of(text: Option<Seq<char>>) -> Option<nat> {
    match text {
        Some(text) => decimal_up_to(text, u64::MAX as nat),
        None => None,
    }
}

/// The version that the captured groups make: major and minor number are
/// needed, a patch number that is missing or cannot be read counts as 0.
pub open spec fn version_of(groups: Option<Groups>) -> Option<Version> {
    match groups {
        Some(found) => if found.len() == 3 && component_of(found[0]) is Some && component_of(
            found[1],
        ) is Some {
            Some(
                Version {
                    major: component_of(found[0])->0 as u64,
                    minor: component_of(found[1])->0 as u64,
                    patch: match component_of(found[2]) {
                        Some(patch) => patch as u64,
                        None => 0,
                    },
                },
            )
        } else {
            None
        },
        None => None,
    }
}

fn component(text: Option<&str>) -> (number: Option<u64>)
    ensures
        match number {
            Some(n) => component_of(crate::text::text_of(text)) == Some(n as nat),
            None => component_of(crate::text::text_of(text)) is None,
        },
{
    match text {
        Some(text) => parse_u64(text),
        None => None,
    }
}

/// Makes a version of what `VERSION_PATTERN` captured.
pub fn version_from(groups: Option<Vec<Option<&str>>>) -> (version: Option<Version>)
    ensures
        version == version_of(groups_view(groups)),
{
    let found = match groups {
        Some(found) => found,
        None => { return None; },
    };
    if found.len() != 3 {
        return None;
    }
    let major = match component(found[0]) {
        Some(major) => major,
        None => { return None; },
    };
    let minor = match component(found[1]) {
        Some(minor) => minor,
        None => { return None; },
    };
    let patch = match component(found[2]) {
        Some(patch) => patch,
        None => 0,
    };
    Some(Version::new(major, minor, patch))
}

/// Reads the version out of what the probe prints when asked for it.
pub fn parse_fping_version(raw: &str) -> (version: Option<Version>)
    ensures
        version == version_of(regex_captures(VERSION_PATTERN@, version_groups(), raw@)),
{
    let names = ["major", "minor", "patch"];
    assert(names_view(names@) =~= version_groups());
    version_from(Matcher::new(VERSION_PATTERN).captures(&names, raw))
}

/// `std::io::Error`, carried as it is.
#[verifier::external_type_specification]
#[verifier::external_body]
pub struct ExIoError(std::io::Error);

/// Whether an I/O error says that something was not found.
pub uninterp spec fn is_not_found(error: std::io::Error) -> bool;

/// `std::io::Error::kind`, held against `ErrorKind::NotFound`. The
/// contract gives the answer its name.
#[verifier::external_body]
fn not_found(error: &std::io::Error) -> (missing: bool)
    ensures
        missing == is_not_found(*error),
{
    error.kind() == std::io::ErrorKind::NotFound
}

/// How the probe ended when it was asked for its version.
#[derive(Debug)]
pub struct ProcessOutput {
    /// The exit code; `None` where a signal ended the probe.
    pub code: Option<i32>,
    /// What the probe printed on standard output.
    pub stdout: String,
}

#[derive(Debug)]
pub enum VersionError {
    /// The probe printed something that holds no version.
    UnknownFormat(String),
    /// The probe's program was not found.
    BinaryNotFound,
    /// The probe misses a file that it needs.
    DependenciesMissing,
    /// The probe ended with an exit code that is not known.
    ProcessFailure(Option<i32>, String),
    /// Running the probe failed.
    Other(std::io::Error),
    /// Something else, in words.
    SpecificFailure(String),
}

impl VersionError {
    /// The error for a probe that could not be run.
    pub fn from_io(error: std::io::Error) -> (failure: Self)
        ensures
            failure == if is_not_found(error) {
                VersionError::BinaryNotFound
            } else {
                VersionError::Other(error)
            },
    {
        if not_found(&error) {
            VersionError::BinaryNotFound
        } else {
            VersionError::Other(error)
        }
    }

    /// The error for a probe that did not exit in time.
    pub fn timed_out() -> (failure: Self)
        ensures
            failure matches VersionError::SpecificFailure(message) && message@ == TIMED_OUT@,
    {
        VersionError::SpecificFailure(TIMED_OUT.to_owned())
    }
}

/// What `output_to_version` gives for a probe that ran.
pub open spec fn version_outcome(
    code: Option<i32>,
    stdout: Seq<char>,
    groups: Option<Groups>,
    outcome: Result<Version, VersionError>,
) -> bool {
    if code == Some(0i32) {
        match version_of(groups) {
            Some(version) => outcome == Ok::<Version, VersionError>(version),
            None => outcome matches Err(VersionError::UnknownFormat(text)) && text@ == stdout,
        }
    } else if code == Some(4i32) {
        outcome == Err::<Version, VersionError>(VersionError::DependenciesMissing)
    } else {
        outcome matches Err(VersionError::ProcessFailure(failed, text)) && failed == code && text@
            == stdout
    }
}

/// Turns the way the probe ended into its version: exit code 0 with a
/// version in the output gives that version; exit code 4 means that the
/// probe misses a file; every other end is a failure of its own kind.
pub fn output_to_version(output: Result<ProcessOutput, std::io::Error>) -> (outcome: Result<
    Version,
    VersionError,
>)
    ensures
        match output {
            Ok(output) => version_outcome(
                output.code,
                output.stdout@,
                regex_captures(VERSION_PATTERN@, version_groups(), output.stdout@),
                outcome,
            ),
            Err(error) => outcome == Err::<Version, VersionError>(
                if is_not_found(error) {
                    VersionError::BinaryNotFound
                } else {
                    VersionError::Other(error)
                },
            ),
        },
{
    let output = match output {
        Ok(output) => output,
        Err(error) => { return Err(VersionError::from_io(error)); },
    };
    match output.code {
        Some(0) => match parse_fping_version(output.stdout.as_str()) {
            Some(version) => Ok(version),
            None => Err(VersionError::UnknownFormat(output.stdout)),
        },
        Some(4) => Err(VersionError::DependenciesMissing),
        _ => Err(VersionError::ProcessFailure(output.code, output.stdout)),
    }
}

} // verus!
