//! The probe: how it is started and what it prints.

use crate::time::{milliseconds, nanos_of};
use std::time::Duration;
use vstd::prelude::*;

pub mod protocol;
pub mod version;

pub use protocol::{Control, Ping, SentReceivedSummary, LABEL_NAMES};

verus! {

/// The flags that make the probe loop forever and print one line for each
/// reply, with the address and a timestamp.
pub const PROBE_FLAGS: &'static str = "-ADln";

/// The flag that makes the probe print its version and exit.
pub const VERSION_FLAG: &'static str = "--version";

/// How long the probe may take to print its version, in milliseconds.
pub const DISCOVERY_MILLIS: u64 = 50;

/// How long the probe may take to print its version.
pub fn discovery_timeout() -> (timeout: Duration)
    ensures
        nanos_of(timeout) == DISCOVERY_MILLIS * 1_000_000,
{
    milliseconds(DISCOVERY_MILLIS)
}

/// Names the program that is run as the probe.
#[derive(Clone, Copy, Debug)]
pub struct Launcher<'t> {
    program: &'t str,
}

pub fn for_program<'t>(program: &'t str) -> (launcher: Launcher<'t>)
    ensures
        launcher.program_name() == program@,
{
    Launcher { program }
}

impl<'t> Launcher<'t> {
    /// The program's name.
    pub closed spec fn program_name(self) -> Seq<char> {
        self.program@
    }

    pub fn program(&self) -> (program: &'t str)
        ensures
            program@ == self.program_name(),
    {
        self.program
    }

    /// The arguments that ask the probe for its version.
    pub fn version_arguments(&self) -> (arguments: Vec<String>)
        ensures
            arguments@.len() == 1,
            arguments@[0]@ == VERSION_FLAG@,
    {
        let mut arguments = Vec::new();
        arguments.push(VERSION_FLAG.to_owned());
        arguments
    }

    /// The arguments that start the probe on `targets`: the fixed flags,
    /// then the targets in their order.
    pub fn spawn_arguments(&self, targets: &Vec<String>) -> (arguments: Vec<String>)
        requires
            targets@.len() < usize::MAX,
        ensures
            arguments@.len() == targets@.len() + 1,
            arguments@[0]@ == PROBE_FLAGS@,
            forall|i: int| 0 <= i < targets@.len() ==> (#[trigger] arguments@[i + 1])@ == targets@[i]@,
    {
        let mut arguments = Vec::new();
        arguments.push(PROBE_FLAGS.to_owned());
        let mut i: usize = 0;
        while i < targets.len()
            invariant
                i <= targets@.len(),
                arguments@.len() == i + 1,
                arguments@[0]@ == PROBE_FLAGS@,
                forall|j: int| 0 <= j < i ==> (#[trigger] arguments@[j + 1])@ == targets@[j]@,
            decreases targets@.len() - i,
        {
            arguments.push(targets[i].clone());
            i += 1;
        }
        arguments
    }
}

} // verus!
