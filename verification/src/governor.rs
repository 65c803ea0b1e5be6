//! The governor controller: which privileged command applies a governor, how
//! its outcome is read, and how the active governor maps back to a profile.
//!
//! Running the command is left to the caller; this module fixes what is run
//! and what each way of ending means.

use crate::profile::Profile;
use crate::text::trimmed;
use vstd::prelude::*;

verus! {

/// A program and the arguments it is started with.
pub struct Invocation {
    pub program: String,
    pub args: Vec<String>,
}

/// How a run of the privileged command ended.
pub enum CommandOutcome {
    /// The process could not be started; the text says why.
    LaunchFailed(String),
    /// The process ran and exited, with or without success.
    Exited { success: bool },
}

/// The error text of an outcome; `None` where the command succeeded.
pub open spec fn failure_of(outcome: CommandOutcome) -> Option<Seq<char>> {
    match outcome {
        CommandOutcome::LaunchFailed(reason) => Some(reason@),
        CommandOutcome::Exited { success } => if success {
            None
        } else {
            Some("Need passwordless sudo for cpupower"@)
        },
    }
}

/// The profile that the text of the active-governor attribute names; none
/// where the attribute could not be read or names another governor.
pub open spec fn current_profile_of(contents: Option<Seq<char>>) -> Option<Profile> {
    match contents {
        Some(text) => Profile::for_governor(trimmed(text)),
        None => None,
    }
}

/// The command that sets the CPU frequency governor to `governor`: `sudo`,
/// told not to prompt, runs the frequency tool's set subcommand with the
/// governor flag and the governor.
pub fn governor_command(governor: &str) -> (r: Invocation)
    ensures
        r.program@ == "sudo"@,
        r.args@.len() == 5,
        r.args[0]@ == "-n"@,
        r.args[1]@ == "cpupower"@,
        r.args[2]@ == "frequency-set"@,
        r.args[3]@ == "-g"@,
        r.args[4]@ == governor@,
{
    let mut args: Vec<String> = Vec::new();
    args.push("-n".to_owned());
    args.push("cpupower".to_owned());
    args.push("frequency-set".to_owned());
    args.push("-g".to_owned());
    args.push(governor.to_owned());
    Invocation { program: "sudo".to_owned(), args }
}

/// Reads the outcome of the privileged command: success is a successful
/// exit and nothing else. A failed launch reports its own reason, any other
/// failure the missing privilege.
pub fn command_result(outcome: CommandOutcome) -> (r: Result<(), String>)
    ensures
        match failure_of(outcome) {
            Some(text) => r matches Err(e) && e@ == text,
            None => r is Ok,
        },
{
    match outcome {
        CommandOutcome::LaunchFailed(reason) => Err(reason),
        CommandOutcome::Exited { success } => {
            if success {
                Ok(())
            } else {
                Err("Need passwordless sudo for cpupower".to_owned())
            }
        },
    }
}

/// Resolves the active governor to a profile. `contents` is the text of the
/// active-governor attribute, `None` where it could not be read.
pub fn read_current_governor(contents: Option<&str>) -> (r: Option<Profile>)
    ensures
        r == current_profile_of(
            match contents {
                Some(text) => Some(text@),
                None => None,
            },
        ),
        contents matches Some(text) ==> Profile::found_by_governor(text@, r),
{
    match contents {
        Some(text) => Profile::from_governor(text),
        None => None,
    }
}

} // verus!
