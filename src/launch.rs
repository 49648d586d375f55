use vstd::prelude::*;

use crate::status::ShellStatus;

verus! {

/// How an attempt to start an external program ended.
#[derive(Debug, PartialEq, Eq)]
pub enum LaunchOutcome {
    /// The program ran and reported success.
    Succeeded,
    /// The program ran and reported failure, described by the text.
    Failed(String),
    /// The program could not be started, for the reason the text gives.
    NotStarted(String),
}

/// The diagnostic for a program that failed or could not be started.
pub open spec fn launch_diagnostic(command: Seq<char>, detail: Seq<char>) -> Seq<char> {
    "failed to execute process - "@ + command + ": "@ + detail
}

/// The status and diagnostic after launching `command`: the shell always goes
/// on, and every outcome but success is reported, naming the command.
pub fn finish_launch(command: &str, outcome: LaunchOutcome) -> (r: (ShellStatus, Option<String>))
    ensures
        r.0 == ShellStatus::Running,
        r.1 is None <==> outcome is Succeeded,
        outcome matches LaunchOutcome::Failed(d) ==> (r.1 matches Some(m) && m@
            == launch_diagnostic(command@, d@)),
        outcome matches LaunchOutcome::NotStarted(d) ==> (r.1 matches Some(m) && m@
            == launch_diagnostic(command@, d@)),
{
    match outcome {
        LaunchOutcome::Succeeded => (ShellStatus::Running, None),
        LaunchOutcome::Failed(detail) => {
            (ShellStatus::Running, Some(diagnostic(command, detail.as_str())))
        },
        LaunchOutcome::NotStarted(detail) => {
            (ShellStatus::Running, Some(diagnostic(command, detail.as_str())))
        },
    }
}

fn diagnostic(command: &str, detail: &str) -> (r: String)
    ensures
        r@ == launch_diagnostic(command@, detail@),
{
    let mut m = String::from_str("failed to execute process - ");
    m.append(command);
    m.append(": ");
    m.append(detail);
    m
}

} // verus!
