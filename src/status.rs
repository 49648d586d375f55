use vstd::prelude::*;

verus! {

/// Whether the read-eval loop keeps going after a command.
#[derive(Debug, Clone, Copy, PartialEq, Eq, Structural)]
pub enum ShellStatus {
    Running,
    Exit,
}

} // verus!
