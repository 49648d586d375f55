use vstd::prelude::*;

use crate::status::ShellStatus;
use crate::table::{keyed, position_of};

verus! {

/// The commands that the shell runs in-process.
#[derive(Debug, Clone, Copy, PartialEq, Eq, Structural)]
pub enum Builtin {
    Exit,
    Help,
    Cd,
}

/// The builtin registry: command names and the builtin each one runs.
pub struct Builtins {
    commands: Vec<(String, Builtin)>,
}

impl View for Builtins {
    type V = Map<Seq<char>, Builtin>;

    closed spec fn view(&self) -> Map<Seq<char>, Builtin> {
        keyed(self.commands@)
    }
}

/// The registry that a shell starts with.
pub open spec fn default_builtins() -> Map<Seq<char>, Builtin> {
    map!["exit"@ => Builtin::Exit, "help"@ => Builtin::Help, "cd"@ => Builtin::Cd]
}

impl Builtins {
    /// Registers `exit`, `help` and `cd`.
    pub fn new() -> (r: Self)
        ensures
            r@ == default_builtins(),
    {
        let commands = vec![
            (String::from_str("exit"), Builtin::Exit),
            (String::from_str("help"), Builtin::Help),
            (String::from_str("cd"), Builtin::Cd),
        ];
        let r = Self { commands };
        proof {
            reveal_with_fuel(keyed, 4);
            assert(r@ =~= default_builtins());
        }
        r
    }

    /// The builtin registered under `name`, if any.
    pub fn get(&self, name: &String) -> (r: Option<Builtin>)
        ensures
            r == (if self@.contains_key(name@) {
                Some(self@[name@])
            } else {
                None
            }),
    {
        match position_of(&self.commands, name) {
            Some(i) => Some(self.commands[i].1),
            None => None,
        }
    }
}

/// What `cd` does once its arguments and the home directory are known.
#[derive(Debug, PartialEq, Eq)]
pub enum CdAction {
    /// Change the working directory to this path, taken literally.
    ChangeTo(String),
    /// No argument was given and the home directory is unknown.
    NoHome,
}

impl CdAction {
    /// The status after `cd`: only an unknown home directory ends the session;
    /// a failed change of directory is reported and the shell goes on.
    pub fn status(&self) -> (r: ShellStatus)
        ensures
            r == (if *self is NoHome {
                ShellStatus::Exit
            } else {
                ShellStatus::Running
            }),
    {
        match self {
            CdAction::ChangeTo(_) => ShellStatus::Running,
            CdAction::NoHome => ShellStatus::Exit,
        }
    }
}

/// `exit`: ends the session, whatever the arguments.
pub fn builtin_exit(_args: Vec<String>) -> (r: ShellStatus)
    ensures
        r == ShellStatus::Exit,
{
    ShellStatus::Exit
}

/// `help`: the usage text is printed by the caller; the shell goes on.
pub fn builtin_help(_args: Vec<String>) -> (r: ShellStatus)
    ensures
        r == ShellStatus::Running,
{
    ShellStatus::Running
}

/// `cd`: with no path argument, the home directory `home` (if it is known);
/// else the first argument after the command name, taken literally.
pub fn builtin_cd(args: &Vec<String>, home: Option<String>) -> (r: CdAction)
    ensures
        args@.len() >= 2 ==> (r matches CdAction::ChangeTo(p) && p@ == args@[1]@),
        args@.len() < 2 ==> match home {
            Some(h) => (r matches CdAction::ChangeTo(p) && p@ == h@),
            None => r is NoHome,
        },
{
    if args.len() >= 2 {
        CdAction::ChangeTo(args[1].clone())
    } else {
        match home {
            Some(h) => CdAction::ChangeTo(h),
            None => CdAction::NoHome,
        }
    }
}

} // verus!
