use vstd::prelude::*;

use crate::builtins::{default_builtins, Builtin, Builtins};
use crate::history::{history_line, join_spaced};
use crate::table::{keyed, position_of};
use crate::tokenize::{split_by_whitespace, strings_view, tokens, all_tokens};

verus! {

/// What the dispatcher decides for one command line, in terms of views.
pub enum Step {
    /// Nothing to do: the line was empty.
    Idle,
    /// Run this builtin on these tokens.
    RunBuiltin(Builtin, Seq<Seq<char>>),
    /// Start this program with these arguments.
    Spawn(Seq<char>, Seq<Seq<char>>),
}

/// What the caller is to carry out for one command line.
#[derive(Debug)]
pub enum Action {
    /// The line was empty: the shell goes on.
    Idle,
    /// Run the builtin with the line's full token list.
    Builtin(Builtin, Vec<String>),
    /// Start the program with its arguments, inheriting the standard streams.
    Launch(String, Vec<String>),
}

impl View for Action {
    type V = Step;

    open spec fn view(&self) -> Step {
        match self {
            Action::Idle => Step::Idle,
            Action::Builtin(b, args) => Step::RunBuiltin(*b, strings_view(args@)),
            Action::Launch(c, args) => Step::Spawn(c@, strings_view(args@)),
        }
    }
}

/// The outcome of dispatching one command line.
#[derive(Debug)]
pub struct Dispatch {
    /// The line to append to the history file, for a non-empty line.
    pub history: Option<String>,
    pub action: Action,
}

/// Dispatch: an empty line does nothing; a builtin named by the first token
/// runs on the whole line; otherwise an alias named by the first token
/// replaces the whole line, and the first token of the result is started as a
/// program with the rest as its arguments.
pub open spec fn dispatch(
    builtins: Map<Seq<char>, Builtin>,
    aliases: Map<Seq<char>, Seq<Seq<char>>>,
    ts: Seq<Seq<char>>,
) -> Step {
    if ts.len() == 0 {
        Step::Idle
    } else if builtins.contains_key(ts[0]) {
        Step::RunBuiltin(builtins[ts[0]], ts)
    } else {
        let line = if aliases.contains_key(ts[0]) {
            aliases[ts[0]]
        } else {
            ts
        };
        Step::Spawn(line[0], line.drop_first())
    }
}

/// The alias table that a shell starts with.
pub open spec fn default_aliases() -> Map<Seq<char>, Seq<Seq<char>>> {
    map![
        "lg"@ => seq!["lazygit"@],
        "gs"@ => seq!["git"@, "status"@, "-s"@, "-b"@],
    ]
}

/// An interactive shell's fixed tables: its builtins and its aliases.
pub struct Shell {
    builtins: Builtins,
    aliases: Vec<(String, Vec<String>)>,
}

/// The strings `v[from..]`, copied.
fn copy_from(v: &Vec<String>, from: usize) -> (r: Vec<String>)
    requires
        from <= v@.len(),
    ensures
        strings_view(r@) == strings_view(v@).subrange(from as int, v@.len() as int),
{
    let mut r: Vec<String> = Vec::new();
    let mut i: usize = from;
    while i < v.len()
        invariant
            from <= i <= v@.len(),
            strings_view(r@) == strings_view(v@).subrange(from as int, i as int),
        decreases v@.len() - i,
    {
        let ghost before = r@;
        r.push(v[i].clone());
        proof {
            assert(strings_view(r@) =~= strings_view(before).push(v@[i as int]@));
            assert(strings_view(v@).subrange(from as int, i + 1) =~= strings_view(v@).subrange(
                from as int,
                i as int,
            ).push(v@[i as int]@));
        }
        i = i + 1;
    }
    r
}

impl Shell {
    /// The builtin registry, by name.
    pub closed spec fn builtin_table(&self) -> Map<Seq<char>, Builtin> {
        self.builtins@
    }

    /// The alias table, by name.
    pub closed spec fn alias_table(&self) -> Map<Seq<char>, Seq<Seq<char>>> {
        keyed(self.aliases@).map_values(|v: Vec<String>| strings_view(v@))
    }

    /// No alias expands to an empty line.
    pub open spec fn wf(&self) -> bool {
        forall|k: Seq<char>| #[trigger]
            self.alias_table().contains_key(k) ==> self.alias_table()[k].len() > 0
    }

    /// A shell with the builtins `exit`, `help` and `cd`, and the aliases
    /// `lg` and `gs`.
    pub fn new() -> (r: Self)
        ensures
            r.wf(),
            r.builtin_table() == default_builtins(),
            r.alias_table() == default_aliases(),
    {
        let lg = vec![String::from_str("lazygit")];
        let gs = vec![
            String::from_str("git"),
            String::from_str("status"),
            String::from_str("-s"),
            String::from_str("-b"),
        ];
        let aliases = vec![(String::from_str("lg"), lg), (String::from_str("gs"), gs)];
        let r = Self { builtins: Builtins::new(), aliases };
        proof {
            reveal_with_fuel(keyed, 3);
            let lgv = seq!["lazygit"@];
            let gsv = seq!["git"@, "status"@, "-s"@, "-b"@];
            assert(strings_view(r.aliases@[0].1@) =~= lgv);
            assert(strings_view(r.aliases@[1].1@) =~= gsv);
            assert(r.alias_table() =~= default_aliases());
        }
        r
    }

    /// The tokens of an input line.
    pub fn split_line(&self, line: String) -> (r: Vec<String>)
        ensures
            strings_view(r@) == tokens(line@),
            all_tokens(strings_view(r@)),
    {
        split_by_whitespace(line)
    }

    /// The builtin that `arg` names, if any.
    pub fn check_for_builtins(&self, arg: &str) -> (r: Option<Builtin>)
        ensures
            r == (if self.builtin_table().contains_key(arg@) {
                Some(self.builtin_table()[arg@])
            } else {
                None
            }),
    {
        self.builtins.get(&String::from_str(arg))
    }

    /// The expansion of the alias `name`, if there is one.
    fn alias_for(&self, name: &String) -> (r: Option<&Vec<String>>)
        ensures
            r is Some <==> self.alias_table().contains_key(name@),
            r matches Some(v) ==> strings_view(v@) == self.alias_table()[name@],
    {
        match position_of(&self.aliases, name) {
            Some(i) => Some(&self.aliases[i].1),
            None => None,
        }
    }

    /// Decides what one command line does; a non-empty line is also to be
    /// recorded in the history.
    pub fn execute(&self, args: Vec<String>) -> (r: Dispatch)
        requires
            self.wf(),
        ensures
            r.action@ == dispatch(self.builtin_table(), self.alias_table(), strings_view(args@)),
            r.history is Some <==> args@.len() > 0,
            r.history matches Some(h) ==> h@ == join_spaced(strings_view(args@)),
    {
        if args.len() == 0 {
            return Dispatch { history: None, action: Action::Idle };
        }
        let history = Some(history_line(&args));
        match self.check_for_builtins(args[0].as_str()) {
            Some(builtin) => Dispatch { history, action: Action::Builtin(builtin, args) },
            None => {
                let action = match self.alias_for(&args[0]) {
                    Some(expansion) => {
                        Action::Launch(expansion[0].clone(), copy_from(expansion, 1))
                    },
                    None => Action::Launch(args[0].clone(), copy_from(&args, 1)),
                };
                proof {
                    let ts = strings_view(args@);
                    assert(ts[0] == args@[0]@);
                    if self.alias_table().contains_key(ts[0]) {
                        let e = self.alias_table()[ts[0]];
                        assert(e.len() > 0);
                        assert(e.subrange(1, e.len() as int) =~= e.drop_first());
                    } else {
                        assert(ts.subrange(1, ts.len() as int) =~= ts.drop_first());
                    }
                }
                Dispatch { history, action }
            },
        }
    }
}

/// A builtin named by the first token always runs, whatever aliases exist:
/// such a line never starts a program.
pub proof fn lemma_builtin_precedence(shell: &Shell, ts: Seq<Seq<char>>)
    requires
        ts.len() > 0,
        shell.builtin_table().contains_key(ts[0]),
    ensures
        dispatch(shell.builtin_table(), shell.alias_table(), ts) == Step::RunBuiltin(
            shell.builtin_table()[ts[0]],
            ts,
        ),
        !(dispatch(shell.builtin_table(), shell.alias_table(), ts) is Spawn),
{
}

} // verus!
