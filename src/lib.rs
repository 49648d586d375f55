//! The command interpretation core of an interactive shell: tokenizing input
//! lines, the builtin registry, alias expansion, dispatch, and the text the
//! shell writes to its history and prompt.
pub mod builtins;
pub mod history;
pub mod launch;
pub mod parser;
pub mod prompt;
pub mod shell;
pub mod status;
pub mod table;
pub mod tokenize;

pub use builtins::{Builtin, Builtins};
pub use parser::{parse_greeting, Greeting};
pub use shell::{Action, Dispatch, Shell};
pub use status::ShellStatus;
