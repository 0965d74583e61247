//! Processes to be started: what to run, with which arguments and in which environment.
use crate::text::texts;
use vstd::prelude::*;
use vstd::string::*;

verus! {

/// A process to be started.
pub struct CommandLine {
    pub program: String,
    pub args: Vec<String>,
    /// The variables to be set, on top of those that the process inherits.
    pub env: Vec<(String, String)>,
    /// The variables that the process does not inherit.
    pub removed_env: Vec<String>,
}

/// A process to be started, in mathematical terms.
#[verifier::ext_equal]
pub struct CommandView {
    pub program: Seq<char>,
    pub args: Seq<Seq<char>>,
    pub env: Seq<(Seq<char>, Seq<char>)>,
    pub removed_env: Seq<Seq<char>>,
}

/// Names and values as sequences of characters.
pub open spec fn env_view(env: Seq<(String, String)>) -> Seq<(Seq<char>, Seq<char>)> {
    env.map_values(|e: (String, String)| (e.0@, e.1@))
}

impl View for CommandLine {
    type V = CommandView;

    open spec fn view(&self) -> CommandView {
        CommandView {
            program: self.program@,
            args: texts(self.args@),
            env: env_view(self.env@),
            removed_env: texts(self.removed_env@),
        }
    }
}

/// A process without arguments in the inherited environment.
pub open spec fn bare(program: Seq<char>) -> CommandView {
    CommandView {
        program,
        args: Seq::empty(),
        env: Seq::empty(),
        removed_env: Seq::empty(),
    }
}

impl CommandLine {
    /// A process without arguments in the inherited environment.
    pub fn new(program: &str) -> (r: Self)
        ensures
            r@ == bare(program@),
    {
        let r = CommandLine {
            program: program.to_owned(),
            args: Vec::new(),
            env: Vec::new(),
            removed_env: Vec::new(),
        };
        assert(r@ =~= bare(program@));
        r
    }

    /// The process with one more argument.
    pub fn arg(self, a: &str) -> (r: Self)
        ensures
            r@ == (CommandView { args: self@.args.push(a@), ..self@ }),
    {
        let mut r = self;
        r.args.push(a.to_owned());
        assert(r@.args =~= self@.args.push(a@));
        r
    }

    /// The process with a variable set.
    pub fn env(self, name: &str, value: &str) -> (r: Self)
        ensures
            r@ == (CommandView { env: self@.env.push((name@, value@)), ..self@ }),
    {
        let mut r = self;
        r.env.push((name.to_owned(), value.to_owned()));
        assert(r@.env =~= self@.env.push((name@, value@)));
        r
    }

    /// The process without an inherited variable.
    pub fn env_remove(self, name: &str) -> (r: Self)
        ensures
            r@ == (CommandView { removed_env: self@.removed_env.push(name@), ..self@ }),
    {
        let mut r = self;
        r.removed_env.push(name.to_owned());
        assert(r@.removed_env =~= self@.removed_env.push(name@));
        r
    }
}

/// A process is made up of what it is given, in the order in which it is given.
pub proof fn processes_are_made_up_piece_by_piece(
    program: &str,
    bare_one: CommandLine,
    c: CommandLine,
    a: &str,
    name: &str,
    value: &str,
    with_arg: CommandLine,
    with_env: CommandLine,
    without: CommandLine,
)
    requires
        call_ensures(CommandLine::new, (program,), bare_one),
        call_ensures(CommandLine::arg, (c, a), with_arg),
        call_ensures(CommandLine::env, (c, name, value), with_env),
        call_ensures(CommandLine::env_remove, (c, name), without),
    ensures
        bare_one.program@ == program@,
        bare_one@.args.len() == 0 && bare_one@.env.len() == 0 && bare_one@.removed_env.len() == 0,
        with_arg@.args == c@.args.push(a@),
        (with_arg@.program, with_arg@.env, with_arg@.removed_env) == (
            c@.program,
            c@.env,
            c@.removed_env,
        ),
        with_env@.env == c@.env.push((name@, value@)),
        (with_env@.program, with_env@.args, with_env@.removed_env) == (
            c@.program,
            c@.args,
            c@.removed_env,
        ),
        without@.removed_env == c@.removed_env.push(name@),
        (without@.program, without@.args, without@.env) == (c@.program, c@.args, c@.env),
{
}

} // verus!
