//! An earlier, simpler dispatcher: named commands held in nested
//! case-insensitive mappers. Each level consumes one token, looks it up with
//! ASCII case folding, and recurses; where no deeper command matches, the
//! current level's handler runs on the rebuilt, unconsumed context.

use vstd::prelude::*;

use core::marker::PhantomData;

use crate::command::{
    find_key, lookup_idx, map_insert, map_updated, CommandHandler, HandlerError,
};
use crate::context::{CommandContext, ContextView, SubArg, ValueView};

verus! {

broadcast use vstd::std_specs::vec::axiom_vec_index_decreases;

/// Why executing a command through the mapper failed.
#[derive(Clone, PartialEq, Debug)]
pub enum ExecuteError {
    /// The tokens led to a level with no handler bound.
    InvalidLevel,
    /// The command was invoked with no tokens at all.
    EmptyInput,
    /// The resolved handler itself failed.
    Handler(HandlerError),
}

/// An ASCII capital letter mapped to its lowercase form; every other
/// character unchanged.
pub open spec fn lower_char(c: char) -> char {
    if 'A' <= c && c <= 'Z' {
        ((c as u32) + 32) as char
    } else {
        c
    }
}

/// A character sequence with each ASCII capital letter lowered.
pub open spec fn lower_chars(s: Seq<char>) -> Seq<char> {
    s.map_values(|c: char| lower_char(c))
}

/// Relies on `str::to_ascii_lowercase`: ASCII letters are mapped to their
/// lowercase forms and every other character is left unchanged.
#[verifier::external_body]
fn ascii_lowercase(s: &str) -> (r: String)
    ensures
        r@ == lower_chars(s@),
{
    s.to_ascii_lowercase()
}

/// Named commands, looked up by their name with the query folded to ASCII
/// lowercase. Names are stored as given.
pub struct CommandMapper<T, H> {
    pub commands: Vec<(String, Command<T, H>)>,
    pub sender: PhantomData<T>,
}

/// One command: an optional handler, and a mapper of subcommands.
pub struct Command<T, H> {
    pub command_function: Option<H>,
    pub command_mapper: CommandMapper<T, H>,
    pub sender: PhantomData<T>,
}

/// A set of top-level commands.
pub struct Executor<T, H> {
    pub command_mapper: CommandMapper<T, H>,
}

/// What resolving a context against a command yields: a handler together
/// with the exact context it runs on, or a level with nothing to run.
pub enum MapperResolution<T, H> {
    Invalid,
    Target(H, ContextView<T>),
}

/// How an execution result reflects a mapper resolution: an invalid level is
/// its error, and a target handler's result is passed through, bound by the
/// handler's own contract on exactly the resolved context.
pub open spec fn mapper_matches<T, H: CommandHandler<T>>(
    res: MapperResolution<T, H>,
    r: Result<(), ExecuteError>,
) -> bool {
    match res {
        MapperResolution::Invalid => r == Err::<(), ExecuteError>(ExecuteError::InvalidLevel),
        MapperResolution::Target(h, tctx) => match r {
            Ok(u) => h.post(tctx, Ok(u)),
            Err(ExecuteError::Handler(e)) => h.post(tctx, Err(e)),
            Err(_) => false,
        },
    }
}

/// Resolving a context at a command: with no tokens left, the command's own
/// handler runs on the empty context; otherwise the first token picks a
/// subcommand case-insensitively, and where none matches, the command's own
/// handler runs on the whole, unconsumed context.
pub open spec fn mapper_resolution<T, H: CommandHandler<T>>(
    c: Command<T, H>,
    ctx: ContextView<T>,
) -> MapperResolution<T, H>
    decreases c,
{
    if ctx.args.len() == 0 {
        match c.command_function {
            Some(h) => MapperResolution::Target(h, ctx),
            None => MapperResolution::Invalid,
        }
    } else {
        match lookup_idx(c.command_mapper.commands@, lower_chars(ctx.args[0])) {
            Some(i) => {
                if 0 <= i < c.command_mapper.commands@.len() {
                    mapper_resolution(c.command_mapper.commands@[i].1, ctx.trim_first())
                } else {
                    MapperResolution::Invalid
                }
            },
            None => {
                match c.command_function {
                    Some(h) => MapperResolution::Target(h, ctx),
                    None => MapperResolution::Invalid,
                }
            },
        }
    }
}

impl<T, H> CommandMapper<T, H> {
    /// The named commands, in registration order.
    pub open spec fn entries(self) -> Seq<(String, Command<T, H>)> {
        self.commands@
    }

    /// A mapper with no commands.
    pub fn new() -> (r: CommandMapper<T, H>)
        ensures
            r.entries() == Seq::<(String, Command<T, H>)>::empty(),
    {
        let r = CommandMapper { commands: Vec::new(), sender: PhantomData };
        proof {
            assert(r.entries() =~= Seq::<(String, Command<T, H>)>::empty());
        }
        r
    }

    /// Binds `command_name` to `command`, replacing any command of that
    /// exact name.
    pub fn add_command(&mut self, command_name: String, command: Command<T, H>)
        ensures
            map_updated(old(self).entries(), final(self).entries(), command_name@, command),
    {
        map_insert(&mut self.commands, command_name, command);
    }

    /// Looks `next_arg` up with ASCII case folding: the named command whose
    /// stored name equals the lowered query, if one exists.
    pub fn resolve_command(&self, next_arg: &str) -> (r: Option<&Command<T, H>>)
        ensures
            match lookup_idx(self.entries(), lower_chars(next_arg@)) {
                Some(i) => r matches Some(c) && 0 <= i < self.entries().len() && *c
                    == self.entries()[i].1,
                None => r is None,
            },
    {
        let key = ascii_lowercase(next_arg);
        match find_key(&self.commands, &key) {
            Some(i) => Some(&self.commands[i].1),
            None => None,
        }
    }
}

impl<T, H: CommandHandler<T>> Command<T, H> {
    /// The command's own handler, if any.
    pub open spec fn function(self) -> Option<H> {
        self.command_function
    }

    /// The command's subcommands.
    pub open spec fn mapper(self) -> CommandMapper<T, H> {
        self.command_mapper
    }

    /// A command with a handler and no subcommands yet.
    pub fn new(func: H) -> (r: Command<T, H>)
        ensures
            r.function() == Some(func),
            r.mapper().entries() == Seq::<(String, Command<T, H>)>::empty(),
    {
        Command { command_function: Some(func), command_mapper: CommandMapper::new(), sender: PhantomData }
    }

    /// A command with no handler of its own.
    pub fn non_executable() -> (r: Command<T, H>)
        ensures
            r.function() is None,
            r.mapper().entries() == Seq::<(String, Command<T, H>)>::empty(),
    {
        Command { command_function: None, command_mapper: CommandMapper::new(), sender: PhantomData }
    }

    /// Binds a subcommand under its name.
    pub fn add_command(&mut self, command_name: String, command: Command<T, H>)
        ensures
            map_updated(
                old(self).mapper().entries(),
                final(self).mapper().entries(),
                command_name@,
                command,
            ),
            final(self).function() == old(self).function(),
    {
        self.command_mapper.add_command(command_name, command);
    }

    /// Resolves and runs the command on a context, as `mapper_resolution`
    /// describes: consume one matching token and recurse, or run this
    /// level's handler on the whole remaining context.
    pub fn execute(&self, context: CommandContext<T>) -> (r: Result<(), ExecuteError>)
        ensures
            mapper_matches(mapper_resolution(*self, context@), r),
        decreases *self,
    {
        let ghost ctx0 = context@;
        match context.sub_arg() {
            SubArg::Empty(context) => {
                match &self.command_function {
                    Some(f) => {
                        match f.invoke(context) {
                            Ok(u) => Ok(u),
                            Err(e) => Err(ExecuteError::Handler(e)),
                        }
                    },
                    None => Err(ExecuteError::InvalidLevel),
                }
            },
            SubArg::Resolved((sub, context)) => {
                match self.command_mapper.resolve_command(sub.as_str()) {
                    Some(command) => command.execute(context),
                    None => {
                        match &self.command_function {
                            Some(f) => {
                                let rebuilt = CommandContext::concat(sub, context);
                                proof {
                                    assert(rebuilt@.args =~= ctx0.args);
                                }
                                match f.invoke(rebuilt) {
                                    Ok(u) => Ok(u),
                                    Err(e) => Err(ExecuteError::Handler(e)),
                                }
                            },
                            None => Err(ExecuteError::InvalidLevel),
                        }
                    },
                }
            },
        }
    }
}

impl<T, H: CommandHandler<T>> Executor<T, H> {
    /// The top-level commands.
    pub open spec fn entries(self) -> Seq<(String, Command<T, H>)> {
        self.command_mapper.entries()
    }

    /// An executor with no commands.
    pub fn new() -> (r: Executor<T, H>)
        ensures
            r.entries() == Seq::<(String, Command<T, H>)>::empty(),
    {
        Executor { command_mapper: CommandMapper::new() }
    }

    /// Binds a top-level command under its name.
    pub fn add_command(&mut self, command_name: String, command: Command<T, H>)
        ensures
            map_updated(old(self).entries(), final(self).entries(), command_name@, command),
    {
        self.command_mapper.add_command(command_name, command);
    }

    /// Wraps the sender and tokens into a context and dispatches: invoking
    /// with no tokens at all is an error, an unknown first token is no
    /// command (`None`), and otherwise the named command resolves the rest.
    pub fn execute(&self, sender: T, split_args: Vec<String>) -> (r: Option<
        Result<(), ExecuteError>,
    >)
        ensures
            ({
                let args = split_args.deep_view();
                if args.len() == 0 {
                    r == Some(Err::<(), ExecuteError>(ExecuteError::EmptyInput))
                } else {
                    match lookup_idx(self.entries(), lower_chars(args[0])) {
                        Some(i) => r matches Some(inner) && 0 <= i < self.entries().len()
                            && mapper_matches(
                            mapper_resolution(
                                self.entries()[i].1,
                                ContextView {
                                    sender,
                                    args: args.drop_first(),
                                    values: Seq::<(Seq<char>, ValueView)>::empty(),
                                },
                            ),
                            inner,
                        ),
                        None => r is None,
                    }
                }
            }),
    {
        let context = CommandContext::new(sender, split_args);
        match context.sub_arg() {
            SubArg::Empty(_) => Some(Err(ExecuteError::EmptyInput)),
            SubArg::Resolved((sub, context)) => {
                match self.command_mapper.resolve_command(sub.as_str()) {
                    Some(command) => Some(command.execute(context)),
                    None => None,
                }
            },
        }
    }
}

} // verus!
