//! The dispatch root: a map of top-level literal commands. The root carries
//! no handler of its own and accepts only literal children; an empty or
//! unmatched token sequence resolves to no match rather than an error.

use vstd::prelude::*;

use crate::command::{
    find_key, lookup_idx, map_insert, map_updated, matches_resolution, resolution, Command,
    CommandChildContainer, CommandHandler, HandlerError, ParseError, Resolution, StructuralError,
    TokenParser,
};
use crate::context::{CommandContext, ContextView};

verus! {

/// The root of a command tree: top-level literal commands, looked up by
/// their first token.
pub struct Executor<T, H, P> {
    commands: Vec<(String, Command<T, H, P>)>,
}

impl<T, H, P> Executor<T, H, P> {
    /// The top-level literal bindings, in registration order.
    pub closed spec fn entries(self) -> Seq<(String, Command<T, H, P>)> {
        self.commands@
    }

    /// An executor with no commands yet.
    pub fn new() -> (r: Executor<T, H, P>)
        ensures
            r.entries() == Seq::<(String, Command<T, H, P>)>::empty(),
    {
        let r = Executor { commands: Vec::new() };
        proof {
            assert(r.entries() =~= Seq::<(String, Command<T, H, P>)>::empty());
        }
        r
    }
}

impl<T, H: CommandHandler<T>, P: TokenParser<T>> CommandChildContainer<T, H, P> for Executor<
    T,
    H,
    P,
> {
    /// The root consumes the first token to pick a top-level command and
    /// resolves the rest against it; with no tokens or no match, nothing
    /// matched.
    open spec fn resolution_of(self, ctx: ContextView<T>) -> Resolution<T, H> {
        if ctx.args.len() > 0 {
            match lookup_idx(self.entries(), ctx.args[0]) {
                Some(i) => {
                    if 0 <= i < self.entries().len() {
                        resolution(self.entries()[i].1, ctx.trim_first())
                    } else {
                        Resolution::NoMatch
                    }
                },
                None => Resolution::NoMatch,
            }
        } else {
            Resolution::NoMatch
        }
    }

    /// Only literal commands may be bound at the root.
    open spec fn child_err(self, command: Command<T, H, P>) -> Option<StructuralError> {
        match command {
            Command::ArgParser(_) => Some(StructuralError::ArgParserAtRoot),
            Command::Natural(_) => None,
        }
    }

    /// A successful bind updates the top-level map like any literal map.
    open spec fn child_post(
        self,
        new: Self,
        identifier: Seq<char>,
        command: Command<T, H, P>,
    ) -> bool {
        map_updated(self.entries(), new.entries(), identifier, command)
    }

    fn child(&mut self, identifier: String, command: Command<T, H, P>) -> (r: Result<
        (),
        StructuralError,
    >) {
        match command {
            Command::ArgParser(_) => Err(StructuralError::ArgParserAtRoot),
            Command::Natural(_) => {
                map_insert(&mut self.commands, identifier, command);
                Ok(())
            },
        }
    }

    fn execute_context(&self, context: CommandContext<T>) -> (r: Result<
        Option<Result<(), HandlerError>>,
        ParseError,
    >) {
        let idx = if context.args().len() > 0 {
            find_key(&self.commands, &context.args()[0])
        } else {
            None
        };
        match idx {
            Some(i) => {
                let mut context = context;
                context.trim_top();
                self.commands[i].1.execute_context(context)
            },
            None => Ok(None),
        }
    }
}

} // verus!
