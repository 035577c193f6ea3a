//! The runtime dispatch trie. Each node branches either over a map of
//! literal tokens or over a single argument-parser child — never both — and
//! may carry an executable handler. Resolution consumes tokens from the
//! front; when a literal lookup fails, the current node's own handler is
//! applied to the current, unconsumed context: deepest reachable match wins,
//! else execute here. What a resolution yields is a pure function of the
//! tree and the context, given by `resolution`.

use vstd::prelude::*;

use core::marker::PhantomData;

use crate::context::{CommandContext, ContextView, Value, ValueView};

verus! {

broadcast use vstd::std_specs::vec::axiom_vec_index_decreases;

/// Why a registration call failed: the tree shape it would create is
/// illegal. The tree is left unchanged; the caller may restructure and
/// retry.
#[derive(Copy, Clone, PartialEq, Eq, Structural, Debug)]
pub enum StructuralError {
    /// A node with an argument-parser branch accepts no further children.
    ChildUnderArgumentParser,
    /// The dispatch root accepts only literal children.
    ArgParserAtRoot,
}

/// A handler's failure, surfaced as-is to the caller as the command's
/// result.
#[derive(Clone, PartialEq, Debug)]
pub struct HandlerError {
    pub message: String,
}

/// A parsing function's failure: the current tokens cannot be interpreted
/// as the argument's type. Not retried; surfaced to the caller.
#[derive(Clone, PartialEq, Debug)]
pub struct ParseError {
    pub message: String,
}

impl View for ParseError {
    type V = Seq<char>;

    open spec fn view(&self) -> Seq<char> {
        self.message@
    }
}

/// An executable behavior a command node may carry. `post` is the
/// implementor's own description of what `invoke` guarantees; the handler's
/// side effects and result are its own business.
pub trait CommandHandler<T>: Sized {
    /// What this handler guarantees of its result, given the context it ran
    /// on. By default a handler claims nothing.
    open spec fn post(&self, context: ContextView<T>, r: Result<(), HandlerError>) -> bool {
        true
    }

    /// Runs the handler on a resolved context.
    fn invoke(&self, context: CommandContext<T>) -> (r: Result<(), HandlerError>)
        ensures
            self.post(context@, r),
    ;
}

/// A token-consuming parsing function bound to an argument node. Parsing is
/// a pure function of the context, described exactly by `parse_spec`: it may
/// consume zero or more leading tokens and yields a typed value and the
/// advanced context, or a parse failure.
pub trait TokenParser<T>: Sized {
    /// What parsing yields on a given context: a value and the advanced
    /// context, or the message of the parse failure. An implementation
    /// overrides this with what its `parse` computes.
    open spec fn parse_spec(&self, context: ContextView<T>) -> Result<
        (ValueView, ContextView<T>),
        Seq<char>,
    > {
        Err(Seq::<char>::empty())
    }

    /// Parses leading tokens from the context, as `parse_spec` describes.
    fn parse(&self, context: CommandContext<T>) -> (r: Result<
        (Value, CommandContext<T>),
        ParseError,
    >)
        ensures
            match r {
                Ok((v, c)) => self.parse_spec(context@) matches Ok(s) && v@ == s.0 && c@ == s.1,
                Err(e) => self.parse_spec(context@) matches Err(m) && e@ == m,
            },
    ;
}

/// One of two alternatives, for callers that thread a resolved result or a
/// handed-back value through their own plumbing.
pub enum Either<L, R> {
    Left(L),
    Right(R),
}

/// A node's branch: either a single argument-parser child, or a map from
/// literal tokens to children — never both. The map is an association list
/// looked up by first match.
pub enum Next<T, H, P> {
    ArgumentParser(Command<T, H, P>),
    LiteralMap(Vec<(String, Command<T, H, P>)>),
}

/// One node of the dispatch trie.
pub enum Command<T, H, P> {
    Natural(NaturalCommand<T, H, P>),
    ArgParser(ArgParserCommand<T, H, P>),
}

/// A node matched by a literal token: an optional handler and a branch.
pub struct NaturalCommand<T, H, P> {
    pub command_function: Option<H>,
    pub next: Box<Next<T, H, P>>,
    pub sender: PhantomData<T>,
}

/// A node that consumes tokens through a bound parsing function: the parsed
/// value is stored under `identifier` before resolution continues.
pub struct ArgParserCommand<T, H, P> {
    pub command_function: Option<H>,
    pub identifier: String,
    pub parser_function: P,
    pub next: Box<Next<T, H, P>>,
    pub sender: PhantomData<T>,
}

/// The handler a node carries, if any.
pub open spec fn function_of<T, H, P>(c: Command<T, H, P>) -> Option<H> {
    match c {
        Command::Natural(nc) => nc.command_function,
        Command::ArgParser(ac) => ac.command_function,
    }
}

/// The branch below a node.
pub open spec fn next_of<T, H, P>(c: Command<T, H, P>) -> Next<T, H, P> {
    match c {
        Command::Natural(nc) => *nc.next,
        Command::ArgParser(ac) => *ac.next,
    }
}

/// The identifier an argument node binds its value under, if the node is
/// one.
pub open spec fn identifier_of<T, H, P>(c: Command<T, H, P>) -> Option<Seq<char>> {
    match c {
        Command::Natural(_) => None,
        Command::ArgParser(ac) => Some(ac.identifier@),
    }
}

/// The first index whose key reads `key`, if any.
pub open spec fn lookup_idx<V>(m: Seq<(String, V)>, key: Seq<char>) -> Option<
    int,
>
    decreases m.len(),
{
    if m.len() == 0 {
        None
    } else if m[0].0@ == key {
        Some(0)
    } else {
        match lookup_idx(m.drop_first(), key) {
            Some(i) => Some(i + 1),
            None => None,
        }
    }
}

/// `lookup_idx` finds exactly the first entry whose key reads `key`.
pub proof fn lemma_lookup_idx_props<V>(m: Seq<(String, V)>, key: Seq<char>)
    ensures
        match lookup_idx(m, key) {
            Some(i) => 0 <= i < m.len() && m[i].0@ == key && (forall|j: int|
                0 <= j < i ==> m[j].0@ != key),
            None => forall|j: int| 0 <= j < m.len() ==> m[j].0@ != key,
        },
    decreases m.len(),
{
    if m.len() > 0 && m[0].0@ != key {
        lemma_lookup_idx_props(m.drop_first(), key);
        assert(forall|j: int| 1 <= j < m.len() ==> m[j] == m.drop_first()[j - 1]);
    }
}

/// The first match characterizes `lookup_idx` completely.
pub proof fn lemma_lookup_idx_of_first<V>(
    m: Seq<(String, V)>,
    key: Seq<char>,
    i: int,
)
    requires
        0 <= i < m.len(),
        m[i].0@ == key,
        forall|j: int| 0 <= j < i ==> m[j].0@ != key,
    ensures
        lookup_idx(m, key) == Some(i),
    decreases m.len(),
{
    if i > 0 {
        assert(forall|j: int| 1 <= j < m.len() ==> m[j] == m.drop_first()[j - 1]);
        lemma_lookup_idx_of_first(m.drop_first(), key, i - 1);
    }
}

/// What resolving a context against a tree yields: no command matched, a
/// parse failure with its message, or a target handler together with the
/// exact context it is applied to.
pub enum Resolution<T, H> {
    NoMatch,
    ParseFailed(Seq<char>),
    Target(H, ContextView<T>),
}

/// Resolution at a node whose branch yields nothing deeper: its own handler
/// applied to the current, unconsumed context, or no match at all.
pub open spec fn fallback<T, H: CommandHandler<T>>(function: Option<H>, ctx: ContextView<T>) -> Resolution<T, H> {
    match function {
        Some(h) => Resolution::Target(h, ctx),
        None => Resolution::NoMatch,
    }
}

/// Resolution below a node: over its branch and its own optional handler.
pub open spec fn resolution_next<T, H: CommandHandler<T>, P: TokenParser<T>>(
    n: Next<T, H, P>,
    function: Option<H>,
    ctx: ContextView<T>,
) -> Resolution<T, H>
    decreases n,
{
    match n {
        Next::ArgumentParser(child) => match child {
            Command::Natural(_) => Resolution::NoMatch,
            Command::ArgParser(ac) => match ac.parser_function.parse_spec(ctx) {
                Err(m) => Resolution::ParseFailed(m),
                Ok((v, ctx2)) => resolution(child, ctx2.with_value(ac.identifier@, v)),
            },
        },
        Next::LiteralMap(m) => {
            if ctx.args.len() > 0 {
                match lookup_idx(m@, ctx.args[0]) {
                    Some(i) => {
                        if 0 <= i < m@.len() {
                            resolution(m@[i].1, ctx.trim_first())
                        } else {
                            fallback(function, ctx)
                        }
                    },
                    None => fallback(function, ctx),
                }
            } else {
                fallback(function, ctx)
            }
        },
    }
}

/// Resolving a context against the subtree rooted at `c`: follow the
/// matching literal or the argument parser as deep as possible; where no
/// deeper match exists, the current node's handler applied to the current,
/// unconsumed context is the target, and a node with no handler yields no
/// match.
pub open spec fn resolution<T, H: CommandHandler<T>, P: TokenParser<T>>(
    c: Command<T, H, P>,
    ctx: ContextView<T>,
) -> Resolution<T, H>
    decreases c,
{
    resolution_next(next_of(c), function_of(c), ctx)
}

/// How an execution result reflects a resolution: no match is `Ok(None)`, a
/// parse failure is the outer error, and a target handler's result is the
/// inner value, bound by the handler's own contract on exactly the resolved
/// context.
pub open spec fn matches_resolution<T, H: CommandHandler<T>>(
    res: Resolution<T, H>,
    r: Result<Option<Result<(), HandlerError>>, ParseError>,
) -> bool {
    match res {
        Resolution::NoMatch => r == Ok::<Option<Result<(), HandlerError>>, ParseError>(None),
        Resolution::ParseFailed(m) => r matches Err(e) && e@ == m,
        Resolution::Target(h, tctx) => r matches Ok(Some(hr)) && h.post(tctx, hr),
    }
}

/// How a literal map changes when `identifier` is bound to a new command:
/// the first entry with that key is replaced, or a new entry is appended.
pub open spec fn map_updated<V>(
    m: Seq<(String, V)>,
    m2: Seq<(String, V)>,
    identifier: Seq<char>,
    command: V,
) -> bool {
    match lookup_idx(m, identifier) {
        Some(i) => m2.len() == m.len() && m2[i].0@ == identifier && m2[i].1 == command && (forall|
            j: int,
        |
            0 <= j < m.len() && j != i ==> m2[j] == m[j]),
        None => m2.len() == m.len() + 1 && m2.subrange(0, m.len() as int) == m && m2[m.len()
            as int].0@ == identifier && m2[m.len() as int].1 == command,
    }
}

/// Re-running a command against an unmutated tree, with a freshly
/// constructed context holding the same sender, tokens and values, yields
/// the same outcome: resolution is a function of the tree and the context's
/// content alone, so both runs reach the same case — no match, the same
/// parse failure, or the same handler on the same context — and only that
/// handler's own result may vary, within its own contract.
pub proof fn lemma_execute_repeatable<T, H: CommandHandler<T>, P: TokenParser<T>>(
    c: Command<T, H, P>,
    ctx1: ContextView<T>,
    ctx2: ContextView<T>,
    r1: Result<Option<Result<(), HandlerError>>, ParseError>,
    r2: Result<Option<Result<(), HandlerError>>, ParseError>,
)
    requires
        ctx1 == ctx2,
        matches_resolution(resolution(c, ctx1), r1),
        matches_resolution(resolution(c, ctx2), r2),
    ensures
        resolution(c, ctx1) == resolution(c, ctx2),
        r1 is Ok <==> r2 is Ok,
        r1 matches Err(e1) ==> (r2 matches Err(e2) && e1@ == e2@),
        r1 matches Ok(o1) ==> (r2 matches Ok(o2) && (o1 is Some <==> o2 is Some)),
        resolution(c, ctx1) matches Resolution::Target(h, tctx) ==> (r1 matches Ok(Some(h1))
            && r2 matches Ok(Some(h2)) && h.post(tctx, h1) && h.post(tctx, h2)),
{
}

/// Something a dispatch tree and its root container both do: accept children
/// and resolve contexts.
pub trait CommandChildContainer<T, H: CommandHandler<T>, P: TokenParser<T>>: Sized {
    /// What resolving a context against this container yields.
    spec fn resolution_of(self, ctx: ContextView<T>) -> Resolution<T, H>;

    /// The structural error attaching `command` raises, if any.
    spec fn child_err(self, command: Command<T, H, P>) -> Option<StructuralError>;

    /// How a successful attach of `command` under `identifier` changes the
    /// container.
    spec fn child_post(self, new: Self, identifier: Seq<char>, command: Command<T, H, P>) -> bool;

    /// Registers a subordinate command under a literal token, or installs an
    /// argument-parser branch. Fails with the structural error `child_err`
    /// gives, leaving the container unchanged, exactly when there is one.
    fn child(&mut self, identifier: String, command: Command<T, H, P>) -> (r: Result<
        (),
        StructuralError,
    >)
        ensures
            match old(self).child_err(command) {
                Some(e) => r == Err::<(), StructuralError>(e) && *final(self) == *old(self),
                None => r == Ok::<(), StructuralError>(()) && old(self).child_post(
                    *final(self),
                    identifier@,
                    command,
                ),
            },
    ;

    /// Resolves the context and runs the target handler, if any: the result
    /// reflects `resolution_of` exactly.
    fn execute_context(&self, context: CommandContext<T>) -> (r: Result<
        Option<Result<(), HandlerError>>,
        ParseError,
    >)
        ensures
            matches_resolution(self.resolution_of(context@), r),
    ;
}

impl<T, H, P> Default for Next<T, H, P> {
    /// A fresh branch is an empty literal map.
    fn default() -> (r: Self)
        ensures
            r matches Next::LiteralMap(m) && m@ == Seq::<(String, Command<T, H, P>)>::empty(),
    {
        Next::LiteralMap(Vec::new())
    }
}

impl<T, H, P> NaturalCommand<T, H, P> {
    /// A literal node with a handler and no children yet.
    pub fn executable(command_function: H) -> (r: NaturalCommand<T, H, P>)
        ensures
            r.command_function == Some(command_function),
            *r.next matches Next::LiteralMap(m) && m@ == Seq::<(
                String,
                Command<T, H, P>,
            )>::empty(),
    {
        NaturalCommand {
            command_function: Some(command_function),
            next: Box::new(Next::default()),
            sender: PhantomData,
        }
    }

    /// A literal node with no handler and no children yet.
    pub fn non_executable() -> (r: NaturalCommand<T, H, P>)
        ensures
            r.command_function is None,
            *r.next matches Next::LiteralMap(m) && m@ == Seq::<(
                String,
                Command<T, H, P>,
            )>::empty(),
    {
        NaturalCommand { command_function: None, next: Box::new(Next::default()), sender: PhantomData }
    }
}

impl<T, H, P> ArgParserCommand<T, H, P> {
    /// An argument node with no handler of its own.
    pub fn non_executable(identifier: String, parser_function: P) -> (r: ArgParserCommand<
        T,
        H,
        P,
    >)
        ensures
            r.command_function is None,
            r.identifier == identifier,
            r.parser_function == parser_function,
            *r.next matches Next::LiteralMap(m) && m@ == Seq::<(
                String,
                Command<T, H, P>,
            )>::empty(),
    {
        ArgParserCommand {
            command_function: None,
            identifier,
            parser_function,
            next: Box::new(Next::default()),
            sender: PhantomData,
        }
    }

    /// An argument node with its own handler.
    pub fn executable(command_function: H, identifier: String, parser_function: P) -> (r:
        ArgParserCommand<T, H, P>)
        ensures
            r.command_function == Some(command_function),
            r.identifier == identifier,
            r.parser_function == parser_function,
            *r.next matches Next::LiteralMap(m) && m@ == Seq::<(
                String,
                Command<T, H, P>,
            )>::empty(),
    {
        ArgParserCommand {
            command_function: Some(command_function),
            identifier,
            parser_function,
            next: Box::new(Next::default()),
            sender: PhantomData,
        }
    }
}

impl<T, H: CommandHandler<T>, P: TokenParser<T>> ArgParserCommand<T, H, P> {
    /// What `parse` leaves in the context: the parser's own result, with the
    /// value bound under this node's identifier.
    pub open spec fn parse_applied(self, ctx: ContextView<T>) -> Result<ContextView<T>, Seq<char>> {
        match self.parser_function.parse_spec(ctx) {
            Ok((v, c)) => Ok(c.with_value(self.identifier@, v)),
            Err(m) => Err(m),
        }
    }

    /// Runs the bound parsing function and stores the value it produced
    /// under this node's identifier.
    pub fn parse(&self, context: CommandContext<T>) -> (r: Result<CommandContext<T>, ParseError>)
        ensures
            match r {
                Ok(c) => self.parse_applied(context@) matches Ok(cv) && c@ == cv,
                Err(e) => self.parse_applied(context@) matches Err(m) && e@ == m,
            },
    {
        match self.parser_function.parse(context) {
            Ok((value, new_context)) => {
                let mut new_context = new_context;
                new_context.value_arg((self.identifier.clone(), value));
                Ok(new_context)
            },
            Err(e) => Err(e),
        }
    }
}

/// Finds the first entry of `m` whose key equals `key`, as `lookup_idx`
/// describes.
pub(crate) fn find_key<V>(m: &Vec<(String, V)>, key: &String) -> (r: Option<usize>)
    ensures
        match r {
            Some(i) => i < m@.len() && lookup_idx(m@, key@) == Some(i as int),
            None => lookup_idx(m@, key@) is None,
        },
{
    let n = m.len();
    let mut i: usize = 0;
    while i < n
        invariant
            i <= n,
            n == m@.len(),
            forall|j: int| 0 <= j < i ==> m@[j].0@ != key@,
        decreases n - i,
    {
        if m[i].0 == *key {
            proof {
                lemma_lookup_idx_of_first(m@, key@, i as int);
            }
            return Some(i);
        }
        i = i + 1;
    }
    proof {
        lemma_lookup_idx_props(m@, key@);
    }
    None
}

/// Binds `identifier` to `command` in the literal map: replaces the first
/// entry with that key, or appends a new one.
pub(crate) fn map_insert<V>(
    m: &mut Vec<(String, V)>,
    identifier: String,
    command: V,
)
    ensures
        map_updated(old(m)@, final(m)@, identifier@, command),
{
    match find_key(m, &identifier) {
        Some(i) => {
            m[i] = (identifier, command);
        },
        None => {
            m.push((identifier, command));
            assert(m@.subrange(0, old(m)@.len() as int) =~= old(m)@);
        },
    }
}

impl<T, H: CommandHandler<T>, P: TokenParser<T>> Command<T, H, P> {
    /// Resolves the branch below a node: follow the argument parser, or the
    /// matching literal, or hand the context back for the node's own
    /// handler.
    fn run_next(
        next: &Next<T, H, P>,
        function: &Option<H>,
        context: CommandContext<T>,
    ) -> (r: Result<Option<Result<(), HandlerError>>, ParseError>)
        ensures
            matches_resolution(resolution_next(*next, *function, context@), r),
        decreases next,
    {
        match next {
            Next::ArgumentParser(child) => match child {
                Command::Natural(_) => Ok(None),
                Command::ArgParser(ap) => {
                    match ap.parse(context) {
                        Ok(resolved) => child.execute_context_inner(resolved),
                        Err(e) => Err(e),
                    }
                },
            },
            Next::LiteralMap(m) => {
                let idx = if context.args().len() > 0 {
                    find_key(m, &context.args()[0])
                } else {
                    None
                };
                match idx {
                    Some(i) => {
                        let mut context = context;
                        context.trim_top();
                        m[i].1.execute_context_inner(context)
                    },
                    None => {
                        match function {
                            Some(h) => Ok(Some(h.invoke(context))),
                            None => Ok(None),
                        }
                    },
                }
            },
        }
    }

    /// Resolves a context against the subtree rooted at this node, as
    /// `resolution` describes.
    fn execute_context_inner(&self, context: CommandContext<T>) -> (r: Result<
        Option<Result<(), HandlerError>>,
        ParseError,
    >)
        ensures
            matches_resolution(resolution(*self, context@), r),
        decreases self,
    {
        match self {
            Command::Natural(inner) => Self::run_next(
                &inner.next,
                &inner.command_function,
                context,
            ),
            Command::ArgParser(inner) => Self::run_next(
                &inner.next,
                &inner.command_function,
                context,
            ),
        }
    }
}

/// Attaches `command` under `identifier` below a branch: binds a literal
/// child in the map, or installs an argument-parser child as the sole
/// branch. A branch that already is an argument parser accepts nothing.
fn attach<T, H, P>(
    next: &mut Box<Next<T, H, P>>,
    identifier: String,
    command: Command<T, H, P>,
) -> (r: Result<(), StructuralError>)
    ensures
        match **old(next) {
            Next::ArgumentParser(_) => r == Err::<(), StructuralError>(
                StructuralError::ChildUnderArgumentParser,
            ) && *final(next) == *old(next),
            Next::LiteralMap(m) => r == Ok::<(), StructuralError>(()) && (match command {
                Command::ArgParser(_) => **final(next) == Next::ArgumentParser(command),
                Command::Natural(_) => **final(next) matches Next::LiteralMap(m2) && map_updated(
                    m@,
                    m2@,
                    identifier@,
                    command,
                ),
            }),
        },
{
    let mut current: Next<T, H, P> = Next::LiteralMap(Vec::new());
    core::mem::swap(&mut **next, &mut current);
    match current {
        Next::ArgumentParser(c) => {
            **next = Next::ArgumentParser(c);
            Err(StructuralError::ChildUnderArgumentParser)
        },
        Next::LiteralMap(m) => {
            match command {
                Command::Natural(_) => {
                    let mut m = m;
                    map_insert(&mut m, identifier, command);
                    **next = Next::LiteralMap(m);
                    Ok(())
                },
                Command::ArgParser(_) => {
                    **next = Next::ArgumentParser(command);
                    Ok(())
                },
            }
        },
    }
}

impl<T, H: CommandHandler<T>, P: TokenParser<T>> CommandChildContainer<T, H, P> for Command<
    T,
    H,
    P,
> {
    /// Resolution against a command is `resolution` on its subtree.
    open spec fn resolution_of(self, ctx: ContextView<T>) -> Resolution<T, H> {
        resolution(self, ctx)
    }

    /// Attaching any child under an argument-parser branch is an error.
    open spec fn child_err(self, command: Command<T, H, P>) -> Option<StructuralError> {
        match next_of(self) {
            Next::ArgumentParser(_) => Some(StructuralError::ChildUnderArgumentParser),
            Next::LiteralMap(_) => None,
        }
    }

    /// A literal child is bound in the map; an argument-parser child
    /// replaces the whole branch. The node's own handler, identifier and
    /// parser are untouched.
    open spec fn child_post(
        self,
        new: Self,
        identifier: Seq<char>,
        command: Command<T, H, P>,
    ) -> bool {
        &&& function_of(new) == function_of(self)
        &&& identifier_of(new) == identifier_of(self)
        &&& (self is Natural <==> new is Natural)
        &&& (match command {
            Command::ArgParser(_) => next_of(new) == Next::ArgumentParser(command),
            Command::Natural(_) => {
                &&& next_of(self) matches Next::LiteralMap(m)
                &&& next_of(new) matches Next::LiteralMap(m2) && map_updated(
                    m@,
                    m2@,
                    identifier,
                    command,
                )
            },
        })
    }

    fn child(&mut self, identifier: String, command: Command<T, H, P>) -> (r: Result<
        (),
        StructuralError,
    >) {
        match self {
            Command::Natural(inner) => attach(&mut inner.next, identifier, command),
            Command::ArgParser(inner) => attach(&mut inner.next, identifier, command),
        }
    }

    fn execute_context(&self, context: CommandContext<T>) -> (r: Result<
        Option<Result<(), HandlerError>>,
        ParseError,
    >) {
        self.execute_context_inner(context)
    }
}

} // verus!
