//! The execution context threaded through command resolution: the sender
//! handle, the remaining unconsumed tokens, and the typed values accumulated
//! so far. Consuming a token removes it from the front irreversibly; parsed
//! values are append-only. No operation looks behind the cursor.

use vstd::prelude::*;

verus! {

/// A typed value an argument parser produced. The `Float` variant holds the
/// IEEE 754 bit pattern of the parsed number.
#[derive(Clone, PartialEq, Debug)]
pub enum Value {
    String(String),
    Integer(u32),
    Float(u32),
    Generic(String),
}

/// The mathematical content of a `Value`, with character sequences in place
/// of strings.
pub enum ValueView {
    String(Seq<char>),
    Integer(u32),
    Float(u32),
    Generic(Seq<char>),
}

impl View for Value {
    type V = ValueView;

    open spec fn view(&self) -> ValueView {
        match self {
            Value::String(s) => ValueView::String(s@),
            Value::Integer(v) => ValueView::Integer(*v),
            Value::Float(v) => ValueView::Float(*v),
            Value::Generic(s) => ValueView::Generic(s@),
        }
    }
}

/// A parsed value bound to the identifier of the argument that produced it.
pub type ArgValue = (String, Value);

/// The content of a sequence of bound values.
pub open spec fn arg_values_view(v: Seq<(String, Value)>) -> Seq<(Seq<char>, ValueView)> {
    Seq::new(v.len(), |i: int| (v[i].0@, v[i].1@))
}

/// The ordered, append-only list of values the argument parsers accumulated.
#[derive(Debug)]
pub struct ArgValues {
    values: Vec<ArgValue>,
}

impl View for ArgValues {
    type V = Seq<(Seq<char>, ValueView)>;

    closed spec fn view(&self) -> Seq<(Seq<char>, ValueView)> {
        arg_values_view(self.values@)
    }
}

impl ArgValues {
    pub fn new() -> (r: ArgValues)
        ensures
            r@ == Seq::<(Seq<char>, ValueView)>::empty(),
    {
        let r = ArgValues { values: Vec::new() };
        proof {
            assert(r@ =~= Seq::<(Seq<char>, ValueView)>::empty());
        }
        r
    }

    /// Hands the accumulated values out.
    pub fn into_inner(self) -> (r: Vec<ArgValue>)
        ensures
            arg_values_view(r@) == self@,
    {
        self.values
    }

    /// Lends the accumulated values out.
    pub fn borrow_inner(&self) -> (r: &Vec<ArgValue>)
        ensures
            arg_values_view(r@) == self@,
    {
        &self.values
    }

    /// Appends one bound value.
    pub fn push(&mut self, value: ArgValue)
        ensures
            final(self)@ == old(self)@.push((value.0@, value.1@)),
    {
        let ghost v = (value.0@, value.1@);
        self.values.push(value);
        proof {
            assert(self@ =~= old(self)@.push(v));
        }
    }
}

/// The mathematical content of a `CommandContext`: the sender, the remaining
/// tokens, and the bound values.
pub struct ContextView<T> {
    pub sender: T,
    pub args: Seq<Seq<char>>,
    pub values: Seq<(Seq<char>, ValueView)>,
}

impl<T> ContextView<T> {
    /// The context after the first remaining token is consumed.
    pub open spec fn trim_first(self) -> ContextView<T> {
        ContextView { args: self.args.drop_first(), ..self }
    }

    /// The context after a parsed value is bound under `identifier`.
    pub open spec fn with_value(self, identifier: Seq<char>, v: ValueView) -> ContextView<T> {
        ContextView { values: self.values.push((identifier, v)), ..self }
    }
}

/// The per-call state a command resolution threads: who sent the command,
/// which tokens remain, and which values have been parsed so far.
#[derive(Debug)]
pub struct CommandContext<T> {
    sender: T,
    args: Vec<String>,
    value_args: ArgValues,
}

/// A context split at its first remaining token: either nothing remained, or
/// the first token and the context holding the rest.
pub enum SubArg<T> {
    Empty(CommandContext<T>),
    Resolved((String, CommandContext<T>)),
}

impl<T> View for CommandContext<T> {
    type V = ContextView<T>;

    closed spec fn view(&self) -> ContextView<T> {
        ContextView { sender: self.sender, args: self.args.deep_view(), values: self.value_args@ }
    }
}

impl<T> CommandContext<T> {
    pub fn new(sender: T, args: Vec<String>) -> (r: CommandContext<T>)
        ensures
            r@.sender == sender,
            r@.args == args.deep_view(),
            r@.values == Seq::<(Seq<char>, ValueView)>::empty(),
    {
        CommandContext { sender, args, value_args: ArgValues::new() }
    }

    /// Wraps a sender and borrowed tokens into a fresh context.
    pub fn create(sender: T, split_args: Vec<&str>) -> (r: CommandContext<T>)
        ensures
            r@.sender == sender,
            r@.args.len() == split_args.deep_view().len(),
            forall|i: int| 0 <= i < r@.args.len() ==> r@.args[i] == split_args.deep_view()[i],
            r@.values == Seq::<(Seq<char>, ValueView)>::empty(),
    {
        let mut args: Vec<String> = Vec::new();
        let n = split_args.len();
        let mut i: usize = 0;
        while i < n
            invariant
                i <= n,
                n == split_args@.len(),
                args@.len() == i,
                forall|j: int| 0 <= j < i ==> args@[j]@ == split_args@[j]@,
            decreases n - i,
        {
            args.push(split_args[i].to_owned());
            i = i + 1;
        }
        let r = CommandContext::new(sender, args);
        proof {
            assert(forall|j: int|
                0 <= j < split_args@.len() ==> split_args.deep_view()[j] == split_args@[j]@);
        }
        r
    }

    /// Reads the sender handle.
    pub fn sender(&self) -> (r: &T)
        ensures
            *r == self@.sender,
    {
        &self.sender
    }

    /// Reads the remaining tokens.
    pub fn args(&self) -> (r: &Vec<String>)
        ensures
            r.deep_view() == self@.args,
            r@.len() == self@.args.len(),
            forall|i: int| 0 <= i < r@.len() ==> r@[i]@ == self@.args[i],
    {
        assert forall|i: int| 0 <= i < self.args@.len() implies self.args@[i]@
            == self.args.deep_view()[i] by {}
        &self.args
    }

    /// Borrows the sender handle for mutation.
    pub fn sender_mut(&mut self) -> (r: &mut T)
        ensures
            *r == old(self)@.sender,
            final(self)@ == (ContextView { sender: *final(r), ..old(self)@ }),
    {
        &mut self.sender
    }

    /// Borrows the remaining tokens for mutation.
    pub fn args_mut(&mut self) -> (r: &mut Vec<String>)
        ensures
            r.deep_view() == old(self)@.args,
            final(self)@ == (ContextView { args: final(r).deep_view(), ..old(self)@ }),
    {
        &mut self.args
    }

    /// Reads the values accumulated so far.
    pub fn values(&self) -> (r: &ArgValues)
        ensures
            r@ == self@.values,
    {
        &self.value_args
    }

    /// Takes the context apart into its sender and remaining tokens.
    pub fn split(self) -> (r: (T, Vec<String>))
        ensures
            r.0 == self@.sender,
            r.1.deep_view() == self@.args,
    {
        (self.sender, self.args)
    }

    /// Appends a parsed value under its identifier. Values are append-only.
    pub fn value_arg(&mut self, value: ArgValue)
        ensures
            final(self)@ == old(self)@.with_value(value.0@, value.1@),
    {
        self.value_args.push(value);
    }

    /// Removes the first remaining token, irreversibly.
    pub fn trim_top(&mut self)
        requires
            old(self)@.args.len() > 0,
        ensures
            final(self)@ == old(self)@.trim_first(),
    {
        self.args.remove(0);
        proof {
            assert(self.args.deep_view() =~= old(self)@.args.drop_first());
        }
    }

    /// Replaces the remaining tokens wholesale.
    pub fn overwrite_args(&mut self, new_args: Vec<String>)
        ensures
            final(self)@ == (ContextView { args: new_args.deep_view(), ..old(self)@ }),
    {
        self.args = new_args;
    }

    /// Splits off the first remaining token, or reports that none remained.
    pub fn sub_arg(self) -> (r: SubArg<T>)
        ensures
            match r {
                SubArg::Empty(c) => self@.args.len() == 0 && c@ == self@,
                SubArg::Resolved((s, c)) => self@.args.len() > 0 && s@ == self@.args[0] && c@
                    == self@.trim_first(),
            },
    {
        if self.args.len() == 0 {
            SubArg::Empty(self)
        } else {
            let mut this = self;
            let first = this.args.remove(0);
            proof {
                assert(this.args.deep_view() =~= self@.args.drop_first());
            }
            SubArg::Resolved((first, this))
        }
    }

    /// Rebuilds a context by putting a token back at the front.
    pub fn concat(arg: String, other: CommandContext<T>) -> (r: CommandContext<T>)
        ensures
            r@.sender == other@.sender,
            r@.args == seq![arg@] + other@.args,
            r@.values == other@.values,
    {
        let mut this = other;
        this.args.insert(0, arg);
        proof {
            assert(this.args.deep_view() =~= seq![arg@] + other@.args);
        }
        this
    }
}

} // verus!
