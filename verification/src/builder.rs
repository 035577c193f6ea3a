//! The builder grows the executable dispatch trie and a flat,
//! index-addressed node graph in lockstep: every registration attaches a
//! subtree to the trie and records a graph stub under a freshly assigned
//! index, with index zero reserved for the implicit root. Splicing a
//! pre-built sub-builder rewrites its indices by a fixed offset so the
//! combined numbering stays contiguous and collision-free. Finalizing yields
//! the node array in index order, so a node's position is its wire index.

use vstd::prelude::*;

use core::marker::PhantomData;

use crate::command::{
    Command, CommandChildContainer, CommandHandler, StructuralError, TokenParser,
};
use crate::executor::Executor;
use crate::flags::BrigadierFlags;
use crate::node::{Node, NodeName, NodeView};
use crate::parser::{Parser, SuggestionsType};

verus! {

/// What the builder records about one registered node: its flags, name and
/// optional parser and suggestions type, before children are known.
pub struct NodeStub {
    pub flags: BrigadierFlags,
    pub name: NodeName,
    pub parser: Option<Parser>,
    pub suggestions_type: Option<SuggestionsType>,
}

impl NodeStub {
    /// Whether the stub describes an encodable non-root node: it is a
    /// literal or an argument, each optional field is present exactly when
    /// its flag says so, no redirect is claimed, and the payload is well
    /// formed.
    pub open spec fn wf(self) -> bool {
        &&& !self.flags.spec_is_root()
        &&& !self.flags.has_redirect
        &&& (self.parser is Some <==> self.flags.node_argument)
        &&& (self.suggestions_type is Some <==> self.flags.has_suggestions_type)
        &&& self.name.wf()
        &&& (match self.parser {
            Some(p) => p.wf(),
            None => true,
        })
    }

    /// A stub with neither parser nor suggestions type.
    pub fn new(flags: BrigadierFlags, name: NodeName) -> (r: NodeStub)
        ensures
            r == (NodeStub { flags, name, parser: None, suggestions_type: None }),
    {
        NodeStub { flags, name, parser: None, suggestions_type: None }
    }

    /// A stub carrying an argument parser.
    pub fn parser(flags: BrigadierFlags, name: NodeName, parser: Parser) -> (r: NodeStub)
        ensures
            r == (NodeStub { flags, name, parser: Some(parser), suggestions_type: None }),
    {
        NodeStub { flags, name, parser: Some(parser), suggestions_type: None }
    }

    /// A stub carrying an argument parser and a suggestions type.
    pub fn suggestion_parser(
        flags: BrigadierFlags,
        name: NodeName,
        parser: Parser,
        suggestions_type: SuggestionsType,
    ) -> (r: NodeStub)
        ensures
            r == (NodeStub {
                flags,
                name,
                parser: Some(parser),
                suggestions_type: Some(suggestions_type),
            }),
    {
        NodeStub { flags, name, parser: Some(parser), suggestions_type: Some(suggestions_type) }
    }
}

/// One recorded registration: a stub, the index assigned to it, and the
/// index of its parent.
pub struct BuilderCommand {
    pub node_stub: NodeStub,
    pub index: i32,
    pub parent: i32,
}

/// Grows a dispatch tree rooted at `CC` and records the parallel graph
/// description. Indices are assigned in registration order starting at one;
/// zero always denotes the implicit root.
pub struct Builder<T, H, P, CC> {
    root: CC,
    commands: Vec<BuilderCommand>,
    node_index: i32,
    sender: PhantomData<(T, H, P)>,
}

/// The recorded commands with both indices shifted by a fixed offset.
pub open spec fn shift_commands(s: Seq<BuilderCommand>, off: int) -> Seq<BuilderCommand> {
    Seq::new(
        s.len(),
        |i: int|
            BuilderCommand {
                node_stub: s[i].node_stub,
                index: (s[i].index + off) as i32,
                parent: (s[i].parent + off) as i32,
            },
    )
}

/// The indices, among the first `k` recorded commands, of the children of
/// the node at `parent`, in registration order.
pub open spec fn children_upto(cmds: Seq<BuilderCommand>, parent: int, k: int) -> Seq<u32>
    decreases k,
{
    if k <= 0 {
        Seq::<u32>::empty()
    } else {
        children_upto(cmds, parent, k - 1) + (if cmds[k - 1].parent == parent {
            seq![k as u32]
        } else {
            Seq::<u32>::empty()
        })
    }
}

/// The child indices of the node at `parent`, over all recorded commands.
pub open spec fn spec_children_of(cmds: Seq<BuilderCommand>, parent: int) -> Seq<u32> {
    children_upto(cmds, parent, cmds.len() as int)
}

/// Every recorded child index names a registered node: it lies between one
/// and the number of recorded commands, so it is a valid position in the
/// finalized array. There are never more children than commands.
pub proof fn lemma_children_upto_bounds(cmds: Seq<BuilderCommand>, parent: int, k: int)
    requires
        0 <= k <= cmds.len(),
        k <= u32::MAX,
    ensures
        children_upto(cmds, parent, k).len() <= k,
        forall|t: int|
            0 <= t < children_upto(cmds, parent, k).len() ==> 1 <= #[trigger] children_upto(
                cmds,
                parent,
                k,
            )[t] <= k,
    decreases k,
{
    if k > 0 {
        lemma_children_upto_bounds(cmds, parent, k - 1);
        let prev = children_upto(cmds, parent, k - 1);
        let cur = children_upto(cmds, parent, k);
        assert forall|t: int| 0 <= t < cur.len() implies 1 <= #[trigger] cur[t] <= k by {
            if t < prev.len() {
                assert(cur[t] == prev[t]);
            } else {
                assert(cmds[k - 1].parent == parent);
                assert(cur[t] == (k as u32));
            }
        }
    }
}

/// The view of the node the builder will emit at position `i`: the implicit
/// all-clear root at zero, and each recorded stub with its accumulated
/// children at its own index. No node carries a redirect.
pub open spec fn node_for(cmds: Seq<BuilderCommand>, i: int) -> NodeView {
    if i == 0 {
        NodeView {
            flags: BrigadierFlags {
                node_literal: false,
                node_argument: false,
                executable: false,
                has_redirect: false,
                has_suggestions_type: false,
            },
            count: spec_children_of(cmds, 0).len() as u32,
            children: spec_children_of(cmds, 0),
            redirect_node: None,
            name: None,
            parser: None,
            suggestions_type: None,
        }
    } else {
        NodeView {
            flags: cmds[i - 1].node_stub.flags,
            count: spec_children_of(cmds, i).len() as u32,
            children: spec_children_of(cmds, i),
            redirect_node: None,
            name: Some(cmds[i - 1].node_stub.name@),
            parser: cmds[i - 1].node_stub.parser,
            suggestions_type: cmds[i - 1].node_stub.suggestions_type,
        }
    }
}

impl<T, H: CommandHandler<T>, P: TokenParser<T>, CC: CommandChildContainer<T, H, P>> Builder<
    T,
    H,
    P,
    CC,
> {
    /// The dispatch root grown so far.
    pub closed spec fn spec_root(self) -> CC {
        self.root
    }

    /// The recorded registrations, in order.
    pub closed spec fn spec_commands(self) -> Seq<BuilderCommand> {
        self.commands@
    }

    /// The next index to assign.
    pub closed spec fn spec_node_index(self) -> int {
        self.node_index as int
    }

    /// The builder's invariant: the next index is one past the recorded
    /// commands, each command's index is its position plus one, each parent
    /// is an already-recorded index, and each stub is well formed.
    pub open spec fn wf(self) -> bool {
        &&& self.spec_node_index() == self.spec_commands().len() + 1
        &&& forall|i: int|
            0 <= i < self.spec_commands().len() ==> (#[trigger] self.spec_commands()[i]).index == i
                + 1 && 0 <= self.spec_commands()[i].parent <= i
                && self.spec_commands()[i].node_stub.wf()
    }

    /// Registers `command` under the stub's name: attaches it to the
    /// dispatch root and records the stub under the next index, as a child
    /// of the implicit root. Fails exactly when the root refuses the child,
    /// recording nothing.
    pub fn child(self, node_stub: NodeStub, command: Command<T, H, P>) -> (r: Result<
        Self,
        StructuralError,
    >)
        requires
            self.wf(),
            node_stub.wf(),
            self.spec_commands().len() + 2 <= i32::MAX,
        ensures
            match self.spec_root().child_err(command) {
                Some(e) => r == Err::<Self, StructuralError>(e),
                None => r matches Ok(b) && b.wf() && b.spec_commands() == self.spec_commands().push(
                    BuilderCommand {
                        node_stub,
                        index: (self.spec_commands().len() + 1) as i32,
                        parent: 0,
                    },
                ) && b.spec_node_index() == self.spec_node_index() + 1 && self.spec_root().child_post(
                    b.spec_root(),
                    node_stub.name.chars(),
                    command,
                ),
            },
    {
        let Builder { mut root, mut commands, node_index, sender } = self;
        match root.child(node_stub.name.to_text(), command) {
            Err(e) => Err(e),
            Ok(()) => {
                commands.push(BuilderCommand { node_stub, index: node_index, parent: 0 });
                Ok(Builder { root, commands, node_index: node_index + 1, sender })
            },
        }
    }

    /// Splices a fully built sub-builder as one subtree: its root becomes a
    /// child of the implicit root under the stub's name, and all its
    /// recorded indices are shifted by the current index counter so the
    /// whole numbering stays contiguous. Fails exactly when the root refuses
    /// the subtree, recording nothing.
    pub fn wrap(
        self,
        sub_node_stub: NodeStub,
        sub_builder: Builder<T, H, P, Command<T, H, P>>,
    ) -> (r: Result<Self, StructuralError>)
        requires
            self.wf(),
            sub_builder.wf(),
            sub_node_stub.wf(),
            self.spec_commands().len() + sub_builder.spec_commands().len() + 2 <= i32::MAX,
        ensures
            match self.spec_root().child_err(sub_builder.spec_root()) {
                Some(e) => r == Err::<Self, StructuralError>(e),
                None => r matches Ok(b) && b.wf() && b.spec_commands() == self.spec_commands().push(
                    BuilderCommand {
                        node_stub: sub_node_stub,
                        index: (self.spec_commands().len() + 1) as i32,
                        parent: 0,
                    },
                ) + shift_commands(sub_builder.spec_commands(), self.spec_node_index())
                    && b.spec_node_index() == self.spec_node_index()
                    + sub_builder.spec_commands().len() + 1 && self.spec_root().child_post(
                    b.spec_root(),
                    sub_node_stub.name.chars(),
                    sub_builder.spec_root(),
                ),
            },
    {
        let Builder { mut root, mut commands, node_index, sender } = self;
        let sub_commands_len = sub_builder.commands.len();
        let ghost sub_cmds = sub_builder.commands@;
        let ghost base = commands@.push(
            BuilderCommand {
                node_stub: sub_node_stub,
                index: node_index,
                parent: 0,
            },
        );
        match root.child(sub_node_stub.name.to_text(), sub_builder.root) {
            Err(e) => Err(e),
            Ok(()) => {
                commands.push(BuilderCommand { node_stub: sub_node_stub, index: node_index, parent: 0 });
                let mut sub_commands = sub_builder.commands;
                let mut j: usize = 0;
                while j < sub_commands_len
                    invariant
                        j <= sub_commands_len,
                        sub_commands@ == sub_cmds.skip(j as int),
                        sub_commands_len == sub_cmds.len(),
                        commands@ == base + shift_commands(
                            sub_cmds.take(j as int),
                            node_index as int,
                        ),
                        node_index == base.len(),
                        base.len() + sub_cmds.len() + 1 <= i32::MAX,
                        forall|i: int|
                            0 <= i < sub_cmds.len() ==> (#[trigger] sub_cmds[i]).index == i + 1
                                && 0 <= sub_cmds[i].parent <= i,
                    decreases sub_commands_len - j,
                {
                    let mut x = sub_commands.remove(0);
                    proof {
                        assert(sub_cmds.skip(j as int)[0] == sub_cmds[j as int]);
                        assert(sub_commands@ =~= sub_cmds.skip(j + 1 as int));
                    }
                    x.index = x.index + node_index;
                    x.parent = x.parent + node_index;
                    commands.push(x);
                    proof {
                        assert(sub_cmds.take(j + 1 as int) =~= sub_cmds.take(j as int).push(
                            sub_cmds[j as int],
                        ));
                        assert(shift_commands(sub_cmds.take(j + 1 as int), node_index as int)
                            =~= shift_commands(sub_cmds.take(j as int), node_index as int).push(
                            BuilderCommand {
                                node_stub: sub_cmds[j as int].node_stub,
                                index: (sub_cmds[j as int].index + node_index) as i32,
                                parent: (sub_cmds[j as int].parent + node_index) as i32,
                            },
                        ));
                        assert(commands@ =~= base + shift_commands(
                            sub_cmds.take(j + 1 as int),
                            node_index as int,
                        ));
                    }
                    j = j + 1;
                }
                proof {
                    assert(sub_cmds.take(sub_cmds.len() as int) =~= sub_cmds);
                }
                let b = Builder {
                    root,
                    commands,
                    node_index: node_index + (sub_commands_len as i32) + 1,
                    sender,
                };
                proof {
                    assert forall|i: int| 0 <= i < b.spec_commands().len() implies (
                    #[trigger] b.spec_commands()[i]).index == i + 1 && 0
                        <= b.spec_commands()[i].parent <= i && b.spec_commands()[i].node_stub.wf() by {
                        if i >= base.len() {
                            assert(b.spec_commands()[i] == shift_commands(
                                sub_cmds,
                                node_index as int,
                            )[i - base.len()]);
                        }
                    }
                }
                Ok(b)
            },
        }
    }
}

impl<T, H: CommandHandler<T>, P: TokenParser<T>> Builder<T, H, P, Command<T, H, P>> {
    /// A sub-builder rooted at one command, numbering its own nodes from
    /// one.
    pub fn command(command: Command<T, H, P>) -> (r: Builder<T, H, P, Command<T, H, P>>)
        ensures
            r.wf(),
            r.spec_root() == command,
            r.spec_commands() == Seq::<BuilderCommand>::empty(),
            r.spec_node_index() == 1,
    {
        let r = Builder {
            root: command,
            commands: Vec::new(),
            node_index: 1,
            sender: PhantomData,
        };
        proof {
            assert(r.spec_commands() =~= Seq::<BuilderCommand>::empty());
        }
        r
    }
}

impl<T, H: CommandHandler<T>, P: TokenParser<T>> Builder<T, H, P, Executor<T, H, P>> {
    /// A top-level builder rooted at an executor.
    pub fn executor(executor: Executor<T, H, P>) -> (r: Builder<T, H, P, Executor<T, H, P>>)
        ensures
            r.wf(),
            r.spec_root() == executor,
            r.spec_commands() == Seq::<BuilderCommand>::empty(),
            r.spec_node_index() == 1,
    {
        let r = Builder {
            root: executor,
            commands: Vec::new(),
            node_index: 1,
            sender: PhantomData,
        };
        proof {
            assert(r.spec_commands() =~= Seq::<BuilderCommand>::empty());
        }
        r
    }

    /// Finalizes the builder: synthesizes the implicit all-clear root at
    /// position zero, gives every recorded stub its accumulated children,
    /// and returns the dispatch tree separately from the node array. A
    /// node's position in the array is its wire index, every node is well
    /// formed, and every referenced child index is a valid position.
    pub fn into_root_split(self) -> (r: (Executor<T, H, P>, Vec<Node>))
        requires
            self.wf(),
        ensures
            r.0 == self.spec_root(),
            r.1@.len() == self.spec_commands().len() + 1,
            forall|i: int|
                0 <= i < r.1@.len() ==> (#[trigger] r.1@[i])@ == node_for(self.spec_commands(), i),
            forall|i: int| 0 <= i < r.1@.len() ==> (#[trigger] r.1@[i]).wf(),
            forall|i: int, t: int|
                0 <= i < r.1@.len() && 0 <= t < r.1@[i]@.children.len() ==> 0 < #[trigger] r.1@[i]@.children[t]
                    < r.1@.len(),
    {
        let Builder { root, commands, node_index, sender } = self;
        let ghost cmds = commands@;
        proof {
            assert(cmds.len() + 1 == node_index as int);
        }
        let n = commands.len();

        let mut kids: Vec<Vec<u32>> = Vec::new();
        let mut i: usize = 0;
        while i < n + 1
            invariant
                i <= n + 1,
                n + 1 <= i32::MAX,
                kids@.len() == i,
                forall|p: int| 0 <= p < i ==> (#[trigger] kids@[p])@ == Seq::<u32>::empty(),
            decreases n + 1 - i,
        {
            let row: Vec<u32> = Vec::new();
            kids.push(row);
            i = i + 1;
        }
        proof {
            assert forall|p: int| 0 <= p < n + 1 implies (#[trigger] kids@[p])@ == children_upto(
                cmds,
                p,
                0,
            ) by {}
        }

        let mut j: usize = 0;
        while j < n
            invariant
                j <= n,
                n == cmds.len(),
                n + 1 <= i32::MAX,
                commands@ == cmds,
                kids@.len() == n + 1,
                forall|i2: int|
                    0 <= i2 < cmds.len() ==> (#[trigger] cmds[i2]).index == i2 + 1 && 0 <= cmds[i2].parent
                        <= i2 && cmds[i2].node_stub.wf(),
                forall|p: int|
                    0 <= p < n + 1 ==> (#[trigger] kids@[p])@ == children_upto(cmds, p, j as int),
            decreases n - j,
        {
            let p = commands[j].parent as usize;
            let mut row = kids.remove(p);
            row.push((j + 1) as u32);
            kids.insert(p, row);
            proof {
                assert forall|q: int| 0 <= q < n + 1 implies (#[trigger] kids@[q])@
                    == children_upto(cmds, q, j + 1 as int) by {
                    if q == p {
                        assert(children_upto(cmds, q, j + 1 as int) =~= children_upto(
                            cmds,
                            q,
                            j as int,
                        ).push((j + 1) as u32));
                    } else {
                        assert(children_upto(cmds, q, j + 1 as int) =~= children_upto(
                            cmds,
                            q,
                            j as int,
                        ));
                    }
                }
            }
            j = j + 1;
        }

        let mut nodes: Vec<Node> = Vec::new();
        let mut commands = commands;
        let mut k: usize = 0;
        while k < n + 1
            invariant
                k <= n + 1,
                n == cmds.len(),
                n + 1 <= i32::MAX,
                commands@ == cmds.skip(if k == 0 {
                    0
                } else {
                    (k - 1) as int
                }),
                kids@.len() == n + 1 - k,
                forall|p: int|
                    0 <= p < n + 1 - k ==> (#[trigger] kids@[p])@ == children_upto(
                        cmds,
                        p + k,
                        n as int,
                    ),
                forall|i2: int|
                    0 <= i2 < cmds.len() ==> (#[trigger] cmds[i2]).index == i2 + 1 && 0 <= cmds[i2].parent
                        <= i2 && cmds[i2].node_stub.wf(),
                nodes@.len() == k,
                forall|i2: int|
                    0 <= i2 < k ==> (#[trigger] nodes@[i2])@ == node_for(cmds, i2),
                forall|i2: int| 0 <= i2 < k ==> (#[trigger] nodes@[i2]).wf(),
            decreases n + 1 - k,
        {
            let row = kids.remove(0);
            proof {
                lemma_children_upto_bounds(cmds, k as int, n as int);
            }
            let count = row.len() as u32;
            let node = if k == 0 {
                Node::new(
                    BrigadierFlags::new(false, false, false, false, false),
                    (count, row),
                    None,
                    None,
                    None,
                    None,
                )
            } else {
                let cmd = commands.remove(0);
                proof {
                    assert(cmds.skip((k - 1) as int)[0] == cmds[(k - 1) as int]);
                    assert(commands@ =~= cmds.skip(k as int));
                    cmd.node_stub.name.lemma_bytes_are_text();
                }
                Node::new(
                    cmd.node_stub.flags,
                    (count, row),
                    None,
                    Some(cmd.node_stub.name),
                    cmd.node_stub.parser,
                    cmd.node_stub.suggestions_type,
                )
            };
            nodes.push(node);
            proof {
                assert forall|p: int| 0 <= p < n + 1 - (k + 1) implies (#[trigger] kids@[p])@
                    == children_upto(cmds, p + k + 1, n as int) by {}
            }
            k = k + 1;
        }
        proof {
            assert forall|i2: int, t: int|
                0 <= i2 < nodes@.len() && 0 <= t < nodes@[i2]@.children.len() implies 0 < #[trigger] nodes@[i2]@.children[t]
                < nodes@.len() by {
                lemma_children_upto_bounds(cmds, i2, n as int);
            }
        }
        (root, nodes)
    }
}

} // verus!
