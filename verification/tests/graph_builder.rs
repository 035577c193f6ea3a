use commander::builder::{Builder, NodeStub};
use commander::command::{
    ArgParserCommand, Command, CommandChildContainer, CommandHandler, HandlerError,
    NaturalCommand, ParseError, TokenParser,
};
use commander::context::{CommandContext, Value};
use commander::executor::Executor;
use commander::flags::{BrigadierFlags, MinMax};
use commander::node::{Node, NodeName};
use commander::parser::Parser;

struct TagHandler {
    tag: &'static str,
}

impl CommandHandler<String> for TagHandler {
    fn invoke(&self, _context: CommandContext<String>) -> Result<(), HandlerError> {
        Err(HandlerError {
            message: self.tag.to_string(),
        })
    }
}

struct IntParser;

impl TokenParser<String> for IntParser {
    fn parse(
        &self,
        context: CommandContext<String>,
    ) -> Result<(Value, CommandContext<String>), ParseError> {
        let first = match context.args().first() {
            Some(s) => s.clone(),
            None => {
                return Err(ParseError {
                    message: String::from("missing integer argument"),
                });
            },
        };
        match first.parse::<u32>() {
            Ok(v) => {
                let mut context = context;
                context.trim_top();
                Ok((Value::Integer(v), context))
            },
            Err(_) => Err(ParseError {
                message: format!("not an integer: {}", first),
            }),
        }
    }
}

type Cmd = Command<String, TagHandler, IntParser>;

fn literal_flags() -> BrigadierFlags {
    BrigadierFlags::new(true, false, true, false, false)
}

fn executable(tag: &'static str) -> Cmd {
    Command::Natural(NaturalCommand::executable(TagHandler { tag }))
}

fn name(s: &str) -> NodeName {
    NodeName::new(s).unwrap()
}

fn build_example() -> (Executor<String, TagHandler, IntParser>, Vec<Node>) {
    Builder::executor(Executor::new())
        .wrap(
            NodeStub::new(literal_flags(), name("command_a")),
            Builder::command(executable("A"))
                .child(NodeStub::new(literal_flags(), name("sub_1")), executable("A1"))
                .unwrap(),
        )
        .unwrap()
        .child(NodeStub::new(literal_flags(), name("command_b")), executable("B"))
        .unwrap()
        .into_root_split()
}

#[test]
fn into_root_split_yields_positional_graph() {
    let (_, nodes) = build_example();
    // Three registered nodes plus the synthetic root.
    assert_eq!(nodes.len(), 4);

    // The synthetic root: all flags clear, children in registration order.
    assert!(nodes[0].flags.is_root());
    assert_eq!(nodes[0].children, (2, vec![1, 3]));
    assert!(nodes[0].name.is_none());
    assert!(nodes[0].redirect_node.is_none());

    // The spliced subtree keeps contiguous, shifted numbering.
    assert_eq!(nodes[1].name.as_ref().unwrap().as_str(), "command_a");
    assert_eq!(nodes[1].children, (1, vec![2]));
    assert_eq!(nodes[2].name.as_ref().unwrap().as_str(), "sub_1");
    assert_eq!(nodes[2].children, (0, vec![]));
    assert_eq!(nodes[3].name.as_ref().unwrap().as_str(), "command_b");
    assert_eq!(nodes[3].children, (0, vec![]));

    // Every child index referenced by any node is a valid position.
    for node in &nodes {
        assert_eq!(node.children.0 as usize, node.children.1.len());
        for &child in &node.children.1 {
            assert!((child as usize) < nodes.len());
            assert!(child > 0);
        }
    }
}

#[test]
fn into_root_split_nodes_encode_and_decode() {
    let (_, nodes) = build_example();
    for node in &nodes {
        let mut buf: Vec<u8> = Vec::new();
        node.encode(&mut buf);
        let (decoded, end) = Node::decode(&buf, 0).unwrap();
        assert_eq!(&decoded, node);
        assert_eq!(end, buf.len());
    }
}

#[test]
fn into_root_split_tree_still_dispatches() {
    let (root, _) = build_example();
    let outcome = root.execute_context(CommandContext::new(
        "sender".to_string(),
        vec!["command_a".to_string(), "sub_1".to_string()],
    ));
    match outcome {
        Ok(Some(Err(e))) => assert_eq!(e.message, "A1"),
        other => panic!("unexpected outcome: {:?}", other),
    }
    let outcome = root.execute_context(CommandContext::new(
        "sender".to_string(),
        vec!["command_b".to_string()],
    ));
    match outcome {
        Ok(Some(Err(e))) => assert_eq!(e.message, "B"),
        other => panic!("unexpected outcome: {:?}", other),
    }
}

#[test]
fn builder_records_argument_stubs() {
    let arg_flags = BrigadierFlags::new(false, true, true, false, false);
    let parser = Parser::Integer {
        bits: MinMax::new(true, false),
        min: Some(0),
        max: None,
    };
    let (_, nodes) = Builder::executor(Executor::<String, TagHandler, IntParser>::new())
        .wrap(
            NodeStub::new(literal_flags(), name("give")),
            Builder::command(executable("give"))
                .child(
                    NodeStub::parser(arg_flags, name("amount"), parser),
                    Command::ArgParser(ArgParserCommand::executable(
                        TagHandler { tag: "give-n" },
                        "amount".to_string(),
                        IntParser,
                    )),
                )
                .unwrap(),
        )
        .unwrap()
        .into_root_split();
    assert_eq!(nodes.len(), 3);
    assert!(nodes[2].flags.is_argument());
    assert_eq!(nodes[2].parser, Some(parser));
    assert_eq!(nodes[2].name.as_ref().unwrap().as_str(), "amount");
}

#[test]
fn builder_structural_error_leaves_nothing_registered() {
    let r = Builder::executor(Executor::<String, TagHandler, IntParser>::new()).child(
        NodeStub::new(BrigadierFlags::new(false, true, true, false, false), name("n")),
        Command::ArgParser(ArgParserCommand::non_executable("n".to_string(), IntParser)),
    );
    assert!(r.is_err());
}
