use commander::command::{
    ArgParserCommand, Command, CommandChildContainer, CommandHandler, HandlerError,
    NaturalCommand, ParseError, StructuralError, TokenParser,
};
use commander::context::{CommandContext, Value};
use commander::executor::Executor;

/// A handler that reports, through its error message, which handler ran,
/// which tokens were left unconsumed, and which values had been parsed.
struct TagHandler {
    tag: &'static str,
}

impl CommandHandler<String> for TagHandler {
    fn invoke(&self, context: CommandContext<String>) -> Result<(), HandlerError> {
        let mut message = String::from(self.tag);
        message.push_str("|args=");
        for a in context.args().iter() {
            message.push_str(a);
            message.push(',');
        }
        message.push_str("|values=");
        for (k, v) in context.values().borrow_inner().iter() {
            message.push_str(k);
            message.push('=');
            match v {
                Value::Integer(n) => message.push_str(&n.to_string()),
                Value::String(s) => message.push_str(s),
                Value::Float(bits) => message.push_str(&bits.to_string()),
                Value::Generic(s) => message.push_str(s),
            }
            message.push(',');
        }
        Err(HandlerError { message })
    }
}

/// Parses the leading token as an unsigned integer, consuming it.
struct IntParser;

impl TokenParser<String> for IntParser {
    fn parse(
        &self,
        context: CommandContext<String>,
    ) -> Result<(Value, CommandContext<String>), ParseError> {
        let first = match context.args().first() {
            Some(s) => s.clone(),
            None => {
                return Err(ParseError {
                    message: String::from("missing integer argument"),
                });
            },
        };
        match first.parse::<u32>() {
            Ok(v) => {
                let mut context = context;
                context.trim_top();
                Ok((Value::Integer(v), context))
            },
            Err(_) => Err(ParseError {
                message: format!("not an integer: {}", first),
            }),
        }
    }
}

type Cmd = Command<String, TagHandler, IntParser>;

fn strings(tokens: &[&str]) -> Vec<String> {
    tokens.iter().map(|t| t.to_string()).collect()
}

fn literal_tree() -> Executor<String, TagHandler, IntParser> {
    let mut a: Cmd = Command::Natural(NaturalCommand::executable(TagHandler { tag: "H1" }));
    a.child(
        "b".to_string(),
        Command::Natural(NaturalCommand::executable(TagHandler { tag: "H2" })),
    )
    .unwrap();
    let mut root = Executor::new();
    root.child("a".to_string(), a).unwrap();
    root
}

fn run(
    root: &Executor<String, TagHandler, IntParser>,
    tokens: &[&str],
) -> Result<Option<Result<(), HandlerError>>, ParseError> {
    root.execute_context(CommandContext::new("sender".to_string(), strings(tokens)))
}

#[test]
fn dispatch_deepest_match_wins() {
    let root = literal_tree();
    match run(&root, &["a"]) {
        Ok(Some(Err(e))) => assert_eq!(e.message, "H1|args=|values="),
        other => panic!("unexpected outcome: {:?}", other),
    }
    match run(&root, &["a", "b"]) {
        Ok(Some(Err(e))) => assert_eq!(e.message, "H2|args=|values="),
        other => panic!("unexpected outcome: {:?}", other),
    }
}

#[test]
fn dispatch_falls_back_with_unconsumed_token() {
    let root = literal_tree();
    match run(&root, &["a", "c"]) {
        Ok(Some(Err(e))) => assert_eq!(e.message, "H1|args=c,|values="),
        other => panic!("unexpected outcome: {:?}", other),
    }
}

#[test]
fn dispatch_no_match_is_absent_not_error() {
    let root = literal_tree();
    assert!(matches!(run(&root, &[]), Ok(None)));
    assert!(matches!(run(&root, &["zzz"]), Ok(None)));
}

fn argument_tree() -> Executor<String, TagHandler, IntParser> {
    let mut a: Cmd = Command::Natural(NaturalCommand::executable(TagHandler { tag: "H1" }));
    a.child(
        "n".to_string(),
        Command::ArgParser(ArgParserCommand::executable(
            TagHandler { tag: "H3" },
            "n".to_string(),
            IntParser,
        )),
    )
    .unwrap();
    let mut root = Executor::new();
    root.child("a".to_string(), a).unwrap();
    root
}

#[test]
fn dispatch_argument_parser_binds_value() {
    let root = argument_tree();
    match run(&root, &["a", "42"]) {
        Ok(Some(Err(e))) => assert_eq!(e.message, "H3|args=|values=n=42,"),
        other => panic!("unexpected outcome: {:?}", other),
    }
}

#[test]
fn dispatch_argument_parse_failure_is_error_not_no_match() {
    let root = argument_tree();
    match run(&root, &["a", "notanum"]) {
        Err(e) => assert_eq!(e.message, "not an integer: notanum"),
        other => panic!("expected a parse error, got: {:?}", other),
    }
}

#[test]
fn structural_error_literal_after_argument_parser() {
    let mut a: Cmd = Command::Natural(NaturalCommand::executable(TagHandler { tag: "H1" }));
    a.child(
        "n".to_string(),
        Command::ArgParser(ArgParserCommand::non_executable("n".to_string(), IntParser)),
    )
    .unwrap();
    let r = a.child(
        "lit".to_string(),
        Command::Natural(NaturalCommand::executable(TagHandler { tag: "H2" })),
    );
    assert_eq!(r, Err(StructuralError::ChildUnderArgumentParser));
}

#[test]
fn structural_error_second_argument_parser() {
    let mut a: Cmd = Command::Natural(NaturalCommand::executable(TagHandler { tag: "H1" }));
    a.child(
        "n".to_string(),
        Command::ArgParser(ArgParserCommand::non_executable("n".to_string(), IntParser)),
    )
    .unwrap();
    let r = a.child(
        "m".to_string(),
        Command::ArgParser(ArgParserCommand::non_executable("m".to_string(), IntParser)),
    );
    assert_eq!(r, Err(StructuralError::ChildUnderArgumentParser));
}

#[test]
fn structural_error_argument_parser_at_root() {
    let mut root: Executor<String, TagHandler, IntParser> = Executor::new();
    let r = root.child(
        "n".to_string(),
        Command::ArgParser(ArgParserCommand::non_executable("n".to_string(), IntParser)),
    );
    assert_eq!(r, Err(StructuralError::ArgParserAtRoot));
}

#[test]
fn rebinding_a_literal_replaces_it() {
    let mut a: Cmd = Command::Natural(NaturalCommand::executable(TagHandler { tag: "H1" }));
    a.child(
        "b".to_string(),
        Command::Natural(NaturalCommand::executable(TagHandler { tag: "OLD" })),
    )
    .unwrap();
    a.child(
        "b".to_string(),
        Command::Natural(NaturalCommand::executable(TagHandler { tag: "NEW" })),
    )
    .unwrap();
    let mut root = Executor::new();
    root.child("a".to_string(), a).unwrap();
    match run(&root, &["a", "b"]) {
        Ok(Some(Err(e))) => assert_eq!(e.message, "NEW|args=|values="),
        other => panic!("unexpected outcome: {:?}", other),
    }
}

#[test]
fn create_builds_the_same_context() {
    let root = literal_tree();
    let by_create =
        root.execute_context(CommandContext::create("sender".to_string(), vec!["a", "c"]));
    let by_new = run(&root, &["a", "c"]);
    assert_eq!(by_create, by_new);
}

#[test]
fn execute_is_repeatable() {
    let root = argument_tree();
    for tokens in [
        vec!["a"],
        vec!["a", "42"],
        vec!["a", "notanum"],
        vec!["unknown"],
        vec![],
    ] {
        let first = run(&root, &tokens);
        let second = run(&root, &tokens);
        assert_eq!(first, second, "tokens {:?}", tokens);
    }
}
