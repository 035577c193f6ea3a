use commander::command::{CommandHandler, HandlerError};
use commander::context::{CommandContext, SubArg};
use commander::mapper::{Command, CommandMapper, ExecuteError, Executor};

struct TagHandler {
    tag: &'static str,
}

impl CommandHandler<String> for TagHandler {
    fn invoke(&self, context: CommandContext<String>) -> Result<(), HandlerError> {
        let mut message = String::from(self.tag);
        message.push_str("|args=");
        for a in context.args().iter() {
            message.push_str(a);
            message.push(',');
        }
        Err(HandlerError { message })
    }
}

fn strings(tokens: &[&str]) -> Vec<String> {
    tokens.iter().map(|t| t.to_string()).collect()
}

fn sample() -> Executor<String, TagHandler> {
    let mut greet: Command<String, TagHandler> = Command::new(TagHandler { tag: "greet" });
    greet.add_command(
        "world".to_string(),
        Command::new(TagHandler { tag: "greet-world" }),
    );
    let mut executor = Executor::new();
    executor.add_command("greet".to_string(), greet);
    executor
}

#[test]
fn mapper_resolves_case_insensitively() {
    let mapper = {
        let mut m: CommandMapper<String, TagHandler> = CommandMapper::new();
        m.add_command("greet".to_string(), Command::new(TagHandler { tag: "greet" }));
        m
    };
    assert!(mapper.resolve_command("greet").is_some());
    assert!(mapper.resolve_command("GREET").is_some());
    assert!(mapper.resolve_command("GrEeT").is_some());
    assert!(mapper.resolve_command("nope").is_none());
}

#[test]
fn mapper_executes_nested_commands() {
    let executor = sample();
    match executor.execute("sender".to_string(), strings(&["greet", "world"])) {
        Some(Err(ExecuteError::Handler(e))) => assert_eq!(e.message, "greet-world|args="),
        other => panic!("unexpected outcome: {:?}", other),
    }
    match executor.execute("sender".to_string(), strings(&["GREET"])) {
        Some(Err(ExecuteError::Handler(e))) => assert_eq!(e.message, "greet|args="),
        other => panic!("unexpected outcome: {:?}", other),
    }
}

#[test]
fn mapper_falls_back_with_rebuilt_context() {
    let executor = sample();
    match executor.execute("sender".to_string(), strings(&["greet", "mars", "now"])) {
        Some(Err(ExecuteError::Handler(e))) => assert_eq!(e.message, "greet|args=mars,now,"),
        other => panic!("unexpected outcome: {:?}", other),
    }
}

#[test]
fn mapper_empty_input_is_an_error() {
    let executor = sample();
    assert_eq!(
        executor.execute("sender".to_string(), strings(&[])),
        Some(Err(ExecuteError::EmptyInput))
    );
}

#[test]
fn mapper_unknown_command_is_none() {
    let executor = sample();
    assert!(executor
        .execute("sender".to_string(), strings(&["wave"]))
        .is_none());
}

#[test]
fn mapper_level_without_handler_is_invalid() {
    let mut quiet: Command<String, TagHandler> = Command::non_executable();
    quiet.add_command("deep".to_string(), Command::new(TagHandler { tag: "deep" }));
    let mut executor = Executor::new();
    executor.add_command("quiet".to_string(), quiet);
    assert_eq!(
        executor.execute("sender".to_string(), strings(&["quiet"])),
        Some(Err(ExecuteError::InvalidLevel))
    );
    assert_eq!(
        executor.execute("sender".to_string(), strings(&["quiet", "missing"])),
        Some(Err(ExecuteError::InvalidLevel))
    );
}

#[test]
fn mapper_rebinding_a_name_replaces_it() {
    let mut m: CommandMapper<String, TagHandler> = CommandMapper::new();
    m.add_command("greet".to_string(), Command::new(TagHandler { tag: "old" }));
    m.add_command("greet".to_string(), Command::new(TagHandler { tag: "new" }));
    let found = m.resolve_command("greet").expect("command should resolve");
    match found.execute(CommandContext::new("sender".to_string(), Vec::new())) {
        Err(ExecuteError::Handler(e)) => assert_eq!(e.message, "new|args="),
        other => panic!("unexpected outcome: {:?}", other),
    }
}

#[test]
fn context_splits_and_rebuilds() {
    let context = CommandContext::new("sender".to_string(), strings(&["one", "two"]));
    match context.sub_arg() {
        SubArg::Resolved((first, rest)) => {
            assert_eq!(first, "one");
            assert_eq!(rest.args(), &strings(&["two"]));
            let rebuilt = CommandContext::concat(first, rest);
            assert_eq!(rebuilt.args(), &strings(&["one", "two"]));
        },
        SubArg::Empty(_) => panic!("context had tokens"),
    }
    let empty = CommandContext::new("sender".to_string(), Vec::new());
    assert!(matches!(empty.sub_arg(), SubArg::Empty(_)));
}

#[test]
fn context_accessors() {
    let mut context = CommandContext::new("sender".to_string(), strings(&["a", "b"]));
    assert_eq!(context.sender(), "sender");
    *context.sender_mut() = "other".to_string();
    assert_eq!(context.sender(), "other");
    context.args_mut().push("c".to_string());
    assert_eq!(context.args(), &strings(&["a", "b", "c"]));
    context.trim_top();
    assert_eq!(context.args(), &strings(&["b", "c"]));
    context.overwrite_args(strings(&["z"]));
    let (sender, args) = context.split();
    assert_eq!(sender, "other");
    assert_eq!(args, strings(&["z"]));
}
