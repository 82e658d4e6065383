use pyra_gateway::config::{CommandLine, ConfigError, GatewayConfig};
use pyra_gateway::operation::{ConfigSection, Invocation, LogLevel, Operation};

fn text(value: &str) -> Option<String> {
    Some(String::from(value))
}

#[test]
fn install_dir_gives_both_locations() {
    let config = GatewayConfig::resolve(None, None, text("/opt/pyra"), 5000).unwrap();
    assert_eq!(config.interpreter, "/opt/pyra/.venv/bin/python");
    assert_eq!(config.entry_point, "/opt/pyra/packages/cli/main.py");
    assert_eq!(config.timeout_ms, 5000);
}

#[test]
fn explicit_locations_win() {
    let config = GatewayConfig::resolve(
        text("/usr/bin/python3"),
        text("/srv/cli/main.py"),
        text("/opt/pyra"),
        100,
    )
    .unwrap();
    assert_eq!(
        config,
        GatewayConfig {
            interpreter: String::from("/usr/bin/python3"),
            entry_point: String::from("/srv/cli/main.py"),
            timeout_ms: 100,
        }
    );
}

#[test]
fn locations_resolve_one_by_one() {
    let config =
        GatewayConfig::resolve(text("python3"), None, text("C:\\pyra"), 0).unwrap();
    assert_eq!(config.interpreter, "python3");
    assert_eq!(config.entry_point, "C:\\pyra/packages/cli/main.py");
    let config = GatewayConfig::resolve(None, text("main.py"), text("/p"), 0).unwrap();
    assert_eq!(config.interpreter, "/p/.venv/bin/python");
    assert_eq!(config.entry_point, "main.py");
}

#[test]
fn explicit_locations_need_no_install_dir() {
    let config = GatewayConfig::resolve(text("python"), text("main.py"), None, 1).unwrap();
    assert_eq!(config.interpreter, "python");
    assert_eq!(config.entry_point, "main.py");
}

#[test]
fn nothing_given_misses_the_interpreter() {
    assert_eq!(GatewayConfig::resolve(None, None, None, 1000), Err(ConfigError::MissingInterpreter));
}

#[test]
fn only_entry_point_given_misses_the_interpreter() {
    assert_eq!(
        GatewayConfig::resolve(None, text("main.py"), None, 1000),
        Err(ConfigError::MissingInterpreter)
    );
}

#[test]
fn only_interpreter_given_misses_the_entry_point() {
    assert_eq!(
        GatewayConfig::resolve(text("python"), None, None, 1000),
        Err(ConfigError::MissingEntryPoint)
    );
}

#[test]
fn empty_settings_count_as_not_given() {
    assert_eq!(
        GatewayConfig::resolve(text(""), text(""), text(""), 1000),
        Err(ConfigError::MissingInterpreter)
    );
    assert_eq!(
        GatewayConfig::resolve(text("python"), text(""), text(""), 1000),
        Err(ConfigError::MissingEntryPoint)
    );
    let config = GatewayConfig::resolve(text(""), text(""), text("/opt/pyra"), 7).unwrap();
    assert_eq!(config.interpreter, "/opt/pyra/.venv/bin/python");
    assert_eq!(config.entry_point, "/opt/pyra/packages/cli/main.py");
}

#[test]
fn command_line_puts_entry_point_first() {
    let config = GatewayConfig::resolve(None, None, text("/opt/pyra"), 5000).unwrap();
    let invocation = Invocation::new(Operation::ReadLogs(LogLevel::Info));
    let line = config.command_line(&invocation);
    assert_eq!(
        line,
        CommandLine {
            program: String::from("/opt/pyra/.venv/bin/python"),
            arguments: vec![
                String::from("/opt/pyra/packages/cli/main.py"),
                String::from("logs"),
                String::from("read"),
                String::from("--level"),
                String::from("INFO"),
            ],
        }
    );
}

#[test]
fn command_line_of_the_probe() {
    let config = GatewayConfig::resolve(text("py"), text("cli.py"), None, 5000).unwrap();
    let line = config.command_line(&Invocation::new(Operation::CheckAvailability));
    assert_eq!(line.program, "py");
    assert_eq!(line.arguments, vec![String::from("cli.py"), String::from("--help")]);
}

#[test]
fn command_line_keeps_the_payload_as_one_argument() {
    let config = GatewayConfig::resolve(text("py"), text("cli.py"), None, 5000).unwrap();
    let content = String::from("{\\\"a b\\\": \\\"c d\\\"}");
    let invocation = Invocation::new(Operation::UpdateConfig(ConfigSection::Setup, content));
    let line = config.command_line(&invocation);
    assert_eq!(
        line.arguments,
        vec![
            String::from("cli.py"),
            String::from("config"),
            String::from("setup"),
            String::from("update"),
            String::from("--content"),
            String::from("{\"a b\": \"c d\"}"),
        ]
    );
}

#[test]
fn errors_describe_what_is_missing() {
    assert_eq!(
        ConfigError::MissingInterpreter.describe(),
        "neither the interpreter of pyra-cli nor the installation directory is configured"
    );
    assert_eq!(
        ConfigError::MissingEntryPoint.describe(),
        "neither the entry point of pyra-cli nor the installation directory is configured"
    );
}
