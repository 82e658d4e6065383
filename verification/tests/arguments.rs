use pyra_gateway::operation::{ConfigSection, Invocation, LogLevel, Operation};

fn words(list: &[&str]) -> Vec<String> {
    list.iter().map(|word| word.to_string()).collect()
}

#[test]
fn probe_passes_help_flag() {
    let invocation = Invocation::new(Operation::CheckAvailability);
    assert_eq!(invocation.arguments(), &words(&["--help"]));
    assert_eq!(invocation.operation(), &Operation::CheckAvailability);
}

#[test]
fn read_info_logs_arguments() {
    let invocation = Invocation::new(Operation::ReadLogs(LogLevel::Info));
    assert_eq!(invocation.arguments(), &words(&["logs", "read", "--level", "INFO"]));
}

#[test]
fn read_debug_logs_arguments() {
    let invocation = Invocation::new(Operation::ReadLogs(LogLevel::Debug));
    assert_eq!(invocation.arguments(), &words(&["logs", "read", "--level", "DEBUG"]));
}

#[test]
fn archive_logs_arguments() {
    let invocation = Invocation::new(Operation::ArchiveLogs);
    assert_eq!(invocation.arguments(), &words(&["logs", "archive"]));
}

#[test]
fn read_setup_arguments() {
    let invocation = Invocation::new(Operation::ReadConfig(ConfigSection::Setup));
    assert_eq!(invocation.arguments(), &words(&["config", "setup", "get"]));
}

#[test]
fn read_parameters_arguments() {
    let invocation = Invocation::new(Operation::ReadConfig(ConfigSection::Parameters));
    assert_eq!(invocation.arguments(), &words(&["config", "parameters", "get"]));
}

#[test]
fn update_setup_arguments() {
    let content = String::from("{\\\"a\\\": 1}");
    let invocation = Invocation::new(Operation::UpdateConfig(ConfigSection::Setup, content));
    assert_eq!(
        invocation.arguments(),
        &words(&["config", "setup", "update", "--content", "{\"a\": 1}"])
    );
}

#[test]
fn update_parameters_arguments() {
    let content = String::from("{\\\"b\\\": [1, 2]}");
    let invocation = Invocation::new(Operation::UpdateConfig(ConfigSection::Parameters, content));
    assert_eq!(
        invocation.arguments(),
        &words(&["config", "parameters", "update", "--content", "{\"b\": [1, 2]}"])
    );
}

#[test]
fn update_forwards_said_hi_unescaped() {
    let content = String::from("He said \\\"hi\\\"");
    let invocation = Invocation::new(Operation::UpdateConfig(ConfigSection::Setup, content));
    assert_eq!(invocation.arguments().len(), 5);
    assert_eq!(invocation.arguments()[4], "He said \"hi\"");
}

#[test]
fn update_keeps_content_with_spaces_as_one_argument() {
    let content = String::from("a b; rm -rf / && echo $HOME 'x'");
    let invocation =
        Invocation::new(Operation::UpdateConfig(ConfigSection::Parameters, content.clone()));
    assert_eq!(invocation.arguments().len(), 5);
    assert_eq!(invocation.arguments()[4], content);
}

#[test]
fn update_keeps_the_operation_as_given() {
    let content = String::from("{\\\"a\\\": 1}");
    let operation = Operation::UpdateConfig(ConfigSection::Setup, content);
    let invocation = Invocation::new(operation.clone());
    assert_eq!(invocation.operation(), &operation);
}

#[test]
fn read_then_update_forwards_the_same_content() {
    let read_back = String::from("{\"general\": {\"version\": \"4.0.5\"}, \"n\": 3}");
    let invocation =
        Invocation::new(Operation::UpdateConfig(ConfigSection::Setup, read_back.clone()));
    assert_eq!(invocation.arguments()[4], read_back);
}

#[test]
fn cloned_invocation_is_equal() {
    let invocation = Invocation::new(Operation::UpdateConfig(
        ConfigSection::Parameters,
        String::from("x\\\"y"),
    ));
    let copy = invocation.clone();
    assert_eq!(copy, invocation);
    assert_eq!(copy.arguments(), &words(&["config", "parameters", "update", "--content", "x\"y"]));
}

#[test]
fn level_and_section_words() {
    assert_eq!(LogLevel::Info.as_str(), "INFO");
    assert_eq!(LogLevel::Debug.as_str(), "DEBUG");
    assert_eq!(ConfigSection::Setup.as_str(), "setup");
    assert_eq!(ConfigSection::Parameters.as_str(), "parameters");
}
