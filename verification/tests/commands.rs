use wasm_build_support::platform::{
    probe_command, webpack_command, yarn_command, Argument, Invocation, Platform, Tool,
};

fn text(word: &str) -> Argument {
    Argument::Text(word.to_string())
}

#[test]
fn tools_run_under_their_plain_names() {
    assert_eq!(
        yarn_command(Platform::Other),
        Invocation { program: "yarn".to_string(), args: vec![] }
    );
    assert_eq!(
        webpack_command(Platform::Other),
        Invocation { program: "webpack".to_string(), args: vec![] }
    );
}

#[test]
fn batch_scripts_go_through_the_command_interpreter() {
    assert_eq!(
        yarn_command(Platform::Windows),
        Invocation { program: "cmd".to_string(), args: vec![text("/k"), text("yarn.cmd")] }
    );
    assert_eq!(
        webpack_command(Platform::Windows),
        Invocation { program: "cmd".to_string(), args: vec![text("/k"), text("webpack.cmd")] }
    );
}

#[test]
fn tool_commands_are_the_named_commands() {
    assert_eq!(Tool::PackageManager.command(Platform::Other), yarn_command(Platform::Other));
    assert_eq!(Tool::PackageManager.command(Platform::Windows), yarn_command(Platform::Windows));
    assert_eq!(Tool::Bundler.command(Platform::Other), webpack_command(Platform::Other));
    assert_eq!(Tool::Bundler.command(Platform::Windows), webpack_command(Platform::Windows));
}

#[test]
fn executables_are_named_by_platform() {
    assert_eq!(Tool::PackageManager.executable(Platform::Other), "yarn");
    assert_eq!(Tool::PackageManager.executable(Platform::Windows), "yarn.cmd");
    assert_eq!(Tool::Bundler.executable(Platform::Other), "webpack");
    assert_eq!(Tool::Bundler.executable(Platform::Windows), "webpack.cmd");
}

#[test]
fn probes_ask_the_bare_tool_for_its_version() {
    assert_eq!(
        probe_command(Tool::PackageManager, Platform::Other),
        Invocation { program: "yarn".to_string(), args: vec![text("-v")] }
    );
    assert_eq!(
        probe_command(Tool::Bundler, Platform::Other),
        Invocation { program: "webpack".to_string(), args: vec![text("-v")] }
    );
    assert_eq!(
        probe_command(Tool::PackageManager, Platform::Windows),
        Invocation { program: "yarn.cmd".to_string(), args: vec![text("-v")] }
    );
    assert_eq!(
        probe_command(Tool::Bundler, Platform::Windows),
        Invocation { program: "webpack.cmd".to_string(), args: vec![text("-v")] }
    );
}

#[test]
fn arguments_are_appended_in_order() {
    let command = yarn_command(Platform::Windows).with_text("global").with_text("add");
    assert_eq!(command.program, "cmd");
    assert_eq!(command.args, vec![text("/k"), text("yarn.cmd"), text("global"), text("add")]);
}
