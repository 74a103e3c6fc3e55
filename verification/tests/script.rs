use debugger_test::script::create_debugger_script;

#[test]
fn test_debugger_script_empty() {
    let test_name = String::from("test1");
    let debugger_commands = vec![];
    let debugger_script = create_debugger_script(&test_name, &debugger_commands);
    let expected = r#"bm *!*::test1 "bp /1 @$ra \"qd\" "
bm *!*::__break "gu"
g
bl
g
qd
"#;

    assert_eq!(expected.to_string(), debugger_script);
}

#[test]
fn test_debugger_script() {
    let test_name = String::from("test1");
    let debugger_commands = vec!["dv", "g", ".nvlist"];
    let debugger_script = create_debugger_script(&test_name, &debugger_commands);
    let expected = r#"bm *!*::test1 "bp /1 @$ra \"qd\" "
bm *!*::__break "gu"
g
bl
g
.echo start_debugger_command_0
dv
.echo end_debugger_command_0
.echo start_debugger_command_1
g
.echo end_debugger_command_1
.echo start_debugger_command_2
.nvlist
.echo end_debugger_command_2
qd
"#;

    assert_eq!(expected.to_string(), debugger_script);
}

/// Command indices are rendered in full decimal: the eleventh command is
/// bracketed by markers carrying index ten.
#[test]
fn test_debugger_script_two_digit_index() {
    let test_name = String::from("t");
    let commands = vec!["c0", "c1", "c2", "c3", "c4", "c5", "c6", "c7", "c8", "c9", "c10"];
    let script = create_debugger_script(&test_name, &commands);
    assert!(script.contains(".echo start_debugger_command_10\nc10\n.echo end_debugger_command_10\n"));
    assert!(script.ends_with("qd\n"));
}
