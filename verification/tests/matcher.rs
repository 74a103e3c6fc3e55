use debugger_test::matcher::parse;
use debugger_test::matcher::ParseError;

/// Verify that parsing failed with a specific error message.
fn verify_expected_failure(result: Result<(), ParseError>, expected_err_msg: &str) {
    let error = match result {
        Ok(()) => panic!("Expected error message missing: `{}`.", expected_err_msg),
        Err(error) => error,
    };
    assert_eq!(expected_err_msg, error.message());
}

/// Test parsing empty debugger output.
#[test]
fn test_parse_empty_output() {
    let output = String::from("");
    let expected_contents = Vec::with_capacity(0);
    parse(output, expected_contents).expect("able to parse output.");
}

/// Test parsing debugger output for a single command.
/// No expected content.
#[test]
fn test_parse_output_command() {
    let output = String::from(
        r#"
    dv
        var1 = 0
        var2 = { len = 3 }
        var3 = { struct }
    "#,
    );

    let expected_contents = Vec::with_capacity(0);
    parse(output, expected_contents).expect("able to parse output.");
}

/// Test parsing a single debugger output.
/// Verify expected content.
#[test]
fn test_verify_output_command() {
    let output = String::from(
        r#"
    dv
        var1 = 0
        var2 = { len = 3 }
        var3 = { struct }
    "#,
    );

    let expected_contents = vec!["var1 = 0"];
    parse(output, expected_contents).expect("able to parse output.");
}

#[test]
fn test_trim_expected_contents() {
    let output = String::from(
        r#"
    dv
        var1 = 0
        var2 = { len = 3 }
        var3 = { struct }
    "#,
    );

    let expected_contents = vec!["        var1 = 0"];
    parse(output, expected_contents).expect("able to parse output.");
}

/// Test parsing debugger output for mutliple commands.
/// Verify expected content.
#[test]
fn test_verify_output_multiple_commands() {
    let output = String::from(
        r#"
    .nvlist
        a.exe (embedded NatVis "path\to\foo.natvis")
    dx point_a
    point_a          : (0, 0) [Type: foo::Point]
        [<Raw View>]     [Type: foo::Point]
        [x]              : 0 [Type: int]
        [y]              : 0 [Type: int]
    dx point_b
    point_b          : (5, 8) [Type: foo::Point]
        [<Raw View>]     [Type: foo::Point]
        [x]              : 5 [Type: int]
        [y]              : 8 [Type: int]
    dx line
    line             : ((0, 0), (5, 8)) [Type: foo::Line]
        [<Raw View>]     [Type: foo::Line]
        [a]              : (0, 0) [Type: foo::Point]
        [b]              : (5, 8) [Type: foo::Point]
    dx person
    person           : "Person A" is 10 years old. [Type: foo::Person]
        [<Raw View>]     [Type: foo::Person]
        [name]           : "Person A" [Type: alloc::string::String]
        [age]            : 10 [Type: int]
    "#,
    );

    let expected_contents = vec![
        r#"pattern:a\.exe \(embedded NatVis ".*foo\.natvis"\)"#,
        "point_a          : (0, 0) [Type: foo::Point]",
        "[x]              : 0 [Type: int]",
        "person           : \"Person A\" is 10 years old. [Type: foo::Person]",
        "[name]           : \"Person A\" [Type: alloc::string::String]",
    ];
    parse(output, expected_contents).expect("able to parse output.");
}

/// Test expected content not found in debugger output due to incorrect ordering.
/// Parsing fails.
#[test]
fn test_err_expected_string_not_found() {
    let output = String::from(
        r#"
    .nvlist
        a.exe (embedded NatVis "path\to\foo.natvis")
    dx point_a
    point_a          : (0, 0) [Type: foo::Point]
        [<Raw View>]     [Type: foo::Point]
        [x]              : 0 [Type: int]
        [y]              : 0 [Type: int]
    dx point_b
    point_b          : (5, 8) [Type: foo::Point]
        [<Raw View>]     [Type: foo::Point]
        [x]              : 5 [Type: int]
        [y]              : 8 [Type: int]
    dx line
    line             : ((0, 0), (5, 8)) [Type: foo::Line]
        [<Raw View>]     [Type: foo::Line]
        [a]              : (0, 0) [Type: foo::Point]
        [b]              : (5, 8) [Type: foo::Point]
    dx person
    person           : "Person A" is 10 years old. [Type: foo::Person]
        [<Raw View>]     [Type: foo::Person]
        [name]           : "Person A" [Type: alloc::string::String]
        [age]            : 10 [Type: int]
    "#,
    );

    let expected_contents = vec![
        "person           : \"Person A\" is 10 years old. [Type: foo::Person]",
        "point_a          : (0, 0) [Type: foo::Point]",
    ];

    let expected_err_msg = "Unable to find expected content in the debugger output. Missing line: `point_a          : (0, 0) [Type: foo::Point]`";
    verify_expected_failure(parse(output, expected_contents), expected_err_msg);
}

/// Test expected pattern not found in debugger output due to incorrect ordering.
/// Parsing fails.
#[test]
fn test_err_expected_pattern_not_found() {
    let output = String::from(
        r#"
    .nvlist
        a.exe (embedded NatVis "path\to\foo.natvis")
    dx point_a
    point_a          : (0, 0) [Type: foo::Point]
        [<Raw View>]     [Type: foo::Point]
        [x]              : 0 [Type: int]
        [y]              : 0 [Type: int]
    dx point_b
    point_b          : (5, 8) [Type: foo::Point]
        [<Raw View>]     [Type: foo::Point]
        [x]              : 5 [Type: int]
        [y]              : 8 [Type: int]
    dx line
    line             : ((0, 0), (5, 8)) [Type: foo::Line]
        [<Raw View>]     [Type: foo::Line]
        [a]              : (0, 0) [Type: foo::Point]
        [b]              : (5, 8) [Type: foo::Point]
    dx person
    person           : "Person A" is 10 years old. [Type: foo::Person]
        [<Raw View>]     [Type: foo::Person]
        [name]           : "Person A" [Type: alloc::string::String]
        [age]            : 10 [Type: int]
    "#,
    );

    let expected_contents = vec![
        "point_a          : (0, 0) [Type: foo::Point]",
        r#"pattern:a\.exe \(embedded NatVis ".*foo\.natvis"\)"#,
    ];

    let expected_err_msg = "Unable to find expected content in the debugger output. Found 0 matches for pattern: `a\\.exe \\(embedded NatVis \".*foo\\.natvis\"\\)`";
    verify_expected_failure(parse(output, expected_contents), expected_err_msg);
}

/// Test expected pattern is not a valid regex.
/// Parsing fails.
#[test]
fn test_err_expected_pattern_not_valid() {
    let output = String::from(
        r#"
    .nvlist
        a.exe (embedded NatVis "path\to\foo.natvis")
    dv
        vec { len = 5 }
        vec2 { len = 1 }
    "#,
    );

    let expected_contents = vec![r#"pattern:vec2 { len = 1 }"#];

    let expected_err_msg = r#"Invalid regex pattern: vec2 { len = 1 }
regex parse error:
    vec2 { len = 1 }
           ^
error: repetition quantifier expects a valid decimal"#;
    verify_expected_failure(parse(output, expected_contents), expected_err_msg);
}

/// The forward-only cursor consumes a line per match: a literal expected
/// twice needs two lines that contain it.
#[test]
fn test_cursor_advances_past_matched_line() {
    let output = String::from("a = 1\na = 1\n");
    parse(output, vec!["a = 1", "a = 1"]).expect("able to parse output.");

    let single = String::from("a = 1\n");
    let expected_err_msg =
        "Unable to find expected content in the debugger output. Missing line: `a = 1`";
    verify_expected_failure(parse(single, vec!["a = 1", "a = 1"]), expected_err_msg);
}

/// Values matched in declared order succeed; the same values out of order
/// fail with the first literal the cursor can no longer reach.
#[test]
fn test_ordered_values_scenario() {
    let output = String::from("a = 0n0\na = 0n5\nb = 0n25\n");
    parse(output, vec!["a = 0n0", "a = 0n5", "b = 0n25"]).expect("able to parse output.");

    let output = String::from("a = 0n0\na = 0n5\nb = 0n25\n");
    let expected_err_msg =
        "Unable to find expected content in the debugger output. Missing line: `a = 0n0`";
    verify_expected_failure(parse(output, vec!["b = 0n25", "a = 0n0"]), expected_err_msg);
}

/// Whitespace-only expectation lines are dropped before matching.
#[test]
fn test_blank_expectations_dropped() {
    let output = String::from("var1 = 0\n");
    parse(output, vec!["", "   ", "\t", "var1 = 0", "  "]).expect("able to parse output.");
}

/// A pattern expectation is matched by regular-expression search within a
/// line, not by substring containment.
#[test]
fn test_pattern_expectation_matches() {
    let output = String::from("  xs: vec with 12 items\n  done\n");
    parse(
        String::from(output.as_str()),
        vec![r"pattern:vec with \d+ items", "done"],
    )
    .expect("able to parse output.");

    let expected_err_msg = "Unable to find expected content in the debugger output. Found 0 matches for pattern: `vec with \\d{3} items`";
    verify_expected_failure(
        parse(output, vec![r"pattern:vec with \d{3} items"]),
        expected_err_msg,
    );
}

/// An invalid pattern stops verification whatever the output holds, even
/// where its source occurs verbatim in the output.
#[test]
fn test_invalid_pattern_ignores_output() {
    let output = String::from("vec2 { len = 1 }\n");
    let result = parse(output, vec!["pattern:vec2 { len = 1 }"]);
    assert!(result.is_err());
}
