use command_template::{AiderCommand, ArityError, CommandTemplate, HeaderParseError};

const ONE_ARGUMENT: &str = "---
args:
  - FUNCTION
---
# Add unit tests for FUNCTION

## Step 1 - think about what should be tested

Read `FUNCTION` and think about how a Senior Rust Software Engineer would want to test it.

## Step 2 - add placeholder tests

Add placeholders for each of those unit tests using `todo!()`

Example:

```rs
#[test]
fn test_FUNCTION_does_X() {
    todo!()
}
```

## Step 3 - implement tests

Now implement those unit tests";

fn message(applied: Result<AiderCommand, ArityError>) -> String {
    applied.unwrap().message
}

fn failure(applied: Result<AiderCommand, ArityError>) -> String {
    applied.unwrap_err().message()
}

#[test]
fn test_parse_markdown_with_frontmatter() {
    let markdown = ONE_ARGUMENT.to_string();

    let doc = CommandTemplate::parse(&markdown).unwrap();

    assert_eq!(*doc.argument_names(), vec!["FUNCTION"]);
}

#[test]
fn errors_if_required_args_are_not_given() {
    let markdown = ONE_ARGUMENT.to_string();

    let doc = CommandTemplate::parse(&markdown).unwrap();

    let cmd = doc.apply_args(&[]).unwrap_err();

    assert!(cmd.message() == "Missing expected argument \"FUNCTION\".");
}

#[test]
fn test_applies_given_arguments_to_the_template() {
    let markdown = ONE_ARGUMENT.to_string();

    let doc = CommandTemplate::parse(&markdown).unwrap();

    let cmd = doc.apply_args(&["my_func_1"]).unwrap();

    assert_eq!(
        cmd.message,
        "# Add unit tests for my_func_1

## Step 1 - think about what should be tested

Read `my_func_1` and think about how a Senior Rust Software Engineer would want to test it.

## Step 2 - add placeholder tests

Add placeholders for each of those unit tests using `todo!()`

Example:

```rs
#[test]
fn test_my_func_1_does_X() {
    todo!()
}
```

## Step 3 - implement tests

Now implement those unit tests"
    )
}

#[test]
fn single_parameter_is_replaced() {
    let source = "---\nargs:\n  - FUNCTION\n---\nWrite tests for FUNCTION.";
    let template = CommandTemplate::parse(source).unwrap();
    assert_eq!(*template.argument_names(), vec!["FUNCTION"]);
    assert_eq!(template.template_body(), "Write tests for FUNCTION.");
    assert_eq!(message(template.apply_args(&["my_func_1"])), "Write tests for my_func_1.");
}

#[test]
fn single_parameter_without_value_is_an_error() {
    let source = "---\nargs:\n  - FUNCTION\n---\nWrite tests for FUNCTION.";
    let template = CommandTemplate::parse(source).unwrap();
    let error = template.apply_args(&[]).unwrap_err();
    assert_eq!(error.missing, "FUNCTION");
    assert_eq!(error.message(), "Missing expected argument \"FUNCTION\".");
}

#[test]
fn document_without_header_is_its_own_message() {
    let template = CommandTemplate::parse("Hello world").unwrap();
    assert!(template.argument_names().is_empty());
    assert_eq!(message(template.apply_args(&[])), "Hello world");
}

#[test]
fn empty_header_declares_nothing() {
    let template = CommandTemplate::parse("---\n---\nBody").unwrap();
    assert!(template.argument_names().is_empty());
    assert_eq!(message(template.apply_args(&[])), "Body");
}

#[test]
fn two_parameters_with_repeated_occurrences() {
    let source = "---\nargs:\n  - NAME\n  - LANG\n---\nHi NAME, welcome to LANG. NAME, enjoy LANG!";
    let template = CommandTemplate::parse(source).unwrap();
    assert_eq!(*template.argument_names(), vec!["NAME", "LANG"]);
    assert_eq!(
        message(template.apply_args(&["Ada", "Prolog"])),
        "Hi Ada, welcome to Prolog. Ada, enjoy Prolog!"
    );
}

#[test]
fn malformed_header_is_an_error() {
    let parsed = CommandTemplate::parse("---\nargs: [A, B\n---\nBody");
    let error: HeaderParseError = parsed.unwrap_err();
    assert!(!error.message.is_empty());
}

#[test]
fn later_substitution_sees_earlier_values() {
    let template = CommandTemplate::new(vec!["A".to_string(), "B".to_string()], "A B");
    assert_eq!(message(template.apply_args(&["B", "X"])), "X X");
}

#[test]
fn later_substitution_sees_earlier_values_from_a_document() {
    let template = CommandTemplate::parse("---\nargs: [A, B]\n---\nA B").unwrap();
    assert_eq!(message(template.apply_args(&["B", "X"])), "X X");
}

#[test]
fn extra_values_are_ignored() {
    let template = CommandTemplate::new(vec!["A".to_string()], "A");
    assert_eq!(message(template.apply_args(&["x", "y"])), "x");
}

#[test]
fn document_that_opens_otherwise_is_returned_whole() {
    for source in ["", "\n---\n---\n", " ---\nargs: [A]\n---\nA", "----\n---\n", "--- \n---\nx", "text\n---\nargs: [A]\n---\nA"] {
        let template = CommandTemplate::parse(source).unwrap();
        assert!(template.argument_names().is_empty());
        assert_eq!(template.template_body(), source);
        assert_eq!(message(template.apply_args(&[])), source);
    }
}

#[test]
fn template_without_parameters_gives_its_body() {
    let template = CommandTemplate::new(Vec::new(), "A body with NAME in it\n");
    assert_eq!(message(template.apply_args(&[])), "A body with NAME in it\n");
    assert_eq!(message(template.apply_args(&["x"])), "A body with NAME in it\n");
    assert_eq!(message(template.apply_args(&["NAME", "body", ""])), "A body with NAME in it\n");
}

#[test]
fn message_is_the_chain_of_replacements() {
    let names = vec!["ONE".to_string(), "TWO".to_string(), "THREE".to_string()];
    let body = "ONE, TWO and THREE; ONETWO THREEONE";
    let values = ["TWO", "THREE", "1"];
    let template = CommandTemplate::new(names, body);
    let expected = body.replace("ONE", "TWO").replace("TWO", "THREE").replace("THREE", "1");
    assert_eq!(expected, "1, 1 and 1; 11 11");
    assert_eq!(message(template.apply_args(&values)), expected);
}

#[test]
fn first_missing_parameter_is_named() {
    let names = vec!["FIRST".to_string(), "SECOND".to_string(), "THIRD".to_string()];
    let template = CommandTemplate::new(names, "FIRST SECOND THIRD");
    assert_eq!(failure(template.apply_args(&[])), "Missing expected argument \"FIRST\".");
    assert_eq!(failure(template.apply_args(&["a"])), "Missing expected argument \"SECOND\".");
    assert_eq!(failure(template.apply_args(&["a", "b"])), "Missing expected argument \"THIRD\".");
    assert_eq!(message(template.apply_args(&["a", "b", "c"])), "a b c");
}

#[test]
fn duplicate_parameters_each_take_a_value() {
    let template = CommandTemplate::parse("---\nargs: [X, X]\n---\nX and Y").unwrap();
    assert_eq!(*template.argument_names(), vec!["X", "X"]);
    assert_eq!(message(template.apply_args(&["X", "Z"])), "Z and Y");
    assert_eq!(message(template.apply_args(&["Y", "Z"])), "Y and Y");
    assert_eq!(failure(template.apply_args(&["Y"])), "Missing expected argument \"X\".");
}

#[test]
fn parameter_that_does_not_occur_changes_nothing() {
    let template = CommandTemplate::new(vec!["ABSENT".to_string()], "nothing to see");
    assert_eq!(message(template.apply_args(&["value"])), "nothing to see");
}

#[test]
fn value_may_be_empty_or_hold_other_scripts() {
    let template = CommandTemplate::new(vec!["NAME".to_string()], "<NAME> é NAME ü");
    assert_eq!(message(template.apply_args(&[""])), "<> é  ü");
    assert_eq!(message(template.apply_args(&["日本語"])), "<日本語> é 日本語 ü");
}

#[test]
fn unclosed_header_is_body() {
    let source = "---\nargs:\n  - A\nA stays";
    let template = CommandTemplate::parse(source).unwrap();
    assert!(template.argument_names().is_empty());
    assert_eq!(message(template.apply_args(&[])), source);
}

#[test]
fn body_is_kept_verbatim() {
    let template = CommandTemplate::parse("---\nargs: [A]\n---\n\n  A \n---\nA\n").unwrap();
    assert_eq!(template.template_body(), "\n  A \n---\nA\n");
    assert_eq!(message(template.apply_args(&["b"])), "\n  b \n---\nb\n");
}

#[test]
fn new_keeps_names_and_body() {
    let template = CommandTemplate::new(vec!["A".to_string(), "B".to_string()], "body");
    assert_eq!(*template.argument_names(), vec!["A", "B"]);
    assert_eq!(template.template_body(), "body");
}
