use oh_my_shell::command::{Command, InputType, ParseError};
use oh_my_shell::parser::{parse_input, parse_redir_command, parse_tokens};

fn words(c: &Command) -> Vec<&str> {
    c.args.iter().map(|a| a.as_str()).collect()
}

#[test]
fn plain_line_is_single_command() {
    match parse_input("ls -l -a /tmp") {
        Ok(Some(InputType::SingleCommand(c))) => {
            assert_eq!(c.program, "ls");
            assert_eq!(words(&c), vec!["-l", "-a", "/tmp"]);
            assert!(c.input_file.is_none());
            assert!(c.output_file.is_none());
        }
        other => panic!("unexpected {:?}", other),
    }
}

#[test]
fn three_stage_pipeline() {
    match parse_input("a | b | c") {
        Ok(Some(InputType::Pipe(cs))) => {
            assert_eq!(cs.len(), 3);
            assert_eq!(cs[0].program, "a");
            assert_eq!(cs[1].program, "b");
            assert_eq!(cs[2].program, "c");
        }
        other => panic!("unexpected {:?}", other),
    }
}

#[test]
fn empty_middle_segment_is_dropped() {
    match parse_input("a |  | b") {
        Ok(Some(InputType::Pipe(cs))) => {
            assert_eq!(cs.len(), 2);
            assert_eq!(cs[0].program, "a");
            assert_eq!(cs[1].program, "b");
        }
        other => panic!("unexpected {:?}", other),
    }
}

#[test]
fn pipe_needs_no_spaces() {
    match parse_input("printf x|sort|head -n 1") {
        Ok(Some(InputType::Pipe(cs))) => {
            assert_eq!(cs.len(), 3);
            assert_eq!(cs[0].program, "printf");
            assert_eq!(words(&cs[0]), vec!["x"]);
            assert_eq!(cs[2].program, "head");
            assert_eq!(words(&cs[2]), vec!["-n", "1"]);
        }
        other => panic!("unexpected {:?}", other),
    }
}

#[test]
fn both_redirections() {
    match parse_input("cat < in.txt > out.txt") {
        Ok(Some(InputType::BiRedirect(c, i, o))) => {
            assert_eq!(c.program, "cat");
            assert!(c.args.is_empty());
            assert_eq!(c.input_file.as_deref(), Some("in.txt"));
            assert_eq!(c.output_file.as_deref(), Some("out.txt"));
            assert_eq!(i, "in.txt");
            assert_eq!(o, "out.txt");
        }
        other => panic!("unexpected {:?}", other),
    }
}

#[test]
fn input_redirection_only() {
    match parse_input("sort -r < data") {
        Ok(Some(InputType::InputRedirect(c, i))) => {
            assert_eq!(c.program, "sort");
            assert_eq!(words(&c), vec!["-r"]);
            assert_eq!(i, "data");
        }
        other => panic!("unexpected {:?}", other),
    }
}

#[test]
fn output_redirection_only() {
    match parse_input("echo hi > /tmp/x.txt") {
        Ok(Some(InputType::OutputRedirect(c, o))) => {
            assert_eq!(c.program, "echo");
            assert_eq!(words(&c), vec!["hi"]);
            assert_eq!(o, "/tmp/x.txt");
        }
        other => panic!("unexpected {:?}", other),
    }
}

#[test]
fn dangling_input_operator_is_error() {
    assert!(matches!(parse_input("grep <"), Err(ParseError::MissingInputPath)));
}

#[test]
fn dangling_output_operator_is_error() {
    assert!(matches!(parse_input("ls >"), Err(ParseError::MissingOutputPath)));
}

#[test]
fn redirection_without_program_is_error() {
    assert!(matches!(parse_input("< in.txt"), Err(ParseError::MissingProgram)));
}

#[test]
fn first_failing_stage_decides_the_error() {
    assert!(matches!(parse_input("a > | b <"), Err(ParseError::MissingOutputPath)));
    assert!(matches!(parse_input("a | b <"), Err(ParseError::MissingInputPath)));
}

#[test]
fn blank_lines_hold_nothing() {
    assert!(matches!(parse_input(""), Ok(None)));
    assert!(matches!(parse_input(" \t  "), Ok(None)));
    assert!(matches!(parse_input(" | |  "), Ok(None)));
}

#[test]
fn one_stage_with_stray_bars_is_single() {
    match parse_input("| ls |") {
        Ok(Some(InputType::SingleCommand(c))) => assert_eq!(c.program, "ls"),
        other => panic!("unexpected {:?}", other),
    }
}

#[test]
fn redirection_inside_a_pipeline_stage() {
    match parse_input("cat < a.txt | sort > b.txt") {
        Ok(Some(InputType::Pipe(cs))) => {
            assert_eq!(cs.len(), 2);
            assert_eq!(cs[0].input_file.as_deref(), Some("a.txt"));
            assert!(cs[0].output_file.is_none());
            assert_eq!(cs[1].output_file.as_deref(), Some("b.txt"));
        }
        other => panic!("unexpected {:?}", other),
    }
}

#[test]
fn later_redirection_replaces_earlier() {
    match parse_redir_command("cat < a < b") {
        Ok(Some(c)) => assert_eq!(c.input_file.as_deref(), Some("b")),
        other => panic!("unexpected {:?}", other),
    }
}

#[test]
fn operator_glued_to_a_word_is_an_argument() {
    match parse_redir_command("cat <in") {
        Ok(Some(c)) => {
            assert_eq!(words(&c), vec!["<in"]);
            assert!(c.input_file.is_none());
        }
        other => panic!("unexpected {:?}", other),
    }
}

#[test]
fn blank_segment_has_no_command() {
    assert!(matches!(parse_redir_command("   "), Ok(None)));
}

#[test]
fn words_to_command() {
    let toks: Vec<String> = vec!["wc".to_string(), "-l".to_string(), ">".to_string(), "n".to_string()];
    let c = parse_tokens(&toks).unwrap();
    assert_eq!(c.program, "wc");
    assert_eq!(words(&c), vec!["-l"]);
    assert_eq!(c.output_file.as_deref(), Some("n"));
}
