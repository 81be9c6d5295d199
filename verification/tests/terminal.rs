use sacp_connection::terminal::{
    to_terminal_exit_status, ProcessExit, TerminalExitStatus, TerminalRegistry, TerminalState,
};
use std::sync::Arc;

#[test]
fn a_new_terminal_is_empty() {
    let terminal = TerminalState::new(Some(7));
    assert_eq!(terminal.output, "");
    assert!(!terminal.truncated);
    assert_eq!(terminal.exit_status, None);
    assert_eq!(terminal.output_byte_limit, Some(7));
}

#[test]
fn output_without_a_limit_is_kept_whole() {
    let mut terminal = TerminalState::new(None);
    terminal.append_terminal_output(b"hello ");
    terminal.append_terminal_output("wörld".as_bytes());
    assert_eq!(terminal.output, "hello wörld");
    assert!(!terminal.truncated);
}

#[test]
fn output_over_the_limit_loses_its_beginning() {
    let mut terminal = TerminalState::new(Some(5));
    terminal.append_terminal_output(b"abcde");
    assert_eq!(terminal.output, "abcde");
    assert!(!terminal.truncated);
    terminal.append_terminal_output(b"fg");
    assert_eq!(terminal.output, "cdefg");
    assert!(terminal.truncated);
    terminal.append_terminal_output(b"");
    assert!(terminal.truncated);
}

#[test]
fn truncation_happens_at_character_boundaries() {
    let mut terminal = TerminalState::new(Some(4));
    terminal.append_terminal_output("€€".as_bytes());
    assert_eq!(terminal.output, "€");
    assert!(terminal.truncated);
    let mut none = TerminalState::new(Some(0));
    none.append_terminal_output(b"x");
    assert_eq!(none.output, "");
    assert!(none.truncated);
}

#[test]
fn pieces_do_not_matter() {
    let text = "one €uro, two €uros, three €uros";
    for limit in 0..40 {
        let mut whole = TerminalState::new(Some(limit));
        whole.append_text(text);
        let mut pieces = TerminalState::new(Some(limit));
        for c in text.chars() {
            pieces.append_text(&c.to_string());
        }
        assert_eq!(whole, pieces, "{limit}");
        assert!(whole.output.len() as u64 <= limit);
        assert_eq!(whole.truncated, text.len() as u64 > limit);
        assert!(text.ends_with(whole.output.as_str()));
    }
}

#[test]
fn bytes_that_are_not_utf8_are_replaced() {
    let mut terminal = TerminalState::new(None);
    terminal.append_terminal_output(b"a\xffb\xe2\x82");
    assert_eq!(terminal.output, "a\u{fffd}b\u{fffd}");
}

#[test]
fn readers_stop_at_the_end_and_at_errors() {
    let mut terminal = TerminalState::new(None);
    assert!(terminal.on_read(Some(b"x")));
    assert_eq!(terminal.output, "x");
    assert!(!terminal.on_read(Some(b"")));
    assert!(!terminal.on_read(None));
    assert_eq!(terminal.output, "x");
}

#[test]
fn exit_statuses() {
    let exited = to_terminal_exit_status(ProcessExit { code: Some(3), signal: None });
    assert_eq!(exited, TerminalExitStatus { exit_code: Some(3), signal: None });
    let negative = to_terminal_exit_status(ProcessExit { code: Some(-1), signal: None });
    assert_eq!(negative.exit_code, Some(u32::MAX));
    let killed = to_terminal_exit_status(ProcessExit { code: None, signal: Some(9) });
    assert_eq!(killed, TerminalExitStatus { exit_code: None, signal: Some("9".to_string()) });
}

#[test]
fn terminals_are_found_until_removed() {
    let mut registry: TerminalRegistry<u8> = TerminalRegistry::new();
    registry.insert("a".to_string(), Arc::new(1));
    registry.insert("b".to_string(), Arc::new(2));
    assert_eq!(*registry.terminal_state("a").unwrap(), 1);
    assert_eq!(*registry.remove("a").unwrap(), 1);
    let unknown = registry.terminal_state("a").unwrap_err();
    assert_eq!(unknown.code, -32002);
    assert_eq!(unknown.message, "Resource not found");
    assert_eq!(unknown.data, None);
    assert_eq!(registry.remove("a").unwrap_err().code, -32002);
    assert_eq!(*registry.terminal_state("b").unwrap(), 2);
}
