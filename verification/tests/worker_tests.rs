use tool_registry::worker::shell_escape;

#[test]
fn shell_escape_handles_empty_string() {
    assert_eq!(shell_escape(""), "''");
}

#[test]
fn shell_escape_preserves_whitespace() {
    assert_eq!(shell_escape("a b"), "'a b'");
}

#[test]
fn shell_escape_escapes_single_quotes() {
    assert_eq!(shell_escape("it's"), "'it'\\''s'");
}

#[test]
fn shell_escape_preserves_unicode() {
    assert_eq!(shell_escape("éß漢"), "'éß漢'");
}

#[test]
fn shell_escape_composes_safely_in_command() {
    let escaped = shell_escape("a b");
    let command = format!("printf %s {escaped}");
    assert_eq!(command, "printf %s 'a b'");
}

#[test]
fn shell_escape_wraps_every_quote_of_a_run() {
    assert_eq!(shell_escape("''"), "''\\'''\\'''");
}

#[test]
fn shell_escape_length_counts_quotes() {
    for (value, quotes) in [("", 0usize), ("plain", 0), ("it's", 1), ("''", 2), ("a'b'c'd", 3)] {
        let escaped = shell_escape(value);
        assert_eq!(escaped.chars().count(), value.chars().count() + 2 + 3 * quotes, "for {value:?}");
    }
}
