use kakasi::cli::shell::{Shell, Verbosity};

#[test]
fn new_shell_is_normal_plain_and_empty() {
    let shell = Shell::new();
    assert_eq!(shell.verbosity(), Verbosity::Normal);
    assert!(!shell.color());
    assert_eq!(shell.out_text(), "");
    assert_eq!(shell.err_text(), "");
}

#[test]
fn verbosity_is_ordered() {
    assert!(Verbosity::Quiet < Verbosity::Normal);
    assert!(Verbosity::Normal < Verbosity::Verbose);
}

#[test]
fn set_verbosity_changes_only_the_verbosity() {
    let mut shell = Shell::new();
    shell.error("x");
    shell.set_verbosity(Verbosity::Quiet);
    assert_eq!(shell.verbosity(), Verbosity::Quiet);
    assert_eq!(shell.err_text(), "error: x\n");
    shell.set_verbosity(Verbosity::Verbose);
    assert_eq!(shell.verbosity(), Verbosity::Verbose);
}

#[test]
fn status_goes_to_stdout() {
    let mut shell = Shell::new();
    shell.status("Created", "`demo` at: /tmp/demo");
    assert_eq!(shell.out_text(), "Created `demo` at: /tmp/demo\n");
    assert_eq!(shell.err_text(), "");
}

#[test]
fn status_is_suppressed_when_quiet() {
    let mut shell = Shell::new();
    shell.set_verbosity(Verbosity::Quiet);
    shell.status("Created", "x");
    assert_eq!(shell.out_text(), "");
    shell.set_verbosity(Verbosity::Verbose);
    shell.status("Created", "x");
    assert_eq!(shell.out_text(), "Created x\n");
}

#[test]
fn error_is_never_suppressed() {
    for verbosity in [Verbosity::Quiet, Verbosity::Normal, Verbosity::Verbose] {
        let mut shell = Shell::new();
        shell.set_verbosity(verbosity);
        shell.error("it broke");
        assert_eq!(shell.err_text(), "error: it broke\n");
        assert_eq!(shell.out_text(), "");
    }
}

#[test]
fn warn_and_note_go_to_stderr() {
    let mut shell = Shell::new();
    shell.warn("careful");
    shell.note("by the way");
    assert_eq!(shell.err_text(), "warning: careful\nnote: by the way\n");
    assert_eq!(shell.out_text(), "");
}

#[test]
fn warn_and_note_are_suppressed_when_quiet() {
    let mut shell = Shell::new();
    shell.set_verbosity(Verbosity::Quiet);
    shell.warn("careful");
    shell.note("by the way");
    assert_eq!(shell.err_text(), "");
}

#[test]
fn color_styles_the_label() {
    let mut shell = Shell::new();
    shell.set_color(true);
    assert!(shell.color());
    shell.status("Created", "x");
    shell.error("e");
    shell.warn("w");
    shell.note("n");
    assert_eq!(shell.out_text(), "\u{1b}[1m\u{1b}[32mCreated\u{1b}[0m x\n");
    assert_eq!(
        shell.err_text(),
        "\u{1b}[1m\u{1b}[31merror\u{1b}[0m: e\n\
\u{1b}[1m\u{1b}[33mwarning\u{1b}[0m: w\n\
\u{1b}[1m\u{1b}[36mnote\u{1b}[0m: n\n"
    );
}

#[test]
fn raw_writers_take_text_as_it_is() {
    let mut shell = Shell::new();
    shell.set_verbosity(Verbosity::Quiet);
    shell.err().push_str("\nCaused by:\n");
    shell.out().push_str("plain");
    assert_eq!(shell.err_text(), "\nCaused by:\n");
    assert_eq!(shell.out_text(), "plain");
}

#[test]
fn taking_the_text_empties_the_buffer() {
    let mut shell = Shell::new();
    shell.error("one");
    shell.status("Two", "2");
    assert_eq!(shell.take_err(), "error: one\n");
    assert_eq!(shell.err_text(), "");
    assert_eq!(shell.out_text(), "Two 2\n");
    assert_eq!(shell.take_out(), "Two 2\n");
    assert_eq!(shell.out_text(), "");
    shell.error("three");
    assert_eq!(shell.err_text(), "error: three\n");
}

#[test]
fn output_keeps_its_order() {
    let mut shell = Shell::new();
    shell.error("a");
    shell.warn("b");
    shell.error("c");
    assert_eq!(shell.err_text(), "error: a\nwarning: b\nerror: c\n");
}
