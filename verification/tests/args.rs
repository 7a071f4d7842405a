use vellum_core::{parse_arguments, parse_page_number, Command};

fn parse(arguments: &[&str]) -> Result<Command, String> {
    parse_arguments(&arguments.iter().map(|a| a.to_string()).collect())
}

fn run(arguments: &[&str]) -> (Option<String>, usize, Option<String>) {
    match parse(arguments) {
        Ok(Command::Run(a)) => (a.path, a.page, a.dump_png),
        Ok(Command::Help) => panic!("unexpected help"),
        Err(e) => panic!("unexpected error {e}"),
    }
}

#[test]
fn empty_command_line_has_defaults() {
    assert_eq!(run(&[]), (None, 0, None));
}

#[test]
fn document_page_and_output_are_read() {
    assert_eq!(
        run(&["--page", "3", "--dump-png", "out.png", "in.pdf"]),
        (Some(String::from("in.pdf")), 3, Some(String::from("out.png")))
    );
    assert_eq!(run(&["in.pdf", "--page", "+7"]), (Some(String::from("in.pdf")), 7, None));
    assert_eq!(run(&["--page", "1", "--page", "2"]), (None, 2, None));
}

#[test]
fn help_stops_parsing() {
    assert!(matches!(parse(&["-h"]), Ok(Command::Help)));
    assert!(matches!(parse(&["a.pdf", "--help", "--bogus"]), Ok(Command::Help)));
}

#[test]
fn option_errors() {
    assert_eq!(parse(&["--page"]).err().unwrap(), "--page requires a zero-based page number");
    assert_eq!(parse(&["--page", "x"]).err().unwrap(), "--page must be a zero-based page number");
    assert_eq!(parse(&["--page", "-1"]).err().unwrap(), "--page must be a zero-based page number");
    assert_eq!(parse(&["--dump-png"]).err().unwrap(), "--dump-png requires an output path");
    assert_eq!(parse(&["--zoom"]).err().unwrap(), "unknown option: --zoom");
    assert_eq!(parse(&["-"]).err().unwrap(), "unknown option: -");
    assert_eq!(
        parse(&["a.pdf", "b.pdf"]).err().unwrap(),
        "only one input document can be opened at a time"
    );
}

#[test]
fn dump_png_takes_the_next_argument_verbatim() {
    assert_eq!(run(&["--dump-png", "--page"]), (None, 0, Some(String::from("--page"))));
}

#[test]
fn page_numbers_read_like_usize() {
    assert_eq!(parse_page_number("0"), Some(0));
    assert_eq!(parse_page_number("42"), Some(42));
    assert_eq!(parse_page_number("+5"), Some(5));
    assert_eq!(parse_page_number("007"), Some(7));
    assert_eq!(parse_page_number(""), None);
    assert_eq!(parse_page_number("+"), None);
    assert_eq!(parse_page_number("-0"), None);
    assert_eq!(parse_page_number("1 "), None);
    assert_eq!(parse_page_number("١"), None);
    let max = usize::MAX.to_string();
    assert_eq!(parse_page_number(&max), Some(usize::MAX));
    assert_eq!(parse_page_number(&format!("{max}0")), None);
    for text in ["0", "42", "+5", "", "+", "-0", "99999999999999999999999", "1a"] {
        assert_eq!(parse_page_number(text), text.parse::<usize>().ok());
    }
}
