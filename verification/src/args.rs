//! The command line of the viewer: `[--page N] [--dump-png OUTPUT] [DOCUMENT]`.

use vstd::prelude::*;

verus! {

/// The parsed command line.
pub struct Arguments {
    /// The document to open.
    pub path: Option<String>,
    /// The zero-based page to show or rasterize.
    pub page: usize,
    /// Where to write the page as a PNG file instead of opening a window.
    pub dump_png: Option<String>,
}

/// What the command line asks for.
pub enum Command {
    /// `-h` or `--help`: print the usage and stop.
    Help,
    /// Run with these arguments.
    Run(Arguments),
}

/// The content of parsed arguments.
pub struct ArgumentsModel {
    pub path: Option<Seq<char>>,
    pub page: usize,
    pub dump_png: Option<Seq<char>>,
}

/// The outcome of parsing a command line.
pub enum ParseModel {
    Help,
    Run(ArgumentsModel),
    Failed(Seq<char>),
}

/// The decimal value of a string of ASCII digits.
pub open spec fn digits_value(digits: Seq<char>) -> nat
    decreases digits.len(),
{
    if digits.len() == 0 {
        0
    } else {
        digits_value(digits.drop_last()) * 10 + (digits.last() as nat - '0' as nat) as nat
    }
}

/// Every character is an ASCII digit.
pub open spec fn all_digits(text: Seq<char>) -> bool {
    forall|i: int| 0 <= i < text.len() ==> '0' <= #[trigger] text[i] <= '9'
}

/// The page number that a command-line value denotes, as `usize`'s
/// `FromStr` reads it: an optional `+` and at least one decimal digit,
/// with a value that fits in `usize`.
pub open spec fn page_number(text: Seq<char>) -> Option<usize> {
    let digits = if text.len() > 0 && text[0] == '+' {
        text.subrange(1, text.len() as int)
    } else {
        text
    };
    if digits.len() > 0 && all_digits(digits) && digits_value(digits) <= usize::MAX {
        Some(digits_value(digits) as usize)
    } else {
        None
    }
}

/// Parsing the command line from argument `index` on, with what was parsed
/// before it.
pub open spec fn parse_from(arguments: Seq<Seq<char>>, index: int, parsed: ArgumentsModel) -> ParseModel
    decreases arguments.len() - index,
{
    if index < 0 || index >= arguments.len() {
        ParseModel::Run(parsed)
    } else {
        let argument = arguments[index];
        if argument == "-h"@ || argument == "--help"@ {
            ParseModel::Help
        } else if argument == "--page"@ {
            if index + 1 >= arguments.len() {
                ParseModel::Failed("--page requires a zero-based page number"@)
            } else {
                match page_number(arguments[index + 1]) {
                    Some(page) => parse_from(arguments, index + 2, ArgumentsModel { page, ..parsed }),
                    None => ParseModel::Failed("--page must be a zero-based page number"@),
                }
            }
        } else if argument == "--dump-png"@ {
            if index + 1 >= arguments.len() {
                ParseModel::Failed("--dump-png requires an output path"@)
            } else {
                parse_from(
                    arguments,
                    index + 2,
                    ArgumentsModel { dump_png: Some(arguments[index + 1]), ..parsed },
                )
            }
        } else if argument.len() > 0 && argument[0] == '-' {
            ParseModel::Failed("unknown option: "@ + argument)
        } else if parsed.path is Some {
            ParseModel::Failed("only one input document can be opened at a time"@)
        } else {
            parse_from(arguments, index + 1, ArgumentsModel { path: Some(argument), ..parsed })
        }
    }
}

/// Parsing a whole command line (without the program name).
pub open spec fn parse_command_line(arguments: Seq<Seq<char>>) -> ParseModel {
    parse_from(arguments, 0, ArgumentsModel { path: None, page: 0, dump_png: None })
}

/// Options after a point leave alone what no later option sets: without a
/// later `--dump-png` the output path stays as it was, and without a later
/// `--page` the page does.
pub proof fn lemma_later_options_keep_settings(
    arguments: Seq<Seq<char>>,
    index: int,
    parsed: ArgumentsModel,
)
    requires
        0 <= index,
    ensures
        (forall|j: int| index <= j < arguments.len() ==> arguments[j] != "--dump-png"@)
            ==> (parse_from(arguments, index, parsed) matches ParseModel::Run(result)
            ==> result.dump_png == parsed.dump_png),
        (forall|j: int| index <= j < arguments.len() ==> arguments[j] != "--page"@) ==> (parse_from(
            arguments,
            index,
            parsed,
        ) matches ParseModel::Run(result) ==> result.page == parsed.page),
    decreases arguments.len() - index,
{
    if index < arguments.len() {
        let argument = arguments[index];
        if argument == "-h"@ || argument == "--help"@ {
        } else if argument == "--page"@ {
            if index + 1 < arguments.len() {
                match page_number(arguments[index + 1]) {
                    Some(page) => lemma_later_options_keep_settings(
                        arguments,
                        index + 2,
                        ArgumentsModel { page, ..parsed },
                    ),
                    None => {},
                }
            }
        } else if argument == "--dump-png"@ {
            if index + 1 < arguments.len() {
                lemma_later_options_keep_settings(
                    arguments,
                    index + 2,
                    ArgumentsModel { dump_png: Some(arguments[index + 1]), ..parsed },
                );
            }
        } else if argument.len() > 0 && argument[0] == '-' {
        } else if parsed.path is Some {
        } else {
            lemma_later_options_keep_settings(
                arguments,
                index + 1,
                ArgumentsModel { path: Some(argument), ..parsed },
            );
        }
    }
}

/// The headless command line `--dump-png OUTPUT --page N DOCUMENT` (and the
/// same with the two options swapped) asks to write page `N` of `DOCUMENT`
/// to `OUTPUT`, whatever `OUTPUT` is.
pub proof fn lemma_headless_command_line(
    output: Seq<char>,
    number: Seq<char>,
    document: Seq<char>,
    page: usize,
)
    requires
        page_number(number) == Some(page),
        document.len() > 0,
        document[0] != '-',
    ensures
        parse_command_line(seq!["--dump-png"@, output, "--page"@, number, document])
            == ParseModel::Run(
            ArgumentsModel { path: Some(document), page, dump_png: Some(output) },
        ),
        parse_command_line(seq!["--page"@, number, "--dump-png"@, output, document])
            == ParseModel::Run(
            ArgumentsModel { path: Some(document), page, dump_png: Some(output) },
        ),
{
    reveal_strlit("-h");
    reveal_strlit("--help");
    reveal_strlit("--page");
    reveal_strlit("--dump-png");
    let first = seq!["--dump-png"@, output, "--page"@, number, document];
    let second = seq!["--page"@, number, "--dump-png"@, output, document];
    assert(document != "-h"@ && document != "--help"@ && document != "--page"@ && document
        != "--dump-png"@);
    assert("--dump-png"@.len() == 10 && "-h"@.len() == 2 && "--help"@.len() == 6 && "--page"@.len()
        == 6);
    assert("--page"@[2] == 'p' && "--help"@[2] == 'h');
    assert("--dump-png"@ != "-h"@ && "--dump-png"@ != "--help"@ && "--dump-png"@ != "--page"@);
    assert("--page"@ != "-h"@ && "--page"@ != "--help"@);
    let none = ArgumentsModel { path: None, page: 0, dump_png: None };
    let with_output = ArgumentsModel { dump_png: Some(output), ..none };
    let with_both = ArgumentsModel { page, ..with_output };
    assert(first[0] == "--dump-png"@ && first[1] == output && first[2] == "--page"@ && first[3]
        == number && first[4] == document);
    assert(parse_from(first, 5, ArgumentsModel { path: Some(document), ..with_both })
        == ParseModel::Run(ArgumentsModel { path: Some(document), ..with_both }));
    assert(parse_from(first, 4, with_both) == parse_from(
        first,
        5,
        ArgumentsModel { path: Some(document), ..with_both },
    ));
    assert(parse_from(first, 2, with_output) == parse_from(first, 4, with_both));
    assert(parse_from(first, 0, none) == parse_from(first, 2, with_output));
    let with_page = ArgumentsModel { page, ..none };
    let with_page_output = ArgumentsModel { dump_png: Some(output), ..with_page };
    assert(second[0] == "--page"@ && second[1] == number && second[2] == "--dump-png"@ && second[3]
        == output && second[4] == document);
    assert(parse_from(second, 5, ArgumentsModel { path: Some(document), ..with_page_output })
        == ParseModel::Run(ArgumentsModel { path: Some(document), ..with_page_output }));
    assert(parse_from(second, 4, with_page_output) == parse_from(
        second,
        5,
        ArgumentsModel { path: Some(document), ..with_page_output },
    ));
    assert(parse_from(second, 2, with_page) == parse_from(second, 4, with_page_output));
    assert(parse_from(second, 0, none) == parse_from(second, 2, with_page));
}

/// The views of a list of strings.
pub open spec fn texts(arguments: Seq<String>) -> Seq<Seq<char>> {
    arguments.map_values(|argument: String| argument@)
}

/// The view of an optional string.
pub open spec fn optional_view(text: Option<String>) -> Option<Seq<char>> {
    match text {
        Some(t) => Some(t@),
        None => None,
    }
}

impl Arguments {
    /// The content of the arguments.
    pub open spec fn model(&self) -> ArgumentsModel {
        ArgumentsModel {
            path: optional_view(self.path),
            page: self.page,
            dump_png: optional_view(self.dump_png),
        }
    }
}

/// The outcome of parsing, as a model.
pub open spec fn outcome_model(outcome: Result<Command, String>) -> ParseModel {
    match outcome {
        Ok(Command::Help) => ParseModel::Help,
        Ok(Command::Run(arguments)) => ParseModel::Run(arguments.model()),
        Err(message) => ParseModel::Failed(message@),
    }
}

/// The two strings are the same sequence of characters.
fn same_text(text: &str, expected: &str) -> (same: bool)
    ensures
        same == (text@ == expected@),
{
    let len: usize = text.unicode_len();
    if len != expected.unicode_len() {
        return false;
    }
    let mut i: usize = 0;
    while i < len
        invariant
            len == text@.len(),
            len == expected@.len(),
            i <= len,
            forall|j: int| 0 <= j < i ==> text@[j] == expected@[j],
        decreases len - i,
    {
        if text.get_char(i) != expected.get_char(i) {
            return false;
        }
        i = i + 1;
    }
    assert(text@ =~= expected@);
    true
}

proof fn lemma_digits_value_step(digits: Seq<char>, next: char)
    ensures
        digits_value(digits.push(next)) == digits_value(digits) * 10 + (next as nat - '0' as nat) as nat,
{
    assert(digits.push(next).drop_last() =~= digits);
}

/// Read a zero-based page number the way `usize`'s `FromStr` does.
pub fn parse_page_number(text: &str) -> (page: Option<usize>)
    ensures
        page == page_number(text@),
{
    let len: usize = text.unicode_len();
    let start: usize = if len > 0 && text.get_char(0) == '+' {
        1
    } else {
        0
    };
    let ghost digits = if start == 1 {
        text@.subrange(1, text@.len() as int)
    } else {
        text@
    };
    assert(digits =~= text@.subrange(start as int, len as int));
    if start >= len {
        return None;
    }
    let mut value: usize = 0;
    let mut i: usize = start;
    while i < len
        invariant
            len == text@.len(),
            start <= i <= len,
            digits == text@.subrange(start as int, len as int),
            page_number(text@) == if digits.len() > 0 && all_digits(digits) && digits_value(digits)
                <= usize::MAX {
                Some(digits_value(digits) as usize)
            } else {
                None
            },
            all_digits(text@.subrange(start as int, i as int)),
            value as nat == digits_value(text@.subrange(start as int, i as int)),
        decreases len - i,
    {
        let c = text.get_char(i);
        if c < '0' || c > '9' {
            assert(digits[i - start] == c);
            assert(!all_digits(digits));
            return None;
        }
        let digit: usize = (c as u32 - '0' as u32) as usize;
        proof {
            assert(text@.subrange(start as int, i + 1) =~= text@.subrange(start as int, i as int).push(c));
            lemma_digits_value_step(text@.subrange(start as int, i as int), c);
        }
        let scaled = value.checked_mul(10);
        let next = match scaled {
            Some(s) => s.checked_add(digit),
            None => None,
        };
        match next {
            Some(n) => {
                value = n;
            },
            None => {
                proof {
                    if all_digits(digits) {
                        lemma_digits_value_prefix_bound(digits, (i + 1 - start) as int);
                        assert(digits.subrange(0, (i + 1 - start) as int) =~= text@.subrange(
                            start as int,
                            i + 1,
                        ));
                    }
                }
                return None;
            },
        }
        i = i + 1;
    }
    assert(text@.subrange(start as int, len as int) =~= digits);
    Some(value)
}

/// The value of a string of digits is at least the value of any prefix.
proof fn lemma_digits_value_prefix_bound(digits: Seq<char>, n: int)
    requires
        0 <= n <= digits.len(),
        all_digits(digits),
    ensures
        digits_value(digits.subrange(0, n)) <= digits_value(digits),
    decreases digits.len(),
{
    if n < digits.len() {
        assert(digits.drop_last() =~= digits.subrange(0, digits.len() - 1));
        assert(digits.subrange(0, n) =~= digits.drop_last().subrange(0, n));
        lemma_digits_value_prefix_bound(digits.drop_last(), n);
    } else {
        assert(digits.subrange(0, n) =~= digits);
    }
}

/// Parse the command-line arguments that follow the program name.
pub fn parse_arguments(arguments: &Vec<String>) -> (outcome: Result<Command, String>)
    ensures
        outcome_model(outcome) == parse_command_line(texts(arguments@)),
{
    let ghost args = texts(arguments@);
    let mut path: Option<String> = None;
    let mut page: usize = 0;
    let mut dump_png: Option<String> = None;
    let mut i: usize = 0;
    let n: usize = arguments.len();
    while i < n
        invariant
            n == arguments@.len(),
            args == texts(arguments@),
            i <= n,
            parse_command_line(args) == parse_from(
                args,
                i as int,
                ArgumentsModel { path: optional_view(path), page, dump_png: optional_view(dump_png) },
            ),
        decreases n - i,
    {
        let argument = arguments[i].as_str();
        assert(argument@ == args[i as int]);
        if same_text(argument, "-h") || same_text(argument, "--help") {
            return Ok(Command::Help);
        } else if same_text(argument, "--page") {
            if i + 1 >= n {
                return Err(String::from_str("--page requires a zero-based page number"));
            }
            assert(arguments[i + 1]@ == args[i + 1]);
            match parse_page_number(arguments[i + 1].as_str()) {
                Some(value) => {
                    page = value;
                },
                None => {
                    return Err(String::from_str("--page must be a zero-based page number"));
                },
            }
            i = i + 2;
        } else if same_text(argument, "--dump-png") {
            if i + 1 >= n {
                return Err(String::from_str("--dump-png requires an output path"));
            }
            assert(arguments[i + 1]@ == args[i + 1]);
            dump_png = Some(arguments[i + 1].clone());
            i = i + 2;
        } else if argument.unicode_len() > 0 && argument.get_char(0) == '-' {
            let mut message = String::from_str("unknown option: ");
            message.append(argument);
            return Err(message);
        } else if path.is_some() {
            return Err(String::from_str("only one input document can be opened at a time"));
        } else {
            path = Some(arguments[i].clone());
            i = i + 1;
        }
    }
    Ok(Command::Run(Arguments { path, page, dump_png }))
}

} // verus!
