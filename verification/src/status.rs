//! The status-bar texts of the viewer window.

use vstd::prelude::*;

verus! {

/// The ASCII digit for `d`, for `d` below ten.
pub open spec fn digit_char(d: nat) -> char {
    if d == 0 {
        '0'
    } else if d == 1 {
        '1'
    } else if d == 2 {
        '2'
    } else if d == 3 {
        '3'
    } else if d == 4 {
        '4'
    } else if d == 5 {
        '5'
    } else if d == 6 {
        '6'
    } else if d == 7 {
        '7'
    } else if d == 8 {
        '8'
    } else {
        '9'
    }
}

/// The decimal digits of `n`, without leading zeros.
pub open spec fn decimal(n: nat) -> Seq<char>
    decreases n,
{
    if n < 10 {
        seq![digit_char(n)]
    } else {
        decimal(n / 10) + seq![digit_char(n % 10)]
    }
}

fn digit_text(d: usize) -> (text: &'static str)
    requires
        d < 10,
    ensures
        text@ == seq![digit_char(d as nat)],
{
    proof {
        reveal_strlit("0");
        reveal_strlit("1");
        reveal_strlit("2");
        reveal_strlit("3");
        reveal_strlit("4");
        reveal_strlit("5");
        reveal_strlit("6");
        reveal_strlit("7");
        reveal_strlit("8");
        reveal_strlit("9");
    }
    let text = if d == 0 {
        "0"
    } else if d == 1 {
        "1"
    } else if d == 2 {
        "2"
    } else if d == 3 {
        "3"
    } else if d == 4 {
        "4"
    } else if d == 5 {
        "5"
    } else if d == 6 {
        "6"
    } else if d == 7 {
        "7"
    } else if d == 8 {
        "8"
    } else {
        "9"
    };
    assert(text@ =~= seq![digit_char(d as nat)]);
    text
}

/// Append the decimal digits of `n`.
fn push_decimal(text: &mut String, n: usize)
    ensures
        final(text)@ == old(text)@ + decimal(n as nat),
    decreases n,
{
    if n >= 10 {
        push_decimal(text, n / 10);
    }
    text.append(digit_text(n % 10));
    proof {
        if n >= 10 {
            assert(old(text)@ + decimal(n as nat) =~= old(text)@ + decimal((n / 10) as nat) + seq![
                digit_char((n % 10) as nat),
            ]);
        } else {
            assert(decimal(n as nat) =~= seq![digit_char(n as nat)]);
        }
    }
}

/// The status once page `page` (zero-based) of a document of `count` pages
/// was rendered: `"{title} — page {page + 1} of {count}"`.
pub fn page_status(title: &str, page: usize, count: usize) -> (status: String)
    requires
        page < usize::MAX,
    ensures
        status@ == title@ + " — page "@ + decimal((page + 1) as nat) + " of "@ + decimal(count as nat),
{
    let mut status = String::from_str(title);
    status.append(" — page ");
    push_decimal(&mut status, page + 1);
    status.append(" of ");
    push_decimal(&mut status, count);
    status
}

/// The status while page `page` (zero-based) of a document of `count` pages
/// is being rendered: `"{title} — rendering page {page + 1} of {count}"`.
pub fn rendering_status(title: &str, page: usize, count: usize) -> (status: String)
    requires
        page < usize::MAX,
    ensures
        status@ == title@ + " — rendering page "@ + decimal((page + 1) as nat) + " of "@ + decimal(
            count as nat,
        ),
{
    let mut status = String::from_str(title);
    status.append(" — rendering page ");
    push_decimal(&mut status, page + 1);
    status.append(" of ");
    push_decimal(&mut status, count);
    status
}

/// The status when a page could not be rendered.
pub fn render_error_status(message: &str) -> (status: String)
    ensures
        status@ == "Could not render page: "@ + message@,
{
    let mut status = String::from_str("Could not render page: ");
    status.append(message);
    status
}

/// The status once a document is opened: its title and how many pages it
/// has, `"{title} — {count} page"` with an `s` unless there is one page.
pub fn opened_status(title: &str, count: usize) -> (status: String)
    ensures
        status@ == title@ + " — "@ + decimal(count as nat) + (if count == 1 {
            " page"@
        } else {
            " pages"@
        }),
{
    let mut status = String::from_str(title);
    status.append(" — ");
    push_decimal(&mut status, count);
    if count == 1 {
        status.append(" page");
    } else {
        status.append(" pages");
    }
    status
}

} // verus!
