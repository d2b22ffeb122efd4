//! Canonical text renderings: decimal numbers and the pieces of a file path
//! that end up in a multipart section or in an error message.

use vstd::prelude::*;
use vstd::string::{StrSliceExecFns, StringExecFns};

verus! {

/// The character that writes the decimal digit `d`.
pub open spec fn digit(d: nat) -> char
    recommends
        d < 10,
{
    if d == 0 {
        '0'
    } else if d == 1 {
        '1'
    } else if d == 2 {
        '2'
    } else if d == 3 {
        '3'
    } else if d == 4 {
        '4'
    } else if d == 5 {
        '5'
    } else if d == 6 {
        '6'
    } else if d == 7 {
        '7'
    } else if d == 8 {
        '8'
    } else {
        '9'
    }
}

/// The decimal numeral of `n`: most significant digit first, no sign, no
/// leading zero (zero itself is the single digit `0`).
pub open spec fn decimal(n: nat) -> Seq<char>
    decreases n,
{
    if n < 10 {
        seq![digit(n)]
    } else {
        decimal(n / 10).push(digit(n % 10))
    }
}

/// The one-character text of a single decimal digit.
fn digit_text(d: u8) -> (text: &'static str)
    requires
        d < 10,
    ensures
        text@ == seq![digit(d as nat)],
{
    match d {
        0 => {
            proof {
                reveal_strlit("0");
            }
            assert("0"@ =~= seq![digit(0)]);
            "0"
        },
        1 => {
            proof {
                reveal_strlit("1");
            }
            assert("1"@ =~= seq![digit(1)]);
            "1"
        },
        2 => {
            proof {
                reveal_strlit("2");
            }
            assert("2"@ =~= seq![digit(2)]);
            "2"
        },
        3 => {
            proof {
                reveal_strlit("3");
            }
            assert("3"@ =~= seq![digit(3)]);
            "3"
        },
        4 => {
            proof {
                reveal_strlit("4");
            }
            assert("4"@ =~= seq![digit(4)]);
            "4"
        },
        5 => {
            proof {
                reveal_strlit("5");
            }
            assert("5"@ =~= seq![digit(5)]);
            "5"
        },
        6 => {
            proof {
                reveal_strlit("6");
            }
            assert("6"@ =~= seq![digit(6)]);
            "6"
        },
        7 => {
            proof {
                reveal_strlit("7");
            }
            assert("7"@ =~= seq![digit(7)]);
            "7"
        },
        8 => {
            proof {
                reveal_strlit("8");
            }
            assert("8"@ =~= seq![digit(8)]);
            "8"
        },
        _ => {
            proof {
                reveal_strlit("9");
            }
            assert("9"@ =~= seq![digit(9)]);
            "9"
        },
    }
}

/// Renders a count in decimal.
pub fn render_decimal(n: u8) -> (text: String)
    ensures
        text@ == decimal(n as nat),
{
    let mut text = String::new();
    if n >= 100 {
        text.append(digit_text(n / 100));
    }
    if n >= 10 {
        text.append(digit_text((n / 10) % 10));
    }
    text.append(digit_text(n % 10));
    proof {
        reveal_with_fuel(decimal, 3);
        assert(text@ =~= decimal(n as nat));
    }
    text
}

/// An optional text as an optional character sequence.
pub open spec fn optional_view(text: Option<String>) -> Option<Seq<char>> {
    match text {
        Some(text) => Some(text@),
        None => None,
    }
}

/// `path` ends in the separator `/`, which every platform reads as one: it
/// names a place to look in, not a file.
pub open spec fn ends_in_separator(path: Seq<char>) -> bool {
    path.len() > 0 && path.last() == '/'
}

/// Tells whether a path ends in the separator `/`.
pub fn has_trailing_separator(path: &str) -> (out: bool)
    ensures
        out == ends_in_separator(path@),
{
    let length = path.unicode_len();
    length > 0 && path.get_char(length - 1) == '/'
}

/// The final component of `path`, as `std::path::Path::file_name` reads the
/// path on the platform the library is built for; `None` where it finds
/// none, as in a root or in a path that ends in `..`.
pub uninterp spec fn path_file_name(path: Seq<char>) -> Option<Seq<char>>;

/// The quoted and escaped rendering of `path` that `std::path::Path`'s
/// `Debug` implementation writes.
pub uninterp spec fn path_debug_text(path: Seq<char>) -> Seq<char>;

/// Calls `std::path::Path::file_name` on `path` and hands the component back
/// as an owned string. The contract only gives the result its name: the
/// answer is a function of the path's text, and it is `None` exactly when
/// the standard library finds no final component.
#[verifier::external_body]
pub(crate) fn file_name_of(path: &str) -> (name: Option<String>)
    ensures
        name is Some <==> path_file_name(path@) is Some,
        name matches Some(text) ==> path_file_name(path@) == Some(text@),
{
    match std::path::Path::new(path).file_name() {
        Some(name) => Some(name.to_string_lossy().into_owned()),
        None => None,
    }
}

/// Formats `path` with `std::path::Path`'s `Debug` implementation in its
/// alternate form, as error messages cite it. The contract only gives the
/// result its name.
#[verifier::external_body]
pub(crate) fn describe_path(path: &str) -> (text: String)
    ensures
        text@ == path_debug_text(path@),
{
    format!("{:#?}", std::path::Path::new(path))
}

} // verus!
