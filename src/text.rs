//! Text helpers: joining paths, rendering numbers, decoding and trimming
//! what a process wrote.
use vstd::prelude::*;
use vstd::string::StringExecFns;
use vstd::utf8::{decode_utf8, valid_utf8};

verus! {

/// A path with a relative path appended, as `Path::join` forms it: no
/// separator is added after an empty path or one that already ends in `/`.
pub open spec fn path_join(base: Seq<char>, rel: Seq<char>) -> Seq<char> {
    if base.len() == 0 {
        rel
    } else if base.last() == '/' {
        base + rel
    } else {
        base + seq!['/'] + rel
    }
}

/// Appends the relative path `rel` to `base`.
pub fn join_path(base: &str, rel: &str) -> (r: String)
    ensures
        r@ == path_join(base@, rel@),
{
    let n = base.unicode_len();
    if n == 0 {
        rel.to_owned()
    } else if base.get_char(n - 1) == '/' {
        base.to_owned().concat(rel)
    } else {
        let sep = "/";
        proof {
            reveal_strlit("/");
        }
        base.to_owned().concat(sep).concat(rel)
    }
}

/// Returns `prefix` followed by `rest`.
pub fn prefixed(prefix: &str, rest: &str) -> (r: String)
    ensures
        r@ == prefix@ + rest@,
{
    prefix.to_owned().concat(rest)
}

/// Returns whether two texts are equal.
pub fn same_text(a: &str, b: &str) -> (r: bool)
    ensures
        r == (a@ == b@),
{
    a.to_owned() == b.to_owned()
}

/// The decimal digit for a value below ten.
pub open spec fn digit(d: nat) -> char {
    ((d + 48) as u8) as char
}

/// The decimal rendering of `n`, without leading zeros.
pub open spec fn decimal(n: nat) -> Seq<char>
    decreases n,
{
    if n < 10 {
        seq![digit(n)]
    } else {
        decimal(n / 10).push(digit(n % 10))
    }
}

/// The text of one decimal digit.
fn digit_text(d: usize) -> (r: &'static str)
    requires
        d < 10,
    ensures
        r@ == seq![digit(d as nat)],
{
    proof {
        reveal_strlit("0");
        reveal_strlit("1");
        reveal_strlit("2");
        reveal_strlit("3");
        reveal_strlit("4");
        reveal_strlit("5");
        reveal_strlit("6");
        reveal_strlit("7");
        reveal_strlit("8");
        reveal_strlit("9");
    }
    match d {
        0 => "0",
        1 => "1",
        2 => "2",
        3 => "3",
        4 => "4",
        5 => "5",
        6 => "6",
        7 => "7",
        8 => "8",
        _ => "9",
    }
}

/// Renders `n` in decimal.
pub fn decimal_text(n: usize) -> (r: String)
    ensures
        r@ == decimal(n as nat),
    decreases n,
{
    if n < 10 {
        digit_text(n).to_owned()
    } else {
        decimal_text(n / 10).concat(digit_text(n % 10))
    }
}

#[verifier::external_type_specification]
#[verifier::external_body]
pub struct ExFromUtf8Error(std::string::FromUtf8Error);

/// Relies on `String::from_utf8`: it accepts exactly the byte strings that
/// are valid UTF-8, and decodes them.
#[verifier::external_body]
pub(crate) fn text_from_utf8(bytes: Vec<u8>) -> (r: Result<String, std::string::FromUtf8Error>)
    ensures
        r is Ok <==> valid_utf8(bytes@),
        r matches Ok(s) ==> s@ == decode_utf8(bytes@),
{
    String::from_utf8(bytes)
}

/// Holds of the characters with the Unicode property White_Space.
pub open spec fn is_white_space(c: char) -> bool {
    let v = c as u32;
    ||| 0x9 <= v <= 0xd
    ||| v == 0x20
    ||| v == 0x85
    ||| v == 0xa0
    ||| v == 0x1680
    ||| 0x2000 <= v <= 0x200a
    ||| v == 0x2028
    ||| v == 0x2029
    ||| v == 0x202f
    ||| v == 0x205f
    ||| v == 0x3000
}

/// The text without its leading whitespace.
pub open spec fn trim_start(s: Seq<char>) -> Seq<char>
    decreases s.len(),
{
    if s.len() > 0 && is_white_space(s[0]) {
        trim_start(s.drop_first())
    } else {
        s
    }
}

/// The text without its trailing whitespace.
pub open spec fn trim_end(s: Seq<char>) -> Seq<char>
    decreases s.len(),
{
    if s.len() > 0 && is_white_space(s.last()) {
        trim_end(s.drop_last())
    } else {
        s
    }
}

/// The text without its leading and trailing whitespace.
pub open spec fn trimmed(s: Seq<char>) -> Seq<char> {
    trim_end(trim_start(s))
}

/// Relies on `str::trim`: it removes the leading and trailing characters
/// that have the Unicode property White_Space.
#[verifier::external_body]
pub(crate) fn trim_text(s: &str) -> (r: String)
    ensures
        r@ == trimmed(s@),
{
    s.trim().to_owned()
}

} // verus!
