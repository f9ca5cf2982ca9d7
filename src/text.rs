//! The pieces a passphrase is built from: capitalised words, decimal numbers
//! and decoration symbols.
use vstd::prelude::*;
use vstd::string::*;

verus! {

/// What `char::to_uppercase` yields for `c`.
pub uninterp spec fn upper_of(c: char) -> Seq<char>;

/// Relies on `char::to_uppercase`: the upper-case mapping of one character,
/// which may be several characters. An ASCII lower-case letter maps to its
/// capital, and a character without a mapping (an ASCII capital among them)
/// to itself.
#[verifier::external_body]
fn uppercase_char(c: char) -> (r: String)
    ensures
        r@ == upper_of(c),
        'a' <= c <= 'z' ==> r@ == seq![((c as u32) - 32) as char],
        'A' <= c <= 'Z' ==> r@ == seq![c],
{
    c.to_uppercase().collect()
}

/// `word` with its first character upper-cased and the rest unchanged.
pub open spec fn capitalized(word: Seq<char>) -> Seq<char> {
    if word.len() == 0 {
        word
    } else {
        upper_of(word[0]) + word.drop_first()
    }
}

/// Upper-cases the first character of `word` and keeps the others as they
/// are. An empty word stays empty, and so does a word that starts with an
/// ASCII capital.
pub fn capitalize(word: &str) -> (r: String)
    ensures
        r@ == capitalized(word@),
        word@.len() > 0 && 'a' <= word@[0] <= 'z' ==> r@ == seq![((word@[0] as u32) - 32) as char]
            + word@.drop_first(),
        word@.len() > 0 && 'A' <= word@[0] <= 'Z' ==> r@ == word@,
{
    let n = word.unicode_len();
    if n == 0 {
        return String::from_str(word);
    }
    let first = word.get_char(0);
    let rest = word.substring_char(1, n);
    let mut r = uppercase_char(first);
    r.append(rest);
    assert(rest@ =~= word@.drop_first());
    assert(word@.len() > 0 && 'A' <= word@[0] <= 'Z' ==> r@ =~= word@);
    r
}

/// The character of the decimal digit `d`.
pub open spec fn digit_char(d: nat) -> char {
    if d == 0 {
        '0'
    } else if d == 1 {
        '1'
    } else if d == 2 {
        '2'
    } else if d == 3 {
        '3'
    } else if d == 4 {
        '4'
    } else if d == 5 {
        '5'
    } else if d == 6 {
        '6'
    } else if d == 7 {
        '7'
    } else if d == 8 {
        '8'
    } else {
        '9'
    }
}

/// The decimal notation of `n`, without leading zeros.
pub open spec fn decimal_text(n: nat) -> Seq<char>
    decreases n,
{
    if n < 10 {
        seq![digit_char(n)]
    } else {
        decimal_text(n / 10) + seq![digit_char(n % 10)]
    }
}

fn digit_str(d: u32) -> (r: &'static str)
    requires
        d < 10,
    ensures
        r@ == seq![digit_char(d as nat)],
{
    proof {
        reveal_strlit("0");
        reveal_strlit("1");
        reveal_strlit("2");
        reveal_strlit("3");
        reveal_strlit("4");
        reveal_strlit("5");
        reveal_strlit("6");
        reveal_strlit("7");
        reveal_strlit("8");
        reveal_strlit("9");
    }
    let r = if d == 0 {
        "0"
    } else if d == 1 {
        "1"
    } else if d == 2 {
        "2"
    } else if d == 3 {
        "3"
    } else if d == 4 {
        "4"
    } else if d == 5 {
        "5"
    } else if d == 6 {
        "6"
    } else if d == 7 {
        "7"
    } else if d == 8 {
        "8"
    } else {
        "9"
    };
    assert(r@ =~= seq![digit_char(d as nat)]);
    r
}

/// Writes `n` in decimal.
pub fn decimal(n: u32) -> (r: String)
    ensures
        r@ == decimal_text(n as nat),
    decreases n,
{
    let d = digit_str(n % 10);
    if n < 10 {
        String::from_str(d)
    } else {
        let mut r = decimal(n / 10);
        r.append(d);
        r
    }
}

/// The number of decoration symbols.
pub const SYMBOL_COUNT: usize = 6;

/// The decoration symbol with index `i`: `!`, `@`, `#`, `$`, `&`, `/`.
pub open spec fn symbol_char(i: nat) -> char {
    if i == 0 {
        '!'
    } else if i == 1 {
        '@'
    } else if i == 2 {
        '#'
    } else if i == 3 {
        '$'
    } else if i == 4 {
        '&'
    } else {
        '/'
    }
}

/// The decoration symbol with index `i`, as text.
pub fn symbol(i: usize) -> (r: &'static str)
    requires
        i < SYMBOL_COUNT,
    ensures
        r@ == seq![symbol_char(i as nat)],
{
    proof {
        reveal_strlit("!");
        reveal_strlit("@");
        reveal_strlit("#");
        reveal_strlit("$");
        reveal_strlit("&");
        reveal_strlit("/");
    }
    let r = if i == 0 {
        "!"
    } else if i == 1 {
        "@"
    } else if i == 2 {
        "#"
    } else if i == 3 {
        "$"
    } else if i == 4 {
        "&"
    } else {
        "/"
    };
    assert(r@ =~= seq![symbol_char(i as nat)]);
    r
}

} // verus!
