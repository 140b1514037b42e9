//! Text predicates over the characters of a string.

use vstd::prelude::*;
use vstd::string::*;
use crate::seqs::lemma_filter_push;

verus! {

/// The characters with the Unicode property White_Space.
pub open spec fn is_white_space(c: char) -> bool {
    let n = c as u32;
    ||| 0x09 <= n <= 0x0d
    ||| n == 0x20
    ||| n == 0x85
    ||| n == 0xa0
    ||| n == 0x1680
    ||| 0x2000 <= n <= 0x200a
    ||| n == 0x2028
    ||| n == 0x2029
    ||| n == 0x202f
    ||| n == 0x205f
    ||| n == 0x3000
}

/// A text is blank when it is empty or holds white space only.
pub open spec fn blank(s: Seq<char>) -> bool {
    forall|i: int| 0 <= i < s.len() ==> is_white_space(#[trigger] s[i])
}

/// Whether `needle` stands in `hay` from position `at` on.
pub open spec fn occurs_at(hay: Seq<char>, needle: Seq<char>, at: int) -> bool {
    &&& 0 <= at
    &&& at + needle.len() <= hay.len()
    &&& hay.subrange(at, at + needle.len()) == needle
}

/// Whether `needle` is a contiguous part of `hay`. The empty text is part of
/// every text.
pub open spec fn contains_text(hay: Seq<char>, needle: Seq<char>) -> bool {
    exists|at: int| occurs_at(hay, needle, at)
}

/// Whether `c` is one of the ten digits '0' to '9'.
pub open spec fn is_decimal_digit(c: char) -> bool {
    0x30 <= c as u32 <= 0x39
}

/// The digits of a text, in order, with everything else left out.
pub open spec fn digits_of(s: Seq<char>) -> Seq<char> {
    s.filter(|c: char| is_decimal_digit(c))
}

/// The lower-case form of a text as `str::to_lowercase` gives it.
pub uninterp spec fn lowercase_text(s: Seq<char>) -> Seq<char>;

/// `str::to_lowercase`: the result is a function of the characters alone, and
/// is known here only by its name, `lowercase_text`.
pub assume_specification[ str::to_lowercase ](s: &str) -> (r: String)
    ensures
        r@ == lowercase_text(s@),
;

/// `str::contains` with a string pattern: true exactly when the pattern is a
/// contiguous part of the text.
#[verifier::external_body]
pub(crate) fn str_contains(hay: &str, needle: &str) -> (r: bool)
    ensures
        r == contains_text(hay@, needle@),
{
    hay.contains(needle)
}

pub fn char_is_white_space(c: char) -> (r: bool)
    ensures
        r == is_white_space(c),
{
    let n: u32 = c as u32;
    (0x09 <= n && n <= 0x0d) || n == 0x20 || n == 0x85 || n == 0xa0 || n == 0x1680 || (0x2000 <= n
        && n <= 0x200a) || n == 0x2028 || n == 0x2029 || n == 0x202f || n == 0x205f || n == 0x3000
}

/// Whether a text is empty or holds white space only.
pub fn is_blank(s: &str) -> (r: bool)
    ensures
        r == blank(s@),
{
    let n: usize = s.unicode_len();
    let mut i: usize = 0;
    while i < n
        invariant
            n == s@.len(),
            i <= n,
            forall|j: int| 0 <= j < i ==> is_white_space(#[trigger] s@[j]),
        decreases n - i,
    {
        let c = s.get_char(i);
        if !char_is_white_space(c) {
            return false;
        }
        i += 1;
    }
    true
}

/// The sixteen digits, in order of their value.
pub open spec fn digit_chars() -> Seq<char> {
    "0123456789abcdef"@
}

/// The digit of the value `d`, below sixteen.
pub open spec fn digit_char(d: nat) -> char {
    digit_chars()[d as int]
}

/// A number in decimal digits, without leading zeros.
pub open spec fn decimal_text(n: nat) -> Seq<char>
    decreases n,
{
    if n < 10 {
        seq![digit_char(n)]
    } else {
        decimal_text(n / 10).push(digit_char(n % 10))
    }
}

/// The lowest `width` hexadecimal digits of a number, in lower case.
pub open spec fn hex_text(n: nat, width: nat) -> Seq<char>
    decreases width,
{
    if width == 0 {
        Seq::empty()
    } else {
        hex_text(n / 16, (width - 1) as nat).push(digit_char(n % 16))
    }
}

/// The digit of the value `d` as a text of one character.
pub fn digit_str(d: usize) -> (r: &'static str)
    requires
        d < 16,
    ensures
        r@ == seq![digit_char(d as nat)],
{
    let digits: &'static str = "0123456789abcdef";
    proof {
        reveal_strlit("0123456789abcdef");
    }
    let r = digits.substring_ascii(d, d + 1);
    assert(r@ =~= seq![digits@[d as int]]);
    r
}

/// A number in decimal digits.
pub fn decimal(n: u64) -> (r: String)
    ensures
        r@ == decimal_text(n as nat),
    decreases n,
{
    if n < 10 {
        String::from_str(digit_str(n as usize))
    } else {
        let head = decimal(n / 10);
        let last = digit_str((n % 10) as usize);
        let r = head.concat(last);
        assert(r@ =~= decimal_text((n / 10) as nat).push(digit_char((n % 10) as nat)));
        r
    }
}

/// The lowest `width` hexadecimal digits of a number.
pub fn hex(n: u64, width: u8) -> (r: String)
    ensures
        r@ == hex_text(n as nat, width as nat),
    decreases width,
{
    if width == 0 {
        let r = String::new();
        assert(r@ =~= hex_text(n as nat, 0));
        r
    } else {
        let head = hex(n / 16, width - 1);
        let last = digit_str((n % 16) as usize);
        let r = head.concat(last);
        assert(r@ =~= hex_text((n / 16) as nat, (width - 1) as nat).push(
            digit_char((n % 16) as nat),
        ));
        r
    }
}

/// The number of digits in a text.
pub fn count_digits(s: &str) -> (n: usize)
    ensures
        n == digits_of(s@).len(),
{
    let len: usize = s.unicode_len();
    let ghost test = |c: char| is_decimal_digit(c);
    let mut n: usize = 0;
    let mut i: usize = 0;
    assert(s@.subrange(0, 0).filter(test).len() == 0) by {
        reveal(Seq::filter);
        assert(s@.subrange(0, 0) =~= Seq::<char>::empty());
    }
    while i < len
        invariant
            len == s@.len(),
            i <= len,
            n <= i,
            test == (|c: char| is_decimal_digit(c)),
            n == s@.subrange(0, i as int).filter(test).len(),
        decreases len - i,
    {
        let c = s.get_char(i);
        proof {
            lemma_filter_push(s@.subrange(0, i as int), c, test);
            assert(s@.subrange(0, i + 1) =~= s@.subrange(0, i as int).push(c));
        }
        let code: u32 = c as u32;
        if 0x30 <= code && code <= 0x39 {
            n += 1;
        }
        i += 1;
    }
    assert(s@.subrange(0, len as int) =~= s@);
    n
}

/// Whether a text begins with `prefix`.
pub fn starts_with(s: &str, prefix: &str) -> (r: bool)
    ensures
        r == prefix@.is_prefix_of(s@),
{
    let n: usize = prefix.unicode_len();
    if s.unicode_len() < n {
        return false;
    }
    let mut i: usize = 0;
    while i < n
        invariant
            n == prefix@.len(),
            n <= s@.len(),
            i <= n,
            forall|j: int| 0 <= j < i ==> s@[j] == prefix@[j],
        decreases n - i,
    {
        if s.get_char(i) != prefix.get_char(i) {
            assert(s@.subrange(0, n as int)[i as int] != prefix@[i as int]);
            return false;
        }
        i += 1;
    }
    assert(prefix@ =~= s@.subrange(0, n as int));
    true
}

} // verus!
