//! Character-level helpers: hexadecimal and decimal rendering, Unicode
//! whitespace trimming, first-line extraction and character replacement.

use vstd::prelude::*;
use vstd::string::{StrSliceExecFns, StringExecFns};

verus! {

/// Appends one character to a `String` (`String::push`).
///
/// Trusted: the contract states what the standard library documents, that the
/// character is added at the end and nothing else changes.
#[verifier::external_body]
pub(crate) fn push_char(s: &mut String, c: char)
    ensures
        final(s)@ == old(s)@.push(c),
{
    s.push(c)
}

/// The lower-case hexadecimal digit for `d` (`0 <= d < 16`).
pub open spec fn hex_digit(d: int) -> char {
    if d == 0 { '0' }
    else if d == 1 { '1' }
    else if d == 2 { '2' }
    else if d == 3 { '3' }
    else if d == 4 { '4' }
    else if d == 5 { '5' }
    else if d == 6 { '6' }
    else if d == 7 { '7' }
    else if d == 8 { '8' }
    else if d == 9 { '9' }
    else if d == 10 { 'a' }
    else if d == 11 { 'b' }
    else if d == 12 { 'c' }
    else if d == 13 { 'd' }
    else if d == 14 { 'e' }
    else { 'f' }
}

fn digit_char(d: u8) -> (c: char)
    requires
        d < 16,
    ensures
        c == hex_digit(d as int),
{
    if d == 0 { '0' }
    else if d == 1 { '1' }
    else if d == 2 { '2' }
    else if d == 3 { '3' }
    else if d == 4 { '4' }
    else if d == 5 { '5' }
    else if d == 6 { '6' }
    else if d == 7 { '7' }
    else if d == 8 { '8' }
    else if d == 9 { '9' }
    else if d == 10 { 'a' }
    else if d == 11 { 'b' }
    else if d == 12 { 'c' }
    else if d == 13 { 'd' }
    else if d == 14 { 'e' }
    else { 'f' }
}

/// Lower-case hexadecimal rendering of a byte sequence: two digits per byte,
/// high nibble first.
pub open spec fn hex_lower_spec(bytes: Seq<u8>) -> Seq<char>
    decreases bytes.len(),
{
    if bytes.len() == 0 {
        Seq::empty()
    } else {
        let b = bytes.last();
        hex_lower_spec(bytes.drop_last()).push(hex_digit((b / 16) as int)).push(hex_digit((b % 16) as int))
    }
}

/// Whether `c` is a lower-case hexadecimal digit (`0`-`9`, `a`-`f`).
pub open spec fn is_lower_hex_digit(c: char) -> bool {
    ('0' as u32 <= c as u32 <= '9' as u32) || ('a' as u32 <= c as u32 <= 'f' as u32)
}

/// The hexadecimal rendering has two characters per byte, each a
/// lower-case hexadecimal digit.
pub proof fn hex_lower_spec_digits(bytes: Seq<u8>)
    ensures
        hex_lower_spec(bytes).len() == 2 * bytes.len(),
        forall|i: int|
            0 <= i < hex_lower_spec(bytes).len() ==> is_lower_hex_digit(
                #[trigger] hex_lower_spec(bytes)[i],
            ),
    decreases bytes.len(),
{
    if bytes.len() > 0 {
        hex_lower_spec_digits(bytes.drop_last());
        let b = bytes.last();
        let front = hex_lower_spec(bytes.drop_last());
        let whole = hex_lower_spec(bytes);
        assert forall|i: int| 0 <= i < whole.len() implies is_lower_hex_digit(
            #[trigger] whole[i],
        ) by {
            if i < front.len() {
                assert(whole[i] == front[i]);
            }
        }
    }
}

/// Renders `bytes` as lower-case hexadecimal, two digits per byte.
pub fn hex_lower(bytes: &[u8]) -> (res: String)
    ensures
        res@ == hex_lower_spec(bytes@),
        res@.len() == 2 * bytes@.len(),
        forall|i: int| 0 <= i < res@.len() ==> is_lower_hex_digit(#[trigger] res@[i]),
{
    let mut res = String::new();
    let n = bytes.len();
    for i in 0..n
        invariant
            n == bytes@.len(),
            res@ == hex_lower_spec(bytes@.take(i as int)),
            res@.len() == 2 * i,
    {
        let b = bytes[i];
        push_char(&mut res, digit_char(b / 16));
        push_char(&mut res, digit_char(b % 16));
        assert(bytes@.take(i + 1).drop_last() =~= bytes@.take(i as int));
    }
    assert(bytes@.take(n as int) =~= bytes@);
    proof {
        hex_lower_spec_digits(bytes@);
    }
    res
}

/// Decimal digits of a natural number, most significant first.
pub open spec fn decimal_digits(n: nat) -> Seq<char>
    decreases n,
{
    if n < 10 {
        seq![hex_digit(n as int)]
    } else {
        decimal_digits(n / 10).push(hex_digit((n % 10) as int))
    }
}

/// Decimal rendering of an integer, with a leading `-` when it is negative.
pub open spec fn decimal_spec(n: int) -> Seq<char> {
    if n < 0 {
        seq!['-'] + decimal_digits((-n) as nat)
    } else {
        decimal_digits(n as nat)
    }
}

fn push_decimal_digits(s: &mut String, n: u32)
    ensures
        final(s)@ == old(s)@ + decimal_digits(n as nat),
    decreases n,
{
    if n < 10 {
        push_char(s, digit_char(n as u8));
    } else {
        push_decimal_digits(s, n / 10);
        push_char(s, digit_char((n % 10) as u8));
    }
}

/// Renders a signed 32-bit integer in decimal, as `Display` does.
pub fn decimal(n: i32) -> (res: String)
    ensures
        res@ == decimal_spec(n as int),
{
    let mut res = String::new();
    if n < 0 {
        push_char(&mut res, '-');
        let magnitude: u32 = (-(n as i64)) as u32;
        push_decimal_digits(&mut res, magnitude);
    } else {
        push_decimal_digits(&mut res, n as u32);
    }
    res
}


/// Unicode `White_Space`, the characters that `char::is_whitespace` accepts.
pub open spec fn is_white_space(c: char) -> bool {
    let u = c as u32;
    ||| 0x09 <= u <= 0x0d
    ||| u == 0x20
    ||| u == 0x85
    ||| u == 0xa0
    ||| u == 0x1680
    ||| 0x2000 <= u <= 0x200a
    ||| u == 0x2028
    ||| u == 0x2029
    ||| u == 0x202f
    ||| u == 0x205f
    ||| u == 0x3000
}

/// Whether `c` is Unicode whitespace.
pub fn white_space(c: char) -> (res: bool)
    ensures
        res == is_white_space(c),
{
    let u = c as u32;
    (0x09 <= u && u <= 0x0d) || u == 0x20 || u == 0x85 || u == 0xa0 || u == 0x1680 || (0x2000
        <= u && u <= 0x200a) || u == 0x2028 || u == 0x2029 || u == 0x202f || u == 0x205f || u
        == 0x3000
}

/// `s` without its leading whitespace.
pub open spec fn strip_leading(s: Seq<char>) -> Seq<char>
    decreases s.len(),
{
    if s.len() > 0 && is_white_space(s[0]) {
        strip_leading(s.drop_first())
    } else {
        s
    }
}

/// `s` without its trailing whitespace.
pub open spec fn strip_trailing(s: Seq<char>) -> Seq<char>
    decreases s.len(),
{
    if s.len() > 0 && is_white_space(s.last()) {
        strip_trailing(s.drop_last())
    } else {
        s
    }
}

/// `s` without leading and trailing whitespace (`str::trim`).
pub open spec fn trim_spec(s: Seq<char>) -> Seq<char> {
    strip_trailing(strip_leading(s))
}

/// `s` without leading and trailing whitespace.
pub fn trim(s: &str) -> (res: String)
    ensures
        res@ == trim_spec(s@),
{
    let n = s.unicode_len();
    let mut lo: usize = 0;
    assert(s@.subrange(0, n as int) =~= s@);
    while lo < n && white_space(s.get_char(lo))
        invariant
            lo <= n,
            n == s@.len(),
            strip_leading(s@) == strip_leading(s@.subrange(lo as int, n as int)),
        decreases n - lo,
    {
        assert(s@.subrange(lo as int, n as int).drop_first() =~= s@.subrange(lo + 1, n as int));
        lo = lo + 1;
    }
    let ghost rest = s@.subrange(lo as int, n as int);
    assert(strip_leading(s@) == rest);
    let mut hi: usize = n;
    while hi > lo && white_space(s.get_char(hi - 1))
        invariant
            lo <= hi <= n,
            n == s@.len(),
            rest == s@.subrange(lo as int, n as int),
            strip_trailing(rest) == strip_trailing(s@.subrange(lo as int, hi as int)),
        decreases hi,
    {
        assert(s@.subrange(lo as int, hi as int).drop_last() =~= s@.subrange(
            lo as int,
            hi - 1,
        ));
        hi = hi - 1;
    }
    s.substring_char(lo, hi).to_owned()
}

/// The number of characters of `s` before the first `c`, or its length when
/// `c` does not occur.
pub open spec fn count_before(s: Seq<char>, c: char) -> int
    decreases s.len(),
{
    if s.len() == 0 {
        0
    } else if s[0] == c {
        0
    } else {
        1 + count_before(s.drop_first(), c)
    }
}

/// The first line of `s` (`str::lines` then `next`): `None` for the empty
/// text, otherwise the characters before the first line feed.
pub open spec fn first_line_spec(s: Seq<char>) -> Option<Seq<char>> {
    if s.len() == 0 {
        None
    } else {
        Some(s.take(count_before(s, '\n')))
    }
}

/// The first line of `s`, trimmed of whitespace; `None` when `s` is empty.
pub fn first_line_trimmed(s: &str) -> (res: Option<String>)
    ensures
        match res {
            Some(r) => first_line_spec(s@) is Some && r@ == trim_spec(first_line_spec(s@)->0),
            None => first_line_spec(s@) is None,
        },
{
    let n = s.unicode_len();
    if n == 0 {
        return None;
    }
    let mut i: usize = 0;
    assert(s@.subrange(0, n as int) =~= s@);
    while i < n && s.get_char(i) != '\n'
        invariant
            i <= n,
            n == s@.len(),
            count_before(s@, '\n') == i + count_before(s@.subrange(i as int, n as int), '\n'),
        decreases n - i,
    {
        assert(s@.subrange(i as int, n as int).drop_first() =~= s@.subrange(i + 1, n as int));
        i = i + 1;
    }
    let line = s.substring_char(0, i);
    assert(line@ =~= s@.take(count_before(s@, '\n')));
    Some(trim(line))
}

/// `s` with every `-` replaced by `_`.
pub open spec fn hyphens_to_underscores(s: Seq<char>) -> Seq<char> {
    s.map_values(|c: char| if c == '-' { '_' } else { c })
}

/// Replaces every `-` in `s` with `_` (`str::replace('-', "_")`).
pub fn replace_hyphens(s: &str) -> (res: String)
    ensures
        res@ == hyphens_to_underscores(s@),
{
    let n = s.unicode_len();
    let mut res = String::new();
    for i in 0..n
        invariant
            n == s@.len(),
            res@ == hyphens_to_underscores(s@.take(i as int)),
    {
        let c = s.get_char(i);
        push_char(&mut res, if c == '-' { '_' } else { c });
        assert(hyphens_to_underscores(s@.take(i + 1)) =~= hyphens_to_underscores(
            s@.take(i as int),
        ).push(if c == '-' { '_' } else { c }));
    }
    assert(s@.take(n as int) =~= s@);
    res
}

/// The view of a unit result carrying a message on failure.
pub open spec fn unit_result(r: Result<(), String>) -> Result<(), Seq<char>> {
    match r {
        Ok(()) => Ok(()),
        Err(e) => Err(e@),
    }
}

/// `prefix` followed by `detail`.
pub fn prefixed(prefix: &str, detail: &str) -> (res: String)
    ensures
        res@ == prefix@ + detail@,
{
    let mut res = prefix.to_owned();
    res.append(detail);
    res
}

} // verus!
