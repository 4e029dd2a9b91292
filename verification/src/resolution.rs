use vstd::prelude::*;

use crate::error::VideoExportError;

verus! {

broadcast use vstd::string::group_string_axioms;

/// An ASCII decimal digit.
pub open spec fn is_digit(c: char) -> bool {
    '0' <= c && c <= '9'
}

/// The numeric value of a decimal digit.
pub open spec fn digit_value(c: char) -> nat {
    (c as int - '0' as int) as nat
}

/// Every character of `s` is a decimal digit.
pub open spec fn all_digits(s: Seq<char>) -> bool {
    forall|i: int| 0 <= i < s.len() ==> is_digit(#[trigger] s[i])
}

/// The number that a string of decimal digits denotes, most significant first.
pub open spec fn digits_value(s: Seq<char>) -> nat
    decreases s.len(),
{
    if s.len() == 0 {
        0
    } else {
        digits_value(s.drop_last()) * 10 + digit_value(s.last())
    }
}

/// The digits of an unsigned decimal number: one leading `+` is allowed.
pub open spec fn unsigned_digits(s: Seq<char>) -> Seq<char> {
    if s.len() > 0 && s[0] == '+' {
        s.drop_first()
    } else {
        s
    }
}

/// The `u32` that a text denotes when read as an unsigned decimal number:
/// an optional `+`, then one or more decimal digits, of value at most `u32::MAX`.
pub open spec fn u32_of_text(s: Seq<char>) -> Option<u32> {
    let d = unsigned_digits(s);
    if d.len() > 0 && all_digits(d) && digits_value(d) <= u32::MAX {
        Some(digits_value(d) as u32)
    } else {
        None
    }
}

/// A prefix of a string of digits denotes no more than the whole.
proof fn lemma_digits_value_prefix(s: Seq<char>, k: int)
    requires
        all_digits(s),
        0 <= k <= s.len(),
    ensures
        digits_value(s.take(k)) <= digits_value(s),
    decreases s.len(),
{
    if k < s.len() {
        let t = s.drop_last();
        assert(t.take(k) =~= s.take(k));
        assert(all_digits(t)) by {
            assert forall|i: int| 0 <= i < t.len() implies is_digit(#[trigger] t[i]) by {
                assert(t[i] == s[i]);
            }
        }
        lemma_digits_value_prefix(t, k);
    } else {
        assert(s.take(k) =~= s);
    }
}

/// Reads `chars[start..end]` as an unsigned decimal `u32`.
fn parse_u32_range(chars: &Vec<char>, start: usize, end: usize) -> (r: Option<u32>)
    requires
        start <= end <= chars.len(),
    ensures
        r == u32_of_text(chars@.subrange(start as int, end as int)),
{
    let ghost text = chars@.subrange(start as int, end as int);
    let mut i = start;
    if i < end && chars[i] == '+' {
        i = i + 1;
        assert(text.drop_first() =~= chars@.subrange(i as int, end as int));
    } else {
        assert(text =~= chars@.subrange(i as int, end as int));
    }
    let first = i;
    let ghost d = chars@.subrange(first as int, end as int);
    assert(d == unsigned_digits(text));
    if i == end {
        return None;
    }
    let mut value: u64 = 0;
    assert(chars@.subrange(first as int, first as int) =~= Seq::<char>::empty());
    while i < end
        invariant
            first <= i <= end <= chars.len(),
            text == chars@.subrange(start as int, end as int),
            d == chars@.subrange(first as int, end as int),
            d == unsigned_digits(text),
            d.len() > 0,
            all_digits(chars@.subrange(first as int, i as int)),
            value == digits_value(chars@.subrange(first as int, i as int)),
            value <= u32::MAX,
        decreases end - i,
    {
        let c = chars[i];
        assert(d[i - first] == c);
        if !('0' <= c && c <= '9') {
            assert(!is_digit(d[i - first]));
            return None;
        }
        let ghost prev = chars@.subrange(first as int, i as int);
        let ghost next = chars@.subrange(first as int, i + 1);
        assert(next.drop_last() =~= prev);
        assert(next.last() == c);
        let digit = (c as u32 - '0' as u32) as u64;
        value = value * 10 + digit;
        assert(all_digits(next)) by {
            assert forall|j: int| 0 <= j < next.len() implies is_digit(#[trigger] next[j]) by {
                if j < prev.len() {
                    assert(next[j] == prev[j]);
                }
            }
        }
        if value > 0xffff_ffffu64 {
            proof {
                assert(next =~= d.take(i + 1 - first));
                if all_digits(d) {
                    lemma_digits_value_prefix(d, i + 1 - first);
                }
            }
            return None;
        }
        i = i + 1;
    }
    assert(chars@.subrange(first as int, i as int) =~= d);
    Some(value as u32)
}

/// The characters of `s`, in order.
fn chars_of(s: &str) -> (v: Vec<char>)
    ensures
        v@ == s@,
{
    let mut v: Vec<char> = Vec::new();
    for c in it: s.chars()
        invariant
            v@ == it.seq().take(it.index()),
    {
        proof {
            assert(it.seq().take(it.index() + 1) =~= it.seq().take(it.index()).push(c));
        }
        v.push(c);
    }
    assert(v@ =~= s@);
    v
}

/// `s[i]` is the one and only `x` of `s`.
pub open spec fn is_sole_separator(s: Seq<char>, i: int) -> bool {
    &&& 0 <= i < s.len()
    &&& s[i] == 'x'
    &&& forall|j: int| 0 <= j < s.len() && j != i ==> s[j] != 'x'
}

/// The `(width, height)` that a text such as `1920x1080` denotes: the text holds
/// exactly one `x`, and the parts before and after it are both unsigned decimal `u32`s.
pub open spec fn resolution_of_text(s: Seq<char>) -> Option<(u32, u32)> {
    if exists|i: int| is_sole_separator(s, i) {
        let i = choose|i: int| is_sole_separator(s, i);
        match (u32_of_text(s.take(i)), u32_of_text(s.skip(i + 1))) {
            (Some(w), Some(h)) => Some((w, h)),
            _ => None,
        }
    } else {
        None
    }
}

/// Parse a resolution text like `"1920x1080"` into `(width, height)`.
///
/// The text is split at `x`; there must be exactly two parts, and each is read
/// as a `u32` (an optional `+` and decimal digits). Anything else is
/// `InvalidResolution` holding the input text.
pub fn parse_resolution(s: &str) -> (r: Result<(u32, u32), VideoExportError>)
    ensures
        match r {
            Ok((w, h)) => resolution_of_text(s@) == Some((w, h)),
            Err(e) => {
                &&& resolution_of_text(s@) is None
                &&& e matches VideoExportError::InvalidResolution(t)
                &&& t@ == s@
            },
        },
{
    let chars = chars_of(s);
    let n = chars.len();
    let mut i: usize = 0;
    while i < n && chars[i] != 'x'
        invariant
            i <= n == chars.len(),
            forall|j: int| 0 <= j < i ==> chars@[j] != 'x',
        decreases n - i,
    {
        i = i + 1;
    }
    if i == n {
        proof {
            assert forall|k: int| !is_sole_separator(s@, k) by {
                if 0 <= k < s@.len() {
                    assert(chars@[k] != 'x');
                }
            }
        }
        return Err(VideoExportError::InvalidResolution(s.to_owned()));
    }
    let sep = i;
    let mut j: usize = sep + 1;
    while j < n
        invariant
            sep < j <= n == chars.len(),
            chars@ == s@,
            chars@[sep as int] == 'x',
            forall|k: int| 0 <= k < sep ==> chars@[k] != 'x',
            forall|k: int| sep < k < j ==> chars@[k] != 'x',
        decreases n - j,
    {
        if chars[j] == 'x' {
            proof {
                assert forall|k: int| !is_sole_separator(s@, k) by {
                    if is_sole_separator(s@, k) {
                        if k == sep {
                            assert(s@[j as int] == 'x');
                        } else {
                            assert(s@[sep as int] == 'x');
                        }
                    }
                }
            }
            return Err(VideoExportError::InvalidResolution(s.to_owned()));
        }
        j = j + 1;
    }
    proof {
        assert(is_sole_separator(s@, sep as int));
        let c = choose|k: int| is_sole_separator(s@, k);
        assert(c == sep as int) by {
            if c != sep as int {
                assert(s@[sep as int] == 'x');
            }
        }
        assert(s@.take(sep as int) =~= chars@.subrange(0, sep as int));
        assert(s@.skip(sep + 1) =~= chars@.subrange(sep + 1, n as int));
    }
    let width = parse_u32_range(&chars, 0, sep);
    let height = parse_u32_range(&chars, sep + 1, n);
    match (width, height) {
        (Some(w), Some(h)) => Ok((w, h)),
        _ => Err(VideoExportError::InvalidResolution(s.to_owned())),
    }
}

/// The character of the decimal digit `d` (for `d < 10`).
pub open spec fn digit_char(d: nat) -> char {
    ('0' as int + d) as char
}

/// The decimal text of `n`, without sign or leading zeros, as `to_string` writes it.
pub open spec fn decimal_text(n: nat) -> Seq<char>
    decreases n,
{
    if n < 10 {
        seq![digit_char(n)]
    } else {
        decimal_text(n / 10).push(digit_char(n % 10))
    }
}

/// The text `WIDTHxHEIGHT`, both numbers in decimal.
pub open spec fn resolution_text(width: u32, height: u32) -> Seq<char> {
    decimal_text(width as nat) + seq!['x'] + decimal_text(height as nat)
}

/// The decimal text of `n` is a non-empty run of digits that denotes `n`.
pub proof fn lemma_decimal_text(n: nat)
    ensures
        decimal_text(n).len() > 0,
        all_digits(decimal_text(n)),
        digits_value(decimal_text(n)) == n,
    decreases n,
{
    let t = decimal_text(n);
    if n < 10 {
        assert(t.drop_last() =~= Seq::<char>::empty());
        assert(digits_value(t.drop_last()) == 0);
        assert(digit_value(digit_char(n)) == n);
        assert(t.last() == digit_char(n));
    } else {
        lemma_decimal_text(n / 10);
        let p = decimal_text(n / 10);
        assert(t.drop_last() =~= p);
        assert(digit_value(digit_char(n % 10)) == n % 10);
        assert(t.last() == digit_char(n % 10));
        assert(digits_value(t) == digits_value(p) * 10 + digit_value(t.last()));
        assert((n / 10) * 10 + n % 10 == n);
        assert(all_digits(t)) by {
            assert forall|i: int| 0 <= i < t.len() implies is_digit(#[trigger] t[i]) by {
                if i < p.len() {
                    assert(t[i] == p[i]);
                }
            }
        }
    }
}

/// The decimal text of a `u32` reads back as that `u32`.
pub proof fn lemma_decimal_text_reads_back(n: u32)
    ensures
        u32_of_text(decimal_text(n as nat)) == Some(n),
{
    lemma_decimal_text(n as nat);
    let t = decimal_text(n as nat);
    assert(is_digit(t[0]));
    assert(unsigned_digits(t) == t);
}

/// Reading the text that `resolution_string` writes gives back the same
/// width and height: the `-s` argument handed to FFmpeg and `parse_resolution`
/// agree on every resolution.
pub proof fn lemma_resolution_round_trip(width: u32, height: u32)
    ensures
        resolution_of_text(resolution_text(width, height)) == Some((width, height)),
{
    let a = decimal_text(width as nat);
    let b = decimal_text(height as nat);
    let s = resolution_text(width, height);
    lemma_decimal_text(width as nat);
    lemma_decimal_text(height as nat);
    lemma_decimal_text_reads_back(width);
    lemma_decimal_text_reads_back(height);
    let i = a.len() as int;
    assert forall|j: int| 0 <= j < s.len() && j != i implies s[j] != 'x' by {
        if j < i {
            assert(s[j] == a[j]);
            assert(is_digit(a[j]));
        } else {
            assert(s[j] == b[j - i - 1]);
            assert(is_digit(b[j - i - 1]));
        }
    }
    assert(is_sole_separator(s, i));
    let c = choose|k: int| is_sole_separator(s, k);
    assert(c == i) by {
        if c != i {
            assert(s[i] == 'x');
        }
    }
    assert(s.take(i) =~= a);
    assert(s.skip(i + 1) =~= b);
}

/// The one-character text of the decimal digit `d`.
fn digit_str(d: u32) -> (s: &'static str)
    requires
        d < 10,
    ensures
        s@ == seq![digit_char(d as nat)],
{
    if d == 0 {
        proof { reveal_strlit("0"); }
        "0"
    } else if d == 1 {
        proof { reveal_strlit("1"); }
        "1"
    } else if d == 2 {
        proof { reveal_strlit("2"); }
        "2"
    } else if d == 3 {
        proof { reveal_strlit("3"); }
        "3"
    } else if d == 4 {
        proof { reveal_strlit("4"); }
        "4"
    } else if d == 5 {
        proof { reveal_strlit("5"); }
        "5"
    } else if d == 6 {
        proof { reveal_strlit("6"); }
        "6"
    } else if d == 7 {
        proof { reveal_strlit("7"); }
        "7"
    } else if d == 8 {
        proof { reveal_strlit("8"); }
        "8"
    } else {
        proof { reveal_strlit("9"); }
        "9"
    }
}

/// Appends the decimal text of `n` to `out`.
fn append_decimal(out: &mut String, n: u32)
    ensures
        final(out)@ == old(out)@ + decimal_text(n as nat),
    decreases n,
{
    if n >= 10 {
        append_decimal(out, n / 10);
    }
    out.append(digit_str(n % 10));
    proof {
        if n >= 10 {
            assert(decimal_text((n / 10) as nat) == decimal_text(n as nat / 10));
        }
        assert(final(out)@ =~= old(out)@ + decimal_text(n as nat));
    }
}

/// The decimal text of `n`, as `n.to_string()` writes it.
pub fn decimal_string(n: u32) -> (r: String)
    ensures
        r@ == decimal_text(n as nat),
{
    let mut out = String::new();
    append_decimal(&mut out, n);
    assert(out@ =~= decimal_text(n as nat));
    out
}

/// The text `WIDTHxHEIGHT` that names a frame size, as
/// `format!("{}x{}", width, height)` writes it.
pub fn resolution_string(width: u32, height: u32) -> (r: String)
    ensures
        r@ == resolution_text(width, height),
{
    let mut out = String::new();
    append_decimal(&mut out, width);
    proof { reveal_strlit("x"); }
    out.append("x");
    append_decimal(&mut out, height);
    assert(out@ =~= resolution_text(width, height));
    out
}

} // verus!
