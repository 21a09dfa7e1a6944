//! Text helpers shared by the billing rules: string comparison, decimal
//! rendering and parsing of integers, ASCII case folding and money text.

use vstd::prelude::*;
use vstd::string::*;

verus! {

/// The character of a decimal digit.
pub open spec fn digit_char(d: int) -> char {
    if d == 0 { '0' }
    else if d == 1 { '1' }
    else if d == 2 { '2' }
    else if d == 3 { '3' }
    else if d == 4 { '4' }
    else if d == 5 { '5' }
    else if d == 6 { '6' }
    else if d == 7 { '7' }
    else if d == 8 { '8' }
    else { '9' }
}

/// Whether `c` is one of the ASCII digits `0`..`9`.
pub open spec fn is_digit(c: char) -> bool {
    '0' <= c <= '9'
}

/// The value of an ASCII digit.
pub open spec fn digit_value(c: char) -> int {
    (c as int) - ('0' as int)
}

/// The decimal digits of a natural number, most significant first, without
/// leading zeros (zero itself is `"0"`).
pub open spec fn nat_text(n: nat) -> Seq<char>
    decreases n,
{
    if n < 10 {
        seq![digit_char(n as int)]
    } else {
        nat_text(n / 10).push(digit_char((n % 10) as int))
    }
}

/// The decimal text of an integer: a minus sign before negative values.
pub open spec fn int_text(i: int) -> Seq<char> {
    if i < 0 {
        seq!['-'] + nat_text((-i) as nat)
    } else {
        nat_text(i as nat)
    }
}

/// Whether every character of `s` is an ASCII digit.
pub open spec fn all_digits(s: Seq<char>) -> bool {
    forall|i: int| 0 <= i < s.len() ==> #[trigger] is_digit(s[i])
}

/// The value of a string of digits read in base ten.
pub open spec fn digits_value(s: Seq<char>) -> int
    decreases s.len(),
{
    if s.len() == 0 {
        0
    } else {
        digits_value(s.drop_last()) * 10 + digit_value(s.last())
    }
}

/// What `str::parse::<i64>` gives: an optional `+` or `-` sign, then one or
/// more ASCII digits and nothing else, whose value fits in an `i64`.
pub open spec fn parse_i64_spec(s: Seq<char>) -> Option<i64> {
    let neg = s.len() > 0 && s[0] == '-';
    let body = if s.len() > 0 && (s[0] == '-' || s[0] == '+') { s.drop_first() } else { s };
    let v = if neg { -digits_value(body) } else { digits_value(body) };
    if body.len() == 0 || !all_digits(body) {
        None
    } else if i64::MIN <= v <= i64::MAX {
        Some(v as i64)
    } else {
        None
    }
}

/// What `str::parse::<u32>` gives: an optional `+` sign, then one or more
/// ASCII digits and nothing else, whose value fits in a `u32`.
pub open spec fn parse_u32_spec(s: Seq<char>) -> Option<u32> {
    let body = if s.len() > 0 && s[0] == '+' { s.drop_first() } else { s };
    if body.len() == 0 || !all_digits(body) {
        None
    } else if digits_value(body) <= u32::MAX {
        Some(digits_value(body) as u32)
    } else {
        None
    }
}

/// ASCII lower-casing of one character.
pub open spec fn ascii_lower_char(c: char) -> char {
    if 'A' <= c <= 'Z' {
        ((c as int) + 32) as char
    } else {
        c
    }
}

/// ASCII lower-casing of a string; other characters stay as they are.
pub open spec fn ascii_lower(s: Seq<char>) -> Seq<char> {
    s.map_values(|c: char| ascii_lower_char(c))
}

/// Cents written as dollars with two decimals, as `{:.2}` writes
/// `cents as f64 / 100.0` (for instance `-5` is `"-0.05"`).
pub open spec fn cents_text(cents: int) -> Seq<char> {
    let mag: nat = if cents < 0 { (-cents) as nat } else { cents as nat };
    let sign: Seq<char> = if cents < 0 { seq!['-'] } else { Seq::empty() };
    let frac: nat = mag % 100;
    sign + nat_text(mag / 100) + seq!['.', digit_char((frac / 10) as int), digit_char((frac % 10) as int)]
}

/// Appends one character to a string.
#[verifier::external_body]
pub(crate) fn push_char(s: &mut String, c: char)
    ensures
        final(s)@ == old(s)@.push(c),
{
    s.push(c);
}

/// Whether two strings hold the same characters.
pub fn str_eq(a: &str, b: &str) -> (r: bool)
    ensures
        r == (a@ == b@),
{
    let x = a.to_owned();
    let y = b.to_owned();
    x == y
}

/// Whether `needle` occurs in `hay` at position `i`.
pub open spec fn occurs_at(hay: Seq<char>, needle: Seq<char>, i: int) -> bool {
    0 <= i && i + needle.len() <= hay.len() && hay.subrange(i, i + needle.len()) == needle
}

/// Whether `needle` occurs somewhere in `hay`, as `str::contains` tests.
pub open spec fn contains_seq(hay: Seq<char>, needle: Seq<char>) -> bool {
    exists|i: int| occurs_at(hay, needle, i)
}

/// Whether `needle` occurs in `hay` at position `i`, compared one character at a time.
fn matches_at(hay: &Vec<char>, needle: &Vec<char>, i: usize) -> (r: bool)
    requires
        i + needle.len() <= hay.len(),
    ensures
        r == (hay@.subrange(i as int, i + needle.len()) == needle@),
{
    let mut j: usize = 0;
    while j < needle.len()
        invariant
            i + needle.len() <= hay.len(),
            j <= needle.len(),
            forall|k: int| 0 <= k < j ==> hay@[i + k] == needle@[k],
        decreases needle.len() - j,
    {
        if hay[i + j] != needle[j] {
            assert(hay@.subrange(i as int, i + needle.len())[j as int] != needle@[j as int]);
            return false;
        }
        j = j + 1;
    }
    assert(hay@.subrange(i as int, i + needle.len()) =~= needle@);
    true
}

/// Whether `needle` occurs in `hay`.
pub fn contains_text(hay: &str, needle: &str) -> (r: bool)
    ensures
        r == contains_seq(hay@, needle@),
{
    let h = chars_of(hay);
    let n = chars_of(needle);
    if n.len() == 0 {
        assert(hay@.subrange(0, 0) =~= needle@);
        assert(occurs_at(hay@, needle@, 0));
        return true;
    }
    if n.len() > h.len() {
        assert forall|i: int| !occurs_at(hay@, needle@, i) by {}
        return false;
    }
    let stop: usize = h.len() - n.len() + 1;
    let mut i: usize = 0;
    while i < stop
        invariant
            h@ == hay@,
            n@ == needle@,
            1 <= n.len() <= h.len(),
            stop == h.len() - n.len() + 1,
            i <= stop,
            forall|k: int| 0 <= k < i ==> !occurs_at(hay@, needle@, k),
        decreases stop - i,
    {
        if matches_at(&h, &n, i) {
            assert(occurs_at(hay@, needle@, i as int));
            return true;
        }
        i = i + 1;
    }
    assert(i == stop);
    assert forall|k: int| !occurs_at(hay@, needle@, k) by {
        if 0 <= k && k + needle@.len() <= hay@.len() {
            assert(k < stop);
        }
    }
    false
}

/// The characters of a string, one by one.
pub fn chars_of(s: &str) -> (v: Vec<char>)
    ensures
        v@ == s@,
{
    let n = s.unicode_len();
    let mut v: Vec<char> = Vec::new();
    let mut i: usize = 0;
    while i < n
        invariant
            n == s@.len(),
            i <= n,
            v@ == s@.subrange(0, i as int),
        decreases n - i,
    {
        v.push(s.get_char(i));
        i = i + 1;
        assert(v@ == s@.subrange(0, i as int));
    }
    assert(s@.subrange(0, n as int) == s@);
    v
}

/// Appends the characters of a vector to a string.
pub fn push_all(s: &mut String, v: &Vec<char>)
    ensures
        final(s)@ == old(s)@ + v@,
{
    let mut i: usize = 0;
    while i < v.len()
        invariant
            i <= v.len(),
            s@ == old(s)@ + v@.subrange(0, i as int),
        decreases v.len() - i,
    {
        push_char(s, v[i]);
        i = i + 1;
        assert(s@ == old(s)@ + v@.subrange(0, i as int));
    }
    assert(v@.subrange(0, v.len() as int) == v@);
}

pub proof fn lemma_nat_text_nonempty_digits(n: nat)
    ensures
        nat_text(n).len() > 0,
        all_digits(nat_text(n)),
        digits_value(nat_text(n)) == n,
    decreases n,
{
    if n < 10 {
        let s = nat_text(n);
        assert(s.drop_last() =~= Seq::<char>::empty());
        assert(digits_value(s.drop_last()) == 0);
    } else {
        lemma_nat_text_nonempty_digits(n / 10);
        let s = nat_text(n);
        assert(s.drop_last() =~= nat_text(n / 10));
        assert forall|i: int| 0 <= i < s.len() implies #[trigger] is_digit(s[i]) by {
            if i < s.len() - 1 {
                assert(s[i] == nat_text(n / 10)[i]);
            }
        }
    }
}

/// The digits of a natural number, least significant first.
fn reversed_digits(n: u64) -> (v: Vec<char>)
    ensures
        v@.reverse() == nat_text(n as nat),
    decreases n,
{
    if n < 10 {
        let mut v: Vec<char> = Vec::new();
        v.push(digit_to_char(n));
        assert(v@.reverse() =~= seq![digit_char(n as int)]);
        v
    } else {
        let mut v: Vec<char> = Vec::new();
        v.push(digit_to_char(n % 10));
        let rest = reversed_digits(n / 10);
        let ghost first = v@;
        let mut i: usize = 0;
        while i < rest.len()
            invariant
                i <= rest.len(),
                v@ == first + rest@.subrange(0, i as int),
            decreases rest.len() - i,
        {
            v.push(rest[i]);
            i = i + 1;
            assert(v@ == first + rest@.subrange(0, i as int));
        }
        assert(rest@.subrange(0, rest.len() as int) == rest@);
        assert(v@.reverse() =~= rest@.reverse().push(digit_char((n % 10) as int))) by {
            assert forall|k: int| 0 <= k < v@.len() implies v@.reverse()[k]
                == rest@.reverse().push(digit_char((n % 10) as int))[k] by {
                if k < rest@.len() {
                    assert(v@[v@.len() - 1 - k] == rest@[rest@.len() - 1 - k]);
                }
            }
        }
        v
    }
}

fn digit_to_char(d: u64) -> (c: char)
    requires
        d < 10,
    ensures
        c == digit_char(d as int),
{
    if d == 0 { '0' }
    else if d == 1 { '1' }
    else if d == 2 { '2' }
    else if d == 3 { '3' }
    else if d == 4 { '4' }
    else if d == 5 { '5' }
    else if d == 6 { '6' }
    else if d == 7 { '7' }
    else if d == 8 { '8' }
    else { '9' }
}

/// Writes the decimal digits of `n` at the end of `s`.
pub fn push_nat_text(s: &mut String, n: u64)
    ensures
        final(s)@ == old(s)@ + nat_text(n as nat),
{
    let rev = reversed_digits(n);
    let mut i: usize = rev.len();
    let ghost start = s@;
    while i > 0
        invariant
            i <= rev.len(),
            s@ == start + rev@.reverse().subrange(0, rev.len() - i),
        decreases i,
    {
        i = i - 1;
        push_char(s, rev[i]);
        assert(s@ == start + rev@.reverse().subrange(0, rev.len() - i)) by {
            assert(rev@.reverse()[rev.len() - 1 - i as int] == rev@[i as int]);
            assert(rev@.reverse().subrange(0, rev.len() - i) =~= rev@.reverse().subrange(
                0,
                rev.len() - i - 1,
            ).push(rev@[i as int]));
        }
    }
    assert(rev@.reverse().subrange(0, rev.len() as int) =~= rev@.reverse());
}

/// Writes the decimal text of `x` at the end of `s`.
pub fn push_int_text(s: &mut String, x: i64)
    ensures
        final(s)@ == old(s)@ + int_text(x as int),
{
    if x < 0 {
        push_char(s, '-');
        let mag: u64 = (0i128 - (x as i128)) as u64;
        let ghost mid = s@;
        push_nat_text(s, mag);
        assert(s@ =~= old(s)@ + (seq!['-'] + nat_text(mag as nat)));
    } else {
        push_nat_text(s, x as u64);
    }
}

/// The decimal text of an integer, as `i64::to_string` writes it.
pub fn int_to_text(x: i64) -> (r: String)
    ensures
        r@ == int_text(x as int),
{
    let mut s = String::new();
    push_int_text(&mut s, x);
    assert(s@ =~= int_text(x as int));
    s
}

/// Writes `cents` as dollars with two decimals at the end of `s`.
pub fn push_cents_text(s: &mut String, cents: i64)
    ensures
        final(s)@ == old(s)@ + cents_text(cents as int),
{
    let mag: u64 = if cents < 0 { (0i128 - (cents as i128)) as u64 } else { cents as u64 };
    let ghost start = s@;
    if cents < 0 {
        push_char(s, '-');
    }
    push_nat_text(s, mag / 100);
    push_char(s, '.');
    let frac = mag % 100;
    push_char(s, digit_to_char(frac / 10));
    push_char(s, digit_to_char(frac % 10));
    assert(s@ =~= start + cents_text(cents as int));
}

/// Whether an ASCII character is a digit.
fn char_is_digit(c: char) -> (r: bool)
    ensures
        r == is_digit(c),
{
    '0' <= c && c <= '9'
}

proof fn lemma_digits_value_bounds(s: Seq<char>)
    requires
        all_digits(s),
    ensures
        0 <= digits_value(s),
    decreases s.len(),
{
    if s.len() > 0 {
        assert(all_digits(s.drop_last())) by {
            assert forall|i: int| 0 <= i < s.drop_last().len() implies #[trigger] is_digit(
                s.drop_last()[i],
            ) by {
                assert(s.drop_last()[i] == s[i]);
            }
        }
        lemma_digits_value_bounds(s.drop_last());
        assert(is_digit(s[s.len() - 1]));
    }
}

/// Reads `body[from..]` as decimal digits; `None` when a character is not a
/// digit or the value passes `limit`.
fn read_digits(body: &Vec<char>, from: usize, limit: u64) -> (r: Option<u64>)
    requires
        from <= body.len(),
    ensures
        r matches Some(v) ==> all_digits(body@.subrange(from as int, body.len() as int))
            && v == digits_value(body@.subrange(from as int, body.len() as int)) && v <= limit,
        r is None ==> !all_digits(body@.subrange(from as int, body.len() as int))
            || digits_value(body@.subrange(from as int, body.len() as int)) > limit,
{
    let ghost whole = body@.subrange(from as int, body.len() as int);
    let mut acc: u64 = 0;
    let mut i: usize = from;
    while i < body.len()
        invariant
            from <= i <= body.len(),
            whole == body@.subrange(from as int, body.len() as int),
            all_digits(body@.subrange(from as int, i as int)),
            acc == digits_value(body@.subrange(from as int, i as int)),
            acc <= limit,
        decreases body.len() - i,
    {
        let c = body[i];
        let ghost pre = body@.subrange(from as int, i as int);
        let ghost post = body@.subrange(from as int, i + 1);
        assert(post.drop_last() =~= pre);
        if !char_is_digit(c) {
            assert(whole[i - from] == c);
            return None;
        }
        let d: u64 = ((c as u32) - ('0' as u32)) as u64;
        assert(all_digits(post)) by {
            assert forall|k: int| 0 <= k < post.len() implies #[trigger] is_digit(post[k]) by {
                if k < pre.len() {
                    assert(post[k] == pre[k]);
                }
            }
        }
        let next: u128 = (acc as u128) * 10 + (d as u128);
        if next > limit as u128 {
            proof {
                assert(whole.subrange(0, (i + 1 - from) as int) =~= post);
                lemma_digits_value_prefix(whole, (i + 1 - from) as nat);
            }
            return None;
        }
        acc = next as u64;
        i = i + 1;
    }
    assert(body@.subrange(from as int, i as int) =~= whole);
    Some(acc)
}

proof fn lemma_all_digits_prefix(s: Seq<char>, k: int)
    requires
        all_digits(s),
        0 <= k <= s.len(),
    ensures
        all_digits(s.subrange(0, k)),
{
    assert forall|i: int| 0 <= i < k implies #[trigger] is_digit(s.subrange(0, k)[i]) by {
        assert(s.subrange(0, k)[i] == s[i]);
    }
}

/// A string of digits is worth at least any of its prefixes.
proof fn lemma_digits_value_prefix(s: Seq<char>, k: nat)
    requires
        k <= s.len(),
    ensures
        all_digits(s) ==> digits_value(s) >= digits_value(s.subrange(0, k as int)),
    decreases s.len(),
{
    if all_digits(s) {
        if k == s.len() {
            assert(s.subrange(0, k as int) =~= s);
        } else {
            let t = s.drop_last();
            lemma_all_digits_prefix(s, s.len() - 1);
            assert(t =~= s.subrange(0, s.len() - 1));
            lemma_digits_value_prefix(t, k);
            assert(t.subrange(0, k as int) =~= s.subrange(0, k as int));
            lemma_digits_value_bounds(t);
            assert(is_digit(s[s.len() - 1]));
        }
    }
}

/// Parses a decimal `i64` as `str::parse::<i64>` does.
pub fn parse_i64(s: &str) -> (r: Option<i64>)
    ensures
        r == parse_i64_spec(s@),
{
    let v = chars_of(s);
    parse_i64_chars(&v)
}

/// Parses characters as a decimal `i64`, as `str::parse::<i64>` does.
pub fn parse_i64_chars(v: &Vec<char>) -> (r: Option<i64>)
    ensures
        r == parse_i64_spec(v@),
{
    let signed = v.len() > 0 && (v[0] == '-' || v[0] == '+');
    let neg = v.len() > 0 && v[0] == '-';
    let from: usize = if signed { 1 } else { 0 };
    let ghost body = if signed { v@.drop_first() } else { v@ };
    assert(body =~= v@.subrange(from as int, v.len() as int));
    if from == v.len() {
        return None;
    }
    let limit: u64 = if neg { 9223372036854775808u64 } else { 9223372036854775807u64 };
    match read_digits(v, from, limit) {
        None => None,
        Some(m) => {
            if neg {
                Some((0i128 - (m as i128)) as i64)
            } else {
                Some(m as i64)
            }
        },
    }
}

/// Parses a decimal `u32` as `str::parse::<u32>` does.
pub fn parse_u32(s: &str) -> (r: Option<u32>)
    ensures
        r == parse_u32_spec(s@),
{
    let v = chars_of(s);
    let from: usize = if v.len() > 0 && v[0] == '+' { 1 } else { 0 };
    let ghost body = if s@.len() > 0 && s@[0] == '+' { s@.drop_first() } else { s@ };
    assert(body =~= v@.subrange(from as int, v.len() as int));
    if from == v.len() {
        return None;
    }
    match read_digits(&v, from, 4294967295u64) {
        None => None,
        Some(m) => Some(m as u32),
    }
}

/// The decimal text of an integer reads back as that integer.
pub proof fn lemma_int_text_parses(x: i64)
    ensures
        parse_i64_spec(int_text(x as int)) == Some(x),
{
    let t = int_text(x as int);
    if x < 0 {
        let n: nat = (-(x as int)) as nat;
        lemma_nat_text_nonempty_digits(n);
        assert(t[0] == '-');
        assert(t.drop_first() =~= nat_text(n));
    } else {
        lemma_nat_text_nonempty_digits(x as nat);
        let d = nat_text(x as nat);
        assert(is_digit(d[0]));
    }
}

/// The lower-case hexadecimal digit of a value below 16.
pub open spec fn hex_digit(n: int) -> char {
    if n < 10 {
        ((n + 48) as char)
    } else {
        ((n - 10 + 97) as char)
    }
}

/// Lower-case hexadecimal text of bytes, two digits per byte, high nibble
/// first.
pub open spec fn hex_lower(b: Seq<u8>) -> Seq<char>
    decreases b.len(),
{
    if b.len() == 0 {
        Seq::empty()
    } else {
        hex_lower(b.drop_last()) + seq![hex_digit(b.last() as int / 16), hex_digit(b.last() as int % 16)]
    }
}

/// Hexadecimal text has two digits per byte.
pub proof fn lemma_hex_lower_len(b: Seq<u8>)
    ensures
        hex_lower(b).len() == 2 * b.len(),
    decreases b.len(),
{
    if b.len() > 0 {
        lemma_hex_lower_len(b.drop_last());
    }
}

/// `hex::encode`: lower-case hexadecimal text, two digits per byte.
#[verifier::external_body]
pub(crate) fn hex_encode(bytes: &[u8]) -> (r: String)
    ensures
        r@ == hex_lower(bytes@),
{
    hex::encode(bytes)
}

} // verus!
