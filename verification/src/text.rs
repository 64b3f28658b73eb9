//! Strings as sequences of characters: searching, cutting, joining and
//! decimal numbers.

use vstd::prelude::*;

verus! {

/// `String::push` appends one character.
pub assume_specification[ String::push ](s: &mut String, c: char)
    ensures
        final(s)@ == old(s)@.push(c),
;

/// The position of the first `c` in `s`, or the length of `s` where there is none.
pub open spec fn index_of(s: Seq<char>, c: char) -> int
    decreases s.len(),
{
    if s.len() == 0 {
        0
    } else if s[0] == c {
        0
    } else {
        1 + index_of(s.skip(1), c)
    }
}

/// What `index_of` finds is the first occurrence, and it finds one exactly when there is one.
pub proof fn lemma_index_of(s: Seq<char>, c: char)
    ensures
        0 <= index_of(s, c) <= s.len(),
        forall|j: int| 0 <= j < index_of(s, c) ==> s[j] != c,
        index_of(s, c) < s.len() ==> s[index_of(s, c)] == c,
        (index_of(s, c) < s.len()) == s.contains(c),
    decreases s.len(),
{
    if s.len() == 0 {
    } else if s[0] == c {
        assert(s.contains(c));
    } else {
        let t = s.skip(1);
        lemma_index_of(t, c);
        let k = index_of(t, c);
        assert forall|j: int| 0 <= j < 1 + k implies s[j] != c by {
            if j > 0 {
                assert(t[j - 1] == s[j]);
            }
        }
        if k < t.len() {
            assert(t[k] == s[k + 1]);
            assert(s.contains(c));
        } else {
            if s.contains(c) {
                let i = choose|i: int| 0 <= i < s.len() && s[i] == c;
                assert(t[i - 1] == c);
                assert(t.contains(c));
            }
        }
    }
}

/// Where the first `i` characters hold no `c`, the search goes on behind them.
pub proof fn lemma_index_of_skip(s: Seq<char>, c: char, i: int)
    requires
        0 <= i <= s.len(),
        forall|j: int| 0 <= j < i ==> s[j] != c,
    ensures
        index_of(s, c) == i + index_of(s.skip(i), c),
    decreases i,
{
    if i == 0 {
        assert(s.skip(0) =~= s);
    } else {
        lemma_index_of_skip(s.skip(1), c, i - 1);
        assert(s.skip(1).skip(i - 1) =~= s.skip(i));
    }
}

/// A text that holds `c` still holds it with another text in front or behind.
pub proof fn lemma_contains_concat(a: Seq<char>, b: Seq<char>, c: char)
    ensures
        (a + b).contains(c) == (a.contains(c) || b.contains(c)),
{
    if a.contains(c) {
        let i = choose|i: int| 0 <= i < a.len() && a[i] == c;
        assert((a + b)[i] == c);
    }
    if b.contains(c) {
        let i = choose|i: int| 0 <= i < b.len() && b[i] == c;
        assert((a + b)[a.len() + i] == c);
    }
    if (a + b).contains(c) {
        let i = choose|i: int| 0 <= i < (a + b).len() && (a + b)[i] == c;
        if i < a.len() {
            assert(a[i] == c);
        } else {
            assert(b[i - a.len()] == c);
        }
    }
}

/// The first `c` of two texts in a row is the first `c` of the first text,
/// or, where that holds none, the first `c` of the second.
pub proof fn lemma_index_of_concat(a: Seq<char>, b: Seq<char>, c: char)
    ensures
        a.contains(c) ==> index_of(a + b, c) == index_of(a, c),
        !a.contains(c) ==> index_of(a + b, c) == a.len() + index_of(b, c),
{
    lemma_index_of(a, c);
    let k = index_of(a, c);
    if a.contains(c) {
        assert forall|j: int| 0 <= j < k implies (a + b)[j] != c by {
            assert((a + b)[j] == a[j]);
        }
        lemma_index_of_skip(a + b, c, k);
        assert((a + b).skip(k)[0] == a[k]);
    } else {
        assert forall|j: int| 0 <= j < a.len() implies (a + b)[j] != c by {
            assert((a + b)[j] == a[j]);
        }
        lemma_index_of_skip(a + b, c, a.len() as int);
        assert((a + b).skip(a.len() as int) =~= b);
    }
}

/// A text is what stands in front of its first `c`, the `c`, and what
/// stands behind it.
pub proof fn lemma_before_and_after(s: Seq<char>, c: char)
    requires
        s.contains(c),
    ensures
        s == before(s, c) + seq![c] + after(s, c),
        !before(s, c).contains(c),
{
    lemma_index_of(s, c);
    assert(s =~= before(s, c) + seq![c] + after(s, c));
    if before(s, c).contains(c) {
        let i = choose|i: int| 0 <= i < before(s, c).len() && before(s, c)[i] == c;
        assert(s[i] == c);
    }
}

/// The position of the first `c` in `s`, or the number of characters of `s`.
pub fn find_char(s: &str, c: char) -> (r: usize)
    ensures
        r == index_of(s@, c),
        r <= s@.len(),
{
    let n = s.unicode_len();
    let mut i: usize = 0;
    while i < n
        invariant
            n == s@.len(),
            i <= n,
            forall|j: int| 0 <= j < i ==> s@[j] != c,
        decreases n - i,
    {
        if s.get_char(i) == c {
            proof {
                lemma_index_of_skip(s@, c, i as int);
            }
            return i;
        }
        i += 1;
    }
    proof {
        lemma_index_of_skip(s@, c, n as int);
    }
    n
}

/// Whether `c` occurs in `s`.
pub fn contains_char(s: &str, c: char) -> (r: bool)
    ensures
        r == s@.contains(c),
{
    let n = s.unicode_len();
    let i = find_char(s, c);
    proof {
        lemma_index_of(s@, c);
    }
    i < n
}

/// Whether the two strings hold the same characters.
pub fn str_eq(a: &str, b: &str) -> (r: bool)
    ensures
        r == (a@ == b@),
{
    let n = a.unicode_len();
    if b.unicode_len() != n {
        return false;
    }
    let mut i: usize = 0;
    while i < n
        invariant
            n == a@.len(),
            n == b@.len(),
            i <= n,
            forall|j: int| 0 <= j < i ==> a@[j] == b@[j],
        decreases n - i,
    {
        if a.get_char(i) != b.get_char(i) {
            return false;
        }
        i += 1;
    }
    assert(a@ =~= b@);
    true
}

/// Whether `s` begins with `p`.
pub fn starts_with(s: &str, p: &str) -> (r: bool)
    ensures
        r == p@.is_prefix_of(s@),
{
    let n = s.unicode_len();
    let m = p.unicode_len();
    if m > n {
        return false;
    }
    let mut i: usize = 0;
    while i < m
        invariant
            n == s@.len(),
            m == p@.len(),
            m <= n,
            i <= m,
            forall|j: int| 0 <= j < i ==> s@[j] == p@[j],
        decreases m - i,
    {
        if s.get_char(i) != p.get_char(i) {
            assert(s@.subrange(0, m as int)[i as int] != p@[i as int]);
            return false;
        }
        i += 1;
    }
    assert(s@.subrange(0, m as int) =~= p@);
    true
}

/// Whether `s` ends with `p`.
pub fn ends_with(s: &str, p: &str) -> (r: bool)
    ensures
        r == p@.is_suffix_of(s@),
{
    let n = s.unicode_len();
    let m = p.unicode_len();
    if m > n {
        return false;
    }
    let d = n - m;
    let mut i: usize = 0;
    while i < m
        invariant
            n == s@.len(),
            m == p@.len(),
            d == n - m,
            i <= m,
            forall|j: int| 0 <= j < i ==> s@[d + j] == p@[j],
        decreases m - i,
    {
        if s.get_char(d + i) != p.get_char(i) {
            assert(s@.subrange(d as int, n as int)[i as int] != p@[i as int]);
            return false;
        }
        i += 1;
    }
    assert(s@.subrange(d as int, n as int) =~= p@);
    true
}

/// `s` without the prefix `p`, or `s` itself where it does not begin with `p`.
pub open spec fn without_prefix(s: Seq<char>, p: Seq<char>) -> Seq<char> {
    if p.is_prefix_of(s) {
        s.skip(p.len() as int)
    } else {
        s
    }
}

/// `s` without the prefix `p`, or `s` itself where it does not begin with `p`.
pub fn strip_prefix(s: &str, p: &str) -> (r: String)
    ensures
        r@ == without_prefix(s@, p@),
{
    if starts_with(s, p) {
        let n = s.unicode_len();
        let m = p.unicode_len();
        String::from_str(s.substring_char(m, n))
    } else {
        String::from_str(s)
    }
}

/// `s` without the suffix `p`, where it ends with `p`.
pub open spec fn without_suffix(s: Seq<char>, p: Seq<char>) -> Option<Seq<char>> {
    if p.is_suffix_of(s) {
        Some(s.take(s.len() - p.len()))
    } else {
        None
    }
}

/// `s` without the suffix `p`, where it ends with `p`.
pub fn strip_suffix(s: &str, p: &str) -> (r: Option<String>)
    ensures
        r.deep_view() == without_suffix(s@, p@),
{
    if ends_with(s, p) {
        let n = s.unicode_len();
        let m = p.unicode_len();
        Some(String::from_str(s.substring_char(0, n - m)))
    } else {
        None
    }
}

/// The part of `s` in front of the first `c`; all of `s` where there is none.
pub open spec fn before(s: Seq<char>, c: char) -> Seq<char> {
    s.take(index_of(s, c))
}

/// The part of `s` behind the first `c`; empty where there is none.
pub open spec fn after(s: Seq<char>, c: char) -> Seq<char> {
    if index_of(s, c) < s.len() {
        s.skip(index_of(s, c) + 1)
    } else {
        Seq::empty()
    }
}

/// The part of `s` in front of the first `c`.
pub fn take_before(s: &str, c: char) -> (r: String)
    ensures
        r@ == before(s@, c),
{
    let i = find_char(s, c);
    String::from_str(s.substring_char(0, i))
}

/// The part of `s` behind the first `c`.
pub fn take_after(s: &str, c: char) -> (r: String)
    ensures
        r@ == after(s@, c),
{
    let n = s.unicode_len();
    let i = find_char(s, c);
    if i < n {
        String::from_str(s.substring_char(i + 1, n))
    } else {
        String::new()
    }
}

/// `s` with every `from` turned into `to`.
pub open spec fn replaced(s: Seq<char>, from: char, to: char) -> Seq<char> {
    Seq::new(s.len(), |i: int| if s[i] == from { to } else { s[i] })
}

/// `s` with every `from` turned into `to`.
pub fn replace_char(s: &str, from: char, to: char) -> (r: String)
    ensures
        r@ == replaced(s@, from, to),
{
    let n = s.unicode_len();
    let mut out = String::new();
    let mut i: usize = 0;
    while i < n
        invariant
            n == s@.len(),
            i <= n,
            out@ == replaced(s@.take(i as int), from, to),
        decreases n - i,
    {
        let c = s.get_char(i);
        if c == from {
            out.push(to);
        } else {
            out.push(c);
        }
        i += 1;
        assert(out@ =~= replaced(s@.take(i as int), from, to));
    }
    assert(s@.take(n as int) =~= s@);
    out
}

/// `s` with every `c` left out.
pub open spec fn without_char(s: Seq<char>, c: char) -> Seq<char>
    decreases s.len(),
{
    if s.len() == 0 {
        Seq::empty()
    } else if s.last() == c {
        without_char(s.drop_last(), c)
    } else {
        without_char(s.drop_last(), c).push(s.last())
    }
}

/// `s` with every `c` left out.
pub fn remove_char(s: &str, c: char) -> (r: String)
    ensures
        r@ == without_char(s@, c),
{
    let n = s.unicode_len();
    let mut out = String::new();
    let mut i: usize = 0;
    while i < n
        invariant
            n == s@.len(),
            i <= n,
            out@ == without_char(s@.take(i as int), c),
        decreases n - i,
    {
        let x = s.get_char(i);
        assert(s@.take(i + 1).drop_last() =~= s@.take(i as int));
        if x != c {
            out.push(x);
        }
        i += 1;
    }
    assert(s@.take(n as int) =~= s@);
    out
}

/// The parts put one behind the other, with `sep` between each two.
pub open spec fn joined(parts: Seq<Seq<char>>, sep: Seq<char>) -> Seq<char>
    decreases parts.len(),
{
    if parts.len() == 0 {
        Seq::empty()
    } else if parts.len() == 1 {
        parts[0]
    } else {
        joined(parts.drop_last(), sep) + sep + parts.last()
    }
}

/// The parts put one behind the other, with `sep` between each two.
pub fn join(parts: &Vec<String>, sep: &str) -> (r: String)
    ensures
        r@ == joined(parts.deep_view(), sep@),
{
    let mut out = String::new();
    let mut i: usize = 0;
    while i < parts.len()
        invariant
            i <= parts.len(),
            out@ == joined(parts.deep_view().take(i as int), sep@),
        decreases parts.len() - i,
    {
        let ghost prev = parts.deep_view().take(i as int);
        let ghost next = parts.deep_view().take(i + 1);
        assert(next.drop_last() =~= prev);
        assert(next.last() == parts[i as int]@);
        if i > 0 {
            out.append(sep);
        }
        out.append(parts[i].as_str());
        i += 1;
        assert(out@ =~= joined(next, sep@));
    }
    assert(parts.deep_view().take(parts.len() as int) =~= parts.deep_view());
    out
}

/// The character of the digit `d`.
pub open spec fn digit_char(d: int) -> char {
    if d == 0 {
        '0'
    } else if d == 1 {
        '1'
    } else if d == 2 {
        '2'
    } else if d == 3 {
        '3'
    } else if d == 4 {
        '4'
    } else if d == 5 {
        '5'
    } else if d == 6 {
        '6'
    } else if d == 7 {
        '7'
    } else if d == 8 {
        '8'
    } else {
        '9'
    }
}

/// `n` in decimal digits, without leading zeros.
pub open spec fn decimal(n: nat) -> Seq<char>
    decreases n,
{
    if n < 10 {
        seq![digit_char(n as int)]
    } else {
        decimal(n / 10).push(digit_char((n % 10) as int))
    }
}

/// `n` in decimal, with a minus sign in front where it is negative.
pub open spec fn signed_decimal(n: int) -> Seq<char> {
    if n < 0 {
        seq!['-'] + decimal((-n) as nat)
    } else {
        decimal(n as nat)
    }
}

fn push_decimal(out: &mut String, n: u64)
    ensures
        final(out)@ == old(out)@ + decimal(n as nat),
    decreases n,
{
    if n >= 10 {
        push_decimal(out, n / 10);
    }
    let d: u8 = (n % 10) as u8;
    let c: char = (48u8 + d) as char;
    assert(c == digit_char(d as int));
    out.push(c);
    assert(out@ =~= old(out)@ + decimal(n as nat));
}

/// `n` in decimal digits.
pub fn u64_to_decimal(n: u64) -> (r: String)
    ensures
        r@ == decimal(n as nat),
{
    let mut out = String::new();
    push_decimal(&mut out, n);
    assert(out@ =~= decimal(n as nat));
    out
}

/// `n` in decimal, with a minus sign in front where it is negative.
pub fn i64_to_decimal(n: i64) -> (r: String)
    ensures
        r@ == signed_decimal(n as int),
{
    let mut out = String::new();
    if n < 0 {
        out.push('-');
        let m: u64 = if n == i64::MIN {
            9223372036854775808u64
        } else {
            (-n) as u64
        };
        push_decimal(&mut out, m);
    } else {
        push_decimal(&mut out, n as u64);
    }
    assert(out@ =~= signed_decimal(n as int));
    out
}

/// A decimal digit.
pub open spec fn is_digit(c: char) -> bool {
    '0' <= c && c <= '9'
}

/// Every character is a decimal digit.
pub open spec fn all_digits(s: Seq<char>) -> bool {
    forall|i: int| 0 <= i < s.len() ==> is_digit(#[trigger] s[i])
}

/// The number that the decimal digits of `s` write.
pub open spec fn digits_value(s: Seq<char>) -> int
    decreases s.len(),
{
    if s.len() == 0 {
        0
    } else {
        digits_value(s.drop_last()) * 10 + (s.last() as int - '0' as int)
    }
}

/// The digits of a number text: the text without its sign.
pub open spec fn unsigned_part(s: Seq<char>) -> Seq<char> {
    if s.len() > 0 && (s[0] == '-' || s[0] == '+') {
        s.skip(1)
    } else {
        s
    }
}

/// The number that `s` writes: an optional sign and at least one decimal
/// digit, nothing else, and a value that fits in 32 bits.
pub open spec fn parsed_i32(s: Seq<char>) -> Option<i32> {
    let body = unsigned_part(s);
    let value = if s.len() > 0 && s[0] == '-' {
        -digits_value(body)
    } else {
        digits_value(body)
    };
    if body.len() > 0 && all_digits(body) && -2147483648 <= value <= 2147483647 {
        Some(value as i32)
    } else {
        None
    }
}

/// The number that `s` writes.
pub fn parse_i32(s: &str) -> (r: Option<i32>)
    ensures
        r == parsed_i32(s@),
{
    let n = s.unicode_len();
    if n == 0 {
        return None;
    }
    let first = s.get_char(0);
    let negative = first == '-';
    let start: usize = if first == '-' || first == '+' {
        1
    } else {
        0
    };
    if start == n {
        return None;
    }
    let ghost body = unsigned_part(s@);
    assert(body =~= s@.skip(start as int));
    let mut value: i64 = 0;
    let mut too_large = false;
    let mut i: usize = start;
    while i < n
        invariant
            n == s@.len(),
            start <= i <= n,
            body == s@.skip(start as int),
            body == unsigned_part(s@),
            negative == (s@[0] == '-'),
            all_digits(body.take(i - start)),
            0 <= digits_value(body.take(i - start)),
            !too_large ==> value == digits_value(body.take(i - start)) && value <= 2147483648,
            too_large ==> digits_value(body.take(i - start)) > 2147483648,
        decreases n - i,
    {
        let c = s.get_char(i);
        let ghost prefix = body.take(i - start);
        let ghost next = body.take(i - start + 1);
        assert(next.drop_last() =~= prefix);
        assert(next.last() == c);
        if c < '0' || c > '9' {
            assert(!is_digit(body[i - start]));
            return None;
        }
        let d: i64 = (c as u32 - '0' as u32) as i64;
        if !too_large {
            value = value * 10 + d;
            if value > 2147483648 {
                too_large = true;
            }
        }
        i += 1;
        assert(all_digits(next)) by {
            assert forall|j: int| 0 <= j < next.len() implies is_digit(#[trigger] next[j]) by {
                if j < prefix.len() {
                    assert(next[j] == prefix[j]);
                }
            }
        }
    }
    assert(body.take(n - start) =~= body);
    if too_large {
        return None;
    }
    if negative {
        Some((-value) as i32)
    } else if value > 2147483647 {
        None
    } else {
        Some(value as i32)
    }
}

/// `count` spaces.
pub open spec fn spaces(count: nat) -> Seq<char> {
    Seq::new(count, |i: int| ' ')
}

/// `s`, filled up with spaces behind it to `width` characters.
pub open spec fn padded(s: Seq<char>, width: nat) -> Seq<char> {
    if s.len() >= width {
        s
    } else {
        s + spaces((width - s.len()) as nat)
    }
}

/// `s`, filled up with spaces behind it to `width` characters.
pub fn pad_right(s: &str, width: usize) -> (r: String)
    ensures
        r@ == padded(s@, width as nat),
{
    let n = s.unicode_len();
    let mut out = String::from_str(s);
    let mut i: usize = n;
    while i < width
        invariant
            n == s@.len(),
            n <= i,
            i == n || i <= width,
            out@ == s@ + spaces((i - n) as nat),
        decreases width - i,
    {
        out.push(' ');
        i += 1;
        assert(out@ =~= s@ + spaces((i - n) as nat));
    }
    assert(out@ =~= padded(s@, width as nat));
    out
}

} // verus!
