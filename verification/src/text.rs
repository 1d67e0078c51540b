//! Character-level helpers shared by the parsers and formatters of the gateway.
//!
//! Every function works on the sequence of Unicode scalar values of a string,
//! which is also the view (`@`) that contracts speak of.

use vstd::prelude::*;

verus! {

/// Appends one character to a `String` (`String::push` of the standard library).
/// Trusted: the new contents are the old ones followed by `c`.
#[verifier::external_body]
fn push_char(s: &mut String, c: char)
    ensures
        final(s)@ == old(s)@.push(c),
{
    s.push(c);
}

/// The characters of `s`, in order.
pub fn chars_of(s: &str) -> (out: Vec<char>)
    ensures
        out@ == s@,
{
    let mut out: Vec<char> = Vec::new();
    for c in it: s.chars()
        invariant
            it.seq() == s@,
            out@ == it.seq().take(it.index() as int),
    {
        out.push(c);
    }
    out
}

/// The string made of the characters `chars[from..to]`.
pub fn string_of_range(chars: &[char], from: usize, to: usize) -> (out: String)
    requires
        from <= to <= chars@.len(),
    ensures
        out@ == chars@.subrange(from as int, to as int),
{
    let mut out = String::new();
    let mut i: usize = from;
    while i < to
        invariant
            from <= i <= to <= chars@.len(),
            out@ == chars@.subrange(from as int, i as int),
        decreases to - i,
    {
        push_char(&mut out, chars[i]);
        i += 1;
    }
    out
}

/// The string made of all of `chars`.
pub fn string_of(chars: &[char]) -> (out: String)
    ensures
        out@ == chars@,
{
    let out = string_of_range(chars, 0, chars.len());
    assert(chars@.subrange(0, chars@.len() as int) == chars@);
    out
}

/// Whether `a[from..from + b.len()]` exists and equals `b`.
pub fn matches_at(a: &[char], from: usize, b: &[char]) -> (r: bool)
    requires
        from <= a@.len(),
    ensures
        r == (from + b@.len() <= a@.len() && a@.subrange(from as int, from + b@.len()) == b@),
{
    if b.len() > a.len() - from {
        return false;
    }
    let mut i: usize = 0;
    while i < b.len()
        invariant
            from + b.len() <= a.len(),
            0 <= i <= b.len(),
            forall|j: int| 0 <= j < i ==> a@[from + j] == b@[j],
        decreases b@.len() - i,
    {
        if a[from + i] != b[i] {
            assert(a@.subrange(from as int, from + b@.len())[i as int] != b@[i as int]);
            return false;
        }
        i += 1;
    }
    assert(a@.subrange(from as int, from + b@.len()) =~= b@);
    true
}

/// Whether the two slices hold the same characters.
pub fn same_chars(a: &[char], b: &[char]) -> (r: bool)
    ensures
        r == (a@ == b@),
{
    if a.len() != b.len() {
        return false;
    }
    let r = matches_at(a, 0, b);
    assert(a@.subrange(0, a@.len() as int) == a@);
    r
}

/// Whether two strings hold the same text.
pub fn same_text(a: &str, b: &str) -> (r: bool)
    ensures
        r == (a@ == b@),
{
    let x = chars_of(a);
    let y = chars_of(b);
    same_chars(x.as_slice(), y.as_slice())
}

/// Whether `s` begins with `prefix`.
pub fn starts_with(s: &[char], prefix: &[char]) -> (r: bool)
    ensures
        r == prefix@.is_prefix_of(s@),
{
    let r = matches_at(s, 0, prefix);
    proof {
        if prefix@.len() <= s@.len() {
            assert(s@.subrange(0, prefix@.len() as int) == s@.take(prefix@.len() as int));
        }
    }
    r
}

/// The index of the first `c` in `s`, or `s.len()` when `s` holds none.
pub open spec fn position(s: Seq<char>, c: char) -> int
    decreases s.len(),
{
    if s.len() == 0 || s[0] == c {
        0
    } else {
        1 + position(s.drop_first(), c)
    }
}

/// `position` is the least index that holds `c`.
pub proof fn lemma_position(s: Seq<char>, c: char)
    ensures
        0 <= position(s, c) <= s.len(),
        forall|j: int| 0 <= j < position(s, c) ==> s[j] != c,
        position(s, c) < s.len() ==> s[position(s, c)] == c,
        position(s, c) == s.len() <==> !s.contains(c),
    decreases s.len(),
{
    if s.len() == 0 || s[0] == c {
    } else {
        let rest = s.drop_first();
        lemma_position(rest, c);
        assert forall|j: int| 0 <= j < position(s, c) implies s[j] != c by {
            if j > 0 {
                assert(s[j] == rest[j - 1]);
            }
        }
        if position(s, c) < s.len() {
            assert(s[position(s, c)] == rest[position(rest, c)]);
        }
        if s.contains(c) {
            let k = choose|k: int| 0 <= k < s.len() && s[k] == c;
            assert(rest[k - 1] == c);
        }
    }
}

/// An index that holds `c` and has no `c` before it is `position`.
pub proof fn lemma_position_is(s: Seq<char>, c: char, i: int)
    requires
        0 <= i <= s.len(),
        forall|j: int| 0 <= j < i ==> s[j] != c,
        i < s.len() ==> s[i] == c,
    ensures
        position(s, c) == i,
{
    lemma_position(s, c);
    let p = position(s, c);
    if p < i {
        assert(s[p] == c);
    }
}

/// The first index of `c` in `s[from..]`, counted from the start of `s`.
pub fn find_from(s: &[char], from: usize, c: char) -> (r: Option<usize>)
    requires
        from <= s@.len(),
    ensures
        match r {
            Some(i) => from <= i < s@.len() && i - from == position(s@.skip(from as int), c),
            None => position(s@.skip(from as int), c) == s@.len() - from,
        },
{
    let mut i: usize = from;
    while i < s.len()
        invariant
            from <= i <= s.len(),
            forall|j: int| from <= j < i ==> s@[j] != c,
        decreases s.len() - i,
    {
        if s[i] == c {
            proof {
                lemma_position_is(s@.skip(from as int), c, i - from);
            }
            return Some(i);
        }
        i += 1;
    }
    proof {
        lemma_position_is(s@.skip(from as int), c, s@.len() - from);
    }
    None
}

/// The first index of `c` in `s`.
pub fn find_char(s: &[char], c: char) -> (r: Option<usize>)
    ensures
        match r {
            Some(i) => i < s@.len() && i == position(s@, c),
            None => position(s@, c) == s@.len(),
        },
{
    assert(s@.skip(0) == s@);
    find_from(s, 0, c)
}

/// Whether `c` occurs in `s`.
pub fn contains_char(s: &[char], c: char) -> (r: bool)
    ensures
        r == s@.contains(c),
{
    proof {
        lemma_position(s@, c);
    }
    find_char(s, c).is_some()
}

/// The pieces of `s` between occurrences of `sep`: always at least one piece,
/// and empty pieces are kept.
pub open spec fn split_on(s: Seq<char>, sep: char) -> Seq<Seq<char>>
    decreases s.len(),
{
    let p = position(s, sep);
    if 0 <= p < s.len() {
        seq![s.take(p)] + split_on(s.skip(p + 1), sep)
    } else {
        seq![s]
    }
}

/// The views of a vector of character vectors.
pub open spec fn views_of(pieces: Seq<Vec<char>>) -> Seq<Seq<char>> {
    Seq::new(pieces.len(), |i: int| pieces[i]@)
}

/// A copy of `s[from..to]`.
pub fn copy_range(s: &[char], from: usize, to: usize) -> (out: Vec<char>)
    requires
        from <= to <= s@.len(),
    ensures
        out@ == s@.subrange(from as int, to as int),
{
    let mut out: Vec<char> = Vec::new();
    let mut i: usize = from;
    while i < to
        invariant
            from <= i <= to <= s.len(),
            out@ == s@.subrange(from as int, i as int),
        decreases to - i,
    {
        out.push(s[i]);
        i += 1;
    }
    out
}

/// Splits `s` at every `sep`.
pub fn split(s: &[char], sep: char) -> (pieces: Vec<Vec<char>>)
    ensures
        views_of(pieces@) == split_on(s@, sep),
{
    let mut pieces: Vec<Vec<char>> = Vec::new();
    let mut start: usize = 0;
    assert(s@.skip(0) == s@);
    loop
        invariant
            start <= s.len(),
            split_on(s@, sep) == views_of(pieces@) + split_on(s@.skip(start as int), sep),
        decreases s.len() - start,
    {
        let ghost before = views_of(pieces@);
        let ghost rest = s@.skip(start as int);
        proof {
            lemma_position(rest, sep);
        }
        match find_from(s, start, sep) {
            Some(i) => {
                pieces.push(copy_range(s, start, i));
                proof {
                    assert(rest.take(i - start) == s@.subrange(start as int, i as int));
                    assert(rest.skip(i - start + 1) == s@.skip(i + 1));
                    assert(views_of(pieces@) == before + seq![rest.take(i - start)]);
                }
                start = i + 1;
            },
            None => {
                pieces.push(copy_range(s, start, s.len()));
                proof {
                    assert(rest == s@.subrange(start as int, s@.len() as int));
                    assert(views_of(pieces@) == before + seq![rest]);
                }
                return pieces;
            },
        }
    }
}

/// Whether `c` has the Unicode property `White_Space`.
pub open spec fn is_whitespace(c: char) -> bool {
    let n = c as u32;
    ||| 0x09 <= n <= 0x0D
    ||| n == 0x20
    ||| n == 0x85
    ||| n == 0xA0
    ||| n == 0x1680
    ||| 0x2000 <= n <= 0x200A
    ||| n == 0x2028
    ||| n == 0x2029
    ||| n == 0x202F
    ||| n == 0x205F
    ||| n == 0x3000
}

/// What a trim removes: one given character, or any whitespace.
pub open spec fn trimmed_away(c: char, only: Option<char>) -> bool {
    match only {
        Some(x) => c == x,
        None => is_whitespace(c),
    }
}

/// `s` without its leading characters that `only` selects.
pub open spec fn trim_start_of(s: Seq<char>, only: Option<char>) -> Seq<char>
    decreases s.len(),
{
    if s.len() > 0 && trimmed_away(s[0], only) {
        trim_start_of(s.drop_first(), only)
    } else {
        s
    }
}

/// `s` without its trailing characters that `only` selects.
pub open spec fn trim_end_of(s: Seq<char>, only: Option<char>) -> Seq<char>
    decreases s.len(),
{
    if s.len() > 0 && trimmed_away(s.last(), only) {
        trim_end_of(s.drop_last(), only)
    } else {
        s
    }
}

/// `s` without leading and trailing whitespace.
pub open spec fn trim_of(s: Seq<char>) -> Seq<char> {
    trim_end_of(trim_start_of(s, None), None)
}

/// `s` without leading and trailing occurrences of `c`.
pub open spec fn trim_matches_of(s: Seq<char>, c: char) -> Seq<char> {
    trim_end_of(trim_start_of(s, Some(c)), Some(c))
}

/// Trimming at the start removes exactly the leading run of selected characters.
pub proof fn lemma_trim_start(s: Seq<char>, only: Option<char>, i: int)
    requires
        0 <= i <= s.len(),
        forall|j: int| 0 <= j < i ==> trimmed_away(s[j], only),
        i < s.len() ==> !trimmed_away(s[i], only),
    ensures
        trim_start_of(s, only) == s.skip(i),
    decreases i,
{
    if i == 0 {
        assert(s.skip(0) == s);
    } else {
        let rest = s.drop_first();
        assert forall|j: int| 0 <= j < i - 1 implies trimmed_away(rest[j], only) by {
            assert(rest[j] == s[j + 1]);
        }
        lemma_trim_start(rest, only, i - 1);
        assert(rest.skip(i - 1) == s.skip(i));
    }
}

/// Trimming at the end removes exactly the trailing run of selected characters.
pub proof fn lemma_trim_end(s: Seq<char>, only: Option<char>, k: int)
    requires
        0 <= k <= s.len(),
        forall|j: int| k <= j < s.len() ==> trimmed_away(s[j], only),
        k > 0 ==> !trimmed_away(s[k - 1], only),
    ensures
        trim_end_of(s, only) == s.take(k),
    decreases s.len() - k,
{
    if k == s.len() {
        assert(s.take(k) == s);
    } else {
        let rest = s.drop_last();
        lemma_trim_end(rest, only, k);
        assert(rest.take(k) == s.take(k));
    }
}

/// Whether a trim removes `c`.
fn is_trimmed_away(c: char, only: Option<char>) -> (r: bool)
    ensures
        r == trimmed_away(c, only),
{
    match only {
        Some(x) => c == x,
        None => {
            let n: u32 = c as u32;
            (0x09 <= n && n <= 0x0D) || n == 0x20 || n == 0x85 || n == 0xA0 || n == 0x1680 || (
            0x2000 <= n && n <= 0x200A) || n == 0x2028 || n == 0x2029 || n == 0x202F || n
                == 0x205F || n == 0x3000
        },
    }
}

/// Removes the selected characters at both ends.
fn trim_with(s: &[char], only: Option<char>) -> (out: Vec<char>)
    ensures
        out@ == trim_end_of(trim_start_of(s@, only), only),
{
    let mut i: usize = 0;
    while i < s.len() && is_trimmed_away(s[i], only)
        invariant
            0 <= i <= s.len(),
            forall|j: int| 0 <= j < i ==> trimmed_away(s@[j], only),
        decreases s.len() - i,
    {
        i += 1;
    }
    let mut k: usize = s.len();
    while k > i && is_trimmed_away(s[k - 1], only)
        invariant
            i <= k <= s.len(),
            forall|j: int| k <= j < s.len() ==> trimmed_away(s@[j], only),
        decreases k,
    {
        k -= 1;
    }
    proof {
        lemma_trim_start(s@, only, i as int);
        let mid = s@.skip(i as int);
        assert forall|j: int| k - i <= j < mid.len() implies trimmed_away(mid[j], only) by {
            assert(mid[j] == s@[j + i]);
        }
        if k > i {
            assert(mid[k - i - 1] == s@[k - 1]);
        }
        lemma_trim_end(mid, only, k - i);
        assert(mid.take(k - i) == s@.subrange(i as int, k as int));
    }
    copy_range(s, i, k)
}

/// Removes leading and trailing whitespace.
pub fn trim(s: &[char]) -> (out: Vec<char>)
    ensures
        out@ == trim_of(s@),
{
    trim_with(s, None)
}

/// Removes every leading and trailing `c`.
pub fn trim_matches(s: &[char], c: char) -> (out: Vec<char>)
    ensures
        out@ == trim_matches_of(s@, c),
{
    trim_with(s, Some(c))
}

/// The sixteen lower-case hexadecimal digits, by value.
pub open spec fn hex_digits() -> Seq<char> {
    seq!['0', '1', '2', '3', '4', '5', '6', '7', '8', '9', 'a', 'b', 'c', 'd', 'e', 'f']
}

/// The digit of `n`, for `n` below sixteen.
pub fn hex_digit(n: u8) -> (c: char)
    requires
        n < 16,
    ensures
        c == hex_digits()[n as int],
{
    match n {
        0 => '0',
        1 => '1',
        2 => '2',
        3 => '3',
        4 => '4',
        5 => '5',
        6 => '6',
        7 => '7',
        8 => '8',
        9 => '9',
        10 => 'a',
        11 => 'b',
        12 => 'c',
        13 => 'd',
        14 => 'e',
        _ => 'f',
    }
}

/// Two lower-case hexadecimal digits per byte, the high half first.
pub open spec fn hex_of(bytes: Seq<u8>) -> Seq<char> {
    Seq::new(
        2 * bytes.len(),
        |i: int|
            if i % 2 == 0 {
                hex_digits()[bytes[i / 2] as int / 16]
            } else {
                hex_digits()[bytes[i / 2] as int % 16]
            },
    )
}

/// Writes bytes in lower-case hexadecimal.
pub fn to_hex(bytes: &[u8]) -> (out: String)
    ensures
        out@ == hex_of(bytes@),
{
    let mut out = String::new();
    let mut i: usize = 0;
    while i < bytes.len()
        invariant
            0 <= i <= bytes.len(),
            out@.len() == 2 * i,
            forall|j: int| 0 <= j < 2 * i ==> out@[j] == hex_of(bytes@)[j],
        decreases bytes.len() - i,
    {
        let b = bytes[i];
        push_char(&mut out, hex_digit(b / 16));
        push_char(&mut out, hex_digit(b % 16));
        i += 1;
    }
    assert(out@ =~= hex_of(bytes@));
    out
}

/// The decimal digits of `n`, without leading zeros.
pub open spec fn digits_of(n: nat) -> Seq<char>
    decreases n,
{
    if n < 10 {
        seq![hex_digits()[n as int]]
    } else {
        digits_of(n / 10).push(hex_digits()[(n % 10) as int])
    }
}

/// The decimal text of an integer: a `-` before the digits of a negative one.
pub open spec fn decimal_of(n: int) -> Seq<char> {
    if n < 0 {
        seq!['-'] + digits_of((-n) as nat)
    } else {
        digits_of(n as nat)
    }
}

/// Appends the decimal digits of `n`.
fn push_digits(out: &mut String, n: u64)
    ensures
        final(out)@ == old(out)@ + digits_of(n as nat),
    decreases n,
{
    if n >= 10 {
        push_digits(out, n / 10);
    }
    push_char(out, hex_digit((n % 10) as u8));
}

/// Writes an integer in decimal.
pub fn to_decimal(n: i64) -> (out: String)
    ensures
        out@ == decimal_of(n as int),
{
    let mut out = String::new();
    if n < 0 {
        push_char(&mut out, '-');
        let magnitude: u64 = (-(n as i128)) as u64;
        push_digits(&mut out, magnitude);
    } else {
        push_digits(&mut out, n as u64);
    }
    out
}

/// Whether `pattern` stands in `s` at the index `i`.
pub open spec fn occurs_at(pattern: Seq<char>, s: Seq<char>, i: int) -> bool {
    0 <= i && i + pattern.len() <= s.len() && s.subrange(i, i + pattern.len()) == pattern
}

/// Whether `pattern` stands somewhere in `s`.
pub open spec fn occurs_in(pattern: Seq<char>, s: Seq<char>) -> bool {
    exists|i: int| occurs_at(pattern, s, i)
}

/// Whether `s` holds `pattern` as a substring.
pub fn contains_text(s: &[char], pattern: &[char]) -> (r: bool)
    ensures
        r == occurs_in(pattern@, s@),
{
    let mut i: usize = 0;
    loop
        invariant
            0 <= i <= s.len(),
            forall|j: int| 0 <= j < i ==> !occurs_at(pattern@, s@, j),
        decreases s.len() - i,
    {
        if matches_at(s, i, pattern) {
            assert(occurs_at(pattern@, s@, i as int));
            return true;
        }
        if i == s.len() {
            return false;
        }
        i += 1;
    }
}

/// Removes every trailing `c`.
pub fn trim_end_matches(s: &[char], c: char) -> (out: Vec<char>)
    ensures
        out@ == trim_end_of(s@, Some(c)),
{
    let mut k: usize = s.len();
    while k > 0 && s[k - 1] == c
        invariant
            0 <= k <= s.len(),
            forall|j: int| k <= j < s.len() ==> s@[j] == c,
        decreases k,
    {
        k -= 1;
    }
    proof {
        lemma_trim_end(s@, Some(c), k as int);
        assert(s@.take(k as int) == s@.subrange(0, k as int));
    }
    copy_range(s, 0, k)
}

/// The texts of a sequence of strings.
pub open spec fn texts_of(strings: Seq<String>) -> Seq<Seq<char>> {
    Seq::new(strings.len(), |i: int| strings[i]@)
}

/// The text of an optional string.
pub open spec fn text_of(s: Option<String>) -> Option<Seq<char>> {
    match s {
        Some(s) => Some(s@),
        None => None,
    }
}

/// The text of a result whose both sides are strings.
pub open spec fn outcome_text(outcome: Result<String, String>) -> Result<Seq<char>, Seq<char>> {
    match outcome {
        Ok(value) => Ok(value@),
        Err(reason) => Err(reason@),
    }
}

} // verus!
