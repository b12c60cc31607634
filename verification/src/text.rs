//! Character sequences: trimming, folding, splitting and reading numbers.
use vstd::prelude::*;
use vstd::string::*;

verus! {

/// Whether `c` is white space: the code points that Unicode lists as such.
pub open spec fn is_space(c: char) -> bool {
    let u = c as u32;
    ||| 0x09 <= u <= 0x0d
    ||| u == 0x20
    ||| u == 0x85
    ||| u == 0xa0
    ||| u == 0x1680
    ||| 0x2000 <= u <= 0x200a
    ||| u == 0x2028
    ||| u == 0x2029
    ||| u == 0x202f
    ||| u == 0x205f
    ||| u == 0x3000
}

/// `c` with an upper-case Latin letter replaced by its lower-case one.
pub open spec fn lower(c: char) -> char {
    if 'A' <= c <= 'Z' {
        ((c as u32) + 32) as char
    } else {
        c
    }
}

/// Where the white space that starts at `i` ends.
pub open spec fn skip_spaces(s: Seq<char>, i: int) -> int
    decreases s.len() - i,
{
    if 0 <= i < s.len() && is_space(s[i]) {
        skip_spaces(s, i + 1)
    } else {
        i
    }
}

/// Where the white space that ends at `j` starts.
pub open spec fn back_spaces(s: Seq<char>, j: int) -> int
    decreases j,
{
    if 0 < j <= s.len() && is_space(s[j - 1]) {
        back_spaces(s, j - 1)
    } else {
        j
    }
}

/// `s` without the white space at its two ends.
pub open spec fn trimmed(s: Seq<char>) -> Seq<char> {
    let a = skip_spaces(s, 0);
    let b = back_spaces(s, s.len() as int);
    if a < b {
        s.subrange(a, b)
    } else {
        Seq::empty()
    }
}

/// `s` with every letter in lower case.
pub open spec fn lowered(s: Seq<char>) -> Seq<char> {
    Seq::new(s.len(), |i: int| lower(s[i]))
}

/// `s` without any occurrence of `ch`.
pub open spec fn without(s: Seq<char>, ch: char) -> Seq<char>
    decreases s.len(),
{
    if s.len() == 0 {
        s
    } else if s.last() == ch {
        without(s.drop_last(), ch)
    } else {
        without(s.drop_last(), ch).push(s.last())
    }
}

/// `s` with every line end of two characters, carriage return and line feed,
/// replaced by a line feed alone.
pub open spec fn unix_lines(s: Seq<char>) -> Seq<char>
    decreases s.len(),
{
    if s.len() == 0 {
        s
    } else if s.len() >= 2 && s[s.len() - 2] == '\r' && s.last() == '\n' {
        unix_lines(s.subrange(0, s.len() - 2)).push('\n')
    } else {
        unix_lines(s.drop_last()).push(s.last())
    }
}

/// The pieces of `s` between the occurrences of `sep`: one more piece than
/// there are separators, so never none.
pub open spec fn split(s: Seq<char>, sep: char) -> Seq<Seq<char>>
    decreases s.len(),
{
    if s.len() == 0 {
        seq![Seq::<char>::empty()]
    } else {
        let before = split(s.drop_last(), sep);
        if s.last() == sep {
            before.push(Seq::<char>::empty())
        } else {
            before.update(before.len() - 1, before.last().push(s.last()))
        }
    }
}

/// The rows of characters that `v` holds.
pub open spec fn lines(v: Vec<Vec<char>>) -> Seq<Seq<char>> {
    Seq::new(v@.len(), |i: int| v@[i]@)
}

/// Whether `s` begins with `prefix`.
pub open spec fn starts_with(s: Seq<char>, prefix: Seq<char>) -> bool {
    prefix.len() <= s.len() && s.subrange(0, prefix.len() as int) == prefix
}

/// Whether `s` ends with `suffix`.
pub open spec fn ends_with(s: Seq<char>, suffix: Seq<char>) -> bool {
    suffix.len() <= s.len() && s.subrange(s.len() - suffix.len(), s.len() as int) == suffix
}

/// Whether `c` is a decimal digit.
pub open spec fn is_digit(c: char) -> bool {
    '0' <= c <= '9'
}

/// Whether every character of `s` is a decimal digit.
pub open spec fn all_digits(s: Seq<char>) -> bool {
    forall|i: int| 0 <= i < s.len() ==> is_digit(#[trigger] s[i])
}

/// The number that the decimal digits `s` write.
pub open spec fn digits_value(s: Seq<char>) -> int
    decreases s.len(),
{
    if s.len() == 0 {
        0
    } else {
        digits_value(s.drop_last()) * 10 + ((s.last() as u32) - ('0' as u32))
    }
}

/// Whether `c` is a hexadecimal digit, in either case.
pub open spec fn is_hex_digit(c: char) -> bool {
    ('0' <= c <= '9') || ('a' <= c <= 'f') || ('A' <= c <= 'F')
}

/// The value of a hexadecimal digit.
pub open spec fn hex_digit_value(c: char) -> int {
    if '0' <= c <= '9' {
        (c as u32) - ('0' as u32)
    } else if 'a' <= c <= 'f' {
        (c as u32) - ('a' as u32) + 10
    } else {
        (c as u32) - ('A' as u32) + 10
    }
}

/// Whether every character of `s` is a hexadecimal digit.
pub open spec fn all_hex_digits(s: Seq<char>) -> bool {
    forall|i: int| 0 <= i < s.len() ==> is_hex_digit(#[trigger] s[i])
}

/// The number that the hexadecimal digits `s` write.
pub open spec fn hex_value(s: Seq<char>) -> int
    decreases s.len(),
{
    if s.len() == 0 {
        0
    } else {
        hex_value(s.drop_last()) * 16 + hex_digit_value(s.last())
    }
}

/// The integer that `s` writes: an optional sign, then one digit or more.
/// `None` where `s` is not of that form.
pub open spec fn integer_value(s: Seq<char>) -> Option<int> {
    if s.len() == 0 {
        None
    } else if s[0] == '-' || s[0] == '+' {
        let digits = s.subrange(1, s.len() as int);
        if digits.len() > 0 && all_digits(digits) {
            Some(
                if s[0] == '-' {
                    -digits_value(digits)
                } else {
                    digits_value(digits)
                },
            )
        } else {
            None
        }
    } else if all_digits(s) {
        Some(digits_value(s))
    } else {
        None
    }
}

/// Where the first `.` of `s` stands, or the length of `s` if there is none.
pub open spec fn dot_position(s: Seq<char>, i: int) -> int
    decreases s.len() - i,
{
    if 0 <= i < s.len() && s[i] != '.' {
        dot_position(s, i + 1)
    } else {
        i
    }
}

/// The first six digits of a fraction as a count of millionths; digits
/// beyond the sixth are dropped.
pub open spec fn fraction_micros(frac: Seq<char>) -> int {
    let six = if frac.len() > 6 {
        frac.subrange(0, 6)
    } else {
        frac
    };
    digits_value(six) * pow10(6 - six.len())
}

/// Ten to the power `n`.
pub open spec fn pow10(n: int) -> int
    decreases n,
{
    if n <= 0 {
        1
    } else {
        10 * pow10(n - 1)
    }
}

/// The count of millionths that the unsigned decimal `s` writes: digits, then
/// optionally a point and more digits, with a digit on at least one side of
/// the point. `None` where `s` is not of that form.
pub open spec fn unsigned_micros(s: Seq<char>) -> Option<int> {
    let dot = dot_position(s, 0);
    let whole = s.subrange(0, dot);
    let frac = if dot < s.len() {
        s.subrange(dot + 1, s.len() as int)
    } else {
        Seq::<char>::empty()
    };
    if all_digits(whole) && all_digits(frac) && whole.len() + frac.len() > 0 {
        Some(digits_value(whole) * 1_000_000 + fraction_micros(frac))
    } else {
        None
    }
}

/// The count of millionths that the decimal `s` writes: an optional sign,
/// then an unsigned decimal. `None` where `s` is not of that form. Fraction
/// digits beyond the sixth are dropped.
pub open spec fn decimal_micros(s: Seq<char>) -> Option<int> {
    if s.len() > 0 && (s[0] == '-' || s[0] == '+') {
        match unsigned_micros(s.subrange(1, s.len() as int)) {
            Some(m) => Some(
                if s[0] == '-' {
                    -m
                } else {
                    m
                },
            ),
            None => None,
        }
    } else {
        unsigned_micros(s)
    }
}

/// The count of millionths that `s` writes, where it writes a decimal whose
/// size a `Decimal` can hold.
pub open spec fn bounded_decimal(s: Seq<char>) -> Option<int> {
    match decimal_micros(s) {
        Some(m) => if -MAX_MICROS <= m <= MAX_MICROS {
            Some(m)
        } else {
            None
        },
        None => None,
    }
}

/// The number that `s` writes without a minus sign: an optional `+`, then
/// one digit or more. `None` where `s` is not of that form.
pub open spec fn unsigned_value(s: Seq<char>) -> Option<int> {
    if s.len() > 0 && s[0] == '-' {
        None
    } else {
        integer_value(s)
    }
}

/// A share given as a plain decimal, or as a percentage with a `%` behind
/// it, in millionths. A percentage is divided by a hundred and rounded
/// towards zero. White space around the number and the sign counts for
/// nothing.
pub open spec fn share_micros(s: Seq<char>) -> Option<int> {
    let t = trimmed(s);
    if t.len() > 0 && t.last() == '%' {
        match bounded_decimal(trimmed(t.drop_last())) {
            Some(m) => Some(
                if m >= 0 {
                    m / 100
                } else {
                    -((-m) / 100)
                },
            ),
            None => None,
        }
    } else {
        bounded_decimal(t)
    }
}

/// Appends a character to a text, as the documentation of `String::push`
/// says.
pub assume_specification[ String::push ](s: &mut String, ch: char)
    ensures
        final(s)@ == old(s)@.push(ch),
;

/// The digits of a number, as characters.
pub open spec fn decimal_chars(v: nat) -> Seq<char>
    decreases v,
{
    if v < 10 {
        seq![((48 + v) as u8) as char]
    } else {
        decimal_chars(v / 10).push(((48 + v % 10) as u8) as char)
    }
}

/// Appends the characters of `row` to `s`.
pub fn push_chars(s: &mut String, row: &Vec<char>)
    ensures
        final(s)@ == old(s)@ + row@,
{
    let mut k: usize = 0;
    while k < row.len()
        invariant
            k <= row@.len(),
            s@ == old(s)@ + row@.take(k as int),
        decreases row.len() - k,
    {
        s.push(row[k]);
        k += 1;
        assert(s@ =~= old(s)@ + row@.take(k as int));
    }
    assert(row@.take(row@.len() as int) =~= row@);
}

/// Appends the characters of `word` to `s`.
pub fn push_str(s: &mut String, word: &str)
    ensures
        final(s)@ == old(s)@ + word@,
{
    let chars = to_chars(word);
    push_chars(s, &chars);
}

/// Appends the decimal digits of `v` to `s`.
pub fn push_number(s: &mut String, v: u8)
    ensures
        final(s)@ == old(s)@ + decimal_chars(v as nat),
{
    if v >= 100 {
        s.push((48 + v / 100) as char);
        s.push((48 + v / 10 % 10) as char);
        s.push((48 + v % 10) as char);
        assert(decimal_chars(v as nat) =~= seq![
            ((48 + v / 100) as u8) as char,
            ((48 + v / 10 % 10) as u8) as char,
            ((48 + v % 10) as u8) as char,
        ]) by {
            reveal_with_fuel(decimal_chars, 3);
        }
        assert(s@ =~= old(s)@ + decimal_chars(v as nat));
    } else if v >= 10 {
        s.push((48 + v / 10) as char);
        s.push((48 + v % 10) as char);
        assert(decimal_chars(v as nat) =~= seq![((48 + v / 10) as u8) as char, ((48 + v % 10) as u8) as char])
            by {
            reveal_with_fuel(decimal_chars, 3);
        }
        assert(s@ =~= old(s)@ + decimal_chars(v as nat));
    } else {
        s.push((48 + v) as char);
        assert(s@ =~= old(s)@ + decimal_chars(v as nat));
    }
}

/// Whether `c` is white space.
pub fn is_space_exec(c: char) -> (b: bool)
    ensures
        b == is_space(c),
{
    let u: u32 = c as u32;
    (0x09 <= u && u <= 0x0d) || u == 0x20 || u == 0x85 || u == 0xa0 || u == 0x1680 || (0x2000 <= u
        && u <= 0x200a) || u == 0x2028 || u == 0x2029 || u == 0x202f || u == 0x205f || u == 0x3000
}

/// The characters of `s`.
pub fn to_chars(s: &str) -> (v: Vec<char>)
    ensures
        v@ == s@,
{
    let n: usize = s.unicode_len();
    let mut v: Vec<char> = Vec::new();
    let mut i: usize = 0;
    while i < n
        invariant
            i <= n,
            n == s@.len(),
            v@ == s@.subrange(0, i as int),
        decreases n - i,
    {
        v.push(s.get_char(i));
        i += 1;
        assert(v@ == s@.subrange(0, i as int));
    }
    assert(s@.subrange(0, n as int) == s@);
    v
}

/// The characters of `v` from `from` up to `to`.
pub fn slice(v: &Vec<char>, from: usize, to: usize) -> (r: Vec<char>)
    requires
        from <= to <= v.len(),
    ensures
        r@ == v@.subrange(from as int, to as int),
{
    let mut r: Vec<char> = Vec::new();
    let mut i: usize = from;
    while i < to
        invariant
            from <= i <= to,
            to <= v.len(),
            r@ == v@.subrange(from as int, i as int),
        decreases to - i,
    {
        r.push(v[i]);
        i += 1;
        assert(r@ == v@.subrange(from as int, i as int));
    }
    r
}

/// `v` without the white space at its two ends.
pub fn trim(v: &Vec<char>) -> (r: Vec<char>)
    ensures
        r@ == trimmed(v@),
{
    let n: usize = v.len();
    let mut a: usize = 0;
    while a < n && is_space_exec(v[a])
        invariant
            a <= n,
            n == v.len(),
            skip_spaces(v@, 0) == skip_spaces(v@, a as int),
        decreases n - a,
    {
        a += 1;
    }
    let mut b: usize = n;
    while b > 0 && is_space_exec(v[b - 1])
        invariant
            b <= n,
            n == v.len(),
            back_spaces(v@, n as int) == back_spaces(v@, b as int),
        decreases b,
    {
        b -= 1;
    }
    if a < b {
        slice(v, a, b)
    } else {
        Vec::new()
    }
}

/// `c` in lower case.
pub fn lower_exec(c: char) -> (r: char)
    ensures
        r == lower(c),
{
    if 'A' <= c && c <= 'Z' {
        let u: u32 = (c as u32) + 32;
        assert(u < 0x80);
        u as u8 as char
    } else {
        c
    }
}

/// `v` with every letter in lower case.
pub fn to_lower(v: &Vec<char>) -> (r: Vec<char>)
    ensures
        r@ == lowered(v@),
{
    let n: usize = v.len();
    let mut r: Vec<char> = Vec::new();
    let mut i: usize = 0;
    while i < n
        invariant
            i <= n,
            n == v.len(),
            r@.len() == i,
            forall|k: int| 0 <= k < i ==> r@[k] == lower(v@[k]),
        decreases n - i,
    {
        r.push(lower_exec(v[i]));
        i += 1;
    }
    assert(r@ =~= lowered(v@));
    r
}

/// `v` without any occurrence of `ch`.
pub fn remove_char(v: &Vec<char>, ch: char) -> (r: Vec<char>)
    ensures
        r@ == without(v@, ch),
{
    let n: usize = v.len();
    let mut r: Vec<char> = Vec::new();
    let mut i: usize = 0;
    while i < n
        invariant
            i <= n,
            n == v.len(),
            r@ == without(v@.take(i as int), ch),
        decreases n - i,
    {
        assert(v@.take(i + 1).drop_last() == v@.take(i as int));
        if v[i] != ch {
            r.push(v[i]);
        }
        i += 1;
    }
    assert(v@.take(n as int) == v@);
    r
}

/// `v` with every carriage return that a line feed follows taken out.
pub fn to_unix_lines(v: &Vec<char>) -> (r: Vec<char>)
    ensures
        r@ == unix_lines(v@),
{
    let n: usize = v.len();
    let mut r: Vec<char> = Vec::new();
    let mut i: usize = 0;
    while i < n
        invariant
            i <= n,
            n == v.len(),
            r@ == unix_lines(v@.take(i as int)),
            i > 0 && v@[i - 1] == '\r' ==> r@.len() > 0 && r@.last() == '\r' && r@.drop_last()
                == unix_lines(v@.take(i - 1)),
        decreases n - i,
    {
        let c: char = v[i];
        proof {
            let t = v@.take(i + 1);
            assert(t.drop_last() == v@.take(i as int));
            if i > 0 {
                assert(t.subrange(0, t.len() - 2) == v@.take(i - 1));
                assert(t[t.len() - 2] == v@[i - 1]);
            }
        }
        if c == '\n' && i > 0 && v[i - 1] == '\r' {
            r.pop();
            r.push('\n');
        } else {
            r.push(c);
        }
        i += 1;
        proof {
            if c == '\r' {
                assert(r@.drop_last() == unix_lines(v@.take(i - 1)));
            }
        }
    }
    assert(v@.take(n as int) == v@);
    r
}

/// The pieces of `v` between the occurrences of `sep`.
pub fn split_exec(v: &Vec<char>, sep: char) -> (r: Vec<Vec<char>>)
    ensures
        lines(r) == split(v@, sep),
        r.len() >= 1,
{
    let n: usize = v.len();
    let mut r: Vec<Vec<char>> = Vec::new();
    let mut piece: Vec<char> = Vec::new();
    let mut i: usize = 0;
    assert(v@.take(0) == Seq::<char>::empty());
    while i < n
        invariant
            i <= n,
            n == v.len(),
            lines(r).push(piece@) == split(v@.take(i as int), sep),
        decreases n - i,
    {
        let ghost before = split(v@.take(i as int), sep);
        assert(v@.take(i + 1).drop_last() == v@.take(i as int));
        assert(before.last() == piece@);
        assert(before.drop_last() == lines(r));
        if v[i] == sep {
            let ghost old_r = lines(r);
            r.push(piece);
            piece = Vec::new();
            assert(lines(r) == old_r.push(before.last())) by {
                assert(lines(r) =~= old_r.push(before.last()));
            }
            assert(lines(r) == before);
        } else {
            piece.push(v[i]);
            assert(lines(r).push(piece@) =~= before.update(
                before.len() - 1,
                before.last().push(v@[i as int]),
            ));
        }
        i += 1;
    }
    assert(v@.take(n as int) == v@);
    let ghost old_r = lines(r);
    let ghost last = piece@;
    r.push(piece);
    assert(lines(r) =~= old_r.push(last));
    r
}

/// Whether `v` begins with the characters of `prefix`.
pub fn has_prefix(v: &Vec<char>, prefix: &str) -> (b: bool)
    ensures
        b == starts_with(v@, prefix@),
{
    let m: usize = prefix.unicode_len();
    if m > v.len() {
        return false;
    }
    let mut i: usize = 0;
    while i < m
        invariant
            i <= m,
            m == prefix@.len(),
            m <= v.len(),
            v@.subrange(0, i as int) == prefix@.subrange(0, i as int),
        decreases m - i,
    {
        if v[i] != prefix.get_char(i) {
            assert(v@.subrange(0, m as int)[i as int] != prefix@[i as int]);
            return false;
        }
        i += 1;
        assert(v@.subrange(0, i as int) =~= prefix@.subrange(0, i as int));
    }
    assert(prefix@.subrange(0, m as int) == prefix@);
    true
}

/// Whether `v` ends with the characters of `suffix`.
pub fn has_suffix(v: &Vec<char>, suffix: &str) -> (b: bool)
    ensures
        b == ends_with(v@, suffix@),
{
    let m: usize = suffix.unicode_len();
    let n: usize = v.len();
    if m > n {
        return false;
    }
    let start: usize = n - m;
    let mut i: usize = 0;
    while i < m
        invariant
            i <= m,
            m == suffix@.len(),
            n == v.len(),
            start == n - m,
            v@.subrange(start as int, start + i) == suffix@.subrange(0, i as int),
        decreases m - i,
    {
        if v[start + i] != suffix.get_char(i) {
            assert(v@.subrange(start as int, n as int)[i as int] != suffix@[i as int]);
            return false;
        }
        i += 1;
        assert(v@.subrange(start as int, start + i) =~= suffix@.subrange(0, i as int));
    }
    assert(suffix@.subrange(0, m as int) == suffix@);
    true
}

/// Whether `v` holds exactly the characters of `word`.
pub fn equals_str(v: &Vec<char>, word: &str) -> (b: bool)
    ensures
        b == (v@ == word@),
{
    let m: usize = word.unicode_len();
    if m != v.len() {
        return false;
    }
    let b = has_prefix(v, word);
    assert(v@.subrange(0, m as int) == v@);
    b
}

/// Whether two sequences of characters are the same.
pub fn same_chars(a: &Vec<char>, b: &Vec<char>) -> (r: bool)
    ensures
        r == (a@ == b@),
{
    if a.len() != b.len() {
        return false;
    }
    let n: usize = a.len();
    let mut i: usize = 0;
    while i < n
        invariant
            i <= n,
            n == a.len(),
            n == b.len(),
            forall|k: int| 0 <= k < i ==> a@[k] == b@[k],
        decreases n - i,
    {
        if a[i] != b[i] {
            return false;
        }
        i += 1;
    }
    assert(a@ =~= b@);
    true
}

/// The number that the digits of `v` from `from` up to `to` write, if they
/// are all digits and the number is at most `limit`.
pub fn read_digits(v: &Vec<char>, from: usize, to: usize, limit: u64) -> (r: Option<u64>)
    requires
        from <= to <= v.len(),
        limit <= 0x0fff_ffff_ffff_ffff,
    ensures
        r is Some <==> all_digits(v@.subrange(from as int, to as int)) && digits_value(
            v@.subrange(from as int, to as int),
        ) <= limit,
        r is Some ==> r->Some_0 == digits_value(v@.subrange(from as int, to as int)),
{
    let ghost s = v@.subrange(from as int, to as int);
    let mut acc: u64 = 0;
    let mut i: usize = from;
    assert(s.take(0) == Seq::<char>::empty());
    while i < to
        invariant
            from <= i <= to,
            to <= v.len(),
            s == v@.subrange(from as int, to as int),
            all_digits(s.take(i - from)),
            acc == digits_value(s.take(i - from)),
            acc <= limit,
            limit <= 0x0fff_ffff_ffff_ffff,
        decreases to - i,
    {
        let c: char = v[i];
        assert(s[i - from] == c);
        assert(s.take(i - from + 1).drop_last() == s.take(i - from));
        if !('0' <= c && c <= '9') {
            assert(!all_digits(s));
            return None;
        }
        let d: u64 = ((c as u32) - ('0' as u32)) as u64;
        let next: u64 = acc * 10 + d;
        if next > limit {
            proof {
                if all_digits(s) {
                    lemma_digits_grow(s, i - from + 1);
                }
            }
            return None;
        }
        acc = next;
        i += 1;
        assert forall|k: int| 0 <= k < s.take(i - from).len() implies is_digit(
            #[trigger] s.take(i - from)[k],
        ) by {
            if k < i - from - 1 {
                assert(s.take(i - from - 1)[k] == s[k]);
            }
        }
    }
    assert(s.take(to - from) == s);
    Some(acc)
}

/// The value of a prefix of digits is at most the value of the whole.
pub proof fn lemma_digits_grow(s: Seq<char>, n: int)
    requires
        0 <= n <= s.len(),
        all_digits(s),
    ensures
        digits_value(s.take(n)) <= digits_value(s),
    decreases s.len() - n,
{
    if n < s.len() {
        lemma_digits_grow(s, n + 1);
        assert(s.take(n + 1).drop_last() == s.take(n));
        assert(is_digit(s[n]));
        assert(s.take(n + 1).last() == s[n]);
        assert forall|k: int| 0 <= k < s.take(n).len() implies is_digit(#[trigger] s.take(n)[k]) by {
            assert(s.take(n)[k] == s[k]);
        }
        lemma_digits_nonnegative(s.take(n));
    } else {
        assert(s.take(n) == s);
    }
}

/// The value of any sequence read as digits, where it is one of digits, is
/// not negative.
pub proof fn lemma_digits_nonnegative(s: Seq<char>)
    ensures
        all_digits(s) ==> digits_value(s) >= 0,
        s.len() == 0 ==> digits_value(s) == 0,
    decreases s.len(),
{
    if s.len() > 0 {
        lemma_digits_nonnegative(s.drop_last());
        if all_digits(s) {
            assert(is_digit(s.last()));
            assert forall|i: int| 0 <= i < s.drop_last().len() implies is_digit(
                #[trigger] s.drop_last()[i],
            ) by {
                assert(s.drop_last()[i] == s[i]);
            }
        }
    }
}

/// The integer that `v` writes, if it writes one between `-limit - 1` and
/// `limit`.
pub fn read_integer(v: &Vec<char>, limit: u64) -> (r: Option<i64>)
    requires
        limit <= 0x0fff_ffff_ffff_fffe,
    ensures
        r is Some <==> integer_value(v@) is Some && -limit - 1 <= integer_value(v@)->Some_0
            <= limit,
        r is Some ==> r->Some_0 == integer_value(v@)->Some_0,
{
    let n: usize = v.len();
    if n == 0 {
        return None;
    }
    let c: char = v[0];
    if c == '-' || c == '+' {
        if n == 1 {
            return None;
        }
        let bound: u64 = if c == '-' {
            limit + 1
        } else {
            limit
        };
        proof {
            lemma_digits_nonnegative(v@.subrange(1, n as int));
        }
        match read_digits(v, 1, n, bound) {
            Some(m) => Some(
                if c == '-' {
                    -(m as i64)
                } else {
                    m as i64
                },
            ),
            None => None,
        }
    } else {
        assert(v@.subrange(0, n as int) == v@);
        proof {
            lemma_digits_nonnegative(v@);
        }
        match read_digits(v, 0, n, limit) {
            Some(m) => Some(m as i64),
            None => None,
        }
    }
}

/// The value of the hexadecimal digit `c`, if it is one.
pub fn read_hex_digit(c: char) -> (r: Option<u32>)
    ensures
        r is Some <==> is_hex_digit(c),
        r is Some ==> r->Some_0 == hex_digit_value(c) && r->Some_0 < 16,
{
    if '0' <= c && c <= '9' {
        Some((c as u32) - ('0' as u32))
    } else if 'a' <= c && c <= 'f' {
        Some((c as u32) - ('a' as u32) + 10)
    } else if 'A' <= c && c <= 'F' {
        Some((c as u32) - ('A' as u32) + 10)
    } else {
        None
    }
}

/// The number that `v` writes in hexadecimal digits, if `v` holds nothing
/// else and at most eight of them.
pub fn read_hex(v: &Vec<char>) -> (r: Option<u32>)
    requires
        v.len() <= 8,
    ensures
        r is Some <==> all_hex_digits(v@),
        r is Some ==> r->Some_0 == hex_value(v@) && r->Some_0 < pow16(v.len() as int),
{
    let n: usize = v.len();
    let mut acc: u64 = 0;
    let mut i: usize = 0;
    let ghost mut bound: int = 1;
    assert(v@.take(0) == Seq::<char>::empty());
    while i < n
        invariant
            i <= n,
            n == v.len(),
            n <= 8,
            all_hex_digits(v@.take(i as int)),
            acc == hex_value(v@.take(i as int)),
            acc < bound,
            bound == pow16(i as int),
        decreases n - i,
    {
        assert(v@.take(i + 1).drop_last() == v@.take(i as int));
        proof {
            lemma_pow16(i as int);
            lemma_pow16(i + 1);
        }
        match read_hex_digit(v[i]) {
            Some(d) => {
                acc = acc * 16 + d as u64;
                proof {
                    bound = bound * 16;
                }
            },
            None => {
                assert(!is_hex_digit(v@[i as int]));
                return None;
            },
        }
        i += 1;
        assert forall|k: int| 0 <= k < v@.take(i as int).len() implies is_hex_digit(
            #[trigger] v@.take(i as int)[k],
        ) by {
            if k < i - 1 {
                assert(v@.take(i - 1)[k] == v@[k]);
            }
        }
    }
    assert(v@.take(n as int) == v@);
    proof {
        lemma_pow16(n as int);
    }
    Some(acc as u32)
}

/// Sixteen to the power `n`.
pub open spec fn pow16(n: int) -> int
    decreases n,
{
    if n <= 0 {
        1
    } else {
        16 * pow16(n - 1)
    }
}

/// What some powers of sixteen are.
pub proof fn lemma_pow16_values()
    ensures
        pow16(3) == 0x1000,
        pow16(4) == 0x1_0000,
        pow16(6) == 0x100_0000,
        pow16(8) == 0x1_0000_0000,
{
    reveal_with_fuel(pow16, 10);
}

/// The powers of sixteen up to the eighth.
pub proof fn lemma_pow16(n: int)
    requires
        0 <= n <= 8,
    ensures
        1 <= pow16(n) <= 0x1_0000_0000,
        n < 8 ==> pow16(n) <= 0x1000_0000,
        pow16(n + 1) == 16 * pow16(n),
{
    reveal_with_fuel(pow16, 10);
    assert(pow16(0) == 1);
    assert(pow16(1) == 0x10);
    assert(pow16(2) == 0x100);
    assert(pow16(3) == 0x1000);
    assert(pow16(4) == 0x1_0000);
    assert(pow16(5) == 0x10_0000);
    assert(pow16(6) == 0x100_0000);
    assert(pow16(7) == 0x1000_0000);
    assert(pow16(8) == 0x1_0000_0000);
}

/// Where the first `.` of `v` stands, or the length of `v`.
pub fn find_dot(v: &Vec<char>) -> (p: usize)
    ensures
        p == dot_position(v@, 0),
        p <= v.len(),
        p < v.len() ==> v@[p as int] == '.',
{
    let n: usize = v.len();
    let mut i: usize = 0;
    while i < n && v[i] != '.'
        invariant
            i <= n,
            n == v.len(),
            dot_position(v@, 0) == dot_position(v@, i as int),
        decreases n - i,
    {
        i += 1;
    }
    i
}

/// Ten to the power `n`, for `n` up to six.
pub fn pow10_exec(n: usize) -> (p: u64)
    requires
        n <= 6,
    ensures
        p == pow10(n as int),
        1 <= p <= 1_000_000,
{
    let mut p: u64 = 1;
    let mut i: usize = 0;
    while i < n
        invariant
            i <= n,
            n <= 6,
            p == pow10(i as int),
            1 <= p,
            i <= 0 ==> p <= 1,
            i <= 1 ==> p <= 10,
            i <= 2 ==> p <= 100,
            i <= 3 ==> p <= 1_000,
            i <= 4 ==> p <= 10_000,
            i <= 5 ==> p <= 100_000,
            p <= 1_000_000,
        decreases n - i,
    {
        p = p * 10;
        i += 1;
    }
    p
}

/// The largest count of millionths that a decimal may write.
pub const MAX_MICROS: u64 = 0x7fff_ffff_ffff_ffff;

/// The count of millionths that the unsigned decimal in `v` from `from` on
/// writes, if it writes one that is at most `MAX_MICROS`.
pub fn read_unsigned_micros(v: &Vec<char>, from: usize) -> (r: Option<u64>)
    requires
        from <= v.len(),
    ensures
        r is Some <==> unsigned_micros(v@.subrange(from as int, v.len() as int)) is Some
            && unsigned_micros(v@.subrange(from as int, v.len() as int))->Some_0 <= MAX_MICROS,
        r is Some ==> r->Some_0 == unsigned_micros(
            v@.subrange(from as int, v.len() as int),
        )->Some_0,
{
    let n: usize = v.len();
    let s: Vec<char> = slice(v, from, n);
    let m: usize = s.len();
    let dot: usize = find_dot(&s);
    let ghost whole = s@.subrange(0, dot as int);
    let ghost frac = if dot < m {
        s@.subrange(dot + 1, m as int)
    } else {
        Seq::<char>::empty()
    };
    let frac_from: usize = if dot < m {
        dot + 1
    } else {
        m
    };
    assert(frac == s@.subrange(frac_from as int, m as int));
    let frac_len: usize = m - frac_from;
    if dot + frac_len == 0 {
        return None;
    }
    proof {
        lemma_digits_nonnegative(whole);
        lemma_digits_nonnegative(frac);
    }
    // The fraction: every character a digit, the first six counted.
    let six_to: usize = if frac_len > 6 {
        frac_from + 6
    } else {
        m
    };
    let ghost six = s@.subrange(frac_from as int, six_to as int);
    assert(six == if frac.len() > 6 {
        frac.subrange(0, 6)
    } else {
        frac
    });
    // Digits beyond the sixth count for nothing, but must be digits.
    let rest_ok: bool = all_digits_exec(&s, six_to, m);
    if !rest_ok {
        assert(!all_digits(frac)) by {
            let rest = s@.subrange(six_to as int, m as int);
            if all_digits(frac) {
                assert forall|k: int| 0 <= k < rest.len() implies is_digit(#[trigger] rest[k]) by {
                    assert(rest[k] == frac[k + (six_to - frac_from)]);
                }
            }
        }
        return None;
    }
    let six_digits: Option<u64> = read_digits(&s, frac_from, six_to, 999_999);
    proof {
        lemma_six_digits(six);
    }
    let fraction: u64 = match six_digits {
        Some(d) => {
            let scale: u64 = pow10_exec(6 - (six_to - frac_from));
            assert(d * scale <= 999_999 * 1_000_000) by (nonlinear_arith)
                requires
                    0 <= d <= 999_999,
                    1 <= scale <= 1_000_000,
            ;
            d * scale
        },
        None => {
            assert(!all_digits(frac)) by {
                if all_digits(frac) {
                    assert forall|k: int| 0 <= k < six.len() implies is_digit(#[trigger] six[k]) by {
                        assert(six[k] == frac[k]);
                    }
                }
            }
            return None;
        },
    };
    assert(all_digits(frac)) by {
        let rest = s@.subrange(six_to as int, m as int);
        assert forall|k: int| 0 <= k < frac.len() implies is_digit(#[trigger] frac[k]) by {
            if k < six.len() {
                assert(frac[k] == six[k]);
            } else {
                assert(frac[k] == rest[k - six.len()]);
            }
        }
    }
    assert(fraction == fraction_micros(frac));
    proof {
        lemma_fraction_bound(frac);
    }
    match read_digits(&s, 0, dot, 9_223_372_036_854) {
        Some(w) => {
            let total: u64 = w * 1_000_000 + fraction;
            if total > MAX_MICROS {
                None
            } else {
                Some(total)
            }
        },
        None => None,
    }
}

/// The powers of ten up to the sixth.
pub proof fn lemma_pow10(n: int)
    requires
        0 <= n <= 6,
    ensures
        1 <= pow10(n) <= 1_000_000,
        pow10(n) * pow10(6 - n) == 1_000_000,
        pow10(n + 1) == 10 * pow10(n),
{
    reveal_with_fuel(pow10, 8);
    assert(pow10(0) == 1);
    assert(pow10(1) == 10);
    assert(pow10(2) == 100);
    assert(pow10(3) == 1_000);
    assert(pow10(4) == 10_000);
    assert(pow10(5) == 100_000);
    assert(pow10(6) == 1_000_000);
    if n == 0 {
        assert(pow10(0) * pow10(6) == 1_000_000);
    } else if n == 1 {
        assert(pow10(1) * pow10(5) == 1_000_000);
    } else if n == 2 {
        assert(pow10(2) * pow10(4) == 1_000_000);
    } else if n == 3 {
        assert(pow10(3) * pow10(3) == 1_000_000);
    } else if n == 4 {
        assert(pow10(4) * pow10(2) == 1_000_000);
    } else if n == 5 {
        assert(pow10(5) * pow10(1) == 1_000_000);
    } else {
        assert(pow10(6) * pow10(0) == 1_000_000);
    }
}

/// Up to six digits write a number below a million.
pub proof fn lemma_six_digits(s: Seq<char>)
    requires
        s.len() <= 6,
    ensures
        all_digits(s) ==> 0 <= digits_value(s) < pow10(s.len() as int),
        1 <= pow10(s.len() as int) <= 1_000_000,
        all_digits(s) ==> digits_value(s) * pow10(6 - s.len()) <= 999_999,
    decreases s.len(),
{
    lemma_pow10(s.len() as int);
    lemma_pow10(6 - s.len());
    if s.len() > 0 {
        lemma_six_digits(s.drop_last());
        if all_digits(s) {
            assert(is_digit(s.last()));
            assert forall|i: int| 0 <= i < s.drop_last().len() implies is_digit(
                #[trigger] s.drop_last()[i],
            ) by {
                assert(s.drop_last()[i] == s[i]);
            }
            let v = digits_value(s);
            let n = s.len() as int;
            lemma_pow10(n);
            lemma_pow10(6 - n);
            lemma_pow10(n - 1);
            assert(v * pow10(6 - n) <= 999_999) by (nonlinear_arith)
                requires
                    0 <= v < pow10(n),
                    pow10(n) * pow10(6 - n) == 1_000_000,
                    pow10(6 - n) >= 1,
            ;
        }
    }
}

/// A fraction is less than one.
pub proof fn lemma_fraction_bound(frac: Seq<char>)
    requires
        all_digits(frac),
    ensures
        0 <= fraction_micros(frac) <= 999_999,
{
    let six = if frac.len() > 6 {
        frac.subrange(0, 6)
    } else {
        frac
    };
    assert forall|k: int| 0 <= k < six.len() implies is_digit(#[trigger] six[k]) by {
        assert(six[k] == frac[k]);
    }
    lemma_six_digits(six);
    lemma_digits_nonnegative(six);
    lemma_pow10(6 - six.len());
    assert(digits_value(six) * pow10(6 - six.len()) >= 0) by (nonlinear_arith)
        requires
            digits_value(six) >= 0,
            pow10(6 - six.len()) >= 1,
    ;
}

/// Whether the characters of `v` from `from` up to `to` are all digits.
pub fn all_digits_exec(v: &Vec<char>, from: usize, to: usize) -> (b: bool)
    requires
        from <= to <= v.len(),
    ensures
        b == all_digits(v@.subrange(from as int, to as int)),
{
    let ghost s = v@.subrange(from as int, to as int);
    let mut i: usize = from;
    while i < to
        invariant
            from <= i <= to,
            to <= v.len(),
            s == v@.subrange(from as int, to as int),
            forall|k: int| 0 <= k < i - from ==> is_digit(#[trigger] s[k]),
        decreases to - i,
    {
        let c: char = v[i];
        assert(s[i - from] == c);
        if !('0' <= c && c <= '9') {
            return false;
        }
        i += 1;
    }
    true
}

/// The count of millionths that the decimal `v` writes, if it writes one
/// whose size is at most `MAX_MICROS`.
pub fn read_decimal(v: &Vec<char>) -> (r: Option<i64>)
    ensures
        r is Some <==> decimal_micros(v@) is Some && -MAX_MICROS <= decimal_micros(v@)->Some_0
            <= MAX_MICROS,
        r is Some ==> r->Some_0 == decimal_micros(v@)->Some_0,
{
    let n: usize = v.len();
    if n > 0 && (v[0] == '-' || v[0] == '+') {
        match read_unsigned_micros(v, 1) {
            Some(m) => Some(
                if v[0] == '-' {
                    -(m as i64)
                } else {
                    m as i64
                },
            ),
            None => {
                proof {
                    lemma_unsigned_nonnegative(v@.subrange(1, n as int));
                }
                None
            },
        }
    } else {
        assert(v@.subrange(0, n as int) == v@);
        proof {
            lemma_unsigned_nonnegative(v@);
        }
        match read_unsigned_micros(v, 0) {
            Some(m) => Some(m as i64),
            None => None,
        }
    }
}

/// The number that `v` writes without a minus sign, if it is at most
/// `limit`.
pub fn read_unsigned(v: &Vec<char>, limit: u64) -> (r: Option<u64>)
    requires
        limit <= 0x0fff_ffff_ffff_fffe,
    ensures
        r is Some <==> unsigned_value(v@) is Some && unsigned_value(v@)->Some_0 <= limit,
        r is Some ==> r->Some_0 == unsigned_value(v@)->Some_0,
{
    if v.len() > 0 && v[0] == '-' {
        return None;
    }
    proof {
        if v.len() > 0 && v@[0] == '+' {
            lemma_digits_nonnegative(v@.subrange(1, v.len() as int));
        } else {
            lemma_digits_nonnegative(v@);
        }
    }
    match read_integer(v, limit) {
        Some(m) => Some(m as u64),
        None => None,
    }
}

/// What follows `prefix` in `v`, if `v` begins with it.
pub fn strip_prefix(v: &Vec<char>, prefix: &str) -> (r: Option<Vec<char>>)
    ensures
        r is Some <==> starts_with(v@, prefix@),
        r is Some ==> r->Some_0@ == v@.subrange(prefix@.len() as int, v.len() as int),
{
    if has_prefix(v, prefix) {
        Some(slice(v, prefix.unicode_len(), v.len()))
    } else {
        None
    }
}

/// What stands before `suffix` in `v`, if `v` ends with it.
pub fn strip_suffix(v: &Vec<char>, suffix: &str) -> (r: Option<Vec<char>>)
    ensures
        r is Some <==> ends_with(v@, suffix@),
        r is Some ==> r->Some_0@ == v@.subrange(0, v.len() - suffix@.len()),
{
    if has_suffix(v, suffix) {
        Some(slice(v, 0, v.len() - suffix.unicode_len()))
    } else {
        None
    }
}

/// The share that `v` writes, as `Decimal` would hold it.
pub fn read_share(v: &Vec<char>) -> (r: Option<i64>)
    ensures
        r is Some <==> share_micros(v@) is Some,
        r is Some ==> r->Some_0 == share_micros(v@)->Some_0,
{
    let t: Vec<char> = trim(v);
    let n: usize = t.len();
    if n > 0 && t[n - 1] == '%' {
        let number: Vec<char> = trim(&slice(&t, 0, n - 1));
        assert(t@.drop_last() == t@.subrange(0, n - 1));
        match read_decimal(&number) {
            Some(m) => Some(
                if m >= 0 {
                    m / 100
                } else {
                    -((-m) / 100)
                },
            ),
            None => None,
        }
    } else {
        read_decimal(&t)
    }
}

/// An unsigned decimal is not negative.
pub proof fn lemma_unsigned_nonnegative(s: Seq<char>)
    ensures
        unsigned_micros(s) is Some ==> unsigned_micros(s)->Some_0 >= 0,
{
    let dot = dot_position(s, 0);
    lemma_dot_position(s, 0);
    let whole = s.subrange(0, dot);
    let frac = if dot < s.len() {
        s.subrange(dot + 1, s.len() as int)
    } else {
        Seq::<char>::empty()
    };
    if all_digits(whole) && all_digits(frac) {
        lemma_digits_nonnegative(whole);
        lemma_fraction_bound(frac);
    }
}

/// The first point stands within the sequence or at its end.
pub proof fn lemma_dot_position(s: Seq<char>, i: int)
    requires
        0 <= i <= s.len(),
    ensures
        i <= dot_position(s, i) <= s.len(),
    decreases s.len() - i,
{
    if i < s.len() && s[i] != '.' {
        lemma_dot_position(s, i + 1);
    }
}

} // verus!
