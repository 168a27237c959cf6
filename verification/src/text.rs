//! Character-level string helpers shared by the rest of the library.

use vstd::prelude::*;
use vstd::string::*;

verus! {

/// Appends one character to the end of a string.
#[verifier::external_body]
pub(crate) fn push_char(s: &mut String, c: char)
    ensures
        final(s)@ == old(s)@.push(c),
{
    s.push(c);
}

/// The characters of a string slice, in order.
pub fn chars_of(s: &str) -> (res: Vec<char>)
    ensures
        res@ == s@,
{
    let n = s.unicode_len();
    let mut res: Vec<char> = Vec::new();
    let mut i: usize = 0;
    while i < n
        invariant
            n == s@.len(),
            i <= n,
            res@ == s@.take(i as int),
        decreases n - i,
    {
        let c = s.get_char(i);
        res.push(c);
        i = i + 1;
        assert(res@ =~= s@.take(i as int));
    }
    assert(res@ =~= s@);
    res
}

/// A string holding exactly the given characters.
pub fn string_from_chars(v: &Vec<char>) -> (res: String)
    ensures
        res@ == v@,
{
    let mut res = String::new();
    let mut i: usize = 0;
    while i < v.len()
        invariant
            i <= v.len(),
            res@ == v@.take(i as int),
        decreases v.len() - i,
    {
        push_char(&mut res, v[i]);
        i = i + 1;
        assert(res@ =~= v@.take(i as int));
    }
    assert(res@ =~= v@);
    res
}


/// The ASCII character of a decimal digit.
pub open spec fn digit_char(d: nat) -> char {
    ((d + 48) as u8) as char
}

/// The decimal representation of a natural number, most significant
/// digit first, without leading zeros (zero is "0").
pub open spec fn decimal(n: nat) -> Seq<char>
    decreases n,
{
    if n < 10 {
        seq![digit_char(n)]
    } else {
        decimal(n / 10).push(digit_char(n % 10))
    }
}

fn digit_to_char(d: u64) -> (c: char)
    requires
        d < 10,
    ensures
        c == digit_char(d as nat),
{
    let b: u8 = 48u8 + (d as u8);
    b as char
}

/// The decimal digits of `n`.
pub fn decimal_chars(n: u64) -> (res: Vec<char>)
    ensures
        res@ == decimal(n as nat),
    decreases n,
{
    if n < 10 {
        let mut v: Vec<char> = Vec::new();
        v.push(digit_to_char(n));
        assert(v@ =~= seq![digit_char(n as nat)]);
        v
    } else {
        let mut v = decimal_chars(n / 10);
        v.push(digit_to_char(n % 10));
        v
    }
}

/// The value of a character as a digit in the given radix (0-9, then
/// letters of either case), if it is one.
pub open spec fn spec_digit_value(c: char, radix: nat) -> Option<nat> {
    let v: int = if '0' <= c <= '9' {
        c as int - '0' as int
    } else if 'a' <= c <= 'z' {
        c as int - 'a' as int + 10
    } else if 'A' <= c <= 'Z' {
        c as int - 'A' as int + 10
    } else {
        radix as int
    };
    if v < radix {
        Some(v as nat)
    } else {
        None
    }
}

/// Every character is a digit in the radix.
pub open spec fn all_digits(s: Seq<char>, radix: nat) -> bool {
    forall|i: int| 0 <= i < s.len() ==> (#[trigger] spec_digit_value(s[i], radix)) is Some
}

/// The number written by the digits of `s` in the radix.
pub open spec fn digits_value(s: Seq<char>, radix: nat) -> nat
    decreases s.len(),
{
    if s.len() == 0 {
        0
    } else {
        digits_value(s.drop_last(), radix) * radix + spec_digit_value(s.last(), radix).unwrap_or(0)
    }
}

/// The number that std's parsing of an unsigned integer in the radix
/// reads from `s`: an optional `+`, then one or more digits. `None` if
/// `s` has another form. No upper bound is applied here.
pub open spec fn spec_parse_unsigned(s: Seq<char>, radix: nat) -> Option<nat> {
    let body = if s.len() > 0 && s[0] == '+' {
        s.drop_first()
    } else {
        s
    };
    if body.len() > 0 && all_digits(body, radix) {
        Some(digits_value(body, radix))
    } else {
        None
    }
}

/// What `str::parse::<i32>` returns for `s`, as an option: an optional
/// sign, then one or more ASCII digits, with a value that fits an `i32`.
pub open spec fn spec_parse_i32(s: Seq<char>) -> Option<i32> {
    if s.len() > 0 && s[0] == '-' {
        let body = s.drop_first();
        if body.len() > 0 && all_digits(body, 10) && digits_value(body, 10) <= 0x8000_0000 {
            Some((-(digits_value(body, 10) as int)) as i32)
        } else {
            None
        }
    } else {
        match spec_parse_unsigned(s, 10) {
            Some(v) => if v <= 0x7fff_ffff {
                Some(v as i32)
            } else {
                None
            },
            None => None,
        }
    }
}

/// What `u8::from_str_radix` returns for `s`, as an option.
pub open spec fn spec_parse_u8_radix(s: Seq<char>, radix: nat) -> Option<u8> {
    match spec_parse_unsigned(s, radix) {
        Some(v) => if v <= 255 {
            Some(v as u8)
        } else {
            None
        },
        None => None,
    }
}

fn digit_value(c: char, radix: u32) -> (res: Option<u32>)
    requires
        2 <= radix <= 36,
    ensures
        res matches Some(v) ==> spec_digit_value(c, radix as nat) == Some(v as nat),
        res is None ==> spec_digit_value(c, radix as nat) is None,
{
    let v: u32 = if '0' <= c && c <= '9' {
        (c as u32) - ('0' as u32)
    } else if 'a' <= c && c <= 'z' {
        (c as u32) - ('a' as u32) + 10
    } else if 'A' <= c && c <= 'Z' {
        (c as u32) - ('A' as u32) + 10
    } else {
        radix
    };
    if v < radix {
        Some(v)
    } else {
        None
    }
}

/// A longer digit string has at least the value of its prefix.
proof fn lemma_digits_value_prefix(s: Seq<char>, radix: nat, i: int)
    requires
        0 <= i <= s.len(),
        radix >= 1,
    ensures
        digits_value(s.take(i), radix) <= digits_value(s, radix),
    decreases s.len() - i,
{
    if i < s.len() {
        lemma_digits_value_prefix(s, radix, i + 1);
        assert(s.take(i + 1).drop_last() =~= s.take(i));
        assert(digits_value(s.take(i), radix) * radix >= digits_value(s.take(i), radix)) by (nonlinear_arith)
            requires radix >= 1;
    } else {
        assert(s.take(i) =~= s);
    }
}

/// Reads the digits of `s[start..]` in the radix, giving up once the
/// value exceeds `limit`: `Some(value)` when every character is a digit
/// and the value is at most `limit`; `None` otherwise.
fn digits_upto(s: &Vec<char>, start: usize, radix: u32, limit: u64) -> (res: Option<u64>)
    requires
        2 <= radix <= 36,
        start <= s@.len(),
        limit <= 0x1_0000_0000,
    ensures
        res matches Some(v) ==> all_digits(s@.skip(start as int), radix as nat) && v == digits_value(
            s@.skip(start as int),
            radix as nat,
        ) && v <= limit,
        res is None ==> !all_digits(s@.skip(start as int), radix as nat) || digits_value(
            s@.skip(start as int),
            radix as nat,
        ) > limit,
{
    let ghost body = s@.skip(start as int);
    let mut acc: u64 = 0;
    let mut i: usize = start;
    while i < s.len()
        invariant
            start <= i <= s@.len(),
            body == s@.skip(start as int),
            2 <= radix <= 36,
            limit <= 0x1_0000_0000,
            acc <= limit,
            all_digits(body.take(i - start), radix as nat),
            acc == digits_value(body.take(i - start), radix as nat),
        decreases s@.len() - i,
    {
        let k: usize = i - start;
        assert(body.take(k + 1).drop_last() =~= body.take(k as int));
        assert(body[k as int] == s@[i as int]);
        match digit_value(s[i], radix) {
            None => {
                assert(!all_digits(body, radix as nat)) by {
                    assert(spec_digit_value(body[k as int], radix as nat) is None);
                }
                return None;
            },
            Some(d) => {
                assert(acc * (radix as u64) <= 0x1_0000_0000 * 36) by (nonlinear_arith)
                    requires acc <= 0x1_0000_0000, radix <= 36;
                let next: u64 = acc * (radix as u64) + (d as u64);
                assert(next == digits_value(body.take(k + 1), radix as nat));
                if next > limit {
                    proof {
                        lemma_digits_value_prefix(body, radix as nat, k + 1);
                    }
                    return None;
                }
                acc = next;
                assert forall|j: int| 0 <= j < body.take(k + 1).len() implies (#[trigger] spec_digit_value(body.take(k + 1)[j], radix as nat)) is Some by {
                    if j < k {
                        assert(body.take(k + 1)[j] == body.take(k as int)[j]);
                    }
                }
            },
        }
        i = i + 1;
    }
    assert(body.take(i - start) =~= body);
    Some(acc)
}

/// Parses `s` as std's `str::parse::<i32>` does.
pub fn parse_i32(s: &Vec<char>) -> (res: Option<i32>)
    ensures
        res == spec_parse_i32(s@),
{
    if s.len() > 0 && s[0] == '-' {
        assert(s@.skip(1) =~= s@.drop_first());
        if s.len() == 1 {
            return None;
        }
        match digits_upto(s, 1, 10, 0x8000_0000) {
            Some(v) => {
                let r: i64 = -(v as i64);
                Some(r as i32)
            },
            None => None,
        }
    } else {
        let start: usize = if s.len() > 0 && s[0] == '+' {
            1
        } else {
            0
        };
        assert(s@.skip(start as int) =~= (if s@.len() > 0 && s@[0] == '+' {
            s@.drop_first()
        } else {
            s@
        }));
        if start == s.len() {
            return None;
        }
        match digits_upto(s, start, 10, 0x7fff_ffff) {
            Some(v) => Some(v as i32),
            None => None,
        }
    }
}

/// Parses `s` as `u8::from_str_radix` does, for a radix of 2 to 36.
pub fn parse_u8_radix(s: &Vec<char>, radix: u32) -> (res: Option<u8>)
    requires
        2 <= radix <= 36,
    ensures
        res == spec_parse_u8_radix(s@, radix as nat),
{
    let start: usize = if s.len() > 0 && s[0] == '+' {
        1
    } else {
        0
    };
    assert(s@.skip(start as int) =~= (if s@.len() > 0 && s@[0] == '+' {
        s@.drop_first()
    } else {
        s@
    }));
    if start == s.len() {
        return None;
    }
    match digits_upto(s, start, radix, 255) {
        Some(v) => Some(v as u8),
        None => None,
    }
}

/// Whether `s` begins with `prefix`.
pub fn starts_with(s: &Vec<char>, prefix: &str) -> (res: bool)
    ensures
        res == (prefix@.len() <= s@.len() && s@.take(prefix@.len() as int) == prefix@),
{
    let p = chars_of(prefix);
    if p.len() > s.len() {
        return false;
    }
    let mut i: usize = 0;
    while i < p.len()
        invariant
            p@ == prefix@,
            p@.len() <= s@.len(),
            i <= p@.len(),
            forall|j: int| 0 <= j < i ==> s@[j] == p@[j],
        decreases p@.len() - i,
    {
        if s[i] != p[i] {
            assert(s@.take(p@.len() as int)[i as int] != p@[i as int]);
            return false;
        }
        i = i + 1;
    }
    assert(s@.take(p@.len() as int) =~= p@);
    true
}

/// Whether a string equals a string slice.
pub fn eq_str(a: &String, b: &str) -> (res: bool)
    ensures
        res == (a@ == b@),
{
    *a == String::from_str(b)
}

/// The lowercase form of a string, as `str::to_lowercase` computes it
/// (Unicode lowercase mapping).
pub uninterp spec fn lowercase(s: Seq<char>) -> Seq<char>;

/// Every character of `s` is ASCII.
pub open spec fn all_ascii(s: Seq<char>) -> bool {
    forall|i: int| 0 <= i < s.len() ==> (#[trigger] s[i]) <= '\u{7f}'
}

/// An ASCII character in lower case: `A` to `Z` become `a` to `z`.
pub open spec fn ascii_lower(c: char) -> char {
    if 'A' <= c <= 'Z' {
        ((c as u32) + 32) as char
    } else {
        c
    }
}

/// Calls `str::to_lowercase`; its result is named `lowercase` of the
/// argument. On ASCII text it lower-cases `A` to `Z` and keeps every
/// other character, as its documentation states.
#[verifier::external_body]
pub(crate) fn to_lowercase(s: &str) -> (res: String)
    ensures
        res@ == lowercase(s@),
        res@ == s@.map_values(|c: char| ascii_lower(c)) || !all_ascii(s@),
{
    s.to_lowercase()
}

/// The capture groups of the leftmost-first match of the regular
/// expression `pattern` in `text`, as the `regex` crate finds them:
/// group 0 is the whole match, and a group that did not take part is
/// `None`. `None` when `pattern` is not a valid expression or does not
/// match.
pub uninterp spec fn regex_captures(pattern: Seq<char>, text: Seq<char>) -> Option<Seq<Option<Seq<char>>>>;

/// The view of captured groups.
pub open spec fn groups_view(res: Option<Vec<Option<Vec<char>>>>) -> Option<Seq<Option<Seq<char>>>> {
    match res {
        Some(v) => Some(
            v@.map_values(
                |g: Option<Vec<char>>|
                    match g {
                        Some(c) => Some(c@),
                        None => None,
                    },
            ),
        ),
        None => None,
    }
}

/// Compiles `pattern` with `regex::Regex::new` and calls `captures` on
/// `text`; the result is named `regex_captures` of the two arguments.
#[verifier::external_body]
pub(crate) fn captures(pattern: &str, text: &str) -> (res: Option<Vec<Option<Vec<char>>>>)
    ensures
        groups_view(res) == regex_captures(pattern@, text@),
{
    let re = regex::Regex::new(pattern).ok()?;
    let caps = re.captures(text)?;
    Some(caps.iter().map(|g| g.map(|m| m.as_str().chars().collect())).collect())
}

/// `n` spaces.
pub open spec fn spaces(n: nat) -> Seq<char> {
    Seq::new(n, |i: int| ' ')
}

/// `s` right-aligned in a field of `width` characters, as `{:>width$}`
/// formats it: spaces are added on the left when `s` is shorter.
pub open spec fn pad_left(s: Seq<char>, width: int) -> Seq<char> {
    if s.len() < width {
        spaces((width - s.len()) as nat) + s
    } else {
        s
    }
}

/// Appends a string slice.
pub fn push_str(out: &mut String, s: &str)
    ensures
        final(out)@ == old(out)@ + s@,
{
    out.append(s);
}

/// Appends characters.
pub fn push_chars(out: &mut String, s: &Vec<char>)
    ensures
        final(out)@ == old(out)@ + s@,
{
    let ghost start = out@;
    let mut i: usize = 0;
    while i < s.len()
        invariant
            i <= s.len(),
            out@ == start + s@.take(i as int),
        decreases s.len() - i,
    {
        push_char(out, s[i]);
        i = i + 1;
        assert(out@ =~= start + s@.take(i as int));
    }
    assert(s@.take(s.len() as int) =~= s@);
}

/// Appends `n` spaces.
pub fn push_spaces(out: &mut String, n: usize)
    ensures
        final(out)@ == old(out)@ + spaces(n as nat),
{
    let ghost start = out@;
    let mut i: usize = 0;
    while i < n
        invariant
            i <= n,
            out@ == start + spaces(i as nat),
        decreases n - i,
    {
        push_char(out, ' ');
        i = i + 1;
        assert(out@ =~= start + spaces(i as nat));
    }
}

/// Appends `s` right-aligned in a field of `width` characters.
pub fn push_padded_left(out: &mut String, s: &String, width: usize)
    ensures
        final(out)@ == old(out)@ + pad_left(s@, width as int),
{
    let n = s.as_str().unicode_len();
    if n < width {
        push_spaces(out, width - n);
    }
    push_str(out, s.as_str());
}

/// Rust's integer division, which rounds toward zero.
pub open spec fn trunc_div(a: int, b: int) -> int {
    if a >= 0 {
        a / b
    } else {
        -((-a) / b)
    }
}

/// An integer as `{:02}` formats it: a minus sign for negative numbers,
/// and zero padding to two characters.
pub open spec fn fmt_02(n: int) -> Seq<char> {
    if n >= 0 {
        if n < 10 {
            seq!['0'] + decimal(n as nat)
        } else {
            decimal(n as nat)
        }
    } else {
        seq!['-'] + decimal((-n) as nat)
    }
}

/// Appends an integer formatted as `{:02}`.
pub fn push_fmt_02(out: &mut String, n: i64)
    requires
        n > i64::MIN,
    ensures
        final(out)@ == old(out)@ + fmt_02(n as int),
{
    let ghost start = out@;
    if n >= 0 {
        if n < 10 {
            push_char(out, '0');
        }
        let d = decimal_chars(n as u64);
        push_chars(out, &d);
        assert(out@ =~= start + fmt_02(n as int));
    } else {
        push_char(out, '-');
        let d = decimal_chars((-n) as u64);
        push_chars(out, &d);
        assert(out@ =~= start + fmt_02(n as int));
    }
}

/// The lexicographic comparison of two strings, character by character
/// (the order of their UTF-8 bytes): -1 when `a` comes first, 1 when
/// `b` does, 0 when they are equal. A string comes before any longer
/// string it begins.
pub open spec fn lex_sign(a: Seq<char>, b: Seq<char>) -> int
    decreases a.len(),
{
    if a.len() == 0 {
        if b.len() == 0 {
            0
        } else {
            -1
        }
    } else if b.len() == 0 {
        1
    } else if a[0] < b[0] {
        -1
    } else if a[0] > b[0] {
        1
    } else {
        lex_sign(a.skip(1), b.skip(1))
    }
}

/// Compares two strings: see `lex_sign`.
pub fn lex_compare(a: &str, b: &str) -> (res: i8)
    ensures
        res as int == lex_sign(a@, b@),
{
    let n = a.unicode_len();
    let m = b.unicode_len();
    let mut i: usize = 0;
    assert(a@.skip(0) =~= a@);
    assert(b@.skip(0) =~= b@);
    while i < n && i < m
        invariant
            i <= n,
            i <= m,
            n == a@.len(),
            m == b@.len(),
            lex_sign(a@, b@) == lex_sign(a@.skip(i as int), b@.skip(i as int)),
        decreases n - i,
    {
        let x = a.get_char(i);
        let y = b.get_char(i);
        if x < y {
            return -1;
        } else if x > y {
            return 1;
        }
        assert(a@.skip(i as int).skip(1) =~= a@.skip(i + 1));
        assert(b@.skip(i as int).skip(1) =~= b@.skip(i + 1));
        i = i + 1;
    }
    if i < n {
        1
    } else if i < m {
        -1
    } else {
        0
    }
}

/// Two strings compare equal exactly when they are equal, and swapping
/// them turns the comparison around.
pub proof fn law_lex_sign(a: Seq<char>, b: Seq<char>)
    ensures
        (lex_sign(a, b) == 0) == (a == b),
        lex_sign(b, a) == -lex_sign(a, b),
        -1 <= lex_sign(a, b) <= 1,
    decreases a.len(),
{
    if a.len() > 0 && b.len() > 0 && a[0] == b[0] {
        law_lex_sign(a.skip(1), b.skip(1));
        if a.skip(1) == b.skip(1) {
            assert(a =~= seq![a[0]] + a.skip(1));
            assert(b =~= seq![b[0]] + b.skip(1));
        }
    } else if a.len() == 0 && b.len() == 0 {
        assert(a =~= b);
    } else if a.len() > 0 && b.len() > 0 {
        assert(a[0] != b[0]);
    }
}

} // verus!
