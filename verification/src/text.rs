//! Text helpers: comparing names, decimal numbers in and out of strings.
use vstd::prelude::*;
use vstd::string::{StrSliceExecFns, StringExecFns};
use vstd::utf8::{decode_utf8, valid_utf8};

verus! {

/// Whether `s` reads exactly `lit`.
pub fn str_is(s: &str, lit: &str) -> (r: bool)
    ensures
        r == (s@ == lit@),
{
    let a = s.to_owned();
    let b = lit.to_owned();
    a == b
}

/// The character of the decimal digit `d`.
pub open spec fn digit_char(d: nat) -> char {
    (48 + d) as char
}

/// `n` written in decimal, without leading zeros.
pub open spec fn decimal(n: nat) -> Seq<char>
    decreases n,
{
    if n < 10 {
        seq![digit_char(n)]
    } else {
        decimal(n / 10) + seq![digit_char(n % 10)]
    }
}

/// The one-character string of digit `d`.
fn digit_str(d: u8) -> (s: &'static str)
    requires
        d < 10,
    ensures
        s@ == seq![digit_char(d as nat)],
{
    proof {
        reveal_strlit("0");
        reveal_strlit("1");
        reveal_strlit("2");
        reveal_strlit("3");
        reveal_strlit("4");
        reveal_strlit("5");
        reveal_strlit("6");
        reveal_strlit("7");
        reveal_strlit("8");
        reveal_strlit("9");
    }
    let s = match d {
        0 => "0",
        1 => "1",
        2 => "2",
        3 => "3",
        4 => "4",
        5 => "5",
        6 => "6",
        7 => "7",
        8 => "8",
        _ => "9",
    };
    assert(s@ =~= seq![digit_char(d as nat)]);
    s
}

/// The decimal digits of `n`, least significant first.
pub open spec fn digits_rev(n: nat) -> Seq<u8>
    decreases n,
{
    if n < 10 {
        seq![n as u8]
    } else {
        seq![(n % 10) as u8] + digits_rev(n / 10)
    }
}

/// Appends the decimal writing of `n` to `s`.
pub fn push_decimal(s: &mut String, n: u64)
    ensures
        final(s)@ == old(s)@ + decimal(n as nat),
    decreases n,
{
    if n < 10 {
        s.append(digit_str(n as u8));
    } else {
        push_decimal(s, n / 10);
        s.append(digit_str((n % 10) as u8));
    }
}

/// `n` written in decimal.
pub fn u64_to_string(n: u64) -> (r: String)
    ensures
        r@ == decimal(n as nat),
{
    let mut s = String::new();
    push_decimal(&mut s, n);
    assert(s@ =~= decimal(n as nat));
    s
}

/// `n` written in decimal, with a minus sign when negative.
pub open spec fn signed_decimal(n: int) -> Seq<char> {
    if n < 0 {
        seq!['-'] + decimal((-n) as nat)
    } else {
        decimal(n as nat)
    }
}

/// `n` written in decimal, with a minus sign when negative.
pub fn i64_to_string(n: i64) -> (r: String)
    requires
        n > i64::MIN,
    ensures
        r@ == signed_decimal(n as int),
{
    let mut s = String::new();
    if n < 0 {
        proof {
            reveal_strlit("-");
        }
        s.append("-");
        push_decimal(&mut s, (-n) as u64);
        assert(s@ =~= signed_decimal(n as int));
    } else {
        push_decimal(&mut s, n as u64);
        assert(s@ =~= signed_decimal(n as int));
    }
    s
}

/// Whether `c` is a decimal digit.
pub open spec fn is_digit(c: char) -> bool {
    '0' <= c && c <= '9'
}

/// The value of the decimal digits `cs`.
pub open spec fn digits_value(cs: Seq<char>) -> nat
    decreases cs.len(),
{
    if cs.len() == 0 {
        0
    } else {
        10 * digits_value(cs.drop_last()) + ((cs.last() as int - 48) as nat)
    }
}

/// `s` without its leading plus sign, if it has one.
pub open spec fn number_body(s: Seq<char>) -> Seq<char> {
    if s.len() > 0 && s[0] == '+' {
        s.skip(1)
    } else {
        s
    }
}

/// Whether all characters of `cs` are decimal digits.
pub open spec fn all_digits(cs: Seq<char>) -> bool {
    forall|i: int| 0 <= i < cs.len() ==> is_digit(#[trigger] cs[i])
}

/// How `s` reads as an unsigned number below `bound`: an optional plus sign,
/// then one digit or more, of a value below `bound`; None otherwise.
pub open spec fn spec_parse_unsigned(s: Seq<char>, bound: nat) -> Option<nat> {
    let body = number_body(s);
    if body.len() == 0 {
        None
    } else if !all_digits(body) {
        None
    } else if digits_value(body) >= bound {
        None
    } else {
        Some(digits_value(body))
    }
}

proof fn lemma_digits_value_monotone(cs: Seq<char>, i: int)
    requires
        0 <= i <= cs.len(),
        forall|k: int| 0 <= k < cs.len() ==> is_digit(#[trigger] cs[k]),
    ensures
        digits_value(cs.take(i)) <= digits_value(cs),
    decreases cs.len() - i,
{
    if i < cs.len() {
        lemma_digits_value_monotone(cs, i + 1);
        assert(cs.take(i + 1).drop_last() =~= cs.take(i));
    } else {
        assert(cs.take(i) =~= cs);
    }
}

/// Reads `s` as a u16 the way the standard library does (see `spec_parse_unsigned`).
pub fn parse_u16(s: &str) -> (r: Option<u16>)
    ensures
        r matches Some(v) ==> spec_parse_unsigned(s@, 65536) == Some(v as nat),
        r is None ==> spec_parse_unsigned(s@, 65536) is None,
{
    let n = s.unicode_len();
    let mut start: usize = 0;
    if n > 0 && s.get_char(0) == '+' {
        start = 1;
    }
    let ghost body = number_body(s@);
    assert(body =~= s@.skip(start as int));
    if start >= n {
        return None;
    }
    let mut value: u32 = 0;
    let mut i: usize = start;
    while i < n
        invariant
            n == s@.len(),
            start <= i <= n,
            body == s@.skip(start as int),
            body == number_body(s@),
            forall|k: int| 0 <= k < i - start ==> is_digit(#[trigger] body[k]),
            value == digits_value(body.take(i - start)),
            value < 65536,
        decreases n - i,
    {
        let c = s.get_char(i);
        assert(body[i - start] == s@[i as int]);
        if c < '0' || c > '9' {
            assert(!is_digit(body[i - start]));
            return None;
        }
        let d = (c as u32) - 48;
        assert(body.take(i - start + 1).drop_last() =~= body.take(i - start));
        assert(body.take(i - start + 1).last() == c);
        value = value * 10 + d;
        i = i + 1;
        if value >= 65536 {
            proof {
                if all_digits(body) {
                    lemma_digits_value_monotone(body, i - start);
                }
            }
            return None;
        }
    }
    assert(body.take(n - start) =~= body);
    Some(value as u16)
}

/// Whether `c` is a hexadecimal digit, in either case.
pub open spec fn is_hex_digit(c: char) -> bool {
    ('0' <= c && c <= '9') || ('a' <= c && c <= 'f') || ('A' <= c && c <= 'F')
}

/// The value of a hexadecimal digit.
pub open spec fn hex_digit_value(c: char) -> nat {
    if '0' <= c && c <= '9' {
        (c as int - 48) as nat
    } else if 'a' <= c && c <= 'f' {
        (c as int - 87) as nat
    } else {
        (c as int - 55) as nat
    }
}

/// The value of the hexadecimal digits `cs`.
pub open spec fn hex_value(cs: Seq<char>) -> nat
    decreases cs.len(),
{
    if cs.len() == 0 {
        0
    } else {
        16 * hex_value(cs.drop_last()) + hex_digit_value(cs.last())
    }
}

/// How `s` reads as a hexadecimal byte, the way `u8::from_str_radix(s, 16)`
/// reads it: an optional plus sign, then one digit or more, of a value
/// below 256; None otherwise.
pub open spec fn spec_parse_hex_u8(s: Seq<char>) -> Option<u8> {
    let body = number_body(s);
    if body.len() == 0 {
        None
    } else if !(forall|i: int| 0 <= i < body.len() ==> is_hex_digit(#[trigger] body[i])) {
        None
    } else if hex_value(body) >= 256 {
        None
    } else {
        Some(hex_value(body) as u8)
    }
}

proof fn lemma_hex_value_monotone(cs: Seq<char>, i: int)
    requires
        0 <= i <= cs.len(),
        forall|k: int| 0 <= k < cs.len() ==> is_hex_digit(#[trigger] cs[k]),
    ensures
        hex_value(cs.take(i)) <= hex_value(cs),
    decreases cs.len() - i,
{
    if i < cs.len() {
        lemma_hex_value_monotone(cs, i + 1);
        assert(cs.take(i + 1).drop_last() =~= cs.take(i));
    } else {
        assert(cs.take(i) =~= cs);
    }
}

/// Reads `s` as a hexadecimal byte (see `spec_parse_hex_u8`).
pub fn parse_hex_u8(s: &Vec<char>) -> (r: Option<u8>)
    ensures
        r == spec_parse_hex_u8(s@),
{
    let n = s.len();
    let mut start: usize = 0;
    if n > 0 && s[0] == '+' {
        start = 1;
    }
    let ghost body = number_body(s@);
    assert(body =~= s@.skip(start as int));
    if start >= n {
        return None;
    }
    let mut value: u32 = 0;
    let mut i: usize = start;
    while i < n
        invariant
            n == s@.len(),
            start <= i <= n,
            body == s@.skip(start as int),
            body == number_body(s@),
            forall|k: int| 0 <= k < i - start ==> is_hex_digit(#[trigger] body[k]),
            value == hex_value(body.take(i - start)),
            value < 256,
        decreases n - i,
    {
        let c = s[i];
        assert(body[i - start] == s@[i as int]);
        let d: u32 = if '0' <= c && c <= '9' {
            (c as u32) - 48
        } else if 'a' <= c && c <= 'f' {
            (c as u32) - 87
        } else if 'A' <= c && c <= 'F' {
            (c as u32) - 55
        } else {
            assert(!is_hex_digit(body[i - start]));
            return None;
        };
        assert(body.take(i - start + 1).drop_last() =~= body.take(i - start));
        assert(body.take(i - start + 1).last() == c);
        value = value * 16 + d;
        i = i + 1;
        if value >= 256 {
            proof {
                if forall|k: int| 0 <= k < body.len() ==> is_hex_digit(#[trigger] body[k]) {
                    lemma_hex_value_monotone(body, i - start);
                }
            }
            return None;
        }
    }
    assert(body.take(n - start) =~= body);
    Some(value as u8)
}

/// Whether `c` is one of the characters trimmed off a key byte: '0', 'x', 'X'.
pub open spec fn is_prefix_char(c: char) -> bool {
    c == '0' || c == 'x' || c == 'X'
}

/// `s` without its leading '0', 'x' and 'X' characters.
pub open spec fn strip_leading(s: Seq<char>) -> Seq<char>
    decreases s.len(),
{
    if s.len() > 0 && is_prefix_char(s[0]) {
        strip_leading(s.drop_first())
    } else {
        s
    }
}

/// `s` without its trailing '0', 'x' and 'X' characters.
pub open spec fn strip_trailing(s: Seq<char>) -> Seq<char>
    decreases s.len(),
{
    if s.len() > 0 && is_prefix_char(s.last()) {
        strip_trailing(s.drop_last())
    } else {
        s
    }
}

/// `s` with '0', 'x' and 'X' trimmed off both ends, as `str::trim_matches`
/// does with these three characters.
pub open spec fn trim_key_byte(s: Seq<char>) -> Seq<char> {
    strip_trailing(strip_leading(s))
}

/// The fields of `s` between commas, as `str::split(',')` gives them (an
/// empty text has one empty field).
pub open spec fn split_commas(s: Seq<char>) -> Seq<Seq<char>>
    decreases s.len(),
{
    if s.len() == 0 {
        seq![Seq::<char>::empty()]
    } else {
        let init = split_commas(s.drop_last());
        if s.last() == ',' {
            init.push(Seq::<char>::empty())
        } else {
            init.update(init.len() - 1, init.last().push(s.last()))
        }
    }
}

proof fn lemma_split_nonempty(s: Seq<char>)
    ensures
        split_commas(s).len() >= 1,
    decreases s.len(),
{
    if s.len() > 0 {
        lemma_split_nonempty(s.drop_last());
    }
}

/// The bytes of a MIFARE key written as comma-separated hexadecimal bytes
/// ("0xFF,0xFF,..."), each trimmed of '0', 'x' and 'X' at both ends before it
/// is read; None where a field does not read as a byte.
pub open spec fn spec_key_bytes(s: Seq<char>) -> Option<Seq<u8>> {
    let fields = split_commas(s);
    if forall|i: int| 0 <= i < fields.len() ==> (#[trigger] spec_parse_hex_u8(trim_key_byte(fields[i]))) is Some {
        Some(Seq::new(fields.len(), |i: int| spec_parse_hex_u8(trim_key_byte(fields[i]))->0))
    } else {
        None
    }
}

fn trim_key_field(f: &Vec<char>) -> (r: Vec<char>)
    ensures
        r@ == trim_key_byte(f@),
{
    let n = f.len();
    let mut a: usize = 0;
    assert(f@.skip(0) =~= f@);
    while a < n && (f[a] == '0' || f[a] == 'x' || f[a] == 'X')
        invariant
            n == f@.len(),
            a <= n,
            strip_leading(f@.skip(a as int)) == strip_leading(f@),
        decreases n - a,
    {
        assert(f@.skip(a as int).drop_first() =~= f@.skip(a + 1));
        a = a + 1;
    }
    let ghost lead = f@.skip(a as int);
    assert(strip_leading(lead) == lead);
    let mut b: usize = n;
    while b > a && (f[b - 1] == '0' || f[b - 1] == 'x' || f[b - 1] == 'X')
        invariant
            n == f@.len(),
            a <= b <= n,
            lead == f@.skip(a as int),
            strip_trailing(f@.subrange(a as int, b as int)) == strip_trailing(lead),
        decreases b - a,
    {
        assert(f@.subrange(a as int, b as int).drop_last() =~= f@.subrange(a as int, b - 1));
        b = b - 1;
    }
    if b == n {
        assert(f@.subrange(a as int, n as int) =~= lead);
    } else {
        assert(f@.subrange(a as int, n as int) =~= lead);
    }
    let mut r: Vec<char> = Vec::new();
    let mut k: usize = a;
    while k < b
        invariant
            a <= k <= b <= n,
            n == f@.len(),
            r@ == f@.subrange(a as int, k as int),
        decreases b - k,
    {
        r.push(f[k]);
        k = k + 1;
        assert(r@ =~= f@.subrange(a as int, k as int));
    }
    assert(strip_trailing(r@) == r@);
    r
}

/// Reads a MIFARE key written as comma-separated hexadecimal bytes (see
/// `spec_key_bytes`).
pub fn parse_key_bytes(text: &str) -> (r: Option<Vec<u8>>)
    ensures
        r matches Some(v) ==> spec_key_bytes(text@) == Some(v@),
        r is None ==> spec_key_bytes(text@) is None,
{
    let n = text.unicode_len();
    let ghost s = text@;
    let mut fields: Vec<Vec<char>> = Vec::new();
    let mut cur: Vec<char> = Vec::new();
    let mut i: usize = 0;
    while i < n
        invariant
            n == s.len(),
            s == text@,
            i <= n,
            split_commas(s.take(i as int)).len() == fields@.len() + 1,
            forall|j: int| 0 <= j < fields@.len() ==> (#[trigger] fields@[j])@ == split_commas(s.take(i as int))[j],
            cur@ == split_commas(s.take(i as int)).last(),
        decreases n - i,
    {
        let c = text.get_char(i);
        assert(s.take(i + 1).drop_last() =~= s.take(i as int));
        assert(s.take(i + 1).last() == c);
        proof {
            lemma_split_nonempty(s.take(i as int));
        }
        if c == ',' {
            let done = cur;
            fields.push(done);
            cur = Vec::new();
        } else {
            cur.push(c);
        }
        i = i + 1;
        assert forall|j: int| 0 <= j < fields@.len() implies (#[trigger] fields@[j])@ == split_commas(s.take(i as int))[j] by {
        }
    }
    assert(s.take(n as int) =~= s);
    fields.push(cur);
    let ghost all = split_commas(s);
    assert(fields@.len() == all.len());
    let mut out: Vec<u8> = Vec::new();
    let mut k: usize = 0;
    while k < fields.len()
        invariant
            fields@.len() == all.len(),
            all == split_commas(text@),
            forall|j: int| 0 <= j < fields@.len() ==> (#[trigger] fields@[j])@ == all[j],
            k <= fields@.len(),
            out@.len() == k,
            forall|j: int| 0 <= j < k ==> spec_parse_hex_u8(trim_key_byte(all[j])) == Some(#[trigger] out@[j]),
        decreases fields@.len() - k,
    {
        let t = trim_key_field(&fields[k]);
        match parse_hex_u8(&t) {
            Some(b) => out.push(b),
            None => {
                assert(spec_parse_hex_u8(trim_key_byte(all[k as int])) is None);
                return None;
            },
        }
        k = k + 1;
    }
    assert forall|j: int| 0 <= j < all.len() implies (#[trigger] spec_parse_hex_u8(trim_key_byte(all[j]))) is Some by {
        assert(spec_parse_hex_u8(trim_key_byte(all[j])) == Some(out@[j]));
    }
    assert(out@ =~= Seq::new(all.len(), |i: int| spec_parse_hex_u8(trim_key_byte(all[i]))->0));
    Some(out)
}

/// The text `String::from_utf8_lossy` makes of `bytes`: invalid sequences
/// become U+FFFD.
pub uninterp spec fn utf8_lossy(bytes: Seq<u8>) -> Seq<char>;

/// Whether `c` has the Unicode White_Space property, by which `str::trim_end`
/// trims: tab to carriage return, space, next line, no-break space, ogham
/// space mark, en quad to hair space, line and paragraph separators, narrow
/// no-break space, medium mathematical space and ideographic space.
pub open spec fn is_white_space(c: char) -> bool {
    let u = c as u32;
    ||| 0x09 <= u <= 0x0D
    ||| u == 0x20
    ||| u == 0x85
    ||| u == 0xA0
    ||| u == 0x1680
    ||| 0x2000 <= u <= 0x200A
    ||| u == 0x2028
    ||| u == 0x2029
    ||| u == 0x202F
    ||| u == 0x205F
    ||| u == 0x3000
}

/// `s` without its trailing white space (what `str::trim_end` leaves).
pub open spec fn trimmed_end(s: Seq<char>) -> Seq<char>
    decreases s.len(),
{
    if s.len() > 0 && is_white_space(s.last()) {
        trimmed_end(s.drop_last())
    } else {
        s
    }
}

/// Whether `c` is white space (see `is_white_space`).
pub fn white_space(c: char) -> (r: bool)
    ensures
        r == is_white_space(c),
{
    let u = c as u32;
    (0x09 <= u && u <= 0x0D) || u == 0x20 || u == 0x85 || u == 0xA0 || u == 0x1680 || (0x2000 <= u && u
        <= 0x200A) || u == 0x2028 || u == 0x2029 || u == 0x202F || u == 0x205F || u == 0x3000
}

/// What `str::to_lowercase` makes of `s`.
pub uninterp spec fn lowercase(s: Seq<char>) -> Seq<char>;

/// Whether `bytes` is valid UTF-8, by `std::str::from_utf8`, which accepts
/// exactly the valid encodings.
#[verifier::external_body]
pub(crate) fn utf8_valid(bytes: &Vec<u8>) -> (r: bool)
    ensures
        r == valid_utf8(bytes@),
{
    std::str::from_utf8(bytes.as_slice()).is_ok()
}

/// `String::from_utf8`: the text that `bytes` encode, where they are valid
/// UTF-8.
#[verifier::external_body]
pub(crate) fn string_from_utf8(bytes: Vec<u8>) -> (r: Option<String>)
    ensures
        r is Some <==> valid_utf8(bytes@),
        r matches Some(s) ==> s@ == decode_utf8(bytes@),
{
    String::from_utf8(bytes).ok()
}

/// `String::from_utf8_lossy`: the text of `bytes`, with U+FFFD for each
/// invalid sequence; valid UTF-8 is decoded as it is.
#[verifier::external_body]
pub(crate) fn utf8_lossy_string(bytes: &Vec<u8>) -> (r: String)
    ensures
        r@ == utf8_lossy(bytes@),
        valid_utf8(bytes@) ==> r@ == decode_utf8(bytes@),
{
    String::from_utf8_lossy(bytes.as_slice()).into_owned()
}

/// `s` without its trailing white space (see `trimmed_end`).
pub fn trim_end_string(s: &str) -> (r: String)
    ensures
        r@ == trimmed_end(s@),
        r@ == s@.take(r@.len() as int),
{
    let mut n: usize = s.unicode_len();
    assert(s@.take(n as int) =~= s@);
    while n > 0 && white_space(s.get_char(n - 1))
        invariant
            n <= s@.len(),
            trimmed_end(s@.take(n as int)) == trimmed_end(s@),
        decreases n,
    {
        assert(s@.take(n as int).drop_last() =~= s@.take(n - 1));
        n = n - 1;
    }
    assert(trimmed_end(s@.take(n as int)) == s@.take(n as int));
    let r = s.substring_char(0, n).to_owned();
    assert(s@.subrange(0, n as int) =~= s@.take(n as int));
    r
}

/// `str::to_lowercase`: the lowercase mapping of each character of `s`.
#[verifier::external_body]
pub(crate) fn to_lowercase_string(s: &str) -> (r: String)
    ensures
        r@ == lowercase(s@),
{
    s.to_lowercase()
}

} // verus!
