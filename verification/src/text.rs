//! Decimal and hexadecimal text.
use vstd::prelude::*;

verus! {

/// `String::push`: appends one character to the end of the string.
pub assume_specification[ String::push ](s: &mut String, c: char)
    ensures
        final(s)@ == old(s)@.push(c),
;

/// The character of one decimal digit.
pub open spec fn digit_char(d: int) -> char {
    (48 + d) as char
}

/// The decimal notation of `n`, without leading zeros.
pub open spec fn decimal(n: nat) -> Seq<char>
    decreases n,
{
    if n < 10 {
        seq![digit_char(n as int)]
    } else {
        decimal(n / 10).push(digit_char((n % 10) as int))
    }
}

/// Append the decimal notation of `n` to `out`.
pub fn push_decimal(out: &mut String, n: u64)
    ensures
        final(out)@ == old(out)@ + decimal(n as nat),
    decreases n,
{
    if n >= 10 {
        push_decimal(out, n / 10);
    }
    let d: u8 = (n % 10) as u8;
    out.push((48u8 + d) as char);
    assert(out@ =~= old(out)@ + decimal(n as nat));
}

/// The character of one hexadecimal digit, with capital letters.
pub open spec fn upper_hex_char(d: int) -> char {
    if d < 10 {
        digit_char(d)
    } else {
        (55 + d) as char
    }
}

/// The character of one hexadecimal digit, with small letters.
pub open spec fn lower_hex_char(d: int) -> char {
    if d < 10 {
        digit_char(d)
    } else {
        (87 + d) as char
    }
}

/// The two hexadecimal digits of a byte, with capital letters.
pub open spec fn upper_hex(b: u8) -> Seq<char> {
    seq![upper_hex_char((b / 16) as int), upper_hex_char((b % 16) as int)]
}

/// The two hexadecimal digits of a byte, with small letters.
pub open spec fn lower_hex(b: u8) -> Seq<char> {
    seq![lower_hex_char((b / 16) as int), lower_hex_char((b % 16) as int)]
}

/// Append the two hexadecimal digits of a byte, with capital letters.
pub fn push_upper_hex(out: &mut String, b: u8)
    ensures
        final(out)@ == old(out)@ + upper_hex(b),
{
    let h: u8 = b / 16;
    let l: u8 = b % 16;
    out.push((if h < 10 { 48u8 + h } else { 55u8 + h }) as char);
    out.push((if l < 10 { 48u8 + l } else { 55u8 + l }) as char);
    assert(out@ =~= old(out)@ + upper_hex(b));
}

/// Append the two hexadecimal digits of a byte, with small letters.
pub fn push_lower_hex(out: &mut String, b: u8)
    ensures
        final(out)@ == old(out)@ + lower_hex(b),
{
    let h: u8 = b / 16;
    let l: u8 = b % 16;
    out.push((if h < 10 { 48u8 + h } else { 87u8 + h }) as char);
    out.push((if l < 10 { 48u8 + l } else { 87u8 + l }) as char);
    assert(out@ =~= old(out)@ + lower_hex(b));
}

/// The number that a run of decimal digits stands for; `None` when something else is among them.
/// An empty run stands for zero.
pub open spec fn digits_value(s: Seq<char>) -> Option<nat>
    decreases s.len(),
{
    if s.len() == 0 {
        Some(0)
    } else {
        match digits_value(s.drop_last()) {
            Some(n) => if '0' <= s.last() <= '9' {
                Some((n * 10 + (s.last() as int - 48)) as nat)
            } else {
                None
            },
            None => None,
        }
    }
}

/// A text without the plus sign in front.
pub open spec fn unsigned(s: Seq<char>) -> Seq<char> {
    if s.len() > 0 && s[0] == '+' {
        s.skip(1)
    } else {
        s
    }
}

/// The number that a text stands for: decimal digits, at least one, after an optional plus sign.
pub open spec fn number_in(s: Seq<char>) -> Option<nat> {
    if unsigned(s).len() == 0 {
        None
    } else {
        digits_value(unsigned(s))
    }
}

/// The front of a run of digits is one, and stands for no larger number.
proof fn lemma_digits_prefix(s: Seq<char>, k: int)
    requires
        0 <= k <= s.len(),
        digits_value(s) is Some,
    ensures
        digits_value(s.take(k)) is Some,
        digits_value(s.take(k))->0 <= digits_value(s)->0,
    decreases s.len(),
{
    if k == s.len() {
        assert(s.take(k) =~= s);
    } else {
        lemma_digits_prefix(s.drop_last(), k);
        assert(s.drop_last().take(k) =~= s.take(k));
    }
}

/// Read a number that is not above `max`.
pub fn parse_number(s: &str, max: u64) -> (r: Option<u64>)
    ensures
        r == match number_in(s@) {
            Some(n) => if n <= max {
                Some(n as u64)
            } else {
                None
            },
            None => None,
        },
{
    let ghost run = unsigned(s@);
    let ghost start = s@.len() - run.len();
    let mut value: u64 = 0;
    let mut digits = false;
    let mut first = true;
    for c in it: s.chars()
        invariant
            it.seq() == s@,
            run == unsigned(s@),
            start == s@.len() - run.len(),
            first == (it.index() == 0),
            digits == (it.index() > start),
            value <= max,
            it.index() >= start ==> digits_value(run.take(it.index() - start)) == Some(
                value as nat,
            ),
            it.index() < start ==> value == 0,
    {
        let ghost k = it.index() - start;
        assert(c == s@[it.index()]);
        if first && c == '+' {
            first = false;
            assert(run.take(0) =~= Seq::<char>::empty());
        } else {
            first = false;
            proof {
                assert(run.take(k + 1).drop_last() =~= run.take(k));
                assert(run[k] == c);
                if k == 0 {
                    assert(run.take(0) =~= Seq::<char>::empty());
                }
                if digits_value(run) is Some {
                    lemma_digits_prefix(run, k + 1);
                }
            }
            if c < '0' || c > '9' {
                return None;
            }
            let d: u64 = c as u64 - 48;
            let next: u128 = value as u128 * 10 + d as u128;
            if next > max as u128 {
                return None;
            }
            value = next as u64;
            digits = true;
        }
    }
    assert(run.take(run.len() as int) =~= run);
    if digits {
        Some(value)
    } else {
        None
    }
}

/// Whether two texts are the same.
pub fn same_text(a: &str, b: &str) -> (r: bool)
    ensures
        r == (a@ == b@),
{
    let x: &[u8] = a.as_bytes();
    let y: &[u8] = b.as_bytes();
    if x.len() != y.len() {
        return false;
    }
    let mut i: usize = 0;
    while i < x.len()
        invariant
            i <= x@.len(),
            x@.len() == y@.len(),
            x@ == vstd::utf8::encode_utf8(a@),
            y@ == vstd::utf8::encode_utf8(b@),
            forall|k: int| 0 <= k < i ==> x@[k] == y@[k],
        decreases x@.len() - i,
    {
        if x[i] != y[i] {
            return false;
        }
        i = i + 1;
    }
    proof {
        assert(x@ =~= y@);
        vstd::utf8::encode_utf8_decode_utf8(a@);
        vstd::utf8::encode_utf8_decode_utf8(b@);
    }
    true
}

/// The bytes of a text in UTF-8.
pub fn utf8_bytes(s: &str) -> (r: Vec<u8>)
    ensures
        r@ == vstd::utf8::encode_utf8(s@),
{
    let mut out: Vec<u8> = Vec::new();
    crate::raw::push_all(&mut out, s.as_bytes());
    assert(out@ =~= vstd::utf8::encode_utf8(s@));
    out
}

/// `String::from_utf8`: the text that the bytes encode, when they are UTF-8.
#[verifier::external_body]
pub(crate) fn utf8_text(bytes: Vec<u8>) -> (r: Option<String>)
    ensures
        r is Some <==> vstd::utf8::valid_utf8(bytes@),
        r matches Some(s) ==> vstd::utf8::encode_utf8(s@) == bytes@,
{
    String::from_utf8(bytes).ok()
}

/// A number in decimal notation reads back as the number, is made of digits alone, and has no zero
/// in front unless it is zero.
pub proof fn law_decimal_reads_back(n: nat)
    ensures
        digits_value(decimal(n)) == Some(n),
        number_in(decimal(n)) == Some(n),
        decimal(n).len() > 0,
        n > 0 ==> decimal(n)[0] != '0',
        forall|i: int| 0 <= i < decimal(n).len() ==> '0' <= #[trigger] decimal(n)[i] <= '9',
    decreases n,
{
    let d = decimal(n);
    if n < 10 {
        assert(d.drop_last() =~= Seq::<char>::empty());
        assert(digits_value(d.drop_last()) == Some(0nat));
    } else {
        law_decimal_reads_back(n / 10);
        let front = decimal(n / 10);
        assert(d == front.push(digit_char((n % 10) as int)));
        assert(d.drop_last() =~= front);
        assert(d[0] == front[0]);
        assert forall|i: int| 0 <= i < d.len() implies '0' <= #[trigger] d[i] <= '9' by {
            if i < front.len() {
                assert(d[i] == front[i]);
            }
        }
    }
    assert('0' <= d[0] <= '9');
}

/// What is read as a number: one digit more in the end makes it ten times as large and adds the
/// digit, a plus sign in front changes nothing, and nothing but digits may follow it. There is no
/// number without a digit.
pub proof fn law_numbers_are_read_digit_by_digit(s: Seq<char>, c: char)
    ensures
        number_in(Seq::empty()) is None,
        number_in(seq!['+']) is None,
        s.len() > 0 && s[0] != '+' ==> number_in(seq!['+'] + s) == number_in(s),
        '0' <= c <= '9' && number_in(s) is Some ==> number_in(s.push(c)) == Some(
            (number_in(s)->0 * 10 + (c as int - '0' as int)) as nat,
        ),
        '0' <= c <= '9' ==> number_in(seq![c]) == Some((c as int - '0' as int) as nat),
        !('0' <= c <= '9') && s.len() > 0 ==> number_in(s.push(c)) is None,
{
    let signed = seq!['+'] + s;
    if s.len() > 0 && s[0] != '+' {
        assert(unsigned(signed) =~= s);
        assert(unsigned(s) == s);
    }
    assert(unsigned(seq!['+']) =~= Seq::<char>::empty());
    let more = s.push(c);
    if s.len() > 0 {
        assert(more[0] == s[0]);
        if s[0] == '+' {
            assert(unsigned(more) =~= unsigned(s).push(c));
        } else {
            assert(unsigned(more) =~= unsigned(s).push(c));
        }
        assert(unsigned(more).drop_last() =~= unsigned(s));
        assert(unsigned(more).last() == c);
    }
    let one = seq![c];
    assert(one.drop_last() =~= Seq::<char>::empty());
    assert(digits_value(Seq::<char>::empty()) == Some(0nat));
    if c != '+' {
        assert(unsigned(one) == one);
    }
}

/// Two hexadecimal digits are those of the byte, whichever letters they are written with.
pub proof fn law_hex_digits_of_a_byte(b: u8)
    ensures
        upper_hex(b).len() == 2,
        lower_hex(b).len() == 2,
        forall|i: int|
            0 <= i < 2 ==> {
                let d = if i == 0 {
                    b / 16
                } else {
                    b % 16
                };
                &&& d < 10 ==> #[trigger] upper_hex(b)[i] as int == '0' as int + d
                    && lower_hex(b)[i] as int == '0' as int + d
                &&& d >= 10 ==> upper_hex(b)[i] as int == 'A' as int + d - 10
                    && lower_hex(b)[i] as int == 'a' as int + d - 10
            },
{
}

} // verus!
