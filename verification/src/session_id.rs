//! Session identifiers, and bytes as hexadecimal text.
use vstd::prelude::*;

use crate::text::{push_decimal, push_lower_hex, utf8_text};

verus! {

/// Length of a session identifier as text.
pub const SESSION_ID_CHARS: usize = 32;

/// Names a session to both of its ends.
#[derive(Debug, Clone, Copy, PartialEq, Eq, Hash)]
pub struct SessionId(pub [u8; 16]);

/// A text is not a session identifier.
#[derive(Debug, Clone, Copy, PartialEq, Eq, Structural)]
pub enum SessionIdError {
    /// It is not as long as one.
    Length(usize),
    /// Two bytes of it are no hexadecimal digits.
    InvalidHex(u8, u8),
}

impl SessionIdError {
    /// What the error says.
    pub open spec fn text(self) -> Seq<char> {
        match self {
            SessionIdError::Length(n) => "session-id must be 32 hex chars, got "@
                + crate::text::decimal(n as nat) + " chars"@,
            SessionIdError::InvalidHex(a, b) => if vstd::utf8::valid_utf8(seq![a, b]) {
                "invalid hex in session-id: "@ + vstd::utf8::decode_utf8(seq![a, b])
            } else {
                "invalid UTF-8 in session-id"@
            },
        }
    }

    /// What the error says.
    pub fn to_text(&self) -> (r: String)
        ensures
            r@ == self.text(),
    {
        match self {
            SessionIdError::Length(n) => {
                let mut s = "session-id must be 32 hex chars, got ".to_owned();
                push_decimal(&mut s, *n as u64);
                s.append(" chars");
                s
            },
            SessionIdError::InvalidHex(a, b) => {
                let mut pair: Vec<u8> = Vec::new();
                pair.push(*a);
                pair.push(*b);
                assert(pair@ =~= seq![*a, *b]);
                match utf8_text(pair) {
                    Some(chars) => {
                        let mut s = "invalid hex in session-id: ".to_owned();
                        s.append(chars.as_str());
                        proof {
                            vstd::utf8::encode_utf8_decode_utf8(chars@);
                        }
                        s
                    },
                    None => "invalid UTF-8 in session-id".to_owned(),
                }
            },
        }
    }
}

/// The value of a hexadecimal digit, given by its ASCII code.
pub open spec fn hex_value(b: u8) -> Option<u8> {
    if 48 <= b <= 57 {
        Some((b - 48) as u8)
    } else if 97 <= b <= 102 {
        Some((b - 87) as u8)
    } else if 65 <= b <= 70 {
        Some((b - 55) as u8)
    } else {
        None
    }
}

/// The value of a hexadecimal digit, given by its ASCII code.
fn digit_value(b: u8) -> (r: Option<u8>)
    ensures
        r == hex_value(b),
{
    if 48 <= b && b <= 57 {
        Some(b - 48)
    } else if 97 <= b && b <= 102 {
        Some(b - 87)
    } else if 65 <= b && b <= 70 {
        Some(b - 55)
    } else {
        None
    }
}

/// Pair `i` of the bytes is two hexadecimal digits.
pub open spec fn hex_pair(s: Seq<u8>, i: int) -> bool {
    hex_value(s[2 * i]) is Some && hex_value(s[2 * i + 1]) is Some
}

/// `r` is what reading the bytes as a session identifier gives: 32 hexadecimal digits, the more
/// significant one of each byte first. The first pair that is not hexadecimal is reported.
pub open spec fn reads_as(s: Seq<u8>, r: Result<SessionId, SessionIdError>) -> bool {
    match r {
        Ok(id) => {
            &&& s.len() == SESSION_ID_CHARS
            &&& forall|i: int|
                0 <= i < 16 ==> #[trigger] hex_pair(s, i) && id.0@[i] == hex_value(s[2 * i])->0 * 16
                    + hex_value(s[2 * i + 1])->0
        },
        Err(SessionIdError::Length(n)) => s.len() != SESSION_ID_CHARS && n == s.len(),
        Err(SessionIdError::InvalidHex(a, b)) => {
            &&& s.len() == SESSION_ID_CHARS
            &&& exists|i: int|
                0 <= i < 16 && !#[trigger] hex_pair(s, i) && a == s[2 * i] && b == s[2 * i + 1] && (
                forall|k: int| 0 <= k < i ==> #[trigger] hex_pair(s, k))
        },
    }
}

/// Read a session identifier.
pub fn parse_session_id(hex: &str) -> (r: Result<SessionId, SessionIdError>)
    ensures
        reads_as(vstd::utf8::encode_utf8(hex@), r),
{
    let s: &[u8] = hex.as_bytes();
    if s.len() != SESSION_ID_CHARS {
        return Err(SessionIdError::Length(s.len()));
    }
    let mut bytes: [u8; 16] = [0u8; 16];
    let mut i: usize = 0;
    while i < 16
        invariant
            i <= 16,
            s@.len() == SESSION_ID_CHARS,
            s@ == vstd::utf8::encode_utf8(hex@),
            forall|k: int|
                0 <= k < i ==> #[trigger] hex_pair(s@, k) && bytes@[k] == hex_value(s@[2 * k])->0
                    * 16 + hex_value(s@[2 * k + 1])->0,
        decreases 16 - i,
    {
        let a: u8 = s[2 * i];
        let b: u8 = s[2 * i + 1];
        match (digit_value(a), digit_value(b)) {
            (Some(h), Some(l)) => {
                let ghost before = bytes@;
                bytes[i] = h * 16 + l;
                assert(bytes@ =~= before.update(i as int, (h * 16 + l) as u8));
                assert(hex_pair(s@, i as int));
            },
            _ => {
                assert(!hex_pair(s@, i as int));
                return Err(SessionIdError::InvalidHex(a, b));
            },
        }
        i = i + 1;
    }
    Ok(SessionId(bytes))
}

/// Bytes as hexadecimal digits, two for each.
pub open spec fn hex_text(bytes: Seq<u8>) -> Seq<char> {
    Seq::new(bytes.len() * 2, |i: int| crate::text::lower_hex(bytes[i / 2])[i % 2])
}

/// Bytes as hexadecimal digits, two for each.
pub fn hex_encode(bytes: &[u8]) -> (r: String)
    ensures
        r@ == hex_text(bytes@),
{
    let mut out = "".to_owned();
    let mut i: usize = 0;
    proof {
        reveal_strlit("");
    }
    assert(out@ =~= hex_text(bytes@).take(0));
    while i < bytes.len()
        invariant
            i <= bytes@.len(),
            out@ == hex_text(bytes@).take(2 * i as int),
        decreases bytes@.len() - i,
    {
        push_lower_hex(&mut out, bytes[i]);
        proof {
            let all = hex_text(bytes@);
            let d = crate::text::lower_hex(bytes@[i as int]);
            assert(all[2 * i as int] == d[0]);
            assert(all[2 * i as int + 1] == d[1]);
            assert(out@ =~= all.take(2 * i as int + 2));
        }
        i = i + 1;
    }
    assert(hex_text(bytes@).take(2 * i as int) =~= hex_text(bytes@));
    out
}

/// A decimal digit, or one of the small letters from a to f.
pub open spec fn is_lower_hex(c: char) -> bool {
    '0' <= c <= '9' || 'a' <= c <= 'f'
}

/// Bytes as text are two characters for each byte, and none but digits and small letters.
pub proof fn law_hex_text_is_lower_case(bytes: Seq<u8>)
    ensures
        hex_text(bytes).len() == 2 * bytes.len(),
        forall|i: int| 0 <= i < 2 * bytes.len() ==> is_lower_hex(#[trigger] hex_text(bytes)[i]),
{
}

/// Reading back the text of an identifier gives the identifier.
pub proof fn law_session_id_roundtrip(id: SessionId, r: Result<SessionId, SessionIdError>)
    requires
        reads_as(vstd::utf8::encode_utf8(hex_text(id.0@)), r),
    ensures
        r matches Ok(back) && back.0@ == id.0@,
{
    let t = hex_text(id.0@);
    assert(id.0@.len() == 16);
    assert(vstd::utf8::is_ascii_chars(t));
    vstd::utf8::is_ascii_chars_encode_utf8(t);
    let s = vstd::utf8::encode_utf8(t);
    assert forall|i: int| 0 <= i < 16 implies #[trigger] hex_pair(s, i) && hex_value(s[2 * i])->0
        * 16 + hex_value(s[2 * i + 1])->0 == id.0@[i] by {
        let b = id.0@[i];
        assert(t[2 * i] == crate::text::lower_hex(b)[0]);
        assert(t[2 * i + 1] == crate::text::lower_hex(b)[1]);
    }
    match r {
        Ok(back) => {
            assert forall|i: int| 0 <= i < 16 implies back.0@[i] == id.0@[i] by {
                assert(hex_pair(s, i));
            }
            assert(back.0@ =~= id.0@);
        },
        Err(_) => {},
    }
}

/// The digits are 0 to 9 and the letters from a to f, small or capital, and nothing else.
pub proof fn law_hexadecimal_digits(b: u8)
    ensures
        '0' <= b as char <= '9' ==> hex_value(b) == Some((b - '0' as u8) as u8),
        'a' <= b as char <= 'f' ==> hex_value(b) == Some((b - 'a' as u8 + 10) as u8),
        'A' <= b as char <= 'F' ==> hex_value(b) == Some((b - 'A' as u8 + 10) as u8),
        hex_value(b) is Some ==> '0' <= b as char <= '9' || 'a' <= b as char <= 'f' || 'A'
            <= b as char <= 'F',
{
}

/// A text is a session identifier exactly when it is 32 hexadecimal digits. Two digits make a byte,
/// the more significant first. Of a text that is as long but is none, the first pair that is not
/// hexadecimal is reported, and of any other text its length.
pub proof fn law_what_a_session_id_is(s: Seq<u8>, r: Result<SessionId, SessionIdError>, i: int)
    requires
        reads_as(s, r),
    ensures
        r is Ok <==> s.len() == 32 && forall|k: int|
            0 <= k < 32 ==> hex_value(#[trigger] s[k]) is Some,
        r matches Ok(id) ==> (0 <= i < 16 ==> id.0@[i] == hex_value(s[2 * i])->0 * 16 + hex_value(
            s[2 * i + 1],
        )->0),
        r matches Err(SessionIdError::Length(n)) ==> n == s.len() && n != 32,
        s.len() != 32 ==> r is Err && r->Err_0 is Length,
        r matches Err(SessionIdError::InvalidHex(a, b)) ==> hex_value(a) is None || hex_value(b)
            is None,
        (r matches Err(SessionIdError::InvalidHex(a, b)) && 0 <= i < 16 && (forall|k: int|
            0 <= k < 2 * i ==> hex_value(#[trigger] s[k]) is Some) && (hex_value(s[2 * i]) is None
            || hex_value(s[2 * i + 1]) is None)) ==> r->Err_0->InvalidHex_0 == s[2 * i]
            && r->Err_0->InvalidHex_1 == s[2 * i + 1],
{
    match r {
        Ok(id) => {
            assert forall|k: int| 0 <= k < 32 implies hex_value(#[trigger] s[k]) is Some by {
                assert(hex_pair(s, k / 2));
            }
            if 0 <= i < 16 {
                assert(hex_pair(s, i));
            }
        },
        Err(SessionIdError::InvalidHex(a, b)) => {
            let j = choose|j: int|
                0 <= j < 16 && !#[trigger] hex_pair(s, j) && a == s[2 * j] && b == s[2 * j + 1] && (
                forall|k: int| 0 <= k < j ==> #[trigger] hex_pair(s, k));
            assert(!hex_pair(s, j));
            assert(hex_value(s[2 * j]) is None || hex_value(s[2 * j + 1]) is None);
            if 0 <= i < 16 && (forall|k: int| 0 <= k < 2 * i ==> hex_value(#[trigger] s[k]) is Some)
                && (hex_value(s[2 * i]) is None || hex_value(s[2 * i + 1]) is None) {
                if j < i {
                    assert(hex_value(s[2 * j]) is Some);
                    assert(hex_value(s[2 * j + 1]) is Some);
                }
                if i < j {
                    assert(hex_pair(s, i));
                }
            }
        },
        Err(SessionIdError::Length(_)) => {},
    }
}

/// Each byte is written as its two digits, the more significant first, and reads back as the byte.
pub proof fn law_hex_text_reads_back(bytes: Seq<u8>, i: int)
    requires
        0 <= i < bytes.len(),
    ensures
        ({
            let (a, b) = (hex_text(bytes)[2 * i], hex_text(bytes)[2 * i + 1]);
            &&& hex_value(a as u8) is Some && hex_value(b as u8) is Some
            &&& hex_value(a as u8)->0 * 16 + hex_value(b as u8)->0 == bytes[i]
        }),
{
    let d = crate::text::lower_hex(bytes[i]);
    assert(hex_text(bytes)[2 * i] == d[0]);
    assert(hex_text(bytes)[2 * i + 1] == d[1]);
}

} // verus!
