//! Paste hardening: make untrusted clipboard text safe for a paste sink.
//!
//! Line endings are normalised to LF; control, bidi, zero-width, tag and noncharacter scalars are
//! removed. Everything else, in every script, passes through unchanged.
use vstd::prelude::*;

verus! {

/// Line separator.
pub const LINE_SEPARATOR: char = '\u{2028}';

/// Paragraph separator.
pub const PARAGRAPH_SEPARATOR: char = '\u{2029}';

/// Scalar `u` is one of the controls or invisible characters that have no place in pasted text,
/// or one of the line endings that are normalised away.
pub open spec fn forbidden_scalar(u: int) -> bool {
    // C0 controls but for TAB and LF.
    ||| 0x00 <= u <= 0x08
    ||| 0x0B <= u <= 0x1F
    // DEL and the C1 controls.
    ||| 0x7F <= u <= 0x9F
    // Soft hyphen, Arabic letter mark, Mongolian vowel separator.
    ||| u == 0xAD || u == 0x061C || u == 0x180E
    // Line and paragraph separators.
    ||| u == 0x2028 || u == 0x2029
    // Zero-width characters and bidi marks.
    ||| 0x200B <= u <= 0x200F
    // Bidi embeddings and overrides.
    ||| 0x202A <= u <= 0x202E
    // Word joiner and invisible operators.
    ||| 0x2060 <= u <= 0x2064
    // Bidi isolates and deprecated format controls.
    ||| 0x2066 <= u <= 0x206F
    // Byte-order mark and interlinear annotation controls.
    ||| u == 0xFEFF || 0xFFF9 <= u <= 0xFFFB
    // Noncharacters: one block, and the last two scalars of every plane.
    ||| 0xFDD0 <= u <= 0xFDEF
    ||| u % 0x10000 >= 0xFFFE
    // Musical format controls and the tag block.
    ||| 0x1D173 <= u <= 0x1D17A
    ||| 0xE0000 <= u <= 0xE007F
}

/// `c` must not appear in sanitised text.
pub open spec fn forbidden(c: char) -> bool {
    forbidden_scalar(c as int)
}

/// `c` ends a line, other than by LF.
pub open spec fn line_end(c: char) -> bool {
    c == '\r' || c == LINE_SEPARATOR || c == PARAGRAPH_SEPARATOR
}

/// What the character at position `i` of `s` contributes to the sanitised text: nothing for the
/// LF of a CRLF, whose CR already stands for the line end; LF for any other line end; nothing for
/// a forbidden scalar; itself otherwise.
pub open spec fn contribution(s: Seq<char>, i: int) -> Seq<char> {
    if s[i] == '\n' && i > 0 && s[i - 1] == '\r' {
        Seq::empty()
    } else if line_end(s[i]) {
        seq!['\n']
    } else if forbidden(s[i]) {
        Seq::empty()
    } else {
        seq![s[i]]
    }
}

/// The sanitised text of the first `n` characters of `s`.
pub open spec fn sanitized_prefix(s: Seq<char>, n: int) -> Seq<char>
    decreases n,
{
    if n <= 0 {
        Seq::empty()
    } else {
        sanitized_prefix(s, n - 1) + contribution(s, n - 1)
    }
}

/// The sanitised text of `s`.
pub open spec fn sanitized(s: Seq<char>) -> Seq<char> {
    sanitized_prefix(s, s.len() as int)
}

/// Whether `c` must never appear in sanitised text.
pub fn is_forbidden_in_paste_output(c: char) -> (r: bool)
    ensures
        r == forbidden(c),
{
    let u: u32 = c as u32;
    assert(u & 0xFFFE == 0xFFFE <==> u % 0x10000 >= 0xFFFE) by (bit_vector);
    matches!(u,
        0x00..=0x08
        | 0x0B..=0x1F
        | 0x7F
        | 0x80..=0x9F
        | 0xAD
        | 0x061C
        | 0x180E
        | 0x2028
        | 0x2029
        | 0x200B..=0x200F
        | 0x202A..=0x202E
        | 0x2060..=0x2064
        | 0x2066..=0x2069
        | 0x206A..=0x206F
        | 0xFEFF
        | 0xFFF9..=0xFFFB
        | 0xFDD0..=0xFDEF
        | 0x1D173..=0x1D17A
        | 0xE0000..=0xE007F
    ) || u & 0xFFFE == 0xFFFE
}

/// Make untrusted clipboard text safe to hand to a paste sink.
pub fn sanitize_clipboard_text(input: &str) -> (out: String)
    ensures
        out@ == sanitized(input@),
{
    let mut out = String::new();
    let mut after_cr = false;
    for c in it: input.chars()
        invariant
            it.seq() == input@,
            out@ == sanitized_prefix(input@, it.index()),
            after_cr == (it.index() > 0 && input@[it.index() - 1] == '\r'),
    {
        let ghost before = out@;
        if c == '\n' && after_cr {
            // The CR before it already ended the line.
        } else if c == '\r' || c == LINE_SEPARATOR || c == PARAGRAPH_SEPARATOR {
            out.push('\n');
        } else if !is_forbidden_in_paste_output(c) {
            out.push(c);
        }
        proof {
            assert(c == input@[it.index()]);
            assert(out@ =~= before + contribution(input@, it.index()));
        }
        after_cr = c == '\r';
    }
    out
}

/// Sanitise text for a paste sink; `None` when nothing safe is left to write.
pub fn sanitize_for_paste(input: &str) -> (r: Option<String>)
    ensures
        r is Some <==> sanitized(input@).len() > 0,
        r matches Some(text) ==> text@ == sanitized(input@),
{
    let out = sanitize_clipboard_text(input);
    if out.as_str().is_empty() {
        None
    } else {
        Some(out)
    }
}

/// No forbidden scalar survives in the first `n` characters' worth of output.
proof fn lemma_prefix_is_safe(s: Seq<char>, n: int)
    requires
        0 <= n <= s.len(),
    ensures
        forall|j: int|
            0 <= j < sanitized_prefix(s, n).len() ==> !forbidden(
                #[trigger] sanitized_prefix(s, n)[j],
            ),
    decreases n,
{
    if n > 0 {
        lemma_prefix_is_safe(s, n - 1);
        let kept = sanitized_prefix(s, n - 1);
        let all = sanitized_prefix(s, n);
        assert forall|j: int| 0 <= j < all.len() implies !forbidden(#[trigger] all[j]) by {
            if j < kept.len() {
                assert(all[j] == kept[j]);
            } else {
                assert(all[j] == contribution(s, n - 1)[j - kept.len()]);
                assert('\n' as int == 0x0A);
            }
        }
    }
}

/// No forbidden scalar survives, whatever the input.
pub proof fn law_no_forbidden_scalar_survives(s: Seq<char>, j: int)
    requires
        0 <= j < sanitized(s).len(),
    ensures
        !forbidden(sanitized(s)[j]),
{
    lemma_prefix_is_safe(s, s.len() as int);
}

proof fn lemma_safe_prefix_unchanged(s: Seq<char>, n: int)
    requires
        0 <= n <= s.len(),
        forall|i: int| 0 <= i < s.len() ==> !forbidden(#[trigger] s[i]),
    ensures
        sanitized_prefix(s, n) == s.take(n),
    decreases n,
{
    if n > 0 {
        lemma_safe_prefix_unchanged(s, n - 1);
        assert(!forbidden(s[n - 1]));
        if n > 1 {
            assert(!forbidden(s[n - 2]));
        }
        assert(s.take(n) =~= s.take(n - 1) + seq![s[n - 1]]);
    }
}

/// Text without forbidden scalars is returned as it is.
pub proof fn law_identity_on_safe_text(s: Seq<char>)
    requires
        forall|i: int| 0 <= i < s.len() ==> !forbidden(#[trigger] s[i]),
    ensures
        sanitized(s) == s,
{
    lemma_safe_prefix_unchanged(s, s.len() as int);
    assert(s.take(s.len() as int) =~= s);
}

/// A second pass changes nothing.
pub proof fn law_sanitizing_is_idempotent(s: Seq<char>)
    ensures
        sanitized(sanitized(s)) == sanitized(s),
{
    lemma_prefix_is_safe(s, s.len() as int);
    law_identity_on_safe_text(sanitized(s));
}

/// Appending a character appends its encoding.
proof fn lemma_encoded_len_push(s: Seq<char>, c: char)
    ensures
        vstd::utf8::encode_utf8(s.push(c)).len() == vstd::utf8::encode_utf8(s).len()
            + vstd::utf8::encode_scalar(c as u32).len(),
    decreases s.len(),
{
    if s.len() == 0 {
        assert(s.push(c).drop_first() =~= Seq::<char>::empty());
        assert(vstd::utf8::encode_utf8(Seq::<char>::empty()).len() == 0);
        assert(s.push(c)[0] == c);
    } else {
        lemma_encoded_len_push(s.drop_first(), c);
        assert(s.push(c).drop_first() =~= s.drop_first().push(c));
        assert(s.push(c)[0] == s[0]);
    }
}

proof fn lemma_prefix_does_not_grow(s: Seq<char>, n: int)
    requires
        0 <= n <= s.len(),
    ensures
        vstd::utf8::encode_utf8(sanitized_prefix(s, n)).len() <= vstd::utf8::encode_utf8(
            s.take(n),
        ).len(),
    decreases n,
{
    if n > 0 {
        lemma_prefix_does_not_grow(s, n - 1);
        let c = s[n - 1];
        assert(s.take(n) =~= s.take(n - 1).push(c));
        lemma_encoded_len_push(s.take(n - 1), c);
        let kept = sanitized_prefix(s, n - 1);
        let added = contribution(s, n - 1);
        if added.len() == 0 {
            assert(kept + added =~= kept);
        } else {
            assert(kept + added =~= kept.push(added[0]));
            lemma_encoded_len_push(kept, added[0]);
        }
    } else {
        assert(s.take(0) =~= Seq::<char>::empty());
    }
}

/// The sanitised text never takes more bytes than the input.
pub proof fn law_never_grows(s: Seq<char>)
    ensures
        vstd::utf8::encode_utf8(sanitized(s)).len() <= vstd::utf8::encode_utf8(s).len(),
{
    lemma_prefix_does_not_grow(s, s.len() as int);
    assert(s.take(s.len() as int) =~= s);
}

/// What becomes of a text by itself. A CR, a line separator and a paragraph separator become LF. A
/// scalar is dropped when it is a control other than TAB and LF, a soft hyphen, a letter mark, a
/// vowel separator, a zero-width character, a bidi control, an invisible operator, a byte-order
/// mark, an annotation or musical control, a tag or a noncharacter. Every other one stays.
pub proof fn law_what_one_character_becomes(c: char)
    ensures
        ({
            let u = c as int;
            let newline = u == 0x0D || u == 0x2028 || u == 0x2029;
            let control = u < 0x20 && u != 0x09 && u != 0x0A || 0x7F <= u < 0xA0;
            let invisible = u == 0xAD || u == 0x061C || u == 0x180E || 0x200B <= u < 0x2010
                || 0x202A <= u < 0x202F || 0x2060 <= u < 0x2065 || 0x2066 <= u < 0x2070 || u
                == 0xFEFF || 0xFFF9 <= u < 0xFFFC || 0x1D173 <= u < 0x1D17B || 0xE0000 <= u
                < 0xE0080;
            let nonchar = 0xFDD0 <= u < 0xFDF0 || u % 0x10000 == 0xFFFE || u % 0x10000 == 0xFFFF;
            &&& newline ==> sanitized(seq![c]) == seq!['\n']
            &&& !newline && (control || invisible || nonchar) ==> sanitized(seq![c]) == Seq::<
                char,
            >::empty()
            &&& !newline && !control && !invisible && !nonchar ==> sanitized(seq![c]) == seq![c]
            &&& forbidden(c) <==> newline || control || invisible || nonchar
        }),
{
    let s = seq![c];
    assert(sanitized_prefix(s, 0) == Seq::<char>::empty());
    assert(sanitized_prefix(s, 1) == sanitized_prefix(s, 0) + contribution(s, 0));
    assert(sanitized(s) =~= contribution(s, 0));
    assert('\r' as int == 0x0D);
    assert('\n' as int == 0x0A);
    assert(LINE_SEPARATOR as int == 0x2028);
    assert(PARAGRAPH_SEPARATOR as int == 0x2029);
}

/// A text in front does not change with what follows it.
proof fn lemma_front_stays(a: Seq<char>, b: Seq<char>, n: int)
    requires
        0 <= n <= a.len(),
    ensures
        sanitized_prefix(a + b, n) == sanitized_prefix(a, n),
    decreases n,
{
    if n > 0 {
        lemma_front_stays(a, b, n - 1);
        assert((a + b)[n - 1] == a[n - 1]);
        if n > 1 {
            assert((a + b)[n - 2] == a[n - 2]);
        }
    }
}

/// A text behind does not change with what stands before it, unless that is a CR before its LF.
proof fn lemma_back_stays(a: Seq<char>, b: Seq<char>, k: int)
    requires
        0 <= k <= b.len(),
        !(a.len() > 0 && a.last() == '\r' && b.len() > 0 && b[0] == '\n'),
    ensures
        sanitized_prefix(a + b, a.len() + k) == sanitized(a) + sanitized_prefix(b, k),
    decreases k,
{
    if k > 0 {
        lemma_back_stays(a, b, k - 1);
        let i = a.len() + k - 1;
        assert((a + b)[i] == b[k - 1]);
        if k > 1 {
            assert((a + b)[i - 1] == b[k - 2]);
        } else if a.len() > 0 {
            assert((a + b)[i - 1] == a.last());
        }
        assert(contribution(a + b, i) == contribution(b, k - 1));
        assert(sanitized(a) + sanitized_prefix(b, k) =~= sanitized(a) + sanitized_prefix(b, k - 1)
            + contribution(b, k - 1));
    } else {
        lemma_front_stays(a, b, a.len() as int);
        assert(sanitized(a) + sanitized_prefix(b, 0) =~= sanitized(a));
    }
}

/// A text is sanitised piece by piece: what becomes of a piece does not depend on what stands
/// around it, but for an LF right behind a CR, which ends no other line than the CR did.
pub proof fn law_texts_are_sanitised_piece_by_piece(a: Seq<char>, b: Seq<char>)
    ensures
        a.len() > 0 && a.last() == '\r' && b.len() > 0 && b[0] == '\n' ==> sanitized(a + b)
            == sanitized(a) + sanitized(b.skip(1)),
        !(a.len() > 0 && a.last() == '\r' && b.len() > 0 && b[0] == '\n') ==> sanitized(a + b)
            == sanitized(a) + sanitized(b),
{
    if a.len() > 0 && a.last() == '\r' && b.len() > 0 && b[0] == '\n' {
        let crlf = a + seq!['\n'];
        let rest = b.skip(1);
        assert(a + b =~= crlf + rest);
        assert(crlf.last() == '\n');
        lemma_back_stays(crlf, rest, rest.len() as int);
        lemma_front_stays(a, seq!['\n'], a.len() as int);
        assert(crlf[crlf.len() - 1] == '\n' && crlf[crlf.len() - 2] == '\r');
        assert(contribution(crlf, crlf.len() - 1) == Seq::<char>::empty());
        assert(sanitized_prefix(crlf, crlf.len() as int) == sanitized_prefix(crlf, crlf.len() - 1)
            + contribution(crlf, crlf.len() - 1));
        assert(sanitized(crlf) =~= sanitized(a));
    } else {
        lemma_back_stays(a, b, b.len() as int);
    }
}

proof fn lemma_prefix_keeps_what_is_safe(s: Seq<char>, n: int)
    requires
        0 <= n <= s.len(),
    ensures
        sanitized_prefix(s, n).filter(|c: char| c != '\n') == s.take(n).filter(
            |c: char| c != '\n' && !forbidden(c),
        ),
    decreases n,
{
    reveal(Seq::filter);
    let not_lf = |c: char| c != '\n';
    let safe = |c: char| c != '\n' && !forbidden(c);
    if n > 0 {
        lemma_prefix_keeps_what_is_safe(s, n - 1);
        let kept = sanitized_prefix(s, n - 1);
        let added = contribution(s, n - 1);
        assert(s.take(n).drop_last() =~= s.take(n - 1));
        assert(s.take(n).last() == s[n - 1]);
        assert('\r' as int == 0x0D);
        assert(LINE_SEPARATOR as int == 0x2028);
        assert(PARAGRAPH_SEPARATOR as int == 0x2029);
        if added.len() == 0 {
            assert(kept + added =~= kept);
        } else {
            assert(kept + added =~= kept.push(added[0]));
            assert(kept.push(added[0]).drop_last() =~= kept);
            assert(kept.push(added[0]).last() == added[0]);
        }
    }
}

/// Nothing that is safe is lost, whatever stands around it, and nothing is moved or made up: but
/// for the LFs, the text that comes out is what goes in without the forbidden scalars.
pub proof fn law_nothing_safe_is_lost(s: Seq<char>)
    ensures
        sanitized(s).filter(|c: char| c != '\n') == s.filter(
            |c: char| c != '\n' && !forbidden(c),
        ),
{
    lemma_prefix_keeps_what_is_safe(s, s.len() as int);
    assert(s.take(s.len() as int) =~= s);
}

/// A line of `s` ends at position `i`: with an LF that follows no CR, a CR, a line separator or a
/// paragraph separator.
pub open spec fn ends_line(s: Seq<char>, i: int) -> bool {
    ||| s[i] == '\n' && !(i > 0 && s[i - 1] == '\r')
    ||| s[i] == '\r'
    ||| s[i] == '\u{2028}'
    ||| s[i] == '\u{2029}'
}

proof fn lemma_prefix_has_a_newline_for_each_line(s: Seq<char>, n: int)
    requires
        0 <= n <= s.len(),
    ensures
        sanitized_prefix(s, n).filter(|c: char| c == '\n').len() == Seq::new(
            n as nat,
            |i: int| i,
        ).filter(|i: int| ends_line(s, i)).len(),
    decreases n,
{
    reveal(Seq::filter);
    let at = |i: int| i;
    let positions = Seq::new(n as nat, at);
    if n > 0 {
        lemma_prefix_has_a_newline_for_each_line(s, n - 1);
        let kept = sanitized_prefix(s, n - 1);
        let added = contribution(s, n - 1);
        assert(positions.drop_last() =~= Seq::new((n - 1) as nat, at));
        assert(positions.last() == n - 1);
        assert('\n' as int == 0x0A);
        if added.len() == 0 {
            assert(kept + added =~= kept);
        } else {
            assert(kept + added =~= kept.push(added[0]));
            assert(kept.push(added[0]).drop_last() =~= kept);
            assert(kept.push(added[0]).last() == added[0]);
        }
    }
}

/// There are as many LFs in the text that comes out as there are line ends in what goes in, where a
/// CR and an LF right behind it are one.
pub proof fn law_lines_stay_lines(s: Seq<char>)
    ensures
        sanitized(s).filter(|c: char| c == '\n').len() == Seq::new(s.len(), |i: int| i).filter(
            |i: int| ends_line(s, i),
        ).len(),
{
    lemma_prefix_has_a_newline_for_each_line(s, s.len() as int);
}

} // verus!
